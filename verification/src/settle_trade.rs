use vstd::prelude::*;

use crate::errors::ErrorCode;

verus! {

/// The accounts a settle call presents: the token whose fees are being
/// distributed, the caller triggering the distribution, the fee-collection
/// balance being drained, and the balances of the three payout pools.
#[derive(Clone, Copy, Debug, PartialEq, Eq)]
pub struct SettleFee {
    pub token_mint: [u8; 32],
    pub caller: [u8; 32],
    pub source_fee_amount: u64,
    pub liquidity_staker_amount: u64,
    pub treasury_amount: u64,
    pub bounty_amount: u64,
}

/// Notification emitted by a successful fee distribution.
#[derive(Clone, Copy, Debug, PartialEq, Eq)]
pub struct FeeDistributed {
    pub token_mint: [u8; 32],
    pub total_fee: u64,
    pub liquidity_stakers_fee: u64,
    pub treasury_fee: u64,
    pub mev_bounty_fee: u64,
    pub caller: [u8; 32],
    pub timestamp: u64,
}

/// Notification emitted when the payout destinations and the fee-collection
/// account for a token are provisioned.
#[derive(Clone, Copy, Debug, PartialEq, Eq)]
pub struct FeeAccountsInitialized {
    pub token_mint: [u8; 32],
    pub fee_authority: [u8; 32],
    pub liquidity_stakers: [u8; 32],
    pub treasury: [u8; 32],
    pub mev_bounty: [u8; 32],
    pub fee_collection: [u8; 32],
    pub timestamp: u64,
}

/// The three-way split of a settled amount, as (stakers, treasury, bounty):
/// the treasury takes 30% rounded down, the stakers take 50% rounded down,
/// and the bounty pool absorbs the remainder, so the three shares always
/// sum exactly to the settled amount. Overflow of an intermediate product
/// fails the split.
pub open spec fn fee_split_spec(fee_amount: u64) -> Result<(u64, u64, u64), ErrorCode> {
    if fee_amount * 30 > u64::MAX {
        Err(ErrorCode::MathOverflow)
    } else if fee_amount * 50 > u64::MAX {
        Err(ErrorCode::MathOverflow)
    } else {
        Ok(
            (
                ((fee_amount * 50) / 100) as u64,
                ((fee_amount * 30) / 100) as u64,
                (fee_amount - (fee_amount * 30) / 100 - (fee_amount * 50) / 100) as u64,
            ),
        )
    }
}

/// Computes the three payout shares with overflow-checked arithmetic.
///
/// For any amount the split succeeds on, the three shares sum exactly to
/// that amount: no value is lost to rounding.
pub fn compute_fee_split(fee_amount: u64) -> (r: Result<(u64, u64, u64), ErrorCode>)
    ensures
        r == fee_split_spec(fee_amount),
        r matches Ok(split) ==> split.0 + split.1 + split.2 == fee_amount,
        r matches Ok(split) ==> split.0 <= fee_amount && split.1 <= fee_amount && split.2
            <= fee_amount,
{
    let treasury_fee = match fee_amount.checked_mul(30) {
        Some(scaled) => match scaled.checked_div(100) {
            Some(fee) => fee,
            None => {
                return Err(ErrorCode::MathOverflow);
            },
        },
        None => {
            return Err(ErrorCode::MathOverflow);
        },
    };
    let stakers_fee = match fee_amount.checked_mul(50) {
        Some(scaled) => match scaled.checked_div(100) {
            Some(fee) => fee,
            None => {
                return Err(ErrorCode::MathOverflow);
            },
        },
        None => {
            return Err(ErrorCode::MathOverflow);
        },
    };
    let bounty_fee = match fee_amount.checked_sub(treasury_fee) {
        Some(rest) => match rest.checked_sub(stakers_fee) {
            Some(fee) => fee,
            None => {
                return Err(ErrorCode::MathOverflow);
            },
        },
        None => {
            return Err(ErrorCode::MathOverflow);
        },
    };
    Ok((stakers_fee, treasury_fee, bounty_fee))
}

/// The outcome of a settle call on the presented balances: a zero amount or
/// an underfunded source aborts before anything moves; otherwise the three
/// shares are computed and paid out of the source to the stakers, treasury
/// and bounty pools in that order, the first pool transfer that cannot be
/// performed failing the whole call with nothing moved.
pub open spec fn settle_spec(accounts: SettleFee, fee_amount: u64, now: u64) -> Result<
    (SettleFee, FeeDistributed),
    ErrorCode,
> {
    if fee_amount == 0 {
        Err(ErrorCode::AmountTooSmall)
    } else if accounts.source_fee_amount < fee_amount {
        Err(ErrorCode::InsufficientBalance)
    } else {
        match fee_split_spec(fee_amount) {
            Err(e) => Err(e),
            Ok(split) => {
                if accounts.liquidity_staker_amount + split.0 > u64::MAX {
                    Err(ErrorCode::FeeDistributionError)
                } else if accounts.treasury_amount + split.1 > u64::MAX {
                    Err(ErrorCode::FeeDistributionError)
                } else if accounts.bounty_amount + split.2 > u64::MAX {
                    Err(ErrorCode::FeeDistributionError)
                } else {
                    Ok(
                        (
                            SettleFee {
                                token_mint: accounts.token_mint,
                                caller: accounts.caller,
                                source_fee_amount: (accounts.source_fee_amount
                                    - fee_amount) as u64,
                                liquidity_staker_amount: (accounts.liquidity_staker_amount
                                    + split.0) as u64,
                                treasury_amount: (accounts.treasury_amount + split.1) as u64,
                                bounty_amount: (accounts.bounty_amount + split.2) as u64,
                            },
                            FeeDistributed {
                                token_mint: accounts.token_mint,
                                total_fee: fee_amount,
                                liquidity_stakers_fee: split.0,
                                treasury_fee: split.1,
                                mev_bounty_fee: split.2,
                                caller: accounts.caller,
                                timestamp: now,
                            },
                        ),
                    )
                }
            },
        }
    }
}

/// Splits `fee_amount` out of the fee pool into the three payout pools.
///
/// Fail-fast: the first failing check aborts with its error and leaves
/// every balance as it was. On success exactly `fee_amount` leaves the
/// source, the three pools receive shares summing exactly to it, and the
/// returned notification reports all four amounts. Settle is a standalone,
/// repeatable drain: no per-intent state governs it, so it succeeds exactly
/// as often as the source balance allows.
pub fn handler(accounts: &mut SettleFee, fee_amount: u64, now: u64) -> (r: Result<
    FeeDistributed,
    ErrorCode,
>)
    ensures
        ({
            let outcome = settle_spec(*old(accounts), fee_amount, now);
            match r {
                Ok(event) => outcome == Ok::<(SettleFee, FeeDistributed), ErrorCode>(
                    (*final(accounts), event),
                ),
                Err(e) => outcome == Err::<(SettleFee, FeeDistributed), ErrorCode>(e)
                    && *final(accounts) == *old(accounts),
            }
        }),
        r is Ok ==> final(accounts).source_fee_amount == old(accounts).source_fee_amount
            - fee_amount,
        r is Ok ==> final(accounts).source_fee_amount + final(accounts).liquidity_staker_amount
            + final(accounts).treasury_amount + final(accounts).bounty_amount
            == old(accounts).source_fee_amount + old(accounts).liquidity_staker_amount
            + old(accounts).treasury_amount + old(accounts).bounty_amount,
{
    if fee_amount == 0 {
        return Err(ErrorCode::AmountTooSmall);
    }
    if accounts.source_fee_amount < fee_amount {
        return Err(ErrorCode::InsufficientBalance);
    }
    let (stakers_fee, treasury_fee, bounty_fee) = match compute_fee_split(fee_amount) {
        Ok(split) => split,
        Err(e) => {
            return Err(e);
        },
    };
    let stakers_after = match accounts.liquidity_staker_amount.checked_add(stakers_fee) {
        Some(x) => x,
        None => {
            return Err(ErrorCode::FeeDistributionError);
        },
    };
    let treasury_after = match accounts.treasury_amount.checked_add(treasury_fee) {
        Some(x) => x,
        None => {
            return Err(ErrorCode::FeeDistributionError);
        },
    };
    let bounty_after = match accounts.bounty_amount.checked_add(bounty_fee) {
        Some(x) => x,
        None => {
            return Err(ErrorCode::FeeDistributionError);
        },
    };
    let source_after = match accounts.source_fee_amount.checked_sub(fee_amount) {
        Some(x) => x,
        None => {
            return Err(ErrorCode::FeeDistributionError);
        },
    };
    accounts.source_fee_amount = source_after;
    accounts.liquidity_staker_amount = stakers_after;
    accounts.treasury_amount = treasury_after;
    accounts.bounty_amount = bounty_after;
    Ok(
        FeeDistributed {
            token_mint: accounts.token_mint,
            total_fee: fee_amount,
            liquidity_stakers_fee: stakers_fee,
            treasury_fee,
            mev_bounty_fee: bounty_fee,
            caller: accounts.caller,
            timestamp: now,
        },
    )
}

/// Distributes collected fees to the payout pools: the protocol-level entry
/// point, forwarding to [`handler`].
pub fn settle_trade(accounts: &mut SettleFee, fee_amount: u64, now: u64) -> (r: Result<
    FeeDistributed,
    ErrorCode,
>)
    ensures
        ({
            let outcome = settle_spec(*old(accounts), fee_amount, now);
            match r {
                Ok(event) => outcome == Ok::<(SettleFee, FeeDistributed), ErrorCode>(
                    (*final(accounts), event),
                ),
                Err(e) => outcome == Err::<(SettleFee, FeeDistributed), ErrorCode>(e)
                    && *final(accounts) == *old(accounts),
            }
        }),
{
    handler(accounts, fee_amount, now)
}

/// The accounts an initialization call presents: the token whose pools are
/// being provisioned, the protocol's delegated fee authority, the three
/// payout destinations, the fee-collection account, and the payer.
#[derive(Clone, Copy, Debug, PartialEq, Eq)]
pub struct InitializeFeeAccounts {
    pub token_mint: [u8; 32],
    pub fee_collection_authority: [u8; 32],
    pub liquidity_staker_account: [u8; 32],
    pub treasury_account: [u8; 32],
    pub bounty_account: [u8; 32],
    pub fee_collection_account: [u8; 32],
    pub payer: [u8; 32],
}

/// Provisions the payout destinations and the fee-collection account for a
/// token: every balance starts at zero, and the returned notification names
/// all five provisioned accounts.
pub fn initialize_fee_accounts(accounts: &InitializeFeeAccounts, now: u64) -> (r: (
    SettleFee,
    FeeAccountsInitialized,
))
    ensures
        r.0 == (SettleFee {
            token_mint: accounts.token_mint,
            caller: accounts.payer,
            source_fee_amount: 0,
            liquidity_staker_amount: 0,
            treasury_amount: 0,
            bounty_amount: 0,
        }),
        r.1 == (FeeAccountsInitialized {
            token_mint: accounts.token_mint,
            fee_authority: accounts.fee_collection_authority,
            liquidity_stakers: accounts.liquidity_staker_account,
            treasury: accounts.treasury_account,
            mev_bounty: accounts.bounty_account,
            fee_collection: accounts.fee_collection_account,
            timestamp: now,
        }),
{
    (
        SettleFee {
            token_mint: accounts.token_mint,
            caller: accounts.payer,
            source_fee_amount: 0,
            liquidity_staker_amount: 0,
            treasury_amount: 0,
            bounty_amount: 0,
        },
        FeeAccountsInitialized {
            token_mint: accounts.token_mint,
            fee_authority: accounts.fee_collection_authority,
            liquidity_stakers: accounts.liquidity_staker_account,
            treasury: accounts.treasury_account,
            mev_bounty: accounts.bounty_account,
            fee_collection: accounts.fee_collection_account,
            timestamp: now,
        },
    )
}

/// Settlement truly drains the pool, so settle is not idempotent by design:
/// when the source holds enough for one settle of `fee_amount` but not two,
/// the second identical call fails with `InsufficientBalance`.
pub proof fn lemma_settle_not_idempotent(
    accounts: SettleFee,
    fee_amount: u64,
    now: u64,
    accounts_after: SettleFee,
    now2: u64,
)
    requires
        settle_spec(accounts, fee_amount, now) matches Ok(outcome) && accounts_after == outcome.0,
        accounts.source_fee_amount < 2 * fee_amount,
    ensures
        settle_spec(accounts_after, fee_amount, now2) == Err::<
            (SettleFee, FeeDistributed),
            ErrorCode,
        >(ErrorCode::InsufficientBalance),
{
}

} // verus!
