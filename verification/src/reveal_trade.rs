use vstd::prelude::*;

use crate::errors::ErrorCode;
use crate::hashing::bytes32_eq;
use crate::hashing::compute_intent_hash;
use crate::hashing::intent_encoding;
use crate::hashing::sha256_of;
use crate::signature::sig_binding_ok;
use crate::signature::verify_ed25519_signature;
use crate::signature::InstructionInfo;
use crate::state::Config;
use crate::state::SwapIntent;
use crate::state::TradeIntentData;

verus! {

/// The accounts a reveal call presents: the two signer identities, the two
/// token identities, and the balances of the five ledger accounts the swap
/// touches (user and relayer on each side, and the fee-collection pool on
/// the input side).
#[derive(Clone, Copy, Debug, PartialEq, Eq)]
pub struct RevealTrade {
    pub user: [u8; 32],
    pub relayer: [u8; 32],
    pub token_in_mint: [u8; 32],
    pub token_out_mint: [u8; 32],
    pub user_token_in_amount: u64,
    pub user_token_out_amount: u64,
    pub relayer_token_in_amount: u64,
    pub relayer_token_out_amount: u64,
    pub fee_collection_amount: u64,
}

/// Notification emitted by a successful reveal.
#[derive(Clone, Copy, Debug, PartialEq, Eq)]
pub struct TradeExecuted {
    pub user: [u8; 32],
    pub relayer: [u8; 32],
    pub token_in: [u8; 32],
    pub token_out: [u8; 32],
    pub amount_in: u64,
    pub amount_out: u64,
    pub protocol_fee: u64,
    pub relayer_fee: u64,
    pub nonce: u64,
    pub timestamp: u64,
}

/// Output amount quoted for swapping `amount` of one token into another:
/// an identity quote, deliberately a placeholder for a real routing
/// strategy. Validation does not depend on which quote is plugged in.
pub open spec fn quote_spec(token_in: Seq<u8>, token_out: Seq<u8>, amount: u64) -> u64 {
    amount
}

/// Quotes the output amount for a swap. Identity pass-through placeholder.
pub fn quote(token_in: &[u8; 32], token_out: &[u8; 32], amount: u64) -> (r: u64)
    ensures
        r == quote_spec(token_in@, token_out@, amount),
{
    amount
}

/// The protocol fee withheld from the input leg: `fee_bps` basis points of
/// `amount_in`, rounded down; overflow of the intermediate product fails.
pub open spec fn protocol_fee_spec(amount_in: u64, fee_bps: u16) -> Result<u64, ErrorCode> {
    if amount_in * fee_bps > u64::MAX {
        Err(ErrorCode::MathOverflow)
    } else {
        Ok(((amount_in * fee_bps) / 10000) as u64)
    }
}

/// Computes the protocol fee with overflow-checked arithmetic.
pub fn compute_protocol_fee(amount_in: u64, fee_bps: u16) -> (r: Result<u64, ErrorCode>)
    ensures
        r == protocol_fee_spec(amount_in, fee_bps),
{
    let scaled = match amount_in.checked_mul(fee_bps as u64) {
        Some(p) => p,
        None => {
            return Err(ErrorCode::MathOverflow);
        },
    };
    match scaled.checked_div(10000) {
        Some(fee) => Ok(fee),
        None => Err(ErrorCode::MathOverflow),
    }
}

/// An atomic ledger transfer of `amount` can be performed: the source holds
/// at least `amount` and the destination does not overflow.
pub open spec fn transfer_ok(from: u64, to: u64, amount: u64) -> bool {
    amount <= from && to + amount <= u64::MAX
}

/// The outcome of the four-leg atomic swap on the presented balances, legs
/// in order: input minus protocol fee from user to relayer; protocol fee
/// from user to the fee pool, when positive; output from relayer to user;
/// relayer fee from user to relayer on the output side, when positive.
/// The first leg that cannot be performed fails the whole sequence, and a
/// failed sequence changes nothing.
pub open spec fn swap_spec(
    accounts: RevealTrade,
    amount_in: u64,
    protocol_fee: u64,
    actual_out_amount: u64,
    relayer_fee: u64,
) -> Result<RevealTrade, ErrorCode> {
    if amount_in < protocol_fee {
        Err(ErrorCode::MathOverflow)
    } else {
        let user_to_relayer = (amount_in - protocol_fee) as u64;
        if !transfer_ok(
            accounts.user_token_in_amount,
            accounts.relayer_token_in_amount,
            user_to_relayer,
        ) {
            Err(ErrorCode::SwapExecutionFailed)
        } else if protocol_fee > 0 && !transfer_ok(
            (accounts.user_token_in_amount - user_to_relayer) as u64,
            accounts.fee_collection_amount,
            protocol_fee,
        ) {
            Err(ErrorCode::SwapExecutionFailed)
        } else if !transfer_ok(
            accounts.relayer_token_out_amount,
            accounts.user_token_out_amount,
            actual_out_amount,
        ) {
            Err(ErrorCode::SwapExecutionFailed)
        } else if relayer_fee > 0 && !transfer_ok(
            (accounts.user_token_out_amount + actual_out_amount) as u64,
            (accounts.relayer_token_out_amount - actual_out_amount) as u64,
            relayer_fee,
        ) {
            Err(ErrorCode::SwapExecutionFailed)
        } else {
            Ok(
                RevealTrade {
                    user: accounts.user,
                    relayer: accounts.relayer,
                    token_in_mint: accounts.token_in_mint,
                    token_out_mint: accounts.token_out_mint,
                    user_token_in_amount: (accounts.user_token_in_amount - amount_in) as u64,
                    user_token_out_amount: (accounts.user_token_out_amount + actual_out_amount
                        - relayer_fee) as u64,
                    relayer_token_in_amount: (accounts.relayer_token_in_amount
                        + user_to_relayer) as u64,
                    relayer_token_out_amount: (accounts.relayer_token_out_amount
                        - actual_out_amount + relayer_fee) as u64,
                    fee_collection_amount: (accounts.fee_collection_amount
                        + protocol_fee) as u64,
                },
            )
        }
    }
}

/// Performs the four transfer legs of the swap as one atomic unit: either
/// all of them take effect, or a failure leaves every balance as it was.
/// Identities are never changed. On success, value is conserved per token:
/// the three input-side balances and the two output-side balances each keep
/// their sum.
pub fn execute_atomic_swap(
    accounts: &mut RevealTrade,
    amount_in: u64,
    protocol_fee: u64,
    actual_out_amount: u64,
    relayer_fee: u64,
) -> (r: Result<(), ErrorCode>)
    ensures
        match r {
            Ok(()) => swap_spec(
                *old(accounts),
                amount_in,
                protocol_fee,
                actual_out_amount,
                relayer_fee,
            ) == Ok::<RevealTrade, ErrorCode>(*final(accounts)),
            Err(e) => swap_spec(
                *old(accounts),
                amount_in,
                protocol_fee,
                actual_out_amount,
                relayer_fee,
            ) == Err::<RevealTrade, ErrorCode>(e) && *final(accounts) == *old(accounts),
        },
        r is Ok ==> final(accounts).user_token_in_amount
            + final(accounts).relayer_token_in_amount + final(accounts).fee_collection_amount
            == old(accounts).user_token_in_amount + old(accounts).relayer_token_in_amount
            + old(accounts).fee_collection_amount,
        r is Ok ==> final(accounts).user_token_out_amount
            + final(accounts).relayer_token_out_amount == old(accounts).user_token_out_amount
            + old(accounts).relayer_token_out_amount,
{
    let user_to_relayer = match amount_in.checked_sub(protocol_fee) {
        Some(a) => a,
        None => {
            return Err(ErrorCode::MathOverflow);
        },
    };
    let user_in_after_leg = match accounts.user_token_in_amount.checked_sub(user_to_relayer) {
        Some(x) => x,
        None => {
            return Err(ErrorCode::SwapExecutionFailed);
        },
    };
    let relayer_in_after = match accounts.relayer_token_in_amount.checked_add(user_to_relayer) {
        Some(x) => x,
        None => {
            return Err(ErrorCode::SwapExecutionFailed);
        },
    };
    let (user_in_after, fee_after) = if protocol_fee > 0 {
        let ui = match user_in_after_leg.checked_sub(protocol_fee) {
            Some(x) => x,
            None => {
                return Err(ErrorCode::SwapExecutionFailed);
            },
        };
        let fc = match accounts.fee_collection_amount.checked_add(protocol_fee) {
            Some(x) => x,
            None => {
                return Err(ErrorCode::SwapExecutionFailed);
            },
        };
        (ui, fc)
    } else {
        (user_in_after_leg, accounts.fee_collection_amount)
    };
    let relayer_out_after_leg = match accounts.relayer_token_out_amount.checked_sub(
        actual_out_amount,
    ) {
        Some(x) => x,
        None => {
            return Err(ErrorCode::SwapExecutionFailed);
        },
    };
    let user_out_after_leg = match accounts.user_token_out_amount.checked_add(actual_out_amount) {
        Some(x) => x,
        None => {
            return Err(ErrorCode::SwapExecutionFailed);
        },
    };
    let (user_out_after, relayer_out_after) = if relayer_fee > 0 {
        let uo = match user_out_after_leg.checked_sub(relayer_fee) {
            Some(x) => x,
            None => {
                return Err(ErrorCode::SwapExecutionFailed);
            },
        };
        let ro = match relayer_out_after_leg.checked_add(relayer_fee) {
            Some(x) => x,
            None => {
                return Err(ErrorCode::SwapExecutionFailed);
            },
        };
        (uo, ro)
    } else {
        (user_out_after_leg, relayer_out_after_leg)
    };
    accounts.user_token_in_amount = user_in_after;
    accounts.relayer_token_in_amount = relayer_in_after;
    accounts.fee_collection_amount = fee_after;
    accounts.user_token_out_amount = user_out_after;
    accounts.relayer_token_out_amount = relayer_out_after;
    Ok(())
}

/// The outcome of a reveal call: the first failing pre-execution check
/// aborts with its error and nothing changes; when every check passes and
/// all four transfer legs can be performed, the outcome is the commitment
/// marked revealed, the moved balances, and the emitted notification.
///
/// The checks, in order: the commitment is unrevealed and unexpired and its
/// nonce matches the terms; the calling user and relayer are the ones the
/// terms name; the presented tokens are the ones the terms name; both
/// amounts are positive and the relayer fee is under a tenth of the input;
/// the recomputed digest of the terms equals the supplied hash, which
/// equals the stored commitment hash; the user can fund the input. Then
/// the signature binding is confirmed: the supplied signature, the user's
/// key and that digest are bound to the immediately preceding batch step.
/// Then execution: the protocol fee can be computed, the quote meets the
/// minimum output, and the relayer can fund the output.
pub open spec fn reveal_spec(
    stored: SwapIntent,
    accounts: RevealTrade,
    intent: TradeIntentData,
    expected_hash: Seq<u8>,
    signature: Seq<u8>,
    prev_instruction: Option<InstructionInfo>,
    ed25519_program_id: Seq<u8>,
    fee_bps: u16,
    now: u64,
) -> Result<(SwapIntent, RevealTrade, TradeExecuted), ErrorCode> {
    if stored.revealed {
        Err(ErrorCode::AlreadyRevealed)
    } else if !(stored.expiry > now) {
        Err(ErrorCode::IntentExpired)
    } else if stored.nonce != intent.nonce {
        Err(ErrorCode::NonceMismatch)
    } else if intent.user@ != accounts.user@ {
        Err(ErrorCode::InvalidSignature)
    } else if intent.relayer@ != accounts.relayer@ {
        Err(ErrorCode::InvalidSignature)
    } else if intent.token_in@ != accounts.token_in_mint@ {
        Err(ErrorCode::HashMismatch)
    } else if intent.token_out@ != accounts.token_out_mint@ {
        Err(ErrorCode::HashMismatch)
    } else if intent.amount_in == 0 {
        Err(ErrorCode::AmountTooSmall)
    } else if intent.min_out == 0 {
        Err(ErrorCode::AmountTooSmall)
    } else if !(intent.relayer_fee < intent.amount_in / 10) {
        Err(ErrorCode::RelayerFeeTooHigh)
    } else if sha256_of(intent_encoding(intent)) != expected_hash {
        Err(ErrorCode::HashMismatch)
    } else if stored.intent_hash@ != expected_hash {
        Err(ErrorCode::HashMismatch)
    } else if accounts.user_token_in_amount < intent.amount_in {
        Err(ErrorCode::InsufficientBalance)
    } else if !sig_binding_ok(
        prev_instruction,
        ed25519_program_id,
        signature,
        accounts.user@,
        expected_hash,
    ) {
        Err(ErrorCode::InvalidSignature)
    } else {
        match protocol_fee_spec(intent.amount_in, fee_bps) {
            Err(e) => Err(e),
            Ok(protocol_fee) => {
                if intent.amount_in < protocol_fee {
                    Err(ErrorCode::MathOverflow)
                } else {
                    let swap_amount_after_fee = (intent.amount_in - protocol_fee) as u64;
                    let actual_out_amount = quote_spec(
                        intent.token_in@,
                        intent.token_out@,
                        swap_amount_after_fee,
                    );
                    if actual_out_amount < intent.min_out {
                        Err(ErrorCode::SlippageExceeded)
                    } else if accounts.relayer_token_out_amount < actual_out_amount {
                        Err(ErrorCode::InsufficientBalance)
                    } else {
                        match swap_spec(
                            accounts,
                            intent.amount_in,
                            protocol_fee,
                            actual_out_amount,
                            intent.relayer_fee,
                        ) {
                            Err(e) => Err(e),
                            Ok(new_accounts) => Ok(
                                (
                                    SwapIntent {
                                        user: stored.user,
                                        intent_hash: stored.intent_hash,
                                        nonce: stored.nonce,
                                        expiry: stored.expiry,
                                        timestamp: stored.timestamp,
                                        revealed: true,
                                    },
                                    new_accounts,
                                    TradeExecuted {
                                        user: intent.user,
                                        relayer: intent.relayer,
                                        token_in: intent.token_in,
                                        token_out: intent.token_out,
                                        amount_in: intent.amount_in,
                                        amount_out: actual_out_amount,
                                        protocol_fee,
                                        relayer_fee: intent.relayer_fee,
                                        nonce: intent.nonce,
                                        timestamp: now,
                                    },
                                ),
                            ),
                        }
                    }
                }
            },
        }
    }
}

/// Validates a reveal against the stored commitment and executes the trade.
///
/// The store addresses a record by its (user, nonce), so a reveal call can
/// only ever present the calling user's own commitment; that structural
/// guarantee is the precondition here.
///
/// Fail-fast: the first failing check aborts the call with its error and
/// leaves the commitment and every balance exactly as they were. On success
/// the commitment is marked revealed (its one lifecycle transition), the
/// four transfer legs take effect as one atomic unit, and the returned
/// notification reports the executed amounts.
pub fn handle_reveal(
    stored: &mut SwapIntent,
    accounts: &mut RevealTrade,
    intent: &TradeIntentData,
    expected_hash: &[u8; 32],
    signature: &[u8; 64],
    prev_instruction: &Option<InstructionInfo>,
    ed25519_program_id: &[u8; 32],
    config: &Config,
    now: u64,
) -> (r: Result<TradeExecuted, ErrorCode>)
    requires
        old(stored).user@ == old(accounts).user@,
    ensures
        ({
            let outcome = reveal_spec(
                *old(stored),
                *old(accounts),
                *intent,
                expected_hash@,
                signature@,
                *prev_instruction,
                ed25519_program_id@,
                config.fee_bps,
                now,
            );
            match r {
                Ok(event) => outcome == Ok::<(SwapIntent, RevealTrade, TradeExecuted), ErrorCode>(
                    (*final(stored), *final(accounts), event),
                ),
                Err(e) => outcome == Err::<(SwapIntent, RevealTrade, TradeExecuted), ErrorCode>(e)
                    && *final(stored) == *old(stored) && *final(accounts) == *old(accounts),
            }
        }),
        r is Ok ==> final(stored).revealed,
{
    if stored.revealed {
        return Err(ErrorCode::AlreadyRevealed);
    }
    if stored.expiry <= now {
        return Err(ErrorCode::IntentExpired);
    }
    if stored.nonce != intent.nonce {
        return Err(ErrorCode::NonceMismatch);
    }
    if !bytes32_eq(&intent.user, &accounts.user) {
        return Err(ErrorCode::InvalidSignature);
    }
    if !bytes32_eq(&intent.relayer, &accounts.relayer) {
        return Err(ErrorCode::InvalidSignature);
    }
    if !bytes32_eq(&intent.token_in, &accounts.token_in_mint) {
        return Err(ErrorCode::HashMismatch);
    }
    if !bytes32_eq(&intent.token_out, &accounts.token_out_mint) {
        return Err(ErrorCode::HashMismatch);
    }
    if intent.amount_in == 0 {
        return Err(ErrorCode::AmountTooSmall);
    }
    if intent.min_out == 0 {
        return Err(ErrorCode::AmountTooSmall);
    }
    if intent.relayer_fee >= intent.amount_in / 10 {
        return Err(ErrorCode::RelayerFeeTooHigh);
    }
    let computed_hash = compute_intent_hash(intent);
    if !bytes32_eq(&computed_hash, expected_hash) {
        return Err(ErrorCode::HashMismatch);
    }
    if !bytes32_eq(&stored.intent_hash, expected_hash) {
        return Err(ErrorCode::HashMismatch);
    }
    if accounts.user_token_in_amount < intent.amount_in {
        return Err(ErrorCode::InsufficientBalance);
    }
    match verify_ed25519_signature(
        prev_instruction,
        ed25519_program_id,
        signature,
        &accounts.user,
        expected_hash,
    ) {
        Ok(()) => {},
        Err(e) => {
            return Err(e);
        },
    }
    let protocol_fee = match compute_protocol_fee(intent.amount_in, config.fee_bps) {
        Ok(fee) => fee,
        Err(e) => {
            return Err(e);
        },
    };
    let swap_amount_after_fee = match intent.amount_in.checked_sub(protocol_fee) {
        Some(amount) => amount,
        None => {
            return Err(ErrorCode::MathOverflow);
        },
    };
    let actual_out_amount = quote(&intent.token_in, &intent.token_out, swap_amount_after_fee);
    if actual_out_amount < intent.min_out {
        return Err(ErrorCode::SlippageExceeded);
    }
    if accounts.relayer_token_out_amount < actual_out_amount {
        return Err(ErrorCode::InsufficientBalance);
    }
    match execute_atomic_swap(
        accounts,
        intent.amount_in,
        protocol_fee,
        actual_out_amount,
        intent.relayer_fee,
    ) {
        Ok(()) => {},
        Err(e) => {
            return Err(e);
        },
    }
    stored.revealed = true;
    Ok(
        TradeExecuted {
            user: intent.user,
            relayer: intent.relayer,
            token_in: intent.token_in,
            token_out: intent.token_out,
            amount_in: intent.amount_in,
            amount_out: actual_out_amount,
            protocol_fee,
            relayer_fee: intent.relayer_fee,
            nonce: intent.nonce,
            timestamp: now,
        },
    )
}

/// Reveals and executes a committed trade: the protocol-level entry point,
/// forwarding to [`handle_reveal`].
pub fn reveal_trade(
    stored: &mut SwapIntent,
    accounts: &mut RevealTrade,
    intent: &TradeIntentData,
    expected_hash: &[u8; 32],
    signature: &[u8; 64],
    prev_instruction: &Option<InstructionInfo>,
    ed25519_program_id: &[u8; 32],
    config: &Config,
    now: u64,
) -> (r: Result<TradeExecuted, ErrorCode>)
    requires
        old(stored).user@ == old(accounts).user@,
    ensures
        ({
            let outcome = reveal_spec(
                *old(stored),
                *old(accounts),
                *intent,
                expected_hash@,
                signature@,
                *prev_instruction,
                ed25519_program_id@,
                config.fee_bps,
                now,
            );
            match r {
                Ok(event) => outcome == Ok::<(SwapIntent, RevealTrade, TradeExecuted), ErrorCode>(
                    (*final(stored), *final(accounts), event),
                ),
                Err(e) => outcome == Err::<(SwapIntent, RevealTrade, TradeExecuted), ErrorCode>(e)
                    && *final(stored) == *old(stored) && *final(accounts) == *old(accounts),
            }
        }),
        r is Ok ==> final(stored).revealed,
{
    handle_reveal(
        stored,
        accounts,
        intent,
        expected_hash,
        signature,
        prev_instruction,
        ed25519_program_id,
        config,
        now,
    )
}

/// For every valid reveal, the recomputed digest of the revealed terms
/// equals the supplied hash, which equals the stored commitment hash: all
/// three agree bit for bit.
pub proof fn lemma_reveal_hash_binding(
    stored: SwapIntent,
    accounts: RevealTrade,
    intent: TradeIntentData,
    expected_hash: Seq<u8>,
    signature: Seq<u8>,
    prev_instruction: Option<InstructionInfo>,
    ed25519_program_id: Seq<u8>,
    fee_bps: u16,
    now: u64,
)
    requires
        reveal_spec(
            stored,
            accounts,
            intent,
            expected_hash,
            signature,
            prev_instruction,
            ed25519_program_id,
            fee_bps,
            now,
        ) is Ok,
    ensures
        sha256_of(intent_encoding(intent)) == expected_hash,
        stored.intent_hash@ == expected_hash,
{
}

/// A commitment can be revealed at most once: a successful reveal leaves
/// the record marked revealed, and any further reveal attempt on that
/// record fails with `AlreadyRevealed`, whatever terms, hash, signature,
/// batch, configuration or time accompany it.
pub proof fn lemma_reveal_at_most_once(
    stored: SwapIntent,
    accounts: RevealTrade,
    intent: TradeIntentData,
    expected_hash: Seq<u8>,
    signature: Seq<u8>,
    prev_instruction: Option<InstructionInfo>,
    ed25519_program_id: Seq<u8>,
    fee_bps: u16,
    now: u64,
    stored_after: SwapIntent,
    accounts2: RevealTrade,
    intent2: TradeIntentData,
    expected_hash2: Seq<u8>,
    signature2: Seq<u8>,
    prev_instruction2: Option<InstructionInfo>,
    ed25519_program_id2: Seq<u8>,
    fee_bps2: u16,
    now2: u64,
)
    requires
        reveal_spec(
            stored,
            accounts,
            intent,
            expected_hash,
            signature,
            prev_instruction,
            ed25519_program_id,
            fee_bps,
            now,
        ) matches Ok(outcome) && stored_after == outcome.0,
    ensures
        reveal_spec(
            stored_after,
            accounts2,
            intent2,
            expected_hash2,
            signature2,
            prev_instruction2,
            ed25519_program_id2,
            fee_bps2,
            now2,
        ) == Err::<(SwapIntent, RevealTrade, TradeExecuted), ErrorCode>(
            ErrorCode::AlreadyRevealed,
        ),
{
}

/// When every validation check passes, the digest is bound, and each
/// transfer leg has funds and room — the host ledger guarantees the room,
/// since a token's total supply fits the balance type — success is owed:
/// the reveal returns the record marked revealed and a notification whose
/// protocol fee is `fee_bps` basis points of the input rounded down and
/// whose output is the identity quote of the remainder. At a 30-basis-point
/// rate, an input of 1,000,000 pays a fee of 3,000 and an output of 997,000.
pub proof fn lemma_reveal_success(
    stored: SwapIntent,
    accounts: RevealTrade,
    intent: TradeIntentData,
    expected_hash: Seq<u8>,
    signature: Seq<u8>,
    prev_instruction: Option<InstructionInfo>,
    ed25519_program_id: Seq<u8>,
    fee_bps: u16,
    now: u64,
)
    requires
        !stored.revealed,
        stored.expiry > now,
        stored.nonce == intent.nonce,
        intent.user@ == accounts.user@,
        intent.relayer@ == accounts.relayer@,
        intent.token_in@ == accounts.token_in_mint@,
        intent.token_out@ == accounts.token_out_mint@,
        intent.amount_in > 0,
        intent.min_out > 0,
        intent.relayer_fee < intent.amount_in / 10,
        sha256_of(intent_encoding(intent)) == expected_hash,
        stored.intent_hash@ == expected_hash,
        accounts.user_token_in_amount >= intent.amount_in,
        sig_binding_ok(
            prev_instruction,
            ed25519_program_id,
            signature,
            accounts.user@,
            expected_hash,
        ),
        intent.amount_in * fee_bps <= u64::MAX,
        ({
            let protocol_fee = ((intent.amount_in * fee_bps) / 10000) as u64;
            let actual_out_amount = (intent.amount_in - protocol_fee) as u64;
            &&& protocol_fee <= intent.amount_in
            &&& actual_out_amount >= intent.min_out
            &&& accounts.relayer_token_out_amount >= actual_out_amount
            &&& accounts.relayer_token_in_amount + (intent.amount_in - protocol_fee) <= u64::MAX
            &&& accounts.fee_collection_amount + protocol_fee <= u64::MAX
            &&& accounts.user_token_out_amount + actual_out_amount <= u64::MAX
            &&& intent.relayer_fee <= accounts.user_token_out_amount + actual_out_amount
            &&& accounts.relayer_token_out_amount - actual_out_amount + intent.relayer_fee
                <= u64::MAX
        }),
    ensures
        ({
            let protocol_fee = ((intent.amount_in * fee_bps) / 10000) as u64;
            let actual_out_amount = (intent.amount_in - protocol_fee) as u64;
            reveal_spec(
                stored,
                accounts,
                intent,
                expected_hash,
                signature,
                prev_instruction,
                ed25519_program_id,
                fee_bps,
                now,
            ) matches Ok(outcome) && outcome.0.revealed && outcome.2.amount_in
                == intent.amount_in && outcome.2.protocol_fee == protocol_fee
                && outcome.2.amount_out == actual_out_amount
        }),
{
}

/// Reveal at or after the commitment's expiry fails with `IntentExpired`,
/// even with a valid signature and a matching hash.
pub proof fn lemma_reveal_expired(
    stored: SwapIntent,
    accounts: RevealTrade,
    intent: TradeIntentData,
    expected_hash: Seq<u8>,
    signature: Seq<u8>,
    prev_instruction: Option<InstructionInfo>,
    ed25519_program_id: Seq<u8>,
    fee_bps: u16,
    now: u64,
)
    requires
        !stored.revealed,
        stored.expiry <= now,
    ensures
        reveal_spec(
            stored,
            accounts,
            intent,
            expected_hash,
            signature,
            prev_instruction,
            ed25519_program_id,
            fee_bps,
            now,
        ) == Err::<(SwapIntent, RevealTrade, TradeExecuted), ErrorCode>(ErrorCode::IntentExpired),
{
}

} // verus!
