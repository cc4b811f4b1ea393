use unikron::errors::ErrorCode;
use unikron::settle_trade::compute_fee_split;
use unikron::settle_trade::handler;
use unikron::settle_trade::initialize_fee_accounts;
use unikron::settle_trade::settle_trade;
use unikron::settle_trade::InitializeFeeAccounts;
use unikron::settle_trade::SettleFee;

fn pools(source: u64) -> SettleFee {
    SettleFee {
        token_mint: [3u8; 32],
        caller: [5u8; 32],
        source_fee_amount: source,
        liquidity_staker_amount: 100,
        treasury_amount: 200,
        bounty_amount: 300,
    }
}

#[test]
fn split_of_101_keeps_the_remainder_in_the_bounty() {
    assert_eq!(compute_fee_split(101), Ok((50, 30, 21)));
}

#[test]
fn split_conserves_value_on_samples() {
    for fee in [1u64, 2, 3, 7, 10, 99, 100, 101, 12_345, 1_000_000_007] {
        let (stakers, treasury, bounty) = compute_fee_split(fee).expect("split fits");
        assert_eq!(stakers + treasury + bounty, fee);
        assert_eq!(treasury, fee * 30 / 100);
        assert_eq!(stakers, fee * 50 / 100);
    }
}

#[test]
fn split_overflows_on_huge_amounts() {
    assert_eq!(compute_fee_split(u64::MAX), Err(ErrorCode::MathOverflow));
    assert_eq!(compute_fee_split(u64::MAX / 30), Err(ErrorCode::MathOverflow));
}

#[test]
fn settle_moves_the_three_shares() {
    let mut accounts = pools(1_000);
    let event = handler(&mut accounts, 101, 999).expect("funded settle succeeds");
    assert_eq!(accounts.source_fee_amount, 899);
    assert_eq!(accounts.liquidity_staker_amount, 150);
    assert_eq!(accounts.treasury_amount, 230);
    assert_eq!(accounts.bounty_amount, 321);
    assert_eq!(event.total_fee, 101);
    assert_eq!(event.liquidity_stakers_fee, 50);
    assert_eq!(event.treasury_fee, 30);
    assert_eq!(event.mev_bounty_fee, 21);
    assert_eq!(event.token_mint, [3u8; 32]);
    assert_eq!(event.caller, [5u8; 32]);
    assert_eq!(event.timestamp, 999);
}

#[test]
fn settle_trade_entry_point_matches_handler() {
    let mut accounts = pools(1_000);
    let event = settle_trade(&mut accounts, 100, 1).expect("funded settle succeeds");
    assert_eq!(event.total_fee, 100);
    assert_eq!(accounts.source_fee_amount, 900);
}

#[test]
fn settle_of_zero_fails_with_amount_too_small() {
    let mut accounts = pools(1_000);
    let before = accounts;
    assert_eq!(handler(&mut accounts, 0, 1), Err(ErrorCode::AmountTooSmall));
    assert_eq!(accounts, before);
}

#[test]
fn underfunded_settle_fails_with_insufficient_balance() {
    let mut accounts = pools(100);
    let before = accounts;
    assert_eq!(handler(&mut accounts, 101, 1), Err(ErrorCode::InsufficientBalance));
    assert_eq!(accounts, before);
}

#[test]
fn settle_is_not_idempotent_when_funded_for_one_call() {
    // Enough balance for one settle of 101, not two: the second identical
    // call must fail, because the first truly drained the pool.
    let mut accounts = pools(150);
    handler(&mut accounts, 101, 1).expect("first settle succeeds");
    assert_eq!(accounts.source_fee_amount, 49);
    assert_eq!(handler(&mut accounts, 101, 2), Err(ErrorCode::InsufficientBalance));
    assert_eq!(accounts.source_fee_amount, 49);
}

#[test]
fn overflowing_pool_fails_with_fee_distribution_error() {
    let mut accounts = pools(1_000);
    accounts.treasury_amount = u64::MAX;
    let before = accounts;
    assert_eq!(handler(&mut accounts, 101, 1), Err(ErrorCode::FeeDistributionError));
    assert_eq!(accounts, before);
}

#[test]
fn initialize_fee_accounts_starts_empty() {
    let (accounts, event) = initialize_fee_accounts(
        &InitializeFeeAccounts {
            token_mint: [3u8; 32],
            fee_collection_authority: [6u8; 32],
            liquidity_staker_account: [7u8; 32],
            treasury_account: [8u8; 32],
            bounty_account: [9u8; 32],
            fee_collection_account: [10u8; 32],
            payer: [5u8; 32],
        },
        42,
    );
    assert_eq!(accounts.source_fee_amount, 0);
    assert_eq!(accounts.liquidity_staker_amount, 0);
    assert_eq!(accounts.treasury_amount, 0);
    assert_eq!(accounts.bounty_amount, 0);
    assert_eq!(accounts.token_mint, [3u8; 32]);
    assert_eq!(event.token_mint, [3u8; 32]);
    assert_eq!(event.fee_authority, [6u8; 32]);
    assert_eq!(event.liquidity_stakers, [7u8; 32]);
    assert_eq!(event.treasury, [8u8; 32]);
    assert_eq!(event.mev_bounty, [9u8; 32]);
    assert_eq!(event.fee_collection, [10u8; 32]);
    assert_eq!(event.timestamp, 42);
}
