use unikron::errors::ErrorCode;
use unikron::hashing::compute_intent_hash;
use unikron::reveal_trade::compute_protocol_fee;
use unikron::reveal_trade::handle_reveal;
use unikron::reveal_trade::reveal_trade;
use unikron::reveal_trade::RevealTrade;
use unikron::reveal_trade::TradeExecuted;
use unikron::signature::InstructionInfo;
use unikron::state::Config;
use unikron::state::SwapIntent;
use unikron::state::TradeIntentData;

const ED25519_PROGRAM_ID: [u8; 32] = [9u8; 32];
const NOW: u64 = 500;

fn sample_intent() -> TradeIntentData {
    TradeIntentData {
        user: [1u8; 32],
        nonce: 7,
        expiry: 1000,
        relayer: [2u8; 32],
        relayer_fee: 0,
        token_in: [3u8; 32],
        token_out: [4u8; 32],
        amount_in: 1_000_000,
        min_out: 990_000,
    }
}

fn sample_config() -> Config {
    Config { fee_bps: 30, is_paused: false, bump: 255 }
}

fn stored_for(intent: &TradeIntentData) -> SwapIntent {
    SwapIntent {
        user: intent.user,
        intent_hash: compute_intent_hash(intent),
        nonce: intent.nonce,
        expiry: intent.expiry,
        timestamp: 100,
        revealed: false,
    }
}

fn accounts_for(intent: &TradeIntentData) -> RevealTrade {
    RevealTrade {
        user: intent.user,
        relayer: intent.relayer,
        token_in_mint: intent.token_in,
        token_out_mint: intent.token_out,
        user_token_in_amount: 2_000_000,
        user_token_out_amount: 10,
        relayer_token_in_amount: 20,
        relayer_token_out_amount: 2_000_000,
        fee_collection_amount: 30,
    }
}

fn payload(signature: &[u8; 64], pubkey: &[u8; 32], message: &[u8; 32]) -> Vec<u8> {
    let mut data = vec![1u8];
    data.extend_from_slice(signature);
    data.extend_from_slice(pubkey);
    data.push(32);
    data.push(0);
    data.extend_from_slice(message);
    data
}

fn prev_for(signature: &[u8; 64], pubkey: &[u8; 32], message: &[u8; 32]) -> Option<InstructionInfo> {
    Some(InstructionInfo {
        program_id: ED25519_PROGRAM_ID,
        data: payload(signature, pubkey, message),
    })
}

struct Setup {
    stored: SwapIntent,
    accounts: RevealTrade,
    intent: TradeIntentData,
    expected_hash: [u8; 32],
    signature: [u8; 64],
    prev: Option<InstructionInfo>,
}

fn setup_valid() -> Setup {
    let intent = sample_intent();
    let expected_hash = compute_intent_hash(&intent);
    let signature = [7u8; 64];
    Setup {
        stored: stored_for(&intent),
        accounts: accounts_for(&intent),
        intent,
        expected_hash,
        signature,
        prev: prev_for(&signature, &intent.user, &expected_hash),
    }
}

fn run(setup: &mut Setup) -> Result<TradeExecuted, ErrorCode> {
    handle_reveal(
        &mut setup.stored,
        &mut setup.accounts,
        &setup.intent,
        &setup.expected_hash,
        &setup.signature,
        &setup.prev,
        &ED25519_PROGRAM_ID,
        &sample_config(),
        NOW,
    )
}

#[test]
fn end_to_end_reveal_moves_every_balance() {
    let mut setup = setup_valid();
    let event = run(&mut setup).expect("valid reveal succeeds");
    // 0.3% of 1,000,000 is 3,000; identity quote of the remainder.
    assert_eq!(event.protocol_fee, 3_000);
    assert_eq!(event.amount_out, 997_000);
    assert_eq!(event.amount_in, 1_000_000);
    assert_eq!(event.relayer_fee, 0);
    assert_eq!(event.nonce, 7);
    assert_eq!(event.timestamp, NOW);
    assert!(setup.stored.revealed);
    assert_eq!(setup.accounts.user_token_in_amount, 1_000_000);
    assert_eq!(setup.accounts.relayer_token_in_amount, 997_020);
    assert_eq!(setup.accounts.fee_collection_amount, 3_030);
    assert_eq!(setup.accounts.user_token_out_amount, 997_010);
    assert_eq!(setup.accounts.relayer_token_out_amount, 1_003_000);
}

#[test]
fn reveal_trade_entry_point_matches_handler() {
    let mut setup = setup_valid();
    let event = reveal_trade(
        &mut setup.stored,
        &mut setup.accounts,
        &setup.intent,
        &setup.expected_hash,
        &setup.signature,
        &setup.prev,
        &ED25519_PROGRAM_ID,
        &sample_config(),
        NOW,
    )
    .expect("valid reveal succeeds");
    assert_eq!(event.amount_out, 997_000);
    assert!(setup.stored.revealed);
}

#[test]
fn relayer_fee_legs_move_output_side_fee() {
    let mut setup = setup_valid();
    setup.intent.relayer_fee = 500;
    setup.expected_hash = compute_intent_hash(&setup.intent);
    setup.stored.intent_hash = setup.expected_hash;
    setup.prev = prev_for(&setup.signature, &setup.intent.user, &setup.expected_hash);
    let event = run(&mut setup).expect("valid reveal succeeds");
    assert_eq!(event.relayer_fee, 500);
    assert_eq!(setup.accounts.user_token_out_amount, 10 + 997_000 - 500);
    assert_eq!(setup.accounts.relayer_token_out_amount, 2_000_000 - 997_000 + 500);
}

#[test]
fn tight_min_out_fails_with_slippage_exceeded() {
    let mut setup = setup_valid();
    setup.intent.min_out = 998_000;
    setup.expected_hash = compute_intent_hash(&setup.intent);
    setup.stored.intent_hash = setup.expected_hash;
    setup.prev = prev_for(&setup.signature, &setup.intent.user, &setup.expected_hash);
    let before_accounts = setup.accounts;
    assert_eq!(run(&mut setup), Err(ErrorCode::SlippageExceeded));
    assert!(!setup.stored.revealed);
    assert_eq!(setup.accounts, before_accounts);
}

#[test]
fn second_reveal_fails_with_already_revealed() {
    let mut setup = setup_valid();
    run(&mut setup).expect("first reveal succeeds");
    let after_first = setup.accounts;
    assert_eq!(run(&mut setup), Err(ErrorCode::AlreadyRevealed));
    assert_eq!(setup.accounts, after_first);
    assert!(setup.stored.revealed);
}

#[test]
fn reveal_after_expiry_fails_with_intent_expired() {
    let mut setup = setup_valid();
    setup.stored.expiry = NOW - 1;
    assert_eq!(run(&mut setup), Err(ErrorCode::IntentExpired));
    assert!(!setup.stored.revealed);
}

#[test]
fn reveal_at_expiry_fails_with_intent_expired() {
    let mut setup = setup_valid();
    setup.stored.expiry = NOW;
    assert_eq!(run(&mut setup), Err(ErrorCode::IntentExpired));
}

#[test]
fn nonce_mismatch_is_detected() {
    let mut setup = setup_valid();
    setup.stored.nonce = 8;
    assert_eq!(run(&mut setup), Err(ErrorCode::NonceMismatch));
}

#[test]
fn wrong_user_or_relayer_fails_as_signature_failure() {
    // The caller's own record (same user address), but the revealed terms
    // name a different user.
    let mut setup = setup_valid();
    setup.accounts.user = [11u8; 32];
    setup.stored.user = [11u8; 32];
    assert_eq!(run(&mut setup), Err(ErrorCode::InvalidSignature));

    let mut setup = setup_valid();
    setup.accounts.relayer = [12u8; 32];
    assert_eq!(run(&mut setup), Err(ErrorCode::InvalidSignature));
}

#[test]
fn wrong_token_mint_fails_as_hash_mismatch() {
    let mut setup = setup_valid();
    setup.accounts.token_in_mint = [13u8; 32];
    assert_eq!(run(&mut setup), Err(ErrorCode::HashMismatch));

    let mut setup = setup_valid();
    setup.accounts.token_out_mint = [14u8; 32];
    assert_eq!(run(&mut setup), Err(ErrorCode::HashMismatch));
}

#[test]
fn zero_amounts_fail_with_amount_too_small() {
    let mut setup = setup_valid();
    setup.intent.amount_in = 0;
    assert_eq!(run(&mut setup), Err(ErrorCode::AmountTooSmall));

    let mut setup = setup_valid();
    setup.intent.min_out = 0;
    assert_eq!(run(&mut setup), Err(ErrorCode::AmountTooSmall));
}

#[test]
fn relayer_fee_boundary_at_one_tenth() {
    // One tenth exactly is rejected; just under passes the fee check.
    let mut setup = setup_valid();
    setup.intent.amount_in = 100;
    setup.intent.min_out = 50;
    setup.intent.relayer_fee = 10;
    assert_eq!(run(&mut setup), Err(ErrorCode::RelayerFeeTooHigh));

    let mut setup = setup_valid();
    setup.intent.amount_in = 100;
    setup.intent.min_out = 50;
    setup.intent.relayer_fee = 9;
    setup.expected_hash = compute_intent_hash(&setup.intent);
    setup.stored.intent_hash = setup.expected_hash;
    setup.prev = prev_for(&setup.signature, &setup.intent.user, &setup.expected_hash);
    let event = run(&mut setup).expect("fee just under the bound passes");
    // 0.3% of 100 rounds down to zero.
    assert_eq!(event.protocol_fee, 0);
    assert_eq!(event.amount_out, 100);
}

#[test]
fn mutated_intent_fails_with_hash_mismatch() {
    // Any field change makes the recomputed digest disagree with the
    // supplied hash.
    let mut setup = setup_valid();
    setup.intent.amount_in += 1;
    assert_eq!(run(&mut setup), Err(ErrorCode::HashMismatch));
    assert!(!setup.stored.revealed);
}

#[test]
fn stored_hash_disagreement_fails_with_hash_mismatch() {
    let mut setup = setup_valid();
    setup.stored.intent_hash[0] ^= 1;
    assert_eq!(run(&mut setup), Err(ErrorCode::HashMismatch));
}

#[test]
fn missing_companion_step_fails_with_invalid_signature() {
    let mut setup = setup_valid();
    setup.prev = None;
    assert_eq!(run(&mut setup), Err(ErrorCode::InvalidSignature));
}

#[test]
fn wrong_companion_program_fails_with_invalid_signature() {
    let mut setup = setup_valid();
    if let Some(ix) = setup.prev.as_mut() {
        ix.program_id = [8u8; 32];
    }
    assert_eq!(run(&mut setup), Err(ErrorCode::InvalidSignature));
}

#[test]
fn flipped_payload_bytes_fail_with_invalid_signature() {
    // Flipping any byte of the embedded signature, public key or message
    // breaks the binding even though hash and fields are all correct.
    let offsets: [usize; 6] = [1, 64, 65, 96, 99, 130];
    for &offset in offsets.iter() {
        let mut setup = setup_valid();
        if let Some(ix) = setup.prev.as_mut() {
            ix.data[offset] ^= 1;
        }
        assert_eq!(run(&mut setup), Err(ErrorCode::InvalidSignature));
        assert!(!setup.stored.revealed);
    }
}

#[test]
fn wrong_signature_count_fails_with_invalid_signature() {
    let mut setup = setup_valid();
    if let Some(ix) = setup.prev.as_mut() {
        ix.data[0] = 2;
    }
    assert_eq!(run(&mut setup), Err(ErrorCode::InvalidSignature));
}

#[test]
fn truncated_payload_fails_with_invalid_signature() {
    let mut setup = setup_valid();
    if let Some(ix) = setup.prev.as_mut() {
        ix.data.truncate(98);
    }
    assert_eq!(run(&mut setup), Err(ErrorCode::InvalidSignature));

    // Long enough for the header but shorter than the declared message.
    let mut setup = setup_valid();
    if let Some(ix) = setup.prev.as_mut() {
        ix.data.truncate(130);
    }
    assert_eq!(run(&mut setup), Err(ErrorCode::InvalidSignature));
}

#[test]
fn supplied_signature_must_match_embedded_one() {
    let mut setup = setup_valid();
    setup.signature[0] ^= 1;
    assert_eq!(run(&mut setup), Err(ErrorCode::InvalidSignature));
}

#[test]
fn underfunded_user_fails_with_insufficient_balance() {
    let mut setup = setup_valid();
    setup.accounts.user_token_in_amount = 999_999;
    assert_eq!(run(&mut setup), Err(ErrorCode::InsufficientBalance));
}

#[test]
fn balance_is_checked_before_the_signature_binding() {
    // The validator's own checks run first: with the user short of funds
    // and no companion verification step at all, the balance check decides.
    let mut setup = setup_valid();
    setup.accounts.user_token_in_amount = 999_999;
    setup.prev = None;
    assert_eq!(run(&mut setup), Err(ErrorCode::InsufficientBalance));
}

#[test]
fn underfunded_relayer_fails_with_insufficient_balance() {
    let mut setup = setup_valid();
    setup.accounts.relayer_token_out_amount = 996_999;
    assert_eq!(run(&mut setup), Err(ErrorCode::InsufficientBalance));
}

#[test]
fn fee_product_overflow_fails_with_math_overflow() {
    let mut setup = setup_valid();
    setup.intent.amount_in = u64::MAX;
    setup.intent.relayer_fee = 0;
    setup.expected_hash = compute_intent_hash(&setup.intent);
    setup.stored.intent_hash = setup.expected_hash;
    setup.prev = prev_for(&setup.signature, &setup.intent.user, &setup.expected_hash);
    setup.accounts.user_token_in_amount = u64::MAX;
    assert_eq!(run(&mut setup), Err(ErrorCode::MathOverflow));
}

#[test]
fn overflowing_transfer_leg_fails_and_rolls_back() {
    let mut setup = setup_valid();
    setup.accounts.relayer_token_in_amount = u64::MAX;
    let before_accounts = setup.accounts;
    let before_stored = setup.stored;
    assert_eq!(run(&mut setup), Err(ErrorCode::SwapExecutionFailed));
    assert_eq!(setup.accounts, before_accounts);
    assert_eq!(setup.stored, before_stored);
}

#[test]
fn protocol_fee_formula_samples() {
    assert_eq!(compute_protocol_fee(1_000_000, 30), Ok(3_000));
    assert_eq!(compute_protocol_fee(100, 30), Ok(0));
    assert_eq!(compute_protocol_fee(0, 30), Ok(0));
    assert_eq!(compute_protocol_fee(10_000, 10_000), Ok(10_000));
    assert_eq!(compute_protocol_fee(u64::MAX, 30), Err(ErrorCode::MathOverflow));
    assert_eq!(compute_protocol_fee(u64::MAX, 1), Ok(u64::MAX / 10_000));
}
