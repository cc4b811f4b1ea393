use unikron::hashing::compute_intent_hash;
use unikron::hashing::encode_intent;
use unikron::state::TradeIntentData;

fn sample_intent() -> TradeIntentData {
    TradeIntentData {
        user: [1u8; 32],
        nonce: 7,
        expiry: 1000,
        relayer: [2u8; 32],
        relayer_fee: 5,
        token_in: [3u8; 32],
        token_out: [4u8; 32],
        amount_in: 1_000_000,
        min_out: 990_000,
    }
}

#[test]
fn encoding_is_168_bytes_in_field_order() {
    let intent = sample_intent();
    let bytes = encode_intent(&intent);
    assert_eq!(bytes.len(), 168);
    assert_eq!(&bytes[0..32], &[1u8; 32]);
    assert_eq!(&bytes[32..40], &7u64.to_le_bytes());
    assert_eq!(&bytes[40..48], &1000u64.to_le_bytes());
    assert_eq!(&bytes[48..80], &[2u8; 32]);
    assert_eq!(&bytes[80..88], &5u64.to_le_bytes());
    assert_eq!(&bytes[88..120], &[3u8; 32]);
    assert_eq!(&bytes[120..152], &[4u8; 32]);
    assert_eq!(&bytes[152..160], &1_000_000u64.to_le_bytes());
    assert_eq!(&bytes[160..168], &990_000u64.to_le_bytes());
}

#[test]
fn encoding_is_deterministic() {
    let intent = sample_intent();
    assert_eq!(encode_intent(&intent), encode_intent(&intent));
    assert_eq!(compute_intent_hash(&intent), compute_intent_hash(&intent));
}

#[test]
fn intent_hash_is_sha256_of_encoding() {
    let intent = sample_intent();
    let bytes = encode_intent(&intent);
    let expected: [u8; 32] = <sha2::Sha256 as sha2::Digest>::digest(&bytes[..]).into();
    assert_eq!(compute_intent_hash(&intent), expected);
}

#[test]
fn intent_hash_changes_with_any_field() {
    let base = sample_intent();
    let base_hash = compute_intent_hash(&base);

    let mut changed = base;
    changed.nonce = 8;
    assert_ne!(compute_intent_hash(&changed), base_hash);

    let mut changed = base;
    changed.amount_in = 1_000_001;
    assert_ne!(compute_intent_hash(&changed), base_hash);

    let mut changed = base;
    changed.user[0] ^= 1;
    assert_ne!(compute_intent_hash(&changed), base_hash);

    let mut changed = base;
    changed.min_out ^= 1;
    assert_ne!(compute_intent_hash(&changed), base_hash);
}
