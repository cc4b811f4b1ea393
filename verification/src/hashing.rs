use vstd::bytes::spec_u64_to_le_bytes;
use vstd::bytes::u64_to_le_bytes;
use vstd::prelude::*;

use crate::state::TradeIntentData;

verus! {

/// The SHA-256 digest of a byte sequence. The digest is a function of the
/// input bytes alone; nothing more is assumed of it here.
pub uninterp spec fn sha256_of(bytes: Seq<u8>) -> Seq<u8>;

/// Canonical, order-stable serialization of the trade terms: each field in
/// declaration order, 32-byte identities as their raw bytes, 64-bit integers
/// as 8 little-endian bytes. The same logical intent always serializes, and
/// therefore hashes, identically.
pub open spec fn intent_encoding(intent: TradeIntentData) -> Seq<u8> {
    intent.user@ + spec_u64_to_le_bytes(intent.nonce) + spec_u64_to_le_bytes(intent.expiry)
        + intent.relayer@ + spec_u64_to_le_bytes(intent.relayer_fee) + intent.token_in@
        + intent.token_out@ + spec_u64_to_le_bytes(intent.amount_in) + spec_u64_to_le_bytes(
        intent.min_out,
    )
}

/// Relies on sha2::Sha256::digest: a 32-byte digest computed from the input
/// bytes alone.
#[verifier::external_body]
fn sha256_digest(bytes: &Vec<u8>) -> (r: [u8; 32])
    ensures
        r@ == sha256_of(bytes@),
{
    let digest = <sha2::Sha256 as sha2::Digest>::digest(bytes.as_slice());
    digest.into()
}

/// Appends the raw bytes of a 32-byte identity.
fn push_bytes32(out: &mut Vec<u8>, bytes: &[u8; 32])
    ensures
        final(out)@ =~= old(out)@ + bytes@,
{
    let mut i: usize = 0;
    while i < 32
        invariant
            0 <= i <= 32,
            out@.len() == old(out)@.len() + i,
            forall|j: int| 0 <= j < old(out)@.len() ==> out@[j] == old(out)@[j],
            forall|j: int| 0 <= j < i ==> out@[old(out)@.len() + j] == bytes@[j],
        decreases 32 - i,
    {
        out.push(bytes[i]);
        i += 1;
    }
}

/// Appends the 8 little-endian bytes of a 64-bit integer.
fn push_u64_le(out: &mut Vec<u8>, x: u64)
    ensures
        final(out)@ =~= old(out)@ + spec_u64_to_le_bytes(x),
{
    let mut le = u64_to_le_bytes(x);
    out.append(&mut le);
}

/// Builds the canonical serialization of the trade terms.
pub fn encode_intent(intent: &TradeIntentData) -> (bytes: Vec<u8>)
    ensures
        bytes@ =~= intent_encoding(*intent),
{
    let mut out: Vec<u8> = Vec::new();
    push_bytes32(&mut out, &intent.user);
    push_u64_le(&mut out, intent.nonce);
    push_u64_le(&mut out, intent.expiry);
    push_bytes32(&mut out, &intent.relayer);
    push_u64_le(&mut out, intent.relayer_fee);
    push_bytes32(&mut out, &intent.token_in);
    push_bytes32(&mut out, &intent.token_out);
    push_u64_le(&mut out, intent.amount_in);
    push_u64_le(&mut out, intent.min_out);
    out
}

/// Recomputes the commitment digest over the canonical serialization of the
/// trade terms.
pub fn compute_intent_hash(intent: &TradeIntentData) -> (r: [u8; 32])
    ensures
        r@ == sha256_of(intent_encoding(*intent)),
{
    let bytes = encode_intent(intent);
    sha256_digest(&bytes)
}

/// The canonical serialization loses nothing: two trade intents with the
/// same encoding are the same intent. Distinct terms therefore always
/// commit to distinct byte strings, and a commitment can only be opened by
/// the terms it was made over, short of a digest collision.
pub proof fn lemma_intent_encoding_injective(a: TradeIntentData, b: TradeIntentData)
    requires
        intent_encoding(a) == intent_encoding(b),
    ensures
        a == b,
{
    broadcast use vstd::array::group_array_axioms;

    vstd::bytes::lemma_auto_spec_u64_to_from_le_bytes();
    let ea = intent_encoding(a);
    let eb = intent_encoding(b);
    assert(ea.len() == 168);
    assert forall|i: int| 0 <= i < 32 implies a.user@[i] == b.user@[i] by {
        assert(ea[i] == a.user@[i]);
        assert(eb[i] == b.user@[i]);
    };
    assert(a.user@ =~= b.user@);
    assert(a.user =~= b.user);
    assert forall|i: int| 0 <= i < 8 implies spec_u64_to_le_bytes(a.nonce)[i]
        == spec_u64_to_le_bytes(b.nonce)[i] by {
        assert(ea[32 + i] == spec_u64_to_le_bytes(a.nonce)[i]);
        assert(eb[32 + i] == spec_u64_to_le_bytes(b.nonce)[i]);
    };
    assert(spec_u64_to_le_bytes(a.nonce) =~= spec_u64_to_le_bytes(b.nonce));
    assert forall|i: int| 0 <= i < 8 implies spec_u64_to_le_bytes(a.expiry)[i]
        == spec_u64_to_le_bytes(b.expiry)[i] by {
        assert(ea[40 + i] == spec_u64_to_le_bytes(a.expiry)[i]);
        assert(eb[40 + i] == spec_u64_to_le_bytes(b.expiry)[i]);
    };
    assert(spec_u64_to_le_bytes(a.expiry) =~= spec_u64_to_le_bytes(b.expiry));
    assert forall|i: int| 0 <= i < 32 implies a.relayer@[i] == b.relayer@[i] by {
        assert(ea[48 + i] == a.relayer@[i]);
        assert(eb[48 + i] == b.relayer@[i]);
    };
    assert(a.relayer@ =~= b.relayer@);
    assert(a.relayer =~= b.relayer);
    assert forall|i: int| 0 <= i < 8 implies spec_u64_to_le_bytes(a.relayer_fee)[i]
        == spec_u64_to_le_bytes(b.relayer_fee)[i] by {
        assert(ea[80 + i] == spec_u64_to_le_bytes(a.relayer_fee)[i]);
        assert(eb[80 + i] == spec_u64_to_le_bytes(b.relayer_fee)[i]);
    };
    assert(spec_u64_to_le_bytes(a.relayer_fee) =~= spec_u64_to_le_bytes(b.relayer_fee));
    assert forall|i: int| 0 <= i < 32 implies a.token_in@[i] == b.token_in@[i] by {
        assert(ea[88 + i] == a.token_in@[i]);
        assert(eb[88 + i] == b.token_in@[i]);
    };
    assert(a.token_in@ =~= b.token_in@);
    assert(a.token_in =~= b.token_in);
    assert forall|i: int| 0 <= i < 32 implies a.token_out@[i] == b.token_out@[i] by {
        assert(ea[120 + i] == a.token_out@[i]);
        assert(eb[120 + i] == b.token_out@[i]);
    };
    assert(a.token_out@ =~= b.token_out@);
    assert(a.token_out =~= b.token_out);
    assert forall|i: int| 0 <= i < 8 implies spec_u64_to_le_bytes(a.amount_in)[i]
        == spec_u64_to_le_bytes(b.amount_in)[i] by {
        assert(ea[152 + i] == spec_u64_to_le_bytes(a.amount_in)[i]);
        assert(eb[152 + i] == spec_u64_to_le_bytes(b.amount_in)[i]);
    };
    assert(spec_u64_to_le_bytes(a.amount_in) =~= spec_u64_to_le_bytes(b.amount_in));
    assert forall|i: int| 0 <= i < 8 implies spec_u64_to_le_bytes(a.min_out)[i]
        == spec_u64_to_le_bytes(b.min_out)[i] by {
        assert(ea[160 + i] == spec_u64_to_le_bytes(a.min_out)[i]);
        assert(eb[160 + i] == spec_u64_to_le_bytes(b.min_out)[i]);
    };
    assert(spec_u64_to_le_bytes(a.min_out) =~= spec_u64_to_le_bytes(b.min_out));
}

/// Byte-for-byte equality of two 32-byte values.
pub fn bytes32_eq(a: &[u8; 32], b: &[u8; 32]) -> (r: bool)
    ensures
        r <==> a@ == b@,
{
    let mut i: usize = 0;
    while i < 32
        invariant
            0 <= i <= 32,
            forall|j: int| 0 <= j < i ==> a@[j] == b@[j],
        decreases 32 - i,
    {
        if a[i] != b[i] {
            return false;
        }
        i += 1;
    }
    proof {
        assert(a@ =~= b@);
    }
    true
}

} // verus!
