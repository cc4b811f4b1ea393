use vstd::prelude::*;

use crate::errors::ErrorCode;

verus! {

/// One step of the atomic instruction batch, as the host environment exposes
/// it for introspection: the identity of the program it addresses and its
/// raw payload.
#[derive(Debug)]
pub struct InstructionInfo {
    pub program_id: [u8; 32],
    pub data: Vec<u8>,
}

/// Declared message length of a signature-verification payload: the 16-bit
/// little-endian integer at offset 97.
pub open spec fn declared_message_len(data: Seq<u8>) -> int {
    data[97] + 256 * data[98]
}

/// A signature-verification payload in the fixed layout — 1-byte count,
/// 64-byte signature, 32-byte public key, 2-byte little-endian message
/// length, then the message — that embeds exactly one signature, and embeds
/// this signature, this public key and this message byte for byte.
pub open spec fn ed25519_payload_ok(
    data: Seq<u8>,
    signature: Seq<u8>,
    pubkey: Seq<u8>,
    message: Seq<u8>,
) -> bool {
    &&& data.len() >= 99
    &&& data[0] == 1
    &&& data.len() >= 99 + declared_message_len(data)
    &&& data.subrange(1, 65) == signature
    &&& data.subrange(65, 97) == pubkey
    &&& data.subrange(99, 99 + declared_message_len(data)) == message
}

/// The supplied signature, public key and message are bound to the
/// immediately preceding step of the batch: that step exists, addresses the
/// signature-verification program, and carries a well-formed payload
/// embedding exactly these bytes.
pub open spec fn sig_binding_ok(
    prev_instruction: Option<InstructionInfo>,
    ed25519_program_id: Seq<u8>,
    signature: Seq<u8>,
    pubkey: Seq<u8>,
    message: Seq<u8>,
) -> bool {
    match prev_instruction {
        Option::None => false,
        Option::Some(ix) => ix.program_id@ == ed25519_program_id && ed25519_payload_ok(
            ix.data@,
            signature,
            pubkey,
            message,
        ),
    }
}

/// Checks that the step immediately preceding this one in the atomic batch
/// is a signature-verification instruction whose payload embeds, byte for
/// byte, the supplied signature, the user's public key and the committed
/// digest. `None` means this call is the first step of its batch.
///
/// The host environment has already checked the step for cryptographic
/// validity; this re-parses its content to bind that check to this call.
#[verifier::loop_isolation(false)]
pub fn verify_ed25519_signature(
    prev_instruction: &Option<InstructionInfo>,
    ed25519_program_id: &[u8; 32],
    signature: &[u8; 64],
    user_pubkey: &[u8; 32],
    message_hash: &[u8; 32],
) -> (r: Result<(), ErrorCode>)
    ensures
        r is Ok <==> sig_binding_ok(
            *prev_instruction,
            ed25519_program_id@,
            signature@,
            user_pubkey@,
            message_hash@,
        ),
        r is Err ==> r == Err::<(), ErrorCode>(ErrorCode::InvalidSignature),
{
    let ix = match prev_instruction {
        Some(ix) => ix,
        None => {
            return Err(ErrorCode::InvalidSignature);
        },
    };
    if !crate::hashing::bytes32_eq(&ix.program_id, ed25519_program_id) {
        return Err(ErrorCode::InvalidSignature);
    }
    if ix.data.len() < 99 {
        return Err(ErrorCode::InvalidSignature);
    }
    if ix.data[0] != 1 {
        return Err(ErrorCode::InvalidSignature);
    }
    let message_len: usize = (ix.data[97] as usize) + 256 * (ix.data[98] as usize);
    if ix.data.len() < 99 + message_len {
        return Err(ErrorCode::InvalidSignature);
    }
    let mut i: usize = 0;
    while i < 64
        invariant
            0 <= i <= 64,
            ix.data@.len() >= 99,
            forall|j: int| 0 <= j < i ==> ix.data@[1 + j] == signature@[j],
        decreases 64 - i,
    {
        if ix.data[1 + i] != signature[i] {
            proof {
                assert(ix.data@.subrange(1, 65)[i as int] != signature@[i as int]);
            }
            return Err(ErrorCode::InvalidSignature);
        }
        i += 1;
    }
    proof {
        assert(ix.data@.subrange(1, 65) =~= signature@);
    }
    let mut i: usize = 0;
    while i < 32
        invariant
            0 <= i <= 32,
            ix.data@.len() >= 99,
            forall|j: int| 0 <= j < i ==> ix.data@[65 + j] == user_pubkey@[j],
        decreases 32 - i,
    {
        if ix.data[65 + i] != user_pubkey[i] {
            proof {
                assert(ix.data@.subrange(65, 97)[i as int] != user_pubkey@[i as int]);
            }
            return Err(ErrorCode::InvalidSignature);
        }
        i += 1;
    }
    proof {
        assert(ix.data@.subrange(65, 97) =~= user_pubkey@);
    }
    if message_len != 32 {
        proof {
            assert(ix.data@.subrange(99, 99 + declared_message_len(ix.data@)).len() != 32);
        }
        return Err(ErrorCode::InvalidSignature);
    }
    let mut i: usize = 0;
    while i < 32
        invariant
            0 <= i <= 32,
            ix.data@.len() >= 131,
            forall|j: int| 0 <= j < i ==> ix.data@[99 + j] == message_hash@[j],
        decreases 32 - i,
    {
        if ix.data[99 + i] != message_hash[i] {
            proof {
                assert(ix.data@.subrange(99, 131)[i as int] != message_hash@[i as int]);
            }
            return Err(ErrorCode::InvalidSignature);
        }
        i += 1;
    }
    proof {
        assert(ix.data@.subrange(99, 131) =~= message_hash@);
    }
    Ok(())
}

/// What a passing binding pins down: the companion step's payload embeds the
/// signature, the public key and the 32-byte message at fixed offsets, byte
/// for byte, and declares exactly one signature of exactly that length.
pub proof fn lemma_signature_binding_exact(
    ix: InstructionInfo,
    ed25519_program_id: Seq<u8>,
    signature: Seq<u8>,
    pubkey: Seq<u8>,
    message: Seq<u8>,
)
    requires
        sig_binding_ok(Option::Some(ix), ed25519_program_id, signature, pubkey, message),
        signature.len() == 64,
        pubkey.len() == 32,
        message.len() == 32,
    ensures
        ix.program_id@ == ed25519_program_id,
        ix.data@.len() >= 131,
        ix.data@[0] == 1,
        ix.data@[97] == 32,
        ix.data@[98] == 0,
        forall|j: int| 0 <= j < 64 ==> ix.data@[1 + j] == signature[j],
        forall|j: int| 0 <= j < 32 ==> ix.data@[65 + j] == pubkey[j],
        forall|j: int| 0 <= j < 32 ==> ix.data@[99 + j] == message[j],
{
    let data = ix.data@;
    assert(data.subrange(99, 99 + declared_message_len(data)).len() == message.len());
    assert(declared_message_len(data) == 32);
    assert forall|j: int| 0 <= j < 64 implies data[1 + j] == signature[j] by {
        assert(data.subrange(1, 65)[j] == signature[j]);
    };
    assert forall|j: int| 0 <= j < 32 implies data[65 + j] == pubkey[j] by {
        assert(data.subrange(65, 97)[j] == pubkey[j]);
    };
    assert forall|j: int| 0 <= j < 32 implies data[99 + j] == message[j] by {
        assert(data.subrange(99, 131)[j] == message[j]);
    };
}

/// Flipping any byte of the embedded count, signature, public key, length
/// prefix or message of a payload that binds a given signature, key and
/// message yields a payload that no longer binds them.
pub proof fn lemma_signature_binding_byte_flip(
    ix: InstructionInfo,
    flipped: InstructionInfo,
    ed25519_program_id: Seq<u8>,
    signature: Seq<u8>,
    pubkey: Seq<u8>,
    message: Seq<u8>,
    k: int,
)
    requires
        sig_binding_ok(Option::Some(ix), ed25519_program_id, signature, pubkey, message),
        signature.len() == 64,
        pubkey.len() == 32,
        message.len() == 32,
        0 <= k < 131,
        flipped.data@.len() >= 131,
        flipped.data@[k] != ix.data@[k],
    ensures
        !sig_binding_ok(Option::Some(flipped), ed25519_program_id, signature, pubkey, message),
{
    lemma_signature_binding_exact(ix, ed25519_program_id, signature, pubkey, message);
    if sig_binding_ok(Option::Some(flipped), ed25519_program_id, signature, pubkey, message) {
        lemma_signature_binding_exact(flipped, ed25519_program_id, signature, pubkey, message);
        if k == 0 || k == 97 || k == 98 {
            assert(flipped.data@[k] == ix.data@[k]);
        } else if 1 <= k < 65 {
            assert(ix.data@[1 + (k - 1)] == signature[k - 1]);
            assert(flipped.data@[1 + (k - 1)] == signature[k - 1]);
            assert(flipped.data@[k] == ix.data@[k]);
        } else if 65 <= k < 97 {
            assert(ix.data@[65 + (k - 65)] == pubkey[k - 65]);
            assert(flipped.data@[65 + (k - 65)] == pubkey[k - 65]);
            assert(flipped.data@[k] == ix.data@[k]);
        } else {
            assert(ix.data@[99 + (k - 99)] == message[k - 99]);
            assert(flipped.data@[99 + (k - 99)] == message[k - 99]);
            assert(flipped.data@[k] == ix.data@[k]);
        }
    }
}

} // verus!
