use vstd::prelude::*;

verus! {

/// Discriminated failure codes surfaced directly to the caller.
///
/// Every check in the protocol is a pre-condition evaluated before any
/// mutation; the first failing check aborts the whole call with one of
/// these codes and no partial state change.
#[derive(Clone, Copy, Debug, PartialEq, Eq, Structural)]
pub enum ErrorCode {
    /// The commitment was already consumed by an earlier reveal.
    AlreadyRevealed,
    /// The commitment's deadline has passed.
    IntentExpired,
    /// The stored commitment and the revealed terms disagree on the nonce.
    NonceMismatch,
    /// Signature binding failed, or a signer identity does not match the terms.
    InvalidSignature,
    /// The recomputed digest, the supplied digest and the stored commitment
    /// hash do not all agree, or a presented token does not match the terms.
    HashMismatch,
    /// An account holds less than the amount the operation needs.
    InsufficientBalance,
    /// A checked arithmetic step would overflow.
    MathOverflow,
    /// The quoted output falls below the revealed minimum.
    SlippageExceeded,
    /// A presented token identifier is not acceptable.
    InvalidTokenMint,
    /// The relayer fee reaches or exceeds a tenth of the input amount.
    RelayerFeeTooHigh,
    /// The protocol fee could not be computed.
    ProtocolFeeError,
    /// A payout-pool transfer could not be performed.
    FeeDistributionError,
    /// A transfer leg of the atomic swap could not be performed.
    SwapExecutionFailed,
    /// The relayer identity is not acceptable.
    InvalidRelayer,
    /// An amount is zero where a positive amount is required.
    AmountTooSmall,
    /// An amount exceeds what the protocol accepts.
    AmountTooLarge,
    /// A commitment already exists at the (user, nonce) address.
    DuplicateIntent,
}

} // verus!
