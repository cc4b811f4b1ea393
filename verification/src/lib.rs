//! A commit-reveal trade settlement protocol.
//!
//! A user first commits to a trade privately, as a hash over the canonical
//! serialization of the full terms. Later the terms are revealed together
//! with a signature bound to the committed digest; validation, the atomic
//! multi-leg swap and the protocol-fee capture all happen in that one step.
//! A separate settle step drains the accumulated fee pool into three
//! fixed-ratio payout pools with exact conservation.
//!
//! The host ledger (accounts, balances, the instruction batch and the clock)
//! is modeled as plain values handed in by the caller; the one outside
//! computation the logic relies on is the SHA-256 digest.

pub mod errors;
pub mod hashing;
pub mod reveal_trade;
pub mod settle_trade;
pub mod signature;
pub mod state;
