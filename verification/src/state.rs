use vstd::prelude::*;

use crate::errors::ErrorCode;

verus! {

/// Persisted commitment record, one per (user, nonce) address.
///
/// The record holds only the digest of the trade terms; the terms themselves
/// stay private until reveal. `revealed` is monotonic: it starts false and is
/// set to true exactly once, by a successful reveal.
#[derive(Clone, Copy, Debug, PartialEq, Eq)]
pub struct SwapIntent {
    pub user: [u8; 32],
    pub intent_hash: [u8; 32],
    pub nonce: u64,
    pub expiry: u64,
    pub timestamp: u64,
    pub revealed: bool,
}

/// Full trade terms supplied at reveal time; never persisted beyond the call.
#[derive(Clone, Copy, Debug, PartialEq, Eq)]
pub struct TradeIntentData {
    pub user: [u8; 32],
    pub nonce: u64,
    pub expiry: u64,
    pub relayer: [u8; 32],
    pub relayer_fee: u64,
    pub token_in: [u8; 32],
    pub token_out: [u8; 32],
    pub amount_in: u64,
    pub min_out: u64,
}

/// Protocol configuration, injected at construction rather than compiled in.
/// `fee_bps` is the protocol fee rate in basis points of the input amount.
#[derive(Clone, Copy, Debug, PartialEq, Eq)]
pub struct Config {
    pub fee_bps: u16,
    pub is_paused: bool,
    pub bump: u8,
}

/// Durable keyed store of committed trade intents.
///
/// Each record is addressed by its (user, nonce) pair; the store never holds
/// two records at the same address, so commitments cannot collide or be
/// overwritten. Records are created by commit, mutated only through
/// [`IntentStore::update`] (which keeps the address and the monotonicity of
/// `revealed`), and never deleted.
pub struct IntentStore {
    records: Vec<SwapIntent>,
}

impl IntentStore {
    /// The records as a sequence, in order of creation.
    pub closed spec fn commitments(self) -> Seq<SwapIntent> {
        self.records@
    }

    /// No two records share a (user, nonce) address.
    pub open spec fn wf(self) -> bool {
        forall|i: int, j: int|
            0 <= i < j < self.commitments().len() ==> !(self.commitments()[i].user@
                =~= self.commitments()[j].user@ && self.commitments()[i].nonce
                == self.commitments()[j].nonce)
    }

    /// Some record sits at the (user, nonce) address.
    pub open spec fn contains_commitment(self, user: Seq<u8>, nonce: u64) -> bool {
        exists|i: int|
            0 <= i < self.commitments().len() && self.commitments()[i].user@ =~= user
                && self.commitments()[i].nonce == nonce
    }

    /// Creates an empty store.
    pub fn new() -> (store: IntentStore)
        ensures
            store.wf(),
            store.commitments() =~= Seq::<SwapIntent>::empty(),
    {
        IntentStore { records: Vec::new() }
    }

    /// Number of records ever committed.
    pub fn len(&self) -> (n: usize)
        ensures
            n == self.commitments().len(),
    {
        self.records.len()
    }

    /// Reads the record at a position.
    pub fn get(&self, i: usize) -> (record: SwapIntent)
        requires
            i < self.commitments().len(),
        ensures
            record == self.commitments()[i as int],
    {
        self.records[i]
    }

    /// Finds the position of the record addressed by (user, nonce), if any.
    pub fn lookup(&self, user: &[u8; 32], nonce: u64) -> (r: Option<usize>)
        ensures
            match r {
                Some(i) => i < self.commitments().len() && self.commitments()[i as int].user@
                    =~= user@ && self.commitments()[i as int].nonce == nonce,
                None => !self.contains_commitment(user@, nonce),
            },
    {
        let n = self.records.len();
        let mut i: usize = 0;
        while i < n
            invariant
                n == self.commitments().len(),
                0 <= i <= n,
                forall|j: int|
                    0 <= j < i ==> !(self.commitments()[j].user@ =~= user@
                        && self.commitments()[j].nonce == nonce),
            decreases n - i,
        {
            if self.records[i].nonce == nonce && crate::hashing::bytes32_eq(
                &self.records[i].user,
                user,
            ) {
                return Some(i);
            }
            i += 1;
        }
        None
    }

    /// Creates a new commitment addressed by (user, nonce).
    ///
    /// The record starts unrevealed, with `now` as its informational creation
    /// time. Fails with `DuplicateIntent`, changing nothing, when a record
    /// already sits at that address. No validation of the hash content is
    /// performed: commit is authenticated-origin, not authenticated-content.
    pub fn commit_trade(
        &mut self,
        user: [u8; 32],
        intent_hash: [u8; 32],
        nonce: u64,
        expiry: u64,
        now: u64,
    ) -> (r: Result<(), ErrorCode>)
        requires
            old(self).wf(),
        ensures
            final(self).wf(),
            match r {
                Ok(()) => !old(self).contains_commitment(user@, nonce) && final(self).commitments()
                    =~= old(self).commitments().push(
                    SwapIntent {
                        user,
                        intent_hash,
                        nonce,
                        expiry,
                        timestamp: now,
                        revealed: false,
                    },
                ),
                Err(e) => e == ErrorCode::DuplicateIntent && old(self).contains_commitment(
                    user@,
                    nonce,
                ) && final(self).commitments() =~= old(self).commitments(),
            },
    {
        match self.lookup(&user, nonce) {
            Some(_) => Err(ErrorCode::DuplicateIntent),
            None => {
                self.records.push(
                    SwapIntent { user, intent_hash, nonce, expiry, timestamp: now, revealed: false },
                );
                proof {
                    let s0 = old(self).commitments();
                    let s1 = self.commitments();
                    assert forall|i: int, j: int| 0 <= i < j < s1.len() implies !(s1[i].user@
                        =~= s1[j].user@ && s1[i].nonce == s1[j].nonce) by {
                        if j == s0.len() {
                            if s1[i].user@ =~= user@ && s1[i].nonce == nonce {
                                assert(old(self).contains_commitment(user@, nonce));
                            }
                        }
                    };
                }
                Ok(())
            },
        }
    }

    /// Writes back a record fetched earlier, keeping its address and the
    /// monotonicity of `revealed` (a consumed commitment never reverts).
    pub fn update(&mut self, i: usize, record: SwapIntent)
        requires
            old(self).wf(),
            i < old(self).commitments().len(),
            record.user@ =~= old(self).commitments()[i as int].user@,
            record.nonce == old(self).commitments()[i as int].nonce,
            old(self).commitments()[i as int].revealed ==> record.revealed,
        ensures
            final(self).wf(),
            final(self).commitments() =~= old(self).commitments().update(i as int, record),
    {
        self.records[i] = record;
    }
}

} // verus!
