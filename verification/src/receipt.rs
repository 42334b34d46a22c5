//! The vote-receipt ledger: one durable record per (voter, round).
//!
//! A receipt proves that a voter cast exactly one ballot in a round without
//! exposing the ballot's content: it stores only the encrypted choice, the
//! voter's ephemeral encryption key and the cast timestamp, and is immutable
//! once created. The ledger refuses a second receipt for the same voter and
//! round, which is the anti-replay scheme.

use vstd::prelude::*;
use crate::error::VoteError;
use crate::tally::Ciphertext;

verus! {

/// One durable vote record, keyed by (voter, round).
#[derive(Clone, Copy, Debug, PartialEq, Eq)]
pub struct VoteReceipt {
    /// The voter's account key.
    pub voter: [u8; 32],
    /// The round the ballot was cast in.
    pub round_id: u64,
    /// The ballot as cast: an opaque ciphertext, never decrypted here.
    pub encrypted_choice: Ciphertext,
    /// The voter's ephemeral encryption public key for this ballot.
    pub voter_pubkey: [u8; 32],
    /// When the ballot was cast.
    pub cast_at: i64,
}

/// How many of the records belong to the round.
pub open spec fn count_for_round(records: Seq<VoteReceipt>, round_id: u64) -> nat
    decreases records.len(),
{
    if records.len() == 0 {
        0
    } else {
        count_for_round(records.drop_last(), round_id) + (if records.last().round_id == round_id {
            1nat
        } else {
            0nat
        })
    }
}

/// Appending one record raises the round's count by one exactly when the
/// record belongs to the round.
pub proof fn lemma_count_for_round_push(records: Seq<VoteReceipt>, rec: VoteReceipt, round_id: u64)
    ensures
        count_for_round(records.push(rec), round_id) == count_for_round(records, round_id) + (
        if rec.round_id == round_id {
            1nat
        } else {
            0nat
        }),
{
    assert(records.push(rec).drop_last() =~= records);
    assert(records.push(rec).last() == rec);
}

/// A round's count never exceeds the whole ledger's size.
pub proof fn lemma_count_for_round_le_len(records: Seq<VoteReceipt>, round_id: u64)
    ensures
        count_for_round(records, round_id) <= records.len(),
    decreases records.len(),
{
    if records.len() > 0 {
        lemma_count_for_round_le_len(records.drop_last(), round_id);
    }
}

/// The append-only ledger of receipts.
pub struct ReceiptLedger {
    /// All receipts, in cast order.
    pub records: Vec<VoteReceipt>,
}

impl ReceiptLedger {
    /// Holds whether the ledger keeps at most one receipt per (voter, round).
    pub open spec fn wf(self) -> bool {
        forall|i: int, j: int|
            0 <= i < j < self.records@.len() ==> !(self.records@[i].voter@
                == self.records@[j].voter@ && self.records@[i].round_id
                == self.records@[j].round_id)
    }

    /// Holds whether a receipt exists for the voter and round.
    pub open spec fn has_receipt(self, voter: [u8; 32], round_id: u64) -> bool {
        exists|i: int|
            0 <= i < self.records@.len() && self.records@[i].voter@ == voter@
                && self.records@[i].round_id == round_id
    }

    /// The receipt for the voter and round, where one exists.
    pub open spec fn receipt_of(self, voter: [u8; 32], round_id: u64) -> VoteReceipt {
        self.records@[choose|i: int|
            0 <= i < self.records@.len() && self.records@[i].voter@ == voter@
                && self.records@[i].round_id == round_id]
    }

    /// An empty ledger.
    pub fn new() -> (ledger: ReceiptLedger)
        ensures
            ledger.wf(),
            ledger.records@ =~= Seq::<VoteReceipt>::empty(),
    {
        ReceiptLedger { records: Vec::new() }
    }

    /// Finds the position of the receipt for the voter and round.
    pub fn find(&self, voter: &[u8; 32], round_id: u64) -> (r: Option<usize>)
        ensures
            match r {
                Some(i) => 0 <= i < self.records@.len() && self.records@[i as int].voter@
                    == voter@ && self.records@[i as int].round_id == round_id,
                None => !self.has_receipt(*voter, round_id),
            },
    {
        let mut i: usize = 0;
        while i < self.records.len()
            invariant
                0 <= i <= self.records@.len(),
                forall|j: int|
                    0 <= j < i ==> !(self.records@[j].voter@ == voter@
                        && self.records@[j].round_id == round_id),
            decreases self.records@.len() - i,
        {
            let rec = &self.records[i];
            if rec.round_id == round_id && crate::tally::bytes32_eq(&rec.voter, voter) {
                return Some(i);
            }
            i += 1;
        }
        None
    }

    /// Whether a receipt exists for the voter and round.
    pub fn contains(&self, voter: &[u8; 32], round_id: u64) -> (r: bool)
        ensures
            r == self.has_receipt(*voter, round_id),
    {
        self.find(voter, round_id).is_some()
    }

    /// Stores a new receipt; fails `AlreadyVoted` when one exists for the
    /// same voter and round, and then changes nothing.
    pub fn create_receipt(&mut self, receipt: VoteReceipt) -> (r: Result<(), VoteError>)
        requires
            old(self).wf(),
        ensures
            final(self).wf(),
            (match r {
                Ok(()) => !old(self).has_receipt(receipt.voter, receipt.round_id)
                    && final(self).records@ =~= old(self).records@.push(receipt),
                Err(e) => e == VoteError::AlreadyVoted && old(self).has_receipt(
                    receipt.voter,
                    receipt.round_id,
                ) && final(self).records@ =~= old(self).records@,
            }),
    {
        if self.contains(&receipt.voter, receipt.round_id) {
            return Err(VoteError::AlreadyVoted);
        }
        self.records.push(receipt);
        Ok(())
    }

    /// Looks the receipt up; fails `NotFound` where none exists.
    pub fn verify_membership(&self, voter: &[u8; 32], round_id: u64) -> (r: Result<
        VoteReceipt,
        VoteError,
    >)
        requires
            self.wf(),
        ensures
            (match r {
                Ok(receipt) => self.has_receipt(*voter, round_id) && receipt == self.receipt_of(
                    *voter,
                    round_id,
                ),
                Err(e) => e == VoteError::NotFound && !self.has_receipt(*voter, round_id),
            }),
    {
        match self.find(voter, round_id) {
            Some(i) => {
                let receipt = self.records[i];
                proof {
                    self.lemma_receipt_at(i as int);
                }
                Ok(receipt)
            },
            None => Err(VoteError::NotFound),
        }
    }

    /// Any position holding a (voter, round) key holds that key's one
    /// receipt: positions and keys identify each other under `wf`.
    pub proof fn lemma_receipt_at(self, i: int)
        requires
            self.wf(),
            0 <= i < self.records@.len(),
        ensures
            self.has_receipt(self.records@[i].voter, self.records@[i].round_id),
            self.receipt_of(self.records@[i].voter, self.records@[i].round_id)
                == self.records@[i],
    {
        let voter = self.records@[i].voter;
        let round_id = self.records@[i].round_id;
        assert(self.has_receipt(voter, round_id));
        let j = choose|j: int|
            0 <= j < self.records@.len() && self.records@[j].voter@ == voter@
                && self.records@[j].round_id == round_id;
        if i != j {
            // Two positions sharing one (voter, round) key contradict wf.
            assert(false);
        }
    }

    /// At most one receipt exists per (voter, round) pair: two distinct
    /// positions never share both voter and round.
    pub proof fn lemma_one_receipt_per_voter_round(self, i: int, j: int)
        requires
            self.wf(),
            0 <= i < self.records@.len(),
            0 <= j < self.records@.len(),
            i != j,
        ensures
            !(self.records@[i].voter@ == self.records@[j].voter@ && self.records@[i].round_id
                == self.records@[j].round_id),
    {
    }
}

} // verus!
