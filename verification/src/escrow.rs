//! Per-round fee escrow accounting.
//!
//! Each round has one accumulator for the proposal-submission fees it
//! collected. Fees arrive atomically with proposal creation; the accumulator
//! turns `Completed` when the round is archived. Paying the balance out
//! (`Completed` to `Closed`) belongs to the settlement ledger collaborator
//! and never happens here.

use vstd::prelude::*;

verus! {

/// Lifecycle of a round's escrow.
#[derive(Clone, Copy, Debug, PartialEq, Eq, Structural)]
pub enum EscrowStatus {
    /// The round is ongoing and collecting fees.
    Active,
    /// The round was archived; the balance awaits distribution.
    Completed,
    /// The balance was fully distributed (settlement ledger's transition).
    Closed,
}

/// The fee accumulator of one round.
#[derive(Clone, Copy, Debug, PartialEq, Eq, Structural)]
pub struct RoundEscrow {
    /// The round this escrow belongs to.
    pub round_id: u64,
    /// Total fees collected over the round.
    pub total_collected: u64,
    /// Total paid out of the escrow.
    pub total_distributed: u64,
    /// What remains available.
    pub current_balance: u64,
    /// Where the escrow stands in its lifecycle.
    pub status: EscrowStatus,
    /// When the escrow was created.
    pub created_at: i64,
}

impl RoundEscrow {
    /// Holds whether the balance accounts for every collected and
    /// distributed unit.
    pub open spec fn wf(self) -> bool {
        self.current_balance == self.total_collected - self.total_distributed
    }

    /// A fresh, empty, active escrow for the round.
    pub fn open(round_id: u64, created_at: i64) -> (e: RoundEscrow)
        ensures
            e.wf(),
            e == (RoundEscrow {
                round_id,
                total_collected: 0,
                total_distributed: 0,
                current_balance: 0,
                status: EscrowStatus::Active,
                created_at,
            }),
    {
        RoundEscrow {
            round_id,
            total_collected: 0,
            total_distributed: 0,
            current_balance: 0,
            status: EscrowStatus::Active,
            created_at,
        }
    }

    /// Books one collected fee.
    pub fn collect(&mut self, fee: u64)
        requires
            old(self).wf(),
            old(self).total_collected + fee <= u64::MAX,
        ensures
            final(self).wf(),
            *final(self) == (RoundEscrow {
                total_collected: (old(self).total_collected + fee) as u64,
                current_balance: (old(self).current_balance + fee) as u64,
                ..*old(self)
            }),
    {
        self.total_collected = self.total_collected + fee;
        self.current_balance = self.current_balance + fee;
    }

    /// Marks the escrow completed when its round is archived.
    pub fn complete(&mut self)
        requires
            old(self).wf(),
        ensures
            final(self).wf(),
            *final(self) == (RoundEscrow { status: EscrowStatus::Completed, ..*old(self) }),
    {
        self.status = EscrowStatus::Completed;
    }
}

} // verus!
