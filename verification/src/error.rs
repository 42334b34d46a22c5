//! The error kinds that the voting core reports.
//!
//! Every failure is synchronous and request-scoped except `ComputationAborted`,
//! which surfaces when the confidential-compute gateway resolves a request with
//! an abort. No error is fatal: each one is local to the call that produced it.

use vstd::prelude::*;

verus! {

/// One error kind per way a request can fail.
#[derive(Clone, Copy, Debug, PartialEq, Eq, Structural)]
pub enum VoteError {
    /// The operation is not legal in the round's current phase, or a
    /// tally-mutating computation is still in flight for the round.
    InvalidPhase,
    /// The round already holds its maximum number of proposals.
    MaxProposalsReached,
    /// The named proposal does not exist in the round.
    InvalidProposalId,
    /// A vote receipt already exists for this voter and round.
    AlreadyVoted,
    /// The round identifier is stale, in the future, or not in the state
    /// the operation needs (open for voting, closed for verification).
    InvalidRound,
    /// The presented ciphertext differs from the one the voter's stored
    /// receipt holds.
    ReceiptMismatch,
    /// The confidential-compute gateway aborted the request; no state changed.
    ComputationAborted,
    /// The payer cannot cover the proposal-submission fee.
    InsufficientFunds,
    /// The caller is not the system authority.
    Unauthorized,
    /// No record (receipt, history entry, pending request) matches the query.
    NotFound,
}

} // verus!
