//! A confidential round-based proposal-voting core.
//!
//! Proposals are submitted publicly; ballots are cast as opaque ciphertexts;
//! the running tally stays encrypted until a deliberate reveal step discloses
//! only the winner and its vote count. This crate holds the round-phase state
//! machine, the ciphertext-tally lifecycle, the vote-receipt anti-replay
//! ledger, the per-round fee escrow, and the round-history archive, together
//! with the request/callback protocol that ties them to an external,
//! asynchronous confidential-compute engine. The engine itself and the
//! settlement ledger are outside collaborators: every interaction with them is
//! a value handed out (a [`gateway::ComputationRequest`]) or a value handed
//! back (a [`gateway::Outcome`]), so the whole core is ordinary state over
//! plain data and is verified.

pub mod error;
pub mod escrow;
pub mod gateway;
pub mod history;
pub mod proposal;
pub mod receipt;
pub mod system;
pub mod tally;

pub use error::VoteError;
