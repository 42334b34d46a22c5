//! Values exchanged with the confidential-compute gateway.
//!
//! The gateway is an opaque asynchronous collaborator: the core hands it a
//! [`ComputationRequest`] naming a circuit and its ordered, typed arguments,
//! and at most one [`Outcome`] comes back later, out of order relative to
//! other requests, or possibly never. The core records each submission as a
//! [`PendingComputation`] until its outcome arrives or an operator abandons
//! it. Nothing here performs the call: the surrounding runtime carries the
//! request out and feeds the outcome back into the round state machine's
//! callback entry points.

use vstd::prelude::*;
use crate::tally::{Ciphertext, TALLY_SLOTS};

verus! {

/// The circuits the compute engine offers.
#[derive(Clone, Copy, Debug, PartialEq, Eq, Structural)]
pub enum CompKind {
    /// Produce the encrypted all-zero tally for a fresh round.
    InitTally,
    /// Fold one encrypted ballot into the tally.
    Vote,
    /// Declassify the winner: its proposal id and vote count.
    Reveal,
    /// Declassify one ballot's plaintext choice (audit only).
    Decrypt,
    /// Declassify one bit: whether a ballot matches a revealed winner.
    Verify,
}

impl CompKind {
    /// Holds whether a request of this kind rewrites or reads the tally.
    ///
    /// At most one such request may be in flight per round; `Decrypt` and
    /// `Verify` touch single ballots and are not fenced.
    pub open spec fn mutates_tally(self) -> bool {
        self is InitTally || self is Vote || self is Reveal
    }
}

/// One typed argument of a computation request, in submission order.
#[derive(Clone, Copy, Debug, PartialEq, Eq)]
pub enum Argument {
    /// An encryption public key under which an encrypted argument was shared.
    SharedPubkey([u8; 32]),
    /// A plaintext 128-bit scalar (a nonce).
    PlaintextU128(u128),
    /// A plaintext 8-bit scalar (a proposal id).
    PlaintextU8(u8),
    /// An encrypted 8-bit scalar, as its 32-byte ciphertext.
    EncryptedU8(Ciphertext),
    /// A reference to the authoritative tally: its location and fixed byte
    /// length, so the engine recomputes against the latest state.
    TallyRef,
}

/// A request the core asks the runtime to submit to the gateway.
#[derive(Debug)]
pub struct ComputationRequest {
    /// Caller-chosen identity; callbacks are matched against it.
    pub request_id: u64,
    /// Which circuit to run.
    pub kind: CompKind,
    /// The round the request serves.
    pub round_id: u64,
    /// The circuit's arguments, in order.
    pub args: Vec<Argument>,
}

/// The record of a submitted request, kept until it resolves or is abandoned.
#[derive(Clone, Copy, Debug, PartialEq, Eq, Structural)]
pub struct PendingComputation {
    /// The request's identity.
    pub request_id: u64,
    /// The circuit that was asked for.
    pub kind: CompKind,
    /// The round the request serves.
    pub round_id: u64,
}

/// How the gateway resolved a request: exactly one of these per accepted
/// request, though delivery is not guaranteed.
pub enum Outcome<T> {
    /// The circuit ran; here is its declassified or re-encrypted payload.
    Success(T),
    /// The computation was aborted; no payload exists.
    Abort,
}

/// Payload of a successful init or vote computation: the full replacement
/// tally, stored verbatim.
pub struct TallyPayload {
    /// The new encrypted counters, one per slot.
    pub ciphertexts: [Ciphertext; TALLY_SLOTS],
    /// The new re-randomization nonce; must differ from the nonce the
    /// request was computed against.
    pub nonce: u128,
}

/// Payload of a successful reveal computation: both values are deliberately
/// declassified.
#[derive(Clone, Copy, Debug, PartialEq, Eq, Structural)]
pub struct RevealPayload {
    /// The proposal with the most votes.
    pub winning_proposal_id: u8,
    /// How many votes it received.
    pub vote_count: u64,
}

} // verus!
