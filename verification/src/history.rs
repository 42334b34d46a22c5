//! The round-history archive: one immutable entry per archived round.
//!
//! After a round's winner has been revealed and the round is archived, this
//! entry is the sole persistent record of its outcome; the live winner
//! fields are cleared at the same moment.

use vstd::prelude::*;

verus! {

/// The permanent record of one closed round.
#[derive(Clone, Copy, Debug, PartialEq, Eq)]
pub struct RoundHistory {
    /// The archived round.
    pub round_id: u64,
    /// The proposal that won it.
    pub winning_proposal_id: u8,
    /// When the winner was revealed.
    pub revealed_at: i64,
    /// The authority that archived the outcome.
    pub revealed_by: [u8; 32],
    /// How many proposals the round had.
    pub total_proposals: u8,
}

} // verus!
