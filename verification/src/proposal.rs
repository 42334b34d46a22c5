//! A publicly submitted proposal.

use vstd::prelude::*;

verus! {

/// One proposal within a round. The ordinal id is unique within the round
/// and equals the submission order.
pub struct Proposal {
    /// Ordinal id within the round, assigned at submission.
    pub id: u8,
    /// The round the proposal was submitted to.
    pub round_id: u64,
    /// The submitter's account key.
    pub submitter: [u8; 32],
    /// Short title.
    pub title: String,
    /// Detailed description.
    pub description: String,
    /// Optional associated link.
    pub url: Option<String>,
    /// Informational public counter; the authoritative tally is encrypted,
    /// so this is never relied on.
    pub vote_count: u64,
}

} // verus!
