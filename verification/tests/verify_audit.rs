//! The ballot-verification and audit-decrypt paths.

use proposal_system::error::VoteError;
use proposal_system::gateway::{Argument, CompKind, Outcome, RevealPayload, TallyPayload};
use proposal_system::system::ProposalSystem;

const AUTHORITY: [u8; 32] = [7u8; 32];
const FEE: u64 = 10;

fn key(tag: u8) -> [u8; 32] {
    let mut k = [0u8; 32];
    k[0] = tag;
    k
}

/// One full round: one proposal, one ballot from `voter` with ciphertext
/// `choice`, revealed winner 0, archived. Round 1 is open afterwards.
fn closed_round_system(voter: [u8; 32], choice: [u8; 32]) -> ProposalSystem {
    let mut s = ProposalSystem::new(AUTHORITY, FEE);
    s.open_round(1, 11, 100).expect("fresh system opens");
    let payload = TallyPayload { ciphertexts: s.tally.slots, nonce: 12 };
    s.init_tally_callback(1, Outcome::Success(payload)).expect("init resolves");
    s.submit_proposal(String::from("t"), String::from("d"), None, key(200), FEE)
        .expect("proposal accepted");
    s.cast_vote(0, 0, choice, voter, key(101), 55, 2, 500).expect("ballot accepted");
    let payload = TallyPayload { ciphertexts: s.tally.slots, nonce: 13 };
    s.vote_callback(2, Outcome::Success(payload)).expect("ballot folds in");
    s.request_reveal(0, AUTHORITY, 3).expect("reveal accepted");
    s.reveal_callback(
        3,
        Outcome::Success(RevealPayload { winning_proposal_id: 0, vote_count: 1 }),
        600,
    )
    .expect("reveal resolves");
    s.archive(0, AUTHORITY, 999, 700).expect("archive succeeds");
    s
}

#[test]
fn verify_requires_closed_round() {
    let voter = key(1);
    let mut s = closed_round_system(voter, key(9));
    // Round 1 is open, not closed.
    let r = s.verify_winning_vote(1, key(9), 55, voter, 10);
    assert_eq!(r.unwrap_err(), VoteError::InvalidRound);
    // A round that never existed is not closed either.
    let r2 = s.verify_winning_vote(5, key(9), 55, voter, 10);
    assert_eq!(r2.unwrap_err(), VoteError::InvalidRound);
}

#[test]
fn verify_requires_own_receipt() {
    let voter = key(1);
    let mut s = closed_round_system(voter, key(9));
    let stranger = key(2);
    let r = s.verify_winning_vote(0, key(9), 55, stranger, 10);
    assert_eq!(r.unwrap_err(), VoteError::NotFound);
}

#[test]
fn verify_rejects_foreign_ciphertext() {
    let voter = key(1);
    let mut s = closed_round_system(voter, key(9));
    // A ciphertext other than the one the receipt stores is refused: a
    // caller cannot probe with a ballot they did not cast.
    let r = s.verify_winning_vote(0, key(8), 55, voter, 10);
    assert_eq!(r.unwrap_err(), VoteError::ReceiptMismatch);
    assert!(s.pending_queries.is_empty());
}

#[test]
fn verify_carries_recorded_winner_and_returns_engine_bit() {
    let voter = key(1);
    let mut s = closed_round_system(voter, key(9));
    let req = s.verify_winning_vote(0, key(9), 55, voter, 10).expect("verification accepted");
    assert_eq!(req.kind, CompKind::Verify);
    assert_eq!(req.round_id, 0);
    assert_eq!(req.args.len(), 4);
    assert_eq!(req.args[0], Argument::SharedPubkey(key(101)));
    assert_eq!(req.args[1], Argument::PlaintextU128(55));
    assert_eq!(req.args[2], Argument::EncryptedU8(key(9)));
    // The recorded winner of round 0, read back from history.
    assert_eq!(req.args[3], Argument::PlaintextU8(0));

    let r = s.verify_callback(10, Outcome::Success(true));
    assert_eq!(r.unwrap(), true);
    assert!(s.pending_queries.is_empty());
}

#[test]
fn verify_against_live_revealed_round() {
    let voter = key(1);
    let mut s = closed_round_system(voter, key(9));
    // Run round 1 up to Revealed without archiving: it already counts as
    // closed, and its winner comes from the live winner fields.
    s.submit_proposal(String::from("t"), String::from("d"), None, key(201), FEE)
        .expect("proposal accepted");
    s.submit_proposal(String::from("u"), String::from("e"), None, key(202), FEE)
        .expect("proposal accepted");
    s.cast_vote(1, 1, key(21), voter, key(102), 56, 20, 800).expect("ballot accepted");
    let payload = TallyPayload { ciphertexts: s.tally.slots, nonce: 1000 };
    s.vote_callback(20, Outcome::Success(payload)).expect("ballot folds in");
    s.request_reveal(1, AUTHORITY, 21).expect("reveal accepted");
    s.reveal_callback(
        21,
        Outcome::Success(RevealPayload { winning_proposal_id: 1, vote_count: 1 }),
        900,
    )
    .expect("reveal resolves");

    let req = s.verify_winning_vote(1, key(21), 56, voter, 22).expect("verification accepted");
    assert_eq!(req.args[3], Argument::PlaintextU8(1));
}

#[test]
fn verify_abort_reports_computation_aborted() {
    let voter = key(1);
    let mut s = closed_round_system(voter, key(9));
    s.verify_winning_vote(0, key(9), 55, voter, 10).expect("verification accepted");
    let r = s.verify_callback(10, Outcome::<bool>::Abort);
    assert_eq!(r.unwrap_err(), VoteError::ComputationAborted);
    assert!(s.pending_queries.is_empty());
}

#[test]
fn verify_callback_without_request_not_found() {
    let voter = key(1);
    let mut s = closed_round_system(voter, key(9));
    let r = s.verify_callback(10, Outcome::Success(true));
    assert_eq!(r.unwrap_err(), VoteError::NotFound);
}

#[test]
fn decrypt_is_authority_only() {
    let mut s = ProposalSystem::new(AUTHORITY, FEE);
    let r = s.decrypt_vote(key(9), key(101), 55, key(1), 10);
    assert_eq!(r.unwrap_err(), VoteError::Unauthorized);
    assert!(s.pending_queries.is_empty());
}

#[test]
fn decrypt_roundtrip() {
    let mut s = ProposalSystem::new(AUTHORITY, FEE);
    let req = s.decrypt_vote(key(9), key(101), 55, AUTHORITY, 10).expect("audit accepted");
    assert_eq!(req.kind, CompKind::Decrypt);
    assert_eq!(req.args.len(), 3);
    assert_eq!(req.args[0], Argument::SharedPubkey(key(101)));
    assert_eq!(req.args[1], Argument::PlaintextU128(55));
    assert_eq!(req.args[2], Argument::EncryptedU8(key(9)));
    let r = s.decrypt_callback(10, Outcome::Success(4u8));
    assert_eq!(r.unwrap(), 4);
    assert!(s.pending_queries.is_empty());
}

#[test]
fn decrypt_abort_reports_computation_aborted() {
    let mut s = ProposalSystem::new(AUTHORITY, FEE);
    s.decrypt_vote(key(9), key(101), 55, AUTHORITY, 10).expect("audit accepted");
    let r = s.decrypt_callback(10, Outcome::<u8>::Abort);
    assert_eq!(r.unwrap_err(), VoteError::ComputationAborted);
    assert!(s.pending_queries.is_empty());
}

#[test]
fn abandon_is_authority_only_and_needs_a_match() {
    let mut s = ProposalSystem::new(AUTHORITY, FEE);
    s.decrypt_vote(key(9), key(101), 55, AUTHORITY, 10).expect("audit accepted");
    assert_eq!(
        s.abandon_computation(10, key(1)).unwrap_err(),
        VoteError::Unauthorized
    );
    assert_eq!(
        s.abandon_computation(11, AUTHORITY).unwrap_err(),
        VoteError::NotFound
    );
    s.abandon_computation(10, AUTHORITY).expect("abandon accepted");
    assert!(s.pending_queries.is_empty());
    // The abandoned query's callback now matches nothing.
    assert_eq!(
        s.decrypt_callback(10, Outcome::Success(4u8)).unwrap_err(),
        VoteError::NotFound
    );
}
