//! End-to-end round lifecycle scenarios.

use proposal_system::error::VoteError;
use proposal_system::gateway::{Outcome, RevealPayload, TallyPayload};
use proposal_system::system::{Phase, ProposalSystem};

const AUTHORITY: [u8; 32] = [7u8; 32];
const FEE: u64 = 1_000_000;

fn voter_key(tag: u8) -> [u8; 32] {
    let mut k = [0u8; 32];
    k[0] = tag;
    k[31] = tag.wrapping_add(1);
    k
}

fn ciphertext(tag: u8) -> [u8; 32] {
    let mut c = [0u8; 32];
    c[1] = tag;
    c[30] = tag.wrapping_mul(3);
    c
}

/// Opens round zero and resolves the init computation.
fn opened_system() -> ProposalSystem {
    let mut s = ProposalSystem::new(AUTHORITY, FEE);
    let req = s.open_round(1, 11, 100).expect("fresh system opens");
    assert_eq!(req.request_id, 1);
    let payload = TallyPayload { ciphertexts: s.tally.slots, nonce: 12 };
    s.init_tally_callback(1, Outcome::Success(payload)).expect("init resolves");
    s
}

/// Casts a ballot and resolves its tally computation, bumping the nonce.
fn cast_and_resolve(s: &mut ProposalSystem, voter: [u8; 32], proposal_id: u8, request_id: u64) {
    let round = s.round_id;
    s.cast_vote(
        round,
        proposal_id,
        ciphertext(voter[0]),
        voter,
        voter_key(voter[0].wrapping_add(100)),
        555,
        request_id,
        200,
    )
    .expect("ballot accepted");
    let payload = TallyPayload { ciphertexts: s.tally.slots, nonce: s.tally.nonce + 1 };
    s.vote_callback(request_id, Outcome::Success(payload)).expect("vote folds in");
}

#[test]
fn full_round_lifecycle() {
    let mut s = opened_system();
    assert_eq!(s.phase, Phase::Open);
    assert_eq!(s.round_id, 0);

    for expected_id in 0u8..3u8 {
        let id = s
            .submit_proposal(
                format!("title {expected_id}"),
                String::from("description"),
                None,
                voter_key(90 + expected_id),
                FEE,
            )
            .expect("proposal accepted");
        assert_eq!(id, expected_id);
    }
    assert_eq!(s.proposal_count, 3);

    for v in 0u8..5u8 {
        cast_and_resolve(&mut s, voter_key(v), v % 3, 10 + v as u64);
    }
    assert_eq!(s.voter_count, 5);
    assert_eq!(s.receipts.records.len(), 5);

    s.request_reveal(0, AUTHORITY, 40).expect("reveal accepted");
    assert_eq!(s.phase, Phase::Tallying);
    s.reveal_callback(
        40,
        Outcome::Success(RevealPayload { winning_proposal_id: 1, vote_count: 3 }),
        300,
    )
    .expect("reveal resolves");
    assert_eq!(s.phase, Phase::Revealed);
    let winner = s.winner.expect("live winner present");
    assert_eq!(winner.proposal_id, 1);
    assert_eq!(winner.vote_count, 3);

    s.archive(0, AUTHORITY, 999, 400).expect("archive succeeds");
    assert_eq!(s.round_id, 1);
    assert_eq!(s.phase, Phase::Open);
    assert_eq!(s.history.len(), 1);
    let entry = s.history[0];
    assert_eq!(entry.round_id, 0);
    assert_eq!(entry.winning_proposal_id, 1);
    assert_eq!(entry.total_proposals, 3);
    assert_eq!(entry.revealed_by, AUTHORITY);
    assert!(s.winner.is_none());
    assert_eq!(s.proposal_count, 0);
    assert_eq!(s.voter_count, 0);
    assert_eq!(s.tally.nonce, 999);
}

#[test]
fn second_reveal_rejected_until_operator_retries() {
    let mut s = opened_system();
    s.submit_proposal(String::from("t"), String::from("d"), None, voter_key(1), FEE)
        .expect("proposal accepted");
    s.request_reveal(0, AUTHORITY, 5).expect("first reveal accepted");
    assert_eq!(s.phase, Phase::Tallying);

    // The callback never arrives: the round is stuck in Tallying and a
    // second reveal request is refused.
    let second = s.request_reveal(0, AUTHORITY, 6);
    assert_eq!(second.unwrap_err(), VoteError::InvalidPhase);
    assert_eq!(s.phase, Phase::Tallying);

    // An operator abandons the stuck request; a retry then goes through.
    s.abandon_computation(5, AUTHORITY).expect("abandon accepted");
    let retry = s.request_reveal(0, AUTHORITY, 7);
    assert!(retry.is_ok());
    assert_eq!(s.phase, Phase::Tallying);
}

#[test]
fn archive_before_reveal_fails_invalid_phase() {
    let mut s = opened_system();
    s.submit_proposal(String::from("t"), String::from("d"), None, voter_key(1), FEE)
        .expect("proposal accepted");
    let before_history = s.history.len();
    let before_count = s.proposal_count;
    let before_nonce = s.tally.nonce;

    let r = s.archive(0, AUTHORITY, 999, 400);
    assert_eq!(r.unwrap_err(), VoteError::InvalidPhase);
    assert_eq!(s.phase, Phase::Open);
    assert_eq!(s.history.len(), before_history);
    assert_eq!(s.proposal_count, before_count);
    assert_eq!(s.tally.nonce, before_nonce);
    assert_eq!(s.round_id, 0);
}

#[test]
fn archive_twice_fails_and_writes_no_duplicate() {
    let mut s = opened_system();
    s.request_reveal(0, AUTHORITY, 5).expect("reveal accepted");
    s.reveal_callback(
        5,
        Outcome::Success(RevealPayload { winning_proposal_id: 0, vote_count: 0 }),
        300,
    )
    .expect("reveal resolves");
    s.archive(0, AUTHORITY, 999, 400).expect("first archive succeeds");
    assert_eq!(s.history.len(), 1);

    // No reveal intervened: the second archive must fail and not append.
    let r = s.archive(1, AUTHORITY, 998, 500);
    assert_eq!(r.unwrap_err(), VoteError::InvalidPhase);
    assert_eq!(s.history.len(), 1);
}

#[test]
fn reveal_abort_keeps_tallying_and_allows_fresh_request() {
    let mut s = opened_system();
    s.request_reveal(0, AUTHORITY, 5).expect("reveal accepted");
    let r = s.reveal_callback(5, Outcome::<RevealPayload>::Abort, 300);
    assert_eq!(r.unwrap_err(), VoteError::ComputationAborted);
    assert_eq!(s.phase, Phase::Tallying);
    assert!(s.winner.is_none());
    assert!(s.request_reveal(0, AUTHORITY, 6).is_ok());
}

#[test]
fn reveal_requires_authority() {
    let mut s = opened_system();
    let r = s.request_reveal(0, voter_key(3), 5);
    assert_eq!(r.unwrap_err(), VoteError::Unauthorized);
    assert_eq!(s.phase, Phase::Open);
}

#[test]
fn open_round_only_once() {
    let mut s = opened_system();
    let r = s.open_round(50, 1, 100);
    assert_eq!(r.unwrap_err(), VoteError::InvalidPhase);
}

#[test]
fn history_is_append_only_across_rounds() {
    let mut s = opened_system();
    // Round 0: one proposal, revealed winner 0, archived.
    s.submit_proposal(String::from("a"), String::from("d"), None, voter_key(1), FEE)
        .expect("proposal accepted");
    s.request_reveal(0, AUTHORITY, 5).expect("reveal accepted");
    s.reveal_callback(
        5,
        Outcome::Success(RevealPayload { winning_proposal_id: 0, vote_count: 4 }),
        300,
    )
    .expect("reveal resolves");
    s.archive(0, AUTHORITY, 999, 400).expect("archive succeeds");

    // Round 1: two proposals, revealed winner 1, archived.
    s.submit_proposal(String::from("b"), String::from("d"), None, voter_key(2), FEE)
        .expect("proposal accepted");
    s.submit_proposal(String::from("c"), String::from("d"), None, voter_key(3), FEE)
        .expect("proposal accepted");
    s.request_reveal(1, AUTHORITY, 6).expect("reveal accepted");
    s.reveal_callback(
        6,
        Outcome::Success(RevealPayload { winning_proposal_id: 1, vote_count: 9 }),
        500,
    )
    .expect("reveal resolves");
    s.archive(1, AUTHORITY, 998, 600).expect("archive succeeds");

    assert_eq!(s.round_id, 2);
    assert_eq!(s.history.len(), 2);
    assert_eq!(s.history[0].round_id, 0);
    assert_eq!(s.history[0].winning_proposal_id, 0);
    assert_eq!(s.history[0].total_proposals, 1);
    assert_eq!(s.history[1].round_id, 1);
    assert_eq!(s.history[1].winning_proposal_id, 1);
    assert_eq!(s.history[1].total_proposals, 2);
}

#[test]
fn stale_callback_not_found() {
    let mut s = opened_system();
    // The init request already resolved; a duplicate delivery matches
    // nothing and changes nothing.
    let payload = TallyPayload { ciphertexts: s.tally.slots, nonce: 77 };
    let r = s.init_tally_callback(1, Outcome::Success(payload));
    assert_eq!(r.unwrap_err(), VoteError::NotFound);
    assert_eq!(s.tally.nonce, 12);
}
