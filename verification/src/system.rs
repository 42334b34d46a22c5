//! The round state machine: the one aggregate that owns all voting state.
//!
//! A round moves through `Open` (accepting proposals and ballots),
//! `Tallying` (a reveal computation is outstanding), `Revealed` (the winner
//! is known and held in the live winner fields) and `Archived` (the outcome
//! is written to history and the next round is opened in the same step).
//! Transitions are one-directional and never revisited.
//!
//! All mutation funnels through this aggregate. Operations that need the
//! confidential-compute engine hand back a [`ComputationRequest`] for the
//! surrounding runtime to submit; the engine's resolution comes back through
//! the callback entry points, which match it against the recorded pending
//! request. At most one tally-mutating request (init, vote or reveal) may be
//! in flight per round; ballot-scoped decrypt and verify requests are not
//! fenced.

use vstd::prelude::*;
use crate::error::VoteError;
use crate::escrow::{EscrowStatus, RoundEscrow};
use crate::gateway::{Argument, CompKind, ComputationRequest, Outcome, PendingComputation,
    RevealPayload, TallyPayload};
use crate::history::RoundHistory;
use crate::proposal::Proposal;
use crate::receipt::{ReceiptLedger, VoteReceipt};
use crate::tally::{Ciphertext, CiphertextTally, TALLY_SLOTS};

verus! {

/// Where the live round stands.
#[derive(Clone, Copy, Debug, PartialEq, Eq, Structural)]
pub enum Phase {
    /// Accepting proposals and ballots.
    Open,
    /// A reveal was requested; the winner is being computed.
    Tallying,
    /// The winner is known and readable; the round awaits archiving.
    Revealed,
    /// No round is open. Only a fresh system rests here: archiving a round
    /// opens its successor in the same step.
    Archived,
}

/// The live winner fields: they exist only between reveal and archive.
#[derive(Clone, Copy, Debug, PartialEq, Eq, Structural)]
pub struct RevealedWinner {
    /// The winning proposal's ordinal id.
    pub proposal_id: u8,
    /// The winning proposal's vote count.
    pub vote_count: u64,
    /// When the reveal callback delivered the result.
    pub revealed_at: i64,
}

/// The aggregate holding one voting system's entire authoritative state.
pub struct ProposalSystem {
    /// The system authority: only it may reveal, archive, abandon requests
    /// or run audits.
    pub authority: [u8; 32],
    /// The fixed proposal-submission fee.
    pub fee: u64,
    /// The live round's id. Ids are assigned in order from zero.
    pub round_id: u64,
    /// The live round's phase.
    pub phase: Phase,
    /// How many proposals the live round holds.
    pub proposal_count: u8,
    /// How many ballots were folded into the live round's tally.
    pub voter_count: u64,
    /// When the live round opened.
    pub opened_at: i64,
    /// The live round's proposals, in submission order; ids equal positions.
    pub proposals: Vec<Proposal>,
    /// The authoritative encrypted tally.
    pub tally: CiphertextTally,
    /// The live winner fields; `Some` exactly in `Revealed`.
    pub winner: Option<RevealedWinner>,
    /// The durable vote-receipt ledger, across all rounds.
    pub receipts: ReceiptLedger,
    /// One fee escrow per opened round, indexed by round id.
    pub escrows: Vec<RoundEscrow>,
    /// One immutable entry per archived round, indexed by round id.
    pub history: Vec<RoundHistory>,
    /// The single-flight slot for the outstanding tally-mutating request.
    pub pending_mutation: Option<PendingComputation>,
    /// Outstanding ballot-scoped decrypt and verify requests.
    pub pending_queries: Vec<PendingComputation>,
}

impl ProposalSystem {
    /// The live round's proposals are exactly `0 .. proposal_count`, each
    /// carrying its position as id, and there are never more than the tally
    /// has slots.
    pub open spec fn proposals_wf(self) -> bool {
        &&& self.proposal_count <= TALLY_SLOTS
        &&& self.proposals@.len() == self.proposal_count
        &&& forall|i: int|
            0 <= i < self.proposals@.len() ==> (#[trigger] self.proposals@[i]).id == i
                && self.proposals@[i].round_id == self.round_id
    }

    /// Escrows exist for exactly the opened rounds; only the live round's is
    /// active; nothing was ever distributed here; and the live escrow holds
    /// exactly the fees of the live round's proposals.
    pub open spec fn escrows_wf(self) -> bool {
        &&& if self.phase is Archived {
            self.escrows@.len() == 0
        } else {
            self.escrows@.len() == self.round_id + 1
        }
        &&& forall|i: int|
            0 <= i < self.escrows@.len() ==> (#[trigger] self.escrows@[i]).round_id == i
                && self.escrows@[i].wf() && self.escrows@[i].total_distributed == 0
                && (self.escrows@[i].status is Active <==> i == self.round_id as int)
                && (self.escrows@[i].status is Active || self.escrows@[i].status is Completed)
        &&& self.phase !is Archived ==> self.escrows@[self.round_id as int].total_collected
            == self.proposal_count * self.fee
    }

    /// History holds one entry per archived round, in order, each within the
    /// proposal bound.
    pub open spec fn history_wf(self) -> bool {
        &&& self.history@.len() == self.round_id as int
        &&& forall|i: int|
            0 <= i < self.history@.len() ==> (#[trigger] self.history@[i]).round_id == i
                && self.history@[i].total_proposals <= TALLY_SLOTS
    }

    /// The single-flight discipline: a pending tally mutation belongs to the
    /// live round, and its kind matches the phase; queries are never
    /// tally-mutating; all pending identities are distinct.
    pub open spec fn pending_wf(self) -> bool {
        &&& match self.pending_mutation {
            Some(p) => {
                &&& p.round_id == self.round_id
                &&& p.kind.mutates_tally()
                &&& (p.kind is Reveal <==> self.phase is Tallying)
                &&& (p.kind is InitTally || p.kind is Vote ==> self.phase is Open)
            },
            None => true,
        }
        &&& forall|i: int|
            0 <= i < self.pending_queries@.len() ==> ((#[trigger] self.pending_queries@[i]).kind
                is Decrypt || self.pending_queries@[i].kind is Verify)
        &&& forall|i: int, j: int|
            0 <= i < j < self.pending_queries@.len() ==> (
            #[trigger] self.pending_queries@[i].request_id) != (
            #[trigger] self.pending_queries@[j].request_id)
        &&& match self.pending_mutation {
            Some(p) => forall|i: int|
                0 <= i < self.pending_queries@.len() ==> (
                #[trigger] self.pending_queries@[i].request_id) != p.request_id,
            None => true,
        }
    }

    /// Phase-dependent shape: the live winner fields exist exactly in
    /// `Revealed`, and a fresh (never-opened) system is empty throughout.
    pub open spec fn phase_wf(self) -> bool {
        &&& (self.winner is Some <==> self.phase is Revealed)
        &&& self.phase is Archived ==> {
            &&& self.round_id == 0
            &&& self.proposal_count == 0
            &&& self.voter_count == 0
            &&& self.receipts.records@.len() == 0
        }
    }

    /// Every successful vote callback consumed a pending vote request, and
    /// every such request was fenced behind a fresh receipt: the live
    /// round's folded-ballot counter never exceeds its receipt count, and is
    /// strictly below it while a vote computation is in flight.
    pub open spec fn voters_wf(self) -> bool {
        &&& self.voter_count <= crate::receipt::count_for_round(
            self.receipts.records@,
            self.round_id,
        )
        &&& (match self.pending_mutation {
            Some(p) => p.kind is Vote ==> self.voter_count < crate::receipt::count_for_round(
                self.receipts.records@,
                self.round_id,
            ),
            None => true,
        })
    }

    /// The aggregate's full well-formedness; every operation preserves it.
    pub open spec fn wf(self) -> bool {
        &&& self.fee * TALLY_SLOTS <= u64::MAX
        &&& self.proposals_wf()
        &&& self.receipts.wf()
        &&& self.escrows_wf()
        &&& self.history_wf()
        &&& self.pending_wf()
        &&& self.phase_wf()
        &&& self.voters_wf()
    }

    /// Holds whether any pending record (mutating or query) carries the id.
    pub open spec fn spec_has_pending(self, request_id: u64) -> bool {
        ||| (match self.pending_mutation {
            Some(p) => p.request_id == request_id,
            None => false,
        })
        ||| exists|i: int|
            0 <= i < self.pending_queries@.len()
                && (#[trigger] self.pending_queries@[i]).request_id == request_id
    }

    /// Whether any pending computation carries the id; callers pick fresh
    /// identities with this.
    pub fn has_pending_request(&self, request_id: u64) -> (r: bool)
        ensures
            r == self.spec_has_pending(request_id),
    {
        match &self.pending_mutation {
            Some(p) => {
                if p.request_id == request_id {
                    return true;
                }
            },
            None => {},
        }
        let mut i: usize = 0;
        while i < self.pending_queries.len()
            invariant
                0 <= i <= self.pending_queries@.len(),
                forall|j: int|
                    0 <= j < i ==> (#[trigger] self.pending_queries@[j]).request_id != request_id,
            decreases self.pending_queries@.len() - i,
        {
            if self.pending_queries[i].request_id == request_id {
                return true;
            }
            i += 1;
        }
        false
    }

    /// A fresh system: no round has been opened, the ledger and archive are
    /// empty, and the given authority and submission fee are fixed.
    pub fn new(authority: [u8; 32], fee: u64) -> (s: ProposalSystem)
        requires
            fee * TALLY_SLOTS <= u64::MAX,
        ensures
            s.wf(),
            s.authority == authority,
            s.fee == fee,
            s.round_id == 0,
            s.phase is Archived,
            s.proposal_count == 0,
            s.voter_count == 0,
            s.proposals@.len() == 0,
            s.winner is None,
            s.history@.len() == 0,
            s.receipts.records@.len() == 0,
            s.escrows@.len() == 0,
            s.pending_mutation is None,
            s.pending_queries@.len() == 0,
    {
        ProposalSystem {
            authority,
            fee,
            round_id: 0,
            phase: Phase::Archived,
            proposal_count: 0,
            voter_count: 0,
            opened_at: 0,
            proposals: Vec::new(),
            tally: CiphertextTally::zero_state(0),
            winner: None,
            receipts: ReceiptLedger::new(),
            escrows: Vec::new(),
            history: Vec::new(),
            pending_mutation: None,
            pending_queries: Vec::new(),
        }
    }

    /// Opens round zero on a fresh system: phase `Open`, counters zeroed, an
    /// active escrow created, and an init computation issued so the engine
    /// produces the encrypted zero-state tally under `nonce`. Fails
    /// `InvalidPhase` once any round has been opened; every later round is
    /// opened by `archive` instead.
    pub fn open_round(&mut self, request_id: u64, nonce: u128, now: i64) -> (r: Result<
        ComputationRequest,
        VoteError,
    >)
        requires
            old(self).wf(),
            !old(self).spec_has_pending(request_id),
        ensures
            final(self).wf(),
            (match r {
                Ok(req) => {
                    &&& old(self).phase is Archived
                    &&& req.request_id == request_id
                    &&& req.kind is InitTally
                    &&& req.round_id == old(self).round_id
                    &&& req.args@ =~= seq![Argument::PlaintextU128(nonce)]
                    &&& final(self).tally.is_zero_state()
                    &&& final(self).tally.nonce == nonce
                    &&& final(self).escrows@ =~= old(self).escrows@.push(
                        RoundEscrow {
                            round_id: old(self).round_id,
                            total_collected: 0,
                            total_distributed: 0,
                            current_balance: 0,
                            status: EscrowStatus::Active,
                            created_at: now,
                        },
                    )
                    &&& final(self).pending_mutation == Some(
                        PendingComputation {
                            request_id,
                            kind: CompKind::InitTally,
                            round_id: old(self).round_id,
                        },
                    )
                    &&& *final(self) == (ProposalSystem {
                        phase: Phase::Open,
                        opened_at: now,
                        tally: final(self).tally,
                        escrows: final(self).escrows,
                        pending_mutation: final(self).pending_mutation,
                        ..*old(self)
                    })
                },
                Err(e) => {
                    &&& e == VoteError::InvalidPhase
                    &&& old(self).phase !is Archived
                    &&& *final(self) == *old(self)
                },
            }),
    {
        if self.phase != Phase::Archived {
            return Err(VoteError::InvalidPhase);
        }
        self.phase = Phase::Open;
        self.opened_at = now;
        self.tally = CiphertextTally::zero_state(nonce);
        self.escrows.push(RoundEscrow::open(self.round_id, now));
        self.pending_mutation = Some(
            PendingComputation { request_id, kind: CompKind::InitTally, round_id: self.round_id },
        );
        let mut args: Vec<Argument> = Vec::new();
        args.push(Argument::PlaintextU128(nonce));
        Ok(
            ComputationRequest {
                request_id,
                kind: CompKind::InitTally,
                round_id: self.round_id,
                args,
            },
        )
    }

    /// Submits a proposal to the live round and collects its fee: legal only
    /// in `Open`, only below the proposal cap, and only when the payer can
    /// cover the fee. The proposal takes the next ordinal id, and the fee is
    /// booked into the round's escrow in the same step — both happen or
    /// neither does. Returns the assigned id.
    pub fn submit_proposal(
        &mut self,
        title: String,
        description: String,
        url: Option<String>,
        submitter: [u8; 32],
        payer_balance: u64,
    ) -> (r: Result<u8, VoteError>)
        requires
            old(self).wf(),
        ensures
            final(self).wf(),
            (match r {
                Ok(id) => {
                    &&& old(self).phase is Open
                    &&& old(self).proposal_count < TALLY_SLOTS
                    &&& payer_balance >= old(self).fee
                    &&& id == old(self).proposal_count
                    &&& final(self).proposal_count == old(self).proposal_count + 1
                    &&& final(self).proposals@ =~= old(self).proposals@.push(
                        Proposal {
                            id,
                            round_id: old(self).round_id,
                            submitter,
                            title,
                            description,
                            url,
                            vote_count: 0,
                        },
                    )
                    &&& final(self).escrows@ =~= old(self).escrows@.update(
                        old(self).round_id as int,
                        (RoundEscrow {
                            total_collected: (old(self).escrows@[old(self).round_id as int]
                                .total_collected + old(self).fee) as u64,
                            current_balance: (old(self).escrows@[old(self).round_id as int]
                                .current_balance + old(self).fee) as u64,
                            ..old(self).escrows@[old(self).round_id as int]
                        }),
                    )
                    &&& *final(self) == (ProposalSystem {
                        proposal_count: final(self).proposal_count,
                        proposals: final(self).proposals,
                        escrows: final(self).escrows,
                        ..*old(self)
                    })
                },
                Err(e) => {
                    &&& *final(self) == *old(self)
                    &&& (if old(self).phase !is Open {
                        e == VoteError::InvalidPhase
                    } else if old(self).proposal_count >= TALLY_SLOTS {
                        e == VoteError::MaxProposalsReached
                    } else {
                        e == VoteError::InsufficientFunds && payer_balance < old(self).fee
                    })
                },
            }),
    {
        if self.phase != Phase::Open {
            return Err(VoteError::InvalidPhase);
        }
        if !(self.proposal_count < TALLY_SLOTS as u8) {
            return Err(VoteError::MaxProposalsReached);
        }
        if payer_balance < self.fee {
            return Err(VoteError::InsufficientFunds);
        }
        let id = self.proposal_count;
        proof {
            assert(self.escrows@[self.round_id as int].total_collected == self.proposal_count
                * self.fee);
            assert((self.proposal_count + 1) * self.fee == self.proposal_count * self.fee
                + self.fee) by (nonlinear_arith);
            assert((self.proposal_count + 1) * self.fee <= TALLY_SLOTS * self.fee)
                by (nonlinear_arith)
                requires
                    self.proposal_count + 1 <= TALLY_SLOTS,
                    self.fee >= 0,
            ;
        }
        let escrow_index = self.escrows.len() - 1;
        assert(escrow_index == self.round_id as int);
        let fee = self.fee;
        let mut escrow = self.escrows[escrow_index];
        escrow.collect(fee);
        self.escrows.set(escrow_index, escrow);
        self.proposals.push(
            Proposal {
                id,
                round_id: self.round_id,
                submitter,
                title,
                description,
                url,
                vote_count: 0,
            },
        );
        self.proposal_count = self.proposal_count + 1;
        Ok(id)
    }

    /// Casts an encrypted ballot in the live round. The receipt is created
    /// first — a second ballot from the same voter fails `AlreadyVoted` —
    /// and then a tally-increment computation is issued over the current
    /// tally and nonce. The ballot is folded in only when that computation's
    /// callback succeeds. `round_id` must name the currently open round:
    /// a stale or future id fails `InvalidRound` even if it was valid
    /// earlier. While another tally mutation is in flight the round accepts
    /// no new one, and the receipt is not created either.
    pub fn cast_vote(
        &mut self,
        round_id: u64,
        proposal_id: u8,
        encrypted_choice: Ciphertext,
        voter: [u8; 32],
        voter_pubkey: [u8; 32],
        vote_nonce: u128,
        request_id: u64,
        now: i64,
    ) -> (r: Result<ComputationRequest, VoteError>)
        requires
            old(self).wf(),
            !old(self).spec_has_pending(request_id),
        ensures
            final(self).wf(),
            (match r {
                Ok(req) => {
                    &&& old(self).phase is Open
                    &&& round_id == old(self).round_id
                    &&& proposal_id < old(self).proposal_count
                    &&& !old(self).receipts.has_receipt(voter, round_id)
                    &&& old(self).pending_mutation is None
                    &&& req.request_id == request_id
                    &&& req.kind is Vote
                    &&& req.round_id == round_id
                    &&& req.args@ =~= seq![
                        Argument::SharedPubkey(voter_pubkey),
                        Argument::PlaintextU128(vote_nonce),
                        Argument::EncryptedU8(encrypted_choice),
                        Argument::PlaintextU128(old(self).tally.nonce),
                        Argument::TallyRef,
                    ]
                    &&& final(self).receipts.records@ =~= old(self).receipts.records@.push(
                        VoteReceipt {
                            voter,
                            round_id,
                            encrypted_choice,
                            voter_pubkey,
                            cast_at: now,
                        },
                    )
                    &&& final(self).pending_mutation == Some(
                        PendingComputation { request_id, kind: CompKind::Vote, round_id },
                    )
                    &&& *final(self) == (ProposalSystem {
                        receipts: final(self).receipts,
                        pending_mutation: final(self).pending_mutation,
                        ..*old(self)
                    })
                },
                Err(e) => {
                    &&& *final(self) == *old(self)
                    &&& (if round_id != old(self).round_id {
                        e == VoteError::InvalidRound
                    } else if old(self).phase !is Open {
                        e == VoteError::InvalidPhase
                    } else if proposal_id >= old(self).proposal_count {
                        e == VoteError::InvalidProposalId
                    } else if old(self).receipts.has_receipt(voter, round_id) {
                        e == VoteError::AlreadyVoted
                    } else {
                        e == VoteError::InvalidPhase && old(self).pending_mutation is Some
                    })
                },
            }),
    {
        if round_id != self.round_id {
            return Err(VoteError::InvalidRound);
        }
        if self.phase != Phase::Open {
            return Err(VoteError::InvalidPhase);
        }
        if !(proposal_id < self.proposal_count) {
            return Err(VoteError::InvalidProposalId);
        }
        if self.receipts.contains(&voter, round_id) {
            return Err(VoteError::AlreadyVoted);
        }
        if self.pending_mutation.is_some() {
            // The single-flight fence: one tally mutation at a time.
            return Err(VoteError::InvalidPhase);
        }
        let tally_nonce = self.tally.nonce;
        let receipt = VoteReceipt { voter, round_id, encrypted_choice, voter_pubkey, cast_at: now };
        proof {
            crate::receipt::lemma_count_for_round_push(
                self.receipts.records@,
                receipt,
                self.round_id,
            );
        }
        let created = self.receipts.create_receipt(receipt);
        assert(created is Ok);
        self.pending_mutation = Some(
            PendingComputation { request_id, kind: CompKind::Vote, round_id },
        );
        let mut args: Vec<Argument> = Vec::new();
        args.push(Argument::SharedPubkey(voter_pubkey));
        args.push(Argument::PlaintextU128(vote_nonce));
        args.push(Argument::EncryptedU8(encrypted_choice));
        args.push(Argument::PlaintextU128(tally_nonce));
        args.push(Argument::TallyRef);
        Ok(ComputationRequest { request_id, kind: CompKind::Vote, round_id, args })
    }

    /// Requests the reveal of the live round's winner: authority only, for
    /// the current round only, and only from `Open` (the first request,
    /// which moves the round to `Tallying`) or from `Tallying` with no
    /// outstanding reveal (the operator retry path after an abort or an
    /// abandonment). The issued computation carries the current nonce and a
    /// reference to the authoritative tally. While a tally mutation is in
    /// flight, the request is refused.
    pub fn request_reveal(&mut self, round_id: u64, caller: [u8; 32], request_id: u64) -> (r:
        Result<ComputationRequest, VoteError>)
        requires
            old(self).wf(),
            !old(self).spec_has_pending(request_id),
        ensures
            final(self).wf(),
            (match r {
                Ok(req) => {
                    &&& caller@ == old(self).authority@
                    &&& round_id == old(self).round_id
                    &&& (old(self).phase is Open || old(self).phase is Tallying)
                    &&& old(self).pending_mutation is None
                    &&& req.request_id == request_id
                    &&& req.kind is Reveal
                    &&& req.round_id == round_id
                    &&& req.args@ =~= seq![
                        Argument::PlaintextU128(old(self).tally.nonce),
                        Argument::TallyRef,
                    ]
                    &&& final(self).pending_mutation == Some(
                        PendingComputation { request_id, kind: CompKind::Reveal, round_id },
                    )
                    &&& *final(self) == (ProposalSystem {
                        phase: Phase::Tallying,
                        pending_mutation: final(self).pending_mutation,
                        ..*old(self)
                    })
                },
                Err(e) => {
                    &&& *final(self) == *old(self)
                    &&& (if caller@ != old(self).authority@ {
                        e == VoteError::Unauthorized
                    } else if round_id != old(self).round_id {
                        e == VoteError::InvalidRound
                    } else if !(old(self).phase is Open || old(self).phase is Tallying) {
                        e == VoteError::InvalidPhase
                    } else {
                        e == VoteError::InvalidPhase && old(self).pending_mutation is Some
                    })
                },
            }),
    {
        if !crate::tally::bytes32_eq(&caller, &self.authority) {
            return Err(VoteError::Unauthorized);
        }
        if round_id != self.round_id {
            return Err(VoteError::InvalidRound);
        }
        if !(self.phase == Phase::Open || self.phase == Phase::Tallying) {
            return Err(VoteError::InvalidPhase);
        }
        if self.pending_mutation.is_some() {
            // The single-flight fence: the prior init, vote or reveal must
            // resolve or be abandoned first.
            return Err(VoteError::InvalidPhase);
        }
        let tally_nonce = self.tally.nonce;
        self.phase = Phase::Tallying;
        self.pending_mutation = Some(
            PendingComputation { request_id, kind: CompKind::Reveal, round_id },
        );
        let mut args: Vec<Argument> = Vec::new();
        args.push(Argument::PlaintextU128(tally_nonce));
        args.push(Argument::TallyRef);
        Ok(ComputationRequest { request_id, kind: CompKind::Reveal, round_id, args })
    }

    /// Resolves the pending init computation. On success the payload's
    /// ciphertext array and nonce replace the tally verbatim — unless the
    /// payload reuses the current nonce, which the re-randomization mandate
    /// rejects as if the computation had aborted. On abort nothing but the
    /// pending slot changes. A callback that matches no pending init request
    /// fails `NotFound` and changes nothing.
    pub fn init_tally_callback(&mut self, request_id: u64, outcome: Outcome<TallyPayload>) -> (r:
        Result<(), VoteError>)
        requires
            old(self).wf(),
        ensures
            final(self).wf(),
            (match r {
                Ok(()) => {
                    &&& old(self).pending_mutation == Some(
                        PendingComputation {
                            request_id,
                            kind: CompKind::InitTally,
                            round_id: old(self).round_id,
                        },
                    )
                    &&& outcome matches Outcome::Success(p) && p.nonce != old(self).tally.nonce
                        && final(self).tally.slots == p.ciphertexts && final(self).tally.nonce
                        == p.nonce
                    &&& *final(self) == (ProposalSystem {
                        tally: final(self).tally,
                        pending_mutation: None,
                        ..*old(self)
                    })
                },
                Err(e) => {
                    &&& (match old(self).pending_mutation {
                        Some(p) => {
                            if p.request_id == request_id && p.kind is InitTally {
                                &&& e == VoteError::ComputationAborted
                                &&& (outcome matches Outcome::Success(pay) ==> pay.nonce
                                    == old(self).tally.nonce)
                                &&& *final(self) == (ProposalSystem {
                                    pending_mutation: None,
                                    ..*old(self)
                                })
                            } else {
                                e == VoteError::NotFound && *final(self) == *old(self)
                            }
                        },
                        None => e == VoteError::NotFound && *final(self) == *old(self),
                    })
                },
            }),
    {
        let matched = match &self.pending_mutation {
            Some(p) => p.request_id == request_id && p.kind == CompKind::InitTally,
            None => false,
        };
        if !matched {
            return Err(VoteError::NotFound);
        }
        match outcome {
            Outcome::Success(payload) => {
                if payload.nonce == self.tally.nonce {
                    // Reusing a nonce across successive tally states is a
                    // replay vulnerability; the payload is refused.
                    self.pending_mutation = None;
                    return Err(VoteError::ComputationAborted);
                }
                self.tally = CiphertextTally { slots: payload.ciphertexts, nonce: payload.nonce };
                self.pending_mutation = None;
                Ok(())
            },
            Outcome::Abort => {
                self.pending_mutation = None;
                Err(VoteError::ComputationAborted)
            },
        }
    }

    /// Resolves the pending vote computation. On success the payload
    /// replaces the tally wholesale (its nonce must strictly differ from
    /// the prior one, else the payload is refused like an abort) and the
    /// round's voter count grows by one. On abort the tally is untouched and
    /// the receipt remains: the ballot stays recorded but not folded in. A
    /// callback matching no pending vote request fails `NotFound`.
    pub fn vote_callback(&mut self, request_id: u64, outcome: Outcome<TallyPayload>) -> (r: Result<
        (),
        VoteError,
    >)
        requires
            old(self).wf(),
        ensures
            final(self).wf(),
            // Re-randomization: a successful vote callback always leaves the
            // tally under a nonce strictly different from the prior one.
            r is Ok ==> final(self).tally.nonce != old(self).tally.nonce,
            (match r {
                Ok(()) => {
                    &&& old(self).pending_mutation == Some(
                        PendingComputation {
                            request_id,
                            kind: CompKind::Vote,
                            round_id: old(self).round_id,
                        },
                    )
                    &&& outcome matches Outcome::Success(p) && p.nonce != old(self).tally.nonce
                        && final(self).tally.slots == p.ciphertexts && final(self).tally.nonce
                        == p.nonce
                    &&& final(self).voter_count == old(self).voter_count + 1
                    &&& *final(self) == (ProposalSystem {
                        tally: final(self).tally,
                        voter_count: final(self).voter_count,
                        pending_mutation: None,
                        ..*old(self)
                    })
                },
                Err(e) => {
                    &&& (match old(self).pending_mutation {
                        Some(p) => {
                            if p.request_id == request_id && p.kind is Vote {
                                &&& e == VoteError::ComputationAborted
                                &&& (outcome matches Outcome::Success(pay) ==> pay.nonce
                                    == old(self).tally.nonce)
                                &&& *final(self) == (ProposalSystem {
                                    pending_mutation: None,
                                    ..*old(self)
                                })
                            } else {
                                e == VoteError::NotFound && *final(self) == *old(self)
                            }
                        },
                        None => e == VoteError::NotFound && *final(self) == *old(self),
                    })
                },
            }),
    {
        let matched = match &self.pending_mutation {
            Some(p) => p.request_id == request_id && p.kind == CompKind::Vote,
            None => false,
        };
        if !matched {
            return Err(VoteError::NotFound);
        }
        match outcome {
            Outcome::Success(payload) => {
                if payload.nonce == self.tally.nonce {
                    // Reusing a nonce across successive tally states is a
                    // replay vulnerability; the payload is refused.
                    self.pending_mutation = None;
                    return Err(VoteError::ComputationAborted);
                }
                self.tally = CiphertextTally { slots: payload.ciphertexts, nonce: payload.nonce };
                proof {
                    // The counter stays below the ledger's receipt count,
                    // which a vector can hold, so it cannot overflow.
                    crate::receipt::lemma_count_for_round_le_len(
                        self.receipts.records@,
                        self.round_id,
                    );
                    assert(self.receipts.records.len() == self.receipts.records@.len());
                }
                self.voter_count = self.voter_count + 1;
                self.pending_mutation = None;
                Ok(())
            },
            Outcome::Abort => {
                self.pending_mutation = None;
                Err(VoteError::ComputationAborted)
            },
        }
    }

    /// Resolves the pending reveal computation. On success the declassified
    /// winner is stored in the live winner fields and the round moves to
    /// `Revealed`, which closes it: a successor becomes eligible to open
    /// while this round's data stays readable for archiving. On abort the
    /// round remains in `Tallying` and a fresh reveal may be requested. A
    /// callback matching no pending reveal request fails `NotFound`.
    pub fn reveal_callback(&mut self, request_id: u64, outcome: Outcome<RevealPayload>, now: i64)
        -> (r: Result<(), VoteError>)
        requires
            old(self).wf(),
        ensures
            final(self).wf(),
            (match r {
                Ok(()) => {
                    &&& old(self).pending_mutation == Some(
                        PendingComputation {
                            request_id,
                            kind: CompKind::Reveal,
                            round_id: old(self).round_id,
                        },
                    )
                    &&& old(self).phase is Tallying
                    &&& outcome matches Outcome::Success(p) && final(self).winner == Some(
                        RevealedWinner {
                            proposal_id: p.winning_proposal_id,
                            vote_count: p.vote_count,
                            revealed_at: now,
                        },
                    )
                    &&& *final(self) == (ProposalSystem {
                        phase: Phase::Revealed,
                        winner: final(self).winner,
                        pending_mutation: None,
                        ..*old(self)
                    })
                },
                Err(e) => {
                    &&& (match old(self).pending_mutation {
                        Some(p) => {
                            if p.request_id == request_id && p.kind is Reveal {
                                &&& e == VoteError::ComputationAborted
                                &&& outcome is Abort
                                &&& *final(self) == (ProposalSystem {
                                    pending_mutation: None,
                                    ..*old(self)
                                })
                            } else {
                                e == VoteError::NotFound && *final(self) == *old(self)
                            }
                        },
                        None => e == VoteError::NotFound && *final(self) == *old(self),
                    })
                },
            }),
    {
        let matched = match &self.pending_mutation {
            Some(p) => p.request_id == request_id && p.kind == CompKind::Reveal,
            None => false,
        };
        if !matched {
            return Err(VoteError::NotFound);
        }
        match outcome {
            Outcome::Success(payload) => {
                self.winner = Some(
                    RevealedWinner {
                        proposal_id: payload.winning_proposal_id,
                        vote_count: payload.vote_count,
                        revealed_at: now,
                    },
                );
                self.phase = Phase::Revealed;
                self.pending_mutation = None;
                Ok(())
            },
            Outcome::Abort => {
                self.pending_mutation = None;
                Err(VoteError::ComputationAborted)
            },
        }
    }

    /// Archives the revealed round and opens its successor in one step:
    /// authority only, for the live round only, legal only from `Revealed`.
    /// One history entry is written from the live winner fields and
    /// counters; the winner fields are cleared; the tally is reset to the
    /// all-zero state under `fresh_nonce` (which must differ from the
    /// current nonce); the proposal and voter counters are zeroed; the
    /// round's escrow turns `Completed`; and round `round_id + 1` opens with
    /// a fresh active escrow.
    pub fn archive(&mut self, round_id: u64, caller: [u8; 32], fresh_nonce: u128, now: i64) -> (r:
        Result<(), VoteError>)
        requires
            old(self).wf(),
            old(self).round_id < u64::MAX,
            fresh_nonce != old(self).tally.nonce,
        ensures
            final(self).wf(),
            (match r {
                Ok(()) => {
                    &&& caller@ == old(self).authority@
                    &&& round_id == old(self).round_id
                    &&& old(self).phase is Revealed
                    &&& final(self).history@ =~= old(self).history@.push(
                        RoundHistory {
                            round_id,
                            winning_proposal_id: old(self).winner->0.proposal_id,
                            revealed_at: old(self).winner->0.revealed_at,
                            revealed_by: caller,
                            total_proposals: old(self).proposal_count,
                        },
                    )
                    &&& final(self).escrows@ =~= old(self).escrows@.update(
                        round_id as int,
                        (RoundEscrow {
                            status: EscrowStatus::Completed,
                            ..old(self).escrows@[round_id as int]
                        }),
                    ).push(
                        RoundEscrow {
                            round_id: (round_id + 1) as u64,
                            total_collected: 0,
                            total_distributed: 0,
                            current_balance: 0,
                            status: EscrowStatus::Active,
                            created_at: now,
                        },
                    )
                    &&& final(self).round_id == old(self).round_id + 1
                    &&& final(self).phase is Open
                    &&& final(self).winner is None
                    &&& final(self).proposal_count == 0
                    &&& final(self).voter_count == 0
                    &&& final(self).proposals@.len() == 0
                    &&& final(self).tally.is_zero_state()
                    &&& final(self).tally.nonce == fresh_nonce
                    &&& *final(self) == (ProposalSystem {
                        round_id: final(self).round_id,
                        phase: Phase::Open,
                        proposal_count: 0,
                        voter_count: 0,
                        opened_at: now,
                        proposals: final(self).proposals,
                        tally: final(self).tally,
                        winner: None,
                        escrows: final(self).escrows,
                        history: final(self).history,
                        ..*old(self)
                    })
                },
                Err(e) => {
                    &&& *final(self) == *old(self)
                    &&& (if caller@ != old(self).authority@ {
                        e == VoteError::Unauthorized
                    } else if round_id != old(self).round_id {
                        e == VoteError::InvalidRound
                    } else {
                        e == VoteError::InvalidPhase && old(self).phase !is Revealed
                    })
                },
            }),
    {
        if !crate::tally::bytes32_eq(&caller, &self.authority) {
            return Err(VoteError::Unauthorized);
        }
        if round_id != self.round_id {
            return Err(VoteError::InvalidRound);
        }
        if self.phase != Phase::Revealed {
            return Err(VoteError::InvalidPhase);
        }
        let winner = match &self.winner {
            Some(w) => *w,
            None => {
                // Unreachable: `Revealed` always carries the winner fields.
                assert(false);
                RevealedWinner { proposal_id: 0, vote_count: 0, revealed_at: 0 }
            },
        };
        self.history.push(
            RoundHistory {
                round_id,
                winning_proposal_id: winner.proposal_id,
                revealed_at: winner.revealed_at,
                revealed_by: caller,
                total_proposals: self.proposal_count,
            },
        );
        let escrow_index = self.escrows.len() - 1;
        assert(escrow_index == round_id as int);
        let mut escrow = self.escrows[escrow_index];
        escrow.complete();
        self.escrows.set(escrow_index, escrow);
        self.winner = None;
        self.tally = CiphertextTally::zero_state(fresh_nonce);
        self.proposal_count = 0;
        self.voter_count = 0;
        self.proposals = Vec::new();
        self.round_id = self.round_id + 1;
        self.escrows.push(RoundEscrow::open(self.round_id, now));
        self.phase = Phase::Open;
        self.opened_at = now;
        Ok(())
    }

    /// Holds whether the round is closed: its winner has been revealed,
    /// either in an earlier round or in the live round once it reaches
    /// `Revealed`.
    pub open spec fn round_closed(self, round_id: u64) -> bool {
        round_id < self.round_id || (round_id == self.round_id && self.phase is Revealed)
    }

    /// The recorded winner of a closed round: the history entry's once the
    /// round is archived, the live winner fields before that.
    pub open spec fn recorded_winner(self, round_id: u64) -> u8 {
        if round_id < self.round_id {
            self.history@[round_id as int].winning_proposal_id
        } else {
            self.winner->0.proposal_id
        }
    }

    /// Holds whether a pending query of the kind carries the id.
    pub open spec fn spec_has_query(self, request_id: u64, kind: CompKind) -> bool {
        exists|i: int|
            0 <= i < self.pending_queries@.len() && (#[trigger] self.pending_queries@[i]).request_id
                == request_id && self.pending_queries@[i].kind == kind
    }

    /// The position of the pending query with the id and kind.
    pub open spec fn query_index(self, request_id: u64, kind: CompKind) -> int {
        choose|i: int|
            0 <= i < self.pending_queries@.len() && (#[trigger] self.pending_queries@[i]).request_id
                == request_id && self.pending_queries@[i].kind == kind
    }

    /// Asks whether the caller's own ballot in a closed round was cast for
    /// that round's recorded winner. The caller must present the very
    /// ciphertext their stored receipt holds — any other fails
    /// `ReceiptMismatch` — and the equality-against-winner test itself is
    /// delegated to the engine's verify circuit, over the receipt's stored
    /// encryption key: the issued request carries the presented ciphertext
    /// and the recorded winner, and the circuit's one disclosed bit comes
    /// back through `verify_callback`.
    pub fn verify_winning_vote(
        &mut self,
        round_id: u64,
        claimed_choice: Ciphertext,
        vote_nonce: u128,
        caller: [u8; 32],
        request_id: u64,
    ) -> (r: Result<ComputationRequest, VoteError>)
        requires
            old(self).wf(),
            !old(self).spec_has_pending(request_id),
        ensures
            final(self).wf(),
            (match r {
                Ok(req) => {
                    &&& old(self).round_closed(round_id)
                    &&& old(self).receipts.has_receipt(caller, round_id)
                    &&& old(self).receipts.receipt_of(caller, round_id).encrypted_choice@
                        == claimed_choice@
                    &&& req.request_id == request_id
                    &&& req.kind is Verify
                    &&& req.round_id == round_id
                    &&& req.args@ =~= seq![
                        Argument::SharedPubkey(
                            old(self).receipts.receipt_of(caller, round_id).voter_pubkey,
                        ),
                        Argument::PlaintextU128(vote_nonce),
                        Argument::EncryptedU8(claimed_choice),
                        Argument::PlaintextU8(old(self).recorded_winner(round_id)),
                    ]
                    &&& final(self).pending_queries@ =~= old(self).pending_queries@.push(
                        PendingComputation { request_id, kind: CompKind::Verify, round_id },
                    )
                    &&& *final(self) == (ProposalSystem {
                        pending_queries: final(self).pending_queries,
                        ..*old(self)
                    })
                },
                Err(e) => {
                    &&& *final(self) == *old(self)
                    &&& (if !old(self).round_closed(round_id) {
                        e == VoteError::InvalidRound
                    } else if !old(self).receipts.has_receipt(caller, round_id) {
                        e == VoteError::NotFound
                    } else {
                        e == VoteError::ReceiptMismatch && old(self).receipts.receipt_of(
                            caller,
                            round_id,
                        ).encrypted_choice@ != claimed_choice@
                    })
                },
            }),
    {
        let closed = round_id < self.round_id || (round_id == self.round_id && self.phase
            == Phase::Revealed);
        if !closed {
            return Err(VoteError::InvalidRound);
        }
        let receipt = match self.receipts.verify_membership(&caller, round_id) {
            Ok(receipt) => receipt,
            Err(_) => {
                return Err(VoteError::NotFound);
            },
        };
        if !crate::tally::bytes32_eq(&receipt.encrypted_choice, &claimed_choice) {
            return Err(VoteError::ReceiptMismatch);
        }
        let winning_proposal_id = if round_id < self.round_id {
            let hist_len = self.history.len();
            assert(round_id < hist_len);
            let entry = self.history[round_id as usize];
            entry.winning_proposal_id
        } else {
            match &self.winner {
                Some(w) => w.proposal_id,
                None => {
                    // Unreachable: a closed live round is `Revealed` and
                    // carries the winner fields.
                    assert(false);
                    0
                },
            }
        };
        self.pending_queries.push(
            PendingComputation { request_id, kind: CompKind::Verify, round_id },
        );
        let mut args: Vec<Argument> = Vec::new();
        args.push(Argument::SharedPubkey(receipt.voter_pubkey));
        args.push(Argument::PlaintextU128(vote_nonce));
        args.push(Argument::EncryptedU8(claimed_choice));
        args.push(Argument::PlaintextU8(winning_proposal_id));
        Ok(ComputationRequest { request_id, kind: CompKind::Verify, round_id, args })
    }

    /// Asks the engine to declassify one ballot's plaintext choice. This is
    /// the audit path and the one exception to ballot secrecy, so it is
    /// authority-only. The plaintext comes back through `decrypt_callback`.
    pub fn decrypt_vote(
        &mut self,
        encrypted_choice: Ciphertext,
        voter_pubkey: [u8; 32],
        vote_nonce: u128,
        caller: [u8; 32],
        request_id: u64,
    ) -> (r: Result<ComputationRequest, VoteError>)
        requires
            old(self).wf(),
            !old(self).spec_has_pending(request_id),
        ensures
            final(self).wf(),
            (match r {
                Ok(req) => {
                    &&& caller@ == old(self).authority@
                    &&& req.request_id == request_id
                    &&& req.kind is Decrypt
                    &&& req.round_id == old(self).round_id
                    &&& req.args@ =~= seq![
                        Argument::SharedPubkey(voter_pubkey),
                        Argument::PlaintextU128(vote_nonce),
                        Argument::EncryptedU8(encrypted_choice),
                    ]
                    &&& final(self).pending_queries@ =~= old(self).pending_queries@.push(
                        PendingComputation {
                            request_id,
                            kind: CompKind::Decrypt,
                            round_id: old(self).round_id,
                        },
                    )
                    &&& *final(self) == (ProposalSystem {
                        pending_queries: final(self).pending_queries,
                        ..*old(self)
                    })
                },
                Err(e) => {
                    &&& *final(self) == *old(self)
                    &&& e == VoteError::Unauthorized
                    &&& caller@ != old(self).authority@
                },
            }),
    {
        if !crate::tally::bytes32_eq(&caller, &self.authority) {
            return Err(VoteError::Unauthorized);
        }
        self.pending_queries.push(
            PendingComputation { request_id, kind: CompKind::Decrypt, round_id: self.round_id },
        );
        let mut args: Vec<Argument> = Vec::new();
        args.push(Argument::SharedPubkey(voter_pubkey));
        args.push(Argument::PlaintextU128(vote_nonce));
        args.push(Argument::EncryptedU8(encrypted_choice));
        Ok(
            ComputationRequest {
                request_id,
                kind: CompKind::Decrypt,
                round_id: self.round_id,
                args,
            },
        )
    }

    /// Finds the position of the pending query carrying the id and kind.
    fn find_query(&self, request_id: u64, kind: CompKind) -> (r: Option<usize>)
        ensures
            (match r {
                Some(i) => 0 <= i < self.pending_queries@.len()
                    && self.pending_queries@[i as int].request_id == request_id
                    && self.pending_queries@[i as int].kind == kind,
                None => !self.spec_has_query(request_id, kind),
            }),
    {
        let mut i: usize = 0;
        while i < self.pending_queries.len()
            invariant
                0 <= i <= self.pending_queries@.len(),
                forall|j: int|
                    0 <= j < i ==> !((#[trigger] self.pending_queries@[j]).request_id == request_id
                        && self.pending_queries@[j].kind == kind),
            decreases self.pending_queries@.len() - i,
        {
            let q = &self.pending_queries[i];
            if q.request_id == request_id && q.kind == kind {
                return Some(i);
            }
            i += 1;
        }
        None
    }

    /// Resolves a pending verify query: hands the engine's one disclosed
    /// bit back on success — whether the ballot matched the recorded winner
    /// — or `ComputationAborted` on abort. Either way the pending record is
    /// discarded; a callback matching no pending verify query fails
    /// `NotFound` and changes nothing.
    pub fn verify_callback(&mut self, request_id: u64, outcome: Outcome<bool>) -> (r: Result<
        bool,
        VoteError,
    >)
        requires
            old(self).wf(),
        ensures
            final(self).wf(),
            (match r {
                Ok(b) => {
                    &&& old(self).spec_has_query(request_id, CompKind::Verify)
                    &&& outcome == Outcome::Success(b)
                    &&& final(self).pending_queries@ =~= old(self).pending_queries@.remove(
                        old(self).query_index(request_id, CompKind::Verify),
                    )
                    &&& *final(self) == (ProposalSystem {
                        pending_queries: final(self).pending_queries,
                        ..*old(self)
                    })
                },
                Err(e) => {
                    if old(self).spec_has_query(request_id, CompKind::Verify) {
                        &&& e == VoteError::ComputationAborted
                        &&& outcome is Abort
                        &&& final(self).pending_queries@ =~= old(self).pending_queries@.remove(
                            old(self).query_index(request_id, CompKind::Verify),
                        )
                        &&& *final(self) == (ProposalSystem {
                            pending_queries: final(self).pending_queries,
                            ..*old(self)
                        })
                    } else {
                        e == VoteError::NotFound && *final(self) == *old(self)
                    }
                },
            }),
    {
        let i = match self.find_query(request_id, CompKind::Verify) {
            Some(i) => i,
            None => {
                return Err(VoteError::NotFound);
            },
        };
        proof {
            let qi = self.query_index(request_id, CompKind::Verify);
            if qi != i as int {
                assert(false);
            }
        }
        self.pending_queries.remove(i);
        match outcome {
            Outcome::Success(is_winning_vote) => Ok(is_winning_vote),
            Outcome::Abort => Err(VoteError::ComputationAborted),
        }
    }

    /// Resolves a pending decrypt query: hands the declassified plaintext
    /// choice back on success, `ComputationAborted` on abort. Either way the
    /// pending record is discarded; a callback matching no pending decrypt
    /// query fails `NotFound` and changes nothing.
    pub fn decrypt_callback(&mut self, request_id: u64, outcome: Outcome<u8>) -> (r: Result<
        u8,
        VoteError,
    >)
        requires
            old(self).wf(),
        ensures
            final(self).wf(),
            (match r {
                Ok(choice) => {
                    &&& old(self).spec_has_query(request_id, CompKind::Decrypt)
                    &&& outcome == Outcome::Success(choice)
                    &&& final(self).pending_queries@ =~= old(self).pending_queries@.remove(
                        old(self).query_index(request_id, CompKind::Decrypt),
                    )
                    &&& *final(self) == (ProposalSystem {
                        pending_queries: final(self).pending_queries,
                        ..*old(self)
                    })
                },
                Err(e) => {
                    if old(self).spec_has_query(request_id, CompKind::Decrypt) {
                        &&& e == VoteError::ComputationAborted
                        &&& outcome is Abort
                        &&& final(self).pending_queries@ =~= old(self).pending_queries@.remove(
                            old(self).query_index(request_id, CompKind::Decrypt),
                        )
                        &&& *final(self) == (ProposalSystem {
                            pending_queries: final(self).pending_queries,
                            ..*old(self)
                        })
                    } else {
                        e == VoteError::NotFound && *final(self) == *old(self)
                    }
                },
            }),
    {
        let i = match self.find_query(request_id, CompKind::Decrypt) {
            Some(i) => i,
            None => {
                return Err(VoteError::NotFound);
            },
        };
        proof {
            let qi = self.query_index(request_id, CompKind::Decrypt);
            if qi != i as int {
                assert(false);
            }
        }
        self.pending_queries.remove(i);
        match outcome {
            Outcome::Success(choice) => Ok(choice),
            Outcome::Abort => Err(VoteError::ComputationAborted),
        }
    }

    /// Operator escape hatch for a request whose callback never arrives:
    /// authority only. Discards the pending record with the id — the
    /// single-flight slot or a query — so a fresh request may be issued;
    /// nothing else changes. A round stuck in `Tallying` accepts a new
    /// `request_reveal` after its reveal request is abandoned.
    pub fn abandon_computation(&mut self, request_id: u64, caller: [u8; 32]) -> (r: Result<
        (),
        VoteError,
    >)
        requires
            old(self).wf(),
        ensures
            final(self).wf(),
            (match r {
                Ok(()) => {
                    &&& caller@ == old(self).authority@
                    &&& old(self).spec_has_pending(request_id)
                    &&& !final(self).spec_has_pending(request_id)
                    &&& (match old(self).pending_mutation {
                        Some(p) => {
                            if p.request_id == request_id {
                                *final(self) == (ProposalSystem {
                                    pending_mutation: None,
                                    ..*old(self)
                                })
                            } else {
                                &&& final(self).pending_queries@ =~= old(
                                    self,
                                ).pending_queries@.remove(
                                    old(self).spec_pending_query_index(request_id),
                                )
                                &&& *final(self) == (ProposalSystem {
                                    pending_queries: final(self).pending_queries,
                                    ..*old(self)
                                })
                            }
                        },
                        None => {
                            &&& final(self).pending_queries@ =~= old(self).pending_queries@.remove(
                                old(self).spec_pending_query_index(request_id),
                            )
                            &&& *final(self) == (ProposalSystem {
                                pending_queries: final(self).pending_queries,
                                ..*old(self)
                            })
                        },
                    })
                },
                Err(e) => {
                    &&& *final(self) == *old(self)
                    &&& (if caller@ != old(self).authority@ {
                        e == VoteError::Unauthorized
                    } else {
                        e == VoteError::NotFound && !old(self).spec_has_pending(request_id)
                    })
                },
            }),
    {
        if !crate::tally::bytes32_eq(&caller, &self.authority) {
            return Err(VoteError::Unauthorized);
        }
        let mutation_matches = match &self.pending_mutation {
            Some(p) => p.request_id == request_id,
            None => false,
        };
        if mutation_matches {
            self.pending_mutation = None;
            return Ok(());
        }
        let i = match self.find_query_any(request_id) {
            Some(i) => i,
            None => {
                return Err(VoteError::NotFound);
            },
        };
        proof {
            assert(self.pending_queries@[i as int].request_id == request_id);
            let qi = self.spec_pending_query_index(request_id);
            if qi != i as int {
                assert(self.pending_queries@[qi].request_id == request_id);
                assert(false);
            }
        }
        self.pending_queries.remove(i);
        Ok(())
    }

    /// Finds the position of the pending query carrying the id, of either
    /// kind.
    fn find_query_any(&self, request_id: u64) -> (r: Option<usize>)
        ensures
            (match r {
                Some(i) => 0 <= i < self.pending_queries@.len()
                    && self.pending_queries@[i as int].request_id == request_id,
                None => !exists|j: int|
                    0 <= j < self.pending_queries@.len() && (
                    #[trigger] self.pending_queries@[j]).request_id == request_id,
            }),
    {
        let mut i: usize = 0;
        while i < self.pending_queries.len()
            invariant
                0 <= i <= self.pending_queries@.len(),
                forall|j: int|
                    0 <= j < i ==> (#[trigger] self.pending_queries@[j]).request_id != request_id,
            decreases self.pending_queries@.len() - i,
        {
            if self.pending_queries[i].request_id == request_id {
                return Some(i);
            }
            i += 1;
        }
        None
    }

    /// The position of the pending query carrying the id, of either kind.
    pub open spec fn spec_pending_query_index(self, request_id: u64) -> int {
        choose|i: int|
            0 <= i < self.pending_queries@.len() && (#[trigger] self.pending_queries@[i]).request_id
                == request_id
    }

    /// The proposal cap holds at every observed instant, of the live round
    /// and of every archived round alike: no round ever exceeds the tally's
    /// slot count.
    pub proof fn lemma_proposal_cap(self)
        requires
            self.wf(),
        ensures
            self.proposal_count <= TALLY_SLOTS,
            forall|i: int|
                0 <= i < self.history@.len() ==> (#[trigger] self.history@[i]).total_proposals
                    <= TALLY_SLOTS,
    {
    }

    /// The tally reflects at most one increment per receipt: the live
    /// round's folded-ballot counter never exceeds its receipt count, and
    /// receipts are unique per (voter, round), so no voter's ballot is ever
    /// folded in twice.
    pub proof fn lemma_votes_bounded_by_receipts(self)
        requires
            self.wf(),
        ensures
            self.voter_count <= crate::receipt::count_for_round(
                self.receipts.records@,
                self.round_id,
            ),
    {
    }

    /// At most one vote receipt exists per (voter, round) pair, across the
    /// whole ledger and all rounds.
    pub proof fn lemma_one_receipt_per_voter_round(self, i: int, j: int)
        requires
            self.wf(),
            0 <= i < self.receipts.records@.len(),
            0 <= j < self.receipts.records@.len(),
            i != j,
        ensures
            !(self.receipts.records@[i].voter@ == self.receipts.records@[j].voter@
                && self.receipts.records@[i].round_id == self.receipts.records@[j].round_id),
    {
        self.receipts.lemma_one_receipt_per_voter_round(i, j);
    }
}

} // verus!
