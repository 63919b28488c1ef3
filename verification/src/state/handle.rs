//! What the state module does with messages, block verdicts and votes.

use vstd::prelude::*;

use crate::auth::{contains_address, flags_of};
use crate::bitmap::pack_spec;
use crate::cabinet::{Capsule, CapsuleView, ItemView};
use crate::error::ConsensusError;
use crate::smr::smr_types::{SMRTrigger, SMRTriggerView, Step, TriggerSource, TriggerType};
use crate::state::effect::{effect_views, Effect, EffectView, Reply};
use crate::state::process::{
    passed, proposal_class, qc_class, step_of, trigger_of, vote_type_to_step, vote_type_to_trigger,
    with_verdict, MsgType, ProposalClass, QcClass, State, StateModel, VerifyResp,
    FUTURE_HEIGHT_GAP, FUTURE_ROUND_GAP,
};
use crate::types::{
    bytes_clone, opt_polc_view, Address, AggregatedVote, AggregatedVoteView, BlockInfo,
    BlockInfoView, PoLC, PoLCView, Signature, SignedProposal, SignedProposalView, SignedVote,
    SignedVoteView, Vote, VoteType,
};

verus! {

/// One answer of the state module: what it has become, the effects it asks
/// for, and whether the input was taken in.
pub struct Answer<T> {
    pub state: StateModel<T>,
    pub effects: Seq<EffectView<T>>,
    pub result: Result<(), ConsensusError>,
}

/// The hashes at hand, with one more.
pub open spec fn with_block(blocks: Seq<Seq<u8>>, hash: Seq<u8>) -> Seq<Seq<u8>> {
    if blocks.contains(hash) {
        blocks
    } else {
        blocks.push(hash)
    }
}

/// What the state module keeps of the block of a proposal.
pub open spec fn header_of(height: u64, hash: Seq<u8>) -> BlockInfoView {
    BlockInfoView { height, exec_height: 0, pre_hash: Seq::empty(), block_hash: hash }
}

/// The round of a lock, if there is one.
pub open spec fn polc_round(lock: Option<PoLCView>) -> Option<u64> {
    match lock {
        Some(l) => Some(l.lock_round),
        None => None,
    }
}

impl<T> StateModel<T> {
    /// The input is refused.
    pub open spec fn refuse(self, effects: Seq<EffectView<T>>, e: ConsensusError) -> Answer<T> {
        Answer { state: self, effects, result: Err(e) }
    }

    /// The input has been taken in.
    pub open spec fn accept(self, effects: Seq<EffectView<T>>) -> Answer<T> {
        Answer { state: self, effects, result: Ok(()) }
    }

    /// The store after a quorum certificate has been put into it; the first
    /// certificate of a round and phase stays.
    pub open spec fn with_qc(self, qc: AggregatedVoteView) -> StateModel<T> {
        StateModel {
            shelf: if self.shelf.has_qc(qc.height, qc.round, qc.vote_type) {
                self.shelf
            } else {
                self.shelf.with(ItemView::VoteQC(qc))
            },
            ..self
        }
    }

    /// The lock to save for a lock round: the pre-vote quorum certificate
    /// of that round, which must be in the store, for a block whose content
    /// must be at hand.
    pub open spec fn wal_lock(self, lock_round: Option<u64>) -> Result<
        Option<PoLCView>,
        ConsensusError,
    > {
        match lock_round {
            None => Ok(None),
            Some(round) => {
                let i = self.shelf.first_qc(self.height, round, VoteType::Prevote);
                if !self.shelf.has_qc(self.height, round, VoteType::Prevote) {
                    Err(ConsensusError::NoQC)
                } else if !self.blocks.contains(self.shelf.items[i]->VoteQC_0.block_hash) {
                    Err(ConsensusError::LoseBlock)
                } else {
                    Ok(Some(PoLCView { lock_round: round, lock_votes: self.shelf.items[i]->VoteQC_0 }))
                }
            },
        }
    }

    /// The record to save at a step with the lock of a lock round.
    pub open spec fn wal_record(self, step: Step, lock_round: Option<u64>) -> Result<
        EffectView<T>,
        ConsensusError,
    > {
        match self.wal_lock(lock_round) {
            Err(e) => Err(e),
            Ok(lock) => Ok(
                EffectView::SaveWal { height: self.height, round: self.round, step, lock },
            ),
        }
    }

    /// The trigger by which the state machine learns of a quorum certificate.
    pub open spec fn qc_trigger(self, t: TriggerType, hash: Seq<u8>, round: u64) -> EffectView<T> {
        EffectView::Trigger(
            SMRTriggerView {
                trigger_type: t,
                source: TriggerSource::State,
                hash,
                round: Some(round),
                height: self.height,
                wal_info: None,
            },
        )
    }

    /// The quorum certificate of the last commit, sent again to a validator
    /// that is still at the height before.
    pub open spec fn retransmit(self, to: Seq<u8>) -> Seq<EffectView<T>> {
        match self.last_commit_qc {
            Some(qc) => seq![EffectView::RetransmitQC { to, qc }],
            None => Seq::empty(),
        }
    }

    /// The request to aggregate the signatures behind a block.
    pub open spec fn generate_effect(
        self,
        hash: Seq<u8>,
        vote_type: VoteType,
        lock_round: Option<Option<u64>>,
    ) -> EffectView<T> {
        EffectView::GenerateQC {
            block_hash: hash,
            vote_type,
            votes: self.sorted_votes(self.vote_for(vote_type, hash)),
            bitmap: pack_spec(
                flags_of(self.current, self.shelf.signers(self.vote_for(vote_type, hash))),
            ),
            lock_round,
        }
    }

    /// The application's verdict on a block of `height` comes in.
    ///
    /// A verdict of another height is ignored. Otherwise it is noted, and
    /// where the store holds a pre-commit quorum certificate for the block,
    /// or else a pre-vote quorum certificate of the current round, the state
    /// machine is triggered with it.
    pub open spec fn on_resp(self, height: u64, hash: Seq<u8>, is_pass: bool) -> Answer<T> {
        let noted = StateModel { full: with_verdict(self.full, hash, is_pass), ..self };
        let i = self.shelf.first_typed_qc(self.height, hash, VoteType::Prevote);
        if height != self.height {
            self.accept(Seq::empty())
        } else if self.shelf.has_typed_qc(self.height, hash, VoteType::Precommit) {
            noted.accept(seq![self.qc_trigger(TriggerType::PrecommitQC, hash, self.round)])
        } else if self.shelf.has_typed_qc(self.height, hash, VoteType::Prevote)
            && self.shelf.items[i]->VoteQC_0.round == self.round {
            noted.accept(seq![self.qc_trigger(TriggerType::PrevoteQC, hash, self.round)])
        } else {
            noted.accept(Seq::empty())
        }
    }

    /// A signed proposal arrives; `sig_ok` and `lock_ok` are the verdicts on
    /// its signature and on the aggregated signature of its lock.
    ///
    /// A proposal that is not to be handled now is kept or dropped as its
    /// class says. Otherwise its proposer and its signature are checked. A
    /// proposal of the height before is answered with the quorum
    /// certificate of the last commit. A proposal of the current round must
    /// carry, if any, a lock whose voters are a quorum; it is stored, the
    /// state machine is triggered, and the application is asked to check
    /// the block.
    pub open spec fn on_signed_proposal(self, sp: SignedProposalView<T>, sig_ok: bool, lock_ok: bool) -> Answer<
        T,
    > {
        let p = sp.proposal;
        let proposer = self.proposer_verdict(p.height, p.round, p.proposer, p.height == self.height);
        let lock = self.aggregated_verdict(
            p.lock->0.lock_votes.signature.address_bitmap,
            self.height,
            lock_ok,
        );
        let stored = StateModel {
            blocks: with_block(self.blocks, p.block_hash),
            shelf: if self.shelf.has_proposal(p.height, p.round) {
                self.shelf
            } else {
                self.shelf.with(
                    ItemView::Proposal { signed: sp, block: header_of(p.height, p.block_hash) },
                )
            },
            ..self
        };
        match proposal_class(self.height, self.round, p.height, p.round) {
            ProposalClass::Future => (StateModel {
                shelf: self.shelf.with(ItemView::Pending(CapsuleView::SignedProposal(sp))),
                ..self
            }).accept(Seq::empty()),
            ProposalClass::Current => {
                if proposer is Err {
                    self.refuse(Seq::empty(), proposer->Err_0)
                } else if !sig_ok {
                    self.refuse(Seq::empty(), ConsensusError::ProposalSignature)
                } else if p.height + 1 == self.height {
                    self.accept(self.retransmit(p.proposer))
                } else if p.lock is Some && lock is Err {
                    self.refuse(Seq::empty(), lock->Err_0)
                } else {
                    stored.accept(
                        seq![
                            EffectView::Trigger(
                                SMRTriggerView {
                                    trigger_type: TriggerType::Proposal,
                                    source: TriggerSource::State,
                                    hash: p.block_hash,
                                    round: polc_round(p.lock),
                                    height: self.height,
                                    wal_info: None,
                                },
                            ),
                            EffectView::CheckBlock { height: self.height, block_hash: p.block_hash },
                        ],
                    )
                }
            },
            _ => self.accept(Seq::empty()),
        }
    }

    /// The answer once a quorum certificate has been assembled here.
    ///
    /// The certificate is stored and sent to everybody. After a vote from
    /// the network (`lock_round` is `None`) the state machine is triggered
    /// where the block has passed the application's check. After this
    /// validator's own vote (`lock_round` is `Some`) the record for the
    /// write-ahead log comes first: with the lock as it was where the block
    /// has not passed the check yet, and with a lock of the current round,
    /// followed by the trigger, where it has.
    pub open spec fn on_generated_qc(self, qc: AggregatedVoteView, lock_round: Option<Option<u64>>) -> Answer<
        T,
    > {
        let stored = self.with_qc(qc);
        let sent = seq![EffectView::BroadcastQC(qc)];
        let trigger = self.qc_trigger(trigger_of(qc.vote_type), qc.block_hash, self.round);
        match lock_round {
            None => {
                if passed(self.full, qc.block_hash) {
                    stored.accept(sent.push(trigger))
                } else {
                    stored.accept(sent)
                }
            },
            Some(held) => {
                let record = if passed(self.full, qc.block_hash) {
                    stored.wal_record(step_of(qc.vote_type), Some(self.round))
                } else {
                    stored.wal_record(step_of(qc.vote_type), held)
                };
                if qc.block_hash.len() == 0 {
                    stored.refuse(sent, ConsensusError::EmptyQC)
                } else if record is Err {
                    stored.refuse(sent, record->Err_0)
                } else if passed(self.full, qc.block_hash) {
                    stored.accept(sent.push(record->Ok_0).push(trigger))
                } else {
                    stored.accept(sent.push(record->Ok_0))
                }
            },
        }
    }

    /// A signed vote arrives; `sig_ok` is the verdict on its signature.
    ///
    /// Votes for no block are ignored, and so are votes that are neither of
    /// the height before nor, this validator being the leader, of the
    /// current round. The signature and the voter are checked. A vote of
    /// the height before is answered with the quorum certificate of the
    /// last commit. A vote of the current round is stored unless a quorum
    /// certificate exists for its phase already; where the votes for a
    /// block then hold a quorum, the state module asks for their
    /// signatures to be aggregated.
    pub open spec fn on_signed_vote(self, sv: SignedVoteView, sig_ok: bool) -> Answer<T> {
        let vote = sv.vote;
        let previous = vote.height + 1 == self.height;
        let address = self.address_verdict(sv.voter, true);
        let stored = StateModel {
            shelf: if self.shelf.has_vote(vote, sv.voter) {
                self.shelf
            } else {
                self.shelf.with(ItemView::Vote(sv))
            },
            ..self
        };
        if vote.block_hash.len() == 0 {
            self.accept(Seq::empty())
        } else if !previous && (!self.is_leader || vote.height != self.height || vote.round
            != self.round) {
            self.accept(Seq::empty())
        } else if !sig_ok {
            self.refuse(Seq::empty(), ConsensusError::VoteSignature)
        } else if address is Err {
            self.refuse(Seq::empty(), address->Err_0)
        } else if previous {
            self.accept(self.retransmit(sv.voter))
        } else if self.shelf.has_qc(vote.height, vote.round, vote.vote_type) {
            self.accept(Seq::empty())
        } else {
            match stored.tally(vote.vote_type) {
                None => stored.accept(Seq::empty()),
                Some(hash) => stored.accept(
                    seq![stored.generate_effect(hash, vote.vote_type, None)],
                ),
            }
        }
    }

    /// A quorum certificate arrives; `sig_ok` is the verdict on its
    /// aggregated signature.
    ///
    /// A certificate of a later height within the gaps is kept for later.
    /// A certificate of this height is checked and stored, and the state
    /// machine is triggered with it where its block has passed the
    /// application's check. Any other certificate is dropped.
    pub open spec fn on_aggregated_vote(self, qc: AggregatedVoteView, sig_ok: bool) -> Answer<T> {
        let checked = self.aggregated_verdict(qc.signature.address_bitmap, qc.height, sig_ok);
        let stored = self.with_qc(qc);
        match qc_class(self.height, self.round, qc) {
            QcClass::Future => (StateModel {
                shelf: self.shelf.with(ItemView::Pending(CapsuleView::AggregatedVote(qc))),
                ..self
            }).accept(Seq::empty()),
            QcClass::Current => {
                if checked is Err {
                    self.refuse(Seq::empty(), checked->Err_0)
                } else if !passed(self.full, qc.block_hash) {
                    stored.accept(Seq::empty())
                } else {
                    stored.accept(
                        seq![self.qc_trigger(trigger_of(qc.vote_type), qc.block_hash, qc.round)],
                    )
                }
            },
            _ => self.accept(Seq::empty()),
        }
    }

    /// What follows this validator's own vote in a phase.
    ///
    /// A validator that does not lead looks for the quorum certificate of
    /// the current round and phase: where the store holds it, the record
    /// for the write-ahead log is made, and where the block has passed the
    /// application's check the state machine is triggered. The leader
    /// counts the votes, and asks for the signatures behind a block that
    /// holds a quorum to be aggregated.
    pub open spec fn vote_process(self, vote_type: VoteType, lock_round: Option<u64>) -> Answer<T> {
        if !self.is_leader {
            let i = self.shelf.first_qc(self.height, self.round, vote_type);
            let qc = self.shelf.items[i]->VoteQC_0;
            let record = if passed(self.full, qc.block_hash) {
                self.wal_record(step_of(vote_type), Some(self.round))
            } else {
                self.wal_record(step_of(vote_type), lock_round)
            };
            if !self.shelf.has_qc(self.height, self.round, vote_type) {
                self.accept(Seq::empty())
            } else if qc.block_hash.len() == 0 {
                self.refuse(Seq::empty(), ConsensusError::EmptyQC)
            } else if record is Err {
                self.refuse(Seq::empty(), record->Err_0)
            } else if passed(self.full, qc.block_hash) {
                self.accept(
                    seq![
                        record->Ok_0,
                        self.qc_trigger(trigger_of(qc.vote_type), qc.block_hash, self.round),
                    ],
                )
            } else {
                self.accept(seq![record->Ok_0])
            }
        } else {
            match self.tally(vote_type) {
                Some(hash) => self.accept(
                    seq![self.generate_effect(hash, vote_type, Some(lock_round))],
                ),
                None => self.accept(Seq::empty()),
            }
        }
    }

    /// The state machine asks for a vote for `hash`; `signature` is this
    /// validator's signature of that vote.
    ///
    /// A vote for no block means that a timer has fired: only the record
    /// for the write-ahead log is made, at the step the machine has gone
    /// to. Otherwise the leader stores its own vote and any other validator
    /// sends its vote to the leader, and [`StateModel::vote_process`] follows.
    pub open spec fn on_vote_event(
        self,
        hash: Seq<u8>,
        vote_type: VoteType,
        lock_round: Option<u64>,
        signature: Seq<u8>,
    ) -> Answer<T> {
        let sv = SignedVoteView {
            signature,
            vote: self.vote_for(vote_type, hash),
            voter: self.address,
        };
        let next_step = match vote_type {
            VoteType::Prevote => Step::Precommit,
            VoteType::Precommit => Step::Propose,
        };
        if hash.len() == 0 {
            match self.wal_record(next_step, lock_round) {
                Err(e) => self.refuse(Seq::empty(), e),
                Ok(record) => self.accept(seq![record]),
            }
        } else if self.is_leader {
            (StateModel {
                shelf: if self.shelf.has_vote(sv.vote, sv.voter) {
                    self.shelf
                } else {
                    self.shelf.with(ItemView::Vote(sv))
                },
                ..self
            }).vote_process(vote_type, lock_round)
        } else {
            let after = self.vote_process(vote_type, lock_round);
            Answer {
                state: after.state,
                effects: seq![EffectView::TransmitVote { to: self.leader_address, vote: sv }]
                    + after.effects,
                result: after.result,
            }
        }
    }
}

impl<T> State<T> {
    /// Notes that the content of a block is at hand.
    pub fn add_block(&mut self, hash: &crate::types::Hash)
        ensures
            final(self)@ == (StateModel {
                blocks: with_block(old(self)@.blocks, hash@),
                ..old(self)@
            }),
    {
        if !contains_address(&self.blocks, hash) {
            let ghost before = self@.blocks;
            self.blocks.push(bytes_clone(hash));
            proof {
                assert(self@.blocks =~= before.push(hash@));
            }
        }
    }

    /// Stores a quorum certificate; the first certificate of a round and
    /// phase stays.
    pub fn set_qc(&mut self, qc: AggregatedVote)
        ensures
            final(self)@ == old(self)@.with_qc(qc@),
    {
        self.store.insert_qc(qc);
    }

    /// The lock to save for a lock round: see [`StateModel::wal_lock`].
    pub fn wal_lock(&self, lock_round: Option<u64>) -> (r: Result<Option<PoLC>, ConsensusError>)
        ensures
            match self@.wal_lock(lock_round) {
                Ok(lock) => r is Ok && opt_polc_view(r->Ok_0) == lock,
                Err(e) => r is Err && r->Err_0 == e,
            },
    {
        match lock_round {
            None => Ok(None),
            Some(round) => {
                match self.store.get_qc(self.height, round, VoteType::Prevote) {
                    None => Err(ConsensusError::NoQC),
                    Some(qc) => {
                        if !contains_address(&self.blocks, &qc.block_hash) {
                            return Err(ConsensusError::LoseBlock);
                        }
                        Ok(Some(PoLC { lock_round: round, lock_votes: qc }))
                    },
                }
            },
        }
    }

    /// The record to save at a step with a lock.
    pub fn save_wal(&self, step: Step, lock: Option<PoLC>) -> (r: Effect<T>)
        ensures
            r@ == (EffectView::<T>::SaveWal {
                height: self.height,
                round: self.round,
                step,
                lock: opt_polc_view(lock),
            }),
    {
        Effect::SaveWal { height: self.height, round: self.round, step, lock }
    }

    /// The record to save before a vote: see [`StateModel::wal_record`].
    pub fn save_wal_before_vote(&self, step: Step, lock_round: Option<u64>) -> (r: Result<
        Effect<T>,
        ConsensusError,
    >)
        ensures
            match self@.wal_record(step, lock_round) {
                Ok(record) => r is Ok && r->Ok_0@ == record,
                Err(e) => r is Err && r->Err_0 == e,
            },
    {
        match self.wal_lock(lock_round) {
            Err(e) => Err(e),
            Ok(lock) => Ok(self.save_wal(step, lock)),
        }
    }

    /// The trigger by which the state machine learns of a quorum certificate.
    fn qc_trigger(&self, t: TriggerType, hash: crate::types::Hash, round: u64) -> (r: Effect<T>)
        ensures
            r@ == self@.qc_trigger(t, hash@, round),
    {
        Effect::Trigger(
            SMRTrigger {
                trigger_type: t,
                source: TriggerSource::State,
                hash,
                round: Some(round),
                height: self.height,
                wal_info: None,
            },
        )
    }

    /// Adds the quorum certificate of the last commit, to be sent to `to`.
    pub fn retransmit_qc(&self, to: &Address, reply: &mut Reply<T>)
        ensures
            effect_views(final(reply).effects@) == effect_views(old(reply).effects@)
                + self@.retransmit(to@),
            final(reply).result == old(reply).result,
    {
        match &self.last_commit_qc {
            Some(qc) => {
                reply.push(Effect::RetransmitQC { to: bytes_clone(to), qc: qc.clone() });
            },
            None => {},
        }
        proof {
            assert(effect_views(reply.effects@) =~= effect_views(old(reply).effects@)
                + self@.retransmit(to@));
        }
    }

    /// The request to aggregate the signatures behind a block.
    fn generate_effect(
        &self,
        hash: crate::types::Hash,
        vote_type: VoteType,
        lock_round: Option<Option<u64>>,
    ) -> (r: Effect<T>)
        ensures
            r@ == self@.generate_effect(hash@, vote_type, lock_round),
    {
        let (votes, bitmap) = self.qc_votes(&hash, vote_type);
        Effect::GenerateQC { block_hash: hash, vote_type, votes, bitmap, lock_round }
    }

    /// Handles the application's verdict on a block: see [`StateModel::on_resp`].
    pub fn handle_resp(&mut self, resp: VerifyResp) -> (r: Reply<T>)
        ensures
            final(self)@ == old(self)@.on_resp(resp.height, resp.block_hash@, resp.is_pass).state,
            effect_views(r.effects@) == old(self)@.on_resp(
                resp.height,
                resp.block_hash@,
                resp.is_pass,
            ).effects,
            r.result == old(self)@.on_resp(resp.height, resp.block_hash@, resp.is_pass).result,
    {
        let mut reply: Reply<T> = Reply::new();
        if resp.height != self.height {
            return reply;
        }
        let hash = bytes_clone(&resp.block_hash);
        self.set_full_txs(resp.block_hash, resp.is_pass);
        match self.store.get_qc_by_hash(self.height, &hash, VoteType::Precommit) {
            Some(qc) => {
                reply.push(self.qc_trigger(TriggerType::PrecommitQC, qc.block_hash, self.round));
            },
            None => {
                match self.store.get_qc_by_hash(self.height, &hash, VoteType::Prevote) {
                    Some(qc) => {
                        if qc.round == self.round {
                            reply.push(
                                self.qc_trigger(TriggerType::PrevoteQC, qc.block_hash, self.round),
                            );
                        }
                    },
                    None => {},
                }
            },
        }
        reply
    }

    /// Handles a signed proposal: see [`StateModel::on_signed_proposal`].
    pub fn handle_signed_proposal(&mut self, signed_proposal: SignedProposal<T>, sig_ok: bool, lock_ok: bool) -> (r:
        Reply<T>)
        ensures
            final(self)@ == old(self)@.on_signed_proposal(signed_proposal@, sig_ok, lock_ok).state,
            effect_views(r.effects@) == old(self)@.on_signed_proposal(
                signed_proposal@,
                sig_ok,
                lock_ok,
            ).effects,
            r.result == old(self)@.on_signed_proposal(signed_proposal@, sig_ok, lock_ok).result,
    {
        let mut reply: Reply<T> = Reply::new();
        let height: u64 = signed_proposal.proposal.height;
        let round: u64 = signed_proposal.proposal.round;
        let sp = match self.filter_signed_proposal(height, round, signed_proposal) {
            None => {
                return reply;
            },
            Some(sp) => sp,
        };
        match self.verify_proposer(height, round, &sp.proposal.proposer, height == self.height) {
            Err(e) => {
                return reply.fail(e);
            },
            Ok(()) => {},
        }
        match self.verify_signature(sig_ok, MsgType::SignedProposal) {
            Err(e) => {
                return reply.fail(e);
            },
            Ok(()) => {},
        }
        if height < self.height {
            self.retransmit_qc(&sp.proposal.proposer, &mut reply);
            return reply;
        }
        let lock_round: Option<u64> = match &sp.proposal.lock {
            Some(polc) => {
                match self.verify_aggregated_signature(
                    &polc.lock_votes.signature.address_bitmap,
                    self.height,
                    lock_ok,
                ) {
                    Err(e) => {
                        return reply.fail(e);
                    },
                    Ok(()) => {},
                }
                Some(polc.lock_round)
            },
            None => None,
        };
        let hash = bytes_clone(&sp.proposal.block_hash);
        self.add_block(&hash);
        let header = BlockInfo {
            height,
            exec_height: 0,
            pre_hash: Vec::new(),
            block_hash: bytes_clone(&hash),
        };
        let _ = self.store.insert_signed_proposal(sp, header);
        reply.push(
            Effect::Trigger(
                SMRTrigger {
                    trigger_type: TriggerType::Proposal,
                    source: TriggerSource::State,
                    hash: bytes_clone(&hash),
                    round: lock_round,
                    height: self.height,
                    wal_info: None,
                },
            ),
        );
        reply.push(Effect::CheckBlock { height: self.height, block_hash: hash });
        reply
    }

    /// Goes on after a quorum certificate has been assembled here: see
    /// [`StateModel::on_generated_qc`].
    pub fn handle_generated_qc(&mut self, qc: AggregatedVote, lock_round: Option<Option<u64>>) -> (r:
        Reply<T>)
        ensures
            final(self)@ == old(self)@.on_generated_qc(qc@, lock_round).state,
            effect_views(r.effects@) == old(self)@.on_generated_qc(qc@, lock_round).effects,
            r.result == old(self)@.on_generated_qc(qc@, lock_round).result,
    {
        let mut reply: Reply<T> = Reply::new();
        let hash = bytes_clone(&qc.block_hash);
        let vote_type = qc.vote_type;
        self.set_qc(qc.clone());
        reply.push(Effect::BroadcastQC(qc));
        let full: bool = self.try_get_full_txs(&hash);
        match lock_round {
            None => {
                if full {
                    reply.push(
                        self.qc_trigger(vote_type_to_trigger(vote_type), hash, self.round),
                    );
                }
                reply
            },
            Some(held) => {
                if hash.len() == 0 {
                    return reply.fail(ConsensusError::EmptyQC);
                }
                let wanted: Option<u64> = if full {
                    Some(self.round)
                } else {
                    held
                };
                match self.save_wal_before_vote(vote_type_to_step(vote_type), wanted) {
                    Err(e) => {
                        return reply.fail(e);
                    },
                    Ok(record) => {
                        reply.push(record);
                    },
                }
                if full {
                    reply.push(
                        self.qc_trigger(vote_type_to_trigger(vote_type), hash, self.round),
                    );
                }
                reply
            },
        }
    }

    /// Handles a signed vote: see [`StateModel::on_signed_vote`].
    pub fn handle_signed_vote(&mut self, signed_vote: SignedVote, sig_ok: bool) -> (r: Reply<T>)
        ensures
            final(self)@ == old(self)@.on_signed_vote(signed_vote@, sig_ok).state,
            effect_views(r.effects@) == old(self)@.on_signed_vote(signed_vote@, sig_ok).effects,
            r.result == old(self)@.on_signed_vote(signed_vote@, sig_ok).result,
    {
        let mut reply: Reply<T> = Reply::new();
        if signed_vote.vote.block_hash.len() == 0 {
            return reply;
        }
        let height: u64 = signed_vote.vote.height;
        let round: u64 = signed_vote.vote.round;
        let vote_type = signed_vote.vote.vote_type;
        let previous: bool = height < self.height && self.height - height == 1;
        if !previous && (!self.is_leader || height != self.height || round != self.round) {
            return reply;
        }
        match self.verify_signature(sig_ok, MsgType::SignedVote) {
            Err(e) => {
                return reply.fail(e);
            },
            Ok(()) => {},
        }
        match self.verify_address(&signed_vote.voter, true) {
            Err(e) => {
                return reply.fail(e);
            },
            Ok(()) => {},
        }
        if previous {
            self.retransmit_qc(&signed_vote.voter, &mut reply);
            return reply;
        }
        if self.store.get_qc(height, round, vote_type).is_some() {
            return reply;
        }
        let _ = self.store.store_vote(signed_vote);
        match self.counting_vote(vote_type) {
            None => reply,
            Some(hash) => {
                reply.push(self.generate_effect(hash, vote_type, None));
                reply
            },
        }
    }

    /// Handles a quorum certificate: see [`StateModel::on_aggregated_vote`].
    pub fn handle_aggregated_vote(&mut self, aggregated_vote: AggregatedVote, sig_ok: bool) -> (r:
        Reply<T>)
        ensures
            final(self)@ == old(self)@.on_aggregated_vote(aggregated_vote@, sig_ok).state,
            effect_views(r.effects@) == old(self)@.on_aggregated_vote(
                aggregated_vote@,
                sig_ok,
            ).effects,
            r.result == old(self)@.on_aggregated_vote(aggregated_vote@, sig_ok).result,
    {
        let mut reply: Reply<T> = Reply::new();
        if aggregated_vote.block_hash.len() == 0 {
            return reply;
        }
        let height: u64 = aggregated_vote.height;
        let round: u64 = aggregated_vote.round;
        let vote_type = aggregated_vote.vote_type;
        if height < self.height {
            return reply;
        } else if height > self.height {
            if height - self.height < FUTURE_HEIGHT_GAP && round < FUTURE_ROUND_GAP {
                self.store.buffer(Capsule::AggregatedVote(aggregated_vote));
            }
            return reply;
        }
        if vote_type == VoteType::Prevote && round < self.round {
            return reply;
        }
        match self.verify_aggregated_signature(
            &aggregated_vote.signature.address_bitmap,
            height,
            sig_ok,
        ) {
            Err(e) => {
                return reply.fail(e);
            },
            Ok(()) => {},
        }
        let hash = bytes_clone(&aggregated_vote.block_hash);
        self.set_qc(aggregated_vote);
        if !self.try_get_full_txs(&hash) {
            return reply;
        }
        reply.push(self.qc_trigger(vote_type_to_trigger(vote_type), hash, round));
        reply
    }

    /// Goes on after this validator's own vote: see [`StateModel::vote_process`].
    pub fn vote_process(&mut self, vote_type: VoteType, lock_round: Option<u64>) -> (r: Reply<T>)
        ensures
            final(self)@ == old(self)@.vote_process(vote_type, lock_round).state,
            effect_views(r.effects@) == old(self)@.vote_process(vote_type, lock_round).effects,
            r.result == old(self)@.vote_process(vote_type, lock_round).result,
    {
        let mut reply: Reply<T> = Reply::new();
        if !self.is_leader {
            let qc = match self.store.get_qc(self.height, self.round, vote_type) {
                None => {
                    return reply;
                },
                Some(qc) => qc,
            };
            if qc.block_hash.len() == 0 {
                return reply.fail(ConsensusError::EmptyQC);
            }
            let full: bool = self.try_get_full_txs(&qc.block_hash);
            let wanted: Option<u64> = if full {
                Some(self.round)
            } else {
                lock_round
            };
            match self.save_wal_before_vote(vote_type_to_step(vote_type), wanted) {
                Err(e) => {
                    return reply.fail(e);
                },
                Ok(record) => {
                    reply.push(record);
                },
            }
            if full {
                reply.push(
                    self.qc_trigger(vote_type_to_trigger(qc.vote_type), qc.block_hash, self.round),
                );
            }
            reply
        } else {
            match self.counting_vote(vote_type) {
                Some(hash) => {
                    reply.push(self.generate_effect(hash, vote_type, Some(lock_round)));
                    reply
                },
                None => reply,
            }
        }
    }

    /// Handles the state machine's request for a vote: see
    /// [`StateModel::on_vote_event`].
    pub fn handle_vote_event(
        &mut self,
        hash: crate::types::Hash,
        vote_type: VoteType,
        lock_round: Option<u64>,
        signature: Signature,
    ) -> (r: Reply<T>)
        ensures
            final(self)@ == old(self)@.on_vote_event(hash@, vote_type, lock_round, signature@).state,
            effect_views(r.effects@) == old(self)@.on_vote_event(
                hash@,
                vote_type,
                lock_round,
                signature@,
            ).effects,
            r.result == old(self)@.on_vote_event(hash@, vote_type, lock_round, signature@).result,
    {
        let mut reply: Reply<T> = Reply::new();
        if hash.len() == 0 {
            let step = match vote_type {
                VoteType::Prevote => Step::Precommit,
                VoteType::Precommit => Step::Propose,
            };
            match self.save_wal_before_vote(step, lock_round) {
                Err(e) => {
                    return reply.fail(e);
                },
                Ok(record) => {
                    reply.push(record);
                },
            }
            return reply;
        }
        let signed_vote = SignedVote {
            signature,
            vote: Vote { height: self.height, round: self.round, vote_type, block_hash: hash },
            voter: bytes_clone(&self.address),
        };
        if self.is_leader {
            let _ = self.store.store_vote(signed_vote);
            self.vote_process(vote_type, lock_round)
        } else {
            reply.push(
                Effect::TransmitVote { to: bytes_clone(&self.leader_address), vote: signed_vote },
            );
            let after = self.vote_process(vote_type, lock_round);
            join(reply, after)
        }
    }
}

/// One reply after the other: the effects of both, and the result of the second.
pub fn join<T>(first: Reply<T>, second: Reply<T>) -> (r: Reply<T>)
    ensures
        effect_views(r.effects@) == effect_views(first.effects@) + effect_views(second.effects@),
        r.result == second.result,
{
    let mut effects = first.effects;
    let mut rest = second.effects;
    let ghost a = effect_views(effects@);
    let ghost b = effect_views(rest@);
    effects.append(&mut rest);
    proof {
        assert(effect_views(effects@) =~= a + b);
    }
    Reply { effects, result: second.result }
}

} // verus!
