//! What the state module does at the turn of a round and of a height, and
//! how it resumes from the write-ahead log.

use vstd::prelude::*;

use crate::auth::{contains_address, set_fault, sorted_of, views, AuthCell, Node, NodeView};
use crate::cabinet::{
    capsule_views, kept_upto, pending_upto, settled_upto, Capsule, CapsuleView, Shelf,
};
use crate::error::ConsensusError;
use crate::smr::smr_types::{
    SMREvent, SMREventView, SMRTrigger, SMRTriggerView, Step, TriggerSource, TriggerType,
};
use crate::state::effect::{effect_views, Effect, EffectView, Reply};
use crate::state::handle::{join, polc_round, with_block, Answer};
use crate::state::process::{
    OverlordMsg, OverlordMsgView, Proof, ProofView, State, StateModel, Status, StatusView,
};
use crate::types::{
    bytes_clone, bytes_eq, opt_bytes_view, opt_polc_clone, opt_polc_view, AggregatedVote, PoLC,
    PoLCView, Signature, SignedVote, SignedVoteView, VoteType, VoteView,
};
use crate::wal::wal_type::{WalInfo, WalInfoView};

verus! {

/// The effects that hand a list of messages in again, one after the other.
pub open spec fn handles<T>(capsules: Seq<CapsuleView<T>>) -> Seq<EffectView<T>> {
    Seq::new(capsules.len(), |i: int| EffectView::Handle(capsules[i]))
}

/// The values of an optional list of validators.
pub open spec fn opt_views(o: Option<Vec<Node>>) -> Option<Seq<NodeView>> {
    match o {
        Some(list) => Some(views(list@)),
        None => None,
    }
}

impl<T> StateModel<T> {
    /// The trigger by which the state machine learns of a proposal.
    pub open spec fn proposal_trigger(self, hash: Seq<u8>, lock_round: Option<u64>) -> EffectView<T> {
        EffectView::Trigger(
            SMRTriggerView {
                trigger_type: TriggerType::Proposal,
                source: TriggerSource::State,
                hash,
                round: lock_round,
                height: self.height,
                wal_info: None,
            },
        )
    }

    /// This validator proposes the block with the given hash: the proposal
    /// is sent to everybody, the state machine is triggered, and the
    /// application is asked to check the block.
    pub open spec fn propose(self, hash: Seq<u8>, lock: Option<PoLCView>, effects: Seq<
        EffectView<T>,
    >) -> Answer<T> {
        (StateModel { blocks: with_block(self.blocks, hash), ..self }).accept(
            effects.push(
                EffectView::BroadcastProposal {
                    height: self.height,
                    round: self.round,
                    block_hash: hash,
                    lock,
                },
            ).push(self.proposal_trigger(hash, polc_round(lock))).push(
                EffectView::CheckBlock { height: self.height, block_hash: hash },
            ),
        )
    }

    /// The state machine starts a round.
    ///
    /// The lock round and the locked block must both be present or both be
    /// absent. The round is saved to the write-ahead log with the lock.
    /// A validator that does not lead the round asks for the proposal of
    /// the round to be handed in, where one waits in the store. The leader
    /// proposes the block it is locked on, or asks the application for a
    /// new block.
    pub open spec fn on_new_round(
        self,
        round: u64,
        lock_round: Option<u64>,
        lock_proposal: Option<Seq<u8>>,
    ) -> Answer<T> {
        let started = StateModel { round, is_leader: false, ..self };
        let lock = started.wal_lock(lock_round);
        let saved = seq![
            EffectView::SaveWal { height: self.height, round, step: Step::Propose, lock: lock->Ok_0 },
        ];
        let proposer = started.proposer(self.height, round, true)->0;
        let i = self.shelf.first_pending_proposal(self.height, round);
        if lock_round is Some != lock_proposal is Some {
            started.refuse(Seq::empty(), ConsensusError::InconsistentLock)
        } else if lock is Err {
            started.refuse(Seq::empty(), lock->Err_0)
        } else if proposer != self.address {
            if self.shelf.has_pending_proposal(self.height, round) {
                (StateModel {
                    leader_address: proposer,
                    shelf: Shelf { items: self.shelf.items.remove(i) },
                    ..started
                }).accept(
                    saved.push(
                        EffectView::Handle(
                            CapsuleView::SignedProposal(
                                self.shelf.items[i]->Pending_0->SignedProposal_0,
                            ),
                        ),
                    ),
                )
            } else {
                (StateModel { leader_address: proposer, ..started }).accept(saved)
            }
        } else {
            let leading = StateModel { is_leader: true, ..started };
            match lock_proposal {
                None => leading.accept(saved.push(EffectView::GetBlock { height: self.height })),
                Some(hash) => {
                    if !self.blocks.contains(hash) {
                        leading.refuse(saved, ConsensusError::LoseBlock)
                    } else {
                        leading.propose(hash, lock->Ok_0, saved)
                    }
                },
            }
        }
    }

    /// The state machine commits the block with the given hash.
    ///
    /// The content of the block and its pre-commit quorum certificate must
    /// be at hand. The certificate is kept as that of the last commit, the
    /// commit step is saved to the write-ahead log with the certificate, and
    /// the application is asked to commit the block with its proof.
    pub open spec fn on_commit(self, hash: Seq<u8>) -> Answer<T> {
        let i = self.shelf.first_typed_qc(self.height, hash, VoteType::Precommit);
        let qc = self.shelf.items[i]->VoteQC_0;
        if !self.blocks.contains(hash) {
            self.refuse(Seq::empty(), ConsensusError::LoseBlock)
        } else if !self.shelf.has_typed_qc(self.height, hash, VoteType::Precommit) {
            self.refuse(Seq::empty(), ConsensusError::LosePrecommitQC)
        } else {
            (StateModel { last_commit_qc: Some(qc), ..self }).accept(
                seq![
                    EffectView::SaveWal {
                        height: self.height,
                        round: self.round,
                        step: Step::Commit,
                        lock: Some(PoLCView { lock_round: self.round, lock_votes: qc }),
                    },
                    EffectView::Commit {
                        height: self.height,
                        block_hash: hash,
                        proof: ProofView {
                            height: self.height,
                            round: self.round,
                            block_hash: hash,
                            signature: qc.signature,
                        },
                    },
                ],
            )
        }
    }

    /// A height begins, as the status says. `last_list` names the
    /// validators of the height before, where they are not those that this
    /// validator has worked with so far.
    ///
    /// The validators of the status become the current ones. Everything of
    /// lower heights leaves the store, and the blocks at hand are forgotten.
    /// The state machine is triggered with the new height, and after that
    /// the messages that were kept for the new height are handed in again.
    pub open spec fn on_new_height(self, status: StatusView, last_list: Option<Seq<NodeView>>) -> Answer<
        T,
    > {
        let kept = kept_upto(self.shelf.items, status.height, self.shelf.items.len());
        if status.height == 0 {
            self.refuse(Seq::empty(), ConsensusError::NoPreviousHeight)
        } else if set_fault(status.authority_list) is Some || (last_list is Some && set_fault(
            last_list->0,
        ) is Some) {
            self.refuse(Seq::empty(), ConsensusError::InvalidAuthority)
        } else {
            (StateModel {
                height: status.height,
                round: 0,
                current: sorted_of(status.authority_list),
                last: match last_list {
                    Some(list) => Some(sorted_of(list)),
                    None => Some(self.current),
                },
                block_interval: match status.interval {
                    Some(interval) => interval,
                    None => self.block_interval,
                },
                shelf: Shelf { items: settled_upto(kept, status.height, kept.len()) },
                blocks: Seq::empty(),
                ..self
            }).accept(
                seq![
                    EffectView::Trigger(
                        SMRTriggerView {
                            trigger_type: TriggerType::NewEpoch(status.height),
                            source: TriggerSource::State,
                            hash: Seq::empty(),
                            round: None,
                            height: status.height,
                            wal_info: None,
                        },
                    ),
                ] + handles(pending_upto(kept, status.height, kept.len())),
            )
        }
    }

    /// An event of the state machine comes in; `signature` is this
    /// validator's signature of the vote that the event asks for, if it
    /// asks for one.
    pub open spec fn on_event(self, event: SMREventView, signature: Seq<u8>) -> Answer<T> {
        match event {
            SMREventView::NewRoundInfo { height, round, lock_round, lock_proposal } => {
                self.on_new_round(round, lock_round, lock_proposal)
            },
            SMREventView::PrevoteVote { height, round, block_hash, lock_round } => {
                self.on_vote_event(block_hash, VoteType::Prevote, lock_round, signature)
            },
            SMREventView::PrecommitVote { height, round, block_hash, lock_round } => {
                self.on_vote_event(block_hash, VoteType::Precommit, lock_round, signature)
            },
            SMREventView::Commit(hash) => self.on_commit(hash),
            SMREventView::Stop => self.accept(Seq::empty()),
        }
    }

    /// A message comes in, with the verdicts that belong to it; for a
    /// status, `last_list` names the validators of the height before.
    pub open spec fn on_msg(
        self,
        msg: OverlordMsgView<T>,
        sig_ok: bool,
        lock_ok: bool,
        last_list: Option<Seq<NodeView>>,
    ) -> Answer<T> {
        match msg {
            OverlordMsgView::SignedProposal(sp) => self.on_signed_proposal(sp, sig_ok, lock_ok),
            OverlordMsgView::AggregatedVote(qc) => self.on_aggregated_vote(qc, sig_ok),
            OverlordMsgView::SignedVote(sv) => self.on_signed_vote(sv, sig_ok),
            OverlordMsgView::RichStatus(status) => self.on_new_height(status, last_list),
        }
    }

    /// The state module resumes from the record of the write-ahead log;
    /// `signature` is this validator's signature of the vote that the
    /// record makes it cast again ([`WalInfoView::vote_again`]), if it makes
    /// it cast one.
    ///
    /// Height and round are those of the record. Without a lock the state
    /// machine resumes at the recorded step, which cannot be the commit
    /// step. With a lock the certificate and the block of the lock are at
    /// hand again; in the propose step the leader proposes the locked block
    /// again; in the pre-vote step the pre-vote for the locked block is cast
    /// again, and in the pre-commit step the pre-commit for it, at the
    /// height and round of the record; in the commit step the block is
    /// committed again.
    pub open spec fn on_wal(self, wal_info: Option<WalInfoView<T>>, signature: Seq<u8>) -> Answer<T> {
        match wal_info {
            None => self.accept(Seq::empty()),
            Some(info) => {
                let at = StateModel { height: info.height, round: info.round, ..self };
                let proposer = at.proposer(info.height, info.round, true)->0;
                let leads = proposer == self.address;
                let resumed = StateModel {
                    is_leader: leads,
                    leader_address: if leads {
                        self.leader_address
                    } else {
                        proposer
                    },
                    ..at
                };
                let resume = EffectView::Trigger(
                    SMRTriggerView {
                        trigger_type: TriggerType::WalInfo,
                        source: TriggerSource::State,
                        hash: Seq::empty(),
                        round: None,
                        height: info.height,
                        wal_info: Some(info.smr_base()),
                    },
                );
                match info.lock {
                    None => {
                        if info.step == Step::Commit {
                            resumed.refuse(Seq::empty(), ConsensusError::NoLockInCommit)
                        } else {
                            resumed.accept(seq![resume])
                        }
                    },
                    Some(lock) => {
                        let qc = lock.lock_votes;
                        let holding = StateModel {
                            blocks: with_block(self.blocks, qc.block_hash),
                            ..resumed.with_qc(qc)
                        };
                        let sv = SignedVoteView {
                            signature,
                            vote: info.vote_again()->0,
                            voter: self.address,
                        };
                        match info.step {
                            Step::Propose => {
                                if leads {
                                    holding.accept(
                                        seq![
                                            resume,
                                            EffectView::BroadcastProposal {
                                                height: info.height,
                                                round: info.round,
                                                block_hash: qc.block_hash,
                                                lock: Some(
                                                    PoLCView {
                                                        lock_round: lock.lock_round,
                                                        lock_votes: qc,
                                                    },
                                                ),
                                            },
                                            holding.proposal_trigger(
                                                qc.block_hash,
                                                Some(lock.lock_round),
                                            ),
                                        ],
                                    )
                                } else {
                                    holding.accept(seq![resume])
                                }
                            },
                            Step::Commit => holding.on_commit(qc.block_hash),
                            _ => {
                                if leads {
                                    let after = holding.on_signed_vote(sv, true);
                                    Answer {
                                        state: after.state,
                                        effects: seq![resume] + after.effects,
                                        result: after.result,
                                    }
                                } else {
                                    holding.accept(
                                        seq![
                                            resume,
                                            EffectView::TransmitVote {
                                                to: holding.leader_address,
                                                vote: sv,
                                            },
                                        ],
                                    )
                                }
                            },
                        }
                    },
                }
            },
        }
    }
}

impl<T> State<T> {
    /// The trigger by which the state machine learns of a proposal.
    fn proposal_trigger(&self, hash: crate::types::Hash, lock_round: Option<u64>) -> (r: Effect<T>)
        ensures
            r@ == self@.proposal_trigger(hash@, lock_round),
    {
        Effect::Trigger(
            SMRTrigger {
                trigger_type: TriggerType::Proposal,
                source: TriggerSource::State,
                hash,
                round: lock_round,
                height: self.height,
                wal_info: None,
            },
        )
    }

    /// Proposes the block with the given hash: see [`StateModel::propose`].
    pub fn propose(&mut self, hash: crate::types::Hash, lock: Option<PoLC>, reply: Reply<T>) -> (r:
        Reply<T>)
        requires
            reply.result == Ok::<(), ConsensusError>(()),
        ensures
            final(self)@ == old(self)@.propose(
                hash@,
                opt_polc_view(lock),
                effect_views(reply.effects@),
            ).state,
            effect_views(r.effects@) == old(self)@.propose(
                hash@,
                opt_polc_view(lock),
                effect_views(reply.effects@),
            ).effects,
            r.result == Ok::<(), ConsensusError>(()),
    {
        let mut reply = reply;
        let lock_round: Option<u64> = match &lock {
            Some(polc) => Some(polc.lock_round),
            None => None,
        };
        reply.push(
            Effect::BroadcastProposal {
                height: self.height,
                round: self.round,
                block_hash: bytes_clone(&hash),
                lock,
            },
        );
        reply.push(self.proposal_trigger(bytes_clone(&hash), lock_round));
        self.add_block(&hash);
        reply.push(Effect::CheckBlock { height: self.height, block_hash: hash });
        reply
    }

    /// Handles the new block that the application has made for the current
    /// round: this validator proposes it, without a lock.
    pub fn handle_new_block(&mut self, hash: crate::types::Hash) -> (r: Reply<T>)
        ensures
            final(self)@ == old(self)@.propose(hash@, None, Seq::empty()).state,
            effect_views(r.effects@) == old(self)@.propose(hash@, None, Seq::empty()).effects,
            r.result == Ok::<(), ConsensusError>(()),
    {
        self.propose(hash, None, Reply::new())
    }

    /// Handles the start of a round: see [`StateModel::on_new_round`].
    pub fn handle_new_round(
        &mut self,
        round: u64,
        lock_round: Option<u64>,
        lock_proposal: Option<crate::types::Hash>,
    ) -> (r: Reply<T>)
        ensures
            final(self)@ == old(self)@.on_new_round(
                round,
                lock_round,
                opt_bytes_view(lock_proposal),
            ).state,
            effect_views(r.effects@) == old(self)@.on_new_round(
                round,
                lock_round,
                opt_bytes_view(lock_proposal),
            ).effects,
            r.result == old(self)@.on_new_round(
                round,
                lock_round,
                opt_bytes_view(lock_proposal),
            ).result,
    {
        let mut reply: Reply<T> = Reply::new();
        self.round = round;
        self.is_leader = false;
        if lock_round.is_some() != lock_proposal.is_some() {
            return reply.fail(ConsensusError::InconsistentLock);
        }
        let lock = match self.wal_lock(lock_round) {
            Err(e) => {
                return reply.fail(e);
            },
            Ok(lock) => lock,
        };
        reply.push(self.save_wal(Step::Propose, opt_polc_clone(&lock)));
        if !self.is_proposer() {
            match self.store.take_buffered_proposal(self.height, self.round) {
                Some(sp) => {
                    reply.push(Effect::Handle(Capsule::SignedProposal(sp)));
                },
                None => {},
            }
            return reply;
        }
        self.is_leader = true;
        match lock_proposal {
            None => {
                reply.push(Effect::GetBlock { height: self.height });
                reply
            },
            Some(hash) => {
                if !contains_address(&self.blocks, &hash) {
                    return reply.fail(ConsensusError::LoseBlock);
                }
                self.propose(hash, lock, reply)
            },
        }
    }

    /// Handles the commit of a block: see [`StateModel::on_commit`].
    pub fn handle_commit(&mut self, hash: crate::types::Hash) -> (r: Reply<T>)
        ensures
            final(self)@ == old(self)@.on_commit(hash@).state,
            effect_views(r.effects@) == old(self)@.on_commit(hash@).effects,
            r.result == old(self)@.on_commit(hash@).result,
    {
        let mut reply: Reply<T> = Reply::new();
        if !contains_address(&self.blocks, &hash) {
            return reply.fail(ConsensusError::LoseBlock);
        }
        let qc = match self.store.get_qc_by_hash(self.height, &hash, VoteType::Precommit) {
            None => {
                return reply.fail(ConsensusError::LosePrecommitQC);
            },
            Some(qc) => qc,
        };
        let commit_proof = Proof {
            height: self.height,
            round: self.round,
            block_hash: bytes_clone(&hash),
            signature: qc.signature.clone(),
        };
        self.last_commit_qc = Some(qc.clone());
        reply.push(
            self.save_wal(Step::Commit, Some(PoLC { lock_round: self.round, lock_votes: qc })),
        );
        reply.push(Effect::Commit { height: self.height, block_hash: hash, proof: commit_proof });
        reply
    }

    /// How long to wait, in milliseconds, before the height of the status
    /// begins: where this validator proposes first at that height under the
    /// validators of the status, and `elapsed` milliseconds of the interval
    /// have passed, the rest of the interval; otherwise nothing.
    pub fn commit_delay(&self, status: &Status, elapsed: u64) -> (r: Result<
        Option<u64>,
        ConsensusError,
    >)
        ensures
            set_fault(status@.authority_list) is Some ==> r is Err && r->Err_0
                == ConsensusError::InvalidAuthority,
            set_fault(status@.authority_list) is None ==> r is Ok && r->Ok_0 == if sorted_of(
                status@.authority_list,
            )[crate::auth::leader_index(sorted_of(status@.authority_list).len(), status.height, 0)].address
                == self.address@ && elapsed < self.block_interval {
                Some((self.block_interval - elapsed) as u64)
            } else {
                None
            },
    {
        let cell = match AuthCell::new(crate::auth::clone_nodes(&status.authority_list)) {
            Ok(cell) => cell,
            Err(_) => {
                return Err(ConsensusError::InvalidAuthority);
            },
        };
        let proposer = cell.get_leader(status.height, 0);
        if bytes_eq(&proposer, &self.address) && elapsed < self.block_interval {
            Ok(Some(self.block_interval - elapsed))
        } else {
            Ok(None)
        }
    }

    /// Goes to the height of a status: see [`StateModel::on_new_height`].
    pub fn goto_new_height(&mut self, status: Status, last_list: Option<Vec<Node>>) -> (r: Reply<T>)
        ensures
            final(self)@ == old(self)@.on_new_height(status@, opt_views(last_list)).state,
            effect_views(r.effects@) == old(self)@.on_new_height(
                status@,
                opt_views(last_list),
            ).effects,
            r.result == old(self)@.on_new_height(status@, opt_views(last_list)).result,
    {
        let mut reply: Reply<T> = Reply::new();
        let new_height: u64 = status.height;
        if new_height == 0 {
            return reply.fail(ConsensusError::NoPreviousHeight);
        }
        let current = match AuthCell::new(status.authority_list) {
            Ok(cell) => cell,
            Err(_) => {
                return reply.fail(ConsensusError::InvalidAuthority);
            },
        };
        let last: Option<AuthCell> = match last_list {
            Some(list) => {
                match AuthCell::new(list) {
                    Ok(cell) => Some(cell),
                    Err(_) => {
                        return reply.fail(ConsensusError::InvalidAuthority);
                    },
                }
            },
            None => None,
        };
        self.height = new_height;
        self.round = 0;
        self.authority.handle_commit(current);
        match last {
            Some(cell) => {
                self.authority.last_auth = Some(cell);
            },
            None => {},
        }
        match status.interval {
            Some(interval) => {
                self.block_interval = interval;
            },
            None => {},
        }
        self.store.handle_commit(new_height);
        self.blocks = Vec::new();
        proof {
            assert(self@.blocks =~= Seq::empty());
        }
        let waiting = self.store.take_buffered(new_height);
        reply.push(
            Effect::Trigger(
                SMRTrigger {
                    trigger_type: TriggerType::NewEpoch(new_height),
                    source: TriggerSource::State,
                    hash: Vec::new(),
                    round: None,
                    height: new_height,
                    wal_info: None,
                },
            ),
        );
        let ghost before = effect_views(reply.effects@);
        let ghost all = capsule_views(waiting@);
        let ghost raw = waiting@;
        for capsule in it: waiting.into_iter()
            invariant
                it.seq() == raw,
                all == capsule_views(raw),
                effect_views(reply.effects@) =~= before + handles(
                    all.subrange(0, it.index() as int),
                ),
                reply.result == Ok::<(), ConsensusError>(()),
        {
            proof {
                assert(all[it.index() as int] == capsule@);
            }
            reply.push(Effect::Handle(capsule));
        }
        proof {
            assert(all.subrange(0, all.len() as int) =~= all);
        }
        reply
    }

    /// Handles an event of the state machine: see [`StateModel::on_event`].
    pub fn handle_event(&mut self, event: SMREvent, signature: Signature) -> (r: Reply<T>)
        ensures
            final(self)@ == old(self)@.on_event(event@, signature@).state,
            effect_views(r.effects@) == old(self)@.on_event(event@, signature@).effects,
            r.result == old(self)@.on_event(event@, signature@).result,
    {
        match event {
            SMREvent::NewRoundInfo { height, round, lock_round, lock_proposal } => {
                self.handle_new_round(round, lock_round, lock_proposal)
            },
            SMREvent::PrevoteVote { height, round, block_hash, lock_round } => {
                self.handle_vote_event(block_hash, VoteType::Prevote, lock_round, signature)
            },
            SMREvent::PrecommitVote { height, round, block_hash, lock_round } => {
                self.handle_vote_event(block_hash, VoteType::Precommit, lock_round, signature)
            },
            SMREvent::Commit(hash) => self.handle_commit(hash),
            SMREvent::Stop => Reply::new(),
        }
    }

    /// Handles a message: see [`StateModel::on_msg`].
    pub fn handle_msg(
        &mut self,
        msg: OverlordMsg<T>,
        sig_ok: bool,
        lock_ok: bool,
        last_list: Option<Vec<Node>>,
    ) -> (r: Reply<T>)
        ensures
            final(self)@ == old(self)@.on_msg(msg@, sig_ok, lock_ok, opt_views(last_list)).state,
            effect_views(r.effects@) == old(self)@.on_msg(
                msg@,
                sig_ok,
                lock_ok,
                opt_views(last_list),
            ).effects,
            r.result == old(self)@.on_msg(msg@, sig_ok, lock_ok, opt_views(last_list)).result,
    {
        match msg {
            OverlordMsg::SignedProposal(sp) => self.handle_signed_proposal(sp, sig_ok, lock_ok),
            OverlordMsg::AggregatedVote(av) => self.handle_aggregated_vote(av, sig_ok),
            OverlordMsg::SignedVote(sv) => self.handle_signed_vote(sv, sig_ok),
            OverlordMsg::RichStatus(rs) => self.goto_new_height(rs, last_list),
        }
    }

    /// Resumes from the record of the write-ahead log: see [`StateModel::on_wal`].
    pub fn start_with_wal(&mut self, wal_info: Option<WalInfo<T>>, signature: Signature) -> (r: Reply<
        T,
    >)
        ensures
            final(self)@ == old(self)@.on_wal(
                match wal_info {
                    Some(info) => Some(info@),
                    None => None,
                },
                signature@,
            ).state,
            effect_views(r.effects@) == old(self)@.on_wal(
                match wal_info {
                    Some(info) => Some(info@),
                    None => None,
                },
                signature@,
            ).effects,
            r.result == old(self)@.on_wal(
                match wal_info {
                    Some(info) => Some(info@),
                    None => None,
                },
                signature@,
            ).result,
    {
        let mut reply: Reply<T> = Reply::new();
        let info = match wal_info {
            None => {
                return reply;
            },
            Some(info) => info,
        };
        self.height = info.height;
        self.round = info.round;
        self.is_leader = self.is_proposer();
        let resume = Effect::Trigger(
            SMRTrigger {
                trigger_type: TriggerType::WalInfo,
                source: TriggerSource::State,
                hash: Vec::new(),
                round: None,
                height: self.height,
                wal_info: Some(info.to_smr_base()),
            },
        );
        let step = info.step;
        let again = info.vote_again();
        let lock = match info.lock {
            None => {
                if step == Step::Commit {
                    return reply.fail(ConsensusError::NoLockInCommit);
                }
                reply.push(resume);
                return reply;
            },
            Some(lock) => lock,
        };
        let qc = lock.lock_votes;
        self.set_qc(qc.clone());
        self.add_block(&qc.block_hash);
        match step {
            Step::Propose => {
                reply.push(resume);
                if self.is_leader {
                    reply.push(
                        Effect::BroadcastProposal {
                            height: self.height,
                            round: self.round,
                            block_hash: bytes_clone(&qc.block_hash),
                            lock: Some(
                                PoLC { lock_round: lock.lock_round, lock_votes: qc.clone() },
                            ),
                        },
                    );
                    reply.push(
                        self.proposal_trigger(bytes_clone(&qc.block_hash), Some(lock.lock_round)),
                    );
                }
                reply
            },
            Step::Commit => self.handle_commit(bytes_clone(&qc.block_hash)),
            _ => {
                // A record with a lock that stands in a voting step asks for a vote.
                let vote = match again {
                    Some(vote) => vote,
                    None => {
                        return reply;
                    },
                };
                let signed_vote = SignedVote { signature, vote, voter: bytes_clone(&self.address) };
                reply.push(resume);
                if !self.is_leader {
                    reply.push(
                        Effect::TransmitVote {
                            to: bytes_clone(&self.leader_address),
                            vote: signed_vote,
                        },
                    );
                    reply
                } else {
                    let after = self.handle_signed_vote(signed_vote, true);
                    join(reply, after)
                }
            },
        }
    }
}

} // verus!
