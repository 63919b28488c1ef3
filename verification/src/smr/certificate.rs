//! What a replica does with quorum certificates, timeouts, fetched blocks
//! and execution results.

use vstd::prelude::*;

use crate::agent::TimeoutEvent;
use crate::auth::qc_verdict;
use crate::cabinet::{
    qc_views, qcs_upto, Capsule, CapsuleView, FetchedFullBlock, FetchedFullBlockView, ItemView,
};
use crate::error::{ErrorInfo, ErrorKind, OverlordError};
use crate::prepare::{has_result, reaches, ExecResult};
use crate::smr::action::{action_views, Action, ActionView, Outcome};
use crate::smr::handler::Turn;
use crate::smr::{filter_verdict, Replica, SMR};
use crate::state::Step;
use crate::types::{
    bytes_clone, AggregatedVote, AggregatedVoteView, Choke, ChokeQC, ChokeQCView, Vote, VoteType,
    VoteView,
};

verus! {

/// The effects that hand a list of quorum certificates in.
pub open spec fn qc_feeds<T>(qcs: Seq<AggregatedVoteView>) -> Seq<ActionView<T>> {
    Seq::new(qcs.len(), |i: int| ActionView::Feed(CapsuleView::AggregatedVote(qcs[i])))
}

impl<T, S> Replica<T, S> {
    /// The choke that a replica sends when it gives up on its round.
    pub open spec fn choke_actions(self) -> Seq<ActionView<T>> {
        if self.can_vote() {
            seq![
                ActionView::BroadcastChoke {
                    choke: Choke { height: self.state.stage.height, round: self.state.stage.round },
                    from: self.state.from,
                },
            ]
        } else {
            Seq::empty()
        }
    }

    /// A quorum certificate of pre-votes or pre-commits arrives; `sig_ok`
    /// is the verdict on its aggregated signature.
    ///
    /// A certificate that passes the filter and the check of its voters is
    /// put into the store. While the content of its block has not been
    /// fetched, nothing more happens. Otherwise a certificate of pre-votes
    /// locks the replica on the block and makes it pre-commit to the leader
    /// of the certificate's round, and a certificate of pre-commits makes
    /// it commit the block. The state is saved before the replica votes or
    /// commits.
    pub open spec fn on_vote_qc(self, qc: AggregatedVoteView, sig_ok: bool, elapsed: u64) -> Turn<
        T,
        S,
    > {
        let filter = filter_verdict(self.state.stage, qc.height, qc.round, false);
        let voters = qc_verdict(self.applicable(qc.height), qc.signature.address_bitmap, sig_ok);
        let shelf = if self.shelf.has_qc(qc.height, qc.round, qc.vote_type) {
            self.shelf
        } else {
            self.shelf.with(ItemView::VoteQC(qc))
        };
        let stored = Replica { shelf, ..self };
        if filter is Err {
            self.filtered(CapsuleView::AggregatedVote(qc), filter->Err_0)
        } else if voters is Err {
            self.halt(Seq::empty(), voters->Err_0)
        } else if !shelf.has_full_block(qc.height, qc.block_hash) {
            stored.done(Seq::empty())
        } else if !shelf.has_block(qc.height, qc.block_hash) {
            stored.halt(Seq::empty(), OverlordError::local_spec(ErrorInfo::Missing))
        } else {
            let block = shelf.items[shelf.first_block(qc.height, qc.block_hash)]->block;
            match qc.vote_type {
                VoteType::Prevote => {
                    let moved = self.state.pre_vote_qc(qc, block);
                    let locked = Replica { state: moved.state, ..stored };
                    let saved = locked.timer(moved.state.stage, elapsed).push(
                        ActionView::SaveWal(moved.state),
                    );
                    if moved.result is Err {
                        stored.halt(Seq::empty(), moved.result->Err_0)
                    } else if !self.can_vote() {
                        locked.halt(
                            saved,
                            OverlordError {
                                kind: ErrorKind::Debug,
                                info: ErrorInfo::NotValidator,
                            },
                        )
                    } else {
                        locked.done(
                            saved.push(
                                ActionView::TransmitVote {
                                    to: self.leader(qc.height, qc.round),
                                    vote: VoteView {
                                        height: qc.height,
                                        round: qc.round,
                                        vote_type: VoteType::Precommit,
                                        block_hash: qc.block_hash,
                                    },
                                },
                            ),
                        )
                    }
                },
                VoteType::Precommit => {
                    let moved = self.state.pre_commit_qc(qc, block);
                    let committing = Replica { state: moved.state, ..stored };
                    if moved.result is Err {
                        stored.halt(Seq::empty(), moved.result->Err_0)
                    } else {
                        committing.commit(elapsed, seq![ActionView::SaveWal(moved.state)])
                    }
                },
            }
        }
    }

    /// A quorum certificate of chokes arrives; `sig_ok` is the verdict on
    /// its aggregated signature. A certificate that passes the filter and
    /// the check of its voters takes the replica to the round after the
    /// certificate's round; the state is saved before the round is entered.
    pub open spec fn on_choke_qc(self, qc: ChokeQCView, sig_ok: bool, elapsed: u64) -> Turn<T, S> {
        let filter = filter_verdict(self.state.stage, qc.choke.height, qc.choke.round, false);
        let voters = qc_verdict(
            self.applicable(qc.choke.height),
            qc.signature.address_bitmap,
            sig_ok,
        );
        let moved = self.state.choke_qc(qc);
        if filter is Err {
            self.filtered(CapsuleView::ChokeQC(qc), filter->Err_0)
        } else if voters is Err {
            self.halt(Seq::empty(), voters->Err_0)
        } else if moved.result is Err {
            self.halt(Seq::empty(), moved.result->Err_0)
        } else {
            (Replica { state: moved.state, ..self }).new_round(
                elapsed,
                seq![ActionView::SaveWal(moved.state)],
            )
        }
    }

    /// A timer fires.
    ///
    /// The timer of the commit step takes a replica that still waits in the
    /// commit step of that height to the next height. The timer of any other
    /// step counts only where it was armed at the stage the replica stands
    /// in. In the brake step the replica sends its choke again and arms the
    /// timer again. In any earlier step it gives up on the round: it goes to
    /// the brake step, saves its state, arms the brake timer and sends a choke.
    pub open spec fn on_timeout(self, event: TimeoutEvent, elapsed: u64) -> Turn<T, S> {
        let wrong = OverlordError { kind: ErrorKind::Debug, info: ErrorInfo::WrongStage };
        match event {
            TimeoutEvent::NextHeightTimeout(height) => {
                if height == self.state.stage.height && self.state.stage.step == Step::Commit
                    && self.next_time is Some {
                    self.next_height(self.next_time->0, elapsed, Seq::empty())
                } else {
                    self.halt(Seq::empty(), wrong)
                }
            },
            TimeoutEvent::BrakeTimeout(stage) => {
                if stage == self.state.stage && stage.step == Step::Brake {
                    self.done(self.timer(stage, elapsed) + self.choke_actions())
                } else {
                    self.halt(Seq::empty(), wrong)
                }
            },
            TimeoutEvent::ProposeTimeout(stage)
            | TimeoutEvent::PreVoteTimeout(stage)
            | TimeoutEvent::PreCommitTimeout(stage) => {
                let moved = self.state.timeout(stage);
                let braking = Replica { state: moved.state, ..self };
                if event != TimeoutEvent::of(stage) {
                    self.halt(Seq::empty(), wrong)
                } else if moved.result is Err {
                    self.halt(Seq::empty(), moved.result->Err_0)
                } else {
                    braking.done(
                        seq![ActionView::SaveWal(moved.state)] + braking.timer(
                            moved.state.stage,
                            elapsed,
                        ) + braking.choke_actions(),
                    )
                }
            },
        }
    }

    /// The pre-commit that a replica casts for the block it is locked on.
    pub open spec fn pre_commit_actions(self) -> Seq<ActionView<T>> {
        match self.state.lock {
            Some(lock) => seq![
                ActionView::TransmitVote {
                    to: self.leader(self.state.stage.height, self.state.stage.round),
                    vote: VoteView {
                        height: self.state.stage.height,
                        round: self.state.stage.round,
                        vote_type: VoteType::Precommit,
                        block_hash: lock.lock_votes.block_hash,
                    },
                },
            ],
            None => Seq::empty(),
        }
    }

    /// The replica takes up its work where its state says it stands, as
    /// after a restart from the write-ahead log.
    ///
    /// In the propose step it enters its round again. In the pre-vote step
    /// it sends its pre-vote again, in the pre-commit step its pre-commit
    /// for the block it is locked on, in the brake step its choke; in each
    /// of these it arms the timer of its stage first. In the commit step it
    /// commits its block again.
    pub open spec fn on_resume(self, elapsed: u64) -> Turn<T, S> {
        let stage = self.state.stage;
        let armed = self.timer(stage, elapsed);
        match stage.step {
            Step::Propose => self.new_round(elapsed, Seq::empty()),
            Step::PreVote => self.done(
                if self.can_vote() {
                    armed + self.pre_vote_actions(
                        stage.round,
                        self.leader(stage.height, stage.round),
                    )
                } else {
                    armed
                },
            ),
            Step::PreCommit => self.done(
                if self.can_vote() {
                    armed + self.pre_commit_actions()
                } else {
                    armed
                },
            ),
            Step::Brake => self.done(armed + self.choke_actions()),
            Step::Commit => self.commit(elapsed, Seq::empty()),
        }
    }

    /// The content of a block has been fetched.
    ///
    /// Content of a height that has passed is dropped. Any other content is
    /// put into the store and written to the log, and the quorum
    /// certificates for that block that the store holds are handed in
    /// again, so that what waited for the content can go on.
    pub open spec fn on_fetched(self, fetched: FetchedFullBlockView) -> Turn<T, S> {
        let shelf = if self.shelf.has_full_block(fetched.height, fetched.block_hash) {
            self.shelf
        } else {
            self.shelf.with(ItemView::FullBlock(fetched))
        };
        if fetched.height < self.state.stage.height {
            self.halt(Seq::empty(), OverlordError { kind: ErrorKind::Debug, info: ErrorInfo::Old })
        } else {
            (Replica { shelf, ..self }).done(
                seq![ActionView::SaveFullBlock(fetched)] + qc_feeds(
                    qcs_upto(shelf.items, fetched.height, fetched.block_hash, shelf.items.len()),
                ),
            )
        }
    }

    /// The content of the block with the given hash could not be fetched:
    /// the request is forgotten, so that the block can be requested again.
    pub open spec fn on_fetch_failed(self, hash: Seq<u8>) -> Turn<T, S> {
        (Replica { fetched: self.fetched.remove(hash), ..self }).halt(
            Seq::empty(),
            OverlordError { kind: ErrorKind::Net, info: ErrorInfo::Fetch },
        )
    }
}

impl<T, S> SMR<T, S> {
    /// Adds the choke of the current round to the effects, where this
    /// replica is a validator.
    fn choke(&self, out: &mut Outcome<T>)
        ensures
            action_views(final(out).actions@) == action_views(old(out).actions@)
                + self@.choke_actions(),
            final(out).result == old(out).result,
    {
        if self.auth.can_i_vote() {
            let from = match &self.state.from {
                Some(f) => Some(f.clone()),
                None => None,
            };
            out.push(
                Action::BroadcastChoke {
                    choke: Choke { height: self.state.stage.height, round: self.state.stage.round },
                    from,
                },
            );
        }
        proof {
            assert(action_views(out.actions@) =~= action_views(old(out).actions@)
                + self@.choke_actions());
        }
    }

    /// Takes up work after a restart: see [`Replica::on_resume`].
    pub fn resume(&mut self, elapsed: u64) -> (r: Outcome<T>)
        ensures
            final(self)@ == old(self)@.on_resume(elapsed).replica,
            action_views(r.actions@) == old(self)@.on_resume(elapsed).actions,
            r.result == old(self)@.on_resume(elapsed).result,
    {
        let mut out: Outcome<T> = Outcome::new();
        let stage = self.state.stage;
        match stage.step {
            Step::Propose => self.new_round(elapsed, out),
            Step::Commit => self.handle_commit(elapsed, out),
            Step::PreVote => {
                self.arm(stage, elapsed, &mut out);
                let ghost armed = action_views(out.actions@);
                if self.auth.can_i_vote() {
                    let leader = self.auth.get_leader(stage.height, stage.round);
                    match self.state.vote_hash() {
                        Some(hash) => {
                            out.push(
                                Action::TransmitVote {
                                    to: leader,
                                    vote: Vote {
                                        height: stage.height,
                                        round: stage.round,
                                        vote_type: VoteType::Prevote,
                                        block_hash: hash,
                                    },
                                },
                            );
                        },
                        None => {},
                    }
                    proof {
                        assert(action_views(out.actions@) =~= armed + self@.pre_vote_actions(
                            stage.round,
                            self@.leader(stage.height, stage.round),
                        ));
                    }
                }
                out
            },
            Step::PreCommit => {
                self.arm(stage, elapsed, &mut out);
                let ghost armed = action_views(out.actions@);
                if self.auth.can_i_vote() {
                    match &self.state.lock {
                        Some(lock) => {
                            out.push(
                                Action::TransmitVote {
                                    to: self.auth.get_leader(stage.height, stage.round),
                                    vote: Vote {
                                        height: stage.height,
                                        round: stage.round,
                                        vote_type: VoteType::Precommit,
                                        block_hash: bytes_clone(&lock.lock_votes.block_hash),
                                    },
                                },
                            );
                        },
                        None => {},
                    }
                    proof {
                        assert(action_views(out.actions@) =~= armed + self@.pre_commit_actions());
                    }
                }
                out
            },
            Step::Brake => {
                self.arm(stage, elapsed, &mut out);
                self.choke(&mut out);
                out
            },
        }
    }

    /// Handles a quorum certificate of votes: see [`Replica::on_vote_qc`].
    pub fn handle_vote_qc(&mut self, qc: AggregatedVote, sig_ok: bool, elapsed: u64) -> (r: Outcome<
        T,
    >)
        ensures
            final(self)@ == old(self)@.on_vote_qc(qc@, sig_ok, elapsed).replica,
            action_views(r.actions@) == old(self)@.on_vote_qc(qc@, sig_ok, elapsed).actions,
            r.result == old(self)@.on_vote_qc(qc@, sig_ok, elapsed).result,
    {
        let mut out: Outcome<T> = Outcome::new();
        let height: u64 = qc.height;
        let round: u64 = qc.round;
        let my_height: u64 = self.state.stage.height;
        let qc = match self.filter_msg(height, round, Capsule::AggregatedVote(qc)) {
            Err(e) => {
                return out.fail(e);
            },
            Ok(Capsule::AggregatedVote(qc)) => qc,
            Ok(_) => {
                return out;
            },
        };
        match self.auth.verify_qc(height, my_height, &qc.signature.address_bitmap, sig_ok) {
            Err(e) => {
                return out.fail(e);
            },
            Ok(()) => {},
        }
        self.cabinet.insert_qc(qc.clone());
        if self.cabinet.get_full_block(height, &qc.block_hash).is_none() {
            return out;
        }
        let block = match self.cabinet.get_block(height, &qc.block_hash) {
            Some(block) => block,
            None => {
                return out.fail(OverlordError::local(ErrorInfo::Missing));
            },
        };
        match qc.vote_type {
            VoteType::Prevote => {
                match self.state.handle_pre_vote_qc(&qc, block) {
                    Err(e) => {
                        return out.fail(e);
                    },
                    Ok(()) => {},
                }
                self.arm(self.state.stage, elapsed, &mut out);
                out.push(Action::SaveWal(self.state.clone()));
                if !self.auth.can_i_vote() {
                    return out.fail(OverlordError::debug(ErrorInfo::NotValidator));
                }
                let vote = Vote {
                    height,
                    round,
                    vote_type: VoteType::Precommit,
                    block_hash: bytes_clone(&qc.block_hash),
                };
                out.push(Action::TransmitVote { to: self.auth.get_leader(height, round), vote });
                out
            },
            VoteType::Precommit => {
                match self.state.handle_pre_commit_qc(&qc, block) {
                    Err(e) => {
                        return out.fail(e);
                    },
                    Ok(()) => {},
                }
                out.push(Action::SaveWal(self.state.clone()));
                proof {
                    assert(action_views(out.actions@) =~= seq![ActionView::SaveWal(self.state@)]);
                }
                self.handle_commit(elapsed, out)
            },
        }
    }

    /// Handles a quorum certificate of chokes: see [`Replica::on_choke_qc`].
    pub fn handle_choke_qc(&mut self, qc: ChokeQC, sig_ok: bool, elapsed: u64) -> (r: Outcome<T>)
        ensures
            final(self)@ == old(self)@.on_choke_qc(qc@, sig_ok, elapsed).replica,
            action_views(r.actions@) == old(self)@.on_choke_qc(qc@, sig_ok, elapsed).actions,
            r.result == old(self)@.on_choke_qc(qc@, sig_ok, elapsed).result,
    {
        let mut out: Outcome<T> = Outcome::new();
        let height: u64 = qc.choke.height;
        let round: u64 = qc.choke.round;
        let my_height: u64 = self.state.stage.height;
        let qc = match self.filter_msg(height, round, Capsule::ChokeQC(qc)) {
            Err(e) => {
                return out.fail(e);
            },
            Ok(Capsule::ChokeQC(qc)) => qc,
            Ok(_) => {
                return out;
            },
        };
        match self.auth.verify_qc(height, my_height, &qc.signature.address_bitmap, sig_ok) {
            Err(e) => {
                return out.fail(e);
            },
            Ok(()) => {},
        }
        match self.state.handle_choke_qc(&qc) {
            Err(e) => {
                return out.fail(e);
            },
            Ok(()) => {},
        }
        out.push(Action::SaveWal(self.state.clone()));
        proof {
            assert(action_views(out.actions@) =~= seq![ActionView::SaveWal(self.state@)]);
        }
        self.new_round(elapsed, out)
    }

    /// Handles a timeout: see [`Replica::on_timeout`].
    pub fn handle_timeout(&mut self, event: TimeoutEvent, elapsed: u64) -> (r: Outcome<T>)
        ensures
            final(self)@ == old(self)@.on_timeout(event, elapsed).replica,
            action_views(r.actions@) == old(self)@.on_timeout(event, elapsed).actions,
            r.result == old(self)@.on_timeout(event, elapsed).result,
    {
        let mut out: Outcome<T> = Outcome::new();
        match event {
            TimeoutEvent::NextHeightTimeout(height) => {
                if height == self.state.stage.height && self.state.stage.step == Step::Commit {
                    match self.next_time {
                        Some(time_config) => {
                            return self.next_height(time_config, elapsed, out);
                        },
                        None => {},
                    }
                }
                out.fail(OverlordError::debug(ErrorInfo::WrongStage))
            },
            TimeoutEvent::BrakeTimeout(stage) => {
                if stage == self.state.stage && stage.step == Step::Brake {
                    self.arm(stage, elapsed, &mut out);
                    self.choke(&mut out);
                    proof {
                        assert(action_views(out.actions@) =~= self@.timer(stage, elapsed)
                            + self@.choke_actions());
                    }
                    out
                } else {
                    out.fail(OverlordError::debug(ErrorInfo::WrongStage))
                }
            },
            TimeoutEvent::ProposeTimeout(stage)
            | TimeoutEvent::PreVoteTimeout(stage)
            | TimeoutEvent::PreCommitTimeout(stage) => {
                if event != TimeoutEvent::from_stage(stage) {
                    return out.fail(OverlordError::debug(ErrorInfo::WrongStage));
                }
                match self.state.handle_timeout(&stage) {
                    Err(e) => {
                        return out.fail(e);
                    },
                    Ok(()) => {},
                }
                out.push(Action::SaveWal(self.state.clone()));
                self.arm(self.state.stage, elapsed, &mut out);
                self.choke(&mut out);
                proof {
                    assert(action_views(out.actions@) =~= seq![ActionView::SaveWal(self.state@)]
                        + self@.timer(self.state.stage, elapsed) + self@.choke_actions());
                }
                out
            },
        }
    }

    /// Handles the outcome of a fetch: the content of a block (see
    /// [`Replica::on_fetched`]), or the hash of the block whose content could
    /// not be had (see [`Replica::on_fetch_failed`]).
    pub fn handle_fetch(&mut self, fetch_result: Result<FetchedFullBlock, crate::types::Hash>) -> (r:
        Outcome<T>)
        ensures
            match fetch_result {
                Ok(fetched) => {
                    &&& final(self)@ == old(self)@.on_fetched(fetched@).replica
                    &&& action_views(r.actions@) == old(self)@.on_fetched(fetched@).actions
                    &&& r.result == old(self)@.on_fetched(fetched@).result
                },
                Err(hash) => {
                    &&& final(self)@ == old(self)@.on_fetch_failed(hash@).replica
                    &&& action_views(r.actions@) == old(self)@.on_fetch_failed(hash@).actions
                    &&& r.result == old(self)@.on_fetch_failed(hash@).result
                },
            },
    {
        let mut out: Outcome<T> = Outcome::new();
        let fetched = match self.agent.handle_fetch(fetch_result) {
            Err(e) => {
                return out.fail(e);
            },
            Ok(fetched) => fetched,
        };
        if fetched.height < self.state.stage.height {
            return out.fail(OverlordError::debug_old());
        }
        let height: u64 = fetched.height;
        let hash = bytes_clone(&fetched.block_hash);
        self.cabinet.insert_full_block(fetched.clone());
        out.push(Action::SaveFullBlock(fetched));
        let ghost before = action_views(out.actions@);
        let qcs = self.cabinet.get_qcs_for_block(height, &hash);
        let ghost all = qc_views(qcs@);
        let ghost raw = qcs@;
        for qc in it: qcs.into_iter()
            invariant
                it.seq() == raw,
                all == qc_views(raw),
                action_views(out.actions@) =~= before + qc_feeds(
                    all.subrange(0, it.index() as int),
                ),
                out.result == Ok::<(), OverlordError>(()),
        {
            proof {
                assert(all[it.index() as int] == qc@);
            }
            out.push(Action::Feed(Capsule::AggregatedVote(qc)));
        }
        proof {
            assert(all.subrange(0, all.len() as int) =~= all);
        }
        out
    }

    /// Takes in the result of executing a block: see
    /// [`ProposePrepare::handle_exec_result`](crate::prepare::ProposePrepare::handle_exec_result).
    /// Nothing but the execution context changes.
    pub fn handle_exec_result(&mut self, exec_result: ExecResult<S>)
        ensures
            final(self)@ == (Replica { prepare: final(self)@.prepare, ..old(self)@ }),
            final(self)@.prepare.height == old(self)@.prepare.height,
            final(self)@.prepare.pre_hash == old(self)@.prepare.pre_hash,
            final(self)@.prepare.pre_proof == old(self)@.prepare.pre_proof,
            final(self)@.prepare.exec_results == if exec_result@.height >= old(self)@.prepare.height || has_result(
                old(self)@.prepare.exec_results,
                exec_result@.height,
            ) {
                old(self)@.prepare.exec_results
            } else {
                old(self)@.prepare.exec_results.push(exec_result@)
            },
            reaches(
                final(self)@.prepare.exec_results,
                old(self)@.prepare.exec_height,
                final(self)@.prepare.exec_height,
            ),
    {
        self.prepare.handle_exec_result(exec_result);
    }
}

/// A replica asks for a pre-commit to be sent only on a pre-vote quorum
/// certificate that has passed the check of its voters and of its
/// signature, and only for the block and the round of that certificate.
pub proof fn lemma_pre_commit_needs_certificate<T, S>(
    replica: Replica<T, S>,
    qc: AggregatedVoteView,
    sig_ok: bool,
    elapsed: u64,
    k: int,
)
    requires
        0 <= k < replica.on_vote_qc(qc, sig_ok, elapsed).actions.len(),
        replica.on_vote_qc(qc, sig_ok, elapsed).actions[k] is TransmitVote,
    ensures
        qc.vote_type == VoteType::Prevote,
        qc_verdict(replica.applicable(qc.height), qc.signature.address_bitmap, sig_ok) is Ok,
        replica.on_vote_qc(qc, sig_ok, elapsed).actions[k]->TransmitVote_vote == (VoteView {
            height: qc.height,
            round: qc.round,
            vote_type: VoteType::Precommit,
            block_hash: qc.block_hash,
        }),
        replica.on_vote_qc(qc, sig_ok, elapsed).replica.state.lock == Some(
            crate::types::PoLCView { lock_round: qc.round, lock_votes: qc },
        ),
{
    if qc.vote_type == VoteType::Precommit {
        lemma_commit_sends_no_vote(replica, qc, sig_ok, elapsed, k);
    }
}

/// A replica asks for a block to be executed as committed only on a
/// pre-commit quorum certificate of its height that has passed the check of
/// its voters and of its signature, and then with that certificate as the
/// proof of the commit.
pub proof fn lemma_commit_needs_certificate<T, S>(
    replica: Replica<T, S>,
    qc: AggregatedVoteView,
    sig_ok: bool,
    elapsed: u64,
    k: int,
)
    requires
        0 <= k < replica.on_vote_qc(qc, sig_ok, elapsed).actions.len(),
        replica.on_vote_qc(qc, sig_ok, elapsed).actions[k] is ExecBlock,
    ensures
        qc.vote_type == VoteType::Precommit,
        qc.height == replica.state.stage.height,
        qc_verdict(Some(replica.current), qc.signature.address_bitmap, sig_ok) is Ok,
        replica.on_vote_qc(qc, sig_ok, elapsed).actions[k]->ExecBlock_proof == qc,
        replica.on_vote_qc(qc, sig_ok, elapsed).actions[k]->ExecBlock_height == qc.height,
{
}

/// The turn of a pre-commit quorum certificate sends no vote.
proof fn lemma_commit_sends_no_vote<T, S>(
    replica: Replica<T, S>,
    qc: AggregatedVoteView,
    sig_ok: bool,
    elapsed: u64,
    k: int,
)
    requires
        qc.vote_type == VoteType::Precommit,
        0 <= k < replica.on_vote_qc(qc, sig_ok, elapsed).actions.len(),
    ensures
        !(replica.on_vote_qc(qc, sig_ok, elapsed).actions[k] is TransmitVote),
{
}

} // verus!
