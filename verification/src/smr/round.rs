//! How a replica enters a round, commits a block and enters a height.

use vstd::prelude::*;

use crate::agent::timer_of;
use crate::auth::{set_fault, sorted_of, AuthCell};
use crate::cabinet::{
    capsule_views, kept_upto, pending_upto, settled_upto, Capsule, CapsuleView, Shelf,
};
use crate::error::{ErrorInfo, OverlordError};
use crate::prepare::{config_of, has_result, results_from, PrepareView};
use crate::smr::action::{action_views, Action, ActionView, Outcome};
use crate::smr::handler::Turn;
use crate::smr::{Replica, SMR};
use crate::state::{Stage, INIT_ROUND};
use crate::timeout::{TimeConfig, TimeConfigView};
use crate::types::bytes_clone;

verus! {

/// The effects that hand a list of messages in, one after the other.
pub open spec fn feeds<T>(capsules: Seq<CapsuleView<T>>) -> Seq<ActionView<T>> {
    Seq::new(capsules.len(), |i: int| ActionView::Feed(capsules[i]))
}

impl<T, S> Replica<T, S> {
    /// The replica enters the round it stands in.
    ///
    /// It arms the timer of the stage. Where it leads the round it proposes:
    /// the block it is locked on, or, without a lock, a new block. Where it
    /// does not lead and holds the proposal of the round already, it asks
    /// for that proposal to be handed in.
    pub open spec fn new_round(self, elapsed: u64, actions: Seq<ActionView<T>>) -> Turn<T, S> {
        let stage = self.state.stage;
        let armed = actions + self.timer(stage, elapsed);
        if self.leader(stage.height, stage.round) == self.my_address {
            match (self.state.lock, self.state.block) {
                (Some(lock), Some(block)) => self.done(
                    armed.push(
                        ActionView::ProposeLocked {
                            height: stage.height,
                            round: stage.round,
                            block,
                            lock,
                        },
                    ),
                ),
                (Some(lock), None) => self.halt(
                    armed,
                    OverlordError::local_spec(ErrorInfo::Missing),
                ),
                (None, _) => self.done(
                    armed.push(
                        ActionView::CreateBlock {
                            height: stage.height,
                            round: stage.round,
                            exec_height: self.prepare.exec_height,
                            pre_hash: self.prepare.pre_hash,
                            pre_proof: self.prepare.pre_proof,
                        },
                    ),
                ),
            }
        } else if self.shelf.has_proposal(stage.height, stage.round) {
            let i = self.shelf.first_proposal(stage.height, stage.round);
            (Replica { shelf: Shelf { items: self.shelf.items.remove(i) }, ..self }).done(
                armed.push(
                    ActionView::Feed(CapsuleView::SignedProposal(self.shelf.items[i]->signed)),
                ),
            )
        } else {
            self.done(armed)
        }
    }

    /// The replica leaves its height and enters the next one under the
    /// timing `time`.
    ///
    /// The new state is saved first. The requests of the old height are
    /// forgotten. After the replica has entered round zero, the messages
    /// that were stored for the new height are handed in.
    pub open spec fn next_height(self, time: TimeConfigView, elapsed: u64, actions: Seq<
        ActionView<T>,
    >) -> Turn<T, S> {
        if self.state.stage.height == u64::MAX {
            self.halt(actions, OverlordError::local_spec(ErrorInfo::Exhausted))
        } else {
            let state = self.state.next_height();
            let n = self.shelf.items.len();
            let waiting = pending_upto(self.shelf.items, state.stage.height, n);
            let entered = Replica {
                state,
                time,
                fetched: Set::empty(),
                next_time: None,
                shelf: Shelf { items: settled_upto(self.shelf.items, state.stage.height, n) },
                ..self
            };
            let turn = entered.new_round(elapsed, actions.push(ActionView::SaveWal(state)));
            Turn {
                replica: turn.replica,
                actions: turn.actions + feeds(waiting),
                result: turn.result,
            }
        }
    }

    /// The replica, standing in the commit step, commits its block.
    ///
    /// It asks for the block to be saved and executed with the pre-commit
    /// quorum certificate as proof, moves the chain on, installs the
    /// validators that the execution the block refers to has decided, and
    /// drops what belongs to the committed height from its store. Where it
    /// does not lead the first round of the next height and the interval of
    /// the height has not passed yet, it arms the timer that will take it to
    /// the next height; otherwise it enters the next height at once.
    pub open spec fn commit(self, elapsed: u64, actions: Seq<ActionView<T>>) -> Turn<T, S> {
        let height = self.state.stage.height;
        let missing = OverlordError::local_spec(ErrorInfo::Missing);
        if self.state.pre_commit_qc is None || self.state.block is None {
            self.halt(actions, missing)
        } else {
            let proof = self.state.pre_commit_qc->0;
            let block = self.state.block->0;
            let results = self.prepare.exec_results;
            if !self.shelf.has_full_block(height, proof.block_hash) {
                self.halt(actions, missing)
            } else if height == u64::MAX {
                self.halt(actions, OverlordError::local_spec(ErrorInfo::Exhausted))
            } else if !has_result(results, block.exec_height) {
                self.halt(actions, missing)
            } else if set_fault(config_of(results, block.exec_height).auth_config) is Some {
                self.halt(actions, set_fault(config_of(results, block.exec_height).auth_config)->0)
            } else {
                let config = config_of(results, block.exec_height);
                let next = (height + 1) as u64;
                let executing = actions.push(
                    ActionView::ExecBlock {
                        height,
                        full_block: self.shelf.items[self.shelf.first_full_block(
                            height,
                            proof.block_hash,
                        )]->FullBlock_0,
                        proof,
                    },
                );
                let moved = Replica {
                    prepare: PrepareView {
                        height: next,
                        exec_height: self.prepare.exec_height,
                        pre_hash: proof.block_hash,
                        pre_proof: proof,
                        exec_results: results_from(results, block.exec_height, results.len()),
                    },
                    current: sorted_of(config.auth_config),
                    last: Some(self.current),
                    shelf: Shelf {
                        items: kept_upto(self.shelf.items, next, self.shelf.items.len()),
                    },
                    ..self
                };
                let throttle = timer_of(self.time, self.state.stage, elapsed);
                if moved.leader(next, INIT_ROUND) != self.my_address && throttle is Some {
                    (Replica { next_time: Some(config.time_config), ..moved }).done(
                        executing.push(ActionView::SetTimeout(throttle->0)),
                    )
                } else {
                    moved.next_height(config.time_config, elapsed, executing)
                }
            }
        }
    }
}

impl<T, S> SMR<T, S> {
    /// Adds the timer of a stage, if one is to be armed, to the effects.
    pub fn arm(&self, stage: Stage, elapsed: u64, out: &mut Outcome<T>)
        ensures
            action_views(final(out).actions@) == action_views(old(out).actions@) + self@.timer(
                stage,
                elapsed,
            ),
            final(out).result == old(out).result,
    {
        match self.agent.set_timeout(stage, elapsed) {
            Some(info) => {
                out.push(Action::SetTimeout(info));
                proof {
                    assert(action_views(out.actions@) =~= action_views(old(out).actions@)
                        + self@.timer(stage, elapsed));
                }
            },
            None => {
                proof {
                    assert(action_views(out.actions@) =~= action_views(old(out).actions@)
                        + self@.timer(stage, elapsed));
                }
            },
        }
    }

    /// Enters the round the replica stands in: see [`Replica::new_round`].
    pub fn new_round(&mut self, elapsed: u64, out: Outcome<T>) -> (r: Outcome<T>)
        requires
            out.result == Ok::<(), OverlordError>(()),
        ensures
            final(self)@ == old(self)@.new_round(elapsed, action_views(out.actions@)).replica,
            action_views(r.actions@) == old(self)@.new_round(
                elapsed,
                action_views(out.actions@),
            ).actions,
            r.result == old(self)@.new_round(elapsed, action_views(out.actions@)).result,
    {
        let mut out = out;
        let stage = self.state.stage;
        self.arm(stage, elapsed, &mut out);
        if self.auth.am_i_leader(stage.height, stage.round) {
            match (&self.state.lock, &self.state.block) {
                (Some(lock), Some(block)) => {
                    out.push(
                        Action::ProposeLocked {
                            height: stage.height,
                            round: stage.round,
                            block: block.clone(),
                            lock: lock.clone(),
                        },
                    );
                    out
                },
                (Some(_), None) => out.fail(OverlordError::local(ErrorInfo::Missing)),
                (None, _) => {
                    out.push(
                        Action::CreateBlock {
                            height: stage.height,
                            round: stage.round,
                            exec_height: self.prepare.exec_height,
                            pre_hash: bytes_clone(&self.prepare.pre_hash),
                            pre_proof: self.prepare.pre_proof.clone(),
                        },
                    );
                    out
                },
            }
        } else {
            match self.cabinet.take_signed_proposal(stage.height, stage.round) {
                Some(pair) => {
                    out.push(Action::Feed(Capsule::SignedProposal(pair.0)));
                    out
                },
                None => out,
            }
        }
    }

    /// Leaves the height and enters the next one: see [`Replica::next_height`].
    pub fn next_height(&mut self, time_config: TimeConfig, elapsed: u64, out: Outcome<T>) -> (r:
        Outcome<T>)
        requires
            out.result == Ok::<(), OverlordError>(()),
        ensures
            final(self)@ == old(self)@.next_height(
                time_config@,
                elapsed,
                action_views(out.actions@),
            ).replica,
            action_views(r.actions@) == old(self)@.next_height(
                time_config@,
                elapsed,
                action_views(out.actions@),
            ).actions,
            r.result == old(self)@.next_height(
                time_config@,
                elapsed,
                action_views(out.actions@),
            ).result,
    {
        let ghost expected = self@.next_height(time_config@, elapsed, action_views(out.actions@));
        let mut out = out;
        if self.state.stage.height == u64::MAX {
            return out.fail(OverlordError::local(ErrorInfo::Exhausted));
        }
        self.state.next_height();
        out.push(Action::SaveWal(self.state.clone()));
        self.agent.next_height(time_config);
        self.next_time = None;
        let waiting = self.cabinet.take_buffered(self.state.stage.height);
        let mut out = self.new_round(elapsed, out);
        let ghost before = action_views(out.actions@);
        let ghost all = capsule_views(waiting@);
        let ghost raw = waiting@;
        for capsule in it: waiting.into_iter()
            invariant
                it.seq() == raw,
                all == capsule_views(raw),
                action_views(out.actions@) =~= before + feeds(all.subrange(0, it.index() as int)),
                out.result == expected.result,
        {
            proof {
                assert(all[it.index() as int] == capsule@);
            }
            out.push(Action::Feed(capsule));
        }
        proof {
            assert(all.subrange(0, all.len() as int) =~= all);
        }
        out
    }

    /// Commits the block of the replica: see [`Replica::commit`].
    pub fn handle_commit(&mut self, elapsed: u64, out: Outcome<T>) -> (r: Outcome<T>)
        requires
            out.result == Ok::<(), OverlordError>(()),
        ensures
            final(self)@ == old(self)@.commit(elapsed, action_views(out.actions@)).replica,
            action_views(r.actions@) == old(self)@.commit(
                elapsed,
                action_views(out.actions@),
            ).actions,
            r.result == old(self)@.commit(elapsed, action_views(out.actions@)).result,
    {
        let mut out = out;
        let height: u64 = self.state.stage.height;
        let stage = self.state.stage;
        let (block_proof, exec_height) = match (&self.state.pre_commit_qc, &self.state.block) {
            (Some(qc), Some(block)) => (qc.clone(), block.exec_height),
            _ => {
                return out.fail(OverlordError::local(ErrorInfo::Missing));
            },
        };
        let full_block = match self.cabinet.get_full_block(height, &block_proof.block_hash) {
            Some(full_block) => full_block,
            None => {
                return out.fail(OverlordError::local(ErrorInfo::Missing));
            },
        };
        if height == u64::MAX {
            return out.fail(OverlordError::local(ErrorInfo::Exhausted));
        }
        let config = match self.prepare.config_at(exec_height) {
            Some(config) => config,
            None => {
                return out.fail(OverlordError::local(ErrorInfo::Missing));
            },
        };
        let time_config = config.time_config;
        let new_auth = match AuthCell::new(config.auth_config) {
            Ok(cell) => cell,
            Err(e) => {
                return out.fail(e);
            },
        };
        let next_height: u64 = height + 1;
        out.push(Action::ExecBlock { height, full_block, proof: block_proof.clone() });
        let commit_hash = bytes_clone(&block_proof.block_hash);
        let moved = self.prepare.handle_commit(commit_hash, block_proof, exec_height, next_height);
        self.auth.handle_commit(new_auth);
        self.cabinet.handle_commit(next_height);
        let throttle = self.agent.set_timeout(stage, elapsed);
        if !self.auth.am_i_leader(next_height, INIT_ROUND) && throttle.is_some() {
            match throttle {
                Some(info) => {
                    out.push(Action::SetTimeout(info));
                },
                None => {},
            }
            self.next_time = Some(time_config);
            return out;
        }
        self.next_height(time_config, elapsed, out)
    }
}

/// Agreement on the previous block. Once a replica has committed a block,
/// it builds on that block and on no other: every proposal that passes its
/// check from then on, until its next commit, names the committed block as
/// the block before its own, and proves it with a pre-commit quorum
/// certificate for that block.
pub proof fn lemma_proposals_build_on_commit<T, S>(
    replica: Replica<T, S>,
    elapsed: u64,
    actions: Seq<ActionView<T>>,
    p: crate::types::ProposalView<T>,
    block: crate::types::BlockInfoView,
    block_proof: Option<crate::types::AggregatedVoteView>,
    proof_ok: bool,
    lock_ok: bool,
)
    requires
        replica.commit(elapsed, actions).result is Ok,
        replica.commit(elapsed, actions).replica.check_proposal(
            p,
            block,
            block_proof,
            proof_ok,
            lock_ok,
        ) is Ok,
    ensures
        replica.state.pre_commit_qc is Some,
        block.pre_hash == replica.state.pre_commit_qc->0.block_hash,
        p.height > 0 ==> block_proof is Some && block_proof->0.block_hash
            == replica.state.pre_commit_qc->0.block_hash,
{
}

} // verus!
