//! The round state machine: a function from the current state and a trigger
//! to the next state and, at most, one event.
//!
//! The machine never touches a channel or a clock. Whoever drives it hands
//! each trigger to [`StateMachine::trigger`] and delivers the returned event
//! to the state module and to the timer.

use vstd::prelude::*;

use crate::error::ConsensusError;
use crate::smr::smr_types::{
    opt_lock_clone, opt_lock_view, Lock, LockView, SMREvent, SMREventView, SMRTrigger,
    SMRTriggerView, Step, TriggerSource, TriggerType,
};
use crate::types::{bytes_clone, bytes_eq, opt_bytes_view};
use crate::wal::wal_type::{SMRBase, SMRBaseView};

verus! {

/// The height a fresh machine starts from.
pub const INIT_HEIGHT: u64 = 0;

/// The first round of every height.
pub const INIT_ROUND: u64 = 0;

/// Mathematical value of a [`StateMachine`].
pub struct MachineState {
    pub height: u64,
    pub round: u64,
    pub step: Step,
    /// The hash of the block this replica votes for; empty for none.
    pub block_hash: Seq<u8>,
    pub lock: Option<LockView>,
}

/// What handling a trigger yields: the next state, and either an event to
/// throw (or none, where the trigger is ignored) or the reason of refusal.
pub struct Outcome {
    pub state: MachineState,
    pub result: Result<Option<SMREventView>, ConsensusError>,
}

/// The view of a handler's result.
pub open spec fn result_view(r: Result<Option<SMREvent>, ConsensusError>) -> Result<
    Option<SMREventView>,
    ConsensusError,
> {
    match r {
        Ok(Some(e)) => Ok(Some(e@)),
        Ok(None) => Ok(None),
        Err(e) => Err(e),
    }
}

/// The round of a lock, if there is a lock.
pub open spec fn lock_round_of(lock: Option<LockView>) -> Option<u64> {
    match lock {
        Some(l) => Some(l.round),
        None => None,
    }
}

/// The hash of a lock, if there is a lock.
pub open spec fn lock_hash_of(lock: Option<LockView>) -> Option<Seq<u8>> {
    match lock {
        Some(l) => Some(l.hash),
        None => None,
    }
}

impl MachineState {
    /// The state of a fresh machine.
    pub open spec fn init() -> MachineState {
        MachineState {
            height: INIT_HEIGHT,
            round: INIT_ROUND,
            step: Step::Commit,
            block_hash: Seq::empty(),
            lock: None,
        }
    }

    /// The first violated self-check rule, if any:
    ///
    /// 1. at height zero a lock must name the block this replica votes for;
    /// 2. before the pre-commit step of round zero there can be no lock;
    /// 3. in the pre-commit step, lock and block are both present or both absent.
    pub open spec fn check(self) -> Option<ConsensusError> {
        if self.height == 0 && self.lock is Some && self.lock->0.hash != self.block_hash {
            Some(ConsensusError::LockMismatch)
        } else if self.step.rank() < Step::Precommit.rank() && self.round == 0
            && self.lock is Some {
            Some(ConsensusError::InvalidLock { height: self.height, round: self.round })
        } else if self.step == Step::Precommit && ((self.block_hash.len() == 0)
            != (self.lock is None)) {
            Some(
                ConsensusError::InvalidPrecommitStatus { height: self.height, round: self.round },
            )
        } else {
            None
        }
    }

    /// The trigger is refused and nothing changes.
    pub open spec fn refuse(self, e: ConsensusError) -> Outcome {
        Outcome { state: self, result: Err(e) }
    }

    /// The trigger is ignored and nothing changes.
    pub open spec fn ignore(self) -> Outcome {
        Outcome { state: self, result: Ok(None) }
    }

    /// A new height `height` is announced by `source`.
    pub open spec fn new_height(self, height: u64, source: TriggerSource) -> Outcome {
        if source != TriggerSource::State {
            self.refuse(ConsensusError::StatusSource)
        } else if height <= self.height {
            self.refuse(ConsensusError::DelayedStatus)
        } else if self.check() is Some {
            self.refuse(self.check()->0)
        } else {
            Outcome {
                state: MachineState {
                    height,
                    round: INIT_ROUND,
                    step: Step::Propose,
                    block_hash: Seq::empty(),
                    lock: None,
                },
                result: Ok(
                    Some(
                        SMREventView::NewRoundInfo {
                            height,
                            round: INIT_ROUND,
                            lock_round: None,
                            lock_proposal: None,
                        },
                    ),
                ),
            }
        }
    }

    /// The state after a proposal for `hash` with lock round `lock_round` has
    /// been weighed against the lock held, or the reason of its refusal.
    ///
    /// A proposal that carries a lock moves the replica to its block and to
    /// its lock, where the replica holds no lock or one of an earlier round.
    /// One justified at the round of the lock held must be for the locked
    /// block, else it is a fork. One justified at an earlier round changes
    /// nothing. No proposal of round zero can carry a lock. A proposal that
    /// carries no lock is adopted where no lock is held, and never displaces
    /// a lock.
    pub open spec fn adopt_proposal(self, hash: Seq<u8>, lock_round: Option<u64>) -> Result<
        MachineState,
        ConsensusError,
    > {
        match lock_round {
            Some(lr) => {
                if self.round == INIT_ROUND {
                    Err(ConsensusError::InvalidLock { height: self.height, round: self.round })
                } else if self.lock is None || lr > self.lock->0.round {
                    Ok(
                        MachineState {
                            block_hash: hash,
                            lock: Some(LockView { round: lr, hash }),
                            ..self
                        },
                    )
                } else if lr == self.lock->0.round && hash != self.block_hash {
                    Err(ConsensusError::Fork)
                } else {
                    Ok(self)
                }
            },
            None => {
                if self.lock is None {
                    Ok(MachineState { block_hash: hash, ..self })
                } else {
                    Ok(self)
                }
            },
        }
    }

    /// A proposal for `hash` arrives (source `State`), or the propose timer
    /// fires (source `Timer`), at sender height `height`.
    pub open spec fn proposal(
        self,
        hash: Seq<u8>,
        lock_round: Option<u64>,
        source: TriggerSource,
        height: u64,
    ) -> Outcome {
        if self.height != height || self.step.rank() > Step::Propose.rank() {
            self.ignore()
        } else if source == TriggerSource::Timer {
            Outcome {
                state: MachineState { step: Step::Prevote, ..self },
                result: Ok(
                    Some(
                        SMREventView::PrevoteVote {
                            height: self.height,
                            round: self.round,
                            block_hash: Seq::empty(),
                            lock_round: lock_round_of(self.lock),
                        },
                    ),
                ),
            }
        } else if hash.len() == 0 {
            self.refuse(ConsensusError::EmptyProposal)
        } else if self.check() is Some {
            self.refuse(self.check()->0)
        } else {
            match self.adopt_proposal(hash, lock_round) {
                Err(e) => self.refuse(e),
                Ok(s) => Outcome {
                    state: MachineState { step: Step::Prevote, ..s },
                    result: Ok(
                        Some(
                            SMREventView::PrevoteVote {
                                height: s.height,
                                round: s.round,
                                block_hash: s.block_hash,
                                lock_round: lock_round_of(s.lock),
                            },
                        ),
                    ),
                },
            }
        }
    }

    /// The state after a pre-vote quorum certificate for the non-empty `hash`
    /// of round `vote_round` has been taken in: the replica locks on `hash`
    /// unless it holds a lock of that round or a later one, and falls back to
    /// the round of the certificate if it was ahead of it.
    pub open spec fn adopt_prevote_qc(self, hash: Seq<u8>, vote_round: u64) -> MachineState {
        let locked = if self.lock is Some && vote_round <= self.lock->0.round {
            self
        } else {
            MachineState {
                block_hash: hash,
                lock: Some(LockView { round: vote_round, hash }),
                ..self
            }
        };
        if locked.round > vote_round {
            MachineState { round: vote_round, ..locked }
        } else {
            locked
        }
    }

    /// A pre-vote quorum certificate arrives (source `State`), or the pre-vote
    /// timer fires (source `Timer`), at sender height `height`.
    pub open spec fn prevote(
        self,
        hash: Seq<u8>,
        vote_round: Option<u64>,
        source: TriggerSource,
        height: u64,
    ) -> Outcome {
        if vote_round is None {
            self.refuse(ConsensusError::NoVoteRound)
        } else if self.height != height || self.step.rank() > Step::Prevote.rank() {
            self.ignore()
        } else if source == TriggerSource::Timer {
            Outcome {
                state: MachineState {
                    step: Step::Precommit,
                    block_hash: if self.lock is Some {
                        self.block_hash
                    } else {
                        Seq::empty()
                    },
                    ..self
                },
                result: Ok(
                    Some(
                        SMREventView::PrecommitVote {
                            height: self.height,
                            round: self.round,
                            block_hash: Seq::empty(),
                            lock_round: lock_round_of(self.lock),
                        },
                    ),
                ),
            }
        } else if hash.len() == 0 {
            self.refuse(ConsensusError::EmptyPrevoteQC)
        } else if self.check() is Some {
            self.refuse(self.check()->0)
        } else {
            let s = self.adopt_prevote_qc(hash, vote_round->0);
            Outcome {
                state: MachineState { step: Step::Precommit, ..s },
                result: Ok(
                    Some(
                        SMREventView::PrecommitVote {
                            height: s.height,
                            round: s.round,
                            block_hash: s.block_hash,
                            lock_round: lock_round_of(s.lock),
                        },
                    ),
                ),
            }
        }
    }

    /// The state after a pre-commit quorum certificate for `hash` of round
    /// `round` has been held against the lock, or `Fork` where the replica is
    /// locked on another block. The round moves to the round of the
    /// certificate, and so does the lock, unless the replica holds a lock of
    /// that round or a later one already.
    pub open spec fn check_polc(self, hash: Seq<u8>, round: u64) -> Result<
        MachineState,
        ConsensusError,
    > {
        if self.lock is Some && self.lock->0.hash != hash {
            Err(ConsensusError::Fork)
        } else if self.lock is Some && self.lock->0.round >= round {
            Ok(MachineState { round, ..self })
        } else {
            Ok(MachineState { round, lock: Some(LockView { round, hash }), ..self })
        }
    }

    /// A pre-commit quorum certificate arrives (source `State`), or the
    /// pre-commit timer fires (source `Timer`), at sender height `height`.
    pub open spec fn precommit(
        self,
        hash: Seq<u8>,
        vote_round: Option<u64>,
        source: TriggerSource,
        height: u64,
    ) -> Outcome
        recommends
            source == TriggerSource::Timer ==> self.round < u64::MAX,
    {
        if vote_round is None {
            self.refuse(ConsensusError::NoVoteRound)
        } else if self.height != height || self.step.rank() > Step::Precommit.rank() {
            self.ignore()
        } else if source == TriggerSource::Timer {
            Outcome {
                state: MachineState {
                    round: (self.round + 1) as u64,
                    step: Step::Propose,
                    ..self
                },
                result: Ok(
                    Some(
                        SMREventView::NewRoundInfo {
                            height: self.height,
                            round: (self.round + 1) as u64,
                            lock_round: lock_round_of(self.lock),
                            lock_proposal: lock_hash_of(self.lock),
                        },
                    ),
                ),
            }
        } else if hash.len() == 0 {
            self.refuse(ConsensusError::EmptyPrecommitQC)
        } else if self.check() is Some {
            self.refuse(self.check()->0)
        } else {
            match self.check_polc(hash, vote_round->0) {
                Err(e) => self.refuse(e),
                Ok(s) => Outcome {
                    state: MachineState { step: Step::Commit, ..s },
                    result: Ok(Some(SMREventView::Commit(hash))),
                },
            }
        }
    }

    /// The event that re-arms the timer of the step the machine stands in.
    pub open spec fn timer_event(self) -> SMREventView
        recommends
            self.step != Step::Commit,
    {
        match self.step {
            Step::Propose => SMREventView::NewRoundInfo {
                height: self.height,
                round: self.round,
                lock_round: lock_round_of(self.lock),
                lock_proposal: lock_hash_of(self.lock),
            },
            Step::Prevote => SMREventView::PrevoteVote {
                height: self.height,
                round: self.round,
                block_hash: Seq::empty(),
                lock_round: lock_round_of(self.lock),
            },
            _ => SMREventView::PrecommitVote {
                height: self.height,
                round: self.round,
                block_hash: Seq::empty(),
                lock_round: lock_round_of(self.lock),
            },
        }
    }

    /// A record recovered from the write-ahead log is installed.
    pub open spec fn wal(self, info: SMRBaseView) -> Outcome
        recommends
            info.step != Step::Commit,
    {
        let s = MachineState {
            height: info.height,
            round: info.round,
            step: info.step,
            block_hash: if info.polc is Some {
                info.polc->0.hash
            } else {
                self.block_hash
            },
            lock: info.polc,
        };
        Outcome { state: s, result: Ok(Some(s.timer_event())) }
    }

    /// A trigger can be handled without leaving the range of the machine's
    /// counters and without asking for a timer in the commit step: the
    /// pre-commit timer finds a round that has a successor, and a recovered
    /// record does not stand in the commit step.
    pub open spec fn accepts(self, msg: SMRTriggerView) -> bool {
        match msg.trigger_type {
            TriggerType::PrecommitQC => msg.source == TriggerSource::Timer ==> self.round
                < u64::MAX,
            TriggerType::WalInfo => msg.wal_info is Some && msg.wal_info->0.step != Step::Commit,
            _ => true,
        }
    }

    /// What handling a trigger yields.
    pub open spec fn step_on(self, msg: SMRTriggerView) -> Outcome {
        match msg.trigger_type {
            TriggerType::NewEpoch(h) => self.new_height(h, msg.source),
            TriggerType::Proposal => self.proposal(msg.hash, msg.round, msg.source, msg.height),
            TriggerType::PrevoteQC => self.prevote(msg.hash, msg.round, msg.source, msg.height),
            TriggerType::PrecommitQC => self.precommit(
                msg.hash,
                msg.round,
                msg.source,
                msg.height,
            ),
            TriggerType::WalInfo => self.wal(msg.wal_info->0),
        }
    }
}

/// Within a height the lock of a replica is never given up, and its round
/// never goes back: whatever trigger the machine handles in the course of a
/// run, a lock that is held before is held after, at the same round or a
/// later one, unless the trigger has taken the machine to a greater height.
pub proof fn lemma_lock_kept_within_height(s: MachineState, msg: SMRTriggerView)
    requires
        !(msg.trigger_type is WalInfo),
        s.lock is Some,
    ensures
        ({
            let t = s.step_on(msg).state;
            t.height > s.height || (t.height == s.height && t.lock is Some && t.lock->0.round
                >= s.lock->0.round)
        }),
        s.step_on(msg).state.height > s.height ==> msg.trigger_type is NewEpoch,
{
}

/// A replica that holds no lock gets one only from the state module, by a
/// proposal that carries a lock or by a quorum certificate, and then on the
/// block that the proposal or the certificate is for.
pub proof fn lemma_lock_names_the_vote(s: MachineState, msg: SMRTriggerView)
    requires
        !(msg.trigger_type is WalInfo),
        s.lock is None,
        s.step_on(msg).state.lock is Some,
    ensures
        msg.source == TriggerSource::State,
        msg.round is Some,
        msg.hash.len() > 0,
        s.step_on(msg).state.lock->0.hash == msg.hash,
{
}

/// The state machine of one replica.
#[derive(Debug)]
pub struct StateMachine {
    height: u64,
    round: u64,
    step: Step,
    block_hash: crate::types::Hash,
    lock: Option<Lock>,
}

impl View for StateMachine {
    type V = MachineState;

    closed spec fn view(&self) -> MachineState {
        MachineState {
            height: self.height,
            round: self.round,
            step: self.step,
            block_hash: self.block_hash@,
            lock: opt_lock_view(self.lock),
        }
    }
}

impl StateMachine {
    /// A fresh machine: height and round zero, resting in the commit step,
    /// with no block and no lock.
    pub fn new() -> (r: Self)
        ensures
            r@ == MachineState::init(),
    {
        StateMachine {
            height: INIT_HEIGHT,
            round: INIT_ROUND,
            step: Step::Commit,
            block_hash: Vec::new(),
            lock: None,
        }
    }

    /// The current height.
    pub fn height(&self) -> (r: u64)
        ensures
            r == self@.height,
    {
        self.height
    }

    /// The current round.
    pub fn round(&self) -> (r: u64)
        ensures
            r == self@.round,
    {
        self.round
    }

    /// The current step.
    pub fn step(&self) -> (r: Step)
        ensures
            r == self@.step,
    {
        self.step
    }

    /// The hash of the block this replica votes for; empty for none.
    pub fn block_hash(&self) -> (r: crate::types::Hash)
        ensures
            r@ == self@.block_hash,
    {
        bytes_clone(&self.block_hash)
    }

    /// The lock held, if any.
    pub fn get_lock(&self) -> (r: Option<Lock>)
        ensures
            opt_lock_view(r) == self@.lock,
    {
        opt_lock_clone(&self.lock)
    }

    /// Puts the machine into a given round, step, block and lock, leaving the
    /// height as it is.
    pub fn set_status(
        &mut self,
        round: u64,
        step: Step,
        proposal_hash: crate::types::Hash,
        lock: Option<Lock>,
    )
        ensures
            final(self)@ == (MachineState {
                round,
                step,
                block_hash: proposal_hash@,
                lock: opt_lock_view(lock),
                ..old(self)@
            }),
    {
        self.round = round;
        self.goto_step(step);
        self.set_proposal(proposal_hash);
        self.lock = lock;
    }

    /// Handles one trigger: advances the machine and returns the event to
    /// throw, `None` where the trigger is outdated, or the reason of refusal.
    /// A refused or ignored trigger leaves the machine as it was.
    pub fn trigger(&mut self, msg: SMRTrigger) -> (r: Result<Option<SMREvent>, ConsensusError>)
        requires
            old(self)@.accepts(msg@),
        ensures
            final(self)@ == old(self)@.step_on(msg@).state,
            result_view(r) == old(self)@.step_on(msg@).result,
    {
        match msg.trigger_type {
            TriggerType::NewEpoch(height) => self.handle_new_height(height, msg.source),
            TriggerType::Proposal => self.handle_proposal(
                msg.hash,
                msg.round,
                msg.source,
                msg.height,
            ),
            TriggerType::PrevoteQC => self.handle_prevote(
                msg.hash,
                msg.round,
                msg.source,
                msg.height,
            ),
            TriggerType::PrecommitQC => self.handle_precommit(
                msg.hash,
                msg.round,
                msg.source,
                msg.height,
            ),
            TriggerType::WalInfo => {
                match msg.wal_info {
                    Some(info) => self.handle_wal(info),
                    None => Ok(None),
                }
            },
        }
    }

    /// Installs a record recovered from the write-ahead log and returns the
    /// event that re-arms the timer of the recovered step.
    pub fn handle_wal(&mut self, info: SMRBase) -> (r: Result<Option<SMREvent>, ConsensusError>)
        requires
            info.step != Step::Commit,
        ensures
            final(self)@ == old(self)@.wal(info@).state,
            result_view(r) == old(self)@.wal(info@).result,
    {
        self.height = info.height;
        self.round = info.round;
        self.step = info.step;
        match &info.polc {
            Some(polc) => {
                self.set_proposal(bytes_clone(&polc.hash));
            },
            None => {},
        }
        self.lock = info.polc;
        let event = self.set_timer_after_wal();
        Ok(Some(event))
    }

    /// Handles a new-height trigger: goes to `height` where it is above the
    /// current height and comes from the state module, and announces round zero.
    pub fn handle_new_height(&mut self, height: u64, source: TriggerSource) -> (r: Result<
        Option<SMREvent>,
        ConsensusError,
    >)
        ensures
            final(self)@ == old(self)@.new_height(height, source).state,
            result_view(r) == old(self)@.new_height(height, source).result,
    {
        if source != TriggerSource::State {
            return Err(ConsensusError::StatusSource);
        } else if height <= self.height {
            return Err(ConsensusError::DelayedStatus);
        }
        match self.check() {
            Err(e) => {
                return Err(e);
            },
            Ok(()) => {},
        }
        self.goto_new_height(height);
        Ok(
            Some(
                SMREvent::NewRoundInfo {
                    height: self.height,
                    round: INIT_ROUND,
                    lock_round: None,
                    lock_proposal: None,
                },
            ),
        )
    }

    /// Handles a proposal trigger. It counts only in the propose step of the
    /// current height. From the timer it moves the machine to the pre-vote
    /// step with a vote for nothing; from the state module it is weighed
    /// against the lock, which it may move to a later round and never
    /// removes, and answered with a pre-vote.
    pub fn handle_proposal(
        &mut self,
        proposal_hash: crate::types::Hash,
        lock_round: Option<u64>,
        source: TriggerSource,
        height: u64,
    ) -> (r: Result<Option<SMREvent>, ConsensusError>)
        ensures
            final(self)@ == old(self)@.proposal(proposal_hash@, lock_round, source, height).state,
            result_view(r) == old(self)@.proposal(
                proposal_hash@,
                lock_round,
                source,
                height,
            ).result,
    {
        if self.height != height {
            return Ok(None);
        }
        if self.step.after(Step::Propose) {
            return Ok(None);
        }
        if source == TriggerSource::Timer {
            let event = SMREvent::PrevoteVote {
                height: self.height,
                round: self.round,
                block_hash: Vec::new(),
                lock_round: self.lock_round(),
            };
            self.goto_step(Step::Prevote);
            return Ok(Some(event));
        } else if proposal_hash.len() == 0 {
            return Err(ConsensusError::EmptyProposal);
        }
        match self.check() {
            Err(e) => {
                return Err(e);
            },
            Ok(()) => {},
        }
        let held: Option<u64> = self.lock_round();
        match (lock_round, held) {
            (Some(_), _) if self.round == INIT_ROUND => {
                return Err(ConsensusError::InvalidLock { height: self.height, round: self.round });
            },
            (Some(lr), Some(mine)) => {
                if lr > mine {
                    self.update_polc(proposal_hash, lr);
                } else if lr == mine && !bytes_eq(&proposal_hash, &self.block_hash) {
                    return Err(ConsensusError::Fork);
                }
            },
            (Some(lr), None) => {
                self.update_polc(proposal_hash, lr);
            },
            (None, None) => {
                self.set_proposal(proposal_hash);
            },
            (None, Some(_)) => {},
        }
        let event = SMREvent::PrevoteVote {
            height: self.height,
            round: self.round,
            block_hash: bytes_clone(&self.block_hash),
            lock_round: self.lock_round(),
        };
        self.goto_step(Step::Prevote);
        Ok(Some(event))
    }

    /// Handles a pre-vote quorum certificate trigger. It counts up to the
    /// pre-vote step of the current height. From the timer it moves the
    /// machine to the pre-commit step with a vote for nothing; from the state
    /// module it may move the lock, and is answered with a pre-commit.
    pub fn handle_prevote(
        &mut self,
        prevote_hash: crate::types::Hash,
        prevote_round: Option<u64>,
        source: TriggerSource,
        height: u64,
    ) -> (r: Result<Option<SMREvent>, ConsensusError>)
        ensures
            final(self)@ == old(self)@.prevote(prevote_hash@, prevote_round, source, height).state,
            result_view(r) == old(self)@.prevote(
                prevote_hash@,
                prevote_round,
                source,
                height,
            ).result,
    {
        let vote_round: u64 = match prevote_round {
            Some(round) => round,
            None => {
                return Err(ConsensusError::NoVoteRound);
            },
        };
        if self.height != height {
            return Ok(None);
        }
        if self.step.after(Step::Prevote) {
            return Ok(None);
        }
        if source == TriggerSource::Timer {
            let round: Option<u64> = self.lock_round();
            if round.is_none() {
                self.block_hash = Vec::new();
            }
            let event = SMREvent::PrecommitVote {
                height: self.height,
                round: self.round,
                block_hash: Vec::new(),
                lock_round: round,
            };
            self.goto_step(Step::Precommit);
            return Ok(Some(event));
        } else if prevote_hash.len() == 0 {
            return Err(ConsensusError::EmptyPrevoteQC);
        }
        match self.check() {
            Err(e) => {
                return Err(e);
            },
            Ok(()) => {},
        }
        match self.lock_round() {
            Some(mine) => {
                if vote_round > mine {
                    self.update_polc(prevote_hash, vote_round);
                }
            },
            None => {
                self.update_polc(prevote_hash, vote_round);
            },
        }
        if self.round > vote_round {
            self.round = vote_round;
        }
        let event = SMREvent::PrecommitVote {
            height: self.height,
            round: self.round,
            block_hash: bytes_clone(&self.block_hash),
            lock_round: self.lock_round(),
        };
        self.goto_step(Step::Precommit);
        Ok(Some(event))
    }

    /// Handles a pre-commit quorum certificate trigger. It counts up to the
    /// pre-commit step of the current height. From the timer it starts the
    /// next round, keeping the lock; from the state module it commits the
    /// block, unless the replica is locked on another one.
    pub fn handle_precommit(
        &mut self,
        precommit_hash: crate::types::Hash,
        precommit_round: Option<u64>,
        source: TriggerSource,
        height: u64,
    ) -> (r: Result<Option<SMREvent>, ConsensusError>)
        requires
            source == TriggerSource::Timer ==> old(self)@.round < u64::MAX,
        ensures
            final(self)@ == old(self)@.precommit(
                precommit_hash@,
                precommit_round,
                source,
                height,
            ).state,
            result_view(r) == old(self)@.precommit(
                precommit_hash@,
                precommit_round,
                source,
                height,
            ).result,
    {
        let vote_round: u64 = match precommit_round {
            Some(round) => round,
            None => {
                return Err(ConsensusError::NoVoteRound);
            },
        };
        if self.height != height {
            return Ok(None);
        }
        if self.step.after(Step::Precommit) {
            return Ok(None);
        }
        if source == TriggerSource::Timer {
            let event = SMREvent::NewRoundInfo {
                height: self.height,
                round: self.round + 1,
                lock_round: self.lock_round(),
                lock_proposal: self.lock_hash(),
            };
            self.goto_next_round();
            return Ok(Some(event));
        } else if precommit_hash.len() == 0 {
            return Err(ConsensusError::EmptyPrecommitQC);
        }
        match self.check() {
            Err(e) => {
                return Err(e);
            },
            Ok(()) => {},
        }
        match self.check_polc(bytes_clone(&precommit_hash), vote_round) {
            Err(e) => {
                return Err(e);
            },
            Ok(()) => {},
        }
        self.goto_step(Step::Commit);
        Ok(Some(SMREvent::Commit(precommit_hash)))
    }

    /// Holds a pre-commit quorum certificate against the lock. Where the
    /// replica is locked on another block this is a fork and nothing changes;
    /// otherwise lock and round move to the round of the certificate.
    fn check_polc(&mut self, hash: crate::types::Hash, round: u64) -> (r: Result<
        (),
        ConsensusError,
    >)
        ensures
            match old(self)@.check_polc(hash@, round) {
                Ok(s) => r is Ok && final(self)@ == s,
                Err(e) => r == Err::<(), ConsensusError>(e) && final(self)@ == old(self)@,
            },
    {
        let later: bool = match &self.lock {
            Some(lock) => {
                if !bytes_eq(&lock.hash, &hash) {
                    return Err(ConsensusError::Fork);
                }
                lock.round >= round
            },
            None => false,
        };
        if !later {
            self.lock = Some(Lock { hash, round });
        }
        self.round = round;
        Ok(())
    }

    /// Goes to a new height and clears round, block and lock.
    fn goto_new_height(&mut self, height: u64)
        ensures
            final(self)@ == (MachineState {
                height,
                round: INIT_ROUND,
                step: Step::Propose,
                block_hash: Seq::empty(),
                lock: None,
            }),
    {
        self.height = height;
        self.round = INIT_ROUND;
        self.goto_step(Step::Propose);
        self.block_hash = Vec::new();
        self.lock = None;
    }

    /// Goes to the propose step of the next round; the lock, if any, is kept.
    fn goto_next_round(&mut self)
        requires
            old(self)@.round < u64::MAX,
        ensures
            final(self)@ == (MachineState {
                round: (old(self)@.round + 1) as u64,
                step: Step::Propose,
                ..old(self)@
            }),
    {
        self.round += 1;
        self.goto_step(Step::Propose);
    }

    /// The event that re-arms the timer of the current step.
    fn set_timer_after_wal(&self) -> (r: SMREvent)
        requires
            self@.step != Step::Commit,
        ensures
            r@ == self@.timer_event(),
    {
        let lock_round: Option<u64> = self.lock_round();
        match self.step {
            Step::Propose => SMREvent::NewRoundInfo {
                height: self.height,
                round: self.round,
                lock_round,
                lock_proposal: self.lock_hash(),
            },
            Step::Prevote => SMREvent::PrevoteVote {
                height: self.height,
                round: self.round,
                block_hash: Vec::new(),
                lock_round,
            },
            _ => SMREvent::PrecommitVote {
                height: self.height,
                round: self.round,
                block_hash: Vec::new(),
                lock_round,
            },
        }
    }

    /// Goes to the given step.
    fn goto_step(&mut self, step: Step)
        ensures
            final(self)@ == (MachineState { step, ..old(self)@ }),
    {
        self.step = step;
    }

    /// Locks on `hash` at `round` and votes for it; an empty hash removes the lock.
    fn update_polc(&mut self, hash: crate::types::Hash, round: u64)
        ensures
            final(self)@ == (MachineState {
                block_hash: hash@,
                lock: if hash@.len() == 0 {
                    None
                } else {
                    Some(LockView { round, hash: hash@ })
                },
                ..old(self)@
            }),
    {
        self.set_proposal(bytes_clone(&hash));
        if hash.len() == 0 {
            self.remove_polc();
        } else {
            self.lock = Some(Lock { round, hash });
        }
    }

    /// Gives up the lock.
    fn remove_polc(&mut self)
        ensures
            final(self)@ == (MachineState { lock: None, ..old(self)@ }),
    {
        self.lock = None;
    }

    /// Votes for the block with the given hash from now on.
    fn set_proposal(&mut self, proposal_hash: crate::types::Hash)
        ensures
            final(self)@ == (MachineState { block_hash: proposal_hash@, ..old(self)@ }),
    {
        self.block_hash = proposal_hash;
    }

    /// The self checks made before a trigger from the state module is applied.
    fn check(&self) -> (r: Result<(), ConsensusError>)
        ensures
            match self@.check() {
                Some(e) => r == Err::<(), ConsensusError>(e),
                None => r is Ok,
            },
    {
        match &self.lock {
            Some(lock) => {
                if self.height == 0 && !bytes_eq(&lock.hash, &self.block_hash) {
                    return Err(ConsensusError::LockMismatch);
                }
            },
            None => {},
        }
        if self.step.before(Step::Precommit) && self.round == 0 && self.lock.is_some() {
            return Err(ConsensusError::InvalidLock { height: self.height, round: self.round });
        }
        if self.step == Step::Precommit && ((self.block_hash.len() == 0) != self.lock.is_none()) {
            return Err(
                ConsensusError::InvalidPrecommitStatus { height: self.height, round: self.round },
            );
        }
        Ok(())
    }

    /// The round of the lock held, if any.
    fn lock_round(&self) -> (r: Option<u64>)
        ensures
            r == lock_round_of(self@.lock),
    {
        match &self.lock {
            Some(lock) => Some(lock.round),
            None => None,
        }
    }

    /// The hash of the lock held, if any.
    fn lock_hash(&self) -> (r: Option<crate::types::Hash>)
        ensures
            opt_bytes_view(r) == lock_hash_of(self@.lock),
    {
        match &self.lock {
            Some(lock) => Some(bytes_clone(&lock.hash)),
            None => None,
        }
    }
}

} // verus!
