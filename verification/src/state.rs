//! Where a replica stands: its stage, its lock and the block it votes for,
//! and the rules by which proposals, certificates and timeouts move it.

pub mod effect;
pub mod handle;
pub mod height;
pub mod process;

use vstd::prelude::*;

use crate::error::{ErrorInfo, ErrorKind, OverlordError};
use crate::types::{
    bytes_clone, bytes_eq, opt_polc_view, opt_qc_view, AggregatedVote, AggregatedVoteView,
    BlockInfo, BlockInfoView, ChokeQC, PoLC, PoLCView, UpdateFrom, UpdateFromView,
};

verus! {

/// The first round of every height.
pub const INIT_ROUND: u64 = 0;

/// The steps of a round, in the order in which a replica passes them.
/// `Brake` is where a replica waits, after a timeout, for the quorum of
/// chokes that starts the next round.
#[derive(Clone, Copy, Debug, PartialEq, Eq, Structural, PartialOrd, Ord)]
pub enum Step {
    Propose,
    PreVote,
    PreCommit,
    Brake,
    Commit,
}

impl Step {
    /// The position of the step within a round, `Propose` being 0.
    pub open spec fn rank(self) -> nat {
        match self {
            Step::Propose => 0,
            Step::PreVote => 1,
            Step::PreCommit => 2,
            Step::Brake => 3,
            Step::Commit => 4,
        }
    }

    /// The position of the step within a round.
    pub fn to_u8(self) -> (r: u8)
        ensures
            r == self.rank(),
    {
        match self {
            Step::Propose => 0,
            Step::PreVote => 1,
            Step::PreCommit => 2,
            Step::Brake => 3,
            Step::Commit => 4,
        }
    }

    /// The step at a position, if there is one.
    pub fn from_u8(s: u8) -> (r: Option<Step>)
        ensures
            r is Some <==> s <= 4,
            r is Some ==> r->0.rank() == s,
    {
        if s == 0 {
            Some(Step::Propose)
        } else if s == 1 {
            Some(Step::PreVote)
        } else if s == 2 {
            Some(Step::PreCommit)
        } else if s == 3 {
            Some(Step::Brake)
        } else if s == 4 {
            Some(Step::Commit)
        } else {
            None
        }
    }
}

/// A point in the life of a replica: height, round and step.
#[derive(Clone, Copy, Debug, PartialEq, Eq, Structural)]
pub struct Stage {
    pub height: u64,
    pub round: u64,
    pub step: Step,
}

impl Stage {
    /// `self` comes strictly before `other`: at a lower height, or at the
    /// same height in a lower round, or in the same round at an earlier step.
    pub open spec fn before(self, other: Stage) -> bool {
        self.height < other.height || (self.height == other.height && (self.round < other.round
            || (self.round == other.round && self.step.rank() < other.step.rank())))
    }

    /// The stage at which a height begins.
    pub open spec fn start_of(height: u64) -> Stage {
        Stage { height, round: INIT_ROUND, step: Step::Propose }
    }

    /// A stage.
    pub fn new(height: u64, round: u64, step: Step) -> (r: Stage)
        ensures
            r == (Stage { height, round, step }),
    {
        Stage { height, round, step }
    }

    /// Whether `self` comes strictly before `other`.
    pub fn is_before(&self, other: &Stage) -> (r: bool)
        ensures
            r == self.before(*other),
    {
        self.height < other.height || (self.height == other.height && (self.round < other.round
            || (self.round == other.round && self.step.to_u8() < other.step.to_u8())))
    }
}

/// Mathematical value of a [`StateInfo`].
pub struct StateView {
    pub stage: Stage,
    pub lock: Option<PoLCView>,
    pub pre_commit_qc: Option<AggregatedVoteView>,
    pub block: Option<BlockInfoView>,
    pub from: Option<UpdateFromView>,
}

/// The next state of a replica and what the input that led there yields.
pub struct Moved {
    pub state: StateView,
    pub result: Result<(), OverlordError>,
}

/// The error of an input that belongs to the past of a replica.
pub open spec fn old_input() -> OverlordError {
    OverlordError { kind: ErrorKind::Debug, info: ErrorInfo::Old }
}

/// The error of an input of another height than the replica's.
pub open spec fn wrong_height(height: u64, mine: u64) -> OverlordError {
    if height < mine {
        old_input()
    } else {
        OverlordError { kind: ErrorKind::Debug, info: ErrorInfo::High }
    }
}

impl StateView {
    /// The state in which a height begins.
    pub open spec fn start_of(height: u64, from: Option<UpdateFromView>) -> StateView {
        StateView {
            stage: Stage::start_of(height),
            lock: None,
            pre_commit_qc: None,
            block: None,
            from,
        }
    }

    /// The round of the lock held, if any.
    pub open spec fn lock_round(self) -> Option<u64> {
        match self.lock {
            Some(l) => Some(l.lock_round),
            None => None,
        }
    }

    /// The input is refused; the replica stays as it is.
    pub open spec fn refuse(self, e: OverlordError) -> Moved {
        Moved { state: self, result: Err(e) }
    }

    /// The replica moves to a stage, and everything else stays.
    pub open spec fn at(self, stage: Stage) -> StateView {
        StateView { stage, ..self }
    }

    /// A proposal for round `round` of height `height` arrives, for the block
    /// `block`, carrying the lock `lock`.
    ///
    /// It moves a replica that has not committed and has not yet passed the
    /// propose step of that round to the pre-vote step of that round. A replica without a lock
    /// adopts the block and the lock of the proposal. A replica with a lock
    /// keeps its block unless the proposal carries a lock of a later round;
    /// a lock of an earlier round than its own makes it refuse the proposal,
    /// and a lock of its own round on another block is a fork.
    pub open spec fn proposal(
        self,
        height: u64,
        round: u64,
        block: BlockInfoView,
        lock: Option<PoLCView>,
    ) -> Moved {
        let next = Stage { height, round, step: Step::PreVote };
        if height != self.stage.height {
            self.refuse(wrong_height(height, self.stage.height))
        } else if !self.stage.before(next) || self.stage.step == Step::Commit {
            self.refuse(old_input())
        } else {
            match (self.lock, lock) {
                (None, _) => Moved {
                    state: StateView { stage: next, lock, block: Some(block), ..self },
                    result: Ok(()),
                },
                (Some(mine), None) => Moved { state: self.at(next), result: Ok(()) },
                (Some(mine), Some(theirs)) => {
                    if theirs.lock_round > mine.lock_round {
                        Moved {
                            state: StateView {
                                stage: next,
                                lock: Some(theirs),
                                block: Some(block),
                                ..self
                            },
                            result: Ok(()),
                        }
                    } else if theirs.lock_round < mine.lock_round {
                        self.refuse(
                            OverlordError { kind: ErrorKind::Debug, info: ErrorInfo::Locked },
                        )
                    } else if theirs.lock_votes.block_hash != mine.lock_votes.block_hash {
                        self.refuse(
                            OverlordError { kind: ErrorKind::Byzantine, info: ErrorInfo::Fork },
                        )
                    } else {
                        Moved { state: self.at(next), result: Ok(()) }
                    }
                },
            }
        }
    }

    /// A pre-vote quorum certificate arrives, and the block it is for is at hand.
    ///
    /// It moves a replica that has not yet passed the pre-vote step of the
    /// certificate's round to the pre-commit step of that round, locked on
    /// the certificate's block. A replica that holds a lock of a later round
    /// refuses it.
    pub open spec fn pre_vote_qc(self, qc: AggregatedVoteView, block: BlockInfoView) -> Moved {
        let next = Stage { height: qc.height, round: qc.round, step: Step::PreCommit };
        if qc.height != self.stage.height {
            self.refuse(wrong_height(qc.height, self.stage.height))
        } else if !self.stage.before(next) || self.stage.step == Step::Commit {
            self.refuse(old_input())
        } else if self.lock is Some && self.lock->0.lock_round > qc.round {
            self.refuse(OverlordError { kind: ErrorKind::Debug, info: ErrorInfo::Locked })
        } else {
            Moved {
                state: StateView {
                    stage: next,
                    lock: Some(PoLCView { lock_round: qc.round, lock_votes: qc }),
                    block: Some(block),
                    from: Some(UpdateFromView::PreVoteQC(qc)),
                    ..self
                },
                result: Ok(()),
            }
        }
    }

    /// A pre-commit quorum certificate arrives, and the block it is for is at
    /// hand. It moves a replica that has not yet committed at this height to
    /// the commit step of the certificate's round; the certificate becomes
    /// the proof of the commit.
    pub open spec fn pre_commit_qc(self, qc: AggregatedVoteView, block: BlockInfoView) -> Moved {
        let next = Stage { height: qc.height, round: qc.round, step: Step::Commit };
        if qc.height != self.stage.height {
            self.refuse(wrong_height(qc.height, self.stage.height))
        } else if !self.stage.before(next) || self.stage.step == Step::Commit {
            self.refuse(old_input())
        } else {
            Moved {
                state: StateView {
                    stage: next,
                    pre_commit_qc: Some(qc),
                    block: Some(block),
                    from: Some(UpdateFromView::PreCommitQC(qc)),
                    ..self
                },
                result: Ok(()),
            }
        }
    }

    /// A quorum of chokes for round `round` arrives. It moves a replica that
    /// is in that round or an earlier one, and has not committed, to the
    /// propose step of the round after; the lock stays.
    pub open spec fn choke_qc(self, qc: crate::types::ChokeQCView) -> Moved {
        if qc.choke.height != self.stage.height {
            self.refuse(wrong_height(qc.choke.height, self.stage.height))
        } else if qc.choke.round < self.stage.round || self.stage.step == Step::Commit
            || qc.choke.round == u64::MAX {
            self.refuse(old_input())
        } else {
            Moved {
                state: StateView {
                    stage: Stage {
                        height: self.stage.height,
                        round: (qc.choke.round + 1) as u64,
                        step: Step::Propose,
                    },
                    from: Some(UpdateFromView::ChokeQC(qc)),
                    ..self
                },
                result: Ok(()),
            }
        }
    }

    /// The timer armed at `stage` fires. A timeout of another stage than the
    /// current one, or of the commit step, is discarded. Otherwise the
    /// replica gives up on the round and waits in the brake step.
    pub open spec fn timeout(self, stage: Stage) -> Moved {
        if stage != self.stage || stage.step == Step::Commit {
            self.refuse(OverlordError { kind: ErrorKind::Debug, info: ErrorInfo::WrongStage })
        } else {
            Moved { state: self.at(Stage { step: Step::Brake, ..self.stage }), result: Ok(()) }
        }
    }

    /// The replica leaves a height: it starts the next one without lock and block.
    pub open spec fn next_height(self) -> StateView
        recommends
            self.stage.height < u64::MAX,
    {
        StateView::start_of((self.stage.height + 1) as u64, self.from)
    }

    /// The lock of `self` is not weaker than that of `earlier`: a lock that
    /// was held is still held, at the same round or a later one.
    pub open spec fn keeps_lock_of(self, earlier: StateView) -> bool {
        earlier.lock is Some ==> self.lock is Some && self.lock->0.lock_round
            >= earlier.lock->0.lock_round
    }
}

/// What can happen to a replica within a height.
pub enum Input {
    Proposal { height: u64, round: u64, block: BlockInfoView, lock: Option<PoLCView> },
    PreVoteQC { qc: AggregatedVoteView, block: BlockInfoView },
    PreCommitQC { qc: AggregatedVoteView, block: BlockInfoView },
    ChokeQC { chokes: crate::types::ChokeQCView },
    Timeout { stage: Stage },
}

impl StateView {
    /// The state after one input.
    pub open spec fn after(self, input: Input) -> StateView {
        match input {
            Input::Proposal { height, round, block, lock } => self.proposal(
                height,
                round,
                block,
                lock,
            ).state,
            Input::PreVoteQC { qc, block } => self.pre_vote_qc(qc, block).state,
            Input::PreCommitQC { qc, block } => self.pre_commit_qc(qc, block).state,
            Input::ChokeQC { chokes } => self.choke_qc(chokes).state,
            Input::Timeout { stage } => self.timeout(stage).state,
        }
    }

    /// The state after a sequence of inputs.
    pub open spec fn after_all(self, inputs: Seq<Input>) -> StateView
        decreases inputs.len(),
    {
        if inputs.len() == 0 {
            self
        } else {
            self.after_all(inputs.drop_last()).after(inputs.last())
        }
    }
}

/// Lock monotonicity, one input. No proposal, certificate or timeout takes a
/// lock away or moves it to an earlier round, and none changes the height or
/// moves the replica back to an earlier stage.
pub proof fn lemma_lock_monotonic(s: StateView, input: Input)
    ensures
        s.after(input).keeps_lock_of(s),
        s.after(input).stage.height == s.stage.height,
        s.after(input).stage == s.stage || s.stage.before(s.after(input).stage),
{
}

impl StateView {
    /// What holds of the state of a replica that has only taken in inputs
    /// that fit, as long as it has not committed: a lock is a pre-vote
    /// quorum certificate of a round that the replica has reached, for the
    /// block the replica votes for; and a replica in the pre-commit step is
    /// locked in its round.
    pub open spec fn consistent(self) -> bool {
        &&& self.lock is Some && self.stage.step != Step::Commit ==> {
            &&& self.lock->0.lock_votes.round == self.lock->0.lock_round
            &&& self.lock->0.lock_round <= self.stage.round
            &&& self.block is Some
            &&& self.block->0.block_hash == self.lock->0.lock_votes.block_hash
        }
        &&& self.stage.step == Step::PreCommit ==> self.lock is Some && self.lock->0.lock_round
            == self.stage.round
    }

    /// The block that the replica pre-votes for, if it votes.
    pub open spec fn vote_hash(self) -> Option<Seq<u8>> {
        match self.block {
            Some(b) => Some(b.block_hash),
            None => None,
        }
    }
}

impl Input {
    /// The input is as the replica's surroundings hand it in: the lock of a
    /// proposal is a certificate of an earlier round for the proposed block,
    /// and the block that comes with a certificate is the certificate's block.
    pub open spec fn fits(self) -> bool {
        match self {
            Input::Proposal { height, round, block, lock } => lock is Some ==> {
                &&& lock->0.lock_votes.block_hash == block.block_hash
                &&& lock->0.lock_votes.round == lock->0.lock_round
                &&& lock->0.lock_round < round
            },
            Input::PreVoteQC { qc, block } => block.block_hash == qc.block_hash,
            _ => true,
        }
    }

    /// The pre-vote quorum certificate that the input carries, if any.
    pub open spec fn certificate(self) -> Option<PoLCView> {
        match self {
            Input::Proposal { height, round, block, lock } => lock,
            Input::PreVoteQC { qc, block } => Some(PoLCView { lock_round: qc.round, lock_votes: qc }),
            _ => None,
        }
    }
}

/// The rules of a correct replica, one input. A replica whose state is
/// consistent stays so. Until it commits, it votes for the locked block
/// where it is locked. Its lock changes only to the pre-vote quorum
/// certificate that the input carries, and only to one of the same or a
/// later round; so a replica that was locked on a block votes for another
/// block only after it has seen a pre-vote quorum certificate for that
/// other block, of the round of its lock at the earliest.
pub proof fn lemma_rules_of_a_correct_replica(s: StateView, input: Input)
    requires
        s.consistent(),
        input.fits(),
    ensures
        s.after(input).consistent(),
        s.after(input).lock is Some && s.after(input).stage.step != Step::Commit ==> s.after(
            input,
        ).vote_hash() == Some(s.after(input).lock->0.lock_votes.block_hash),
        s.after(input).lock == s.lock || s.after(input).lock == input.certificate(),
        s.lock is Some && s.after(input).stage.step != Step::Commit && s.after(input).vote_hash()
            != s.vote_hash() ==> {
            &&& input.certificate() is Some
            &&& s.after(input).lock == input.certificate()
            &&& input.certificate()->0.lock_round >= s.lock->0.lock_round
            &&& s.after(input).vote_hash() == Some(input.certificate()->0.lock_votes.block_hash)
        },
{
}

/// The commit step ends a height: a replica that has committed takes
/// nothing in any more at that height, whatever arrives.
pub proof fn lemma_commit_is_final(s: StateView, input: Input)
    requires
        s.stage.step == Step::Commit,
    ensures
        s.after(input) == s,
{
}

/// Lock monotonicity. Whatever a replica receives within a height, in
/// whatever order, its lock round never decreases and its lock is never
/// cleared; only leaving the height clears it.
pub proof fn lemma_lock_monotonic_within_height(s: StateView, inputs: Seq<Input>)
    ensures
        s.after_all(inputs).keeps_lock_of(s),
        s.after_all(inputs).stage.height == s.stage.height,
        s.next_height().lock is None,
    decreases inputs.len(),
{
    if inputs.len() > 0 {
        lemma_lock_monotonic_within_height(s, inputs.drop_last());
        lemma_lock_monotonic(s.after_all(inputs.drop_last()), inputs.last());
    }
}

/// Where a replica stands.
#[derive(Debug, PartialEq, Eq)]
pub struct StateInfo {
    /// Height, round and step.
    pub stage: Stage,
    /// The lock: the latest pre-vote quorum certificate taken in at this height.
    pub lock: Option<PoLC>,
    /// The proof of the commit, once the replica has reached the commit step.
    pub pre_commit_qc: Option<AggregatedVote>,
    /// The block the replica votes for.
    pub block: Option<BlockInfo>,
    /// The strongest certificate the replica has taken in.
    pub from: Option<UpdateFrom>,
}

/// The view of an optional block.
pub open spec fn opt_block_view(o: Option<BlockInfo>) -> Option<BlockInfoView> {
    match o {
        Some(b) => Some(b@),
        None => None,
    }
}

/// The view of an optional piece of evidence.
pub open spec fn opt_from_view(o: Option<UpdateFrom>) -> Option<UpdateFromView> {
    match o {
        Some(b) => Some(b@),
        None => None,
    }
}

impl View for StateInfo {
    type V = StateView;

    open spec fn view(&self) -> StateView {
        StateView {
            stage: self.stage,
            lock: opt_polc_view(self.lock),
            pre_commit_qc: opt_qc_view(self.pre_commit_qc),
            block: opt_block_view(self.block),
            from: opt_from_view(self.from),
        }
    }
}

impl Clone for StateInfo {
    fn clone(&self) -> (r: Self)
        ensures
            r@ == self@,
    {
        StateInfo {
            stage: self.stage,
            lock: crate::types::opt_polc_clone(&self.lock),
            pre_commit_qc: crate::types::opt_qc_clone(&self.pre_commit_qc),
            block: match &self.block {
                Some(b) => Some(b.clone()),
                None => None,
            },
            from: match &self.from {
                Some(f) => Some(f.clone()),
                None => None,
            },
        }
    }
}

impl StateInfo {
    /// The state of a replica that begins a height with nothing in hand.
    pub fn from_height(height: u64) -> (r: Self)
        ensures
            r@ == StateView::start_of(height, None),
    {
        StateInfo {
            stage: Stage { height, round: INIT_ROUND, step: Step::Propose },
            lock: None,
            pre_commit_qc: None,
            block: None,
            from: None,
        }
    }

    /// The hash of the block this replica votes for, if it has one.
    pub fn vote_hash(&self) -> (r: Option<crate::types::Hash>)
        ensures
            crate::types::opt_bytes_view(r) == match self@.block {
                Some(b) => Some(b.block_hash),
                None => None,
            },
    {
        match &self.block {
            Some(b) => Some(bytes_clone(&b.block_hash)),
            None => None,
        }
    }

    /// The error of an input of another height.
    fn wrong_height(&self, height: u64) -> (r: OverlordError)
        requires
            height != self.stage.height,
        ensures
            r == wrong_height(height, self.stage.height),
    {
        if height < self.stage.height {
            OverlordError::debug_old()
        } else {
            OverlordError::debug_high()
        }
    }

    /// Takes in a proposal: see [`StateView::proposal`].
    pub fn handle_signed_proposal(
        &mut self,
        height: u64,
        round: u64,
        block: &BlockInfo,
        lock: &Option<PoLC>,
    ) -> (r: Result<(), OverlordError>)
        ensures
            final(self)@ == old(self)@.proposal(height, round, block@, opt_polc_view(*lock)).state,
            r == old(self)@.proposal(height, round, block@, opt_polc_view(*lock)).result,
    {
        let next = Stage { height, round, step: Step::PreVote };
        if height != self.stage.height {
            return Err(self.wrong_height(height));
        }
        if !self.stage.is_before(&next) || self.stage.step == Step::Commit {
            return Err(OverlordError::debug_old());
        }
        let adopt: bool = match (&self.lock, lock) {
            (None, _) => true,
            (Some(_), None) => false,
            (Some(mine), Some(theirs)) => {
                if theirs.lock_round > mine.lock_round {
                    true
                } else if theirs.lock_round < mine.lock_round {
                    return Err(OverlordError::debug(ErrorInfo::Locked));
                } else if !bytes_eq(&theirs.lock_votes.block_hash, &mine.lock_votes.block_hash) {
                    return Err(OverlordError::byzantine(ErrorInfo::Fork));
                } else {
                    false
                }
            },
        };
        if adopt {
            self.lock = crate::types::opt_polc_clone(lock);
            self.block = Some(block.clone());
        }
        self.stage = next;
        Ok(())
    }

    /// Takes in a pre-vote quorum certificate whose block is at hand: see
    /// [`StateView::pre_vote_qc`].
    pub fn handle_pre_vote_qc(&mut self, qc: &AggregatedVote, block: BlockInfo) -> (r: Result<
        (),
        OverlordError,
    >)
        ensures
            final(self)@ == old(self)@.pre_vote_qc(qc@, block@).state,
            r == old(self)@.pre_vote_qc(qc@, block@).result,
    {
        let next = Stage { height: qc.height, round: qc.round, step: Step::PreCommit };
        if qc.height != self.stage.height {
            return Err(self.wrong_height(qc.height));
        }
        if !self.stage.is_before(&next) || self.stage.step == Step::Commit {
            return Err(OverlordError::debug_old());
        }
        match &self.lock {
            Some(mine) => {
                if mine.lock_round > qc.round {
                    return Err(OverlordError::debug(ErrorInfo::Locked));
                }
            },
            None => {},
        }
        self.lock = Some(PoLC { lock_round: qc.round, lock_votes: qc.clone() });
        self.block = Some(block);
        self.from = Some(UpdateFrom::PreVoteQC(qc.clone()));
        self.stage = next;
        Ok(())
    }

    /// Takes in a pre-commit quorum certificate whose block is at hand: see
    /// [`StateView::pre_commit_qc`].
    pub fn handle_pre_commit_qc(&mut self, qc: &AggregatedVote, block: BlockInfo) -> (r: Result<
        (),
        OverlordError,
    >)
        ensures
            final(self)@ == old(self)@.pre_commit_qc(qc@, block@).state,
            r == old(self)@.pre_commit_qc(qc@, block@).result,
    {
        let next = Stage { height: qc.height, round: qc.round, step: Step::Commit };
        if qc.height != self.stage.height {
            return Err(self.wrong_height(qc.height));
        }
        if !self.stage.is_before(&next) || self.stage.step == Step::Commit {
            return Err(OverlordError::debug_old());
        }
        self.pre_commit_qc = Some(qc.clone());
        self.block = Some(block);
        self.from = Some(UpdateFrom::PreCommitQC(qc.clone()));
        self.stage = next;
        Ok(())
    }

    /// Takes in a quorum of chokes: see [`StateView::choke_qc`].
    pub fn handle_choke_qc(&mut self, qc: &ChokeQC) -> (r: Result<(), OverlordError>)
        ensures
            final(self)@ == old(self)@.choke_qc(qc@).state,
            r == old(self)@.choke_qc(qc@).result,
    {
        if qc.choke.height != self.stage.height {
            return Err(self.wrong_height(qc.choke.height));
        }
        if qc.choke.round < self.stage.round || self.stage.step == Step::Commit || qc.choke.round
            == u64::MAX {
            return Err(OverlordError::debug_old());
        }
        self.stage = Stage {
            height: self.stage.height,
            round: qc.choke.round + 1,
            step: Step::Propose,
        };
        self.from = Some(UpdateFrom::ChokeQC(qc.clone()));
        Ok(())
    }

    /// Takes in a timeout: see [`StateView::timeout`].
    pub fn handle_timeout(&mut self, stage: &Stage) -> (r: Result<(), OverlordError>)
        ensures
            final(self)@ == old(self)@.timeout(*stage).state,
            r == old(self)@.timeout(*stage).result,
    {
        if *stage != self.stage || stage.step == Step::Commit {
            return Err(OverlordError::debug(ErrorInfo::WrongStage));
        }
        self.stage = Stage { height: self.stage.height, round: self.stage.round, step: Step::Brake };
        Ok(())
    }

    /// Leaves the height: the replica begins the next one without lock,
    /// block and proof.
    pub fn next_height(&mut self)
        requires
            old(self).stage.height < u64::MAX,
        ensures
            final(self)@ == old(self)@.next_height(),
    {
        self.stage = Stage { height: self.stage.height + 1, round: INIT_ROUND, step: Step::Propose };
        self.lock = None;
        self.pre_commit_qc = None;
        self.block = None;
    }
}

} // verus!
