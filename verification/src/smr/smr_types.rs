//! Steps, triggers and events of the round state machine.

use vstd::prelude::*;

use crate::types::{bytes_clone, opt_bytes_clone, opt_bytes_view};
use crate::wal::wal_type::{SMRBase, SMRBaseView};

verus! {

/// The steps of one round. A fresh machine rests in `Commit`, because it needs
/// a new-height trigger before it can start proposing.
#[derive(Clone, Copy, Debug, PartialEq, Eq, Structural, PartialOrd, Ord)]
pub enum Step {
    /// The leader proposes a block; everybody else waits for the proposal.
    Propose,
    /// Pre-votes are collected into a pre-vote quorum certificate.
    Prevote,
    /// Pre-commits are collected into a pre-commit quorum certificate.
    Precommit,
    /// The block of this height is being committed.
    Commit,
}

impl Step {
    /// The position of the step within a round, `Propose` being 0.
    pub open spec fn rank(self) -> nat {
        match self {
            Step::Propose => 0,
            Step::Prevote => 1,
            Step::Precommit => 2,
            Step::Commit => 3,
        }
    }

    /// The step at a position; positions above 3 have no step.
    pub open spec fn of_rank(s: nat) -> Option<Step> {
        if s == 0 {
            Some(Step::Propose)
        } else if s == 1 {
            Some(Step::Prevote)
        } else if s == 2 {
            Some(Step::Precommit)
        } else if s == 3 {
            Some(Step::Commit)
        } else {
            None
        }
    }

    /// The position of the step as a byte.
    pub fn to_u8(self) -> (r: u8)
        ensures
            r == self.rank(),
    {
        match self {
            Step::Propose => 0,
            Step::Prevote => 1,
            Step::Precommit => 2,
            Step::Commit => 3,
        }
    }

    /// The step at position `s`.
    pub fn from(s: u8) -> (r: Step)
        requires
            s <= 3,
        ensures
            Step::of_rank(s as nat) == Some(r),
            r.rank() == s,
    {
        if s == 0 {
            Step::Propose
        } else if s == 1 {
            Step::Prevote
        } else if s == 2 {
            Step::Precommit
        } else {
            Step::Commit
        }
    }

    /// The step at position `s`, if there is one.
    pub fn try_from_u8(s: u8) -> (r: Option<Step>)
        ensures
            r == Step::of_rank(s as nat),
    {
        if s <= 3 {
            Some(Step::from(s))
        } else {
            None
        }
    }

    /// `self` comes strictly before `other` within a round.
    pub fn before(self, other: Step) -> (r: bool)
        ensures
            r == (self.rank() < other.rank()),
    {
        self.to_u8() < other.to_u8()
    }

    /// `self` comes strictly after `other` within a round.
    pub fn after(self, other: Step) -> (r: bool)
        ensures
            r == (self.rank() > other.rank()),
    {
        self.to_u8() > other.to_u8()
    }
}

impl Default for Step {
    fn default() -> (r: Step)
        ensures
            r == Step::Commit,
    {
        Step::Commit
    }
}

impl From<Step> for u8 {
    fn from(s: Step) -> (r: u8)
        ensures
            r == s.rank(),
    {
        s.to_u8()
    }
}

impl vstd::std_specs::convert::FromSpecImpl<Step> for u8 {
    open spec fn obeys_from_spec() -> bool {
        true
    }

    open spec fn from_spec(s: Step) -> u8 {
        s.rank() as u8
    }
}

/// Where a trigger comes from.
#[derive(Clone, Copy, Debug, PartialEq, Eq, Structural)]
pub enum TriggerSource {
    /// The state module, on a message from the network.
    State,
    /// The timer, on a timeout.
    Timer,
}

/// What a trigger announces.
#[derive(Clone, Copy, Debug, PartialEq, Eq, Structural)]
pub enum TriggerType {
    /// A proposal was received (or the proposal timer fired).
    Proposal,
    /// A pre-vote quorum certificate was received (or the pre-vote timer fired).
    PrevoteQC,
    /// A pre-commit quorum certificate was received (or the pre-commit timer fired).
    PrecommitQC,
    /// A new height starts.
    NewEpoch(u64),
    /// A record recovered from the write-ahead log.
    WalInfo,
}

impl TriggerType {
    /// The three vote-carrying kinds have a one-byte code.
    pub open spec fn has_code(self) -> bool {
        self is Proposal || self is PrevoteQC || self is PrecommitQC
    }

    /// The code of a vote-carrying kind.
    pub open spec fn code(self) -> nat {
        match self {
            TriggerType::Proposal => 0,
            TriggerType::PrevoteQC => 1,
            TriggerType::PrecommitQC => 2,
            _ => 3,
        }
    }

    /// The kind with a given code; only 0, 1 and 2 are codes.
    pub open spec fn of_code(s: nat) -> Option<TriggerType> {
        if s == 0 {
            Some(TriggerType::Proposal)
        } else if s == 1 {
            Some(TriggerType::PrevoteQC)
        } else if s == 2 {
            Some(TriggerType::PrecommitQC)
        } else {
            None
        }
    }

    /// The code of a vote-carrying kind as a byte.
    pub fn to_u8(self) -> (r: u8)
        requires
            self.has_code(),
        ensures
            r == self.code(),
            TriggerType::of_code(r as nat) == Some(self),
    {
        match self {
            TriggerType::Proposal => 0,
            TriggerType::PrevoteQC => 1,
            _ => 2,
        }
    }

    /// The kind with code `s`.
    pub fn from(s: u8) -> (r: TriggerType)
        requires
            s <= 2,
        ensures
            TriggerType::of_code(s as nat) == Some(r),
            r.has_code(),
            r.code() == s,
    {
        if s == 0 {
            TriggerType::Proposal
        } else if s == 1 {
            TriggerType::PrevoteQC
        } else {
            TriggerType::PrecommitQC
        }
    }

    /// The kind with code `s`, if `s` is a code.
    pub fn try_from_u8(s: u8) -> (r: Option<TriggerType>)
        ensures
            r == TriggerType::of_code(s as nat),
    {
        if s <= 2 {
            Some(TriggerType::from(s))
        } else {
            None
        }
    }
}

/// The lock a replica holds on a block: the round in which the block gathered
/// a pre-vote quorum, and the block's hash.
#[derive(Debug, PartialEq, Eq)]
pub struct Lock {
    /// Lock round.
    pub round: u64,
    /// Lock hash.
    pub hash: crate::types::Hash,
}

/// Mathematical value of a [`Lock`].
pub struct LockView {
    pub round: u64,
    pub hash: Seq<u8>,
}

impl View for Lock {
    type V = LockView;

    open spec fn view(&self) -> LockView {
        LockView { round: self.round, hash: self.hash@ }
    }
}

impl Clone for Lock {
    fn clone(&self) -> (r: Self)
        ensures
            r@ == self@,
    {
        Lock { round: self.round, hash: bytes_clone(&self.hash) }
    }
}

/// The view of an optional lock.
pub open spec fn opt_lock_view(o: Option<Lock>) -> Option<LockView> {
    match o {
        Some(l) => Some(l@),
        None => None,
    }
}

/// A fresh copy of an optional lock.
pub fn opt_lock_clone(o: &Option<Lock>) -> (r: Option<Lock>)
    ensures
        opt_lock_view(r) == opt_lock_view(*o),
{
    match o {
        Some(l) => Some(l.clone()),
        None => None,
    }
}

/// What the state machine asks its surroundings to do. The `height` field is
/// for the timer only, which uses it to drop outdated timeouts.
#[derive(Debug, PartialEq, Eq)]
pub enum SMREvent {
    /// A round starts: update the round and set a propose timer.
    NewRoundInfo { height: u64, round: u64, lock_round: Option<u64>, lock_proposal: Option<crate::types::Hash> },
    /// Cast a pre-vote for `block_hash` and set a pre-vote timer.
    PrevoteVote { height: u64, round: u64, block_hash: crate::types::Hash, lock_round: Option<u64> },
    /// Cast a pre-commit for `block_hash` and set a pre-commit timer.
    PrecommitVote { height: u64, round: u64, block_hash: crate::types::Hash, lock_round: Option<u64> },
    /// Commit the block with this hash.
    Commit(crate::types::Hash),
    /// Stop processing.
    Stop,
}

/// Mathematical value of an [`SMREvent`].
pub enum SMREventView {
    NewRoundInfo {
        height: u64,
        round: u64,
        lock_round: Option<u64>,
        lock_proposal: Option<Seq<u8>>,
    },
    PrevoteVote { height: u64, round: u64, block_hash: Seq<u8>, lock_round: Option<u64> },
    PrecommitVote { height: u64, round: u64, block_hash: Seq<u8>, lock_round: Option<u64> },
    Commit(Seq<u8>),
    Stop,
}

impl View for SMREvent {
    type V = SMREventView;

    open spec fn view(&self) -> SMREventView {
        match *self {
            SMREvent::NewRoundInfo { height, round, lock_round, lock_proposal } => {
                SMREventView::NewRoundInfo {
                    height,
                    round,
                    lock_round,
                    lock_proposal: opt_bytes_view(lock_proposal),
                }
            },
            SMREvent::PrevoteVote { height, round, block_hash, lock_round } => {
                SMREventView::PrevoteVote { height, round, block_hash: block_hash@, lock_round }
            },
            SMREvent::PrecommitVote { height, round, block_hash, lock_round } => {
                SMREventView::PrecommitVote { height, round, block_hash: block_hash@, lock_round }
            },
            SMREvent::Commit(hash) => SMREventView::Commit(hash@),
            SMREvent::Stop => SMREventView::Stop,
        }
    }
}

impl Clone for SMREvent {
    fn clone(&self) -> (r: Self)
        ensures
            r@ == self@,
    {
        match self {
            SMREvent::NewRoundInfo { height, round, lock_round, lock_proposal } => {
                SMREvent::NewRoundInfo {
                    height: *height,
                    round: *round,
                    lock_round: *lock_round,
                    lock_proposal: opt_bytes_clone(lock_proposal),
                }
            },
            SMREvent::PrevoteVote { height, round, block_hash, lock_round } => {
                SMREvent::PrevoteVote {
                    height: *height,
                    round: *round,
                    block_hash: bytes_clone(block_hash),
                    lock_round: *lock_round,
                }
            },
            SMREvent::PrecommitVote { height, round, block_hash, lock_round } => {
                SMREvent::PrecommitVote {
                    height: *height,
                    round: *round,
                    block_hash: bytes_clone(block_hash),
                    lock_round: *lock_round,
                }
            },
            SMREvent::Commit(hash) => SMREvent::Commit(bytes_clone(hash)),
            SMREvent::Stop => SMREvent::Stop,
        }
    }
}

/// An input of the state machine. What `hash` and `round` mean depends on the kind:
///
/// * `Proposal`: the hash of the proposed block, and the lock round the
///   proposal carries, if any;
/// * `PrevoteQC`, `PrecommitQC`: the hash and the round of the certificate
///   (the round must be present);
/// * `NewEpoch`: an empty hash and no round;
/// * `WalInfo`: an empty hash and no round; `wal_info` holds the record.
///
/// `height` is the height at which the sender was when it made the trigger.
#[derive(Debug, PartialEq, Eq)]
pub struct SMRTrigger {
    /// SMR trigger type.
    pub trigger_type: TriggerType,
    /// SMR trigger source.
    pub source: TriggerSource,
    /// SMR trigger hash, the meaning shown above.
    pub hash: crate::types::Hash,
    /// SMR trigger round, the meaning shown above.
    pub round: Option<u64>,
    /// The height of the sender, by which outdated triggers are dropped.
    pub height: u64,
    /// The recovered record of a `WalInfo` trigger.
    pub wal_info: Option<SMRBase>,
}

/// Mathematical value of an [`SMRTrigger`].
pub struct SMRTriggerView {
    pub trigger_type: TriggerType,
    pub source: TriggerSource,
    pub hash: Seq<u8>,
    pub round: Option<u64>,
    pub height: u64,
    pub wal_info: Option<SMRBaseView>,
}

impl View for SMRTrigger {
    type V = SMRTriggerView;

    open spec fn view(&self) -> SMRTriggerView {
        SMRTriggerView {
            trigger_type: self.trigger_type,
            source: self.source,
            hash: self.hash@,
            round: self.round,
            height: self.height,
            wal_info: match self.wal_info {
                Some(b) => Some(b@),
                None => None,
            },
        }
    }
}

impl Clone for SMRTrigger {
    fn clone(&self) -> (r: Self)
        ensures
            r@ == self@,
    {
        SMRTrigger {
            trigger_type: self.trigger_type,
            source: self.source,
            hash: bytes_clone(&self.hash),
            round: self.round,
            height: self.height,
            wal_info: match &self.wal_info {
                Some(b) => Some(b.clone()),
                None => None,
            },
        }
    }
}

} // verus!
