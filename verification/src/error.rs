//! Errors reported by the consensus core.

use vstd::prelude::*;

verus! {

/// Why the trigger-driven state machine or the vote bookkeeping refused an input.
#[derive(Clone, Copy, Debug, PartialEq, Eq, Structural)]
pub enum ConsensusError {
    /// A new-height trigger did not come from the state module.
    StatusSource,
    /// A new-height trigger names a height that is not above the current one.
    DelayedStatus,
    /// A proposal trigger from the state module carries an empty hash.
    EmptyProposal,
    /// Two different blocks are justified at the same lock round.
    Fork,
    /// A quorum-certificate trigger carries no round.
    NoVoteRound,
    /// A pre-vote certificate trigger from the state module carries an empty hash.
    EmptyPrevoteQC,
    /// A pre-commit certificate trigger from the state module carries an empty hash.
    EmptyPrecommitQC,
    /// Self check: at height zero the lock names another block than the proposal.
    LockMismatch,
    /// Self check: a lock exists before the pre-commit step of round zero.
    InvalidLock { height: u64, round: u64 },
    /// Self check: in the pre-commit step exactly one of lock and proposal is missing.
    InvalidPrecommitStatus { height: u64, round: u64 },
    /// The lock round and the locked block of a new round are not both present or both absent.
    InconsistentLock,
    /// No quorum certificate is stored for the round of a lock.
    NoQC,
    /// The block of a hash is not at hand.
    LoseBlock,
    /// The pre-commit quorum certificate of the block to commit is not stored.
    LosePrecommitQC,
    /// A quorum certificate or a tally names no block.
    EmptyQC,
    /// The sender is not a validator of the height in question.
    InvalidAddress,
    /// The proposer does not lead the round of its proposal.
    InvalidProposer,
    /// The signature of a proposal does not verify.
    ProposalSignature,
    /// The signature of a vote does not verify.
    VoteSignature,
    /// The voters of a quorum certificate hold no quorum, or its bitmap does
    /// not fit the validators.
    BelowThreshold,
    /// The aggregated signature of a quorum certificate does not verify.
    AggregatedSignature,
    /// A recovered record stands in the commit step without a lock.
    NoLockInCommit,
    /// The status of a new height names height zero.
    NoPreviousHeight,
    /// The validator list of a status cannot serve as a validator set.
    InvalidAuthority,
}

/// How serious an error of the replica is, and what follows from it.
#[derive(Clone, Copy, Debug, PartialEq, Eq, Structural)]
pub enum ErrorKind {
    /// Old, far-future or duplicate input: silently discarded.
    Debug,
    /// Recovered locally; worth a log line.
    Warn,
    /// A failure of the network layer; the message is dropped.
    Net,
    /// Evidence of a faulty or malicious sender; the message is dropped.
    Byzantine,
    /// A failure of this replica's own surroundings or configuration.
    Local,
}

/// What exactly went wrong.
#[derive(Clone, Copy, Debug, PartialEq, Eq, Structural)]
pub enum ErrorInfo {
    /// The message belongs to a height or round that has passed.
    Old,
    /// The message belongs to a later height; it has been stored for later.
    High,
    /// The message is too far ahead of this replica to be stored.
    MuchHigh,
    /// The message repeats one that has been taken in already.
    Duplicate,
    /// The stage named by the input is not the stage the replica stands in.
    WrongStage,
    /// The block of a proposal contradicts the proposal, or does not build
    /// on the last committed block.
    Block,
    /// The block was built on an execution height this replica has not reached.
    BlockAhead,
    /// The application refused the block.
    CheckBlock,
    /// The signer is not a validator of the height in question.
    UnauthorizedSigner,
    /// The signature does not verify.
    Signature,
    /// The voter bitmap does not fit the validator set.
    Bitmap,
    /// The voters of a certificate do not hold more than two thirds of the weight.
    UnderMajority,
    /// A certificate names another height, round or block than its carrier.
    Certificate,
    /// The proposal is not made by the leader of its round.
    NotLeader,
    /// This replica is not a validator of the current height.
    NotValidator,
    /// The replica holds a lock of a later round than the input's.
    Locked,
    /// Two different blocks are justified by quorums of the same round.
    Fork,
    /// No validator set is known for the height of the message.
    UnknownHeight,
    /// A validator address occurs twice in a validator list.
    DuplicateValidator,
    /// The validator list carries no voting weight at all.
    NoWeight,
    /// The voting weights of a validator list do not fit into 64 bits.
    WeightOverflow,
    /// Something the replica relies on is missing from its own store.
    Missing,
    /// The full content of a block could not be fetched.
    Fetch,
    /// The application could not make a block.
    CreateBlock,
    /// A counter of the replica has reached the end of its range.
    Exhausted,
}

/// An error of the replica: its class and its cause.
#[derive(Clone, Copy, Debug, PartialEq, Eq, Structural)]
pub struct OverlordError {
    pub kind: ErrorKind,
    pub info: ErrorInfo,
}

impl OverlordError {
    /// The error of class `Byzantine` with the given cause.
    pub open spec fn byzantine_spec(info: ErrorInfo) -> Self {
        OverlordError { kind: ErrorKind::Byzantine, info }
    }

    /// The error of class `Local` with the given cause.
    pub open spec fn local_spec(info: ErrorInfo) -> Self {
        OverlordError { kind: ErrorKind::Local, info }
    }

    /// The error of class `Debug` with the given cause.
    pub open spec fn debug_spec(info: ErrorInfo) -> Self {
        OverlordError { kind: ErrorKind::Debug, info }
    }

    /// A message of the past.
    pub fn debug_old() -> (r: Self)
        ensures
            r == (OverlordError { kind: ErrorKind::Debug, info: ErrorInfo::Old }),
    {
        OverlordError { kind: ErrorKind::Debug, info: ErrorInfo::Old }
    }

    /// A message of a later height, stored for later.
    pub fn debug_high() -> (r: Self)
        ensures
            r == (OverlordError { kind: ErrorKind::Debug, info: ErrorInfo::High }),
    {
        OverlordError { kind: ErrorKind::Debug, info: ErrorInfo::High }
    }

    /// A message too far ahead to be stored.
    pub fn net_much_high() -> (r: Self)
        ensures
            r == (OverlordError { kind: ErrorKind::Net, info: ErrorInfo::MuchHigh }),
    {
        OverlordError { kind: ErrorKind::Net, info: ErrorInfo::MuchHigh }
    }

    /// A proposal whose block contradicts it.
    pub fn byz_block() -> (r: Self)
        ensures
            r == (OverlordError { kind: ErrorKind::Byzantine, info: ErrorInfo::Block }),
    {
        OverlordError { kind: ErrorKind::Byzantine, info: ErrorInfo::Block }
    }

    /// A block that is ahead of this replica's execution.
    pub fn warn_block() -> (r: Self)
        ensures
            r == (OverlordError { kind: ErrorKind::Warn, info: ErrorInfo::BlockAhead }),
    {
        OverlordError { kind: ErrorKind::Warn, info: ErrorInfo::BlockAhead }
    }

    /// A fault of the sender.
    pub fn byzantine(info: ErrorInfo) -> (r: Self)
        ensures
            r == (OverlordError { kind: ErrorKind::Byzantine, info }),
    {
        OverlordError { kind: ErrorKind::Byzantine, info }
    }

    /// A fault of this replica's own surroundings.
    pub fn local(info: ErrorInfo) -> (r: Self)
        ensures
            r == (OverlordError { kind: ErrorKind::Local, info }),
    {
        OverlordError { kind: ErrorKind::Local, info }
    }

    /// The application could not make a block.
    pub fn local_create_block() -> (r: Self)
        ensures
            r == (OverlordError { kind: ErrorKind::Local, info: ErrorInfo::CreateBlock }),
    {
        OverlordError { kind: ErrorKind::Local, info: ErrorInfo::CreateBlock }
    }

    /// The content of a block could not be fetched.
    pub fn net_fetch() -> (r: Self)
        ensures
            r == (OverlordError { kind: ErrorKind::Net, info: ErrorInfo::Fetch }),
    {
        OverlordError { kind: ErrorKind::Net, info: ErrorInfo::Fetch }
    }

    /// An input that is discarded without further ado.
    pub fn debug(info: ErrorInfo) -> (r: Self)
        ensures
            r == (OverlordError { kind: ErrorKind::Debug, info }),
    {
        OverlordError { kind: ErrorKind::Debug, info }
    }
}

} // verus!
