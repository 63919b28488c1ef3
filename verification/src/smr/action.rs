//! The effects a replica asks for.

use vstd::prelude::*;

use crate::agent::TimeoutInfo;
use crate::cabinet::{
    choke_views, vote_views, Capsule, CapsuleView, FetchedFullBlock, FetchedFullBlockView,
};
use crate::error::OverlordError;
use crate::state::{StateInfo, StateView};
use crate::types::{
    Address, AggregatedVote, AggregatedVoteView, BlockInfo, BlockInfoView, Choke, PoLC, PoLCView,
    SignedChoke, SignedChokeView, SignedVote, SignedVoteView, UpdateFrom, UpdateFromView, Vote,
    VoteView,
};

verus! {

/// One effect. Whoever runs the replica performs the effects of a turn in
/// the order in which the turn lists them.
#[derive(Debug, PartialEq, Eq)]
pub enum Action<T> {
    /// Fetch the full content of a block, and hand in what comes of it.
    FetchFullBlock { height: u64, block_hash: crate::types::Hash },
    /// Arm a timer.
    SetTimeout(TimeoutInfo),
    /// Write the state to the write-ahead log, before anything that follows.
    SaveWal(StateInfo),
    /// Write the content of a block to the write-ahead log.
    SaveFullBlock(FetchedFullBlock),
    /// Sign the vote and send it to `to`.
    TransmitVote { to: Address, vote: Vote },
    /// Sign the choke, together with the evidence, and send it to everybody.
    BroadcastChoke { choke: Choke, from: Option<UpdateFrom> },
    /// Aggregate the signatures of the votes into a quorum certificate with
    /// the given bitmap, send it to everybody, and hand it in.
    AggregateVotes { vote: Vote, votes: Vec<SignedVote>, bitmap: Vec<u8> },
    /// Aggregate the signatures of the chokes into a quorum certificate with
    /// the given bitmap, send it to everybody, and hand it in.
    AggregateChokes { choke: Choke, chokes: Vec<SignedChoke>, bitmap: Vec<u8> },
    /// Hand the message in as if it had just arrived.
    Feed(Capsule<T>),
    /// Save the committed block with its proof, and execute it.
    ExecBlock { height: u64, full_block: FetchedFullBlock, proof: AggregatedVote },
    /// Make a new block on top of the last committed one, then sign a
    /// proposal for it and send it to everybody.
    CreateBlock {
        height: u64,
        round: u64,
        exec_height: u64,
        pre_hash: crate::types::Hash,
        pre_proof: AggregatedVote,
    },
    /// Sign a proposal for the locked block and send it to everybody.
    ProposeLocked { height: u64, round: u64, block: BlockInfo, lock: PoLC },
}

/// Mathematical value of an [`Action`].
pub enum ActionView<T> {
    FetchFullBlock { height: u64, block_hash: Seq<u8> },
    SetTimeout(TimeoutInfo),
    SaveWal(StateView),
    SaveFullBlock(FetchedFullBlockView),
    TransmitVote { to: Seq<u8>, vote: VoteView },
    BroadcastChoke { choke: Choke, from: Option<UpdateFromView> },
    AggregateVotes { vote: VoteView, votes: Seq<SignedVoteView>, bitmap: Seq<u8> },
    AggregateChokes { choke: Choke, chokes: Seq<SignedChokeView>, bitmap: Seq<u8> },
    Feed(CapsuleView<T>),
    ExecBlock { height: u64, full_block: FetchedFullBlockView, proof: AggregatedVoteView },
    CreateBlock {
        height: u64,
        round: u64,
        exec_height: u64,
        pre_hash: Seq<u8>,
        pre_proof: AggregatedVoteView,
    },
    ProposeLocked { height: u64, round: u64, block: BlockInfoView, lock: PoLCView },
}

impl<T> View for Action<T> {
    type V = ActionView<T>;

    open spec fn view(&self) -> ActionView<T> {
        match *self {
            Action::FetchFullBlock { height, block_hash } => ActionView::FetchFullBlock {
                height,
                block_hash: block_hash@,
            },
            Action::SetTimeout(info) => ActionView::SetTimeout(info),
            Action::SaveWal(state) => ActionView::SaveWal(state@),
            Action::SaveFullBlock(fetched) => ActionView::SaveFullBlock(fetched@),
            Action::TransmitVote { to, vote } => ActionView::TransmitVote { to: to@, vote: vote@ },
            Action::BroadcastChoke { choke, from } => ActionView::BroadcastChoke {
                choke,
                from: match from {
                    Some(f) => Some(f@),
                    None => None,
                },
            },
            Action::AggregateVotes { vote, votes, bitmap } => ActionView::AggregateVotes {
                vote: vote@,
                votes: vote_views(votes@),
                bitmap: bitmap@,
            },
            Action::AggregateChokes { choke, chokes, bitmap } => ActionView::AggregateChokes {
                choke,
                chokes: choke_views(chokes@),
                bitmap: bitmap@,
            },
            Action::Feed(capsule) => ActionView::Feed(capsule@),
            Action::ExecBlock { height, full_block, proof } => ActionView::ExecBlock {
                height,
                full_block: full_block@,
                proof: proof@,
            },
            Action::CreateBlock { height, round, exec_height, pre_hash, pre_proof } => {
                ActionView::CreateBlock {
                    height,
                    round,
                    exec_height,
                    pre_hash: pre_hash@,
                    pre_proof: pre_proof@,
                }
            },
            Action::ProposeLocked { height, round, block, lock } => ActionView::ProposeLocked {
                height,
                round,
                block: block@,
                lock: lock@,
            },
        }
    }
}

/// The values of a list of actions.
pub open spec fn action_views<T>(s: Seq<Action<T>>) -> Seq<ActionView<T>> {
    Seq::new(s.len(), |i: int| s[i]@)
}

/// What a replica answers to an input: the effects it asks for, and
/// whether the input was taken in or why it was not. Effects are to be
/// performed also where the input was refused in the end.
#[derive(Debug)]
pub struct Outcome<T> {
    pub actions: Vec<Action<T>>,
    pub result: Result<(), OverlordError>,
}

impl<T> Outcome<T> {
    /// An outcome without effects so far.
    pub fn new() -> (r: Self)
        ensures
            action_views(r.actions@) == Seq::<ActionView<T>>::empty(),
            r.result == Ok::<(), OverlordError>(()),
    {
        let r = Outcome { actions: Vec::new(), result: Ok(()) };
        proof {
            assert(action_views(r.actions@) =~= Seq::<ActionView<T>>::empty());
        }
        r
    }

    /// Adds an effect.
    pub fn push(&mut self, action: Action<T>)
        ensures
            action_views(final(self).actions@) == action_views(old(self).actions@).push(action@),
            final(self).result == old(self).result,
    {
        self.actions.push(action);
        proof {
            assert(action_views(self.actions@) =~= action_views(old(self).actions@).push(
                action@,
            ));
        }
    }

    /// Ends the turn with a refusal.
    pub fn fail(self, e: OverlordError) -> (r: Self)
        ensures
            r.actions == self.actions,
            r.result == Err::<(), OverlordError>(e),
    {
        Outcome { actions: self.actions, result: Err(e) }
    }
}

} // verus!
