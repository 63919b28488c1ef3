//! The effects the state module asks for.

use vstd::prelude::*;

use crate::cabinet::{vote_views, Capsule, CapsuleView};
use crate::error::ConsensusError;
use crate::smr::smr_types::{SMRTrigger, SMRTriggerView, Step};
use crate::state::process::{Proof, ProofView};
use crate::types::{
    opt_polc_view, Address, AggregatedVote, AggregatedVoteView, PoLC, PoLCView, SignedVote,
    SignedVoteView, VoteType,
};

verus! {

/// One effect. Whoever runs the state module performs the effects of a
/// reply in the order in which the reply lists them.
#[derive(Debug, PartialEq, Eq)]
pub enum Effect<T> {
    /// Hand the trigger to the state machine.
    Trigger(SMRTrigger),
    /// Write height, round, step and lock to the write-ahead log, together
    /// with the content of the locked block.
    SaveWal { height: u64, round: u64, step: Step, lock: Option<PoLC> },
    /// Ask the application for a new block of the height, and hand its hash in.
    GetBlock { height: u64 },
    /// Sign a proposal for the block and send it to everybody.
    BroadcastProposal {
        height: u64,
        round: u64,
        block_hash: crate::types::Hash,
        lock: Option<PoLC>,
    },
    /// Send the quorum certificate to everybody.
    BroadcastQC(AggregatedVote),
    /// Send the signed vote to the leader.
    TransmitVote { to: Address, vote: SignedVote },
    /// Send the quorum certificate of the last commit to a validator that lags behind.
    RetransmitQC { to: Address, qc: AggregatedVote },
    /// Ask the application to check the block, and hand its verdict in.
    CheckBlock { height: u64, block_hash: crate::types::Hash },
    /// Aggregate the signatures of the votes, and hand the aggregate in
    /// together with `lock_round`.
    GenerateQC {
        block_hash: crate::types::Hash,
        vote_type: VoteType,
        votes: Vec<SignedVote>,
        bitmap: Vec<u8>,
        lock_round: Option<Option<u64>>,
    },
    /// Commit the block with its proof, and hand the status in that the
    /// application answers with.
    Commit { height: u64, block_hash: crate::types::Hash, proof: Proof },
    /// Hand the message in again, with the verdicts that belong to it.
    Handle(Capsule<T>),
}

/// Mathematical value of an [`Effect`].
pub enum EffectView<T> {
    Trigger(SMRTriggerView),
    SaveWal { height: u64, round: u64, step: Step, lock: Option<PoLCView> },
    GetBlock { height: u64 },
    BroadcastProposal { height: u64, round: u64, block_hash: Seq<u8>, lock: Option<PoLCView> },
    BroadcastQC(AggregatedVoteView),
    TransmitVote { to: Seq<u8>, vote: SignedVoteView },
    RetransmitQC { to: Seq<u8>, qc: AggregatedVoteView },
    CheckBlock { height: u64, block_hash: Seq<u8> },
    GenerateQC {
        block_hash: Seq<u8>,
        vote_type: VoteType,
        votes: Seq<SignedVoteView>,
        bitmap: Seq<u8>,
        lock_round: Option<Option<u64>>,
    },
    Commit { height: u64, block_hash: Seq<u8>, proof: ProofView },
    Handle(CapsuleView<T>),
}

impl<T> View for Effect<T> {
    type V = EffectView<T>;

    open spec fn view(&self) -> EffectView<T> {
        match *self {
            Effect::Trigger(t) => EffectView::Trigger(t@),
            Effect::SaveWal { height, round, step, lock } => EffectView::SaveWal {
                height,
                round,
                step,
                lock: opt_polc_view(lock),
            },
            Effect::GetBlock { height } => EffectView::GetBlock { height },
            Effect::BroadcastProposal { height, round, block_hash, lock } => {
                EffectView::BroadcastProposal {
                    height,
                    round,
                    block_hash: block_hash@,
                    lock: opt_polc_view(lock),
                }
            },
            Effect::BroadcastQC(qc) => EffectView::BroadcastQC(qc@),
            Effect::TransmitVote { to, vote } => EffectView::TransmitVote { to: to@, vote: vote@ },
            Effect::RetransmitQC { to, qc } => EffectView::RetransmitQC { to: to@, qc: qc@ },
            Effect::CheckBlock { height, block_hash } => EffectView::CheckBlock {
                height,
                block_hash: block_hash@,
            },
            Effect::GenerateQC { block_hash, vote_type, votes, bitmap, lock_round } => {
                EffectView::GenerateQC {
                    block_hash: block_hash@,
                    vote_type,
                    votes: vote_views(votes@),
                    bitmap: bitmap@,
                    lock_round,
                }
            },
            Effect::Commit { height, block_hash, proof } => EffectView::Commit {
                height,
                block_hash: block_hash@,
                proof: proof@,
            },
            Effect::Handle(capsule) => EffectView::Handle(capsule@),
        }
    }
}

/// The values of a list of effects.
pub open spec fn effect_views<T>(s: Seq<Effect<T>>) -> Seq<EffectView<T>> {
    Seq::new(s.len(), |i: int| s[i]@)
}

/// What the state module answers to an input: the effects it asks for, and
/// whether the input was taken in or why it was not. Effects are to be
/// performed also where the input was refused in the end.
#[derive(Debug)]
pub struct Reply<T> {
    pub effects: Vec<Effect<T>>,
    pub result: Result<(), ConsensusError>,
}

impl<T> Reply<T> {
    /// A reply without effects so far.
    pub fn new() -> (r: Self)
        ensures
            effect_views(r.effects@) == Seq::<EffectView<T>>::empty(),
            r.result == Ok::<(), ConsensusError>(()),
    {
        let r = Reply { effects: Vec::new(), result: Ok(()) };
        proof {
            assert(effect_views(r.effects@) =~= Seq::<EffectView<T>>::empty());
        }
        r
    }

    /// Adds an effect.
    pub fn push(&mut self, effect: Effect<T>)
        ensures
            effect_views(final(self).effects@) == effect_views(old(self).effects@).push(effect@),
            final(self).result == old(self).result,
    {
        self.effects.push(effect);
        proof {
            assert(effect_views(self.effects@) =~= effect_views(old(self).effects@).push(
                effect@,
            ));
        }
    }

    /// Ends the reply with a refusal.
    pub fn fail(self, e: ConsensusError) -> (r: Self)
        ensures
            r.effects == self.effects,
            r.result == Err::<(), ConsensusError>(e),
    {
        Reply { effects: self.effects, result: Err(e) }
    }
}

} // verus!
