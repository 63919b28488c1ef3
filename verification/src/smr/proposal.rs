//! What a replica does with a signed proposal.

use vstd::prelude::*;

use crate::auth::signer_verdict;
use crate::cabinet::{Capsule, CapsuleView, ItemView};
use crate::error::{ErrorInfo, ErrorKind, OverlordError};
use crate::smr::action::{action_views, Action, ActionView, Outcome};
use crate::smr::handler::Turn;
use crate::smr::{filter_verdict, ProposalVerdicts, Replica, SMR};
use crate::state::StateView;
use crate::types::{
    bytes_clone, bytes_eq, opt_polc_clone, opt_qc_view, AggregatedVote, AggregatedVoteView,
    BlockInfo, BlockInfoView, SignedProposal, SignedProposalView, Vote, VoteType, VoteView,
};

verus! {

impl<T, S> Replica<T, S> {
    /// The pre-vote that a replica casts after it has taken in a proposal of
    /// round `round`: a vote for the block it stands for, which is the
    /// proposed block unless the replica is locked on another one.
    pub open spec fn pre_vote_actions(self, round: u64, to: Seq<u8>) -> Seq<ActionView<T>> {
        match self.state.block {
            Some(block) => seq![
                ActionView::TransmitVote {
                    to,
                    vote: VoteView {
                        height: self.state.stage.height,
                        round,
                        vote_type: VoteType::Prevote,
                        block_hash: block.block_hash,
                    },
                },
            ],
            None => Seq::empty(),
        }
    }

    /// A signed proposal arrives, with what the consensus core reads of its
    /// block, the proof that the block carries, and the verdicts that belong
    /// to it.
    ///
    /// The proposal must pass the filter, the check against its block and
    /// the chain, the check of its signer, who must lead its round, and the
    /// check of its block against the execution. A proposal that has come
    /// that far is in the store, and the content of its block is requested
    /// unless it has been requested before. A proposal of a later round that
    /// carries no lock waits in the store for its round. Any other moves the
    /// replica as [`StateView::proposal`] says; the replica arms the timer of
    /// its new stage, saves its state and, where it is a validator, sends
    /// its pre-vote to the proposer.
    pub open spec fn on_signed_proposal(
        self,
        sp: SignedProposalView<T>,
        block: BlockInfoView,
        block_proof: Option<AggregatedVoteView>,
        verdicts: ProposalVerdicts,
        elapsed: u64,
    ) -> Turn<T, S> {
        let p = sp.proposal;
        let filter = filter_verdict(self.state.stage, p.height, p.round, true);
        let checked = self.check_proposal(
            p,
            block,
            block_proof,
            verdicts.proof_ok,
            verdicts.lock_ok,
        );
        let signer = signer_verdict(self.applicable(p.height), p.proposer, verdicts.signature_ok);
        let stored = Replica {
            shelf: self.shelf.with(ItemView::Proposal { signed: sp, block }),
            ..self
        };
        let block_checked = self.check_block(block, verdicts.block_ok);
        let fetch = if self.fetched.contains(block.block_hash) {
            Seq::empty()
        } else {
            seq![ActionView::FetchFullBlock { height: block.height, block_hash: block.block_hash }]
        };
        let asked = Replica { fetched: self.fetched.insert(block.block_hash), ..stored };
        let moved = self.state.proposal(p.height, p.round, block, p.lock);
        let voting = Replica { state: moved.state, ..asked };
        let saved = fetch + voting.timer(moved.state.stage, elapsed) + seq![
            ActionView::SaveWal(moved.state),
        ];
        if filter is Err {
            self.filtered(CapsuleView::SignedProposal(sp), filter->Err_0)
        } else if checked is Err {
            self.halt(Seq::empty(), checked->Err_0)
        } else if signer is Err {
            self.halt(Seq::empty(), signer->Err_0)
        } else if p.proposer != self.leader(p.height, p.round) {
            self.halt(Seq::empty(), OverlordError::byzantine_spec(ErrorInfo::NotLeader))
        } else if self.shelf.has_proposal(p.height, p.round) {
            self.halt(Seq::empty(), OverlordError::debug_spec(ErrorInfo::Duplicate))
        } else if block_checked is Err {
            stored.halt(Seq::empty(), block_checked->Err_0)
        } else if p.lock is None && p.round > self.state.stage.round {
            asked.halt(fetch, OverlordError { kind: ErrorKind::Debug, info: ErrorInfo::High })
        } else if moved.result is Err {
            asked.halt(fetch, moved.result->Err_0)
        } else if !self.can_vote() {
            voting.halt(saved, OverlordError::debug_spec(ErrorInfo::NotValidator))
        } else {
            voting.done(saved + voting.pre_vote_actions(p.round, p.proposer))
        }
    }
}

impl<T, S> SMR<T, S> {
    /// Handles a signed proposal: see [`Replica::on_signed_proposal`].
    pub fn handle_signed_proposal(
        &mut self,
        sp: SignedProposal<T>,
        block: BlockInfo,
        block_proof: Option<AggregatedVote>,
        verdicts: ProposalVerdicts,
        elapsed: u64,
    ) -> (r: Outcome<T>)
        ensures
            final(self)@ == old(self)@.on_signed_proposal(
                sp@,
                block@,
                opt_qc_view(block_proof),
                verdicts,
                elapsed,
            ).replica,
            action_views(r.actions@) == old(self)@.on_signed_proposal(
                sp@,
                block@,
                opt_qc_view(block_proof),
                verdicts,
                elapsed,
            ).actions,
            r.result == old(self)@.on_signed_proposal(
                sp@,
                block@,
                opt_qc_view(block_proof),
                verdicts,
                elapsed,
            ).result,
    {
        let mut out: Outcome<T> = Outcome::new();
        let height: u64 = sp.proposal.height;
        let round: u64 = sp.proposal.round;
        let my_height: u64 = self.state.stage.height;
        let my_round: u64 = self.state.stage.round;
        let sp = match self.filter_msg(height, round, Capsule::SignedProposal(sp)) {
            Err(e) => {
                return out.fail(e);
            },
            Ok(Capsule::SignedProposal(sp)) => sp,
            Ok(_) => {
                return out;
            },
        };
        match self.check_proposal(
            &sp.proposal,
            &block,
            &block_proof,
            verdicts.proof_ok,
            verdicts.lock_ok,
        ) {
            Err(e) => {
                return out.fail(e);
            },
            Ok(()) => {},
        }
        match self.auth.verify_signer(
            height,
            my_height,
            &sp.proposal.proposer,
            verdicts.signature_ok,
        ) {
            Err(e) => {
                return out.fail(e);
            },
            Ok(()) => {},
        }
        let leader = self.auth.get_leader(height, round);
        if !bytes_eq(&sp.proposal.proposer, &leader) {
            return out.fail(OverlordError::byzantine(ErrorInfo::NotLeader));
        }
        let proposer = bytes_clone(&sp.proposal.proposer);
        let lock = opt_polc_clone(&sp.proposal.lock);
        match self.cabinet.insert_signed_proposal(sp, block.clone()) {
            Err(e) => {
                return out.fail(e);
            },
            Ok(()) => {},
        }
        match self.check_block(&block, verdicts.block_ok) {
            Err(e) => {
                return out.fail(e);
            },
            Ok(()) => {},
        }
        if self.agent.request_full_block(&block.block_hash) {
            out.push(
                Action::FetchFullBlock {
                    height: block.height,
                    block_hash: bytes_clone(&block.block_hash),
                },
            );
        }
        let ghost fetch = action_views(out.actions@);
        if lock.is_none() && round > my_round {
            return out.fail(OverlordError::debug_high());
        }
        match self.state.handle_signed_proposal(height, round, &block, &lock) {
            Err(e) => {
                return out.fail(e);
            },
            Ok(()) => {},
        }
        self.arm(self.state.stage, elapsed, &mut out);
        out.push(Action::SaveWal(self.state.clone()));
        proof {
            assert(action_views(out.actions@) =~= fetch + self@.timer(self.state.stage, elapsed)
                + seq![ActionView::SaveWal(self.state@)]);
        }
        if !self.auth.can_i_vote() {
            return out.fail(OverlordError::debug(ErrorInfo::NotValidator));
        }
        let ghost saved = action_views(out.actions@);
        match self.state.vote_hash() {
            Some(hash) => {
                out.push(
                    Action::TransmitVote {
                        to: proposer,
                        vote: Vote {
                            height: self.state.stage.height,
                            round,
                            vote_type: VoteType::Prevote,
                            block_hash: hash,
                        },
                    },
                );
            },
            None => {},
        }
        proof {
            assert(action_views(out.actions@) =~= saved + self@.pre_vote_actions(
                round,
                proposer@,
            ));
        }
        out
    }
}

} // verus!
