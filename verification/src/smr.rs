//! The replica: what it does with each message, timeout, fetched block and
//! execution result, as a function from its state and the input to its next
//! state and the effects it asks for.
//!
//! Nothing here waits, sends or signs. Whoever runs a replica performs the
//! returned actions in their order, and hands the verdicts of the signature
//! scheme and of the application in with the input they belong to.

pub mod action;
pub mod certificate;
pub mod handler;
pub mod proposal;
pub mod round;
pub mod smr_types;
pub mod state_machine;

use vstd::prelude::*;

use crate::agent::EventAgent;
use crate::auth::{leader_index, qc_verdict, AuthManage, NodeView};
use crate::cabinet::{Cabinet, Capsule, ItemView, Shelf};
use crate::error::{ErrorInfo, ErrorKind, OverlordError};
use crate::prepare::{ref_views, states_between, ExecResult, PrepareView, ProposePrepare};
use crate::state::{Stage, StateInfo, StateView};
use crate::timeout::{TimeConfig, TimeConfigView};
use crate::types::{
    bytes_clone, bytes_eq, opt_qc_view, AggregatedVote, AggregatedVoteView, BlockInfo, BlockInfoView, PoLCView,
    Proposal, ProposalView, SignedProposal, VoteType,
};

verus! {

/// How many heights ahead of its own a replica still stores messages.
pub const HEIGHT_WINDOW: u64 = 5;

/// How many rounds ahead of its own a replica still takes messages.
pub const ROUND_WINDOW: u64 = 5;

/// Mathematical value of an [`SMR`].
pub struct Replica<T, S> {
    pub state: StateView,
    pub prepare: PrepareView<S>,
    pub shelf: Shelf<T>,
    pub my_address: Seq<u8>,
    pub current: Seq<NodeView>,
    pub last: Option<Seq<NodeView>>,
    pub time: TimeConfigView,
    pub fetched: Set<Seq<u8>>,
    pub next_time: Option<TimeConfigView>,
}

/// A replica: the state machine replica of one validator.
pub struct SMR<T, S> {
    /// Where the replica stands.
    pub state: StateInfo,
    /// What it knows of the chain and of its execution.
    pub prepare: ProposePrepare<S>,
    /// What it has taken in.
    pub cabinet: Cabinet<T>,
    /// Who the validators are.
    pub auth: AuthManage,
    /// Which effects it has asked for.
    pub agent: EventAgent,
    /// The timing of the next height, while the replica waits in the commit step.
    pub next_time: Option<TimeConfig>,
}

impl<T, S> View for SMR<T, S> {
    type V = Replica<T, S>;

    open spec fn view(&self) -> Replica<T, S> {
        Replica {
            state: self.state@,
            prepare: self.prepare@,
            shelf: self.cabinet@,
            my_address: self.auth.my_address@,
            current: self.auth.current_auth@,
            last: match self.auth.last_auth {
                Some(cell) => Some(cell@),
                None => None,
            },
            time: self.agent.time_config@,
            fetched: self.agent.fetched(),
            next_time: match self.next_time {
                Some(t) => Some(t@),
                None => None,
            },
        }
    }
}

/// What the filter makes of a message for round `round` of height `height`
/// when the replica stands at `my`:
///
/// * a message of a lower height is old;
/// * a message of a lower round of the same height is old, unless it is a
///   signed proposal, which is still looked at for the lock it may carry;
/// * a message more than [`HEIGHT_WINDOW`] heights or more than
///   [`ROUND_WINDOW`] rounds ahead is much too high;
/// * any other message of a higher height is high, and is stored for later;
/// * everything else passes.
pub open spec fn filter_verdict(my: Stage, height: u64, round: u64, is_proposal: bool) -> Result<
    (),
    OverlordError,
> {
    if height < my.height {
        Err(OverlordError { kind: ErrorKind::Debug, info: ErrorInfo::Old })
    } else if height == my.height && round < my.round {
        if is_proposal {
            Ok(())
        } else {
            Err(OverlordError { kind: ErrorKind::Debug, info: ErrorInfo::Old })
        }
    } else if height > my.height + HEIGHT_WINDOW || round > my.round + ROUND_WINDOW {
        Err(OverlordError { kind: ErrorKind::Net, info: ErrorInfo::MuchHigh })
    } else if height > my.height {
        Err(OverlordError { kind: ErrorKind::Debug, info: ErrorInfo::High })
    } else {
        Ok(())
    }
}

/// The proof that a block of `height` carries is a pre-commit quorum
/// certificate of the height before, for the block it builds on.
pub open spec fn proof_fits(proof: AggregatedVoteView, height: u64, pre_hash: Seq<u8>) -> bool {
    &&& proof.vote_type == VoteType::Precommit
    &&& proof.height + 1 == height
    &&& proof.block_hash == pre_hash
}

/// The lock that a proposal carries is a pre-vote quorum certificate of an
/// earlier round of the same height, for the proposed block.
pub open spec fn lock_fits(lock: PoLCView, height: u64, round: u64, hash: Seq<u8>) -> bool {
    &&& lock.lock_votes.vote_type == VoteType::Prevote
    &&& lock.lock_votes.height == height
    &&& lock.lock_votes.round == lock.lock_round
    &&& lock.lock_round < round
    &&& lock.lock_votes.block_hash == hash
}

/// The verdicts that belong to a signed proposal: of the check of the
/// proposer's signature, of the aggregated signature of the proof that the
/// block carries, of the aggregated signature of the lock that the proposal
/// carries, and of the application's check of the block.
#[derive(Clone, Copy, Debug, PartialEq, Eq, Structural)]
pub struct ProposalVerdicts {
    pub signature_ok: bool,
    pub proof_ok: bool,
    pub lock_ok: bool,
    pub block_ok: bool,
}

impl<T, S> Replica<T, S> {
    /// The validator set by which a message of `height` is judged.
    pub open spec fn applicable(self, height: u64) -> Option<Seq<NodeView>> {
        if height == self.state.stage.height {
            Some(self.current)
        } else if height + 1 == self.state.stage.height && self.last is Some {
            Some(self.last->0)
        } else {
            None
        }
    }

    /// The leader of a round of the current height.
    pub open spec fn leader(self, height: u64, round: u64) -> Seq<u8> {
        self.current[leader_index(self.current.len(), height, round)].address
    }

    /// What the check of a proposal against its block and against the chain yields.
    pub open spec fn check_proposal(
        self,
        p: ProposalView<T>,
        block: BlockInfoView,
        proof: Option<AggregatedVoteView>,
        proof_ok: bool,
        lock_ok: bool,
    ) -> Result<(), OverlordError> {
        if p.height != block.height || p.block_hash != block.block_hash {
            Err(OverlordError { kind: ErrorKind::Byzantine, info: ErrorInfo::Block })
        } else if self.prepare.pre_hash != block.pre_hash {
            Err(OverlordError { kind: ErrorKind::Byzantine, info: ErrorInfo::Block })
        } else if p.height > 0 && (proof is None || !proof_fits(
            proof->0,
            p.height,
            block.pre_hash,
        )) {
            Err(OverlordError::byzantine_spec(ErrorInfo::Certificate))
        } else if p.height > 0 && qc_verdict(
            self.applicable(proof->0.height),
            proof->0.signature.address_bitmap,
            proof_ok,
        ) is Err {
            qc_verdict(
                self.applicable(proof->0.height),
                proof->0.signature.address_bitmap,
                proof_ok,
            )
        } else if p.lock is Some && !lock_fits(p.lock->0, p.height, p.round, p.block_hash) {
            Err(OverlordError::byzantine_spec(ErrorInfo::Certificate))
        } else if p.lock is Some {
            qc_verdict(
                self.applicable(p.height),
                p.lock->0.lock_votes.signature.address_bitmap,
                lock_ok,
            )
        } else {
            Ok(())
        }
    }

    /// What the check of a block against the execution yields: a block that
    /// refers to an execution this replica has not seen is set aside with a
    /// warning; a block the application refuses is a fault of the proposer.
    pub open spec fn check_block(self, block: BlockInfoView, block_ok: bool) -> Result<
        (),
        OverlordError,
    > {
        if self.prepare.exec_height < block.exec_height {
            Err(OverlordError { kind: ErrorKind::Warn, info: ErrorInfo::BlockAhead })
        } else if !block_ok {
            Err(OverlordError::byzantine_spec(ErrorInfo::CheckBlock))
        } else {
            Ok(())
        }
    }
}

impl<T, S> SMR<T, S> {
    /// A replica made of its parts.
    pub fn new(
        state: StateInfo,
        prepare: ProposePrepare<S>,
        auth: AuthManage,
        time_config: TimeConfig,
    ) -> (r: Self)
        ensures
            r.state == state,
            r.prepare == prepare,
            r.auth == auth,
            r.agent.time_config == time_config,
            r.cabinet@.items == Seq::<ItemView<T>>::empty(),
            r@.fetched == Set::<Seq<u8>>::empty(),
            r.next_time is None,
    {
        SMR {
            state,
            prepare,
            cabinet: Cabinet::new(),
            auth,
            agent: EventAgent::new(time_config),
            next_time: None,
        }
    }

    /// Decides whether a message for round `round` of height `height` is to
    /// be handled now: see [`filter_verdict`]. A message that passes is handed
    /// back. A message that is high is put into the store; any other refused
    /// message is dropped. Nothing else changes.
    pub fn filter_msg(&mut self, height: u64, round: u64, capsule: Capsule<T>) -> (r: Result<
        Capsule<T>,
        OverlordError,
    >)
        ensures
            match filter_verdict(old(self).state.stage, height, round, capsule@ is SignedProposal) {
                Ok(()) => r == Ok::<Capsule<T>, OverlordError>(capsule) && final(self)@ == old(
                    self,
                )@,
                Err(e) => r == Err::<Capsule<T>, OverlordError>(e) && final(self)@ == (Replica {
                    shelf: if e.info == ErrorInfo::High {
                        old(self)@.shelf.with(ItemView::Pending(capsule@))
                    } else {
                        old(self)@.shelf
                    },
                    ..old(self)@
                }),
            },
    {
        let my_height: u64 = self.state.stage.height;
        let my_round: u64 = self.state.stage.round;
        if height < my_height {
            return Err(OverlordError::debug_old());
        } else if height == my_height && round < my_round {
            if capsule.is_signed_proposal() {
                return Ok(capsule);
            }
            return Err(OverlordError::debug_old());
        } else if height - my_height > HEIGHT_WINDOW || (round > my_round && round - my_round
            > ROUND_WINDOW) {
            return Err(OverlordError::net_much_high());
        } else if height > my_height {
            self.cabinet.buffer(capsule);
            return Err(OverlordError::debug_high());
        }
        Ok(capsule)
    }

    /// Checks a proposal against its block and against the chain.
    ///
    /// The proposal must name the height and the hash of its block; the block
    /// must build on the last committed block; above height zero the block
    /// must carry a verified pre-commit quorum certificate for the block it
    /// builds on; and a lock that the proposal carries must be a verified
    /// pre-vote quorum certificate of an earlier round for the proposed block.
    pub fn check_proposal(
        &self,
        p: &Proposal<T>,
        block: &BlockInfo,
        block_proof: &Option<AggregatedVote>,
        proof_ok: bool,
        lock_ok: bool,
    ) -> (r: Result<(), OverlordError>)
        ensures
            r == self@.check_proposal(p@, block@, opt_qc_view(*block_proof), proof_ok, lock_ok),
    {
        let my_height: u64 = self.state.stage.height;
        if p.height != block.height || !bytes_eq(&p.block_hash, &block.block_hash) {
            return Err(OverlordError::byz_block());
        }
        if !bytes_eq(&self.prepare.pre_hash, &block.pre_hash) {
            return Err(OverlordError::byz_block());
        }
        if p.height > 0 {
            match block_proof {
                None => {
                    return Err(OverlordError::byzantine(ErrorInfo::Certificate));
                },
                Some(qc) => {
                    if !(qc.vote_type == VoteType::Precommit && qc.height < u64::MAX && qc.height
                        + 1 == p.height && bytes_eq(&qc.block_hash, &block.pre_hash)) {
                        return Err(OverlordError::byzantine(ErrorInfo::Certificate));
                    }
                    match self.auth.verify_qc(
                        qc.height,
                        my_height,
                        &qc.signature.address_bitmap,
                        proof_ok,
                    ) {
                        Err(e) => {
                            return Err(e);
                        },
                        Ok(()) => {},
                    }
                },
            }
        }
        match &p.lock {
            None => Ok(()),
            Some(lock) => {
                if !(lock.lock_votes.vote_type == VoteType::Prevote && lock.lock_votes.height
                    == p.height && lock.lock_votes.round == lock.lock_round && lock.lock_round
                    < p.round && bytes_eq(&lock.lock_votes.block_hash, &p.block_hash)) {
                    return Err(OverlordError::byzantine(ErrorInfo::Certificate));
                }
                self.auth.verify_qc(
                    p.height,
                    my_height,
                    &lock.lock_votes.signature.address_bitmap,
                    lock_ok,
                )
            },
        }
    }

    /// Checks a block against the execution: see [`Replica::check_block`].
    /// `block_ok` is the verdict of the application on the block.
    pub fn check_block(&self, block: &BlockInfo, block_ok: bool) -> (r: Result<(), OverlordError>)
        ensures
            r == self@.check_block(block@, block_ok),
    {
        if self.prepare.exec_height < block.exec_height {
            return Err(OverlordError::warn_block());
        }
        if !block_ok {
            return Err(OverlordError::byzantine(ErrorInfo::CheckBlock));
        }
        Ok(())
    }

    /// What the application is handed when this replica asks it for a new
    /// block: the height the replica stands at, the height up to which the
    /// execution is known, the hash of the last committed block with the
    /// certificate that proves its commit, and the execution results from
    /// the execution height down to the one above it.
    pub fn create_block(&self) -> (r: BlockRequest<'_, S>)
        ensures
            r.height == self@.state.stage.height,
            r.exec_height == self@.prepare.exec_height,
            r.pre_hash@ == self@.prepare.pre_hash,
            r.pre_proof@ == self@.prepare.pre_proof,
            ref_views(r.block_states@) == states_between(
                self@.prepare.exec_results,
                self@.prepare.exec_height,
                self@.prepare.exec_height,
            ),
    {
        BlockRequest {
            height: self.state.stage.height,
            exec_height: self.prepare.exec_height,
            pre_hash: bytes_clone(&self.prepare.pre_hash),
            pre_proof: self.prepare.pre_proof.clone(),
            block_states: self.prepare.get_block_states_list(self.prepare.exec_height),
        }
    }
}

/// What the application is handed when it is asked for a new block.
pub struct BlockRequest<'a, S> {
    /// The height of the block to make.
    pub height: u64,
    /// The height up to which the block takes the execution into account.
    pub exec_height: u64,
    /// The hash of the block to build on.
    pub pre_hash: crate::types::Hash,
    /// The pre-commit quorum certificate of the block to build on.
    pub pre_proof: AggregatedVote,
    /// The execution results that the block has to state.
    pub block_states: Vec<&'a ExecResult<S>>,
}

/// What becomes of the application's answer to the request for a new
/// block: the block as the application made it, or the error that the
/// application could not make one.
pub fn created_block<B>(answer: Result<B, ()>) -> (r: Result<B, OverlordError>)
    ensures
        r == match answer {
            Ok(block) => Ok::<B, OverlordError>(block),
            Err(_) => Err(OverlordError { kind: ErrorKind::Local, info: ErrorInfo::CreateBlock }),
        },
{
    match answer {
        Ok(block) => Ok(block),
        Err(_) => Err(OverlordError::local_create_block()),
    }
}

/// Agreement on the previous block. A proposal that passes the check of a
/// replica builds on the block that the replica committed last: whatever
/// the proposer did, the block hash that the replica took from its last
/// commit is the one the accepted block names as its predecessor.
pub proof fn lemma_pre_hash_agreement<T, S>(
    replica: Replica<T, S>,
    p: ProposalView<T>,
    block: BlockInfoView,
    proof: Option<AggregatedVoteView>,
    proof_ok: bool,
    lock_ok: bool,
)
    requires
        replica.check_proposal(p, block, proof, proof_ok, lock_ok) is Ok,
    ensures
        block.pre_hash == replica.prepare.pre_hash,
        block.height == p.height,
        block.block_hash == p.block_hash,
        p.height > 0 ==> proof is Some && proof->0.block_hash == replica.prepare.pre_hash
            && proof->0.height + 1 == p.height,
{
}

} // verus!
