//! The state module that drives the trigger-driven state machine: it takes
//! messages from the network and events from the machine, keeps proposals,
//! votes and certificates, counts votes, and answers with effects.
//!
//! Like the replica of [`crate::smr`], it never waits, sends or signs: it
//! returns what is to be done, and takes the verdicts of the signature
//! scheme as arguments.

use vstd::prelude::*;

use crate::auth::{
    address_views, beyond_majority_spec, flags_of, has_address, leader_index, picked_weight,
    set_fault, sorted_of, total_weight, views, AuthCell, AuthManage, Node, NodeView,
};
use crate::bitmap::{fits, pack_spec, unpack_spec};
use crate::cabinet::{Cabinet, Capsule, CapsuleView, ItemView, Shelf};
use crate::error::ConsensusError;
use crate::smr::smr_types::{Step, TriggerType};
use crate::types::{
    bytes_clone, bytes_eq, opt_qc_view, Address, AggregatedSignature, AggregatedSignatureView,
    AggregatedVote, AggregatedVoteView, Signature, SignedProposal, SignedProposalView, SignedVote,
    SignedVoteView, Vote, VoteType, VoteView,
};

verus! {

/// How many heights ahead of its own the state module still keeps messages.
pub const FUTURE_HEIGHT_GAP: u64 = 5;

/// How many rounds ahead of its own the state module still keeps messages.
pub const FUTURE_ROUND_GAP: u64 = 10;

/// The two kinds of signed messages.
#[derive(Clone, Copy, Debug, PartialEq, Eq, Structural)]
pub enum MsgType {
    SignedProposal,
    SignedVote,
}

/// What the application reports after it has committed a block: the height
/// to go on with, its validators, and the new interval between blocks, if
/// it has changed.
#[derive(Debug, PartialEq, Eq)]
pub struct Status {
    pub height: u64,
    pub interval: Option<u64>,
    pub authority_list: Vec<Node>,
}

/// Mathematical value of a [`Status`].
pub struct StatusView {
    pub height: u64,
    pub interval: Option<u64>,
    pub authority_list: Seq<NodeView>,
}

impl View for Status {
    type V = StatusView;

    open spec fn view(&self) -> StatusView {
        StatusView {
            height: self.height,
            interval: self.interval,
            authority_list: views(self.authority_list@),
        }
    }
}

/// The application's verdict on the block with the given hash.
#[derive(Debug, PartialEq, Eq)]
pub struct VerifyResp {
    pub height: u64,
    pub block_hash: crate::types::Hash,
    pub is_pass: bool,
}

/// The proof that a block has been committed.
#[derive(Debug, PartialEq, Eq)]
pub struct Proof {
    pub height: u64,
    pub round: u64,
    pub block_hash: crate::types::Hash,
    pub signature: AggregatedSignature,
}

/// Mathematical value of a [`Proof`].
pub struct ProofView {
    pub height: u64,
    pub round: u64,
    pub block_hash: Seq<u8>,
    pub signature: AggregatedSignatureView,
}

impl View for Proof {
    type V = ProofView;

    open spec fn view(&self) -> ProofView {
        ProofView {
            height: self.height,
            round: self.round,
            block_hash: self.block_hash@,
            signature: self.signature@,
        }
    }
}

/// A message from the network, or the status that ends a height.
#[derive(Debug, PartialEq, Eq)]
pub enum OverlordMsg<T> {
    SignedProposal(SignedProposal<T>),
    SignedVote(SignedVote),
    AggregatedVote(AggregatedVote),
    RichStatus(Status),
}

/// Mathematical value of an [`OverlordMsg`].
pub enum OverlordMsgView<T> {
    SignedProposal(SignedProposalView<T>),
    SignedVote(SignedVoteView),
    AggregatedVote(AggregatedVoteView),
    RichStatus(StatusView),
}

impl<T> View for OverlordMsg<T> {
    type V = OverlordMsgView<T>;

    open spec fn view(&self) -> OverlordMsgView<T> {
        match *self {
            OverlordMsg::SignedProposal(m) => OverlordMsgView::SignedProposal(m@),
            OverlordMsg::SignedVote(m) => OverlordMsgView::SignedVote(m@),
            OverlordMsg::AggregatedVote(m) => OverlordMsgView::AggregatedVote(m@),
            OverlordMsg::RichStatus(m) => OverlordMsgView::RichStatus(m@),
        }
    }
}

/// Whether the application holds the full content of a block.
#[derive(Debug, PartialEq, Eq)]
pub struct FullTx {
    pub block_hash: crate::types::Hash,
    pub is_pass: bool,
}

/// The values of a list of block verdicts.
pub open spec fn full_views(s: Seq<FullTx>) -> Seq<(Seq<u8>, bool)> {
    Seq::new(s.len(), |i: int| (s[i].block_hash@, s[i].is_pass))
}

/// The first verdict on the block stands at position `i`.
pub open spec fn verdict_at(full: Seq<(Seq<u8>, bool)>, hash: Seq<u8>, i: int) -> bool {
    &&& 0 <= i < full.len()
    &&& full[i].0 == hash
    &&& forall|j: int| 0 <= j < i ==> (#[trigger] full[j]).0 != hash
}

/// Whether there is a verdict on the block.
pub open spec fn has_verdict(full: Seq<(Seq<u8>, bool)>, hash: Seq<u8>) -> bool {
    exists|i: int| 0 <= i < full.len() && (#[trigger] full[i]).0 == hash
}

/// Whether the block with the given hash has passed the application's check.
pub open spec fn passed(full: Seq<(Seq<u8>, bool)>, hash: Seq<u8>) -> bool {
    has_verdict(full, hash) && full[choose|i: int| verdict_at(full, hash, i)].1
}

/// The verdicts after one more verdict has come in: a later verdict on a
/// block replaces the earlier one.
pub open spec fn with_verdict(full: Seq<(Seq<u8>, bool)>, hash: Seq<u8>, pass: bool) -> Seq<
    (Seq<u8>, bool),
> {
    if has_verdict(full, hash) {
        full.update(choose|i: int| verdict_at(full, hash, i), (hash, pass))
    } else {
        full.push((hash, pass))
    }
}

/// There is one first verdict on a block.
pub proof fn lemma_verdict_unique(full: Seq<(Seq<u8>, bool)>, hash: Seq<u8>, i: int)
    requires
        verdict_at(full, hash, i),
    ensures
        (choose|c: int| verdict_at(full, hash, c)) == i,
{
    let c = choose|c: int| verdict_at(full, hash, c);
    if c < i {
        assert(full[c].0 == hash);
    } else if i < c {
        assert(full[i].0 == hash);
    }
}

/// How the state module classes a signed proposal of round `round` of
/// height `height` while it is at round `my_round` of height `my_height`.
#[derive(Clone, Copy, Debug, PartialEq, Eq, Structural)]
pub enum ProposalClass {
    /// Of a height or round that has passed: dropped.
    Outdated,
    /// More than [`FUTURE_HEIGHT_GAP`] heights ahead: dropped.
    MuchHigherHeight,
    /// More than [`FUTURE_ROUND_GAP`] rounds ahead: dropped.
    MuchHigherRound,
    /// Of another round of this height, or of a later height: kept for later.
    Future,
    /// Of the current round, or of the height before: handled now.
    Current,
}

/// The class of a signed proposal.
pub open spec fn proposal_class(my_height: u64, my_round: u64, height: u64, round: u64) -> ProposalClass {
    if height + 1 < my_height || (height == my_height && round < my_round) {
        ProposalClass::Outdated
    } else if my_height + FUTURE_HEIGHT_GAP < height {
        ProposalClass::MuchHigherHeight
    } else if (height == my_height && my_round + FUTURE_ROUND_GAP < round) || (height > my_height
        && round > FUTURE_ROUND_GAP) {
        ProposalClass::MuchHigherRound
    } else if (height == my_height && round != my_round) || height > my_height {
        ProposalClass::Future
    } else {
        ProposalClass::Current
    }
}

/// How the state module classes a quorum certificate.
#[derive(Clone, Copy, Debug, PartialEq, Eq, Structural)]
pub enum QcClass {
    /// For no block at all: dropped.
    Empty,
    /// Of a height that has passed, or a pre-vote certificate of a round
    /// that has passed: dropped.
    Outdated,
    /// Of a later height within the gaps: kept for later.
    Future,
    /// Of a later height beyond the gaps: dropped.
    MuchHigher,
    /// Of this height: handled now.
    Current,
}

/// The class of a quorum certificate.
pub open spec fn qc_class(my_height: u64, my_round: u64, qc: AggregatedVoteView) -> QcClass {
    if qc.block_hash.len() == 0 {
        QcClass::Empty
    } else if qc.height < my_height {
        QcClass::Outdated
    } else if qc.height > my_height {
        if my_height + FUTURE_HEIGHT_GAP > qc.height && qc.round < FUTURE_ROUND_GAP {
            QcClass::Future
        } else {
            QcClass::MuchHigher
        }
    } else if qc.vote_type == VoteType::Prevote && qc.round < my_round {
        QcClass::Outdated
    } else {
        QcClass::Current
    }
}

/// Mathematical value of a [`State`].
pub struct StateModel<T> {
    pub height: u64,
    pub round: u64,
    pub address: Seq<u8>,
    pub shelf: Shelf<T>,
    pub current: Seq<NodeView>,
    pub last: Option<Seq<NodeView>>,
    pub blocks: Seq<Seq<u8>>,
    pub full: Seq<(Seq<u8>, bool)>,
    pub is_leader: bool,
    pub leader_address: Seq<u8>,
    pub last_commit_qc: Option<AggregatedVoteView>,
    pub block_interval: u64,
}

/// The state module of one validator.
#[derive(Debug)]
pub struct State<T> {
    pub height: u64,
    pub round: u64,
    /// The address of this validator.
    pub address: Address,
    /// Proposals, votes and certificates taken in or kept for later.
    pub store: Cabinet<T>,
    /// The validators of this height and of the height before.
    pub authority: AuthManage,
    /// The hashes of the blocks whose content is at hand.
    pub blocks: Vec<crate::types::Hash>,
    /// The application's verdicts on blocks.
    pub is_full_transcation: Vec<FullTx>,
    /// Whether this validator leads the current round.
    pub is_leader: bool,
    /// The leader of the current round, where it is another validator.
    pub leader_address: Address,
    /// The pre-commit quorum certificate of the last committed block.
    pub last_commit_qc: Option<AggregatedVote>,
    /// The interval between two blocks, in milliseconds.
    pub block_interval: u64,
}

impl<T> View for State<T> {
    type V = StateModel<T>;

    open spec fn view(&self) -> StateModel<T> {
        StateModel {
            height: self.height,
            round: self.round,
            address: self.address@,
            shelf: self.store@,
            current: self.authority.current_auth@,
            last: match self.authority.last_auth {
                Some(cell) => Some(cell@),
                None => None,
            },
            blocks: address_views(self.blocks@),
            full: full_views(self.is_full_transcation@),
            is_leader: self.is_leader,
            leader_address: self.leader_address@,
            last_commit_qc: opt_qc_view(self.last_commit_qc),
            block_interval: self.block_interval,
        }
    }
}

impl<T> StateModel<T> {
    /// The validators by which a message is judged: those of this height,
    /// or those of the height before.
    pub open spec fn validators(self, is_current: bool) -> Option<Seq<NodeView>> {
        if is_current {
            Some(self.current)
        } else {
            self.last
        }
    }

    /// The proposer of a round under the validators of this height or of
    /// the height before.
    pub open spec fn proposer(self, height: u64, round: u64, is_current: bool) -> Option<Seq<u8>> {
        match self.validators(is_current) {
            Some(nodes) => Some(nodes[leader_index(nodes.len(), height, round)].address),
            None => None,
        }
    }

    /// What the check of an address yields.
    pub open spec fn address_verdict(self, address: Seq<u8>, is_current: bool) -> Result<
        (),
        ConsensusError,
    > {
        if self.validators(is_current) is Some && has_address(
            self.validators(is_current)->0,
            address,
        ) {
            Ok(())
        } else {
            Err(ConsensusError::InvalidAddress)
        }
    }

    /// What the check of a proposer yields.
    pub open spec fn proposer_verdict(
        self,
        height: u64,
        round: u64,
        address: Seq<u8>,
        is_current: bool,
    ) -> Result<(), ConsensusError> {
        if self.address_verdict(address, is_current) is Err {
            Err(ConsensusError::InvalidAddress)
        } else if self.proposer(height, round, is_current) != Some(address) {
            Err(ConsensusError::InvalidProposer)
        } else {
            Ok(())
        }
    }

    /// What the check of a quorum certificate of `height` yields: its
    /// voters must be a quorum of the validators of that height, and its
    /// aggregated signature, on which `sig_ok` is the verdict, must verify.
    pub open spec fn aggregated_verdict(self, bitmap: Seq<u8>, height: u64, sig_ok: bool) -> Result<
        (),
        ConsensusError,
    > {
        let nodes = self.validators(height == self.height);
        if nodes is None || !fits(bitmap, nodes->0.len()) || !beyond_majority_spec(
            total_weight(nodes->0),
            picked_weight(nodes->0, unpack_spec(bitmap)),
        ) {
            Err(ConsensusError::BelowThreshold)
        } else if !sig_ok {
            Err(ConsensusError::AggregatedSignature)
        } else {
            Ok(())
        }
    }

    /// The vote of the current round for a block in a phase.
    pub open spec fn vote_for(self, vote_type: VoteType, hash: Seq<u8>) -> VoteView {
        VoteView { height: self.height, round: self.round, vote_type, block_hash: hash }
    }

    /// The votes for `vote` that have been taken in, in the order of their
    /// voters in the validator set.
    pub open spec fn sorted_votes(self, vote: VoteView) -> Seq<SignedVoteView> {
        crate::auth::in_validator_order(self.current, self.shelf.votes(vote), self.current.len())
    }

    /// The weight behind a block in a phase of the current round.
    pub open spec fn weight_behind(self, vote_type: VoteType, hash: Seq<u8>) -> nat {
        self.shelf.vote_weight(self.current, self.vote_for(vote_type, hash))
    }

    /// The first of `hashes`, from position `k` on, behind which a quorum
    /// has voted in a phase of the current round.
    pub open spec fn first_quorum(self, vote_type: VoteType, hashes: Seq<Seq<u8>>, k: int) -> Option<
        Seq<u8>,
    >
        decreases hashes.len() - k,
    {
        if k < 0 || k >= hashes.len() {
            None
        } else if beyond_majority_spec(
            total_weight(self.current),
            self.weight_behind(vote_type, hashes[k]),
        ) {
            Some(hashes[k])
        } else {
            self.first_quorum(vote_type, hashes, k + 1)
        }
    }

    /// The block behind which a quorum has voted in a phase of the current
    /// round: of the blocks voted for, in the order of their first vote, the
    /// first one whose voters hold more than two thirds of the weight.
    pub open spec fn tally(self, vote_type: VoteType) -> Option<Seq<u8>> {
        self.first_quorum(
            vote_type,
            self.shelf.voted_hashes(self.height, self.round, vote_type),
            0,
        )
    }

    /// The quorum certificate that the votes for a block in a phase of the
    /// current round make, given their aggregated signature.
    pub open spec fn qc_of(self, hash: Seq<u8>, vote_type: VoteType, signature: Seq<u8>) -> AggregatedVoteView {
        AggregatedVoteView {
            signature: AggregatedSignatureView {
                signature,
                address_bitmap: pack_spec(
                    flags_of(self.current, self.shelf.signers(self.vote_for(vote_type, hash))),
                ),
            },
            vote_type,
            height: self.height,
            round: self.round,
            block_hash: hash,
            leader: self.address,
        }
    }
}

/// The trigger kind that a phase stands for.
pub open spec fn trigger_of(vote_type: VoteType) -> TriggerType {
    match vote_type {
        VoteType::Prevote => TriggerType::PrevoteQC,
        VoteType::Precommit => TriggerType::PrecommitQC,
    }
}

/// The trigger kind that a phase stands for.
pub fn vote_type_to_trigger(vote_type: VoteType) -> (r: TriggerType)
    ensures
        r == trigger_of(vote_type),
{
    match vote_type {
        VoteType::Prevote => TriggerType::PrevoteQC,
        VoteType::Precommit => TriggerType::PrecommitQC,
    }
}

/// The step in which a vote of a phase is cast.
pub open spec fn step_of(vote_type: VoteType) -> Step {
    match vote_type {
        VoteType::Prevote => Step::Prevote,
        VoteType::Precommit => Step::Precommit,
    }
}

/// The step in which a vote of a phase is cast.
pub fn vote_type_to_step(vote_type: VoteType) -> (r: Step)
    ensures
        r == step_of(vote_type),
{
    match vote_type {
        VoteType::Prevote => Step::Prevote,
        VoteType::Precommit => Step::Precommit,
    }
}

impl<T> State<T> {
    /// The state module of a validator that starts at height zero with the
    /// given validators. The list is refused where it cannot serve as a
    /// validator set.
    pub fn new(addr: Address, interval: u64, authority_list: Vec<Node>) -> (r: Result<
        Self,
        ConsensusError,
    >)
        ensures
            set_fault(views(authority_list@)) is Some ==> r is Err && r->Err_0
                == ConsensusError::InvalidAuthority,
            set_fault(views(authority_list@)) is None ==> r is Ok && r->Ok_0@ == (StateModel::<T> {
                height: 0,
                round: 0,
                address: addr@,
                shelf: Shelf { items: Seq::empty() },
                current: sorted_of(views(authority_list@)),
                last: None,
                blocks: Seq::empty(),
                full: Seq::empty(),
                is_leader: false,
                leader_address: Seq::empty(),
                last_commit_qc: None,
                block_interval: interval,
            }),
    {
        let cell = match AuthCell::new(authority_list) {
            Ok(cell) => cell,
            Err(_) => {
                return Err(ConsensusError::InvalidAuthority);
            },
        };
        let state = State {
            height: 0,
            round: 0,
            address: bytes_clone(&addr),
            store: Cabinet::new(),
            authority: AuthManage::new(addr, cell, None),
            blocks: Vec::new(),
            is_full_transcation: Vec::new(),
            is_leader: false,
            leader_address: Vec::new(),
            last_commit_qc: None,
            block_interval: interval,
        };
        proof {
            assert(state@.blocks =~= Seq::empty());
            assert(state@.full =~= Seq::empty());
            assert(state@.leader_address =~= Seq::empty());
        }
        Ok(state)
    }

    /// The validators of this height, or of the height before.
    fn cell(&self, is_current: bool) -> (r: Option<&AuthCell>)
        ensures
            r is Some <==> self@.validators(is_current) is Some,
            r is Some ==> r->0@ == self@.validators(is_current)->0,
    {
        if is_current {
            Some(&self.authority.current_auth)
        } else {
            match &self.authority.last_auth {
                Some(cell) => Some(cell),
                None => None,
            }
        }
    }

    /// The position of the first verdict on a block, if there is one.
    fn find_verdict(&self, hash: &crate::types::Hash) -> (r: Option<usize>)
        ensures
            r is Some <==> has_verdict(self@.full, hash@),
            r is Some ==> verdict_at(self@.full, hash@, r->0 as int),
    {
        let ghost full = self@.full;
        let mut i: usize = 0;
        while i < self.is_full_transcation.len()
            invariant
                full == self@.full,
                i <= self.is_full_transcation.len(),
                forall|j: int| 0 <= j < i ==> (#[trigger] full[j]).0 != hash@,
            decreases self.is_full_transcation.len() - i,
        {
            if bytes_eq(&self.is_full_transcation[i].block_hash, hash) {
                proof {
                    assert(full[i as int].0 == hash@);
                }
                return Some(i);
            }
            i += 1;
        }
        None
    }

    /// Notes the application's verdict on a block; a later verdict replaces
    /// an earlier one.
    pub fn set_full_txs(&mut self, hash: crate::types::Hash, is_pass: bool)
        ensures
            final(self)@ == (StateModel {
                full: with_verdict(old(self)@.full, hash@, is_pass),
                ..old(self)@
            }),
    {
        let ghost before = self@.full;
        match self.find_verdict(&hash) {
            Some(i) => {
                proof {
                    lemma_verdict_unique(before, hash@, i as int);
                }
                self.is_full_transcation.set(i, FullTx { block_hash: hash, is_pass });
                proof {
                    assert(self@.full =~= before.update(i as int, (hash@, is_pass)));
                }
            },
            None => {
                self.is_full_transcation.push(FullTx { block_hash: hash, is_pass });
                proof {
                    assert(self@.full =~= before.push((hash@, is_pass)));
                }
            },
        }
    }

    /// The hash handed in, if the block with that hash has passed the
    /// application's check; `None` otherwise.
    pub fn check_full_txs(&self, hash: crate::types::Hash) -> (r: Option<crate::types::Hash>)
        ensures
            r is Some <==> passed(self@.full, hash@),
            r is Some ==> r->0@ == hash@,
    {
        if self.try_get_full_txs(&hash) {
            Some(hash)
        } else {
            None
        }
    }

    /// Whether the block with the given hash has passed the application's check.
    pub fn try_get_full_txs(&self, hash: &crate::types::Hash) -> (r: bool)
        ensures
            r == passed(self@.full, hash@),
    {
        match self.find_verdict(hash) {
            Some(i) => {
                proof {
                    lemma_verdict_unique(self@.full, hash@, i as int);
                }
                self.is_full_transcation[i].is_pass
            },
            None => false,
        }
    }

    /// Whether this validator proposes in the current round. Where it does
    /// not, the proposer is noted as the leader to send votes to.
    pub fn is_proposer(&mut self) -> (r: bool)
        ensures
            r == (old(self)@.proposer(old(self).height, old(self).round, true) == Some(
                old(self)@.address,
            )),
            final(self)@ == (StateModel {
                leader_address: if r {
                    old(self)@.leader_address
                } else {
                    old(self)@.proposer(old(self).height, old(self).round, true)->0
                },
                ..old(self)@
            }),
    {
        let proposer = self.authority.current_auth.get_leader(self.height, self.round);
        if bytes_eq(&proposer, &self.address) {
            return true;
        }
        self.leader_address = proposer;
        false
    }

    /// Whether this validator proposes in the given round of the given height.
    pub fn next_proposer(&self, height: u64, round: u64) -> (r: bool)
        ensures
            r == (self@.proposer(height, round, true) == Some(self@.address)),
    {
        let proposer = self.authority.current_auth.get_leader(height, round);
        bytes_eq(&self.address, &proposer)
    }

    /// Checks that an address belongs to a validator of this height, or of
    /// the height before.
    pub fn verify_address(&self, address: &Address, is_current: bool) -> (r: Result<
        (),
        ConsensusError,
    >)
        ensures
            r == self@.address_verdict(address@, is_current),
    {
        match self.cell(is_current) {
            Some(cell) => {
                if cell.contains(address) {
                    Ok(())
                } else {
                    Err(ConsensusError::InvalidAddress)
                }
            },
            None => Err(ConsensusError::InvalidAddress),
        }
    }

    /// Checks that an address belongs to the validator that proposes in the
    /// given round.
    pub fn verify_proposer(&self, height: u64, round: u64, address: &Address, is_current: bool) -> (r:
        Result<(), ConsensusError>)
        ensures
            r == self@.proposer_verdict(height, round, address@, is_current),
    {
        match self.cell(is_current) {
            Some(cell) => {
                if !cell.contains(address) {
                    return Err(ConsensusError::InvalidAddress);
                }
                let proposer = cell.get_leader(height, round);
                if !bytes_eq(address, &proposer) {
                    return Err(ConsensusError::InvalidProposer);
                }
                Ok(())
            },
            None => Err(ConsensusError::InvalidAddress),
        }
    }

    /// Turns the verdict of the signature scheme on a signed message into
    /// a result.
    pub fn verify_signature(&self, sig_ok: bool, msg_type: MsgType) -> (r: Result<
        (),
        ConsensusError,
    >)
        ensures
            r == if sig_ok {
                Ok::<(), ConsensusError>(())
            } else {
                Err::<(), ConsensusError>(
                    match msg_type {
                        MsgType::SignedProposal => ConsensusError::ProposalSignature,
                        MsgType::SignedVote => ConsensusError::VoteSignature,
                    },
                )
            },
    {
        if sig_ok {
            Ok(())
        } else {
            match msg_type {
                MsgType::SignedProposal => Err(ConsensusError::ProposalSignature),
                MsgType::SignedVote => Err(ConsensusError::VoteSignature),
            }
        }
    }

    /// Checks a quorum certificate of `height`: see
    /// [`StateModel::aggregated_verdict`].
    pub fn verify_aggregated_signature(&self, bitmap: &Vec<u8>, height: u64, sig_ok: bool) -> (r:
        Result<(), ConsensusError>)
        ensures
            r == self@.aggregated_verdict(bitmap@, height, sig_ok),
    {
        let above: bool = match self.cell(height == self.height) {
            Some(cell) => {
                match cell.is_above_threshold(bitmap) {
                    Ok(above) => above,
                    Err(_) => false,
                }
            },
            None => false,
        };
        if !above {
            return Err(ConsensusError::BelowThreshold);
        }
        if !sig_ok {
            return Err(ConsensusError::AggregatedSignature);
        }
        Ok(())
    }

    /// Counts the votes of a phase of the current round: see [`StateModel::tally`].
    pub fn counting_vote(&self, vote_type: VoteType) -> (r: Option<crate::types::Hash>)
        ensures
            crate::types::opt_bytes_view(r) == self@.tally(vote_type),
    {
        let hashes = self.store.get_voted_hashes(self.height, self.round, vote_type);
        let mut k: usize = 0;
        while k < hashes.len()
            invariant
                k <= hashes.len(),
                address_views(hashes@) == self@.shelf.voted_hashes(
                    self.height,
                    self.round,
                    vote_type,
                ),
                self@.tally(vote_type) == self@.first_quorum(
                    vote_type,
                    address_views(hashes@),
                    k as int,
                ),
            decreases hashes.len() - k,
        {
            let vote = Vote {
                height: self.height,
                round: self.round,
                vote_type,
                block_hash: bytes_clone(&hashes[k]),
            };
            let voters = self.store.get_signers(&vote);
            let weight: u64 = self.authority.current_auth.weight_of_voters(&voters);
            if self.authority.current_auth.beyond_majority(weight) {
                return Some(vote.block_hash);
            }
            k += 1;
        }
        None
    }

    /// The votes for a block in a phase of the current round, in the
    /// ascending order of their voters' addresses, and the bitmap of their
    /// voters: what is needed to aggregate their signatures.
    pub fn qc_votes(&self, block_hash: &crate::types::Hash, vote_type: VoteType) -> (r: (
        Vec<SignedVote>,
        Vec<u8>,
    ))
        ensures
            crate::cabinet::vote_views(r.0@) == self@.sorted_votes(
                self@.vote_for(vote_type, block_hash@),
            ),
            r.1@ == self@.qc_of(block_hash@, vote_type, Seq::empty()).signature.address_bitmap,
    {
        let vote = Vote {
            height: self.height,
            round: self.round,
            vote_type,
            block_hash: bytes_clone(block_hash),
        };
        let votes = self.authority.current_auth.order_votes(&self.store.get_signed_votes(&vote));
        let voters = self.store.get_signers(&vote);
        let bitmap = self.authority.current_auth.bitmap_of(&voters);
        (votes, bitmap)
    }

    /// The quorum certificate that the votes for a block in a phase of the
    /// current round make. `signature` is the aggregate of their
    /// signatures; the bitmap names their voters; this validator signs as
    /// the leader that assembled the certificate.
    pub fn generate_qc(
        &self,
        block_hash: crate::types::Hash,
        vote_type: VoteType,
        signature: Signature,
    ) -> (r: AggregatedVote)
        ensures
            r@ == self@.qc_of(block_hash@, vote_type, signature@),
    {
        let (_, bitmap) = self.qc_votes(&block_hash, vote_type);
        AggregatedVote {
            signature: AggregatedSignature { signature, address_bitmap: bitmap },
            vote_type,
            height: self.height,
            round: self.round,
            block_hash,
            leader: bytes_clone(&self.address),
        }
    }

    /// Classes a signed proposal: see [`proposal_class`]. A proposal that
    /// is to be handled now is handed back; one that is kept for later goes
    /// into the store; any other is dropped.
    pub fn filter_signed_proposal(&mut self, height: u64, round: u64, signed_proposal: SignedProposal<
        T,
    >) -> (r: Option<SignedProposal<T>>)
        ensures
            match proposal_class(old(self).height, old(self).round, height, round) {
                ProposalClass::Current => r == Some(signed_proposal) && final(self)@ == old(self)@,
                ProposalClass::Future => r is None && final(self)@ == (StateModel {
                    shelf: old(self)@.shelf.with(
                        ItemView::Pending(CapsuleView::SignedProposal(signed_proposal@)),
                    ),
                    ..old(self)@
                }),
                _ => r is None && final(self)@ == old(self)@,
            },
    {
        let my_height: u64 = self.height;
        let my_round: u64 = self.round;
        if (height < my_height && my_height - height > 1) || (height == my_height && round
            < my_round) {
            return None;
        } else if height > my_height && height - my_height > FUTURE_HEIGHT_GAP {
            return None;
        } else if (height == my_height && round > my_round && round - my_round > FUTURE_ROUND_GAP)
            || (height > my_height && round > FUTURE_ROUND_GAP) {
            return None;
        }
        if (height == my_height && round != my_round) || height > my_height {
            self.store.buffer(Capsule::SignedProposal(signed_proposal));
            return None;
        }
        Some(signed_proposal)
    }
}

} // verus!
