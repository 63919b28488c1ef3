//! The store of everything a replica has taken in: proposals, votes,
//! chokes, certificates and fetched blocks, with the weight that has
//! gathered behind each vote.
//!
//! The cumulative weight behind a vote is never kept as a running sum. It is
//! read off the validator set: every validator whose signed vote is in the
//! store counts once, with the weight the validator set gives it.

use vstd::prelude::*;

use crate::auth::{
    address_views, beyond_majority_spec, flags_of, has_address, lemma_new_signer_adds_weight,
    lemma_picked_weight_bound, picked_weight, same_vote, sorted, total_weight, AuthCell, NodeView,
};
use crate::error::{ErrorInfo, OverlordError};
use crate::types::{
    bytes_clone, bytes_eq, Address, AggregatedVote, AggregatedVoteView, BlockInfo, BlockInfoView,
    Choke, ChokeQC, ChokeQCView, SignedChoke, SignedChokeView, SignedProposal, SignedProposalView,
    SignedVote, SignedVoteView, Vote, VoteType, VoteView,
};

verus! {

/// The three things a quorum can form behind.
#[derive(Clone, Copy, Debug, PartialEq, Eq, Structural)]
pub enum Kind {
    PreVote,
    PreCommit,
    Choke,
}

impl Kind {
    /// The kind of quorum that votes of a phase form.
    pub open spec fn of(vote_type: VoteType) -> Kind {
        match vote_type {
            VoteType::Prevote => Kind::PreVote,
            VoteType::Precommit => Kind::PreCommit,
        }
    }

    /// The kind of quorum that votes of a phase form.
    pub fn of_vote_type(vote_type: VoteType) -> (r: Kind)
        ensures
            r == Kind::of(vote_type),
    {
        match vote_type {
            VoteType::Prevote => Kind::PreVote,
            VoteType::Precommit => Kind::PreCommit,
        }
    }
}

/// A message of any kind that a replica takes in.
#[derive(Debug, PartialEq, Eq)]
pub enum Capsule<T> {
    SignedProposal(SignedProposal<T>),
    SignedVote(SignedVote),
    SignedChoke(SignedChoke),
    AggregatedVote(AggregatedVote),
    ChokeQC(ChokeQC),
}

/// Mathematical value of a [`Capsule`].
pub enum CapsuleView<T> {
    SignedProposal(SignedProposalView<T>),
    SignedVote(SignedVoteView),
    SignedChoke(SignedChokeView),
    AggregatedVote(AggregatedVoteView),
    ChokeQC(ChokeQCView),
}

impl<T> View for Capsule<T> {
    type V = CapsuleView<T>;

    open spec fn view(&self) -> CapsuleView<T> {
        match *self {
            Capsule::SignedProposal(m) => CapsuleView::SignedProposal(m@),
            Capsule::SignedVote(m) => CapsuleView::SignedVote(m@),
            Capsule::SignedChoke(m) => CapsuleView::SignedChoke(m@),
            Capsule::AggregatedVote(m) => CapsuleView::AggregatedVote(m@),
            Capsule::ChokeQC(m) => CapsuleView::ChokeQC(m@),
        }
    }
}

impl<T> CapsuleView<T> {
    /// The height the message belongs to.
    pub open spec fn height(self) -> u64 {
        match self {
            CapsuleView::SignedProposal(m) => m.proposal.height,
            CapsuleView::SignedVote(m) => m.vote.height,
            CapsuleView::SignedChoke(m) => m.choke.height,
            CapsuleView::AggregatedVote(m) => m.height,
            CapsuleView::ChokeQC(m) => m.choke.height,
        }
    }

    /// The round the message belongs to.
    pub open spec fn round(self) -> u64 {
        match self {
            CapsuleView::SignedProposal(m) => m.proposal.round,
            CapsuleView::SignedVote(m) => m.vote.round,
            CapsuleView::SignedChoke(m) => m.choke.round,
            CapsuleView::AggregatedVote(m) => m.round,
            CapsuleView::ChokeQC(m) => m.choke.round,
        }
    }
}

impl<T> Capsule<T> {
    /// The height the message belongs to.
    pub fn height(&self) -> (r: u64)
        ensures
            r == self@.height(),
    {
        match self {
            Capsule::SignedProposal(m) => m.proposal.height,
            Capsule::SignedVote(m) => m.vote.height,
            Capsule::SignedChoke(m) => m.choke.height,
            Capsule::AggregatedVote(m) => m.height,
            Capsule::ChokeQC(m) => m.choke.height,
        }
    }

    /// The round the message belongs to.
    pub fn round(&self) -> (r: u64)
        ensures
            r == self@.round(),
    {
        match self {
            Capsule::SignedProposal(m) => m.proposal.round,
            Capsule::SignedVote(m) => m.vote.round,
            Capsule::SignedChoke(m) => m.choke.round,
            Capsule::AggregatedVote(m) => m.round,
            Capsule::ChokeQC(m) => m.choke.round,
        }
    }

    /// Whether the message is a signed proposal.
    pub fn is_signed_proposal(&self) -> (r: bool)
        ensures
            r == (self@ is SignedProposal),
    {
        match self {
            Capsule::SignedProposal(_) => true,
            _ => false,
        }
    }
}

/// The full content of a block, as fetched from the application.
#[derive(Debug, PartialEq, Eq)]
pub struct FetchedFullBlock {
    pub height: u64,
    pub block_hash: crate::types::Hash,
    pub full_block: Vec<u8>,
}

/// Mathematical value of a [`FetchedFullBlock`].
pub struct FetchedFullBlockView {
    pub height: u64,
    pub block_hash: Seq<u8>,
    pub full_block: Seq<u8>,
}

impl View for FetchedFullBlock {
    type V = FetchedFullBlockView;

    open spec fn view(&self) -> FetchedFullBlockView {
        FetchedFullBlockView {
            height: self.height,
            block_hash: self.block_hash@,
            full_block: self.full_block@,
        }
    }
}

impl Clone for FetchedFullBlock {
    fn clone(&self) -> (r: Self)
        ensures
            r@ == self@,
    {
        FetchedFullBlock {
            height: self.height,
            block_hash: bytes_clone(&self.block_hash),
            full_block: bytes_clone(&self.full_block),
        }
    }
}

/// The weight that has gathered behind a vote or a choke.
#[derive(Debug, PartialEq, Eq)]
pub struct CumWeight {
    /// The cumulative weight of the distinct validators that signed.
    pub cum_weight: u64,
    /// What they signed: pre-votes, pre-commits or chokes.
    pub kind: Kind,
    /// The round they signed for.
    pub round: u64,
    /// The block they voted for; `None` for chokes.
    pub block_hash: Option<crate::types::Hash>,
}

/// Mathematical value of a [`CumWeight`].
pub struct CumWeightView {
    pub cum_weight: u64,
    pub kind: Kind,
    pub round: u64,
    pub block_hash: Option<Seq<u8>>,
}

impl View for CumWeight {
    type V = CumWeightView;

    open spec fn view(&self) -> CumWeightView {
        CumWeightView {
            cum_weight: self.cum_weight,
            kind: self.kind,
            round: self.round,
            block_hash: crate::types::opt_bytes_view(self.block_hash),
        }
    }
}

/// One thing in the store.
#[derive(Debug, PartialEq, Eq)]
pub enum Item<T> {
    /// A verified proposal and what the consensus core reads of its block.
    Proposal { signed: SignedProposal<T>, block: BlockInfo },
    /// A verified vote.
    Vote(SignedVote),
    /// A verified choke.
    Choke(SignedChoke),
    /// A verified quorum certificate of votes.
    VoteQC(AggregatedVote),
    /// A verified quorum certificate of chokes.
    ChokeQC(ChokeQC),
    /// The full content of a block.
    FullBlock(FetchedFullBlock),
    /// The mark that a quorum has been reported for a round.
    Winner { height: u64, round: u64, kind: Kind },
    /// A message of a later height, kept unverified until that height is reached.
    Pending(Capsule<T>),
}

/// Mathematical value of an [`Item`].
pub enum ItemView<T> {
    Proposal { signed: SignedProposalView<T>, block: BlockInfoView },
    Vote(SignedVoteView),
    Choke(SignedChokeView),
    VoteQC(AggregatedVoteView),
    ChokeQC(ChokeQCView),
    FullBlock(FetchedFullBlockView),
    Winner { height: u64, round: u64, kind: Kind },
    Pending(CapsuleView<T>),
}

impl<T> View for Item<T> {
    type V = ItemView<T>;

    open spec fn view(&self) -> ItemView<T> {
        match *self {
            Item::Proposal { signed, block } => ItemView::Proposal {
                signed: signed@,
                block: block@,
            },
            Item::Vote(m) => ItemView::Vote(m@),
            Item::Choke(m) => ItemView::Choke(m@),
            Item::VoteQC(m) => ItemView::VoteQC(m@),
            Item::ChokeQC(m) => ItemView::ChokeQC(m@),
            Item::FullBlock(m) => ItemView::FullBlock(m@),
            Item::Winner { height, round, kind } => ItemView::Winner { height, round, kind },
            Item::Pending(m) => ItemView::Pending(m@),
        }
    }
}

impl<T> ItemView<T> {
    /// The height the item belongs to.
    pub open spec fn height(self) -> u64 {
        match self {
            ItemView::Proposal { signed, block } => signed.proposal.height,
            ItemView::Vote(m) => m.vote.height,
            ItemView::Choke(m) => m.choke.height,
            ItemView::VoteQC(m) => m.height,
            ItemView::ChokeQC(m) => m.choke.height,
            ItemView::FullBlock(m) => m.height,
            ItemView::Winner { height, round, kind } => height,
            ItemView::Pending(m) => m.height(),
        }
    }

    /// The item is the signed vote `vote` of some validator.
    pub open spec fn is_vote_for(self, vote: VoteView) -> bool {
        self is Vote && self->Vote_0.vote == vote
    }

    /// The item is a signed choke for `choke`.
    pub open spec fn is_choke_for(self, choke: Choke) -> bool {
        self is Choke && self->Choke_0.choke == choke
    }

    /// The item is the proposal of a round.
    pub open spec fn is_proposal_of(self, height: u64, round: u64) -> bool {
        self is Proposal && self->signed.proposal.height == height && self->signed.proposal.round
            == round
    }

    /// The item is the full content of a block.
    pub open spec fn is_full_block_of(self, height: u64, hash: Seq<u8>) -> bool {
        self is FullBlock && self->FullBlock_0.height == height && self->FullBlock_0.block_hash
            == hash
    }

    /// The item is a proposal for the block with the given hash.
    pub open spec fn proposes_block(self, height: u64, hash: Seq<u8>) -> bool {
        self is Proposal && self->block.height == height && self->block.block_hash == hash
    }

    /// The item is a quorum certificate of the given round and phase.
    pub open spec fn is_qc_of(self, height: u64, round: u64, vote_type: VoteType) -> bool {
        self is VoteQC && self->VoteQC_0.height == height && self->VoteQC_0.round == round
            && self->VoteQC_0.vote_type == vote_type
    }

    /// The item is a quorum certificate for the block with the given hash.
    pub open spec fn is_qc_for(self, height: u64, hash: Seq<u8>) -> bool {
        self is VoteQC && self->VoteQC_0.height == height && self->VoteQC_0.block_hash == hash
    }

    /// The item is a quorum certificate of the given phase for the block
    /// with the given hash.
    pub open spec fn is_typed_qc_for(self, height: u64, hash: Seq<u8>, vote_type: VoteType) -> bool {
        self.is_qc_for(height, hash) && self->VoteQC_0.vote_type == vote_type
    }

    /// The item is a vote of the given round and phase.
    pub open spec fn is_vote_of(self, height: u64, round: u64, vote_type: VoteType) -> bool {
        self is Vote && self->Vote_0.vote.height == height && self->Vote_0.vote.round == round
            && self->Vote_0.vote.vote_type == vote_type
    }

    /// The item is a signed proposal of the given round that waits to be handled.
    pub open spec fn is_pending_proposal_of(self, height: u64, round: u64) -> bool {
        self is Pending && self->Pending_0 is SignedProposal
            && self->Pending_0->SignedProposal_0.proposal.height == height
            && self->Pending_0->SignedProposal_0.proposal.round == round
    }

    /// The item is a message that waits for the given height.
    pub open spec fn waits_for(self, height: u64) -> bool {
        self is Pending && self->Pending_0.height() == height
    }
}

/// The values of a list of items.
pub open spec fn item_views<T>(s: Seq<Item<T>>) -> Seq<ItemView<T>> {
    Seq::new(s.len(), |i: int| s[i]@)
}

/// The values of a list of signed votes.
pub open spec fn vote_views(s: Seq<SignedVote>) -> Seq<SignedVoteView> {
    crate::auth::signed_vote_views(s)
}

/// The values of a list of signed chokes.
pub open spec fn choke_views(s: Seq<SignedChoke>) -> Seq<SignedChokeView> {
    crate::auth::signed_choke_views(s)
}

/// The values of a list of messages.
pub open spec fn capsule_views<T>(s: Seq<Capsule<T>>) -> Seq<CapsuleView<T>> {
    Seq::new(s.len(), |i: int| s[i]@)
}

/// The signed votes for `vote` among the first `n` items, in the order of
/// their arrival.
pub open spec fn votes_upto<T>(items: Seq<ItemView<T>>, vote: VoteView, n: nat) -> Seq<
    SignedVoteView,
>
    decreases n,
{
    if n == 0 {
        Seq::empty()
    } else if items[n - 1].is_vote_for(vote) {
        votes_upto(items, vote, (n - 1) as nat).push(items[n - 1]->Vote_0)
    } else {
        votes_upto(items, vote, (n - 1) as nat)
    }
}

/// The signers of `vote` among the first `n` items.
pub open spec fn signers_upto<T>(items: Seq<ItemView<T>>, vote: VoteView, n: nat) -> Seq<Seq<u8>>
    decreases n,
{
    if n == 0 {
        Seq::empty()
    } else if items[n - 1].is_vote_for(vote) {
        signers_upto(items, vote, (n - 1) as nat).push(items[n - 1]->Vote_0.voter)
    } else {
        signers_upto(items, vote, (n - 1) as nat)
    }
}

/// The signed chokes for `choke` among the first `n` items.
pub open spec fn chokes_upto<T>(items: Seq<ItemView<T>>, choke: Choke, n: nat) -> Seq<
    SignedChokeView,
>
    decreases n,
{
    if n == 0 {
        Seq::empty()
    } else if items[n - 1].is_choke_for(choke) {
        chokes_upto(items, choke, (n - 1) as nat).push(items[n - 1]->Choke_0)
    } else {
        chokes_upto(items, choke, (n - 1) as nat)
    }
}

/// The signers of `choke` among the first `n` items.
pub open spec fn chokers_upto<T>(items: Seq<ItemView<T>>, choke: Choke, n: nat) -> Seq<Seq<u8>>
    decreases n,
{
    if n == 0 {
        Seq::empty()
    } else if items[n - 1].is_choke_for(choke) {
        chokers_upto(items, choke, (n - 1) as nat).push(items[n - 1]->Choke_0.voter)
    } else {
        chokers_upto(items, choke, (n - 1) as nat)
    }
}

/// The messages that wait for `height` among the first `n` items.
pub open spec fn pending_upto<T>(items: Seq<ItemView<T>>, height: u64, n: nat) -> Seq<
    CapsuleView<T>,
>
    decreases n,
{
    if n == 0 {
        Seq::empty()
    } else if items[n - 1].waits_for(height) {
        pending_upto(items, height, (n - 1) as nat).push(items[n - 1]->Pending_0)
    } else {
        pending_upto(items, height, (n - 1) as nat)
    }
}

/// The blocks that have been voted for in a round and phase among the
/// first `n` items, each once, in the order of their first vote.
pub open spec fn hashes_upto<T>(
    items: Seq<ItemView<T>>,
    height: u64,
    round: u64,
    vote_type: VoteType,
    n: nat,
) -> Seq<Seq<u8>>
    decreases n,
{
    if n == 0 {
        Seq::empty()
    } else {
        let before = hashes_upto(items, height, round, vote_type, (n - 1) as nat);
        if items[n - 1].is_vote_of(height, round, vote_type) && !before.contains(
            items[n - 1]->Vote_0.vote.block_hash,
        ) {
            before.push(items[n - 1]->Vote_0.vote.block_hash)
        } else {
            before
        }
    }
}

/// The quorum certificates for the block with the given hash among the
/// first `n` items.
pub open spec fn qcs_upto<T>(items: Seq<ItemView<T>>, height: u64, hash: Seq<u8>, n: nat) -> Seq<
    AggregatedVoteView,
>
    decreases n,
{
    if n == 0 {
        Seq::empty()
    } else if items[n - 1].is_qc_for(height, hash) {
        qcs_upto(items, height, hash, (n - 1) as nat).push(items[n - 1]->VoteQC_0)
    } else {
        qcs_upto(items, height, hash, (n - 1) as nat)
    }
}

/// The values of a list of quorum certificates.
pub open spec fn qc_views(s: Seq<AggregatedVote>) -> Seq<AggregatedVoteView> {
    Seq::new(s.len(), |i: int| s[i]@)
}

/// Those of the first `n` items that belong to `height` or a later height.
pub open spec fn kept_upto<T>(items: Seq<ItemView<T>>, height: u64, n: nat) -> Seq<ItemView<T>>
    decreases n,
{
    if n == 0 {
        Seq::empty()
    } else if items[n - 1].height() >= height {
        kept_upto(items, height, (n - 1) as nat).push(items[n - 1])
    } else {
        kept_upto(items, height, (n - 1) as nat)
    }
}

/// Those of the first `n` items that do not wait for `height`.
pub open spec fn settled_upto<T>(items: Seq<ItemView<T>>, height: u64, n: nat) -> Seq<
    ItemView<T>,
>
    decreases n,
{
    if n == 0 {
        Seq::empty()
    } else if !items[n - 1].waits_for(height) {
        settled_upto(items, height, (n - 1) as nat).push(items[n - 1])
    } else {
        settled_upto(items, height, (n - 1) as nat)
    }
}

/// The store as a mathematical value: its items in the order of their arrival.
pub struct Shelf<T> {
    pub items: Seq<ItemView<T>>,
}

impl<T> Shelf<T> {
    /// The signed votes for `vote`.
    pub open spec fn votes(self, vote: VoteView) -> Seq<SignedVoteView> {
        votes_upto(self.items, vote, self.items.len())
    }

    /// The signers of `vote`.
    pub open spec fn signers(self, vote: VoteView) -> Seq<Seq<u8>> {
        signers_upto(self.items, vote, self.items.len())
    }

    /// The signed chokes for `choke`.
    pub open spec fn chokes(self, choke: Choke) -> Seq<SignedChokeView> {
        chokes_upto(self.items, choke, self.items.len())
    }

    /// The signers of `choke`.
    pub open spec fn chokers(self, choke: Choke) -> Seq<Seq<u8>> {
        chokers_upto(self.items, choke, self.items.len())
    }

    /// The weight behind `vote`: that of the validators whose signed vote
    /// is in the store, each counted once.
    pub open spec fn vote_weight(self, nodes: Seq<NodeView>, vote: VoteView) -> nat {
        picked_weight(nodes, flags_of(nodes, self.signers(vote)))
    }

    /// The weight behind `choke`: that of the validators whose signed
    /// choke is in the store, each counted once.
    pub open spec fn choke_weight(self, nodes: Seq<NodeView>, choke: Choke) -> nat {
        picked_weight(nodes, flags_of(nodes, self.chokers(choke)))
    }

    /// The store holds the vote of `voter` for `vote`.
    pub open spec fn has_vote(self, vote: VoteView, voter: Seq<u8>) -> bool {
        exists|i: int|
            0 <= i < self.items.len() && (#[trigger] self.items[i]).is_vote_for(vote)
                && self.items[i]->Vote_0.voter == voter
    }

    /// The store holds the choke of `voter` for `choke`.
    pub open spec fn has_choke(self, choke: Choke, voter: Seq<u8>) -> bool {
        exists|i: int|
            0 <= i < self.items.len() && (#[trigger] self.items[i]).is_choke_for(choke)
                && self.items[i]->Choke_0.voter == voter
    }

    /// A quorum of the given kind has been reported for the round.
    pub open spec fn has_winner(self, height: u64, round: u64, kind: Kind) -> bool {
        self.items.contains(ItemView::Winner { height, round, kind })
    }

    /// The store with one more item.
    pub open spec fn with(self, item: ItemView<T>) -> Shelf<T> {
        Shelf { items: self.items.push(item) }
    }

    /// The store and the answer after the vote `sv` has been offered to it
    /// under the validator set `nodes`.
    ///
    /// A vote of a stranger is refused, and so is a vote that the store
    /// holds already. Any other vote is stored. Where the weight behind its
    /// block is a quorum, and no quorum has been reported yet for the round
    /// and phase, the quorum is reported and the round is marked.
    pub open spec fn offer_vote(self, nodes: Seq<NodeView>, sv: SignedVoteView) -> (
        Shelf<T>,
        Result<Option<CumWeightView>, OverlordError>,
    ) {
        let kind = Kind::of(sv.vote.vote_type);
        if !has_address(nodes, sv.voter) {
            (self, Err(OverlordError::byzantine_spec(ErrorInfo::UnauthorizedSigner)))
        } else if self.has_vote(sv.vote, sv.voter) {
            (self, Err(OverlordError::debug_spec(ErrorInfo::Duplicate)))
        } else {
            let stored = self.with(ItemView::Vote(sv));
            let weight = stored.vote_weight(nodes, sv.vote);
            if beyond_majority_spec(total_weight(nodes), weight) && !self.has_winner(
                sv.vote.height,
                sv.vote.round,
                kind,
            ) {
                (
                    stored.with(
                        ItemView::Winner { height: sv.vote.height, round: sv.vote.round, kind },
                    ),
                    Ok(
                        Some(
                            CumWeightView {
                                cum_weight: weight as u64,
                                kind,
                                round: sv.vote.round,
                                block_hash: Some(sv.vote.block_hash),
                            },
                        ),
                    ),
                )
            } else {
                (stored, Ok(None))
            }
        }
    }

    /// The store and the answer after the choke `sc` has been offered to it
    /// under the validator set `nodes`; the rules are those for votes.
    pub open spec fn offer_choke(self, nodes: Seq<NodeView>, sc: SignedChokeView) -> (
        Shelf<T>,
        Result<Option<CumWeightView>, OverlordError>,
    ) {
        if !has_address(nodes, sc.voter) {
            (self, Err(OverlordError::byzantine_spec(ErrorInfo::UnauthorizedSigner)))
        } else if self.has_choke(sc.choke, sc.voter) {
            (self, Err(OverlordError::debug_spec(ErrorInfo::Duplicate)))
        } else {
            let stored = self.with(ItemView::Choke(sc));
            let weight = stored.choke_weight(nodes, sc.choke);
            if beyond_majority_spec(total_weight(nodes), weight) && !self.has_winner(
                sc.choke.height,
                sc.choke.round,
                Kind::Choke,
            ) {
                (
                    stored.with(
                        ItemView::Winner {
                            height: sc.choke.height,
                            round: sc.choke.round,
                            kind: Kind::Choke,
                        },
                    ),
                    Ok(
                        Some(
                            CumWeightView {
                                cum_weight: weight as u64,
                                kind: Kind::Choke,
                                round: sc.choke.round,
                                block_hash: None,
                            },
                        ),
                    ),
                )
            } else {
                (stored, Ok(None))
            }
        }
    }
}

/// The votes among the first `n` items are not touched by what is put
/// behind them.
pub proof fn lemma_push_keeps_votes<T>(
    items: Seq<ItemView<T>>,
    item: ItemView<T>,
    vote: VoteView,
    n: nat,
)
    requires
        n <= items.len(),
    ensures
        votes_upto(items.push(item), vote, n) == votes_upto(items, vote, n),
        signers_upto(items.push(item), vote, n) == signers_upto(items, vote, n),
    decreases n,
{
    if n > 0 {
        lemma_push_keeps_votes(items, item, vote, (n - 1) as nat);
        assert(items.push(item)[n - 1] == items[n - 1]);
    }
}

/// A validator is among the signers of a vote exactly where the store holds
/// its signed vote.
pub proof fn lemma_signers_are_voters<T>(items: Seq<ItemView<T>>, vote: VoteView, n: nat)
    requires
        n <= items.len(),
    ensures
        forall|voter: Seq<u8>| #[trigger]
            signers_upto(items, vote, n).contains(voter) <==> exists|i: int|
                0 <= i < n && (#[trigger] items[i]).is_vote_for(vote) && items[i]->Vote_0.voter
                    == voter,
    decreases n,
{
    if n > 0 {
        lemma_signers_are_voters(items, vote, (n - 1) as nat);
        let before = signers_upto(items, vote, (n - 1) as nat);
        let now = signers_upto(items, vote, n);
        assert forall|voter: Seq<u8>| #[trigger] now.contains(voter) <==> exists|i: int|
            0 <= i < n && (#[trigger] items[i]).is_vote_for(vote) && items[i]->Vote_0.voter
                == voter by {
            if items[n - 1].is_vote_for(vote) {
                let last = items[n - 1]->Vote_0.voter;
                assert(now == before.push(last));
                if now.contains(voter) {
                    let k = choose|k: int| 0 <= k < now.len() && now[k] == voter;
                    if k < before.len() {
                        assert(before[k] == voter);
                        assert(before.contains(voter));
                        let i = choose|i: int|
                            0 <= i < n - 1 && (#[trigger] items[i]).is_vote_for(vote)
                                && items[i]->Vote_0.voter == voter;
                        assert(0 <= i < n && items[i].is_vote_for(vote));
                    } else {
                        assert(items[n - 1].is_vote_for(vote));
                    }
                }
                if exists|i: int|
                    0 <= i < n && (#[trigger] items[i]).is_vote_for(vote) && items[i]->Vote_0.voter
                        == voter {
                    let i = choose|i: int|
                        0 <= i < n && (#[trigger] items[i]).is_vote_for(vote)
                            && items[i]->Vote_0.voter == voter;
                    if i == n - 1 {
                        assert(now[before.len() as int] == voter);
                    } else {
                        assert(before.contains(voter));
                        let k = choose|k: int| 0 <= k < before.len() && before[k] == voter;
                        assert(now[k] == voter);
                    }
                }
            } else {
                assert(now == before);
                if exists|i: int|
                    0 <= i < n && (#[trigger] items[i]).is_vote_for(vote) && items[i]->Vote_0.voter
                        == voter {
                    let i = choose|i: int|
                        0 <= i < n && (#[trigger] items[i]).is_vote_for(vote)
                            && items[i]->Vote_0.voter == voter;
                    assert(i < n - 1);
                }
            }
        }
    }
}

/// No double counting. A vote that the store does not hold yet adds the
/// weight of its voter to the weight behind the vote, and nothing else:
/// the cumulative weight is the sum of the weights of the distinct voters.
pub proof fn lemma_offer_vote_adds_weight<T>(
    shelf: Shelf<T>,
    nodes: Seq<NodeView>,
    sv: SignedVoteView,
    k: int,
)
    requires
        sorted(nodes),
        0 <= k < nodes.len(),
        nodes[k].address == sv.voter,
        !shelf.has_vote(sv.vote, sv.voter),
    ensures
        shelf.offer_vote(nodes, sv).0.vote_weight(nodes, sv.vote) == shelf.vote_weight(
            nodes,
            sv.vote,
        ) + nodes[k].vote_weight,
{
    let stored = shelf.with(ItemView::Vote(sv));
    let n = shelf.items.len();
    assert(has_address(nodes, sv.voter));
    lemma_push_keeps_votes(shelf.items, ItemView::Vote(sv), sv.vote, n);
    assert(stored.items[n as int].is_vote_for(sv.vote));
    assert(stored.signers(sv.vote) == shelf.signers(sv.vote).push(sv.voter));
    lemma_signers_are_voters(shelf.items, sv.vote, n);
    lemma_new_signer_adds_weight(nodes, shelf.signers(sv.vote), k);
    let after = shelf.offer_vote(nodes, sv).0;
    if after != stored {
        let mark = ItemView::<T>::Winner {
            height: sv.vote.height,
            round: sv.vote.round,
            kind: Kind::of(sv.vote.vote_type),
        };
        assert(after == stored.with(mark));
        lemma_push_keeps_votes(stored.items, mark, sv.vote, stored.items.len());
    }
}

/// No double counting. Offering a vote that the store holds already changes
/// nothing: neither the store nor the weight behind any vote.
pub proof fn lemma_offer_vote_idempotent<T>(shelf: Shelf<T>, nodes: Seq<NodeView>, sv: SignedVoteView)
    requires
        has_address(nodes, sv.voter),
    ensures
        ({
            let once = shelf.offer_vote(nodes, sv).0;
            let twice = once.offer_vote(nodes, sv);
            &&& twice.0 == once
            &&& twice.1 == Err::<Option<CumWeightView>, OverlordError>(
                OverlordError::debug_spec(ErrorInfo::Duplicate),
            )
        }),
{
    let once = shelf.offer_vote(nodes, sv).0;
    if shelf.has_vote(sv.vote, sv.voter) {
        assert(once == shelf);
    } else {
        let stored = shelf.with(ItemView::Vote(sv));
        let k = shelf.items.len() as int;
        assert(stored.items[k].is_vote_for(sv.vote));
        assert(once.items[k] == stored.items[k]);
        assert(once.has_vote(sv.vote, sv.voter));
    }
}

/// No double counting. The weight of a list of signers is the weight of
/// the validators that occur in it: two lists in which the same addresses
/// occur weigh the same, however often and in whatever order they occur.
pub proof fn lemma_weight_counts_signers_once(
    nodes: Seq<NodeView>,
    a: Seq<Seq<u8>>,
    b: Seq<Seq<u8>>,
)
    requires
        forall|x: Seq<u8>| a.contains(x) <==> b.contains(x),
    ensures
        picked_weight(nodes, flags_of(nodes, a)) == picked_weight(nodes, flags_of(nodes, b)),
{
    assert(flags_of(nodes, a) =~= flags_of(nodes, b));
}

/// No double counting. The weight behind a vote is the weight of the
/// validators that signed it, each counted once whatever the store holds of
/// it, and so never more than the weight of all validators.
pub proof fn lemma_vote_weight_bounded<T>(shelf: Shelf<T>, nodes: Seq<NodeView>, vote: VoteView)
    ensures
        shelf.vote_weight(nodes, vote) <= total_weight(nodes),
{
    lemma_picked_weight_bound(nodes, flags_of(nodes, shelf.signers(vote)));
}

/// The store of a replica.
#[derive(Debug)]
pub struct Cabinet<T> {
    /// Everything taken in, in the order of arrival.
    pub items: Vec<Item<T>>,
}

impl<T> View for Cabinet<T> {
    type V = Shelf<T>;

    open spec fn view(&self) -> Shelf<T> {
        Shelf { items: item_views(self.items@) }
    }
}

impl<T> Cabinet<T> {
    /// An empty store.
    pub fn new() -> (r: Self)
        ensures
            r@.items == Seq::<ItemView<T>>::empty(),
    {
        let r = Cabinet { items: Vec::new() };
        proof {
            assert(r@.items =~= Seq::<ItemView<T>>::empty());
        }
        r
    }

    /// Puts one more item on the shelf.
    fn put(&mut self, item: Item<T>)
        ensures
            final(self)@ == old(self)@.with(item@),
    {
        self.items.push(item);
        proof {
            assert(final(self)@.items =~= old(self)@.items.push(item@));
        }
    }

    /// The signed votes for `vote`, in the order of their arrival.
    pub fn get_signed_votes(&self, vote: &Vote) -> (r: Vec<SignedVote>)
        ensures
            vote_views(r@) == self@.votes(vote@),
    {
        let ghost items = self@.items;
        let mut out: Vec<SignedVote> = Vec::new();
        let mut i: usize = 0;
        while i < self.items.len()
            invariant
                items == self@.items,
                i <= self.items.len(),
                vote_views(out@) =~= votes_upto(items, vote@, i as nat),
            decreases self.items.len() - i,
        {
            match &self.items[i] {
                Item::Vote(sv) => {
                    if same_vote(&sv.vote, vote) {
                        out.push(sv.clone());
                    }
                },
                _ => {},
            }
            i += 1;
        }
        out
    }

    /// The signers of `vote`, in the order of their arrival.
    pub fn get_signers(&self, vote: &Vote) -> (r: Vec<Address>)
        ensures
            address_views(r@) == self@.signers(vote@),
    {
        let ghost items = self@.items;
        let mut out: Vec<Address> = Vec::new();
        let mut i: usize = 0;
        while i < self.items.len()
            invariant
                items == self@.items,
                i <= self.items.len(),
                address_views(out@) =~= signers_upto(items, vote@, i as nat),
            decreases self.items.len() - i,
        {
            match &self.items[i] {
                Item::Vote(sv) => {
                    if same_vote(&sv.vote, vote) {
                        out.push(bytes_clone(&sv.voter));
                    }
                },
                _ => {},
            }
            i += 1;
        }
        out
    }

    /// The signed chokes for a round, in the order of their arrival.
    pub fn get_signed_chokes(&self, height: u64, round: u64) -> (r: Vec<SignedChoke>)
        ensures
            choke_views(r@) == self@.chokes(Choke { height, round }),
    {
        let ghost items = self@.items;
        let choke = Choke { height, round };
        let mut out: Vec<SignedChoke> = Vec::new();
        let mut i: usize = 0;
        while i < self.items.len()
            invariant
                items == self@.items,
                choke == (Choke { height, round }),
                i <= self.items.len(),
                choke_views(out@) =~= chokes_upto(items, choke, i as nat),
            decreases self.items.len() - i,
        {
            match &self.items[i] {
                Item::Choke(sc) => {
                    if sc.choke == choke {
                        out.push(sc.clone());
                    }
                },
                _ => {},
            }
            i += 1;
        }
        out
    }

    /// The signers of the chokes for a round, in the order of their arrival.
    pub fn get_chokers(&self, height: u64, round: u64) -> (r: Vec<Address>)
        ensures
            address_views(r@) == self@.chokers(Choke { height, round }),
    {
        let ghost items = self@.items;
        let choke = Choke { height, round };
        let mut out: Vec<Address> = Vec::new();
        let mut i: usize = 0;
        while i < self.items.len()
            invariant
                items == self@.items,
                choke == (Choke { height, round }),
                i <= self.items.len(),
                address_views(out@) =~= chokers_upto(items, choke, i as nat),
            decreases self.items.len() - i,
        {
            match &self.items[i] {
                Item::Choke(sc) => {
                    if sc.choke == choke {
                        out.push(bytes_clone(&sc.voter));
                    }
                },
                _ => {},
            }
            i += 1;
        }
        out
    }

    /// Whether the store holds the vote of `voter` for `vote`.
    pub fn has_vote(&self, vote: &Vote, voter: &Address) -> (r: bool)
        ensures
            r == self@.has_vote(vote@, voter@),
    {
        let ghost items = self@.items;
        let mut i: usize = 0;
        while i < self.items.len()
            invariant
                items == self@.items,
                i <= self.items.len(),
                forall|j: int|
                    0 <= j < i ==> !((#[trigger] items[j]).is_vote_for(vote@)
                        && items[j]->Vote_0.voter == voter@),
            decreases self.items.len() - i,
        {
            match &self.items[i] {
                Item::Vote(sv) => {
                    if same_vote(&sv.vote, vote) && bytes_eq(&sv.voter, voter) {
                        proof {
                            assert(items[i as int].is_vote_for(vote@));
                        }
                        return true;
                    }
                },
                _ => {},
            }
            i += 1;
        }
        false
    }

    /// Whether the store holds the choke of `voter` for a round.
    pub fn has_choke(&self, height: u64, round: u64, voter: &Address) -> (r: bool)
        ensures
            r == self@.has_choke(Choke { height, round }, voter@),
    {
        let ghost items = self@.items;
        let choke = Choke { height, round };
        let mut i: usize = 0;
        while i < self.items.len()
            invariant
                items == self@.items,
                choke == (Choke { height, round }),
                i <= self.items.len(),
                forall|j: int|
                    0 <= j < i ==> !((#[trigger] items[j]).is_choke_for(choke)
                        && items[j]->Choke_0.voter == voter@),
            decreases self.items.len() - i,
        {
            match &self.items[i] {
                Item::Choke(sc) => {
                    if sc.choke == choke && bytes_eq(&sc.voter, voter) {
                        proof {
                            assert(items[i as int].is_choke_for(choke));
                        }
                        return true;
                    }
                },
                _ => {},
            }
            i += 1;
        }
        false
    }

    /// Whether a quorum of the given kind has been reported for the round.
    pub fn has_winner(&self, height: u64, round: u64, kind: Kind) -> (r: bool)
        ensures
            r == self@.has_winner(height, round, kind),
    {
        let ghost items = self@.items;
        let ghost mark = ItemView::<T>::Winner { height, round, kind };
        let mut i: usize = 0;
        while i < self.items.len()
            invariant
                items == self@.items,
                mark == (ItemView::<T>::Winner { height, round, kind }),
                i <= self.items.len(),
                forall|j: int| 0 <= j < i ==> items[j] != mark,
            decreases self.items.len() - i,
        {
            match &self.items[i] {
                Item::Winner { height: h, round: r, kind: k } => {
                    if *h == height && *r == round && *k == kind {
                        proof {
                            assert(items[i as int] == mark);
                        }
                        return true;
                    }
                },
                _ => {},
            }
            i += 1;
        }
        false
    }

    /// Takes in a verified signed vote under the validator set of its
    /// height: see [`Shelf::offer_vote`].
    pub fn insert_vote(&mut self, sv: SignedVote, auth: &AuthCell) -> (r: Result<
        Option<CumWeight>,
        OverlordError,
    >)
        ensures
            final(self)@ == old(self)@.offer_vote(auth@, sv@).0,
            cum_view(r) == old(self)@.offer_vote(auth@, sv@).1,
    {
        if !auth.contains(&sv.voter) {
            return Err(OverlordError::byzantine(ErrorInfo::UnauthorizedSigner));
        }
        if self.has_vote(&sv.vote, &sv.voter) {
            return Err(OverlordError::debug(ErrorInfo::Duplicate));
        }
        let vote = sv.vote.clone();
        let kind = Kind::of_vote_type(vote.vote_type);
        let crossed_before: bool = self.has_winner(vote.height, vote.round, kind);
        self.put(Item::Vote(sv));
        let voters = self.get_signers(&vote);
        let weight: u64 = auth.weight_of_voters(&voters);
        if auth.beyond_majority(weight) && !crossed_before {
            self.put(Item::Winner { height: vote.height, round: vote.round, kind });
            Ok(
                Some(
                    CumWeight {
                        cum_weight: weight,
                        kind,
                        round: vote.round,
                        block_hash: Some(bytes_clone(&vote.block_hash)),
                    },
                ),
            )
        } else {
            Ok(None)
        }
    }

    /// Takes in a verified signed choke under the validator set of its
    /// height: see [`Shelf::offer_choke`].
    pub fn insert_choke(&mut self, sc: SignedChoke, auth: &AuthCell) -> (r: Result<
        Option<CumWeight>,
        OverlordError,
    >)
        ensures
            final(self)@ == old(self)@.offer_choke(auth@, sc@).0,
            cum_view(r) == old(self)@.offer_choke(auth@, sc@).1,
    {
        if !auth.contains(&sc.voter) {
            return Err(OverlordError::byzantine(ErrorInfo::UnauthorizedSigner));
        }
        let choke = sc.choke;
        if self.has_choke(choke.height, choke.round, &sc.voter) {
            return Err(OverlordError::debug(ErrorInfo::Duplicate));
        }
        let crossed_before: bool = self.has_winner(choke.height, choke.round, Kind::Choke);
        self.put(Item::Choke(sc));
        let voters = self.get_chokers(choke.height, choke.round);
        let weight: u64 = auth.weight_of_voters(&voters);
        if auth.beyond_majority(weight) && !crossed_before {
            self.put(Item::Winner { height: choke.height, round: choke.round, kind: Kind::Choke });
            Ok(
                Some(
                    CumWeight {
                        cum_weight: weight,
                        kind: Kind::Choke,
                        round: choke.round,
                        block_hash: None,
                    },
                ),
            )
        } else {
            Ok(None)
        }
    }

    /// Takes in a verified proposal and what the consensus core reads of its
    /// block. Only the first proposal of a round is kept.
    pub fn insert_signed_proposal(&mut self, signed: SignedProposal<T>, block: BlockInfo) -> (r:
        Result<(), OverlordError>)
        ensures
            old(self)@.has_proposal(signed.proposal.height, signed.proposal.round) ==> r == Err::<
                (),
                OverlordError,
            >(OverlordError::debug_spec(ErrorInfo::Duplicate)) && final(self)@ == old(self)@,
            !old(self)@.has_proposal(signed.proposal.height, signed.proposal.round) ==> r is Ok
                && final(self)@ == old(self)@.with(
                ItemView::Proposal { signed: signed@, block: block@ },
            ),
    {
        match self.find_proposal(signed.proposal.height, signed.proposal.round) {
            Some(_) => Err(OverlordError::debug(ErrorInfo::Duplicate)),
            None => {
                self.put(Item::Proposal { signed, block });
                Ok(())
            },
        }
    }

    /// The position of the proposal of a round, if the store holds one.
    fn find_proposal(&self, height: u64, round: u64) -> (r: Option<usize>)
        ensures
            r is Some <==> self@.has_proposal(height, round),
            r is Some ==> self@.proposal_at(height, round, r->0 as int),
    {
        let ghost items = self@.items;
        let mut i: usize = 0;
        while i < self.items.len()
            invariant
                items == self@.items,
                i <= self.items.len(),
                forall|j: int| 0 <= j < i ==> !(#[trigger] items[j]).is_proposal_of(height, round),
            decreases self.items.len() - i,
        {
            match &self.items[i] {
                Item::Proposal { signed, block } => {
                    if signed.proposal.height == height && signed.proposal.round == round {
                        proof {
                            assert(items[i as int].is_proposal_of(height, round));
                        }
                        return Some(i);
                    }
                },
                _ => {},
            }
            i += 1;
        }
        None
    }

    /// Takes the proposal of a round out of the store, if the store holds one.
    pub fn take_signed_proposal(&mut self, height: u64, round: u64) -> (r: Option<
        (SignedProposal<T>, BlockInfo),
    >)
        ensures
            r is Some <==> old(self)@.has_proposal(height, round),
            r is None ==> final(self)@ == old(self)@,
            r matches Some(pair) ==> {
                let i = old(self)@.first_proposal(height, round);
                &&& old(self)@.proposal_at(height, round, i)
                &&& old(self)@.items[i] == (ItemView::Proposal {
                    signed: pair.0@,
                    block: pair.1@,
                })
                &&& final(self)@.items == old(self)@.items.remove(i)
            },
    {
        match self.find_proposal(height, round) {
            None => None,
            Some(i) => {
                let ghost before = self@.items;
                proof {
                    lemma_first_unique(self@, height, round, Seq::empty(), i as int);
                }
                let item = self.items.remove(i);
                proof {
                    assert(self@.items =~= before.remove(i as int));
                    assert(before[i as int] == item@);
                }
                match item {
                    Item::Proposal { signed, block } => Some((signed, block)),
                    _ => None,
                }
            },
        }
    }

    /// What the consensus core reads of the block with the given hash, as
    /// the first stored proposal of that block states it.
    pub fn get_block(&self, height: u64, hash: &crate::types::Hash) -> (r: Option<BlockInfo>)
        ensures
            r is Some <==> self@.has_block(height, hash@),
            r is Some ==> self@.items[self@.first_block(height, hash@)]->block == r->0@,
            r is Some ==> self@.block_at(height, hash@, self@.first_block(height, hash@)),
    {
        let ghost items = self@.items;
        let mut i: usize = 0;
        while i < self.items.len()
            invariant
                items == self@.items,
                i <= self.items.len(),
                forall|j: int| 0 <= j < i ==> !(#[trigger] items[j]).proposes_block(height, hash@),
            decreases self.items.len() - i,
        {
            match &self.items[i] {
                Item::Proposal { signed, block } => {
                    if block.height == height && bytes_eq(&block.block_hash, hash) {
                        proof {
                            assert(items[i as int].proposes_block(height, hash@));
                            assert(self@.block_at(height, hash@, i as int));
                            lemma_first_unique(self@, height, 0, hash@, i as int);
                        }
                        return Some(block.clone());
                    }
                },
                _ => {},
            }
            i += 1;
        }
        None
    }

    /// Stores the full content of a block, unless the store holds it already.
    pub fn insert_full_block(&mut self, fetched: FetchedFullBlock)
        ensures
            old(self)@.has_full_block(fetched.height, fetched.block_hash@) ==> final(self)@ == old(self)@,
            !old(self)@.has_full_block(fetched.height, fetched.block_hash@) ==> final(self)@
                == old(self)@.with(ItemView::FullBlock(fetched@)),
    {
        match self.get_full_block(fetched.height, &fetched.block_hash) {
            Some(_) => {},
            None => {
                self.put(Item::FullBlock(fetched));
            },
        }
    }

    /// The full content of the block with the given hash, if it has been fetched.
    pub fn get_full_block(&self, height: u64, hash: &crate::types::Hash) -> (r: Option<
        FetchedFullBlock,
    >)
        ensures
            r is Some <==> self@.has_full_block(height, hash@),
            r is Some ==> self@.items[self@.first_full_block(height, hash@)]->FullBlock_0 == r->0@,
            r is Some ==> self@.full_block_at(
                height,
                hash@,
                self@.first_full_block(height, hash@),
            ),
    {
        let ghost items = self@.items;
        let mut i: usize = 0;
        while i < self.items.len()
            invariant
                items == self@.items,
                i <= self.items.len(),
                forall|j: int|
                    0 <= j < i ==> !(#[trigger] items[j]).is_full_block_of(height, hash@),
            decreases self.items.len() - i,
        {
            match &self.items[i] {
                Item::FullBlock(fetched) => {
                    if fetched.height == height && bytes_eq(&fetched.block_hash, hash) {
                        proof {
                            assert(items[i as int].is_full_block_of(height, hash@));
                            assert(self@.full_block_at(height, hash@, i as int));
                            lemma_first_unique(self@, height, 0, hash@, i as int);
                        }
                        return Some(fetched.clone());
                    }
                },
                _ => {},
            }
            i += 1;
        }
        None
    }

    /// Stores a verified quorum certificate of votes, unless the store holds
    /// one for the same round and phase.
    pub fn insert_qc(&mut self, qc: AggregatedVote)
        ensures
            old(self)@.has_qc(qc.height, qc.round, qc.vote_type) ==> final(self)@ == old(self)@,
            !old(self)@.has_qc(qc.height, qc.round, qc.vote_type) ==> final(self)@ == old(self)@.with(ItemView::VoteQC(qc@)),
    {
        match self.get_qc(qc.height, qc.round, qc.vote_type) {
            Some(_) => {},
            None => {
                self.put(Item::VoteQC(qc));
            },
        }
    }

    /// The quorum certificate of a round and phase, if the store holds one.
    pub fn get_qc(&self, height: u64, round: u64, vote_type: VoteType) -> (r: Option<
        AggregatedVote,
    >)
        ensures
            r is Some <==> self@.has_qc(height, round, vote_type),
            r is Some ==> self@.items[self@.first_qc(height, round, vote_type)]->VoteQC_0 == r->0@,
            r is Some ==> self@.qc_at(
                height,
                round,
                vote_type,
                self@.first_qc(height, round, vote_type),
            ),
    {
        let ghost items = self@.items;
        let mut i: usize = 0;
        while i < self.items.len()
            invariant
                items == self@.items,
                i <= self.items.len(),
                forall|j: int|
                    0 <= j < i ==> !(#[trigger] items[j]).is_qc_of(height, round, vote_type),
            decreases self.items.len() - i,
        {
            match &self.items[i] {
                Item::VoteQC(qc) => {
                    if qc.height == height && qc.round == round && qc.vote_type == vote_type {
                        proof {
                            assert(items[i as int].is_qc_of(height, round, vote_type));
                            assert(self@.qc_at(height, round, vote_type, i as int));
                            lemma_first_qc_unique(
                                self@,
                                height,
                                round,
                                Seq::empty(),
                                vote_type,
                                i as int,
                            );
                        }
                        return Some(qc.clone());
                    }
                },
                _ => {},
            }
            i += 1;
        }
        None
    }

    /// The quorum certificates for the block with the given hash, in the
    /// order of their arrival.
    pub fn get_qcs_for_block(&self, height: u64, hash: &crate::types::Hash) -> (r: Vec<
        AggregatedVote,
    >)
        ensures
            qc_views(r@) == qcs_upto(self@.items, height, hash@, self@.items.len()),
    {
        let ghost items = self@.items;
        let mut out: Vec<AggregatedVote> = Vec::new();
        let mut i: usize = 0;
        while i < self.items.len()
            invariant
                items == self@.items,
                i <= self.items.len(),
                qc_views(out@) =~= qcs_upto(items, height, hash@, i as nat),
            decreases self.items.len() - i,
        {
            match &self.items[i] {
                Item::VoteQC(qc) => {
                    if qc.height == height && bytes_eq(&qc.block_hash, hash) {
                        out.push(qc.clone());
                    }
                },
                _ => {},
            }
            i += 1;
        }
        out
    }

    /// The first quorum certificate of the phase for the block with the
    /// given hash, if the store holds one.
    pub fn get_qc_by_hash(&self, height: u64, hash: &crate::types::Hash, vote_type: VoteType) -> (r:
        Option<AggregatedVote>)
        ensures
            r is Some <==> self@.has_typed_qc(height, hash@, vote_type),
            r is Some ==> self@.items[self@.first_typed_qc(height, hash@, vote_type)]->VoteQC_0
                == r->0@,
            r is Some ==> self@.typed_qc_at(
                height,
                hash@,
                vote_type,
                self@.first_typed_qc(height, hash@, vote_type),
            ),
    {
        let ghost items = self@.items;
        let mut i: usize = 0;
        while i < self.items.len()
            invariant
                items == self@.items,
                i <= self.items.len(),
                forall|j: int|
                    0 <= j < i ==> !(#[trigger] items[j]).is_typed_qc_for(height, hash@, vote_type),
            decreases self.items.len() - i,
        {
            match &self.items[i] {
                Item::VoteQC(qc) => {
                    if qc.height == height && qc.vote_type == vote_type && bytes_eq(
                        &qc.block_hash,
                        hash,
                    ) {
                        proof {
                            assert(items[i as int].is_typed_qc_for(height, hash@, vote_type));
                            assert(self@.typed_qc_at(height, hash@, vote_type, i as int));
                            lemma_first_qc_unique(self@, height, 0, hash@, vote_type, i as int);
                        }
                        return Some(qc.clone());
                    }
                },
                _ => {},
            }
            i += 1;
        }
        None
    }

    /// Stores a signed vote as it is, unless the store holds it already.
    /// Returns whether the vote was new.
    pub fn store_vote(&mut self, sv: SignedVote) -> (r: bool)
        ensures
            r == !old(self)@.has_vote(sv@.vote, sv@.voter),
            final(self)@ == if r {
                old(self)@.with(ItemView::Vote(sv@))
            } else {
                old(self)@
            },
    {
        if self.has_vote(&sv.vote, &sv.voter) {
            return false;
        }
        self.put(Item::Vote(sv));
        true
    }

    /// The blocks that have been voted for in a round and phase, each once,
    /// in the order of their first vote.
    pub fn get_voted_hashes(&self, height: u64, round: u64, vote_type: VoteType) -> (r: Vec<
        crate::types::Hash,
    >)
        ensures
            address_views(r@) == self@.voted_hashes(height, round, vote_type),
    {
        let ghost items = self@.items;
        let mut out: Vec<crate::types::Hash> = Vec::new();
        let mut i: usize = 0;
        while i < self.items.len()
            invariant
                items == self@.items,
                i <= self.items.len(),
                address_views(out@) =~= hashes_upto(items, height, round, vote_type, i as nat),
            decreases self.items.len() - i,
        {
            match &self.items[i] {
                Item::Vote(sv) => {
                    if sv.vote.height == height && sv.vote.round == round && sv.vote.vote_type
                        == vote_type && !crate::auth::contains_address(&out, &sv.vote.block_hash) {
                        out.push(bytes_clone(&sv.vote.block_hash));
                    }
                },
                _ => {},
            }
            i += 1;
        }
        out
    }

    /// Stores a verified quorum certificate of chokes.
    pub fn insert_choke_qc(&mut self, qc: ChokeQC)
        ensures
            final(self)@ == old(self)@.with(ItemView::ChokeQC(qc@)),
    {
        self.put(Item::ChokeQC(qc));
    }

    /// Keeps a message of a later height, unverified, until that height is reached.
    pub fn buffer(&mut self, capsule: Capsule<T>)
        ensures
            final(self)@ == old(self)@.with(ItemView::Pending(capsule@)),
    {
        self.put(Item::Pending(capsule));
    }

    /// Takes the first waiting proposal of a round out of the store, if there is one.
    pub fn take_buffered_proposal(&mut self, height: u64, round: u64) -> (r: Option<
        SignedProposal<T>,
    >)
        ensures
            r is Some <==> old(self)@.has_pending_proposal(height, round),
            r is None ==> final(self)@ == old(self)@,
            r is Some ==> {
                let i = old(self)@.first_pending_proposal(height, round);
                &&& old(self)@.pending_proposal_at(height, round, i)
                &&& old(self)@.items[i] == ItemView::Pending(CapsuleView::SignedProposal(r->0@))
                &&& final(self)@.items == old(self)@.items.remove(i)
            },
    {
        let ghost items = self@.items;
        let mut i: usize = 0;
        let mut found: Option<usize> = None;
        while i < self.items.len() && found.is_none()
            invariant
                items == self@.items,
                i <= self.items.len(),
                found is None ==> forall|j: int|
                    0 <= j < i ==> !(#[trigger] items[j]).is_pending_proposal_of(height, round),
                found is Some ==> self@.pending_proposal_at(height, round, found->0 as int),
            decreases self.items.len() - i + if found is None { 1int } else { 0int },
        {
            let hit: bool = match &self.items[i] {
                Item::Pending(Capsule::SignedProposal(sp)) => sp.proposal.height == height
                    && sp.proposal.round == round,
                _ => false,
            };
            if hit {
                proof {
                    assert(items[i as int].is_pending_proposal_of(height, round));
                }
                found = Some(i);
            } else {
                i += 1;
            }
        }
        match found {
            None => None,
            Some(k) => {
                proof {
                    let c = self@.first_pending_proposal(height, round);
                    if c < k {
                        assert(items[c].is_pending_proposal_of(height, round));
                    } else if k < c {
                        assert(items[k as int].is_pending_proposal_of(height, round));
                    }
                }
                let item = self.items.remove(k);
                proof {
                    assert(self@.items =~= items.remove(k as int));
                    assert(items[k as int] == item@);
                }
                match item {
                    Item::Pending(Capsule::SignedProposal(sp)) => Some(sp),
                    _ => None,
                }
            },
        }
    }

    /// Takes the messages that wait for `height` out of the store, in the
    /// order of their arrival. Everything else stays, in its order.
    pub fn take_buffered(&mut self, height: u64) -> (r: Vec<Capsule<T>>)
        ensures
            capsule_views(r@) == pending_upto(
                old(self)@.items,
                height,
                old(self)@.items.len(),
            ),
            final(self)@.items == settled_upto(old(self)@.items, height, old(self)@.items.len()),
    {
        let mut old_items: Vec<Item<T>> = Vec::new();
        core::mem::swap(&mut self.items, &mut old_items);
        let ghost all = item_views(old_items@);
        let ghost raw = old_items@;
        let mut out: Vec<Capsule<T>> = Vec::new();
        for item in it: old_items.into_iter()
            invariant
                it.seq() == raw,
                all == item_views(raw),
                capsule_views(out@) =~= pending_upto(all, height, it.index() as nat),
                item_views(self.items@) =~= settled_upto(all, height, it.index() as nat),
        {
            let ghost k = it.index() as int;
            proof {
                assert(all[k] == item@);
            }
            match item {
                Item::Pending(capsule) => {
                    if capsule.height() == height {
                        out.push(capsule);
                    } else {
                        self.items.push(Item::Pending(capsule));
                    }
                },
                other => {
                    self.items.push(other);
                },
            }
        }
        out
    }

    /// A block has been committed and `next_height` begins: everything that
    /// belongs to a lower height leaves the store; everything else stays, in
    /// its order.
    pub fn handle_commit(&mut self, next_height: u64)
        ensures
            final(self)@.items == kept_upto(
                old(self)@.items,
                next_height,
                old(self)@.items.len(),
            ),
    {
        let mut old_items: Vec<Item<T>> = Vec::new();
        core::mem::swap(&mut self.items, &mut old_items);
        let ghost all = item_views(old_items@);
        let ghost raw = old_items@;
        for item in it: old_items.into_iter()
            invariant
                it.seq() == raw,
                all == item_views(raw),
                item_views(self.items@) =~= kept_upto(all, next_height, it.index() as nat),
        {
            let ghost k = it.index() as int;
            proof {
                assert(all[k] == item@);
            }
            if item_height(&item) >= next_height {
                self.items.push(item);
            }
        }
    }
}

/// The height an item belongs to.
pub fn item_height<T>(item: &Item<T>) -> (r: u64)
    ensures
        r == item@.height(),
{
    match item {
        Item::Proposal { signed, block } => signed.proposal.height,
        Item::Vote(m) => m.vote.height,
        Item::Choke(m) => m.choke.height,
        Item::VoteQC(m) => m.height,
        Item::ChokeQC(m) => m.choke.height,
        Item::FullBlock(m) => m.height,
        Item::Winner { height, round, kind } => *height,
        Item::Pending(m) => m.height(),
    }
}

impl<T> Shelf<T> {
    /// The first proposal of the round stands at position `i`.
    pub open spec fn proposal_at(self, height: u64, round: u64, i: int) -> bool {
        &&& 0 <= i < self.items.len()
        &&& self.items[i].is_proposal_of(height, round)
        &&& forall|j: int| 0 <= j < i ==> !(#[trigger] self.items[j]).is_proposal_of(height, round)
    }

    /// The position of the first proposal of the round.
    pub open spec fn first_proposal(self, height: u64, round: u64) -> int {
        choose|i: int| self.proposal_at(height, round, i)
    }

    /// The position of the first proposal of the block.
    pub open spec fn first_block(self, height: u64, hash: Seq<u8>) -> int {
        choose|i: int| self.block_at(height, hash, i)
    }

    /// The position of the first copy of the block's content.
    pub open spec fn first_full_block(self, height: u64, hash: Seq<u8>) -> int {
        choose|i: int| self.full_block_at(height, hash, i)
    }

    /// The store holds a proposal of the round.
    pub open spec fn has_proposal(self, height: u64, round: u64) -> bool {
        exists|i: int|
            0 <= i < self.items.len() && (#[trigger] self.items[i]).is_proposal_of(height, round)
    }

    /// The first proposal of the block stands at position `i`.
    pub open spec fn block_at(self, height: u64, hash: Seq<u8>, i: int) -> bool {
        &&& 0 <= i < self.items.len()
        &&& self.items[i].proposes_block(height, hash)
        &&& forall|j: int| 0 <= j < i ==> !(#[trigger] self.items[j]).proposes_block(height, hash)
    }

    /// The store holds a proposal of the block.
    pub open spec fn has_block(self, height: u64, hash: Seq<u8>) -> bool {
        exists|i: int|
            0 <= i < self.items.len() && (#[trigger] self.items[i]).proposes_block(height, hash)
    }

    /// The first copy of the block's content stands at position `i`.
    pub open spec fn full_block_at(self, height: u64, hash: Seq<u8>, i: int) -> bool {
        &&& 0 <= i < self.items.len()
        &&& self.items[i].is_full_block_of(height, hash)
        &&& forall|j: int|
            0 <= j < i ==> !(#[trigger] self.items[j]).is_full_block_of(height, hash)
    }

    /// The store holds the content of the block.
    pub open spec fn has_full_block(self, height: u64, hash: Seq<u8>) -> bool {
        exists|i: int|
            0 <= i < self.items.len() && (#[trigger] self.items[i]).is_full_block_of(height, hash)
    }

    /// The first waiting proposal of the round stands at position `i`.
    pub open spec fn pending_proposal_at(self, height: u64, round: u64, i: int) -> bool {
        &&& 0 <= i < self.items.len()
        &&& self.items[i].is_pending_proposal_of(height, round)
        &&& forall|j: int|
            0 <= j < i ==> !(#[trigger] self.items[j]).is_pending_proposal_of(height, round)
    }

    /// A proposal of the round waits to be handled.
    pub open spec fn has_pending_proposal(self, height: u64, round: u64) -> bool {
        exists|i: int|
            0 <= i < self.items.len() && (#[trigger] self.items[i]).is_pending_proposal_of(
                height,
                round,
            )
    }

    /// The position of the first waiting proposal of the round.
    pub open spec fn first_pending_proposal(self, height: u64, round: u64) -> int {
        choose|i: int| self.pending_proposal_at(height, round, i)
    }

    /// The first quorum certificate of the phase for the block stands at position `i`.
    pub open spec fn typed_qc_at(self, height: u64, hash: Seq<u8>, vote_type: VoteType, i: int) -> bool {
        &&& 0 <= i < self.items.len()
        &&& self.items[i].is_typed_qc_for(height, hash, vote_type)
        &&& forall|j: int|
            0 <= j < i ==> !(#[trigger] self.items[j]).is_typed_qc_for(height, hash, vote_type)
    }

    /// The store holds a quorum certificate of the phase for the block.
    pub open spec fn has_typed_qc(self, height: u64, hash: Seq<u8>, vote_type: VoteType) -> bool {
        exists|i: int|
            0 <= i < self.items.len() && (#[trigger] self.items[i]).is_typed_qc_for(
                height,
                hash,
                vote_type,
            )
    }

    /// The position of the first quorum certificate of the phase for the block.
    pub open spec fn first_typed_qc(self, height: u64, hash: Seq<u8>, vote_type: VoteType) -> int {
        choose|i: int| self.typed_qc_at(height, hash, vote_type, i)
    }

    /// The position of the first quorum certificate of the round and phase.
    pub open spec fn first_qc(self, height: u64, round: u64, vote_type: VoteType) -> int {
        choose|i: int| self.qc_at(height, round, vote_type, i)
    }

    /// The blocks that have been voted for in a round and phase, each once,
    /// in the order of their first vote.
    pub open spec fn voted_hashes(self, height: u64, round: u64, vote_type: VoteType) -> Seq<
        Seq<u8>,
    > {
        hashes_upto(self.items, height, round, vote_type, self.items.len())
    }

    /// The first quorum certificate of the round and phase stands at position `i`.
    pub open spec fn qc_at(self, height: u64, round: u64, vote_type: VoteType, i: int) -> bool {
        &&& 0 <= i < self.items.len()
        &&& self.items[i].is_qc_of(height, round, vote_type)
        &&& forall|j: int|
            0 <= j < i ==> !(#[trigger] self.items[j]).is_qc_of(height, round, vote_type)
    }

    /// The store holds a quorum certificate of the round and phase.
    pub open spec fn has_qc(self, height: u64, round: u64, vote_type: VoteType) -> bool {
        exists|i: int|
            0 <= i < self.items.len() && (#[trigger] self.items[i]).is_qc_of(
                height,
                round,
                vote_type,
            )
    }
}

/// There is one first proposal of a round, one first proposal of a block
/// and one first copy of a block's content.
pub proof fn lemma_first_unique<T>(shelf: Shelf<T>, height: u64, round: u64, hash: Seq<u8>, i: int)
    ensures
        shelf.proposal_at(height, round, i) ==> shelf.first_proposal(height, round) == i,
        shelf.block_at(height, hash, i) ==> shelf.first_block(height, hash) == i,
        shelf.full_block_at(height, hash, i) ==> shelf.first_full_block(height, hash) == i,
{
    if shelf.proposal_at(height, round, i) {
        let c = shelf.first_proposal(height, round);
        if c < i {
            assert(shelf.items[c].is_proposal_of(height, round));
        } else if i < c {
            assert(shelf.items[i].is_proposal_of(height, round));
        }
    }
    if shelf.block_at(height, hash, i) {
        let c = shelf.first_block(height, hash);
        if c < i {
            assert(shelf.items[c].proposes_block(height, hash));
        } else if i < c {
            assert(shelf.items[i].proposes_block(height, hash));
        }
    }
    if shelf.full_block_at(height, hash, i) {
        let c = shelf.first_full_block(height, hash);
        if c < i {
            assert(shelf.items[c].is_full_block_of(height, hash));
        } else if i < c {
            assert(shelf.items[i].is_full_block_of(height, hash));
        }
    }
}

/// There is one first quorum certificate of a round and phase, and one
/// first quorum certificate of a phase for a block.
pub proof fn lemma_first_qc_unique<T>(
    shelf: Shelf<T>,
    height: u64,
    round: u64,
    hash: Seq<u8>,
    vote_type: VoteType,
    i: int,
)
    ensures
        shelf.qc_at(height, round, vote_type, i) ==> shelf.first_qc(height, round, vote_type) == i,
        shelf.typed_qc_at(height, hash, vote_type, i) ==> shelf.first_typed_qc(
            height,
            hash,
            vote_type,
        ) == i,
{
    if shelf.qc_at(height, round, vote_type, i) {
        let c = shelf.first_qc(height, round, vote_type);
        if c < i {
            assert(shelf.items[c].is_qc_of(height, round, vote_type));
        } else if i < c {
            assert(shelf.items[i].is_qc_of(height, round, vote_type));
        }
    }
    if shelf.typed_qc_at(height, hash, vote_type, i) {
        let c = shelf.first_typed_qc(height, hash, vote_type);
        if c < i {
            assert(shelf.items[c].is_typed_qc_for(height, hash, vote_type));
        } else if i < c {
            assert(shelf.items[i].is_typed_qc_for(height, hash, vote_type));
        }
    }
}

/// The view of the answer to an offered vote or choke.
pub open spec fn cum_view(r: Result<Option<CumWeight>, OverlordError>) -> Result<
    Option<CumWeightView>,
    OverlordError,
> {
    match r {
        Ok(Some(w)) => Ok(Some(w@)),
        Ok(None) => Ok(None),
        Err(e) => Err(e),
    }
}

} // verus!
