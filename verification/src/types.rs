//! Plain data carried by the consensus messages.

use vstd::prelude::*;

verus! {

/// A block hash: an opaque byte string. The empty string stands for "no block".
pub type Hash = Vec<u8>;

/// The identity of a validator: an opaque byte string.
pub type Address = Vec<u8>;

/// A signature produced by the signing scheme of the embedding application.
pub type Signature = Vec<u8>;

/// Byte-wise equality of two byte strings.
pub fn bytes_eq(a: &Vec<u8>, b: &Vec<u8>) -> (r: bool)
    ensures
        r == (a@ == b@),
{
    if a.len() != b.len() {
        return false;
    }
    let mut i: usize = 0;
    while i < a.len()
        invariant
            a.len() == b.len(),
            i <= a.len(),
            forall|j: int| 0 <= j < i ==> a@[j] == b@[j],
        decreases a.len() - i,
    {
        if a[i] != b[i] {
            return false;
        }
        i += 1;
    }
    proof {
        assert(a@ =~= b@);
    }
    true
}

/// A fresh copy of a byte string.
pub fn bytes_clone(a: &Vec<u8>) -> (r: Vec<u8>)
    ensures
        r@ == a@,
{
    a.clone()
}

/// The view of an optional byte string.
pub open spec fn opt_bytes_view(o: Option<Vec<u8>>) -> Option<Seq<u8>> {
    match o {
        Some(b) => Some(b@),
        None => None,
    }
}

/// A fresh copy of an optional byte string.
pub fn opt_bytes_clone(o: &Option<Vec<u8>>) -> (r: Option<Vec<u8>>)
    ensures
        opt_bytes_view(r) == opt_bytes_view(*o),
{
    match o {
        Some(b) => Some(bytes_clone(b)),
        None => None,
    }
}

/// `a` comes before `b` in byte-wise lexicographic order, looking only at
/// the bytes from index `i` on.
pub open spec fn bytes_lt_from(a: Seq<u8>, b: Seq<u8>, i: int) -> bool
    decreases a.len() - i,
{
    if i < 0 || i >= b.len() {
        false
    } else if i >= a.len() {
        true
    } else if a[i] != b[i] {
        a[i] < b[i]
    } else {
        bytes_lt_from(a, b, i + 1)
    }
}

/// `a` comes before `b` in byte-wise lexicographic order.
pub open spec fn bytes_lt(a: Seq<u8>, b: Seq<u8>) -> bool {
    bytes_lt_from(a, b, 0)
}

/// The order on byte strings never puts a string before itself.
pub proof fn lemma_bytes_lt_irreflexive(a: Seq<u8>, i: int)
    requires
        0 <= i,
    ensures
        !bytes_lt_from(a, a, i),
    decreases a.len() - i,
{
    if i < a.len() {
        lemma_bytes_lt_irreflexive(a, i + 1);
    }
}

/// The order on byte strings is transitive.
pub proof fn lemma_bytes_lt_transitive(a: Seq<u8>, b: Seq<u8>, c: Seq<u8>, i: int)
    requires
        0 <= i,
        bytes_lt_from(a, b, i),
        bytes_lt_from(b, c, i),
    ensures
        bytes_lt_from(a, c, i),
    decreases a.len() - i,
{
    if i < a.len() && i < b.len() && i < c.len() && a[i] == b[i] && b[i] == c[i] {
        lemma_bytes_lt_transitive(a, b, c, i + 1);
    }
}

/// Two byte strings that agree before index `i` are equal, or one comes
/// before the other.
pub proof fn lemma_bytes_lt_total(a: Seq<u8>, b: Seq<u8>, i: int)
    requires
        0 <= i <= a.len(),
        i <= b.len(),
        forall|j: int| 0 <= j < i ==> a[j] == b[j],
    ensures
        a == b || bytes_lt_from(a, b, i) || bytes_lt_from(b, a, i),
    decreases a.len() - i,
{
    if i < a.len() && i < b.len() {
        if a[i] == b[i] {
            lemma_bytes_lt_total(a, b, i + 1);
        }
    } else if i == a.len() && i == b.len() {
        assert(a =~= b);
    }
}

/// Whether `a` comes before `b` in byte-wise lexicographic order.
pub fn bytes_before(a: &Vec<u8>, b: &Vec<u8>) -> (r: bool)
    ensures
        r == bytes_lt(a@, b@),
{
    let mut i: usize = 0;
    while i < a.len() && i < b.len()
        invariant
            i <= a.len(),
            i <= b.len(),
            bytes_lt(a@, b@) == bytes_lt_from(a@, b@, i as int),
        decreases a.len() - i,
    {
        if a[i] != b[i] {
            return a[i] < b[i];
        }
        i += 1;
    }
    i < b.len()
}

/// The two voting phases of a round.
#[derive(Clone, Copy, Debug, PartialEq, Eq, Structural, Hash)]
pub enum VoteType {
    /// First phase: a vote that a proposal is acceptable.
    Prevote,
    /// Second phase: a vote to commit a block that gathered a pre-vote quorum.
    Precommit,
}

/// An aggregated signature together with the bitmap of the validators that
/// contributed to it. Bit `i` of the bitmap, counted from the most significant
/// bit of the first byte, stands for the `i`-th validator in address order.
#[derive(Debug, PartialEq, Eq)]
pub struct AggregatedSignature {
    /// The aggregated signature.
    pub signature: Signature,
    /// The voters, one bit per validator.
    pub address_bitmap: Vec<u8>,
}

/// Mathematical value of an [`AggregatedSignature`].
pub struct AggregatedSignatureView {
    pub signature: Seq<u8>,
    pub address_bitmap: Seq<u8>,
}

impl View for AggregatedSignature {
    type V = AggregatedSignatureView;

    open spec fn view(&self) -> AggregatedSignatureView {
        AggregatedSignatureView {
            signature: self.signature@,
            address_bitmap: self.address_bitmap@,
        }
    }
}

impl Clone for AggregatedSignature {
    fn clone(&self) -> (r: Self)
        ensures
            r@ == self@,
    {
        AggregatedSignature {
            signature: bytes_clone(&self.signature),
            address_bitmap: bytes_clone(&self.address_bitmap),
        }
    }
}

/// A quorum certificate: the vote that a quorum of validators signed.
#[derive(Debug, PartialEq, Eq)]
pub struct AggregatedVote {
    /// The aggregated signature and its voters.
    pub signature: AggregatedSignature,
    /// The phase of the votes.
    pub vote_type: VoteType,
    /// The height of the votes.
    pub height: u64,
    /// The round of the votes.
    pub round: u64,
    /// The block that was voted for.
    pub block_hash: Hash,
    /// The leader that assembled the certificate.
    pub leader: Address,
}

/// Mathematical value of an [`AggregatedVote`].
pub struct AggregatedVoteView {
    pub signature: AggregatedSignatureView,
    pub vote_type: VoteType,
    pub height: u64,
    pub round: u64,
    pub block_hash: Seq<u8>,
    pub leader: Seq<u8>,
}

impl View for AggregatedVote {
    type V = AggregatedVoteView;

    open spec fn view(&self) -> AggregatedVoteView {
        AggregatedVoteView {
            signature: self.signature@,
            vote_type: self.vote_type,
            height: self.height,
            round: self.round,
            block_hash: self.block_hash@,
            leader: self.leader@,
        }
    }
}

impl Clone for AggregatedVote {
    fn clone(&self) -> (r: Self)
        ensures
            r@ == self@,
    {
        AggregatedVote {
            signature: self.signature.clone(),
            vote_type: self.vote_type,
            height: self.height,
            round: self.round,
            block_hash: bytes_clone(&self.block_hash),
            leader: bytes_clone(&self.leader),
        }
    }
}

/// A proof of lock change: the pre-vote quorum certificate that justifies a
/// lock, and the round in which it was assembled.
#[derive(Debug, PartialEq, Eq)]
pub struct PoLC {
    /// The round of the lock.
    pub lock_round: u64,
    /// The pre-vote quorum certificate of that round.
    pub lock_votes: AggregatedVote,
}

/// Mathematical value of a [`PoLC`].
pub struct PoLCView {
    pub lock_round: u64,
    pub lock_votes: AggregatedVoteView,
}

impl View for PoLC {
    type V = PoLCView;

    open spec fn view(&self) -> PoLCView {
        PoLCView { lock_round: self.lock_round, lock_votes: self.lock_votes@ }
    }
}

impl Clone for PoLC {
    fn clone(&self) -> (r: Self)
        ensures
            r@ == self@,
    {
        PoLC { lock_round: self.lock_round, lock_votes: self.lock_votes.clone() }
    }
}

/// A vote for a block in one phase of one round.
#[derive(Debug, PartialEq, Eq)]
pub struct Vote {
    pub height: u64,
    pub round: u64,
    pub vote_type: VoteType,
    pub block_hash: Hash,
}

/// Mathematical value of a [`Vote`].
pub struct VoteView {
    pub height: u64,
    pub round: u64,
    pub vote_type: VoteType,
    pub block_hash: Seq<u8>,
}

impl View for Vote {
    type V = VoteView;

    open spec fn view(&self) -> VoteView {
        VoteView {
            height: self.height,
            round: self.round,
            vote_type: self.vote_type,
            block_hash: self.block_hash@,
        }
    }
}

impl Clone for Vote {
    fn clone(&self) -> (r: Self)
        ensures
            r@ == self@,
    {
        Vote {
            height: self.height,
            round: self.round,
            vote_type: self.vote_type,
            block_hash: bytes_clone(&self.block_hash),
        }
    }
}

/// A vote with the address and the signature of its voter.
#[derive(Debug, PartialEq, Eq)]
pub struct SignedVote {
    pub signature: Signature,
    pub vote: Vote,
    pub voter: Address,
}

/// Mathematical value of a [`SignedVote`].
pub struct SignedVoteView {
    pub signature: Seq<u8>,
    pub vote: VoteView,
    pub voter: Seq<u8>,
}

impl View for SignedVote {
    type V = SignedVoteView;

    open spec fn view(&self) -> SignedVoteView {
        SignedVoteView { signature: self.signature@, vote: self.vote@, voter: self.voter@ }
    }
}

impl Clone for SignedVote {
    fn clone(&self) -> (r: Self)
        ensures
            r@ == self@,
    {
        SignedVote {
            signature: bytes_clone(&self.signature),
            vote: self.vote.clone(),
            voter: bytes_clone(&self.voter),
        }
    }
}

impl AggregatedVote {
    /// The vote that the voters of the certificate signed.
    pub fn to_vote(&self) -> (r: Vote)
        ensures
            r@ == (VoteView {
                height: self.height,
                round: self.round,
                vote_type: self.vote_type,
                block_hash: self.block_hash@,
            }),
    {
        Vote {
            height: self.height,
            round: self.round,
            vote_type: self.vote_type,
            block_hash: bytes_clone(&self.block_hash),
        }
    }

    /// Whether the certificate is made of pre-votes.
    pub fn is_prevote_qc(&self) -> (r: bool)
        ensures
            r == (self.vote_type == VoteType::Prevote),
    {
        self.vote_type == VoteType::Prevote
    }
}

/// The view of an optional proof of lock change.
pub open spec fn opt_polc_view(o: Option<PoLC>) -> Option<PoLCView> {
    match o {
        Some(p) => Some(p@),
        None => None,
    }
}

/// A fresh copy of an optional proof of lock change.
pub fn opt_polc_clone(o: &Option<PoLC>) -> (r: Option<PoLC>)
    ensures
        opt_polc_view(r) == opt_polc_view(*o),
{
    match o {
        Some(p) => Some(p.clone()),
        None => None,
    }
}

/// The view of an optional quorum certificate.
pub open spec fn opt_qc_view(o: Option<AggregatedVote>) -> Option<AggregatedVoteView> {
    match o {
        Some(p) => Some(p@),
        None => None,
    }
}

/// A fresh copy of an optional quorum certificate.
pub fn opt_qc_clone(o: &Option<AggregatedVote>) -> (r: Option<AggregatedVote>)
    ensures
        opt_qc_view(r) == opt_qc_view(*o),
{
    match o {
        Some(p) => Some(p.clone()),
        None => None,
    }
}

/// A proposal: a block for a height and round, its hash, the lock that
/// justifies re-proposing it (if any), and who proposes. The block itself is
/// opaque to the consensus core.
#[derive(Debug, PartialEq, Eq)]
pub struct Proposal<T> {
    pub height: u64,
    pub round: u64,
    pub content: T,
    pub block_hash: Hash,
    pub lock: Option<PoLC>,
    pub proposer: Address,
}

/// Mathematical value of a [`Proposal`].
pub struct ProposalView<T> {
    pub height: u64,
    pub round: u64,
    pub content: T,
    pub block_hash: Seq<u8>,
    pub lock: Option<PoLCView>,
    pub proposer: Seq<u8>,
}

impl<T> View for Proposal<T> {
    type V = ProposalView<T>;

    open spec fn view(&self) -> ProposalView<T> {
        ProposalView {
            height: self.height,
            round: self.round,
            content: self.content,
            block_hash: self.block_hash@,
            lock: opt_polc_view(self.lock),
            proposer: self.proposer@,
        }
    }
}

/// A proposal with the signature of its proposer.
#[derive(Debug, PartialEq, Eq)]
pub struct SignedProposal<T> {
    pub signature: Signature,
    pub proposal: Proposal<T>,
}

/// Mathematical value of a [`SignedProposal`].
pub struct SignedProposalView<T> {
    pub signature: Seq<u8>,
    pub proposal: ProposalView<T>,
}

impl<T> View for SignedProposal<T> {
    type V = SignedProposalView<T>;

    open spec fn view(&self) -> SignedProposalView<T> {
        SignedProposalView { signature: self.signature@, proposal: self.proposal@ }
    }
}

/// What the consensus core reads of a block.
#[derive(Debug, PartialEq, Eq)]
pub struct BlockInfo {
    /// The height the block is made for.
    pub height: u64,
    /// The height up to which the block takes execution results into account.
    pub exec_height: u64,
    /// The hash of the block of the previous height.
    pub pre_hash: Hash,
    /// The hash of the block itself.
    pub block_hash: Hash,
}

/// Mathematical value of a [`BlockInfo`].
pub struct BlockInfoView {
    pub height: u64,
    pub exec_height: u64,
    pub pre_hash: Seq<u8>,
    pub block_hash: Seq<u8>,
}

impl View for BlockInfo {
    type V = BlockInfoView;

    open spec fn view(&self) -> BlockInfoView {
        BlockInfoView {
            height: self.height,
            exec_height: self.exec_height,
            pre_hash: self.pre_hash@,
            block_hash: self.block_hash@,
        }
    }
}

impl Clone for BlockInfo {
    fn clone(&self) -> (r: Self)
        ensures
            r@ == self@,
    {
        BlockInfo {
            height: self.height,
            exec_height: self.exec_height,
            pre_hash: bytes_clone(&self.pre_hash),
            block_hash: bytes_clone(&self.block_hash),
        }
    }
}

/// The announcement that a replica gives up on a round.
#[derive(Clone, Copy, Debug, PartialEq, Eq, Structural)]
pub struct Choke {
    pub height: u64,
    pub round: u64,
}

/// A quorum of chokes for one round.
#[derive(Debug, PartialEq, Eq)]
pub struct ChokeQC {
    pub choke: Choke,
    pub signature: AggregatedSignature,
}

/// Mathematical value of a [`ChokeQC`].
pub struct ChokeQCView {
    pub choke: Choke,
    pub signature: AggregatedSignatureView,
}

impl View for ChokeQC {
    type V = ChokeQCView;

    open spec fn view(&self) -> ChokeQCView {
        ChokeQCView { choke: self.choke, signature: self.signature@ }
    }
}

impl Clone for ChokeQC {
    fn clone(&self) -> (r: Self)
        ensures
            r@ == self@,
    {
        ChokeQC { choke: self.choke, signature: self.signature.clone() }
    }
}

/// The strongest certificate a replica knows when it chokes: the evidence
/// from which a replica that lags behind can catch up.
#[derive(Debug, PartialEq, Eq)]
pub enum UpdateFrom {
    PreVoteQC(AggregatedVote),
    PreCommitQC(AggregatedVote),
    ChokeQC(ChokeQC),
}

/// Mathematical value of an [`UpdateFrom`].
pub enum UpdateFromView {
    PreVoteQC(AggregatedVoteView),
    PreCommitQC(AggregatedVoteView),
    ChokeQC(ChokeQCView),
}

impl View for UpdateFrom {
    type V = UpdateFromView;

    open spec fn view(&self) -> UpdateFromView {
        match *self {
            UpdateFrom::PreVoteQC(qc) => UpdateFromView::PreVoteQC(qc@),
            UpdateFrom::PreCommitQC(qc) => UpdateFromView::PreCommitQC(qc@),
            UpdateFrom::ChokeQC(qc) => UpdateFromView::ChokeQC(qc@),
        }
    }
}

impl Clone for UpdateFrom {
    fn clone(&self) -> (r: Self)
        ensures
            r@ == self@,
    {
        match self {
            UpdateFrom::PreVoteQC(qc) => UpdateFrom::PreVoteQC(qc.clone()),
            UpdateFrom::PreCommitQC(qc) => UpdateFrom::PreCommitQC(qc.clone()),
            UpdateFrom::ChokeQC(qc) => UpdateFrom::ChokeQC(qc.clone()),
        }
    }
}

/// A choke with the address and the signature of its sender, and the
/// evidence the sender knows.
#[derive(Debug, PartialEq, Eq)]
pub struct SignedChoke {
    pub signature: Signature,
    pub choke: Choke,
    pub voter: Address,
    pub from: Option<UpdateFrom>,
}

/// Mathematical value of a [`SignedChoke`].
pub struct SignedChokeView {
    pub signature: Seq<u8>,
    pub choke: Choke,
    pub voter: Seq<u8>,
    pub from: Option<UpdateFromView>,
}

impl View for SignedChoke {
    type V = SignedChokeView;

    open spec fn view(&self) -> SignedChokeView {
        SignedChokeView {
            signature: self.signature@,
            choke: self.choke,
            voter: self.voter@,
            from: match self.from {
                Some(f) => Some(f@),
                None => None,
            },
        }
    }
}

impl Clone for SignedChoke {
    fn clone(&self) -> (r: Self)
        ensures
            r@ == self@,
    {
        SignedChoke {
            signature: bytes_clone(&self.signature),
            choke: self.choke,
            voter: bytes_clone(&self.voter),
            from: match &self.from {
                Some(f) => Some(f.clone()),
                None => None,
            },
        }
    }
}

} // verus!
