//! Why no two different blocks are committed at one height.
//!
//! Any two quorums share a correct validator. A correct validator votes
//! once in each phase of a round, pre-commits only for a block that has
//! gathered a pre-vote quorum in that round, and, once it has pre-committed
//! for a block, pre-votes for another block only after that other block has
//! gathered a pre-vote quorum in a later round. From these rules it follows
//! that the blocks of any two pre-commit quorums of a height are the same.
//!
//! A replica commits a block only on a quorum certificate that has passed
//! its check. Where the signature scheme is sound, the signers that such a
//! certificate names have signed, so the certificate shows a pre-commit
//! quorum, and two replicas with the same validators commit the same block.

use vstd::prelude::*;

use crate::auth::{
    beyond_majority_spec, both, flags_of, lemma_picked_weight_monotonic,
    lemma_picked_weight_positive, lemma_picked_weight_prefix_flags, lemma_shared_weight,
    picked_weight, qc_verdict, total_weight, voters_of, votes_aggregate, NodeView,
};
use crate::bitmap::{fits, lemma_pack_unpack, pack_spec, unpack_spec};
use crate::smr::certificate::lemma_commit_needs_certificate;
use crate::smr::Replica;
use crate::types::{AggregatedVoteView, SignedVoteView};

verus! {

/// The flags of `a` without those that `b` has set too.
pub open spec fn without(a: Seq<bool>, b: Seq<bool>) -> Seq<bool> {
    Seq::new(a.len(), |i: int| a[i] && !(i < b.len() && b[i]))
}

/// A choice of validators weighs no more than those of them that are in a
/// second choice and those of them that are not, taken together.
pub proof fn lemma_split_weight(nodes: Seq<NodeView>, a: Seq<bool>, b: Seq<bool>)
    ensures
        picked_weight(nodes, a) <= picked_weight(nodes, b) + picked_weight(nodes, without(a, b)),
    decreases nodes.len(),
{
    if nodes.len() > 0 {
        lemma_split_weight(nodes.drop_last(), a, b);
    }
}

/// Any two quorums of one validator set share a correct validator, as long
/// as the faulty validators hold no more than a third of the weight.
pub proof fn lemma_quorums_share_correct(
    nodes: Seq<NodeView>,
    a: Seq<bool>,
    b: Seq<bool>,
    faulty: Seq<bool>,
)
    requires
        beyond_majority_spec(total_weight(nodes), picked_weight(nodes, a)),
        beyond_majority_spec(total_weight(nodes), picked_weight(nodes, b)),
        3 * picked_weight(nodes, faulty) <= total_weight(nodes),
    ensures
        exists|i: int|
            0 <= i < nodes.len() && i < a.len() && i < b.len() && #[trigger] a[i] && b[i] && !(i
                < faulty.len() && faulty[i]),
{
    let shared = both(a, b);
    let correct = without(shared, faulty);
    lemma_shared_weight(nodes, a, b);
    lemma_split_weight(nodes, shared, faulty);
    lemma_picked_weight_positive(nodes, correct);
    let i = choose|i: int| 0 <= i < nodes.len() && i < correct.len() && correct[i];
    assert(shared[i]);
    assert(a[i] && b[i] && !(i < faulty.len() && faulty[i]));
}

/// Two quorum certificates that pass the check against one validator set
/// were both signed by a correct validator, as long as the faulty validators
/// hold no more than a third of the weight. So two different blocks gather
/// certificates of the same round and phase only where a correct validator
/// has signed two different votes in that round and phase, which a correct
/// validator never does.
pub proof fn lemma_certificates_share_correct(
    nodes: Seq<NodeView>,
    bitmap_a: Seq<u8>,
    bitmap_b: Seq<u8>,
    faulty: Seq<bool>,
)
    requires
        qc_verdict(Some(nodes), bitmap_a, true) is Ok,
        qc_verdict(Some(nodes), bitmap_b, true) is Ok,
        3 * picked_weight(nodes, faulty) <= total_weight(nodes),
    ensures
        exists|i: int|
            0 <= i < nodes.len() && #[trigger] unpack_spec(bitmap_a)[i] && unpack_spec(
                bitmap_b,
            )[i] && !(i < faulty.len() && faulty[i]),
{
    let a = unpack_spec(bitmap_a);
    let b = unpack_spec(bitmap_b);
    lemma_quorums_share_correct(nodes, a, b, faulty);
    let i = choose|i: int|
        0 <= i < nodes.len() && i < a.len() && i < b.len() && #[trigger] a[i] && b[i] && !(i
            < faulty.len() && faulty[i]);
    assert(unpack_spec(bitmap_a)[i] && unpack_spec(bitmap_b)[i]);
}

/// A quorum certificate that is assembled from a quorum passes the check:
/// where the validators named by one flag each hold a quorum, the bitmap
/// packed from the flags fits the validator set and names a quorum.
pub proof fn lemma_assembled_certificate_verifies(nodes: Seq<NodeView>, flags: Seq<bool>)
    requires
        flags.len() == nodes.len(),
        flags.len() + 7 <= usize::MAX,
        beyond_majority_spec(total_weight(nodes), picked_weight(nodes, flags)),
    ensures
        qc_verdict(Some(nodes), pack_spec(flags), true) is Ok,
{
    let bitmap = pack_spec(flags);
    let bits = unpack_spec(bitmap);
    assert(fits(bitmap, nodes.len()) && bits.subrange(0, nodes.len() as int) == flags) by {
        lemma_pack_unpack(flags);
    }
    assert(picked_weight(nodes, bits) == picked_weight(nodes, flags)) by {
        assert(nodes.len() <= bits.len()) by {
            lemma_pack_unpack(flags);
        }
        lemma_picked_weight_prefix_flags(nodes, bits, nodes.len() as int);
    }
}

/// A quorum certificate that a replica makes of the votes of a quorum
/// passes the check of every replica that holds the same validators.
pub proof fn lemma_aggregated_votes_verify(nodes: Seq<NodeView>, votes: Seq<SignedVoteView>)
    requires
        votes_aggregate(nodes, votes),
        nodes.len() + 7 <= usize::MAX,
    ensures
        qc_verdict(Some(nodes), pack_spec(flags_of(nodes, voters_of(votes))), true) is Ok,
{
    lemma_assembled_certificate_verifies(nodes, flags_of(nodes, voters_of(votes)));
}

/// Who has voted for what at one height: `prevoted(i, r, h)` says that
/// validator `i` has signed a pre-vote for block `h` in round `r`, and
/// `precommitted` says the same of pre-commits.
pub struct Ballots {
    pub prevoted: spec_fn(int, u64, Seq<u8>) -> bool,
    pub precommitted: spec_fn(int, u64, Seq<u8>) -> bool,
}

/// Validator `i` is not among the faulty ones.
pub open spec fn correct(faulty: Seq<bool>, i: int) -> bool {
    !(0 <= i < faulty.len() && faulty[i])
}

impl Ballots {
    /// Validator `i` has pre-voted for `hash` in `round`.
    pub open spec fn has_prevoted(self, i: int, round: u64, hash: Seq<u8>) -> bool {
        (self.prevoted)(i, round, hash)
    }

    /// Validator `i` has pre-committed for `hash` in `round`.
    pub open spec fn has_precommitted(self, i: int, round: u64, hash: Seq<u8>) -> bool {
        (self.precommitted)(i, round, hash)
    }

    /// One flag per validator: whether it has pre-voted for `hash` in `round`.
    pub open spec fn prevoters(self, n: nat, round: u64, hash: Seq<u8>) -> Seq<bool> {
        Seq::new(n, |i: int| self.has_prevoted(i, round, hash))
    }

    /// One flag per validator: whether it has pre-committed for `hash` in `round`.
    pub open spec fn precommitters(self, n: nat, round: u64, hash: Seq<u8>) -> Seq<bool> {
        Seq::new(n, |i: int| self.has_precommitted(i, round, hash))
    }

    /// The pre-votes for `hash` in `round` come from a quorum.
    pub open spec fn prevote_quorum(self, nodes: Seq<NodeView>, round: u64, hash: Seq<u8>) -> bool {
        beyond_majority_spec(
            total_weight(nodes),
            picked_weight(nodes, self.prevoters(nodes.len(), round, hash)),
        )
    }

    /// The pre-commits for `hash` in `round` come from a quorum: the block
    /// can be committed.
    pub open spec fn precommit_quorum(self, nodes: Seq<NodeView>, round: u64, hash: Seq<u8>) -> bool {
        beyond_majority_spec(
            total_weight(nodes),
            picked_weight(nodes, self.precommitters(nodes.len(), round, hash)),
        )
    }

    /// Validator `i` pre-votes for one block at most in each round.
    pub open spec fn votes_once(self, i: int) -> bool {
        forall|r: u64, h1: Seq<u8>, h2: Seq<u8>|
            #[trigger] self.has_prevoted(i, r, h1) && #[trigger] self.has_prevoted(i, r, h2)
                ==> h1 == h2
    }

    /// Validator `i` pre-commits only for a block that has gathered a
    /// pre-vote quorum in the same round.
    pub open spec fn commits_on_quorum(self, nodes: Seq<NodeView>, i: int) -> bool {
        forall|r: u64, h: Seq<u8>| #[trigger]
            self.has_precommitted(i, r, h) ==> self.prevote_quorum(nodes, r, h)
    }

    /// Validator `i` keeps its lock: after it has pre-committed for a block,
    /// it pre-votes for another block in a later round only where that other
    /// block has gathered a pre-vote quorum in between, in the round of the
    /// pre-commit at the earliest.
    pub open spec fn keeps_lock(self, nodes: Seq<NodeView>, i: int) -> bool {
        forall|r1: u64, h1: Seq<u8>, r2: u64, h2: Seq<u8>|
            #[trigger] self.has_precommitted(i, r1, h1) && #[trigger] self.has_prevoted(i, r2, h2)
                && r1 < r2 && h1 != h2 ==> exists|r: u64|
                r1 <= r < r2 && #[trigger] self.prevote_quorum(nodes, r, h2)
    }

    /// Validator `i` follows the rules of a correct replica.
    pub open spec fn follows_rules(self, nodes: Seq<NodeView>, i: int) -> bool {
        &&& self.votes_once(i)
        &&& self.commits_on_quorum(nodes, i)
        &&& self.keeps_lock(nodes, i)
    }

    /// Every correct validator follows the rules, and the faulty validators
    /// hold no more than a third of the weight.
    pub open spec fn sound(self, nodes: Seq<NodeView>, faulty: Seq<bool>) -> bool {
        &&& 3 * picked_weight(nodes, faulty) <= total_weight(nodes)
        &&& forall|i: int|
            0 <= i < nodes.len() && correct(faulty, i) ==> #[trigger] self.follows_rules(nodes, i)
    }
}

/// Once a block has gathered a pre-commit quorum in some round, no other
/// block gathers a pre-vote quorum in that round or in any later round.
pub proof fn lemma_no_other_block_after_commit(
    nodes: Seq<NodeView>,
    faulty: Seq<bool>,
    ballots: Ballots,
    r1: u64,
    h1: Seq<u8>,
    r2: u64,
    h2: Seq<u8>,
)
    requires
        ballots.sound(nodes, faulty),
        ballots.precommit_quorum(nodes, r1, h1),
        ballots.prevote_quorum(nodes, r2, h2),
        r1 <= r2,
    ensures
        h1 == h2,
    decreases r2 - r1,
{
    let n = nodes.len();
    let committers = ballots.precommitters(n, r1, h1);
    let voters = ballots.prevoters(n, r2, h2);
    lemma_quorums_share_correct(nodes, committers, voters, faulty);
    let i = choose|i: int|
        0 <= i < nodes.len() && i < committers.len() && i < voters.len()
            && #[trigger] committers[i] && voters[i] && !(i < faulty.len() && faulty[i]);
    assert(ballots.has_precommitted(i, r1, h1));
    assert(ballots.has_prevoted(i, r2, h2));
    assert(ballots.follows_rules(nodes, i));
    if h1 != h2 {
        if r1 == r2 {
            // The block of the pre-commits has a pre-vote quorum in this round
            // too, and some correct validator has pre-voted for both blocks.
            assert(ballots.prevote_quorum(nodes, r1, h1));
            let first = ballots.prevoters(n, r1, h1);
            lemma_quorums_share_correct(nodes, first, voters, faulty);
            let j = choose|j: int|
                0 <= j < nodes.len() && j < first.len() && j < voters.len() && #[trigger] first[j]
                    && voters[j] && !(j < faulty.len() && faulty[j]);
            assert(ballots.has_prevoted(j, r1, h1));
            assert(ballots.has_prevoted(j, r1, h2));
            assert(ballots.follows_rules(nodes, j));
        } else {
            // The correct validator that is in both quorums has given up its
            // lock, so the other block has a pre-vote quorum in an earlier round.
            let r = choose|r: u64| r1 <= r < r2 && #[trigger] ballots.prevote_quorum(nodes, r, h2);
            lemma_no_other_block_after_commit(nodes, faulty, ballots, r1, h1, r, h2);
        }
    }
}

/// Safety. Where the correct validators follow the rules and the faulty
/// ones hold no more than a third of the weight, any two blocks that gather
/// a pre-commit quorum at one height, in whatever rounds, are the same
/// block: no two replicas commit different blocks.
pub proof fn lemma_agreement(
    nodes: Seq<NodeView>,
    faulty: Seq<bool>,
    ballots: Ballots,
    r1: u64,
    h1: Seq<u8>,
    r2: u64,
    h2: Seq<u8>,
)
    requires
        ballots.sound(nodes, faulty),
        ballots.precommit_quorum(nodes, r1, h1),
        ballots.precommit_quorum(nodes, r2, h2),
    ensures
        h1 == h2,
{
    if r1 <= r2 {
        lemma_precommit_has_prevote_quorum(nodes, faulty, ballots, r2, h2);
        lemma_no_other_block_after_commit(nodes, faulty, ballots, r1, h1, r2, h2);
    } else {
        lemma_precommit_has_prevote_quorum(nodes, faulty, ballots, r1, h1);
        lemma_no_other_block_after_commit(nodes, faulty, ballots, r2, h2, r1, h1);
    }
}

impl Ballots {
    /// Every validator that the bitmap of a pre-commit quorum certificate
    /// names has signed the pre-commit that the certificate is for. This is
    /// what a signature scheme promises of an aggregated signature that
    /// verifies: nobody signs for a validator but the validator.
    pub open spec fn records(self, qc: AggregatedVoteView) -> bool {
        forall|i: int|
            0 <= i < unpack_spec(qc.signature.address_bitmap).len() && #[trigger] unpack_spec(
                qc.signature.address_bitmap,
            )[i] ==> self.has_precommitted(i, qc.round, qc.block_hash)
    }
}

/// A pre-commit quorum certificate that passes the check against a
/// validator set, and whose signers have signed, shows a pre-commit quorum
/// for its block in its round.
pub proof fn lemma_certificate_shows_quorum(
    nodes: Seq<NodeView>,
    ballots: Ballots,
    qc: AggregatedVoteView,
    sig_ok: bool,
)
    requires
        qc_verdict(Some(nodes), qc.signature.address_bitmap, sig_ok) is Ok,
        ballots.records(qc),
    ensures
        ballots.precommit_quorum(nodes, qc.round, qc.block_hash),
{
    let named = unpack_spec(qc.signature.address_bitmap);
    let signed = ballots.precommitters(nodes.len(), qc.round, qc.block_hash);
    assert forall|i: int| 0 <= i < nodes.len() && i < named.len() && #[trigger] named[i] implies i
        < signed.len() && signed[i] by {
        assert(ballots.has_precommitted(i, qc.round, qc.block_hash));
    }
    lemma_picked_weight_monotonic(nodes, named, signed);
}

/// Safety of the replicas. Let two replicas have the same validators at a
/// height, let the correct validators follow the rules and the faulty ones
/// hold no more than a third of the weight, and let the signature scheme
/// be sound, so that the signers of a certificate whose signature verifies
/// have signed. If each of the two replicas, on taking in a quorum
/// certificate of that height, asks for a block to be executed as
/// committed, then both ask for the same block: the proofs of the two
/// commits are certificates for one block.
pub proof fn lemma_replicas_commit_one_block<T, S>(
    first: Replica<T, S>,
    qc1: AggregatedVoteView,
    sig1: bool,
    elapsed1: u64,
    k1: int,
    second: Replica<T, S>,
    qc2: AggregatedVoteView,
    sig2: bool,
    elapsed2: u64,
    k2: int,
    faulty: Seq<bool>,
    ballots: Ballots,
)
    requires
        0 <= k1 < first.on_vote_qc(qc1, sig1, elapsed1).actions.len(),
        first.on_vote_qc(qc1, sig1, elapsed1).actions[k1] is ExecBlock,
        0 <= k2 < second.on_vote_qc(qc2, sig2, elapsed2).actions.len(),
        second.on_vote_qc(qc2, sig2, elapsed2).actions[k2] is ExecBlock,
        first.state.stage.height == second.state.stage.height,
        first.current == second.current,
        ballots.sound(first.current, faulty),
        sig1 ==> ballots.records(qc1),
        sig2 ==> ballots.records(qc2),
    ensures
        first.on_vote_qc(qc1, sig1, elapsed1).actions[k1]->ExecBlock_proof.block_hash
            == second.on_vote_qc(qc2, sig2, elapsed2).actions[k2]->ExecBlock_proof.block_hash,
        first.on_vote_qc(qc1, sig1, elapsed1).actions[k1]->ExecBlock_height == second.on_vote_qc(
            qc2,
            sig2,
            elapsed2,
        ).actions[k2]->ExecBlock_height,
{
    lemma_commit_needs_certificate(first, qc1, sig1, elapsed1, k1);
    lemma_commit_needs_certificate(second, qc2, sig2, elapsed2, k2);
    let nodes = first.current;
    lemma_certificate_shows_quorum(nodes, ballots, qc1, sig1);
    lemma_certificate_shows_quorum(nodes, ballots, qc2, sig2);
    lemma_agreement(nodes, faulty, ballots, qc1.round, qc1.block_hash, qc2.round, qc2.block_hash);
}

/// A block that has gathered a pre-commit quorum in a round has gathered a
/// pre-vote quorum in that round: some correct validator has pre-committed
/// for it.
pub proof fn lemma_precommit_has_prevote_quorum(
    nodes: Seq<NodeView>,
    faulty: Seq<bool>,
    ballots: Ballots,
    round: u64,
    hash: Seq<u8>,
)
    requires
        ballots.sound(nodes, faulty),
        ballots.precommit_quorum(nodes, round, hash),
    ensures
        ballots.prevote_quorum(nodes, round, hash),
{
    let committers = ballots.precommitters(nodes.len(), round, hash);
    lemma_quorums_share_correct(nodes, committers, committers, faulty);
    let i = choose|i: int|
        0 <= i < nodes.len() && i < committers.len() && i < committers.len()
            && #[trigger] committers[i] && committers[i] && !(i < faulty.len() && faulty[i]);
    assert(ballots.has_precommitted(i, round, hash));
    assert(ballots.follows_rules(nodes, i));
}

} // verus!
