//! The validator set: who may sign, with which weight, who leads a round,
//! and when a set of voters is a quorum.

use vstd::prelude::*;

use crate::bitmap::{fits, pack, pack_spec, unpack, unpack_spec};
use crate::error::{ErrorInfo, OverlordError};
use crate::types::{
    bytes_before, bytes_clone, bytes_eq, bytes_lt, lemma_bytes_lt_irreflexive,
    lemma_bytes_lt_total, lemma_bytes_lt_transitive, Address, AggregatedSignature,
    AggregatedSignatureView, AggregatedVote, AggregatedVoteView, ChokeQC, ChokeQCView, Signature,
    SignedChoke, SignedChokeView, SignedVote, SignedVoteView, Vote,
};

verus! {

/// One validator.
#[derive(Debug, PartialEq, Eq)]
pub struct Node {
    /// The validator's address.
    pub address: Address,
    /// The validator's share in proposing.
    pub propose_weight: u32,
    /// The validator's share in voting.
    pub vote_weight: u32,
}

/// Mathematical value of a [`Node`].
pub struct NodeView {
    pub address: Seq<u8>,
    pub propose_weight: u32,
    pub vote_weight: u32,
}

impl View for Node {
    type V = NodeView;

    open spec fn view(&self) -> NodeView {
        NodeView {
            address: self.address@,
            propose_weight: self.propose_weight,
            vote_weight: self.vote_weight,
        }
    }
}

impl Clone for Node {
    fn clone(&self) -> (r: Self)
        ensures
            r@ == self@,
    {
        Node {
            address: bytes_clone(&self.address),
            propose_weight: self.propose_weight,
            vote_weight: self.vote_weight,
        }
    }
}

/// The values of a list of validators.
pub open spec fn views(s: Seq<Node>) -> Seq<NodeView> {
    Seq::new(s.len(), |i: int| s[i]@)
}

/// The voting weight of all validators together.
pub open spec fn total_weight(nodes: Seq<NodeView>) -> nat
    decreases nodes.len(),
{
    if nodes.len() == 0 {
        0
    } else {
        total_weight(nodes.drop_last()) + nodes.last().vote_weight as nat
    }
}

/// The voting weight of the validators whose flag in `picked` is set.
pub open spec fn picked_weight(nodes: Seq<NodeView>, picked: Seq<bool>) -> nat
    decreases nodes.len(),
{
    if nodes.len() == 0 {
        0
    } else {
        picked_weight(nodes.drop_last(), picked) + if nodes.len() <= picked.len()
            && picked[nodes.len() - 1] {
            nodes.last().vote_weight as nat
        } else {
            0
        }
    }
}

/// The addresses of the validators whose flag in `picked` is set, in order.
pub open spec fn picked_addresses(nodes: Seq<NodeView>, picked: Seq<bool>) -> Seq<Seq<u8>>
    decreases nodes.len(),
{
    if nodes.len() == 0 {
        Seq::empty()
    } else if nodes.len() <= picked.len() && picked[nodes.len() - 1] {
        picked_addresses(nodes.drop_last(), picked).push(nodes.last().address)
    } else {
        picked_addresses(nodes.drop_last(), picked)
    }
}

/// The validators stand in strictly ascending order of their addresses.
pub open spec fn sorted(nodes: Seq<NodeView>) -> bool {
    forall|i: int, j: int|
        0 <= i < j < nodes.len() ==> bytes_lt(#[trigger] nodes[i].address, #[trigger] nodes[j].address)
}

/// No address occurs twice.
pub open spec fn distinct(nodes: Seq<NodeView>) -> bool {
    forall|i: int, j: int|
        0 <= i < j < nodes.len() ==> #[trigger] nodes[i].address != #[trigger] nodes[j].address
}

/// A validator set that a replica can work with: sorted by address, with a
/// total voting weight that is positive and fits into 64 bits.
pub open spec fn valid_set(nodes: Seq<NodeView>) -> bool {
    &&& sorted(nodes)
    &&& 0 < total_weight(nodes) <= u64::MAX
}

/// The same validators, none more and none less.
pub open spec fn same_nodes(a: Seq<NodeView>, b: Seq<NodeView>) -> bool {
    &&& a.len() == b.len()
    &&& forall|x: NodeView| a.contains(x) <==> b.contains(x)
}

/// The validators of a list in ascending order of their addresses.
pub open spec fn sorted_of(nodes: Seq<NodeView>) -> Seq<NodeView> {
    choose|s: Seq<NodeView>| sorted(s) && same_nodes(s, nodes)
}

/// Why a list of validators cannot serve as a validator set, if it cannot.
pub open spec fn set_fault(nodes: Seq<NodeView>) -> Option<OverlordError> {
    if !distinct(nodes) {
        Some(OverlordError::local_spec(ErrorInfo::DuplicateValidator))
    } else if total_weight(nodes) > u64::MAX {
        Some(OverlordError::local_spec(ErrorInfo::WeightOverflow))
    } else if total_weight(nodes) == 0 {
        Some(OverlordError::local_spec(ErrorInfo::NoWeight))
    } else {
        None
    }
}

/// Whether some validator has the address.
pub open spec fn has_address(nodes: Seq<NodeView>, address: Seq<u8>) -> bool {
    exists|i: int| 0 <= i < nodes.len() && #[trigger] nodes[i].address == address
}

/// One flag per validator: whether its address is among `voters`.
pub open spec fn flags_of(nodes: Seq<NodeView>, voters: Seq<Seq<u8>>) -> Seq<bool> {
    Seq::new(nodes.len(), |i: int| voters.contains(nodes[i].address))
}

/// A weight is a quorum: three times the weight exceeds twice the total.
pub open spec fn beyond_majority_spec(total: nat, weight: nat) -> bool {
    3 * weight > 2 * total
}

/// The position of the leader of a round among `n` validators.
pub open spec fn leader_index(n: nat, height: u64, round: u64) -> int
    recommends
        n > 0,
{
    (height as int + round as int) % (n as int)
}

/// Both flags are set.
pub open spec fn both(a: Seq<bool>, b: Seq<bool>) -> Seq<bool> {
    Seq::new(a.len(), |i: int| a[i] && i < b.len() && b[i])
}

/// The weight of a prefix grows by the weight of the validator that follows it.
pub proof fn lemma_total_weight_step(nodes: Seq<NodeView>, i: int)
    requires
        0 <= i < nodes.len(),
    ensures
        total_weight(nodes.subrange(0, i + 1)) == total_weight(nodes.subrange(0, i))
            + nodes[i].vote_weight,
{
    assert(nodes.subrange(0, i + 1).drop_last() =~= nodes.subrange(0, i));
}

/// The picked weight of a prefix grows by the weight of the validator that
/// follows it, where that validator is picked.
pub proof fn lemma_picked_weight_step(nodes: Seq<NodeView>, picked: Seq<bool>, i: int)
    requires
        0 <= i < nodes.len(),
    ensures
        picked_weight(nodes.subrange(0, i + 1), picked) == picked_weight(
            nodes.subrange(0, i),
            picked,
        ) + if i < picked.len() && picked[i] {
            nodes[i].vote_weight as nat
        } else {
            0
        },
        picked_addresses(nodes.subrange(0, i + 1), picked) == if i < picked.len() && picked[i] {
            picked_addresses(nodes.subrange(0, i), picked).push(nodes[i].address)
        } else {
            picked_addresses(nodes.subrange(0, i), picked)
        },
{
    assert(nodes.subrange(0, i + 1).drop_last() =~= nodes.subrange(0, i));
}

/// No prefix weighs more than the whole set.
pub proof fn lemma_total_weight_prefix(nodes: Seq<NodeView>, i: int)
    requires
        0 <= i <= nodes.len(),
    ensures
        total_weight(nodes.subrange(0, i)) <= total_weight(nodes),
    decreases nodes.len() - i,
{
    if i < nodes.len() {
        lemma_total_weight_step(nodes, i);
        lemma_total_weight_prefix(nodes, i + 1);
    } else {
        assert(nodes.subrange(0, i) =~= nodes);
    }
}

/// No choice of voters weighs more than the whole set.
pub proof fn lemma_picked_weight_bound(nodes: Seq<NodeView>, picked: Seq<bool>)
    ensures
        picked_weight(nodes, picked) <= total_weight(nodes),
    decreases nodes.len(),
{
    if nodes.len() > 0 {
        lemma_picked_weight_bound(nodes.drop_last(), picked);
    }
}

/// A choice of voters weighs no more than a choice that holds every voter
/// of it.
pub proof fn lemma_picked_weight_monotonic(nodes: Seq<NodeView>, a: Seq<bool>, b: Seq<bool>)
    requires
        forall|i: int| 0 <= i < nodes.len() && i < a.len() && #[trigger] a[i] ==> i < b.len() && b[i],
    ensures
        picked_weight(nodes, a) <= picked_weight(nodes, b),
    decreases nodes.len(),
{
    if nodes.len() > 0 {
        lemma_picked_weight_monotonic(nodes.drop_last(), a, b);
    }
}

/// Two sets of voters together weigh no more than the whole validator set
/// plus the voters they share: what both sets hold is counted twice on the
/// left and twice on the right.
pub proof fn lemma_shared_weight(nodes: Seq<NodeView>, a: Seq<bool>, b: Seq<bool>)
    ensures
        picked_weight(nodes, a) + picked_weight(nodes, b) <= total_weight(nodes) + picked_weight(
            nodes,
            both(a, b),
        ),
    decreases nodes.len(),
{
    if nodes.len() > 0 {
        lemma_shared_weight(nodes.drop_last(), a, b);
    }
}

/// Quorum intersection. Any two quorums of one validator set share voters
/// that hold more than a third of the total weight. So where less than a
/// third of the weight is faulty, any two quorums share a correct validator.
pub proof fn lemma_quorums_intersect(nodes: Seq<NodeView>, a: Seq<bool>, b: Seq<bool>)
    requires
        beyond_majority_spec(total_weight(nodes), picked_weight(nodes, a)),
        beyond_majority_spec(total_weight(nodes), picked_weight(nodes, b)),
    ensures
        3 * picked_weight(nodes, both(a, b)) > total_weight(nodes),
        exists|i: int| 0 <= i < nodes.len() && i < a.len() && i < b.len() && a[i] && b[i],
{
    lemma_shared_weight(nodes, a, b);
    lemma_picked_weight_positive(nodes, both(a, b));
    let i = choose|i: int| 0 <= i < nodes.len() && i < both(a, b).len() && both(a, b)[i];
    assert(a[i] && b[i]);
}

/// A choice of voters with positive weight picks somebody.
pub proof fn lemma_picked_weight_positive(nodes: Seq<NodeView>, picked: Seq<bool>)
    requires
        picked_weight(nodes, picked) > 0,
    ensures
        exists|i: int| 0 <= i < nodes.len() && i < picked.len() && picked[i],
    decreases nodes.len(),
{
    if nodes.len() > 0 {
        if nodes.len() <= picked.len() && picked[nodes.len() - 1] {
            assert(0 <= nodes.len() - 1 < nodes.len() && picked[nodes.len() - 1]);
        } else {
            lemma_picked_weight_positive(nodes.drop_last(), picked);
            let i = choose|i: int|
                0 <= i < nodes.drop_last().len() && i < picked.len() && picked[i];
            assert(0 <= i < nodes.len() && i < picked.len() && picked[i]);
        }
    }
}

/// Setting the flag of one validator adds the weight of that validator:
/// where two rows of flags differ in nothing but the flag of validator `k`,
/// which the second row has set, the second row weighs more than the first
/// by the weight of validator `k`, as far as the first `m` validators go.
pub proof fn lemma_flag_adds_weight(
    nodes: Seq<NodeView>,
    before: Seq<bool>,
    after: Seq<bool>,
    k: int,
    m: int,
)
    requires
        0 <= k < nodes.len(),
        0 <= m <= nodes.len(),
        before.len() == nodes.len(),
        after.len() == nodes.len(),
        !before[k],
        after[k],
        forall|i: int| 0 <= i < nodes.len() && i != k ==> before[i] == after[i],
    ensures
        picked_weight(nodes.subrange(0, m), after) == picked_weight(nodes.subrange(0, m), before)
            + if k < m {
            nodes[k].vote_weight as nat
        } else {
            0
        },
    decreases m,
{
    if m > 0 {
        lemma_flag_adds_weight(nodes, before, after, k, m - 1);
        lemma_picked_weight_step(nodes, before, m - 1);
        lemma_picked_weight_step(nodes, after, m - 1);
    }
}

/// A new signer adds its weight, once: where the address of validator `k`
/// is not among `signers`, the signers together with that address weigh
/// more than the signers alone by the weight of validator `k`.
pub proof fn lemma_new_signer_adds_weight(
    nodes: Seq<NodeView>,
    signers: Seq<Seq<u8>>,
    k: int,
)
    requires
        sorted(nodes),
        0 <= k < nodes.len(),
        !signers.contains(nodes[k].address),
    ensures
        picked_weight(nodes, flags_of(nodes, signers.push(nodes[k].address))) == picked_weight(
            nodes,
            flags_of(nodes, signers),
        ) + nodes[k].vote_weight,
{
    let address = nodes[k].address;
    let before = flags_of(nodes, signers);
    let after = flags_of(nodes, signers.push(address));
    lemma_sorted_distinct(nodes);
    assert(signers.push(address)[signers.len() as int] == address);
    assert forall|i: int| 0 <= i < nodes.len() && i != k implies before[i] == after[i] by {
        let x = nodes[i].address;
        assert(x != address) by {
            if i < k {
                assert(nodes[i].address != nodes[k].address);
            } else {
                assert(nodes[k].address != nodes[i].address);
            }
        }
        if signers.contains(x) {
            let j = choose|j: int| 0 <= j < signers.len() && signers[j] == x;
            assert(signers.push(address)[j] == x);
        }
        if signers.push(address).contains(x) {
            let j = choose|j: int|
                0 <= j < signers.push(address).len() && signers.push(address)[j] == x;
            assert(j < signers.len());
            assert(signers[j] == x);
        }
    }
    lemma_flag_adds_weight(nodes, before, after, k, nodes.len() as int);
    assert(nodes.subrange(0, nodes.len() as int) =~= nodes);
}

/// A sorted list holds every address once.
pub proof fn lemma_sorted_distinct(nodes: Seq<NodeView>)
    requires
        sorted(nodes),
    ensures
        distinct(nodes),
{
    assert forall|i: int, j: int| 0 <= i < j < nodes.len() implies #[trigger] nodes[i].address
        != #[trigger] nodes[j].address by {
        lemma_bytes_lt_irreflexive(nodes[i].address, 0);
    }
}

/// Putting a validator between those that come before it and those that come
/// after it keeps the list sorted.
proof fn lemma_insert_sorted(s: Seq<NodeView>, p: int, x: NodeView)
    requires
        sorted(s),
        0 <= p <= s.len(),
        forall|q: int| 0 <= q < p ==> bytes_lt(#[trigger] s[q].address, x.address),
        forall|q: int| p <= q < s.len() ==> bytes_lt(x.address, #[trigger] s[q].address),
    ensures
        sorted(s.insert(p, x)),
{
    let t = s.insert(p, x);
    assert forall|i: int, j: int| 0 <= i < j < t.len() implies bytes_lt(
        #[trigger] t[i].address,
        #[trigger] t[j].address,
    ) by {
        if j < p {
            assert(t[i] == s[i] && t[j] == s[j]);
        } else if j == p {
            assert(t[i] == s[i]);
        } else if i < p {
            assert(t[i] == s[i] && t[j] == s[j - 1]);
        } else if i == p {
            assert(t[j] == s[j - 1]);
        } else {
            assert(t[i] == s[i - 1] && t[j] == s[j - 1]);
        }
    }
}

/// Putting a validator into a list adds its weight to the total.
proof fn lemma_insert_weight(s: Seq<NodeView>, p: int, x: NodeView)
    requires
        0 <= p <= s.len(),
    ensures
        total_weight(s.insert(p, x)) == total_weight(s) + x.vote_weight,
    decreases s.len(),
{
    let t = s.insert(p, x);
    if p == s.len() {
        assert(t.drop_last() =~= s);
    } else {
        assert(t.drop_last() =~= s.drop_last().insert(p, x));
        lemma_insert_weight(s.drop_last(), p, x);
    }
}

/// The validators of one height, in ascending order of their addresses.
#[derive(Debug)]
pub struct AuthCell {
    nodes: Vec<Node>,
    total: u64,
}

impl View for AuthCell {
    type V = Seq<NodeView>;

    closed spec fn view(&self) -> Seq<NodeView> {
        views(self.nodes@)
    }
}

impl AuthCell {
    #[verifier::type_invariant]
    spec fn inv(self) -> bool {
        &&& valid_set(views(self.nodes@))
        &&& self.total == total_weight(views(self.nodes@))
    }

    /// Builds the validator set of a height from a list in any order.
    ///
    /// The list is refused where an address occurs twice, or where the voting
    /// weights add up to nothing or to more than 64 bits can hold.
    pub fn new(list: Vec<Node>) -> (r: Result<AuthCell, OverlordError>)
        ensures
            match set_fault(views(list@)) {
                Some(e) => r == Err::<AuthCell, OverlordError>(e),
                None => r is Ok && r->Ok_0@ == sorted_of(views(list@)),
            },
            r is Ok ==> {
                &&& valid_set(r->Ok_0@)
                &&& same_nodes(r->Ok_0@, views(list@))
                &&& total_weight(r->Ok_0@) == total_weight(views(list@))
            },
    {
        let ghost input = views(list@);
        let mut nodes: Vec<Node> = Vec::new();
        let mut k: usize = 0;
        while k < list.len()
            invariant
                input == views(list@),
                k <= list.len(),
                nodes@.len() == k,
                sorted(views(nodes@)),
                distinct(input.subrange(0, k as int)),
                total_weight(views(nodes@)) == total_weight(input.subrange(0, k as int)),
                forall|x: NodeView|
                    views(nodes@).contains(x) <==> input.subrange(0, k as int).contains(x),
            decreases list.len() - k,
        {
            let node = list[k].clone();
            let mut p: usize = 0;
            while p < nodes.len() && bytes_before(&nodes[p].address, &node.address)
                invariant
                    p <= nodes.len(),
                    forall|q: int|
                        0 <= q < p ==> bytes_lt(
                            #[trigger] views(nodes@)[q].address,
                            node.address@,
                        ),
                decreases nodes.len() - p,
            {
                p += 1;
            }
            let ghost before = views(nodes@);
            let ghost prefix = input.subrange(0, k as int);
            if p < nodes.len() && bytes_eq(&nodes[p].address, &node.address) {
                proof {
                    assert(before.contains(before[p as int]));
                    assert(prefix.contains(before[p as int]));
                    let i = choose|i: int| 0 <= i < prefix.len() && prefix[i] == before[p as int];
                    assert(input[i].address == input[k as int].address);
                }
                return Err(OverlordError::local(ErrorInfo::DuplicateValidator));
            }
            proof {
                assert forall|q: int| p <= q < before.len() implies bytes_lt(
                    node.address@,
                    #[trigger] before[q].address,
                ) by {
                    lemma_bytes_lt_total(before[p as int].address, node.address@, 0);
                    if q > p {
                        assert(bytes_lt(before[p as int].address, before[q].address));
                        lemma_bytes_lt_transitive(
                            node.address@,
                            before[p as int].address,
                            before[q].address,
                            0,
                        );
                    }
                }
                lemma_insert_sorted(before, p as int, node@);
                lemma_insert_weight(before, p as int, node@);
                lemma_total_weight_step(input, k as int);
                let next = input.subrange(0, k + 1);
                assert(next.drop_last() =~= prefix);
                assert forall|i: int, j: int| 0 <= i < j < next.len() implies #[trigger] next[i].address
                    != #[trigger] next[j].address by {
                    if j == k {
                        assert(prefix.contains(prefix[i]));
                        assert(before.contains(prefix[i]));
                        let q = choose|q: int| 0 <= q < before.len() && before[q] == prefix[i];
                        if q < p {
                            lemma_bytes_lt_irreflexive(node.address@, 0);
                        } else {
                            lemma_bytes_lt_irreflexive(node.address@, 0);
                        }
                    } else {
                        assert(next[i] == prefix[i] && next[j] == prefix[j]);
                    }
                }
            }
            nodes.insert(p, node);
            proof {
                let after = views(nodes@);
                let next = input.subrange(0, k + 1);
                assert(after =~= before.insert(p as int, input[k as int]));
                assert forall|x: NodeView| after.contains(x) <==> next.contains(x) by {
                    if after.contains(x) {
                        let i = choose|i: int| 0 <= i < after.len() && after[i] == x;
                        if i == p {
                            assert(next[k as int] == x);
                        } else {
                            let q = if i < p {
                                i
                            } else {
                                i - 1
                            };
                            assert(before[q] == x);
                            assert(before.contains(x));
                            assert(prefix.contains(x));
                            let j = choose|j: int| 0 <= j < prefix.len() && prefix[j] == x;
                            assert(next[j] == x);
                        }
                    }
                    if next.contains(x) {
                        let j = choose|j: int| 0 <= j < next.len() && next[j] == x;
                        if j == k {
                            assert(after[p as int] == x);
                        } else {
                            assert(prefix[j] == x);
                            assert(prefix.contains(x));
                            assert(before.contains(x));
                            let q = choose|q: int| 0 <= q < before.len() && before[q] == x;
                            let i = if q < p {
                                q
                            } else {
                                q + 1
                            };
                            assert(after[i] == x);
                        }
                    }
                }
            }
            k += 1;
        }
        proof {
            assert(input.subrange(0, k as int) =~= input);
        }
        let mut total: u64 = 0;
        let mut i: usize = 0;
        while i < nodes.len()
            invariant
                i <= nodes.len(),
                distinct(views(list@)),
                total_weight(views(nodes@)) == total_weight(views(list@)),
                total == total_weight(views(nodes@).subrange(0, i as int)),
            decreases nodes.len() - i,
        {
            proof {
                lemma_total_weight_step(views(nodes@), i as int);
                lemma_total_weight_prefix(views(nodes@), i + 1);
            }
            match total.checked_add(nodes[i].vote_weight as u64) {
                Some(sum) => {
                    total = sum;
                },
                None => {
                    return Err(OverlordError::local(ErrorInfo::WeightOverflow));
                },
            }
            i += 1;
        }
        proof {
            assert(views(nodes@).subrange(0, i as int) =~= views(nodes@));
        }
        if total == 0 {
            return Err(OverlordError::local(ErrorInfo::NoWeight));
        }
        proof {
            let built = views(nodes@);
            assert(sorted(built) && same_nodes(built, views(list@)));
            lemma_sorted_unique(built, sorted_of(views(list@)));
        }
        Ok(AuthCell { nodes, total })
    }

    /// The number of validators; there is at least one.
    pub fn len(&self) -> (n: usize)
        ensures
            n == self@.len(),
            n > 0,
            valid_set(self@),
    {
        proof {
            use_type_invariant(self);
        }
        self.nodes.len()
    }

    /// The voting weight of all validators together.
    pub fn total_weight(&self) -> (w: u64)
        ensures
            w == total_weight(self@),
            w > 0,
    {
        proof {
            use_type_invariant(self);
        }
        self.total
    }

    /// The validators, in ascending order of their addresses.
    pub fn nodes(&self) -> (r: Vec<Node>)
        ensures
            views(r@) == self@,
    {
        clone_nodes(&self.nodes)
    }

    /// The position of the validator with the given address, if there is one.
    pub fn position(&self, address: &Address) -> (r: Option<usize>)
        ensures
            r is Some <==> has_address(self@, address@),
            r is Some ==> r->0 < self@.len() && self@[r->0 as int].address == address@,
    {
        let mut i: usize = 0;
        while i < self.nodes.len()
            invariant
                i <= self.nodes.len(),
                forall|j: int| 0 <= j < i ==> #[trigger] views(self.nodes@)[j].address != address@,
            decreases self.nodes.len() - i,
        {
            if bytes_eq(&self.nodes[i].address, address) {
                proof {
                    assert(views(self.nodes@)[i as int].address == address@);
                }
                return Some(i);
            }
            i += 1;
        }
        None
    }

    /// Whether the address belongs to a validator of this set.
    pub fn contains(&self, address: &Address) -> (r: bool)
        ensures
            r == has_address(self@, address@),
    {
        self.position(address).is_some()
    }

    /// The voting weight of the validator with the given address.
    pub fn vote_weight(&self, address: &Address) -> (r: Option<u32>)
        ensures
            r is Some <==> has_address(self@, address@),
            r is Some ==> exists|i: int|
                0 <= i < self@.len() && #[trigger] self@[i].address == address@
                    && self@[i].vote_weight == r->0,
    {
        match self.position(address) {
            Some(i) => {
                proof {
                    assert(self@[i as int].address == address@);
                }
                Some(self.nodes[i].vote_weight)
            },
            None => None,
        }
    }

    /// Whether `weight` is a quorum of this set: more than two thirds of the
    /// total voting weight.
    pub fn beyond_majority(&self, weight: u64) -> (r: bool)
        ensures
            r <==> 3 * weight > 2 * total_weight(self@),
            r == beyond_majority_spec(total_weight(self@), weight as nat),
    {
        proof {
            use_type_invariant(self);
        }
        (weight as u128) * 3 > (self.total as u128) * 2
    }

    /// The leader of a round: the validators take turns in address order,
    /// one step for every height and every round.
    pub fn get_leader(&self, height: u64, round: u64) -> (r: Address)
        ensures
            r@ == self@[leader_index(self@.len(), height, round)].address,
            0 <= leader_index(self@.len(), height, round) < self@.len(),
    {
        proof {
            use_type_invariant(self);
        }
        let n: u128 = self.nodes.len() as u128;
        let turn: u128 = (height as u128 + round as u128) % n;
        bytes_clone(&self.nodes[turn as usize].address)
    }

    /// The voting weight behind a choice of validators.
    fn weight_of_flags(&self, flags: &Vec<bool>) -> (w: u64)
        requires
            flags@.len() == self@.len(),
        ensures
            w == picked_weight(self@, flags@),
    {
        proof {
            use_type_invariant(self);
        }
        let ghost all = views(self.nodes@);
        let mut w: u64 = 0;
        let mut i: usize = 0;
        while i < self.nodes.len()
            invariant
                all == views(self.nodes@),
                total_weight(all) <= u64::MAX,
                flags@.len() == self.nodes@.len(),
                i <= self.nodes.len(),
                w == picked_weight(all.subrange(0, i as int), flags@),
            decreases self.nodes.len() - i,
        {
            proof {
                lemma_picked_weight_step(all, flags@, i as int);
                lemma_picked_weight_bound(all.subrange(0, i + 1), flags@);
                lemma_total_weight_prefix(all, i + 1);
            }
            if flags[i] {
                w = w + self.nodes[i].vote_weight as u64;
            }
            i += 1;
        }
        proof {
            assert(all.subrange(0, i as int) =~= all);
        }
        w
    }

    /// The voting weight of the voters that a bitmap names. The bitmap is
    /// refused where it does not fit this validator set.
    pub fn bitmap_weight(&self, bitmap: &Vec<u8>) -> (r: Result<u64, OverlordError>)
        ensures
            fits(bitmap@, self@.len()) ==> r == Ok::<u64, OverlordError>(
                picked_weight(self@, unpack_spec(bitmap@)) as u64,
            ),
            fits(bitmap@, self@.len()) ==> picked_weight(self@, unpack_spec(bitmap@)) <= u64::MAX,
            !fits(bitmap@, self@.len()) ==> r == Err::<u64, OverlordError>(
                OverlordError::byzantine_spec(ErrorInfo::Bitmap),
            ),
    {
        proof {
            use_type_invariant(self);
        }
        match unpack(bitmap, self.nodes.len()) {
            Some(flags) => {
                proof {
                    lemma_picked_weight_prefix_flags(
                        self@,
                        unpack_spec(bitmap@),
                        self@.len() as int,
                    );
                }
                Ok(self.weight_of_flags(&flags))
            },
            None => Err(OverlordError::byzantine(ErrorInfo::Bitmap)),
        }
    }

    /// The addresses of the voters that a bitmap names, in ascending order.
    /// The bitmap is refused where it does not fit this validator set.
    pub fn get_voters(&self, bitmap: &Vec<u8>) -> (r: Result<Vec<Address>, OverlordError>)
        ensures
            fits(bitmap@, self@.len()) <==> r is Ok,
            r is Ok ==> address_views(r->Ok_0@) == picked_addresses(self@, unpack_spec(bitmap@)),
            r is Err ==> r->Err_0 == OverlordError::byzantine_spec(ErrorInfo::Bitmap),
    {
        proof {
            use_type_invariant(self);
        }
        let flags = match unpack(bitmap, self.nodes.len()) {
            Some(flags) => flags,
            None => {
                return Err(OverlordError::byzantine(ErrorInfo::Bitmap));
            },
        };
        let ghost all = views(self.nodes@);
        let ghost bits = unpack_spec(bitmap@);
        let mut voters: Vec<Address> = Vec::new();
        let mut i: usize = 0;
        while i < self.nodes.len()
            invariant
                all == views(self.nodes@),
                flags@ == bits.subrange(0, all.len() as int),
                all.len() <= bits.len(),
                i <= self.nodes.len(),
                address_views(voters@) == picked_addresses(all.subrange(0, i as int), bits),
            decreases self.nodes.len() - i,
        {
            proof {
                lemma_picked_weight_step(all, bits, i as int);
            }
            if flags[i] {
                let ghost old_voters = voters@;
                voters.push(bytes_clone(&self.nodes[i].address));
                proof {
                    assert(address_views(voters@) =~= address_views(old_voters).push(
                        all[i as int].address,
                    ));
                }
            }
            i += 1;
        }
        proof {
            assert(all.subrange(0, i as int) =~= all);
        }
        Ok(voters)
    }

    /// Whether the voters that a bitmap names are a quorum of this set. The
    /// bitmap is refused where it does not fit this validator set.
    pub fn is_above_threshold(&self, bitmap: &Vec<u8>) -> (r: Result<bool, OverlordError>)
        ensures
            fits(bitmap@, self@.len()) ==> r == Ok::<bool, OverlordError>(
                beyond_majority_spec(
                    total_weight(self@),
                    picked_weight(self@, unpack_spec(bitmap@)),
                ),
            ),
            !fits(bitmap@, self@.len()) ==> r == Err::<bool, OverlordError>(
                OverlordError::byzantine_spec(ErrorInfo::Bitmap),
            ),
    {
        match self.bitmap_weight(bitmap) {
            Ok(w) => Ok(self.beyond_majority(w)),
            Err(e) => Err(e),
        }
    }

    /// One flag per validator: whether its address is among `voters`.
    pub fn flags_for(&self, voters: &Vec<Address>) -> (flags: Vec<bool>)
        ensures
            flags@ == flags_of(self@, address_views(voters@)),
    {
        let ghost all = views(self.nodes@);
        let mut flags: Vec<bool> = Vec::new();
        let mut i: usize = 0;
        while i < self.nodes.len()
            invariant
                all == views(self.nodes@),
                i <= self.nodes.len(),
                flags@.len() == i,
                forall|j: int|
                    0 <= j < i ==> flags@[j] == address_views(voters@).contains(all[j].address),
            decreases self.nodes.len() - i,
        {
            let found: bool = contains_address(voters, &self.nodes[i].address);
            flags.push(found);
            i += 1;
        }
        proof {
            assert(flags@ =~= flags_of(all, address_views(voters@)));
        }
        flags
    }

    /// The voting weight of those validators whose address is among
    /// `voters`. Every validator counts once, however often its address
    /// occurs; addresses of strangers count nothing.
    pub fn weight_of_voters(&self, voters: &Vec<Address>) -> (w: u64)
        ensures
            w == picked_weight(self@, flags_of(self@, address_views(voters@))),
            w <= total_weight(self@),
    {
        let flags = self.flags_for(voters);
        proof {
            lemma_picked_weight_bound(self@, flags@);
        }
        self.weight_of_flags(&flags)
    }

    /// The bitmap that names exactly those validators whose address is among `voters`.
    pub fn bitmap_of(&self, voters: &Vec<Address>) -> (r: Vec<u8>)
        ensures
            r@ == pack_spec(flags_of(self@, address_views(voters@))),
    {
        let flags = self.flags_for(voters);
        pack(&flags)
    }

    /// The votes in the order of their voters in the validator set, which
    /// is the ascending order of the voters' addresses: see
    /// [`in_validator_order`].
    pub fn order_votes(&self, votes: &Vec<SignedVote>) -> (r: Vec<SignedVote>)
        ensures
            signed_vote_views(r@) == in_validator_order(
                self@,
                signed_vote_views(votes@),
                self@.len(),
            ),
    {
        let ghost all = signed_vote_views(votes@);
        let mut out: Vec<SignedVote> = Vec::new();
        let mut i: usize = 0;
        while i < self.nodes.len()
            invariant
                i <= self.nodes.len(),
                all == signed_vote_views(votes@),
                signed_vote_views(out@) =~= in_validator_order(self@, all, i as nat),
            decreases self.nodes.len() - i,
        {
            let ghost before = signed_vote_views(out@);
            let mut k: usize = 0;
            let mut found: bool = false;
            while k < votes.len() && !found
                invariant
                    k <= votes.len(),
                    i < self.nodes.len(),
                    all == signed_vote_views(votes@),
                    before == in_validator_order(self@, all, i as nat),
                    !found ==> signed_vote_views(out@) == before && vote_of(
                        all,
                        self@[i as int].address,
                        k as nat,
                    ) is None,
                    found ==> k > 0 && vote_of(all, self@[i as int].address, (k - 1) as nat)
                        is None && all[k - 1].voter == self@[i as int].address
                        && signed_vote_views(out@) =~= before.push(all[k - 1]),
                decreases votes.len() - k + if found { 0int } else { 1int },
            {
                if bytes_eq(&votes[k].voter, &self.nodes[i].address) {
                    out.push(votes[k].clone());
                    found = true;
                }
                k += 1;
            }
            proof {
                if found {
                    lemma_vote_of_stays(all, self@[i as int].address, k as nat, all.len());
                }
            }
            i += 1;
        }
        out
    }
}

/// The first of the first `n` votes that `voter` has signed, if there is one.
pub open spec fn vote_of(votes: Seq<SignedVoteView>, voter: Seq<u8>, n: nat) -> Option<
    SignedVoteView,
>
    decreases n,
{
    if n == 0 {
        None
    } else if vote_of(votes, voter, (n - 1) as nat) is Some {
        vote_of(votes, voter, (n - 1) as nat)
    } else if votes[n - 1].voter == voter {
        Some(votes[n - 1])
    } else {
        None
    }
}

/// The votes in the order of their voters in the validator set: for each
/// of the first `n` validators, in turn, the first vote that it has signed,
/// if it has signed one. Votes of strangers are left out.
pub open spec fn in_validator_order(nodes: Seq<NodeView>, votes: Seq<SignedVoteView>, n: nat) -> Seq<
    SignedVoteView,
>
    decreases n,
{
    if n == 0 {
        Seq::empty()
    } else {
        let before = in_validator_order(nodes, votes, (n - 1) as nat);
        match vote_of(votes, nodes[n - 1].address, votes.len()) {
            Some(vote) => before.push(vote),
            None => before,
        }
    }
}

/// A vote that is the first of a voter among some votes is the first of
/// that voter among more votes too.
pub proof fn lemma_vote_of_stays(votes: Seq<SignedVoteView>, voter: Seq<u8>, k: nat, n: nat)
    requires
        k <= n,
        vote_of(votes, voter, k) is Some,
    ensures
        vote_of(votes, voter, n) == vote_of(votes, voter, k),
    decreases n,
{
    if k < n {
        lemma_vote_of_stays(votes, voter, k, (n - 1) as nat);
    }
}

/// A fresh copy of a list of validators.
pub fn clone_nodes(list: &Vec<Node>) -> (r: Vec<Node>)
    ensures
        views(r@) == views(list@),
{
    let mut out: Vec<Node> = Vec::new();
    let mut i: usize = 0;
    while i < list.len()
        invariant
            i <= list.len(),
            out@.len() == i,
            forall|j: int| 0 <= j < i ==> out@[j]@ == list@[j]@,
        decreases list.len() - i,
    {
        out.push(list[i].clone());
        i += 1;
    }
    proof {
        assert(views(out@) =~= views(list@));
    }
    out
}

/// The values of a list of addresses.
pub open spec fn address_views(s: Seq<Address>) -> Seq<Seq<u8>> {
    Seq::new(s.len(), |i: int| s[i]@)
}

/// Whether an address occurs in a list of addresses.
pub fn contains_address(list: &Vec<Address>, address: &Address) -> (r: bool)
    ensures
        r == address_views(list@).contains(address@),
{
    let mut i: usize = 0;
    while i < list.len()
        invariant
            i <= list.len(),
            forall|j: int| 0 <= j < i ==> address_views(list@)[j] != address@,
        decreases list.len() - i,
    {
        if bytes_eq(&list[i], address) {
            proof {
                assert(address_views(list@)[i as int] == address@);
            }
            return true;
        }
        i += 1;
    }
    false
}

/// Flags past the validators do not count.
pub proof fn lemma_picked_weight_prefix_flags(nodes: Seq<NodeView>, picked: Seq<bool>, n: int)
    requires
        nodes.len() <= n <= picked.len(),
    ensures
        picked_weight(nodes, picked.subrange(0, n)) == picked_weight(nodes, picked),
        picked_addresses(nodes, picked.subrange(0, n)) == picked_addresses(nodes, picked),
    decreases nodes.len(),
{
    if nodes.len() > 0 {
        lemma_picked_weight_prefix_flags(nodes.drop_last(), picked, n);
    }
}

/// The validator sets a replica works with: the set of the height it is at,
/// and the set of the height before, by which late messages are judged.
#[derive(Debug)]
pub struct AuthManage {
    /// The address of this replica.
    pub my_address: Address,
    /// The validators of the current height.
    pub current_auth: AuthCell,
    /// The validators of the previous height, once a block has been committed.
    pub last_auth: Option<AuthCell>,
}

/// What checking a signed message yields, given the validator set that
/// applies to it (if any) and the verdict of the signature check.
pub open spec fn signer_verdict(
    set: Option<Seq<NodeView>>,
    signer: Seq<u8>,
    sig_ok: bool,
) -> Result<(), OverlordError> {
    if set is None {
        Err(OverlordError::byzantine_spec(ErrorInfo::UnknownHeight))
    } else if !has_address(set->0, signer) {
        Err(OverlordError::byzantine_spec(ErrorInfo::UnauthorizedSigner))
    } else if !sig_ok {
        Err(OverlordError::byzantine_spec(ErrorInfo::Signature))
    } else {
        Ok(())
    }
}

/// What checking a quorum certificate yields, given the validator set that
/// applies to it (if any), its voter bitmap and the verdict of the check of
/// its aggregated signature.
pub open spec fn qc_verdict(set: Option<Seq<NodeView>>, bitmap: Seq<u8>, sig_ok: bool) -> Result<
    (),
    OverlordError,
> {
    if set is None {
        Err(OverlordError::byzantine_spec(ErrorInfo::UnknownHeight))
    } else if !fits(bitmap, set->0.len()) {
        Err(OverlordError::byzantine_spec(ErrorInfo::Bitmap))
    } else if !beyond_majority_spec(
        total_weight(set->0),
        picked_weight(set->0, unpack_spec(bitmap)),
    ) {
        Err(OverlordError::byzantine_spec(ErrorInfo::UnderMajority))
    } else if !sig_ok {
        Err(OverlordError::byzantine_spec(ErrorInfo::Signature))
    } else {
        Ok(())
    }
}

impl AuthManage {
    /// The validator sets of a replica that starts at some height.
    pub fn new(my_address: Address, current_auth: AuthCell, last_auth: Option<AuthCell>) -> (r:
        Self)
        ensures
            r.my_address == my_address,
            r.current_auth == current_auth,
            r.last_auth == last_auth,
    {
        AuthManage { my_address, current_auth, last_auth }
    }

    /// The validator set by which a message of height `height` is judged
    /// while the replica is at `my_height`: the current set for the current
    /// height, the previous set for the height before, none otherwise.
    pub open spec fn applicable(&self, height: u64, my_height: u64) -> Option<Seq<NodeView>> {
        if height == my_height {
            Some(self.current_auth@)
        } else if height + 1 == my_height && self.last_auth is Some {
            Some(self.last_auth->0@)
        } else {
            None
        }
    }

    /// The validator set by which a message of height `height` is judged.
    pub fn auth_of(&self, height: u64, my_height: u64) -> (r: Option<&AuthCell>)
        ensures
            r is Some <==> self.applicable(height, my_height) is Some,
            r is Some ==> r->0@ == self.applicable(height, my_height)->0,
    {
        if height == my_height {
            Some(&self.current_auth)
        } else if height < my_height && my_height - height == 1 {
            match &self.last_auth {
                Some(cell) => Some(cell),
                None => None,
            }
        } else {
            None
        }
    }

    /// Whether this replica is a validator of the current height.
    pub fn can_i_vote(&self) -> (r: bool)
        ensures
            r == has_address(self.current_auth@, self.my_address@),
    {
        self.current_auth.contains(&self.my_address)
    }

    /// The leader of a round of the current height.
    pub fn get_leader(&self, height: u64, round: u64) -> (r: Address)
        ensures
            r@ == self.current_auth@[leader_index(
                self.current_auth@.len(),
                height,
                round,
            )].address,
    {
        self.current_auth.get_leader(height, round)
    }

    /// Whether this replica leads the round.
    pub fn am_i_leader(&self, height: u64, round: u64) -> (r: bool)
        ensures
            r == (self.current_auth@[leader_index(
                self.current_auth@.len(),
                height,
                round,
            )].address == self.my_address@),
    {
        let leader = self.current_auth.get_leader(height, round);
        bytes_eq(&leader, &self.my_address)
    }

    /// A block has been committed: the current validators become the
    /// previous ones, and `new_auth` the current ones.
    pub fn handle_commit(&mut self, new_auth: AuthCell)
        ensures
            final(self).my_address == old(self).my_address,
            final(self).current_auth == new_auth,
            final(self).last_auth == Some(old(self).current_auth),
    {
        let mut cell = new_auth;
        core::mem::swap(&mut self.current_auth, &mut cell);
        self.last_auth = Some(cell);
    }

    /// Checks the signer of a proposal, a vote or a choke of height `height`.
    /// `sig_ok` is the verdict of the signature check. The message is refused
    /// where no validator set applies to its height, where the signer is not
    /// in that set, or where the signature does not verify.
    pub fn verify_signer(&self, height: u64, my_height: u64, signer: &Address, sig_ok: bool) -> (r:
        Result<(), OverlordError>)
        ensures
            r == signer_verdict(self.applicable(height, my_height), signer@, sig_ok),
    {
        match self.auth_of(height, my_height) {
            None => Err(OverlordError::byzantine(ErrorInfo::UnknownHeight)),
            Some(cell) => {
                if !cell.contains(signer) {
                    Err(OverlordError::byzantine(ErrorInfo::UnauthorizedSigner))
                } else if !sig_ok {
                    Err(OverlordError::byzantine(ErrorInfo::Signature))
                } else {
                    Ok(())
                }
            },
        }
    }

    /// Checks a quorum certificate of height `height`. `sig_ok` is the
    /// verdict of the check of the aggregated signature against the voters
    /// that [`AuthManage::get_voters`] names. The certificate is refused where no
    /// validator set applies, where the bitmap does not fit that set, where
    /// the voters are no quorum, or where the signature does not verify.
    pub fn verify_qc(&self, height: u64, my_height: u64, bitmap: &Vec<u8>, sig_ok: bool) -> (r:
        Result<(), OverlordError>)
        ensures
            r == qc_verdict(self.applicable(height, my_height), bitmap@, sig_ok),
    {
        match self.auth_of(height, my_height) {
            None => Err(OverlordError::byzantine(ErrorInfo::UnknownHeight)),
            Some(cell) => {
                match cell.is_above_threshold(bitmap) {
                    Err(e) => Err(e),
                    Ok(above) => {
                        if !above {
                            Err(OverlordError::byzantine(ErrorInfo::UnderMajority))
                        } else if !sig_ok {
                            Err(OverlordError::byzantine(ErrorInfo::Signature))
                        } else {
                            Ok(())
                        }
                    },
                }
            },
        }
    }

    /// The voters of a quorum certificate of height `height`, in ascending
    /// order of their addresses: those against whom the aggregated signature
    /// is to be checked.
    pub fn get_voters(&self, height: u64, my_height: u64, bitmap: &Vec<u8>) -> (r: Result<
        Vec<Address>,
        OverlordError,
    >)
        ensures
            match self.applicable(height, my_height) {
                None => r is Err && r->Err_0 == OverlordError::byzantine_spec(
                    ErrorInfo::UnknownHeight,
                ),
                Some(set) => {
                    &&& r is Ok <==> fits(bitmap@, set.len())
                    &&& r is Ok ==> address_views(r->Ok_0@) == picked_addresses(
                        set,
                        unpack_spec(bitmap@),
                    )
                    &&& r is Err ==> r->Err_0 == OverlordError::byzantine_spec(ErrorInfo::Bitmap)
                },
            },
    {
        match self.auth_of(height, my_height) {
            None => Err(OverlordError::byzantine(ErrorInfo::UnknownHeight)),
            Some(cell) => cell.get_voters(bitmap),
        }
    }
}

/// The voters of a list of signed votes, in the order of the list.
pub open spec fn voters_of(votes: Seq<SignedVoteView>) -> Seq<Seq<u8>> {
    Seq::new(votes.len(), |i: int| votes[i].voter)
}

/// The voters of a list of signed chokes, in the order of the list.
pub open spec fn chokers_of(chokes: Seq<SignedChokeView>) -> Seq<Seq<u8>> {
    Seq::new(chokes.len(), |i: int| chokes[i].voter)
}

/// Whether a list of signed votes can be made into a quorum certificate
/// under a validator set: the list is not empty, all its votes are the
/// same vote, and its voters hold a quorum.
pub open spec fn votes_aggregate(nodes: Seq<NodeView>, votes: Seq<SignedVoteView>) -> bool {
    &&& votes.len() > 0
    &&& forall|i: int| 0 <= i < votes.len() ==> (#[trigger] votes[i]).vote == votes[0].vote
    &&& beyond_majority_spec(
        total_weight(nodes),
        picked_weight(nodes, flags_of(nodes, voters_of(votes))),
    )
}

/// Whether a list of signed chokes can be made into a quorum certificate
/// under a validator set.
pub open spec fn chokes_aggregate(nodes: Seq<NodeView>, chokes: Seq<SignedChokeView>) -> bool {
    &&& chokes.len() > 0
    &&& forall|i: int| 0 <= i < chokes.len() ==> (#[trigger] chokes[i]).choke == chokes[0].choke
    &&& beyond_majority_spec(
        total_weight(nodes),
        picked_weight(nodes, flags_of(nodes, chokers_of(chokes))),
    )
}

impl AuthManage {
    /// Makes a quorum certificate of signed votes of the current height.
    /// `signature` is the aggregate of their signatures. The votes must all
    /// be the same vote, and their voters must hold a quorum of the current
    /// validators; anything else is a fault of the caller. The certificate
    /// names the voters in its bitmap and this replica as its leader.
    pub fn aggregate_votes(&self, votes: &Vec<SignedVote>, signature: Signature) -> (r: Result<
        AggregatedVote,
        OverlordError,
    >)
        ensures
            !votes_aggregate(self.current_auth@, signed_vote_views(votes@)) ==> r is Err
                && r->Err_0 == OverlordError::local_spec(ErrorInfo::UnderMajority),
            votes_aggregate(self.current_auth@, signed_vote_views(votes@)) ==> r is Ok && r->Ok_0@
                == (AggregatedVoteView {
                signature: AggregatedSignatureView {
                    signature: signature@,
                    address_bitmap: pack_spec(
                        flags_of(self.current_auth@, voters_of(signed_vote_views(votes@))),
                    ),
                },
                vote_type: votes@[0].vote.vote_type,
                height: votes@[0].vote.height,
                round: votes@[0].vote.round,
                block_hash: votes@[0].vote.block_hash@,
                leader: self.my_address@,
            }),
    {
        let ghost all = signed_vote_views(votes@);
        if votes.len() == 0 {
            return Err(OverlordError::local(ErrorInfo::UnderMajority));
        }
        let mut voters: Vec<Address> = Vec::new();
        let mut i: usize = 0;
        while i < votes.len()
            invariant
                all == signed_vote_views(votes@),
                0 < votes.len(),
                i <= votes.len(),
                voters@.len() == i,
                forall|j: int| 0 <= j < i ==> voters@[j]@ == (#[trigger] all[j]).voter,
                forall|j: int| 0 <= j < i ==> (#[trigger] all[j]).vote == all[0].vote,
            decreases votes.len() - i,
        {
            if !same_vote(&votes[i].vote, &votes[0].vote) {
                proof {
                    assert(all[i as int].vote != all[0].vote);
                }
                return Err(OverlordError::local(ErrorInfo::UnderMajority));
            }
            voters.push(bytes_clone(&votes[i].voter));
            i += 1;
        }
        proof {
            assert(address_views(voters@) =~= voters_of(all));
        }
        let weight: u64 = self.current_auth.weight_of_voters(&voters);
        if !self.current_auth.beyond_majority(weight) {
            return Err(OverlordError::local(ErrorInfo::UnderMajority));
        }
        let first = &votes[0].vote;
        Ok(
            AggregatedVote {
                signature: AggregatedSignature {
                    signature,
                    address_bitmap: self.current_auth.bitmap_of(&voters),
                },
                vote_type: first.vote_type,
                height: first.height,
                round: first.round,
                block_hash: bytes_clone(&first.block_hash),
                leader: bytes_clone(&self.my_address),
            },
        )
    }

    /// Makes a quorum certificate of signed chokes of the current height;
    /// the rules are those for votes.
    pub fn aggregate_chokes(&self, chokes: &Vec<SignedChoke>, signature: Signature) -> (r: Result<
        ChokeQC,
        OverlordError,
    >)
        ensures
            !chokes_aggregate(self.current_auth@, signed_choke_views(chokes@)) ==> r is Err
                && r->Err_0 == OverlordError::local_spec(ErrorInfo::UnderMajority),
            chokes_aggregate(self.current_auth@, signed_choke_views(chokes@)) ==> r is Ok
                && r->Ok_0@ == (ChokeQCView {
                choke: chokes@[0].choke,
                signature: AggregatedSignatureView {
                    signature: signature@,
                    address_bitmap: pack_spec(
                        flags_of(self.current_auth@, chokers_of(signed_choke_views(chokes@))),
                    ),
                },
            }),
    {
        let ghost all = signed_choke_views(chokes@);
        if chokes.len() == 0 {
            return Err(OverlordError::local(ErrorInfo::UnderMajority));
        }
        let mut voters: Vec<Address> = Vec::new();
        let mut i: usize = 0;
        while i < chokes.len()
            invariant
                all == signed_choke_views(chokes@),
                0 < chokes.len(),
                i <= chokes.len(),
                voters@.len() == i,
                forall|j: int| 0 <= j < i ==> voters@[j]@ == (#[trigger] all[j]).voter,
                forall|j: int| 0 <= j < i ==> (#[trigger] all[j]).choke == all[0].choke,
            decreases chokes.len() - i,
        {
            if chokes[i].choke != chokes[0].choke {
                proof {
                    assert(all[i as int].choke != all[0].choke);
                }
                return Err(OverlordError::local(ErrorInfo::UnderMajority));
            }
            voters.push(bytes_clone(&chokes[i].voter));
            i += 1;
        }
        proof {
            assert(address_views(voters@) =~= chokers_of(all));
        }
        let weight: u64 = self.current_auth.weight_of_voters(&voters);
        if !self.current_auth.beyond_majority(weight) {
            return Err(OverlordError::local(ErrorInfo::UnderMajority));
        }
        Ok(
            ChokeQC {
                choke: chokes[0].choke,
                signature: AggregatedSignature {
                    signature,
                    address_bitmap: self.current_auth.bitmap_of(&voters),
                },
            },
        )
    }
}

/// The values of a list of signed votes.
pub open spec fn signed_vote_views(s: Seq<SignedVote>) -> Seq<SignedVoteView> {
    Seq::new(s.len(), |i: int| s[i]@)
}

/// The values of a list of signed chokes.
pub open spec fn signed_choke_views(s: Seq<SignedChoke>) -> Seq<SignedChokeView> {
    Seq::new(s.len(), |i: int| s[i]@)
}

/// Whether two votes are for the same block in the same phase of the same round.
pub fn same_vote(a: &Vote, b: &Vote) -> (r: bool)
    ensures
        r == (a@ == b@),
{
    a.height == b.height && a.round == b.round && a.vote_type == b.vote_type && bytes_eq(
        &a.block_hash,
        &b.block_hash,
    )
}

/// Leader determinism. Replicas that hold the same validators compute the
/// same leader for every height and round, whatever else they hold.
pub proof fn lemma_leader_deterministic(a: AuthManage, b: AuthManage, height: u64, round: u64)
    requires
        a.current_auth@ == b.current_auth@,
    ensures
        a.current_auth@[leader_index(a.current_auth@.len(), height, round)].address
            == b.current_auth@[leader_index(b.current_auth@.len(), height, round)].address,
{
}

/// Two sorted validator lists that hold the same validators are the same
/// list: the order in which a configuration names its validators does not
/// matter to the set built from it.
pub proof fn lemma_sorted_unique(a: Seq<NodeView>, b: Seq<NodeView>)
    requires
        sorted(a),
        sorted(b),
        forall|x: NodeView| a.contains(x) <==> b.contains(x),
    ensures
        a == b,
    decreases a.len(),
{
    lemma_sorted_distinct(a);
    lemma_sorted_distinct(b);
    if a.len() == 0 {
        if b.len() > 0 {
            assert(b.contains(b[0]));
            assert(a.contains(b[0]));
        }
        assert(a =~= b);
    } else if b.len() == 0 {
        assert(a.contains(a[0]));
        assert(b.contains(a[0]));
    } else {
        // The greatest addresses of the two lists coincide.
        let x = a.last();
        let y = b.last();
        assert(a.contains(x));
        assert(b.contains(x));
        assert(b.contains(y));
        assert(a.contains(y));
        let i = choose|i: int| 0 <= i < b.len() && b[i] == x;
        let j = choose|j: int| 0 <= j < a.len() && a[j] == y;
        if i < b.len() - 1 && j < a.len() - 1 {
            assert(bytes_lt(b[i].address, b[b.len() - 1].address));
            assert(bytes_lt(a[j].address, a[a.len() - 1].address));
            lemma_bytes_lt_transitive(x.address, y.address, x.address, 0);
            lemma_bytes_lt_irreflexive(x.address, 0);
        } else if i < b.len() - 1 {
            assert(bytes_lt(b[i].address, b[b.len() - 1].address));
            lemma_bytes_lt_irreflexive(x.address, 0);
        } else if j < a.len() - 1 {
            assert(bytes_lt(a[j].address, a[a.len() - 1].address));
            lemma_bytes_lt_irreflexive(y.address, 0);
        }
        assert(x == y);
        let a0 = a.drop_last();
        let b0 = b.drop_last();
        assert forall|z: NodeView| a0.contains(z) <==> b0.contains(z) by {
            if a0.contains(z) {
                let k = choose|k: int| 0 <= k < a0.len() && a0[k] == z;
                assert(a[k] == z);
                assert(a.contains(z));
                assert(b.contains(z));
                let m = choose|m: int| 0 <= m < b.len() && b[m] == z;
                if m == b.len() - 1 {
                    assert(bytes_lt(a[k].address, a[a.len() - 1].address));
                    lemma_bytes_lt_irreflexive(x.address, 0);
                }
                assert(b0[m] == z);
            }
            if b0.contains(z) {
                let k = choose|k: int| 0 <= k < b0.len() && b0[k] == z;
                assert(b[k] == z);
                assert(b.contains(z));
                assert(a.contains(z));
                let m = choose|m: int| 0 <= m < a.len() && a[m] == z;
                if m == a.len() - 1 {
                    assert(bytes_lt(b[k].address, b[b.len() - 1].address));
                    lemma_bytes_lt_irreflexive(x.address, 0);
                }
                assert(a0[m] == z);
            }
        }
        assert(sorted(a0)) by {
            assert forall|p: int, q: int| 0 <= p < q < a0.len() implies bytes_lt(
                #[trigger] a0[p].address,
                #[trigger] a0[q].address,
            ) by {
                assert(a0[p] == a[p] && a0[q] == a[q]);
            }
        }
        assert(sorted(b0)) by {
            assert forall|p: int, q: int| 0 <= p < q < b0.len() implies bytes_lt(
                #[trigger] b0[p].address,
                #[trigger] b0[q].address,
            ) by {
                assert(b0[p] == b[p] && b0[q] == b[q]);
            }
        }
        lemma_sorted_unique(a0, b0);
        assert(a =~= a0.push(x));
        assert(b =~= b0.push(y));
    }
}

} // verus!
