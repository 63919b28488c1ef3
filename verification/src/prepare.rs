//! What a replica needs to propose the next block and to judge the
//! proposals of others: the last committed block, and the execution results
//! that blocks refer to.

use vstd::prelude::*;

use crate::auth::{clone_nodes, views, Node, NodeView};
use crate::error::{ErrorInfo, OverlordError};
use crate::timeout::{TimeConfig, TimeConfigView};
use crate::types::{AggregatedVote, AggregatedVoteView};

verus! {

/// The state of the application after the block of a height has been executed.
#[derive(Debug, PartialEq, Eq)]
pub struct BlockState<S> {
    pub height: u64,
    pub state: S,
}

/// What the consensus takes from the application for the heights to come.
#[derive(Debug, PartialEq, Eq)]
pub struct ConsensusConfig {
    /// The validators.
    pub auth_config: Vec<Node>,
    /// The timing.
    pub time_config: TimeConfig,
}

/// Mathematical value of a [`ConsensusConfig`].
pub struct ConsensusConfigView {
    pub auth_config: Seq<NodeView>,
    pub time_config: TimeConfigView,
}

impl View for ConsensusConfig {
    type V = ConsensusConfigView;

    open spec fn view(&self) -> ConsensusConfigView {
        ConsensusConfigView {
            auth_config: views(self.auth_config@),
            time_config: self.time_config@,
        }
    }
}

impl Clone for ConsensusConfig {
    fn clone(&self) -> (r: Self)
        ensures
            r@ == self@,
    {
        let nodes = clone_nodes(&self.auth_config);
        ConsensusConfig { auth_config: nodes, time_config: self.time_config }
    }
}

/// The result of executing the block of a height.
#[derive(Debug, PartialEq, Eq)]
pub struct ExecResult<S> {
    /// The configuration that applies once a block that refers to this
    /// execution has been committed.
    pub consensus_config: ConsensusConfig,
    /// The height that was executed and the state it led to.
    pub block_states: BlockState<S>,
}

/// Mathematical value of an [`ExecResult`].
pub struct ExecResultView<S> {
    pub height: u64,
    pub consensus_config: ConsensusConfigView,
    pub state: S,
}

impl<S> View for ExecResult<S> {
    type V = ExecResultView<S>;

    open spec fn view(&self) -> ExecResultView<S> {
        ExecResultView {
            height: self.block_states.height,
            consensus_config: self.consensus_config@,
            state: self.block_states.state,
        }
    }
}

/// The values of a list of execution results.
pub open spec fn result_views<S>(s: Seq<ExecResult<S>>) -> Seq<ExecResultView<S>> {
    Seq::new(s.len(), |i: int| s[i]@)
}

/// Whether an execution result for `height` is among the results.
pub open spec fn has_result<S>(results: Seq<ExecResultView<S>>, height: u64) -> bool {
    exists|i: int| 0 <= i < results.len() && (#[trigger] results[i]).height == height
}

/// The first result for `height` stands at position `i`.
pub open spec fn result_at<S>(results: Seq<ExecResultView<S>>, height: u64, i: int) -> bool {
    &&& 0 <= i < results.len()
    &&& results[i].height == height
    &&& forall|j: int| 0 <= j < i ==> (#[trigger] results[j]).height != height
}

/// The position of the first result for `height`.
pub open spec fn first_result<S>(results: Seq<ExecResultView<S>>, height: u64) -> int {
    choose|i: int| result_at(results, height, i)
}

/// The configuration that the first result for `height` carries.
pub open spec fn config_of<S>(results: Seq<ExecResultView<S>>, height: u64) -> ConsensusConfigView {
    results[first_result(results, height)].consensus_config
}

/// There is one first result for a height.
pub proof fn lemma_result_at_unique<S>(
    results: Seq<ExecResultView<S>>,
    height: u64,
    i: int,
    j: int,
)
    requires
        result_at(results, height, i),
    ensures
        result_at(results, height, j) ==> i == j,
        first_result(results, height) == i,
{
    if result_at(results, height, j) {
        if i < j {
            assert(results[i].height == height);
        } else if j < i {
            assert(results[j].height == height);
        }
    }
    let c = first_result(results, height);
    if c < i {
        assert(results[c].height == height);
    } else if i < c {
        assert(results[i].height == height);
    }
}

/// Results are at hand for every height above `from` up to `to`.
pub open spec fn contiguous<S>(results: Seq<ExecResultView<S>>, from: u64, to: u64) -> bool {
    forall|h: u64| from < h <= to ==> has_result(results, h)
}

/// The height up to which execution is known without a gap, starting from
/// `from`: results are at hand for every height above `from` up to it, and
/// not for the height after it.
pub open spec fn reaches<S>(results: Seq<ExecResultView<S>>, from: u64, to: u64) -> bool {
    &&& from <= to
    &&& contiguous(results, from, to)
    &&& (to == u64::MAX || !has_result(results, (to + 1) as u64))
}

/// Those of the first `n` results that are for `height` or a later height.
pub open spec fn results_from<S>(results: Seq<ExecResultView<S>>, height: u64, n: nat) -> Seq<
    ExecResultView<S>,
>
    decreases n,
{
    if n == 0 {
        Seq::empty()
    } else if results[n - 1].height >= height {
        results_from(results, height, (n - 1) as nat).push(results[n - 1])
    } else {
        results_from(results, height, (n - 1) as nat)
    }
}

/// The execution results at hand for the heights from `high` down to the
/// one above `low`, highest height first, one for each height for which
/// there is one.
pub open spec fn states_between<S>(results: Seq<ExecResultView<S>>, low: u64, high: u64) -> Seq<
    ExecResultView<S>,
>
    decreases high - low,
{
    if high <= low {
        Seq::empty()
    } else if has_result(results, (low + 1) as u64) {
        states_between(results, (low + 1) as u64, high).push(
            results[first_result(results, (low + 1) as u64)],
        )
    } else {
        states_between(results, (low + 1) as u64, high)
    }
}

/// Mathematical value of a [`ProposePrepare`].
pub struct PrepareView<S> {
    pub height: u64,
    pub exec_height: u64,
    pub pre_hash: Seq<u8>,
    pub pre_proof: AggregatedVoteView,
    pub exec_results: Seq<ExecResultView<S>>,
}

/// The context in which the next block is proposed.
#[derive(Debug)]
pub struct ProposePrepare<S> {
    /// The height the replica works on.
    pub height: u64,
    /// The highest height up to which execution results are at hand without a gap.
    pub exec_height: u64,
    /// The hash of the last committed block.
    pub pre_hash: crate::types::Hash,
    /// The pre-commit quorum certificate of the last committed block.
    pub pre_proof: AggregatedVote,
    /// The execution results that blocks to come may still refer to.
    pub exec_results: Vec<ExecResult<S>>,
}

impl<S> View for ProposePrepare<S> {
    type V = PrepareView<S>;

    open spec fn view(&self) -> PrepareView<S> {
        PrepareView {
            height: self.height,
            exec_height: self.exec_height,
            pre_hash: self.pre_hash@,
            pre_proof: self.pre_proof@,
            exec_results: result_views(self.exec_results@),
        }
    }
}

impl<S> ProposePrepare<S> {
    /// The context of a replica that works on `height`: the last committed
    /// block has hash `pre_hash` and proof `pre_proof`, and execution is
    /// known up to `exec_height`.
    pub fn new(
        height: u64,
        exec_height: u64,
        exec_results: Vec<ExecResult<S>>,
        pre_proof: AggregatedVote,
        pre_hash: crate::types::Hash,
    ) -> (r: Self)
        ensures
            r@ == (PrepareView {
                height,
                exec_height,
                pre_hash: pre_hash@,
                pre_proof: pre_proof@,
                exec_results: result_views(exec_results@),
            }),
    {
        ProposePrepare { height, exec_height, pre_hash, pre_proof, exec_results }
    }

    /// The position of the first result for `height`, if there is one.
    fn find(&self, height: u64) -> (r: Option<usize>)
        ensures
            r is Some <==> has_result(self@.exec_results, height),
            r is Some ==> result_at(self@.exec_results, height, r->0 as int),
    {
        let ghost results = self@.exec_results;
        let mut i: usize = 0;
        while i < self.exec_results.len()
            invariant
                results == self@.exec_results,
                i <= self.exec_results.len(),
                forall|j: int| 0 <= j < i ==> (#[trigger] results[j]).height != height,
            decreases self.exec_results.len() - i,
        {
            if self.exec_results[i].block_states.height == height {
                proof {
                    assert(results[i as int].height == height);
                }
                return Some(i);
            }
            i += 1;
        }
        None
    }

    /// Takes in the result of executing a block.
    ///
    /// A result for a height that has not been committed yet, or for which a
    /// result is at hand already, is dropped. After that, the execution
    /// height moves up as far as results are at hand without a gap.
    pub fn handle_exec_result(&mut self, exec_result: ExecResult<S>)
        ensures
            final(self)@.height == old(self)@.height,
            final(self)@.pre_hash == old(self)@.pre_hash,
            final(self)@.pre_proof == old(self)@.pre_proof,
            final(self)@.exec_results == if exec_result@.height >= old(self)@.height || has_result(
                old(self)@.exec_results,
                exec_result@.height,
            ) {
                old(self)@.exec_results
            } else {
                old(self)@.exec_results.push(exec_result@)
            },
            reaches(final(self)@.exec_results, old(self)@.exec_height, final(self)@.exec_height),
    {
        let height: u64 = exec_result.block_states.height;
        if height < self.height && self.find(height).is_none() {
            let ghost before = self@.exec_results;
            self.exec_results.push(exec_result);
            proof {
                assert(self@.exec_results =~= before.push(exec_result@));
            }
        }
        let ghost from = self.exec_height;
        while self.exec_height < u64::MAX && self.find(self.exec_height + 1).is_some()
            invariant
                from <= self.exec_height,
                contiguous(self@.exec_results, from, self.exec_height),
                self@.height == old(self)@.height,
                self@.pre_hash == old(self)@.pre_hash,
                self@.pre_proof == old(self)@.pre_proof,
                self@.exec_results == if exec_result@.height >= old(self)@.height || has_result(
                    old(self)@.exec_results,
                    exec_result@.height,
                ) {
                    old(self)@.exec_results
                } else {
                    old(self)@.exec_results.push(exec_result@)
                },
            decreases u64::MAX - self.exec_height,
        {
            self.exec_height = self.exec_height + 1;
        }
    }

    /// The configuration that the first result for `exec_h` carries.
    pub fn config_at(&self, exec_h: u64) -> (r: Option<ConsensusConfig>)
        ensures
            r is Some <==> has_result(self@.exec_results, exec_h),
            r is Some ==> r->0@ == config_of(self@.exec_results, exec_h),
    {
        match self.find(exec_h) {
            None => None,
            Some(i) => {
                proof {
                    lemma_result_at_unique(
                        self@.exec_results,
                        exec_h,
                        i as int,
                        first_result(self@.exec_results, exec_h),
                    );
                }
                Some(self.exec_results[i].consensus_config.clone())
            },
        }
    }

    /// The last committed block is now the one with hash `commit_hash` and
    /// proof `proof`, and the replica goes on to `next_height`. The committed
    /// block took execution up to `commit_exec_h` into account: results for
    /// lower heights are dropped, and the configuration that the result for
    /// `commit_exec_h` carries is returned, for it applies to `next_height`.
    /// Where that result is missing nothing changes.
    pub fn handle_commit(
        &mut self,
        commit_hash: crate::types::Hash,
        proof: AggregatedVote,
        commit_exec_h: u64,
        next_height: u64,
    ) -> (r: Result<ConsensusConfig, OverlordError>)
        ensures
            !has_result(old(self)@.exec_results, commit_exec_h) ==> r is Err && r->Err_0
                == OverlordError::local_spec(ErrorInfo::Missing) && final(self)@ == old(self)@,
            has_result(old(self)@.exec_results, commit_exec_h) ==> {
                &&& r is Ok
                &&& r->Ok_0@ == config_of(old(self)@.exec_results, commit_exec_h)
                &&& final(self)@ == (PrepareView {
                    height: next_height,
                    exec_height: old(self)@.exec_height,
                    pre_hash: commit_hash@,
                    pre_proof: proof@,
                    exec_results: results_from(
                        old(self)@.exec_results,
                        commit_exec_h,
                        old(self)@.exec_results.len(),
                    ),
                })
            },
    {
        let config = match self.config_at(commit_exec_h) {
            None => {
                return Err(OverlordError::local(ErrorInfo::Missing));
            },
            Some(config) => config,
        };
        self.pre_hash = commit_hash;
        self.pre_proof = proof;
        self.height = next_height;
        let mut old_results: Vec<ExecResult<S>> = Vec::new();
        core::mem::swap(&mut self.exec_results, &mut old_results);
        let ghost raw = old_results@;
        let ghost all = result_views(raw);
        for result in it: old_results.into_iter()
            invariant
                it.seq() == raw,
                all == result_views(raw),
                result_views(self.exec_results@) =~= results_from(
                    all,
                    commit_exec_h,
                    it.index() as nat,
                ),
                self.height == next_height,
                self.exec_height == old(self).exec_height,
                self.pre_hash@ == commit_hash@,
                self.pre_proof@ == proof@,
        {
            proof {
                assert(all[it.index() as int] == result@);
            }
            if result.block_states.height >= commit_exec_h {
                self.exec_results.push(result);
            }
        }
        Ok(config)
    }

    /// The execution results at hand for the heights from the execution
    /// height down to the one above `exec_h`, highest height first: what a
    /// block that takes execution up to the execution height into account
    /// has to state, given that the block before it stopped at `exec_h`.
    pub fn get_block_states_list(&self, exec_h: u64) -> (r: Vec<&ExecResult<S>>)
        ensures
            ref_views(r@) == states_between(self@.exec_results, exec_h, self@.exec_height),
    {
        let mut out: Vec<&ExecResult<S>> = Vec::new();
        if self.exec_height <= exec_h {
            proof {
                assert(ref_views(out@) =~= states_between(
                    self@.exec_results,
                    exec_h,
                    self@.exec_height,
                ));
            }
            return out;
        }
        let mut h: u64 = self.exec_height;
        while h > exec_h
            invariant
                exec_h <= h <= self.exec_height,
                ref_views(out@) =~= states_between(self@.exec_results, h, self@.exec_height),
            decreases h,
        {
            match self.find(h) {
                Some(i) => {
                    proof {
                        lemma_result_at_unique(self@.exec_results, h, i as int, i as int);
                    }
                    out.push(&self.exec_results[i]);
                },
                None => {},
            }
            h = h - 1;
        }
        out
    }
}

/// The values of a list of borrowed execution results.
pub open spec fn ref_views<S>(s: Seq<&ExecResult<S>>) -> Seq<ExecResultView<S>> {
    Seq::new(s.len(), |i: int| s[i]@)
}

} // verus!
