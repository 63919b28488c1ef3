//! What a replica remembers about the effects it has asked for: which
//! blocks it has requested, and by which timing it arms its timers.

use vstd::prelude::*;

use crate::auth::address_views;
use crate::cabinet::FetchedFullBlock;
use crate::error::{ErrorInfo, ErrorKind, OverlordError};
use crate::state::{Stage, Step};
use crate::timeout::{timeout_of, TimeConfig, TimeConfigView};
use crate::types::{bytes_clone, bytes_eq};

verus! {

/// What a timer says when it fires.
#[derive(Clone, Copy, Debug, PartialEq, Eq, Structural)]
pub enum TimeoutEvent {
    ProposeTimeout(Stage),
    PreVoteTimeout(Stage),
    PreCommitTimeout(Stage),
    BrakeTimeout(Stage),
    NextHeightTimeout(u64),
}

impl TimeoutEvent {
    /// The event of the timer that is armed on entering `stage`.
    pub open spec fn of(stage: Stage) -> TimeoutEvent {
        match stage.step {
            Step::Propose => TimeoutEvent::ProposeTimeout(stage),
            Step::PreVote => TimeoutEvent::PreVoteTimeout(stage),
            Step::PreCommit => TimeoutEvent::PreCommitTimeout(stage),
            Step::Brake => TimeoutEvent::BrakeTimeout(stage),
            Step::Commit => TimeoutEvent::NextHeightTimeout(stage.height),
        }
    }

    /// The event of the timer that is armed on entering `stage`.
    pub fn from_stage(stage: Stage) -> (r: TimeoutEvent)
        ensures
            r == TimeoutEvent::of(stage),
    {
        match stage.step {
            Step::Propose => TimeoutEvent::ProposeTimeout(stage),
            Step::PreVote => TimeoutEvent::PreVoteTimeout(stage),
            Step::PreCommit => TimeoutEvent::PreCommitTimeout(stage),
            Step::Brake => TimeoutEvent::BrakeTimeout(stage),
            Step::Commit => TimeoutEvent::NextHeightTimeout(stage.height),
        }
    }
}

/// A timer to arm: after `delay` milliseconds it delivers `event`.
#[derive(Clone, Copy, Debug, PartialEq, Eq, Structural)]
pub struct TimeoutInfo {
    pub delay: u128,
    pub event: TimeoutEvent,
}

/// The timer to arm on entering `stage`, if any.
pub open spec fn timer_of(config: TimeConfigView, stage: Stage, elapsed: u64) -> Option<
    TimeoutInfo,
> {
    match timeout_of(config, stage, elapsed) {
        Some(delay) => Some(TimeoutInfo { delay: delay as u128, event: TimeoutEvent::of(stage) }),
        None => None,
    }
}

/// The bookkeeping of one replica's effects.
#[derive(Debug)]
pub struct EventAgent {
    /// The timing of the current height.
    pub time_config: TimeConfig,
    /// The hashes of the blocks whose content has been requested at this height.
    pub fetch_set: Vec<crate::types::Hash>,
}

impl EventAgent {
    /// Whether the content of the block with this hash has been requested.
    pub open spec fn requested(&self, hash: Seq<u8>) -> bool {
        address_views(self.fetch_set@).contains(hash)
    }

    /// The hashes of the blocks whose content has been requested.
    pub open spec fn fetched(&self) -> Set<Seq<u8>> {
        Set::new(|h: Seq<u8>| self.requested(h))
    }

    /// The bookkeeping of a replica that begins a height.
    pub fn new(time_config: TimeConfig) -> (r: Self)
        ensures
            r.time_config == time_config,
            forall|h: Seq<u8>| !r.requested(h),
            r.fetched() == Set::<Seq<u8>>::empty(),
    {
        let r = EventAgent { time_config, fetch_set: Vec::new() };
        proof {
            assert(r.fetched() =~= Set::<Seq<u8>>::empty());
        }
        r
    }

    /// A height begins: its timing is installed, and the requests of the
    /// height before are forgotten.
    pub fn next_height(&mut self, time_config: TimeConfig)
        ensures
            final(self).time_config == time_config,
            forall|h: Seq<u8>| !final(self).requested(h),
            final(self).fetched() == Set::<Seq<u8>>::empty(),
    {
        self.time_config = time_config;
        self.fetch_set = Vec::new();
        proof {
            assert(self.fetched() =~= Set::<Seq<u8>>::empty());
        }
    }

    /// Whether the content of the block with this hash has been requested.
    pub fn is_requested(&self, hash: &crate::types::Hash) -> (r: bool)
        ensures
            r == self.requested(hash@),
    {
        crate::auth::contains_address(&self.fetch_set, hash)
    }

    /// Notes that the content of a block is wanted. Returns whether it is to
    /// be fetched now, which is the case unless it has been requested before.
    pub fn request_full_block(&mut self, hash: &crate::types::Hash) -> (r: bool)
        ensures
            r == !old(self).requested(hash@),
            final(self).time_config == old(self).time_config,
            forall|h: Seq<u8>| final(self).requested(h) <==> old(self).requested(h) || h == hash@,
            final(self).fetched() == old(self).fetched().insert(hash@),
    {
        if self.is_requested(hash) {
            proof {
                assert(self.fetched() =~= old(self).fetched().insert(hash@));
            }
            return false;
        }
        let ghost before = address_views(self.fetch_set@);
        self.fetch_set.push(bytes_clone(hash));
        proof {
            let after = address_views(self.fetch_set@);
            assert(after =~= before.push(hash@));
            assert forall|h: Seq<u8>| after.contains(h) <==> before.contains(h) || h == hash@ by {
                if before.contains(h) {
                    let i = choose|i: int| 0 <= i < before.len() && before[i] == h;
                    assert(after[i] == h);
                }
                if h == hash@ {
                    assert(after[before.len() as int] == h);
                }
            }
            assert(self.fetched() =~= old(self).fetched().insert(hash@));
        }
        true
    }

    /// Takes in the outcome of a fetch: the content of a block, or the hash
    /// of the block whose content could not be had. A failed request is
    /// forgotten, so that the block can be requested again.
    pub fn handle_fetch(&mut self, fetch_result: Result<FetchedFullBlock, crate::types::Hash>) -> (r:
        Result<FetchedFullBlock, OverlordError>)
        ensures
            final(self).time_config == old(self).time_config,
            match fetch_result {
                Ok(fetched) => r == Ok::<FetchedFullBlock, OverlordError>(fetched) && final(self).fetch_set == old(self).fetch_set,
                Err(hash) => {
                    &&& r is Err
                    &&& r->Err_0 == (OverlordError { kind: ErrorKind::Net, info: ErrorInfo::Fetch })
                    &&& forall|h: Seq<u8>|
                        final(self).requested(h) <==> old(self).requested(h) && h != hash@
                    &&& final(self).fetched() == old(self).fetched().remove(hash@)
                },
            },
    {
        match fetch_result {
            Ok(fetched) => Ok(fetched),
            Err(hash) => {
                let ghost before = address_views(self.fetch_set@);
                let mut kept: Vec<crate::types::Hash> = Vec::new();
                let mut i: usize = 0;
                while i < self.fetch_set.len()
                    invariant
                        before == address_views(self.fetch_set@),
                        i <= self.fetch_set.len(),
                        forall|h: Seq<u8>|
                            address_views(kept@).contains(h) <==> before.subrange(
                                0,
                                i as int,
                            ).contains(h) && h != hash@,
                    decreases self.fetch_set.len() - i,
                {
                    let ghost kept_before = address_views(kept@);
                    let ghost seen = before.subrange(0, i as int);
                    let ghost seen_next = before.subrange(0, i + 1);
                    let keep: bool = !bytes_eq(&self.fetch_set[i], &hash);
                    if keep {
                        kept.push(bytes_clone(&self.fetch_set[i]));
                    }
                    proof {
                        let kept_after = address_views(kept@);
                        let x = before[i as int];
                        if keep {
                            assert(kept_after =~= kept_before.push(x));
                        } else {
                            assert(kept_after =~= kept_before);
                        }
                        assert(seen_next =~= seen.push(x));
                        assert forall|h: Seq<u8>|
                            kept_after.contains(h) <==> seen_next.contains(h) && h != hash@ by {
                            if kept_after.contains(h) {
                                let k = choose|k: int| 0 <= k < kept_after.len() && kept_after[k] == h;
                                if k < kept_before.len() {
                                    assert(kept_before[k] == h);
                                    assert(kept_before.contains(h));
                                    let m = choose|m: int| 0 <= m < seen.len() && seen[m] == h;
                                    assert(seen_next[m] == h);
                                } else {
                                    assert(seen_next[i as int] == h);
                                }
                            }
                            if seen_next.contains(h) && h != hash@ {
                                let m = choose|m: int| 0 <= m < seen_next.len() && seen_next[m] == h;
                                if m < i {
                                    assert(seen[m] == h);
                                    assert(seen.contains(h));
                                    assert(kept_before.contains(h));
                                    let k = choose|k: int|
                                        0 <= k < kept_before.len() && kept_before[k] == h;
                                    assert(kept_after[k] == h);
                                } else {
                                    assert(h == x);
                                    assert(keep);
                                    assert(kept_after[kept_before.len() as int] == h);
                                }
                            }
                        }
                    }
                    i += 1;
                }
                proof {
                    assert(before.subrange(0, i as int) =~= before);
                }
                self.fetch_set = kept;
                proof {
                    assert(self.fetched() =~= old(self).fetched().remove(hash@));
                }
                Err(OverlordError::net_fetch())
            },
        }
    }

    /// The timeout, in milliseconds, of the timer to arm on entering `stage`.
    pub fn compute_timeout(&self, stage: &Stage, elapsed: u64) -> (r: Option<u128>)
        ensures
            r is Some <==> timeout_of(self.time_config@, *stage, elapsed) is Some,
            r is Some ==> r->0 == timeout_of(self.time_config@, *stage, elapsed)->0,
    {
        self.time_config.compute_timeout(stage, elapsed)
    }

    /// The timer to arm on entering `stage`, given that `elapsed`
    /// milliseconds have passed since the height began; `None` where no
    /// timer is to be armed.
    pub fn set_timeout(&self, stage: Stage, elapsed: u64) -> (r: Option<TimeoutInfo>)
        ensures
            r == timer_of(self.time_config@, stage, elapsed),
    {
        match self.compute_timeout(&stage, elapsed) {
            Some(delay) => Some(TimeoutInfo { delay, event: TimeoutEvent::from_stage(stage) }),
            None => None,
        }
    }
}

} // verus!
