//! How long a replica waits in each step before it gives up on a round.

use vstd::prelude::*;

use crate::state::{Stage, Step};

verus! {

/// Beyond this many failed rounds the step timeouts stop doubling.
pub const POWER_CAP: u32 = 5;

/// The ratios of a [`TimeConfig`] are tenths of the interval.
pub const TIME_DIVISOR: u64 = 10;

/// Mathematical value of a [`TimeConfig`].
pub struct TimeConfigView {
    pub interval: u64,
    pub propose_ratio: u64,
    pub pre_vote_ratio: u64,
    pub pre_commit_ratio: u64,
    pub brake_ratio: u64,
}

impl TimeConfigView {
    /// Every product of the interval and a ratio fits into 64 bits.
    pub open spec fn fits(self) -> bool {
        &&& self.interval * self.propose_ratio <= u64::MAX
        &&& self.interval * self.pre_vote_ratio <= u64::MAX
        &&& self.interval * self.pre_commit_ratio <= u64::MAX
        &&& self.interval * self.brake_ratio <= u64::MAX
    }
}

/// The timing of a height: the baseline interval between two blocks in
/// milliseconds, and the share of it, in tenths, that each step may take.
#[derive(Clone, Copy, Debug, PartialEq, Eq)]
pub struct TimeConfig {
    interval: u64,
    propose_ratio: u64,
    pre_vote_ratio: u64,
    pre_commit_ratio: u64,
    brake_ratio: u64,
}

impl View for TimeConfig {
    type V = TimeConfigView;

    closed spec fn view(&self) -> TimeConfigView {
        TimeConfigView {
            interval: self.interval,
            propose_ratio: self.propose_ratio,
            pre_vote_ratio: self.pre_vote_ratio,
            pre_commit_ratio: self.pre_commit_ratio,
            brake_ratio: self.brake_ratio,
        }
    }
}

/// Two to the power of `n`.
pub open spec fn two_to(n: nat) -> nat
    decreases n,
{
    if n == 0 {
        1
    } else {
        2 * two_to((n - 1) as nat)
    }
}

/// The number of doublings after `round` failed rounds.
pub open spec fn capped(round: nat) -> nat {
    if round < POWER_CAP as nat {
        round
    } else {
        POWER_CAP as nat
    }
}

/// The timeout of a step that may take `ratio` tenths of `interval`, in
/// milliseconds and before any doubling.
pub open spec fn base_timeout(interval: u64, ratio: u64) -> nat {
    ((interval * ratio) / (TIME_DIVISOR as int)) as nat
}

/// The timeout of the propose, pre-vote or pre-commit step in round `round`:
/// the base timeout, doubled for each failed round up to the cap.
pub open spec fn step_timeout(interval: u64, ratio: u64, round: u64) -> nat {
    base_timeout(interval, ratio) * two_to(capped(round as nat))
}

/// How long a replica that has committed `elapsed` milliseconds into a
/// height waits before it starts the next height.
pub open spec fn commit_throttle(interval: u64, elapsed: u64) -> nat {
    if elapsed < interval {
        (interval - elapsed) as nat
    } else {
        0
    }
}

/// The timeout of a stage, if a timer is to be armed for it. In the commit
/// step no timer is armed once the interval has passed.
pub open spec fn timeout_of(config: TimeConfigView, stage: Stage, elapsed: u64) -> Option<nat> {
    match stage.step {
        Step::Propose => Some(step_timeout(config.interval, config.propose_ratio, stage.round)),
        Step::PreVote => Some(step_timeout(config.interval, config.pre_vote_ratio, stage.round)),
        Step::PreCommit => Some(
            step_timeout(config.interval, config.pre_commit_ratio, stage.round),
        ),
        Step::Brake => Some(base_timeout(config.interval, config.brake_ratio)),
        Step::Commit => if commit_throttle(config.interval, elapsed) > 0 {
            Some(commit_throttle(config.interval, elapsed))
        } else {
            None
        },
    }
}

/// Doubles a timeout once for each failed round, at most [`POWER_CAP`] times.
pub fn apply_power(timeout: u64, power: u32) -> (r: u128)
    ensures
        r == timeout * two_to(capped(power as nat)),
{
    let capped_power: u32 = if power > POWER_CAP {
        POWER_CAP
    } else {
        power
    };
    let mut factor: u128 = 1;
    let mut i: u32 = 0;
    while i < capped_power
        invariant
            i <= capped_power <= POWER_CAP,
            factor == two_to(i as nat),
            factor <= 32,
        decreases capped_power - i,
    {
        proof {
            reveal_with_fuel(two_to, 7);
        }
        factor = factor * 2;
        i += 1;
    }
    assert(timeout * factor <= u128::MAX) by (nonlinear_arith)
        requires
            timeout <= u64::MAX,
            factor <= 32,
    ;
    timeout as u128 * factor
}

impl TimeConfig {
    #[verifier::type_invariant]
    spec fn inv(self) -> bool {
        self@.fits()
    }

    /// A timing configuration, unless the product of the interval and one of
    /// the ratios does not fit into 64 bits.
    pub fn new(
        interval: u64,
        propose_ratio: u64,
        pre_vote_ratio: u64,
        pre_commit_ratio: u64,
        brake_ratio: u64,
    ) -> (r: Option<TimeConfig>)
        ensures
            r is Some <==> (TimeConfigView {
                interval,
                propose_ratio,
                pre_vote_ratio,
                pre_commit_ratio,
                brake_ratio,
            }).fits(),
            r is Some ==> r->0@ == (TimeConfigView {
                interval,
                propose_ratio,
                pre_vote_ratio,
                pre_commit_ratio,
                brake_ratio,
            }),
    {
        if interval.checked_mul(propose_ratio).is_none() || interval.checked_mul(
            pre_vote_ratio,
        ).is_none() || interval.checked_mul(pre_commit_ratio).is_none() || interval.checked_mul(
            brake_ratio,
        ).is_none() {
            return None;
        }
        Some(TimeConfig { interval, propose_ratio, pre_vote_ratio, pre_commit_ratio, brake_ratio })
    }

    /// The baseline interval between two blocks, in milliseconds.
    pub fn interval(&self) -> (r: u64)
        ensures
            r == self@.interval,
            self@.fits(),
    {
        proof {
            use_type_invariant(self);
        }
        self.interval
    }

    /// The four ratios: propose, pre-vote, pre-commit, brake.
    pub fn ratios(&self) -> (r: (u64, u64, u64, u64))
        ensures
            r == (
                self@.propose_ratio,
                self@.pre_vote_ratio,
                self@.pre_commit_ratio,
                self@.brake_ratio,
            ),
    {
        (self.propose_ratio, self.pre_vote_ratio, self.pre_commit_ratio, self.brake_ratio)
    }

    /// The timeout, in milliseconds, of the timer to arm on entering
    /// `stage`, given that `elapsed` milliseconds have passed since the
    /// height began; `None` where no timer is to be armed.
    pub fn compute_timeout(&self, stage: &Stage, elapsed: u64) -> (r: Option<u128>)
        ensures
            r is Some <==> timeout_of(self@, *stage, elapsed) is Some,
            r is Some ==> r->0 == timeout_of(self@, *stage, elapsed)->0,
    {
        proof {
            use_type_invariant(self);
        }
        let power: u32 = if stage.round > POWER_CAP as u64 {
            POWER_CAP
        } else {
            stage.round as u32
        };
        match stage.step {
            Step::Propose => Some(
                apply_power(self.interval * self.propose_ratio / TIME_DIVISOR, power),
            ),
            Step::PreVote => Some(
                apply_power(self.interval * self.pre_vote_ratio / TIME_DIVISOR, power),
            ),
            Step::PreCommit => Some(
                apply_power(self.interval * self.pre_commit_ratio / TIME_DIVISOR, power),
            ),
            Step::Brake => Some((self.interval * self.brake_ratio / TIME_DIVISOR) as u128),
            Step::Commit => {
                if elapsed < self.interval {
                    Some((self.interval - elapsed) as u128)
                } else {
                    None
                }
            },
        }
    }
}

} // verus!
