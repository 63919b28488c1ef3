//! The state a replica saves before it acts, and what the state machine
//! needs of it after a restart.

use vstd::prelude::*;
use vstd::string::*;

use crate::smr::smr_types::{Lock, LockView, Step};
use crate::types::{
    bytes_clone, AggregatedVote, AggregatedVoteView, PoLC, PoLCView, Vote, VoteType, VoteView,
};

verus! {

/// The lock as it is saved: the round, the pre-vote quorum certificate of
/// that round, and the content of the locked block.
#[derive(Debug, PartialEq, Eq)]
pub struct WalLock<T> {
    pub lock_round: u64,
    pub lock_votes: AggregatedVote,
    pub content: T,
}

/// Mathematical value of a [`WalLock`].
pub struct WalLockView<T> {
    pub lock_round: u64,
    pub lock_votes: AggregatedVoteView,
    pub content: T,
}

impl<T> View for WalLock<T> {
    type V = WalLockView<T>;

    open spec fn view(&self) -> WalLockView<T> {
        WalLockView {
            lock_round: self.lock_round,
            lock_votes: self.lock_votes@,
            content: self.content,
        }
    }
}

impl<T> WalLock<T> {
    /// The proof of lock change that the saved lock stands for.
    pub open spec fn spec_polc(&self) -> PoLCView {
        PoLCView { lock_round: self.lock_round, lock_votes: self.lock_votes@ }
    }

    /// The lock that the state machine keeps for the saved lock.
    pub open spec fn spec_lock(&self) -> LockView {
        LockView { round: self.lock_round, hash: self.lock_votes.block_hash@ }
    }

    /// The proof of lock change to put into a proposal for the locked block.
    pub fn to_polc(&self) -> (r: PoLC)
        ensures
            r@ == self.spec_polc(),
    {
        PoLC { lock_round: self.lock_round, lock_votes: self.lock_votes.clone() }
    }

    /// The round and hash of the saved lock.
    pub fn to_lock(&self) -> (r: Lock)
        ensures
            r@ == self.spec_lock(),
    {
        Lock { round: self.lock_round, hash: bytes_clone(&self.lock_votes.block_hash) }
    }
}

/// The character that stands for a decimal digit.
pub open spec fn digit_char(d: nat) -> char {
    if d == 0 {
        '0'
    } else if d == 1 {
        '1'
    } else if d == 2 {
        '2'
    } else if d == 3 {
        '3'
    } else if d == 4 {
        '4'
    } else if d == 5 {
        '5'
    } else if d == 6 {
        '6'
    } else if d == 7 {
        '7'
    } else if d == 8 {
        '8'
    } else {
        '9'
    }
}

/// A number in decimal: its digits from the most significant one, without
/// leading zeros, and `0` for zero.
pub open spec fn decimal(n: nat) -> Seq<char>
    decreases n,
{
    if n < 10 {
        seq![digit_char(n)]
    } else {
        decimal(n / 10).push(digit_char(n % 10))
    }
}

/// The name of a step as a log line shows it.
pub open spec fn step_name(step: Step) -> Seq<char> {
    match step {
        Step::Propose => "Propose"@,
        Step::Prevote => "Prevote"@,
        Step::Precommit => "Precommit"@,
        Step::Commit => "Commit"@,
    }
}

/// One decimal digit as text.
fn digit_text(d: u64) -> (r: &'static str)
    requires
        d < 10,
    ensures
        r@ == seq![digit_char(d as nat)],
{
    proof {
        reveal_strlit("0");
        reveal_strlit("1");
        reveal_strlit("2");
        reveal_strlit("3");
        reveal_strlit("4");
        reveal_strlit("5");
        reveal_strlit("6");
        reveal_strlit("7");
        reveal_strlit("8");
        reveal_strlit("9");
    }
    let r = if d == 0 {
        "0"
    } else if d == 1 {
        "1"
    } else if d == 2 {
        "2"
    } else if d == 3 {
        "3"
    } else if d == 4 {
        "4"
    } else if d == 5 {
        "5"
    } else if d == 6 {
        "6"
    } else if d == 7 {
        "7"
    } else if d == 8 {
        "8"
    } else {
        "9"
    };
    proof {
        assert(r@ =~= seq![digit_char(d as nat)]);
    }
    r
}

/// Writes a number in decimal at the end of a text.
fn push_decimal(text: &mut String, n: u64)
    ensures
        final(text)@ == old(text)@ + decimal(n as nat),
    decreases n,
{
    if n >= 10 {
        push_decimal(text, n / 10);
    }
    text.append(digit_text(n % 10));
    proof {
        assert(text@ =~= old(text)@ + decimal(n as nat));
    }
}

/// The name of a step as text.
fn step_text(step: Step) -> (r: &'static str)
    ensures
        r@ == step_name(step),
{
    match step {
        Step::Propose => "Propose",
        Step::Prevote => "Prevote",
        Step::Precommit => "Precommit",
        Step::Commit => "Commit",
    }
}

/// What a replica saves: where it stands, and the lock it holds.
#[derive(Debug, PartialEq, Eq)]
pub struct WalInfo<T> {
    pub height: u64,
    pub round: u64,
    pub step: Step,
    pub lock: Option<WalLock<T>>,
}

/// Mathematical value of a [`WalInfo`].
pub struct WalInfoView<T> {
    pub height: u64,
    pub round: u64,
    pub step: Step,
    pub lock: Option<WalLockView<T>>,
}

impl<T> View for WalInfo<T> {
    type V = WalInfoView<T>;

    open spec fn view(&self) -> WalInfoView<T> {
        WalInfoView {
            height: self.height,
            round: self.round,
            step: self.step,
            lock: match self.lock {
                Some(l) => Some(l@),
                None => None,
            },
        }
    }
}

impl<T> WalInfoView<T> {
    /// The vote that a replica casts again when it resumes from the record.
    ///
    /// A record with a lock that stands in the pre-vote step asks for the
    /// pre-vote for the locked block, one in the pre-commit step for the
    /// pre-commit for it, at the height and round of the record. Any other
    /// record asks for no vote.
    pub open spec fn vote_again(self) -> Option<VoteView> {
        match self.lock {
            Some(lock) if self.step == Step::Prevote || self.step == Step::Precommit => Some(
                VoteView {
                    height: self.height,
                    round: self.round,
                    vote_type: if self.step == Step::Prevote {
                        VoteType::Prevote
                    } else {
                        VoteType::Precommit
                    },
                    block_hash: lock.lock_votes.block_hash,
                },
            ),
            _ => None,
        }
    }

    /// The record as a line of text: its height, round and step. The lock
    /// is not shown.
    pub open spec fn text(self) -> Seq<char> {
        "wal info height "@ + decimal(self.height as nat) + ", round "@ + decimal(
            self.round as nat,
        ) + ", step "@ + step_name(self.step)
    }

    /// The part of the record that the state machine resumes from.
    pub open spec fn smr_base(self) -> SMRBaseView {
        SMRBaseView {
            height: self.height,
            round: self.round,
            step: self.step,
            polc: match self.lock {
                Some(l) => Some(LockView { round: l.lock_round, hash: l.lock_votes.block_hash }),
                None => None,
            },
        }
    }
}

impl<T> WalInfo<T> {
    /// The part of the record that the state machine resumes from.
    pub open spec fn spec_smr_base(&self) -> SMRBaseView {
        self@.smr_base()
    }

    /// The vote that a replica casts again when it resumes from the record:
    /// see [`WalInfoView::vote_again`].
    pub fn vote_again(&self) -> (r: Option<Vote>)
        ensures
            match r {
                Some(vote) => self@.vote_again() == Some(vote@),
                None => self@.vote_again() is None,
            },
    {
        let vote_type = match self.step {
            Step::Prevote => VoteType::Prevote,
            Step::Precommit => VoteType::Precommit,
            _ => {
                return None;
            },
        };
        match &self.lock {
            Some(lock) => Some(
                Vote {
                    height: self.height,
                    round: self.round,
                    vote_type,
                    block_hash: bytes_clone(&lock.lock_votes.block_hash),
                },
            ),
            None => None,
        }
    }

    /// A line of text for the log: height, round and step of the record.
    pub fn to_string(&self) -> (text: String)
        ensures
            text@ == self@.text(),
    {
        let mut text = String::new();
        text.append("wal info height ");
        push_decimal(&mut text, self.height);
        text.append(", round ");
        push_decimal(&mut text, self.round);
        text.append(", step ");
        text.append(step_text(self.step));
        proof {
            assert(text@ =~= self@.text());
        }
        text
    }

    /// The part of the record that the state machine resumes from: height,
    /// round and step as saved, and the saved lock without certificate and content.
    pub fn to_smr_base(&self) -> (r: SMRBase)
        ensures
            r@ == self.spec_smr_base(),
    {
        let lock = match &self.lock {
            Some(polc) => Some(polc.to_lock()),
            None => None,
        };
        SMRBase { height: self.height, round: self.round, step: self.step, polc: lock }
    }
}

/// What the state machine resumes from after a restart.
#[derive(Debug, PartialEq, Eq)]
pub struct SMRBase {
    pub height: u64,
    pub round: u64,
    pub step: Step,
    pub polc: Option<Lock>,
}

/// Mathematical value of an [`SMRBase`].
pub struct SMRBaseView {
    pub height: u64,
    pub round: u64,
    pub step: Step,
    pub polc: Option<LockView>,
}

impl View for SMRBase {
    type V = SMRBaseView;

    open spec fn view(&self) -> SMRBaseView {
        SMRBaseView {
            height: self.height,
            round: self.round,
            step: self.step,
            polc: match self.polc {
                Some(l) => Some(l@),
                None => None,
            },
        }
    }
}

impl Clone for SMRBase {
    fn clone(&self) -> (r: Self)
        ensures
            r@ == self@,
    {
        SMRBase {
            height: self.height,
            round: self.round,
            step: self.step,
            polc: match &self.polc {
                Some(l) => Some(l.clone()),
                None => None,
            },
        }
    }
}

} // verus!
