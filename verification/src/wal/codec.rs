//! The byte form in which a replica's state is written to the write-ahead
//! log, and read back from it.
//!
//! Numbers are eight bytes, least significant byte first. A byte string is
//! its length as a number, followed by its bytes. An optional value is one
//! byte, 0 or 1, followed by the value where the byte is 1. Steps, vote
//! types and kinds of evidence are one byte each.

use vstd::bytes::{
    lemma_auto_spec_u64_to_from_le_bytes, spec_u64_from_le_bytes, spec_u64_to_le_bytes,
    u64_from_le_bytes, u64_to_le_bytes,
};
use vstd::prelude::*;
use vstd::slice::slice_subrange;

use crate::state::{Stage, StateInfo, StateView, Step};
use crate::types::{
    AggregatedSignature, AggregatedSignatureView, AggregatedVote, AggregatedVoteView, BlockInfo,
    BlockInfoView, Choke, ChokeQC, ChokeQCView, PoLC, PoLCView, UpdateFrom, UpdateFromView,
    VoteType,
};

verus! {

/// What is left of `bytes` from position `pos` on.
pub open spec fn rest(bytes: Seq<u8>, pos: int) -> Seq<u8> {
    bytes.subrange(pos, bytes.len() as int)
}

/// The byte form of a number.
pub open spec fn enc_u64(x: u64) -> Seq<u8> {
    spec_u64_to_le_bytes(x)
}

/// Reads a number off the front of `s`.
pub open spec fn dec_u64(s: Seq<u8>) -> Option<(u64, Seq<u8>)> {
    if s.len() >= 8 {
        Some((spec_u64_from_le_bytes(s.subrange(0, 8)), rest(s, 8)))
    } else {
        None
    }
}

/// The byte form of a byte string.
pub open spec fn enc_bytes(b: Seq<u8>) -> Seq<u8> {
    enc_u64(b.len() as u64) + b
}

/// Reads a byte string off the front of `s`.
pub open spec fn dec_bytes(s: Seq<u8>) -> Option<(Seq<u8>, Seq<u8>)> {
    match dec_u64(s) {
        Some((n, r)) => if n <= r.len() {
            Some((r.subrange(0, n as int), rest(r, n as int)))
        } else {
            None
        },
        None => None,
    }
}

/// The byte of a step.
pub open spec fn step_byte(step: Step) -> u8 {
    step.rank() as u8
}

/// The step of a byte, if the byte stands for one.
pub open spec fn byte_step(b: u8) -> Option<Step> {
    if b == 0 {
        Some(Step::Propose)
    } else if b == 1 {
        Some(Step::PreVote)
    } else if b == 2 {
        Some(Step::PreCommit)
    } else if b == 3 {
        Some(Step::Brake)
    } else if b == 4 {
        Some(Step::Commit)
    } else {
        None
    }
}

/// The byte of a vote type.
pub open spec fn vote_type_byte(t: VoteType) -> u8 {
    match t {
        VoteType::Prevote => 0,
        VoteType::Precommit => 1,
    }
}

/// The byte form of a stage.
pub open spec fn enc_stage(stage: Stage) -> Seq<u8> {
    enc_u64(stage.height) + enc_u64(stage.round) + seq![step_byte(stage.step)]
}

/// Reads a stage off the front of `s`.
#[verifier::opaque]
pub open spec fn dec_stage(s: Seq<u8>) -> Option<(Stage, Seq<u8>)> {
    match dec_u64(s) {
        None => None,
        Some((height, r1)) => match dec_u64(r1) {
            None => None,
            Some((round, r2)) => if r2.len() >= 1 && byte_step(r2[0]) is Some {
                Some((Stage { height, round, step: byte_step(r2[0])->0 }, rest(r2, 1)))
            } else {
                None
            },
        },
    }
}

/// The byte form of an aggregated signature.
pub open spec fn enc_sig(sig: AggregatedSignatureView) -> Seq<u8> {
    enc_bytes(sig.signature) + enc_bytes(sig.address_bitmap)
}

/// Reads an aggregated signature off the front of `s`.
#[verifier::opaque]
pub open spec fn dec_sig(s: Seq<u8>) -> Option<(AggregatedSignatureView, Seq<u8>)> {
    match dec_bytes(s) {
        None => None,
        Some((signature, r1)) => match dec_bytes(r1) {
            None => None,
            Some((address_bitmap, r2)) => Some(
                (AggregatedSignatureView { signature, address_bitmap }, r2),
            ),
        },
    }
}

/// The byte form of a quorum certificate.
pub open spec fn enc_qc(qc: AggregatedVoteView) -> Seq<u8> {
    enc_sig(qc.signature) + seq![vote_type_byte(qc.vote_type)] + enc_u64(qc.height) + enc_u64(
        qc.round,
    ) + enc_bytes(qc.block_hash) + enc_bytes(qc.leader)
}

/// Reads a quorum certificate off the front of `s`.
#[verifier::opaque]
pub open spec fn dec_qc(s: Seq<u8>) -> Option<(AggregatedVoteView, Seq<u8>)> {
    match dec_sig(s) {
        None => None,
        Some((signature, r1)) => if r1.len() < 1 || r1[0] > 1 {
            None
        } else {
            match dec_u64(rest(r1, 1)) {
                None => None,
                Some((height, r2)) => match dec_u64(r2) {
                    None => None,
                    Some((round, r3)) => match dec_bytes(r3) {
                        None => None,
                        Some((block_hash, r4)) => match dec_bytes(r4) {
                            None => None,
                            Some((leader, r5)) => Some(
                                (
                                    AggregatedVoteView {
                                        signature,
                                        vote_type: if r1[0] == 0 {
                                            VoteType::Prevote
                                        } else {
                                            VoteType::Precommit
                                        },
                                        height,
                                        round,
                                        block_hash,
                                        leader,
                                    },
                                    r5,
                                ),
                            ),
                        },
                    },
                },
            }
        },
    }
}

/// The byte form of a block header.
pub open spec fn enc_block(b: BlockInfoView) -> Seq<u8> {
    enc_u64(b.height) + enc_u64(b.exec_height) + enc_bytes(b.pre_hash) + enc_bytes(b.block_hash)
}

/// Reads a block header off the front of `s`.
#[verifier::opaque]
pub open spec fn dec_block(s: Seq<u8>) -> Option<(BlockInfoView, Seq<u8>)> {
    match dec_u64(s) {
        None => None,
        Some((height, r1)) => match dec_u64(r1) {
            None => None,
            Some((exec_height, r2)) => match dec_bytes(r2) {
                None => None,
                Some((pre_hash, r3)) => match dec_bytes(r3) {
                    None => None,
                    Some((block_hash, r4)) => Some(
                        (BlockInfoView { height, exec_height, pre_hash, block_hash }, r4),
                    ),
                },
            },
        },
    }
}

/// The byte form of a quorum certificate of chokes.
pub open spec fn enc_choke_qc(qc: ChokeQCView) -> Seq<u8> {
    enc_u64(qc.choke.height) + enc_u64(qc.choke.round) + enc_sig(qc.signature)
}

/// Reads a quorum certificate of chokes off the front of `s`.
#[verifier::opaque]
pub open spec fn dec_choke_qc(s: Seq<u8>) -> Option<(ChokeQCView, Seq<u8>)> {
    match dec_u64(s) {
        None => None,
        Some((height, r1)) => match dec_u64(r1) {
            None => None,
            Some((round, r2)) => match dec_sig(r2) {
                None => None,
                Some((signature, r3)) => Some(
                    (ChokeQCView { choke: Choke { height, round }, signature }, r3),
                ),
            },
        },
    }
}

/// The byte form of a piece of evidence.
pub open spec fn enc_from(from: UpdateFromView) -> Seq<u8> {
    match from {
        UpdateFromView::PreVoteQC(qc) => seq![0u8] + enc_qc(qc),
        UpdateFromView::PreCommitQC(qc) => seq![1u8] + enc_qc(qc),
        UpdateFromView::ChokeQC(qc) => seq![2u8] + enc_choke_qc(qc),
    }
}

/// Reads a piece of evidence off the front of `s`.
#[verifier::opaque]
pub open spec fn dec_from(s: Seq<u8>) -> Option<(UpdateFromView, Seq<u8>)> {
    if s.len() < 1 {
        None
    } else if s[0] == 0 {
        match dec_qc(rest(s, 1)) {
            Some((qc, r)) => Some((UpdateFromView::PreVoteQC(qc), r)),
            None => None,
        }
    } else if s[0] == 1 {
        match dec_qc(rest(s, 1)) {
            Some((qc, r)) => Some((UpdateFromView::PreCommitQC(qc), r)),
            None => None,
        }
    } else if s[0] == 2 {
        match dec_choke_qc(rest(s, 1)) {
            Some((qc, r)) => Some((UpdateFromView::ChokeQC(qc), r)),
            None => None,
        }
    } else {
        None
    }
}

/// The byte form of an optional lock.
pub open spec fn enc_opt_lock(lock: Option<PoLCView>) -> Seq<u8> {
    match lock {
        None => seq![0u8],
        Some(l) => seq![1u8] + enc_u64(l.lock_round) + enc_qc(l.lock_votes),
    }
}

/// Reads an optional lock off the front of `s`.
#[verifier::opaque]
pub open spec fn dec_opt_lock(s: Seq<u8>) -> Option<(Option<PoLCView>, Seq<u8>)> {
    if s.len() < 1 {
        None
    } else if s[0] == 0 {
        Some((None, rest(s, 1)))
    } else if s[0] == 1 {
        match dec_u64(rest(s, 1)) {
            None => None,
            Some((lock_round, r1)) => match dec_qc(r1) {
                None => None,
                Some((lock_votes, r2)) => Some((Some(PoLCView { lock_round, lock_votes }), r2)),
            },
        }
    } else {
        None
    }
}

/// The byte form of an optional quorum certificate.
pub open spec fn enc_opt_qc(qc: Option<AggregatedVoteView>) -> Seq<u8> {
    match qc {
        None => seq![0u8],
        Some(q) => seq![1u8] + enc_qc(q),
    }
}

/// Reads an optional quorum certificate off the front of `s`.
#[verifier::opaque]
pub open spec fn dec_opt_qc(s: Seq<u8>) -> Option<(Option<AggregatedVoteView>, Seq<u8>)> {
    if s.len() < 1 {
        None
    } else if s[0] == 0 {
        Some((None, rest(s, 1)))
    } else if s[0] == 1 {
        match dec_qc(rest(s, 1)) {
            None => None,
            Some((q, r)) => Some((Some(q), r)),
        }
    } else {
        None
    }
}

/// The byte form of an optional block header.
pub open spec fn enc_opt_block(block: Option<BlockInfoView>) -> Seq<u8> {
    match block {
        None => seq![0u8],
        Some(b) => seq![1u8] + enc_block(b),
    }
}

/// Reads an optional block header off the front of `s`.
#[verifier::opaque]
pub open spec fn dec_opt_block(s: Seq<u8>) -> Option<(Option<BlockInfoView>, Seq<u8>)> {
    if s.len() < 1 {
        None
    } else if s[0] == 0 {
        Some((None, rest(s, 1)))
    } else if s[0] == 1 {
        match dec_block(rest(s, 1)) {
            None => None,
            Some((b, r)) => Some((Some(b), r)),
        }
    } else {
        None
    }
}

/// The byte form of an optional piece of evidence.
pub open spec fn enc_opt_from(from: Option<UpdateFromView>) -> Seq<u8> {
    match from {
        None => seq![0u8],
        Some(f) => seq![1u8] + enc_from(f),
    }
}

/// Reads an optional piece of evidence off the front of `s`.
#[verifier::opaque]
pub open spec fn dec_opt_from(s: Seq<u8>) -> Option<(Option<UpdateFromView>, Seq<u8>)> {
    if s.len() < 1 {
        None
    } else if s[0] == 0 {
        Some((None, rest(s, 1)))
    } else if s[0] == 1 {
        match dec_from(rest(s, 1)) {
            None => None,
            Some((f, r)) => Some((Some(f), r)),
        }
    } else {
        None
    }
}

/// The byte form of a replica's state.
pub open spec fn encode_state(state: StateView) -> Seq<u8> {
    enc_stage(state.stage) + enc_opt_lock(state.lock) + enc_opt_qc(state.pre_commit_qc)
        + enc_opt_block(state.block) + enc_opt_from(state.from)
}

/// The state of which `bytes` is the byte form, if it is the byte form of one.
pub open spec fn decode_state(bytes: Seq<u8>) -> Option<StateView> {
    match dec_stage(bytes) {
        None => None,
        Some((stage, r1)) => match dec_opt_lock(r1) {
            None => None,
            Some((lock, r2)) => match dec_opt_qc(r2) {
                None => None,
                Some((pre_commit_qc, r3)) => match dec_opt_block(r3) {
                    None => None,
                    Some((block, r4)) => match dec_opt_from(r4) {
                        None => None,
                        Some((from, r5)) => if r5.len() == 0 {
                            Some(StateView { stage, lock, pre_commit_qc, block, from })
                        } else {
                            None
                        },
                    },
                },
            },
        },
    }
}

/// The byte strings of an aggregated signature have lengths that fit into a number.
pub open spec fn sig_fits(sig: AggregatedSignatureView) -> bool {
    sig.signature.len() <= u64::MAX && sig.address_bitmap.len() <= u64::MAX
}

/// The byte strings of a quorum certificate have lengths that fit into a number.
pub open spec fn qc_fits(qc: AggregatedVoteView) -> bool {
    sig_fits(qc.signature) && qc.block_hash.len() <= u64::MAX && qc.leader.len() <= u64::MAX
}

/// The byte strings of a piece of evidence have lengths that fit into a number.
pub open spec fn from_fits(from: UpdateFromView) -> bool {
    match from {
        UpdateFromView::PreVoteQC(qc) => qc_fits(qc),
        UpdateFromView::PreCommitQC(qc) => qc_fits(qc),
        UpdateFromView::ChokeQC(qc) => sig_fits(qc.signature),
    }
}

/// The byte strings of a state have lengths that fit into a number, as
/// those of every state in memory have.
pub open spec fn state_fits(state: StateView) -> bool {
    &&& state.lock is Some ==> qc_fits(state.lock->0.lock_votes)
    &&& state.pre_commit_qc is Some ==> qc_fits(state.pre_commit_qc->0)
    &&& state.block is Some ==> state.block->0.pre_hash.len() <= u64::MAX
        && state.block->0.block_hash.len() <= u64::MAX
    &&& state.from is Some ==> from_fits(state.from->0)
}

proof fn lemma_u64(x: u64, tail: Seq<u8>)
    ensures
        dec_u64(enc_u64(x) + tail) == Some((x, tail)),
{
    lemma_auto_spec_u64_to_from_le_bytes();
    let s = enc_u64(x) + tail;
    assert(s.subrange(0, 8) =~= enc_u64(x));
    assert(rest(s, 8) =~= tail);
}

proof fn lemma_bytes(b: Seq<u8>, tail: Seq<u8>)
    requires
        b.len() <= u64::MAX,
    ensures
        dec_bytes(enc_bytes(b) + tail) == Some((b, tail)),
{
    let s = enc_bytes(b) + tail;
    assert(s =~= enc_u64(b.len() as u64) + (b + tail));
    lemma_u64(b.len() as u64, b + tail);
    assert((b + tail).subrange(0, b.len() as int) =~= b);
    assert(rest(b + tail, b.len() as int) =~= tail);
}

proof fn lemma_stage(stage: Stage, tail: Seq<u8>)
    ensures
        dec_stage(enc_stage(stage) + tail) == Some((stage, tail)),
{
    reveal(dec_stage);
    let t2 = seq![step_byte(stage.step)] + tail;
    let t1 = enc_u64(stage.round) + t2;
    assert(enc_stage(stage) + tail =~= enc_u64(stage.height) + t1);
    lemma_u64(stage.height, t1);
    lemma_u64(stage.round, t2);
    assert(rest(t2, 1) =~= tail);
}

proof fn lemma_sig(sig: AggregatedSignatureView, tail: Seq<u8>)
    requires
        sig_fits(sig),
    ensures
        dec_sig(enc_sig(sig) + tail) == Some((sig, tail)),
{
    reveal(dec_sig);
    let t1 = enc_bytes(sig.address_bitmap) + tail;
    assert(enc_sig(sig) + tail =~= enc_bytes(sig.signature) + t1);
    lemma_bytes(sig.signature, t1);
    lemma_bytes(sig.address_bitmap, tail);
}

proof fn lemma_qc(qc: AggregatedVoteView, tail: Seq<u8>)
    requires
        qc_fits(qc),
    ensures
        dec_qc(enc_qc(qc) + tail) == Some((qc, tail)),
{
    reveal(dec_qc);
    let t5 = enc_bytes(qc.leader) + tail;
    let t4 = enc_bytes(qc.block_hash) + t5;
    let t3 = enc_u64(qc.round) + t4;
    let t2 = enc_u64(qc.height) + t3;
    let t1 = seq![vote_type_byte(qc.vote_type)] + t2;
    assert(enc_qc(qc) + tail =~= enc_sig(qc.signature) + t1);
    lemma_sig(qc.signature, t1);
    assert(rest(t1, 1) =~= t2);
    lemma_u64(qc.height, t3);
    lemma_u64(qc.round, t4);
    lemma_bytes(qc.block_hash, t5);
    lemma_bytes(qc.leader, tail);
}

proof fn lemma_block(b: BlockInfoView, tail: Seq<u8>)
    requires
        b.pre_hash.len() <= u64::MAX,
        b.block_hash.len() <= u64::MAX,
    ensures
        dec_block(enc_block(b) + tail) == Some((b, tail)),
{
    reveal(dec_block);
    let t3 = enc_bytes(b.block_hash) + tail;
    let t2 = enc_bytes(b.pre_hash) + t3;
    let t1 = enc_u64(b.exec_height) + t2;
    assert(enc_block(b) + tail =~= enc_u64(b.height) + t1);
    lemma_u64(b.height, t1);
    lemma_u64(b.exec_height, t2);
    lemma_bytes(b.pre_hash, t3);
    lemma_bytes(b.block_hash, tail);
}

proof fn lemma_choke_qc(qc: ChokeQCView, tail: Seq<u8>)
    requires
        sig_fits(qc.signature),
    ensures
        dec_choke_qc(enc_choke_qc(qc) + tail) == Some((qc, tail)),
{
    reveal(dec_choke_qc);
    let t2 = enc_sig(qc.signature) + tail;
    let t1 = enc_u64(qc.choke.round) + t2;
    assert(enc_choke_qc(qc) + tail =~= enc_u64(qc.choke.height) + t1);
    lemma_u64(qc.choke.height, t1);
    lemma_u64(qc.choke.round, t2);
    lemma_sig(qc.signature, tail);
}

proof fn lemma_from(from: UpdateFromView, tail: Seq<u8>)
    requires
        from_fits(from),
    ensures
        dec_from(enc_from(from) + tail) == Some((from, tail)),
{
    reveal(dec_from);
    let s = enc_from(from) + tail;
    match from {
        UpdateFromView::PreVoteQC(qc) => {
            assert(rest(s, 1) =~= enc_qc(qc) + tail);
            lemma_qc(qc, tail);
        },
        UpdateFromView::PreCommitQC(qc) => {
            assert(rest(s, 1) =~= enc_qc(qc) + tail);
            lemma_qc(qc, tail);
        },
        UpdateFromView::ChokeQC(qc) => {
            assert(rest(s, 1) =~= enc_choke_qc(qc) + tail);
            lemma_choke_qc(qc, tail);
        },
    }
}

proof fn lemma_opt_lock(lock: Option<PoLCView>, tail: Seq<u8>)
    requires
        lock is Some ==> qc_fits(lock->0.lock_votes),
    ensures
        dec_opt_lock(enc_opt_lock(lock) + tail) == Some((lock, tail)),
{
    reveal(dec_opt_lock);
    let s = enc_opt_lock(lock) + tail;
    match lock {
        None => {
            assert(rest(s, 1) =~= tail);
        },
        Some(l) => {
            let t1 = enc_qc(l.lock_votes) + tail;
            assert(rest(s, 1) =~= enc_u64(l.lock_round) + t1);
            lemma_u64(l.lock_round, t1);
            lemma_qc(l.lock_votes, tail);
        },
    }
}

proof fn lemma_opt_qc(qc: Option<AggregatedVoteView>, tail: Seq<u8>)
    requires
        qc is Some ==> qc_fits(qc->0),
    ensures
        dec_opt_qc(enc_opt_qc(qc) + tail) == Some((qc, tail)),
{
    reveal(dec_opt_qc);
    let s = enc_opt_qc(qc) + tail;
    match qc {
        None => {
            assert(rest(s, 1) =~= tail);
        },
        Some(q) => {
            assert(rest(s, 1) =~= enc_qc(q) + tail);
            lemma_qc(q, tail);
        },
    }
}

proof fn lemma_opt_block(block: Option<BlockInfoView>, tail: Seq<u8>)
    requires
        block is Some ==> block->0.pre_hash.len() <= u64::MAX && block->0.block_hash.len()
            <= u64::MAX,
    ensures
        dec_opt_block(enc_opt_block(block) + tail) == Some((block, tail)),
{
    reveal(dec_opt_block);
    let s = enc_opt_block(block) + tail;
    match block {
        None => {
            assert(rest(s, 1) =~= tail);
        },
        Some(b) => {
            assert(rest(s, 1) =~= enc_block(b) + tail);
            lemma_block(b, tail);
        },
    }
}

proof fn lemma_opt_from(from: Option<UpdateFromView>, tail: Seq<u8>)
    requires
        from is Some ==> from_fits(from->0),
    ensures
        dec_opt_from(enc_opt_from(from) + tail) == Some((from, tail)),
{
    reveal(dec_opt_from);
    let s = enc_opt_from(from) + tail;
    match from {
        None => {
            assert(rest(s, 1) =~= tail);
        },
        Some(f) => {
            assert(rest(s, 1) =~= enc_from(f) + tail);
            lemma_from(f, tail);
        },
    }
}

/// Round trip. What is read back from the byte form of a state is that state.
pub proof fn lemma_state_round_trip(state: StateView)
    requires
        state_fits(state),
    ensures
        decode_state(encode_state(state)) == Some(state),
{
    let t4 = enc_opt_from(state.from);
    let t3 = enc_opt_block(state.block) + t4;
    let t2 = enc_opt_qc(state.pre_commit_qc) + t3;
    let t1 = enc_opt_lock(state.lock) + t2;
    assert(encode_state(state) =~= enc_stage(state.stage) + t1);
    lemma_stage(state.stage, t1);
    lemma_opt_lock(state.lock, t2);
    lemma_opt_qc(state.pre_commit_qc, t3);
    lemma_opt_block(state.block, t4);
    assert(t4 =~= enc_opt_from(state.from) + Seq::<u8>::empty());
    lemma_opt_from(state.from, Seq::empty());
}

/// Whether `got` is what reading a value off `bytes` at a position yields,
/// given that `d` is what reading it off the rest of `bytes` yields: the
/// value, and the position behind it.
pub open spec fn read_ok<X: View>(d: Option<(X::V, Seq<u8>)>, bytes: Seq<u8>, got: Option<
    (X, usize),
>) -> bool {
    match d {
        None => got is None,
        Some((v, r)) => got matches Some(pair) && pair.0@ == v && pair.1 <= bytes.len() && r
            == rest(bytes, pair.1 as int),
    }
}

fn put_u64(buf: &mut Vec<u8>, x: u64)
    ensures
        final(buf)@ == old(buf)@ + enc_u64(x),
{
    let mut bytes = u64_to_le_bytes(x);
    buf.append(&mut bytes);
}

fn put_u8(buf: &mut Vec<u8>, b: u8)
    ensures
        final(buf)@ == old(buf)@ + seq![b],
{
    buf.push(b);
    proof {
        assert(buf@ =~= old(buf)@ + seq![b]);
    }
}

fn put_bytes(buf: &mut Vec<u8>, b: &Vec<u8>)
    ensures
        final(buf)@ == old(buf)@ + enc_bytes(b@),
{
    put_u64(buf, b.len() as u64);
    let mut i: usize = 0;
    while i < b.len()
        invariant
            i <= b.len(),
            buf@ == old(buf)@ + enc_u64(b@.len() as u64) + b@.subrange(0, i as int),
        decreases b.len() - i,
    {
        buf.push(b[i]);
        proof {
            assert(b@.subrange(0, i + 1) =~= b@.subrange(0, i as int).push(b@[i as int]));
            assert(buf@ =~= old(buf)@ + enc_u64(b@.len() as u64) + b@.subrange(0, i + 1));
        }
        i += 1;
    }
    proof {
        assert(b@.subrange(0, i as int) =~= b@);
        assert(buf@ =~= old(buf)@ + enc_bytes(b@));
    }
}

fn put_stage(buf: &mut Vec<u8>, stage: &Stage)
    ensures
        final(buf)@ == old(buf)@ + enc_stage(*stage),
{
    put_u64(buf, stage.height);
    put_u64(buf, stage.round);
    put_u8(buf, stage.step.to_u8());
    proof {
        assert(buf@ =~= old(buf)@ + enc_stage(*stage));
    }
}

fn put_sig(buf: &mut Vec<u8>, sig: &AggregatedSignature)
    ensures
        final(buf)@ == old(buf)@ + enc_sig(sig@),
{
    put_bytes(buf, &sig.signature);
    put_bytes(buf, &sig.address_bitmap);
    proof {
        assert(buf@ =~= old(buf)@ + enc_sig(sig@));
    }
}

fn put_qc(buf: &mut Vec<u8>, qc: &AggregatedVote)
    ensures
        final(buf)@ == old(buf)@ + enc_qc(qc@),
{
    put_sig(buf, &qc.signature);
    put_u8(
        buf,
        match qc.vote_type {
            VoteType::Prevote => 0,
            VoteType::Precommit => 1,
        },
    );
    put_u64(buf, qc.height);
    put_u64(buf, qc.round);
    put_bytes(buf, &qc.block_hash);
    put_bytes(buf, &qc.leader);
    proof {
        assert(buf@ =~= old(buf)@ + enc_qc(qc@));
    }
}

fn put_block(buf: &mut Vec<u8>, b: &BlockInfo)
    ensures
        final(buf)@ == old(buf)@ + enc_block(b@),
{
    put_u64(buf, b.height);
    put_u64(buf, b.exec_height);
    put_bytes(buf, &b.pre_hash);
    put_bytes(buf, &b.block_hash);
    proof {
        assert(buf@ =~= old(buf)@ + enc_block(b@));
    }
}

fn put_choke_qc(buf: &mut Vec<u8>, qc: &ChokeQC)
    ensures
        final(buf)@ == old(buf)@ + enc_choke_qc(qc@),
{
    put_u64(buf, qc.choke.height);
    put_u64(buf, qc.choke.round);
    put_sig(buf, &qc.signature);
    proof {
        assert(buf@ =~= old(buf)@ + enc_choke_qc(qc@));
    }
}

fn put_from(buf: &mut Vec<u8>, from: &UpdateFrom)
    ensures
        final(buf)@ == old(buf)@ + enc_from(from@),
{
    match from {
        UpdateFrom::PreVoteQC(qc) => {
            put_u8(buf, 0);
            put_qc(buf, qc);
        },
        UpdateFrom::PreCommitQC(qc) => {
            put_u8(buf, 1);
            put_qc(buf, qc);
        },
        UpdateFrom::ChokeQC(qc) => {
            put_u8(buf, 2);
            put_choke_qc(buf, qc);
        },
    }
    proof {
        assert(buf@ =~= old(buf)@ + enc_from(from@));
    }
}

proof fn lemma_len_fits(v: Vec<u8>)
    ensures
        v@.len() <= u64::MAX,
{
    assert(v.len() <= usize::MAX);
}

proof fn lemma_qc_in_memory(qc: AggregatedVote)
    ensures
        qc_fits(qc@),
{
    lemma_len_fits(qc.signature.signature);
    lemma_len_fits(qc.signature.address_bitmap);
    lemma_len_fits(qc.block_hash);
    lemma_len_fits(qc.leader);
}

/// The byte strings of every state in memory have lengths that fit into a number.
pub proof fn lemma_state_in_memory(state: StateInfo)
    ensures
        state_fits(state@),
{
    match state.lock {
        Some(lock) => {
            lemma_qc_in_memory(lock.lock_votes);
        },
        None => {},
    }
    match state.pre_commit_qc {
        Some(qc) => {
            lemma_qc_in_memory(qc);
        },
        None => {},
    }
    match state.block {
        Some(block) => {
            lemma_len_fits(block.pre_hash);
            lemma_len_fits(block.block_hash);
        },
        None => {},
    }
    match state.from {
        Some(UpdateFrom::PreVoteQC(qc)) => {
            lemma_qc_in_memory(qc);
        },
        Some(UpdateFrom::PreCommitQC(qc)) => {
            lemma_qc_in_memory(qc);
        },
        Some(UpdateFrom::ChokeQC(qc)) => {
            lemma_len_fits(qc.signature.signature);
            lemma_len_fits(qc.signature.address_bitmap);
        },
        None => {},
    }
}

/// Writes a replica's state in its byte form.
pub fn encode(state: &StateInfo) -> (bytes: Vec<u8>)
    ensures
        bytes@ == encode_state(state@),
        state_fits(state@),
{
    let mut buf: Vec<u8> = Vec::new();
    put_stage(&mut buf, &state.stage);
    match &state.lock {
        None => {
            put_u8(&mut buf, 0);
        },
        Some(lock) => {
            put_u8(&mut buf, 1);
            put_u64(&mut buf, lock.lock_round);
            put_qc(&mut buf, &lock.lock_votes);
        },
    }
    proof {
        assert(buf@ =~= enc_stage(state@.stage) + enc_opt_lock(state@.lock));
    }
    match &state.pre_commit_qc {
        None => {
            put_u8(&mut buf, 0);
        },
        Some(qc) => {
            put_u8(&mut buf, 1);
            put_qc(&mut buf, qc);
        },
    }
    proof {
        assert(buf@ =~= enc_stage(state@.stage) + enc_opt_lock(state@.lock) + enc_opt_qc(
            state@.pre_commit_qc,
        ));
    }
    match &state.block {
        None => {
            put_u8(&mut buf, 0);
        },
        Some(block) => {
            put_u8(&mut buf, 1);
            put_block(&mut buf, block);
        },
    }
    proof {
        assert(buf@ =~= enc_stage(state@.stage) + enc_opt_lock(state@.lock) + enc_opt_qc(
            state@.pre_commit_qc,
        ) + enc_opt_block(state@.block));
    }
    match &state.from {
        None => {
            put_u8(&mut buf, 0);
        },
        Some(from) => {
            put_u8(&mut buf, 1);
            put_from(&mut buf, from);
        },
    }
    proof {
        assert(buf@ =~= encode_state(state@));
        lemma_state_in_memory(*state);
    }
    buf
}

fn get_u64(bytes: &Vec<u8>, pos: usize) -> (got: Option<(u64, usize)>)
    requires
        pos <= bytes.len(),
    ensures
        read_ok::<u64>(dec_u64(rest(bytes@, pos as int)), bytes@, got),
{
    if bytes.len() - pos < 8 {
        return None;
    }
    let x = u64_from_le_bytes(slice_subrange(bytes.as_slice(), pos, pos + 8));
    proof {
        let r = rest(bytes@, pos as int);
        assert(r.subrange(0, 8) =~= bytes@.subrange(pos as int, pos + 8));
        assert(rest(r, 8) =~= rest(bytes@, pos + 8));
    }
    Some((x, pos + 8))
}

fn get_u8(bytes: &Vec<u8>, pos: usize) -> (got: Option<(u8, usize)>)
    requires
        pos <= bytes.len(),
    ensures
        got is Some <==> rest(bytes@, pos as int).len() >= 1,
        got matches Some(pair) ==> pair.0 == rest(bytes@, pos as int)[0] && pair.1 == pos + 1
            && rest(rest(bytes@, pos as int), 1) == rest(bytes@, pair.1 as int),
{
    if pos >= bytes.len() {
        return None;
    }
    proof {
        assert(rest(rest(bytes@, pos as int), 1) =~= rest(bytes@, pos + 1));
    }
    Some((bytes[pos], pos + 1))
}

fn get_bytes(bytes: &Vec<u8>, pos: usize) -> (got: Option<(Vec<u8>, usize)>)
    requires
        pos <= bytes.len(),
    ensures
        read_ok::<Vec<u8>>(dec_bytes(rest(bytes@, pos as int)), bytes@, got),
{
    let (n, start) = match get_u64(bytes, pos) {
        None => {
            return None;
        },
        Some(pair) => pair,
    };
    if n > (bytes.len() - start) as u64 {
        return None;
    }
    let len: usize = n as usize;
    let mut out: Vec<u8> = Vec::new();
    let mut i: usize = 0;
    while i < len
        invariant
            i <= len,
            start + len <= bytes.len(),
            out@ == bytes@.subrange(start as int, start + i),
        decreases len - i,
    {
        out.push(bytes[start + i]);
        proof {
            assert(out@ =~= bytes@.subrange(start as int, start + i + 1));
        }
        i += 1;
    }
    proof {
        let r = rest(bytes@, start as int);
        assert(r.subrange(0, n as int) =~= bytes@.subrange(start as int, start + len));
        assert(rest(r, n as int) =~= rest(bytes@, start + len));
    }
    Some((out, start + len))
}

fn get_stage(bytes: &Vec<u8>, pos: usize) -> (got: Option<(Stage, usize)>)
    requires
        pos <= bytes.len(),
    ensures
        match dec_stage(rest(bytes@, pos as int)) {
            None => got is None,
            Some((v, r)) => got matches Some(pair) && pair.0 == v && pair.1 <= bytes.len() && r
                == rest(bytes@, pair.1 as int),
        },
{
    reveal(dec_stage);
    let (height, at1) = match get_u64(bytes, pos) {
        None => {
            return None;
        },
        Some(pair) => pair,
    };
    let (round, at2) = match get_u64(bytes, at1) {
        None => {
            return None;
        },
        Some(pair) => pair,
    };
    let (b, at3) = match get_u8(bytes, at2) {
        None => {
            return None;
        },
        Some(pair) => pair,
    };
    match Step::from_u8(b) {
        None => None,
        Some(step) => Some((Stage { height, round, step }, at3)),
    }
}

fn get_sig(bytes: &Vec<u8>, pos: usize) -> (got: Option<(AggregatedSignature, usize)>)
    requires
        pos <= bytes.len(),
    ensures
        read_ok::<AggregatedSignature>(dec_sig(rest(bytes@, pos as int)), bytes@, got),
{
    reveal(dec_sig);
    let (signature, at1) = match get_bytes(bytes, pos) {
        None => {
            return None;
        },
        Some(pair) => pair,
    };
    let (address_bitmap, at2) = match get_bytes(bytes, at1) {
        None => {
            return None;
        },
        Some(pair) => pair,
    };
    Some((AggregatedSignature { signature, address_bitmap }, at2))
}

fn get_qc(bytes: &Vec<u8>, pos: usize) -> (got: Option<(AggregatedVote, usize)>)
    requires
        pos <= bytes.len(),
    ensures
        read_ok::<AggregatedVote>(dec_qc(rest(bytes@, pos as int)), bytes@, got),
{
    reveal(dec_qc);
    let (signature, at1) = match get_sig(bytes, pos) {
        None => {
            return None;
        },
        Some(pair) => pair,
    };
    let (t, at2) = match get_u8(bytes, at1) {
        None => {
            return None;
        },
        Some(pair) => pair,
    };
    if t > 1 {
        return None;
    }
    let (height, at3) = match get_u64(bytes, at2) {
        None => {
            return None;
        },
        Some(pair) => pair,
    };
    let (round, at4) = match get_u64(bytes, at3) {
        None => {
            return None;
        },
        Some(pair) => pair,
    };
    let (block_hash, at5) = match get_bytes(bytes, at4) {
        None => {
            return None;
        },
        Some(pair) => pair,
    };
    let (leader, at6) = match get_bytes(bytes, at5) {
        None => {
            return None;
        },
        Some(pair) => pair,
    };
    let vote_type = if t == 0 {
        VoteType::Prevote
    } else {
        VoteType::Precommit
    };
    Some((AggregatedVote { signature, vote_type, height, round, block_hash, leader }, at6))
}

fn get_block(bytes: &Vec<u8>, pos: usize) -> (got: Option<(BlockInfo, usize)>)
    requires
        pos <= bytes.len(),
    ensures
        read_ok::<BlockInfo>(dec_block(rest(bytes@, pos as int)), bytes@, got),
{
    reveal(dec_block);
    let (height, at1) = match get_u64(bytes, pos) {
        None => {
            return None;
        },
        Some(pair) => pair,
    };
    let (exec_height, at2) = match get_u64(bytes, at1) {
        None => {
            return None;
        },
        Some(pair) => pair,
    };
    let (pre_hash, at3) = match get_bytes(bytes, at2) {
        None => {
            return None;
        },
        Some(pair) => pair,
    };
    let (block_hash, at4) = match get_bytes(bytes, at3) {
        None => {
            return None;
        },
        Some(pair) => pair,
    };
    Some((BlockInfo { height, exec_height, pre_hash, block_hash }, at4))
}

fn get_choke_qc(bytes: &Vec<u8>, pos: usize) -> (got: Option<(ChokeQC, usize)>)
    requires
        pos <= bytes.len(),
    ensures
        read_ok::<ChokeQC>(dec_choke_qc(rest(bytes@, pos as int)), bytes@, got),
{
    reveal(dec_choke_qc);
    let (height, at1) = match get_u64(bytes, pos) {
        None => {
            return None;
        },
        Some(pair) => pair,
    };
    let (round, at2) = match get_u64(bytes, at1) {
        None => {
            return None;
        },
        Some(pair) => pair,
    };
    let (signature, at3) = match get_sig(bytes, at2) {
        None => {
            return None;
        },
        Some(pair) => pair,
    };
    Some((ChokeQC { choke: Choke { height, round }, signature }, at3))
}

fn get_from(bytes: &Vec<u8>, pos: usize) -> (got: Option<(UpdateFrom, usize)>)
    requires
        pos <= bytes.len(),
    ensures
        read_ok::<UpdateFrom>(dec_from(rest(bytes@, pos as int)), bytes@, got),
{
    reveal(dec_from);
    let (tag, at1) = match get_u8(bytes, pos) {
        None => {
            return None;
        },
        Some(pair) => pair,
    };
    if tag == 0 {
        match get_qc(bytes, at1) {
            None => None,
            Some(pair) => Some((UpdateFrom::PreVoteQC(pair.0), pair.1)),
        }
    } else if tag == 1 {
        match get_qc(bytes, at1) {
            None => None,
            Some(pair) => Some((UpdateFrom::PreCommitQC(pair.0), pair.1)),
        }
    } else if tag == 2 {
        match get_choke_qc(bytes, at1) {
            None => None,
            Some(pair) => Some((UpdateFrom::ChokeQC(pair.0), pair.1)),
        }
    } else {
        None
    }
}

/// Reads a replica's state from its byte form; `None` where the bytes are
/// not the byte form of a state.
pub fn decode(bytes: &Vec<u8>) -> (state: Option<StateInfo>)
    ensures
        match decode_state(bytes@) {
            None => state is None,
            Some(v) => state is Some && state->0@ == v,
        },
{
    reveal(dec_opt_lock);
    reveal(dec_opt_qc);
    reveal(dec_opt_block);
    reveal(dec_opt_from);
    proof {
        assert(rest(bytes@, 0) =~= bytes@);
    }
    let (stage, at1) = match get_stage(bytes, 0) {
        None => {
            return None;
        },
        Some(pair) => pair,
    };
    let (tag, at2) = match get_u8(bytes, at1) {
        None => {
            return None;
        },
        Some(pair) => pair,
    };
    let (lock, at3): (Option<PoLC>, usize) = if tag == 0 {
        (None, at2)
    } else if tag == 1 {
        let (lock_round, q1) = match get_u64(bytes, at2) {
            None => {
                return None;
            },
            Some(pair) => pair,
        };
        match get_qc(bytes, q1) {
            None => {
                return None;
            },
            Some(pair) => (Some(PoLC { lock_round, lock_votes: pair.0 }), pair.1),
        }
    } else {
        return None;
    };
    let (tag, at4) = match get_u8(bytes, at3) {
        None => {
            return None;
        },
        Some(pair) => pair,
    };
    let (pre_commit_qc, at5): (Option<AggregatedVote>, usize) = if tag == 0 {
        (None, at4)
    } else if tag == 1 {
        match get_qc(bytes, at4) {
            None => {
                return None;
            },
            Some(pair) => (Some(pair.0), pair.1),
        }
    } else {
        return None;
    };
    let (tag, at6) = match get_u8(bytes, at5) {
        None => {
            return None;
        },
        Some(pair) => pair,
    };
    let (block, at7): (Option<BlockInfo>, usize) = if tag == 0 {
        (None, at6)
    } else if tag == 1 {
        match get_block(bytes, at6) {
            None => {
                return None;
            },
            Some(pair) => (Some(pair.0), pair.1),
        }
    } else {
        return None;
    };
    let (tag, at8) = match get_u8(bytes, at7) {
        None => {
            return None;
        },
        Some(pair) => pair,
    };
    let (from, at9): (Option<UpdateFrom>, usize) = if tag == 0 {
        (None, at8)
    } else if tag == 1 {
        match get_from(bytes, at8) {
            None => {
                return None;
            },
            Some(pair) => (Some(pair.0), pair.1),
        }
    } else {
        return None;
    };
    if at9 != bytes.len() {
        return None;
    }
    Some(StateInfo { stage, lock, pre_commit_qc, block, from })
}

} // verus!
