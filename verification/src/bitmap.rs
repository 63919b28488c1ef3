//! Voter bitmaps: one bit per validator, packed into bytes with the most
//! significant bit of each byte first.
//!
//! The packing itself is done by the `bit-vec` crate. This module states what
//! that crate does and builds the two conversions the consensus core needs on
//! top of it.

use bit_vec::BitVec;
use vstd::prelude::*;

verus! {

/// The bit vector of the `bit-vec` crate. Verus sees nothing inside it.
#[verifier::external_type_specification]
#[verifier::external_body]
#[verifier::reject_recursive_types(B)]
pub struct ExBitVec<B>(BitVec<B>);

/// The bits that a bit vector holds, in index order.
pub uninterp spec fn bits_of(v: BitVec<u32>) -> Seq<bool>;

/// The value that bit `j` (0 being the most significant) contributes to a byte.
pub open spec fn bit_value(j: int) -> nat {
    if j == 0 {
        128
    } else if j == 1 {
        64
    } else if j == 2 {
        32
    } else if j == 3 {
        16
    } else if j == 4 {
        8
    } else if j == 5 {
        4
    } else if j == 6 {
        2
    } else {
        1
    }
}

/// What bit `k` of `bits` contributes to its byte; bits past the end count as unset.
pub open spec fn bit_part(bits: Seq<bool>, k: int) -> nat {
    if 0 <= k < bits.len() && bits[k] {
        bit_value(k % 8)
    } else {
        0
    }
}

/// Byte `i` of the packed form of `bits`.
pub open spec fn packed_byte(bits: Seq<bool>, i: int) -> nat {
    bit_part(bits, 8 * i) + bit_part(bits, 8 * i + 1) + bit_part(bits, 8 * i + 2) + bit_part(
        bits,
        8 * i + 3,
    ) + bit_part(bits, 8 * i + 4) + bit_part(bits, 8 * i + 5) + bit_part(bits, 8 * i + 6)
        + bit_part(bits, 8 * i + 7)
}

/// The number of bytes that `n` bits take.
pub open spec fn packed_len(n: nat) -> nat {
    ((n + 7) / 8) as nat
}

/// The packed form of `bits`: eight bits per byte, the first bit in the most
/// significant position, the last byte padded with unset bits.
pub open spec fn pack_spec(bits: Seq<bool>) -> Seq<u8> {
    Seq::new(packed_len(bits.len()), |i: int| packed_byte(bits, i) as u8)
}

/// Bit `k` of a byte string, bit 0 being the most significant bit of byte 0.
pub open spec fn bit_at(bytes: Seq<u8>, k: int) -> bool {
    (bytes[k / 8] as nat / bit_value(k % 8)) % 2 == 1
}

/// The bits of a byte string: eight per byte, most significant first.
pub open spec fn unpack_spec(bytes: Seq<u8>) -> Seq<bool> {
    Seq::new(8 * bytes.len(), |k: int| bit_at(bytes, k))
}

/// `BitVec::from_elem`: a bit vector of `nbits` bits that are all `bit`.
#[verifier::external_body]
fn bitvec_from_elem(nbits: usize, bit: bool) -> (v: BitVec<u32>)
    ensures
        bits_of(v) == Seq::new(nbits as nat, |i: int| bit),
{
    BitVec::from_elem(nbits, bit)
}

/// `BitVec::set`: bit `i` becomes `x`; the other bits stay. The crate panics
/// where `i` is not below the length.
#[verifier::external_body]
fn bitvec_set(v: &mut BitVec<u32>, i: usize, x: bool)
    requires
        i < bits_of(*old(v)).len(),
    ensures
        bits_of(*final(v)) == bits_of(*old(v)).update(i as int, x),
{
    v.set(i, x)
}

/// `BitVec::to_bytes`: the bits packed eight to a byte, most significant bit
/// first, the last byte padded with unset bits.
#[verifier::external_body]
fn bitvec_to_bytes(v: &BitVec<u32>) -> (bytes: Vec<u8>)
    ensures
        bytes@ == pack_spec(bits_of(*v)),
{
    v.to_bytes()
}

/// `BitVec::from_bytes`: each byte becomes eight bits, most significant bit
/// first. The crate panics where the number of bits does not fit a `usize`.
#[verifier::external_body]
fn bitvec_from_bytes(bytes: &Vec<u8>) -> (v: BitVec<u32>)
    requires
        8 * bytes@.len() <= usize::MAX,
    ensures
        bits_of(v) == unpack_spec(bytes@),
{
    BitVec::from_bytes(bytes.as_slice())
}

/// `BitVec::get`: the bit at index `i`, or `None` where `i` is not below the length.
#[verifier::external_body]
fn bitvec_get(v: &BitVec<u32>, i: usize) -> (bit: Option<bool>)
    ensures
        bit == if i < bits_of(*v).len() {
            Some(bits_of(*v)[i as int])
        } else {
            None
        },
{
    v.get(i)
}

/// Packs one flag per validator into a bitmap.
pub fn pack(flags: &Vec<bool>) -> (bytes: Vec<u8>)
    ensures
        bytes@ == pack_spec(flags@),
{
    let n: usize = flags.len();
    let mut v = bitvec_from_elem(n, false);
    let mut i: usize = 0;
    while i < n
        invariant
            n == flags.len(),
            i <= n,
            bits_of(v).len() == n,
            forall|j: int| 0 <= j < i ==> bits_of(v)[j] == flags@[j],
            forall|j: int| i <= j < n ==> bits_of(v)[j] == false,
        decreases n - i,
    {
        if flags[i] {
            bitvec_set(&mut v, i, true);
        }
        i += 1;
    }
    proof {
        assert(bits_of(v) =~= flags@);
    }
    bitvec_to_bytes(&v)
}

/// The first `n` bits of a bitmap, where the bitmap has exactly the length
/// that `n` bits take and no bit past the `n`-th is set; `None` otherwise.
pub fn unpack(bytes: &Vec<u8>, n: usize) -> (flags: Option<Vec<bool>>)
    ensures
        flags is Some <==> fits(bytes@, n as nat),
        flags is Some ==> flags->0@ == unpack_spec(bytes@).subrange(0, n as int),
{
    let whole: usize = n / 8;
    let len: usize = if n % 8 == 0 {
        whole
    } else {
        whole + 1
    };
    if bytes.len() != len || bytes.len() > usize::MAX / 8 {
        return None;
    }
    let v = bitvec_from_bytes(bytes);
    let total: usize = 8 * bytes.len();
    let mut flags: Vec<bool> = Vec::new();
    let mut i: usize = 0;
    while i < total
        invariant
            total == 8 * bytes@.len(),
            bytes@.len() == packed_len(n as nat),
            n <= total,
            i <= total,
            bits_of(v) == unpack_spec(bytes@),
            flags@.len() == if i <= n { i } else { n },
            forall|j: int| 0 <= j < flags@.len() ==> flags@[j] == unpack_spec(bytes@)[j],
            forall|j: int| n <= j < i ==> !unpack_spec(bytes@)[j],
        decreases total - i,
    {
        let bit: bool = match bitvec_get(&v, i) {
            Some(b) => b,
            None => false,
        };
        if i < n {
            flags.push(bit);
        } else if bit {
            return None;
        }
        i += 1;
    }
    proof {
        assert(flags@ =~= unpack_spec(bytes@).subrange(0, n as int));
    }
    Some(flags)
}

/// A byte string is the bitmap of `n` validators: it has the length that `n`
/// bits take, its bits can be counted in a `usize`, and its padding bits are unset.
pub open spec fn fits(bytes: Seq<u8>, n: nat) -> bool {
    &&& bytes.len() == packed_len(n)
    &&& 8 * bytes.len() <= usize::MAX
    &&& forall|j: int| n <= j < 8 * bytes.len() ==> !unpack_spec(bytes)[j]
}

/// A packed byte is a byte.
pub proof fn lemma_packed_byte_small(bits: Seq<bool>, i: int)
    ensures
        packed_byte(bits, i) <= 255,
{
}

/// Bit `k` of the packed form of `bits` is bit `k` of `bits`, and unset
/// past the end of `bits`.
pub proof fn lemma_bit_of_packed(bits: Seq<bool>, k: int)
    requires
        0 <= k < 8 * packed_len(bits.len()),
    ensures
        bit_at(pack_spec(bits), k) == (k < bits.len() && bits[k]),
{
    let i = k / 8;
    let j = k % 8;
    let byte = packed_byte(bits, i);
    lemma_packed_byte_small(bits, i);
    assert(pack_spec(bits)[i] as nat == byte);
    let part0 = bit_part(bits, 8 * i);
    let part1 = bit_part(bits, 8 * i + 1);
    let part2 = bit_part(bits, 8 * i + 2);
    let part3 = bit_part(bits, 8 * i + 3);
    let part4 = bit_part(bits, 8 * i + 4);
    let part5 = bit_part(bits, 8 * i + 5);
    let part6 = bit_part(bits, 8 * i + 6);
    let part7 = bit_part(bits, 8 * i + 7);
    assert(byte == part0 + part1 + part2 + part3 + part4 + part5 + part6 + part7);
    assert(part0 == 0 || part0 == 128);
    assert(part1 == 0 || part1 == 64);
    assert(part2 == 0 || part2 == 32);
    assert(part3 == 0 || part3 == 16);
    assert(part4 == 0 || part4 == 8);
    assert(part5 == 0 || part5 == 4);
    assert(part6 == 0 || part6 == 2);
    assert(part7 == 0 || part7 == 1);
    assert(k == 8 * i + j);
    if j == 0 {
        assert((byte / 128) % 2 == 1 <==> part0 == 128);
    } else if j == 1 {
        assert((byte / 64) % 2 == 1 <==> part1 == 64);
    } else if j == 2 {
        assert((byte / 32) % 2 == 1 <==> part2 == 32);
    } else if j == 3 {
        assert((byte / 16) % 2 == 1 <==> part3 == 16);
    } else if j == 4 {
        assert((byte / 8) % 2 == 1 <==> part4 == 8);
    } else if j == 5 {
        assert((byte / 4) % 2 == 1 <==> part5 == 4);
    } else if j == 6 {
        assert((byte / 2) % 2 == 1 <==> part6 == 2);
    } else {
        assert((byte / 1) % 2 == 1 <==> part7 == 1);
    }
}

/// Round trip. The packed form of one flag per validator fits the
/// validators, and unpacks to the same flags.
pub proof fn lemma_pack_unpack(flags: Seq<bool>)
    requires
        flags.len() + 7 <= usize::MAX,
    ensures
        fits(pack_spec(flags), flags.len()),
        unpack_spec(pack_spec(flags)).subrange(0, flags.len() as int) == flags,
{
    let bytes = pack_spec(flags);
    assert forall|j: int| flags.len() <= j < 8 * bytes.len() implies !unpack_spec(bytes)[j] by {
        lemma_bit_of_packed(flags, j);
    }
    assert forall|j: int| 0 <= j < flags.len() implies unpack_spec(bytes)[j] == flags[j] by {
        lemma_bit_of_packed(flags, j);
    }
    assert(unpack_spec(bytes).subrange(0, flags.len() as int) =~= flags);
}

} // verus!
