//! Byte order of the values that cross the wire or are drawn from key
//! material: little-endian integers of two, four and eight bytes, and the
//! big-endian words of the key schedule.

use vstd::prelude::*;

verus! {

/// The word whose bytes, most significant first, are `b0`, `b1`, `b2`, `b3`.
pub open spec fn be_u32(b0: u8, b1: u8, b2: u8, b3: u8) -> u32 {
    (b0 as u32) << 24 | (b1 as u32) << 16 | (b2 as u32) << 8 | (b3 as u32)
}

/// The 16-bit value stored least significant byte first in `b[0..2]`.
pub open spec fn le_u16(b: Seq<u8>) -> u16
    recommends
        b.len() >= 2,
{
    (b[0] as u16) | (b[1] as u16) << 8
}

/// The 32-bit value stored least significant byte first in `b[0..4]`.
pub open spec fn le_u32(b: Seq<u8>) -> u32
    recommends
        b.len() >= 4,
{
    (b[0] as u32) | (b[1] as u32) << 8 | (b[2] as u32) << 16 | (b[3] as u32) << 24
}

/// The 64-bit value stored least significant byte first in `b[0..8]`.
pub open spec fn le_u64(b: Seq<u8>) -> u64
    recommends
        b.len() >= 8,
{
    (b[0] as u64) | (b[1] as u64) << 8 | (b[2] as u64) << 16 | (b[3] as u64) << 24 | (b[4] as u64)
        << 32 | (b[5] as u64) << 40 | (b[6] as u64) << 48 | (b[7] as u64) << 56
}

/// The two bytes of `v`, least significant first.
pub open spec fn u16_le_bytes(v: u16) -> Seq<u8> {
    seq![(v & 0xff) as u8, ((v >> 8) & 0xff) as u8]
}

/// The four bytes of `v`, least significant first.
pub open spec fn u32_le_bytes(v: u32) -> Seq<u8> {
    seq![
        (v & 0xff) as u8,
        ((v >> 8) & 0xff) as u8,
        ((v >> 16) & 0xff) as u8,
        ((v >> 24) & 0xff) as u8,
    ]
}

/// The eight bytes of `v`, least significant first.
pub open spec fn u64_le_bytes(v: u64) -> Seq<u8> {
    seq![
        (v & 0xff) as u8,
        ((v >> 8) & 0xff) as u8,
        ((v >> 16) & 0xff) as u8,
        ((v >> 24) & 0xff) as u8,
        ((v >> 32) & 0xff) as u8,
        ((v >> 40) & 0xff) as u8,
        ((v >> 48) & 0xff) as u8,
        ((v >> 56) & 0xff) as u8,
    ]
}

/// Decoding the two bytes of a value gives the value back, and what followed
/// them is what is left.
pub proof fn lemma_u16_round_trip(v: u16, rest: Seq<u8>)
    ensures
        u16_le_bytes(v).len() == 2,
        le_u16(u16_le_bytes(v) + rest) == v,
        (u16_le_bytes(v) + rest).skip(2) == rest,
{
    let b = u16_le_bytes(v) + rest;
    assert(b[0] == u16_le_bytes(v)[0] && b[1] == u16_le_bytes(v)[1]);
    assert(b.skip(2) =~= rest);
    assert(((v & 0xff) as u8 as u16) | ((((v >> 8) & 0xff) as u8 as u16) << 8) == v)
        by (bit_vector);
}

/// Decoding the four bytes of a value gives the value back, and what followed
/// them is what is left.
pub proof fn lemma_u32_round_trip(v: u32, rest: Seq<u8>)
    ensures
        u32_le_bytes(v).len() == 4,
        le_u32(u32_le_bytes(v) + rest) == v,
        (u32_le_bytes(v) + rest).skip(4) == rest,
{
    let e = u32_le_bytes(v);
    let b = e + rest;
    assert(b[0] == e[0] && b[1] == e[1] && b[2] == e[2] && b[3] == e[3]);
    assert(b.skip(4) =~= rest);
    assert(((v & 0xff) as u8 as u32) | ((((v >> 8) & 0xff) as u8 as u32) << 8) | ((((v >> 16)
        & 0xff) as u8 as u32) << 16) | ((((v >> 24) & 0xff) as u8 as u32) << 24) == v)
        by (bit_vector);
}

/// Decoding the eight bytes of a value gives the value back, and what followed
/// them is what is left.
pub proof fn lemma_u64_round_trip(v: u64, rest: Seq<u8>)
    ensures
        u64_le_bytes(v).len() == 8,
        le_u64(u64_le_bytes(v) + rest) == v,
        (u64_le_bytes(v) + rest).skip(8) == rest,
{
    let e = u64_le_bytes(v);
    let b = e + rest;
    assert(b[0] == e[0] && b[1] == e[1] && b[2] == e[2] && b[3] == e[3]);
    assert(b[4] == e[4] && b[5] == e[5] && b[6] == e[6] && b[7] == e[7]);
    assert(b.skip(8) =~= rest);
    assert(((v & 0xff) as u8 as u64) | ((((v >> 8) & 0xff) as u8 as u64) << 8) | ((((v >> 16)
        & 0xff) as u8 as u64) << 16) | ((((v >> 24) & 0xff) as u8 as u64) << 24) | ((((v >> 32)
        & 0xff) as u8 as u64) << 32) | ((((v >> 40) & 0xff) as u8 as u64) << 40) | ((((v >> 48)
        & 0xff) as u8 as u64) << 48) | ((((v >> 56) & 0xff) as u8 as u64) << 56) == v)
        by (bit_vector);
}

/// Encoding the value of two bytes gives the two bytes back.
pub proof fn lemma_u16_bytes_round_trip(b: Seq<u8>)
    requires
        b.len() == 2,
    ensures
        u16_le_bytes(le_u16(b)) == b,
{
    let (b0, b1) = (b[0], b[1]);
    assert({
        let v = (b0 as u16) | (b1 as u16) << 8;
        (v & 0xff) as u8 == b0 && ((v >> 8) & 0xff) as u8 == b1
    }) by (bit_vector);
    assert(u16_le_bytes(le_u16(b)) =~= b);
}

/// Encoding the value of four bytes gives the four bytes back.
pub proof fn lemma_u32_bytes_round_trip(b: Seq<u8>)
    requires
        b.len() == 4,
    ensures
        u32_le_bytes(le_u32(b)) == b,
{
    let (b0, b1, b2, b3) = (b[0], b[1], b[2], b[3]);
    assert({
        let v = (b0 as u32) | (b1 as u32) << 8 | (b2 as u32) << 16 | (b3 as u32) << 24;
        &&& (v & 0xff) as u8 == b0
        &&& ((v >> 8) & 0xff) as u8 == b1
        &&& ((v >> 16) & 0xff) as u8 == b2
        &&& ((v >> 24) & 0xff) as u8 == b3
    }) by (bit_vector);
    assert(u32_le_bytes(le_u32(b)) =~= b);
}

/// Encoding the value of eight bytes gives the eight bytes back.
pub proof fn lemma_u64_bytes_round_trip(b: Seq<u8>)
    requires
        b.len() == 8,
    ensures
        u64_le_bytes(le_u64(b)) == b,
{
    let (b0, b1, b2, b3) = (b[0], b[1], b[2], b[3]);
    let (b4, b5, b6, b7) = (b[4], b[5], b[6], b[7]);
    assert({
        let v = (b0 as u64) | (b1 as u64) << 8 | (b2 as u64) << 16 | (b3 as u64) << 24 | (b4 as u64)
            << 32 | (b5 as u64) << 40 | (b6 as u64) << 48 | (b7 as u64) << 56;
        &&& (v & 0xff) as u8 == b0
        &&& ((v >> 8) & 0xff) as u8 == b1
        &&& ((v >> 16) & 0xff) as u8 == b2
        &&& ((v >> 24) & 0xff) as u8 == b3
        &&& ((v >> 32) & 0xff) as u8 == b4
        &&& ((v >> 40) & 0xff) as u8 == b5
        &&& ((v >> 48) & 0xff) as u8 == b6
        &&& ((v >> 56) & 0xff) as u8 == b7
    }) by (bit_vector);
    assert(u64_le_bytes(le_u64(b)) =~= b);
}

/// Reads the little-endian word that starts at `at`.
pub fn read_le_u32(bytes: &[u8], at: usize) -> (v: u32)
    requires
        at + 4 <= bytes@.len(),
    ensures
        v == le_u32(bytes@.subrange(at as int, at + 4)),
{
    (bytes[at] as u32) | (bytes[at + 1] as u32) << 8 | (bytes[at + 2] as u32) << 16 | (bytes[at
        + 3] as u32) << 24
}

/// Writes `v` at `at`, least significant byte first.
pub fn write_le_u32(bytes: &mut [u8], at: usize, v: u32)
    requires
        at + 4 <= old(bytes)@.len(),
    ensures
        final(bytes)@ == old(bytes)@.subrange(0, at as int) + u32_le_bytes(v) + old(
            bytes,
        )@.subrange(at + 4, old(bytes)@.len() as int),
{
    assert((v & 0xff) < 256 && ((v >> 8) & 0xff) < 256 && ((v >> 16) & 0xff) < 256 && ((v >> 24)
        & 0xff) < 256) by (bit_vector);
    bytes[at] = (v & 0xff) as u8;
    bytes[at + 1] = ((v >> 8) & 0xff) as u8;
    bytes[at + 2] = ((v >> 16) & 0xff) as u8;
    bytes[at + 3] = ((v >> 24) & 0xff) as u8;
}

} // verus!
