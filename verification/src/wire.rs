//! Byte-order helpers for the wire structures.
//!
//! Packet headers store multi-byte scalars in network byte order (big
//! endian); the address record's per-layer data block stores them in the
//! machine order the driver shares with this process (little endian).
//! These functions read and write such scalars at a byte offset of a
//! buffer; the spec functions give each scalar's value as arithmetic over
//! the bytes, which is what every contract above them speaks of.

use vstd::prelude::*;

verus! {

/// The big-endian 16-bit value at offset `i` of `s`.
pub open spec fn spec_be16(s: Seq<u8>, i: int) -> u16 {
    ((s[i] as u16) * 0x100 + (s[i + 1] as u16)) as u16
}

/// The big-endian 32-bit value at offset `i` of `s`.
pub open spec fn spec_be32(s: Seq<u8>, i: int) -> u32 {
    ((s[i] as u32) * 0x100_0000 + (s[i + 1] as u32) * 0x1_0000 + (s[i + 2] as u32) * 0x100 + (s[i
        + 3] as u32)) as u32
}

/// The little-endian 16-bit value at offset `i` of `s`.
pub open spec fn spec_le16(s: Seq<u8>, i: int) -> u16 {
    ((s[i + 1] as u16) * 0x100 + (s[i] as u16)) as u16
}

/// The little-endian 32-bit value at offset `i` of `s`.
pub open spec fn spec_le32(s: Seq<u8>, i: int) -> u32 {
    ((s[i + 3] as u32) * 0x100_0000 + (s[i + 2] as u32) * 0x1_0000 + (s[i + 1] as u32) * 0x100 + (
    s[i] as u32)) as u32
}

/// The little-endian 64-bit value at offset `i` of `s`.
pub open spec fn spec_le64(s: Seq<u8>, i: int) -> u64 {
    ((spec_le32(s, i + 4) as u64) * 0x1_0000_0000 + (spec_le32(s, i) as u64)) as u64
}

/// The big-endian 128-bit value at offset `i` of `s`.
pub open spec fn spec_be128(s: Seq<u8>, i: int) -> u128 {
    ((spec_be32(s, i) as u128) * 0x1_0000_0000_0000_0000_0000_0000 + (spec_be32(
        s,
        i + 4,
    ) as u128) * 0x1_0000_0000_0000_0000 + (spec_be32(s, i + 8) as u128) * 0x1_0000_0000 + (
    spec_be32(s, i + 12) as u128)) as u128
}

/// `s` with the big-endian bytes of the 16-bit value `v` at offset `i`.
pub open spec fn spec_be16_put(s: Seq<u8>, i: int, v: u16) -> Seq<u8> {
    s.update(i, (v / 0x100) as u8).update(i + 1, (v % 0x100) as u8)
}

/// `s` with the big-endian bytes of the 32-bit value `v` at offset `i`.
pub open spec fn spec_be32_put(s: Seq<u8>, i: int, v: u32) -> Seq<u8> {
    s.update(i, (v / 0x100_0000) as u8).update(i + 1, ((v / 0x1_0000) % 0x100) as u8).update(
        i + 2,
        ((v / 0x100) % 0x100) as u8,
    ).update(i + 3, (v % 0x100) as u8)
}

/// `s` with the little-endian bytes of the 16-bit value `v` at offset `i`.
pub open spec fn spec_le16_put(s: Seq<u8>, i: int, v: u16) -> Seq<u8> {
    s.update(i, (v % 0x100) as u8).update(i + 1, (v / 0x100) as u8)
}

/// `s` with the little-endian bytes of the 32-bit value `v` at offset `i`.
pub open spec fn spec_le32_put(s: Seq<u8>, i: int, v: u32) -> Seq<u8> {
    s.update(i, (v % 0x100) as u8).update(i + 1, ((v / 0x100) % 0x100) as u8).update(
        i + 2,
        ((v / 0x1_0000) % 0x100) as u8,
    ).update(i + 3, (v / 0x100_0000) as u8)
}

/// Reads the big-endian 16-bit value at offset `i` of `b`.
pub fn be16_get(b: &Vec<u8>, i: usize) -> (r: u16)
    requires
        i + 2 <= b.len(),
    ensures
        r == spec_be16(b@, i as int),
{
    (b[i] as u16) * 0x100 + (b[i + 1] as u16)
}

/// Writes the 16-bit value `v` in big-endian order at offset `i` of `b`.
pub fn be16_put(b: &mut Vec<u8>, i: usize, v: u16)
    requires
        i + 2 <= old(b).len(),
    ensures
        final(b)@ == spec_be16_put(old(b)@, i as int, v),
        final(b).len() == old(b).len(),
{
    let hi = (v / 0x100) as u8;
    let lo = (v % 0x100) as u8;
    b[i] = hi;
    b[i + 1] = lo;
}

/// Reads the big-endian 32-bit value at offset `i` of `b`.
pub fn be32_get(b: &Vec<u8>, i: usize) -> (r: u32)
    requires
        i + 4 <= b.len(),
    ensures
        r == spec_be32(b@, i as int),
{
    (b[i] as u32) * 0x100_0000 + (b[i + 1] as u32) * 0x1_0000 + (b[i + 2] as u32) * 0x100 + (b[i
        + 3] as u32)
}

/// Writes the 32-bit value `v` in big-endian order at offset `i` of `b`.
pub fn be32_put(b: &mut Vec<u8>, i: usize, v: u32)
    requires
        i + 4 <= old(b).len(),
    ensures
        final(b)@ == spec_be32_put(old(b)@, i as int, v),
        final(b).len() == old(b).len(),
{
    b[i] = (v / 0x100_0000) as u8;
    b[i + 1] = ((v / 0x1_0000) % 0x100) as u8;
    b[i + 2] = ((v / 0x100) % 0x100) as u8;
    b[i + 3] = (v % 0x100) as u8;
}

/// Reads the little-endian 16-bit value at offset `i` of `b`.
pub fn le16_get(b: &Vec<u8>, i: usize) -> (r: u16)
    requires
        i + 2 <= b.len(),
    ensures
        r == spec_le16(b@, i as int),
{
    (b[i + 1] as u16) * 0x100 + (b[i] as u16)
}

/// Writes the 16-bit value `v` in little-endian order at offset `i` of `b`.
pub fn le16_put(b: &mut Vec<u8>, i: usize, v: u16)
    requires
        i + 2 <= old(b).len(),
    ensures
        final(b)@ == spec_le16_put(old(b)@, i as int, v),
        final(b).len() == old(b).len(),
{
    b[i] = (v % 0x100) as u8;
    b[i + 1] = (v / 0x100) as u8;
}

/// Reads the little-endian 32-bit value at offset `i` of `b`.
pub fn le32_get(b: &Vec<u8>, i: usize) -> (r: u32)
    requires
        i + 4 <= b.len(),
    ensures
        r == spec_le32(b@, i as int),
{
    (b[i + 3] as u32) * 0x100_0000 + (b[i + 2] as u32) * 0x1_0000 + (b[i + 1] as u32) * 0x100 + (
    b[i] as u32)
}

/// Writes the 32-bit value `v` in little-endian order at offset `i` of `b`.
pub fn le32_put(b: &mut Vec<u8>, i: usize, v: u32)
    requires
        i + 4 <= old(b).len(),
    ensures
        final(b)@ == spec_le32_put(old(b)@, i as int, v),
        final(b).len() == old(b).len(),
{
    b[i] = (v % 0x100) as u8;
    b[i + 1] = ((v / 0x100) % 0x100) as u8;
    b[i + 2] = ((v / 0x1_0000) % 0x100) as u8;
    b[i + 3] = (v / 0x100_0000) as u8;
}

/// Reads the little-endian 64-bit value at offset `i` of `b`.
pub fn le64_get(b: &Vec<u8>, i: usize) -> (r: u64)
    requires
        i + 8 <= b.len(),
    ensures
        r == spec_le64(b@, i as int),
{
    let lo = le32_get(b, i);
    let hi = le32_get(b, i + 4);
    (hi as u64) * 0x1_0000_0000 + (lo as u64)
}

/// `s` with the little-endian bytes of the 64-bit value `v` at offset `i`.
pub open spec fn spec_le64_put(s: Seq<u8>, i: int, v: u64) -> Seq<u8> {
    spec_le32_put(spec_le32_put(s, i, (v % 0x1_0000_0000) as u32), i + 4, (v / 0x1_0000_0000) as u32)
}

/// Writes the 64-bit value `v` in little-endian order at offset `i` of `b`.
pub fn le64_put(b: &mut Vec<u8>, i: usize, v: u64)
    requires
        i + 8 <= old(b).len(),
    ensures
        final(b).len() == old(b).len(),
        final(b)@ == spec_le64_put(old(b)@, i as int, v),
{
    let lo = (v % 0x1_0000_0000) as u32;
    let hi = (v / 0x1_0000_0000) as u32;
    le32_put(b, i, lo);
    le32_put(b, i + 4, hi);
}

/// Reads the big-endian 128-bit value at offset `i` of `b`.
pub fn be128_get(b: &Vec<u8>, i: usize) -> (r: u128)
    requires
        i + 16 <= b.len(),
    ensures
        r == spec_be128(b@, i as int),
{
    let a = be32_get(b, i);
    let c = be32_get(b, i + 4);
    let d = be32_get(b, i + 8);
    let e = be32_get(b, i + 12);
    (a as u128) * 0x1_0000_0000_0000_0000_0000_0000 + (c as u128) * 0x1_0000_0000_0000_0000 + (
    d as u128) * 0x1_0000_0000 + (e as u128)
}

/// `s` with the big-endian bytes of the 128-bit value `v` at offset `i`.
pub open spec fn spec_be128_put(s: Seq<u8>, i: int, v: u128) -> Seq<u8> {
    spec_be32_put(
        spec_be32_put(
            spec_be32_put(
                spec_be32_put(s, i, (v / 0x1_0000_0000_0000_0000_0000_0000) as u32),
                i + 4,
                ((v / 0x1_0000_0000_0000_0000) % 0x1_0000_0000) as u32,
            ),
            i + 8,
            ((v / 0x1_0000_0000) % 0x1_0000_0000) as u32,
        ),
        i + 12,
        (v % 0x1_0000_0000) as u32,
    )
}

/// Writes the 128-bit value `v` in big-endian order at offset `i` of `b`.
pub fn be128_put(b: &mut Vec<u8>, i: usize, v: u128)
    requires
        i + 16 <= old(b).len(),
    ensures
        final(b).len() == old(b).len(),
        final(b)@ == spec_be128_put(old(b)@, i as int, v),
{
    let a = (v / 0x1_0000_0000_0000_0000_0000_0000) as u32;
    let c = ((v / 0x1_0000_0000_0000_0000) % 0x1_0000_0000) as u32;
    let d = ((v / 0x1_0000_0000) % 0x1_0000_0000) as u32;
    let e = (v % 0x1_0000_0000) as u32;
    be32_put(b, i, a);
    be32_put(b, i + 4, c);
    be32_put(b, i + 8, d);
    be32_put(b, i + 12, e);
}

} // verus!
