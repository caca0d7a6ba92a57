//! Big-endian field encoding and decoding at fixed byte offsets, shared by
//! the packet view layer. All multi-byte protocol fields are big-endian on
//! the wire.

use vstd::prelude::*;

verus! {

/// The 16-bit big-endian value at offset `i`.
pub open spec fn be16(s: Seq<u8>, i: int) -> u16
    recommends
        0 <= i,
        i + 2 <= s.len(),
{
    (256 * (s[i] as int) + (s[i + 1] as int)) as u16
}

/// The 32-bit big-endian value at offset `i`.
pub open spec fn be32(s: Seq<u8>, i: int) -> u32
    recommends
        0 <= i,
        i + 4 <= s.len(),
{
    (0x1000000 * (s[i] as int) + 0x10000 * (s[i + 1] as int) + 0x100 * (s[i + 2] as int) + (s[i
        + 3] as int)) as u32
}

/// The sequence `s` with the 16-bit value `v` written big-endian at offset `i`.
pub open spec fn with_be16(s: Seq<u8>, i: int, v: u16) -> Seq<u8>
    recommends
        0 <= i,
        i + 2 <= s.len(),
{
    s.update(i, (v / 256) as u8).update(i + 1, (v % 256) as u8)
}

/// The sequence `s` with the 32-bit value `v` written big-endian at offset `i`.
pub open spec fn with_be32(s: Seq<u8>, i: int, v: u32) -> Seq<u8>
    recommends
        0 <= i,
        i + 4 <= s.len(),
{
    s.update(i, (v / 0x1000000) as u8).update(i + 1, ((v / 0x10000) % 0x100) as u8).update(
        i + 2,
        ((v / 0x100) % 0x100) as u8,
    ).update(i + 3, (v % 0x100) as u8)
}

/// Reading back a big-endian 16-bit write yields the written value.
pub proof fn lemma_be16_round_trip(s: Seq<u8>, i: int, v: u16)
    requires
        0 <= i,
        i + 2 <= s.len(),
    ensures
        be16(with_be16(s, i, v), i) == v,
{
}

/// A sequence holding the two big-endian parts of `v` at offset `i` decodes
/// back to `v` there.
pub proof fn lemma_be16_of_parts(s: Seq<u8>, i: int, v: u16)
    requires
        0 <= i,
        i + 2 <= s.len(),
        s[i] == (v / 256) as u8,
        s[i + 1] == (v % 256) as u8,
    ensures
        be16(s, i) == v,
{
}

/// A sequence holding the four big-endian parts of `v` at offset `i` decodes
/// back to `v` there.
pub proof fn lemma_be32_of_parts(s: Seq<u8>, i: int, v: u32)
    requires
        0 <= i,
        i + 4 <= s.len(),
        s[i] == (v / 0x1000000) as u8,
        s[i + 1] == ((v / 0x10000) % 0x100) as u8,
        s[i + 2] == ((v / 0x100) % 0x100) as u8,
        s[i + 3] == (v % 0x100) as u8,
    ensures
        be32(s, i) == v,
{
    assert(0x1000000 * (v / 0x1000000) + 0x10000 * ((v / 0x10000) % 0x100) + 0x100 * ((v / 0x100)
        % 0x100) + (v % 0x100) == v) by (bit_vector);
}

pub fn read_be16(buf: &[u8], i: usize) -> (r: u16)
    requires
        i + 2 <= buf@.len(),
    ensures
        r == be16(buf@, i as int),
{
    256 * (buf[i] as u16) + (buf[i + 1] as u16)
}

pub fn read_be32(buf: &[u8], i: usize) -> (r: u32)
    requires
        i + 4 <= buf@.len(),
    ensures
        r == be32(buf@, i as int),
{
    0x1000000 * (buf[i] as u32) + 0x10000 * (buf[i + 1] as u32) + 0x100 * (buf[i + 2] as u32) + (
    buf[i + 3] as u32)
}

pub fn write_be16(buf: &mut Vec<u8>, i: usize, v: u16)
    requires
        i + 2 <= old(buf).len(),
    ensures
        final(buf)@ == with_be16(old(buf)@, i as int, v),
    no_unwind
{
    buf[i] = (v / 256) as u8;
    buf[i + 1] = (v % 256) as u8;
}

pub fn write_be32(buf: &mut Vec<u8>, i: usize, v: u32)
    requires
        i + 4 <= old(buf).len(),
    ensures
        final(buf)@ == with_be32(old(buf)@, i as int, v),
    no_unwind
{
    buf[i] = (v / 0x1000000) as u8;
    buf[i + 1] = ((v / 0x10000) % 0x100) as u8;
    buf[i + 2] = ((v / 0x100) % 0x100) as u8;
    buf[i + 3] = (v % 0x100) as u8;
}

} // verus!
