//! Little-endian integer encodings and the signed/unsigned bit-pattern
//! conversions the wire format is built on.

use vstd::bytes::{
    spec_u16_from_le_bytes, spec_u16_to_le_bytes, spec_u32_from_le_bytes, spec_u32_to_le_bytes,
    spec_u64_from_le_bytes, spec_u64_to_le_bytes, u16_from_le_bytes, u16_to_le_bytes,
    u32_from_le_bytes, u32_to_le_bytes, u64_from_le_bytes, u64_to_le_bytes,
};
use vstd::prelude::*;
use vstd::slice::slice_subrange;

verus! {

/// Two's-complement bit pattern of an `i32`, as carried on the wire.
pub open spec fn i32_bits(x: i32) -> u32 {
    if x >= 0 {
        x as u32
    } else {
        (x + 0x1_0000_0000) as u32
    }
}

/// Two's-complement bit pattern of an `i64`, as carried on the wire.
pub open spec fn i64_bits(x: i64) -> u64 {
    if x >= 0 {
        x as u64
    } else {
        (x + 0x1_0000_0000_0000_0000) as u64
    }
}

/// The `i32` whose two's-complement bit pattern is `b`.
pub open spec fn i32_of_bits(b: u32) -> i32 {
    if b < 0x8000_0000 {
        b as i32
    } else {
        (b - 0x1_0000_0000) as i32
    }
}

/// The `i64` whose two's-complement bit pattern is `b`.
pub open spec fn i64_of_bits(b: u64) -> i64 {
    if b < 0x8000_0000_0000_0000 {
        b as i64
    } else {
        (b - 0x1_0000_0000_0000_0000) as i64
    }
}

pub proof fn lemma_i32_bits_roundtrip(x: i32)
    ensures
        i32_of_bits(i32_bits(x)) == x,
{
}

pub proof fn lemma_i32_of_bits_roundtrip(b: u32)
    ensures
        i32_bits(i32_of_bits(b)) == b,
{
}

pub proof fn lemma_i64_bits_roundtrip(x: i64)
    ensures
        i64_of_bits(i64_bits(x)) == x,
{
}

pub proof fn lemma_i64_of_bits_roundtrip(b: u64)
    ensures
        i64_bits(i64_of_bits(b)) == b,
{
}

pub fn i32_to_bits(x: i32) -> (r: u32)
    ensures
        r == i32_bits(x),
{
    if x >= 0 {
        x as u32
    } else {
        ((x as i64) + 0x1_0000_0000i64) as u32
    }
}

pub fn bits_to_i32(b: u32) -> (r: i32)
    ensures
        r == i32_of_bits(b),
{
    if b < 0x8000_0000 {
        b as i32
    } else {
        ((b as i64) - 0x1_0000_0000i64) as i32
    }
}

pub fn i64_to_bits(x: i64) -> (r: u64)
    ensures
        r == i64_bits(x),
{
    if x >= 0 {
        x as u64
    } else {
        ((x as i128) + 0x1_0000_0000_0000_0000i128) as u64
    }
}

pub fn bits_to_i64(b: u64) -> (r: i64)
    ensures
        r == i64_of_bits(b),
{
    if b < 0x8000_0000_0000_0000 {
        b as i64
    } else {
        ((b as i128) - 0x1_0000_0000_0000_0000i128) as i64
    }
}

/// Little-endian bytes of a `u16`.
pub open spec fn le16(x: u16) -> Seq<u8> {
    spec_u16_to_le_bytes(x)
}

/// Little-endian bytes of a `u32`.
pub open spec fn le32(x: u32) -> Seq<u8> {
    spec_u32_to_le_bytes(x)
}

/// Little-endian bytes of a `u64`.
pub open spec fn le64(x: u64) -> Seq<u8> {
    spec_u64_to_le_bytes(x)
}

/// The `u16` stored little-endian at `pos` in `data`.
pub open spec fn le16_at(data: Seq<u8>, pos: int) -> u16 {
    spec_u16_from_le_bytes(data.subrange(pos, pos + 2))
}

/// The `u32` stored little-endian at `pos` in `data`.
pub open spec fn le32_at(data: Seq<u8>, pos: int) -> u32 {
    spec_u32_from_le_bytes(data.subrange(pos, pos + 4))
}

/// The `u64` stored little-endian at `pos` in `data`.
pub open spec fn le64_at(data: Seq<u8>, pos: int) -> u64 {
    spec_u64_from_le_bytes(data.subrange(pos, pos + 8))
}

/// Reading back the little-endian encoding of a `u32` yields the value.
pub proof fn lemma_le32_roundtrip(data: Seq<u8>, pos: int, x: u32)
    requires
        0 <= pos,
        pos + 4 <= data.len(),
        data.subrange(pos, pos + 4) =~= le32(x),
    ensures
        le32_at(data, pos) == x,
{
    vstd::bytes::lemma_auto_spec_u32_to_from_le_bytes();
    assert(spec_u32_to_le_bytes(x).len() == 4);
}

/// Reading back the little-endian encoding of a `u64` yields the value.
pub proof fn lemma_le64_roundtrip(data: Seq<u8>, pos: int, x: u64)
    requires
        0 <= pos,
        pos + 8 <= data.len(),
        data.subrange(pos, pos + 8) =~= le64(x),
    ensures
        le64_at(data, pos) == x,
{
    vstd::bytes::lemma_auto_spec_u64_to_from_le_bytes();
    assert(spec_u64_to_le_bytes(x).len() == 8);
}

/// Read the little-endian `u16` at `pos`.
pub fn read_le16(data: &Vec<u8>, pos: usize) -> (r: u16)
    requires
        pos + 2 <= data.len(),
    ensures
        r == le16_at(data@, pos as int),
{
    let s = slice_subrange(data.as_slice(), pos, pos + 2);
    u16_from_le_bytes(s)
}

/// Read the little-endian `u32` at `pos`.
pub fn read_le32(data: &Vec<u8>, pos: usize) -> (r: u32)
    requires
        pos + 4 <= data.len(),
    ensures
        r == le32_at(data@, pos as int),
{
    let s = slice_subrange(data.as_slice(), pos, pos + 4);
    u32_from_le_bytes(s)
}

/// Read the little-endian `u64` at `pos`.
pub fn read_le64(data: &Vec<u8>, pos: usize) -> (r: u64)
    requires
        pos + 8 <= data.len(),
    ensures
        r == le64_at(data@, pos as int),
{
    let s = slice_subrange(data.as_slice(), pos, pos + 8);
    u64_from_le_bytes(s)
}

/// Append the little-endian bytes of a `u16`.
pub fn push_le16(out: &mut Vec<u8>, x: u16)
    ensures
        final(out)@ == old(out)@ + le16(x),
{
    let mut bytes = u16_to_le_bytes(x);
    out.append(&mut bytes);
    proof {
        assert(out@ =~= old(out)@ + le16(x));
    }
}

/// Append the little-endian bytes of a `u32`.
pub fn push_le32(out: &mut Vec<u8>, x: u32)
    ensures
        final(out)@ == old(out)@ + le32(x),
{
    let mut bytes = u32_to_le_bytes(x);
    out.append(&mut bytes);
    proof {
        assert(out@ =~= old(out)@ + le32(x));
    }
}

/// Append the little-endian bytes of a `u64`.
pub fn push_le64(out: &mut Vec<u8>, x: u64)
    ensures
        final(out)@ == old(out)@ + le64(x),
{
    let mut bytes = u64_to_le_bytes(x);
    out.append(&mut bytes);
    proof {
        assert(out@ =~= old(out)@ + le64(x));
    }
}

} // verus!
