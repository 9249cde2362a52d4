//! Byte-level encodings of every field kind the format knows, as spec
//! functions: the writer's contracts promise exactly these bytes.

use crate::bytes_le::{i32_bits, i64_bits, le32, le64};
use crate::floatbits::{
    f32_approx_invalid, quaternion_approx_invalid, vector3_approx_invalid, Color, Quaternion,
    Vector3,
};
use crate::marks::{
    EMPTY_MARK_BITS, INVALID_INT, INVALID_INT_64, INVALID_U32, MARK_ARRAY, MARK_DICTIONARY,
};
use crate::widestr::enc_string;
use vstd::prelude::*;

verus! {

/// A boolean: one byte, nonzero meaning true.
pub open spec fn enc_bool(b: bool) -> Seq<u8> {
    if b {
        seq![1u8]
    } else {
        seq![0u8]
    }
}

/// A raw byte.
pub open spec fn enc_u8(b: u8) -> Seq<u8> {
    seq![b]
}

/// An `i32` written unconditionally.
pub open spec fn enc_i32_raw(v: i32) -> Seq<u8> {
    le32(i32_bits(v))
}

/// A `u32` written unconditionally.
pub open spec fn enc_u32_raw(v: u32) -> Seq<u8> {
    le32(v)
}

/// An `i64` written unconditionally.
pub open spec fn enc_i64_raw(v: i64) -> Seq<u8> {
    le64(i64_bits(v))
}

/// The inline empty marker.
pub open spec fn enc_empty() -> Seq<u8> {
    le32(EMPTY_MARK_BITS)
}

/// An `i32` field: the invalid sentinel becomes the empty marker.
pub open spec fn enc_i32_field(v: i32) -> Seq<u8> {
    if v == INVALID_INT {
        enc_empty()
    } else {
        enc_i32_raw(v)
    }
}

/// A `u32` field: the sentinel bit pattern becomes the empty marker.
pub open spec fn enc_u32_field(v: u32) -> Seq<u8> {
    if v == INVALID_U32 {
        enc_empty()
    } else {
        le32(v)
    }
}

/// An `i64` field: the invalid sentinel becomes the empty marker.
pub open spec fn enc_i64_field(v: i64) -> Seq<u8> {
    if v == INVALID_INT_64 {
        enc_empty()
    } else {
        enc_i64_raw(v)
    }
}

/// An `f32` field: a value approximately the invalid sentinel becomes the
/// empty marker.
pub open spec fn enc_f32_field(bits: u32) -> Seq<u8> {
    if f32_approx_invalid(bits) {
        enc_empty()
    } else {
        le32(bits)
    }
}

/// An `f64` field, written unconditionally.
pub open spec fn enc_f64_raw(bits: u64) -> Seq<u8> {
    le64(bits)
}

/// A datetime: its tick value as a raw `i64`.
pub open spec fn enc_datetime(ticks: i64) -> Seq<u8> {
    enc_i64_raw(ticks)
}

/// A nullable string: absence is the empty marker.
pub open spec fn enc_string_field(s: Option<Seq<u16>>) -> Seq<u8> {
    match s {
        Option::None => enc_empty(),
        Some(units) => enc_string(units),
    }
}

/// A vector field: a componentwise approximately-invalid vector becomes
/// the empty marker.
pub open spec fn enc_vector3(v: Vector3) -> Seq<u8> {
    if vector3_approx_invalid(v) {
        enc_empty()
    } else {
        le32(v.x) + le32(v.y) + le32(v.z)
    }
}

/// A quaternion field, with the same sentinel rule.
pub open spec fn enc_quaternion(q: Quaternion) -> Seq<u8> {
    if quaternion_approx_invalid(q) {
        enc_empty()
    } else {
        le32(q.x) + le32(q.y) + le32(q.z) + le32(q.w)
    }
}

/// A color: four `f32` fields in r,g,b,a order.
pub open spec fn enc_color(c: Color) -> Seq<u8> {
    enc_f32_field(c.r) + enc_f32_field(c.g) + enc_f32_field(c.b) + enc_f32_field(c.a)
}

/// The header of an array field: the array mark, then the element count.
pub open spec fn enc_array_header(len: i32) -> Seq<u8> {
    enc_i32_raw(MARK_ARRAY) + enc_i32_raw(len)
}

/// The header of a dictionary field.
pub open spec fn enc_dict_header(len: i32) -> Seq<u8> {
    enc_i32_raw(MARK_DICTIONARY) + enc_i32_raw(len)
}

/// A framed scope: mark, byte length of the payload, payload.
pub open spec fn enc_scope(mark: i32, payload: Seq<u8>) -> Seq<u8> {
    le32(i32_bits(mark)) + le64(payload.len() as u64) + payload
}

/// Reassociate one appended segment: writing `b` after a sink that holds
/// `a + x` leaves `a + (x + b)`.
pub proof fn lemma_grow<T>(a: Seq<T>, x: Seq<T>, b: Seq<T>)
    ensures
        (a + x) + b =~= a + (x + b),
{
}

/// Each element of `s` encoded by `f`, in order.
pub open spec fn enc_each<T>(s: Seq<T>, f: spec_fn(T) -> Seq<u8>) -> Seq<u8>
    decreases s.len(),
{
    if s.len() == 0 {
        Seq::empty()
    } else {
        f(s[0]) + enc_each(s.skip(1), f)
    }
}

/// Extending the encoded prefix by one element appends that element's
/// bytes.
pub proof fn lemma_enc_each_take_snoc<T>(s: Seq<T>, f: spec_fn(T) -> Seq<u8>, i: int)
    requires
        0 < i <= s.len(),
    ensures
        enc_each(s.take(i), f) =~= enc_each(s.take(i - 1), f) + f(s[i - 1]),
    decreases i,
{
    let a = s.take(i);
    let b = s.take(i - 1);
    if i == 1 {
        assert(a =~= seq![s[0]]);
        assert(b =~= Seq::<T>::empty());
        assert(a.skip(1) =~= Seq::<T>::empty());
        assert(enc_each(a, f) == f(a[0]) + enc_each(a.skip(1), f));
        assert(enc_each(a, f) =~= enc_each(b, f) + f(s[0]));
    } else {
        assert(enc_each(a, f) == f(a[0]) + enc_each(a.skip(1), f));
        assert(enc_each(b, f) == f(b[0]) + enc_each(b.skip(1), f));
        assert(a.skip(1) =~= s.skip(1).take(i - 1));
        assert(b.skip(1) =~= s.skip(1).take(i - 2));
        lemma_enc_each_take_snoc(s.skip(1), f, i - 1);
        assert(s.skip(1)[i - 2] == s[i - 1]);
        assert(a[0] == b[0]);
    }
}

/// The whole sequence is its own full take.
pub proof fn lemma_enc_each_take_all<T>(s: Seq<T>, f: spec_fn(T) -> Seq<u8>)
    ensures
        enc_each(s.take(s.len() as int), f) == enc_each(s, f),
{
    assert(s.take(s.len() as int) =~= s);
}

} // verus!
