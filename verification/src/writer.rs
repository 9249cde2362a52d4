//! The writer: an in-memory byte sink with a stack of open scopes whose
//! reserved length slots are patched, in LIFO order, when each scope ends.

use crate::bytes_le::{i32_to_bits, i64_to_bits, le32, le64, push_le32, push_le64};
use crate::error::EncodeError;
use crate::floatbits::{
    f32_is_approx_invalid, quaternion_is_approx_invalid, vector3_is_approx_invalid, Color,
    Quaternion, Vector3,
};
use crate::marks::{EMPTY_MARK_BITS, INVALID_INT, INVALID_INT_64, INVALID_U32, MARK_ARRAY,
    MARK_DICTIONARY};
use crate::widestr::{push_string, string_encodable, WideStr};
use crate::wire::{
    enc_array_header, enc_bool, enc_dict_header, enc_each, enc_empty, enc_f32_field, enc_f64_raw,
    enc_i32_field, enc_i32_raw, enc_i64_field, enc_i64_raw, enc_quaternion, enc_scope,
    enc_string_field, enc_u32_field, enc_u8, enc_vector3, lemma_enc_each_take_snoc,
};
use vstd::prelude::*;

verus! {

/// Bytes of a reference-array payload: each reference a raw `u32`.
pub open spec fn enc_references(s: Seq<u32>) -> Seq<u8> {
    enc_each(s, |v: u32| crate::wire::enc_u32_raw(v))
}

/// Bytes of an `i32`-array payload, element sentinels included.
pub open spec fn enc_i32_fields(s: Seq<i32>) -> Seq<u8> {
    enc_each(s, |v: i32| enc_i32_field(v))
}

/// Bytes of a byte-buffer-array payload.
pub open spec fn enc_u8s(s: Seq<u8>) -> Seq<u8> {
    enc_each(s, |v: u8| enc_u8(v))
}

/// Bytes of an `f64`-array payload, each element its bit pattern.
pub open spec fn enc_f64s(s: Seq<u64>) -> Seq<u8> {
    enc_each(s, |v: u64| enc_f64_raw(v))
}

/// Bytes of a nullable-string-array payload.
pub open spec fn enc_string_fields(s: Seq<Option<WideStr>>) -> Seq<u8> {
    enc_each(s, |v: Option<WideStr>| enc_string_field(crate::widestr::opt_units(v)))
}

/// Every string in a nullable-string array fits the length prefix.
pub open spec fn string_fields_encodable(s: Seq<Option<WideStr>>) -> bool {
    forall|i: int|
        0 <= i < s.len() ==> match #[trigger] s[i] {
            Option::None => true,
            Some(w) => string_encodable(w@),
        }
}

/// The writer over an in-memory sink. `scope_stack` holds, for every open
/// scope, the offset of its payload start; the eight bytes before that
/// offset are its reserved length slot.
#[derive(Debug)]
pub struct Serializer {
    pub out: Vec<u8>,
    pub scope_stack: Vec<usize>,
}

impl Serializer {
    /// Every open scope's length slot lies inside the bytes written so far.
    pub open spec fn wf(self) -> bool {
        forall|i: int|
            0 <= i < self.scope_stack@.len() ==> 8 <= #[trigger] self.scope_stack@[i]
                <= self.out@.len()
    }

    pub fn new() -> (s: Serializer)
        ensures
            s.out@ =~= Seq::<u8>::empty(),
            s.scope_stack@ =~= Seq::<usize>::empty(),
            s.wf(),
    {
        Serializer { out: Vec::new(), scope_stack: Vec::new() }
    }

    /// Open a scope: the mark, then an eight-byte length slot that
    /// [`Serializer::end_scope`] patches.
    pub fn start_scope(&mut self, mark: i32)
        requires
            old(self).wf(),
        ensures
            final(self).wf(),
            final(self).out@ == old(self).out@ + le32(crate::bytes_le::i32_bits(mark)) + le64(0),
            old(self).out@.len() + 12 <= usize::MAX,
            final(self).scope_stack@ == old(self).scope_stack@.push(
                (old(self).out@.len() + 12) as usize,
            ),
    {
        let bits = i32_to_bits(mark);
        push_le32(&mut self.out, bits);
        push_le64(&mut self.out, 0);
        proof {
            vstd::bytes::lemma_auto_spec_u32_to_from_le_bytes();
            vstd::bytes::lemma_auto_spec_u64_to_from_le_bytes();
            assert(le32(crate::bytes_le::i32_bits(mark)).len() == 4);
            assert(le64(0u64).len() == 8);
        }
        let start = self.out.len();
        self.scope_stack.push(start);
    }

    /// Close the innermost scope: write the number of payload bytes since
    /// it opened into its reserved slot.
    pub fn end_scope(&mut self)
        requires
            old(self).wf(),
            old(self).scope_stack@.len() > 0,
        ensures
            final(self).wf(),
            final(self).scope_stack@ == old(self).scope_stack@.drop_last(),
            final(self).out@ =~= old(self).out@.subrange(
                0,
                old(self).scope_stack@.last() - 8,
            ) + le64((old(self).out@.len() - old(self).scope_stack@.last()) as u64) + old(self).out@.subrange(old(self).scope_stack@.last() as int, old(self).out@.len() as int),
            final(self).out@.len() == old(self).out@.len(),
    {
        let top = self.scope_stack.pop().unwrap();
        let section_len: usize = self.out.len() - top;
        let bytes = vstd::bytes::u64_to_le_bytes(section_len as u64);
        proof {
            vstd::bytes::lemma_auto_spec_u64_to_from_le_bytes();
        }
        let slot = top - 8;
        self.out[slot] = bytes[0];
        self.out[slot + 1] = bytes[1];
        self.out[slot + 2] = bytes[2];
        self.out[slot + 3] = bytes[3];
        self.out[slot + 4] = bytes[4];
        self.out[slot + 5] = bytes[5];
        self.out[slot + 6] = bytes[6];
        self.out[slot + 7] = bytes[7];
        proof {
            assert(final(self).out@ =~= old(self).out@.subrange(0, top - 8) + le64(
                section_len as u64,
            ) + old(self).out@.subrange(top as int, old(self).out@.len() as int));
        }
    }

    /// The empty marker.
    pub fn put_empty(&mut self)
        requires
            old(self).wf(),
        ensures
            final(self).wf(),
            final(self).out@ == old(self).out@ + enc_empty(),
            final(self).scope_stack@ == old(self).scope_stack@,
    {
        push_le32(&mut self.out, EMPTY_MARK_BITS);
    }

    pub fn put_bool(&mut self, v: bool)
        requires
            old(self).wf(),
        ensures
            final(self).wf(),
            final(self).out@ == old(self).out@ + enc_bool(v),
            final(self).scope_stack@ == old(self).scope_stack@,
    {
        if v {
            self.out.push(1);
        } else {
            self.out.push(0);
        }
        proof {
            assert(final(self).out@ =~= old(self).out@ + enc_bool(v));
        }
    }

    pub fn put_u8_raw(&mut self, v: u8)
        requires
            old(self).wf(),
        ensures
            final(self).wf(),
            final(self).out@ == old(self).out@ + enc_u8(v),
            final(self).scope_stack@ == old(self).scope_stack@,
    {
        self.out.push(v);
        proof {
            assert(final(self).out@ =~= old(self).out@ + enc_u8(v));
        }
    }

    /// An `i32` written unconditionally: counts, ids, versions, headers.
    pub fn put_i32_raw(&mut self, v: i32)
        requires
            old(self).wf(),
        ensures
            final(self).wf(),
            final(self).out@ == old(self).out@ + enc_i32_raw(v),
            final(self).scope_stack@ == old(self).scope_stack@,
    {
        let bits = i32_to_bits(v);
        push_le32(&mut self.out, bits);
    }

    /// A `u32` written unconditionally: references and guids.
    pub fn put_u32_raw(&mut self, v: u32)
        requires
            old(self).wf(),
        ensures
            final(self).wf(),
            final(self).out@ == old(self).out@ + crate::wire::enc_u32_raw(v),
            final(self).scope_stack@ == old(self).scope_stack@,
    {
        push_le32(&mut self.out, v);
    }

    pub fn put_i64_raw(&mut self, v: i64)
        requires
            old(self).wf(),
        ensures
            final(self).wf(),
            final(self).out@ == old(self).out@ + enc_i64_raw(v),
            final(self).scope_stack@ == old(self).scope_stack@,
    {
        let bits = i64_to_bits(v);
        push_le64(&mut self.out, bits);
    }

    /// An `i32` field: the invalid sentinel becomes the empty marker.
    pub fn put_i32_field(&mut self, v: i32)
        requires
            old(self).wf(),
        ensures
            final(self).wf(),
            final(self).out@ == old(self).out@ + enc_i32_field(v),
            final(self).scope_stack@ == old(self).scope_stack@,
    {
        if v != INVALID_INT {
            self.put_i32_raw(v);
        } else {
            self.put_empty();
        }
    }

    /// A `u32` field: the sentinel bit pattern becomes the empty marker.
    pub fn put_u32_field(&mut self, v: u32)
        requires
            old(self).wf(),
        ensures
            final(self).wf(),
            final(self).out@ == old(self).out@ + enc_u32_field(v),
            final(self).scope_stack@ == old(self).scope_stack@,
    {
        if v != INVALID_U32 {
            self.put_u32_raw(v);
        } else {
            self.put_empty();
        }
    }

    /// An `i64` field: the invalid sentinel becomes the empty marker.
    pub fn put_i64_field(&mut self, v: i64)
        requires
            old(self).wf(),
        ensures
            final(self).wf(),
            final(self).out@ == old(self).out@ + enc_i64_field(v),
            final(self).scope_stack@ == old(self).scope_stack@,
    {
        if v != INVALID_INT_64 {
            self.put_i64_raw(v);
        } else {
            self.put_empty();
        }
    }

    /// An `f32` field: a value approximately the invalid sentinel becomes
    /// the empty marker.
    pub fn put_f32_field(&mut self, bits: u32)
        requires
            old(self).wf(),
        ensures
            final(self).wf(),
            final(self).out@ == old(self).out@ + enc_f32_field(bits),
            final(self).scope_stack@ == old(self).scope_stack@,
    {
        if !f32_is_approx_invalid(bits) {
            push_le32(&mut self.out, bits);
        } else {
            self.put_empty();
        }
    }

    /// An `f64` field, written unconditionally.
    pub fn put_f64_raw(&mut self, bits: u64)
        requires
            old(self).wf(),
        ensures
            final(self).wf(),
            final(self).out@ == old(self).out@ + enc_f64_raw(bits),
            final(self).scope_stack@ == old(self).scope_stack@,
    {
        push_le64(&mut self.out, bits);
    }

    /// A datetime: its ticks as a raw `i64`.
    pub fn put_datetime(&mut self, ticks: i64)
        requires
            old(self).wf(),
        ensures
            final(self).wf(),
            final(self).out@ == old(self).out@ + crate::wire::enc_datetime(ticks),
            final(self).scope_stack@ == old(self).scope_stack@,
    {
        self.put_i64_raw(ticks);
    }

    /// A mandatory string.
    pub fn put_string(&mut self, s: &WideStr) -> (r: Result<(), EncodeError>)
        requires
            old(self).wf(),
        ensures
            final(self).wf(),
            final(self).scope_stack@ == old(self).scope_stack@,
            match r {
                Ok(()) => string_encodable(s@) && final(self).out@ == old(self).out@
                    + crate::widestr::enc_string(s@),
                Err(e) => !string_encodable(s@) && e == EncodeError::StringTooLong && final(self).out@ == old(self).out@,
            },
    {
        if s.units.len() as u64 > 0x3_FFFF_FFFFu64 {
            return Err(EncodeError::StringTooLong);
        }
        push_string(&mut self.out, s);
        Ok(())
    }

    /// A nullable string: absence is the empty marker.
    pub fn put_string_field(&mut self, s: &Option<WideStr>) -> (r: Result<(), EncodeError>)
        requires
            old(self).wf(),
        ensures
            final(self).wf(),
            final(self).scope_stack@ == old(self).scope_stack@,
            match r {
                Ok(()) => crate::widestr::opt_str_encodable(*s) && final(self).out@ == old(self).out@ + enc_string_field(crate::widestr::opt_units(*s)),
                Err(e) => !crate::widestr::opt_str_encodable(*s) && e
                    == EncodeError::StringTooLong && final(self).out@ == old(self).out@,
            },
    {
        match s {
            Option::None => {
                self.put_empty();
                Ok(())
            },
            Some(w) => self.put_string(w),
        }
    }

    /// A vector field, the componentwise sentinel becoming the empty
    /// marker.
    pub fn put_vector3(&mut self, v: &Vector3)
        requires
            old(self).wf(),
        ensures
            final(self).wf(),
            final(self).out@ == old(self).out@ + enc_vector3(*v),
            final(self).scope_stack@ == old(self).scope_stack@,
    {
        if !vector3_is_approx_invalid(v) {
            push_le32(&mut self.out, v.x);
            push_le32(&mut self.out, v.y);
            push_le32(&mut self.out, v.z);
            proof {
                assert(final(self).out@ =~= old(self).out@ + enc_vector3(*v));
            }
        } else {
            self.put_empty();
        }
    }

    /// A quaternion field, with the same sentinel rule.
    pub fn put_quaternion(&mut self, q: &Quaternion)
        requires
            old(self).wf(),
        ensures
            final(self).wf(),
            final(self).out@ == old(self).out@ + enc_quaternion(*q),
            final(self).scope_stack@ == old(self).scope_stack@,
    {
        if !quaternion_is_approx_invalid(q) {
            push_le32(&mut self.out, q.x);
            push_le32(&mut self.out, q.y);
            push_le32(&mut self.out, q.z);
            push_le32(&mut self.out, q.w);
            proof {
                assert(final(self).out@ =~= old(self).out@ + enc_quaternion(*q));
            }
        } else {
            self.put_empty();
        }
    }

    /// A color: four `f32` fields, r,g,b,a.
    pub fn put_color(&mut self, c: &Color)
        requires
            old(self).wf(),
        ensures
            final(self).wf(),
            final(self).out@ == old(self).out@ + crate::wire::enc_color(*c),
            final(self).scope_stack@ == old(self).scope_stack@,
    {
        self.put_f32_field(c.r);
        self.put_f32_field(c.g);
        self.put_f32_field(c.b);
        self.put_f32_field(c.a);
        proof {
            assert(final(self).out@ =~= old(self).out@ + crate::wire::enc_color(*c));
        }
    }

    /// Raw bytes, verbatim: an untypable component's preserved payload.
    pub fn put_bytes(&mut self, bytes: &Vec<u8>)
        requires
            old(self).wf(),
        ensures
            final(self).wf(),
            final(self).out@ == old(self).out@ + bytes@,
            final(self).scope_stack@ == old(self).scope_stack@,
    {
        self.out.extend_from_slice(bytes.as_slice());
        proof {
            assert(final(self).out@ =~= old(self).out@ + bytes@);
        }
    }

    /// The array mark and element count that precede array elements.
    pub fn put_array_header(&mut self, len: usize) -> (r: Result<(), EncodeError>)
        requires
            old(self).wf(),
        ensures
            final(self).wf(),
            final(self).scope_stack@ == old(self).scope_stack@,
            match r {
                Ok(()) => len <= i32::MAX && final(self).out@ == old(self).out@
                    + enc_array_header(len as i32),
                Err(e) => len > i32::MAX && e == EncodeError::CountTooLarge && final(self).out@
                    == old(self).out@,
            },
    {
        if len > i32::MAX as usize {
            return Err(EncodeError::CountTooLarge);
        }
        self.put_i32_raw(MARK_ARRAY);
        self.put_i32_raw(len as i32);
        proof {
            assert(final(self).out@ =~= old(self).out@ + enc_array_header(len as i32));
        }
        Ok(())
    }

    /// The dictionary mark and entry count that precede dictionary pairs.
    pub fn put_dict_header(&mut self, len: usize) -> (r: Result<(), EncodeError>)
        requires
            old(self).wf(),
        ensures
            final(self).wf(),
            final(self).scope_stack@ == old(self).scope_stack@,
            match r {
                Ok(()) => len <= i32::MAX && final(self).out@ == old(self).out@
                    + enc_dict_header(len as i32),
                Err(e) => len > i32::MAX && e == EncodeError::CountTooLarge && final(self).out@
                    == old(self).out@,
            },
    {
        if len > i32::MAX as usize {
            return Err(EncodeError::CountTooLarge);
        }
        self.put_i32_raw(MARK_DICTIONARY);
        self.put_i32_raw(len as i32);
        proof {
            assert(final(self).out@ =~= old(self).out@ + enc_dict_header(len as i32));
        }
        Ok(())
    }

    /// An array of references: header, then each as a raw `u32`.
    pub fn put_reference_array(&mut self, refs: &Vec<u32>) -> (r: Result<(), EncodeError>)
        requires
            old(self).wf(),
        ensures
            final(self).wf(),
            final(self).scope_stack@ == old(self).scope_stack@,
            match r {
                Ok(()) => refs@.len() <= i32::MAX && final(self).out@ == old(self).out@
                    + enc_array_header(refs@.len() as i32) + enc_references(refs@),
                Err(e) => refs@.len() > i32::MAX && e == EncodeError::CountTooLarge && final(self).out@ == old(self).out@,
            },
    {
        self.put_array_header(refs.len())?;
        let ghost base = self.out@;
        let n = refs.len();
        let mut i: usize = 0;
        while i < n
            invariant
                i <= n,
                n == refs@.len(),
                self.wf(),
                self.scope_stack@ == old(self).scope_stack@,
                self.out@ == base + enc_each(refs@.take(i as int), |v: u32| crate::wire::enc_u32_raw(v)),
            decreases n - i,
        {
            self.put_u32_raw(refs[i]);
            i = i + 1;
            proof {
                lemma_enc_each_take_snoc(refs@, |v: u32| crate::wire::enc_u32_raw(v), i as int);
            }
        }
        proof {
            assert(refs@.take(n as int) =~= refs@);
        }
        Ok(())
    }

    /// An array of `i32` values: header, then each as an `i32` field.
    pub fn put_i32_array(&mut self, vals: &Vec<i32>) -> (r: Result<(), EncodeError>)
        requires
            old(self).wf(),
        ensures
            final(self).wf(),
            final(self).scope_stack@ == old(self).scope_stack@,
            match r {
                Ok(()) => vals@.len() <= i32::MAX && final(self).out@ == old(self).out@
                    + enc_array_header(vals@.len() as i32) + enc_i32_fields(vals@),
                Err(e) => vals@.len() > i32::MAX && e == EncodeError::CountTooLarge && final(self).out@ == old(self).out@,
            },
    {
        self.put_array_header(vals.len())?;
        let ghost base = self.out@;
        let n = vals.len();
        let mut i: usize = 0;
        while i < n
            invariant
                i <= n,
                n == vals@.len(),
                self.wf(),
                self.scope_stack@ == old(self).scope_stack@,
                self.out@ == base + enc_each(vals@.take(i as int), |v: i32| enc_i32_field(v)),
            decreases n - i,
        {
            self.put_i32_field(vals[i]);
            i = i + 1;
            proof {
                lemma_enc_each_take_snoc(vals@, |v: i32| enc_i32_field(v), i as int);
            }
        }
        proof {
            assert(vals@.take(n as int) =~= vals@);
        }
        Ok(())
    }

    /// An array of raw bytes: header, then the bytes.
    pub fn put_u8_array(&mut self, vals: &Vec<u8>) -> (r: Result<(), EncodeError>)
        requires
            old(self).wf(),
        ensures
            final(self).wf(),
            final(self).scope_stack@ == old(self).scope_stack@,
            match r {
                Ok(()) => vals@.len() <= i32::MAX && final(self).out@ == old(self).out@
                    + enc_array_header(vals@.len() as i32) + enc_u8s(vals@),
                Err(e) => vals@.len() > i32::MAX && e == EncodeError::CountTooLarge && final(self).out@ == old(self).out@,
            },
    {
        self.put_array_header(vals.len())?;
        let ghost base = self.out@;
        let n = vals.len();
        let mut i: usize = 0;
        while i < n
            invariant
                i <= n,
                n == vals@.len(),
                self.wf(),
                self.scope_stack@ == old(self).scope_stack@,
                self.out@ == base + enc_each(vals@.take(i as int), |v: u8| enc_u8(v)),
            decreases n - i,
        {
            self.put_u8_raw(vals[i]);
            i = i + 1;
            proof {
                lemma_enc_each_take_snoc(vals@, |v: u8| enc_u8(v), i as int);
            }
        }
        proof {
            assert(vals@.take(n as int) =~= vals@);
        }
        Ok(())
    }

    /// An array of `f64` bit patterns: header, then each written raw.
    pub fn put_f64_array(&mut self, vals: &Vec<u64>) -> (r: Result<(), EncodeError>)
        requires
            old(self).wf(),
        ensures
            final(self).wf(),
            final(self).scope_stack@ == old(self).scope_stack@,
            match r {
                Ok(()) => vals@.len() <= i32::MAX && final(self).out@ == old(self).out@
                    + enc_array_header(vals@.len() as i32) + enc_f64s(vals@),
                Err(e) => vals@.len() > i32::MAX && e == EncodeError::CountTooLarge && final(self).out@ == old(self).out@,
            },
    {
        self.put_array_header(vals.len())?;
        let ghost base = self.out@;
        let n = vals.len();
        let mut i: usize = 0;
        while i < n
            invariant
                i <= n,
                n == vals@.len(),
                self.wf(),
                self.scope_stack@ == old(self).scope_stack@,
                self.out@ == base + enc_each(vals@.take(i as int), |v: u64| enc_f64_raw(v)),
            decreases n - i,
        {
            self.put_f64_raw(vals[i]);
            i = i + 1;
            proof {
                lemma_enc_each_take_snoc(vals@, |v: u64| enc_f64_raw(v), i as int);
            }
        }
        proof {
            assert(vals@.take(n as int) =~= vals@);
        }
        Ok(())
    }

    /// An array of nullable strings: header, then each as a string field.
    pub fn put_string_array(&mut self, vals: &Vec<Option<WideStr>>) -> (r: Result<
        (),
        EncodeError,
    >)
        requires
            old(self).wf(),
        ensures
            final(self).wf(),
            final(self).scope_stack@ == old(self).scope_stack@,
            match r {
                Ok(()) => vals@.len() <= i32::MAX && string_fields_encodable(vals@) && final(self).out@ == old(self).out@ + enc_array_header(vals@.len() as i32)
                    + enc_string_fields(vals@),
                Err(e) => (vals@.len() > i32::MAX || !string_fields_encodable(vals@)) && final(self).out@ == old(self).out@,
            },
    {
        if vals.len() > i32::MAX as usize {
            return Err(EncodeError::CountTooLarge);
        }
        let n = vals.len();
        let mut i: usize = 0;
        while i < n
            invariant
                i <= n,
                n == vals@.len(),
                self.wf(),
                self.out@ == old(self).out@,
                self.scope_stack@ == old(self).scope_stack@,
                forall|j: int|
                    0 <= j < i ==> match #[trigger] vals@[j] {
                        Option::None => true,
                        Some(w) => string_encodable(w@),
                    },
            decreases n - i,
        {
            match &vals[i] {
                Option::None => {},
                Some(w) => {
                    if w.units.len() as u64 > 0x3_FFFF_FFFFu64 {
                        return Err(EncodeError::StringTooLong);
                    }
                },
            }
            i = i + 1;
        }
        assert(string_fields_encodable(vals@));
        self.put_array_header(n)?;
        let ghost base = self.out@;
        let mut i: usize = 0;
        while i < n
            invariant
                i <= n,
                n == vals@.len(),
                string_fields_encodable(vals@),
                self.wf(),
                self.scope_stack@ == old(self).scope_stack@,
                self.out@ == base + enc_each(
                    vals@.take(i as int),
                    |v: Option<WideStr>| enc_string_field(crate::widestr::opt_units(v)),
                ),
            decreases n - i,
        {
            let res = self.put_string_field(&vals[i]);
            proof {
                assert(res is Ok);
            }
            i = i + 1;
            proof {
                lemma_enc_each_take_snoc(
                    vals@,
                    |v: Option<WideStr>| enc_string_field(crate::widestr::opt_units(v)),
                    i as int,
                );
            }
        }
        proof {
            assert(vals@.take(n as int) =~= vals@);
        }
        Ok(())
    }
}

/// Stitches the pieces of a finished scope back together: what start,
/// payload, and the length patch leave in the sink is exactly
/// [`enc_scope`] of the payload.
pub proof fn lemma_scope_compose(base: Seq<u8>, mark: i32, payload: Seq<u8>)
    ensures
        ({
            let whole = base + le32(crate::bytes_le::i32_bits(mark)) + le64(0) + payload;
            whole.subrange(0, base.len() as int + 4) + le64(payload.len() as u64) + whole.subrange(
                base.len() as int + 12,
                whole.len() as int,
            ) =~= base + enc_scope(mark, payload)
        }),
{
    vstd::bytes::lemma_auto_spec_u32_to_from_le_bytes();
    vstd::bytes::lemma_auto_spec_u64_to_from_le_bytes();
    let whole = base + le32(crate::bytes_le::i32_bits(mark)) + le64(0) + payload;
    assert(le32(crate::bytes_le::i32_bits(mark)).len() == 4);
    assert(le64(0u64).len() == 8);
    assert(whole.subrange(0, base.len() as int + 4) =~= base + le32(crate::bytes_le::i32_bits(mark)));
    assert(whole.subrange(base.len() as int + 12, whole.len() as int) =~= payload);
}

} // verus!
