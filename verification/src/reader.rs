//! The reader: a cursor over an in-memory byte source with a stack of
//! active scopes. Every primitive read is guarded by the innermost scope's
//! end, the empty marker is recognized by a four-byte peek, and structural
//! drift is recorded as warnings, never as errors.

use crate::bytes_le::{bits_to_i32, bits_to_i64, i32_of_bits, i64_of_bits, le32_at, le64_at,
    read_le32, read_le64};
use crate::error::{DecodeError, Warning, WarningKind};
use crate::floatbits::{Quaternion, Vector3};
use crate::marks::{EMPTY_MARK_BITS, MARK_ARRAY, MARK_DICTIONARY};
use crate::widestr::{parse_string, read_string, WideStr};
use vstd::prelude::*;

verus! {

/// An active scope: its mark and the absolute offsets of its payload.
#[derive(Debug, Clone, Copy, PartialEq, Eq, Structural)]
pub struct ScopeInfo {
    pub scope_mark: i32,
    pub start_pos: usize,
    pub end_pos: usize,
}

impl ScopeInfo {
    pub fn new(scope_mark: i32, start_pos: usize, end_pos: usize) -> (r: ScopeInfo)
        ensures
            r == (ScopeInfo { scope_mark, start_pos, end_pos }),
    {
        ScopeInfo { scope_mark, start_pos, end_pos }
    }

    /// Name this scope's mark for diagnostics.
    pub fn scope_mark_string(&self) -> (r: &'static str)
        ensures
            r@ == crate::marks::spec_scope_mark_name(self.scope_mark),
    {
        crate::marks::scope_mark_string(self.scope_mark)
    }
}

/// What a scope-guarded fixed-size read at `pos` does: with no scope open
/// it reads nothing; straddling the scope end it seeks there and keeps the
/// current value; past the stream end it is a fatal error; otherwise it
/// yields the `size` bytes' value through `value_at` at `pos`.
///
/// The result is the new value placeholder: `Ok(true, newpos)` means the
/// bytes at `pos` were consumed, `Ok(false, newpos)` that the current
/// value stays.
pub open spec fn guarded_read(
    data: Seq<u8>,
    has_scope: bool,
    top_end: int,
    pos: int,
    size: int,
) -> Result<(bool, int), DecodeError> {
    if !has_scope {
        Ok((false, pos))
    } else if pos + size > top_end {
        Ok((false, top_end))
    } else if pos + size > data.len() {
        Err(DecodeError::UnexpectedEof)
    } else {
        Ok((true, pos + size))
    }
}

/// Whether the four bytes at `pos` are the empty marker.
pub open spec fn peek_is_empty(data: Seq<u8>, pos: int) -> bool {
    pos + 4 <= data.len() && le32_at(data, pos) == EMPTY_MARK_BITS
}

/// What an optional `u32`/`f32`-bits field read yields: the empty marker
/// keeps the current value, otherwise a guarded four-byte read.
pub open spec fn get_u32_spec(
    data: Seq<u8>,
    has_scope: bool,
    top_end: int,
    pos: int,
    cur: u32,
) -> Result<(u32, int), DecodeError> {
    if peek_is_empty(data, pos) {
        Ok((cur, pos + 4))
    } else {
        match guarded_read(data, has_scope, top_end, pos, 4) {
            Ok((read, np)) => Ok(
                (
                    if read {
                        le32_at(data, pos)
                    } else {
                        cur
                    },
                    np,
                ),
            ),
            Err(e) => Err(e),
        }
    }
}

/// What an optional `i32` field read yields.
pub open spec fn get_i32_spec(
    data: Seq<u8>,
    has_scope: bool,
    top_end: int,
    pos: int,
    cur: i32,
) -> Result<(i32, int), DecodeError> {
    match get_u32_spec(data, has_scope, top_end, pos, crate::bytes_le::i32_bits(cur)) {
        Ok((v, np)) => Ok((i32_of_bits(v), np)),
        Err(e) => Err(e),
    }
}

/// What an optional boolean read yields.
pub open spec fn get_bool_spec(
    data: Seq<u8>,
    has_scope: bool,
    top_end: int,
    pos: int,
    cur: bool,
) -> Result<(bool, int), DecodeError> {
    if peek_is_empty(data, pos) {
        Ok((cur, pos + 4))
    } else {
        match guarded_read(data, has_scope, top_end, pos, 1) {
            Ok((read, np)) => Ok(
                (
                    if read {
                        data[pos] != 0
                    } else {
                        cur
                    },
                    np,
                ),
            ),
            Err(e) => Err(e),
        }
    }
}

/// What an optional `u64`/`f64`-bits field read yields.
pub open spec fn get_u64_spec(
    data: Seq<u8>,
    has_scope: bool,
    top_end: int,
    pos: int,
    cur: u64,
) -> Result<(u64, int), DecodeError> {
    if peek_is_empty(data, pos) {
        Ok((cur, pos + 4))
    } else {
        match guarded_read(data, has_scope, top_end, pos, 8) {
            Ok((read, np)) => Ok(
                (
                    if read {
                        le64_at(data, pos)
                    } else {
                        cur
                    },
                    np,
                ),
            ),
            Err(e) => Err(e),
        }
    }
}

/// What an optional `i64` field read yields.
pub open spec fn get_i64_spec(
    data: Seq<u8>,
    has_scope: bool,
    top_end: int,
    pos: int,
    cur: i64,
) -> Result<(i64, int), DecodeError> {
    match get_u64_spec(data, has_scope, top_end, pos, crate::bytes_le::i64_bits(cur)) {
        Ok((v, np)) => Ok((i64_of_bits(v), np)),
        Err(e) => Err(e),
    }
}

/// What an optional vector read yields: each component a guarded read.
pub open spec fn get_vector3_spec(
    data: Seq<u8>,
    has_scope: bool,
    top_end: int,
    pos: int,
    cur: Vector3,
) -> Result<(Vector3, int), DecodeError> {
    if peek_is_empty(data, pos) {
        Ok((cur, pos + 4))
    } else {
        match guarded_read(data, has_scope, top_end, pos, 4) {
            Err(e) => Err(e),
            Ok((rx, p1)) => {
                let x = if rx {
                    le32_at(data, pos)
                } else {
                    cur.x
                };
                match guarded_read(data, has_scope, top_end, p1, 4) {
                    Err(e) => Err(e),
                    Ok((ry, p2)) => {
                        let y = if ry {
                            le32_at(data, p1)
                        } else {
                            cur.y
                        };
                        match guarded_read(data, has_scope, top_end, p2, 4) {
                            Err(e) => Err(e),
                            Ok((rz, p3)) => {
                                let z = if rz {
                                    le32_at(data, p2)
                                } else {
                                    cur.z
                                };
                                Ok((Vector3 { x, y, z }, p3))
                            },
                        }
                    },
                }
            },
        }
    }
}

/// What an optional quaternion read yields.
pub open spec fn get_quaternion_spec(
    data: Seq<u8>,
    has_scope: bool,
    top_end: int,
    pos: int,
    cur: Quaternion,
) -> Result<(Quaternion, int), DecodeError> {
    if peek_is_empty(data, pos) {
        Ok((cur, pos + 4))
    } else {
        match guarded_read(data, has_scope, top_end, pos, 4) {
            Err(e) => Err(e),
            Ok((rx, p1)) => {
                let x = if rx {
                    le32_at(data, pos)
                } else {
                    cur.x
                };
                match guarded_read(data, has_scope, top_end, p1, 4) {
                    Err(e) => Err(e),
                    Ok((ry, p2)) => {
                        let y = if ry {
                            le32_at(data, p1)
                        } else {
                            cur.y
                        };
                        match guarded_read(data, has_scope, top_end, p2, 4) {
                            Err(e) => Err(e),
                            Ok((rz, p3)) => {
                                let z = if rz {
                                    le32_at(data, p2)
                                } else {
                                    cur.z
                                };
                                match guarded_read(data, has_scope, top_end, p3, 4) {
                                    Err(e) => Err(e),
                                    Ok((rw, p4)) => {
                                        let w = if rw {
                                            le32_at(data, p3)
                                        } else {
                                            cur.w
                                        };
                                        Ok((Quaternion { x, y, z, w }, p4))
                                    },
                                }
                            },
                        }
                    },
                }
            },
        }
    }
}

/// What a nullable string read yields: the empty marker keeps the current
/// value, otherwise a full (unguarded) string read.
pub open spec fn get_string_field_spec(data: Seq<u8>, pos: int, cur: Option<Seq<u16>>) -> Result<
    (Option<Seq<u16>>, int),
    DecodeError,
> {
    if peek_is_empty(data, pos) {
        Ok((cur, pos + 4))
    } else {
        match parse_string(data, pos) {
            Ok((units, np)) => Ok((Some(units), np)),
            Err(e) => Err(e),
        }
    }
}

/// What an array or dictionary header read at `pos` yields: on the
/// expected mark, the declared count and the position past it; on any
/// other mark, `-1` with the mark's four bytes consumed. The middle
/// component says whether the mark matched.
pub open spec fn collection_header_spec(
    data: Seq<u8>,
    has_scope: bool,
    top_end: int,
    pos: int,
    expected: i32,
) -> Result<(i32, bool, int), DecodeError> {
    match guarded_read(data, has_scope, top_end, pos, 4) {
        Err(e) => Err(e),
        Ok((r1, p1)) => {
            let mark = if r1 {
                i32_of_bits(le32_at(data, pos))
            } else {
                0
            };
            if mark == expected {
                match guarded_read(data, has_scope, top_end, p1, 4) {
                    Err(e) => Err(e),
                    Ok((r2, p2)) => Ok(
                        (
                            (if r2 {
                                i32_of_bits(le32_at(data, p1))
                            } else {
                                (-1) as i32
                            }),
                            true,
                            p2,
                        ),
                    ),
                }
            } else {
                Ok(((-1) as i32, false, p1))
            }
        },
    }
}

/// What four chained optional `f32`-bits channel reads yield: a color,
/// r,g,b,a in order.
pub open spec fn get_color_spec(
    data: Seq<u8>,
    has_scope: bool,
    top_end: int,
    pos: int,
    cur: crate::floatbits::Color,
) -> Result<(crate::floatbits::Color, int), DecodeError> {
    match get_u32_spec(data, has_scope, top_end, pos, cur.r) {
        Err(e) => Err(e),
        Ok((rr, p1)) => match get_u32_spec(data, has_scope, top_end, p1, cur.g) {
            Err(e) => Err(e),
            Ok((gg, p2)) => match get_u32_spec(data, has_scope, top_end, p2, cur.b) {
                Err(e) => Err(e),
                Ok((bb, p3)) => match get_u32_spec(data, has_scope, top_end, p3, cur.a) {
                    Err(e) => Err(e),
                    Ok((aa, p4)) => Ok(
                        (crate::floatbits::Color { r: rr, g: gg, b: bb, a: aa }, p4),
                    ),
                },
            },
        },
    }
}

/// What `n` consecutive raw reference reads yield: each a scope-guarded
/// four-byte read, a skipped one falling back to zero.
pub open spec fn references_spec(
    data: Seq<u8>,
    has_scope: bool,
    top_end: int,
    pos: int,
    n: nat,
) -> Result<(Seq<u32>, int), DecodeError>
    decreases n,
{
    if n == 0 {
        Ok((Seq::empty(), pos))
    } else {
        match guarded_read(data, has_scope, top_end, pos, 4) {
            Err(e) => Err(e),
            Ok((rd, p1)) => {
                let v = if rd {
                    le32_at(data, pos)
                } else {
                    0u32
                };
                match references_spec(data, has_scope, top_end, p1, (n - 1) as nat) {
                    Err(e) => Err(e),
                    Ok((rest, pe)) => Ok((seq![v] + rest, pe)),
                }
            },
        }
    }
}

/// What `n` consecutive optional `i32` element reads yield, each falling
/// back to zero where the guard skips it.
pub open spec fn i32_elements_spec(
    data: Seq<u8>,
    has_scope: bool,
    top_end: int,
    pos: int,
    n: nat,
) -> Result<(Seq<i32>, int), DecodeError>
    decreases n,
{
    if n == 0 {
        Ok((Seq::empty(), pos))
    } else {
        match get_i32_spec(data, has_scope, top_end, pos, 0) {
            Err(e) => Err(e),
            Ok((v, p1)) => match i32_elements_spec(data, has_scope, top_end, p1, (n - 1) as nat) {
                Err(e) => Err(e),
                Ok((rest, pe)) => Ok((seq![v] + rest, pe)),
            },
        }
    }
}

/// What `n` consecutive raw byte element reads yield.
pub open spec fn u8_elements_spec(
    data: Seq<u8>,
    has_scope: bool,
    top_end: int,
    pos: int,
    n: nat,
) -> Result<(Seq<u8>, int), DecodeError>
    decreases n,
{
    if n == 0 {
        Ok((Seq::empty(), pos))
    } else {
        match guarded_read(data, has_scope, top_end, pos, 1) {
            Err(e) => Err(e),
            Ok((rd, p1)) => {
                let v = if rd {
                    data[pos]
                } else {
                    0u8
                };
                match u8_elements_spec(data, has_scope, top_end, p1, (n - 1) as nat) {
                    Err(e) => Err(e),
                    Ok((rest, pe)) => Ok((seq![v] + rest, pe)),
                }
            },
        }
    }
}

/// What `n` consecutive optional `f64`-bit element reads yield.
pub open spec fn f64_elements_spec(
    data: Seq<u8>,
    has_scope: bool,
    top_end: int,
    pos: int,
    n: nat,
) -> Result<(Seq<u64>, int), DecodeError>
    decreases n,
{
    if n == 0 {
        Ok((Seq::empty(), pos))
    } else {
        match get_u64_spec(data, has_scope, top_end, pos, 0) {
            Err(e) => Err(e),
            Ok((v, p1)) => match f64_elements_spec(data, has_scope, top_end, p1, (n - 1) as nat) {
                Err(e) => Err(e),
                Ok((rest, pe)) => Ok((seq![v] + rest, pe)),
            },
        }
    }
}

/// The UTF-16 units each element of a nullable-string sequence holds.
pub open spec fn opt_units_seq(s: Seq<Option<WideStr>>) -> Seq<Option<Seq<u16>>> {
    s.map_values(|ow: Option<WideStr>| crate::widestr::opt_units(ow))
}

/// What `n` consecutive nullable string element reads yield.
pub open spec fn string_elements_spec(data: Seq<u8>, pos: int, n: nat) -> Result<
    (Seq<Option<Seq<u16>>>, int),
    DecodeError,
>
    decreases n,
{
    if n == 0 {
        Ok((Seq::empty(), pos))
    } else {
        match get_string_field_spec(data, pos, Option::None) {
            Err(e) => Err(e),
            Ok((v, p1)) => match string_elements_spec(data, p1, (n - 1) as nat) {
                Err(e) => Err(e),
                Ok((rest, pe)) => Ok((seq![v] + rest, pe)),
            },
        }
    }
}

/// What reading a scope header at `pos` yields: the mark, the payload
/// length, and the payload's start offset.
pub open spec fn scope_header(data: Seq<u8>, pos: int) -> Result<(i32, int, int), DecodeError> {
    if pos + 12 > data.len() {
        Err(DecodeError::UnexpectedEof)
    } else {
        let mark = i32_of_bits(le32_at(data, pos));
        let len = i64_of_bits(le64_at(data, pos + 4));
        if len < 0 {
            Err(DecodeError::NegativeScopeLength)
        } else if pos + 12 + len > usize::MAX {
            Err(DecodeError::ScopeEndOverflow)
        } else {
            Ok((mark, len as int, pos + 12))
        }
    }
}

/// Marks of a scope stack, outermost first.
pub open spec fn scope_marks(scopes: Seq<ScopeInfo>) -> Seq<i32> {
    Seq::new(scopes.len(), |i: int| scopes[i].scope_mark)
}

/// The reader over an in-memory source.
#[derive(Debug)]
pub struct Deserializer<'a> {
    pub data: &'a Vec<u8>,
    pub pos: usize,
    pub scopes: Vec<ScopeInfo>,
    pub warnings: Vec<Warning>,
}

impl<'a> Deserializer<'a> {
    /// End of the innermost scope.
    pub open spec fn top_end(self) -> int {
        self.scopes@.last().end_pos as int
    }

    pub open spec fn has_scope(self) -> bool {
        self.scopes@.len() > 0
    }

    /// The parts a read never touches: the source, the scope stack, the
    /// warnings.
    pub open spec fn keeps(self, o: Self) -> bool {
        o.data == self.data && o.scopes@ == self.scopes@ && o.warnings@ == self.warnings@
    }

    /// The parts no operation ever touches: the source; and warnings are
    /// only added, never dropped.
    pub open spec fn extends(self, o: Self) -> bool {
        o.data == self.data && self.warnings@.is_prefix_of(o.warnings@)
    }

    pub fn new(data: &'a Vec<u8>) -> (r: Deserializer<'a>)
        ensures
            r.data == data,
            r.pos == 0,
            r.scopes@ =~= Seq::<ScopeInfo>::empty(),
            r.warnings@ =~= Seq::<Warning>::empty(),
    {
        Deserializer { data, pos: 0, scopes: Vec::new(), warnings: Vec::new() }
    }

    /// Record a recoverable irregularity together with the current
    /// position and the marks of the open scopes.
    fn warn(&mut self, kind: WarningKind, expected: i32, found: i32)
        ensures
            final(self).data == old(self).data,
            final(self).pos == old(self).pos,
            final(self).scopes@ == old(self).scopes@,
            final(self).warnings@.len() == old(self).warnings@.len() + 1,
            final(self).warnings@.drop_last() == old(self).warnings@,
            final(self).warnings@.last().kind == kind,
            final(self).warnings@.last().expected == expected,
            final(self).warnings@.last().found == found,
            final(self).warnings@.last().pos == old(self).pos,
            final(self).warnings@.last().scope_stack@ == scope_marks(old(self).scopes@),
    {
        let mut stack: Vec<i32> = Vec::new();
        let n = self.scopes.len();
        let mut i: usize = 0;
        while i < n
            invariant
                i <= n,
                n == self.scopes@.len(),
                stack@ =~= scope_marks(self.scopes@).take(i as int),
            decreases n - i,
        {
            stack.push(self.scopes[i].scope_mark);
            i = i + 1;
            proof {
                assert(stack@ =~= scope_marks(self.scopes@).take(i as int));
            }
        }
        proof {
            assert(stack@ =~= scope_marks(self.scopes@));
        }
        let w = Warning { kind, expected, found, pos: self.pos, scope_stack: stack };
        self.warnings.push(w);
    }

    /// Record a recoverable irregularity seen by a caller walking the
    /// stream.
    pub fn record_warning(&mut self, kind: WarningKind, expected: i32, found: i32)
        ensures
            final(self).data == old(self).data,
            final(self).pos == old(self).pos,
            final(self).scopes@ == old(self).scopes@,
            old(self).extends(*final(self)),
            final(self).warnings@.len() == old(self).warnings@.len() + 1,
            final(self).warnings@.drop_last() == old(self).warnings@,
            final(self).warnings@.last().kind == kind,
            final(self).warnings@.last().expected == expected,
            final(self).warnings@.last().found == found,
    {
        self.warn(kind, expected, found);
        proof {
            assert(old(self).warnings@.is_prefix_of(final(self).warnings@));
        }
    }

    /// Peek four bytes: consume them if they are the empty marker, stand
    /// still otherwise. A short read near the stream end also means "not
    /// the marker" and stands still.
    pub fn empty_marker(&mut self) -> (r: bool)
        ensures
            old(self).keeps(*final(self)),
            r == peek_is_empty(old(self).data@, old(self).pos as int),
            final(self).pos as int == if r {
                old(self).pos + 4
            } else {
                old(self).pos as int
            },
    {
        if self.pos >= self.data.len() || self.data.len() - self.pos < 4 {
            return false;
        }
        let n = read_le32(self.data, self.pos);
        if n == EMPTY_MARK_BITS {
            self.pos = self.pos + 4;
            true
        } else {
            false
        }
    }

    /// Whether the cursor stands exactly at the innermost scope's end; with
    /// no scope open, vacuously so.
    pub fn is_empty_scope(&self) -> (r: bool)
        ensures
            r == if self.has_scope() {
                self.pos == self.top_end()
            } else {
                true
            },
    {
        if self.scopes.len() == 0 {
            true
        } else {
            self.pos == self.scopes[self.scopes.len() - 1].end_pos
        }
    }

    /// A scope-guarded four-byte read: the new value, or `cur` where the
    /// guard skips the read.
    pub fn read_set_u32(&mut self, cur: u32) -> (r: Result<u32, DecodeError>)
        ensures
            old(self).keeps(*final(self)),
            match guarded_read(
                old(self).data@,
                old(self).has_scope(),
                old(self).top_end(),
                old(self).pos as int,
                4,
            ) {
                Ok((read, newpos)) => r matches Ok(v) && final(self).pos == newpos && v == if read {
                    le32_at(old(self).data@, old(self).pos as int)
                } else {
                    cur
                },
                Err(e) => r matches Err(e2) && e2 == e && final(self).pos == old(self).pos,
            },
    {
        if self.scopes.len() == 0 {
            return Ok(cur);
        }
        let end = self.scopes[self.scopes.len() - 1].end_pos;
        if self.pos >= end || end - self.pos < 4 {
            self.pos = end;
            return Ok(cur);
        }
        if self.pos + 4 > self.data.len() {
            return Err(DecodeError::UnexpectedEof);
        }
        let v = read_le32(self.data, self.pos);
        self.pos = self.pos + 4;
        Ok(v)
    }

    /// A scope-guarded `i32` read.
    pub fn read_set_i32(&mut self, cur: i32) -> (r: Result<i32, DecodeError>)
        ensures
            old(self).keeps(*final(self)),
            match guarded_read(
                old(self).data@,
                old(self).has_scope(),
                old(self).top_end(),
                old(self).pos as int,
                4,
            ) {
                Ok((read, newpos)) => r matches Ok(v) && final(self).pos == newpos && v == if read {
                    i32_of_bits(le32_at(old(self).data@, old(self).pos as int))
                } else {
                    cur
                },
                Err(e) => r matches Err(e2) && e2 == e && final(self).pos == old(self).pos,
            },
    {
        let bits = self.read_set_u32(crate::bytes_le::i32_to_bits(cur))?;
        let ghost g = guarded_read(
            old(self).data@,
            old(self).has_scope(),
            old(self).top_end(),
            old(self).pos as int,
            4,
        );
        proof {
            if g matches Ok((read, _)) && !read {
                crate::bytes_le::lemma_i32_bits_roundtrip(cur);
            }
        }
        Ok(bits_to_i32(bits))
    }

    /// A scope-guarded single-byte read.
    pub fn read_set_u8(&mut self, cur: u8) -> (r: Result<u8, DecodeError>)
        ensures
            old(self).keeps(*final(self)),
            match guarded_read(
                old(self).data@,
                old(self).has_scope(),
                old(self).top_end(),
                old(self).pos as int,
                1,
            ) {
                Ok((read, newpos)) => r matches Ok(v) && final(self).pos == newpos && v == if read {
                    old(self).data@[old(self).pos as int]
                } else {
                    cur
                },
                Err(e) => r matches Err(e2) && e2 == e && final(self).pos == old(self).pos,
            },
    {
        if self.scopes.len() == 0 {
            return Ok(cur);
        }
        let end = self.scopes[self.scopes.len() - 1].end_pos;
        if self.pos >= end {
            self.pos = end;
            return Ok(cur);
        }
        if self.pos >= self.data.len() {
            return Err(DecodeError::UnexpectedEof);
        }
        let v = self.data[self.pos];
        self.pos = self.pos + 1;
        Ok(v)
    }

    /// A scope-guarded eight-byte read.
    pub fn read_set_u64(&mut self, cur: u64) -> (r: Result<u64, DecodeError>)
        ensures
            old(self).keeps(*final(self)),
            match guarded_read(
                old(self).data@,
                old(self).has_scope(),
                old(self).top_end(),
                old(self).pos as int,
                8,
            ) {
                Ok((read, newpos)) => r matches Ok(v) && final(self).pos == newpos && v == if read {
                    le64_at(old(self).data@, old(self).pos as int)
                } else {
                    cur
                },
                Err(e) => r matches Err(e2) && e2 == e && final(self).pos == old(self).pos,
            },
    {
        if self.scopes.len() == 0 {
            return Ok(cur);
        }
        let end = self.scopes[self.scopes.len() - 1].end_pos;
        if self.pos >= end || end - self.pos < 8 {
            self.pos = end;
            return Ok(cur);
        }
        if self.pos + 8 > self.data.len() {
            return Err(DecodeError::UnexpectedEof);
        }
        let v = read_le64(self.data, self.pos);
        self.pos = self.pos + 8;
        Ok(v)
    }

    /// A scope-guarded `i64` read.
    pub fn read_set_i64(&mut self, cur: i64) -> (r: Result<i64, DecodeError>)
        ensures
            old(self).keeps(*final(self)),
            match guarded_read(
                old(self).data@,
                old(self).has_scope(),
                old(self).top_end(),
                old(self).pos as int,
                8,
            ) {
                Ok((read, newpos)) => r matches Ok(v) && final(self).pos == newpos && v == if read {
                    i64_of_bits(le64_at(old(self).data@, old(self).pos as int))
                } else {
                    cur
                },
                Err(e) => r matches Err(e2) && e2 == e && final(self).pos == old(self).pos,
            },
    {
        let bits = self.read_set_u64(crate::bytes_le::i64_to_bits(cur))?;
        let ghost g = guarded_read(
            old(self).data@,
            old(self).has_scope(),
            old(self).top_end(),
            old(self).pos as int,
            8,
        );
        proof {
            if g matches Ok((read, _)) && !read {
                crate::bytes_le::lemma_i64_bits_roundtrip(cur);
            }
        }
        Ok(bits_to_i64(bits))
    }

    /// An optional `u32` field: the empty marker keeps the current value.
    pub fn get_u32(&mut self, cur: u32) -> (r: Result<u32, DecodeError>)
        ensures
            old(self).keeps(*final(self)),
            match get_u32_spec(
                old(self).data@,
                old(self).has_scope(),
                old(self).top_end(),
                old(self).pos as int,
                cur,
            ) {
                Ok((v, np)) => r matches Ok(v2) && v2 == v && final(self).pos == np,
                Err(e) => r matches Err(e2) && e2 == e && final(self).pos >= old(self).pos,
            },
    {
        if self.empty_marker() {
            return Ok(cur);
        }
        self.read_set_u32(cur)
    }

    /// An optional `i32` field: the empty marker keeps the current value.
    pub fn get_i32(&mut self, cur: i32) -> (r: Result<i32, DecodeError>)
        ensures
            old(self).keeps(*final(self)),
            match get_i32_spec(
                old(self).data@,
                old(self).has_scope(),
                old(self).top_end(),
                old(self).pos as int,
                cur,
            ) {
                Ok((v, np)) => r matches Ok(v2) && v2 == v && final(self).pos == np,
                Err(e) => r matches Err(e2) && e2 == e && final(self).pos >= old(self).pos,
            },
    {
        proof {
            crate::bytes_le::lemma_i32_bits_roundtrip(cur);
        }
        if self.empty_marker() {
            return Ok(cur);
        }
        self.read_set_i32(cur)
    }

    /// An optional boolean: one byte, nonzero meaning true.
    pub fn get_bool(&mut self, cur: bool) -> (r: Result<bool, DecodeError>)
        ensures
            old(self).keeps(*final(self)),
            match get_bool_spec(
                old(self).data@,
                old(self).has_scope(),
                old(self).top_end(),
                old(self).pos as int,
                cur,
            ) {
                Ok((v, np)) => r matches Ok(v2) && v2 == v && final(self).pos == np,
                Err(e) => r matches Err(e2) && e2 == e && final(self).pos >= old(self).pos,
            },
    {
        if self.empty_marker() {
            return Ok(cur);
        }
        let b = self.read_set_u8(if cur {
            1
        } else {
            0
        })?;
        Ok(b != 0)
    }

    /// An optional `i64` field: the empty marker keeps the current value.
    pub fn get_i64(&mut self, cur: i64) -> (r: Result<i64, DecodeError>)
        ensures
            old(self).keeps(*final(self)),
            match get_i64_spec(
                old(self).data@,
                old(self).has_scope(),
                old(self).top_end(),
                old(self).pos as int,
                cur,
            ) {
                Ok((v, np)) => r matches Ok(v2) && v2 == v && final(self).pos == np,
                Err(e) => r matches Err(e2) && e2 == e && final(self).pos >= old(self).pos,
            },
    {
        proof {
            crate::bytes_le::lemma_i64_bits_roundtrip(cur);
        }
        if self.empty_marker() {
            return Ok(cur);
        }
        self.read_set_i64(cur)
    }

    /// An optional `f32` field, carried as its bit pattern.
    pub fn get_f32(&mut self, cur: u32) -> (r: Result<u32, DecodeError>)
        ensures
            old(self).keeps(*final(self)),
            match get_u32_spec(
                old(self).data@,
                old(self).has_scope(),
                old(self).top_end(),
                old(self).pos as int,
                cur,
            ) {
                Ok((v, np)) => r matches Ok(v2) && v2 == v && final(self).pos == np,
                Err(e) => r matches Err(e2) && e2 == e && final(self).pos >= old(self).pos,
            },
    {
        self.get_u32(cur)
    }

    /// An optional `f64` field, carried as its bit pattern.
    pub fn get_f64(&mut self, cur: u64) -> (r: Result<u64, DecodeError>)
        ensures
            old(self).keeps(*final(self)),
            match get_u64_spec(
                old(self).data@,
                old(self).has_scope(),
                old(self).top_end(),
                old(self).pos as int,
                cur,
            ) {
                Ok((v, np)) => r matches Ok(v2) && v2 == v && final(self).pos == np,
                Err(e) => r matches Err(e2) && e2 == e && final(self).pos >= old(self).pos,
            },
    {
        if self.empty_marker() {
            return Ok(cur);
        }
        self.read_set_u64(cur)
    }

    /// An optional datetime: its ticks as an optional `i64`.
    pub fn get_datetime(&mut self, cur: i64) -> (r: Result<i64, DecodeError>)
        ensures
            old(self).keeps(*final(self)),
            match get_i64_spec(
                old(self).data@,
                old(self).has_scope(),
                old(self).top_end(),
                old(self).pos as int,
                cur,
            ) {
                Ok((v, np)) => r matches Ok(v2) && v2 == v && final(self).pos == np,
                Err(e) => r matches Err(e2) && e2 == e && final(self).pos >= old(self).pos,
            },
    {
        self.get_i64(cur)
    }

    /// A reference: a raw `u32`, with no empty-marker recognition.
    pub fn get_reference(&mut self, cur: u32) -> (r: Result<u32, DecodeError>)
        ensures
            old(self).keeps(*final(self)),
            match guarded_read(
                old(self).data@,
                old(self).has_scope(),
                old(self).top_end(),
                old(self).pos as int,
                4,
            ) {
                Ok((read, newpos)) => r matches Ok(v) && final(self).pos == newpos && v == if read {
                    le32_at(old(self).data@, old(self).pos as int)
                } else {
                    cur
                },
                Err(e) => r matches Err(e2) && e2 == e && final(self).pos == old(self).pos,
            },
    {
        self.read_set_u32(cur)
    }

    /// An optional vector: the empty marker keeps the current value,
    /// otherwise three guarded component reads.
    pub fn get_vector3(&mut self, cur: Vector3) -> (r: Result<Vector3, DecodeError>)
        ensures
            old(self).keeps(*final(self)),
            match get_vector3_spec(
                old(self).data@,
                old(self).has_scope(),
                old(self).top_end(),
                old(self).pos as int,
                cur,
            ) {
                Ok((v, np)) => r matches Ok(v2) && v2 == v && final(self).pos == np,
                Err(e) => r matches Err(e2) && e2 == e && final(self).pos >= old(self).pos,
            },
    {
        if self.empty_marker() {
            return Ok(cur);
        }
        let x = self.read_set_u32(cur.x)?;
        let y = self.read_set_u32(cur.y)?;
        let z = self.read_set_u32(cur.z)?;
        Ok(Vector3 { x, y, z })
    }

    /// An optional quaternion, by the same rule.
    pub fn get_quaternion(&mut self, cur: Quaternion) -> (r: Result<Quaternion, DecodeError>)
        ensures
            old(self).keeps(*final(self)),
            match get_quaternion_spec(
                old(self).data@,
                old(self).has_scope(),
                old(self).top_end(),
                old(self).pos as int,
                cur,
            ) {
                Ok((v, np)) => r matches Ok(v2) && v2 == v && final(self).pos == np,
                Err(e) => r matches Err(e2) && e2 == e && final(self).pos >= old(self).pos,
            },
    {
        if self.empty_marker() {
            return Ok(cur);
        }
        let x = self.read_set_u32(cur.x)?;
        let y = self.read_set_u32(cur.y)?;
        let z = self.read_set_u32(cur.z)?;
        let w = self.read_set_u32(cur.w)?;
        Ok(Quaternion { x, y, z, w })
    }

    /// A nullable string: the empty marker keeps the current value.
    pub fn get_string_field(&mut self, cur: Option<WideStr>) -> (r: Result<
        Option<WideStr>,
        DecodeError,
    >)
        ensures
            old(self).keeps(*final(self)),
            final(self).pos <= final(self).data.len() || final(self).pos == old(self).pos,
            match get_string_field_spec(
                old(self).data@,
                old(self).pos as int,
                crate::widestr::opt_units(cur),
            ) {
                Ok((v, np)) => r matches Ok(v2) && crate::widestr::opt_units(v2) == v && final(self).pos == np && (v2 matches Some(w) ==> (w.wf() || (cur matches Some(cw) && cw == w))),
                Err(e) => r matches Err(e2) && e2 == e && final(self).pos >= old(self).pos,
            },
    {
        if self.empty_marker() {
            return Ok(cur);
        }
        let s = self.read_set_string()?;
        Ok(Some(s))
    }

    /// Enter a scope of unknown mark: read the mark and length, record the
    /// scope, and hand the mark back.
    pub fn enter_scope(&mut self) -> (r: Result<i32, DecodeError>)
        ensures
            final(self).data == old(self).data,
            final(self).warnings@ == old(self).warnings@,
            match scope_header(old(self).data@, old(self).pos as int) {
                Ok((mark, len, np)) => r matches Ok(m) && m == mark && final(self).pos == np
                    && final(self).scopes@ == old(self).scopes@.push(
                    ScopeInfo {
                        scope_mark: mark,
                        start_pos: np as usize,
                        end_pos: (np + len) as usize,
                    },
                ),
                Err(e) => r matches Err(e2) && e2 == e && final(self).pos == old(self).pos
                    && final(self).scopes@ == old(self).scopes@,
            },
    {
        if self.pos >= self.data.len() || self.data.len() - self.pos < 12 {
            return Err(DecodeError::UnexpectedEof);
        }
        let mark = bits_to_i32(read_le32(self.data, self.pos));
        let len_bits = read_le64(self.data, self.pos + 4);
        let len = bits_to_i64(len_bits);
        if len < 0 {
            return Err(DecodeError::NegativeScopeLength);
        }
        let start = self.pos + 12;
        if (len as u64) > ((usize::MAX - start) as u64) {
            return Err(DecodeError::ScopeEndOverflow);
        }
        let end = start + (len as usize);
        self.scopes.push(ScopeInfo { scope_mark: mark, start_pos: start, end_pos: end });
        self.pos = start;
        Ok(mark)
    }

    /// Enter a scope whose mark is known: a different mark is recorded as
    /// a warning, and the scope is entered either way.
    pub fn enter_scope_expect(&mut self, expected: i32) -> (r: Result<(), DecodeError>)
        ensures
            final(self).data == old(self).data,
            old(self).extends(*final(self)),
            match scope_header(old(self).data@, old(self).pos as int) {
                Ok((mark, len, np)) => r matches Ok(u) && final(self).pos == np && final(self).scopes@ == old(self).scopes@.push(
                    ScopeInfo {
                        scope_mark: expected,
                        start_pos: np as usize,
                        end_pos: (np + len) as usize,
                    },
                ) && (mark == expected ==> final(self).warnings@ == old(self).warnings@) && (mark
                    != expected ==> final(self).warnings@.len() == old(self).warnings@.len() + 1
                    && final(self).warnings@.last().kind == WarningKind::UnexpectedMark),
                Err(e) => r matches Err(e2) && e2 == e && final(self).pos == old(self).pos
                    && final(self).scopes@ == old(self).scopes@ && final(self).warnings@ == old(self).warnings@,
            },
    {
        if self.pos >= self.data.len() || self.data.len() - self.pos < 12 {
            return Err(DecodeError::UnexpectedEof);
        }
        let mark = bits_to_i32(read_le32(self.data, self.pos));
        let len = bits_to_i64(read_le64(self.data, self.pos + 4));
        if len < 0 {
            return Err(DecodeError::NegativeScopeLength);
        }
        let start = self.pos + 12;
        if (len as u64) > ((usize::MAX - start) as u64) {
            return Err(DecodeError::ScopeEndOverflow);
        }
        if mark != expected {
            self.warn(WarningKind::UnexpectedMark, expected, mark);
        }
        let end = start + (len as usize);
        self.scopes.push(ScopeInfo { scope_mark: expected, start_pos: start, end_pos: end });
        self.pos = start;
        proof {
            assert(old(self).warnings@.is_prefix_of(final(self).warnings@));
        }
        Ok(())
    }

    /// Leave the innermost scope. At its end: a plain exit. Short of it
    /// (understep) or past it (overstep): record a warning and put the
    /// cursor exactly at the end.
    pub fn exit_scope(&mut self)
        requires
            old(self).has_scope(),
        ensures
            final(self).data == old(self).data,
            old(self).extends(*final(self)),
            final(self).scopes@ == old(self).scopes@.drop_last(),
            final(self).pos == old(self).scopes@.last().end_pos,
            old(self).pos == old(self).scopes@.last().end_pos ==> final(self).warnings@ == old(self).warnings@,
            old(self).pos != old(self).scopes@.last().end_pos ==> final(self).warnings@.len()
                == old(self).warnings@.len() + 1 && final(self).warnings@.last().kind == (
            if old(self).pos < old(self).scopes@.last().end_pos {
                WarningKind::ScopeUnderstep
            } else {
                WarningKind::ScopeOverstep
            }) && final(self).warnings@.last().scope_stack@ == scope_marks(
                old(self).scopes@.drop_last(),
            ),
    {
        let top = self.scopes.pop().unwrap();
        if self.pos < top.end_pos {
            self.warn(WarningKind::ScopeUnderstep, top.scope_mark, top.scope_mark);
            self.pos = top.end_pos;
        } else if self.pos > top.end_pos {
            self.warn(WarningKind::ScopeOverstep, top.scope_mark, top.scope_mark);
            self.pos = top.end_pos;
        }
        proof {
            assert(old(self).warnings@.is_prefix_of(final(self).warnings@));
        }
    }

    /// The bytes from the cursor to the innermost scope's end, taken
    /// verbatim: an unknown component's opaque payload.
    pub fn read_raw_remainder(&mut self) -> (r: Result<Vec<u8>, DecodeError>)
        ensures
            old(self).keeps(*final(self)),
            match r {
                Ok(bytes) => {
                    &&& (!old(self).has_scope() || old(self).pos >= old(self).top_end())
                        ==> bytes@ =~= Seq::<u8>::empty() && final(self).pos == old(self).pos
                    &&& (old(self).has_scope() && old(self).pos < old(self).top_end()) ==> (
                    old(self).top_end() <= old(self).data@.len() && bytes@ == old(self).data@.subrange(old(self).pos as int, old(self).top_end()) && final(self).pos
                        == old(self).top_end())
                },
                Err(e) => e == DecodeError::UnexpectedEof && old(self).has_scope() && old(self).top_end() > old(self).data@.len() && old(self).pos < old(self).top_end()
                    && final(self).pos == old(self).pos,
            },
    {
        if self.scopes.len() == 0 {
            return Ok(Vec::new());
        }
        let end = self.scopes[self.scopes.len() - 1].end_pos;
        if self.pos >= end {
            return Ok(Vec::new());
        }
        if end > self.data.len() {
            return Err(DecodeError::UnexpectedEof);
        }
        let mut bytes: Vec<u8> = Vec::new();
        let mut i: usize = self.pos;
        while i < end
            invariant
                old(self).pos <= i <= end,
                end <= self.data@.len(),
                self == old(self),
                bytes@ =~= self.data@.subrange(old(self).pos as int, i as int),
            decreases end - i,
        {
            bytes.push(self.data[i]);
            i = i + 1;
            proof {
                assert(bytes@ =~= self.data@.subrange(old(self).pos as int, i as int));
            }
        }
        self.pos = end;
        Ok(bytes)
    }

    /// The header of an array field: on the array mark, the declared
    /// count; on any other mark, a warning and a negative count.
    pub fn read_array_start(&mut self) -> (r: Result<i32, DecodeError>)
        ensures
            final(self).data == old(self).data,
            final(self).scopes@ == old(self).scopes@,
            old(self).extends(*final(self)),
            match collection_header_spec(
                old(self).data@,
                old(self).has_scope(),
                old(self).top_end(),
                old(self).pos as int,
                MARK_ARRAY,
            ) {
                Ok((len, matched, np)) => r matches Ok(l) && l == len && final(self).pos == np
                    && (matched ==> final(self).warnings@ == old(self).warnings@)
                    && (!matched ==> final(self).warnings@.len() == old(self).warnings@.len() + 1
                    && final(self).warnings@.last().kind == WarningKind::MissingArrayMark),
                Err(e) => r matches Err(e2) && e2 == e,
            },
    {
        let mark = self.read_set_i32(0)?;
        if mark == MARK_ARRAY {
            let len = self.read_set_i32(-1)?;
            Ok(len)
        } else {
            self.warn(WarningKind::MissingArrayMark, MARK_ARRAY, mark);
            Ok(-1)
        }
    }

    /// The header of a dictionary field, by the same rule.
    pub fn read_dictionary_start(&mut self) -> (r: Result<i32, DecodeError>)
        ensures
            final(self).data == old(self).data,
            final(self).scopes@ == old(self).scopes@,
            old(self).extends(*final(self)),
            match collection_header_spec(
                old(self).data@,
                old(self).has_scope(),
                old(self).top_end(),
                old(self).pos as int,
                MARK_DICTIONARY,
            ) {
                Ok((len, matched, np)) => r matches Ok(l) && l == len && final(self).pos == np
                    && (matched ==> final(self).warnings@ == old(self).warnings@)
                    && (!matched ==> final(self).warnings@.len() == old(self).warnings@.len() + 1
                    && final(self).warnings@.last().kind == WarningKind::MissingDictionaryMark),
                Err(e) => r matches Err(e2) && e2 == e,
            },
    {
        let mark = self.read_set_i32(0)?;
        if mark == MARK_DICTIONARY {
            let len = self.read_set_i32(-1)?;
            Ok(len)
        } else {
            self.warn(WarningKind::MissingDictionaryMark, MARK_DICTIONARY, mark);
            Ok(-1)
        }
    }

    /// A color: four optional `f32` channels, r,g,b,a.
    pub fn get_color(&mut self, cur: crate::floatbits::Color) -> (r: Result<
        crate::floatbits::Color,
        DecodeError,
    >)
        ensures
            old(self).keeps(*final(self)),
            match get_color_spec(
                old(self).data@,
                old(self).has_scope(),
                old(self).top_end(),
                old(self).pos as int,
                cur,
            ) {
                Ok((c, np)) => r matches Ok(c2) && c2 == c && final(self).pos == np,
                Err(e) => r matches Err(e2) && e2 == e,
            },
    {
        let mut c = cur;
        c.r = self.get_f32(c.r)?;
        c.g = self.get_f32(c.g)?;
        c.b = self.get_f32(c.b)?;
        c.a = self.get_f32(c.a)?;
        Ok(c)
    }

    /// An array of `i32` fields: header, then one element per declared
    /// count; a negative or missing count yields no elements.
    pub fn read_i32_array(&mut self) -> (r: Result<Vec<i32>, DecodeError>)
        ensures
            final(self).data == old(self).data,
            final(self).scopes@ == old(self).scopes@,
            old(self).extends(*final(self)),
            match collection_header_spec(
                old(self).data@,
                old(self).has_scope(),
                old(self).top_end(),
                old(self).pos as int,
                MARK_ARRAY,
            ) {
                Err(e) => r matches Err(e2) && e2 == e,
                Ok((len, _, p1)) => {
                    if len <= 0 {
                        r matches Ok(v) && v@ =~= Seq::<i32>::empty() && final(self).pos == p1
                    } else {
                        match i32_elements_spec(
                            old(self).data@,
                            old(self).has_scope(),
                            old(self).top_end(),
                            p1,
                            len as nat,
                        ) {
                            Err(e) => r matches Err(e2) && e2 == e,
                            Ok((vals, pe)) => r matches Ok(v) && v@ == vals && final(self).pos
                                == pe,
                        }
                    }
                },
            },
    {
        let len = self.read_array_start()?;
        let mut vals: Vec<i32> = Vec::new();
        if len <= 0 {
            return Ok(vals);
        }
        let ghost base_pos = self.pos as int;
        let n = len as usize;
        let mut i: usize = 0;
        while i < n
            invariant
                i <= n,
                0 < len,
                n == len as usize,
                self.data == old(self).data,
                self.scopes@ == old(self).scopes@,
                old(self).warnings@.is_prefix_of(self.warnings@),
                vals@.len() == i,
                collection_header_spec(
                    old(self).data@,
                    old(self).has_scope(),
                    old(self).top_end(),
                    old(self).pos as int,
                    MARK_ARRAY,
                ) matches Ok((len2, m2, p12)) && len2 == len && p12 == base_pos,
                match i32_elements_spec(
                    self.data@,
                    self.has_scope(),
                    self.top_end(),
                    self.pos as int,
                    (n - i) as nat,
                ) {
                    Err(e) => i32_elements_spec(
                        self.data@,
                        self.has_scope(),
                        self.top_end(),
                        base_pos,
                        n as nat,
                    ) == Err::<(Seq<i32>, int), DecodeError>(e),
                    Ok((rest, pe)) => i32_elements_spec(
                        self.data@,
                        self.has_scope(),
                        self.top_end(),
                        base_pos,
                        n as nat,
                    ) == Ok::<(Seq<i32>, int), DecodeError>((vals@ + rest, pe)),
                },
            decreases n - i,
        {
            let ghost old_vals = vals@;
            let ghost spec_rem = i32_elements_spec(
                self.data@,
                self.has_scope(),
                self.top_end(),
                self.pos as int,
                (n - i) as nat,
            );
            let v = self.get_i32(0)?;
            vals.push(v);
            i = i + 1;
            proof {
                let s_next = i32_elements_spec(
                    self.data@,
                    self.has_scope(),
                    self.top_end(),
                    self.pos as int,
                    (n - i) as nat,
                );
                match s_next {
                    Ok((rest2, pe)) => {
                        assert(spec_rem == Ok::<(Seq<i32>, int), DecodeError>(
                            (seq![v] + rest2, pe),
                        ));
                        assert(old_vals + (seq![v] + rest2) =~= vals@ + rest2);
                    },
                    Err(e) => {
                        assert(spec_rem == Err::<(Seq<i32>, int), DecodeError>(e));
                    },
                }
            }
        }
        proof {
            assert(vals@ + Seq::<i32>::empty() =~= vals@);
        }
        Ok(vals)
    }

    /// An array of raw bytes, by the same rule.
    pub fn read_u8_array(&mut self) -> (r: Result<Vec<u8>, DecodeError>)
        ensures
            final(self).data == old(self).data,
            final(self).scopes@ == old(self).scopes@,
            old(self).extends(*final(self)),
            match collection_header_spec(
                old(self).data@,
                old(self).has_scope(),
                old(self).top_end(),
                old(self).pos as int,
                MARK_ARRAY,
            ) {
                Err(e) => r matches Err(e2) && e2 == e,
                Ok((len, _, p1)) => {
                    if len <= 0 {
                        r matches Ok(v) && v@ =~= Seq::<u8>::empty() && final(self).pos == p1
                    } else {
                        match u8_elements_spec(
                            old(self).data@,
                            old(self).has_scope(),
                            old(self).top_end(),
                            p1,
                            len as nat,
                        ) {
                            Err(e) => r matches Err(e2) && e2 == e,
                            Ok((vals, pe)) => r matches Ok(v) && v@ == vals && final(self).pos
                                == pe,
                        }
                    }
                },
            },
    {
        let len = self.read_array_start()?;
        let mut vals: Vec<u8> = Vec::new();
        if len <= 0 {
            return Ok(vals);
        }
        let ghost base_pos = self.pos as int;
        let n = len as usize;
        let mut i: usize = 0;
        while i < n
            invariant
                i <= n,
                0 < len,
                n == len as usize,
                self.data == old(self).data,
                self.scopes@ == old(self).scopes@,
                old(self).warnings@.is_prefix_of(self.warnings@),
                vals@.len() == i,
                collection_header_spec(
                    old(self).data@,
                    old(self).has_scope(),
                    old(self).top_end(),
                    old(self).pos as int,
                    MARK_ARRAY,
                ) matches Ok((len2, m2, p12)) && len2 == len && p12 == base_pos,
                match u8_elements_spec(
                    self.data@,
                    self.has_scope(),
                    self.top_end(),
                    self.pos as int,
                    (n - i) as nat,
                ) {
                    Err(e) => u8_elements_spec(
                        self.data@,
                        self.has_scope(),
                        self.top_end(),
                        base_pos,
                        n as nat,
                    ) == Err::<(Seq<u8>, int), DecodeError>(e),
                    Ok((rest, pe)) => u8_elements_spec(
                        self.data@,
                        self.has_scope(),
                        self.top_end(),
                        base_pos,
                        n as nat,
                    ) == Ok::<(Seq<u8>, int), DecodeError>((vals@ + rest, pe)),
                },
            decreases n - i,
        {
            let ghost old_vals = vals@;
            let ghost spec_rem = u8_elements_spec(
                self.data@,
                self.has_scope(),
                self.top_end(),
                self.pos as int,
                (n - i) as nat,
            );
            let v = self.read_set_u8(0)?;
            vals.push(v);
            i = i + 1;
            proof {
                let s_next = u8_elements_spec(
                    self.data@,
                    self.has_scope(),
                    self.top_end(),
                    self.pos as int,
                    (n - i) as nat,
                );
                match s_next {
                    Ok((rest2, pe)) => {
                        assert(spec_rem == Ok::<(Seq<u8>, int), DecodeError>(
                            (seq![v] + rest2, pe),
                        ));
                        assert(old_vals + (seq![v] + rest2) =~= vals@ + rest2);
                    },
                    Err(e) => {
                        assert(spec_rem == Err::<(Seq<u8>, int), DecodeError>(e));
                    },
                }
            }
        }
        proof {
            assert(vals@ + Seq::<u8>::empty() =~= vals@);
        }
        Ok(vals)
    }

    /// An array of `f64` bit patterns, by the same rule.
    pub fn read_f64_array(&mut self) -> (r: Result<Vec<u64>, DecodeError>)
        ensures
            final(self).data == old(self).data,
            final(self).scopes@ == old(self).scopes@,
            old(self).extends(*final(self)),
            match collection_header_spec(
                old(self).data@,
                old(self).has_scope(),
                old(self).top_end(),
                old(self).pos as int,
                MARK_ARRAY,
            ) {
                Err(e) => r matches Err(e2) && e2 == e,
                Ok((len, _, p1)) => {
                    if len <= 0 {
                        r matches Ok(v) && v@ =~= Seq::<u64>::empty() && final(self).pos == p1
                    } else {
                        match f64_elements_spec(
                            old(self).data@,
                            old(self).has_scope(),
                            old(self).top_end(),
                            p1,
                            len as nat,
                        ) {
                            Err(e) => r matches Err(e2) && e2 == e,
                            Ok((vals, pe)) => r matches Ok(v) && v@ == vals && final(self).pos
                                == pe,
                        }
                    }
                },
            },
    {
        let len = self.read_array_start()?;
        let mut vals: Vec<u64> = Vec::new();
        if len <= 0 {
            return Ok(vals);
        }
        let ghost base_pos = self.pos as int;
        let n = len as usize;
        let mut i: usize = 0;
        while i < n
            invariant
                i <= n,
                0 < len,
                n == len as usize,
                self.data == old(self).data,
                self.scopes@ == old(self).scopes@,
                old(self).warnings@.is_prefix_of(self.warnings@),
                vals@.len() == i,
                collection_header_spec(
                    old(self).data@,
                    old(self).has_scope(),
                    old(self).top_end(),
                    old(self).pos as int,
                    MARK_ARRAY,
                ) matches Ok((len2, m2, p12)) && len2 == len && p12 == base_pos,
                match f64_elements_spec(
                    self.data@,
                    self.has_scope(),
                    self.top_end(),
                    self.pos as int,
                    (n - i) as nat,
                ) {
                    Err(e) => f64_elements_spec(
                        self.data@,
                        self.has_scope(),
                        self.top_end(),
                        base_pos,
                        n as nat,
                    ) == Err::<(Seq<u64>, int), DecodeError>(e),
                    Ok((rest, pe)) => f64_elements_spec(
                        self.data@,
                        self.has_scope(),
                        self.top_end(),
                        base_pos,
                        n as nat,
                    ) == Ok::<(Seq<u64>, int), DecodeError>((vals@ + rest, pe)),
                },
            decreases n - i,
        {
            let ghost old_vals = vals@;
            let ghost spec_rem = f64_elements_spec(
                self.data@,
                self.has_scope(),
                self.top_end(),
                self.pos as int,
                (n - i) as nat,
            );
            let v = self.get_f64(0)?;
            vals.push(v);
            i = i + 1;
            proof {
                let s_next = f64_elements_spec(
                    self.data@,
                    self.has_scope(),
                    self.top_end(),
                    self.pos as int,
                    (n - i) as nat,
                );
                match s_next {
                    Ok((rest2, pe)) => {
                        assert(spec_rem == Ok::<(Seq<u64>, int), DecodeError>(
                            (seq![v] + rest2, pe),
                        ));
                        assert(old_vals + (seq![v] + rest2) =~= vals@ + rest2);
                    },
                    Err(e) => {
                        assert(spec_rem == Err::<(Seq<u64>, int), DecodeError>(e));
                    },
                }
            }
        }
        proof {
            assert(vals@ + Seq::<u64>::empty() =~= vals@);
        }
        Ok(vals)
    }

    /// An array of nullable strings, by the same rule.
    pub fn read_string_array(&mut self) -> (r: Result<Vec<Option<WideStr>>, DecodeError>)
        ensures
            final(self).data == old(self).data,
            final(self).scopes@ == old(self).scopes@,
            old(self).extends(*final(self)),
            match collection_header_spec(
                old(self).data@,
                old(self).has_scope(),
                old(self).top_end(),
                old(self).pos as int,
                MARK_ARRAY,
            ) {
                Err(e) => r matches Err(e2) && e2 == e,
                Ok((len, _, p1)) => {
                    if len <= 0 {
                        r matches Ok(v) && v@ =~= Seq::<Option<WideStr>>::empty()
                            && final(self).pos == p1
                    } else {
                        match string_elements_spec(old(self).data@, p1, len as nat) {
                            Err(e) => r matches Err(e2) && e2 == e,
                            Ok((vals, pe)) => r matches Ok(v) && opt_units_seq(v@) == vals
                                && final(self).pos == pe,
                        }
                    }
                },
            },
    {
        let len = self.read_array_start()?;
        let mut vals: Vec<Option<WideStr>> = Vec::new();
        if len <= 0 {
            return Ok(vals);
        }
        let ghost base_pos = self.pos as int;
        let n = len as usize;
        let mut i: usize = 0;
        while i < n
            invariant
                i <= n,
                0 < len,
                n == len as usize,
                self.data == old(self).data,
                self.scopes@ == old(self).scopes@,
                old(self).warnings@.is_prefix_of(self.warnings@),
                vals@.len() == i,
                collection_header_spec(
                    old(self).data@,
                    old(self).has_scope(),
                    old(self).top_end(),
                    old(self).pos as int,
                    MARK_ARRAY,
                ) matches Ok((len2, m2, p12)) && len2 == len && p12 == base_pos,
                match string_elements_spec(self.data@, self.pos as int, (n - i) as nat) {
                    Err(e) => string_elements_spec(self.data@, base_pos, n as nat) == Err::<
                        (Seq<Option<Seq<u16>>>, int),
                        DecodeError,
                    >(e),
                    Ok((rest, pe)) => string_elements_spec(self.data@, base_pos, n as nat) == Ok::<
                        (Seq<Option<Seq<u16>>>, int),
                        DecodeError,
                    >((opt_units_seq(vals@) + rest, pe)),
                },
            decreases n - i,
        {
            let ghost old_vals = vals@;
            let ghost spec_rem = string_elements_spec(self.data@, self.pos as int, (n - i) as nat);
            let v = self.get_string_field(Option::None)?;
            vals.push(v);
            i = i + 1;
            proof {
                let s_next = string_elements_spec(self.data@, self.pos as int, (n - i) as nat);
                match s_next {
                    Ok((rest2, pe)) => {
                        assert(spec_rem == Ok::<(Seq<Option<Seq<u16>>>, int), DecodeError>(
                            (seq![crate::widestr::opt_units(v)] + rest2, pe),
                        ));
                        assert(opt_units_seq(vals@) =~= opt_units_seq(old_vals).push(
                            crate::widestr::opt_units(v),
                        ));
                        assert(opt_units_seq(old_vals) + (seq![crate::widestr::opt_units(v)]
                            + rest2) =~= opt_units_seq(vals@) + rest2);
                    },
                    Err(e) => {
                        assert(spec_rem == Err::<(Seq<Option<Seq<u16>>>, int), DecodeError>(e));
                    },
                }
            }
        }
        proof {
            assert(opt_units_seq(vals@) + Seq::<Option<Seq<u16>>>::empty() =~= opt_units_seq(
                vals@,
            ));
        }
        Ok(vals)
    }

    /// A mandatory string read: not scope-guarded, not nullable.
    pub fn read_set_string(&mut self) -> (r: Result<WideStr, DecodeError>)
        ensures
            old(self).keeps(*final(self)),
            match r {
                Ok(s) => parse_string(old(self).data@, old(self).pos as int) == Ok::<
                    (Seq<u16>, int),
                    DecodeError,
                >((s@, final(self).pos as int)) && s.wf() && old(self).pos <= final(self).pos
                    <= old(self).data.len(),
                Err(e) => parse_string(old(self).data@, old(self).pos as int) == Err::<
                    (Seq<u16>, int),
                    DecodeError,
                >(e) && final(self).pos == old(self).pos,
            },
    {
        let (s, end) = read_string(self.data, self.pos)?;
        self.pos = end;
        Ok(s)
    }
}

} // verus!
