//! The event trigger and listener schemas. At their oldest versions the
//! event name travelled as an `i32` hash; the reader turns such a hash `N`
//! into the name `Event N`, and the writer asked for an old version emits
//! the number a name of that shape carries (it never re-hashes).

use crate::error::{DecodeError, EncodeError};
use crate::reader::Deserializer;
use crate::widestr::{string_encodable, WideStr};
use crate::wire::{enc_bool, enc_f32_field, enc_i32_field, enc_string_field};
use crate::writer::Serializer;
use vstd::prelude::*;

verus! {

/// Decimal digits of `n`, most significant first, as UTF-16 units.
pub open spec fn dec_units(n: nat) -> Seq<u16>
    decreases n,
{
    if n < 10 {
        seq![(0x30 + n) as u16]
    } else {
        dec_units(n / 10) + seq![(0x30 + n % 10) as u16]
    }
}

/// The name the reader gives an event whose wire form was the hash `h`:
/// `Event ` followed by the hash in decimal.
pub open spec fn spec_event_name_units(h: i32) -> Seq<u16> {
    let prefix = seq![0x45u16, 0x76u16, 0x65u16, 0x6Eu16, 0x74u16, 0x20u16];
    if h >= 0 {
        prefix + dec_units(h as nat)
    } else {
        prefix + seq![0x2Du16] + dec_units((-(h as int)) as nat)
    }
}

/// Append the decimal digits of `n`.
fn push_dec_units(out: &mut Vec<u16>, n: u64)
    ensures
        final(out)@ == old(out)@ + dec_units(n as nat),
    decreases n,
{
    if n < 10 {
        out.push(0x30 + (n as u16));
        proof {
            assert(final(out)@ =~= old(out)@ + dec_units(n as nat));
        }
    } else {
        push_dec_units(out, n / 10);
        out.push(0x30 + ((n % 10) as u16));
        proof {
            assert(final(out)@ =~= old(out)@ + dec_units(n as nat));
        }
    }
}

/// The name carried by an event whose wire hash is `h`.
pub fn event_name_of_hash(h: i32) -> (r: WideStr)
    ensures
        r@ == spec_event_name_units(h),
{
    let mut units: Vec<u16> = Vec::new();
    units.push(0x45);
    units.push(0x76);
    units.push(0x65);
    units.push(0x6E);
    units.push(0x74);
    units.push(0x20);
    if h < 0 {
        units.push(0x2D);
    }
    let magnitude: u64 = if h >= 0 {
        h as u64
    } else {
        (-(h as i64)) as u64
    };
    push_dec_units(&mut units, magnitude);
    proof {
        assert(units@ =~= spec_event_name_units(h));
    }
    WideStr { units }
}

/// Decimal fold of the units from `i` on: the accumulated value, or
/// nothing where a unit is no digit or the value leaves `i32` magnitude.
pub open spec fn fold_dec_units(units: Seq<u16>, i: int, acc: int) -> Option<int>
    decreases units.len() - i when 0 <= i <= units.len()
{
    if i >= units.len() {
        Some(acc)
    } else {
        let u = units[i];
        if u < 0x30 || u > 0x39 {
            Option::None
        } else {
            let acc2 = acc * 10 + (u - 0x30);
            if acc2 > 0x8000_0000 {
                Option::None
            } else {
                fold_dec_units(units, i + 1, acc2)
            }
        }
    }
}

/// The hash a name of the shape `Event N` carries; any other name carries
/// zero.
pub open spec fn spec_event_hash(units: Seq<u16>) -> i32 {
    if units.len() < 7 {
        0
    } else {
        let neg = units[6] == 0x2D;
        let start: int = if neg {
            7
        } else {
            6
        };
        match fold_dec_units(units, start, 0) {
            Option::None => 0,
            Some(acc) => {
                let c = if neg {
                    -acc
                } else {
                    acc
                };
                if c < i32::MIN || c > i32::MAX {
                    0
                } else if spec_event_name_units(c as i32) == units {
                    c as i32
                } else {
                    0
                }
            },
        }
    }
}

/// Recover the hash a name of the shape `Event N` carries; any other name
/// yields zero. The result, fed back through [`event_name_of_hash`],
/// reproduces the name exactly, or it is zero.
pub fn event_hash_of_name(name: &WideStr) -> (r: i32)
    ensures
        r == spec_event_hash(name@),
        name@ == spec_event_name_units(r) || r == 0,
{
    let n = name.units.len();
    if n < 7 {
        return 0;
    }
    let mut acc: i64 = 0;
    let mut start: usize = 6;
    let negative = name.units[6] == 0x2D;
    if negative {
        start = 7;
    }
    let ghost sstart = start as int;
    let mut i: usize = start;
    while i < n
        invariant
            start <= i <= n,
            n == name.units.len(),
            7 <= n,
            0 <= acc <= 0x8000_0000,
            negative == (name.units@[6] == 0x2D),
            start == if negative { 7usize } else { 6usize },
            sstart == start as int,
            fold_dec_units(name.units@, sstart, 0) == fold_dec_units(
                name.units@,
                i as int,
                acc as int,
            ),
        decreases n - i,
    {
        let u = name.units[i];
        if u < 0x30 || u > 0x39 {
            proof {
                assert(fold_dec_units(name.units@, sstart, 0) is None);
            }
            return 0;
        }
        acc = acc * 10 + ((u - 0x30) as i64);
        if acc > 0x8000_0000i64 {
            proof {
                assert(fold_dec_units(name.units@, sstart, 0) is None);
            }
            return 0;
        }
        i = i + 1;
    }
    let candidate: i64 = if negative {
        -acc
    } else {
        acc
    };
    if candidate < i32::MIN as i64 || candidate > i32::MAX as i64 {
        return 0;
    }
    let candidate = candidate as i32;
    let formatted = event_name_of_hash(candidate);
    if eq_units(&formatted, name) {
        candidate
    } else {
        0
    }
}

/// Bytes of the legacy hash slot an event component writes before its
/// string era.
pub open spec fn enc_event_hash(units: Seq<u16>) -> Seq<u8> {
    enc_i32_field(spec_event_hash(units))
}

/// Whether two strings hold the same units.
pub fn eq_units(a: &WideStr, b: &WideStr) -> (r: bool)
    ensures
        r == (a@ =~= b@),
{
    if a.units.len() != b.units.len() {
        return false;
    }
    let n = a.units.len();
    let mut i: usize = 0;
    while i < n
        invariant
            i <= n,
            n == a.units.len() == b.units.len(),
            forall|j: int| 0 <= j < i ==> a.units@[j] == b.units@[j],
        decreases n - i,
    {
        if a.units[i] != b.units[i] {
            return false;
        }
        i = i + 1;
    }
    true
}

/// An object that reacts to a named event.
#[derive(Debug, Clone, PartialEq, Eq, Hash)]
pub struct ZEventListener {
    pub event_name: WideStr,
    /// Reaction delay in seconds, as f32 bits.
    pub delay: u32,
}

impl Default for ZEventListener {
    fn default() -> (r: Self)
        ensures
            r.event_name@ == spec_event_name_units(0),
            r.delay == 0,
    {
        ZEventListener { event_name: event_name_of_hash(0), delay: 0 }
    }
}

/// Wire bytes of a listener: before version 1 the legacy hash slot, from
/// version 1 the name, and from version 2 the delay.
pub open spec fn enc_z_event_listener(z: ZEventListener, version: i32) -> Seq<u8> {
    if version >= 1 {
        crate::widestr::enc_string(z.event_name@) + (if version >= 2 {
            enc_f32_field(z.delay)
        } else {
            Seq::empty()
        })
    } else if version == 0 {
        enc_event_hash(z.event_name@)
    } else {
        Seq::empty()
    }
}

/// What a listener read holds at `version`: at version 0 the legacy hash
/// slot, inverted to its derived name; from version 1 the name, a null
/// slot falling back to the empty name; from version 2 the delay.
pub open spec fn parse_z_event_listener(
    data: Seq<u8>,
    has_scope: bool,
    top_end: int,
    pos: int,
    version: i32,
) -> Result<((Seq<u16>, u32), int), DecodeError> {
    if version == 0 {
        match crate::reader::get_i32_spec(
            data,
            has_scope,
            top_end,
            pos,
            spec_event_hash(spec_event_name_units(0)),
        ) {
            Err(e) => Err(e),
            Ok((h, p1)) => Ok(((spec_event_name_units(h), 0u32), p1)),
        }
    } else if version >= 1 {
        match crate::reader::get_string_field_spec(data, pos, Some(spec_event_name_units(0))) {
            Err(e) => Err(e),
            Ok((nm, p1)) => {
                let units = match nm {
                    Some(u) => u,
                    Option::None => Seq::<u16>::empty(),
                };
                if version >= 2 {
                    match crate::reader::get_u32_spec(data, has_scope, top_end, p1, 0) {
                        Err(e) => Err(e),
                        Ok((delay, p2)) => Ok(((units, delay), p2)),
                    }
                } else {
                    Ok(((units, 0u32), p1))
                }
            },
        }
    } else {
        Ok(((spec_event_name_units(0), 0u32), pos))
    }
}

impl ZEventListener {
    /// Current schema version.
    pub fn version() -> (v: i32)
        ensures
            v == 2,
    {
        2
    }

    pub open spec fn encodable(self) -> bool {
        string_encodable(self.event_name@)
    }

    pub fn write(&self, w: &mut Serializer, version: i32) -> (r: Result<(), EncodeError>)
        requires
            old(w).wf(),
        ensures
            final(w).wf(),
            final(w).scope_stack@ == old(w).scope_stack@,
            match r {
                Ok(()) => (version >= 1 ==> self.encodable()) && final(w).out@ == old(w).out@
                    + enc_z_event_listener(*self, version),
                Err(e) => version >= 1 && !self.encodable() && final(w).out@ == old(w).out@,
            },
    {
        if version == 0 {
            let h = event_hash_of_name(&self.event_name);
            w.put_i32_field(h);
        } else if version >= 1 {
            w.put_string(&self.event_name)?;
            if version >= 2 {
                w.put_f32_field(self.delay);
            }
            proof {
                assert(final(w).out@ =~= old(w).out@ + enc_z_event_listener(*self, version));
            }
        }
        Ok(())
    }

    pub fn read(d: &mut Deserializer, version: i32) -> (r: Result<ZEventListener, DecodeError>)
        ensures
            old(d).keeps(*final(d)),
            match parse_z_event_listener(
                old(d).data@,
                old(d).has_scope(),
                old(d).top_end(),
                old(d).pos as int,
                version,
            ) {
                Ok((f, p)) => r matches Ok(z) && z.event_name@ == f.0 && z.delay == f.1
                    && final(d).pos == p,
                Err(e) => r matches Err(e2) && e2 == e,
            },
    {
        let mut z = ZEventListener::default();
        if version == 0 {
            let cur = event_hash_of_name(&z.event_name);
            let h = d.get_i32(cur)?;
            z.event_name = event_name_of_hash(h);
        } else if version >= 1 {
            let name = d.get_string_field(Some(z.event_name))?;
            z.event_name = match name {
                Some(s) => s,
                Option::None => WideStr::new(),
            };
            if version >= 2 {
                z.delay = d.get_f32(z.delay)?;
            }
        }
        Ok(z)
    }
}

/// An object that raises a named event.
#[derive(Debug, Clone, PartialEq, Eq, Hash)]
pub struct ZEventTrigger {
    pub event_name: WideStr,
    pub one_shot: bool,
}

impl Default for ZEventTrigger {
    fn default() -> (r: Self)
        ensures
            r.event_name@ == spec_event_name_units(0),
            !r.one_shot,
    {
        ZEventTrigger { event_name: event_name_of_hash(0), one_shot: false }
    }
}

/// Wire bytes of a trigger: through version 1 the legacy hash slot, at
/// version 2 the name; from version 1 on, the one-shot flag.
pub open spec fn enc_z_event_trigger(z: ZEventTrigger, version: i32) -> Seq<u8> {
    (if version <= 1 {
        enc_event_hash(z.event_name@)
    } else if version == 2 {
        crate::widestr::enc_string(z.event_name@)
    } else {
        Seq::empty()
    }) + (if 1 <= version <= 2 {
        enc_bool(z.one_shot)
    } else {
        Seq::empty()
    })
}

/// What a trigger read holds at `version`: through version 1 the legacy
/// hash slot, inverted to its derived name; at version 2 the name, a null
/// slot falling back to the empty name; from version 1 the one-shot flag,
/// which before version 1 is always true.
pub open spec fn parse_z_event_trigger(
    data: Seq<u8>,
    has_scope: bool,
    top_end: int,
    pos: int,
    version: i32,
) -> Result<((Seq<u16>, bool), int), DecodeError> {
    match (if version <= 1 {
        match crate::reader::get_i32_spec(
            data,
            has_scope,
            top_end,
            pos,
            spec_event_hash(spec_event_name_units(0)),
        ) {
            Err(e) => Err(e),
            Ok((h, p1)) => Ok((spec_event_name_units(h), p1)),
        }
    } else if version == 2 {
        match crate::reader::get_string_field_spec(data, pos, Some(spec_event_name_units(0))) {
            Err(e) => Err(e),
            Ok((nm, p1)) => Ok(
                (
                    match nm {
                        Some(u) => u,
                        Option::None => Seq::<u16>::empty(),
                    },
                    p1,
                ),
            ),
        }
    } else {
        Ok((spec_event_name_units(0), pos))
    }) {
        Err(e) => Err(e),
        Ok((units, p1)) => {
            if version >= 1 {
                match crate::reader::get_bool_spec(data, has_scope, top_end, p1, false) {
                    Err(e) => Err(e),
                    Ok((os, p2)) => Ok(((units, os), p2)),
                }
            } else {
                Ok(((units, true), p1))
            }
        },
    }
}

impl ZEventTrigger {
    /// Current schema version.
    pub fn version() -> (v: i32)
        ensures
            v == 2,
    {
        2
    }

    pub open spec fn encodable(self) -> bool {
        string_encodable(self.event_name@)
    }

    pub fn write(&self, w: &mut Serializer, version: i32) -> (r: Result<(), EncodeError>)
        requires
            old(w).wf(),
        ensures
            final(w).wf(),
            final(w).scope_stack@ == old(w).scope_stack@,
            match r {
                Ok(()) => (version == 2 ==> self.encodable()) && final(w).out@ == old(w).out@
                    + enc_z_event_trigger(*self, version),
                Err(e) => version == 2 && !self.encodable() && final(w).out@ == old(w).out@,
            },
    {
        let ghost base = w.out@;
        if version <= 1 {
            let h = event_hash_of_name(&self.event_name);
            w.put_i32_field(h);
        } else if version == 2 {
            w.put_string(&self.event_name)?;
        }
        let ghost first = if version <= 1 {
            enc_event_hash(self.event_name@)
        } else if version == 2 {
            crate::widestr::enc_string(self.event_name@)
        } else {
            Seq::<u8>::empty()
        };
        proof {
            assert(w.out@ =~= base + first);
        }
        if 1 <= version && version <= 2 {
            w.put_bool(self.one_shot);
            proof {
                crate::wire::lemma_grow(base, first, enc_bool(self.one_shot));
            }
        }
        proof {
            assert(w.out@ =~= base + enc_z_event_trigger(*self, version));
        }
        Ok(())
    }

    pub fn read(d: &mut Deserializer, version: i32) -> (r: Result<ZEventTrigger, DecodeError>)
        ensures
            old(d).keeps(*final(d)),
            match parse_z_event_trigger(
                old(d).data@,
                old(d).has_scope(),
                old(d).top_end(),
                old(d).pos as int,
                version,
            ) {
                Ok((f, p)) => r matches Ok(z) && z.event_name@ == f.0 && z.one_shot == f.1
                    && final(d).pos == p,
                Err(e) => r matches Err(e2) && e2 == e,
            },
    {
        let mut z = ZEventTrigger::default();
        if version <= 1 {
            let cur = event_hash_of_name(&z.event_name);
            let h = d.get_i32(cur)?;
            z.event_name = event_name_of_hash(h);
        } else if version == 2 {
            let name = d.get_string_field(Some(z.event_name))?;
            z.event_name = match name {
                Some(s) => s,
                Option::None => WideStr::new(),
            };
        }
        if version >= 1 {
            z.one_shot = d.get_bool(z.one_shot)?;
        } else {
            z.one_shot = true;
        }
        Ok(z)
    }
}

} // verus!
