//! Length-prefixed UTF-16 strings: the prefix is the 7-bit continuation
//! form of the byte length (which must be even), the payload little-endian
//! UTF-16 code units.

use crate::bytes_le::{le16, le16_at, push_le16, read_le16};
use crate::error::DecodeError;
use crate::varint::{
    enc_varlen, lemma_enc_varlen_len, lemma_parse_enc_varlen, parse_varlen, push_varlen,
    read_varlen, varlen_max,
};
use vstd::prelude::*;

verus! {

/// A string as the wire carries it: UTF-16 code units.
///
/// The reader only produces values whose units satisfy [`valid_utf16`];
/// the writer accepts any units.
#[derive(Debug, Clone, PartialEq, Eq, Hash, Default)]
pub struct WideStr {
    pub units: Vec<u16>,
}

impl WideStr {
    pub open spec fn view(self) -> Seq<u16> {
        self.units@
    }

    /// The units form well-paired UTF-16.
    pub open spec fn wf(self) -> bool {
        valid_utf16(self.units@)
    }

    pub fn new() -> (r: WideStr)
        ensures
            r@ =~= Seq::<u16>::empty(),
    {
        WideStr { units: Vec::new() }
    }

    pub fn from_units(units: Vec<u16>) -> (r: WideStr)
        ensures
            r@ == units@,
    {
        WideStr { units }
    }
}

/// The unit sequences of a nullable string.
pub open spec fn opt_units(s: Option<WideStr>) -> Option<Seq<u16>> {
    match s {
        Option::None => Option::None,
        Some(w) => Some(w@),
    }
}

/// A nullable string whose encoding fits the length prefix.
pub open spec fn opt_str_encodable(s: Option<WideStr>) -> bool {
    match s {
        Option::None => true,
        Some(w) => string_encodable(w@),
    }
}

pub open spec fn is_high_surrogate(u: u16) -> bool {
    0xD800 <= u < 0xDC00
}

pub open spec fn is_low_surrogate(u: u16) -> bool {
    0xDC00 <= u < 0xE000
}

/// Well-paired UTF-16: every high surrogate is followed by a low one, and
/// no low surrogate stands alone.
pub open spec fn valid_utf16(units: Seq<u16>) -> bool
    decreases units.len(),
{
    if units.len() == 0 {
        true
    } else if is_high_surrogate(units[0]) {
        units.len() >= 2 && is_low_surrogate(units[1]) && valid_utf16(units.skip(2))
    } else if is_low_surrogate(units[0]) {
        false
    } else {
        valid_utf16(units.skip(1))
    }
}

/// Check that `units` is well-paired UTF-16.
pub fn check_valid_utf16(units: &Vec<u16>) -> (r: bool)
    ensures
        r == valid_utf16(units@),
{
    let mut i: usize = 0;
    proof {
        assert(units@.skip(0) =~= units@);
    }
    loop
        invariant
            i <= units.len(),
            valid_utf16(units@) == valid_utf16(units@.skip(i as int)),
        ensures
            valid_utf16(units@) == valid_utf16(units@.skip(i as int)),
            i == units.len() || !valid_utf16(units@.skip(i as int)),
        decreases units.len() - i,
    {
        if i >= units.len() {
            break;
        }
        let u = units[i];
        if 0xD800 <= u && u < 0xDC00 {
            if i + 1 >= units.len() {
                proof {
                    assert(!valid_utf16(units@.skip(i as int)));
                }
                break;
            }
            let u2 = units[i + 1];
            if !(0xDC00 <= u2 && u2 < 0xE000) {
                proof {
                    assert(!valid_utf16(units@.skip(i as int)));
                }
                break;
            }
            proof {
                assert(units@.skip(i as int).skip(2) =~= units@.skip(i as int + 2));
            }
            i = i + 2;
        } else if 0xDC00 <= u && u < 0xE000 {
            proof {
                assert(!valid_utf16(units@.skip(i as int)));
            }
            break;
        } else {
            proof {
                assert(units@.skip(i as int).skip(1) =~= units@.skip(i as int + 1));
            }
            i = i + 1;
        }
    }
    if i == units.len() {
        proof {
            assert(units@.skip(i as int) =~= Seq::<u16>::empty());
        }
        true
    } else {
        false
    }
}

/// Little-endian bytes of a sequence of code units.
pub open spec fn enc_units(units: Seq<u16>) -> Seq<u8>
    decreases units.len(),
{
    if units.len() == 0 {
        Seq::empty()
    } else {
        le16(units[0]) + enc_units(units.skip(1))
    }
}

pub proof fn lemma_enc_units_len(units: Seq<u16>)
    ensures
        enc_units(units).len() == 2 * units.len(),
    decreases units.len(),
{
    vstd::bytes::lemma_auto_spec_u16_to_from_le_bytes();
    if units.len() > 0 {
        lemma_enc_units_len(units.skip(1));
    }
}

/// Each unit sits little-endian at its offset in the unit payload.
pub proof fn lemma_enc_units_index(units: Seq<u16>, i: int)
    requires
        0 <= i < units.len(),
    ensures
        enc_units(units).subrange(2 * i, 2 * i + 2) =~= le16(units[i]),
    decreases units.len(),
{
    vstd::bytes::lemma_auto_spec_u16_to_from_le_bytes();
    lemma_enc_units_len(units);
    if i == 0 {
        assert(enc_units(units) == le16(units[0]) + enc_units(units.skip(1)));
        lemma_enc_units_len(units.skip(1));
        assert(enc_units(units).subrange(0, 2) =~= le16(units[0]));
    } else {
        lemma_enc_units_index(units.skip(1), i - 1);
        lemma_enc_units_len(units.skip(1));
        assert(enc_units(units).subrange(2 * i, 2 * i + 2) =~= enc_units(units.skip(1)).subrange(
            2 * (i - 1),
            2 * (i - 1) + 2,
        ));
        assert(units.skip(1)[i - 1] == units[i]);
    }
}

/// Wire encoding of a string: byte-length prefix, then the units.
pub open spec fn enc_string(units: Seq<u16>) -> Seq<u8> {
    enc_varlen(2 * units.len()) + enc_units(units)
}

/// A string whose encoded byte length fits the five-byte prefix.
pub open spec fn string_encodable(units: Seq<u16>) -> bool {
    2 * units.len() <= varlen_max()
}

/// The code units stored at `pos`, `count` of them.
pub open spec fn units_at(data: Seq<u8>, pos: int, count: nat) -> Seq<u16> {
    Seq::new(count, |i: int| le16_at(data, pos + 2 * i))
}

/// What reading a string at `pos` yields: the units and the offset just
/// past them, or the fatal error.
pub open spec fn parse_string(data: Seq<u8>, pos: int) -> Result<(Seq<u16>, int), DecodeError> {
    match parse_varlen(data, pos) {
        Err(e) => Err(e),
        Ok((blen, p)) => {
            if blen % 2 != 0 {
                Err(DecodeError::OddStringLength)
            } else if p + blen > data.len() {
                Err(DecodeError::UnexpectedEof)
            } else {
                let units = units_at(data, p, blen / 2);
                if valid_utf16(units) {
                    Ok((units, p + blen))
                } else {
                    Err(DecodeError::InvalidUtf16)
                }
            }
        },
    }
}

/// Reading an encoded well-paired string back, whatever bytes surround it,
/// yields the units that were encoded.
pub proof fn lemma_parse_enc_string(data: Seq<u8>, pos: int, units: Seq<u16>)
    requires
        valid_utf16(units),
        string_encodable(units),
        0 <= pos,
        pos + enc_string(units).len() <= data.len(),
        data.subrange(pos, pos + enc_string(units).len() as int) =~= enc_string(units),
    ensures
        parse_string(data, pos) == Ok::<(Seq<u16>, int), DecodeError>((
            units,
            pos + enc_string(units).len(),
        )),
{
    let blen = 2 * units.len();
    let prefix = enc_varlen(blen);
    let payload = enc_units(units);
    lemma_enc_units_len(units);
    lemma_enc_varlen_len(blen);
    let whole = data.subrange(pos, pos + enc_string(units).len() as int);
    assert(data.subrange(pos, pos + prefix.len() as int) =~= whole.subrange(
        0,
        prefix.len() as int,
    ));
    assert(whole.subrange(0, prefix.len() as int) =~= prefix);
    lemma_parse_enc_varlen(data, pos, blen);
    let p = pos + prefix.len();
    assert(data.subrange(p, p + payload.len() as int) =~= whole.subrange(
        prefix.len() as int,
        enc_string(units).len() as int,
    ));
    assert(whole.subrange(prefix.len() as int, enc_string(units).len() as int) =~= payload);
    assert(units_at(data, p, units.len()) =~= units) by {
        assert forall|i: int| 0 <= i < units.len() implies units_at(data, p, units.len())[i]
            == units[i] by {
            lemma_enc_units_index(units, i);
            assert(data.subrange(p + 2 * i, p + 2 * i + 2) =~= payload.subrange(
                2 * i,
                2 * i + 2,
            ));
            vstd::bytes::lemma_auto_spec_u16_to_from_le_bytes();
            assert(le16(units[i]).len() == 2);
        }
    }
}

/// Append the wire encoding of a string.
pub fn push_string(out: &mut Vec<u8>, s: &WideStr)
    requires
        string_encodable(s@),
    ensures
        final(out)@ == old(out)@ + enc_string(s@),
{
    proof {
        lemma_enc_units_len(s@);
    }
    let n = s.units.len();
    push_varlen(out, 2 * (n as u64));
    let ghost mid = out@;
    let mut i: usize = 0;
    while i < n
        invariant
            i <= n,
            n == s.units.len(),
            out@ == mid + enc_units(s@.take(i as int)),
            mid == old(out)@ + enc_varlen(2 * s@.len()),
        decreases n - i,
    {
        proof {
            lemma_enc_units_take(s@, i as int);
        }
        push_le16(out, s.units[i]);
        i = i + 1;
        proof {
            lemma_enc_units_take(s@, i as int - 1);
            assert(out@ =~= mid + enc_units(s@.take(i as int))) by {
                lemma_enc_units_take_snoc(s@, i as int);
            }
        }
    }
    proof {
        assert(s@.take(n as int) =~= s@);
        assert(out@ =~= old(out)@ + enc_string(s@));
    }
}

proof fn lemma_enc_units_take(units: Seq<u16>, i: int)
    requires
        0 <= i <= units.len(),
    ensures
        enc_units(units.take(i)).len() == 2 * i,
{
    lemma_enc_units_len(units.take(i));
}

/// Extending the taken prefix by one unit appends that unit's bytes.
proof fn lemma_enc_units_take_snoc(units: Seq<u16>, i: int)
    requires
        0 < i <= units.len(),
    ensures
        enc_units(units.take(i)) =~= enc_units(units.take(i - 1)) + le16(units[i - 1]),
    decreases i,
{
    let a = units.take(i);
    let b = units.take(i - 1);
    if i == 1 {
        assert(a =~= seq![units[0]]);
        assert(b =~= Seq::<u16>::empty());
        assert(enc_units(a) == le16(a[0]) + enc_units(a.skip(1)));
        assert(a.skip(1) =~= Seq::<u16>::empty());
        assert(enc_units(a) =~= enc_units(b) + le16(units[0]));
    } else {
        assert(a.len() > 0);
        assert(enc_units(a) == le16(a[0]) + enc_units(a.skip(1)));
        assert(enc_units(b) == le16(b[0]) + enc_units(b.skip(1)));
        assert(a.skip(1) =~= units.skip(1).take(i - 1));
        assert(b.skip(1) =~= units.skip(1).take(i - 2));
        lemma_enc_units_take_snoc(units.skip(1), i - 1);
        assert(units.skip(1)[i - 2] == units[i - 1]);
        assert(enc_units(units.skip(1).take(i - 1)) =~= enc_units(units.skip(1).take(i - 2))
            + le16(units[i - 1]));
        assert(a[0] == b[0]);
        assert(enc_units(a) =~= enc_units(b) + le16(units[i - 1]));
    }
}

/// Read a length-prefixed UTF-16 string at `pos`.
pub fn read_string(data: &Vec<u8>, pos: usize) -> (r: Result<(WideStr, usize), DecodeError>)
    ensures
        match r {
            Ok((s, end)) => parse_string(data@, pos as int) == Ok::<
                (Seq<u16>, int),
                DecodeError,
            >((s@, end as int)) && pos <= end <= data.len() && s.wf(),
            Err(e) => parse_string(data@, pos as int) == Err::<(Seq<u16>, int), DecodeError>(e),
        },
{
    let (blen, p) = match read_varlen(data, pos) {
        Ok(x) => x,
        Err(e) => {
            return Err(e);
        },
    };
    if blen % 2 != 0 {
        return Err(DecodeError::OddStringLength);
    }
    if blen > (data.len() - p) as u64 {
        return Err(DecodeError::UnexpectedEof);
    }
    let count = (blen / 2) as usize;
    let mut units: Vec<u16> = Vec::new();
    let mut i: usize = 0;
    while i < count
        invariant
            i <= count,
            p + 2 * count <= data.len(),
            units@ =~= units_at(data@, p as int, count as nat).take(i as int),
        decreases count - i,
    {
        let u = read_le16(data, p + 2 * i);
        units.push(u);
        i = i + 1;
        proof {
            assert(units@ =~= units_at(data@, p as int, count as nat).take(i as int));
        }
    }
    proof {
        assert(units@ =~= units_at(data@, p as int, count as nat));
    }
    if !check_valid_utf16(&units) {
        return Err(DecodeError::InvalidUtf16);
    }
    let end = p + 2 * count;
    Ok((WideStr { units }, end))
}

} // verus!
