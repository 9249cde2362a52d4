//! The 7-bit little-endian continuation form used as a string length prefix:
//! groups of seven bits, least significant first, the high bit set on every
//! byte but the last, at most five bytes.

use crate::error::DecodeError;
use vstd::prelude::*;

verus! {

/// Canonical encoding of a length as 7-bit continuation groups.
pub open spec fn enc_varlen(n: nat) -> Seq<u8>
    decreases n,
{
    if n < 128 {
        seq![n as u8]
    } else {
        seq![(n % 128 + 128) as u8] + enc_varlen(n / 128)
    }
}

/// Largest value five 7-bit groups can carry; the reader accepts no longer
/// prefix.
pub open spec fn varlen_max() -> nat {
    0x7_FFFF_FFFF
}

/// Weight of the `i`-th 7-bit group.
pub open spec fn pow128(i: nat) -> nat {
    if i == 0 {
        1
    } else if i == 1 {
        128
    } else if i == 2 {
        16384
    } else if i == 3 {
        2097152
    } else if i == 4 {
        268435456
    } else if i == 5 {
        34359738368
    } else {
        0
    }
}

/// What reading a length prefix at `pos` yields, after `i` groups have
/// already contributed `acc`, the next group weighing `mult`.
pub open spec fn parse_varlen_at(
    data: Seq<u8>,
    pos: int,
    i: nat,
    acc: nat,
    mult: nat,
) -> Result<(nat, int), DecodeError>
    decreases 5 - i when i <= 5
{
    if i >= 5 {
        Err(DecodeError::LengthPrefixTooLong)
    } else if pos < 0 || pos >= data.len() {
        Err(DecodeError::UnexpectedEof)
    } else {
        let b = data[pos];
        let acc2 = (acc + (b % 128) * mult) as nat;
        if b < 128 {
            Ok((acc2, pos + 1))
        } else {
            parse_varlen_at(data, pos + 1, i + 1, acc2, mult * 128)
        }
    }
}

/// What reading a length prefix at `pos` in `data` yields: the value and
/// the offset just past the prefix, or the fatal error.
pub open spec fn parse_varlen(data: Seq<u8>, pos: int) -> Result<(nat, int), DecodeError> {
    parse_varlen_at(data, pos, 0, 0, 1)
}

/// The canonical encoding spends one byte per 7-bit group.
pub proof fn lemma_enc_varlen_len(n: nat)
    ensures
        1 <= enc_varlen(n).len(),
        n < 128 ==> enc_varlen(n).len() == 1,
        128 <= n < 16384 ==> enc_varlen(n).len() == 2,
        16384 <= n < 2097152 ==> enc_varlen(n).len() == 3,
        n < 268435456 ==> enc_varlen(n).len() <= 4,
        n <= varlen_max() ==> enc_varlen(n).len() <= 5,
    decreases n,
{
    if n >= 128 {
        lemma_enc_varlen_len(n / 128);
    }
}

/// Reading a canonical encoding, whatever bytes surround it, yields the
/// value that was encoded and stops just past it.
pub proof fn lemma_parse_enc_varlen(data: Seq<u8>, pos: int, n: nat)
    requires
        n <= varlen_max(),
        0 <= pos,
        pos + enc_varlen(n).len() <= data.len(),
        data.subrange(pos, pos + enc_varlen(n).len() as int) =~= enc_varlen(n),
    ensures
        parse_varlen(data, pos) == Ok::<(nat, int), DecodeError>((n, pos + enc_varlen(n).len())),
{
    lemma_parse_enc_varlen_at(data, pos, n, 0, 0, 1);
}

proof fn lemma_parse_enc_varlen_at(data: Seq<u8>, pos: int, n: nat, i: nat, acc: nat, mult: nat)
    requires
        i <= 5,
        i > 0 ==> n >= 1,
        mult == pow128(i),
        n * mult + acc <= varlen_max(),
        0 <= pos,
        pos + enc_varlen(n).len() <= data.len(),
        data.subrange(pos, pos + enc_varlen(n).len() as int) =~= enc_varlen(n),
    ensures
        parse_varlen_at(data, pos, i, acc, mult) == Ok::<(nat, int), DecodeError>((
            acc + n * mult,
            pos + enc_varlen(n).len(),
        )),
    decreases n,
{
    assert(i < 5);
    let b = data[pos];
    assert(b == enc_varlen(n)[0]);
    if n < 128 {
        assert(enc_varlen(n) == seq![n as u8]);
    } else {
        assert(enc_varlen(n) == seq![(n % 128 + 128) as u8] + enc_varlen(n / 128));
        assert(b >= 128);
        let n2 = (n / 128) as nat;
        let acc2 = acc + (n % 128) * mult;
        let mult2 = mult * 128;
        assert(mult2 == pow128(i + 1));
        assert(n2 * mult2 + acc2 == n * mult + acc) by (nonlinear_arith)
            requires
                n2 == n / 128,
                n >= 128,
                mult2 == mult * 128,
                acc2 == acc + (n % 128) * mult,
        ;
        let tail = enc_varlen(n2);
        assert(enc_varlen(n).subrange(1, enc_varlen(n).len() as int) =~= tail);
        assert(data.subrange(pos + 1, pos + 1 + tail.len() as int) =~= enc_varlen(n).subrange(
            1,
            enc_varlen(n).len() as int,
        ));
        lemma_parse_enc_varlen_at(data, pos + 1, n2, i + 1, acc2, mult2);
        assert((b % 128) as nat == n % 128);
    }
}

/// Append the 7-bit continuation encoding of `n`.
pub fn push_varlen(out: &mut Vec<u8>, n: u64)
    requires
        n <= varlen_max(),
    ensures
        final(out)@ == old(out)@ + enc_varlen(n as nat),
{
    let mut m: u64 = n;
    let ghost mut emitted: Seq<u8> = Seq::empty();
    loop
        invariant
            out@ == old(out)@ + emitted,
            emitted + enc_varlen(m as nat) =~= enc_varlen(n as nat),
        decreases m,
    {
        let low: u8 = (m % 128) as u8;
        let rest: u64 = m / 128;
        if rest == 0 {
            out.push(low);
            proof {
                assert(enc_varlen(m as nat) =~= seq![low]);
                assert(out@ =~= old(out)@ + enc_varlen(n as nat));
            }
            return;
        }
        out.push(low + 128);
        proof {
            assert(enc_varlen(m as nat) =~= seq![(low + 128) as u8] + enc_varlen(rest as nat));
            emitted = emitted + seq![(low + 128) as u8];
            assert(out@ =~= old(out)@ + emitted);
            assert(emitted + enc_varlen(rest as nat) =~= enc_varlen(n as nat));
        }
        m = rest;
    }
}

/// Read a 7-bit continuation length prefix at `pos`.
pub fn read_varlen(data: &Vec<u8>, pos: usize) -> (r: Result<(u64, usize), DecodeError>)
    ensures
        match r {
            Ok((v, end)) => parse_varlen(data@, pos as int) == Ok::<(nat, int), DecodeError>((
                v as nat,
                end as int,
            )) && pos < end <= data.len() && v <= varlen_max(),
            Err(e) => parse_varlen(data@, pos as int) == Err::<(nat, int), DecodeError>(e),
        },
{
    if pos >= data.len() {
        return Err(DecodeError::UnexpectedEof);
    }
    let mut acc: u64 = 0;
    let mut mult: u64 = 1;
    for i in 0..5usize
        invariant
            pos < data.len(),
            mult == pow128(i as nat),
            acc < mult,
            acc <= varlen_max(),
            parse_varlen(data@, pos as int) == parse_varlen_at(
                data@,
                pos + i,
                i as nat,
                acc as nat,
                mult as nat,
            ),
    {
        if i >= data.len() - pos {
            return Err(DecodeError::UnexpectedEof);
        }
        let p = pos + i;
        let b = data[p];
        let acc2: u64 = acc + ((b % 128) as u64) * mult;
        if b < 128 {
            return Ok((acc2, p + 1));
        }
        acc = acc2;
        mult = mult * 128;
    }
    Err(DecodeError::LengthPrefixTooLong)
}

} // verus!
