//! Instants in time as the format stores them: a .NET-style tick count in
//! the low 62 bits, a UTC flag in bit 62. A fixed offset relates the tick
//! count to the Windows file-time epoch.

use vstd::prelude::*;

verus! {

/// Ticks between the tick epoch and the Windows file-time epoch.
pub const FILE_TIME_OFFSET: i64 = 504911232000000000;

/// Largest valid tick count.
pub const MAX_TICKS: i64 = 3155378975999999999;

/// The UTC flag: bit 62.
pub const UTC_FLAG: i64 = 0x4000_0000_0000_0000;

/// An instant in time, as serialized: ticks plus flag bits.
#[derive(Debug, Clone, Copy, PartialEq, Eq, Hash, Default, PartialOrd, Ord, Structural)]
pub struct DistanceDateTime(pub i64);

impl DistanceDateTime {
    /// The tick count, the flag bits masked off.
    pub open spec fn spec_ticks(self) -> i64 {
        (self.0 as int % 0x4000_0000_0000_0000) as i64
    }

    /// The tick count with the flag bits masked off.
    pub fn ticks(self) -> (r: i64)
        requires
            self.0 >= 0,
        ensures
            r == self.spec_ticks(),
            0 <= r < UTC_FLAG,
    {
        self.0 % 0x4000_0000_0000_0000i64
    }

    /// The instant a Windows file time denotes: the offset shifted onto the
    /// tick scale and the UTC flag set. A file time before the tick epoch
    /// or after the largest representable instant has no value here.
    pub fn from_windows_file_time(file_time: i64) -> (r: Option<DistanceDateTime>)
        ensures
            match r {
                Some(dt) => 0 <= file_time && file_time + FILE_TIME_OFFSET <= MAX_TICKS && dt.0
                    == file_time + FILE_TIME_OFFSET + UTC_FLAG && dt.spec_ticks() == file_time
                    + FILE_TIME_OFFSET,
                Option::None => file_time < 0 || file_time + FILE_TIME_OFFSET > MAX_TICKS,
            },
    {
        if file_time < 0 {
            return Option::None;
        }
        if file_time > MAX_TICKS - FILE_TIME_OFFSET {
            return Option::None;
        }
        let ticks = file_time + FILE_TIME_OFFSET;
        proof {
            lemma_file_time_roundtrip(file_time);
        }
        Some(DistanceDateTime(ticks + UTC_FLAG))
    }

    /// The Windows file time of this instant: the ticks shifted back.
    /// An instant earlier than the file-time epoch has no file time.
    pub fn to_windows_file_time(self) -> (r: Option<i64>)
        requires
            self.0 >= 0,
        ensures
            match r {
                Some(ft) => ft == self.spec_ticks() - FILE_TIME_OFFSET && ft >= 0,
                Option::None => self.spec_ticks() < FILE_TIME_OFFSET,
            },
    {
        let ticks = self.ticks();
        if ticks < FILE_TIME_OFFSET {
            return Option::None;
        }
        Some(ticks - FILE_TIME_OFFSET)
    }
}

/// The two conversions invert each other on every file time both accept.
pub proof fn lemma_file_time_roundtrip(file_time: i64)
    requires
        0 <= file_time,
        file_time + FILE_TIME_OFFSET <= MAX_TICKS,
    ensures
        ({
            let ticks = file_time + FILE_TIME_OFFSET;
            (ticks + UTC_FLAG) as int % 0x4000_0000_0000_0000 == ticks
        }),
{
    let ticks = file_time + FILE_TIME_OFFSET;
    assert((ticks + UTC_FLAG) as int % 0x4000_0000_0000_0000 == ticks) by (nonlinear_arith)
        requires
            0 <= ticks < 0x4000_0000_0000_0000,
            UTC_FLAG == 0x4000_0000_0000_0000,
    ;
}

} // verus!
