//! Calendar codec.
//!
//! The engine carries a date-time as a broken-down time — year stored as an
//! offset from 1900, month zero-based — plus a `(value, offset)` pair of
//! fractional seconds, where `offset` is the number of decimal digits of
//! precision.  `DateTime` is the calendar form this crate works with; the
//! codec converts between the two, encoding always at nanosecond precision
//! (offset 8) and refusing wire values whose fields name no valid calendar
//! instant.

use vstd::arithmetic::div_mod::lemma_mod_multiples_vanish;
use vstd::prelude::*;

use crate::error::TemporalError;

verus! {

/// Bit of the wire presence mask that asserts the fractional seconds are
/// populated.  The only presence bit this layer ever sets.
pub const FRACT_PRESENCE: u8 = 0x02;

/// The fractional-seconds precision `from_calendar` always encodes at:
/// offset 8 denominates the value in nanoseconds.
pub const NANOSECOND_OFFSET: u8 = 8;

/// Whether a year is a leap year in the proleptic Gregorian calendar.
pub open spec fn spec_is_leap_year(y: int) -> bool {
    (y % 4 == 0 && y % 100 != 0) || y % 400 == 0
}

/// Days in a month of a year, counting the leap day.
pub open spec fn spec_days_in_month(y: int, m: int) -> int {
    if m == 2 {
        if spec_is_leap_year(y) {
            29
        } else {
            28
        }
    } else if m == 4 || m == 6 || m == 9 || m == 11 {
        30
    } else {
        31
    }
}

/// Whether a year is a leap year.
pub fn is_leap_year(year: i32) -> (r: bool)
    ensures
        r == spec_is_leap_year(year as int),
{
    // Shift by a positive multiple of 400 so the remainders are taken of a
    // positive value, where Rust's remainder and the mathematical one agree.
    let shifted: i64 = year as i64 + 2_400_000_000;
    proof {
        lemma_mod_multiples_vanish(600_000_000, year as int, 4);
        lemma_mod_multiples_vanish(24_000_000, year as int, 100);
        lemma_mod_multiples_vanish(6_000_000, year as int, 400);
    }
    (shifted % 4 == 0 && shifted % 100 != 0) || shifted % 400 == 0
}

/// Days in the given month of the given year.
pub fn days_in_month(year: i32, month: u8) -> (r: u8)
    requires
        1 <= month <= 12,
    ensures
        r == spec_days_in_month(year as int, month as int),
{
    if month == 2 {
        if is_leap_year(year) {
            29
        } else {
            28
        }
    } else if month == 4 || month == 6 || month == 9 || month == 11 {
        30
    } else {
        31
    }
}

/// A calendar date-time without a time zone: the form the adapter's typed
/// values carry.
#[derive(Clone, Copy, Debug, PartialEq, Eq, Structural)]
pub struct DateTime {
    /// Calendar year (proleptic Gregorian).
    pub year: i32,
    /// Month, 1 through 12.
    pub month: u8,
    /// Day of month, 1-based.
    pub day: u8,
    /// Hour, 0 through 23.
    pub hour: u8,
    /// Minute, 0 through 59.
    pub minute: u8,
    /// Second, 0 through 59.
    pub second: u8,
    /// Nanoseconds within the second.
    pub nanosecond: u32,
}

impl DateTime {
    /// The fields name a valid calendar instant.  The year's lower bound
    /// keeps the wire form's offset from 1900 representable.
    pub open spec fn wf(self) -> bool {
        &&& self.year >= i32::MIN + 1900
        &&& 1 <= self.month <= 12
        &&& 1 <= self.day <= spec_days_in_month(self.year as int, self.month as int)
        &&& self.hour < 24
        &&& self.minute < 60
        &&& self.second < 60
        &&& self.nanosecond < 1_000_000_000
    }

    /// Build a date-time from its fields, refusing any combination that
    /// names no valid calendar instant.
    pub fn new(year: i32, month: u8, day: u8, hour: u8, minute: u8, second: u8, nanosecond: u32)
        -> (r: Result<DateTime, TemporalError>)
        ensures
            r is Ok <==> (DateTime { year, month, day, hour, minute, second, nanosecond }).wf(),
            r is Ok ==> r->Ok_0 == (DateTime { year, month, day, hour, minute, second, nanosecond }),
            r is Err ==> r->Err_0 == TemporalError::InvalidTemporal,
    {
        if year < i32::MIN + 1900 {
            return Err(TemporalError::InvalidTemporal);
        }
        if month < 1 || month > 12 {
            return Err(TemporalError::InvalidTemporal);
        }
        if day < 1 || day > days_in_month(year, month) {
            return Err(TemporalError::InvalidTemporal);
        }
        if hour >= 24 || minute >= 60 || second >= 60 || nanosecond >= 1_000_000_000 {
            return Err(TemporalError::InvalidTemporal);
        }
        Ok(DateTime { year, month, day, hour, minute, second, nanosecond })
    }
}

/// The wire-level fractional seconds: `value` scaled to `offset` decimal
/// digits of precision.
#[derive(Clone, Copy, Debug, PartialEq, Eq, Structural)]
pub struct FractionalSecs {
    /// Number of decimal digits of precision.
    pub offset: u8,
    /// The fraction, denominated in `10^-(offset+1)`-second ticks as the
    /// engine defines it; at offset 8 the value counts nanoseconds.
    pub value: u32,
}

/// The engine's broken-down date-time record, as plain values.
#[derive(Clone, Copy, Debug, PartialEq, Eq, Structural)]
pub struct ExiDateTime {
    /// Year as an offset from 1900.
    pub year_offset: i32,
    /// Month, zero-based.
    pub month0: i32,
    /// Day of month, 1-based.
    pub day: i32,
    /// Hour, 0 through 23.
    pub hour: i32,
    /// Minute, 0 through 59.
    pub minute: i32,
    /// Second, 0 through 59.
    pub second: i32,
    /// Fractional seconds, read only when the presence bit is set.
    pub fractional: FractionalSecs,
    /// Time zone field; this layer never populates it.
    pub time_zone: i16,
    /// Presence mask; this layer only ever asserts `FRACT_PRESENCE`.
    pub presence_mask: u8,
}

impl Default for ExiDateTime {
    /// The blank broken-down record: every field zero, nothing asserted
    /// present.
    fn default() -> (r: ExiDateTime)
        ensures
            r == (ExiDateTime {
                year_offset: 0,
                month0: 0,
                day: 0,
                hour: 0,
                minute: 0,
                second: 0,
                fractional: FractionalSecs { offset: 0, value: 0 },
                time_zone: 0,
                presence_mask: 0,
            }),
    {
        ExiDateTime {
            year_offset: 0,
            month0: 0,
            day: 0,
            hour: 0,
            minute: 0,
            second: 0,
            fractional: FractionalSecs { offset: 0, value: 0 },
            time_zone: 0,
            presence_mask: 0,
        }
    }
}

/// Ten to the `n`th power.
pub open spec fn pow10(n: nat) -> nat
    decreases n,
{
    if n == 0 {
        1
    } else {
        10 * pow10((n - 1) as nat)
    }
}

/// Ten to the `n`th power, for the fractional-seconds scale factors.
pub fn pow10_u64(n: u8) -> (r: u64)
    requires
        n <= 8,
    ensures
        r == pow10(n as nat),
        r <= 100_000_000,
{
    proof {
        reveal_with_fuel(pow10, 9);
    }
    if n == 0 {
        1
    } else if n == 1 {
        10
    } else if n == 2 {
        100
    } else if n == 3 {
        1_000
    } else if n == 4 {
        10_000
    } else if n == 5 {
        100_000
    } else if n == 6 {
        1_000_000
    } else if n == 7 {
        10_000_000
    } else {
        100_000_000
    }
}

/// The wire form a calendar instant encodes to: direct field mapping, the
/// year offset from 1900, the month zero-based, fractional seconds always
/// at nanosecond precision with the presence bit asserted, and the time
/// zone left unpopulated.
pub open spec fn encoded(dt: DateTime) -> ExiDateTime {
    ExiDateTime {
        year_offset: (dt.year - 1900) as i32,
        month0: (dt.month - 1) as i32,
        day: dt.day as i32,
        hour: dt.hour as i32,
        minute: dt.minute as i32,
        second: dt.second as i32,
        fractional: FractionalSecs { offset: NANOSECOND_OFFSET, value: dt.nanosecond },
        time_zone: 0,
        presence_mask: FRACT_PRESENCE,
    }
}

/// Whether a wire value asserts its fractional seconds.
pub open spec fn fract_present(w: ExiDateTime) -> bool {
    w.presence_mask & FRACT_PRESENCE != 0
}

/// The nanoseconds a wire value stands for: the stored fraction scaled up
/// to nanosecond precision when present and within precision, zero
/// otherwise (absence of the presence bit, or an offset beyond 8).
pub open spec fn wire_nanos(w: ExiDateTime) -> int {
    if fract_present(w) && w.fractional.offset <= 8 {
        w.fractional.value * pow10((8 - w.fractional.offset) as nat)
    } else {
        0
    }
}

/// Whether the wire fields name a valid calendar instant that `DateTime`
/// can hold.
pub open spec fn wire_valid(w: ExiDateTime) -> bool {
    &&& w.year_offset <= i32::MAX - 1900
    &&& 0 <= w.month0 <= 11
    &&& 1 <= w.day <= spec_days_in_month(w.year_offset + 1900, w.month0 + 1)
    &&& 0 <= w.hour < 24
    &&& 0 <= w.minute < 60
    &&& 0 <= w.second < 60
    &&& wire_nanos(w) < 1_000_000_000
}

/// The calendar instant a valid wire value decodes to.
pub open spec fn decoded(w: ExiDateTime) -> DateTime {
    DateTime {
        year: (w.year_offset + 1900) as i32,
        month: (w.month0 + 1) as u8,
        day: w.day as u8,
        hour: w.hour as u8,
        minute: w.minute as u8,
        second: w.second as u8,
        nanosecond: wire_nanos(w) as u32,
    }
}

impl ExiDateTime {
    /// Encode a calendar instant into the engine's broken-down form.
    pub fn from_calendar(dt: &DateTime) -> (r: ExiDateTime)
        requires
            dt.wf(),
        ensures
            r == encoded(*dt),
    {
        ExiDateTime {
            year_offset: dt.year - 1900,
            month0: (dt.month - 1) as i32,
            day: dt.day as i32,
            hour: dt.hour as i32,
            minute: dt.minute as i32,
            second: dt.second as i32,
            fractional: FractionalSecs { offset: NANOSECOND_OFFSET, value: dt.nanosecond },
            time_zone: 0,
            presence_mask: FRACT_PRESENCE,
        }
    }
}

impl DateTime {
    /// Decode the engine's broken-down form back into a calendar instant,
    /// reconstructing nanoseconds by scaling the stored fraction, and
    /// failing — never panicking — on fields that name no valid instant.
    pub fn from_wire(w: &ExiDateTime) -> (r: Result<DateTime, TemporalError>)
        ensures
            r is Ok <==> wire_valid(*w),
            r is Ok ==> r->Ok_0 == decoded(*w),
            r is Err ==> r->Err_0 == TemporalError::InvalidTemporal,
    {
        if w.year_offset > i32::MAX - 1900 {
            return Err(TemporalError::InvalidTemporal);
        }
        let year: i32 = w.year_offset + 1900;
        if w.month0 < 0 || w.month0 > 11 {
            return Err(TemporalError::InvalidTemporal);
        }
        let month: u8 = (w.month0 + 1) as u8;
        if w.day < 1 || w.day > days_in_month(year, month) as i32 {
            return Err(TemporalError::InvalidTemporal);
        }
        if w.hour < 0 || w.hour >= 24 || w.minute < 0 || w.minute >= 60 || w.second < 0
            || w.second >= 60 {
            return Err(TemporalError::InvalidTemporal);
        }
        let nanos64: u64 = if w.presence_mask & FRACT_PRESENCE != 0 && w.fractional.offset <= 8 {
            let v: u64 = w.fractional.value as u64;
            let scale: u64 = pow10_u64(8 - w.fractional.offset);
            proof {
                assert(v * scale <= 4_294_967_295u64 * 100_000_000u64) by (nonlinear_arith)
                    requires
                        v <= 4_294_967_295u64,
                        scale <= 100_000_000u64,
                ;
            }
            v * scale
        } else {
            0
        };
        if nanos64 >= 1_000_000_000 {
            return Err(TemporalError::InvalidTemporal);
        }
        Ok(
            DateTime {
                year,
                month,
                day: w.day as u8,
                hour: w.hour as u8,
                minute: w.minute as u8,
                second: w.second as u8,
                nanosecond: nanos64 as u32,
            },
        )
    }
}

/// Temporal round trip: every valid calendar instant — any sub-second
/// precision nanoseconds can express — encodes to a wire value that is
/// accepted back and decodes to the original instant exactly.
pub proof fn lemma_temporal_roundtrip(dt: DateTime)
    requires
        dt.wf(),
    ensures
        wire_valid(encoded(dt)),
        decoded(encoded(dt)) == dt,
{
    let w = encoded(dt);
    assert(0x02u8 & 0x02u8 != 0) by (bit_vector);
    assert(fract_present(w));
    assert(pow10((8 - NANOSECOND_OFFSET) as nat) == 1);
    assert(wire_nanos(w) == w.fractional.value * 1);
    assert(wire_nanos(w) == dt.nanosecond);
}

} // verus!
