//! Wall-clock readings as plain values.
//!
//! The capture pipeline never asks the platform for the time itself: every
//! decision that depends on the clock takes a `Clock` argument, so the logic
//! is verified for every reading. `now_clock` is the one place a reading is
//! taken.

use vstd::prelude::*;

verus! {

/// Calendar dates only reach about 262,000 years either side of the common
/// epoch, so milliseconds since the epoch stay well inside this bound.
pub const CLOCK_MS_BOUND: i64 = 10_000_000_000_000_000;

/// A calendar date.
#[derive(Debug, Clone, Copy, PartialEq, Eq, Structural)]
pub struct LogDate {
    pub year: i32,
    pub month: u8,
    pub day: u8,
}

impl LogDate {
    pub open spec fn wf(self) -> bool {
        &&& 1 <= self.month <= 12
        &&& 1 <= self.day <= 31
    }
}

/// One reading of the wall clock: a millisecond timestamp for elapsed-time
/// comparisons, and the local calendar date and time of day for rendering.
#[derive(Debug, Clone, Copy, PartialEq, Eq, Structural)]
pub struct Clock {
    /// Non-leap milliseconds since January 1, 1970 UTC.
    pub ms: i64,
    pub year: i32,
    pub month: u8,
    pub day: u8,
    pub hour: u8,
    pub minute: u8,
    pub second: u8,
}

pub open spec fn date_of(c: Clock) -> LogDate {
    LogDate { year: c.year, month: c.month, day: c.day }
}

impl Clock {
    pub open spec fn wf(self) -> bool {
        &&& 1 <= self.month <= 12
        &&& 1 <= self.day <= 31
        &&& self.hour <= 23
        &&& self.minute <= 59
        &&& self.second <= 59
        &&& -CLOCK_MS_BOUND <= self.ms <= CLOCK_MS_BOUND
    }

    /// The calendar date of this reading.
    pub fn date(&self) -> (d: LogDate)
        ensures
            d == date_of(*self),
    {
        LogDate { year: self.year, month: self.month, day: self.day }
    }
}

/// Reads the local wall clock.
///
/// Relies on chrono::Local::now and the field accessors of the returned
/// date-time: month() ranges over 1..=12 and day() over 1..=31, hour() over
/// 0..=23, minute() and second() over 0..=59, and timestamp_millis() is the
/// non-leap milliseconds since January 1, 1970 UTC, bounded because chrono
/// dates reach only from January 1, 262145 BCE to December 31, 262143 CE.
/// The reading itself depends on the machine's clock, so nothing more is
/// promised.
#[verifier::external_body]
pub fn now_clock() -> (c: Clock)
    ensures
        c.wf(),
{
    let dt = chrono::Local::now();
    Clock {
        ms: chrono::DateTime::timestamp_millis(&dt),
        year: chrono::Datelike::year(&dt),
        month: chrono::Datelike::month(&dt) as u8,
        day: chrono::Datelike::day(&dt) as u8,
        hour: chrono::Timelike::hour(&dt) as u8,
        minute: chrono::Timelike::minute(&dt) as u8,
        second: chrono::Timelike::second(&dt) as u8,
    }
}

/// Milliseconds elapsed from an earlier reading to a later one, zero when the
/// clock has moved backwards.
pub open spec fn elapsed_ms(earlier: i64, now: i64) -> int {
    if now >= earlier {
        now - earlier
    } else {
        0
    }
}

} // verus!
