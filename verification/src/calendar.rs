//! Calendar days in the reference time zone.
//!
//! Daily claims are keyed to calendar days as they are counted in
//! Europe/Berlin, not to UTC days and not to rolling 24-hour windows.

use chrono::{DateTime, Datelike, Utc};
use chrono_tz::Europe::Berlin;
use vstd::prelude::*;

verus! {

/// A calendar date: proleptic Gregorian year, month and day of month.
#[derive(Clone, Copy, Debug, PartialEq, Eq, Structural)]
pub struct CalendarDate {
    pub year: i32,
    pub month: u32,
    pub day: u32,
}

impl CalendarDate {
    /// The month is one of the twelve and the day is one that some month has.
    pub open spec fn is_plausible(self) -> bool {
        1 <= self.month <= 12 && 1 <= self.day <= 31
    }

    /// Year, month and day as mathematical integers.
    pub open spec fn ymd(self) -> (int, int, int) {
        (self.year as int, self.month as int, self.day as int)
    }
}

/// The last second of the year 9999, as seconds since the Unix epoch.
pub const LAST_SUPPORTED_SECOND: i64 = 253_402_300_799;

/// The instants this module converts: from the Unix epoch to the end of the
/// year 9999.
pub open spec fn is_supported_instant(unix_seconds: int) -> bool {
    0 <= unix_seconds <= LAST_SUPPORTED_SECOND
}

/// The date (year, month, day) that clocks in Europe/Berlin show at the
/// given number of seconds since the Unix epoch, as the time zone database
/// compiled into `chrono-tz` has it.
pub uninterp spec fn berlin_date_at(unix_seconds: int) -> (int, int, int);

/// The date is the Berlin date of some supported instant.
pub open spec fn is_reference_date(date: CalendarDate) -> bool {
    exists|unix_seconds: int|
        is_supported_instant(unix_seconds) && date.ymd() == #[trigger] berlin_date_at(
            unix_seconds,
        )
}

/// Calls `chrono::DateTime::from_timestamp`, moves the instant to
/// `chrono_tz::Europe::Berlin` with `DateTime::with_timezone` and reads the
/// local date with `DateTime::date_naive`.
///
/// Trusted: the result is the Berlin date of that instant, with a month from
/// 1 to 12 and a day from 1 to 31 as `chrono::Datelike` documents. Within the
/// supported instants `from_timestamp` always yields a value and the local
/// date cannot leave the range of `NaiveDate`, so the call does not panic.
#[verifier::external_body]
fn berlin_date_of(unix_seconds: i64) -> (date: Option<CalendarDate>)
    requires
        is_supported_instant(unix_seconds as int),
    ensures
        date is Some,
        date.unwrap().is_plausible(),
        date.unwrap().ymd() == berlin_date_at(unix_seconds as int),
{
    match DateTime::from_timestamp(unix_seconds, 0) {
        Some(instant) => {
            let local = instant.with_timezone(&Berlin).date_naive();
            Some(CalendarDate { year: local.year(), month: local.month(), day: local.day() })
        },
        None => None,
    }
}

/// Calls `chrono::Utc::now` and `DateTime::timestamp`.
///
/// Trusted: nothing is claimed of the reading. `Utc::now` panics when the
/// system clock stands before the Unix epoch.
#[verifier::external_body]
fn unix_now() -> (unix_seconds: i64) {
    Utc::now().timestamp()
}

/// The reference-zone date of an instant, or `None` for an instant outside
/// the supported range.
pub fn reference_date_at(unix_seconds: i64) -> (date: Option<CalendarDate>)
    ensures
        date is Some <==> is_supported_instant(unix_seconds as int),
        date matches Some(d) ==> d.is_plausible() && d.ymd() == berlin_date_at(unix_seconds as int),
        date matches Some(d) ==> is_reference_date(d),
{
    if 0 <= unix_seconds && unix_seconds <= LAST_SUPPORTED_SECOND {
        berlin_date_of(unix_seconds)
    } else {
        None
    }
}

/// Today's date in the reference zone, read from the system clock. `None`
/// when the clock shows an instant outside the supported range.
pub fn today_in_reference_zone() -> (date: Option<CalendarDate>)
    ensures
        date matches Some(d) ==> d.is_plausible() && is_reference_date(d),
{
    let now: i64 = unix_now();
    reference_date_at(now)
}

} // verus!
