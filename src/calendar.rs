//! Calendar values as plain fields, and the calendar computations that are
//! delegated to chrono.
use vstd::prelude::*;
use chrono::{Datelike, Timelike};

verus! {

/// A date of the proleptic Gregorian calendar.
#[derive(Clone, Copy, Debug, PartialEq, Eq, Structural)]
pub struct CivilDate {
    pub year: i32,
    pub month: u32,
    pub day: u32,
}

/// A time of day. `nano` is at least one second only during a leap second.
#[derive(Clone, Copy, Debug, PartialEq, Eq, Structural)]
pub struct ClockTime {
    pub hour: u32,
    pub minute: u32,
    pub second: u32,
    pub nano: u32,
}

/// A date together with a time of day, without a time zone.
#[derive(Clone, Copy, Debug, PartialEq, Eq, Structural)]
pub struct CivilDateTime {
    pub date: CivilDate,
    pub time: ClockTime,
}

pub open spec fn spec_midnight() -> ClockTime {
    ClockTime { hour: 0, minute: 0, second: 0, nano: 0 }
}

/// The start of a day.
pub fn midnight() -> (r: ClockTime)
    ensures
        r == spec_midnight(),
{
    ClockTime { hour: 0, minute: 0, second: 0, nano: 0 }
}

/// The UTC instant `secs` seconds and `nsecs` nanoseconds after the Unix
/// epoch, or `None` where chrono cannot represent it.
pub uninterp spec fn datetime_at(secs: i64, nsecs: u32) -> Option<CivilDateTime>;

/// What chrono reads from an ISO 8601 date-and-time string.
pub uninterp spec fn datetime_iso(s: Seq<char>) -> Option<CivilDateTime>;

/// What chrono reads from a date-and-time string under a strftime format.
pub uninterp spec fn datetime_parsed(s: Seq<char>, fmt: Seq<char>) -> Option<CivilDateTime>;

/// What chrono reads from an ISO 8601 date string.
pub uninterp spec fn date_iso(s: Seq<char>) -> Option<CivilDate>;

/// What chrono reads as a date from a string under a strftime format.
pub uninterp spec fn date_parsed(s: Seq<char>, fmt: Seq<char>) -> Option<CivilDate>;

/// Relies on `chrono::DateTime::from_timestamp`: the UTC date and time of a
/// Unix timestamp, `None` on an out-of-range second or nanosecond count.
#[verifier::external_body]
pub(crate) fn datetime_from_timestamp(secs: i64, nsecs: u32) -> (r: Option<CivilDateTime>)
    ensures
        r == datetime_at(secs, nsecs),
{
    let t = chrono::DateTime::from_timestamp(secs, nsecs)?.naive_utc();
    Some(CivilDateTime {
        date: CivilDate { year: t.year(), month: t.month(), day: t.day() },
        time: ClockTime { hour: t.hour(), minute: t.minute(), second: t.second(), nano: t.nanosecond() },
    })
}

/// Relies on `chrono::NaiveDateTime`'s `FromStr`: parses an ISO 8601 date and
/// time such as `2020-01-02T03:04:05`.
#[verifier::external_body]
pub(crate) fn parse_datetime_iso(s: &str) -> (r: Option<CivilDateTime>)
    ensures
        r == datetime_iso(s@),
{
    let t = s.parse::<chrono::NaiveDateTime>().ok()?;
    Some(CivilDateTime {
        date: CivilDate { year: t.year(), month: t.month(), day: t.day() },
        time: ClockTime { hour: t.hour(), minute: t.minute(), second: t.second(), nano: t.nanosecond() },
    })
}

/// Relies on `chrono::NaiveDateTime::parse_from_str`: parses a date and time
/// under a strftime-style format; fails where the format gives no time.
#[verifier::external_body]
pub(crate) fn parse_datetime(s: &str, fmt: &str) -> (r: Option<CivilDateTime>)
    ensures
        r == datetime_parsed(s@, fmt@),
{
    let t = chrono::NaiveDateTime::parse_from_str(s, fmt).ok()?;
    Some(CivilDateTime {
        date: CivilDate { year: t.year(), month: t.month(), day: t.day() },
        time: ClockTime { hour: t.hour(), minute: t.minute(), second: t.second(), nano: t.nanosecond() },
    })
}

/// Relies on `chrono::NaiveDate`'s `FromStr`: parses an ISO 8601 date such as
/// `2020-01-02`.
#[verifier::external_body]
pub(crate) fn parse_date_iso(s: &str) -> (r: Option<CivilDate>)
    ensures
        r == date_iso(s@),
{
    let d = s.parse::<chrono::NaiveDate>().ok()?;
    Some(CivilDate { year: d.year(), month: d.month(), day: d.day() })
}

/// Relies on `chrono::NaiveDate::parse_from_str`: reads the date fields of a
/// string under a strftime-style format.
#[verifier::external_body]
pub(crate) fn parse_date(s: &str, fmt: &str) -> (r: Option<CivilDate>)
    ensures
        r == date_parsed(s@, fmt@),
{
    let d = chrono::NaiveDate::parse_from_str(s, fmt).ok()?;
    Some(CivilDate { year: d.year(), month: d.month(), day: d.day() })
}

} // verus!
