//! Owned sequences of calendar values.
use vstd::prelude::*;
use vstd::arithmetic::div_mod::lemma_fundamental_div_mod_converse;
use crate::calendar::{
    datetime_at, datetime_from_timestamp, datetime_iso, datetime_parsed, date_iso, date_parsed,
    midnight, parse_date, parse_date_iso, parse_datetime, parse_datetime_iso,
    spec_midnight, CivilDate, CivilDateTime, ClockTime,
};
use crate::dtype::Dtype;
use crate::error::Error;
use crate::series::{copy_seq, Series};

verus! {

/// A sequence of dates with times of day.
#[derive(Debug)]
pub struct DateTime {
    pub vec: Vec<CivilDateTime>,
}

/// A sequence of dates.
#[derive(Debug)]
pub struct Date {
    pub vec: Vec<CivilDate>,
}

/// A sequence of times of day.
#[derive(Debug)]
pub struct Time {
    pub vec: Vec<ClockTime>,
}

/// A sequence of durations, in nanoseconds. Durations are built from integer
/// counts of a unit only: reading durations from strings is not supported.
#[derive(Debug)]
pub struct Duration {
    pub vec: Vec<i128>,
}

impl Clone for DateTime {
    fn clone(&self) -> (r: Self)
        ensures
            r.vec@ == self.vec@,
    {
        DateTime { vec: copy_seq(&self.vec) }
    }
}

impl Clone for Date {
    fn clone(&self) -> (r: Self)
        ensures
            r.vec@ == self.vec@,
    {
        Date { vec: copy_seq(&self.vec) }
    }
}

impl Clone for Time {
    fn clone(&self) -> (r: Self)
        ensures
            r.vec@ == self.vec@,
    {
        Time { vec: copy_seq(&self.vec) }
    }
}

impl Clone for Duration {
    fn clone(&self) -> (r: Self)
        ensures
            r.vec@ == self.vec@,
    {
        Duration { vec: copy_seq(&self.vec) }
    }
}

impl DateTime {
    pub fn len(&self) -> (r: usize)
        ensures
            r == self.vec@.len(),
    {
        self.vec.len()
    }
}

impl Date {
    pub fn len(&self) -> (r: usize)
        ensures
            r == self.vec@.len(),
    {
        self.vec.len()
    }
}

impl Time {
    pub fn len(&self) -> (r: usize)
        ensures
            r == self.vec@.len(),
    {
        self.vec.len()
    }
}

impl Duration {
    pub fn len(&self) -> (r: usize)
        ensures
            r == self.vec@.len(),
    {
        self.vec.len()
    }
}

pub const NANOS_PER_SEC: u64 = 1_000_000_000;

pub const MICROS_PER_SEC: u64 = 1_000_000;

pub const MILLIS_PER_SEC: u64 = 1_000;

/// The tick rates of timestamps in seconds, milliseconds, microseconds and
/// nanoseconds.
pub open spec fn is_tick_rate(per_sec: int) -> bool {
    per_sec == 1 || per_sec == 1_000 || per_sec == 1_000_000 || per_sec == 1_000_000_000
}

/// The instant of a Unix timestamp counted in `per_sec` ticks per second:
/// whole seconds rounded toward negative infinity, and the remaining ticks
/// as nanoseconds.
pub open spec fn instant(x: i64, per_sec: int) -> Option<CivilDateTime> {
    datetime_at((x as int / per_sec) as i64, ((x as int % per_sec) * (1_000_000_000int / per_sec)) as u32)
}

/// All values when every one is present.
pub open spec fn all_some<T>(s: Seq<Option<T>>) -> Option<Seq<T>> {
    if forall|i: int| 0 <= i < s.len() ==> #[trigger] s[i] is Some {
        Some(Seq::new(s.len(), |i: int| s[i]->0))
    } else {
        None
    }
}

/// The instant of each timestamp of `ts`.
pub open spec fn instants(ts: Seq<i64>, per_sec: int) -> Seq<Option<CivilDateTime>> {
    Seq::new(ts.len(), |i: int| instant(ts[i], per_sec))
}

/// A date and time read from `s`: in ISO 8601 when `fmt` is `None`; under
/// `fmt` otherwise, where a string that gives only a date reads as its
/// midnight.
pub open spec fn read_datetime(s: Seq<char>, fmt: Option<Seq<char>>) -> Option<CivilDateTime> {
    match fmt {
        None => datetime_iso(s),
        Some(f) => spec_or_midnight(datetime_parsed(s, f), date_parsed(s, f)),
    }
}

pub open spec fn spec_or_midnight(full: Option<CivilDateTime>, date: Option<CivilDate>) -> Option<
    CivilDateTime,
> {
    match full {
        Some(t) => Some(t),
        None => match date {
            Some(d) => Some(CivilDateTime { date: d, time: spec_midnight() }),
            None => None,
        },
    }
}

/// A date and time read in full, else midnight of a date read alone.
pub fn or_midnight(full: Option<CivilDateTime>, date: Option<CivilDate>) -> (r: Option<CivilDateTime>)
    ensures
        r == spec_or_midnight(full, date),
{
    match full {
        Some(t) => Some(t),
        None => match date {
            Some(d) => Some(CivilDateTime { date: d, time: midnight() }),
            None => None,
        },
    }
}

/// A date read from `s`, in ISO 8601 or under `fmt`.
pub open spec fn read_date(s: Seq<char>, fmt: Option<Seq<char>>) -> Option<CivilDate> {
    match fmt {
        None => date_iso(s),
        Some(f) => date_parsed(s, f),
    }
}

/// A time of day read from `s`: the time part of a full date and time, in
/// ISO 8601 or under `fmt`.
pub open spec fn read_time(s: Seq<char>, fmt: Option<Seq<char>>) -> Option<ClockTime> {
    match fmt {
        None => match datetime_iso(s) {
            Some(t) => Some(t.time),
            None => None,
        },
        Some(f) => match datetime_parsed(s, f) {
            Some(t) => Some(t.time),
            None => None,
        },
    }
}

pub open spec fn read_datetimes(ss: Seq<String>, fmt: Option<Seq<char>>) -> Seq<Option<CivilDateTime>> {
    Seq::new(ss.len(), |i: int| read_datetime(ss[i]@, fmt))
}

pub open spec fn read_dates(ss: Seq<String>, fmt: Option<Seq<char>>) -> Seq<Option<CivilDate>> {
    Seq::new(ss.len(), |i: int| read_date(ss[i]@, fmt))
}

pub open spec fn read_times(ss: Seq<String>, fmt: Option<Seq<char>>) -> Seq<Option<ClockTime>> {
    Seq::new(ss.len(), |i: int| read_time(ss[i]@, fmt))
}

/// `r` holds the values when all are present, and fails with `e` otherwise.
pub open spec fn outcome<T>(r: Result<Seq<T>, Error>, vals: Option<Seq<T>>, e: Error) -> bool {
    match vals {
        Some(v) => r == Ok::<Seq<T>, Error>(v),
        None => r == Err::<Seq<T>, Error>(e),
    }
}

pub open spec fn vec_view<T>(r: Result<Vec<T>, Error>) -> Result<Seq<T>, Error> {
    match r {
        Ok(v) => Ok(v@),
        Err(e) => Err(e),
    }
}

/// Splits a timestamp counted in `per_sec` ticks per second into whole
/// seconds, rounded toward negative infinity, and the remaining nanoseconds.
pub fn split_ticks(x: i64, per_sec: u64) -> (r: (i64, u32))
    requires
        is_tick_rate(per_sec as int),
    ensures
        r.0 == x as int / per_sec as int,
        r.1 == (x as int % per_sec as int) * (1_000_000_000int / per_sec as int),
{
    let scale: u64 = NANOS_PER_SEC / per_sec;
    assert(scale * per_sec == 1_000_000_000);
    if x >= 0 {
        let u = x as u64;
        let q = u / per_sec;
        let m = u % per_sec;
        assert(m * scale < 1_000_000_000) by (nonlinear_arith)
            requires
                m < per_sec,
                scale * per_sec == 1_000_000_000,
        ;
        (q as i64, (m * scale) as u32)
    } else {
        let n = (-(x + 1)) as u64;
        let q = n / per_sec;
        let m = n % per_sec;
        let secs = -(q as i64) - 1;
        let rem = per_sec - 1 - m;
        proof {
            let d = per_sec as int;
            assert(n as int == q as int * d + m as int) by (nonlinear_arith)
                requires
                    q as int == n as int / d,
                    m as int == n as int % d,
                    d > 0,
            {
                vstd::arithmetic::div_mod::lemma_fundamental_div_mod(n as int, d);
            }
            assert(x as int == secs as int * d + rem as int) by (nonlinear_arith)
                requires
                    n as int == q as int * d + m as int,
                    x as int == -(n as int) - 1,
                    secs as int == -(q as int) - 1,
                    rem as int == d - 1 - m as int,
            ;
            lemma_fundamental_div_mod_converse(x as int, d, secs as int, rem as int);
        }
        assert(rem * scale < 1_000_000_000) by (nonlinear_arith)
            requires
                rem < per_sec,
                scale * per_sec == 1_000_000_000,
        ;
        (secs, (rem * scale) as u32)
    }
}

fn instants_of(ts: &Vec<i64>, per_sec: u64) -> (r: Result<Vec<CivilDateTime>, Error>)
    requires
        is_tick_rate(per_sec as int),
    ensures
        outcome(vec_view(r), all_some(instants(ts@, per_sec as int)), Error::OutOfRange),
{
    let ghost all = instants(ts@, per_sec as int);
    let mut r: Vec<CivilDateTime> = Vec::new();
    let mut i: usize = 0;
    while i < ts.len()
        invariant
            is_tick_rate(per_sec as int),
            all == instants(ts@, per_sec as int),
            i <= ts@.len(),
            r@.len() == i,
            forall|j: int| 0 <= j < i ==> all[j] == Some(#[trigger] r@[j]),
        decreases ts@.len() - i,
    {
        let (secs, nsecs) = split_ticks(ts[i], per_sec);
        match datetime_from_timestamp(secs, nsecs) {
            Some(t) => r.push(t),
            None => {
                assert(all[i as int] is None);
                return Err(Error::OutOfRange);
            },
        }
        i += 1;
    }
    assert(all_some(all) == Some(r@)) by {
        assert forall|j: int| 0 <= j < all.len() implies #[trigger] all[j] is Some by {
            assert(all[j] == Some(r@[j]));
        }
        assert(Seq::new(all.len(), |j: int| all[j]->0) =~= r@);
    }
    Ok(r)
}

fn datetimes_read(ss: &Vec<String>, fmt: Option<&str>) -> (r: Result<Vec<CivilDateTime>, Error>)
    ensures
        outcome(vec_view(r), all_some(read_datetimes(ss@, fmt_view(fmt))), Error::ParseError),
{
    let ghost all = read_datetimes(ss@, fmt_view(fmt));
    let mut r: Vec<CivilDateTime> = Vec::new();
    let mut i: usize = 0;
    while i < ss.len()
        invariant
            all == read_datetimes(ss@, fmt_view(fmt)),
            i <= ss@.len(),
            r@.len() == i,
            forall|j: int| 0 <= j < i ==> all[j] == Some(#[trigger] r@[j]),
        decreases ss@.len() - i,
    {
        let s = ss[i].as_str();
        let t = match fmt {
            None => parse_datetime_iso(s),
            Some(f) => or_midnight(parse_datetime(s, f), parse_date(s, f)),
        };
        match t {
            Some(t) => r.push(t),
            None => {
                assert(all[i as int] is None);
                return Err(Error::ParseError);
            },
        }
        i += 1;
    }
    assert(all_some(all) == Some(r@)) by {
        assert forall|j: int| 0 <= j < all.len() implies #[trigger] all[j] is Some by {
            assert(all[j] == Some(r@[j]));
        }
        assert(Seq::new(all.len(), |j: int| all[j]->0) =~= r@);
    }
    Ok(r)
}

fn dates_read(ss: &Vec<String>, fmt: Option<&str>) -> (r: Result<Vec<CivilDate>, Error>)
    ensures
        outcome(vec_view(r), all_some(read_dates(ss@, fmt_view(fmt))), Error::ParseError),
{
    let ghost all = read_dates(ss@, fmt_view(fmt));
    let mut r: Vec<CivilDate> = Vec::new();
    let mut i: usize = 0;
    while i < ss.len()
        invariant
            all == read_dates(ss@, fmt_view(fmt)),
            i <= ss@.len(),
            r@.len() == i,
            forall|j: int| 0 <= j < i ==> all[j] == Some(#[trigger] r@[j]),
        decreases ss@.len() - i,
    {
        let s = ss[i].as_str();
        let d = match fmt {
            None => parse_date_iso(s),
            Some(f) => parse_date(s, f),
        };
        match d {
            Some(d) => r.push(d),
            None => {
                assert(all[i as int] is None);
                return Err(Error::ParseError);
            },
        }
        i += 1;
    }
    assert(all_some(all) == Some(r@)) by {
        assert forall|j: int| 0 <= j < all.len() implies #[trigger] all[j] is Some by {
            assert(all[j] == Some(r@[j]));
        }
        assert(Seq::new(all.len(), |j: int| all[j]->0) =~= r@);
    }
    Ok(r)
}

fn times_read(ss: &Vec<String>, fmt: Option<&str>) -> (r: Result<Vec<ClockTime>, Error>)
    ensures
        outcome(vec_view(r), all_some(read_times(ss@, fmt_view(fmt))), Error::ParseError),
{
    let ghost all = read_times(ss@, fmt_view(fmt));
    let mut r: Vec<ClockTime> = Vec::new();
    let mut i: usize = 0;
    while i < ss.len()
        invariant
            all == read_times(ss@, fmt_view(fmt)),
            i <= ss@.len(),
            r@.len() == i,
            forall|j: int| 0 <= j < i ==> all[j] == Some(#[trigger] r@[j]),
        decreases ss@.len() - i,
    {
        let s = ss[i].as_str();
        let c = match fmt {
            None => match parse_datetime_iso(s) {
                Some(t) => Some(t.time),
                None => None,
            },
            Some(f) => match parse_datetime(s, f) {
                Some(t) => Some(t.time),
                None => None,
            },
        };
        match c {
            Some(c) => r.push(c),
            None => {
                assert(all[i as int] is None);
                return Err(Error::ParseError);
            },
        }
        i += 1;
    }
    assert(all_some(all) == Some(r@)) by {
        assert forall|j: int| 0 <= j < all.len() implies #[trigger] all[j] is Some by {
            assert(all[j] == Some(r@[j]));
        }
        assert(Seq::new(all.len(), |j: int| all[j]->0) =~= r@);
    }
    Ok(r)
}

pub open spec fn fmt_view(fmt: Option<&str>) -> Option<Seq<char>> {
    match fmt {
        Some(f) => Some(f@),
        None => None,
    }
}

pub open spec fn date_parts(v: Seq<CivilDateTime>) -> Seq<CivilDate> {
    v.map_values(|t: CivilDateTime| t.date)
}

pub open spec fn time_parts(v: Seq<CivilDateTime>) -> Seq<ClockTime> {
    v.map_values(|t: CivilDateTime| t.time)
}

/// The durations of `ts` counted in units of `nanos` nanoseconds.
pub open spec fn scaled(ts: Seq<i64>, nanos: int) -> Seq<i128> {
    ts.map_values(|x: i64| (x * nanos) as i128)
}

fn date_parts_of(v: &Vec<CivilDateTime>) -> (r: Vec<CivilDate>)
    ensures
        r@ == date_parts(v@),
{
    let mut r: Vec<CivilDate> = Vec::new();
    let mut i: usize = 0;
    while i < v.len()
        invariant
            i <= v@.len(),
            r@.len() == i,
            forall|j: int| 0 <= j < i ==> r@[j] == (#[trigger] v@[j]).date,
        decreases v@.len() - i,
    {
        r.push(v[i].date);
        i += 1;
    }
    assert(r@ =~= date_parts(v@));
    r
}

fn time_parts_of(v: &Vec<CivilDateTime>) -> (r: Vec<ClockTime>)
    ensures
        r@ == time_parts(v@),
{
    let mut r: Vec<ClockTime> = Vec::new();
    let mut i: usize = 0;
    while i < v.len()
        invariant
            i <= v@.len(),
            r@.len() == i,
            forall|j: int| 0 <= j < i ==> r@[j] == (#[trigger] v@[j]).time,
        decreases v@.len() - i,
    {
        r.push(v[i].time);
        i += 1;
    }
    assert(r@ =~= time_parts(v@));
    r
}

fn scale_ticks(ts: &Vec<i64>, nanos: i128) -> (r: Vec<i128>)
    requires
        1 <= nanos <= 1_000_000_000,
    ensures
        r@ == scaled(ts@, nanos as int),
{
    let mut r: Vec<i128> = Vec::new();
    let mut i: usize = 0;
    while i < ts.len()
        invariant
            1 <= nanos <= 1_000_000_000,
            i <= ts@.len(),
            r@.len() == i,
            forall|j: int| 0 <= j < i ==> r@[j] == (#[trigger] ts@[j] * nanos) as i128,
        decreases ts@.len() - i,
    {
        let x = ts[i] as i128;
        assert(-0x8000_0000_0000_0000_0000_0000 <= x * nanos <= 0x7fff_ffff_ffff_ffff_ffff_ffff) by (nonlinear_arith)
            requires
                -0x8000_0000_0000_0000 <= x <= 0x7fff_ffff_ffff_ffff,
                1 <= nanos <= 1_000_000_000,
        ;
        r.push(x * nanos);
        i += 1;
    }
    assert(r@ =~= scaled(ts@, nanos as int));
    r
}

impl DateTime {
    fn from_ticks(series: &Series, per_sec: u64) -> (r: Result<DateTime, Error>)
        requires
            series.wf(),
            series.holds_integers(),
            is_tick_rate(per_sec as int),
        ensures
            match all_some(instants(series.ints(), per_sec as int)) {
                Some(v) => r matches Ok(d) && d.vec@ == v,
                None => r == Err::<DateTime, Error>(Error::OutOfRange),
            },
    {
        let ts = series.iter_i64();
        match instants_of(&ts, per_sec) {
            Ok(vec) => Ok(DateTime { vec }),
            Err(e) => Err(e),
        }
    }

    /// Date and time of each Unix timestamp in nanoseconds; fails when one
    /// lies outside the calendar range.
    pub fn timestamp_ns(series: &Series) -> (r: Result<DateTime, Error>)
        requires
            series.wf(),
            series.holds_integers(),
        ensures
            match all_some(instants(series.ints(), 1_000_000_000)) {
                Some(v) => r matches Ok(d) && d.vec@ == v,
                None => r == Err::<DateTime, Error>(Error::OutOfRange),
            },
    {
        DateTime::from_ticks(series, NANOS_PER_SEC)
    }

    /// Date and time of each Unix timestamp in microseconds.
    pub fn timestamp_us(series: &Series) -> (r: Result<DateTime, Error>)
        requires
            series.wf(),
            series.holds_integers(),
        ensures
            match all_some(instants(series.ints(), 1_000_000)) {
                Some(v) => r matches Ok(d) && d.vec@ == v,
                None => r == Err::<DateTime, Error>(Error::OutOfRange),
            },
    {
        DateTime::from_ticks(series, MICROS_PER_SEC)
    }

    /// Date and time of each Unix timestamp in milliseconds.
    pub fn timestamp_ms(series: &Series) -> (r: Result<DateTime, Error>)
        requires
            series.wf(),
            series.holds_integers(),
        ensures
            match all_some(instants(series.ints(), 1_000)) {
                Some(v) => r matches Ok(d) && d.vec@ == v,
                None => r == Err::<DateTime, Error>(Error::OutOfRange),
            },
    {
        DateTime::from_ticks(series, MILLIS_PER_SEC)
    }

    /// Date and time of each Unix timestamp in seconds.
    pub fn timestamp_sec(series: &Series) -> (r: Result<DateTime, Error>)
        requires
            series.wf(),
            series.holds_integers(),
        ensures
            match all_some(instants(series.ints(), 1)) {
                Some(v) => r matches Ok(d) && d.vec@ == v,
                None => r == Err::<DateTime, Error>(Error::OutOfRange),
            },
    {
        DateTime::from_ticks(series, 1)
    }

    /// Parses each string as an ISO 8601 date and time.
    pub fn iso8601(series: &Series) -> (r: Result<DateTime, Error>)
        requires
            series.wf(),
            series.fits(Dtype::String),
        ensures
            match all_some(read_datetimes(series.strings(), None)) {
                Some(v) => r matches Ok(d) && d.vec@ == v,
                None => r == Err::<DateTime, Error>(Error::ParseError),
            },
    {
        let ss = series.iter_str();
        match datetimes_read(&ss, None) {
            Ok(vec) => Ok(DateTime { vec }),
            Err(e) => Err(e),
        }
    }

    /// Parses each string under a strftime-style format; a format that
    /// gives only a date reads as midnight of that date.
    pub fn parse(series: &Series, fmt: &str) -> (r: Result<DateTime, Error>)
        requires
            series.wf(),
            series.fits(Dtype::String),
        ensures
            match all_some(read_datetimes(series.strings(), Some(fmt@))) {
                Some(v) => r matches Ok(d) && d.vec@ == v,
                None => r == Err::<DateTime, Error>(Error::ParseError),
            },
    {
        let ss = series.iter_str();
        match datetimes_read(&ss, Some(fmt)) {
            Ok(vec) => Ok(DateTime { vec }),
            Err(e) => Err(e),
        }
    }
}

impl Date {
    fn from_ticks(series: &Series, per_sec: u64) -> (r: Result<Date, Error>)
        requires
            series.wf(),
            series.holds_integers(),
            is_tick_rate(per_sec as int),
        ensures
            match all_some(instants(series.ints(), per_sec as int)) {
                Some(v) => r matches Ok(d) && d.vec@ == date_parts(v),
                None => r == Err::<Date, Error>(Error::OutOfRange),
            },
    {
        let ts = series.iter_i64();
        match instants_of(&ts, per_sec) {
            Ok(v) => Ok(Date { vec: date_parts_of(&v) }),
            Err(e) => Err(e),
        }
    }

    /// The date of each Unix timestamp in nanoseconds.
    pub fn timestamp_ns(series: &Series) -> (r: Result<Date, Error>)
        requires
            series.wf(),
            series.holds_integers(),
        ensures
            match all_some(instants(series.ints(), 1_000_000_000)) {
                Some(v) => r matches Ok(d) && d.vec@ == date_parts(v),
                None => r == Err::<Date, Error>(Error::OutOfRange),
            },
    {
        Date::from_ticks(series, NANOS_PER_SEC)
    }

    /// The date of each Unix timestamp in microseconds.
    pub fn timestamp_us(series: &Series) -> (r: Result<Date, Error>)
        requires
            series.wf(),
            series.holds_integers(),
        ensures
            match all_some(instants(series.ints(), 1_000_000)) {
                Some(v) => r matches Ok(d) && d.vec@ == date_parts(v),
                None => r == Err::<Date, Error>(Error::OutOfRange),
            },
    {
        Date::from_ticks(series, MICROS_PER_SEC)
    }

    /// The date of each Unix timestamp in milliseconds.
    pub fn timestamp_ms(series: &Series) -> (r: Result<Date, Error>)
        requires
            series.wf(),
            series.holds_integers(),
        ensures
            match all_some(instants(series.ints(), 1_000)) {
                Some(v) => r matches Ok(d) && d.vec@ == date_parts(v),
                None => r == Err::<Date, Error>(Error::OutOfRange),
            },
    {
        Date::from_ticks(series, MILLIS_PER_SEC)
    }

    /// The date of each Unix timestamp in seconds.
    pub fn timestamp_sec(series: &Series) -> (r: Result<Date, Error>)
        requires
            series.wf(),
            series.holds_integers(),
        ensures
            match all_some(instants(series.ints(), 1)) {
                Some(v) => r matches Ok(d) && d.vec@ == date_parts(v),
                None => r == Err::<Date, Error>(Error::OutOfRange),
            },
    {
        Date::from_ticks(series, 1)
    }

    /// Parses each string as an ISO 8601 date.
    pub fn iso8601(series: &Series) -> (r: Result<Date, Error>)
        requires
            series.wf(),
            series.fits(Dtype::String),
        ensures
            match all_some(read_dates(series.strings(), None)) {
                Some(v) => r matches Ok(d) && d.vec@ == v,
                None => r == Err::<Date, Error>(Error::ParseError),
            },
    {
        let ss = series.iter_str();
        match dates_read(&ss, None) {
            Ok(vec) => Ok(Date { vec }),
            Err(e) => Err(e),
        }
    }

    /// Reads the date of each string under a strftime-style format.
    pub fn parse(series: &Series, fmt: &str) -> (r: Result<Date, Error>)
        requires
            series.wf(),
            series.fits(Dtype::String),
        ensures
            match all_some(read_dates(series.strings(), Some(fmt@))) {
                Some(v) => r matches Ok(d) && d.vec@ == v,
                None => r == Err::<Date, Error>(Error::ParseError),
            },
    {
        let ss = series.iter_str();
        match dates_read(&ss, Some(fmt)) {
            Ok(vec) => Ok(Date { vec }),
            Err(e) => Err(e),
        }
    }
}

impl Time {
    fn from_ticks(series: &Series, per_sec: u64) -> (r: Result<Time, Error>)
        requires
            series.wf(),
            series.holds_integers(),
            is_tick_rate(per_sec as int),
        ensures
            match all_some(instants(series.ints(), per_sec as int)) {
                Some(v) => r matches Ok(d) && d.vec@ == time_parts(v),
                None => r == Err::<Time, Error>(Error::OutOfRange),
            },
    {
        let ts = series.iter_i64();
        match instants_of(&ts, per_sec) {
            Ok(v) => Ok(Time { vec: time_parts_of(&v) }),
            Err(e) => Err(e),
        }
    }

    /// The UTC time of day of each Unix timestamp in nanoseconds.
    pub fn timestamp_ns(series: &Series) -> (r: Result<Time, Error>)
        requires
            series.wf(),
            series.holds_integers(),
        ensures
            match all_some(instants(series.ints(), 1_000_000_000)) {
                Some(v) => r matches Ok(d) && d.vec@ == time_parts(v),
                None => r == Err::<Time, Error>(Error::OutOfRange),
            },
    {
        Time::from_ticks(series, NANOS_PER_SEC)
    }

    /// The UTC time of day of each Unix timestamp in microseconds.
    pub fn timestamp_us(series: &Series) -> (r: Result<Time, Error>)
        requires
            series.wf(),
            series.holds_integers(),
        ensures
            match all_some(instants(series.ints(), 1_000_000)) {
                Some(v) => r matches Ok(d) && d.vec@ == time_parts(v),
                None => r == Err::<Time, Error>(Error::OutOfRange),
            },
    {
        Time::from_ticks(series, MICROS_PER_SEC)
    }

    /// The UTC time of day of each Unix timestamp in milliseconds.
    pub fn timestamp_ms(series: &Series) -> (r: Result<Time, Error>)
        requires
            series.wf(),
            series.holds_integers(),
        ensures
            match all_some(instants(series.ints(), 1_000)) {
                Some(v) => r matches Ok(d) && d.vec@ == time_parts(v),
                None => r == Err::<Time, Error>(Error::OutOfRange),
            },
    {
        Time::from_ticks(series, MILLIS_PER_SEC)
    }

    /// The UTC time of day of each Unix timestamp in seconds.
    pub fn timestamp_sec(series: &Series) -> (r: Result<Time, Error>)
        requires
            series.wf(),
            series.holds_integers(),
        ensures
            match all_some(instants(series.ints(), 1)) {
                Some(v) => r matches Ok(d) && d.vec@ == time_parts(v),
                None => r == Err::<Time, Error>(Error::OutOfRange),
            },
    {
        Time::from_ticks(series, 1)
    }

    /// The time of day of each ISO 8601 date-and-time string.
    pub fn iso8601(series: &Series) -> (r: Result<Time, Error>)
        requires
            series.wf(),
            series.fits(Dtype::String),
        ensures
            match all_some(read_times(series.strings(), None)) {
                Some(v) => r matches Ok(d) && d.vec@ == v,
                None => r == Err::<Time, Error>(Error::ParseError),
            },
    {
        let ss = series.iter_str();
        match times_read(&ss, None) {
            Ok(vec) => Ok(Time { vec }),
            Err(e) => Err(e),
        }
    }

    /// Reads each string as a full date and time under a strftime-style
    /// format and keeps its time of day; a string that gives no full date and
    /// time is a parse error.
    pub fn parse(series: &Series, fmt: &str) -> (r: Result<Time, Error>)
        requires
            series.wf(),
            series.fits(Dtype::String),
        ensures
            match all_some(read_times(series.strings(), Some(fmt@))) {
                Some(v) => r matches Ok(d) && d.vec@ == v,
                None => r == Err::<Time, Error>(Error::ParseError),
            },
    {
        let ss = series.iter_str();
        match times_read(&ss, Some(fmt)) {
            Ok(vec) => Ok(Time { vec }),
            Err(e) => Err(e),
        }
    }
}

impl Duration {
    /// Durations of the given numbers of nanoseconds.
    pub fn ns(series: &Series) -> (r: Duration)
        requires
            series.wf(),
            series.holds_integers(),
        ensures
            r.vec@ == scaled(series.ints(), 1),
    {
        Duration { vec: scale_ticks(&series.iter_i64(), 1) }
    }

    /// Durations of the given numbers of microseconds.
    pub fn us(series: &Series) -> (r: Duration)
        requires
            series.wf(),
            series.holds_integers(),
        ensures
            r.vec@ == scaled(series.ints(), 1_000),
    {
        Duration { vec: scale_ticks(&series.iter_i64(), 1_000) }
    }

    /// Durations of the given numbers of milliseconds.
    pub fn ms(series: &Series) -> (r: Duration)
        requires
            series.wf(),
            series.holds_integers(),
        ensures
            r.vec@ == scaled(series.ints(), 1_000_000),
    {
        Duration { vec: scale_ticks(&series.iter_i64(), 1_000_000) }
    }

    /// Durations of the given numbers of seconds.
    pub fn sec(series: &Series) -> (r: Duration)
        requires
            series.wf(),
            series.holds_integers(),
        ensures
            r.vec@ == scaled(series.ints(), 1_000_000_000),
    {
        Duration { vec: scale_ticks(&series.iter_i64(), 1_000_000_000) }
    }
}

} // verus!
