use ezel::{CivilDate, CivilDateTime, ClockTime, Date, DateTime, Duration, Element, Error, Series, Source, Time};

fn ints(v: Vec<i64>) -> Series {
    Series::extract(Source::ArrayI64(v)).unwrap()
}

fn strs(v: &[&str]) -> Series {
    let items = v
        .iter()
        .map(|s| Element { text: Some(s.to_string()), ..Element::blank() })
        .collect();
    Series::extract(Source::List(items)).unwrap()
}

fn at(year: i32, month: u32, day: u32, hour: u32, minute: u32, second: u32, nano: u32) -> CivilDateTime {
    CivilDateTime {
        date: CivilDate { year, month, day },
        time: ClockTime { hour, minute, second, nano },
    }
}

#[test]
fn timestamp_sec_zero_is_the_epoch() {
    let dt = DateTime::timestamp_sec(&ints(vec![0])).unwrap();
    assert_eq!(dt.len(), 1);
    assert_eq!(dt.vec[0], at(1970, 1, 1, 0, 0, 0, 0));
}

#[test]
fn parse_date_only_format_gives_midnight() {
    let dt = DateTime::parse(&strs(&["2020-01-02"]), "%Y-%m-%d").unwrap();
    assert_eq!(dt.vec[0].date, CivilDate { year: 2020, month: 1, day: 2 });
    assert_eq!(dt.vec[0].time, ClockTime { hour: 0, minute: 0, second: 0, nano: 0 });
}

#[test]
fn parse_full_format() {
    let dt = DateTime::parse(&strs(&["2021-12-31 23:59:58"]), "%Y-%m-%d %H:%M:%S").unwrap();
    assert_eq!(dt.vec[0], at(2021, 12, 31, 23, 59, 58, 0));
}

#[test]
fn parse_failure_is_a_parse_error() {
    assert_eq!(DateTime::parse(&strs(&["not a date"]), "%Y-%m-%d").unwrap_err(), Error::ParseError);
    assert_eq!(DateTime::iso8601(&strs(&["2020-13-01T00:00:00"])).unwrap_err(), Error::ParseError);
}

#[test]
fn iso8601_datetimes() {
    let dt = DateTime::iso8601(&strs(&["2020-01-02T03:04:05", "1999-12-31T23:59:59.5"])).unwrap();
    assert_eq!(dt.vec, vec![at(2020, 1, 2, 3, 4, 5, 0), at(1999, 12, 31, 23, 59, 59, 500_000_000)]);
}

#[test]
fn timestamps_in_each_unit() {
    let ns = DateTime::timestamp_ns(&ints(vec![1_500_000_000, -1])).unwrap();
    assert_eq!(ns.vec, vec![at(1970, 1, 1, 0, 0, 1, 500_000_000), at(1969, 12, 31, 23, 59, 59, 999_999_999)]);
    let us = DateTime::timestamp_us(&ints(vec![1_500_000])).unwrap();
    assert_eq!(us.vec, vec![at(1970, 1, 1, 0, 0, 1, 500_000_000)]);
    let ms = DateTime::timestamp_ms(&ints(vec![86_400_001, -1])).unwrap();
    assert_eq!(ms.vec, vec![at(1970, 1, 2, 0, 0, 0, 1_000_000), at(1969, 12, 31, 23, 59, 59, 999_000_000)]);
    let sec = DateTime::timestamp_sec(&ints(vec![1_577_836_800])).unwrap();
    assert_eq!(sec.vec, vec![at(2020, 1, 1, 0, 0, 0, 0)]);
}

#[test]
fn timestamps_from_i32_and_generic_lists() {
    let s = Series::extract(Source::ArrayI32(vec![86_400])).unwrap();
    assert_eq!(DateTime::timestamp_sec(&s).unwrap().vec, vec![at(1970, 1, 2, 0, 0, 0, 0)]);
    let items = vec![Element { int: Some(120), float: Some(120f64.to_bits()), ..Element::blank() }];
    let s = Series::extract(Source::List(items)).unwrap();
    assert_eq!(DateTime::timestamp_sec(&s).unwrap().vec, vec![at(1970, 1, 1, 0, 2, 0, 0)]);
}

#[test]
fn out_of_range_timestamp_fails() {
    assert_eq!(DateTime::timestamp_sec(&ints(vec![0, i64::MAX])).unwrap_err(), Error::OutOfRange);
    assert_eq!(Date::timestamp_sec(&ints(vec![i64::MIN])).unwrap_err(), Error::OutOfRange);
}

#[test]
fn empty_series_gives_empty_container() {
    let empty = Series::extract(Source::List(vec![])).unwrap();
    assert_eq!(DateTime::timestamp_ms(&empty).unwrap().len(), 0);
    assert_eq!(Date::parse(&empty, "%Y").unwrap().len(), 0);
}

#[test]
fn dates_of_timestamps() {
    let d = Date::timestamp_sec(&ints(vec![86_399, 86_400, -1])).unwrap();
    assert_eq!(
        d.vec,
        vec![
            CivilDate { year: 1970, month: 1, day: 1 },
            CivilDate { year: 1970, month: 1, day: 2 },
            CivilDate { year: 1969, month: 12, day: 31 },
        ]
    );
    assert_eq!(Date::timestamp_ns(&ints(vec![86_400_000_000_000])).unwrap().vec[0].day, 2);
    assert_eq!(Date::timestamp_us(&ints(vec![86_400_000_000])).unwrap().vec[0].day, 2);
    assert_eq!(Date::timestamp_ms(&ints(vec![86_400_000])).unwrap().vec[0].day, 2);
}

#[test]
fn dates_from_strings() {
    let d = Date::iso8601(&strs(&["2020-02-29"])).unwrap();
    assert_eq!(d.vec, vec![CivilDate { year: 2020, month: 2, day: 29 }]);
    let d = Date::parse(&strs(&["03/04/2005"]), "%d/%m/%Y").unwrap();
    assert_eq!(d.vec, vec![CivilDate { year: 2005, month: 4, day: 3 }]);
    assert_eq!(Date::iso8601(&strs(&["2021-02-29"])).unwrap_err(), Error::ParseError);
}

#[test]
fn times_of_timestamps_and_strings() {
    let t = Time::timestamp_sec(&ints(vec![3_661])).unwrap();
    assert_eq!(t.vec, vec![ClockTime { hour: 1, minute: 1, second: 1, nano: 0 }]);
    let t = Time::timestamp_ms(&ints(vec![-1])).unwrap();
    assert_eq!(t.vec, vec![ClockTime { hour: 23, minute: 59, second: 59, nano: 999_000_000 }]);
    let t = Time::timestamp_us(&ints(vec![1])).unwrap();
    assert_eq!(t.vec[0].nano, 1_000);
    let t = Time::timestamp_ns(&ints(vec![7])).unwrap();
    assert_eq!(t.vec[0].nano, 7);
    let t = Time::parse(&strs(&["2000-01-01 10:20:30"]), "%Y-%m-%d %H:%M:%S").unwrap();
    assert_eq!(t.vec, vec![ClockTime { hour: 10, minute: 20, second: 30, nano: 0 }]);
    let t = Time::iso8601(&strs(&["2020-01-02T03:04:05"])).unwrap();
    assert_eq!(t.vec, vec![ClockTime { hour: 3, minute: 4, second: 5, nano: 0 }]);
    assert_eq!(Time::parse(&strs(&["25:00:00"]), "%H:%M:%S").unwrap_err(), Error::ParseError);
}

#[test]
fn durations_in_each_unit() {
    let s = ints(vec![2, -3]);
    assert_eq!(Duration::ns(&s).vec, vec![2i128, -3]);
    assert_eq!(Duration::us(&s).vec, vec![2_000i128, -3_000]);
    assert_eq!(Duration::ms(&s).vec, vec![2_000_000i128, -3_000_000]);
    assert_eq!(Duration::sec(&s).vec, vec![2_000_000_000i128, -3_000_000_000]);
    let big = Duration::sec(&ints(vec![i64::MAX]));
    assert_eq!(big.vec[0], i64::MAX as i128 * 1_000_000_000);
    assert_eq!(big.len(), 1);
}

#[test]
fn split_ticks_rounds_toward_negative_infinity() {
    assert_eq!(ezel::split_ticks(-1, 1_000), (-1, 999_000_000));
    assert_eq!(ezel::split_ticks(-1_000, 1_000), (-1, 0));
    assert_eq!(ezel::split_ticks(1_500_000, 1_000_000), (1, 500_000_000));
    assert_eq!(ezel::split_ticks(i64::MIN, 1_000_000_000), (-9_223_372_037, 145_224_192));
    assert_eq!(ezel::split_ticks(i64::MAX, 1), (i64::MAX, 0));
}

#[test]
fn or_midnight_prefers_the_full_reading() {
    let d = CivilDate { year: 2020, month: 1, day: 2 };
    let t = at(2021, 5, 6, 7, 8, 9, 0);
    assert_eq!(ezel::or_midnight(Some(t), Some(d)), Some(t));
    assert_eq!(ezel::or_midnight(None, Some(d)), Some(at(2020, 1, 2, 0, 0, 0, 0)));
    assert_eq!(ezel::or_midnight(None, None), None);
}

#[test]
fn time_parse_takes_the_time_of_a_full_reading() {
    let t = Time::parse(&strs(&["1577836800"]), "%s").unwrap();
    assert_eq!(t.vec, vec![ClockTime { hour: 0, minute: 0, second: 0, nano: 0 }]);
    let t = Time::parse(&strs(&["2020-01-02 10:20:30"]), "%Y-%m-%d %H:%M:%S").unwrap();
    assert_eq!(t.vec, vec![ClockTime { hour: 10, minute: 20, second: 30, nano: 0 }]);
}

#[test]
fn time_parse_needs_a_full_date_and_time() {
    assert_eq!(Time::parse(&strs(&["10:30"]), "%H:%M").unwrap_err(), Error::ParseError);
    assert_eq!(Time::parse(&strs(&["10:20:30"]), "%H:%M:%S").unwrap_err(), Error::ParseError);
}
