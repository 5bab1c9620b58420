use ezel::{Date, DateTime, Dtype, Element, Error, Number, Series, Source};

fn int_el(i: i64) -> Element {
    Element { int: Some(i), float: Some((i as f64).to_bits()), ..Element::blank() }
}

fn float_el(x: f64) -> Element {
    Element { float: Some(x.to_bits()), ..Element::blank() }
}

fn text_el(s: &str) -> Element {
    Element { text: Some(s.to_string()), ..Element::blank() }
}

fn widen(n: Number) -> f64 {
    match n {
        Number::F64(b) => f64::from_bits(b),
        Number::F32(b) => f32::from_bits(b) as f64,
        Number::I64(i) => i as f64,
        Number::I32(i) => i as f64,
    }
}

fn classify(src: Source) -> Series {
    Series::extract(src).unwrap()
}

#[test]
fn dtype_queries() {
    assert!(Dtype::F64.is_numeric());
    assert!(Dtype::I32.is_numeric());
    assert!(!Dtype::String.is_numeric());
    assert!(Dtype::I64.is_integer());
    assert!(!Dtype::F32.is_integer());
    assert!(Dtype::NaiveDateTime.is_datetime());
    assert!(!Dtype::NaiveDate.is_datetime());
    assert!(Dtype::NaiveTime.is_chrono());
    assert!(Dtype::Duration.is_chrono());
    assert!(!Dtype::F64.is_chrono());
    assert!(Dtype::String.is_string());
}

#[test]
fn float64_projection_of_arrays_keeps_values_and_order() {
    let f64s = vec![1.5f64, -2.25, 1e300];
    let s = classify(Source::ArrayF64(f64s.iter().map(|x| x.to_bits()).collect()));
    assert_eq!(s.dtype(), Dtype::F64);
    let back: Vec<f64> = s.iter_f64().into_iter().map(widen).collect();
    assert_eq!(back, f64s);

    let f32s = vec![0.1f32, -3.5, 7.0];
    let s = classify(Source::ArrayF32(f32s.iter().map(|x| x.to_bits()).collect()));
    assert_eq!(s.dtype(), Dtype::F32);
    let back: Vec<f64> = s.iter_f64().into_iter().map(widen).collect();
    assert_eq!(back, f32s.iter().map(|x| *x as f64).collect::<Vec<f64>>());

    let i64s = vec![3i64, -9, 1 << 40];
    let s = classify(Source::ArrayI64(i64s.clone()));
    let back: Vec<f64> = s.iter_f64().into_iter().map(widen).collect();
    assert_eq!(back, vec![3.0, -9.0, (1u64 << 40) as f64]);

    let i32s = vec![5i32, -1, 0];
    let s = classify(Source::ArrayI32(i32s));
    assert_eq!(s.iter_f64(), vec![Number::I32(5), Number::I32(-1), Number::I32(0)]);
    assert_eq!(s.iter_i64(), vec![5i64, -1, 0]);
}

#[test]
fn integer_list_classifies_as_i64() {
    let mut items = vec![int_el(4), int_el(1), int_el(8)];
    // an element that also reads as a timestamp-like date stays numeric
    items[0].datetime = Some(ezel::CivilDateTime {
        date: ezel::CivilDate { year: 1970, month: 1, day: 1 },
        time: ezel::ClockTime { hour: 0, minute: 0, second: 4, nano: 0 },
    });
    let s = classify(Source::List(items));
    assert_eq!(s.dtype(), Dtype::I64);
    assert_eq!(s.len(), 3);
    assert_eq!(s.iter_i64(), vec![4, 1, 8]);
    assert_eq!(s.iter_f64(), vec![Number::I64(4), Number::I64(1), Number::I64(8)]);
}

#[test]
fn mixed_numbers_classify_as_f64() {
    let s = classify(Source::List(vec![int_el(1), float_el(2.5)]));
    assert_eq!(s.dtype(), Dtype::F64);
    let back: Vec<f64> = s.iter_f64().into_iter().map(widen).collect();
    assert_eq!(back, vec![1.0, 2.5]);
}

#[test]
fn datetime_elements_classify_before_dates() {
    let d = ezel::CivilDate { year: 2021, month: 3, day: 4 };
    let t = ezel::CivilDateTime { date: d, time: ezel::ClockTime { hour: 5, minute: 6, second: 7, nano: 0 } };
    let both = Element { datetime: Some(t), date: Some(d), ..Element::blank() };
    let s = classify(Source::List(vec![both]));
    assert_eq!(s.dtype(), Dtype::NaiveDateTime);
    assert_eq!(s.iter_datetime(), vec![t]);

    let only_date = Element { date: Some(d), ..Element::blank() };
    let s = classify(Source::List(vec![only_date]));
    assert_eq!(s.dtype(), Dtype::NaiveDate);
    assert_eq!(s.iter_date(), vec![d]);

    let dur = Element { duration: Some(-1_500), ..Element::blank() };
    let s = classify(Source::List(vec![dur]));
    assert_eq!(s.dtype(), Dtype::Duration);
    assert_eq!(s.iter_duration(), vec![-1_500i128]);
}

#[test]
fn strings_classify_last() {
    let s = classify(Source::List(vec![text_el("a"), text_el("bc")]));
    assert_eq!(s.dtype(), Dtype::String);
    assert_eq!(s.iter_str(), vec!["a".to_string(), "bc".to_string()]);
}

#[test]
fn unclassifiable_inputs_fail() {
    assert_eq!(
        Series::extract(Source::List(vec![int_el(1), text_el("x")])).unwrap_err(),
        Error::UnsupportedSeriesType
    );
    assert_eq!(Series::extract(Source::List(vec![Element::blank()])).unwrap_err(), Error::UnsupportedSeriesType);
    assert_eq!(Series::extract(Source::Unsupported).unwrap_err(), Error::UnsupportedSeriesType);
}

#[test]
fn empty_list_is_the_sentinel() {
    let s = classify(Source::List(vec![]));
    assert!(matches!(s, Series::EmptyList));
    assert_eq!(s.len(), 0);
    assert!(s.fits_kind(Dtype::NaiveDate));
    assert!(s.iter_f64().is_empty());
    assert!(s.is_integer_series());
}

#[test]
fn calendar_containers_keep_their_kind() {
    let dt = DateTime::timestamp_sec(&classify(Source::ArrayI64(vec![0, 60]))).unwrap();
    let s = classify(Source::DateTime(dt));
    assert_eq!(s.dtype(), Dtype::NaiveDateTime);
    assert_eq!(s.len(), 2);
    let d = Date::timestamp_sec(&classify(Source::ArrayI64(vec![0]))).unwrap();
    let s = classify(Source::Date(d));
    assert_eq!(s.dtype(), Dtype::NaiveDate);
    assert_eq!(s.iter_date(), vec![ezel::CivilDate { year: 1970, month: 1, day: 1 }]);
}

#[test]
fn integer_readings_must_also_read_as_floats() {
    let int_only = Element { int: Some(1), ..Element::blank() };
    assert!(!int_only.is_valid());
    assert!(!Source::List(vec![int_only, float_el(2.5)]).is_valid());
    assert!(Source::List(vec![int_el(1), float_el(2.5)]).is_valid());
    assert!(Source::ArrayI64(vec![1]).is_valid());
}

#[test]
fn numeric_lists_with_calendar_readings_stay_numeric() {
    let t = ezel::CivilDateTime {
        date: ezel::CivilDate { year: 1970, month: 1, day: 1 },
        time: ezel::ClockTime { hour: 0, minute: 0, second: 1, nano: 0 },
    };
    let mut a = int_el(1);
    a.datetime = Some(t);
    let mut b = float_el(2.5);
    b.datetime = Some(t);
    let s = classify(Source::List(vec![a, b]));
    assert_eq!(s.dtype(), Dtype::F64);
}
