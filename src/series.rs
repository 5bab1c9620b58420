//! Classification of input series into one element kind, and the per-shape
//! projections that drawing and the calendar constructors consume.
use vstd::prelude::*;
use crate::calendar::{CivilDate, CivilDateTime, ClockTime};
use crate::datetime::{Date, DateTime, Duration, Time};
use crate::dtype::Dtype;
use crate::error::Error;

verus! {

/// A number taken from a series, before it is widened to `f64` for plotting.
/// Floating-point values travel as their IEEE 754 bit patterns.
#[derive(Clone, Copy, Debug, PartialEq, Eq, Structural)]
pub enum Number {
    F64(u64),
    F32(u32),
    I64(i64),
    I32(i32),
}

/// One element of a generic sequence, as each element shape reads it; a field
/// is `None` where the element does not read as that shape.
#[derive(Debug)]
pub struct Element {
    pub int: Option<i64>,
    /// Bit pattern of the element read as an `f64`.
    pub float: Option<u64>,
    pub datetime: Option<CivilDateTime>,
    pub date: Option<CivilDate>,
    pub time: Option<ClockTime>,
    /// A duration in nanoseconds.
    pub duration: Option<i128>,
    pub text: Option<String>,
}

/// Every element of a generic sequence reads as an integer or a float.
pub open spec fn all_numeric(items: Seq<Element>) -> bool {
    forall|i: int|
        0 <= i < items.len() ==> reads_as(#[trigger] items[i], Dtype::I64) || reads_as(
            items[i],
            Dtype::F64,
        )
}

impl Element {
    /// An element that reads as an integer also reads as a float.
    pub open spec fn wf(self) -> bool {
        self.int is Some ==> self.float is Some
    }

    pub fn is_valid(&self) -> (r: bool)
        ensures
            r == self.wf(),
    {
        self.int.is_none() || self.float.is_some()
    }

    /// An element that reads as no shape at all.
    pub fn blank() -> (r: Element)
        ensures
            forall|k: Dtype| !#[trigger] reads_as(r, k),
    {
        Element {
            int: None,
            float: None,
            datetime: None,
            date: None,
            time: None,
            duration: None,
            text: None,
        }
    }
}

/// An input offered for classification.
#[derive(Debug)]
pub enum Source {
    ArrayF64(Vec<u64>),
    ArrayF32(Vec<u32>),
    ArrayI64(Vec<i64>),
    ArrayI32(Vec<i32>),
    List(Vec<Element>),
    DateTime(DateTime),
    Date(Date),
    Time(Time),
    Duration(Duration),
    Unsupported,
}

impl Source {
    /// The elements of a generic sequence are valid.
    pub open spec fn wf(self) -> bool {
        match self {
            Source::List(items) => forall|i: int| 0 <= i < items@.len() ==> (#[trigger] items@[i]).wf(),
            _ => true,
        }
    }

    pub fn is_valid(&self) -> (r: bool)
        ensures
            r == self.wf(),
    {
        match self {
            Source::List(items) => all_valid(items),
            _ => true,
        }
    }
}

fn all_valid(items: &Vec<Element>) -> (r: bool)
    ensures
        r == forall|j: int| 0 <= j < items@.len() ==> (#[trigger] items@[j]).wf(),
{
    let mut i: usize = 0;
    while i < items.len()
        invariant
            i <= items@.len(),
            forall|j: int| 0 <= j < i ==> (#[trigger] items@[j]).wf(),
        decreases items@.len() - i,
    {
        if !items[i].is_valid() {
            return false;
        }
        i += 1;
    }
    true
}

/// A classified series: its element kind is fixed once it is built.
#[derive(Debug)]
pub enum Series {
    EmptyList,
    String(Vec<String>),
    List { dtype: Dtype, items: Vec<Element> },
    NumpyF64(Vec<u64>),
    NumpyF32(Vec<u32>),
    NumpyI64(Vec<i64>),
    NumpyI32(Vec<i32>),
    DateTime(DateTime),
    Date(Date),
    Time(Time),
    Duration(Duration),
}

/// Whether `e` reads as an element of kind `k`. Integers are the `I64`
/// shape and floating-point numbers the `F64` shape.
pub open spec fn reads_as(e: Element, k: Dtype) -> bool {
    match k {
        Dtype::I64 => e.int is Some,
        Dtype::F64 => e.float is Some,
        Dtype::NaiveDateTime => e.datetime is Some,
        Dtype::NaiveDate => e.date is Some,
        Dtype::NaiveTime => e.time is Some,
        Dtype::Duration => e.duration is Some,
        Dtype::String => e.text is Some,
        _ => false,
    }
}

pub open spec fn all_read_as(items: Seq<Element>, k: Dtype) -> bool {
    forall|i: int| 0 <= i < items.len() ==> #[trigger] reads_as(items[i], k)
}

/// The kind inferred for a generic sequence: the first kind, in the order
/// integer, float, date and time, date, time, duration, string, that every
/// element reads as.
pub open spec fn inferred_kind(items: Seq<Element>) -> Option<Dtype> {
    if all_read_as(items, Dtype::I64) {
        Some(Dtype::I64)
    } else if all_read_as(items, Dtype::F64) {
        Some(Dtype::F64)
    } else if all_read_as(items, Dtype::NaiveDateTime) {
        Some(Dtype::NaiveDateTime)
    } else if all_read_as(items, Dtype::NaiveDate) {
        Some(Dtype::NaiveDate)
    } else if all_read_as(items, Dtype::NaiveTime) {
        Some(Dtype::NaiveTime)
    } else if all_read_as(items, Dtype::Duration) {
        Some(Dtype::Duration)
    } else if all_read_as(items, Dtype::String) {
        Some(Dtype::String)
    } else {
        None
    }
}

pub open spec fn texts_of(items: Seq<Element>) -> Seq<String> {
    Seq::new(items.len(), |i: int| items[i].text->0)
}

/// Whether `r` is what classification yields for the input `src`: typed
/// arrays and calendar containers keep their kind, a non-empty generic
/// sequence takes its inferred kind, an empty one is the empty sentinel.
pub open spec fn classifies_as(src: Source, r: Result<Series, Error>) -> bool {
    match src {
        Source::ArrayF64(v) => r == Ok::<Series, Error>(Series::NumpyF64(v)),
        Source::ArrayF32(v) => r == Ok::<Series, Error>(Series::NumpyF32(v)),
        Source::ArrayI64(v) => r == Ok::<Series, Error>(Series::NumpyI64(v)),
        Source::ArrayI32(v) => r == Ok::<Series, Error>(Series::NumpyI32(v)),
        Source::List(items) => {
            if items@.len() == 0 {
                r == Ok::<Series, Error>(Series::EmptyList)
            } else {
                match inferred_kind(items@) {
                    Some(Dtype::String) => r matches Ok(Series::String(v)) && v@ == texts_of(items@),
                    Some(k) => r == Ok::<Series, Error>(Series::List { dtype: k, items }),
                    None => r == Err::<Series, Error>(Error::UnsupportedSeriesType),
                }
            }
        },
        Source::DateTime(c) => r == Ok::<Series, Error>(Series::DateTime(c)),
        Source::Date(c) => r == Ok::<Series, Error>(Series::Date(c)),
        Source::Time(c) => r == Ok::<Series, Error>(Series::Time(c)),
        Source::Duration(c) => r == Ok::<Series, Error>(Series::Duration(c)),
        Source::Unsupported => r == Err::<Series, Error>(Error::UnsupportedSeriesType),
    }
}

fn reads(e: &Element, k: Dtype) -> (r: bool)
    ensures
        r == reads_as(*e, k),
{
    match k {
        Dtype::I64 => e.int.is_some(),
        Dtype::F64 => e.float.is_some(),
        Dtype::NaiveDateTime => e.datetime.is_some(),
        Dtype::NaiveDate => e.date.is_some(),
        Dtype::NaiveTime => e.time.is_some(),
        Dtype::Duration => e.duration.is_some(),
        Dtype::String => e.text.is_some(),
        _ => false,
    }
}

fn all_read(items: &Vec<Element>, k: Dtype) -> (r: bool)
    ensures
        r == all_read_as(items@, k),
{
    let mut i: usize = 0;
    while i < items.len()
        invariant
            i <= items@.len(),
            forall|j: int| 0 <= j < i ==> #[trigger] reads_as(items@[j], k),
        decreases items@.len() - i,
    {
        if !reads(&items[i], k) {
            return false;
        }
        i += 1;
    }
    true
}

fn texts(items: &Vec<Element>) -> (r: Vec<String>)
    requires
        all_read_as(items@, Dtype::String),
    ensures
        r@ == texts_of(items@),
{
    let mut r: Vec<String> = Vec::new();
    let mut i: usize = 0;
    while i < items.len()
        invariant
            i <= items@.len(),
            all_read_as(items@, Dtype::String),
            r@.len() == i,
            forall|j: int| 0 <= j < i ==> r@[j] == #[trigger] items@[j].text->0,
        decreases items@.len() - i,
    {
        assert(reads_as(items@[i as int], Dtype::String));
        let t = match &items[i].text {
            Some(t) => t.clone(),
            None => String::new(),
        };
        r.push(t);
        i += 1;
    }
    assert(r@ =~= texts_of(items@));
    r
}

} // verus!

verus! {

impl Series {
    /// The element kind, `None` for the empty sentinel.
    pub open spec fn kind(self) -> Option<Dtype> {
        match self {
            Series::EmptyList => None,
            Series::String(_) => Some(Dtype::String),
            Series::List { dtype, .. } => Some(dtype),
            Series::NumpyF64(_) => Some(Dtype::F64),
            Series::NumpyF32(_) => Some(Dtype::F32),
            Series::NumpyI64(_) => Some(Dtype::I64),
            Series::NumpyI32(_) => Some(Dtype::I32),
            Series::DateTime(_) => Some(Dtype::NaiveDateTime),
            Series::Date(_) => Some(Dtype::NaiveDate),
            Series::Time(_) => Some(Dtype::NaiveTime),
            Series::Duration(_) => Some(Dtype::Duration),
        }
    }

    /// A generic sequence holds at least one element, every one of which
    /// reads as the kind that was inferred for it.
    pub open spec fn wf(self) -> bool {
        match self {
            Series::List { dtype, items } => {
                &&& items@.len() > 0
                &&& inferred_kind(items@) == Some(dtype)
                &&& dtype != Dtype::String
            },
            _ => true,
        }
    }

    pub open spec fn spec_len(self) -> nat {
        match self {
            Series::EmptyList => 0,
            Series::String(v) => v@.len(),
            Series::List { items, .. } => items@.len(),
            Series::NumpyF64(v) => v@.len(),
            Series::NumpyF32(v) => v@.len(),
            Series::NumpyI64(v) => v@.len(),
            Series::NumpyI32(v) => v@.len(),
            Series::DateTime(c) => c.vec@.len(),
            Series::Date(c) => c.vec@.len(),
            Series::Time(c) => c.vec@.len(),
            Series::Duration(c) => c.vec@.len(),
        }
    }

    /// The series is empty or its kind is `k`; for `F64`, any numeric kind.
    pub open spec fn fits(self, k: Dtype) -> bool {
        match self.kind() {
            None => true,
            Some(d) => if k == Dtype::F64 {
                d.spec_is_numeric()
            } else {
                d == k
            },
        }
    }

    /// The series is empty or holds integers.
    pub open spec fn holds_integers(self) -> bool {
        match self.kind() {
            None => true,
            Some(d) => d.spec_is_integer(),
        }
    }

    /// The numbers of a numeric series, in order, each tagged with its width.
    pub open spec fn numbers(self) -> Seq<Number> {
        match self {
            Series::List { dtype: Dtype::I64, items } => Seq::new(
                items@.len(),
                |i: int| Number::I64(items@[i].int->0),
            ),
            Series::List { dtype: Dtype::F64, items } => Seq::new(
                items@.len(),
                |i: int| Number::F64(items@[i].float->0),
            ),
            Series::NumpyF64(v) => Seq::new(v@.len(), |i: int| Number::F64(v@[i])),
            Series::NumpyF32(v) => Seq::new(v@.len(), |i: int| Number::F32(v@[i])),
            Series::NumpyI64(v) => Seq::new(v@.len(), |i: int| Number::I64(v@[i])),
            Series::NumpyI32(v) => Seq::new(v@.len(), |i: int| Number::I32(v@[i])),
            _ => Seq::empty(),
        }
    }

    /// The integers of an integer series, in order, widened to 64 bits.
    pub open spec fn ints(self) -> Seq<i64> {
        match self {
            Series::List { dtype: Dtype::I64, items } => Seq::new(
                items@.len(),
                |i: int| items@[i].int->0,
            ),
            Series::NumpyI64(v) => v@,
            Series::NumpyI32(v) => Seq::new(v@.len(), |i: int| v@[i] as i64),
            _ => Seq::empty(),
        }
    }

    pub open spec fn datetimes(self) -> Seq<CivilDateTime> {
        match self {
            Series::List { dtype: Dtype::NaiveDateTime, items } => Seq::new(
                items@.len(),
                |i: int| items@[i].datetime->0,
            ),
            Series::DateTime(c) => c.vec@,
            _ => Seq::empty(),
        }
    }

    pub open spec fn dates(self) -> Seq<CivilDate> {
        match self {
            Series::List { dtype: Dtype::NaiveDate, items } => Seq::new(
                items@.len(),
                |i: int| items@[i].date->0,
            ),
            Series::Date(c) => c.vec@,
            _ => Seq::empty(),
        }
    }

    pub open spec fn durations(self) -> Seq<i128> {
        match self {
            Series::List { dtype: Dtype::Duration, items } => Seq::new(
                items@.len(),
                |i: int| items@[i].duration->0,
            ),
            Series::Duration(c) => c.vec@,
            _ => Seq::empty(),
        }
    }

    pub open spec fn strings(self) -> Seq<String> {
        match self {
            Series::String(v) => v@,
            _ => Seq::empty(),
        }
    }

    /// Classifies an input: typed arrays and calendar containers keep their
    /// kind; a generic sequence takes the first kind, in the order integer,
    /// float, date and time, date, time, duration, string, that all of its
    /// elements read as, and fails when there is none. A sequence whose
    /// elements all read as numbers is always numeric.
    pub fn extract(src: Source) -> (r: Result<Series, Error>)
        requires
            src.wf(),
        ensures
            classifies_as(src, r),
            r matches Ok(s) ==> s.wf(),
            src matches Source::List(items) ==> (items@.len() > 0 && all_numeric(items@) ==> (r matches Ok(
                Series::List { dtype, .. },
            ) && (dtype == Dtype::I64 || dtype == Dtype::F64))),
    {
        proof {
            if src is List {
                lemma_numeric_lists(src->List_0@);
            }
        }
        match src {
            Source::ArrayF64(v) => Ok(Series::NumpyF64(v)),
            Source::ArrayF32(v) => Ok(Series::NumpyF32(v)),
            Source::ArrayI64(v) => Ok(Series::NumpyI64(v)),
            Source::ArrayI32(v) => Ok(Series::NumpyI32(v)),
            Source::List(items) => {
                if items.len() == 0 {
                    Ok(Series::EmptyList)
                } else if all_read(&items, Dtype::I64) {
                    Ok(Series::List { dtype: Dtype::I64, items })
                } else if all_read(&items, Dtype::F64) {
                    Ok(Series::List { dtype: Dtype::F64, items })
                } else if all_read(&items, Dtype::NaiveDateTime) {
                    Ok(Series::List { dtype: Dtype::NaiveDateTime, items })
                } else if all_read(&items, Dtype::NaiveDate) {
                    Ok(Series::List { dtype: Dtype::NaiveDate, items })
                } else if all_read(&items, Dtype::NaiveTime) {
                    Ok(Series::List { dtype: Dtype::NaiveTime, items })
                } else if all_read(&items, Dtype::Duration) {
                    Ok(Series::List { dtype: Dtype::Duration, items })
                } else if all_read(&items, Dtype::String) {
                    Ok(Series::String(texts(&items)))
                } else {
                    Err(Error::UnsupportedSeriesType)
                }
            },
            Source::DateTime(c) => Ok(Series::DateTime(c)),
            Source::Date(c) => Ok(Series::Date(c)),
            Source::Time(c) => Ok(Series::Time(c)),
            Source::Duration(c) => Ok(Series::Duration(c)),
            Source::Unsupported => Err(Error::UnsupportedSeriesType),
        }
    }

    /// The element kind of a non-empty series.
    pub fn dtype(&self) -> (r: Dtype)
        requires
            self.kind() is Some,
        ensures
            Some(r) == self.kind(),
    {
        match self {
            Series::EmptyList => Dtype::I64,
            Series::String(_) => Dtype::String,
            Series::List { dtype, .. } => *dtype,
            Series::NumpyF64(_) => Dtype::F64,
            Series::NumpyF32(_) => Dtype::F32,
            Series::NumpyI64(_) => Dtype::I64,
            Series::NumpyI32(_) => Dtype::I32,
            Series::DateTime(_) => Dtype::NaiveDateTime,
            Series::Date(_) => Dtype::NaiveDate,
            Series::Time(_) => Dtype::NaiveTime,
            Series::Duration(_) => Dtype::Duration,
        }
    }

    /// Whether the series is empty or its kind is `k` (any numeric kind for
    /// `F64`).
    pub fn fits_kind(&self, k: Dtype) -> (r: bool)
        ensures
            r == self.fits(k),
    {
        match self {
            Series::EmptyList => true,
            _ => {
                let d = self.dtype();
                if k == Dtype::F64 {
                    d.is_numeric()
                } else {
                    d == k
                }
            },
        }
    }

    /// Whether the series is empty or holds integers.
    pub fn is_integer_series(&self) -> (r: bool)
        ensures
            r == self.holds_integers(),
    {
        match self {
            Series::EmptyList => true,
            _ => self.dtype().is_integer(),
        }
    }

    pub fn len(&self) -> (r: usize)
        ensures
            r == self.spec_len(),
    {
        match self {
            Series::EmptyList => 0,
            Series::String(v) => v.len(),
            Series::List { items, .. } => items.len(),
            Series::NumpyF64(v) => v.len(),
            Series::NumpyF32(v) => v.len(),
            Series::NumpyI64(v) => v.len(),
            Series::NumpyI32(v) => v.len(),
            Series::DateTime(c) => c.len(),
            Series::Date(c) => c.len(),
            Series::Time(c) => c.len(),
            Series::Duration(c) => c.len(),
        }
    }
}

fn item_ints(items: &Vec<Element>) -> (r: Vec<i64>)
    requires
        all_read_as(items@, Dtype::I64),
    ensures
        r@ == Seq::new(items@.len(), |i: int| items@[i].int->0),
{
    let mut r: Vec<i64> = Vec::new();
    let mut i: usize = 0;
    while i < items.len()
        invariant
            i <= items@.len(),
            all_read_as(items@, Dtype::I64),
            r@.len() == i,
            forall|j: int| 0 <= j < i ==> r@[j] == #[trigger] items@[j].int->0,
        decreases items@.len() - i,
    {
        assert(reads_as(items@[i as int], Dtype::I64));
        r.push(items[i].int.unwrap());
        i += 1;
    }
    assert(r@ =~= Seq::new(items@.len(), |i: int| items@[i].int->0));
    r
}

fn item_numbers(items: &Vec<Element>, integer: bool) -> (r: Vec<Number>)
    requires
        integer ==> all_read_as(items@, Dtype::I64),
        !integer ==> all_read_as(items@, Dtype::F64),
    ensures
        integer ==> r@ == Seq::new(items@.len(), |i: int| Number::I64(items@[i].int->0)),
        !integer ==> r@ == Seq::new(items@.len(), |i: int| Number::F64(items@[i].float->0)),
{
    let mut r: Vec<Number> = Vec::new();
    let mut i: usize = 0;
    while i < items.len()
        invariant
            i <= items@.len(),
            integer ==> all_read_as(items@, Dtype::I64),
            !integer ==> all_read_as(items@, Dtype::F64),
            r@.len() == i,
            forall|j: int|
                0 <= j < i ==> #[trigger] r@[j] == if integer {
                    Number::I64(items@[j].int->0)
                } else {
                    Number::F64(items@[j].float->0)
                },
        decreases items@.len() - i,
    {
        if integer {
            assert(reads_as(items@[i as int], Dtype::I64));
            r.push(Number::I64(items[i].int.unwrap()));
        } else {
            assert(reads_as(items@[i as int], Dtype::F64));
            r.push(Number::F64(items[i].float.unwrap()));
        }
        i += 1;
    }
    if integer {
        assert(r@ =~= Seq::new(items@.len(), |i: int| Number::I64(items@[i].int->0)));
    } else {
        assert(r@ =~= Seq::new(items@.len(), |i: int| Number::F64(items@[i].float->0)));
    }
    r
}

fn f64_numbers(v: &Vec<u64>) -> (r: Vec<Number>)
    ensures
        r@ == Seq::new(v@.len(), |i: int| Number::F64(v@[i])),
{
    let mut r: Vec<Number> = Vec::new();
    let mut i: usize = 0;
    while i < v.len()
        invariant
            i <= v@.len(),
            r@.len() == i,
            forall|j: int| 0 <= j < i ==> r@[j] == Number::F64(#[trigger] v@[j]),
        decreases v@.len() - i,
    {
        r.push(Number::F64(v[i]));
        i += 1;
    }
    assert(r@ =~= Seq::new(v@.len(), |i: int| Number::F64(v@[i])));
    r
}

fn f32_numbers(v: &Vec<u32>) -> (r: Vec<Number>)
    ensures
        r@ == Seq::new(v@.len(), |i: int| Number::F32(v@[i])),
{
    let mut r: Vec<Number> = Vec::new();
    let mut i: usize = 0;
    while i < v.len()
        invariant
            i <= v@.len(),
            r@.len() == i,
            forall|j: int| 0 <= j < i ==> r@[j] == Number::F32(#[trigger] v@[j]),
        decreases v@.len() - i,
    {
        r.push(Number::F32(v[i]));
        i += 1;
    }
    assert(r@ =~= Seq::new(v@.len(), |i: int| Number::F32(v@[i])));
    r
}

fn i64_numbers(v: &Vec<i64>) -> (r: Vec<Number>)
    ensures
        r@ == Seq::new(v@.len(), |i: int| Number::I64(v@[i])),
{
    let mut r: Vec<Number> = Vec::new();
    let mut i: usize = 0;
    while i < v.len()
        invariant
            i <= v@.len(),
            r@.len() == i,
            forall|j: int| 0 <= j < i ==> r@[j] == Number::I64(#[trigger] v@[j]),
        decreases v@.len() - i,
    {
        r.push(Number::I64(v[i]));
        i += 1;
    }
    assert(r@ =~= Seq::new(v@.len(), |i: int| Number::I64(v@[i])));
    r
}

fn i32_numbers(v: &Vec<i32>) -> (r: Vec<Number>)
    ensures
        r@ == Seq::new(v@.len(), |i: int| Number::I32(v@[i])),
{
    let mut r: Vec<Number> = Vec::new();
    let mut i: usize = 0;
    while i < v.len()
        invariant
            i <= v@.len(),
            r@.len() == i,
            forall|j: int| 0 <= j < i ==> r@[j] == Number::I32(#[trigger] v@[j]),
        decreases v@.len() - i,
    {
        r.push(Number::I32(v[i]));
        i += 1;
    }
    assert(r@ =~= Seq::new(v@.len(), |i: int| Number::I32(v@[i])));
    r
}

fn widen_i32(v: &Vec<i32>) -> (r: Vec<i64>)
    ensures
        r@ == Seq::new(v@.len(), |i: int| v@[i] as i64),
{
    let mut r: Vec<i64> = Vec::new();
    let mut i: usize = 0;
    while i < v.len()
        invariant
            i <= v@.len(),
            r@.len() == i,
            forall|j: int| 0 <= j < i ==> r@[j] == #[trigger] v@[j] as i64,
        decreases v@.len() - i,
    {
        r.push(v[i] as i64);
        i += 1;
    }
    assert(r@ =~= Seq::new(v@.len(), |i: int| v@[i] as i64));
    r
}

pub(crate) fn copy_seq<T: Copy>(v: &Vec<T>) -> (r: Vec<T>)
    ensures
        r@ == v@,
{
    let mut r: Vec<T> = Vec::new();
    let mut i: usize = 0;
    while i < v.len()
        invariant
            i <= v@.len(),
            r@ == v@.subrange(0, i as int),
        decreases v@.len() - i,
    {
        r.push(v[i]);
        i += 1;
        assert(r@ =~= v@.subrange(0, i as int));
    }
    assert(r@ =~= v@);
    r
}

impl Series {
    /// The float64 projection: one number per element, in order, tagged with
    /// the width it is to be widened from.
    pub fn iter_f64(&self) -> (r: Vec<Number>)
        requires
            self.wf(),
            self.fits(Dtype::F64),
        ensures
            r@ == self.numbers(),
            r@.len() == self.spec_len(),
    {
        match self {
            Series::List { dtype, items } => {
                let integer = *dtype == Dtype::I64;
                item_numbers(items, integer)
            },
            Series::NumpyF64(v) => f64_numbers(v),
            Series::NumpyF32(v) => f32_numbers(v),
            Series::NumpyI64(v) => i64_numbers(v),
            Series::NumpyI32(v) => i32_numbers(v),
            _ => Vec::new(),
        }
    }

    /// The int64 projection of an integer series: its elements in order,
    /// 32-bit ones widened.
    pub fn iter_i64(&self) -> (r: Vec<i64>)
        requires
            self.wf(),
            self.holds_integers(),
        ensures
            r@ == self.ints(),
            r@.len() == self.spec_len(),
    {
        match self {
            Series::List { items, .. } => item_ints(items),
            Series::NumpyI64(v) => copy_seq(v),
            Series::NumpyI32(v) => widen_i32(v),
            _ => Vec::new(),
        }
    }
}

fn item_datetimes(items: &Vec<Element>) -> (r: Vec<CivilDateTime>)
    requires
        all_read_as(items@, Dtype::NaiveDateTime),
    ensures
        r@ == Seq::new(items@.len(), |i: int| items@[i].datetime->0),
{
    let mut r: Vec<CivilDateTime> = Vec::new();
    let mut i: usize = 0;
    while i < items.len()
        invariant
            i <= items@.len(),
            all_read_as(items@, Dtype::NaiveDateTime),
            r@.len() == i,
            forall|j: int| 0 <= j < i ==> r@[j] == #[trigger] items@[j].datetime->0,
        decreases items@.len() - i,
    {
        assert(reads_as(items@[i as int], Dtype::NaiveDateTime));
        r.push(items[i].datetime.unwrap());
        i += 1;
    }
    assert(r@ =~= Seq::new(items@.len(), |i: int| items@[i].datetime->0));
    r
}

fn item_dates(items: &Vec<Element>) -> (r: Vec<CivilDate>)
    requires
        all_read_as(items@, Dtype::NaiveDate),
    ensures
        r@ == Seq::new(items@.len(), |i: int| items@[i].date->0),
{
    let mut r: Vec<CivilDate> = Vec::new();
    let mut i: usize = 0;
    while i < items.len()
        invariant
            i <= items@.len(),
            all_read_as(items@, Dtype::NaiveDate),
            r@.len() == i,
            forall|j: int| 0 <= j < i ==> r@[j] == #[trigger] items@[j].date->0,
        decreases items@.len() - i,
    {
        assert(reads_as(items@[i as int], Dtype::NaiveDate));
        r.push(items[i].date.unwrap());
        i += 1;
    }
    assert(r@ =~= Seq::new(items@.len(), |i: int| items@[i].date->0));
    r
}

fn item_durations(items: &Vec<Element>) -> (r: Vec<i128>)
    requires
        all_read_as(items@, Dtype::Duration),
    ensures
        r@ == Seq::new(items@.len(), |i: int| items@[i].duration->0),
{
    let mut r: Vec<i128> = Vec::new();
    let mut i: usize = 0;
    while i < items.len()
        invariant
            i <= items@.len(),
            all_read_as(items@, Dtype::Duration),
            r@.len() == i,
            forall|j: int| 0 <= j < i ==> r@[j] == #[trigger] items@[j].duration->0,
        decreases items@.len() - i,
    {
        assert(reads_as(items@[i as int], Dtype::Duration));
        r.push(items[i].duration.unwrap());
        i += 1;
    }
    assert(r@ =~= Seq::new(items@.len(), |i: int| items@[i].duration->0));
    r
}

fn copy_strings(v: &Vec<String>) -> (r: Vec<String>)
    ensures
        r@ == v@,
{
    let mut r: Vec<String> = Vec::new();
    let mut i: usize = 0;
    while i < v.len()
        invariant
            i <= v@.len(),
            r@ == v@.subrange(0, i as int),
        decreases v@.len() - i,
    {
        r.push(v[i].clone());
        i += 1;
        assert(r@ =~= v@.subrange(0, i as int));
    }
    assert(r@ =~= v@);
    r
}

impl Series {
    /// The date-and-time projection of a date-and-time series.
    pub fn iter_datetime(&self) -> (r: Vec<CivilDateTime>)
        requires
            self.wf(),
            self.fits(Dtype::NaiveDateTime),
        ensures
            r@ == self.datetimes(),
            r@.len() == self.spec_len(),
    {
        match self {
            Series::List { items, .. } => item_datetimes(items),
            Series::DateTime(c) => copy_seq(&c.vec),
            _ => Vec::new(),
        }
    }

    /// The date projection of a date series.
    pub fn iter_date(&self) -> (r: Vec<CivilDate>)
        requires
            self.wf(),
            self.fits(Dtype::NaiveDate),
        ensures
            r@ == self.dates(),
            r@.len() == self.spec_len(),
    {
        match self {
            Series::List { items, .. } => item_dates(items),
            Series::Date(c) => copy_seq(&c.vec),
            _ => Vec::new(),
        }
    }

    /// The duration projection of a duration series, in nanoseconds.
    pub fn iter_duration(&self) -> (r: Vec<i128>)
        requires
            self.wf(),
            self.fits(Dtype::Duration),
        ensures
            r@ == self.durations(),
            r@.len() == self.spec_len(),
    {
        match self {
            Series::List { items, .. } => item_durations(items),
            Series::Duration(c) => copy_seq(&c.vec),
            _ => Vec::new(),
        }
    }

    /// The strings of a string series, in order.
    pub fn iter_str(&self) -> (r: Vec<String>)
        requires
            self.wf(),
            self.fits(Dtype::String),
        ensures
            r@ == self.strings(),
            r@.len() == self.spec_len(),
    {
        match self {
            Series::String(v) => copy_strings(v),
            _ => Vec::new(),
        }
    }
}

proof fn lemma_numeric_lists(items: Seq<Element>)
    requires
        forall|i: int| 0 <= i < items.len() ==> (#[trigger] items[i]).wf(),
    ensures
        all_numeric(items) ==> all_read_as(items, Dtype::F64),
{
    if all_numeric(items) {
        assert forall|i: int| 0 <= i < items.len() implies #[trigger] reads_as(items[i], Dtype::F64) by {
            assert(items[i].wf());
            assert(reads_as(items[i], Dtype::I64) || reads_as(items[i], Dtype::F64));
        }
    }
}

/// Numeric readings win: a non-empty generic sequence whose elements all
/// read as integers classifies as `I64`, and one whose elements all read as
/// floats but not all as integers classifies as `F64`, whatever calendar or
/// string readings the elements also have; a calendar or string kind is
/// inferred only when some element reads as no number at all.
pub proof fn lemma_numeric_preferred(items: Vec<Element>)
    requires
        items@.len() > 0,
        Source::List(items).wf(),
    ensures
        all_numeric(items@) ==> inferred_kind(items@) == Some(Dtype::I64) || inferred_kind(items@) == Some(
            Dtype::F64,
        ),
        all_read_as(items@, Dtype::I64) ==> classifies_as(
            Source::List(items),
            Ok(Series::List { dtype: Dtype::I64, items }),
        ),
        !all_read_as(items@, Dtype::I64) && all_read_as(items@, Dtype::F64) ==> classifies_as(
            Source::List(items),
            Ok(Series::List { dtype: Dtype::F64, items }),
        ),
        forall|k: Dtype|
            inferred_kind(items@) == Some(k) && !k.spec_is_numeric() ==> !all_read_as(items@, Dtype::I64)
                && !all_read_as(items@, Dtype::F64),
{
    lemma_numeric_lists(items@);
}

} // verus!
