//! Axis ranges: a closed interval tagged with one element kind.
use vstd::prelude::*;
use crate::calendar::{CivilDate, CivilDateTime, ClockTime};
use crate::dtype::Dtype;

verus! {

/// The two bounds of a range, of one kind. Floating-point bounds are held as
/// their IEEE 754 bit patterns; durations in nanoseconds.
#[derive(Clone, Copy, Debug, PartialEq, Eq, Structural)]
pub enum RangeEnum {
    F64(u64, u64),
    F32(u32, u32),
    I64(i64, i64),
    I32(i32, i32),
    Date(CivilDate, CivilDate),
    DateTime(CivilDateTime, CivilDateTime),
    Time(ClockTime, ClockTime),
    Duration(i128, i128),
}

/// A start and an end, with no notion of step or scale.
#[derive(Clone, Copy, Debug, PartialEq, Eq, Structural)]
pub struct Range {
    pub range: RangeEnum,
}

impl Range {
    pub open spec fn kind(self) -> Dtype {
        match self.range {
            RangeEnum::F64(..) => Dtype::F64,
            RangeEnum::F32(..) => Dtype::F32,
            RangeEnum::I64(..) => Dtype::I64,
            RangeEnum::I32(..) => Dtype::I32,
            RangeEnum::Date(..) => Dtype::NaiveDate,
            RangeEnum::DateTime(..) => Dtype::NaiveDateTime,
            RangeEnum::Time(..) => Dtype::NaiveTime,
            RangeEnum::Duration(..) => Dtype::Duration,
        }
    }

    /// The element kind of the bounds.
    pub fn dtype(&self) -> (r: Dtype)
        ensures
            r == self.kind(),
    {
        match self.range {
            RangeEnum::F64(..) => Dtype::F64,
            RangeEnum::F32(..) => Dtype::F32,
            RangeEnum::I64(..) => Dtype::I64,
            RangeEnum::I32(..) => Dtype::I32,
            RangeEnum::Date(..) => Dtype::NaiveDate,
            RangeEnum::DateTime(..) => Dtype::NaiveDateTime,
            RangeEnum::Time(..) => Dtype::NaiveTime,
            RangeEnum::Duration(..) => Dtype::Duration,
        }
    }

    /// A range of `f64` values, given as the bit patterns of its bounds.
    pub fn f64_bits(a: u64, b: u64) -> (r: Range)
        ensures
            r.range == RangeEnum::F64(a, b),
    {
        Range { range: RangeEnum::F64(a, b) }
    }

    /// A range of `f32` values, given as the bit patterns of its bounds.
    pub fn f32_bits(a: u32, b: u32) -> (r: Range)
        ensures
            r.range == RangeEnum::F32(a, b),
    {
        Range { range: RangeEnum::F32(a, b) }
    }

    pub fn i64(a: i64, b: i64) -> (r: Range)
        ensures
            r.range == RangeEnum::I64(a, b),
    {
        Range { range: RangeEnum::I64(a, b) }
    }

    pub fn i32(a: i32, b: i32) -> (r: Range)
        ensures
            r.range == RangeEnum::I32(a, b),
    {
        Range { range: RangeEnum::I32(a, b) }
    }

    pub fn date(a: CivilDate, b: CivilDate) -> (r: Range)
        ensures
            r.range == RangeEnum::Date(a, b),
    {
        Range { range: RangeEnum::Date(a, b) }
    }

    pub fn datetime(a: CivilDateTime, b: CivilDateTime) -> (r: Range)
        ensures
            r.range == RangeEnum::DateTime(a, b),
    {
        Range { range: RangeEnum::DateTime(a, b) }
    }

    pub fn time(a: ClockTime, b: ClockTime) -> (r: Range)
        ensures
            r.range == RangeEnum::Time(a, b),
    {
        Range { range: RangeEnum::Time(a, b) }
    }

    /// A range of durations, bounds in nanoseconds.
    pub fn duration(a: i128, b: i128) -> (r: Range)
        ensures
            r.range == RangeEnum::Duration(a, b),
    {
        Range { range: RangeEnum::Duration(a, b) }
    }
}

} // verus!
