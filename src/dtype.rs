use vstd::prelude::*;

verus! {

/// The closed set of element kinds that a series or an axis range can hold.
#[derive(Clone, Copy, Debug, PartialEq, Eq, Structural)]
pub enum Dtype {
    F64,
    F32,
    I64,
    I32,
    String,
    NaiveDateTime,
    NaiveDate,
    NaiveTime,
    Duration,
}

impl Dtype {
    pub open spec fn spec_is_numeric(self) -> bool {
        self is F64 || self is F32 || self is I64 || self is I32
    }

    pub open spec fn spec_is_integer(self) -> bool {
        self is I64 || self is I32
    }

    pub open spec fn spec_is_chrono(self) -> bool {
        self is NaiveDateTime || self is NaiveDate || self is NaiveTime || self is Duration
    }

    /// Floating-point or integer kinds.
    pub fn is_numeric(&self) -> (r: bool)
        ensures
            r == self.spec_is_numeric(),
    {
        match self {
            Dtype::F64 | Dtype::F32 | Dtype::I64 | Dtype::I32 => true,
            _ => false,
        }
    }

    /// The two integer kinds.
    pub fn is_integer(&self) -> (r: bool)
        ensures
            r == self.spec_is_integer(),
    {
        match self {
            Dtype::I64 | Dtype::I32 => true,
            _ => false,
        }
    }

    /// Only the date-and-time kind.
    pub fn is_datetime(&self) -> (r: bool)
        ensures
            r == (*self == Dtype::NaiveDateTime),
    {
        match self {
            Dtype::NaiveDateTime => true,
            _ => false,
        }
    }

    /// The calendar kinds: date and time, date, time of day, and duration.
    pub fn is_chrono(&self) -> (r: bool)
        ensures
            r == self.spec_is_chrono(),
    {
        match self {
            Dtype::NaiveDateTime | Dtype::NaiveDate | Dtype::NaiveTime | Dtype::Duration => true,
            _ => false,
        }
    }

    /// The text kind.
    pub fn is_string(&self) -> (r: bool)
        ensures
            r == (*self == Dtype::String),
    {
        match self {
            Dtype::String => true,
            _ => false,
        }
    }
}

} // verus!
