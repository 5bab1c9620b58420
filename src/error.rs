use vstd::prelude::*;

verus! {

/// Failures that the library reports to its caller.
#[derive(Clone, Copy, Debug, PartialEq, Eq, Structural)]
pub enum Error {
    /// The input matches none of the series shapes, or its kind does not fit
    /// the axis it is drawn on.
    UnsupportedSeriesType,
    /// The x and y series of one draw call differ in length.
    LengthMismatch,
    /// The pair of axis kinds selects no coordinate system.
    UnsupportedAxisCombination,
    /// Only the root surface may be exported.
    NotRoot,
    /// A string did not parse as a calendar value.
    ParseError,
    /// A timestamp lies outside the representable calendar range.
    OutOfRange,
}

} // verus!
