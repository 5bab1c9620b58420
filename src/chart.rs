//! Charts: the coordinate system that a pair of axis ranges selects, and the
//! draw plans of line and scatter calls.
use vstd::prelude::*;
use crate::calendar::{CivilDate, CivilDateTime};
use crate::canvas::{Canvas, Region};
use crate::dtype::Dtype;
use crate::error::Error;
use crate::layout::{resolve, resolves_to, ChartOptions, Layout, DEFAULT_POINT_SIZE, DEFAULT_STROKE_WIDTH};
use crate::palette::{advance_color, color_at, next_index, nth_color_index, white, Rgb};
use crate::range::{Range, RangeEnum};
use crate::series::{Number, Series};

verus! {

/// The coordinate systems a chart can plot in, one per supported pair of
/// axis kinds, with the bounds of both axes. Floating-point bounds are bit
/// patterns; duration bounds are nanoseconds.
#[derive(Clone, Copy, Debug, PartialEq, Eq)]
#[allow(inconsistent_fields)]
pub enum Coord {
    F64F64 { x: (u64, u64), y: (u64, u64) },
    DateTimeF64 { x: (CivilDateTime, CivilDateTime), y: (u64, u64) },
    DateF64 { x: (CivilDate, CivilDate), y: (u64, u64) },
    DurationF64 { x: (i128, i128), y: (u64, u64) },
}

/// The pairs of axis kinds that select a coordinate system: a float y axis
/// against a float, date-and-time, date or duration x axis.
pub open spec fn supported_axes(x: Dtype, y: Dtype) -> bool {
    &&& y == Dtype::F64
    &&& (x == Dtype::F64 || x == Dtype::NaiveDateTime || x == Dtype::NaiveDate || x == Dtype::Duration)
}

/// The coordinate system of two axis ranges, if their kinds are supported.
pub open spec fn coord_of(x: Range, y: Range) -> Option<Coord> {
    match (x.range, y.range) {
        (RangeEnum::F64(a, b), RangeEnum::F64(c, d)) => Some(Coord::F64F64 { x: (a, b), y: (c, d) }),
        (RangeEnum::DateTime(a, b), RangeEnum::F64(c, d)) => Some(
            Coord::DateTimeF64 { x: (a, b), y: (c, d) },
        ),
        (RangeEnum::Date(a, b), RangeEnum::F64(c, d)) => Some(Coord::DateF64 { x: (a, b), y: (c, d) }),
        (RangeEnum::Duration(a, b), RangeEnum::F64(c, d)) => Some(
            Coord::DurationF64 { x: (a, b), y: (c, d) },
        ),
        _ => None,
    }
}

impl Coord {
    /// The element kind of the x axis.
    pub open spec fn spec_x_kind(self) -> Dtype {
        match self {
            Coord::F64F64 { .. } => Dtype::F64,
            Coord::DateTimeF64 { .. } => Dtype::NaiveDateTime,
            Coord::DateF64 { .. } => Dtype::NaiveDate,
            Coord::DurationF64 { .. } => Dtype::Duration,
        }
    }

    pub fn x_kind(&self) -> (r: Dtype)
        ensures
            r == self.spec_x_kind(),
    {
        match self {
            Coord::F64F64 { .. } => Dtype::F64,
            Coord::DateTimeF64 { .. } => Dtype::NaiveDateTime,
            Coord::DateF64 { .. } => Dtype::NaiveDate,
            Coord::DurationF64 { .. } => Dtype::Duration,
        }
    }
}

/// Whether a pair of axis kinds selects a coordinate system.
pub fn axes_supported(x: Dtype, y: Dtype) -> (r: bool)
    ensures
        r == supported_axes(x, y),
{
    match (x, y) {
        (Dtype::F64, Dtype::F64) => true,
        (Dtype::NaiveDateTime, Dtype::F64) => true,
        (Dtype::NaiveDate, Dtype::F64) => true,
        (Dtype::Duration, Dtype::F64) => true,
        _ => false,
    }
}

/// Color, fill and stroke of one draw call.
#[derive(Clone, Copy, Debug, PartialEq, Eq)]
pub struct ShapeStyle {
    pub color: Rgb,
    pub filled: bool,
    pub stroke_width: u32,
}

/// What is drawn at the points: connecting segments, or a circle of the
/// given radius in pixels at each point.
#[derive(Clone, Copy, Debug, PartialEq, Eq, Structural)]
pub enum Mark {
    Line,
    Circle(u32),
}

/// The x and y values of the points, in the shapes of the coordinate system.
#[derive(Debug)]
pub enum Points {
    F64F64(Vec<Number>, Vec<Number>),
    DateTimeF64(Vec<CivilDateTime>, Vec<Number>),
    DateF64(Vec<CivilDate>, Vec<Number>),
    DurationF64(Vec<i128>, Vec<Number>),
}

/// A draw call ready to be rasterized.
#[derive(Debug)]
pub struct Draw {
    pub mark: Mark,
    pub style: ShapeStyle,
    pub points: Points,
}

/// The points that a coordinate system reads from the series `x` and `y`:
/// x in the shape of its x axis, y as numbers.
pub open spec fn points_of(c: Coord, x: Series, y: Series, p: Points) -> bool {
    match c {
        Coord::F64F64 { .. } => p matches Points::F64F64(xs, ys) && xs@ == x.numbers() && ys@
            == y.numbers(),
        Coord::DateTimeF64 { .. } => p matches Points::DateTimeF64(xs, ys) && xs@ == x.datetimes()
            && ys@ == y.numbers(),
        Coord::DateF64 { .. } => p matches Points::DateF64(xs, ys) && xs@ == x.dates() && ys@
            == y.numbers(),
        Coord::DurationF64 { .. } => p matches Points::DurationF64(xs, ys) && xs@ == x.durations()
            && ys@ == y.numbers(),
    }
}

/// A chart on a surface: its coordinate system is fixed when it is built;
/// the color index moves with every draw call.
#[derive(Debug)]
pub struct Chart {
    coord: Coord,
    layout: Layout,
    region: Region,
    color_index: usize,
}

impl Chart {
    pub closed spec fn spec_coord(self) -> Coord {
        self.coord
    }

    pub closed spec fn spec_layout(self) -> Layout {
        self.layout
    }

    pub closed spec fn spec_region(self) -> Region {
        self.region
    }

    pub closed spec fn spec_color_index(self) -> usize {
        self.color_index
    }

    /// The same chart after one more draw call.
    pub closed spec fn advanced(self) -> Chart {
        Chart { color_index: next_index(self.color_index), ..self }
    }

    /// Builds a chart on `canvas` whose axes span `x_range` and `y_range`.
    /// Fails unless the pair of axis kinds selects a coordinate system.
    pub fn new(canvas: &Canvas, x_range: &Range, y_range: &Range, options: ChartOptions) -> (r: Result<
        Chart,
        Error,
    >)
        ensures
            r is Ok <==> supported_axes(x_range.kind(), y_range.kind()),
            match coord_of(*x_range, *y_range) {
                Some(c) => r matches Ok(chart) && chart.spec_coord() == c && chart.spec_color_index()
                    == 0 && chart.spec_region() == canvas.spec_region() && resolves_to(
                    options,
                    chart.spec_layout(),
                ),
                None => r == Err::<Chart, Error>(Error::UnsupportedAxisCombination),
            },
    {
        let coord = match (x_range.range, y_range.range) {
            (RangeEnum::F64(a, b), RangeEnum::F64(c, d)) => Coord::F64F64 { x: (a, b), y: (c, d) },
            (RangeEnum::DateTime(a, b), RangeEnum::F64(c, d)) => Coord::DateTimeF64 {
                x: (a, b),
                y: (c, d),
            },
            (RangeEnum::Date(a, b), RangeEnum::F64(c, d)) => Coord::DateF64 { x: (a, b), y: (c, d) },
            (RangeEnum::Duration(a, b), RangeEnum::F64(c, d)) => Coord::DurationF64 {
                x: (a, b),
                y: (c, d),
            },
            _ => {
                return Err(Error::UnsupportedAxisCombination);
            },
        };
        let layout = resolve(options);
        Ok(Chart { coord, layout, region: canvas.region(), color_index: 0 })
    }

    pub fn coord(&self) -> (r: Coord)
        ensures
            r == self.spec_coord(),
    {
        self.coord
    }

    pub fn layout(&self) -> (r: &Layout)
        ensures
            *r == self.spec_layout(),
    {
        &self.layout
    }

    /// The region of the surface that the chart draws in.
    pub fn region(&self) -> (r: Region)
        ensures
            r == self.spec_region(),
    {
        self.region
    }

    pub fn x_dtype(&self) -> (r: Dtype)
        ensures
            r == self.spec_coord().spec_x_kind(),
    {
        self.coord.x_kind()
    }

    pub fn y_dtype(&self) -> (r: Dtype)
        ensures
            r == Dtype::F64,
    {
        Dtype::F64
    }

    /// Moves to the next palette color and returns it.
    fn next_color(&mut self) -> (r: Rgb)
        ensures
            *final(self) == old(self).advanced(),
            r == color_at(final(self).spec_color_index()),
    {
        let (i, c) = advance_color(self.color_index);
        self.color_index = i;
        c
    }

    /// Validates a pair of series against this chart and plans the draw:
    /// fails, leaving the chart as it was, when the lengths differ or a
    /// series does not fit its axis; otherwise takes the next color.
    fn plan(&mut self, x: &Series, y: &Series, mark: Mark, filled: Option<bool>, stroke_width: Option<u32>) -> (r:
        Result<Draw, Error>)
        requires
            x.wf(),
            y.wf(),
        ensures
            draw_outcome(*old(self), *final(self), *x, *y, mark, filled, stroke_width, r),
    {
        if x.len() != y.len() {
            return Err(Error::LengthMismatch);
        }
        if !x.fits_kind(self.coord.x_kind()) || !y.fits_kind(Dtype::F64) {
            return Err(Error::UnsupportedSeriesType);
        }
        let color = self.next_color();
        let style = ShapeStyle {
            color,
            filled: match filled {
                Some(b) => b,
                None => true,
            },
            stroke_width: match stroke_width {
                Some(w) => w,
                None => DEFAULT_STROKE_WIDTH,
            },
        };
        let ys = y.iter_f64();
        let points = match self.coord {
            Coord::F64F64 { .. } => Points::F64F64(x.iter_f64(), ys),
            Coord::DateTimeF64 { .. } => Points::DateTimeF64(x.iter_datetime(), ys),
            Coord::DateF64 { .. } => Points::DateF64(x.iter_date(), ys),
            Coord::DurationF64 { .. } => Points::DurationF64(x.iter_duration(), ys),
        };
        Ok(Draw { mark, style, points })
    }

    /// Plans a line through the points of `x` and `y`, stroke width 3 and
    /// filled unless given.
    pub fn line(&mut self, x: &Series, y: &Series, filled: Option<bool>, stroke_width: Option<u32>) -> (r:
        Result<Draw, Error>)
        requires
            x.wf(),
            y.wf(),
        ensures
            draw_outcome(*old(self), *final(self), *x, *y, Mark::Line, filled, stroke_width, r),
    {
        self.plan(x, y, Mark::Line, filled, stroke_width)
    }

    /// Plans a circle of radius `size` (5 unless given) at each point of `x`
    /// and `y`.
    pub fn scatter(
        &mut self,
        x: &Series,
        y: &Series,
        size: Option<u32>,
        filled: Option<bool>,
        stroke_width: Option<u32>,
    ) -> (r: Result<Draw, Error>)
        requires
            x.wf(),
            y.wf(),
        ensures
            draw_outcome(
                *old(self),
                *final(self),
                *x,
                *y,
                Mark::Circle(size.unwrap_or(5)),
                filled,
                stroke_width,
                r,
            ),
    {
        let radius = match size {
            Some(s) => s,
            None => DEFAULT_POINT_SIZE,
        };
        self.plan(x, y, Mark::Circle(radius), filled, stroke_width)
    }
}

/// The outcome of a draw call on chart `before`: differing lengths fail
/// first, then series that do not fit the axes, both leaving the chart
/// unchanged; otherwise the chart keeps its coordinate system, layout and
/// region, advances its color index by one draw call, and the plan carries
/// that color, the style, and the points read from the series.
pub open spec fn draw_outcome(
    before: Chart,
    after: Chart,
    x: Series,
    y: Series,
    mark: Mark,
    filled: Option<bool>,
    stroke_width: Option<u32>,
    r: Result<Draw, Error>,
) -> bool {
    if x.spec_len() != y.spec_len() {
        r == Err::<Draw, Error>(Error::LengthMismatch) && after == before
    } else if !(x.fits(before.spec_coord().spec_x_kind()) && y.fits(Dtype::F64)) {
        r == Err::<Draw, Error>(Error::UnsupportedSeriesType) && after == before
    } else {
        &&& after == before.advanced()
        &&& after.spec_coord() == before.spec_coord()
        &&& after.spec_layout() == before.spec_layout()
        &&& after.spec_region() == before.spec_region()
        &&& after.spec_color_index() == next_index(before.spec_color_index())
        &&& r matches Ok(d) && d.mark == mark && d.style == (ShapeStyle {
            color: color_at(after.spec_color_index()),
            filled: filled.unwrap_or(true),
            stroke_width: stroke_width.unwrap_or(3),
        }) && points_of(before.spec_coord(), x, y, d.points)
    }
}

/// Color cycling over a chart's history: along the states of a chart from
/// its construction (color index 0) through successive successful `line` or
/// `scatter` calls, which count alike, the chart keeps its coordinate system,
/// layout and region; after the `k`-th call its color index is
/// `nth_color_index(k)`, so the `k`-th call draws in `color_at(nth_color_index(k))`
/// on every chart and in every run; and no call draws in the white background.
pub proof fn lemma_draw_history(states: Seq<Chart>)
    requires
        states.len() >= 1,
        states[0].spec_color_index() == 0,
        forall|k: int| 0 <= k < states.len() - 1 ==> states[k + 1] == (#[trigger] states[k]).advanced(),
    ensures
        forall|k: int|
            0 <= k < states.len() ==> {
                &&& (#[trigger] states[k]).spec_color_index() == nth_color_index(k as nat)
                &&& states[k].spec_coord() == states[0].spec_coord()
                &&& states[k].spec_layout() == states[0].spec_layout()
                &&& states[k].spec_region() == states[0].spec_region()
            },
        forall|k: int| 0 <= k < states.len() ==> color_at(#[trigger] states[k].spec_color_index()) != white(),
{
    assert forall|k: int| 0 <= k < states.len() implies {
        &&& (#[trigger] states[k]).spec_color_index() == nth_color_index(k as nat)
        &&& states[k].spec_coord() == states[0].spec_coord()
        &&& states[k].spec_layout() == states[0].spec_layout()
        &&& states[k].spec_region() == states[0].spec_region()
    } by {
        lemma_history_prefix(states, k);
    }
    assert forall|k: int| 0 <= k < states.len() implies color_at(#[trigger] states[k].spec_color_index()) != white() by {
        let i = states[k].spec_color_index() as int % 9;
        assert(0 <= i < 9);
    }
}

proof fn lemma_history_prefix(states: Seq<Chart>, k: int)
    requires
        0 <= k < states.len(),
        states[0].spec_color_index() == 0,
        forall|j: int| 0 <= j < states.len() - 1 ==> states[j + 1] == (#[trigger] states[j]).advanced(),
    ensures
        states[k].spec_color_index() == nth_color_index(k as nat),
        states[k].spec_coord() == states[0].spec_coord(),
        states[k].spec_layout() == states[0].spec_layout(),
        states[k].spec_region() == states[0].spec_region(),
    decreases k,
{
    if k > 0 {
        lemma_history_prefix(states, k - 1);
        assert(states[(k - 1) + 1] == states[k - 1].advanced());
    }
}

} // verus!
