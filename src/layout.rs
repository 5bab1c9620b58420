//! Style options of a chart and how their defaults resolve.
use vstd::prelude::*;

verus! {

pub const DEFAULT_MARGIN: i32 = 20;

pub const DEFAULT_LABEL_AREA: i32 = 20;

pub const DEFAULT_CAPTION_SIZE: u32 = 20;

pub const DEFAULT_STROKE_WIDTH: u32 = 3;

pub const DEFAULT_POINT_SIZE: u32 = 5;

pub const DEFAULT_LABEL_MAX: usize = 10;

/// Chart style options as a caller gives them; `None` asks for the default.
#[derive(Debug)]
pub struct ChartOptions {
    pub margin: Option<i32>,
    pub margin_left: Option<i32>,
    pub margin_right: Option<i32>,
    pub margin_top: Option<i32>,
    pub margin_bottom: Option<i32>,
    pub label_area: Option<i32>,
    pub label_area_left: Option<i32>,
    pub label_area_right: Option<i32>,
    pub label_area_top: Option<i32>,
    pub label_area_bottom: Option<i32>,
    pub caption: Option<String>,
    pub caption_font: Option<String>,
    pub caption_size: Option<u32>,
    pub mesh_x: Option<bool>,
    pub mesh_y: Option<bool>,
    pub axis_x: Option<bool>,
    pub axis_y: Option<bool>,
    pub axis_x_label_max: Option<usize>,
    pub axis_y_label_max: Option<usize>,
}

impl ChartOptions {
    /// Options that leave everything to the defaults.
    pub fn defaults() -> (r: ChartOptions)
        ensures
            r.margin is None && r.margin_left is None && r.margin_right is None,
            r.margin_top is None && r.margin_bottom is None,
            r.label_area is None && r.label_area_left is None && r.label_area_right is None,
            r.label_area_top is None && r.label_area_bottom is None,
            r.caption is None && r.caption_font is None && r.caption_size is None,
            r.mesh_x is None && r.mesh_y is None && r.axis_x is None && r.axis_y is None,
            r.axis_x_label_max is None && r.axis_y_label_max is None,
    {
        ChartOptions {
            margin: None,
            margin_left: None,
            margin_right: None,
            margin_top: None,
            margin_bottom: None,
            label_area: None,
            label_area_left: None,
            label_area_right: None,
            label_area_top: None,
            label_area_bottom: None,
            caption: None,
            caption_font: None,
            caption_size: None,
            mesh_x: None,
            mesh_y: None,
            axis_x: None,
            axis_y: None,
            axis_x_label_max: None,
            axis_y_label_max: None,
        }
    }
}

/// A size in pixels for each side of the plotting area.
#[derive(Clone, Copy, Debug, PartialEq, Eq, Structural)]
pub struct Sides {
    pub left: i32,
    pub right: i32,
    pub top: i32,
    pub bottom: i32,
}

/// A chart title with its font family and size in pixels.
#[derive(Debug)]
pub struct Caption {
    pub text: String,
    pub font: String,
    pub size: u32,
}

/// Resolved style of a chart.
#[derive(Debug)]
pub struct Layout {
    pub margin: Sides,
    pub label_area: Sides,
    pub caption: Option<Caption>,
    pub mesh_x: bool,
    pub mesh_y: bool,
    pub axis_x: bool,
    pub axis_y: bool,
    pub x_label_max: usize,
    pub y_label_max: usize,
}

/// A per-side value, else the value for all sides, else the default.
pub open spec fn side_value(side: Option<i32>, all: Option<i32>, default: i32) -> i32 {
    match side {
        Some(v) => v,
        None => match all {
            Some(v) => v,
            None => default,
        },
    }
}

/// Margins default to 20 pixels on every side; label areas to 20 pixels on
/// the left and at the bottom, where the tick labels go, and none elsewhere.
pub open spec fn resolves_to(o: ChartOptions, l: Layout) -> bool {
    &&& l.margin == (Sides {
        left: side_value(o.margin_left, o.margin, 20),
        right: side_value(o.margin_right, o.margin, 20),
        top: side_value(o.margin_top, o.margin, 20),
        bottom: side_value(o.margin_bottom, o.margin, 20),
    })
    &&& l.label_area == (Sides {
        left: side_value(o.label_area_left, o.label_area, 20),
        right: side_value(o.label_area_right, o.label_area, 0),
        top: side_value(o.label_area_top, o.label_area, 0),
        bottom: side_value(o.label_area_bottom, o.label_area, 20),
    })
    &&& match o.caption {
        None => l.caption is None,
        Some(t) => l.caption matches Some(c) && c.text == t && c.size == o.caption_size.unwrap_or(20)
            && c.font@ == match o.caption_font {
                Some(f) => f@,
                None => "sans-serif"@,
            },
    }
    &&& l.mesh_x == o.mesh_x.unwrap_or(true)
    &&& l.mesh_y == o.mesh_y.unwrap_or(true)
    &&& l.axis_x == o.axis_x.unwrap_or(true)
    &&& l.axis_y == o.axis_y.unwrap_or(true)
    &&& l.x_label_max == o.axis_x_label_max.unwrap_or(10)
    &&& l.y_label_max == o.axis_y_label_max.unwrap_or(10)
}

fn side(own: Option<i32>, all: Option<i32>, default: i32) -> (r: i32)
    ensures
        r == side_value(own, all, default),
{
    match own {
        Some(v) => v,
        None => match all {
            Some(v) => v,
            None => default,
        },
    }
}

fn flag(v: Option<bool>) -> (r: bool)
    ensures
        r == v.unwrap_or(true),
{
    match v {
        Some(b) => b,
        None => true,
    }
}

fn label_max(v: Option<usize>) -> (r: usize)
    ensures
        r == v.unwrap_or(10),
{
    match v {
        Some(n) => n,
        None => DEFAULT_LABEL_MAX,
    }
}

/// Resolves every option that was not given to its default; a per-side
/// value takes precedence over the value for all sides.
pub fn resolve(o: ChartOptions) -> (r: Layout)
    ensures
        resolves_to(o, r),
{
    let margin = Sides {
        left: side(o.margin_left, o.margin, DEFAULT_MARGIN),
        right: side(o.margin_right, o.margin, DEFAULT_MARGIN),
        top: side(o.margin_top, o.margin, DEFAULT_MARGIN),
        bottom: side(o.margin_bottom, o.margin, DEFAULT_MARGIN),
    };
    let label_area = Sides {
        left: side(o.label_area_left, o.label_area, DEFAULT_LABEL_AREA),
        right: side(o.label_area_right, o.label_area, 0),
        top: side(o.label_area_top, o.label_area, 0),
        bottom: side(o.label_area_bottom, o.label_area, DEFAULT_LABEL_AREA),
    };
    let mesh_x = flag(o.mesh_x);
    let mesh_y = flag(o.mesh_y);
    let axis_x = flag(o.axis_x);
    let axis_y = flag(o.axis_y);
    let x_label_max = label_max(o.axis_x_label_max);
    let y_label_max = label_max(o.axis_y_label_max);
    let size = match o.caption_size {
        Some(s) => s,
        None => DEFAULT_CAPTION_SIZE,
    };
    let caption = match o.caption {
        None => None,
        Some(text) => {
            let font = match o.caption_font {
                Some(f) => f,
                None => "sans-serif".to_owned(),
            };
            Some(Caption { text, font, size })
        },
    };
    Layout { margin, label_area, caption, mesh_x, mesh_y, axis_x, axis_y, x_label_max, y_label_max }
}

} // verus!
