//! Typed series classification, axis dispatch and draw planning for 2-D
//! Cartesian charts.
//!
//! The library decides everything that does not touch pixels: what kind of
//! values an input series holds, which coordinate system a pair of axis
//! ranges selects, which palette color the next draw uses, and how a surface
//! is split into regions. Rasterization happens outside, driven by the plans
//! that these modules return.

mod calendar;
mod canvas;
mod chart;
mod datetime;
mod dtype;
mod error;
mod layout;
mod palette;
mod range;
mod series;

pub use calendar::{CivilDate, CivilDateTime, ClockTime};
pub use canvas::{lemma_split_partitions, Canvas, Region};
pub use chart::{axes_supported, lemma_draw_history, Chart, Coord, Draw, Mark, Points, ShapeStyle};
pub use datetime::{or_midnight, split_ticks, Date, DateTime, Duration, Time};
pub use dtype::Dtype;
pub use error::Error;
pub use layout::{resolve, Caption, ChartOptions, Layout, Sides};
pub use palette::lemma_color_cycle;
pub use range::{Range, RangeEnum};
pub use series::{lemma_numeric_preferred, Element, Number, Series, Source};
