use ezel::{
    axes_supported, Canvas, Chart, ChartOptions, CivilDate, Coord, DateTime, Dtype, Element, Error, Mark, Number,
    Points, Range, RangeEnum, Region, Series, Source,
};

const PALETTE: [(u8, u8, u8); 9] = [
    (255, 225, 25),
    (0, 130, 200),
    (245, 130, 48),
    (250, 190, 190),
    (230, 190, 255),
    (128, 0, 0),
    (0, 0, 128),
    (128, 128, 128),
    (0, 0, 0),
];

fn floats(v: &[f64]) -> Series {
    Series::extract(Source::ArrayF64(v.iter().map(|x| x.to_bits()).collect())).unwrap()
}

fn f64_range(a: f64, b: f64) -> Range {
    Range::f64_bits(a.to_bits(), b.to_bits())
}

fn f64_chart(canvas: &Canvas) -> Chart {
    Chart::new(canvas, &f64_range(0.0, 10.0), &f64_range(0.0, 10.0), ChartOptions::defaults()).unwrap()
}

#[test]
fn it_works() {
    let items = [4i64, 1, 8, 5, 6, 2, 7, 3]
        .iter()
        .map(|i| Element { int: Some(*i), float: Some((*i as f64).to_bits()), ..Element::blank() })
        .collect();
    let list = Series::extract(Source::List(items)).unwrap();
    assert_eq!(list.dtype(), Dtype::I64);
    let canvas = Canvas::new(Some(400), Some(300));
    assert_eq!(canvas.size(), (400, 300));
    let chart = f64_chart(&canvas);
    assert_eq!(chart.region(), Region { x0: 0, y0: 0, x1: 400, y1: 300 });
}

#[test]
fn range_kinds() {
    let d = CivilDate { year: 2020, month: 1, day: 1 };
    assert_eq!(f64_range(0.0, 1.0).dtype(), Dtype::F64);
    assert_eq!(Range::f32_bits(0, 1).dtype(), Dtype::F32);
    assert_eq!(Range::i64(0, 1).dtype(), Dtype::I64);
    assert_eq!(Range::i32(0, 1).dtype(), Dtype::I32);
    assert_eq!(Range::date(d, d).dtype(), Dtype::NaiveDate);
    let t = ezel::CivilDateTime { date: d, time: ezel::ClockTime { hour: 0, minute: 0, second: 0, nano: 0 } };
    assert_eq!(Range::datetime(t, t).dtype(), Dtype::NaiveDateTime);
    assert_eq!(Range::time(t.time, t.time).dtype(), Dtype::NaiveTime);
    assert_eq!(Range::duration(-5, 5).dtype(), Dtype::Duration);
    assert_eq!(Range::i64(3, 4).range, RangeEnum::I64(3, 4));
}

#[test]
fn unsupported_axis_pairs_fail() {
    assert!(!axes_supported(Dtype::String, Dtype::F64));
    assert!(!axes_supported(Dtype::F64, Dtype::I64));
    assert!(axes_supported(Dtype::Duration, Dtype::F64));
    let canvas = Canvas::new(None, None);
    let r = Chart::new(&canvas, &Range::i64(0, 1), &f64_range(0.0, 1.0), ChartOptions::defaults());
    assert_eq!(r.unwrap_err(), Error::UnsupportedAxisCombination);
    let r = Chart::new(&canvas, &f64_range(0.0, 1.0), &Range::i32(0, 1), ChartOptions::defaults());
    assert_eq!(r.unwrap_err(), Error::UnsupportedAxisCombination);
}

#[test]
fn supported_axis_pairs_select_their_coordinates() {
    let canvas = Canvas::new(None, None);
    let d0 = CivilDate { year: 2020, month: 1, day: 1 };
    let d1 = CivilDate { year: 2020, month: 2, day: 1 };
    let c = Chart::new(&canvas, &Range::date(d0, d1), &f64_range(-1.0, 1.0), ChartOptions::defaults()).unwrap();
    assert_eq!(c.coord(), Coord::DateF64 { x: (d0, d1), y: ((-1.0f64).to_bits(), 1.0f64.to_bits()) });
    assert_eq!(c.x_dtype(), Dtype::NaiveDate);
    assert_eq!(c.y_dtype(), Dtype::F64);
    let c = Chart::new(&canvas, &Range::duration(0, 10), &f64_range(0.0, 1.0), ChartOptions::defaults()).unwrap();
    assert_eq!(c.x_dtype(), Dtype::Duration);
}

#[test]
fn default_layout() {
    let canvas = Canvas::new(None, None);
    let chart = f64_chart(&canvas);
    let l = chart.layout();
    assert_eq!(l.margin, ezel::Sides { left: 20, right: 20, top: 20, bottom: 20 });
    assert_eq!(l.label_area, ezel::Sides { left: 20, right: 0, top: 0, bottom: 20 });
    assert!(l.caption.is_none());
    assert!(l.mesh_x && l.mesh_y && l.axis_x && l.axis_y);
    assert_eq!((l.x_label_max, l.y_label_max), (10, 10));
}

#[test]
fn explicit_layout_options() {
    let mut o = ChartOptions::defaults();
    o.margin = Some(5);
    o.margin_top = Some(7);
    o.label_area_bottom = Some(30);
    o.caption = Some("Title".to_string());
    o.caption_size = Some(12);
    o.mesh_y = Some(false);
    o.axis_x_label_max = Some(4);
    let l = ezel::resolve(o);
    assert_eq!(l.margin, ezel::Sides { left: 5, right: 5, top: 7, bottom: 5 });
    assert_eq!(l.label_area, ezel::Sides { left: 20, right: 0, top: 0, bottom: 30 });
    let c = l.caption.unwrap();
    assert_eq!((c.text.as_str(), c.font.as_str(), c.size), ("Title", "sans-serif", 12));
    assert!(l.mesh_x && !l.mesh_y);
    assert_eq!((l.x_label_max, l.y_label_max), (4, 10));

    let mut o = ChartOptions::defaults();
    o.label_area = Some(9);
    o.label_area_left = Some(1);
    o.caption = Some("t".to_string());
    o.caption_font = Some("serif".to_string());
    let l = ezel::resolve(o);
    assert_eq!(l.label_area, ezel::Sides { left: 1, right: 9, top: 9, bottom: 9 });
    assert_eq!(l.caption.unwrap().font, "serif");
}

#[test]
fn length_mismatch_draws_nothing() {
    let canvas = Canvas::new(None, None);
    let mut chart = f64_chart(&canvas);
    let x = floats(&[0.0, 1.0, 2.0, 3.0, 4.0]);
    let y = floats(&[0.0, 1.0, 2.0, 3.0, 4.0, 5.0, 6.0]);
    assert_eq!(chart.line(&x, &y, None, None).unwrap_err(), Error::LengthMismatch);
    assert_eq!(chart.scatter(&x, &y, None, None, None).unwrap_err(), Error::LengthMismatch);
    // the failed calls took no color
    let d = chart.line(&x, &x, None, None).unwrap();
    assert_eq!(d.style.color, PALETTE[1]);
}

#[test]
fn series_that_do_not_fit_the_axes_fail() {
    let canvas = Canvas::new(None, None);
    let d0 = CivilDate { year: 2020, month: 1, day: 1 };
    let t0 = ezel::CivilDateTime { date: d0, time: ezel::ClockTime { hour: 0, minute: 0, second: 0, nano: 0 } };
    let mut chart = Chart::new(&canvas, &Range::datetime(t0, t0), &f64_range(0.0, 1.0), ChartOptions::defaults())
        .unwrap();
    let x = floats(&[1.0]);
    assert_eq!(chart.line(&x, &x, None, None).unwrap_err(), Error::UnsupportedSeriesType);
    let stamps = Series::extract(Source::ArrayI64(vec![0])).unwrap();
    let dt = Series::extract(Source::DateTime(DateTime::timestamp_sec(&stamps).unwrap())).unwrap();
    let d = chart.scatter(&dt, &x, Some(2), Some(false), Some(1)).unwrap();
    assert_eq!(d.mark, Mark::Circle(2));
    assert!(!d.style.filled);
    assert_eq!(d.style.stroke_width, 1);
    assert_eq!(d.style.color, PALETTE[1]);
    match d.points {
        Points::DateTimeF64(xs, ys) => {
            let epoch = ezel::CivilDateTime {
                date: CivilDate { year: 1970, month: 1, day: 1 },
                time: ezel::ClockTime { hour: 0, minute: 0, second: 0, nano: 0 },
            };
            assert_eq!(xs, vec![epoch]);
            assert_eq!(ys, vec![Number::F64(1.0f64.to_bits())]);
        }
        _ => panic!("wrong coordinate shape"),
    }
}

#[test]
fn colors_cycle_deterministically_and_never_white() {
    let canvas = Canvas::new(None, None);
    let x = floats(&[1.0]);
    let mut runs = Vec::new();
    for _ in 0..2 {
        let mut chart = f64_chart(&canvas);
        let mut colors = Vec::new();
        for n in 0..20 {
            let d = if n % 2 == 0 {
                chart.line(&x, &x, None, None).unwrap()
            } else {
                chart.scatter(&x, &x, None, None, None).unwrap()
            };
            assert_ne!(d.style.color, (255, 255, 255));
            colors.push(d.style.color);
        }
        runs.push(colors);
    }
    assert_eq!(runs[0], runs[1]);
    for (n, c) in runs[0].iter().enumerate() {
        assert_eq!(*c, PALETTE[(n + 1) % 9]);
    }
}

#[test]
fn draw_defaults() {
    let canvas = Canvas::new(None, None);
    let mut chart = f64_chart(&canvas);
    let x = floats(&[1.0, 2.0]);
    let d = chart.line(&x, &x, None, None).unwrap();
    assert_eq!(d.mark, Mark::Line);
    assert!(d.style.filled);
    assert_eq!(d.style.stroke_width, 3);
    let d = chart.scatter(&x, &x, None, None, None).unwrap();
    assert_eq!(d.mark, Mark::Circle(5));
    assert_eq!(d.style.color, PALETTE[2]);
}

#[test]
fn end_to_end_left_half_chart() {
    let root = Canvas::new(Some(800), Some(600));
    let (left, right) = root.split_horizontally(400);
    assert_eq!(left.region(), Region { x0: 0, y0: 0, x1: 400, y1: 600 });
    assert_eq!(right.region(), Region { x0: 400, y0: 0, x1: 800, y1: 600 });
    let mut chart = f64_chart(&left);
    let xs = floats(&[0.0, 5.0, 10.0]);
    let line = chart.line(&xs, &xs, None, None).unwrap();
    match line.points {
        Points::F64F64(px, py) => {
            assert_eq!(px.len(), 3);
            assert_eq!(px, py);
            assert_eq!(px[1], Number::F64(5.0f64.to_bits()));
        }
        _ => panic!("wrong coordinate shape"),
    }
    let one = floats(&[1.0]);
    let dot = chart.scatter(&one, &one, Some(5), None, None).unwrap();
    assert_eq!(dot.mark, Mark::Circle(5));
    // everything this chart draws stays in the left half
    assert_eq!(chart.region().x1, 400);
    assert_eq!(root.export_size(), Ok((800, 600)));
    assert_eq!(left.export_size(), Err(Error::NotRoot));
}

#[test]
fn splitting_keeps_the_parent_usable() {
    let root = Canvas::new(None, None);
    let (top, bottom) = root.split_vertically(250);
    assert_eq!(top.region(), Region { x0: 0, y0: 0, x1: 800, y1: 250 });
    assert_eq!(bottom.region(), Region { x0: 0, y0: 250, x1: 800, y1: 600 });
    assert!(!top.is_root() && !bottom.is_root());
    assert_eq!(top.size(), (800, 600));
    assert!(root.is_root());
    let mut chart = f64_chart(&root);
    assert_eq!(chart.region(), Region { x0: 0, y0: 0, x1: 800, y1: 600 });
    let x = floats(&[1.0]);
    assert!(chart.line(&x, &x, None, None).is_ok());
    let (a, b) = bottom.split_horizontally(100);
    assert_eq!(a.region(), Region { x0: 0, y0: 250, x1: 100, y1: 600 });
    assert_eq!(b.region(), Region { x0: 100, y0: 250, x1: 800, y1: 600 });
}

#[test]
fn split_past_the_edge_leaves_an_empty_part() {
    let root = Canvas::new(Some(100), Some(50));
    let (l, r) = root.split_horizontally(500);
    assert_eq!(l.region(), Region { x0: 0, y0: 0, x1: 100, y1: 50 });
    assert_eq!(r.region(), Region { x0: 100, y0: 0, x1: 100, y1: 50 });
    let (u, d) = root.split_vertically(u32::MAX);
    assert_eq!(u.region().y1, 50);
    assert_eq!(d.region().y0, 50);
}

#[test]
fn draws_keep_the_chart_and_share_one_color_counter() {
    let root = Canvas::new(None, None);
    let (left, _) = root.split_horizontally(400);
    let mut chart = f64_chart(&left);
    let coord = chart.coord();
    let x = floats(&[1.0]);
    chart.line(&x, &x, None, None).unwrap();
    let d = chart.scatter(&x, &x, None, None, None).unwrap();
    assert_eq!(d.style.color, PALETTE[2]);
    assert_eq!(chart.coord(), coord);
    assert_eq!(chart.region(), Region { x0: 0, y0: 0, x1: 400, y1: 600 });
    assert_eq!(chart.layout().margin.left, 20);
}
