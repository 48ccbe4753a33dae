use sbgn_render::rat::Rat;
use sbgn_render::geom::{BBox, Bounds, RenderError};
use sbgn_render::transform::{Transform, bbox_pixel_rect, transform_with_padding, ceil_i64};

fn r(v: i64) -> Rat {
    Rat::whole(v)
}

#[test]
fn fit_computes_independent_axis_scales() {
    let t = Transform::new(r(0), r(0), r(100), r(50), r(200), r(200)).unwrap();
    assert!(t.scale_x.eq_val(&r(2)));
    assert!(t.scale_y.eq_val(&r(4)));
}

#[test]
fn degenerate_span_clamps_to_one_unit() {
    let t = Transform::new(r(5), r(5), r(5), r(5), r(10), r(10)).unwrap();
    assert!(t.scale_x.eq_val(&r(10)));
    assert!(t.scale_y.eq_val(&r(10)));
}

#[test]
fn map_point_scales_and_translates() {
    let t = Transform::new(r(10), r(20), r(110), r(70), r(100), r(50)).unwrap();
    let p = t.map_point(r(10), r(20)).unwrap();
    assert!(p.x.eq_val(&r(0)));
    assert!(p.y.eq_val(&r(0)));
    let q = t.map_point(r(60), r(45)).unwrap();
    assert!(q.x.eq_val(&r(50)));
    assert!(q.y.eq_val(&r(25)));
}

#[test]
fn map_then_unmap_round_trips_exactly() {
    let t = Transform::new(r(-7), r(3), r(93), r(53), r(250), r(75)).unwrap();
    let xs = [r(-7), r(0), Rat::frac(13, 4), r(93)];
    let ys = [r(3), Rat::frac(7, 2), r(53)];
    for x in xs.iter() {
        for y in ys.iter() {
            let p = t.map_point(*x, *y).unwrap();
            let back = t.unmap_point(p.x, p.y).unwrap();
            assert!(back.x.eq_val(x));
            assert!(back.y.eq_val(y));
        }
    }
}

#[test]
fn scale_scalar_uses_smaller_axis_scale() {
    let t = Transform::new(r(0), r(0), r(100), r(50), r(200), r(200)).unwrap();
    let s = t.scale_scalar(r(11)).unwrap();
    assert!(s.eq_val(&r(22)));
}

#[test]
fn pixel_rect_normalizes_negative_sizes() {
    let t = Transform::new(r(0), r(0), r(100), r(100), r(100), r(100)).unwrap();
    let b = BBox { x: r(30), y: r(40), w: r(-10), h: r(-20) };
    let rect = bbox_pixel_rect(&t, &b).unwrap();
    assert!(rect.x0.eq_val(&r(20)));
    assert!(rect.y0.eq_val(&r(20)));
    assert!(rect.w.eq_val(&r(10)));
    assert!(rect.h.eq_val(&r(20)));
}

#[test]
fn padded_canvas_size_for_single_box() {
    // a 96 x 48 box with padding 10 gives a 116 x 68 canvas at unit scale
    let bounds = Bounds { min_x: r(0), max_x: r(96), min_y: r(0), max_y: r(48) };
    let (t, w, h) = transform_with_padding(&bounds, r(10)).unwrap();
    assert_eq!(ceil_i64(&w), 116);
    assert_eq!(ceil_i64(&h), 68);
    assert!(t.scale_x.eq_val(&r(1)));
    assert!(t.scale_y.eq_val(&r(1)));
    let b = BBox { x: r(0), y: r(0), w: r(96), h: r(48) };
    let rect = bbox_pixel_rect(&t, &b).unwrap();
    assert!(rect.x0.eq_val(&r(10)));
    assert!(rect.y0.eq_val(&r(10)));
    assert!(rect.w.eq_val(&r(96)));
    assert!(rect.h.eq_val(&r(48)));
}

#[test]
fn numeric_range_overflow_is_reported() {
    let big = Rat::whole(sbgn_render::rat::RAT_LIMIT);
    let bounds = Bounds { min_x: big.neg(), max_x: big, min_y: r(0), max_y: r(1) };
    let res = transform_with_padding(&bounds, r(10));
    assert_eq!(res.unwrap_err(), RenderError::NumericRange);
}
