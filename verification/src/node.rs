//! Drawing one glyph: shape selection, fill and border, the clone marker,
//! the label, and the orientation tick-marks.

use vstd::prelude::*;

verus! {

use crate::rat::{Rat, RatV, rv_c, rv_min, rv_max, ca_add, ca_sub, ca_mul, add_ok, sub_ok, mul_ok};
use crate::geom::{Pt, PtV, BBox, Rect, RectV, RenderError, ranged};
use crate::cmd::{Cmd, CmdV, Color, cmd_views, appended, emit};
use crate::shapes::{
    rect_cx,
    rect_cy,
    rect_center_v,
    rect_center_ok,
    rect_center,
    rect_path_v,
    path_rect,
    ellipse_path_v,
    path_ellipse,
    hexagon_path_v,
    path_hexagon,
    ellipse_path_ok,
    hexagon_path_ok,
    concave_hexagon_path_ok,
    round_rect_path_ok,
    round_bottom_path_ok,
    cut_rect_path_ok,
    barrel_path_ok,
    tag_path_ok,
    concave_hexagon_path_v,
    path_concave_hexagon,
    round_rect_path_v,
    path_round_rect_impl,
    round_bottom_path_v,
    path_round_bottom_rect_impl,
    cut_rect_path_v,
    path_cut_rect,
    barrel_path_v,
    path_barrel,
    tag_path_v,
    path_tag,
};
use crate::style::Orientation;
use crate::text::is_blank;
use crate::transform::{Transform, TransformV, tf_rect, tf_rect_ok, tf_map_pt, tf_map_pt_ok,
    tf_scale_w, tf_scale_h_ok, tf_scale_w_ok, tf_scalar_ok, bbox_pixel_rect};

/// The primitive outline drawn for a glyph, with its class-specific
/// radius or notch rule.
#[derive(Clone, Copy, Debug, PartialEq, Eq, Structural)]
pub enum ShapeKind {
    /// Plain rectangle.
    Rect,
    /// Inscribed ellipse.
    Ellipse,
    /// Phenotype hexagon.
    Hexagon,
    /// Perturbing-agent concave hexagon.
    ConcaveHexagon,
    /// Compartment barrel.
    Barrel,
    /// Rounded rectangle, radius a tenth of the smaller side, at least 1.
    RoundRect,
    /// Stadium, radius 24% of the larger side.
    Stadium,
    /// Bottom-rounded rectangle, radius 30% of the height, at least 1.
    RoundBottom,
    /// Cut-corner rectangle, corner a fifth of the smaller side, at least 1.
    CutRect,
    /// Notched tag, notch 30% of the height, at least 2.
    Tag,
}

/// The path of a shape kind on a pixel rectangle.
pub open spec fn shape_path_v(k: ShapeKind, r: RectV) -> Seq<CmdV> {
    match k {
        ShapeKind::Rect => rect_path_v(r),
        ShapeKind::Ellipse => ellipse_path_v(r),
        ShapeKind::Hexagon => hexagon_path_v(r),
        ShapeKind::ConcaveHexagon => concave_hexagon_path_v(r),
        ShapeKind::Barrel => barrel_path_v(r),
        ShapeKind::RoundRect => round_rect_path_v(
            r.x0,
            r.y0,
            r.w,
            r.h,
            rv_max(ca_mul(rv_min(r.w, r.h), rv_c(1, 10)), rv_c(1, 1)),
        ),
        ShapeKind::Stadium => round_rect_path_v(
            r.x0,
            r.y0,
            r.w,
            r.h,
            ca_mul(rv_c(24, 100), rv_max(r.w, r.h)),
        ),
        ShapeKind::RoundBottom => round_bottom_path_v(
            r.x0,
            r.y0,
            r.w,
            r.h,
            rv_max(ca_mul(r.h, rv_c(3, 10)), rv_c(1, 1)),
        ),
        ShapeKind::CutRect => cut_rect_path_v(
            r,
            rv_max(ca_mul(rv_min(r.w, r.h), rv_c(1, 5)), rv_c(1, 1)),
        ),
        ShapeKind::Tag => tag_path_v(r, rv_max(ca_mul(r.h, rv_c(3, 10)), rv_c(2, 1))),
    }
}

/// Whether a shape kind's path stays within machine range.
pub open spec fn shape_path_ok(k: ShapeKind, r: RectV) -> bool {
    match k {
        ShapeKind::Rect => true,
        ShapeKind::Ellipse => ellipse_path_ok(r),
        ShapeKind::Hexagon => hexagon_path_ok(r),
        ShapeKind::ConcaveHexagon => concave_hexagon_path_ok(r),
        ShapeKind::Barrel => barrel_path_ok(r),
        ShapeKind::RoundRect => mul_ok(rv_min(r.w, r.h), rv_c(1, 10)) && round_rect_path_ok(
            r.x0,
            r.y0,
            r.w,
            r.h,
            rv_max(ca_mul(rv_min(r.w, r.h), rv_c(1, 10)), rv_c(1, 1)),
        ),
        ShapeKind::Stadium => mul_ok(rv_c(24, 100), rv_max(r.w, r.h)) && round_rect_path_ok(
            r.x0,
            r.y0,
            r.w,
            r.h,
            ca_mul(rv_c(24, 100), rv_max(r.w, r.h)),
        ),
        ShapeKind::RoundBottom => mul_ok(r.h, rv_c(3, 10)) && round_bottom_path_ok(
            r.x0,
            r.y0,
            r.w,
            r.h,
            rv_max(ca_mul(r.h, rv_c(3, 10)), rv_c(1, 1)),
        ),
        ShapeKind::CutRect => mul_ok(rv_min(r.w, r.h), rv_c(1, 5)) && cut_rect_path_ok(
            r,
            rv_max(ca_mul(rv_min(r.w, r.h), rv_c(1, 5)), rv_c(1, 1)),
        ),
        ShapeKind::Tag => mul_ok(r.h, rv_c(3, 10)) && tag_path_ok(
            r,
            rv_max(ca_mul(r.h, rv_c(3, 10)), rv_c(2, 1)),
        ),
    }
}

/// Emit the path of a shape kind on a pixel rectangle.
pub fn emit_shape_path(out: &mut Vec<Cmd>, k: ShapeKind, r: &Rect) -> (res: Result<
    (),
    RenderError,
>)
    requires
        r.wf(),
    ensures
        res is Ok ==> appended(old(out)@, final(out)@, shape_path_v(k, r@)),
        res matches Err(e) ==> e == RenderError::NumericRange,
        res is Err <==> !shape_path_ok(k, r@),
{
    let one = Rat::whole(1);
    match k {
        ShapeKind::Rect => {
            path_rect(out, r);
            Ok(())
        },
        ShapeKind::Ellipse => path_ellipse(out, r),
        ShapeKind::Hexagon => path_hexagon(out, r),
        ShapeKind::ConcaveHexagon => path_concave_hexagon(out, r),
        ShapeKind::Barrel => path_barrel(out, r),
        ShapeKind::RoundRect => {
            let radius = ranged(r.w.min(&r.h).mul(&Rat::frac(1, 10)))?.max(&one);
            path_round_rect_impl(out, r.x0, r.y0, r.w, r.h, radius)
        },
        ShapeKind::Stadium => {
            let radius = ranged(Rat::frac(24, 100).mul(&r.w.max(&r.h)))?;
            path_round_rect_impl(out, r.x0, r.y0, r.w, r.h, radius)
        },
        ShapeKind::RoundBottom => {
            let radius = ranged(r.h.mul(&Rat::frac(3, 10)))?.max(&one);
            path_round_bottom_rect_impl(out, r.x0, r.y0, r.w, r.h, radius)
        },
        ShapeKind::CutRect => {
            let corner = ranged(r.w.min(&r.h).mul(&Rat::frac(1, 5)))?.max(&one);
            path_cut_rect(out, r, corner)
        },
        ShapeKind::Tag => {
            let notch = ranged(r.h.mul(&Rat::frac(3, 10)))?.max(&Rat::whole(2));
            path_tag(out, r, notch)
        },
    }
}

/// A centered label: nothing at all when the text is blank.
pub open spec fn text_centered_v(center: PtV, text: Seq<char>, font_px: RatV) -> Seq<CmdV> {
    if is_blank(text) {
        Seq::empty()
    } else {
        seq![CmdV::TextCentered(center, text, font_px)]
    }
}

/// Draw a label centered on a point; blank text draws nothing.
pub fn draw_text_centered(out: &mut Vec<Cmd>, center: Pt, text: &str, font_px: Rat)
    ensures
        appended(old(out)@, final(out)@, text_centered_v(center@, text@, font_px@)),
{
    let ghost s0 = out@;
    if crate::text::blank(text) {
        proof {
            assert(cmd_views(s0) =~= cmd_views(s0) + Seq::<CmdV>::empty());
        }
    } else {
        emit(out, Cmd::TextCentered(center, String::from_str(text), font_px));
        proof {
            assert(cmd_views(out@) =~= cmd_views(s0) + text_centered_v(center@, text@, font_px@));
        }
    }
}

/// A bottom-centered label: nothing at all when the text is blank.
pub open spec fn text_bottom_centered_v(r: RectV, text: Seq<char>, font_px: RatV) -> Seq<CmdV> {
    if is_blank(text) {
        Seq::empty()
    } else {
        seq![CmdV::TextBottomCentered(r, text, font_px)]
    }
}

/// Draw a label at the bottom center of a rectangle; blank text draws
/// nothing.
pub fn draw_text_bottom_centered(out: &mut Vec<Cmd>, r: &Rect, text: &str, font_px: Rat)
    ensures
        appended(old(out)@, final(out)@, text_bottom_centered_v(r@, text@, font_px@)),
{
    let ghost s0 = out@;
    if crate::text::blank(text) {
        proof {
            assert(cmd_views(s0) =~= cmd_views(s0) + Seq::<CmdV>::empty());
        }
    } else {
        emit(out, Cmd::TextBottomCentered(*r, String::from_str(text), font_px));
        proof {
            assert(cmd_views(out@) =~= cmd_views(s0) + text_bottom_centered_v(r@, text@, font_px@));
        }
    }
}

/// The clone marker: the shape clipped to a band along its bottom, filled
/// light gray and stroked, with paint state restored afterwards.
pub open spec fn clone_marker_v(k: ShapeKind, r: RectV) -> Seq<CmdV> {
    let mh = rv_max(ca_mul(r.h, rv_c(3, 10)), rv_c(1, 1));
    let mx = ca_sub(rect_cx(r), ca_mul(r.w, rv_c(1, 2)));
    let my = ca_sub(ca_add(r.y0, r.h), mh);
    seq![CmdV::Save] + shape_path_v(k, r) + seq![
        CmdV::Clip,
        CmdV::NewPath,
        CmdV::Rectangle(RectV { x0: mx, y0: my, w: r.w, h: mh }),
        CmdV::SetColor(Color::CloneFill),
        CmdV::FillPreserve,
        CmdV::SetColor(Color::AuxLine),
        CmdV::SetLineWidth(rv_max(rv_c(3, 2), rv_c(1, 1))),
        CmdV::Stroke,
        CmdV::Restore,
        CmdV::SetColor(Color::Border),
        CmdV::SetLineWidth(rv_c(3, 2)),
    ]
}

/// Whether the clone marker stays within machine range.
pub open spec fn clone_marker_ok(k: ShapeKind, r: RectV) -> bool {
    let mh = rv_max(ca_mul(r.h, rv_c(3, 10)), rv_c(1, 1));
    &&& mul_ok(r.h, rv_c(3, 10))
    &&& rect_center_ok(r)
    &&& mul_ok(r.w, rv_c(1, 2))
    &&& sub_ok(rect_cx(r), ca_mul(r.w, rv_c(1, 2)))
    &&& add_ok(r.y0, r.h)
    &&& sub_ok(ca_add(r.y0, r.h), mh)
    &&& shape_path_ok(k, r)
}

/// Draw the clone marker band over the bottom of a shape.
#[verifier::rlimit(60)]
pub fn draw_clone_marker(out: &mut Vec<Cmd>, k: ShapeKind, r: &Rect) -> (res: Result<
    (),
    RenderError,
>)
    requires
        r.wf(),
    ensures
        res is Ok ==> appended(old(out)@, final(out)@, clone_marker_v(k, r@)),
        res matches Err(e) ==> e == RenderError::NumericRange,
        res is Err <==> !clone_marker_ok(k, r@),
{
    let ghost s0 = out@;
    let one = Rat::whole(1);
    let mh = ranged(r.h.mul(&Rat::frac(3, 10)))?.max(&one);
    let c = rect_center(r)?;
    let mx = ranged(c.x.sub(&ranged(r.w.mul(&Rat::frac(1, 2)))?))?;
    let my = ranged(ranged(r.y0.add(&r.h))?.sub(&mh))?;
    emit(out, Cmd::Save);
    emit_shape_path(out, k, r)?;
    emit(out, Cmd::Clip);
    emit(out, Cmd::NewPath);
    emit(out, Cmd::Rectangle(Rect { x0: mx, y0: my, w: r.w, h: mh }));
    emit(out, Cmd::SetColor(Color::CloneFill));
    emit(out, Cmd::FillPreserve);
    emit(out, Cmd::SetColor(Color::AuxLine));
    emit(out, Cmd::SetLineWidth(Rat::frac(3, 2).max(&one)));
    emit(out, Cmd::Stroke);
    emit(out, Cmd::Restore);
    emit(out, Cmd::SetColor(Color::Border));
    emit(out, Cmd::SetLineWidth(Rat::frac(3, 2)));
    proof {
        assert(cmd_views(out@) =~= cmd_views(s0) + clone_marker_v(k, r@));
    }
    Ok(())
}

/// A complete glyph shape: border width set, the outline path, optional
/// fill, border stroke, optional clone marker with the outline restruck,
/// the centered label, and the default line width restored.
pub open spec fn shape_with_clone_v(
    k: ShapeKind,
    r: RectV,
    label: Seq<char>,
    font_px: RatV,
    has_clone: bool,
    line_width: RatV,
    fill: Option<Color>,
) -> Seq<CmdV> {
    seq![CmdV::SetLineWidth(rv_max(line_width, rv_c(1, 2)))] + shape_path_v(k, r) + (match fill {
        Some(c) => seq![CmdV::SetColor(c), CmdV::FillPreserve],
        None => Seq::empty(),
    }) + seq![CmdV::SetColor(Color::Border), CmdV::Stroke] + (if has_clone {
        clone_marker_v(k, r) + shape_path_v(k, r) + seq![
            CmdV::SetColor(Color::Border),
            CmdV::Stroke,
        ]
    } else {
        Seq::empty()
    }) + text_centered_v(rect_center_v(r), label, font_px) + seq![CmdV::SetLineWidth(rv_c(3, 2))]
}

/// Whether a full glyph shape stays within machine range.
pub open spec fn shape_with_clone_ok(k: ShapeKind, r: RectV, has_clone: bool) -> bool {
    &&& shape_path_ok(k, r)
    &&& (has_clone ==> clone_marker_ok(k, r))
    &&& rect_center_ok(r)
}

/// Draw a glyph shape with fill, border, optional clone marker and label.
#[verifier::rlimit(100)]
pub fn draw_shape_with_clone(
    out: &mut Vec<Cmd>,
    k: ShapeKind,
    r: &Rect,
    label: &str,
    font_px: Rat,
    has_clone: bool,
    line_width: Rat,
    fill: Option<Color>,
) -> (res: Result<(), RenderError>)
    requires
        r.wf(),
        line_width.wf(),
    ensures
        res is Ok ==> appended(
            old(out)@,
            final(out)@,
            shape_with_clone_v(k, r@, label@, font_px@, has_clone, line_width@, fill),
        ),
        res matches Err(e) ==> e == RenderError::NumericRange,
        res is Err <==> !shape_with_clone_ok(k, r@, has_clone),
{
    let ghost s0 = out@;
    emit(out, Cmd::SetLineWidth(line_width.max(&Rat::frac(1, 2))));
    emit_shape_path(out, k, r)?;
    match fill {
        Some(c) => {
            emit(out, Cmd::SetColor(c));
            emit(out, Cmd::FillPreserve);
        },
        None => {},
    }
    emit(out, Cmd::SetColor(Color::Border));
    emit(out, Cmd::Stroke);
    if has_clone {
        draw_clone_marker(out, k, r)?;
        emit_shape_path(out, k, r)?;
        emit(out, Cmd::SetColor(Color::Border));
        emit(out, Cmd::Stroke);
    }
    let c = rect_center(r)?;
    draw_text_centered(out, c, label, font_px);
    emit(out, Cmd::SetLineWidth(Rat::frac(3, 2)));
    proof {
        assert(cmd_views(out@) =~= cmd_views(s0) + shape_with_clone_v(
            k,
            r@,
            label@,
            font_px@,
            has_clone,
            line_width@,
            fill,
        ));
    }
    Ok(())
}


// --- per-class glyph draws on a data-space box ---

/// The fallback rectangle glyph.
pub open spec fn box_bbox_v(
    t: TransformV,
    b: crate::geom::BBoxV,
    label: Seq<char>,
    font_px: RatV,
    has_clone: bool,
) -> Seq<CmdV> {
    shape_with_clone_v(
        ShapeKind::Rect,
        tf_rect(t, b),
        label,
        font_px,
        has_clone,
        rv_c(3, 2),
        Some(Color::DefaultFill),
    )
}

/// Whether the rectangle glyph stays within machine range.
pub open spec fn box_bbox_ok(t: TransformV, b: crate::geom::BBoxV, has_clone: bool) -> bool {
    tf_rect_ok(t, b) && shape_with_clone_ok(ShapeKind::Rect, tf_rect(t, b), has_clone)
}

/// Draw a plain rectangle glyph at its box.
pub fn draw_box_bbox(
    out: &mut Vec<Cmd>,
    t: &Transform,
    b: &BBox,
    label: &str,
    font_px: Rat,
    has_clone: bool,
) -> (res: Result<(), RenderError>)
    requires
        t.wf(),
        b.wf(),
    ensures
        res is Ok ==> appended(
            old(out)@,
            final(out)@,
            box_bbox_v(t@, b@, label@, font_px@, has_clone),
        ),
        res matches Err(e) ==> e == RenderError::NumericRange,
        res is Err <==> !box_bbox_ok(t@, b@, has_clone),
{
    let rect = bbox_pixel_rect(t, b)?;
    draw_shape_with_clone(
        out,
        ShapeKind::Rect,
        &rect,
        label,
        font_px,
        has_clone,
        Rat::frac(3, 2),
        Some(Color::DefaultFill),
    )
}

/// The square drawn for process nodes: sized to the smaller box side and
/// centered within the box, not stretched.
pub open spec fn square_rect_v(t: TransformV, b: crate::geom::BBoxV) -> RectV {
    let cdx = ca_add(b.x, ca_mul(b.w, rv_c(1, 2)));
    let cdy = ca_add(b.y, ca_mul(b.h, rv_c(1, 2)));
    let center = tf_map_pt(t, cdx, cdy);
    let side_px = tf_scale_w(t, rv_min(b.w, b.h));
    RectV {
        x0: ca_sub(center.x, ca_mul(side_px, rv_c(1, 2))),
        y0: ca_sub(center.y, ca_mul(side_px, rv_c(1, 2))),
        w: side_px,
        h: side_px,
    }
}

pub open spec fn square_bbox_v(
    t: TransformV,
    b: crate::geom::BBoxV,
    label: Seq<char>,
    font_px: RatV,
    has_clone: bool,
) -> Seq<CmdV> {
    shape_with_clone_v(
        ShapeKind::Rect,
        square_rect_v(t, b),
        label,
        font_px,
        has_clone,
        rv_c(3, 2),
        Some(Color::DefaultFill),
    )
}

/// Whether the process square stays within machine range.
pub open spec fn square_bbox_ok(t: TransformV, b: crate::geom::BBoxV, has_clone: bool) -> bool {
    let cdx = ca_add(b.x, ca_mul(b.w, rv_c(1, 2)));
    let cdy = ca_add(b.y, ca_mul(b.h, rv_c(1, 2)));
    let side = rv_min(b.w, b.h);
    let center = tf_map_pt(t, cdx, cdy);
    let side_px = tf_scale_w(t, side);
    &&& mul_ok(b.w, rv_c(1, 2))
    &&& add_ok(b.x, ca_mul(b.w, rv_c(1, 2)))
    &&& mul_ok(b.h, rv_c(1, 2))
    &&& add_ok(b.y, ca_mul(b.h, rv_c(1, 2)))
    &&& tf_map_pt_ok(t, cdx, cdy)
    &&& tf_scale_w_ok(t, side)
    &&& tf_scale_h_ok(t, side)
    &&& mul_ok(side_px, rv_c(1, 2))
    &&& sub_ok(center.x, ca_mul(side_px, rv_c(1, 2)))
    &&& sub_ok(center.y, ca_mul(side_px, rv_c(1, 2)))
    &&& shape_with_clone_ok(ShapeKind::Rect, square_rect_v(t, b), has_clone)
}

/// Draw a process square: the smaller box side, centered in the box.
pub fn draw_square_bbox(
    out: &mut Vec<Cmd>,
    t: &Transform,
    b: &BBox,
    label: &str,
    font_px: Rat,
    has_clone: bool,
) -> (res: Result<(), RenderError>)
    requires
        t.wf(),
        b.wf(),
    ensures
        res is Ok ==> appended(
            old(out)@,
            final(out)@,
            square_bbox_v(t@, b@, label@, font_px@, has_clone),
        ),
        res matches Err(e) ==> e == RenderError::NumericRange,
        res is Err <==> !square_bbox_ok(t@, b@, has_clone),
{
    let half = Rat::frac(1, 2);
    let cdx = ranged(b.x.add(&ranged(b.w.mul(&half))?))?;
    let cdy = ranged(b.y.add(&ranged(b.h.mul(&half))?))?;
    let center = t.map_point(cdx, cdy)?;
    let side = b.w.min(&b.h);
    let sides = t.map_size(side, side)?;
    let side_px = sides.0;
    let half_side = ranged(side_px.mul(&half))?;
    let rect = Rect {
        x0: ranged(center.x.sub(&half_side))?,
        y0: ranged(center.y.sub(&half_side))?,
        w: side_px,
        h: side_px,
    };
    draw_shape_with_clone(
        out,
        ShapeKind::Rect,
        &rect,
        label,
        font_px,
        has_clone,
        Rat::frac(3, 2),
        Some(Color::DefaultFill),
    )
}

/// The association ellipse, filled with a custom color.
pub open spec fn ellipse_bbox_filled_v(
    t: TransformV,
    b: crate::geom::BBoxV,
    label: Seq<char>,
    font_px: RatV,
    fill: Color,
) -> Seq<CmdV> {
    let r = tf_rect(t, b);
    ellipse_path_v(r) + seq![
        CmdV::SetLineWidth(rv_c(3, 2)),
        CmdV::SetColor(fill),
        CmdV::FillPreserve,
        CmdV::SetColor(Color::Border),
        CmdV::Stroke,
    ] + text_centered_v(rect_center_v(r), label, font_px)
}

/// Whether the filled ellipse glyph stays within machine range.
pub open spec fn ellipse_bbox_filled_ok(t: TransformV, b: crate::geom::BBoxV) -> bool {
    tf_rect_ok(t, b) && ellipse_path_ok(tf_rect(t, b)) && rect_center_ok(tf_rect(t, b))
}

/// Draw an ellipse glyph filled with the given color.
pub fn draw_ellipse_bbox_filled(
    out: &mut Vec<Cmd>,
    t: &Transform,
    b: &BBox,
    label: &str,
    font_px: Rat,
    fill: Color,
) -> (res: Result<(), RenderError>)
    requires
        t.wf(),
        b.wf(),
    ensures
        res is Ok ==> appended(
            old(out)@,
            final(out)@,
            ellipse_bbox_filled_v(t@, b@, label@, font_px@, fill),
        ),
        res matches Err(e) ==> e == RenderError::NumericRange,
        res is Err <==> !ellipse_bbox_filled_ok(t@, b@),
{
    let ghost s0 = out@;
    let rect = bbox_pixel_rect(t, b)?;
    path_ellipse(out, &rect)?;
    emit(out, Cmd::SetLineWidth(Rat::frac(3, 2)));
    emit(out, Cmd::SetColor(fill));
    emit(out, Cmd::FillPreserve);
    emit(out, Cmd::SetColor(Color::Border));
    emit(out, Cmd::Stroke);
    let c = rect_center(&rect)?;
    draw_text_centered(out, c, label, font_px);
    proof {
        assert(cmd_views(out@) =~= cmd_views(s0) + ellipse_bbox_filled_v(
            t@,
            b@,
            label@,
            font_px@,
            fill,
        ));
    }
    Ok(())
}

/// The dissociation glyph: two concentric circles, the outer filled, the
/// inner at 60% of the outer radius.
pub open spec fn double_circle_bbox_v(
    t: TransformV,
    b: crate::geom::BBoxV,
    label: Seq<char>,
    font_px: RatV,
) -> Seq<CmdV> {
    let r = tf_rect(t, b);
    let radius = rv_max(ca_mul(rv_min(r.w, r.h), rv_c(1, 2)), rv_c(1, 1));
    let inner = rv_max(ca_mul(radius, rv_c(3, 5)), rv_c(1, 1));
    let center = rect_center_v(r);
    seq![
        CmdV::NewPath,
        CmdV::SetLineWidth(rv_c(3, 2)),
        CmdV::Circle(center, radius),
        CmdV::SetColor(Color::DefaultFill),
        CmdV::FillPreserve,
        CmdV::SetColor(Color::Border),
        CmdV::Stroke,
        CmdV::NewPath,
        CmdV::Circle(center, inner),
        CmdV::SetColor(Color::Border),
        CmdV::Stroke,
    ] + text_centered_v(center, label, font_px)
}

/// Whether the dissociation glyph stays within machine range.
pub open spec fn double_circle_bbox_ok(t: TransformV, b: crate::geom::BBoxV) -> bool {
    let r = tf_rect(t, b);
    let radius = rv_max(ca_mul(rv_min(r.w, r.h), rv_c(1, 2)), rv_c(1, 1));
    &&& tf_rect_ok(t, b)
    &&& mul_ok(rv_min(r.w, r.h), rv_c(1, 2))
    &&& mul_ok(radius, rv_c(3, 5))
    &&& rect_center_ok(r)
}

/// Draw a dissociation glyph: two concentric circles.
pub fn draw_double_circle_bbox(
    out: &mut Vec<Cmd>,
    t: &Transform,
    b: &BBox,
    label: &str,
    font_px: Rat,
) -> (res: Result<(), RenderError>)
    requires
        t.wf(),
        b.wf(),
    ensures
        res is Ok ==> appended(
            old(out)@,
            final(out)@,
            double_circle_bbox_v(t@, b@, label@, font_px@),
        ),
        res matches Err(e) ==> e == RenderError::NumericRange,
        res is Err <==> !double_circle_bbox_ok(t@, b@),
{
    let ghost s0 = out@;
    let one = Rat::whole(1);
    let rect = bbox_pixel_rect(t, b)?;
    let radius = ranged(rect.w.min(&rect.h).mul(&Rat::frac(1, 2)))?.max(&one);
    let inner = ranged(radius.mul(&Rat::frac(3, 5)))?.max(&one);
    let center = rect_center(&rect)?;
    emit(out, Cmd::NewPath);
    emit(out, Cmd::SetLineWidth(Rat::frac(3, 2)));
    emit(out, Cmd::Circle(center, radius));
    emit(out, Cmd::SetColor(Color::DefaultFill));
    emit(out, Cmd::FillPreserve);
    emit(out, Cmd::SetColor(Color::Border));
    emit(out, Cmd::Stroke);
    emit(out, Cmd::NewPath);
    emit(out, Cmd::Circle(center, inner));
    emit(out, Cmd::SetColor(Color::Border));
    emit(out, Cmd::Stroke);
    draw_text_centered(out, center, label, font_px);
    proof {
        assert(cmd_views(out@) =~= cmd_views(s0) + double_circle_bbox_v(t@, b@, label@, font_px@));
    }
    Ok(())
}

/// A rounded-rectangle glyph (unit of information at its own box).
pub open spec fn round_rect_bbox_v(
    t: TransformV,
    b: crate::geom::BBoxV,
    label: Seq<char>,
    font_px: RatV,
    has_clone: bool,
) -> Seq<CmdV> {
    shape_with_clone_v(
        ShapeKind::RoundRect,
        tf_rect(t, b),
        label,
        font_px,
        has_clone,
        rv_c(3, 2),
        Some(Color::DefaultFill),
    )
}

/// Whether the round rect glyph stays within machine range.
pub open spec fn round_rect_bbox_ok(t: TransformV, b: crate::geom::BBoxV, has_clone: bool) -> bool {
    tf_rect_ok(t, b) && shape_with_clone_ok(ShapeKind::RoundRect, tf_rect(t, b), has_clone)
}

pub fn draw_round_rect_bbox(
    out: &mut Vec<Cmd>,
    t: &Transform,
    b: &BBox,
    label: &str,
    font_px: Rat,
    has_clone: bool,
) -> (res: Result<(), RenderError>)
    requires
        t.wf(),
        b.wf(),
    ensures
        res is Ok ==> appended(
            old(out)@,
            final(out)@,
            round_rect_bbox_v(t@, b@, label@, font_px@, has_clone),
        ),
        res matches Err(e) ==> e == RenderError::NumericRange,
        res is Err <==> !round_rect_bbox_ok(t@, b@, has_clone),
{
    let rect = bbox_pixel_rect(t, b)?;
    draw_shape_with_clone(
        out,
        ShapeKind::RoundRect,
        &rect,
        label,
        font_px,
        has_clone,
        Rat::frac(3, 2),
        Some(Color::DefaultFill),
    )
}

/// The phenotype hexagon glyph.
pub open spec fn hexagon_bbox_v(
    t: TransformV,
    b: crate::geom::BBoxV,
    label: Seq<char>,
    font_px: RatV,
    has_clone: bool,
) -> Seq<CmdV> {
    shape_with_clone_v(
        ShapeKind::Hexagon,
        tf_rect(t, b),
        label,
        font_px,
        has_clone,
        rv_c(3, 2),
        Some(Color::DefaultFill),
    )
}

/// Whether the hexagon glyph stays within machine range.
pub open spec fn hexagon_bbox_ok(t: TransformV, b: crate::geom::BBoxV, has_clone: bool) -> bool {
    tf_rect_ok(t, b) && shape_with_clone_ok(ShapeKind::Hexagon, tf_rect(t, b), has_clone)
}

pub fn draw_hexagon_bbox(
    out: &mut Vec<Cmd>,
    t: &Transform,
    b: &BBox,
    label: &str,
    font_px: Rat,
    has_clone: bool,
) -> (res: Result<(), RenderError>)
    requires
        t.wf(),
        b.wf(),
    ensures
        res is Ok ==> appended(
            old(out)@,
            final(out)@,
            hexagon_bbox_v(t@, b@, label@, font_px@, has_clone),
        ),
        res matches Err(e) ==> e == RenderError::NumericRange,
        res is Err <==> !hexagon_bbox_ok(t@, b@, has_clone),
{
    let rect = bbox_pixel_rect(t, b)?;
    draw_shape_with_clone(
        out,
        ShapeKind::Hexagon,
        &rect,
        label,
        font_px,
        has_clone,
        Rat::frac(3, 2),
        Some(Color::DefaultFill),
    )
}

/// The compartment barrel glyph, with its thick border.
pub open spec fn barrel_bbox_v(
    t: TransformV,
    b: crate::geom::BBoxV,
    label: Seq<char>,
    font_px: RatV,
    has_clone: bool,
) -> Seq<CmdV> {
    shape_with_clone_v(
        ShapeKind::Barrel,
        tf_rect(t, b),
        label,
        font_px,
        has_clone,
        rv_c(4, 1),
        Some(Color::DefaultFill),
    )
}

/// Whether the barrel glyph stays within machine range.
pub open spec fn barrel_bbox_ok(t: TransformV, b: crate::geom::BBoxV, has_clone: bool) -> bool {
    tf_rect_ok(t, b) && shape_with_clone_ok(ShapeKind::Barrel, tf_rect(t, b), has_clone)
}

pub fn draw_barrel_bbox(
    out: &mut Vec<Cmd>,
    t: &Transform,
    b: &BBox,
    label: &str,
    font_px: Rat,
    has_clone: bool,
) -> (res: Result<(), RenderError>)
    requires
        t.wf(),
        b.wf(),
    ensures
        res is Ok ==> appended(
            old(out)@,
            final(out)@,
            barrel_bbox_v(t@, b@, label@, font_px@, has_clone),
        ),
        res matches Err(e) ==> e == RenderError::NumericRange,
        res is Err <==> !barrel_bbox_ok(t@, b@, has_clone),
{
    let rect = bbox_pixel_rect(t, b)?;
    draw_shape_with_clone(
        out,
        ShapeKind::Barrel,
        &rect,
        label,
        font_px,
        has_clone,
        Rat::whole(4),
        Some(Color::DefaultFill),
    )
}

/// The tag glyph: a notched pentagon.
pub open spec fn tag_bbox_v(
    t: TransformV,
    b: crate::geom::BBoxV,
    label: Seq<char>,
    font_px: RatV,
    has_clone: bool,
) -> Seq<CmdV> {
    shape_with_clone_v(
        ShapeKind::Tag,
        tf_rect(t, b),
        label,
        font_px,
        has_clone,
        rv_c(3, 2),
        Some(Color::DefaultFill),
    )
}

/// Whether the tag glyph stays within machine range.
pub open spec fn tag_bbox_ok(t: TransformV, b: crate::geom::BBoxV, has_clone: bool) -> bool {
    tf_rect_ok(t, b) && shape_with_clone_ok(ShapeKind::Tag, tf_rect(t, b), has_clone)
}

pub fn draw_tag_bbox(
    out: &mut Vec<Cmd>,
    t: &Transform,
    b: &BBox,
    label: &str,
    font_px: Rat,
    has_clone: bool,
) -> (res: Result<(), RenderError>)
    requires
        t.wf(),
        b.wf(),
    ensures
        res is Ok ==> appended(
            old(out)@,
            final(out)@,
            tag_bbox_v(t@, b@, label@, font_px@, has_clone),
        ),
        res matches Err(e) ==> e == RenderError::NumericRange,
        res is Err <==> !tag_bbox_ok(t@, b@, has_clone),
{
    let rect = bbox_pixel_rect(t, b)?;
    draw_shape_with_clone(
        out,
        ShapeKind::Tag,
        &rect,
        label,
        font_px,
        has_clone,
        Rat::frac(3, 2),
        Some(Color::DefaultFill),
    )
}

/// The state-variable stadium glyph.
pub open spec fn stadium_bbox_v(
    t: TransformV,
    b: crate::geom::BBoxV,
    label: Seq<char>,
    font_px: RatV,
    has_clone: bool,
) -> Seq<CmdV> {
    shape_with_clone_v(
        ShapeKind::Stadium,
        tf_rect(t, b),
        label,
        font_px,
        has_clone,
        rv_c(3, 2),
        Some(Color::DefaultFill),
    )
}

/// Whether the stadium glyph stays within machine range.
pub open spec fn stadium_bbox_ok(t: TransformV, b: crate::geom::BBoxV, has_clone: bool) -> bool {
    tf_rect_ok(t, b) && shape_with_clone_ok(ShapeKind::Stadium, tf_rect(t, b), has_clone)
}

pub fn draw_stadium_bbox(
    out: &mut Vec<Cmd>,
    t: &Transform,
    b: &BBox,
    label: &str,
    font_px: Rat,
    has_clone: bool,
) -> (res: Result<(), RenderError>)
    requires
        t.wf(),
        b.wf(),
    ensures
        res is Ok ==> appended(
            old(out)@,
            final(out)@,
            stadium_bbox_v(t@, b@, label@, font_px@, has_clone),
        ),
        res matches Err(e) ==> e == RenderError::NumericRange,
        res is Err <==> !stadium_bbox_ok(t@, b@, has_clone),
{
    let rect = bbox_pixel_rect(t, b)?;
    draw_shape_with_clone(
        out,
        ShapeKind::Stadium,
        &rect,
        label,
        font_px,
        has_clone,
        Rat::frac(3, 2),
        Some(Color::DefaultFill),
    )
}

/// The source-and-sink glyph: an ellipse with a diagonal strike from its
/// bottom-left to its top-right corner.
pub open spec fn source_sink_bbox_v(t: TransformV, b: crate::geom::BBoxV, has_clone: bool) -> Seq<
    CmdV,
> {
    let r = tf_rect(t, b);
    ellipse_path_v(r) + seq![
        CmdV::SetLineWidth(rv_c(3, 2)),
        CmdV::SetColor(Color::DefaultFill),
        CmdV::FillPreserve,
        CmdV::SetColor(Color::Border),
        CmdV::Stroke,
    ] + (if has_clone {
        clone_marker_v(ShapeKind::Ellipse, r) + ellipse_path_v(r) + seq![
            CmdV::SetColor(Color::Border),
            CmdV::Stroke,
        ]
    } else {
        Seq::empty()
    }) + seq![
        CmdV::NewPath,
        CmdV::MoveTo(PtV { x: r.x0, y: ca_add(r.y0, r.h) }),
        CmdV::LineTo(PtV { x: ca_add(r.x0, r.w), y: r.y0 }),
        CmdV::Stroke,
    ]
}

/// Whether the source-and-sink glyph stays within machine range.
pub open spec fn source_sink_bbox_ok(t: TransformV, b: crate::geom::BBoxV, has_clone: bool) -> bool {
    let r = tf_rect(t, b);
    &&& tf_rect_ok(t, b)
    &&& ellipse_path_ok(r)
    &&& (has_clone ==> clone_marker_ok(ShapeKind::Ellipse, r))
    &&& add_ok(r.y0, r.h)
    &&& add_ok(r.x0, r.w)
}

/// Draw a source-and-sink glyph.
#[verifier::rlimit(100)]
pub fn draw_source_sink_bbox(out: &mut Vec<Cmd>, t: &Transform, b: &BBox, has_clone: bool) -> (
    res: Result<(), RenderError>)
    requires
        t.wf(),
        b.wf(),
    ensures
        res is Ok ==> appended(old(out)@, final(out)@, source_sink_bbox_v(t@, b@, has_clone)),
        res matches Err(e) ==> e == RenderError::NumericRange,
        res is Err <==> !source_sink_bbox_ok(t@, b@, has_clone),
{
    let ghost s0 = out@;
    let rect = bbox_pixel_rect(t, b)?;
    path_ellipse(out, &rect)?;
    emit(out, Cmd::SetLineWidth(Rat::frac(3, 2)));
    emit(out, Cmd::SetColor(Color::DefaultFill));
    emit(out, Cmd::FillPreserve);
    emit(out, Cmd::SetColor(Color::Border));
    emit(out, Cmd::Stroke);
    if has_clone {
        draw_clone_marker(out, ShapeKind::Ellipse, &rect)?;
        path_ellipse(out, &rect)?;
        emit(out, Cmd::SetColor(Color::Border));
        emit(out, Cmd::Stroke);
    }
    let bl = Pt { x: rect.x0, y: ranged(rect.y0.add(&rect.h))? };
    let tr = Pt { x: ranged(rect.x0.add(&rect.w))?, y: rect.y0 };
    emit(out, Cmd::NewPath);
    emit(out, Cmd::MoveTo(bl));
    emit(out, Cmd::LineTo(tr));
    emit(out, Cmd::Stroke);
    proof {
        assert(cmd_views(out@) =~= cmd_views(s0) + source_sink_bbox_v(t@, b@, has_clone));
    }
    Ok(())
}

/// The logical-operator circle: radius from the smaller box side, scaled by
/// the combined axis scale.
pub open spec fn circle_bbox_v(
    t: TransformV,
    b: crate::geom::BBoxV,
    label: Seq<char>,
    font_px: RatV,
) -> Seq<CmdV> {
    let center = tf_map_pt(
        t,
        ca_add(b.x, ca_mul(b.w, rv_c(1, 2))),
        ca_add(b.y, ca_mul(b.h, rv_c(1, 2))),
    );
    let radius = crate::transform::tf_scalar(t, ca_mul(rv_min(b.w, b.h), rv_c(1, 2)));
    seq![
        CmdV::Circle(center, radius),
        CmdV::SetColor(Color::DefaultFill),
        CmdV::FillPreserve,
        CmdV::SetColor(Color::Border),
        CmdV::Stroke,
    ] + text_centered_v(center, label, font_px)
}

/// Whether the logical-operator circle stays within machine range.
pub open spec fn circle_bbox_ok(t: TransformV, b: crate::geom::BBoxV) -> bool {
    let cdx = ca_add(b.x, ca_mul(b.w, rv_c(1, 2)));
    let cdy = ca_add(b.y, ca_mul(b.h, rv_c(1, 2)));
    &&& mul_ok(b.w, rv_c(1, 2))
    &&& add_ok(b.x, ca_mul(b.w, rv_c(1, 2)))
    &&& mul_ok(b.h, rv_c(1, 2))
    &&& add_ok(b.y, ca_mul(b.h, rv_c(1, 2)))
    &&& tf_map_pt_ok(t, cdx, cdy)
    &&& mul_ok(rv_min(b.w, b.h), rv_c(1, 2))
    &&& tf_scalar_ok(t, ca_mul(rv_min(b.w, b.h), rv_c(1, 2)))
}

/// Draw a logical-operator circle.
pub fn draw_circle_bbox(out: &mut Vec<Cmd>, t: &Transform, b: &BBox, label: &str, font_px: Rat) -> (
    res: Result<(), RenderError>)
    requires
        t.wf(),
        b.wf(),
    ensures
        res is Ok ==> appended(old(out)@, final(out)@, circle_bbox_v(t@, b@, label@, font_px@)),
        res matches Err(e) ==> e == RenderError::NumericRange,
        res is Err <==> !circle_bbox_ok(t@, b@),
{
    let ghost s0 = out@;
    let half = Rat::frac(1, 2);
    let cx = ranged(b.x.add(&ranged(b.w.mul(&half))?))?;
    let cy = ranged(b.y.add(&ranged(b.h.mul(&half))?))?;
    let center = t.map_point(cx, cy)?;
    let radius = t.scale_scalar(ranged(b.w.min(&b.h).mul(&half))?)?;
    emit(out, Cmd::Circle(center, radius));
    emit(out, Cmd::SetColor(Color::DefaultFill));
    emit(out, Cmd::FillPreserve);
    emit(out, Cmd::SetColor(Color::Border));
    emit(out, Cmd::Stroke);
    draw_text_centered(out, center, label, font_px);
    proof {
        assert(cmd_views(out@) =~= cmd_views(s0) + circle_bbox_v(t@, b@, label@, font_px@));
    }
    Ok(())
}

/// The orientation tick-marks of a glyph: short connector lines along the
/// orientation axis.  Horizontal and vertical draw on both opposing sides;
/// the four single directions draw one line; an unrecognized tag draws none.
pub open spec fn orientation_marker_v(
    t: TransformV,
    b: crate::geom::BBoxV,
    o: Orientation,
    len: RatV,
) -> Seq<CmdV> {
    let r = tf_rect(t, b);
    let cx = rect_cx(r);
    let cy = rect_cy(r);
    let x1 = ca_add(r.x0, r.w);
    let y1 = ca_add(r.y0, r.h);
    seq![CmdV::SetColor(Color::Border), CmdV::SetLineWidth(rv_c(3, 2))] + (match o {
        Orientation::Vertical => seq![
            CmdV::NewPath,
            CmdV::MoveTo(PtV { x: cx, y: ca_sub(r.y0, len) }),
            CmdV::LineTo(PtV { x: cx, y: r.y0 }),
            CmdV::MoveTo(PtV { x: cx, y: y1 }),
            CmdV::LineTo(PtV { x: cx, y: ca_add(y1, len) }),
            CmdV::Stroke,
        ],
        Orientation::Horizontal => seq![
            CmdV::NewPath,
            CmdV::MoveTo(PtV { x: ca_sub(r.x0, len), y: cy }),
            CmdV::LineTo(PtV { x: r.x0, y: cy }),
            CmdV::MoveTo(PtV { x: x1, y: cy }),
            CmdV::LineTo(PtV { x: ca_add(x1, len), y: cy }),
            CmdV::Stroke,
        ],
        Orientation::Left => seq![
            CmdV::NewPath,
            CmdV::MoveTo(PtV { x: ca_sub(r.x0, len), y: cy }),
            CmdV::LineTo(PtV { x: r.x0, y: cy }),
            CmdV::Stroke,
        ],
        Orientation::Right => seq![
            CmdV::NewPath,
            CmdV::MoveTo(PtV { x: x1, y: cy }),
            CmdV::LineTo(PtV { x: ca_add(x1, len), y: cy }),
            CmdV::Stroke,
        ],
        Orientation::Up => seq![
            CmdV::NewPath,
            CmdV::MoveTo(PtV { x: cx, y: ca_sub(r.y0, len) }),
            CmdV::LineTo(PtV { x: cx, y: r.y0 }),
            CmdV::Stroke,
        ],
        Orientation::Down => seq![
            CmdV::NewPath,
            CmdV::MoveTo(PtV { x: cx, y: y1 }),
            CmdV::LineTo(PtV { x: cx, y: ca_add(y1, len) }),
            CmdV::Stroke,
        ],
        Orientation::Other => Seq::empty(),
    })
}

/// Whether the orientation tick-marks stay within machine range.
pub open spec fn orientation_marker_ok(
    t: TransformV,
    b: crate::geom::BBoxV,
    o: Orientation,
    len: RatV,
) -> bool {
    let r = tf_rect(t, b);
    let x1 = ca_add(r.x0, r.w);
    let y1 = ca_add(r.y0, r.h);
    &&& tf_rect_ok(t, b)
    &&& rect_center_ok(r)
    &&& add_ok(r.x0, r.w)
    &&& add_ok(r.y0, r.h)
    &&& match o {
        Orientation::Vertical => sub_ok(r.y0, len) && add_ok(y1, len),
        Orientation::Horizontal => sub_ok(r.x0, len) && add_ok(x1, len),
        Orientation::Left => sub_ok(r.x0, len),
        Orientation::Right => add_ok(x1, len),
        Orientation::Up => sub_ok(r.y0, len),
        Orientation::Down => add_ok(y1, len),
        Orientation::Other => true,
    }
}

/// Draw the orientation tick-marks for a glyph.
#[verifier::rlimit(100)]
pub fn draw_orientation_marker(
    out: &mut Vec<Cmd>,
    t: &Transform,
    b: &BBox,
    o: Orientation,
    len: Rat,
) -> (res: Result<(), RenderError>)
    requires
        t.wf(),
        b.wf(),
        len.wf(),
    ensures
        res is Ok ==> appended(old(out)@, final(out)@, orientation_marker_v(t@, b@, o, len@)),
        res matches Err(e) ==> e == RenderError::NumericRange,
        res is Err <==> !orientation_marker_ok(t@, b@, o, len@),
{
    let ghost s0 = out@;
    let rect = bbox_pixel_rect(t, b)?;
    let c = rect_center(&rect)?;
    let x1 = ranged(rect.x0.add(&rect.w))?;
    let y1 = ranged(rect.y0.add(&rect.h))?;
    emit(out, Cmd::SetColor(Color::Border));
    emit(out, Cmd::SetLineWidth(Rat::frac(3, 2)));
    match o {
        Orientation::Vertical => {
            let above = ranged(rect.y0.sub(&len))?;
            let below = ranged(y1.add(&len))?;
            emit(out, Cmd::NewPath);
            emit(out, Cmd::MoveTo(Pt { x: c.x, y: above }));
            emit(out, Cmd::LineTo(Pt { x: c.x, y: rect.y0 }));
            emit(out, Cmd::MoveTo(Pt { x: c.x, y: y1 }));
            emit(out, Cmd::LineTo(Pt { x: c.x, y: below }));
            emit(out, Cmd::Stroke);
        },
        Orientation::Horizontal => {
            let left = ranged(rect.x0.sub(&len))?;
            let right = ranged(x1.add(&len))?;
            emit(out, Cmd::NewPath);
            emit(out, Cmd::MoveTo(Pt { x: left, y: c.y }));
            emit(out, Cmd::LineTo(Pt { x: rect.x0, y: c.y }));
            emit(out, Cmd::MoveTo(Pt { x: x1, y: c.y }));
            emit(out, Cmd::LineTo(Pt { x: right, y: c.y }));
            emit(out, Cmd::Stroke);
        },
        Orientation::Left => {
            let left = ranged(rect.x0.sub(&len))?;
            emit(out, Cmd::NewPath);
            emit(out, Cmd::MoveTo(Pt { x: left, y: c.y }));
            emit(out, Cmd::LineTo(Pt { x: rect.x0, y: c.y }));
            emit(out, Cmd::Stroke);
        },
        Orientation::Right => {
            let right = ranged(x1.add(&len))?;
            emit(out, Cmd::NewPath);
            emit(out, Cmd::MoveTo(Pt { x: x1, y: c.y }));
            emit(out, Cmd::LineTo(Pt { x: right, y: c.y }));
            emit(out, Cmd::Stroke);
        },
        Orientation::Up => {
            let above = ranged(rect.y0.sub(&len))?;
            emit(out, Cmd::NewPath);
            emit(out, Cmd::MoveTo(Pt { x: c.x, y: above }));
            emit(out, Cmd::LineTo(Pt { x: c.x, y: rect.y0 }));
            emit(out, Cmd::Stroke);
        },
        Orientation::Down => {
            let below = ranged(y1.add(&len))?;
            emit(out, Cmd::NewPath);
            emit(out, Cmd::MoveTo(Pt { x: c.x, y: y1 }));
            emit(out, Cmd::LineTo(Pt { x: c.x, y: below }));
            emit(out, Cmd::Stroke);
        },
        Orientation::Other => {},
    }
    proof {
        assert(cmd_views(out@) =~= cmd_views(s0) + orientation_marker_v(t@, b@, o, len@));
    }
    Ok(())
}

} // verus!
