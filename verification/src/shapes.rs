//! The shape path library: one function per primitive outline, each
//! emitting an exact command sequence for a pixel rectangle.

use vstd::prelude::*;

verus! {

use crate::rat::{Rat, RatV, rv_c, rv_min, rv_max, ca_add, ca_sub, ca_mul, add_ok, sub_ok, mul_ok};
use crate::geom::{Pt, PtV, Rect, RectV, RenderError, ranged};
use crate::cmd::{Cmd, CmdV, Quadrant, cmd_views, appended, emit};

// --- shared sub-expressions ---

/// Horizontal center of a rectangle: `x0 + w/2`.
pub open spec fn rect_cx(r: RectV) -> RatV {
    ca_add(r.x0, ca_mul(r.w, rv_c(1, 2)))
}

/// Vertical center of a rectangle: `y0 + h/2`.
pub open spec fn rect_cy(r: RectV) -> RatV {
    ca_add(r.y0, ca_mul(r.h, rv_c(1, 2)))
}

/// The center point of a rectangle.
pub open spec fn rect_center_v(r: RectV) -> PtV {
    PtV { x: rect_cx(r), y: rect_cy(r) }
}

/// Whether computing the center stays within machine range.
pub open spec fn rect_center_ok(r: RectV) -> bool {
    &&& mul_ok(r.w, rv_c(1, 2))
    &&& add_ok(r.x0, ca_mul(r.w, rv_c(1, 2)))
    &&& mul_ok(r.h, rv_c(1, 2))
    &&& add_ok(r.y0, ca_mul(r.h, rv_c(1, 2)))
}

/// Compute the center point of a rectangle.
pub fn rect_center(r: &Rect) -> (res: Result<Pt, RenderError>)
    requires
        r.wf(),
    ensures
        res matches Ok(p) ==> p.wf() && p@ == rect_center_v(r@),
        res matches Err(e) ==> e == RenderError::NumericRange,
        res is Err <==> !rect_center_ok(r@),
{
    let half = Rat::frac(1, 2);
    let cx = ranged(r.x0.add(&ranged(r.w.mul(&half))?))?;
    let cy = ranged(r.y0.add(&ranged(r.h.mul(&half))?))?;
    Ok(Pt { x: cx, y: cy })
}

// --- rectangle ---

pub open spec fn rect_path_v(r: RectV) -> Seq<CmdV> {
    seq![CmdV::NewPath, CmdV::Rectangle(r)]
}

/// A plain rectangle path.
pub fn path_rect(out: &mut Vec<Cmd>, r: &Rect)
    ensures
        appended(old(out)@, final(out)@, rect_path_v(r@)),
{
    let ghost s0 = out@;
    emit(out, Cmd::NewPath);
    emit(out, Cmd::Rectangle(*r));
    proof {
        assert(cmd_views(out@) =~= cmd_views(s0) + rect_path_v(r@));
    }
}

// --- ellipse ---

/// The ellipse inscribed in a rectangle: radii clamped to at least one
/// pixel, centered on the rectangle.
pub open spec fn ellipse_path_v(r: RectV) -> Seq<CmdV> {
    let rx = rv_max(ca_mul(r.w, rv_c(1, 2)), rv_c(1, 1));
    let ry = rv_max(ca_mul(r.h, rv_c(1, 2)), rv_c(1, 1));
    seq![CmdV::Ellipse(rect_center_v(r), rx, ry)]
}

/// Whether the ellipse path stays within machine range.
pub open spec fn ellipse_path_ok(r: RectV) -> bool {
    mul_ok(r.w, rv_c(1, 2)) && mul_ok(r.h, rv_c(1, 2)) && rect_center_ok(r)
}

/// An ellipse path inscribed in the rectangle.
pub fn path_ellipse(out: &mut Vec<Cmd>, r: &Rect) -> (res: Result<(), RenderError>)
    requires
        r.wf(),
    ensures
        res is Ok ==> appended(old(out)@, final(out)@, ellipse_path_v(r@)),
        res matches Err(e) ==> e == RenderError::NumericRange,
        res is Err <==> !ellipse_path_ok(r@),
{
    let ghost s0 = out@;
    let one = Rat::whole(1);
    let half = Rat::frac(1, 2);
    let rx = ranged(r.w.mul(&half))?.max(&one);
    let ry = ranged(r.h.mul(&half))?.max(&one);
    let c = rect_center(r)?;
    emit(out, Cmd::Ellipse(c, rx, ry));
    proof {
        assert(cmd_views(out@) =~= cmd_views(s0) + ellipse_path_v(r@));
    }
    Ok(())
}

// --- hexagon ---

/// The six corners of the phenotype hexagon: flat top and bottom edges over
/// the middle half, points at mid-height on either side.
pub open spec fn hexagon_path_v(r: RectV) -> Seq<CmdV> {
    let x0 = r.x0;
    let y0 = r.y0;
    let xq = ca_add(r.x0, ca_mul(r.w, rv_c(1, 4)));
    let xq3 = ca_add(r.x0, ca_mul(r.w, rv_c(3, 4)));
    let x1 = ca_add(r.x0, r.w);
    let ym = ca_add(r.y0, ca_mul(r.h, rv_c(1, 2)));
    let y1 = ca_add(r.y0, r.h);
    seq![
        CmdV::NewPath,
        CmdV::MoveTo(PtV { x: x0, y: ym }),
        CmdV::LineTo(PtV { x: xq, y: y0 }),
        CmdV::LineTo(PtV { x: xq3, y: y0 }),
        CmdV::LineTo(PtV { x: x1, y: ym }),
        CmdV::LineTo(PtV { x: xq3, y: y1 }),
        CmdV::LineTo(PtV { x: xq, y: y1 }),
        CmdV::ClosePath,
    ]
}

/// Whether the hexagon path stays within machine range.
pub open spec fn hexagon_path_ok(r: RectV) -> bool {
    &&& mul_ok(r.w, rv_c(1, 4))
    &&& add_ok(r.x0, ca_mul(r.w, rv_c(1, 4)))
    &&& mul_ok(r.w, rv_c(3, 4))
    &&& add_ok(r.x0, ca_mul(r.w, rv_c(3, 4)))
    &&& add_ok(r.x0, r.w)
    &&& mul_ok(r.h, rv_c(1, 2))
    &&& add_ok(r.y0, ca_mul(r.h, rv_c(1, 2)))
    &&& add_ok(r.y0, r.h)
}

/// A hexagon path inscribed in the rectangle.
pub fn path_hexagon(out: &mut Vec<Cmd>, r: &Rect) -> (res: Result<(), RenderError>)
    requires
        r.wf(),
    ensures
        res is Ok ==> appended(old(out)@, final(out)@, hexagon_path_v(r@)),
        res matches Err(e) ==> e == RenderError::NumericRange,
        res is Err <==> !hexagon_path_ok(r@),
{
    let ghost s0 = out@;
    let quarter = Rat::frac(1, 4);
    let quarter3 = Rat::frac(3, 4);
    let half = Rat::frac(1, 2);
    let xq = ranged(r.x0.add(&ranged(r.w.mul(&quarter))?))?;
    let xq3 = ranged(r.x0.add(&ranged(r.w.mul(&quarter3))?))?;
    let x1 = ranged(r.x0.add(&r.w))?;
    let ym = ranged(r.y0.add(&ranged(r.h.mul(&half))?))?;
    let y1 = ranged(r.y0.add(&r.h))?;
    emit(out, Cmd::NewPath);
    emit(out, Cmd::MoveTo(Pt { x: r.x0, y: ym }));
    emit(out, Cmd::LineTo(Pt { x: xq, y: r.y0 }));
    emit(out, Cmd::LineTo(Pt { x: xq3, y: r.y0 }));
    emit(out, Cmd::LineTo(Pt { x: x1, y: ym }));
    emit(out, Cmd::LineTo(Pt { x: xq3, y: y1 }));
    emit(out, Cmd::LineTo(Pt { x: xq, y: y1 }));
    emit(out, Cmd::ClosePath);
    proof {
        assert(cmd_views(out@) =~= cmd_views(s0) + hexagon_path_v(r@));
    }
    Ok(())
}

// --- rounded rectangle (all four corners) ---

/// The corner radius clamped to half the width and half the height.
pub open spec fn clamp_radius(radius: RatV, w: RatV, h: RatV) -> RatV {
    rv_min(rv_min(radius, ca_mul(w, rv_c(1, 2))), ca_mul(h, rv_c(1, 2)))
}

/// A rectangle with all four corners rounded at the clamped radius.
pub open spec fn round_rect_path_v(x: RatV, y: RatV, w: RatV, h: RatV, radius: RatV) -> Seq<
    CmdV,
> {
    let rc = clamp_radius(radius, w, h);
    let right = ca_add(x, w);
    let bottom = ca_add(y, h);
    let xl = ca_add(x, rc);
    let xr = ca_sub(right, rc);
    let yt = ca_add(y, rc);
    let yb = ca_sub(bottom, rc);
    seq![
        CmdV::NewPath,
        CmdV::MoveTo(PtV { x: xl, y }),
        CmdV::LineTo(PtV { x: xr, y }),
        CmdV::QuarterArc(PtV { x: xr, y: yt }, rc, Quadrant::TopRight),
        CmdV::LineTo(PtV { x: right, y: yb }),
        CmdV::QuarterArc(PtV { x: xr, y: yb }, rc, Quadrant::BottomRight),
        CmdV::LineTo(PtV { x: xl, y: bottom }),
        CmdV::QuarterArc(PtV { x: xl, y: yb }, rc, Quadrant::BottomLeft),
        CmdV::LineTo(PtV { x, y: yt }),
        CmdV::QuarterArc(PtV { x: xl, y: yt }, rc, Quadrant::TopLeft),
        CmdV::ClosePath,
    ]
}

/// Whether the rounded-rectangle path stays within machine range.
pub open spec fn round_rect_path_ok(x: RatV, y: RatV, w: RatV, h: RatV, radius: RatV) -> bool {
    let rc = clamp_radius(radius, w, h);
    &&& mul_ok(w, rv_c(1, 2))
    &&& mul_ok(h, rv_c(1, 2))
    &&& add_ok(x, w)
    &&& add_ok(y, h)
    &&& add_ok(x, rc)
    &&& sub_ok(ca_add(x, w), rc)
    &&& add_ok(y, rc)
    &&& sub_ok(ca_add(y, h), rc)
}

/// A rounded-rectangle path with the radius clamped to the half-sides.
#[verifier::rlimit(60)]
pub fn path_round_rect_impl(out: &mut Vec<Cmd>, x: Rat, y: Rat, w: Rat, h: Rat, radius: Rat) -> (
    res: Result<(), RenderError>)
    requires
        x.wf(),
        y.wf(),
        w.wf(),
        h.wf(),
        radius.wf(),
    ensures
        res is Ok ==> appended(old(out)@, final(out)@, round_rect_path_v(x@, y@, w@, h@, radius@)),
        res matches Err(e) ==> e == RenderError::NumericRange,
        res is Err <==> !round_rect_path_ok(x@, y@, w@, h@, radius@),
{
    let ghost s0 = out@;
    let half = Rat::frac(1, 2);
    let rc = radius.min(&ranged(w.mul(&half))?).min(&ranged(h.mul(&half))?);
    let right = ranged(x.add(&w))?;
    let bottom = ranged(y.add(&h))?;
    let xl = ranged(x.add(&rc))?;
    let xr = ranged(right.sub(&rc))?;
    let yt = ranged(y.add(&rc))?;
    let yb = ranged(bottom.sub(&rc))?;
    emit(out, Cmd::NewPath);
    emit(out, Cmd::MoveTo(Pt { x: xl, y }));
    emit(out, Cmd::LineTo(Pt { x: xr, y }));
    emit(out, Cmd::QuarterArc(Pt { x: xr, y: yt }, rc, Quadrant::TopRight));
    emit(out, Cmd::LineTo(Pt { x: right, y: yb }));
    emit(out, Cmd::QuarterArc(Pt { x: xr, y: yb }, rc, Quadrant::BottomRight));
    emit(out, Cmd::LineTo(Pt { x: xl, y: bottom }));
    emit(out, Cmd::QuarterArc(Pt { x: xl, y: yb }, rc, Quadrant::BottomLeft));
    emit(out, Cmd::LineTo(Pt { x, y: yt }));
    emit(out, Cmd::QuarterArc(Pt { x: xl, y: yt }, rc, Quadrant::TopLeft));
    emit(out, Cmd::ClosePath);
    proof {
        assert(cmd_views(out@) =~= cmd_views(s0) + round_rect_path_v(x@, y@, w@, h@, radius@));
    }
    Ok(())
}

// --- rectangle rounded at the bottom only ---

/// A rectangle whose two bottom corners are rounded at the clamped radius.
pub open spec fn round_bottom_path_v(x: RatV, y: RatV, w: RatV, h: RatV, radius: RatV) -> Seq<
    CmdV,
> {
    let rc = clamp_radius(radius, w, h);
    let right = ca_add(x, w);
    let bottom = ca_add(y, h);
    let xl = ca_add(x, rc);
    let xr = ca_sub(right, rc);
    let yb = ca_sub(bottom, rc);
    seq![
        CmdV::NewPath,
        CmdV::MoveTo(PtV { x, y }),
        CmdV::LineTo(PtV { x: right, y }),
        CmdV::LineTo(PtV { x: right, y: yb }),
        CmdV::QuarterArc(PtV { x: xr, y: yb }, rc, Quadrant::BottomRight),
        CmdV::LineTo(PtV { x: xl, y: bottom }),
        CmdV::QuarterArc(PtV { x: xl, y: yb }, rc, Quadrant::BottomLeft),
        CmdV::ClosePath,
    ]
}

/// Whether the bottom-rounded path stays within machine range.
pub open spec fn round_bottom_path_ok(x: RatV, y: RatV, w: RatV, h: RatV, radius: RatV) -> bool {
    let rc = clamp_radius(radius, w, h);
    &&& mul_ok(w, rv_c(1, 2))
    &&& mul_ok(h, rv_c(1, 2))
    &&& add_ok(x, w)
    &&& add_ok(y, h)
    &&& add_ok(x, rc)
    &&& sub_ok(ca_add(x, w), rc)
    &&& sub_ok(ca_add(y, h), rc)
}

/// A bottom-rounded rectangle path.
pub fn path_round_bottom_rect_impl(
    out: &mut Vec<Cmd>,
    x: Rat,
    y: Rat,
    w: Rat,
    h: Rat,
    radius: Rat,
) -> (res: Result<(), RenderError>)
    requires
        x.wf(),
        y.wf(),
        w.wf(),
        h.wf(),
        radius.wf(),
    ensures
        res is Ok ==> appended(old(out)@, final(out)@, round_bottom_path_v(x@, y@, w@, h@, radius@)),
        res matches Err(e) ==> e == RenderError::NumericRange,
        res is Err <==> !round_bottom_path_ok(x@, y@, w@, h@, radius@),
{
    let ghost s0 = out@;
    let half = Rat::frac(1, 2);
    let rc = radius.min(&ranged(w.mul(&half))?).min(&ranged(h.mul(&half))?);
    let right = ranged(x.add(&w))?;
    let bottom = ranged(y.add(&h))?;
    let xl = ranged(x.add(&rc))?;
    let xr = ranged(right.sub(&rc))?;
    let yb = ranged(bottom.sub(&rc))?;
    emit(out, Cmd::NewPath);
    emit(out, Cmd::MoveTo(Pt { x, y }));
    emit(out, Cmd::LineTo(Pt { x: right, y }));
    emit(out, Cmd::LineTo(Pt { x: right, y: yb }));
    emit(out, Cmd::QuarterArc(Pt { x: xr, y: yb }, rc, Quadrant::BottomRight));
    emit(out, Cmd::LineTo(Pt { x: xl, y: bottom }));
    emit(out, Cmd::QuarterArc(Pt { x: xl, y: yb }, rc, Quadrant::BottomLeft));
    emit(out, Cmd::ClosePath);
    proof {
        assert(cmd_views(out@) =~= cmd_views(s0) + round_bottom_path_v(x@, y@, w@, h@, radius@));
    }
    Ok(())
}

// --- cut-corner rectangle ---

/// A rectangle with all four corners cut off diagonally by `corner`.
pub open spec fn cut_rect_path_v(r: RectV, corner: RatV) -> Seq<CmdV> {
    let x0 = r.x0;
    let y0 = r.y0;
    let x1 = ca_add(r.x0, r.w);
    let y1 = ca_add(r.y0, r.h);
    let x0c = ca_add(x0, corner);
    let x1c = ca_sub(x1, corner);
    let y0c = ca_add(y0, corner);
    let y1c = ca_sub(y1, corner);
    seq![
        CmdV::NewPath,
        CmdV::MoveTo(PtV { x: x0, y: y0c }),
        CmdV::LineTo(PtV { x: x0c, y: y0 }),
        CmdV::LineTo(PtV { x: x1c, y: y0 }),
        CmdV::LineTo(PtV { x: x1, y: y0c }),
        CmdV::LineTo(PtV { x: x1, y: y1c }),
        CmdV::LineTo(PtV { x: x1c, y: y1 }),
        CmdV::LineTo(PtV { x: x0c, y: y1 }),
        CmdV::LineTo(PtV { x: x0, y: y1c }),
        CmdV::ClosePath,
    ]
}

/// Whether the cut-corner path stays within machine range.
pub open spec fn cut_rect_path_ok(r: RectV, corner: RatV) -> bool {
    &&& add_ok(r.x0, r.w)
    &&& add_ok(r.y0, r.h)
    &&& add_ok(r.x0, corner)
    &&& sub_ok(ca_add(r.x0, r.w), corner)
    &&& add_ok(r.y0, corner)
    &&& sub_ok(ca_add(r.y0, r.h), corner)
}

/// A cut-corner rectangle path.
pub fn path_cut_rect(out: &mut Vec<Cmd>, r: &Rect, corner: Rat) -> (res: Result<(), RenderError>)
    requires
        r.wf(),
        corner.wf(),
    ensures
        res is Ok ==> appended(old(out)@, final(out)@, cut_rect_path_v(r@, corner@)),
        res matches Err(e) ==> e == RenderError::NumericRange,
        res is Err <==> !cut_rect_path_ok(r@, corner@),
{
    let ghost s0 = out@;
    let x1 = ranged(r.x0.add(&r.w))?;
    let y1 = ranged(r.y0.add(&r.h))?;
    let x0c = ranged(r.x0.add(&corner))?;
    let x1c = ranged(x1.sub(&corner))?;
    let y0c = ranged(r.y0.add(&corner))?;
    let y1c = ranged(y1.sub(&corner))?;
    emit(out, Cmd::NewPath);
    emit(out, Cmd::MoveTo(Pt { x: r.x0, y: y0c }));
    emit(out, Cmd::LineTo(Pt { x: x0c, y: r.y0 }));
    emit(out, Cmd::LineTo(Pt { x: x1c, y: r.y0 }));
    emit(out, Cmd::LineTo(Pt { x: x1, y: y0c }));
    emit(out, Cmd::LineTo(Pt { x: x1, y: y1c }));
    emit(out, Cmd::LineTo(Pt { x: x1c, y: y1 }));
    emit(out, Cmd::LineTo(Pt { x: x0c, y: y1 }));
    emit(out, Cmd::LineTo(Pt { x: r.x0, y: y1c }));
    emit(out, Cmd::ClosePath);
    proof {
        assert(cmd_views(out@) =~= cmd_views(s0) + cut_rect_path_v(r@, corner@));
    }
    Ok(())
}

// --- concave hexagon ---

/// The perturbing-agent outline: a rectangle whose left and right edges
/// fold inward to points at 15% of the width.
pub open spec fn concave_hexagon_path_v(r: RectV) -> Seq<CmdV> {
    let x0 = r.x0;
    let y0 = r.y0;
    let x1 = ca_add(r.x0, r.w);
    let y1 = ca_add(r.y0, r.h);
    let xin_r = ca_add(r.x0, ca_mul(r.w, rv_c(85, 100)));
    let xin_l = ca_add(r.x0, ca_mul(r.w, rv_c(15, 100)));
    let ym = ca_add(r.y0, ca_mul(r.h, rv_c(1, 2)));
    seq![
        CmdV::NewPath,
        CmdV::MoveTo(PtV { x: x0, y: y0 }),
        CmdV::LineTo(PtV { x: x1, y: y0 }),
        CmdV::LineTo(PtV { x: xin_r, y: ym }),
        CmdV::LineTo(PtV { x: x1, y: y1 }),
        CmdV::LineTo(PtV { x: x0, y: y1 }),
        CmdV::LineTo(PtV { x: xin_l, y: ym }),
        CmdV::ClosePath,
    ]
}

/// Whether the concave hexagon path stays within machine range.
pub open spec fn concave_hexagon_path_ok(r: RectV) -> bool {
    &&& add_ok(r.x0, r.w)
    &&& add_ok(r.y0, r.h)
    &&& mul_ok(r.w, rv_c(85, 100))
    &&& add_ok(r.x0, ca_mul(r.w, rv_c(85, 100)))
    &&& mul_ok(r.w, rv_c(15, 100))
    &&& add_ok(r.x0, ca_mul(r.w, rv_c(15, 100)))
    &&& mul_ok(r.h, rv_c(1, 2))
    &&& add_ok(r.y0, ca_mul(r.h, rv_c(1, 2)))
}

/// A concave hexagon path inscribed in the rectangle.
pub fn path_concave_hexagon(out: &mut Vec<Cmd>, r: &Rect) -> (res: Result<(), RenderError>)
    requires
        r.wf(),
    ensures
        res is Ok ==> appended(old(out)@, final(out)@, concave_hexagon_path_v(r@)),
        res matches Err(e) ==> e == RenderError::NumericRange,
        res is Err <==> !concave_hexagon_path_ok(r@),
{
    let ghost s0 = out@;
    let half = Rat::frac(1, 2);
    let x1 = ranged(r.x0.add(&r.w))?;
    let y1 = ranged(r.y0.add(&r.h))?;
    let xin_r = ranged(r.x0.add(&ranged(r.w.mul(&Rat::frac(85, 100)))?))?;
    let xin_l = ranged(r.x0.add(&ranged(r.w.mul(&Rat::frac(15, 100)))?))?;
    let ym = ranged(r.y0.add(&ranged(r.h.mul(&half))?))?;
    emit(out, Cmd::NewPath);
    emit(out, Cmd::MoveTo(Pt { x: r.x0, y: r.y0 }));
    emit(out, Cmd::LineTo(Pt { x: x1, y: r.y0 }));
    emit(out, Cmd::LineTo(Pt { x: xin_r, y: ym }));
    emit(out, Cmd::LineTo(Pt { x: x1, y: y1 }));
    emit(out, Cmd::LineTo(Pt { x: r.x0, y: y1 }));
    emit(out, Cmd::LineTo(Pt { x: xin_l, y: ym }));
    emit(out, Cmd::ClosePath);
    proof {
        assert(cmd_views(out@) =~= cmd_views(s0) + concave_hexagon_path_v(r@));
    }
    Ok(())
}

// --- barrel (compartment) ---

/// The first cubic control point of a quadratic curve from `p0` toward
/// control `c`: one third of the way back from the control point.
pub open spec fn quad_c1(p0: PtV, c: PtV) -> PtV {
    PtV {
        x: ca_add(p0.x, ca_mul(ca_sub(c.x, p0.x), rv_c(2, 3))),
        y: ca_add(p0.y, ca_mul(ca_sub(c.y, p0.y), rv_c(2, 3))),
    }
}

/// The second cubic control point of a quadratic curve ending at `p`.
pub open spec fn quad_c2(p: PtV, c: PtV) -> PtV {
    PtV {
        x: ca_add(p.x, ca_mul(ca_sub(c.x, p.x), rv_c(2, 3))),
        y: ca_add(p.y, ca_mul(ca_sub(c.y, p.y), rv_c(2, 3))),
    }
}

/// A quadratic curve from `p0` over control `c` to `p`, as the exactly
/// equivalent cubic curve command.
pub open spec fn quad_curve_v(p0: PtV, c: PtV, p: PtV) -> CmdV {
    CmdV::CurveTo(quad_c1(p0, c), quad_c2(p, c), p)
}

/// Whether one control-point coordinate stays within machine range.
pub open spec fn quad_axis_ok(p0: RatV, c: RatV) -> bool {
    &&& sub_ok(c, p0)
    &&& mul_ok(ca_sub(c, p0), rv_c(2, 3))
    &&& add_ok(p0, ca_mul(ca_sub(c, p0), rv_c(2, 3)))
}

/// Whether expanding a quadratic curve stays within machine range.
pub open spec fn quad_curve_ok(p0: PtV, c: PtV, p: PtV) -> bool {
    &&& quad_axis_ok(p0.x, c.x)
    &&& quad_axis_ok(p0.y, c.y)
    &&& quad_axis_ok(p.x, c.x)
    &&& quad_axis_ok(p.y, c.y)
}

fn quad_axis(p0: Rat, c: Rat, p: Rat) -> (res: Result<Rat, RenderError>)
    requires
        p0.wf(),
        c.wf(),
        p.wf(),
    ensures
        res matches Ok(v) ==> v.wf() && v@ == ca_add(p0@, ca_mul(ca_sub(c@, p0@), rv_c(2, 3))),
        res matches Err(e) ==> e == RenderError::NumericRange,
        res is Err <==> !quad_axis_ok(p0@, c@),
{
    let _ = p;
    let two_thirds = Rat::frac(2, 3);
    ranged(p0.add(&ranged(ranged(c.sub(&p0))?.mul(&two_thirds))?))
}

/// Emit a quadratic curve from the current point `p0` over control `c` to
/// `p`, expanded to the equivalent cubic.
pub fn quad_curve_to(out: &mut Vec<Cmd>, p0: Pt, c: Pt, p: Pt) -> (res: Result<(), RenderError>)
    requires
        p0.wf(),
        c.wf(),
        p.wf(),
    ensures
        res is Ok ==> appended(old(out)@, final(out)@, seq![quad_curve_v(p0@, c@, p@)]),
        res matches Err(e) ==> e == RenderError::NumericRange,
        res is Err <==> !quad_curve_ok(p0@, c@, p@),
{
    let c1x = quad_axis(p0.x, c.x, p.x)?;
    let c1y = quad_axis(p0.y, c.y, p.y)?;
    let c2x = quad_axis(p.x, c.x, p0.x)?;
    let c2y = quad_axis(p.y, c.y, p0.y)?;
    emit(out, Cmd::CurveTo(Pt { x: c1x, y: c1y }, Pt { x: c2x, y: c2y }, p));
    Ok(())
}

/// The compartment barrel: a rectangle whose four corners are replaced by
/// smooth curves between inset points near the top and bottom edges.
pub open spec fn barrel_path_v(r: RectV) -> Seq<CmdV> {
    let x = r.x0;
    let y = r.y0;
    let x1 = ca_add(r.x0, r.w);
    let y1 = ca_add(r.y0, r.h);
    let top_y = ca_add(y, ca_mul(r.h, rv_c(3, 100)));
    let bottom_y = ca_add(y, ca_mul(r.h, rv_c(97, 100)));
    let xa = ca_add(x, ca_mul(r.w, rv_c(6, 100)));
    let xq = ca_add(x, ca_mul(r.w, rv_c(25, 100)));
    let xq3 = ca_add(x, ca_mul(r.w, rv_c(75, 100)));
    let xb = ca_add(x, ca_mul(r.w, rv_c(95, 100)));
    let yb95 = ca_add(y, ca_mul(r.h, rv_c(95, 100)));
    let yt05 = ca_add(y, ca_mul(r.h, rv_c(5, 100)));
    seq![
        CmdV::NewPath,
        CmdV::MoveTo(PtV { x, y: top_y }),
        CmdV::LineTo(PtV { x, y: bottom_y }),
        quad_curve_v(
            PtV { x, y: bottom_y },
            PtV { x: xa, y: y1 },
            PtV { x: xq, y: y1 },
        ),
        CmdV::LineTo(PtV { x: xq3, y: y1 }),
        quad_curve_v(
            PtV { x: xq3, y: y1 },
            PtV { x: xb, y: y1 },
            PtV { x: x1, y: yb95 },
        ),
        CmdV::LineTo(PtV { x: x1, y: yt05 }),
        quad_curve_v(PtV { x: x1, y: yt05 }, PtV { x: x1, y }, PtV { x: xq3, y }),
        CmdV::LineTo(PtV { x: xq, y }),
        quad_curve_v(PtV { x: xq, y }, PtV { x: xa, y }, PtV { x, y: top_y }),
        CmdV::ClosePath,
    ]
}

/// Whether the barrel path stays within machine range.
pub open spec fn barrel_path_ok(r: RectV) -> bool {
    let x = r.x0;
    let y = r.y0;
    let x1 = ca_add(r.x0, r.w);
    let y1 = ca_add(r.y0, r.h);
    let top_y = ca_add(y, ca_mul(r.h, rv_c(3, 100)));
    let bottom_y = ca_add(y, ca_mul(r.h, rv_c(97, 100)));
    let xa = ca_add(x, ca_mul(r.w, rv_c(6, 100)));
    let xq = ca_add(x, ca_mul(r.w, rv_c(25, 100)));
    let xq3 = ca_add(x, ca_mul(r.w, rv_c(75, 100)));
    let xb = ca_add(x, ca_mul(r.w, rv_c(95, 100)));
    let yb95 = ca_add(y, ca_mul(r.h, rv_c(95, 100)));
    let yt05 = ca_add(y, ca_mul(r.h, rv_c(5, 100)));
    &&& add_ok(r.x0, r.w)
    &&& add_ok(r.y0, r.h)
    &&& mul_ok(r.h, rv_c(3, 100))
    &&& add_ok(y, ca_mul(r.h, rv_c(3, 100)))
    &&& mul_ok(r.h, rv_c(97, 100))
    &&& add_ok(y, ca_mul(r.h, rv_c(97, 100)))
    &&& mul_ok(r.w, rv_c(6, 100))
    &&& add_ok(x, ca_mul(r.w, rv_c(6, 100)))
    &&& mul_ok(r.w, rv_c(25, 100))
    &&& add_ok(x, ca_mul(r.w, rv_c(25, 100)))
    &&& mul_ok(r.w, rv_c(75, 100))
    &&& add_ok(x, ca_mul(r.w, rv_c(75, 100)))
    &&& mul_ok(r.w, rv_c(95, 100))
    &&& add_ok(x, ca_mul(r.w, rv_c(95, 100)))
    &&& mul_ok(r.h, rv_c(95, 100))
    &&& add_ok(y, ca_mul(r.h, rv_c(95, 100)))
    &&& mul_ok(r.h, rv_c(5, 100))
    &&& add_ok(y, ca_mul(r.h, rv_c(5, 100)))
    &&& quad_curve_ok(PtV { x, y: bottom_y }, PtV { x: xa, y: y1 }, PtV { x: xq, y: y1 })
    &&& quad_curve_ok(PtV { x: xq3, y: y1 }, PtV { x: xb, y: y1 }, PtV { x: x1, y: yb95 })
    &&& quad_curve_ok(PtV { x: x1, y: yt05 }, PtV { x: x1, y }, PtV { x: xq3, y })
    &&& quad_curve_ok(PtV { x: xq, y }, PtV { x: xa, y }, PtV { x, y: top_y })
}

/// A barrel path inscribed in the rectangle.
#[verifier::rlimit(100)]
pub fn path_barrel(out: &mut Vec<Cmd>, r: &Rect) -> (res: Result<(), RenderError>)
    requires
        r.wf(),
    ensures
        res is Ok ==> appended(old(out)@, final(out)@, barrel_path_v(r@)),
        res matches Err(e) ==> e == RenderError::NumericRange,
        res is Err <==> !barrel_path_ok(r@),
{
    let ghost s0 = out@;
    let x = r.x0;
    let y = r.y0;
    let x1 = ranged(r.x0.add(&r.w))?;
    let y1 = ranged(r.y0.add(&r.h))?;
    let top_y = ranged(y.add(&ranged(r.h.mul(&Rat::frac(3, 100)))?))?;
    let bottom_y = ranged(y.add(&ranged(r.h.mul(&Rat::frac(97, 100)))?))?;
    let xa = ranged(x.add(&ranged(r.w.mul(&Rat::frac(6, 100)))?))?;
    let xq = ranged(x.add(&ranged(r.w.mul(&Rat::frac(25, 100)))?))?;
    let xq3 = ranged(x.add(&ranged(r.w.mul(&Rat::frac(75, 100)))?))?;
    let xb = ranged(x.add(&ranged(r.w.mul(&Rat::frac(95, 100)))?))?;
    let yb95 = ranged(y.add(&ranged(r.h.mul(&Rat::frac(95, 100)))?))?;
    let yt05 = ranged(y.add(&ranged(r.h.mul(&Rat::frac(5, 100)))?))?;
    emit(out, Cmd::NewPath);
    emit(out, Cmd::MoveTo(Pt { x, y: top_y }));
    emit(out, Cmd::LineTo(Pt { x, y: bottom_y }));
    quad_curve_to(out, Pt { x, y: bottom_y }, Pt { x: xa, y: y1 }, Pt { x: xq, y: y1 })?;
    emit(out, Cmd::LineTo(Pt { x: xq3, y: y1 }));
    quad_curve_to(out, Pt { x: xq3, y: y1 }, Pt { x: xb, y: y1 }, Pt { x: x1, y: yb95 })?;
    emit(out, Cmd::LineTo(Pt { x: x1, y: yt05 }));
    quad_curve_to(out, Pt { x: x1, y: yt05 }, Pt { x: x1, y }, Pt { x: xq3, y })?;
    emit(out, Cmd::LineTo(Pt { x: xq, y }));
    quad_curve_to(out, Pt { x: xq, y }, Pt { x: xa, y }, Pt { x, y: top_y })?;
    emit(out, Cmd::ClosePath);
    proof {
        assert(cmd_views(out@) =~= cmd_views(s0) + barrel_path_v(r@));
    }
    Ok(())
}

// --- notched tag ---

/// The tag pentagon: a rectangle whose left edge is replaced by an inward
/// point at mid-height, `notch` deep.
pub open spec fn tag_path_v(r: RectV, notch: RatV) -> Seq<CmdV> {
    let x0 = r.x0;
    let y0 = r.y0;
    let x1 = ca_add(r.x0, r.w);
    let y1 = ca_add(r.y0, r.h);
    let xn = ca_add(x0, notch);
    let ym = ca_mul(ca_add(y0, y1), rv_c(1, 2));
    seq![
        CmdV::NewPath,
        CmdV::MoveTo(PtV { x: xn, y: y0 }),
        CmdV::LineTo(PtV { x: x1, y: y0 }),
        CmdV::LineTo(PtV { x: x1, y: y1 }),
        CmdV::LineTo(PtV { x: xn, y: y1 }),
        CmdV::LineTo(PtV { x: x0, y: ym }),
        CmdV::ClosePath,
    ]
}

/// Whether the tag path stays within machine range.
pub open spec fn tag_path_ok(r: RectV, notch: RatV) -> bool {
    &&& add_ok(r.x0, r.w)
    &&& add_ok(r.y0, r.h)
    &&& add_ok(r.x0, notch)
    &&& add_ok(r.y0, ca_add(r.y0, r.h))
    &&& mul_ok(ca_add(r.y0, ca_add(r.y0, r.h)), rv_c(1, 2))
}

/// A notched tag path.
pub fn path_tag(out: &mut Vec<Cmd>, r: &Rect, notch: Rat) -> (res: Result<(), RenderError>)
    requires
        r.wf(),
        notch.wf(),
    ensures
        res is Ok ==> appended(old(out)@, final(out)@, tag_path_v(r@, notch@)),
        res matches Err(e) ==> e == RenderError::NumericRange,
        res is Err <==> !tag_path_ok(r@, notch@),
{
    let ghost s0 = out@;
    let x1 = ranged(r.x0.add(&r.w))?;
    let y1 = ranged(r.y0.add(&r.h))?;
    let xn = ranged(r.x0.add(&notch))?;
    let ym = ranged(ranged(r.y0.add(&y1))?.mul(&Rat::frac(1, 2)))?;
    emit(out, Cmd::NewPath);
    emit(out, Cmd::MoveTo(Pt { x: xn, y: r.y0 }));
    emit(out, Cmd::LineTo(Pt { x: x1, y: r.y0 }));
    emit(out, Cmd::LineTo(Pt { x: x1, y: y1 }));
    emit(out, Cmd::LineTo(Pt { x: xn, y: y1 }));
    emit(out, Cmd::LineTo(Pt { x: r.x0, y: ym }));
    emit(out, Cmd::ClosePath);
    proof {
        assert(cmd_views(out@) =~= cmd_views(s0) + tag_path_v(r@, notch@));
    }
    Ok(())
}

} // verus!
