//! The data-space to pixel-space mapping: an independent scale and
//! translation per axis, fitted to the padded content bounds.

use vstd::prelude::*;

verus! {

use crate::rat::{
    Rat,
    RatV,
    rv_wf,
    rv_eq,
    rv_c,
    rv_add,
    rv_sub,
    rv_mul,
    rv_div,
    rv_abs,
    rv_min,
    rv_max,
    ca_add,
    ca_sub,
    ca_mul,
    ca_div,
    add_ok,
    sub_ok,
    mul_ok,
    div_ok,
    rv_canon,
    lemma_canon,
    lemma_rv_wf_ops,
    lemma_rv_eq_trans,
    lemma_add_cong,
    lemma_mul_cong,
    lemma_div_cong,
    lemma_mul_div_cancel,
    lemma_sub_add_cancel,
};
use crate::geom::{Pt, PtV, BBox, BBoxV, Rect, RectV, Bounds, BoundsV, RenderError, ranged};
use vstd::arithmetic::div_mod::lemma_fundamental_div_mod;

/// The affine map from data space into pixel space.
#[derive(Clone, Copy, Debug, PartialEq, Eq, Structural)]
pub struct Transform {
    pub min_x: Rat,
    pub min_y: Rat,
    pub scale_x: Rat,
    pub scale_y: Rat,
}

pub struct TransformV {
    pub min_x: RatV,
    pub min_y: RatV,
    pub scale_x: RatV,
    pub scale_y: RatV,
}

impl View for Transform {
    type V = TransformV;

    open spec fn view(&self) -> TransformV {
        TransformV {
            min_x: self.min_x@,
            min_y: self.min_y@,
            scale_x: self.scale_x@,
            scale_y: self.scale_y@,
        }
    }
}

impl Transform {
    pub open spec fn wf(self) -> bool {
        self.min_x.wf() && self.min_y.wf() && self.scale_x.wf() && self.scale_y.wf()
    }
}

pub open spec fn tf_wf(t: TransformV) -> bool {
    rv_wf(t.min_x) && rv_wf(t.min_y) && rv_wf(t.scale_x) && rv_wf(t.scale_y)
}

/// A data-space span, clamped to at least one unit so fitting never divides
/// by zero.
pub open spec fn tf_span(min: RatV, max: RatV) -> RatV {
    rv_max(rv_abs(ca_sub(max, min)), rv_c(1, 1))
}

/// The transform fitted to the given data bounds and output size.
pub open spec fn tf_new_v(
    min_x: RatV,
    min_y: RatV,
    max_x: RatV,
    max_y: RatV,
    width: RatV,
    height: RatV,
) -> TransformV {
    TransformV {
        min_x,
        min_y,
        scale_x: ca_div(width, tf_span(min_x, max_x)),
        scale_y: ca_div(height, tf_span(min_y, max_y)),
    }
}

pub open spec fn tf_map_x(t: TransformV, x: RatV) -> RatV {
    ca_mul(ca_sub(x, t.min_x), t.scale_x)
}

pub open spec fn tf_map_y(t: TransformV, y: RatV) -> RatV {
    ca_mul(ca_sub(y, t.min_y), t.scale_y)
}

pub open spec fn tf_map_pt(t: TransformV, x: RatV, y: RatV) -> PtV {
    PtV { x: tf_map_x(t, x), y: tf_map_y(t, y) }
}

/// The inverse map, back from pixel space into data space.
pub open spec fn tf_unmap_x(t: TransformV, px: RatV) -> RatV {
    ca_add(ca_div(px, t.scale_x), t.min_x)
}

pub open spec fn tf_unmap_y(t: TransformV, py: RatV) -> RatV {
    ca_add(ca_div(py, t.scale_y), t.min_y)
}

pub open spec fn tf_scale_w(t: TransformV, w: RatV) -> RatV {
    ca_mul(w, t.scale_x)
}

pub open spec fn tf_scale_h(t: TransformV, h: RatV) -> RatV {
    ca_mul(h, t.scale_y)
}

/// Uniform scaling by the smaller axis scale, for lengths that must not
/// stretch.
pub open spec fn tf_scalar(t: TransformV, v: RatV) -> RatV {
    ca_mul(v, rv_min(t.scale_x, t.scale_y))
}

/// Whether fitting a transform stays within machine range.
pub open spec fn tf_new_ok(
    min_x: RatV,
    min_y: RatV,
    max_x: RatV,
    max_y: RatV,
    width: RatV,
    height: RatV,
) -> bool {
    &&& sub_ok(max_x, min_x)
    &&& sub_ok(max_y, min_y)
    &&& div_ok(width, tf_span(min_x, max_x))
    &&& div_ok(height, tf_span(min_y, max_y))
}

/// Whether mapping an x coordinate stays within machine range.
pub open spec fn tf_map_x_ok(t: TransformV, x: RatV) -> bool {
    sub_ok(x, t.min_x) && mul_ok(ca_sub(x, t.min_x), t.scale_x)
}

pub open spec fn tf_map_y_ok(t: TransformV, y: RatV) -> bool {
    sub_ok(y, t.min_y) && mul_ok(ca_sub(y, t.min_y), t.scale_y)
}

pub open spec fn tf_map_pt_ok(t: TransformV, x: RatV, y: RatV) -> bool {
    tf_map_x_ok(t, x) && tf_map_y_ok(t, y)
}

/// Whether the inverse map stays within machine range.
pub open spec fn tf_unmap_x_ok(t: TransformV, px: RatV) -> bool {
    div_ok(px, t.scale_x) && add_ok(ca_div(px, t.scale_x), t.min_x)
}

pub open spec fn tf_unmap_y_ok(t: TransformV, py: RatV) -> bool {
    div_ok(py, t.scale_y) && add_ok(ca_div(py, t.scale_y), t.min_y)
}

pub open spec fn tf_scale_w_ok(t: TransformV, w: RatV) -> bool {
    mul_ok(w, t.scale_x)
}

pub open spec fn tf_scale_h_ok(t: TransformV, h: RatV) -> bool {
    mul_ok(h, t.scale_y)
}

pub open spec fn tf_scalar_ok(t: TransformV, v: RatV) -> bool {
    mul_ok(v, rv_min(t.scale_x, t.scale_y))
}

/// Whether mapping a whole box to a pixel rectangle stays within range.
pub open spec fn tf_rect_ok(t: TransformV, b: BBoxV) -> bool {
    let x0 = tf_map_x(t, b.x);
    let x1 = tf_map_x(t, ca_add(b.x, b.w));
    let y0 = tf_map_y(t, b.y);
    let y1 = tf_map_y(t, ca_add(b.y, b.h));
    &&& tf_map_pt_ok(t, b.x, b.y)
    &&& add_ok(b.x, b.w)
    &&& add_ok(b.y, b.h)
    &&& tf_map_pt_ok(t, ca_add(b.x, b.w), ca_add(b.y, b.h))
    &&& sub_ok(rv_max(x0, x1), rv_min(x0, x1))
    &&& sub_ok(rv_max(y0, y1), rv_min(y0, y1))
}

/// A glyph box mapped to pixels and normalized to non-negative size.
pub open spec fn tf_rect(t: TransformV, b: BBoxV) -> RectV {
    let x0 = tf_map_x(t, b.x);
    let x1 = tf_map_x(t, ca_add(b.x, b.w));
    let y0 = tf_map_y(t, b.y);
    let y1 = tf_map_y(t, ca_add(b.y, b.h));
    RectV {
        x0: rv_min(x0, x1),
        y0: rv_min(y0, y1),
        w: ca_sub(rv_max(x0, x1), rv_min(x0, x1)),
        h: ca_sub(rv_max(y0, y1), rv_min(y0, y1)),
    }
}

impl Transform {
    /// Fit a transform to the data bounds `min..max` and the output size.
    /// Degenerate spans are clamped to one data unit.
    pub fn new(min_x: Rat, min_y: Rat, max_x: Rat, max_y: Rat, width: Rat, height: Rat) -> (r:
        Result<Transform, RenderError>)
        requires
            min_x.wf(),
            min_y.wf(),
            max_x.wf(),
            max_y.wf(),
            width.wf(),
            height.wf(),
        ensures
            r matches Ok(t) ==> t.wf() && t@ == tf_new_v(min_x@, min_y@, max_x@, max_y@, width@,
                height@),
            r matches Err(e) ==> e == RenderError::NumericRange,
            r is Err <==> !tf_new_ok(min_x@, min_y@, max_x@, max_y@, width@, height@),
    {
        let one = Rat::whole(1);
        let dx = ranged(max_x.sub(&min_x))?;
        let span_x = dx.abs().max(&one);
        let dy = ranged(max_y.sub(&min_y))?;
        let span_y = dy.abs().max(&one);
        let scale_x = ranged(width.div(&span_x))?;
        let scale_y = ranged(height.div(&span_y))?;
        Ok(Transform { min_x, min_y, scale_x, scale_y })
    }

    /// Map a data-space point to pixel space.
    pub fn map_point(&self, x: Rat, y: Rat) -> (r: Result<Pt, RenderError>)
        requires
            self.wf(),
            x.wf(),
            y.wf(),
        ensures
            r matches Ok(p) ==> p.wf() && p@ == tf_map_pt(self@, x@, y@),
            r matches Err(e) ==> e == RenderError::NumericRange,
            r is Err <==> !tf_map_pt_ok(self@, x@, y@),
    {
        let px = ranged(ranged(x.sub(&self.min_x))?.mul(&self.scale_x))?;
        let py = ranged(ranged(y.sub(&self.min_y))?.mul(&self.scale_y))?;
        Ok(Pt { x: px, y: py })
    }

    /// Map a data-space point back out of pixel space.
    pub fn unmap_point(&self, px: Rat, py: Rat) -> (r: Result<Pt, RenderError>)
        requires
            self.wf(),
            px.wf(),
            py.wf(),
            self.scale_x@.n != 0,
            self.scale_y@.n != 0,
        ensures
            r matches Ok(p) ==> p.wf() && p@.x == tf_unmap_x(self@, px@) && p@.y == tf_unmap_y(
                self@, py@),
            r matches Err(e) ==> e == RenderError::NumericRange,
            r is Err <==> !(tf_unmap_x_ok(self@, px@) && tf_unmap_y_ok(self@, py@)),
    {
        let x = ranged(ranged(px.div(&self.scale_x))?.add(&self.min_x))?;
        let y = ranged(ranged(py.div(&self.scale_y))?.add(&self.min_y))?;
        Ok(Pt { x, y })
    }

    /// Scale a data-space size to pixels, without translation.
    pub fn map_size(&self, w: Rat, h: Rat) -> (r: Result<(Rat, Rat), RenderError>)
        requires
            self.wf(),
            w.wf(),
            h.wf(),
        ensures
            r matches Ok(s) ==> s.0.wf() && s.1.wf() && s.0@ == tf_scale_w(self@, w@) && s.1@
                == tf_scale_h(self@, h@),
            r matches Err(e) ==> e == RenderError::NumericRange,
            r is Err <==> !(tf_scale_w_ok(self@, w@) && tf_scale_h_ok(self@, h@)),
    {
        let pw = ranged(w.mul(&self.scale_x))?;
        let ph = ranged(h.mul(&self.scale_y))?;
        Ok((pw, ph))
    }

    /// Scale a length by the smaller axis scale.
    pub fn scale_scalar(&self, v: Rat) -> (r: Result<Rat, RenderError>)
        requires
            self.wf(),
            v.wf(),
        ensures
            r matches Ok(s) ==> s.wf() && s@ == tf_scalar(self@, v@),
            r matches Err(e) ==> e == RenderError::NumericRange,
            r is Err <==> !tf_scalar_ok(self@, v@),
    {
        let m = self.scale_x.min(&self.scale_y);
        ranged(v.mul(&m))
    }
}

/// A glyph's bounding box in pixel space, normalized so width and height are
/// non-negative whatever the sign of the data box.
pub fn bbox_pixel_rect(t: &Transform, b: &BBox) -> (r: Result<Rect, RenderError>)
    requires
        t.wf(),
        b.wf(),
    ensures
        r matches Ok(rect) ==> rect.wf() && rect@ == tf_rect(t@, b@),
        r matches Err(e) ==> e == RenderError::NumericRange,
        r is Err <==> !tf_rect_ok(t@, b@),
{
    let p0 = t.map_point(b.x, b.y)?;
    let xw = ranged(b.x.add(&b.w))?;
    let yh = ranged(b.y.add(&b.h))?;
    let p1 = t.map_point(xw, yh)?;
    let left = p0.x.min(&p1.x);
    let right = p0.x.max(&p1.x);
    let top = p0.y.min(&p1.y);
    let bottom = p0.y.max(&p1.y);
    let w = ranged(right.sub(&left))?;
    let h = ranged(bottom.sub(&top))?;
    Ok(Rect { x0: left, y0: top, w, h })
}

/// The transform, output width and output height for bounds expanded by a
/// symmetric padding.
pub open spec fn padded_span(min: RatV, max: RatV, padding: RatV) -> RatV {
    rv_max(rv_abs(ca_sub(ca_add(max, padding), ca_sub(min, padding))), rv_c(1, 1))
}

/// Whether padding the bounds and fitting the transform stays within range.
pub open spec fn tf_pad_ok(b: BoundsV, padding: RatV) -> bool {
    let min_x = ca_sub(b.min_x, padding);
    let max_x = ca_add(b.max_x, padding);
    let min_y = ca_sub(b.min_y, padding);
    let max_y = ca_add(b.max_y, padding);
    &&& sub_ok(b.min_x, padding)
    &&& add_ok(b.max_x, padding)
    &&& sub_ok(b.min_y, padding)
    &&& add_ok(b.max_y, padding)
    &&& sub_ok(max_x, min_x)
    &&& sub_ok(max_y, min_y)
    &&& tf_new_ok(
        min_x,
        min_y,
        max_x,
        max_y,
        padded_span(b.min_x, b.max_x, padding),
        padded_span(b.min_y, b.max_y, padding),
    )
}

pub fn transform_with_padding(bounds: &Bounds, padding: Rat) -> (r: Result<
    (Transform, Rat, Rat),
    RenderError,
>)
    requires
        bounds.wf(),
        padding.wf(),
    ensures
        r matches Ok(t) ==> {
            &&& t.0.wf() && t.1.wf() && t.2.wf()
            &&& t.1@ == padded_span(bounds@.min_x, bounds@.max_x, padding@)
            &&& t.2@ == padded_span(bounds@.min_y, bounds@.max_y, padding@)
            &&& t.0@ == tf_new_v(
                ca_sub(bounds@.min_x, padding@),
                ca_sub(bounds@.min_y, padding@),
                ca_add(bounds@.max_x, padding@),
                ca_add(bounds@.max_y, padding@),
                t.1@,
                t.2@,
            )
        },
        r matches Err(e) ==> e == RenderError::NumericRange,
        r is Err <==> !tf_pad_ok(bounds@, padding@),
{
    let one = Rat::whole(1);
    let min_x = ranged(bounds.min_x.sub(&padding))?;
    let max_x = ranged(bounds.max_x.add(&padding))?;
    let min_y = ranged(bounds.min_y.sub(&padding))?;
    let max_y = ranged(bounds.max_y.add(&padding))?;
    let width = ranged(max_x.sub(&min_x))?.abs().max(&one);
    let height = ranged(max_y.sub(&min_y))?.abs().max(&one);
    let t = Transform::new(min_x, min_y, max_x, max_y, width, height)?;
    Ok((t, width, height))
}

/// The least integer at or above the value.
pub fn ceil_i64(v: &Rat) -> (r: i64)
    requires
        v.wf(),
    ensures
        r as int * v@.d >= v@.n,
        (r as int - 1) * v@.d < v@.n,
{
    if v.n >= 0 {
        let m: u64 = v.n as u64;
        let d: u64 = v.d as u64;
        let q: u64 = (m + d - 1) / d;
        proof {
            lemma_fundamental_div_mod((m + d - 1) as int, d as int);
            let qq = (m + d - 1) as int / d as int;
            let rr = (m + d - 1) as int % d as int;
            assert((m + d - 1) as int == d as int * qq + rr);
            assert(qq * d as int >= m as int) by (nonlinear_arith)
                requires
                    (m + d - 1) as int == d as int * qq + rr,
                    0 <= rr < d as int,
                    d as int >= 1,
            {}
            assert((qq - 1) * (d as int) < (m as int)) by (nonlinear_arith)
                requires
                    (m + d - 1) as int == d as int * qq + rr,
                    0 <= rr < d as int,
                    d as int >= 1,
            {}
        }
        q as i64
    } else {
        let m: u64 = (-v.n) as u64;
        let d: u64 = v.d as u64;
        let q: u64 = m / d;
        proof {
            lemma_fundamental_div_mod(m as int, d as int);
            let qq = m as int / d as int;
            let rr = m as int % d as int;
            assert(m as int == d as int * qq + rr);
            assert((-qq) * d as int >= -(m as int)) by (nonlinear_arith)
                requires
                    m as int == d as int * qq + rr,
                    0 <= rr < d as int,
                    d as int >= 1,
            {}
            assert((-qq - 1) * (d as int) < -(m as int)) by (nonlinear_arith)
                requires
                    m as int == d as int * qq + rr,
                    0 <= rr < d as int,
                    d as int >= 1,
            {}
        }
        -(q as i64)
    }
}

/// One axis of the round trip: mapping into pixel space and back returns the
/// original coordinate exactly, whenever the axis scale is nonzero.
proof fn lemma_axis_round_trip(m: RatV, s: RatV, x: RatV)
    requires
        rv_wf(m),
        rv_wf(s),
        rv_wf(x),
        s.n != 0,
    ensures
        rv_eq(ca_add(ca_div(ca_mul(ca_sub(x, m), s), s), m), x),
{
    let sub_raw = rv_sub(x, m);
    let sub_c = rv_canon(sub_raw);
    lemma_rv_wf_ops(x, m);
    lemma_canon(sub_raw);
    let mul_raw = rv_mul(sub_c, s);
    let mul_c = rv_canon(mul_raw);
    lemma_rv_wf_ops(sub_c, s);
    lemma_canon(mul_raw);
    // mul_c ~ rv_mul(sub_raw, s)
    lemma_mul_cong(sub_c, sub_raw, s, s);
    lemma_rv_wf_ops(sub_raw, s);
    lemma_rv_eq_trans(mul_c, mul_raw, rv_mul(sub_raw, s));
    let div_raw = rv_div(mul_c, s);
    let div_c = rv_canon(div_raw);
    lemma_rv_wf_ops(mul_c, s);
    lemma_canon(div_raw);
    // div_raw ~ rv_div(rv_mul(sub_raw, s), s) ~ sub_raw
    lemma_div_cong(mul_c, rv_mul(sub_raw, s), s, s);
    lemma_mul_div_cancel(sub_raw, s);
    lemma_rv_wf_ops(rv_mul(sub_raw, s), s);
    lemma_rv_eq_trans(div_raw, rv_div(rv_mul(sub_raw, s), s), sub_raw);
    lemma_rv_eq_trans(div_c, div_raw, sub_raw);
    let add_raw = rv_add(div_c, m);
    let add_c = rv_canon(add_raw);
    lemma_rv_wf_ops(div_c, m);
    lemma_canon(add_raw);
    // add_raw ~ rv_add(sub_raw, m) ~ x
    lemma_add_cong(div_c, sub_raw, m, m);
    lemma_sub_add_cancel(x, m);
    lemma_rv_wf_ops(sub_raw, m);
    lemma_rv_eq_trans(add_raw, rv_add(sub_raw, m), x);
    lemma_rv_eq_trans(add_c, add_raw, x);
}

/// Round trip of the affine transform: for any transform with nonzero axis
/// scales, `unmap_point` applied to `map_point` of a data-space point gives
/// back exactly the original coordinates.
pub proof fn lemma_map_unmap_round_trip(t: TransformV, x: RatV, y: RatV)
    requires
        tf_wf(t),
        rv_wf(x),
        rv_wf(y),
        t.scale_x.n != 0,
        t.scale_y.n != 0,
    ensures
        rv_eq(tf_unmap_x(t, tf_map_x(t, x)), x),
        rv_eq(tf_unmap_y(t, tf_map_y(t, y)), y),
{
    lemma_axis_round_trip(t.min_x, t.scale_x, x);
    lemma_axis_round_trip(t.min_y, t.scale_y, y);
}

} // verus!
