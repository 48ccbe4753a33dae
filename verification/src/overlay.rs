//! The auxiliary overlay engine: separator lines and measured label boxes
//! for "unit of information" and "state variable" children, positioned in
//! the parent's reference space and rescaled to its actual pixel size; and
//! the entity-pool node that combines ghost, base shape and overlays.

use vstd::prelude::*;

verus! {

use crate::rat::{Rat, RatV, rv_c, rv_eq, rv_wf, rv_max, rv_add, rv_sub, rv_mul, rv_div,
    ca_add, ca_sub, ca_mul, ca_div, add_ok, sub_ok, mul_ok, div_ok, rv_canon, lemma_canon,
    lemma_rv_wf_ops, lemma_rv_eq_trans, lemma_mul_cong, lemma_sub_cong, lemma_add_sub_cancel};
use crate::geom::{BBox, Rect, RectV, PtV, RenderError, ranged, rect_wf_v};
use crate::cmd::{Cmd, CmdV, Color, BoxKind, cmd_views, appended, emit};
use crate::style::{EntityKind, ref_dims, ref_dims_v, ghost_offset, ghost_offset_v,
    pool_border_width, pool_border_width_v};
use crate::node::{ShapeKind, shape_with_clone_v, shape_with_clone_ok, draw_shape_with_clone};
use crate::transform::{Transform, TransformV, tf_rect, tf_rect_ok, bbox_pixel_rect};

// --- the primitive overlay draws ---

/// A horizontal separator line across the node at pixel height `y`.
pub open spec fn overlay_line_v(r: RectV, y: RatV, line_width: RatV, color: Color) -> Seq<CmdV> {
    seq![
        CmdV::SetLineWidth(rv_max(line_width, rv_c(1, 1))),
        CmdV::SetColor(color),
        CmdV::NewPath,
        CmdV::MoveTo(PtV { x: r.x0, y }),
        CmdV::LineTo(PtV { x: ca_add(r.x0, r.w), y }),
        CmdV::Stroke,
        CmdV::SetColor(Color::Border),
        CmdV::SetLineWidth(rv_c(3, 2)),
    ]
}

/// Draw a horizontal overlay separator line.
pub fn draw_overlay_line(out: &mut Vec<Cmd>, r: &Rect, y: Rat, line_width: Rat, color: Color) -> (
    res: Result<(), RenderError>)
    requires
        r.wf(),
        line_width.wf(),
    ensures
        res is Ok ==> appended(old(out)@, final(out)@, overlay_line_v(r@, y@, line_width@, color)),
        res matches Err(e) ==> e == RenderError::NumericRange,
        res is Err <==> !add_ok(r@.x0, r@.w),
{
    let ghost s0 = out@;
    let x1 = ranged(r.x0.add(&r.w))?;
    emit(out, Cmd::SetLineWidth(line_width.max(&Rat::whole(1))));
    emit(out, Cmd::SetColor(color));
    emit(out, Cmd::NewPath);
    emit(out, Cmd::MoveTo(crate::geom::Pt { x: r.x0, y }));
    emit(out, Cmd::LineTo(crate::geom::Pt { x: x1, y }));
    emit(out, Cmd::Stroke);
    emit(out, Cmd::SetColor(Color::Border));
    emit(out, Cmd::SetLineWidth(Rat::frac(3, 2)));
    proof {
        assert(cmd_views(out@) =~= cmd_views(s0) + overlay_line_v(r@, y@, line_width@, color));
    }
    Ok(())
}

/// A unit-of-information box: sized by the surface from the measured label
/// width plus padding, with a 10-pixel floor.
pub open spec fn unit_info_v(
    x: RatV,
    y: RatV,
    height: RatV,
    label: Seq<char>,
    border_width: RatV,
    font_px: RatV,
    padding: RatV,
) -> Seq<CmdV> {
    seq![
        CmdV::LabelBox {
            kind: BoxKind::UnitInfo,
            x,
            y,
            height,
            text: label,
            border_width: rv_max(border_width, rv_c(1, 1)),
            font_px,
            padding,
            min_width: rv_c(10, 1),
        },
    ]
}

/// Draw a unit-of-information label box.
pub fn draw_unit_info(
    out: &mut Vec<Cmd>,
    x: Rat,
    y: Rat,
    height: Rat,
    label: &str,
    border_width: Rat,
    font_px: Rat,
    padding: Rat,
)
    requires
        border_width.wf(),
    ensures
        appended(
            old(out)@,
            final(out)@,
            unit_info_v(x@, y@, height@, label@, border_width@, font_px@, padding@),
        ),
{
    let ghost s0 = out@;
    emit(
        out,
        Cmd::LabelBox {
            kind: BoxKind::UnitInfo,
            x,
            y,
            height,
            text: String::from_str(label),
            border_width: border_width.max(&Rat::whole(1)),
            font_px,
            padding,
            min_width: Rat::whole(10),
        },
    );
    proof {
        assert(cmd_views(out@) =~= cmd_views(s0) + unit_info_v(
            x@,
            y@,
            height@,
            label@,
            border_width@,
            font_px@,
            padding@,
        ));
    }
}

/// A state-variable box: a stadium sized by the surface from the measured
/// label width plus padding, with the given minimum width.
pub open spec fn state_var_v(
    x: RatV,
    y: RatV,
    height: RatV,
    label: Seq<char>,
    border_width: RatV,
    font_px: RatV,
    padding: RatV,
    min_width: RatV,
) -> Seq<CmdV> {
    seq![
        CmdV::LabelBox {
            kind: BoxKind::StateVar,
            x,
            y,
            height,
            text: label,
            border_width: rv_max(border_width, rv_c(1, 1)),
            font_px,
            padding,
            min_width,
        },
    ]
}

/// Draw a state-variable label box.
pub fn draw_state_var(
    out: &mut Vec<Cmd>,
    x: Rat,
    y: Rat,
    height: Rat,
    label: &str,
    border_width: Rat,
    font_px: Rat,
    padding: Rat,
    min_width: Rat,
)
    requires
        border_width.wf(),
    ensures
        appended(
            old(out)@,
            final(out)@,
            state_var_v(x@, y@, height@, label@, border_width@, font_px@, padding@, min_width@),
        ),
{
    let ghost s0 = out@;
    emit(
        out,
        Cmd::LabelBox {
            kind: BoxKind::StateVar,
            x,
            y,
            height,
            text: String::from_str(label),
            border_width: border_width.max(&Rat::whole(1)),
            font_px,
            padding,
            min_width,
        },
    );
    proof {
        assert(cmd_views(out@) =~= cmd_views(s0) + state_var_v(
            x@,
            y@,
            height@,
            label@,
            border_width@,
            font_px@,
            padding@,
            min_width@,
        ));
    }
}

// --- reference-space metrics ---

/// Horizontal reference-space scale of a node: actual width over reference
/// width.
pub open spec fn aux_scale_x(k: EntityKind, r: RectV) -> RatV {
    ca_div(r.w, rv_c(ref_dims_v(k).0, 1))
}

/// Vertical reference-space scale of a node.
pub open spec fn aux_scale_y(k: EntityKind, r: RectV) -> RatV {
    ca_div(r.h, rv_c(ref_dims_v(k).1, 1))
}

/// The combined overlay scale: the mean of the two axis scales.
pub open spec fn aux_scale(k: EntityKind, r: RectV) -> RatV {
    ca_mul(ca_add(aux_scale_x(k, r), aux_scale_y(k, r)), rv_c(1, 2))
}

/// An x offset in reference units, placed into the node's pixel space.
pub open spec fn px_x(r: RectV, v: int, sx: RatV) -> RatV {
    ca_add(r.x0, ca_mul(rv_c(v, 1), sx))
}

/// A y offset in reference units, placed into the node's pixel space.
pub open spec fn px_y(r: RectV, v: int, sy: RatV) -> RatV {
    ca_add(r.y0, ca_mul(rv_c(v, 1), sy))
}

/// Whether the first separator line is drawn.  For unspecified entity,
/// macromolecule, nucleic acid feature and complex either overlay label
/// brings the line; for the others only the unit of information does.
pub open spec fn aux_sep_first_present(k: EntityKind, u: bool, s: bool) -> bool {
    match k {
        EntityKind::SimpleChemical => u,
        EntityKind::UnspecifiedEntity => u || s,
        EntityKind::Macromolecule => u || s,
        EntityKind::NucleicAcidFeature => u || s,
        EntityKind::Complex => u || s,
        EntityKind::PerturbingAgent => u,
    }
}

/// Whether the second separator line is drawn: only when the unit of
/// information label is present, and never for complex.
pub open spec fn aux_sep_second_present(k: EntityKind, u: bool, s: bool) -> bool {
    match k {
        EntityKind::Complex => false,
        _ => u,
    }
}

// --- within-range conditions for the overlays ---

/// Whether the overlay metrics of a node stay within machine range.
pub open spec fn aux_metrics_ok(k: EntityKind, r: RectV) -> bool {
    let sx = aux_scale_x(k, r);
    let sy = aux_scale_y(k, r);
    let sc = aux_scale(k, r);
    &&& div_ok(r.w, rv_c(ref_dims_v(k).0, 1))
    &&& div_ok(r.h, rv_c(ref_dims_v(k).1, 1))
    &&& add_ok(sx, sy)
    &&& mul_ok(ca_add(sx, sy), rv_c(1, 2))
    &&& mul_ok(rv_c(2, 1), sc)
    &&& mul_ok(rv_c(10, 1), sc)
    &&& mul_ok(rv_c(20, 1), sy)
    &&& mul_ok(rv_c(3, 1), sy)
    &&& sub_ok(ca_mul(rv_c(20, 1), sy), ca_mul(rv_c(3, 1), sy))
}

/// Whether placing a reference-space x offset stays within machine range.
pub open spec fn px_x_ok(r: RectV, v: int, sx: RatV) -> bool {
    mul_ok(rv_c(v, 1), sx) && add_ok(r.x0, ca_mul(rv_c(v, 1), sx))
}

pub open spec fn px_y_ok(r: RectV, v: int, sy: RatV) -> bool {
    mul_ok(rv_c(v, 1), sy) && add_ok(r.y0, ca_mul(rv_c(v, 1), sy))
}

/// Whether the whole overlay pass of a node stays within machine range.
pub open spec fn aux_items_ok(
    k: EntityKind,
    r: RectV,
    u: Option<Seq<char>>,
    s: Option<Seq<char>>,
) -> bool {
    let sx = aux_scale_x(k, r);
    let sy = aux_scale_y(k, r);
    let sc = aux_scale(k, r);
    &&& aux_metrics_ok(k, r)
    &&& mul_ok(rv_c(1, 1), sc)
    &&& (aux_sep_first_present(k, u is Some, s is Some) ==> if k == EntityKind::Complex {
        px_y_ok(r, 11, sy) && mul_ok(rv_c(6, 1), sc) && add_ok(r.x0, r.w)
    } else {
        px_y_ok(r, 8, sy) && add_ok(r.x0, r.w)
    })
    &&& (aux_sep_second_present(k, u is Some, s is Some) ==> if k == EntityKind::PerturbingAgent {
        px_y_ok(r, 56, sy) && add_ok(r.x0, r.w)
    } else {
        px_y_ok(r, 52, sy) && add_ok(r.x0, r.w)
    })
    &&& (u is Some ==> mul_ok(rv_c(5, 1), sc) && match k {
        EntityKind::SimpleChemical => px_x_ok(r, 12, sx) && px_y_ok(r, 0, sy),
        EntityKind::UnspecifiedEntity | EntityKind::Macromolecule
            | EntityKind::NucleicAcidFeature => px_x_ok(r, 20, sx) && px_y_ok(r, 44, sy),
        EntityKind::Complex => {
            &&& mul_ok(r.w, rv_c(25, 100))
            &&& add_ok(r.x0, ca_mul(r.w, rv_c(25, 100)))
            &&& mul_ok(rv_c(24, 1), sy)
            &&& sub_ok(ca_mul(rv_c(24, 1), sy), ca_mul(rv_c(3, 1), sy))
        },
        EntityKind::PerturbingAgent => px_x_ok(r, 20, sx),
    })
    &&& (s is Some ==> mul_ok(rv_c(10, 1), sc) && mul_ok(rv_c(30, 1), sc) && match k {
        EntityKind::UnspecifiedEntity | EntityKind::Macromolecule
            | EntityKind::NucleicAcidFeature => px_x_ok(r, 40, sx),
        EntityKind::Complex => {
            &&& mul_ok(r.w, rv_c(88, 100))
            &&& add_ok(r.x0, ca_mul(r.w, rv_c(88, 100)))
            &&& mul_ok(rv_c(24, 1), sy)
            &&& sub_ok(ca_mul(rv_c(24, 1), sy), ca_mul(rv_c(3, 1), sy))
        },
        _ => true,
    })
}

// --- the assembled overlay sequence ---

/// The overlay commands of an entity-pool node: the separator lines keyed
/// by the presence table, then the unit-of-information box, then the
/// state-variable box.
pub open spec fn aux_items_v(
    k: EntityKind,
    r: RectV,
    u: Option<Seq<char>>,
    s: Option<Seq<char>>,
) -> Seq<CmdV> {
    let sx = aux_scale_x(k, r);
    let sy = aux_scale_y(k, r);
    let sc = aux_scale(k, r);
    let border_width = ca_mul(rv_c(2, 1), sc);
    let font_px = ca_mul(rv_c(10, 1), sc);
    let u_info_height = ca_sub(ca_mul(rv_c(20, 1), sy), ca_mul(rv_c(3, 1), sy));
    let complex_height = ca_sub(ca_mul(rv_c(24, 1), sy), ca_mul(rv_c(3, 1), sy));
    let line1 = if aux_sep_first_present(k, u is Some, s is Some) {
        if k == EntityKind::Complex {
            overlay_line_v(r, px_y(r, 11, sy), ca_mul(rv_c(6, 1), sc), Color::Border)
        } else {
            overlay_line_v(r, px_y(r, 8, sy), ca_mul(rv_c(1, 1), sc), Color::AuxLine)
        }
    } else {
        Seq::empty()
    };
    let line2 = if aux_sep_second_present(k, u is Some, s is Some) {
        if k == EntityKind::PerturbingAgent {
            overlay_line_v(r, px_y(r, 56, sy), ca_mul(rv_c(1, 1), sc), Color::AuxLine)
        } else {
            overlay_line_v(r, px_y(r, 52, sy), ca_mul(rv_c(1, 1), sc), Color::AuxLine)
        }
    } else {
        Seq::empty()
    };
    let ubox = match u {
        Some(lab) => {
            let pad = ca_mul(rv_c(5, 1), sc);
            match k {
                EntityKind::SimpleChemical => unit_info_v(
                    px_x(r, 12, sx),
                    px_y(r, 0, sy),
                    u_info_height,
                    lab,
                    border_width,
                    font_px,
                    pad,
                ),
                EntityKind::UnspecifiedEntity | EntityKind::Macromolecule
                    | EntityKind::NucleicAcidFeature => unit_info_v(
                    px_x(r, 20, sx),
                    px_y(r, 44, sy),
                    u_info_height,
                    lab,
                    border_width,
                    font_px,
                    pad,
                ),
                EntityKind::Complex => unit_info_v(
                    ca_add(r.x0, ca_mul(r.w, rv_c(25, 100))),
                    r.y0,
                    complex_height,
                    lab,
                    border_width,
                    font_px,
                    pad,
                ),
                EntityKind::PerturbingAgent => unit_info_v(
                    px_x(r, 20, sx),
                    r.y0,
                    u_info_height,
                    lab,
                    border_width,
                    font_px,
                    pad,
                ),
            }
        },
        None => Seq::empty(),
    };
    let sbox = match s {
        Some(lab) => {
            let pad = ca_mul(rv_c(10, 1), sc);
            let min_w = ca_mul(rv_c(30, 1), sc);
            match k {
                EntityKind::UnspecifiedEntity | EntityKind::Macromolecule
                    | EntityKind::NucleicAcidFeature => state_var_v(
                    px_x(r, 40, sx),
                    r.y0,
                    u_info_height,
                    lab,
                    border_width,
                    font_px,
                    pad,
                    min_w,
                ),
                EntityKind::Complex => state_var_v(
                    ca_add(r.x0, ca_mul(r.w, rv_c(88, 100))),
                    r.y0,
                    complex_height,
                    lab,
                    border_width,
                    font_px,
                    pad,
                    min_w,
                ),
                _ => Seq::empty(),
            }
        },
        None => Seq::empty(),
    };
    line1 + line2 + ubox + sbox
}

/// Pixel-space overlay metrics of an entity-pool node.
struct AuxMetrics {
    sx: Rat,
    sy: Rat,
    sc: Rat,
    border_width: Rat,
    font_px: Rat,
    u_info_height: Rat,
}

impl AuxMetrics {
    spec fn wf(self) -> bool {
        self.sx.wf() && self.sy.wf() && self.sc.wf() && self.border_width.wf()
            && self.font_px.wf() && self.u_info_height.wf()
    }
}

fn aux_metrics(k: EntityKind, r: &Rect) -> (res: Result<AuxMetrics, RenderError>)
    requires
        r.wf(),
    ensures
        res matches Ok(m) ==> {
            &&& m.wf()
            &&& m.sx@ == aux_scale_x(k, r@)
            &&& m.sy@ == aux_scale_y(k, r@)
            &&& m.sc@ == aux_scale(k, r@)
            &&& m.border_width@ == ca_mul(rv_c(2, 1), aux_scale(k, r@))
            &&& m.font_px@ == ca_mul(rv_c(10, 1), aux_scale(k, r@))
            &&& m.u_info_height@ == ca_sub(
                ca_mul(rv_c(20, 1), aux_scale_y(k, r@)),
                ca_mul(rv_c(3, 1), aux_scale_y(k, r@)),
            )
        },
        res matches Err(e) ==> e == RenderError::NumericRange,
        res is Err <==> !aux_metrics_ok(k, r@),
{
    let (ref_w, ref_h) = ref_dims(k);
    let sx = ranged(r.w.div(&ref_w))?;
    let sy = ranged(r.h.div(&ref_h))?;
    let sc = ranged(ranged(sx.add(&sy))?.mul(&Rat::frac(1, 2)))?;
    let border_width = ranged(Rat::whole(2).mul(&sc))?;
    let font_px = ranged(Rat::whole(10).mul(&sc))?;
    let aux_item_height = ranged(Rat::whole(20).mul(&sy))?;
    let clone_shrink_y = ranged(Rat::whole(3).mul(&sy))?;
    let u_info_height = ranged(aux_item_height.sub(&clone_shrink_y))?;
    Ok(AuxMetrics { sx, sy, sc, border_width, font_px, u_info_height })
}

fn exec_px_x(r: &Rect, v: i64, sx: &Rat) -> (res: Result<Rat, RenderError>)
    requires
        r.wf(),
        sx.wf(),
        0 <= v <= 100,
    ensures
        res matches Ok(p) ==> p.wf() && p@ == px_x(r@, v as int, sx@),
        res matches Err(e) ==> e == RenderError::NumericRange,
        res is Err <==> !px_x_ok(r@, v as int, sx@),
{
    ranged(r.x0.add(&ranged(Rat::whole(v).mul(sx))?))
}

fn exec_px_y(r: &Rect, v: i64, sy: &Rat) -> (res: Result<Rat, RenderError>)
    requires
        r.wf(),
        sy.wf(),
        0 <= v <= 100,
    ensures
        res matches Ok(p) ==> p.wf() && p@ == px_y(r@, v as int, sy@),
        res matches Err(e) ==> e == RenderError::NumericRange,
        res is Err <==> !px_y_ok(r@, v as int, sy@),
{
    ranged(r.y0.add(&ranged(Rat::whole(v).mul(sy))?))
}

/// Draw the overlays of an entity-pool node: separator lines as the
/// presence table dictates, then the unit-of-information and state-variable
/// boxes.
#[verifier::rlimit(100)]
pub fn draw_entity_pool_aux_items(
    out: &mut Vec<Cmd>,
    r: &Rect,
    k: EntityKind,
    u_info_label: Option<&str>,
    s_var_label: Option<&str>,
) -> (res: Result<(), RenderError>)
    requires
        r.wf(),
    ensures
        res is Ok ==> appended(
            old(out)@,
            final(out)@,
            aux_items_v(
                k,
                r@,
                match u_info_label {
                    Some(u) => Some(u@),
                    None => None,
                },
                match s_var_label {
                    Some(s) => Some(s@),
                    None => None,
                },
            ),
        ),
        res matches Err(e) ==> e == RenderError::NumericRange,
        res is Err <==> !aux_items_ok(
            k,
            r@,
            match u_info_label {
                Some(u) => Some(u@),
                None => None,
            },
            match s_var_label {
                Some(s) => Some(s@),
                None => None,
            },
        ),
{
    let ghost s0 = out@;
    let ghost uv: Option<Seq<char>> = match u_info_label {
        Some(u) => Some(u@),
        None => None,
    };
    let ghost sv: Option<Seq<char>> = match s_var_label {
        Some(s) => Some(s@),
        None => None,
    };
    let m = aux_metrics(k, r)?;
    let one_scale = ranged(Rat::whole(1).mul(&m.sc))?;
    // first separator line
    let first = match k {
        EntityKind::SimpleChemical | EntityKind::PerturbingAgent => u_info_label.is_some(),
        _ => u_info_label.is_some() || s_var_label.is_some(),
    };
    if first {
        if k == EntityKind::Complex {
            let y = exec_px_y(r, 11, &m.sy)?;
            let lw = ranged(Rat::whole(6).mul(&m.sc))?;
            draw_overlay_line(out, r, y, lw, Color::Border)?;
        } else {
            let y = exec_px_y(r, 8, &m.sy)?;
            draw_overlay_line(out, r, y, one_scale, Color::AuxLine)?;
        }
    }
    let ghost s_line1 = out@;
    // second separator line
    let second = match k {
        EntityKind::Complex => false,
        _ => u_info_label.is_some(),
    };
    if second {
        if k == EntityKind::PerturbingAgent {
            let y = exec_px_y(r, 56, &m.sy)?;
            draw_overlay_line(out, r, y, one_scale, Color::AuxLine)?;
        } else {
            let y = exec_px_y(r, 52, &m.sy)?;
            draw_overlay_line(out, r, y, one_scale, Color::AuxLine)?;
        }
    }
    let ghost s_line2 = out@;
    // unit of information box
    if let Some(lab) = u_info_label {
        let pad = ranged(Rat::whole(5).mul(&m.sc))?;
        match k {
            EntityKind::SimpleChemical => {
                let x = exec_px_x(r, 12, &m.sx)?;
                let y = exec_px_y(r, 0, &m.sy)?;
                draw_unit_info(out, x, y, m.u_info_height, lab, m.border_width, m.font_px, pad);
            },
            EntityKind::UnspecifiedEntity | EntityKind::Macromolecule
                | EntityKind::NucleicAcidFeature => {
                let x = exec_px_x(r, 20, &m.sx)?;
                let y = exec_px_y(r, 44, &m.sy)?;
                draw_unit_info(out, x, y, m.u_info_height, lab, m.border_width, m.font_px, pad);
            },
            EntityKind::Complex => {
                let x = ranged(r.x0.add(&ranged(r.w.mul(&Rat::frac(25, 100)))?))?;
                let ch = ranged(
                    ranged(Rat::whole(24).mul(&m.sy))?.sub(&ranged(Rat::whole(3).mul(&m.sy))?),
                )?;
                draw_unit_info(out, x, r.y0, ch, lab, m.border_width, m.font_px, pad);
            },
            EntityKind::PerturbingAgent => {
                let x = exec_px_x(r, 20, &m.sx)?;
                draw_unit_info(out, x, r.y0, m.u_info_height, lab, m.border_width, m.font_px, pad);
            },
        }
    }
    let ghost s_ubox = out@;
    // state variable box
    if let Some(lab) = s_var_label {
        let pad = ranged(Rat::whole(10).mul(&m.sc))?;
        let min_w = ranged(Rat::whole(30).mul(&m.sc))?;
        match k {
            EntityKind::UnspecifiedEntity | EntityKind::Macromolecule
                | EntityKind::NucleicAcidFeature => {
                let x = exec_px_x(r, 40, &m.sx)?;
                draw_state_var(
                    out,
                    x,
                    r.y0,
                    m.u_info_height,
                    lab,
                    m.border_width,
                    m.font_px,
                    pad,
                    min_w,
                );
            },
            EntityKind::Complex => {
                let x = ranged(r.x0.add(&ranged(r.w.mul(&Rat::frac(88, 100)))?))?;
                let ch = ranged(
                    ranged(Rat::whole(24).mul(&m.sy))?.sub(&ranged(Rat::whole(3).mul(&m.sy))?),
                )?;
                draw_state_var(out, x, r.y0, ch, lab, m.border_width, m.font_px, pad, min_w);
            },
            _ => {},
        }
    }
    proof {
        assert(cmd_views(out@) =~= cmd_views(s0) + aux_items_v(k, r@, uv, sv));
    }
    Ok(())
}

// --- the full entity-pool node ---

/// The shape family of each entity-pool class.
pub open spec fn pool_shape_kind(k: EntityKind) -> ShapeKind {
    match k {
        EntityKind::SimpleChemical => ShapeKind::Ellipse,
        EntityKind::UnspecifiedEntity => ShapeKind::Ellipse,
        EntityKind::Macromolecule => ShapeKind::RoundRect,
        EntityKind::NucleicAcidFeature => ShapeKind::RoundBottom,
        EntityKind::Complex => ShapeKind::CutRect,
        EntityKind::PerturbingAgent => ShapeKind::ConcaveHexagon,
    }
}

/// The ghost rectangle of a multimer: the node's rectangle shifted by the
/// class's tabulated reference offset, scaled to the actual dimensions.
pub open spec fn ghost_rect_v(k: EntityKind, r: RectV) -> RectV {
    let off = ghost_offset_v(k)->0;
    RectV {
        x0: ca_add(r.x0, ca_mul(rv_c(off.0, 1), aux_scale_x(k, r))),
        y0: ca_add(r.y0, ca_mul(rv_c(off.1, 1), aux_scale_y(k, r))),
        w: r.w,
        h: r.h,
    }
}

/// The unlabeled ghost copy drawn beneath a multimer, when the class has a
/// tabulated offset.
pub open spec fn ghost_v(k: EntityKind, is_multimer: bool, r: RectV) -> Seq<CmdV> {
    if is_multimer && ghost_offset_v(k) is Some {
        shape_with_clone_v(
            pool_shape_kind(k),
            ghost_rect_v(k, r),
            Seq::empty(),
            rv_c(12, 1),
            false,
            rv_c(pool_border_width_v(k), 1),
            Some(Color::DefaultFill),
        )
    } else {
        Seq::empty()
    }
}

/// A complete entity-pool node: the multimer ghost first (beneath), then
/// the labeled base shape, then the overlays.
pub open spec fn entity_pool_node_v(
    t: TransformV,
    b: crate::geom::BBoxV,
    label: Seq<char>,
    font_px: RatV,
    k: EntityKind,
    is_multimer: bool,
    has_clone: bool,
    u: Option<Seq<char>>,
    s: Option<Seq<char>>,
) -> Seq<CmdV> {
    let r = tf_rect(t, b);
    ghost_v(k, is_multimer, r) + shape_with_clone_v(
        pool_shape_kind(k),
        r,
        label,
        font_px,
        has_clone,
        rv_c(pool_border_width_v(k), 1),
        Some(Color::DefaultFill),
    ) + aux_items_v(k, r, u, s)
}

/// Whether a whole entity-pool node stays within machine range.
pub open spec fn entity_pool_node_ok(
    t: TransformV,
    b: crate::geom::BBoxV,
    k: EntityKind,
    is_multimer: bool,
    has_clone: bool,
    u: Option<Seq<char>>,
    s: Option<Seq<char>>,
) -> bool {
    let r = tf_rect(t, b);
    let off = ghost_offset_v(k)->0;
    &&& tf_rect_ok(t, b)
    &&& (is_multimer && ghost_offset_v(k) is Some ==> {
        &&& aux_metrics_ok(k, r)
        &&& mul_ok(rv_c(off.0, 1), aux_scale_x(k, r))
        &&& add_ok(r.x0, ca_mul(rv_c(off.0, 1), aux_scale_x(k, r)))
        &&& mul_ok(rv_c(off.1, 1), aux_scale_y(k, r))
        &&& add_ok(r.y0, ca_mul(rv_c(off.1, 1), aux_scale_y(k, r)))
        &&& shape_with_clone_ok(pool_shape_kind(k), ghost_rect_v(k, r), false)
    })
    &&& shape_with_clone_ok(pool_shape_kind(k), r, has_clone)
    &&& aux_items_ok(k, r, u, s)
}

/// Draw an entity-pool node: ghost for multimers, base shape, overlays.
#[verifier::rlimit(100)]
pub fn draw_entity_pool_node(
    out: &mut Vec<Cmd>,
    t: &Transform,
    b: &BBox,
    label: &str,
    font_px: Rat,
    k: EntityKind,
    is_multimer: bool,
    has_clone: bool,
    u_info_label: Option<&str>,
    s_var_label: Option<&str>,
) -> (res: Result<(), RenderError>)
    requires
        t.wf(),
        b.wf(),
    ensures
        res is Ok ==> appended(
            old(out)@,
            final(out)@,
            entity_pool_node_v(
                t@,
                b@,
                label@,
                font_px@,
                k,
                is_multimer,
                has_clone,
                match u_info_label {
                    Some(u) => Some(u@),
                    None => None,
                },
                match s_var_label {
                    Some(s) => Some(s@),
                    None => None,
                },
            ),
        ),
        res matches Err(e) ==> e == RenderError::NumericRange,
        res is Err <==> !entity_pool_node_ok(
            t@,
            b@,
            k,
            is_multimer,
            has_clone,
            match u_info_label {
                Some(u) => Some(u@),
                None => None,
            },
            match s_var_label {
                Some(s) => Some(s@),
                None => None,
            },
        ),
{
    let ghost s0 = out@;
    let ghost uv: Option<Seq<char>> = match u_info_label {
        Some(u) => Some(u@),
        None => None,
    };
    let ghost sv: Option<Seq<char>> = match s_var_label {
        Some(s) => Some(s@),
        None => None,
    };
    let rect = bbox_pixel_rect(t, b)?;
    let border_width = pool_border_width(k);
    if is_multimer {
        if let Some((gdx, gdy)) = ghost_offset(k) {
            let m = aux_metrics(k, &rect)?;
            let gx = ranged(rect.x0.add(&ranged(gdx.mul(&m.sx))?))?;
            let gy = ranged(rect.y0.add(&ranged(gdy.mul(&m.sy))?))?;
            let ghost_rect = Rect { x0: gx, y0: gy, w: rect.w, h: rect.h };
            draw_shape_with_clone(
                out,
                pool_shape_kind_exec(k),
                &ghost_rect,
                "",
                Rat::whole(12),
                false,
                border_width,
                Some(Color::DefaultFill),
            )?;
            proof {
                reveal_strlit("");
                assert(""@ =~= Seq::<char>::empty());
            }
        }
    }
    draw_shape_with_clone(
        out,
        pool_shape_kind_exec(k),
        &rect,
        label,
        font_px,
        has_clone,
        border_width,
        Some(Color::DefaultFill),
    )?;
    draw_entity_pool_aux_items(out, &rect, k, u_info_label, s_var_label)?;
    proof {
        assert(cmd_views(out@) =~= cmd_views(s0) + entity_pool_node_v(
            t@,
            b@,
            label@,
            font_px@,
            k,
            is_multimer,
            has_clone,
            uv,
            sv,
        ));
    }
    Ok(())
}

/// The executable shape dispatch for entity-pool classes.
pub fn pool_shape_kind_exec(k: EntityKind) -> (r: ShapeKind)
    ensures
        r == pool_shape_kind(k),
{
    match k {
        EntityKind::SimpleChemical => ShapeKind::Ellipse,
        EntityKind::UnspecifiedEntity => ShapeKind::Ellipse,
        EntityKind::Macromolecule => ShapeKind::RoundRect,
        EntityKind::NucleicAcidFeature => ShapeKind::RoundBottom,
        EntityKind::Complex => ShapeKind::CutRect,
        EntityKind::PerturbingAgent => ShapeKind::ConcaveHexagon,
    }
}


// --- stated properties of the overlays ---

/// One axis of the ghost displacement: adding a reference offset scaled by
/// `w / refd` and subtracting the origin again leaves exactly that scaled
/// offset.
proof fn lemma_axis_offset(x0: RatV, off: int, w: RatV, refd: int)
    requires
        rv_wf(x0),
        rv_wf(w),
        refd > 0,
    ensures
        rv_eq(
            rv_sub(ca_add(x0, ca_mul(rv_c(off, 1), ca_div(w, rv_c(refd, 1)))), x0),
            rv_mul(rv_c(off, 1), rv_div(w, rv_c(refd, 1))),
        ),
{
    let refv = rv_c(refd, 1);
    let s1 = rv_div(w, refv);
    lemma_rv_wf_ops(w, refv);
    let sx = rv_canon(s1);
    lemma_canon(s1);
    let offv = rv_c(off, 1);
    let m1 = rv_mul(offv, sx);
    lemma_rv_wf_ops(offv, sx);
    let mc = rv_canon(m1);
    lemma_canon(m1);
    lemma_mul_cong(offv, offv, sx, s1);
    lemma_rv_wf_ops(offv, s1);
    lemma_rv_eq_trans(mc, m1, rv_mul(offv, s1));
    let a1 = rv_add(x0, mc);
    lemma_rv_wf_ops(x0, mc);
    let ac = rv_canon(a1);
    lemma_canon(a1);
    lemma_sub_cong(ac, a1, x0, x0);
    lemma_add_sub_cancel(x0, mc);
    lemma_rv_wf_ops(a1, x0);
    lemma_rv_wf_ops(ac, x0);
    lemma_rv_eq_trans(rv_sub(ac, x0), rv_sub(a1, x0), mc);
    lemma_rv_eq_trans(rv_sub(ac, x0), mc, rv_mul(offv, s1));
}

/// The multimer ghost sits at exactly the class's tabulated reference
/// offset, scaled by the ratio of the node's actual to reference
/// dimensions, and keeps the node's size; within an entity-pool node the
/// ghost's commands come strictly before the primary shape's.
pub proof fn lemma_multimer_ghost_offset(k: EntityKind, r: RectV)
    requires
        rect_wf_v(r),
        ghost_offset_v(k) is Some,
    ensures
        rv_eq(
            rv_sub(ghost_rect_v(k, r).x0, r.x0),
            rv_mul(rv_c((ghost_offset_v(k)->0).0, 1), rv_div(r.w, rv_c(ref_dims_v(k).0, 1))),
        ),
        rv_eq(
            rv_sub(ghost_rect_v(k, r).y0, r.y0),
            rv_mul(rv_c((ghost_offset_v(k)->0).1, 1), rv_div(r.h, rv_c(ref_dims_v(k).1, 1))),
        ),
        ghost_rect_v(k, r).w == r.w,
        ghost_rect_v(k, r).h == r.h,
{
    lemma_axis_offset(r.x0, (ghost_offset_v(k)->0).0, r.w, ref_dims_v(k).0);
    lemma_axis_offset(r.y0, (ghost_offset_v(k)->0).1, r.h, ref_dims_v(k).1);
}

/// Within an entity-pool multimer, the ghost is drawn strictly before
/// (beneath) the primary shape: the node's command sequence opens with
/// exactly the ghost's commands.
pub proof fn lemma_ghost_drawn_first(
    t: crate::transform::TransformV,
    b: crate::geom::BBoxV,
    label: Seq<char>,
    font_px: RatV,
    k: EntityKind,
    has_clone: bool,
    u: Option<Seq<char>>,
    s: Option<Seq<char>>,
)
    requires
        ghost_offset_v(k) is Some,
    ensures
        ({
            let whole = entity_pool_node_v(t, b, label, font_px, k, true, has_clone, u, s);
            let g = ghost_v(k, true, tf_rect(t, b));
            whole.len() >= g.len() && whole.subrange(0, g.len() as int) == g
        }),
{
    let whole = entity_pool_node_v(t, b, label, font_px, k, true, has_clone, u, s);
    let g = ghost_v(k, true, tf_rect(t, b));
    assert(whole.subrange(0, g.len() as int) =~= g);
}

/// The separator lines appear exactly as the presence table dictates: each
/// line contributes its eight commands, the boxes one command each, and
/// nothing else is drawn.
pub proof fn lemma_separator_presence(
    k: EntityKind,
    r: RectV,
    u: Option<Seq<char>>,
    s: Option<Seq<char>>,
)
    ensures
        aux_items_v(k, r, u, s).len() == (if aux_sep_first_present(k, u is Some, s is Some) {
            8int
        } else {
            0int
        }) + (if aux_sep_second_present(k, u is Some, s is Some) {
            8int
        } else {
            0int
        }) + (if u is Some {
            1int
        } else {
            0int
        }) + (if s is Some && (k == EntityKind::UnspecifiedEntity || k == EntityKind::Macromolecule
            || k == EntityKind::NucleicAcidFeature || k == EntityKind::Complex) {
            1int
        } else {
            0int
        }),
{
}

} // verus!
