//! The arc renderer: a stroked polyline through the pixel points, then one
//! class-keyed terminal decoration anchored at the final point.

use vstd::prelude::*;

verus! {

use crate::rat::{Rat, RatV, rv_c, rv_eq, rv_max, ca_mul, mul_ok};
use crate::geom::{Pt, PtV, RenderError, ranged};
use crate::cmd::{Cmd, CmdV, Color, cmd_views, appended, emit};
use crate::text::str_eqs;

/// The final segment has no direction: its two points coincide in value.
pub open spec fn degenerate_pair(endp: PtV, prev: PtV) -> bool {
    rv_eq(endp.x, prev.x) && rv_eq(endp.y, prev.y)
}

/// A stroked, unfilled arrowhead, skipped on a degenerate segment.
pub open spec fn open_triangle_v(endp: PtV, prev: PtV, size: RatV) -> Seq<CmdV> {
    if degenerate_pair(endp, prev) {
        Seq::empty()
    } else {
        seq![CmdV::OpenTriangle(endp, prev, size)]
    }
}

/// A white-filled, stroked arrowhead, skipped on a degenerate segment.
pub open spec fn opaque_triangle_v(endp: PtV, prev: PtV, size: RatV) -> Seq<CmdV> {
    if degenerate_pair(endp, prev) {
        Seq::empty()
    } else {
        seq![CmdV::OpaqueTriangle(endp, prev, size)]
    }
}

/// A solid arrowhead, skipped on a degenerate segment.
pub open spec fn filled_triangle_v(endp: PtV, prev: PtV, size: RatV) -> Seq<CmdV> {
    if degenerate_pair(endp, prev) {
        Seq::empty()
    } else {
        seq![CmdV::FilledTriangle(endp, prev, size)]
    }
}

/// A perpendicular bar, skipped on a degenerate segment.
pub open spec fn bar_v(endp: PtV, prev: PtV, length: RatV, offset: RatV) -> Seq<CmdV> {
    if degenerate_pair(endp, prev) {
        Seq::empty()
    } else {
        seq![CmdV::Bar { tip: endp, back: prev, length, offset }]
    }
}

/// The catalysis dot: pulled back along the segment so it overlaps the line
/// end by half its radius, skipped on a degenerate segment.
pub open spec fn tangent_circle_v(endp: PtV, prev: PtV, radius: RatV) -> Seq<CmdV> {
    if degenerate_pair(endp, prev) {
        Seq::empty()
    } else {
        seq![CmdV::TangentCircle(endp, prev, radius)]
    }
}

/// A stroked circle centered exactly on the endpoint, radius at least one,
/// skipped on a degenerate segment.
pub open spec fn open_circle_v(endp: PtV, prev: PtV, radius: RatV) -> Seq<CmdV> {
    if degenerate_pair(endp, prev) {
        Seq::empty()
    } else {
        seq![CmdV::OpenCircle(endp, rv_max(radius, rv_c(1, 1)))]
    }
}

/// The terminal decoration of an arc class, anchored at the final point and
/// oriented along the segment from the second-to-last point.
pub open spec fn arc_decoration_v(
    class: Seq<char>,
    endp: PtV,
    prev: PtV,
    arrow_size: RatV,
    bar_length: RatV,
    bar_offset: RatV,
) -> Seq<CmdV> {
    if class == "assignment"@ || class == "unknown influence"@ {
        open_triangle_v(endp, prev, arrow_size)
    } else if class == "positive influence"@ || class == "stimulation"@ {
        opaque_triangle_v(endp, prev, arrow_size)
    } else if class == "production"@ {
        filled_triangle_v(endp, prev, arrow_size)
    } else if class == "negative influence"@ || class == "inhibition"@ {
        bar_v(endp, prev, bar_length, rv_c(0, 1))
    } else if class == "absolute inhibition"@ {
        bar_v(endp, prev, bar_length, rv_c(0, 1)) + bar_v(endp, prev, bar_length, bar_offset)
    } else if class == "necessary stimulation"@ {
        bar_v(endp, prev, bar_length, bar_offset) + opaque_triangle_v(endp, prev, arrow_size)
    } else if class == "catalysis"@ {
        tangent_circle_v(endp, prev, ca_mul(arrow_size, rv_c(2, 5)))
    } else if class == "equivalence arc"@ {
        open_circle_v(endp, prev, ca_mul(arrow_size, rv_c(2, 5)))
    } else {
        Seq::empty()
    }
}

/// The polyline segments through the first `i + 1` points.
pub open spec fn segments_upto(pts: Seq<PtV>, i: int) -> Seq<CmdV>
    decreases i,
{
    if i <= 0 {
        Seq::empty()
    } else {
        segments_upto(pts, i - 1) + seq![
            CmdV::MoveTo(pts[i - 1]),
            CmdV::LineTo(pts[i]),
            CmdV::Stroke,
        ]
    }
}

/// A whole arc: border paint, the stroked polyline, and the decoration.
/// Fewer than two points draw nothing at all.
pub open spec fn arc_v(
    class: Seq<char>,
    pts: Seq<PtV>,
    arrow_size: RatV,
    bar_length: RatV,
    bar_offset: RatV,
) -> Seq<CmdV> {
    if pts.len() < 2 {
        Seq::empty()
    } else {
        seq![CmdV::SetColor(Color::Border), CmdV::SetLineWidth(rv_c(3, 2))] + segments_upto(
            pts,
            pts.len() - 1,
        ) + arc_decoration_v(
            class,
            pts[pts.len() - 1],
            pts[pts.len() - 2],
            arrow_size,
            bar_length,
            bar_offset,
        )
    }
}

/// Whether drawing an arc stays within machine range: only the circle
/// decorations compute a scaled radius; everything else is exact as given.
pub open spec fn draw_arc_ok(class: Seq<char>, pts: Seq<PtV>, arrow_size: RatV) -> bool {
    if pts.len() < 2 {
        true
    } else if class == "assignment"@ || class == "unknown influence"@ {
        true
    } else if class == "positive influence"@ || class == "stimulation"@ {
        true
    } else if class == "production"@ {
        true
    } else if class == "negative influence"@ || class == "inhibition"@ {
        true
    } else if class == "absolute inhibition"@ {
        true
    } else if class == "necessary stimulation"@ {
        true
    } else if class == "catalysis"@ {
        mul_ok(arrow_size, rv_c(2, 5))
    } else if class == "equivalence arc"@ {
        mul_ok(arrow_size, rv_c(2, 5))
    } else {
        true
    }
}

/// Whether two points coincide in value.
fn pts_equal(a: &Pt, b: &Pt) -> (r: bool)
    requires
        a.wf(),
        b.wf(),
    ensures
        r == degenerate_pair(a@, b@),
{
    a.x.eq_val(&b.x) && a.y.eq_val(&b.y)
}

/// Draw one arc: its polyline and its class-keyed terminal decoration.
#[verifier::rlimit(100)]
pub fn draw_arc(
    out: &mut Vec<Cmd>,
    points: &Vec<Pt>,
    class_name: &str,
    arrow_size: Rat,
    bar_length: Rat,
    bar_offset: Rat,
) -> (res: Result<(), RenderError>)
    requires
        forall|i: int| 0 <= i < points@.len() ==> (#[trigger] points@[i]).wf(),
        arrow_size.wf(),
        bar_length.wf(),
        bar_offset.wf(),
    ensures
        res is Ok ==> appended(
            old(out)@,
            final(out)@,
            arc_v(
                class_name@,
                points@.map_values(|p: Pt| p@),
                arrow_size@,
                bar_length@,
                bar_offset@,
            ),
        ),
        res matches Err(e) ==> e == RenderError::NumericRange,
        res is Err <==> !draw_arc_ok(class_name@, points@.map_values(|p: Pt| p@), arrow_size@),
{
    let ghost s0 = out@;
    let ghost pv = points@.map_values(|p: Pt| p@);
    if points.len() < 2 {
        proof {
            assert(cmd_views(s0) =~= cmd_views(s0) + Seq::<CmdV>::empty());
        }
        return Ok(());
    }
    emit(out, Cmd::SetColor(Color::Border));
    emit(out, Cmd::SetLineWidth(Rat::frac(3, 2)));
    let ghost s_head = out@;
    let mut i: usize = 0;
    while i < points.len() - 1
        invariant
            points@.len() >= 2,
            i <= points@.len() - 1,
            pv == points@.map_values(|p: Pt| p@),
            forall|j: int| 0 <= j < points@.len() ==> (#[trigger] points@[j]).wf(),
            appended(s_head, out@, segments_upto(pv, i as int)),
        decreases points@.len() - i,
    {
        let ghost s_iter = out@;
        emit(out, Cmd::MoveTo(points[i]));
        emit(out, Cmd::LineTo(points[i + 1]));
        emit(out, Cmd::Stroke);
        proof {
            assert(cmd_views(out@) =~= cmd_views(s_head) + segments_upto(pv, i as int + 1));
        }
        i += 1;
    }
    let endp = points[points.len() - 1];
    let prev = points[points.len() - 2];
    let degenerate = pts_equal(&endp, &prev);
    if str_eqs(class_name, "assignment") || str_eqs(class_name, "unknown influence") {
        if !degenerate {
            emit(out, Cmd::OpenTriangle(endp, prev, arrow_size));
        }
    } else if str_eqs(class_name, "positive influence") || str_eqs(class_name, "stimulation") {
        if !degenerate {
            emit(out, Cmd::OpaqueTriangle(endp, prev, arrow_size));
        }
    } else if str_eqs(class_name, "production") {
        if !degenerate {
            emit(out, Cmd::FilledTriangle(endp, prev, arrow_size));
        }
    } else if str_eqs(class_name, "negative influence") || str_eqs(class_name, "inhibition") {
        if !degenerate {
            emit(out, Cmd::Bar { tip: endp, back: prev, length: bar_length, offset: Rat::whole(0) });
        }
    } else if str_eqs(class_name, "absolute inhibition") {
        if !degenerate {
            emit(out, Cmd::Bar { tip: endp, back: prev, length: bar_length, offset: Rat::whole(0) });
            emit(out, Cmd::Bar { tip: endp, back: prev, length: bar_length, offset: bar_offset });
        }
    } else if str_eqs(class_name, "necessary stimulation") {
        if !degenerate {
            emit(out, Cmd::Bar { tip: endp, back: prev, length: bar_length, offset: bar_offset });
            emit(out, Cmd::OpaqueTriangle(endp, prev, arrow_size));
        }
    } else if str_eqs(class_name, "catalysis") {
        let radius = ranged(arrow_size.mul(&Rat::frac(2, 5)))?;
        if !degenerate {
            emit(out, Cmd::TangentCircle(endp, prev, radius));
        }
    } else if str_eqs(class_name, "equivalence arc") {
        let radius = ranged(arrow_size.mul(&Rat::frac(2, 5)))?;
        if !degenerate {
            emit(out, Cmd::OpenCircle(endp, radius.max(&Rat::whole(1))));
        }
    }
    proof {
        assert(pv[pv.len() - 1] == endp@);
        assert(pv[pv.len() - 2] == prev@);
        assert(cmd_views(out@) =~= cmd_views(s0) + arc_v(
            class_name@,
            pv,
            arrow_size@,
            bar_length@,
            bar_offset@,
        ));
    }
    Ok(())
}

/// Whether a decoration command is anchored at the arc's final point with
/// its direction data taken from the final segment.
pub open spec fn cmd_anchored(c: CmdV, endp: PtV, prev: PtV) -> bool {
    match c {
        CmdV::OpenTriangle(t, b, _) => t == endp && b == prev,
        CmdV::OpaqueTriangle(t, b, _) => t == endp && b == prev,
        CmdV::FilledTriangle(t, b, _) => t == endp && b == prev,
        CmdV::Bar { tip, back, .. } => tip == endp && back == prev,
        CmdV::TangentCircle(t, b, _) => t == endp && b == prev,
        CmdV::OpenCircle(c0, _) => c0 == endp,
        _ => false,
    }
}

/// Every arc decoration is anchored at the arc's final coordinate, and its
/// direction data is exactly the final segment's point pair, so the drawn
/// decoration is parallel to it; a degenerate final pair yields no
/// decoration at all.
pub proof fn lemma_decoration_anchored(
    class: Seq<char>,
    endp: PtV,
    prev: PtV,
    arrow_size: RatV,
    bar_length: RatV,
    bar_offset: RatV,
)
    ensures
        forall|i: int|
            0 <= i < arc_decoration_v(class, endp, prev, arrow_size, bar_length, bar_offset).len()
                ==> cmd_anchored(
                #[trigger] arc_decoration_v(
                    class,
                    endp,
                    prev,
                    arrow_size,
                    bar_length,
                    bar_offset,
                )[i],
                endp,
                prev,
            ),
        degenerate_pair(endp, prev) ==> arc_decoration_v(
            class,
            endp,
            prev,
            arrow_size,
            bar_length,
            bar_offset,
        ).len() == 0,
{
}

} // verus!
