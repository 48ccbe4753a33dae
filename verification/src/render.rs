//! The render pass: the parent/child arena, the recursive glyph-tree walk,
//! the dedicated pass over absolutely-positioned overlay glyphs, and the
//! arc pass.

use vstd::prelude::*;

verus! {

use crate::rat::{Rat, RatV, rv_c};
use crate::transform::{tf_rect_ok, tf_map_pt_ok, tf_scalar_ok};
use crate::geom::{Pt, PtV, RenderError};
use crate::cmd::{Cmd, CmdV, Color, cmd_views, appended};
use crate::glyph::{
    Glyph,
    GlyphV,
    Arc,
    ArcV,
    glyph_views,
    arc_views,
    idx_views,
    first_child_label_v,
    first_child_state_label_v,
    first_child_label,
    first_child_state_label,
};
use crate::style::{
    ShapeClass,
    EntityKind,
    Orientation,
    classify_v,
    classify,
    label_override_v,
    label_override,
    label_bottom_v,
    label_bottom,
    default_horizontal_v,
    default_horizontal,
    orientation_v,
    orientation_of,
    connector_len_v,
    connector_len,
    font_px_v,
    glyph_font_px,
};
use crate::text::{is_blank, blank, str_eqs, state_var_label, state_var_label_v};
use crate::transform::{Transform, TransformV, tf_rect, tf_map_pt, tf_scalar};
use crate::node::{
    box_bbox_ok,
    square_bbox_ok,
    ellipse_bbox_filled_ok,
    double_circle_bbox_ok,
    round_rect_bbox_ok,
    hexagon_bbox_ok,
    source_sink_bbox_ok,
    barrel_bbox_ok,
    tag_bbox_ok,
    stadium_bbox_ok,
    circle_bbox_ok,
    orientation_marker_ok,
    box_bbox_v,
    draw_box_bbox,
    square_bbox_v,
    draw_square_bbox,
    ellipse_bbox_filled_v,
    draw_ellipse_bbox_filled,
    double_circle_bbox_v,
    draw_double_circle_bbox,
    round_rect_bbox_v,
    draw_round_rect_bbox,
    hexagon_bbox_v,
    draw_hexagon_bbox,
    source_sink_bbox_v,
    draw_source_sink_bbox,
    barrel_bbox_v,
    draw_barrel_bbox,
    tag_bbox_v,
    draw_tag_bbox,
    stadium_bbox_v,
    draw_stadium_bbox,
    circle_bbox_v,
    draw_circle_bbox,
    orientation_marker_v,
    draw_orientation_marker,
    text_bottom_centered_v,
    draw_text_bottom_centered,
};
use crate::overlay::{entity_pool_node_v, entity_pool_node_ok, draw_entity_pool_node};
use crate::arcs::{arc_v, draw_arc_ok, draw_arc};

// --- input well-formedness ---

/// The structural invariants of a parsed diagram: identifiers are unique,
/// and a glyph whose parent resolves appears after that parent (the order
/// the input-tree walk produces).
pub open spec fn wf_input(gs: Seq<GlyphV>) -> bool {
    &&& forall|i: int, j: int| 0 <= i < j < gs.len() ==> (#[trigger] gs[i].id) != (#[trigger] gs[j].id)
    &&& forall|i: int, j: int|
        0 <= i < gs.len() && 0 <= j < gs.len() && ((#[trigger] gs[j].parent_id) matches Some(p)
            && (#[trigger] gs[i].id) == p) ==> i < j
}

// --- the parent/child arena ---

/// The child indices of glyph `i` among the first `n` glyphs: every glyph
/// whose parent identifier equals glyph `i`'s identifier, in input order.
pub open spec fn children_upto(gs: Seq<GlyphV>, i: int, n: int) -> Seq<int>
    decreases n,
{
    if n <= 0 {
        Seq::empty()
    } else {
        children_upto(gs, i, n - 1) + (if gs[n - 1].parent_id == Some(gs[i].id) {
            seq![n - 1]
        } else {
            Seq::empty()
        })
    }
}

/// All child indices of glyph `i`.
pub open spec fn children_of(gs: Seq<GlyphV>, i: int) -> Seq<int> {
    children_upto(gs, i, gs.len() as int)
}

/// Every child index of a well-formed input lies strictly between its
/// parent's index and the glyph count.
pub proof fn lemma_children_bounds(gs: Seq<GlyphV>, i: int, n: int)
    requires
        wf_input(gs),
        0 <= i < gs.len(),
        n <= gs.len(),
    ensures
        forall|k: int|
            0 <= k < children_upto(gs, i, n).len() ==> i < #[trigger] children_upto(gs, i, n)[k]
                < gs.len(),
    decreases n,
{
    if n > 0 {
        lemma_children_bounds(gs, i, n - 1);
        let prev = children_upto(gs, i, n - 1);
        let cur = children_upto(gs, i, n);
        if gs[n - 1].parent_id == Some(gs[i].id) {
            assert(i < n - 1);
            assert forall|k: int| 0 <= k < cur.len() implies i < #[trigger] cur[k] < gs.len() by {
                if k < prev.len() {
                    assert(cur[k] == prev[k]);
                } else {
                    assert(cur[k] == n - 1);
                }
            }
        } else {
            assert(cur =~= prev);
        }
    }
}

/// Build the parent-to-children side table: one ordered child index list
/// per glyph.
pub fn build_children(glyphs: &Vec<Glyph>) -> (res: Vec<Vec<usize>>)
    ensures
        res@.len() == glyphs@.len(),
        forall|i: int|
            0 <= i < glyphs@.len() ==> idx_views(#[trigger] res@[i]@) == children_of(
                glyph_views(glyphs@),
                i,
            ),
{
    let ghost gv = glyph_views(glyphs@);
    let n = glyphs.len();
    let mut res: Vec<Vec<usize>> = Vec::new();
    let mut i: usize = 0;
    while i < n
        invariant
            i <= n,
            n == glyphs@.len(),
            gv == glyph_views(glyphs@),
            res@.len() == i,
            forall|a: int|
                0 <= a < i ==> idx_views(#[trigger] res@[a]@) == children_of(gv, a),
        decreases n - i,
    {
        let mut kids: Vec<usize> = Vec::new();
        let mut j: usize = 0;
        while j < n
            invariant
                j <= n,
                i < n,
                n == glyphs@.len(),
                gv == glyph_views(glyphs@),
                idx_views(kids@) == children_upto(gv, i as int, j as int),
            decreases n - j,
        {
            let is_child = match glyphs[j].parent_id {
                Some(ref p) => str_eqs(p.as_str(), glyphs[i].id.as_str()),
                None => false,
            };
            if is_child {
                kids.push(j);
                proof {
                    assert(idx_views(kids@) =~= children_upto(gv, i as int, j as int + 1));
                }
            } else {
                proof {
                    assert(idx_views(kids@) =~= children_upto(gv, i as int, j as int + 1));
                }
            }
            j += 1;
        }
        res.push(kids);
        i += 1;
    }
    res
}

// --- per-glyph derived values ---

/// The label a glyph is drawn with: the class's fixed override when there
/// is one, else the glyph's own label; a state variable with a blank label
/// synthesizes one from its state value and variable.
pub open spec fn node_label(g: GlyphV) -> Seq<char> {
    let l0 = match label_override_v(g.class_name) {
        Some(l) => l,
        None => g.label,
    };
    if g.class_name == "state variable"@ && is_blank(l0) {
        state_var_label_v(g.state_value, g.state_variable)
    } else {
        l0
    }
}

/// Whether some child of the given class carries its own bounding box (it
/// is then rendered independently, not synthesized as an overlay).
pub open spec fn any_child_with_bbox(gs: Seq<GlyphV>, ch: Seq<int>, name: Seq<char>) -> bool {
    exists|k: int|
        0 <= k < ch.len() && 0 <= ch[k] < gs.len() && (#[trigger] gs[ch[k]]).class_name == name
            && gs[ch[k]].bbox is Some
}

/// The overlay label of the first "unit of information" child, unless some
/// such child is absolutely positioned.
pub open spec fn u_info_overlay(gs: Seq<GlyphV>, ch: Seq<int>) -> Option<Seq<char>> {
    if any_child_with_bbox(gs, ch, "unit of information"@) {
        None
    } else {
        first_child_label_v(gs, ch, "unit of information"@)
    }
}

/// The overlay label of the first "state variable" child, unless some such
/// child is absolutely positioned.
pub open spec fn s_var_overlay(gs: Seq<GlyphV>, ch: Seq<int>) -> Option<Seq<char>> {
    if any_child_with_bbox(gs, ch, "state variable"@) {
        None
    } else {
        first_child_state_label_v(gs, ch, "state variable"@)
    }
}

/// The orientation a glyph's tick-marks use: its own tag when present,
/// else horizontal for the classes that default to it, else none.
pub open spec fn glyph_orientation(g: GlyphV) -> Option<Orientation> {
    match g.orientation {
        Some(o) => Some(orientation_v(o)),
        None => if default_horizontal_v(g.class_name) {
            Some(Orientation::Horizontal)
        } else {
            None
        },
    }
}

/// The class-keyed shape commands of one glyph.
pub open spec fn glyph_shape_v(
    gs: Seq<GlyphV>,
    ch: Seq<int>,
    t: TransformV,
    show_clone_markers: bool,
    i: int,
) -> Seq<CmdV> {
    let g = gs[i];
    let b = g.bbox->0;
    let label = node_label(g);
    let font = rv_c(font_px_v(g.class_name), 1);
    let has_clone = show_clone_markers && g.has_clone;
    let bottom = label_bottom_v(g.class_name);
    let shape_label: Seq<char> = if bottom {
        Seq::empty()
    } else {
        label
    };
    let u = u_info_overlay(gs, ch);
    let s = s_var_overlay(gs, ch);
    match classify_v(g.class_name) {
        ShapeClass::Hexagon => hexagon_bbox_v(t, b, shape_label, font, false),
        ShapeClass::EntityPool(k, multimer) => {
            let s_used: Option<Seq<char>> = match k {
                EntityKind::SimpleChemical => None,
                EntityKind::PerturbingAgent => None,
                _ => s,
            };
            entity_pool_node_v(t, b, shape_label, font, k, multimer, has_clone, u, s_used)
        },
        ShapeClass::SourceSink => source_sink_bbox_v(t, b, has_clone),
        ShapeClass::Compartment => barrel_bbox_v(t, b, shape_label, font, has_clone),
        ShapeClass::Tag => tag_bbox_v(t, b, shape_label, font, has_clone),
        ShapeClass::Association => ellipse_bbox_filled_v(
            t,
            b,
            shape_label,
            font,
            Color::AssociationFill,
        ),
        ShapeClass::Dissociation => double_circle_bbox_v(t, b, shape_label, font),
        ShapeClass::Process => square_bbox_v(t, b, shape_label, font, false),
        ShapeClass::UnitInfo => round_rect_bbox_v(t, b, shape_label, font, false),
        ShapeClass::StateVar => stadium_bbox_v(t, b, shape_label, font, false),
        ShapeClass::Logical => circle_bbox_v(t, b, shape_label, font),
        ShapeClass::Plain => box_bbox_v(t, b, shape_label, font, false),
    }
}

/// The orientation tick-mark commands of one glyph.
pub open spec fn glyph_marker_v(gs: Seq<GlyphV>, t: TransformV, i: int) -> Seq<CmdV> {
    let g = gs[i];
    let b = g.bbox->0;
    match glyph_orientation(g) {
        Some(o) => orientation_marker_v(
            t,
            b,
            o,
            tf_scalar(t, rv_c(connector_len_v(g.class_name), 1)),
        ),
        None => Seq::empty(),
    }
}

/// The bottom-anchored label commands of one glyph, for the classes that
/// place their label at the bottom of the shape.
pub open spec fn glyph_bottom_label_v(gs: Seq<GlyphV>, t: TransformV, i: int) -> Seq<CmdV> {
    let g = gs[i];
    let b = g.bbox->0;
    if label_bottom_v(g.class_name) {
        text_bottom_centered_v(tf_rect(t, b), node_label(g), rv_c(font_px_v(g.class_name), 1))
    } else {
        Seq::empty()
    }
}

/// The commands of one glyph's own drawing (no children): the class-keyed
/// shape, the orientation tick-marks, and the bottom-anchored label.
pub open spec fn glyph_node_v(
    gs: Seq<GlyphV>,
    ch: Seq<int>,
    t: TransformV,
    show_clone_markers: bool,
    i: int,
) -> Seq<CmdV> {
    glyph_shape_v(gs, ch, t, show_clone_markers, i) + glyph_marker_v(gs, t, i)
        + glyph_bottom_label_v(gs, t, i)
}

/// Whether one glyph's class-keyed shape stays within machine range.
pub open spec fn glyph_shape_ok(
    gs: Seq<GlyphV>,
    ch: Seq<int>,
    t: TransformV,
    show_clone_markers: bool,
    i: int,
) -> bool {
    let g = gs[i];
    let b = g.bbox->0;
    let has_clone = show_clone_markers && g.has_clone;
    let u = u_info_overlay(gs, ch);
    let s = s_var_overlay(gs, ch);
    match classify_v(g.class_name) {
        ShapeClass::Hexagon => hexagon_bbox_ok(t, b, false),
        ShapeClass::EntityPool(k, multimer) => {
            let s_used: Option<Seq<char>> = match k {
                EntityKind::SimpleChemical => None,
                EntityKind::PerturbingAgent => None,
                _ => s,
            };
            entity_pool_node_ok(t, b, k, multimer, has_clone, u, s_used)
        },
        ShapeClass::SourceSink => source_sink_bbox_ok(t, b, has_clone),
        ShapeClass::Compartment => barrel_bbox_ok(t, b, has_clone),
        ShapeClass::Tag => tag_bbox_ok(t, b, has_clone),
        ShapeClass::Association => ellipse_bbox_filled_ok(t, b),
        ShapeClass::Dissociation => double_circle_bbox_ok(t, b),
        ShapeClass::Process => square_bbox_ok(t, b, false),
        ShapeClass::UnitInfo => round_rect_bbox_ok(t, b, false),
        ShapeClass::StateVar => stadium_bbox_ok(t, b, false),
        ShapeClass::Logical => circle_bbox_ok(t, b),
        ShapeClass::Plain => box_bbox_ok(t, b, false),
    }
}

/// Whether one glyph's orientation tick-marks stay within machine range.
pub open spec fn glyph_marker_ok(gs: Seq<GlyphV>, t: TransformV, i: int) -> bool {
    let g = gs[i];
    let b = g.bbox->0;
    match glyph_orientation(g) {
        Some(o) => tf_scalar_ok(t, rv_c(connector_len_v(g.class_name), 1))
            && orientation_marker_ok(
            t,
            b,
            o,
            tf_scalar(t, rv_c(connector_len_v(g.class_name), 1)),
        ),
        None => true,
    }
}

/// Whether one glyph's bottom label stays within machine range.
pub open spec fn glyph_bottom_ok(gs: Seq<GlyphV>, t: TransformV, i: int) -> bool {
    label_bottom_v(gs[i].class_name) ==> tf_rect_ok(t, gs[i].bbox->0)
}

/// Whether one glyph's own drawing stays within machine range.
pub open spec fn glyph_node_ok(
    gs: Seq<GlyphV>,
    ch: Seq<int>,
    t: TransformV,
    show_clone_markers: bool,
    i: int,
) -> bool {
    &&& glyph_shape_ok(gs, ch, t, show_clone_markers, i)
    &&& glyph_marker_ok(gs, t, i)
    &&& glyph_bottom_ok(gs, t, i)
}

// --- the recursive tree walk ---

/// The commands of a glyph and its structural subtree.  A glyph without a
/// bounding box draws nothing and its subtree is not visited.  Children of
/// the overlay classes are skipped: they were consumed as overlays or are
/// drawn in the dedicated absolute pass.
pub open spec fn render_tree_v(
    gs: Seq<GlyphV>,
    t: TransformV,
    show_clone_markers: bool,
    i: int,
) -> Seq<CmdV>
    decreases gs.len() - i, children_of(gs, i).len() + 1,
{
    if i < 0 || i >= gs.len() {
        Seq::empty()
    } else if gs[i].bbox is None {
        Seq::empty()
    } else {
        let ch = children_of(gs, i);
        glyph_node_v(gs, ch, t, show_clone_markers, i) + render_children_v(
            gs,
            t,
            show_clone_markers,
            i,
            ch,
            ch.len() as int,
        )
    }
}

/// The commands of the first `k` children of glyph `i`, in order.
pub open spec fn render_children_v(
    gs: Seq<GlyphV>,
    t: TransformV,
    show_clone_markers: bool,
    i: int,
    ch: Seq<int>,
    k: int,
) -> Seq<CmdV>
    decreases gs.len() - i, k,
{
    if k <= 0 || k > ch.len() {
        Seq::empty()
    } else {
        let c = ch[k - 1];
        render_children_v(gs, t, show_clone_markers, i, ch, k - 1) + (if i < c < gs.len() {
            if gs[c].class_name == "unit of information"@ || gs[c].class_name
                == "state variable"@ {
                Seq::empty()
            } else {
                render_tree_v(gs, t, show_clone_markers, c)
            }
        } else {
            Seq::empty()
        })
    }
}

/// Whether one child step of the walk stays within machine range: out-of-
/// order or overlay-class children contribute nothing.
pub open spec fn child_step_ok(
    gs: Seq<GlyphV>,
    t: TransformV,
    show_clone_markers: bool,
    i: int,
    ch: Seq<int>,
    k: int,
) -> bool
    decreases gs.len() - i, 0int,
{
    if 0 <= k < ch.len() {
        let c = ch[k];
        if i < c < gs.len() {
            if gs[c].class_name == "unit of information"@ || gs[c].class_name
                == "state variable"@ {
                true
            } else {
                render_tree_ok(gs, t, show_clone_markers, c)
            }
        } else {
            true
        }
    } else {
        true
    }
}

/// Whether a glyph and its whole subtree stay within machine range.
pub open spec fn render_tree_ok(
    gs: Seq<GlyphV>,
    t: TransformV,
    show_clone_markers: bool,
    i: int,
) -> bool
    decreases gs.len() - i, children_of(gs, i).len() + 2,
{
    if i < 0 || i >= gs.len() {
        true
    } else if gs[i].bbox is None {
        true
    } else {
        let ch = children_of(gs, i);
        glyph_node_ok(gs, ch, t, show_clone_markers, i) && render_children_ok(
            gs,
            t,
            show_clone_markers,
            i,
            ch,
            ch.len() as int,
        )
    }
}

/// Whether the first `k` children of glyph `i` stay within machine range.
pub open spec fn render_children_ok(
    gs: Seq<GlyphV>,
    t: TransformV,
    show_clone_markers: bool,
    i: int,
    ch: Seq<int>,
    k: int,
) -> bool
    decreases gs.len() - i, k + 1,
{
    if k <= 0 || k > ch.len() {
        true
    } else {
        render_children_ok(gs, t, show_clone_markers, i, ch, k - 1) && child_step_ok(
            gs,
            t,
            show_clone_markers,
            i,
            ch,
            k - 1,
        )
    }
}

/// One failing child step refutes the whole prefix that contains it.
proof fn lemma_children_ok_prefix(
    gs: Seq<GlyphV>,
    t: TransformV,
    show_clone_markers: bool,
    i: int,
    ch: Seq<int>,
    k: int,
    n: int,
)
    requires
        0 <= k < n <= ch.len(),
        !child_step_ok(gs, t, show_clone_markers, i, ch, k),
    ensures
        !render_children_ok(gs, t, show_clone_markers, i, ch, n),
    decreases n,
{
    if k < n - 1 {
        lemma_children_ok_prefix(gs, t, show_clone_markers, i, ch, k, n - 1);
    }
}

/// Whether some child of the given class carries its own bounding box.
fn child_with_bbox(glyphs: &Vec<Glyph>, children: &Vec<usize>, name: &str) -> (r: bool)
    requires
        forall|k: int| 0 <= k < children@.len() ==> #[trigger] children@[k] < glyphs@.len(),
    ensures
        r == any_child_with_bbox(glyph_views(glyphs@), idx_views(children@), name@),
{
    let ghost gv = glyph_views(glyphs@);
    let ghost cv = idx_views(children@);
    let mut k: usize = 0;
    while k < children.len()
        invariant
            k <= children@.len(),
            gv == glyph_views(glyphs@),
            cv == idx_views(children@),
            forall|j: int| 0 <= j < children@.len() ==> #[trigger] children@[j] < glyphs@.len(),
            forall|j: int|
                0 <= j < k ==> !((#[trigger] gv[cv[j]]).class_name == name@ && gv[cv[j]].bbox
                    is Some),
        decreases children@.len() - k,
    {
        let c = children[k];
        if str_eqs(glyphs[c].class_name.as_str(), name) && glyphs[c].bbox.is_some() {
            proof {
                assert(cv[k as int] == c as int);
                assert(gv[c as int] == glyphs@[c as int]@);
            }
            return true;
        }
        k += 1;
    }
    false
}

/// Draw one glyph's own shape, orientation tick-marks and bottom label.
#[verifier::rlimit(100)]
fn draw_glyph_node(
    out: &mut Vec<Cmd>,
    glyphs: &Vec<Glyph>,
    children: &Vec<usize>,
    t: &Transform,
    show_clone_markers: bool,
    i: usize,
    b: &crate::geom::BBox,
) -> (res: Result<(), RenderError>)
    requires
        i < glyphs@.len(),
        forall|j: int| 0 <= j < glyphs@.len() ==> (#[trigger] glyphs@[j]).wf(),
        forall|k: int| 0 <= k < children@.len() ==> #[trigger] children@[k] < glyphs@.len(),
        t.wf(),
        b.wf(),
        glyph_views(glyphs@)[i as int].bbox == Some(b@),
    ensures
        res is Ok ==> appended(
            old(out)@,
            final(out)@,
            glyph_node_v(
                glyph_views(glyphs@),
                idx_views(children@),
                t@,
                show_clone_markers,
                i as int,
            ),
        ),
        res matches Err(e) ==> e == RenderError::NumericRange,
        res is Err <==> !glyph_node_ok(
            glyph_views(glyphs@),
            idx_views(children@),
            t@,
            show_clone_markers,
            i as int,
        ),
{
    let ghost s0 = out@;
    let ghost gv = glyph_views(glyphs@);
    let ghost cv = idx_views(children@);
    let g = &glyphs[i];
    let name = g.class_name.as_str();
    let label0: String = match label_override(name) {
        Some(l) => String::from_str(l),
        None => g.label.clone(),
    };
    let label: String = if str_eqs(name, "state variable") && blank(label0.as_str()) {
        state_var_label(
            match g.state_value {
                Some(ref s) => Some(s.as_str()),
                None => None,
            },
            match g.state_variable {
                Some(ref s) => Some(s.as_str()),
                None => None,
            },
        )
    } else {
        label0
    };
    proof {
        assert(label@ == node_label(gv[i as int]));
    }
    let font = glyph_font_px(name);
    let has_clone = show_clone_markers && g.has_clone;
    let bottom = label_bottom(name);
    let shape_label: &str = if bottom {
        ""
    } else {
        label.as_str()
    };
    proof {
        reveal_strlit("");
        assert(""@ =~= Seq::<char>::empty());
    }
    let has_u_bbox = child_with_bbox(glyphs, children, "unit of information");
    let has_s_bbox = child_with_bbox(glyphs, children, "state variable");
    let u: Option<String> = if has_u_bbox {
        None
    } else {
        first_child_label(glyphs, children, "unit of information")
    };
    let s: Option<String> = if has_s_bbox {
        None
    } else {
        first_child_state_label(glyphs, children, "state variable")
    };
    let u_ref: Option<&str> = match u {
        Some(ref x) => Some(x.as_str()),
        None => None,
    };
    let s_ref: Option<&str> = match s {
        Some(ref x) => Some(x.as_str()),
        None => None,
    };
    let ghost shape_seq = glyph_shape_v(gv, cv, t@, show_clone_markers, i as int);
    match classify(name) {
        ShapeClass::Hexagon => {
            draw_hexagon_bbox(out, t, b, shape_label, font, false)?;
        },
        ShapeClass::EntityPool(k, multimer) => {
            let s_used: Option<&str> = match k {
                EntityKind::SimpleChemical => None,
                EntityKind::PerturbingAgent => None,
                _ => s_ref,
            };
            draw_entity_pool_node(
                out,
                t,
                b,
                shape_label,
                font,
                k,
                multimer,
                has_clone,
                u_ref,
                s_used,
            )?;
        },
        ShapeClass::SourceSink => {
            draw_source_sink_bbox(out, t, b, has_clone)?;
        },
        ShapeClass::Compartment => {
            draw_barrel_bbox(out, t, b, shape_label, font, has_clone)?;
        },
        ShapeClass::Tag => {
            draw_tag_bbox(out, t, b, shape_label, font, has_clone)?;
        },
        ShapeClass::Association => {
            draw_ellipse_bbox_filled(out, t, b, shape_label, font, Color::AssociationFill)?;
        },
        ShapeClass::Dissociation => {
            draw_double_circle_bbox(out, t, b, shape_label, font)?;
        },
        ShapeClass::Process => {
            draw_square_bbox(out, t, b, shape_label, font, false)?;
        },
        ShapeClass::UnitInfo => {
            draw_round_rect_bbox(out, t, b, shape_label, font, false)?;
        },
        ShapeClass::StateVar => {
            draw_stadium_bbox(out, t, b, shape_label, font, false)?;
        },
        ShapeClass::Logical => {
            draw_circle_bbox(out, t, b, shape_label, font)?;
        },
        ShapeClass::Plain => {
            draw_box_bbox(out, t, b, shape_label, font, false)?;
        },
    }
    proof {
        assert(appended(s0, out@, shape_seq));
    }
    let ghost s_shape = out@;
    let orientation: Option<Orientation> = match g.orientation {
        Some(ref o) => Some(orientation_of(o.as_str())),
        None => if default_horizontal(name) {
            Some(Orientation::Horizontal)
        } else {
            None
        },
    };
    if let Some(o) = orientation {
        let len_px = t.scale_scalar(connector_len(name))?;
        draw_orientation_marker(out, t, b, o, len_px)?;
    } else {
        proof {
            crate::cmd::lemma_appended_nil(out@);
        }
    }
    proof {
        assert(appended(s_shape, out@, glyph_marker_v(gv, t@, i as int)));
    }
    let ghost s_marker = out@;
    if bottom {
        let rect = crate::transform::bbox_pixel_rect(t, b)?;
        draw_text_bottom_centered(out, &rect, label.as_str(), font);
    } else {
        proof {
            crate::cmd::lemma_appended_nil(out@);
        }
    }
    proof {
        assert(appended(s_marker, out@, glyph_bottom_label_v(gv, t@, i as int)));
        crate::cmd::lemma_appended_trans(
            s0,
            s_shape,
            s_marker,
            shape_seq,
            glyph_marker_v(gv, t@, i as int),
        );
        crate::cmd::lemma_appended_trans(
            s0,
            s_marker,
            out@,
            shape_seq + glyph_marker_v(gv, t@, i as int),
            glyph_bottom_label_v(gv, t@, i as int),
        );
        assert((shape_seq + glyph_marker_v(gv, t@, i as int)) + glyph_bottom_label_v(
            gv,
            t@,
            i as int,
        ) =~= glyph_node_v(gv, cv, t@, show_clone_markers, i as int));
    }
    Ok(())
}

/// Render one glyph and, in document order, its structural subtree.
pub fn render_glyph_tree(
    out: &mut Vec<Cmd>,
    glyphs: &Vec<Glyph>,
    children_tbl: &Vec<Vec<usize>>,
    t: &Transform,
    show_clone_markers: bool,
    i: usize,
) -> (res: Result<(), RenderError>)
    requires
        wf_input(glyph_views(glyphs@)),
        i < glyphs@.len(),
        forall|j: int| 0 <= j < glyphs@.len() ==> (#[trigger] glyphs@[j]).wf(),
        t.wf(),
        children_tbl@.len() == glyphs@.len(),
        forall|a: int|
            0 <= a < glyphs@.len() ==> idx_views(#[trigger] children_tbl@[a]@) == children_of(
                glyph_views(glyphs@),
                a,
            ),
    ensures
        res is Ok ==> appended(
            old(out)@,
            final(out)@,
            render_tree_v(glyph_views(glyphs@), t@, show_clone_markers, i as int),
        ),
        res matches Err(e) ==> e == RenderError::NumericRange,
        res is Err <==> !render_tree_ok(glyph_views(glyphs@), t@, show_clone_markers, i as int),
    decreases glyphs@.len() - i,
{
    let ghost s0 = out@;
    let ghost gv = glyph_views(glyphs@);
    let b = match glyphs[i].bbox {
        Some(b) => b,
        None => {
            proof {
                assert(cmd_views(s0) =~= cmd_views(s0) + Seq::<CmdV>::empty());
            }
            return Ok(());
        },
    };
    let kids = &children_tbl[i];
    let ghost ch = children_of(gv, i as int);
    proof {
        lemma_children_bounds(gv, i as int, gv.len() as int);
        assert(ch == children_upto(gv, i as int, gv.len() as int));
        assert forall|k2: int| 0 <= k2 < kids@.len() implies i < #[trigger] idx_views(kids@)[k2]
            < glyphs@.len() by {
            assert(idx_views(kids@)[k2] == children_upto(gv, i as int, gv.len() as int)[k2]);
        }
        assert forall|k2: int| 0 <= k2 < kids@.len() implies #[trigger] kids@[k2]
            < glyphs@.len() by {
            assert(idx_views(kids@)[k2] == kids@[k2] as int);
        }
    }
    match draw_glyph_node(out, glyphs, kids, t, show_clone_markers, i, &b) {
        Ok(()) => {},
        Err(e) => {
            proof {
                assert(gv[i as int].bbox is Some);
                assert(!render_tree_ok(gv, t@, show_clone_markers, i as int));
            }
            return Err(e);
        },
    }
    let ghost s_node = out@;
    let mut k: usize = 0;
    while k < kids.len()
        invariant
            k <= kids@.len(),
            gv == glyph_views(glyphs@),
            wf_input(gv),
            i < glyphs@.len(),
            forall|j: int| 0 <= j < glyphs@.len() ==> (#[trigger] glyphs@[j]).wf(),
            t.wf(),
            children_tbl@.len() == glyphs@.len(),
            forall|a: int|
                0 <= a < glyphs@.len() ==> idx_views(#[trigger] children_tbl@[a]@) == children_of(
                    gv,
                    a,
                ),
            ch == children_of(gv, i as int),
            idx_views(kids@) == ch,
            kids == children_tbl@[i as int],
            gv[i as int].bbox is Some,
            appended(s_node, out@, render_children_v(gv, t@, show_clone_markers, i as int, ch, k as int)),
            render_children_ok(gv, t@, show_clone_markers, i as int, ch, k as int),
        decreases kids@.len() - k,
    {
        let c = kids[k];
        assert(ch[k as int] == c as int);
        proof {
            lemma_children_bounds(gv, i as int, gv.len() as int);
            assert(ch == children_upto(gv, i as int, gv.len() as int));
            assert(i < children_upto(gv, i as int, gv.len() as int)[k as int] < gv.len());
        }
        assert(i < c < glyphs@.len());
        let ghost s_it = out@;
        let skip = {
            let cls = glyphs[c].class_name.as_str();
            str_eqs(cls, "unit of information") || str_eqs(cls, "state variable")
        };
        if !skip {
            match render_glyph_tree(out, glyphs, children_tbl, t, show_clone_markers, c) {
                Ok(()) => {},
                Err(e) => {
                    proof {
                        assert(!child_step_ok(gv, t@, show_clone_markers, i as int, ch, k as int));
                        lemma_children_ok_prefix(
                            gv,
                            t@,
                            show_clone_markers,
                            i as int,
                            ch,
                            k as int,
                            ch.len() as int,
                        );
                        assert(gv[i as int].bbox is Some);
                        assert(!render_tree_ok(gv, t@, show_clone_markers, i as int));
                    }
                    return Err(e);
                },
            }
        }
        proof {
            assert(cmd_views(out@) =~= cmd_views(s_node) + render_children_v(
                gv,
                t@,
                show_clone_markers,
                i as int,
                ch,
                k as int + 1,
            ));
            assert(child_step_ok(gv, t@, show_clone_markers, i as int, ch, k as int));
            assert(render_children_ok(gv, t@, show_clone_markers, i as int, ch, k as int + 1));
        }
        k += 1;
    }
    proof {
        assert(cmd_views(out@) =~= cmd_views(s0) + render_tree_v(
            gv,
            t@,
            show_clone_markers,
            i as int,
        ));
        assert(render_tree_ok(gv, t@, show_clone_markers, i as int));
    }
    Ok(())
}

// --- the dedicated overlay pass and the arc pass ---

/// One glyph of the dedicated overlay pass: an auxiliary glyph that has a
/// parent and its own box is drawn directly at that absolute box.
pub open spec fn aux_item_v(gs: Seq<GlyphV>, t: TransformV, show_clone_markers: bool, i: int) -> Seq<
    CmdV,
> {
    let g = gs[i];
    if g.parent_id is Some && (g.class_name == "unit of information"@ || g.class_name
        == "state variable"@) && g.bbox is Some {
        let label = if g.class_name == "state variable"@ && is_blank(g.label) {
            state_var_label_v(g.state_value, g.state_variable)
        } else {
            g.label
        };
        let font = rv_c(font_px_v(g.class_name), 1);
        let has_clone = show_clone_markers && g.has_clone;
        if g.class_name == "unit of information"@ {
            round_rect_bbox_v(t, g.bbox->0, label, font, has_clone)
        } else {
            stadium_bbox_v(t, g.bbox->0, label, font, has_clone)
        }
    } else {
        Seq::empty()
    }
}

pub open spec fn aux_pass_upto(
    gs: Seq<GlyphV>,
    t: TransformV,
    show_clone_markers: bool,
    n: int,
) -> Seq<CmdV>
    decreases n,
{
    if n <= 0 {
        Seq::empty()
    } else {
        aux_pass_upto(gs, t, show_clone_markers, n - 1) + aux_item_v(
            gs,
            t,
            show_clone_markers,
            n - 1,
        )
    }
}

/// The root pass: every glyph without a parent, with its subtree.
pub open spec fn roots_upto(
    gs: Seq<GlyphV>,
    t: TransformV,
    show_clone_markers: bool,
    n: int,
) -> Seq<CmdV>
    decreases n,
{
    if n <= 0 {
        Seq::empty()
    } else {
        roots_upto(gs, t, show_clone_markers, n - 1) + (if gs[n - 1].parent_id is None {
            render_tree_v(gs, t, show_clone_markers, n - 1)
        } else {
            Seq::empty()
        })
    }
}

/// An arc's points mapped into pixel space.
pub open spec fn mapped_points(t: TransformV, pts: Seq<PtV>) -> Seq<PtV> {
    pts.map_values(|p: PtV| tf_map_pt(t, p.x, p.y))
}

pub open spec fn arcs_upto(
    arcs: Seq<ArcV>,
    t: TransformV,
    n: int,
    arrow_size: RatV,
    bar_length: RatV,
    bar_offset: RatV,
) -> Seq<CmdV>
    decreases n,
{
    if n <= 0 {
        Seq::empty()
    } else {
        arcs_upto(arcs, t, n - 1, arrow_size, bar_length, bar_offset) + arc_v(
            arcs[n - 1].class_name,
            mapped_points(t, arcs[n - 1].points),
            arrow_size,
            bar_length,
            bar_offset,
        )
    }
}

/// A whole render pass: every root glyph's subtree in input order, then
/// the dedicated pass over absolutely-positioned overlay glyphs, then the
/// arcs with their decorations.  Decoration sizes are the reference sizes
/// (arrowhead 8, bar 12, bar offset 14, each scaled by 7/4) scaled by the
/// combined axis scale.
pub open spec fn render_v(
    gs: Seq<GlyphV>,
    arcs: Seq<ArcV>,
    t: TransformV,
    show_clone_markers: bool,
) -> Seq<CmdV> {
    let arrow_size = tf_scalar(t, rv_c(14, 1));
    let bar_length = tf_scalar(t, rv_c(21, 1));
    let bar_offset = tf_scalar(t, rv_c(49, 2));
    roots_upto(gs, t, show_clone_markers, gs.len() as int) + aux_pass_upto(
        gs,
        t,
        show_clone_markers,
        gs.len() as int,
    ) + arcs_upto(arcs, t, arcs.len() as int, arrow_size, bar_length, bar_offset)
}

/// Whether one root's subtree stays within machine range.
pub open spec fn root_item_ok(
    gs: Seq<GlyphV>,
    t: TransformV,
    show_clone_markers: bool,
    i: int,
) -> bool {
    gs[i].parent_id is None ==> render_tree_ok(gs, t, show_clone_markers, i)
}

pub open spec fn roots_ok(gs: Seq<GlyphV>, t: TransformV, show_clone_markers: bool) -> bool {
    forall|i: int| 0 <= i < gs.len() ==> #[trigger] root_item_ok(gs, t, show_clone_markers, i)
}

/// Whether one glyph of the dedicated overlay pass stays within range.
pub open spec fn aux_item_ok(
    gs: Seq<GlyphV>,
    t: TransformV,
    show_clone_markers: bool,
    i: int,
) -> bool {
    let g = gs[i];
    if g.parent_id is Some && (g.class_name == "unit of information"@ || g.class_name
        == "state variable"@) && g.bbox is Some {
        if g.class_name == "unit of information"@ {
            round_rect_bbox_ok(t, g.bbox->0, show_clone_markers && g.has_clone)
        } else {
            stadium_bbox_ok(t, g.bbox->0, show_clone_markers && g.has_clone)
        }
    } else {
        true
    }
}

pub open spec fn aux_ok(gs: Seq<GlyphV>, t: TransformV, show_clone_markers: bool) -> bool {
    forall|i: int| 0 <= i < gs.len() ==> #[trigger] aux_item_ok(gs, t, show_clone_markers, i)
}

/// Whether one arc, its points mapped, stays within machine range.
pub open spec fn arc_item_ok(arcs: Seq<ArcV>, t: TransformV, i: int, arrow_size: RatV) -> bool {
    &&& forall|j: int|
        0 <= j < arcs[i].points.len() ==> #[trigger] tf_map_pt_ok(
            t,
            arcs[i].points[j].x,
            arcs[i].points[j].y,
        )
    &&& draw_arc_ok(arcs[i].class_name, mapped_points(t, arcs[i].points), arrow_size)
}

pub open spec fn arcs_ok(arcs: Seq<ArcV>, t: TransformV, arrow_size: RatV) -> bool {
    forall|i: int| 0 <= i < arcs.len() ==> #[trigger] arc_item_ok(arcs, t, i, arrow_size)
}

/// Whether a whole render pass stays within machine range.
pub open spec fn render_ok(
    gs: Seq<GlyphV>,
    arcs: Seq<ArcV>,
    t: TransformV,
    show_clone_markers: bool,
) -> bool {
    &&& roots_ok(gs, t, show_clone_markers)
    &&& aux_ok(gs, t, show_clone_markers)
    &&& tf_scalar_ok(t, rv_c(14, 1))
    &&& tf_scalar_ok(t, rv_c(21, 1))
    &&& tf_scalar_ok(t, rv_c(49, 2))
    &&& arcs_ok(arcs, t, tf_scalar(t, rv_c(14, 1)))
}

/// Render a parsed diagram into its drawing-command sequence.
#[verifier::rlimit(60)]
pub fn render(
    glyphs: &Vec<Glyph>,
    arcs: &Vec<Arc>,
    t: &Transform,
    show_clone_markers: bool,
) -> (res: Result<Vec<Cmd>, RenderError>)
    requires
        wf_input(glyph_views(glyphs@)),
        forall|j: int| 0 <= j < glyphs@.len() ==> (#[trigger] glyphs@[j]).wf(),
        forall|j: int| 0 <= j < arcs@.len() ==> (#[trigger] arcs@[j]).wf(),
        t.wf(),
    ensures
        res matches Ok(cmds) ==> cmd_views(cmds@) == render_v(
            glyph_views(glyphs@),
            arc_views(arcs@),
            t@,
            show_clone_markers,
        ),
        res matches Err(e) ==> e == RenderError::NumericRange,
        res is Err <==> !render_ok(
            glyph_views(glyphs@),
            arc_views(arcs@),
            t@,
            show_clone_markers,
        ),
{
    let ghost gv = glyph_views(glyphs@);
    let ghost av = arc_views(arcs@);
    let children_tbl = build_children(glyphs);
    let mut out: Vec<Cmd> = Vec::new();
    let ghost s_start = out@;
    let mut i: usize = 0;
    while i < glyphs.len()
        invariant
            i <= glyphs@.len(),
            gv == glyph_views(glyphs@),
            wf_input(gv),
            forall|j: int| 0 <= j < glyphs@.len() ==> (#[trigger] glyphs@[j]).wf(),
            t.wf(),
            children_tbl@.len() == glyphs@.len(),
            forall|a: int|
                0 <= a < glyphs@.len() ==> idx_views(#[trigger] children_tbl@[a]@) == children_of(
                    gv,
                    a,
                ),
            appended(s_start, out@, roots_upto(gv, t@, show_clone_markers, i as int)),
            forall|j: int| 0 <= j < i ==> #[trigger] root_item_ok(gv, t@, show_clone_markers, j),
        decreases glyphs@.len() - i,
    {
        if glyphs[i].parent_id.is_none() {
            match render_glyph_tree(&mut out, glyphs, &children_tbl, t, show_clone_markers, i) {
                Ok(()) => {},
                Err(e) => {
                    proof {
                        assert(!root_item_ok(gv, t@, show_clone_markers, i as int));
                    }
                    return Err(e);
                },
            }
        }
        proof {
            assert(cmd_views(out@) =~= cmd_views(s_start) + roots_upto(
                gv,
                t@,
                show_clone_markers,
                i as int + 1,
            ));
        }
        i += 1;
    }
    let ghost s_aux0 = out@;
    let mut i2: usize = 0;
    while i2 < glyphs.len()
        invariant
            i2 <= glyphs@.len(),
            gv == glyph_views(glyphs@),
            forall|j: int| 0 <= j < glyphs@.len() ==> (#[trigger] glyphs@[j]).wf(),
            t.wf(),
            appended(s_aux0, out@, aux_pass_upto(gv, t@, show_clone_markers, i2 as int)),
            forall|j: int| 0 <= j < glyphs@.len() ==> #[trigger] root_item_ok(gv, t@, show_clone_markers, j),
            forall|j: int| 0 <= j < i2 ==> #[trigger] aux_item_ok(gv, t@, show_clone_markers, j),
        decreases glyphs@.len() - i2,
    {
        let g = &glyphs[i2];
        let name = g.class_name.as_str();
        let is_aux = g.parent_id.is_some() && (str_eqs(name, "unit of information") || str_eqs(
            name,
            "state variable",
        ));
        if is_aux {
            if let Some(b) = g.bbox {
                let label: String = if str_eqs(name, "state variable") && blank(g.label.as_str()) {
                    state_var_label(
                        match g.state_value {
                            Some(ref s) => Some(s.as_str()),
                            None => None,
                        },
                        match g.state_variable {
                            Some(ref s) => Some(s.as_str()),
                            None => None,
                        },
                    )
                } else {
                    g.label.clone()
                };
                let font = glyph_font_px(name);
                let has_clone = show_clone_markers && g.has_clone;
                if str_eqs(name, "unit of information") {
                    match draw_round_rect_bbox(&mut out, t, &b, label.as_str(), font, has_clone) {
                        Ok(()) => {},
                        Err(e) => {
                            proof {
                                assert(!aux_item_ok(gv, t@, show_clone_markers, i2 as int));
                            }
                            return Err(e);
                        },
                    }
                } else {
                    match draw_stadium_bbox(&mut out, t, &b, label.as_str(), font, has_clone) {
                        Ok(()) => {},
                        Err(e) => {
                            proof {
                                assert(!aux_item_ok(gv, t@, show_clone_markers, i2 as int));
                            }
                            return Err(e);
                        },
                    }
                }
            }
        }
        proof {
            assert(cmd_views(out@) =~= cmd_views(s_aux0) + aux_pass_upto(
                gv,
                t@,
                show_clone_markers,
                i2 as int + 1,
            ));
            assert(aux_item_ok(gv, t@, show_clone_markers, i2 as int));
        }
        i2 += 1;
    }
    let ghost s_arc0 = out@;
    let arrow_size = t.scale_scalar(Rat::whole(14))?;
    let bar_length = t.scale_scalar(Rat::whole(21))?;
    let bar_offset = t.scale_scalar(Rat::frac(49, 2))?;
    let mut i3: usize = 0;
    while i3 < arcs.len()
        invariant
            i3 <= arcs@.len(),
            av == arc_views(arcs@),
            forall|j: int| 0 <= j < arcs@.len() ==> (#[trigger] arcs@[j]).wf(),
            t.wf(),
            arrow_size.wf(),
            bar_length.wf(),
            bar_offset.wf(),
            arrow_size@ == tf_scalar(t@, rv_c(14, 1)),
            bar_length@ == tf_scalar(t@, rv_c(21, 1)),
            bar_offset@ == tf_scalar(t@, rv_c(49, 2)),
            appended(
                s_arc0,
                out@,
                arcs_upto(av, t@, i3 as int, arrow_size@, bar_length@, bar_offset@),
            ),
            forall|j: int| 0 <= j < glyphs@.len() ==> #[trigger] root_item_ok(gv, t@, show_clone_markers, j),
            forall|j: int| 0 <= j < glyphs@.len() ==> #[trigger] aux_item_ok(gv, t@, show_clone_markers, j),
            gv == glyph_views(glyphs@),
            forall|j: int| 0 <= j < i3 ==> #[trigger] arc_item_ok(av, t@, j, arrow_size@),
        decreases arcs@.len() - i3,
    {
        let a = &arcs[i3];
        let mut pts: Vec<Pt> = Vec::new();
        let mut j: usize = 0;
        while j < a.points.len()
            invariant
                j <= a.points@.len(),
                a.wf(),
                t.wf(),
                i3 < arcs@.len(),
                av == arc_views(arcs@),
                a == arcs@[i3 as int],
                arrow_size.wf(),
                arrow_size@ == tf_scalar(t@, rv_c(14, 1)),
                pts@.len() == j,
                forall|jj: int|
                    0 <= jj < j ==> (#[trigger] pts@[jj]).wf() && pts@[jj]@ == tf_map_pt(
                        t@,
                        a@.points[jj].x,
                        a@.points[jj].y,
                    ),
                forall|jj: int|
                    0 <= jj < j ==> #[trigger] tf_map_pt_ok(t@, a@.points[jj].x, a@.points[jj].y),
            decreases a.points@.len() - j,
        {
            let p = a.points[j];
            let mp = match t.map_point(p.x, p.y) {
                Ok(v) => v,
                Err(e) => {
                    proof {
                        assert(av[i3 as int] == a@);
                        assert(a@.points[j as int] == p@);
                        assert(!tf_map_pt_ok(
                            t@,
                            av[i3 as int].points[j as int].x,
                            av[i3 as int].points[j as int].y,
                        ));
                        assert(!arc_item_ok(av, t@, i3 as int, arrow_size@));
                    }
                    return Err(e);
                },
            };
            pts.push(mp);
            j += 1;
        }
        proof {
            assert(pts@.map_values(|p: Pt| p@) =~= mapped_points(t@, a@.points));
            assert(av[i3 as int] == a@);
            assert(forall|jj: int|
                0 <= jj < av[i3 as int].points.len() ==> #[trigger] tf_map_pt_ok(
                    t@,
                    av[i3 as int].points[jj].x,
                    av[i3 as int].points[jj].y,
                ));
        }
        match draw_arc(&mut out, &pts, a.class_name.as_str(), arrow_size, bar_length, bar_offset) {
            Ok(()) => {},
            Err(e) => {
                proof {
                    assert(!arc_item_ok(av, t@, i3 as int, arrow_size@));
                }
                return Err(e);
            },
        }
        proof {
            assert(av[i3 as int] == a@);
            assert(cmd_views(out@) =~= cmd_views(s_arc0) + arcs_upto(
                av,
                t@,
                i3 as int + 1,
                arrow_size@,
                bar_length@,
                bar_offset@,
            ));
            assert(arc_item_ok(av, t@, i3 as int, arrow_size@));
        }
        i3 += 1;
    }
    proof {
        assert(cmd_views(out@) =~= render_v(gv, av, t@, show_clone_markers));
        assert(render_ok(gv, av, t@, show_clone_markers));
    }
    Ok(out)
}

/// Rendering has no hidden state: the command sequence is a function of the
/// parsed tree, the transform and the clone-marker switch alone, so two
/// passes over the same input produce identical output.
pub proof fn lemma_render_deterministic(
    a: Seq<CmdV>,
    b: Seq<CmdV>,
    gs: Seq<GlyphV>,
    arcs: Seq<ArcV>,
    t: TransformV,
    show_clone_markers: bool,
)
    requires
        a == render_v(gs, arcs, t, show_clone_markers),
        b == render_v(gs, arcs, t, show_clone_markers),
    ensures
        a == b,
{
}

} // verus!
