use sbgn_render::rat::Rat;
use sbgn_render::geom::{BBox, Pt, RenderError};
use sbgn_render::glyph::{Glyph, Arc, compute_bounds};
use sbgn_render::transform::{Transform, transform_with_padding};
use sbgn_render::cmd::{Cmd, BoxKind, Color};
use sbgn_render::render::render;
use sbgn_render::arcs::draw_arc;
use sbgn_render::overlay::{draw_entity_pool_node, draw_entity_pool_aux_items};
use sbgn_render::style::EntityKind;
use sbgn_render::node::ShapeKind;
use sbgn_render::geom::Rect;

fn r(v: i64) -> Rat {
    Rat::whole(v)
}

fn g(id: &str, parent: Option<&str>, class: &str, bbox: Option<(i64, i64, i64, i64)>) -> Glyph {
    Glyph {
        id: id.to_string(),
        parent_id: parent.map(|p| p.to_string()),
        class_name: class.to_string(),
        bbox: bbox.map(|(x, y, w, h)| BBox { x: r(x), y: r(y), w: r(w), h: r(h) }),
        label: String::new(),
        ports: Vec::new(),
        has_clone: false,
        state_value: None,
        state_variable: None,
        orientation: None,
    }
}

fn unit_transform_for(glyphs: &Vec<Glyph>) -> Transform {
    let bounds = compute_bounds(glyphs).unwrap();
    let (t, _, _) = transform_with_padding(&bounds, r(10)).unwrap();
    t
}

#[test]
fn single_macromolecule_fills_padded_frame() {
    let glyphs = vec![g("m1", None, "macromolecule", Some((0, 0, 96, 48)))];
    let bounds = compute_bounds(&glyphs).unwrap();
    let (t, w, h) = transform_with_padding(&bounds, r(10)).unwrap();
    assert_eq!(sbgn_render::transform::ceil_i64(&w), 116);
    assert_eq!(sbgn_render::transform::ceil_i64(&h), 68);
    let cmds = render(&glyphs, &Vec::new(), &t, true).unwrap();
    // the rounded rectangle starts at (x0 + radius, y0) with radius 4.8
    let corner = Rat::frac(24, 5);
    let start_x = r(10).add(&corner).unwrap();
    assert!(cmds.iter().any(|c| match c {
        Cmd::MoveTo(p) => p.x.eq_val(&start_x) && p.y.eq_val(&r(10)),
        _ => false,
    }));
    assert!(cmds.iter().any(|c| match c {
        Cmd::QuarterArc(_, radius, _) => radius.eq_val(&corner),
        _ => false,
    }));
}

#[test]
fn state_variable_child_synthesizes_label() {
    let mut sv = g("s1", Some("m1"), "state variable", None);
    sv.state_value = Some("P".to_string());
    sv.state_variable = Some("S1".to_string());
    let glyphs = vec![g("m1", None, "macromolecule", Some((0, 0, 96, 48))), sv];
    let t = unit_transform_for(&glyphs);
    let cmds = render(&glyphs, &Vec::new(), &t, true).unwrap();
    assert!(cmds.iter().any(|c| match c {
        Cmd::LabelBox { kind, text, .. } => *kind == BoxKind::StateVar && text == "P@S1",
        _ => false,
    }));
}

#[test]
fn state_variable_child_value_only() {
    let mut sv = g("s1", Some("m1"), "state variable", None);
    sv.state_value = Some("P".to_string());
    let glyphs = vec![g("m1", None, "macromolecule", Some((0, 0, 96, 48))), sv];
    let t = unit_transform_for(&glyphs);
    let cmds = render(&glyphs, &Vec::new(), &t, true).unwrap();
    assert!(cmds.iter().any(|c| match c {
        Cmd::LabelBox { kind, text, .. } => *kind == BoxKind::StateVar && text == "P",
        _ => false,
    }));
}

#[test]
fn state_variable_child_with_nothing_draws_no_box() {
    let sv = g("s1", Some("m1"), "state variable", None);
    let glyphs = vec![g("m1", None, "macromolecule", Some((0, 0, 96, 48))), sv];
    let t = unit_transform_for(&glyphs);
    let cmds = render(&glyphs, &Vec::new(), &t, true).unwrap();
    assert!(!cmds.iter().any(|c| matches!(c, Cmd::LabelBox { .. })));
}

#[test]
fn necessary_stimulation_draws_bar_and_opaque_triangle() {
    let mut out: Vec<Cmd> = Vec::new();
    let pts = vec![Pt { x: r(0), y: r(0) }, Pt { x: r(100), y: r(0) }];
    draw_arc(&mut out, &pts, "necessary stimulation", r(14), r(21), Rat::frac(49, 2)).unwrap();
    assert_eq!(out.len(), 7);
    assert!(matches!(out[0], Cmd::SetColor(Color::Border)));
    assert!(matches!(out[1], Cmd::SetLineWidth(_)));
    assert!(matches!(out[2], Cmd::MoveTo(_)));
    assert!(matches!(out[3], Cmd::LineTo(_)));
    assert!(matches!(out[4], Cmd::Stroke));
    match &out[5] {
        Cmd::Bar { tip, back, length, offset } => {
            assert!(tip.x.eq_val(&r(100)) && tip.y.eq_val(&r(0)));
            assert!(back.x.eq_val(&r(0)) && back.y.eq_val(&r(0)));
            assert!(length.eq_val(&r(21)));
            assert!(offset.eq_val(&Rat::frac(49, 2)));
        },
        other => panic!("expected a bar, got {:?}", other),
    }
    match &out[6] {
        Cmd::OpaqueTriangle(tip, back, size) => {
            assert!(tip.x.eq_val(&r(100)) && tip.y.eq_val(&r(0)));
            assert!(back.x.eq_val(&r(0)) && back.y.eq_val(&r(0)));
            assert!(size.eq_val(&r(14)));
        },
        other => panic!("expected a triangle, got {:?}", other),
    }
}

#[test]
fn degenerate_final_segment_skips_decoration() {
    let mut out: Vec<Cmd> = Vec::new();
    let pts = vec![Pt { x: r(5), y: r(5) }, Pt { x: r(5), y: r(5) }];
    draw_arc(&mut out, &pts, "production", r(14), r(21), Rat::frac(49, 2)).unwrap();
    // the polyline is drawn, the triangle is not
    assert!(out.iter().any(|c| matches!(c, Cmd::Stroke)));
    assert!(!out.iter().any(|c| matches!(c, Cmd::FilledTriangle(_, _, _))));
}

#[test]
fn equivalence_arc_circle_sits_on_endpoint() {
    let mut out: Vec<Cmd> = Vec::new();
    let pts = vec![Pt { x: r(0), y: r(0) }, Pt { x: r(30), y: r(40) }];
    draw_arc(&mut out, &pts, "equivalence arc", r(14), r(21), Rat::frac(49, 2)).unwrap();
    match out.last().unwrap() {
        Cmd::OpenCircle(c, radius) => {
            assert!(c.x.eq_val(&r(30)) && c.y.eq_val(&r(40)));
            // radius is 40% of the arrow size: 5.6
            assert!(radius.eq_val(&Rat::frac(28, 5)));
        },
        other => panic!("expected an open circle, got {:?}", other),
    }
}

#[test]
fn plain_arc_class_gets_no_decoration() {
    let mut out: Vec<Cmd> = Vec::new();
    let pts = vec![Pt { x: r(0), y: r(0) }, Pt { x: r(10), y: r(0) }];
    draw_arc(&mut out, &pts, "consumption", r(14), r(21), Rat::frac(49, 2)).unwrap();
    assert_eq!(out.len(), 5);
}

#[test]
fn rendering_twice_is_identical() {
    let mut sv = g("s1", Some("m1"), "state variable", None);
    sv.state_value = Some("P".to_string());
    let glyphs = vec![
        g("m1", None, "macromolecule multimer", Some((0, 0, 96, 48))),
        sv,
        g("p1", None, "process", Some((120, 10, 25, 25))),
    ];
    let arcs = vec![Arc {
        class_name: "catalysis".to_string(),
        points: vec![Pt { x: r(96), y: r(24) }, Pt { x: r(120), y: r(24) }],
    }];
    let t = unit_transform_for(&glyphs);
    let a = render(&glyphs, &arcs, &t, true).unwrap();
    let b = render(&glyphs, &arcs, &t, true).unwrap();
    assert_eq!(a, b);
}

#[test]
fn multimer_ghost_precedes_primary_shape() {
    // a simple chemical at twice its reference size: ghost offset 5 * 2 = 10
    let t = Transform::new(r(0), r(0), r(96), r(96), r(96), r(96)).unwrap();
    let b = BBox { x: r(0), y: r(0), w: r(96), h: r(96) };
    let mut out: Vec<Cmd> = Vec::new();
    draw_entity_pool_node(
        &mut out,
        &t,
        &b,
        "",
        r(20),
        EntityKind::SimpleChemical,
        true,
        false,
        None,
        None,
    )
    .unwrap();
    match (&out[0], &out[1]) {
        (Cmd::SetLineWidth(w), Cmd::Ellipse(c, rx, ry)) => {
            assert!(w.eq_val(&r(2)));
            assert!(c.x.eq_val(&r(58)) && c.y.eq_val(&r(58)));
            assert!(rx.eq_val(&r(48)) && ry.eq_val(&r(48)));
        },
        other => panic!("expected the ghost ellipse first, got {:?}", other),
    }
    // the primary shape follows, centered on the box itself
    assert!(out.iter().any(|c| match c {
        Cmd::Ellipse(c0, _, _) => c0.x.eq_val(&r(48)) && c0.y.eq_val(&r(48)),
        _ => false,
    }));
}

#[test]
fn simple_chemical_lines_follow_unit_info_presence() {
    let rect = Rect { x0: r(0), y0: r(0), w: r(48), h: r(48) };
    let mut with_u: Vec<Cmd> = Vec::new();
    draw_entity_pool_aux_items(&mut with_u, &rect, EntityKind::SimpleChemical, Some("u"), None)
        .unwrap();
    // two separator lines of eight commands each, plus the label box
    assert_eq!(with_u.len(), 17);
    let mut without: Vec<Cmd> = Vec::new();
    draw_entity_pool_aux_items(&mut without, &rect, EntityKind::SimpleChemical, None, None)
        .unwrap();
    assert_eq!(without.len(), 0);
}

#[test]
fn nucleic_acid_lines_follow_either_label() {
    let rect = Rect { x0: r(0), y0: r(0), w: r(88), h: r(56) };
    // state variable alone: the first line and the box, no second line
    let mut s_only: Vec<Cmd> = Vec::new();
    draw_entity_pool_aux_items(
        &mut s_only,
        &rect,
        EntityKind::NucleicAcidFeature,
        None,
        Some("P"),
    )
    .unwrap();
    assert_eq!(s_only.len(), 9);
    assert!(s_only.iter().any(|c| match c {
        Cmd::MoveTo(p) => p.y.eq_val(&r(8)),
        _ => false,
    }));
    // unit of information alone: both lines and the box
    let mut u_only: Vec<Cmd> = Vec::new();
    draw_entity_pool_aux_items(
        &mut u_only,
        &rect,
        EntityKind::NucleicAcidFeature,
        Some("u"),
        None,
    )
    .unwrap();
    assert_eq!(u_only.len(), 17);
    assert!(u_only.iter().any(|c| match c {
        Cmd::MoveTo(p) => p.y.eq_val(&r(8)),
        _ => false,
    }));
    assert!(u_only.iter().any(|c| match c {
        Cmd::MoveTo(p) => p.y.eq_val(&r(52)),
        _ => false,
    }));
}

#[test]
fn macromolecule_first_line_from_either_label() {
    let rect = Rect { x0: r(0), y0: r(0), w: r(96), h: r(48) };
    let mut s_only: Vec<Cmd> = Vec::new();
    draw_entity_pool_aux_items(&mut s_only, &rect, EntityKind::Macromolecule, None, Some("P"))
        .unwrap();
    // first line (either label) plus the state-variable box; no second line
    assert_eq!(s_only.len(), 9);
}

#[test]
fn complex_uses_one_thick_border_colored_line() {
    let rect = Rect { x0: r(0), y0: r(0), w: r(100), h: r(100) };
    let mut out: Vec<Cmd> = Vec::new();
    draw_entity_pool_aux_items(&mut out, &rect, EntityKind::Complex, Some("u"), None).unwrap();
    // one line and one box
    assert_eq!(out.len(), 9);
    assert!(matches!(out[1], Cmd::SetColor(Color::Border)));
    // the box is anchored at a quarter of the width
    assert!(out.iter().any(|c| match c {
        Cmd::LabelBox { x, .. } => x.eq_val(&r(25)),
        _ => false,
    }));
}

#[test]
fn absolutely_positioned_overlay_child_renders_separately() {
    let glyphs = vec![
        g("m1", None, "macromolecule", Some((0, 0, 96, 48))),
        g("u1", Some("m1"), "unit of information", Some((10, -5, 30, 12))),
    ];
    let t = unit_transform_for(&glyphs);
    let cmds = render(&glyphs, &Vec::new(), &t, true).unwrap();
    // no synthesized overlay box, but the child's own rounded rectangle
    assert!(!cmds.iter().any(|c| matches!(c, Cmd::LabelBox { .. })));
    let quarter_arcs = cmds.iter().filter(|c| matches!(c, Cmd::QuarterArc(_, _, _))).count();
    // two rounded rectangles: the parent and the child
    assert_eq!(quarter_arcs, 8);
}

#[test]
fn process_gets_default_horizontal_ticks() {
    let glyphs = vec![g("p1", None, "process", Some((0, 0, 20, 20)))];
    let t = unit_transform_for(&glyphs);
    let cmds = render(&glyphs, &Vec::new(), &t, true).unwrap();
    // the left tick starts 11 scaled pixels left of the box edge
    assert!(cmds.iter().any(|c| match c {
        Cmd::MoveTo(p) => p.x.eq_val(&r(-1)) && p.y.eq_val(&r(20)),
        _ => false,
    }));
}

#[test]
fn children_render_after_their_parent() {
    let glyphs = vec![
        g("c1", None, "complex", Some((0, 0, 100, 100))),
        g("m1", Some("c1"), "macromolecule", Some((10, 10, 48, 24))),
    ];
    let t = unit_transform_for(&glyphs);
    let cmds = render(&glyphs, &Vec::new(), &t, true).unwrap();
    // the complex's cut-corner path comes before the child's quarter arcs
    let first_close = cmds.iter().position(|c| matches!(c, Cmd::ClosePath)).unwrap();
    let first_arc = cmds.iter().position(|c| matches!(c, Cmd::QuarterArc(_, _, _))).unwrap();
    assert!(first_close < first_arc);
}

#[test]
fn boxless_glyph_is_skipped_without_error() {
    // a glyph without a bounding box draws nothing and its subtree is not
    // visited; the pass still succeeds
    let glyphs = vec![
        g("m1", None, "macromolecule", None),
        g("m2", Some("m1"), "macromolecule", Some((0, 0, 96, 48))),
        g("p1", None, "process", Some((120, 10, 25, 25))),
    ];
    let t = unit_transform_for(&glyphs);
    let cmds = render(&glyphs, &Vec::new(), &t, true).unwrap();
    // only the process square appears: no rounded-rectangle quarter arcs
    assert!(!cmds.iter().any(|c| matches!(c, Cmd::QuarterArc(_, _, _))));
    assert!(cmds.iter().any(|c| matches!(c, Cmd::Rectangle(_))));
}

#[test]
fn no_coordinates_is_an_error() {
    let glyphs = vec![g("x", None, "macromolecule", None)];
    assert_eq!(compute_bounds(&glyphs).unwrap_err(), RenderError::NoCoordinates);
}

#[test]
fn ports_alone_give_bounds() {
    let mut gl = g("x", None, "macromolecule", None);
    gl.ports = vec![Pt { x: r(3), y: r(7) }, Pt { x: r(13), y: r(1) }];
    let bounds = compute_bounds(&vec![gl]).unwrap();
    assert!(bounds.min_x.eq_val(&r(3)));
    assert!(bounds.max_x.eq_val(&r(13)));
    assert!(bounds.min_y.eq_val(&r(1)));
    assert!(bounds.max_y.eq_val(&r(7)));
}

#[test]
fn source_sink_strikes_through() {
    let glyphs = vec![g("s", None, "source and sink", Some((0, 0, 60, 60)))];
    let t = unit_transform_for(&glyphs);
    let cmds = render(&glyphs, &Vec::new(), &t, true).unwrap();
    // the diagonal runs from the bottom-left to the top-right corner
    assert!(cmds.iter().any(|c| match c {
        Cmd::MoveTo(p) => p.x.eq_val(&r(10)) && p.y.eq_val(&r(70)),
        _ => false,
    }));
    assert!(cmds.iter().any(|c| match c {
        Cmd::LineTo(p) => p.x.eq_val(&r(70)) && p.y.eq_val(&r(10)),
        _ => false,
    }));
}

#[test]
fn logical_operator_has_label_override() {
    let glyphs = vec![g("a", None, "and", Some((0, 0, 40, 40)))];
    let t = unit_transform_for(&glyphs);
    let cmds = render(&glyphs, &Vec::new(), &t, true).unwrap();
    assert!(cmds.iter().any(|c| match c {
        Cmd::TextCentered(_, text, _) => text == "AND",
        _ => false,
    }));
}

#[test]
fn clone_marker_band_when_enabled() {
    let mut gl = g("m", None, "macromolecule", Some((0, 0, 96, 48)));
    gl.has_clone = true;
    let glyphs = vec![gl];
    let t = unit_transform_for(&glyphs);
    let with = render(&glyphs, &Vec::new(), &t, true).unwrap();
    assert!(with.iter().any(|c| matches!(c, Cmd::SetColor(Color::CloneFill))));
    let without = render(&glyphs, &Vec::new(), &t, false).unwrap();
    assert!(!without.iter().any(|c| matches!(c, Cmd::SetColor(Color::CloneFill))));
}

#[test]
fn shape_kinds_are_distinct() {
    assert_ne!(ShapeKind::RoundRect, ShapeKind::Stadium);
}
