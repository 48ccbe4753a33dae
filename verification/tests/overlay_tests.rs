use sbgn_render::rat::Rat;
use sbgn_render::geom::{BBox, Rect};
use sbgn_render::glyph::{compute_bounds, Glyph};
use sbgn_render::transform::transform_with_padding;
use sbgn_render::cmd::{BoxKind, Cmd, Color};
use sbgn_render::overlay::draw_entity_pool_aux_items;
use sbgn_render::render::render;
use sbgn_render::style::EntityKind;

fn r(v: i64) -> Rat {
    Rat::whole(v)
}

fn g(id: &str, parent: Option<&str>, class: &str, bbox: Option<(i64, i64, i64, i64)>) -> Glyph {
    Glyph {
        id: id.to_string(),
        parent_id: parent.map(|p| p.to_string()),
        class_name: class.to_string(),
        bbox: bbox.map(|(x, y, w, h)| BBox { x: r(x), y: r(y), w: r(w), h: r(h) }),
        label: String::new(),
        ports: Vec::new(),
        has_clone: false,
        state_value: None,
        state_variable: None,
        orientation: None,
    }
}

#[test]
fn perturbing_agent_second_line_sits_at_56() {
    let rect = Rect { x0: r(0), y0: r(0), w: r(140), h: r(60) };
    let mut out: Vec<Cmd> = Vec::new();
    draw_entity_pool_aux_items(&mut out, &rect, EntityKind::PerturbingAgent, Some("u"), None)
        .unwrap();
    // two lines and the box
    assert_eq!(out.len(), 17);
    assert!(out.iter().any(|c| match c {
        Cmd::MoveTo(p) => p.y.eq_val(&r(8)),
        _ => false,
    }));
    assert!(out.iter().any(|c| match c {
        Cmd::MoveTo(p) => p.y.eq_val(&r(56)),
        _ => false,
    }));
}

#[test]
fn unspecified_entity_draws_both_boxes() {
    let rect = Rect { x0: r(0), y0: r(0), w: r(32), h: r(32) };
    let mut out: Vec<Cmd> = Vec::new();
    draw_entity_pool_aux_items(
        &mut out,
        &rect,
        EntityKind::UnspecifiedEntity,
        Some("u"),
        Some("P"),
    )
    .unwrap();
    // both lines and both boxes
    assert_eq!(out.len(), 18);
    let boxes: Vec<&Cmd> = out.iter().filter(|c| matches!(c, Cmd::LabelBox { .. })).collect();
    assert_eq!(boxes.len(), 2);
    match (boxes[0], boxes[1]) {
        (
            Cmd::LabelBox { kind: k1, x: x1, .. },
            Cmd::LabelBox { kind: k2, x: x2, .. },
        ) => {
            assert_eq!(*k1, BoxKind::UnitInfo);
            assert_eq!(*k2, BoxKind::StateVar);
            // anchors at 20 and 40 reference units, scale 1
            assert!(x1.eq_val(&r(20)));
            assert!(x2.eq_val(&r(40)));
        },
        _ => unreachable!(),
    }
}

#[test]
fn overlay_positions_rescale_with_the_node() {
    // a macromolecule at twice its reference width, equal reference height
    let rect = Rect { x0: r(0), y0: r(0), w: r(192), h: r(48) };
    let mut out: Vec<Cmd> = Vec::new();
    draw_entity_pool_aux_items(&mut out, &rect, EntityKind::Macromolecule, Some("u"), None)
        .unwrap();
    // the unit-of-information box anchors at 20 * (192/96) = 40
    assert!(out.iter().any(|c| match c {
        Cmd::LabelBox { x, y, .. } => x.eq_val(&r(40)) && y.eq_val(&r(44)),
        _ => false,
    }));
}

#[test]
fn complex_state_variable_anchors_at_88_percent() {
    let rect = Rect { x0: r(0), y0: r(0), w: r(200), h: r(100) };
    let mut out: Vec<Cmd> = Vec::new();
    draw_entity_pool_aux_items(&mut out, &rect, EntityKind::Complex, None, Some("P")).unwrap();
    assert!(out.iter().any(|c| match c {
        Cmd::LabelBox { kind, x, .. } => *kind == BoxKind::StateVar && x.eq_val(&r(176)),
        _ => false,
    }));
}

#[test]
fn simple_chemical_ignores_state_variable_overlay() {
    let mut sv = g("s1", Some("c1"), "state variable", None);
    sv.state_value = Some("P".to_string());
    let glyphs = vec![g("c1", None, "simple chemical", Some((0, 0, 48, 48))), sv];
    let bounds = compute_bounds(&glyphs).unwrap();
    let (t, _, _) = transform_with_padding(&bounds, r(10)).unwrap();
    let cmds = render(&glyphs, &Vec::new(), &t, true).unwrap();
    assert!(!cmds.iter().any(|c| matches!(c, Cmd::LabelBox { .. })));
}

#[test]
fn complex_label_sits_at_the_bottom() {
    let mut c = g("c1", None, "complex", Some((0, 0, 100, 100)));
    c.label = "X".to_string();
    let glyphs = vec![c];
    let bounds = compute_bounds(&glyphs).unwrap();
    let (t, _, _) = transform_with_padding(&bounds, r(10)).unwrap();
    let cmds = render(&glyphs, &Vec::new(), &t, true).unwrap();
    assert!(cmds.iter().any(|c| match c {
        Cmd::TextBottomCentered(_, text, _) => text == "X",
        _ => false,
    }));
    assert!(!cmds.iter().any(|c| matches!(c, Cmd::TextCentered(_, _, _))));
}

#[test]
fn association_uses_its_own_fill() {
    let glyphs = vec![g("a1", None, "association", Some((0, 0, 25, 25)))];
    let bounds = compute_bounds(&glyphs).unwrap();
    let (t, _, _) = transform_with_padding(&bounds, r(10)).unwrap();
    let cmds = render(&glyphs, &Vec::new(), &t, true).unwrap();
    assert!(cmds.iter().any(|c| matches!(c, Cmd::SetColor(Color::AssociationFill))));
}

#[test]
fn dissociation_radii() {
    let glyphs = vec![g("d1", None, "dissociation", Some((0, 0, 50, 50)))];
    let bounds = compute_bounds(&glyphs).unwrap();
    let (t, _, _) = transform_with_padding(&bounds, r(10)).unwrap();
    let cmds = render(&glyphs, &Vec::new(), &t, true).unwrap();
    let circles: Vec<&Cmd> = cmds.iter().filter(|c| matches!(c, Cmd::Circle(_, _))).collect();
    assert_eq!(circles.len(), 2);
    match (circles[0], circles[1]) {
        (Cmd::Circle(c1, r1), Cmd::Circle(c2, r2)) => {
            assert!(c1.x.eq_val(&r(35)) && c1.y.eq_val(&r(35)));
            assert!(r1.eq_val(&r(25)));
            assert!(c2.x.eq_val(&c1.x) && c2.y.eq_val(&c1.y));
            // the inner circle at 60% of the outer radius
            assert!(r2.eq_val(&r(15)));
        },
        _ => unreachable!(),
    }
}

#[test]
fn tag_notch_is_30_percent_of_height() {
    let glyphs = vec![g("t1", None, "tag", Some((0, 0, 100, 60)))];
    let bounds = compute_bounds(&glyphs).unwrap();
    let (t, _, _) = transform_with_padding(&bounds, r(10)).unwrap();
    let cmds = render(&glyphs, &Vec::new(), &t, true).unwrap();
    // notch depth 18 from the left edge at x0 = 10
    assert!(cmds.iter().any(|c| match c {
        Cmd::MoveTo(p) => p.x.eq_val(&r(28)) && p.y.eq_val(&r(10)),
        _ => false,
    }));
}

#[test]
fn explicit_left_orientation_draws_one_tick() {
    let mut p = g("p1", None, "tag", Some((0, 0, 100, 60)));
    p.orientation = Some("left".to_string());
    let glyphs = vec![p];
    let bounds = compute_bounds(&glyphs).unwrap();
    let (t, _, _) = transform_with_padding(&bounds, r(10)).unwrap();
    let cmds = render(&glyphs, &Vec::new(), &t, true).unwrap();
    // a tick from 11 pixels left of the edge to the edge, at mid-height
    assert!(cmds.iter().any(|c| match c {
        Cmd::MoveTo(p0) => p0.x.eq_val(&r(-1)) && p0.y.eq_val(&r(40)),
        _ => false,
    }));
    // and no tick on the right side
    assert!(!cmds.iter().any(|c| match c {
        Cmd::LineTo(p0) => p0.x.eq_val(&r(121)),
        _ => false,
    }));
}

#[test]
fn ghost_only_for_tabulated_classes() {
    // an unspecified entity never gets a ghost even with a multimer tag,
    // because the full class name is not in the dispatch table
    let glyphs = vec![g("u1", None, "unspecified entity multimer", Some((0, 0, 32, 32)))];
    let bounds = compute_bounds(&glyphs).unwrap();
    let (t, _, _) = transform_with_padding(&bounds, r(10)).unwrap();
    let cmds = render(&glyphs, &Vec::new(), &t, true).unwrap();
    // it falls back to a plain rectangle: one rectangle, no ellipse
    assert!(cmds.iter().any(|c| matches!(c, Cmd::Rectangle(_))));
    assert!(!cmds.iter().any(|c| matches!(c, Cmd::Ellipse(_, _, _))));
}

#[test]
fn macromolecule_multimer_ghost_offset_rescales() {
    // twice the reference size in both axes: offset 12 becomes 24
    let glyphs = vec![g("m1", None, "macromolecule multimer", Some((0, 0, 192, 96)))];
    let bounds = compute_bounds(&glyphs).unwrap();
    let (t, _, _) = transform_with_padding(&bounds, r(10)).unwrap();
    let cmds = render(&glyphs, &Vec::new(), &t, true).unwrap();
    // the ghost's rounded rectangle starts at x0 + ghost dx + corner radius:
    // 10 + 24 + 9.6 = 43.6
    let ghost_start = Rat::frac(218, 5);
    assert!(cmds.iter().any(|c| match c {
        Cmd::MoveTo(p) => p.x.eq_val(&ghost_start) && p.y.eq_val(&r(34)),
        _ => false,
    }));
}
