use sbgn_render::rat::Rat;
use sbgn_render::geom::Pt;
use sbgn_render::cmd::Cmd;
use sbgn_render::arcs::draw_arc;

fn r(v: i64) -> Rat {
    Rat::whole(v)
}

fn arc_cmds(class: &str, from: (i64, i64), to: (i64, i64)) -> Vec<Cmd> {
    let mut out: Vec<Cmd> = Vec::new();
    let pts = vec![
        Pt { x: r(from.0), y: r(from.1) },
        Pt { x: r(to.0), y: r(to.1) },
    ];
    draw_arc(&mut out, &pts, class, r(14), r(21), Rat::frac(49, 2)).unwrap();
    out
}

#[test]
fn assignment_gets_open_triangle() {
    let out = arc_cmds("assignment", (0, 0), (50, 50));
    assert!(matches!(out.last().unwrap(), Cmd::OpenTriangle(_, _, _)));
    let out2 = arc_cmds("unknown influence", (0, 0), (50, 50));
    assert!(matches!(out2.last().unwrap(), Cmd::OpenTriangle(_, _, _)));
}

#[test]
fn stimulation_gets_opaque_triangle() {
    let out = arc_cmds("stimulation", (0, 0), (50, 0));
    assert!(matches!(out.last().unwrap(), Cmd::OpaqueTriangle(_, _, _)));
    let out2 = arc_cmds("positive influence", (0, 0), (50, 0));
    assert!(matches!(out2.last().unwrap(), Cmd::OpaqueTriangle(_, _, _)));
}

#[test]
fn production_gets_filled_triangle() {
    let out = arc_cmds("production", (0, 0), (0, 80));
    match out.last().unwrap() {
        Cmd::FilledTriangle(tip, back, size) => {
            assert!(tip.x.eq_val(&r(0)) && tip.y.eq_val(&r(80)));
            assert!(back.x.eq_val(&r(0)) && back.y.eq_val(&r(0)));
            assert!(size.eq_val(&r(14)));
        },
        other => panic!("expected a filled triangle, got {:?}", other),
    }
}

#[test]
fn inhibition_bar_sits_on_endpoint() {
    for class in ["negative influence", "inhibition"] {
        let out = arc_cmds(class, (0, 0), (60, 0));
        match out.last().unwrap() {
            Cmd::Bar { tip, offset, length, .. } => {
                assert!(tip.x.eq_val(&r(60)));
                assert!(offset.eq_val(&r(0)));
                assert!(length.eq_val(&r(21)));
            },
            other => panic!("expected a bar, got {:?}", other),
        }
    }
}

#[test]
fn absolute_inhibition_draws_two_bars() {
    let out = arc_cmds("absolute inhibition", (0, 0), (60, 0));
    let bars: Vec<&Cmd> = out.iter().filter(|c| matches!(c, Cmd::Bar { .. })).collect();
    assert_eq!(bars.len(), 2);
    match (bars[0], bars[1]) {
        (Cmd::Bar { offset: o1, .. }, Cmd::Bar { offset: o2, .. }) => {
            assert!(o1.eq_val(&r(0)));
            assert!(o2.eq_val(&Rat::frac(49, 2)));
        },
        _ => unreachable!(),
    }
}

#[test]
fn catalysis_circle_overlaps_line_end() {
    let out = arc_cmds("catalysis", (0, 0), (100, 0));
    match out.last().unwrap() {
        Cmd::TangentCircle(tip, back, radius) => {
            assert!(tip.x.eq_val(&r(100)) && tip.y.eq_val(&r(0)));
            assert!(back.x.eq_val(&r(0)) && back.y.eq_val(&r(0)));
            // 40% of the arrow size: 5.6
            assert!(radius.eq_val(&Rat::frac(28, 5)));
        },
        other => panic!("expected a tangent circle, got {:?}", other),
    }
}

#[test]
fn degenerate_circle_classes_draw_polyline_only() {
    // a coincident final pair silently skips the circle decorations too
    let cat = arc_cmds("catalysis", (5, 5), (5, 5));
    assert_eq!(cat.len(), 5);
    assert!(!cat.iter().any(|c| matches!(c, Cmd::TangentCircle(_, _, _))));
    assert!(!cat.iter().any(|c| matches!(c, Cmd::Circle(_, _))));
    let eq = arc_cmds("equivalence arc", (5, 5), (5, 5));
    assert_eq!(eq.len(), 5);
    assert!(!eq.iter().any(|c| matches!(c, Cmd::OpenCircle(_, _))));
}

#[test]
fn degenerate_bar_classes_draw_polyline_only() {
    for class in ["negative influence", "absolute inhibition", "necessary stimulation"] {
        let out = arc_cmds(class, (5, 5), (5, 5));
        assert!(!out.iter().any(|c| matches!(c, Cmd::Bar { .. })));
        assert!(!out.iter().any(|c| matches!(c, Cmd::OpaqueTriangle(_, _, _))));
        assert!(out.iter().any(|c| matches!(c, Cmd::Stroke)));
    }
}

#[test]
fn waypoints_draw_every_segment() {
    let mut out: Vec<Cmd> = Vec::new();
    let pts = vec![
        Pt { x: r(0), y: r(0) },
        Pt { x: r(10), y: r(0) },
        Pt { x: r(10), y: r(10) },
        Pt { x: r(20), y: r(10) },
    ];
    draw_arc(&mut out, &pts, "consumption", r(14), r(21), Rat::frac(49, 2)).unwrap();
    let strokes = out.iter().filter(|c| matches!(c, Cmd::Stroke)).count();
    assert_eq!(strokes, 3);
}

#[test]
fn single_point_arc_draws_nothing() {
    let mut out: Vec<Cmd> = Vec::new();
    let pts = vec![Pt { x: r(0), y: r(0) }];
    draw_arc(&mut out, &pts, "production", r(14), r(21), Rat::frac(49, 2)).unwrap();
    assert!(out.is_empty());
}
