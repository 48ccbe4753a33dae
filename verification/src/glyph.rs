//! The parsed diagram tree: glyph nodes and arc connectors, plus the
//! data-space bounds computed from every box and port.

use vstd::prelude::*;

verus! {

use crate::rat::{Rat, RatV, rv_min, rv_max, ca_add, add_ok};
use crate::geom::{Pt, PtV, BBox, BBoxV, Bounds, RenderError, ranged};
use crate::text::{is_blank, str_eqs, blank, state_var_label, state_var_label_v};

/// One diagram node.  Coordinates are absolute data-space values; children
/// reference their parent by identifier.
pub struct Glyph {
    pub id: String,
    pub parent_id: Option<String>,
    pub class_name: String,
    pub bbox: Option<BBox>,
    pub label: String,
    pub ports: Vec<Pt>,
    pub has_clone: bool,
    pub state_value: Option<String>,
    pub state_variable: Option<String>,
    pub orientation: Option<String>,
}

pub struct GlyphV {
    pub id: Seq<char>,
    pub parent_id: Option<Seq<char>>,
    pub class_name: Seq<char>,
    pub bbox: Option<BBoxV>,
    pub label: Seq<char>,
    pub ports: Seq<PtV>,
    pub has_clone: bool,
    pub state_value: Option<Seq<char>>,
    pub state_variable: Option<Seq<char>>,
    pub orientation: Option<Seq<char>>,
}

impl View for Glyph {
    type V = GlyphV;

    open spec fn view(&self) -> GlyphV {
        GlyphV {
            id: self.id@,
            parent_id: match self.parent_id {
                Some(ref s) => Some(s@),
                None => None,
            },
            class_name: self.class_name@,
            bbox: match self.bbox {
                Some(b) => Some(b@),
                None => None,
            },
            label: self.label@,
            ports: self.ports@.map_values(|p: Pt| p@),
            has_clone: self.has_clone,
            state_value: match self.state_value {
                Some(ref s) => Some(s@),
                None => None,
            },
            state_variable: match self.state_variable {
                Some(ref s) => Some(s@),
                None => None,
            },
            orientation: match self.orientation {
                Some(ref s) => Some(s@),
                None => None,
            },
        }
    }
}

impl Glyph {
    /// Every coordinate the glyph holds is within machine range.
    pub open spec fn wf(self) -> bool {
        &&& (self.bbox matches Some(b) ==> b.wf())
        &&& forall|i: int| 0 <= i < self.ports@.len() ==> (#[trigger] self.ports@[i]).wf()
    }
}

/// One connector: a class name and an ordered polyline of data-space points.
pub struct Arc {
    pub class_name: String,
    pub points: Vec<Pt>,
}

pub struct ArcV {
    pub class_name: Seq<char>,
    pub points: Seq<PtV>,
}

impl View for Arc {
    type V = ArcV;

    open spec fn view(&self) -> ArcV {
        ArcV { class_name: self.class_name@, points: self.points@.map_values(|p: Pt| p@) }
    }
}

impl Arc {
    pub open spec fn wf(self) -> bool {
        forall|i: int| 0 <= i < self.points@.len() ==> (#[trigger] self.points@[i]).wf()
    }
}

/// The views of a glyph list.
pub open spec fn glyph_views(gs: Seq<Glyph>) -> Seq<GlyphV> {
    gs.map_values(|g: Glyph| g@)
}

pub open spec fn arc_views(arcs: Seq<Arc>) -> Seq<ArcV> {
    arcs.map_values(|a: Arc| a@)
}

// --- bounds computation: a running min/max scan over boxes and ports ---

/// Running extrema over every coordinate seen so far; `None` before the
/// first coordinate.
pub struct ScanV {
    pub min_x: Option<RatV>,
    pub max_x: Option<RatV>,
    pub min_y: Option<RatV>,
    pub max_y: Option<RatV>,
}

pub open spec fn step_min(acc: Option<RatV>, x: RatV) -> Option<RatV> {
    match acc {
        None => Some(x),
        Some(a) => Some(rv_min(a, x)),
    }
}

pub open spec fn step_max(acc: Option<RatV>, x: RatV) -> Option<RatV> {
    match acc {
        None => Some(x),
        Some(a) => Some(rv_max(a, x)),
    }
}

/// Feed one coordinate pair into the scan.
pub open spec fn scan_pt(acc: ScanV, x: RatV, y: RatV) -> ScanV {
    ScanV {
        min_x: step_min(acc.min_x, x),
        max_x: step_max(acc.max_x, x),
        min_y: step_min(acc.min_y, y),
        max_y: step_max(acc.max_y, y),
    }
}

/// Feed a bounding box: both x extents, then both y extents.
pub open spec fn scan_bbox(acc: ScanV, b: BBoxV) -> ScanV {
    ScanV {
        min_x: step_min(step_min(acc.min_x, b.x), ca_add(b.x, b.w)),
        max_x: step_max(step_max(acc.max_x, b.x), ca_add(b.x, b.w)),
        min_y: step_min(step_min(acc.min_y, b.y), ca_add(b.y, b.h)),
        max_y: step_max(step_max(acc.max_y, b.y), ca_add(b.y, b.h)),
    }
}

pub open spec fn scan_ports_upto(acc: ScanV, ports: Seq<PtV>, k: int) -> ScanV
    decreases k,
{
    if k <= 0 {
        acc
    } else {
        let prev = scan_ports_upto(acc, ports, k - 1);
        scan_pt(prev, ports[k - 1].x, ports[k - 1].y)
    }
}

/// Feed one glyph: its box, then its ports, in order.
pub open spec fn scan_glyph(acc: ScanV, g: GlyphV) -> ScanV {
    let a1 = match g.bbox {
        Some(b) => scan_bbox(acc, b),
        None => acc,
    };
    scan_ports_upto(a1, g.ports, g.ports.len() as int)
}

pub open spec fn scan_empty() -> ScanV {
    ScanV { min_x: None, max_x: None, min_y: None, max_y: None }
}

pub open spec fn scan_upto(gs: Seq<GlyphV>, i: int) -> ScanV
    decreases i,
{
    if i <= 0 {
        scan_empty()
    } else {
        scan_glyph(scan_upto(gs, i - 1), gs[i - 1])
    }
}

/// The extrema of every box corner and port of the diagram, in input order.
pub open spec fn diagram_scan(gs: Seq<GlyphV>) -> ScanV {
    scan_upto(gs, gs.len() as int)
}

fn exec_step_min(acc: &Option<Rat>, x: &Rat) -> (r: Option<Rat>)
    requires
        acc matches Some(a) ==> a.wf(),
        x.wf(),
    ensures
        r matches Some(v) ==> v.wf(),
        step_min(
            match acc {
                Some(a) => Some(a@),
                None => None,
            },
            x@,
        ) == (match r {
            Some(v) => Some(v@),
            None => None::<RatV>,
        }),
{
    match acc {
        Some(a) => Some(a.min(x)),
        None => Some(*x),
    }
}

fn exec_step_max(acc: &Option<Rat>, x: &Rat) -> (r: Option<Rat>)
    requires
        acc matches Some(a) ==> a.wf(),
        x.wf(),
    ensures
        r matches Some(v) ==> v.wf(),
        step_max(
            match acc {
                Some(a) => Some(a@),
                None => None,
            },
            x@,
        ) == (match r {
            Some(v) => Some(v@),
            None => None::<RatV>,
        }),
{
    match acc {
        Some(a) => Some(a.max(x)),
        None => Some(*x),
    }
}

/// Running extrema held in machine words.
struct ScanAcc {
    min_x: Option<Rat>,
    max_x: Option<Rat>,
    min_y: Option<Rat>,
    max_y: Option<Rat>,
}

impl ScanAcc {
    spec fn wf(self) -> bool {
        &&& (self.min_x matches Some(a) ==> a.wf())
        &&& (self.max_x matches Some(a) ==> a.wf())
        &&& (self.min_y matches Some(a) ==> a.wf())
        &&& (self.max_y matches Some(a) ==> a.wf())
    }

    spec fn view_opt(self) -> ScanV {
        ScanV {
            min_x: match self.min_x {
                Some(a) => Some(a@),
                None => None,
            },
            max_x: match self.max_x {
                Some(a) => Some(a@),
                None => None,
            },
            min_y: match self.min_y {
                Some(a) => Some(a@),
                None => None,
            },
            max_y: match self.max_y {
                Some(a) => Some(a@),
                None => None,
            },
        }
    }
}

fn scan_point_exec(acc: ScanAcc, x: &Rat, y: &Rat) -> (r: ScanAcc)
    requires
        acc.wf(),
        x.wf(),
        y.wf(),
    ensures
        r.wf(),
        r.view_opt() == scan_pt(acc.view_opt(), x@, y@),
{
    ScanAcc {
        min_x: exec_step_min(&acc.min_x, x),
        max_x: exec_step_max(&acc.max_x, x),
        min_y: exec_step_min(&acc.min_y, y),
        max_y: exec_step_max(&acc.max_y, y),
    }
}

/// Whether every box corner of the diagram stays within machine range.
pub open spec fn bounds_corners_ok(gs: Seq<GlyphV>) -> bool {
    forall|i: int|
        0 <= i < gs.len() ==> ((#[trigger] gs[i].bbox) matches Some(b) ==> add_ok(b.x, b.w)
            && add_ok(b.y, b.h))
}

/// The data-space extent of the diagram: the extrema over every bounding-box
/// corner and every port point, visited in input order.  Succeeds exactly
/// when every box corner is representable and some glyph carries a box or a
/// port; with representable corners but no coordinates at all it reports
/// `NoCoordinates`.
pub fn compute_bounds(glyphs: &Vec<Glyph>) -> (r: Result<Bounds, RenderError>)
    requires
        forall|i: int| 0 <= i < glyphs@.len() ==> (#[trigger] glyphs@[i]).wf(),
    ensures
        r matches Ok(b) ==> {
            &&& b.wf()
            &&& diagram_scan(glyph_views(glyphs@)).min_x == Some(b@.min_x)
            &&& diagram_scan(glyph_views(glyphs@)).max_x == Some(b@.max_x)
            &&& diagram_scan(glyph_views(glyphs@)).min_y == Some(b@.min_y)
            &&& diagram_scan(glyph_views(glyphs@)).max_y == Some(b@.max_y)
        },
        r is Ok <==> bounds_corners_ok(glyph_views(glyphs@)) && diagram_scan(
            glyph_views(glyphs@),
        ).min_x is Some,
        r == Err::<Bounds, RenderError>(RenderError::NoCoordinates) <==> bounds_corners_ok(
            glyph_views(glyphs@),
        ) && diagram_scan(glyph_views(glyphs@)).min_x is None,
        r == Err::<Bounds, RenderError>(RenderError::NumericRange) <==> !bounds_corners_ok(
            glyph_views(glyphs@),
        ),
{
    let ghost gv = glyph_views(glyphs@);
    let mut acc = ScanAcc { min_x: None, max_x: None, min_y: None, max_y: None };
    let mut i: usize = 0;
    assert(acc.view_opt() == scan_upto(gv, 0));
    while i < glyphs.len()
        invariant
            i <= glyphs@.len(),
            gv == glyph_views(glyphs@),
            forall|k: int| 0 <= k < glyphs@.len() ==> (#[trigger] glyphs@[k]).wf(),
            acc.wf(),
            acc.view_opt() == scan_upto(gv, i as int),
            forall|a: int|
                0 <= a < i ==> ((#[trigger] gv[a].bbox) matches Some(b) ==> add_ok(b.x, b.w)
                    && add_ok(b.y, b.h)),
        decreases glyphs@.len() - i,
    {
        let g = &glyphs[i];
        assert(gv[i as int] == g@);
        let ghost acc_in = acc.view_opt();
        if let Some(b) = g.bbox {
            let xw = match b.x.add(&b.w) {
                Some(v) => v,
                None => {
                    return Err(RenderError::NumericRange);
                },
            };
            let yh = match b.y.add(&b.h) {
                Some(v) => v,
                None => {
                    return Err(RenderError::NumericRange);
                },
            };
            acc = scan_point_exec(acc, &b.x, &b.y);
            // the box feeds x and x+w into the x scan, y and y+h into the y scan
            let acc2 = ScanAcc {
                min_x: exec_step_min(&acc.min_x, &xw),
                max_x: exec_step_max(&acc.max_x, &xw),
                min_y: exec_step_min(&acc.min_y, &yh),
                max_y: exec_step_max(&acc.max_y, &yh),
            };
            acc = acc2;
            assert(acc.view_opt() == scan_bbox(acc_in, b@));
        }
        let ghost acc_bbox = acc.view_opt();
        let mut k: usize = 0;
        while k < g.ports.len()
            invariant
                k <= g.ports@.len(),
                g.wf(),
                acc.wf(),
                acc.view_opt() == scan_ports_upto(acc_bbox, g@.ports, k as int),
            decreases g.ports@.len() - k,
        {
            let p = &g.ports[k];
            assert(g@.ports[k as int] == p@);
            acc = scan_point_exec(acc, &p.x, &p.y);
            k += 1;
        }
        assert(acc.view_opt() == scan_glyph(acc_in, gv[i as int]));
        i += 1;
        assert(acc.view_opt() == scan_upto(gv, i as int));
    }
    assert(acc.view_opt() == diagram_scan(gv));
    match (acc.min_x, acc.max_x, acc.min_y, acc.max_y) {
        (Some(min_x), Some(max_x), Some(min_y), Some(max_y)) => Ok(
            Bounds { min_x, max_x, min_y, max_y },
        ),
        _ => {
            proof {
                // the four extrema become defined together
                assert(acc.view_opt().min_x is Some ==> acc.view_opt().max_x is Some
                    && acc.view_opt().min_y is Some && acc.view_opt().max_y is Some) by {
                    lemma_scan_defined_together(gv, glyphs@.len() as int);
                }
            }
            Err(RenderError::NoCoordinates)
        },
    }
}

/// All four extrema of the scan are defined or undefined together.
proof fn lemma_scan_defined_together(gs: Seq<GlyphV>, i: int)
    ensures
        scan_upto(gs, i).min_x is Some <==> scan_upto(gs, i).max_x is Some,
        scan_upto(gs, i).min_x is Some <==> scan_upto(gs, i).min_y is Some,
        scan_upto(gs, i).min_x is Some <==> scan_upto(gs, i).max_y is Some,
    decreases i,
{
    if i > 0 {
        lemma_scan_defined_together(gs, i - 1);
        lemma_scan_glyph_defined_together(scan_upto(gs, i - 1), gs[i - 1]);
    }
}

proof fn lemma_scan_glyph_defined_together(acc: ScanV, g: GlyphV)
    requires
        acc.min_x is Some <==> acc.max_x is Some,
        acc.min_x is Some <==> acc.min_y is Some,
        acc.min_x is Some <==> acc.max_y is Some,
    ensures
        scan_glyph(acc, g).min_x is Some <==> scan_glyph(acc, g).max_x is Some,
        scan_glyph(acc, g).min_x is Some <==> scan_glyph(acc, g).min_y is Some,
        scan_glyph(acc, g).min_x is Some <==> scan_glyph(acc, g).max_y is Some,
{
    let a1 = match g.bbox {
        Some(b) => scan_bbox(acc, b),
        None => acc,
    };
    lemma_scan_ports_defined_together(a1, g.ports, g.ports.len() as int);
}

proof fn lemma_scan_ports_defined_together(acc: ScanV, ports: Seq<PtV>, k: int)
    requires
        acc.min_x is Some <==> acc.max_x is Some,
        acc.min_x is Some <==> acc.min_y is Some,
        acc.min_x is Some <==> acc.max_y is Some,
    ensures
        scan_ports_upto(acc, ports, k).min_x is Some <==> scan_ports_upto(acc, ports, k).max_x
            is Some,
        scan_ports_upto(acc, ports, k).min_x is Some <==> scan_ports_upto(acc, ports, k).min_y
            is Some,
        scan_ports_upto(acc, ports, k).min_x is Some <==> scan_ports_upto(acc, ports, k).max_y
            is Some,
    decreases k,
{
    if k > 0 {
        lemma_scan_ports_defined_together(acc, ports, k - 1);
    }
}

// --- auxiliary children lookups ---

/// The first child in the list whose class name matches, scanning from `k`.
pub open spec fn first_child_from(
    gs: Seq<GlyphV>,
    ch: Seq<int>,
    name: Seq<char>,
    k: int,
) -> Option<GlyphV>
    decreases ch.len() - k,
{
    if k < 0 || k >= ch.len() {
        None
    } else if 0 <= ch[k] < gs.len() && gs[ch[k]].class_name == name {
        Some(gs[ch[k]])
    } else {
        first_child_from(gs, ch, name, k + 1)
    }
}

/// The first matching child's label, if it is not blank.
pub open spec fn first_child_label_v(gs: Seq<GlyphV>, ch: Seq<int>, name: Seq<char>) -> Option<
    Seq<char>,
> {
    match first_child_from(gs, ch, name, 0) {
        None => None,
        Some(g) => if is_blank(g.label) {
            None
        } else {
            Some(g.label)
        },
    }
}

/// The first matching child's label, synthesized from its state value and
/// variable when the label itself is blank; `None` when still blank.
pub open spec fn first_child_state_label_v(gs: Seq<GlyphV>, ch: Seq<int>, name: Seq<char>) -> Option<
    Seq<char>,
> {
    match first_child_from(gs, ch, name, 0) {
        None => None,
        Some(g) => {
            let lab = if !is_blank(g.label) {
                g.label
            } else {
                state_var_label_v(g.state_value, g.state_variable)
            };
            if is_blank(lab) {
                None
            } else {
                Some(lab)
            }
        },
    }
}

/// The index list viewed as mathematical integers.
pub open spec fn idx_views(ch: Seq<usize>) -> Seq<int> {
    ch.map_values(|i: usize| i as int)
}

/// Find the first child of the given class and return its non-blank label.
pub fn first_child_label(glyphs: &Vec<Glyph>, children: &Vec<usize>, name: &str) -> (r: Option<
    String,
>)
    requires
        forall|j: int| 0 <= j < children@.len() ==> #[trigger] children@[j] < glyphs@.len(),
    ensures
        first_child_label_v(glyph_views(glyphs@), idx_views(children@), name@) == (match r {
            Some(ref s) => Some(s@),
            None => None::<Seq<char>>,
        }),
{
    let ghost gv = glyph_views(glyphs@);
    let ghost cv = idx_views(children@);
    let mut k: usize = 0;
    while k < children.len()
        invariant
            k <= children@.len(),
            gv == glyph_views(glyphs@),
            cv == idx_views(children@),
            forall|j: int| 0 <= j < children@.len() ==> #[trigger] children@[j] < glyphs@.len(),
            first_child_from(gv, cv, name@, 0) == first_child_from(gv, cv, name@, k as int),
        decreases children@.len() - k,
    {
        let c = children[k];
        let g = &glyphs[c];
        if str_eqs(g.class_name.as_str(), name) {
            assert(first_child_from(gv, cv, name@, k as int) == Some(g@));
            if blank(g.label.as_str()) {
                return None;
            } else {
                return Some(g.label.clone());
            }
        }
        k += 1;
    }
    None
}

/// Find the first child of the given class and return its label, falling
/// back to the synthesized state-variable label.
pub fn first_child_state_label(glyphs: &Vec<Glyph>, children: &Vec<usize>, name: &str) -> (r:
    Option<String>)
    requires
        forall|j: int| 0 <= j < children@.len() ==> #[trigger] children@[j] < glyphs@.len(),
    ensures
        first_child_state_label_v(glyph_views(glyphs@), idx_views(children@), name@) == (match r {
            Some(ref s) => Some(s@),
            None => None::<Seq<char>>,
        }),
{
    let ghost gv = glyph_views(glyphs@);
    let ghost cv = idx_views(children@);
    let mut k: usize = 0;
    while k < children.len()
        invariant
            k <= children@.len(),
            gv == glyph_views(glyphs@),
            cv == idx_views(children@),
            forall|j: int| 0 <= j < children@.len() ==> #[trigger] children@[j] < glyphs@.len(),
            first_child_from(gv, cv, name@, 0) == first_child_from(gv, cv, name@, k as int),
        decreases children@.len() - k,
    {
        let c = children[k];
        let g = &glyphs[c];
        if str_eqs(g.class_name.as_str(), name) {
            assert(first_child_from(gv, cv, name@, k as int) == Some(g@));
            let lab: String = if !blank(g.label.as_str()) {
                g.label.clone()
            } else {
                state_var_label(
                    match g.state_value {
                        Some(ref s) => Some(s.as_str()),
                        None => None,
                    },
                    match g.state_variable {
                        Some(ref s) => Some(s.as_str()),
                        None => None,
                    },
                )
            };
            if blank(lab.as_str()) {
                return None;
            } else {
                return Some(lab);
            }
        }
        k += 1;
    }
    None
}

} // verus!
