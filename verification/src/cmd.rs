//! The vector-drawing command vocabulary the renderer produces.
//!
//! A render pass yields a flat sequence of these commands.  A drawing
//! surface replays them in order: path construction, paint-state changes,
//! fills and strokes.  Commands whose concrete expansion needs irrational
//! arithmetic (unit vectors of arbitrary segments) or text measurement carry
//! their exact defining data instead: the anchor, the direction pair and the
//! size for arrowheads and bars; the anchor, height and label for the
//! measured label boxes.

use vstd::prelude::*;

verus! {

use crate::rat::{Rat, RatV};
use crate::geom::{Pt, PtV, Rect, RectV};

/// The closed palette the notation draws with.
#[derive(Clone, Copy, Debug, PartialEq, Eq, Structural)]
pub enum Color {
    /// Pure white: text outlines, opaque arrowheads, label-box fill.
    White,
    /// The dark gray used for every border and line.
    Border,
    /// The light default fill of node shapes.
    DefaultFill,
    /// The mid gray of auxiliary separator lines.
    AuxLine,
    /// The dark fill of association glyphs.
    AssociationFill,
    /// The light gray band of clone markers.
    CloneFill,
}

/// Which measured label box a `LabelBox` command stands for.
#[derive(Clone, Copy, Debug, PartialEq, Eq, Structural)]
pub enum BoxKind {
    /// Unit of information: rounded rectangle, radius 4% of the box width.
    UnitInfo,
    /// State variable: stadium, radius 24% of the larger box side.
    StateVar,
}

/// One quarter-circle arc, named by the rectangle corner it rounds.
#[derive(Clone, Copy, Debug, PartialEq, Eq, Structural)]
pub enum Quadrant {
    TopRight,
    BottomRight,
    BottomLeft,
    TopLeft,
}

/// One drawing operation.
#[derive(Debug, PartialEq)]
pub enum Cmd {
    NewPath,
    MoveTo(Pt),
    LineTo(Pt),
    /// Cubic curve: two control points, then the end point.
    CurveTo(Pt, Pt, Pt),
    ClosePath,
    Rectangle(Rect),
    /// Full circle: center and radius.
    Circle(Pt, Rat),
    /// Axis-aligned ellipse: center and the two radii.
    Ellipse(Pt, Rat, Rat),
    /// Quarter circle: center, radius, and which corner it rounds.
    QuarterArc(Pt, Rat, Quadrant),
    SetColor(Color),
    SetLineWidth(Rat),
    Fill,
    FillPreserve,
    Stroke,
    Clip,
    Save,
    Restore,
    /// Text centered on a point; blank text is never emitted.
    TextCentered(Pt, String, Rat),
    /// Text centered horizontally, 2px above the rectangle's bottom edge.
    TextBottomCentered(Rect, String, Rat),
    /// A measured label box: the surface measures `text` at `font_px`,
    /// widens it by `padding` with a floor of `min_width`, draws the box
    /// (white fill, border stroke at `border_width`) at (`x`,`y`) with the
    /// given `height`, and centers the text in it.
    LabelBox {
        kind: BoxKind,
        x: Rat,
        y: Rat,
        height: Rat,
        text: String,
        border_width: Rat,
        font_px: Rat,
        padding: Rat,
        min_width: Rat,
    },
    /// Stroked, unfilled arrowhead: tip, the point behind it, and its size.
    OpenTriangle(Pt, Pt, Rat),
    /// White-filled then stroked arrowhead.
    OpaqueTriangle(Pt, Pt, Rat),
    /// Solid arrowhead.
    FilledTriangle(Pt, Pt, Rat),
    /// Perpendicular bar: anchor, the point behind it, bar length, and how
    /// far back along the segment its center sits.
    Bar { tip: Pt, back: Pt, length: Rat, offset: Rat },
    /// White-filled stroked circle pulled back from the tip so it overlaps
    /// the line end by half its radius.
    TangentCircle(Pt, Pt, Rat),
    /// Stroked circle centered exactly on a point.
    OpenCircle(Pt, Rat),
}

/// The mathematical value of one drawing operation.
pub enum CmdV {
    NewPath,
    MoveTo(PtV),
    LineTo(PtV),
    CurveTo(PtV, PtV, PtV),
    ClosePath,
    Rectangle(RectV),
    Circle(PtV, RatV),
    Ellipse(PtV, RatV, RatV),
    QuarterArc(PtV, RatV, Quadrant),
    SetColor(Color),
    SetLineWidth(RatV),
    Fill,
    FillPreserve,
    Stroke,
    Clip,
    Save,
    Restore,
    TextCentered(PtV, Seq<char>, RatV),
    TextBottomCentered(RectV, Seq<char>, RatV),
    LabelBox {
        kind: BoxKind,
        x: RatV,
        y: RatV,
        height: RatV,
        text: Seq<char>,
        border_width: RatV,
        font_px: RatV,
        padding: RatV,
        min_width: RatV,
    },
    OpenTriangle(PtV, PtV, RatV),
    OpaqueTriangle(PtV, PtV, RatV),
    FilledTriangle(PtV, PtV, RatV),
    Bar { tip: PtV, back: PtV, length: RatV, offset: RatV },
    TangentCircle(PtV, PtV, RatV),
    OpenCircle(PtV, RatV),
}

impl View for Cmd {
    type V = CmdV;

    open spec fn view(&self) -> CmdV {
        match self {
            Cmd::NewPath => CmdV::NewPath,
            Cmd::MoveTo(p) => CmdV::MoveTo(p@),
            Cmd::LineTo(p) => CmdV::LineTo(p@),
            Cmd::CurveTo(c1, c2, p) => CmdV::CurveTo(c1@, c2@, p@),
            Cmd::ClosePath => CmdV::ClosePath,
            Cmd::Rectangle(r) => CmdV::Rectangle(r@),
            Cmd::Circle(p, r) => CmdV::Circle(p@, r@),
            Cmd::Ellipse(p, rx, ry) => CmdV::Ellipse(p@, rx@, ry@),
            Cmd::QuarterArc(p, r, q) => CmdV::QuarterArc(p@, r@, *q),
            Cmd::SetColor(c) => CmdV::SetColor(*c),
            Cmd::SetLineWidth(w) => CmdV::SetLineWidth(w@),
            Cmd::Fill => CmdV::Fill,
            Cmd::FillPreserve => CmdV::FillPreserve,
            Cmd::Stroke => CmdV::Stroke,
            Cmd::Clip => CmdV::Clip,
            Cmd::Save => CmdV::Save,
            Cmd::Restore => CmdV::Restore,
            Cmd::TextCentered(p, t, f) => CmdV::TextCentered(p@, t@, f@),
            Cmd::TextBottomCentered(r, t, f) => CmdV::TextBottomCentered(r@, t@, f@),
            Cmd::LabelBox { kind, x, y, height, text, border_width, font_px, padding, min_width } =>
                CmdV::LabelBox {
                    kind: *kind,
                    x: x@,
                    y: y@,
                    height: height@,
                    text: text@,
                    border_width: border_width@,
                    font_px: font_px@,
                    padding: padding@,
                    min_width: min_width@,
                },
            Cmd::OpenTriangle(tip, back, s) => CmdV::OpenTriangle(tip@, back@, s@),
            Cmd::OpaqueTriangle(tip, back, s) => CmdV::OpaqueTriangle(tip@, back@, s@),
            Cmd::FilledTriangle(tip, back, s) => CmdV::FilledTriangle(tip@, back@, s@),
            Cmd::Bar { tip, back, length, offset } => CmdV::Bar {
                tip: tip@,
                back: back@,
                length: length@,
                offset: offset@,
            },
            Cmd::TangentCircle(tip, back, r) => CmdV::TangentCircle(tip@, back@, r@),
            Cmd::OpenCircle(p, r) => CmdV::OpenCircle(p@, r@),
        }
    }
}

/// The values of a command sequence.
pub open spec fn cmd_views(s: Seq<Cmd>) -> Seq<CmdV> {
    s.map_values(|c: Cmd| c@)
}

/// `new_s` extends `old_s` by exactly the commands `add`, in order.
pub open spec fn appended(old_s: Seq<Cmd>, new_s: Seq<Cmd>, add: Seq<CmdV>) -> bool {
    cmd_views(new_s) == cmd_views(old_s) + add
}

/// Two successive extensions compose into one.
pub proof fn lemma_appended_trans(s0: Seq<Cmd>, s1: Seq<Cmd>, s2: Seq<Cmd>, x: Seq<CmdV>, y: Seq<
    CmdV,
>)
    requires
        appended(s0, s1, x),
        appended(s1, s2, y),
    ensures
        appended(s0, s2, x + y),
{
    assert(cmd_views(s2) =~= cmd_views(s0) + (x + y));
}

/// An unchanged sequence is an extension by nothing.
pub proof fn lemma_appended_nil(s: Seq<Cmd>)
    ensures
        appended(s, s, Seq::<CmdV>::empty()),
{
    assert(cmd_views(s) =~= cmd_views(s) + Seq::<CmdV>::empty());
}

/// Push one command; the sequence grows by exactly its value.
pub fn emit(out: &mut Vec<Cmd>, c: Cmd)
    ensures
        appended(old(out)@, final(out)@, seq![c@]),
{
    let ghost prev = out@;
    let ghost cv = c@;
    out.push(c);
    proof {
        assert(cmd_views(out@) =~= cmd_views(prev) + seq![cv]);
    }
}

} // verus!
