//! The notation's styling tables: class dispatch, reference dimensions,
//! ghost offsets, border widths, fonts, connector lengths and label
//! overrides, all keyed by the semantic class name.

use vstd::prelude::*;

verus! {

use crate::rat::{Rat, rv_c};
use crate::text::{strip_multimer, str_eqs, base_name};

/// One of the entity-pool classes: the family that gets reference-scaled
/// overlays and, for multimers, a ghost duplicate.
#[derive(Clone, Copy, Debug, PartialEq, Eq, Structural)]
pub enum EntityKind {
    UnspecifiedEntity,
    SimpleChemical,
    Macromolecule,
    NucleicAcidFeature,
    Complex,
    PerturbingAgent,
}

/// The shape family a glyph's class name selects.
#[derive(Clone, Copy, Debug, PartialEq, Eq, Structural)]
pub enum ShapeClass {
    /// Phenotype and outcome: a hexagon.
    Hexagon,
    /// An entity-pool node; the flag says whether a multimer ghost is drawn.
    EntityPool(EntityKind, bool),
    /// Ellipse with a diagonal strike.
    SourceSink,
    /// Barrel with a thick border.
    Compartment,
    /// Notched pentagon.
    Tag,
    /// Gray-filled ellipse.
    Association,
    /// Two concentric circles.
    Dissociation,
    /// Centered square: process, omitted process, uncertain process.
    Process,
    /// Rounded rectangle at its own box.
    UnitInfo,
    /// Stadium at its own box.
    StateVar,
    /// Filled circle: and, or, not.
    Logical,
    /// Unrecognized class: plain rectangle.
    Plain,
}

/// The shape family for a full class name, exactly as the notation keys it:
/// only specific entity-pool names have multimer variants; any other name,
/// with or without a multimer suffix, falls back to the plain rectangle.
pub open spec fn classify_v(name: Seq<char>) -> ShapeClass {
    if name == "phenotype"@ || name == "outcome"@ {
        ShapeClass::Hexagon
    } else if name == "perturbing agent"@ {
        ShapeClass::EntityPool(EntityKind::PerturbingAgent, false)
    } else if name == "unspecified entity"@ {
        ShapeClass::EntityPool(EntityKind::UnspecifiedEntity, false)
    } else if name == "simple chemical"@ {
        ShapeClass::EntityPool(EntityKind::SimpleChemical, false)
    } else if name == "simple chemical multimer"@ {
        ShapeClass::EntityPool(EntityKind::SimpleChemical, true)
    } else if name == "macromolecule"@ {
        ShapeClass::EntityPool(EntityKind::Macromolecule, false)
    } else if name == "macromolecule multimer"@ {
        ShapeClass::EntityPool(EntityKind::Macromolecule, true)
    } else if name == "nucleic acid feature"@ {
        ShapeClass::EntityPool(EntityKind::NucleicAcidFeature, false)
    } else if name == "nucleic acid feature multimer"@ {
        ShapeClass::EntityPool(EntityKind::NucleicAcidFeature, true)
    } else if name == "complex"@ {
        ShapeClass::EntityPool(EntityKind::Complex, false)
    } else if name == "complex multimer"@ {
        ShapeClass::EntityPool(EntityKind::Complex, true)
    } else if name == "source and sink"@ {
        ShapeClass::SourceSink
    } else if name == "compartment"@ {
        ShapeClass::Compartment
    } else if name == "tag"@ {
        ShapeClass::Tag
    } else if name == "association"@ {
        ShapeClass::Association
    } else if name == "dissociation"@ {
        ShapeClass::Dissociation
    } else if name == "process"@ || name == "omitted process"@ || name == "uncertain process"@ {
        ShapeClass::Process
    } else if name == "unit of information"@ {
        ShapeClass::UnitInfo
    } else if name == "state variable"@ {
        ShapeClass::StateVar
    } else if name == "and"@ || name == "or"@ || name == "not"@ {
        ShapeClass::Logical
    } else {
        ShapeClass::Plain
    }
}

/// Dispatch a class name to its shape family.
pub fn classify(name: &str) -> (r: ShapeClass)
    ensures
        r == classify_v(name@),
{
    if str_eqs(name, "phenotype") || str_eqs(name, "outcome") {
        ShapeClass::Hexagon
    } else if str_eqs(name, "perturbing agent") {
        ShapeClass::EntityPool(EntityKind::PerturbingAgent, false)
    } else if str_eqs(name, "unspecified entity") {
        ShapeClass::EntityPool(EntityKind::UnspecifiedEntity, false)
    } else if str_eqs(name, "simple chemical") {
        ShapeClass::EntityPool(EntityKind::SimpleChemical, false)
    } else if str_eqs(name, "simple chemical multimer") {
        ShapeClass::EntityPool(EntityKind::SimpleChemical, true)
    } else if str_eqs(name, "macromolecule") {
        ShapeClass::EntityPool(EntityKind::Macromolecule, false)
    } else if str_eqs(name, "macromolecule multimer") {
        ShapeClass::EntityPool(EntityKind::Macromolecule, true)
    } else if str_eqs(name, "nucleic acid feature") {
        ShapeClass::EntityPool(EntityKind::NucleicAcidFeature, false)
    } else if str_eqs(name, "nucleic acid feature multimer") {
        ShapeClass::EntityPool(EntityKind::NucleicAcidFeature, true)
    } else if str_eqs(name, "complex") {
        ShapeClass::EntityPool(EntityKind::Complex, false)
    } else if str_eqs(name, "complex multimer") {
        ShapeClass::EntityPool(EntityKind::Complex, true)
    } else if str_eqs(name, "source and sink") {
        ShapeClass::SourceSink
    } else if str_eqs(name, "compartment") {
        ShapeClass::Compartment
    } else if str_eqs(name, "tag") {
        ShapeClass::Tag
    } else if str_eqs(name, "association") {
        ShapeClass::Association
    } else if str_eqs(name, "dissociation") {
        ShapeClass::Dissociation
    } else if str_eqs(name, "process") || str_eqs(name, "omitted process") || str_eqs(
        name,
        "uncertain process",
    ) {
        ShapeClass::Process
    } else if str_eqs(name, "unit of information") {
        ShapeClass::UnitInfo
    } else if str_eqs(name, "state variable") {
        ShapeClass::StateVar
    } else if str_eqs(name, "and") || str_eqs(name, "or") || str_eqs(name, "not") {
        ShapeClass::Logical
    } else {
        ShapeClass::Plain
    }
}

/// The reference (unscaled) width and height of an entity-pool class, the
/// yardstick for overlay and ghost scaling.
pub open spec fn ref_dims_v(k: EntityKind) -> (int, int) {
    match k {
        EntityKind::UnspecifiedEntity => (32, 32),
        EntityKind::SimpleChemical => (48, 48),
        EntityKind::Macromolecule => (96, 48),
        EntityKind::NucleicAcidFeature => (88, 56),
        EntityKind::Complex => (10, 10),
        EntityKind::PerturbingAgent => (140, 60),
    }
}

/// Reference dimensions of an entity-pool class.
pub fn ref_dims(k: EntityKind) -> (r: (Rat, Rat))
    ensures
        r.0.wf() && r.1.wf(),
        r.0@ == rv_c(ref_dims_v(k).0, 1),
        r.1@ == rv_c(ref_dims_v(k).1, 1),
        ref_dims_v(k).0 > 0 && ref_dims_v(k).1 > 0,
{
    match k {
        EntityKind::UnspecifiedEntity => (Rat::whole(32), Rat::whole(32)),
        EntityKind::SimpleChemical => (Rat::whole(48), Rat::whole(48)),
        EntityKind::Macromolecule => (Rat::whole(96), Rat::whole(48)),
        EntityKind::NucleicAcidFeature => (Rat::whole(88), Rat::whole(56)),
        EntityKind::Complex => (Rat::whole(10), Rat::whole(10)),
        EntityKind::PerturbingAgent => (Rat::whole(140), Rat::whole(60)),
    }
}

/// The tabulated ghost offset of a multimer class, in reference units.
pub open spec fn ghost_offset_v(k: EntityKind) -> Option<(int, int)> {
    match k {
        EntityKind::SimpleChemical => Some((5, 5)),
        EntityKind::Macromolecule => Some((12, 12)),
        EntityKind::NucleicAcidFeature => Some((12, 12)),
        EntityKind::Complex => Some((16, 16)),
        _ => None,
    }
}

/// Ghost offset of a multimer class in reference units, if it has one.
pub fn ghost_offset(k: EntityKind) -> (r: Option<(Rat, Rat)>)
    ensures
        r is Some <==> ghost_offset_v(k) is Some,
        r matches Some(p) ==> {
            &&& p.0.wf() && p.1.wf()
            &&& p.0@ == rv_c((ghost_offset_v(k)->0).0, 1)
            &&& p.1@ == rv_c((ghost_offset_v(k)->0).1, 1)
        },
{
    match k {
        EntityKind::SimpleChemical => Some((Rat::whole(5), Rat::whole(5))),
        EntityKind::Macromolecule => Some((Rat::whole(12), Rat::whole(12))),
        EntityKind::NucleicAcidFeature => Some((Rat::whole(12), Rat::whole(12))),
        EntityKind::Complex => Some((Rat::whole(16), Rat::whole(16))),
        _ => None,
    }
}

/// Entity-pool border width in pixels: 4 for complex, 2 otherwise.
pub open spec fn pool_border_width_v(k: EntityKind) -> int {
    if k == EntityKind::Complex {
        4
    } else {
        2
    }
}

pub fn pool_border_width(k: EntityKind) -> (r: Rat)
    ensures
        r.wf(),
        r@ == rv_c(pool_border_width_v(k), 1),
{
    if k == EntityKind::Complex {
        Rat::whole(4)
    } else {
        Rat::whole(2)
    }
}

/// The label drawn instead of the glyph's own for fixed-text classes.
pub open spec fn label_override_v(name: Seq<char>) -> Option<Seq<char>> {
    if name == "and"@ {
        Some("AND"@)
    } else if name == "or"@ {
        Some("OR"@)
    } else if name == "not"@ {
        Some("NOT"@)
    } else if name == "omitted process"@ {
        Some("\\\\"@)
    } else if name == "uncertain process"@ {
        Some("?"@)
    } else {
        None
    }
}

/// The fixed label override of a class, if any.
pub fn label_override(name: &str) -> (r: Option<&str>)
    ensures
        r is Some <==> label_override_v(name@) is Some,
        r matches Some(s) ==> s@ == label_override_v(name@)->0,
{
    if str_eqs(name, "and") {
        Some("AND")
    } else if str_eqs(name, "or") {
        Some("OR")
    } else if str_eqs(name, "not") {
        Some("NOT")
    } else if str_eqs(name, "omitted process") {
        Some("\\\\")
    } else if str_eqs(name, "uncertain process") {
        Some("?")
    } else {
        None
    }
}

/// Classes whose label sits at the bottom of the shape: complex (in any
/// multimer form) and compartment.
pub open spec fn label_bottom_v(name: Seq<char>) -> bool {
    strip_multimer(name) == "complex"@ || name == "compartment"@
}

pub fn label_bottom(name: &str) -> (r: bool)
    ensures
        r == label_bottom_v(name@),
{
    let base = base_name(name);
    str_eqs(base, "complex") || str_eqs(name, "compartment")
}

/// Classes that default to a horizontal orientation when none is given.
pub open spec fn default_horizontal_v(name: Seq<char>) -> bool {
    ||| name == "process"@
    ||| name == "omitted process"@
    ||| name == "uncertain process"@
    ||| name == "association"@
    ||| name == "dissociation"@
}

pub fn default_horizontal(name: &str) -> (r: bool)
    ensures
        r == default_horizontal_v(name@),
{
    str_eqs(name, "process") || str_eqs(name, "omitted process") || str_eqs(
        name,
        "uncertain process",
    ) || str_eqs(name, "association") || str_eqs(name, "dissociation")
}

/// An orientation tag.
#[derive(Clone, Copy, Debug, PartialEq, Eq, Structural)]
pub enum Orientation {
    Horizontal,
    Vertical,
    Left,
    Right,
    Up,
    Down,
    /// An unrecognized tag: the marker pass runs but draws no lines.
    Other,
}

pub open spec fn orientation_v(s: Seq<char>) -> Orientation {
    if s == "horizontal"@ {
        Orientation::Horizontal
    } else if s == "vertical"@ {
        Orientation::Vertical
    } else if s == "left"@ {
        Orientation::Left
    } else if s == "right"@ {
        Orientation::Right
    } else if s == "up"@ {
        Orientation::Up
    } else if s == "down"@ {
        Orientation::Down
    } else {
        Orientation::Other
    }
}

pub fn orientation_of(s: &str) -> (r: Orientation)
    ensures
        r == orientation_v(s@),
{
    if str_eqs(s, "horizontal") {
        Orientation::Horizontal
    } else if str_eqs(s, "vertical") {
        Orientation::Vertical
    } else if str_eqs(s, "left") {
        Orientation::Left
    } else if str_eqs(s, "right") {
        Orientation::Right
    } else if str_eqs(s, "up") {
        Orientation::Up
    } else if str_eqs(s, "down") {
        Orientation::Down
    } else {
        Orientation::Other
    }
}

/// Orientation tick length in reference units: 20 for logical operators,
/// 11 for everything else.
pub open spec fn connector_len_v(name: Seq<char>) -> int {
    if name == "and"@ || name == "or"@ || name == "not"@ {
        20
    } else {
        11
    }
}

pub fn connector_len(name: &str) -> (r: Rat)
    ensures
        r.wf(),
        r@ == rv_c(connector_len_v(name@), 1),
{
    if str_eqs(name, "and") || str_eqs(name, "or") || str_eqs(name, "not") {
        Rat::whole(20)
    } else {
        Rat::whole(11)
    }
}

/// Font size in pixels: 12 for small annotation classes, 20 otherwise.
pub open spec fn font_px_v(name: Seq<char>) -> int {
    if name == "state variable"@ || name == "unit of information"@ || name == "cardinality"@ || name
        == "variable value"@ || name == "tag"@ || name == "terminal"@ {
        12
    } else {
        20
    }
}

pub fn glyph_font_px(name: &str) -> (r: Rat)
    ensures
        r.wf(),
        r@ == rv_c(font_px_v(name@), 1),
{
    if str_eqs(name, "state variable") || str_eqs(name, "unit of information") || str_eqs(
        name,
        "cardinality",
    ) || str_eqs(name, "variable value") || str_eqs(name, "tag") || str_eqs(name, "terminal") {
        Rat::whole(12)
    } else {
        Rat::whole(20)
    }
}

} // verus!
