use sbgn_render::rat::Rat;
use sbgn_render::style::{
    classify, ShapeClass, EntityKind, Orientation, ref_dims, ghost_offset, pool_border_width,
    label_override, label_bottom, default_horizontal, orientation_of, connector_len,
    glyph_font_px,
};

#[test]
fn classify_entity_pool_and_multimers() {
    assert_eq!(
        classify("macromolecule"),
        ShapeClass::EntityPool(EntityKind::Macromolecule, false)
    );
    assert_eq!(
        classify("macromolecule multimer"),
        ShapeClass::EntityPool(EntityKind::Macromolecule, true)
    );
    assert_eq!(
        classify("simple chemical multimer"),
        ShapeClass::EntityPool(EntityKind::SimpleChemical, true)
    );
    assert_eq!(
        classify("complex multimer"),
        ShapeClass::EntityPool(EntityKind::Complex, true)
    );
    assert_eq!(
        classify("perturbing agent"),
        ShapeClass::EntityPool(EntityKind::PerturbingAgent, false)
    );
}

#[test]
fn classify_other_families() {
    assert_eq!(classify("phenotype"), ShapeClass::Hexagon);
    assert_eq!(classify("outcome"), ShapeClass::Hexagon);
    assert_eq!(classify("source and sink"), ShapeClass::SourceSink);
    assert_eq!(classify("compartment"), ShapeClass::Compartment);
    assert_eq!(classify("tag"), ShapeClass::Tag);
    assert_eq!(classify("association"), ShapeClass::Association);
    assert_eq!(classify("dissociation"), ShapeClass::Dissociation);
    assert_eq!(classify("process"), ShapeClass::Process);
    assert_eq!(classify("omitted process"), ShapeClass::Process);
    assert_eq!(classify("uncertain process"), ShapeClass::Process);
    assert_eq!(classify("unit of information"), ShapeClass::UnitInfo);
    assert_eq!(classify("state variable"), ShapeClass::StateVar);
    assert_eq!(classify("and"), ShapeClass::Logical);
    assert_eq!(classify("or"), ShapeClass::Logical);
    assert_eq!(classify("not"), ShapeClass::Logical);
}

#[test]
fn classify_unknown_falls_back_to_plain() {
    assert_eq!(classify("mystery"), ShapeClass::Plain);
    // only the tabulated multimer names are recognized as multimers
    assert_eq!(classify("perturbing agent multimer"), ShapeClass::Plain);
    assert_eq!(classify("tag multimer"), ShapeClass::Plain);
}

#[test]
fn reference_dimensions_table() {
    assert_eq!(ref_dims(EntityKind::UnspecifiedEntity), (Rat::whole(32), Rat::whole(32)));
    assert_eq!(ref_dims(EntityKind::SimpleChemical), (Rat::whole(48), Rat::whole(48)));
    assert_eq!(ref_dims(EntityKind::Macromolecule), (Rat::whole(96), Rat::whole(48)));
    assert_eq!(ref_dims(EntityKind::NucleicAcidFeature), (Rat::whole(88), Rat::whole(56)));
    assert_eq!(ref_dims(EntityKind::Complex), (Rat::whole(10), Rat::whole(10)));
    assert_eq!(ref_dims(EntityKind::PerturbingAgent), (Rat::whole(140), Rat::whole(60)));
}

#[test]
fn ghost_offset_table() {
    assert_eq!(
        ghost_offset(EntityKind::SimpleChemical),
        Some((Rat::whole(5), Rat::whole(5)))
    );
    assert_eq!(
        ghost_offset(EntityKind::Macromolecule),
        Some((Rat::whole(12), Rat::whole(12)))
    );
    assert_eq!(
        ghost_offset(EntityKind::NucleicAcidFeature),
        Some((Rat::whole(12), Rat::whole(12)))
    );
    assert_eq!(ghost_offset(EntityKind::Complex), Some((Rat::whole(16), Rat::whole(16))));
    assert_eq!(ghost_offset(EntityKind::UnspecifiedEntity), None);
    assert_eq!(ghost_offset(EntityKind::PerturbingAgent), None);
}

#[test]
fn border_width_four_for_complex_two_otherwise() {
    assert_eq!(pool_border_width(EntityKind::Complex), Rat::whole(4));
    assert_eq!(pool_border_width(EntityKind::Macromolecule), Rat::whole(2));
    assert_eq!(pool_border_width(EntityKind::SimpleChemical), Rat::whole(2));
}

#[test]
fn label_overrides() {
    assert_eq!(label_override("and"), Some("AND"));
    assert_eq!(label_override("or"), Some("OR"));
    assert_eq!(label_override("not"), Some("NOT"));
    assert_eq!(label_override("omitted process"), Some("\\\\"));
    assert_eq!(label_override("uncertain process"), Some("?"));
    assert_eq!(label_override("process"), None);
}

#[test]
fn bottom_labels_for_complex_and_compartment() {
    assert!(label_bottom("complex"));
    assert!(label_bottom("complex multimer"));
    assert!(label_bottom("compartment"));
    assert!(!label_bottom("macromolecule"));
    assert!(!label_bottom("compartment multimer"));
}

#[test]
fn default_horizontal_classes() {
    assert!(default_horizontal("process"));
    assert!(default_horizontal("omitted process"));
    assert!(default_horizontal("uncertain process"));
    assert!(default_horizontal("association"));
    assert!(default_horizontal("dissociation"));
    assert!(!default_horizontal("macromolecule"));
}

#[test]
fn orientations_parse() {
    assert_eq!(orientation_of("horizontal"), Orientation::Horizontal);
    assert_eq!(orientation_of("vertical"), Orientation::Vertical);
    assert_eq!(orientation_of("left"), Orientation::Left);
    assert_eq!(orientation_of("right"), Orientation::Right);
    assert_eq!(orientation_of("up"), Orientation::Up);
    assert_eq!(orientation_of("down"), Orientation::Down);
    assert_eq!(orientation_of("sideways"), Orientation::Other);
}

#[test]
fn connector_lengths() {
    assert_eq!(connector_len("and"), Rat::whole(20));
    assert_eq!(connector_len("or"), Rat::whole(20));
    assert_eq!(connector_len("not"), Rat::whole(20));
    assert_eq!(connector_len("process"), Rat::whole(11));
}

#[test]
fn font_sizes() {
    assert_eq!(glyph_font_px("state variable"), Rat::whole(12));
    assert_eq!(glyph_font_px("unit of information"), Rat::whole(12));
    assert_eq!(glyph_font_px("cardinality"), Rat::whole(12));
    assert_eq!(glyph_font_px("tag"), Rat::whole(12));
    assert_eq!(glyph_font_px("macromolecule"), Rat::whole(20));
}
