use sbgn_render::text::{
    blank, str_eqs, is_multimer_name, base_name, state_var_label, default_svg_output_path,
};

#[test]
fn blank_detects_whitespace_only() {
    assert!(blank(""));
    assert!(blank("   \t\n"));
    assert!(!blank(" x "));
}

#[test]
fn str_eqs_is_exact() {
    assert!(str_eqs("complex", "complex"));
    assert!(!str_eqs("complex", "complexx"));
    assert!(!str_eqs("complex", "Complex"));
}

#[test]
fn multimer_suffix_detected_and_stripped() {
    assert!(is_multimer_name("macromolecule multimer"));
    assert!(!is_multimer_name("macromolecule"));
    assert!(!is_multimer_name("multimer"));
    assert_eq!(base_name("macromolecule multimer"), "macromolecule");
    assert_eq!(base_name("macromolecule"), "macromolecule");
    assert_eq!(base_name(" multimer"), "");
}

#[test]
fn state_var_label_joins_value_and_variable() {
    assert_eq!(state_var_label(Some("P"), Some("S1")), "P@S1");
}

#[test]
fn state_var_label_value_only() {
    assert_eq!(state_var_label(Some("P"), None), "P");
    assert_eq!(state_var_label(Some("P"), Some("")), "P");
}

#[test]
fn state_var_label_variable_only() {
    assert_eq!(state_var_label(None, Some("S1")), "S1");
    assert_eq!(state_var_label(Some(""), Some("S1")), "S1");
}

#[test]
fn state_var_label_empty_when_neither() {
    assert_eq!(state_var_label(None, None), "");
    assert_eq!(state_var_label(Some(""), Some("")), "");
}

#[test]
fn svg_path_replaces_extension() {
    assert_eq!(default_svg_output_path("out.png"), "out.svg");
    assert_eq!(default_svg_output_path("a/b/out.png"), "a/b/out.svg");
    assert_eq!(default_svg_output_path("a.tar.gz"), "a.tar.svg");
}

#[test]
fn svg_path_appends_when_no_extension() {
    assert_eq!(default_svg_output_path("out"), "out.svg");
    assert_eq!(default_svg_output_path("a.b/c"), "a.b/c.svg");
    assert_eq!(default_svg_output_path(".hidden"), ".hidden.svg");
}

#[test]
fn svg_path_drops_trailing_separators() {
    assert_eq!(default_svg_output_path("dir/"), "dir.svg");
    assert_eq!(default_svg_output_path("a/b//"), "a/b.svg");
    assert_eq!(default_svg_output_path("a.b/"), "a.svg");
}

#[test]
fn svg_path_leaves_improper_names_alone() {
    assert_eq!(default_svg_output_path(""), "");
    assert_eq!(default_svg_output_path("/"), "/");
    assert_eq!(default_svg_output_path("x/.."), "x/..");
    assert_eq!(default_svg_output_path("."), ".");
}
