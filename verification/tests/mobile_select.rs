use uto::mobile_select::{
    build_mobile_select_xpaths, lower_attr_expr, mobile_accessibility_attrs,
    normalize_intent_label, xpath_literal,
};

#[test]
fn xpath_literal_handles_double_quotes() {
    let lit = xpath_literal("Say \"Hello\"");
    assert_eq!(lit, "'Say \"Hello\"'");
}

#[test]
fn xpath_literal_handles_both_quote_types() {
    let lit = xpath_literal("it's \"fine\"");
    assert!(lit.starts_with("concat("));
}

#[test]
fn normalize_intent_label_collapses_case_and_spaces() {
    assert_eq!(normalize_intent_label("  Search   Settings  "), "search settings");
}

#[test]
fn build_mobile_select_xpaths_includes_case_insensitive_and_contains_fallbacks() {
    let xpaths = build_mobile_select_xpaths("Search Settings");
    assert_eq!(xpaths.len(), 4);
    assert!(xpaths[0].contains("@text="));
    assert!(xpaths[0].contains("@label="));
    assert!(xpaths[1].contains("translate(normalize-space(@text)"));
    assert!(xpaths[2].contains("contains(@name"));
    assert!(xpaths[3].contains("contains(translate(normalize-space(@content-desc)"));
}

#[test]
fn build_mobile_select_xpaths_covers_hint_and_value_attrs() {
    let xpaths = build_mobile_select_xpaths("email");
    let combined = xpaths.join(" ");
    assert!(combined.contains("@hint="));
    assert!(combined.contains("@value="));
}

#[test]
fn xpath_literal_forms() {
    assert_eq!(xpath_literal("plain"), "\"plain\"");
    assert_eq!(xpath_literal("it's \"fine\""), "concat(\"it's \", '\"', \"fine\", '\"', \"\")");
}

#[test]
fn accessibility_attrs_in_order() {
    assert_eq!(
        mobile_accessibility_attrs(),
        vec!["text", "label", "name", "value", "content-desc", "hint", "resource-id"]
    );
    assert_eq!(
        lower_attr_expr("text"),
        "translate(normalize-space(@text), 'ABCDEFGHIJKLMNOPQRSTUVWXYZ', 'abcdefghijklmnopqrstuvwxyz')"
    );
}

#[test]
fn select_xpaths_exact_text() {
    let xpaths = build_mobile_select_xpaths("  OK ");
    assert_eq!(
        xpaths[0],
        "//*[@text=\"OK\" or @label=\"OK\" or @name=\"OK\" or @value=\"OK\" or @content-desc=\"OK\" or @hint=\"OK\" or @resource-id=\"OK\"]"
    );
    assert!(xpaths[1].ends_with("='ok']") || xpaths[1].ends_with("=\"ok\"]"));
}
