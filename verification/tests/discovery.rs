use uto::discovery::{
    extract_fn_name, infer_target_from_name, parse_framework_version, parse_quoted_list,
    parse_tests_from_source, parse_uto_attributes, parse_uto_tags_attribute,
    parse_uto_target_attribute, parse_uto_timeout_attribute, select_tests_for_target,
    truncate_for_report,
};

#[test]
fn truncate_keeps_short_and_marks_long() {
    assert_eq!(truncate_for_report("abc", 3), "abc");
    assert_eq!(truncate_for_report("abcd", 2), "ab\n...<truncated>...");
}

#[test]
fn extract_fn_name_variants() {
    assert_eq!(extract_fn_name("pub async fn web_login() {"), Some("web_login".to_string()));
    assert_eq!(extract_fn_name("fn x1_y(a: u8)"), Some("x1_y".to_string()));
    assert_eq!(extract_fn_name("let fn_x = 1;"), None);
    assert_eq!(extract_fn_name("fn (x)"), None);
}

#[test]
fn target_from_name_prefix() {
    assert_eq!(infer_target_from_name("web_a"), Some("web".to_string()));
    assert_eq!(infer_target_from_name("mobile_b"), Some("mobile".to_string()));
    assert_eq!(infer_target_from_name("other"), None);
}

#[test]
fn attribute_parsing() {
    assert_eq!(
        parse_uto_target_attribute("#[uto_test(target = \"mobile\")]"),
        Some("mobile".to_string())
    );
    assert_eq!(parse_uto_target_attribute("#[test]"), None);
    assert_eq!(parse_uto_timeout_attribute("#[uto_test(timeout_ms = 1500)]"), Some(1500));
    assert_eq!(parse_uto_timeout_attribute("#[uto_test(timeout = x)]"), None);
    assert_eq!(parse_quoted_list("\"a\", \"\", \"b\""), vec!["a".to_string(), "b".to_string()]);
    assert_eq!(
        parse_uto_tags_attribute("#[uto_test(tags = [\"smoke\", \"fast\"])]"),
        vec!["smoke".to_string(), "fast".to_string()]
    );
    assert_eq!(parse_uto_tags_attribute("#[uto_test(tags(\"x\"))]"), vec!["x".to_string()]);
    let a = parse_uto_attributes("#[uto_test(target = \"web\", tags = [\"t\"], timeout_ms = 9)]");
    assert_eq!(a.target, Some("web".to_string()));
    assert_eq!(a.tags, vec!["t".to_string()]);
    assert_eq!(a.timeout_ms, Some(9));
}

#[test]
fn framework_versions() {
    assert_eq!(parse_framework_version("4.6"), Some((4, 6)));
    assert_eq!(parse_framework_version("4"), None);
    assert_eq!(parse_framework_version("4.6.1"), None);
    assert_eq!(parse_framework_version("a.b"), None);
}

#[test]
fn discovers_tests_with_attributes_across_lines() {
    let source = "#[test]\nfn web_plain() {}\n\n#[uto_test(\n  target = \"mobile\",\n  tags = [\"smoke\"]\n)]\nasync fn checkout() {}\n#[test]\nlet x = 1;\nfn not_a_test() {}\n";
    let cases = parse_tests_from_source("flows", source);
    assert_eq!(cases.len(), 2);
    assert_eq!(cases[0].test_bin, "flows");
    assert_eq!(cases[0].test_name, "web_plain");
    assert_eq!(cases[0].target, Some("web".to_string()));
    assert_eq!(cases[1].test_name, "checkout");
    assert_eq!(cases[1].target, Some("mobile".to_string()));
    assert_eq!(cases[1].tags, vec!["smoke".to_string()]);

    let web = select_tests_for_target(parse_tests_from_source("flows", source), "web");
    assert_eq!(web.len(), 1);
    assert_eq!(web[0].test_name, "web_plain");
}
