use uto::platform::HostOs;
use uto::discovery::{parse_tests_from_source, DiscoveredTestCase};
use uto::runner::{
    check_tests_selected, legacy_runner_command, legacy_runner_verdict, legacy_runner_warning,
    missing_tests_dir_message, record_case_outcome, sort_discovered_tests, str_lt, suite_verdict,
    test_bin_of, test_command, TestOutcome,
};
use uto::suite_report::SuiteReport;

fn case(bin: &str, name: &str) -> DiscoveredTestCase {
    DiscoveredTestCase {
        test_bin: bin.to_string(),
        test_name: name.to_string(),
        target: None,
        tags: vec![],
        timeout_ms: None,
    }
}

#[test]
fn discovered_tests_sort_by_binary_then_name_stably() {
    let mut first_dup = case("b", "x");
    first_dup.timeout_ms = Some(1);
    let mut second_dup = case("b", "x");
    second_dup.timeout_ms = Some(2);
    let sorted = sort_discovered_tests(vec![
        case("b", "y"),
        first_dup,
        case("a", "z"),
        second_dup,
        case("B", "a"),
    ]);
    let keys: Vec<(String, String, Option<u64>)> = sorted
        .iter()
        .map(|c| (c.test_bin.clone(), c.test_name.clone(), c.timeout_ms))
        .collect();
    assert_eq!(
        keys,
        vec![
            ("B".to_string(), "a".to_string(), None),
            ("a".to_string(), "z".to_string(), None),
            ("b".to_string(), "x".to_string(), Some(1)),
            ("b".to_string(), "x".to_string(), Some(2)),
            ("b".to_string(), "y".to_string(), None),
        ]
    );
}

#[test]
fn string_order_is_lexicographic() {
    assert!(str_lt("a", "b"));
    assert!(str_lt("ab", "abc"));
    assert!(!str_lt("abc", "ab"));
    assert!(!str_lt("x", "x"));
    assert!(str_lt("Z", "a"));
}

#[test]
fn test_binaries_from_file_names() {
    assert_eq!(test_bin_of("web_example.rs"), Some("web_example".to_string()));
    assert_eq!(test_bin_of("a.b.rs"), Some("a.b".to_string()));
    assert_eq!(test_bin_of(".rs"), None);
    assert_eq!(test_bin_of("notes.txt"), None);
    assert_eq!(test_bin_of("README"), None);
}

#[test]
fn selection_and_directory_messages() {
    assert_eq!(missing_tests_dir_message(HostOs::Linux, "/p", "tests"), "Missing tests directory: /p/tests");
    assert!(check_tests_selected(HostOs::Linux, &vec![case("a", "b")], "web", "/p", "tests").is_ok());
    assert_eq!(
        check_tests_selected(HostOs::Linux, &vec![], "web", "/p", "tests").unwrap_err(),
        "No tests discovered for target 'web' in /p/tests. Add #[uto_test(target = \"web\")] on test functions or use web_/mobile_ naming."
    );
}

#[test]
fn cargo_commands() {
    let c = test_command(&case("flows", "web_login"), true);
    assert_eq!(c.args, vec!["test", "--test", "flows", "web_login", "--", "--nocapture"]);
    assert_eq!(
        c.env,
        vec![
            ("RUST_LOG".to_string(), "info".to_string()),
            ("UTO_DRIVER_TRACE".to_string(), "1".to_string())
        ]
    );
    let l = legacy_runner_command("web", "/r.json", false);
    assert_eq!(
        l.args,
        vec!["run", "--bin", "uto_project_runner", "--", "--target", "web", "--json", "--report-file", "/r.json"]
    );
    assert_eq!(l.env.len(), 1);
    assert_eq!(
        legacy_runner_warning(HostOs::Linux, "/p"),
        "Warning: legacy project runner detected at /p/src/bin/uto_project_runner.rs. This compatibility mode will be removed after two minor releases."
    );
    assert!(legacy_runner_verdict(true).is_ok());
    assert_eq!(
        legacy_runner_verdict(false).unwrap_err(),
        "Legacy project runner exited with non-zero status"
    );
}

#[test]
fn recording_a_passing_and_a_failing_test() {
    let cases = parse_tests_from_source(
        "flows",
        "#[uto_test(tags = [\"smoke\"], timeout_ms = 50)]\nfn web_a() {}\n#[test]\nfn web_b() {}\n",
    );
    let mut suite = SuiteReport::new(true, None, "web", 1);
    let h = suite.begin_test(&cases[0].test_name);
    let ok = TestOutcome {
        success: true,
        exit_code: Some(0),
        stdout: String::new(),
        stderr: String::new(),
        duration_ms: 12,
    };
    record_case_outcome(&mut suite, h, &cases[0], "web", &ok);
    let h = suite.begin_test(&cases[1].test_name);
    let bad = TestOutcome {
        success: false,
        exit_code: Some(-2),
        stdout: "out".to_string(),
        stderr: "  \n".to_string(),
        duration_ms: 7,
    };
    record_case_outcome(&mut suite, h, &cases[1], "web", &bad);
    suite.finish();
    let p = suite.payload();
    assert_eq!(p.summary.passed, 1);
    assert_eq!(p.summary.failed, 1);
    assert_eq!(p.status, "partial");
    let t0 = &p.tests[0];
    assert_eq!(t0.events.len(), 2);
    assert_eq!(
        t0.events[0].detail,
        "{\"binary\":\"flows\",\"name\":\"web_a\",\"target\":\"web\",\"tags\":[\"smoke\"],\"timeout_ms\":50,\"duration_ms\":12}"
    );
    assert_eq!(t0.events[1].stage, "test.result");
    assert_eq!(t0.events[1].detail, "{\"outcome\":\"passed\"}");
    let t1 = &p.tests[1];
    assert_eq!(t1.error, Some("cargo test failed for flows::web_b".to_string()));
    assert_eq!(t1.events[1].status, "failed");
    assert_eq!(
        t1.events[1].detail,
        "{\"binary\":\"flows\",\"name\":\"web_b\",\"target\":\"web\",\"tags\":[],\"timeout_ms\":null,\"exit_code\":-2,\"duration_ms\":7,\"excerpt\":\"out\"}"
    );
    let parsed: serde_json::Value = serde_json::from_str(&t1.events[1].detail).expect("json");
    assert_eq!(parsed["excerpt"], "out");
    assert_eq!(suite_verdict(&suite).unwrap_err(), "One or more tests failed");
}
