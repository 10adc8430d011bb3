use uto::suite_report::SuiteReport;

#[test]
fn suite_single_passing_test_has_passed_status() {
    let mut suite = SuiteReport::new(true, None, "web", 4242);
    let h = suite.begin_test("example");
    suite.record_test(h, "passed", None);
    suite.finish();
    let p = suite.payload();
    assert_eq!(p.summary.total, 1);
    assert_eq!(p.summary.passed, 1);
    assert_eq!(p.status, "passed");
}

#[test]
fn suite_all_fail_has_failed_status() {
    let mut suite = SuiteReport::new(true, None, "web", 4242);
    let h = suite.begin_test("bad");
    suite.record_test(h, "failed", Some("boom".to_string()));
    suite.finish();
    assert_eq!(suite.payload().status, "failed");
}

#[test]
fn suite_mixed_results_has_partial_status() {
    let mut suite = SuiteReport::new(true, None, "web", 4242);
    let h1 = suite.begin_test("ok");
    suite.record_test(h1, "passed", None);
    let h2 = suite.begin_test("bad");
    suite.record_test(h2, "failed", Some("err".to_string()));
    suite.finish();
    assert_eq!(suite.payload().status, "partial");
    assert_eq!(suite.payload().summary.total, 2);
}

#[test]
fn suite_empty_run_is_passed() {
    let mut suite = SuiteReport::new(true, None, "web", 4242);
    suite.finish();
    assert_eq!(suite.payload().status, "passed");
}

#[test]
fn test_run_handle_records_events() {
    let suite = SuiteReport::new(true, None, "web", 4242);
    let mut h = suite.begin_test("t1");
    h.event("session.start", "ok", "{}".to_string());
    h.event("assert.title", "ok", "{\"title\":\"Example\"}".to_string());
    assert_eq!(h.events.len(), 2);
}

#[test]
fn disabled_suite_records_nothing() {
    let mut suite = SuiteReport::new(false, Some("r.json".to_string()), "mobile", 1);
    let h = suite.begin_test("x");
    suite.record_test(h, "failed", None);
    suite.finish();
    assert!(!suite.enabled());
    assert_eq!(suite.report_file(), &Some("r.json".to_string()));
    assert_eq!(suite.payload().summary.total, 0);
    assert_eq!(suite.payload().status, "running");
}

#[test]
fn suite_counts_skipped_and_unknown_statuses() {
    let mut suite = SuiteReport::new(true, None, "web", 7);
    let h = suite.begin_test("a");
    suite.record_test(h, "skipped", None);
    let h = suite.begin_test("b");
    suite.record_test(h, "weird", None);
    suite.finish();
    let p = suite.payload();
    assert_eq!(p.summary.total, 2);
    assert_eq!(p.summary.skipped, 1);
    assert_eq!(p.summary.passed, 0);
    assert_eq!(p.status, "passed");
    assert!(p.suite_id.starts_with("suite-"));
    assert!(p.suite_id.ends_with("-7"));
    assert_eq!(p.schema_version, "uto-suite/v1");
    assert!(p.timeline.finished_at_unix_ms.is_some());
}
