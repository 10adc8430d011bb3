use uto::html::escape_html;
use uto::latency::LatencyTracker;
use uto::mobile_select::xpath_literal;
use uto::mobile_session::{appium_alternate_base_url, MobileCapabilities};
use uto::suite_report::SuiteReport;

#[test]
fn alternate_base_url_toggles_back() {
    let once = appium_alternate_base_url("http://localhost:4723/").expect("alternate");
    assert_eq!(appium_alternate_base_url(&once), Some("http://localhost:4723".to_string()));
    let hub = appium_alternate_base_url("http://h/wd/hub").expect("alternate");
    assert_eq!(appium_alternate_base_url(&hub), Some("http://h/wd/hub".to_string()));
}

#[test]
fn alternate_base_url_round_trip_fails_with_doubled_slash() {
    let once = appium_alternate_base_url("http://h//wd/hub").expect("alternate");
    assert_eq!(once, "http://h/");
    assert_eq!(appium_alternate_base_url(&once), Some("http://h/wd/hub".to_string()));
}

#[test]
fn escaped_text_has_no_markup_characters() {
    let escaped = escape_html("<a href=\"x\" onclick='y'>&</a>");
    assert!(!escaped.contains('<') && !escaped.contains('>'));
    assert!(!escaped.contains('"') && !escaped.contains('\''));
}

#[test]
fn xpath_concat_pieces_rejoin_to_the_value() {
    let lit = xpath_literal("a\"b'c\"");
    assert_eq!(lit, "concat(\"a\", '\"', \"b'c\", '\"', \"\")");
}

#[test]
fn later_extra_capability_wins() {
    let caps = MobileCapabilities::ios("sim")
        .with_extra("appium:noReset", "false".to_string())
        .with_extra("appium:noReset", "true".to_string());
    let json: serde_json::Value = serde_json::from_str(&caps.to_json_pub()).expect("json");
    assert_eq!(json["appium:noReset"], true);
    assert_eq!(json.as_object().map(|o| o.len()), Some(4));
}

#[test]
fn median_never_exceeds_p95() {
    let mut tracker = LatencyTracker::new("law");
    for v in [7, 1, 9, 3, 3, 100, 2] {
        tracker.record(v);
        assert!(tracker.median().unwrap() <= tracker.p95().unwrap());
    }
}

#[test]
fn suite_status_follows_recorded_outcomes() {
    let mut suite = SuiteReport::new(true, None, "web", 9);
    for status in ["skipped", "passed", "skipped"] {
        let h = suite.begin_test(status);
        suite.record_test(h, status, None);
    }
    suite.finish();
    assert_eq!(suite.payload().status, "passed");
    let p = suite.payload();
    let counted = p.tests.iter().filter(|t| t.status == "skipped").count() as u64;
    assert_eq!(p.summary.skipped, counted);
}
