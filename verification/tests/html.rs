use uto::json_text::json_string;
use uto::html::{escape_html, optional_u64, render_report_html, status_class};
use uto::suite_report::{ReportEvent, UtoReportV1};

#[test]
fn render_report_html_contains_core_fields() {
    let mut report = UtoReportV1::new("run-77".to_string(), "web".to_string(), 1000);
    report.status = "passed".to_string();
    report.timeline.finished_at_unix_ms = Some(1200);
    report.timeline.duration_ms = Some(200);
    report.events.push(ReportEvent {
        stage: "session.goto".to_string(),
        status: "ok".to_string(),
        detail: "{\"url\":\"https://example.com\"}".to_string(),
    });

    let html = render_report_html(&report);
    assert!(html.contains("UTO Execution Report"));
    assert!(html.contains("run-77"));
    assert!(html.contains("session.goto"));
}

#[test]
fn render_report_html_escapes_untrusted_text() {
    let mut report = UtoReportV1::new("run-<1>".to_string(), "web".to_string(), 1000);
    report.status = "failed".to_string();
    report.error = Some("<script>alert('x')</script>".to_string());

    let html = render_report_html(&report);
    assert!(html.contains("run-&lt;1&gt;"));
    assert!(html.contains("&lt;script&gt;alert(&#39;x&#39;)&lt;/script&gt;"));
}

#[test]
fn escape_html_replaces_all_special_characters() {
    assert_eq!(escape_html("a&b<c>d\"e'f"), "a&amp;b&lt;c&gt;d&quot;e&#39;f");
    assert_eq!(escape_html(""), "");
}

#[test]
fn status_classes() {
    assert_eq!(status_class("PASSED"), "status-ok");
    assert_eq!(status_class("ok"), "status-ok");
    assert_eq!(status_class("Running"), "status-running");
    assert_eq!(status_class("failed"), "status-fail");
}

#[test]
fn optional_numbers() {
    assert_eq!(optional_u64(Some(42)), "42");
    assert_eq!(optional_u64(None), "-");
}

#[test]
fn report_without_events_has_placeholder_row() {
    let report = UtoReportV1::new("r".to_string(), "web".to_string(), 5);
    let html = render_report_html(&report);
    assert!(!html.contains("<h2>Error</h2>"));
    assert!(html.starts_with("<!doctype html>"));
    assert!(html.contains("No events recorded for this run."));
}

#[test]
fn event_details_are_pretty_printed() {
    let mut report = UtoReportV1::new("run-1".to_string(), "web".to_string(), 1);
    report.events.push(ReportEvent {
        stage: "session.goto".to_string(),
        status: "ok".to_string(),
        detail: "{\"url\":\"https://example.com\",\"n\":2}".to_string(),
    });
    let html = render_report_html(&report);
    assert!(html.contains(
        "<pre>{\n  &quot;url&quot;: &quot;https://example.com&quot;,\n  &quot;n&quot;: 2\n}</pre>"
    ));
    assert_eq!(uto::html::detail_display("{}"), "{}");
    assert_eq!(uto::html::detail_display("not json"), "\"<invalid detail json>\"");
}

#[test]
fn json_strings_are_escaped_as_serde_json_does() {
    assert_eq!(json_string("plain"), "\"plain\"");
    assert_eq!(
        json_string("a\"b\\c\n\t\r\u{8}\u{c}\u{1}\u{1f}é"),
        "\"a\\\"b\\\\c\\n\\t\\r\\b\\f\\u0001\\u001fé\""
    );
}
