use uto::demo_cli::{
    demo_suite_verdict, fail_scenario, parse_cli_options, DemoEnv, DemoMode, ReportFormat,
};
use uto::driver::{driver_launch, process_label, readiness_step, status_url, DriverKind, ReadyStep};
use uto::suite_report::SuiteReport;

fn strings(items: &[&str]) -> Vec<String> {
    items.iter().map(|s| s.to_string()).collect()
}

fn no_env() -> DemoEnv {
    DemoEnv { demo: None, report_format: None, report_file: None, report_html: None, report_html_file: None }
}

#[test]
fn driver_launches() {
    let c = driver_launch(DriverKind::ChromeDriver, 9515);
    assert_eq!(c.args, vec!["--port=9515"]);
    assert_eq!(c.url, "http://localhost:9515");
    assert_eq!(c.ready_timeout_ms, 10_000);
    let a = driver_launch(DriverKind::Appium, 4723);
    assert_eq!(a.args, vec!["--port", "4723"]);
    assert_eq!(a.ready_timeout_ms, 30_000);
    assert_eq!(status_url("http://localhost:1"), "http://localhost:1/status");
}

#[test]
fn readiness_decisions() {
    assert_eq!(readiness_step("u", 10_000, true, 50, 10), ReadyStep::Ready);
    assert_eq!(readiness_step("u", 10_000, false, 5, 10), ReadyStep::RetryAfterMs(500));
    assert_eq!(
        readiness_step("http://x", 10_000, false, 10, 10),
        ReadyStep::TimedOut("Driver at http://x did not become ready within 10s".to_string())
    );
    assert_eq!(
        readiness_step("h", 300, false, 11, 10),
        ReadyStep::TimedOut("Driver at h did not become ready within 300ms".to_string())
    );
    assert_eq!(
        readiness_step("h", 1_050, false, 11, 10),
        ReadyStep::TimedOut(format!("Driver at h did not become ready within {:?}", std::time::Duration::from_millis(1_050)))
    );
    assert_eq!(
        readiness_step("h", 2_500, false, 11, 10),
        ReadyStep::TimedOut(format!("Driver at h did not become ready within {:?}", std::time::Duration::from_millis(2_500)))
    );
}

#[test]
fn process_labels() {
    assert_eq!(process_label("runner", 42), "runner[pid=42]");
}

#[test]
fn demo_options_from_env_and_args() {
    let o = parse_cli_options(&no_env(), &strings(&["poc"]));
    assert_eq!(o.demo_mode, DemoMode::Web);
    assert_eq!(o.report_format, ReportFormat::Text);
    assert!(!o.report_html);

    let env = DemoEnv {
        demo: Some("MOBILE".to_string()),
        report_format: Some("Json".to_string()),
        report_file: Some("env.json".to_string()),
        report_html: Some("TRUE".to_string()),
        report_html_file: None,
    };
    let o = parse_cli_options(&env, &strings(&["poc"]));
    assert_eq!(o.demo_mode, DemoMode::Mobile);
    assert_eq!(o.report_format, ReportFormat::Json);
    assert_eq!(o.report_file, Some("env.json".to_string()));
    assert!(o.report_html);

    let o = parse_cli_options(
        &env,
        &strings(&["poc", "--web", "--report-file", "a.json", "--html-file", "h.html", "--bogus", "--report-file"]),
    );
    assert_eq!(o.demo_mode, DemoMode::Web);
    assert_eq!(o.report_file, Some("a.json".to_string()));
    assert_eq!(o.report_html_file, Some("h.html".to_string()));
    assert_eq!(DemoMode::Mobile.as_str(), "mobile");
    assert_eq!(DemoMode::Web.as_str(), "web");
}

#[test]
fn failed_scenarios_are_recorded() {
    let mut suite = SuiteReport::new(true, None, "web", 3);
    let h = suite.begin_test("web: case");
    fail_scenario(&mut suite, h, "env.chrome_discovery", "no chrome");
    let p = suite.payload();
    assert_eq!(p.summary.failed, 1);
    assert_eq!(p.tests[0].error, Some("no chrome".to_string()));
    assert_eq!(p.tests[0].events[0].stage, "env.chrome_discovery");
    assert_eq!(p.tests[0].events[0].detail, "{\"error\":\"no chrome\"}");
    assert!(demo_suite_verdict(DemoMode::Web, false).is_ok());
    assert_eq!(demo_suite_verdict(DemoMode::Mobile, true).unwrap_err(), "Phase 3 mobile suite failed");
}
