use uto::scenario::{
    check_output, check_ranking, check_title, device_name_or_default, next_search_label,
    scenario_start, scenario_step, scenario_test_name, ScenarioAction, ScenarioKind, ScenarioNext,
    ScenarioOp, ScenarioState, StepEvent, StepOutput,
};

fn text(s: &str) -> StepEvent {
    StepEvent::Done(StepOutput::Text(s.to_string()))
}

fn done() -> StepEvent {
    StepEvent::Done(StepOutput::Nothing)
}

fn failed(s: &str) -> StepEvent {
    StepEvent::Failed(s.to_string())
}

fn expect_op(a: &ScenarioAction) -> ScenarioOp {
    match &a.next {
        ScenarioNext::Perform(op) => *op,
        other => panic!("expected an operation, got {other:?}"),
    }
}

fn record(a: &ScenarioAction) -> (String, String, String) {
    let r = a.record.as_ref().expect("a record");
    (r.stage.to_string(), r.status.to_string(), r.detail.clone())
}

#[test]
fn ranking_scenario_passes_and_stops_driver() {
    assert_eq!(scenario_test_name(ScenarioKind::WebRanking), "web: ranking diagnostics stay readable");
    let (s, a) = scenario_start(ScenarioKind::WebRanking);
    assert!(a.record.is_none());
    assert_eq!(expect_op(&a), ScenarioOp::DiscoverChrome);

    let (s, a) = scenario_step(&s, text("120.0.1"));
    assert_eq!(
        record(&a),
        ("env.chrome_discovery".into(), "ok".into(), "{\"chrome_version\":\"120.0.1\"}".into())
    );
    assert_eq!(expect_op(&a), ScenarioOp::ProvisionChromedriver);

    let (s, a) = scenario_step(&s, text("/cache/chromedriver"));
    assert_eq!(record(&a).2, "{\"path\":\"/cache/chromedriver\"}");
    assert_eq!(expect_op(&a), ScenarioOp::StartChromedriver);

    let (s, a) = scenario_step(
        &s,
        StepEvent::Done(StepOutput::Driver { url: "http://127.0.0.1:9515".into(), port: 9515 }),
    );
    assert_eq!(
        record(&a),
        (
            "driver.chromedriver_start".into(),
            "ok".into(),
            "{\"url\":\"http://127.0.0.1:9515\",\"port\":9515}".into()
        )
    );
    assert_eq!(expect_op(&a), ScenarioOp::CreateWebSession);

    let (s, a) = scenario_step(&s, text("http://127.0.0.1:9515"));
    assert_eq!(record(&a).0, "session.web_create");
    assert_eq!(expect_op(&a), ScenarioOp::GotoRankingPage);

    let (s, a) = scenario_step(&s, done());
    assert_eq!(record(&a), ("session.goto".into(), "ok".into(), "{\"target\":\"ranking_page\"}".into()));
    assert_eq!(expect_op(&a), ScenarioOp::RankCheckout);

    let (s, a) = scenario_step(&s, text("1. Checkout (0.98)"));
    assert_eq!(
        record(&a).2,
        "{\"label\":\"Checkout\",\"summary\":\"1. Checkout (0.98)\"}"
    );
    assert_eq!(expect_op(&a), ScenarioOp::ReadTitle);

    let (s, a) = scenario_step(&s, text("UTO Intent Ranking"));
    assert_eq!(record(&a), ("assert.title".into(), "ok".into(), "{\"title\":\"UTO Intent Ranking\"}".into()));
    assert_eq!(expect_op(&a), ScenarioOp::CloseSession);

    let (s, a) = scenario_step(&s, done());
    assert!(a.record.is_none());
    assert_eq!(expect_op(&a), ScenarioOp::StopDriver);

    let (s, a) = scenario_step(&s, done());
    assert_eq!(record(&a), ("driver.chromedriver_stop".into(), "ok".into(), "{}".into()));
    match a.next {
        ScenarioNext::Finish(v) => {
            assert_eq!(v.test_status, "passed");
            assert_eq!(v.error, None);
            assert_eq!(v.result, Ok(()));
        }
        other => panic!("expected the end, got {other:?}"),
    }
    assert!(s.is_finished());
    let (s2, a) = scenario_step(&s, done());
    assert!(s2.is_finished());
    assert!(a.record.is_none());
    assert!(matches!(a.next, ScenarioNext::Done));
}

fn drive_to_run(kind: ScenarioKind) -> ScenarioState {
    let (mut s, _) = scenario_start(kind);
    loop {
        let (n, a) = scenario_step(&s, StepEvent::Done(StepOutput::Driver { url: "u".into(), port: 1 }));
        s = n;
        let op = expect_op(&a);
        if op == ScenarioOp::CreateWebSession || op == ScenarioOp::CreateMobileSession {
            return s;
        }
    }
}

#[test]
fn setup_failure_ends_test_without_stopping() {
    let (s, _) = scenario_start(ScenarioKind::WebFillAndClick);
    let (s, a) = scenario_step(&s, failed("Chrome not found"));
    assert_eq!(
        record(&a),
        ("env.chrome_discovery".into(), "failed".into(), "{\"error\":\"Chrome not found\"}".into())
    );
    match a.next {
        ScenarioNext::Finish(v) => {
            assert_eq!(v.test_status, "failed");
            assert_eq!(v.error.as_deref(), Some("Chrome not found"));
            assert_eq!(v.result, Err("Chrome not found".to_string()));
        }
        other => panic!("expected the end, got {other:?}"),
    }
    assert!(s.is_finished());
}

#[test]
fn wrong_output_fails_and_still_stops_driver() {
    let s = drive_to_run(ScenarioKind::WebFillAndClick);
    let (s, _) = scenario_step(&s, text("u")); // session
    let (s, a) = scenario_step(&s, done()); // goto
    assert_eq!(record(&a).2, "{\"target\":\"inline_form\"}");
    let (s, a) = scenario_step(&s, done()); // fill
    assert_eq!(record(&a).2, "{\"label\":\"Email Address\",\"value\":\"phase3@uto.dev\"}");
    let (s, a) = scenario_step(&s, done()); // click
    assert_eq!(record(&a).2, "{\"label\":\"Submit Order\"}");
    assert_eq!(expect_op(&a), ScenarioOp::ReadOutput);
    let (s, a) = scenario_step(&s, text("initial"));
    assert!(a.record.is_none());
    assert_eq!(expect_op(&a), ScenarioOp::StopDriver);
    let (_, a) = scenario_step(&s, failed("kill failed"));
    assert_eq!(
        record(&a),
        ("driver.chromedriver_stop".into(), "failed".into(), "{\"error\":\"kill failed\"}".into())
    );
    let msg = "Session command failed: Phase 3 web objective mismatch: expected 'phase3@uto.dev', got 'initial'";
    match a.next {
        ScenarioNext::Finish(v) => {
            assert_eq!(v.test_status, "failed");
            assert_eq!(v.error.as_deref(), Some(msg));
            assert_eq!(v.result, Err(msg.to_string()));
        }
        other => panic!("expected the end, got {other:?}"),
    }
}

#[test]
fn passed_run_returns_stop_failure() {
    let s = drive_to_run(ScenarioKind::MobileLaunch);
    let (s, a) = scenario_step(&s, text("http://127.0.0.1:4723"));
    assert_eq!(record(&a).0, "session.mobile_create");
    let (s, a) = scenario_step(&s, done());
    assert_eq!(record(&a), ("session.launch_activity".into(), "ok".into(), "{\"activity\":\"Settings\"}".into()));
    assert_eq!(expect_op(&a), ScenarioOp::CloseSession);
    let (s, a) = scenario_step(&s, done());
    assert_eq!(expect_op(&a), ScenarioOp::StopDriver);
    let (_, a) = scenario_step(&s, failed("still running"));
    assert_eq!(record(&a).0, "driver.appium_stop");
    match a.next {
        ScenarioNext::Finish(v) => {
            assert_eq!(v.test_status, "passed");
            assert_eq!(v.error, None);
            assert_eq!(v.result, Err("still running".to_string()));
        }
        other => panic!("expected the end, got {other:?}"),
    }
}

#[test]
fn mobile_setup_event_detail() {
    let (s, a) = scenario_start(ScenarioKind::MobileSearch);
    assert_eq!(expect_op(&a), ScenarioOp::PrepareMobile);
    let (_, a) = scenario_step(
        &s,
        StepEvent::Done(StepOutput::MobileEnv {
            sdk_root: "/sdk".into(),
            appium_path: "/bin/appium".into(),
            device_serial: None,
        }),
    );
    assert_eq!(
        record(&a).2,
        "{\"android_sdk_root\":\"/sdk\",\"appium_path\":\"/bin/appium\",\"device_serial\":null}"
    );
    assert_eq!(expect_op(&a), ScenarioOp::StartAppium);
}

#[test]
fn search_tries_labels_in_order_then_fails() {
    let s = drive_to_run(ScenarioKind::MobileSearch);
    let (s, _) = scenario_step(&s, text("u"));
    let (mut s, a) = scenario_step(&s, done());
    assert_eq!(expect_op(&a), ScenarioOp::SelectLabel(0));
    let labels = ["Search settings", "Search", "Rechercher", "Buscar", "Suchen"];
    for (i, label) in labels.iter().enumerate() {
        let (n, a) = scenario_step(&s, failed("not found"));
        s = n;
        assert_eq!(
            record(&a),
            (
                "intent.select".into(),
                "failed".into(),
                format!("{{\"label\":\"{label}\",\"error\":\"not found\"}}")
            )
        );
        if i + 1 < labels.len() {
            assert_eq!(expect_op(&a), ScenarioOp::SelectLabel(i + 1));
        } else {
            assert_eq!(expect_op(&a), ScenarioOp::CloseSession);
        }
    }
    let (s, a) = scenario_step(&s, failed("close failed"));
    assert_eq!(expect_op(&a), ScenarioOp::StopDriver);
    let (_, a) = scenario_step(&s, done());
    let msg = "Session command failed: Phase 3 mobile objective failed: no search label resolved";
    match a.next {
        ScenarioNext::Finish(v) => {
            assert_eq!(v.test_status, "failed");
            assert_eq!(v.result, Err(msg.to_string()));
        }
        other => panic!("expected the end, got {other:?}"),
    }
}

#[test]
fn search_stops_at_first_resolved_label() {
    let s = drive_to_run(ScenarioKind::MobileSearch);
    let (s, _) = scenario_step(&s, text("u"));
    let (s, _) = scenario_step(&s, done());
    let (s, _) = scenario_step(&s, failed("nope"));
    let (s, a) = scenario_step(&s, done());
    assert_eq!(
        record(&a),
        (
            "intent.select".into(),
            "ok".into(),
            "{\"label\":\"Search\",\"strategy\":\"mobile-accessibility\"}".into()
        )
    );
    assert_eq!(expect_op(&a), ScenarioOp::CloseSession);
    let (s, _) = scenario_step(&s, done());
    let (_, a) = scenario_step(&s, done());
    match a.next {
        ScenarioNext::Finish(v) => assert_eq!(v.result, Ok(())),
        other => panic!("expected the end, got {other:?}"),
    }
}

#[test]
fn assertion_checks() {
    assert_eq!(check_ranking("1. Checkout (0.9)"), Ok(()));
    assert_eq!(
        check_ranking("1. Cancel"),
        Err("ranking assertion failed: expected Checkout in ranking summary, got '1. Cancel'".to_string())
    );
    assert_eq!(check_title("UTO Intent Ranking", "UTO Intent Ranking"), Ok(()));
    assert_eq!(
        check_title("Other", "UTO Intent Ranking"),
        Err("title assertion failed: expected 'UTO Intent Ranking', got 'Other'".to_string())
    );
    assert_eq!(check_output("phase3@uto.dev", "phase3@uto.dev"), Ok(()));
    assert!(check_output("x", "phase3@uto.dev").is_err());
    assert_eq!(next_search_label(0), Some("Search settings"));
    assert_eq!(next_search_label(4), Some("Suchen"));
    assert_eq!(next_search_label(5), None);
    assert_eq!(device_name_or_default(&None), "emulator-5554");
    assert_eq!(device_name_or_default(&Some("R58M".to_string())), "R58M");
}
