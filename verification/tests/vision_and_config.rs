use uto::platform::HostOs;
use uto::cli_args::parse_run_args;
use uto::project_config::{
    enforce_legacy_runner_gate, is_supported_report_schema, load_project_config, plan_run,
    report_schema_of, validate_project_runner, LegacyRunnerGate, ReportSchema, UtoProjectConfig,
};
use uto::vision::{infer_role_hint, normalize_text, CandidateSource, StubOnnxEngine};

fn config() -> UtoProjectConfig {
    UtoProjectConfig {
        schema_version: "1".to_string(),
        project_name: "demo".to_string(),
        tests_dir: "tests".to_string(),
        default_target: "web".to_string(),
        report_dir: ".uto/reports".to_string(),
        uto_root: "/repo".to_string(),
        report_schema: "uto-suite/v1".to_string(),
        framework_version: None,
    }
}

#[test]
fn normalize_text_and_role_hints() {
    assert_eq!(normalize_text("  Submit-Order!! now "), "submit order now");
    assert_eq!(infer_role_hint("Click Me"), Some("button".to_string()));
    assert_eq!(infer_role_hint("Email Address"), Some("input".to_string()));
    assert_eq!(infer_role_hint("Terms link"), Some("link".to_string()));
    assert_eq!(infer_role_hint("Checkout"), None);
    assert_eq!(StubOnnxEngine::new().model_name(), "onnx-stub");
    assert!(StubOnnxEngine::default()
        .unconfigured_message()
        .contains("ONNX inference adapter not configured yet"));
    assert_ne!(CandidateSource::VisionOnly, CandidateSource::VisionAndAccessibility);
}

#[test]
fn config_validation() {
    assert!(config().validate().is_ok());
    let mut c = config();
    c.schema_version = "2".to_string();
    assert_eq!(c.validate().unwrap_err(), "Unsupported uto.json schema_version '2'. Expected 1");
    let mut c = config();
    c.report_schema = "x".to_string();
    assert!(c.validate().unwrap_err().starts_with("Unsupported report_schema 'x'"));
    let mut c = config();
    c.project_name = " ".to_string();
    assert_eq!(c.validate().unwrap_err(), "Invalid uto.json: project_name must not be empty");
    let mut c = config();
    c.default_target = "desktop".to_string();
    assert!(c.validate().is_err());
    assert!(is_supported_report_schema("uto-report/v1"));
    assert!(!is_supported_report_schema("uto-report/v2"));
}

#[test]
fn project_loading_decisions() {
    assert_eq!(
        load_project_config(HostOs::Linux, "/p", false, None).unwrap_err(),
        "Project directory does not exist: /p"
    );
    assert!(load_project_config(HostOs::Linux, "/p", true, None)
        .unwrap_err()
        .starts_with("Missing project config: /p/uto.json"));
    assert!(load_project_config(HostOs::Linux, "/p", true, Some(Ok(config()))).is_ok());
    assert!(validate_project_runner(HostOs::Linux, "/p", true).is_ok());
    assert!(validate_project_runner(HostOs::Linux, "/p", false)
        .unwrap_err()
        .starts_with("Missing project runner: /p/src/bin/uto_project_runner.rs"));
}

#[test]
fn report_schemas() {
    assert_eq!(report_schema_of(Some("uto-report/v1")), Ok(ReportSchema::Single));
    assert_eq!(report_schema_of(Some("uto-suite/v1")), Ok(ReportSchema::Suite));
    assert_eq!(
        report_schema_of(None).unwrap_err(),
        "Invalid report: missing schema_version"
    );
    assert!(report_schema_of(Some("v9")).unwrap_err().starts_with("Unsupported report schema 'v9'"));
}

#[test]
fn legacy_gate_by_framework_version() {
    let mut c = config();
    assert_eq!(enforce_legacy_runner_gate(HostOs::Linux, &c, "/p"), Ok(LegacyRunnerGate::Allowed));
    c.framework_version = Some("4.6".to_string());
    assert!(matches!(enforce_legacy_runner_gate(HostOs::Linux, &c, "/p"), Ok(LegacyRunnerGate::SunsetWarning(_))));
    c.framework_version = Some("4.8".to_string());
    assert!(enforce_legacy_runner_gate(HostOs::Linux, &c, "/p")
        .unwrap_err()
        .starts_with("Legacy runner mode is disabled for framework_version 4.8"));
    c.framework_version = Some("five".to_string());
    assert_eq!(
        enforce_legacy_runner_gate(HostOs::Linux, &c, "/p").unwrap_err(),
        "Invalid framework_version 'five' in uto.json. Expected '<major>.<minor>'"
    );
}

#[test]
fn run_plans() {
    let args = parse_run_args(&["--project".to_string(), "/p".to_string()]).unwrap();
    let plan = plan_run(HostOs::Linux, &args, &config()).unwrap();
    assert_eq!(plan.target, "web");
    assert_eq!(plan.report_path, "/p/.uto/reports/last-run.json");
    let mut bad = config();
    bad.default_target = "tv".to_string();
    assert!(plan_run(HostOs::Linux, &args, &bad).is_err());
}
