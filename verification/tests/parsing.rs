use uto::cli_args::{
    get_flag_value, normalize_target, parse_init_args, parse_report_args, parse_run_args,
    parse_ui_args,
};

fn strings(items: &[&str]) -> Vec<String> {
    items.iter().map(|s| s.to_string()).collect()
}

#[test]
fn normalize_target_accepts_web_mobile_case_insensitive() {
    assert_eq!(normalize_target("web").expect("web"), "web");
    assert_eq!(normalize_target("MOBILE").expect("mobile"), "mobile");
}

#[test]
fn normalize_target_rejects_unknown_target() {
    let err = normalize_target("desktop").expect_err("should fail");
    assert!(err.contains("Supported values: web, mobile"));
}

#[test]
fn parse_init_args_defaults_and_flags() {
    let args = strings(&["sample", "--template", "mobile", "--uto-root", "/repo"]);
    let parsed = parse_init_args(&args, "/cwd").expect("parse init args");

    assert_eq!(parsed.project_dir, "sample");
    assert_eq!(parsed.template, "mobile");
    assert_eq!(parsed.uto_root, "/repo");
}

#[test]
fn parse_run_args_requires_project() {
    let err = parse_run_args(&[]).expect_err("should fail");
    assert!(err.contains("run requires --project"));
}

#[test]
fn parse_run_args_rejects_unknown_flag() {
    let args = strings(&["--project", "demo", "--bad"]);
    let err = parse_run_args(&args).expect_err("should fail");
    assert!(err.contains("Unknown run option"));
}

#[test]
fn parse_init_args_rejects_unknown_option() {
    let args = strings(&["sample", "--nope"]);
    let err = parse_init_args(&args, "/cwd").expect_err("should fail");
    assert!(err.contains("Unknown init option"));
}

#[test]
fn get_flag_value_requires_explicit_value() {
    let args = strings(&["--project", "--target"]);
    let err = get_flag_value(&args, 0, "--project").expect_err("should fail");
    assert!(err.contains("requires a value"));
}

#[test]
fn parse_report_args_requires_project() {
    let err = parse_report_args(&[]).expect_err("should fail");
    assert!(err.contains("report requires --project"));
}

#[test]
fn parse_report_args_supports_html_flags() {
    let args = strings(&["--project", "demo", "--html", "--html-output", "out/report.html"]);

    let parsed = parse_report_args(&args).expect("parse report args");
    assert_eq!(parsed.project, "demo");
    assert!(parsed.html);
    assert_eq!(parsed.html_output, Some("out/report.html".to_string()));
}

#[test]
fn parse_ui_args_defaults() {
    let parsed = parse_ui_args(&[]).expect("parse ui args with no args");
    assert_eq!(parsed.project, ".");
    assert_eq!(parsed.port, 4000);
    assert!(!parsed.open);
    assert!(!parsed.watch);
    assert!(parsed.report.is_none());
}

#[test]
fn parse_ui_args_all_flags() {
    let args = strings(&[
        "--project",
        "my-proj",
        "--port",
        "4001",
        "--open",
        "--watch",
        "--report",
        "out/last-run.json",
    ]);
    let parsed = parse_ui_args(&args).expect("parse ui args");
    assert_eq!(parsed.project, "my-proj");
    assert_eq!(parsed.port, 4001);
    assert!(parsed.open);
    assert!(parsed.watch);
    assert_eq!(parsed.report, Some("out/last-run.json".to_string()));
}

#[test]
fn parse_ui_args_rejects_unknown_flag() {
    let args = strings(&["--nope"]);
    let err = parse_ui_args(&args).expect_err("should fail");
    assert!(err.contains("Unknown ui option"));
}

#[test]
fn parse_ui_args_rejects_invalid_port() {
    let args = strings(&["--port", "notanumber"]);
    let err = parse_ui_args(&args).expect_err("should fail");
    assert!(err.contains("Invalid port"));
}

#[test]
fn parse_ui_args_rejects_port_zero() {
    let args = strings(&["--port", "0"]);
    let err = parse_ui_args(&args).expect_err("should fail");
    assert!(err.contains("Invalid port"));
}

#[test]
fn parse_ui_args_rejects_unexpected_positional() {
    let args = strings(&["somearg"]);
    let err = parse_ui_args(&args).expect_err("should fail");
    assert!(err.contains("Unexpected argument for ui"));
}

#[test]
fn parse_init_args_uses_current_dir_and_web_by_default() {
    let args = strings(&["proj"]);
    let parsed = parse_init_args(&args, "/work").expect("parse init args");
    assert_eq!(parsed.project_dir, "proj");
    assert_eq!(parsed.template, "web");
    assert_eq!(parsed.uto_root, "/work");
}

#[test]
fn parse_init_args_requires_project_dir_first() {
    assert_eq!(parse_init_args(&[], "/w").unwrap_err(), "init requires <project-dir>");
    let args = strings(&["--template", "web"]);
    assert_eq!(
        parse_init_args(&args, "/w").unwrap_err(),
        "init requires <project-dir> as the first argument"
    );
}

#[test]
fn parse_run_args_reads_all_flags() {
    let args = strings(&[
        "--project",
        "demo",
        "--target",
        "Mobile",
        "--report-json",
        "out.json",
        "--driver-trace",
    ]);
    let parsed = parse_run_args(&args).expect("parse run args");
    assert_eq!(parsed.project, "demo");
    assert_eq!(parsed.target, Some("mobile".to_string()));
    assert_eq!(parsed.report_json, Some("out.json".to_string()));
    assert!(parsed.driver_trace);
}

#[test]
fn get_flag_value_returns_following_argument() {
    let args = strings(&["--project", "demo"]);
    assert_eq!(get_flag_value(&args, 0, "--project"), Ok("demo"));
    assert_eq!(
        get_flag_value(&args, 1, "--target").unwrap_err(),
        "--target requires a value"
    );
}

#[test]
fn parse_ui_args_rejects_port_out_of_range() {
    let args = strings(&["--port", "70000"]);
    assert!(parse_ui_args(&args).unwrap_err().contains("Invalid port"));
}

#[test]
fn parse_init_args_accepts_dev_mode() {
    let args = strings(&["./my-tests", "--template", "web", "--dev"]);
    let parsed = parse_init_args(&args, "/cwd").expect("parse init args");
    assert_eq!(parsed.project_dir, "./my-tests");
    assert_eq!(parsed.template, "web");
    assert!(parsed.dev);

    let args = strings(&["./my-tests", "--template", "web"]);
    let parsed = parse_init_args(&args, "/cwd").expect("parse init args");
    assert!(!parsed.dev);
}
