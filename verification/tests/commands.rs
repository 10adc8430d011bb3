use uto::platform::HostOs;
use uto::cli_args::parse_report_args;
use uto::cli_commands::{
    check_project_dir_empty, check_report_exists, check_uto_root, dispatch, help_text,
    html_path_for, init_messages, init_project_config, project_name_of, report_path, report_summary,
    CliCommand,
};
use uto::project_config::{accept_parsed_report, ParsedReport};
use uto::suite_report::{UtoReportV1, UtoSuiteReportV1};

fn strings(items: &[&str]) -> Vec<String> {
    items.iter().map(|s| s.to_string()).collect()
}

#[test]
fn dispatch_commands() {
    assert_eq!(dispatch(&strings(&["uto"])), Ok(CliCommand::Help));
    assert_eq!(dispatch(&strings(&["uto", "run", "--project", "p"])), Ok(CliCommand::Run));
    assert_eq!(dispatch(&strings(&["uto", "init"])), Ok(CliCommand::Init));
    assert_eq!(dispatch(&strings(&["uto", "report"])), Ok(CliCommand::Report));
    assert_eq!(dispatch(&strings(&["uto", "ui"])), Ok(CliCommand::Ui));
    assert_eq!(dispatch(&strings(&["uto", "-h"])), Ok(CliCommand::Help));
    assert_eq!(
        dispatch(&strings(&["uto", "deploy"])),
        Err("Unknown command 'deploy'. Supported commands: init, run, report, ui".to_string())
    );
    assert!(help_text().starts_with("UTO CLI\n\nCommands:\n  uto init <project-dir>"));
}

#[test]
fn init_checks_and_config() {
    assert!(check_uto_root(HostOs::Linux, "/repo", true).is_ok());
    assert_eq!(
        check_uto_root(HostOs::Linux, "/repo", false).unwrap_err(),
        "Invalid --uto-root '/repo': expected uto-core directory at /repo/uto-core"
    );
    assert!(check_project_dir_empty("/p", false).is_ok());
    assert_eq!(
        check_project_dir_empty("/p", true).unwrap_err(),
        "Refusing to initialize non-empty directory: /p"
    );
    let config = init_project_config("demo", "mobile", "/repo");
    assert_eq!(config.schema_version, "1");
    assert_eq!(config.tests_dir, "tests");
    assert_eq!(config.default_target, "mobile");
    assert_eq!(config.report_dir, ".uto/reports");
    assert_eq!(config.report_schema, "uto-suite/v1");
    assert_eq!(config.framework_version, Some("4.5".to_string()));
    assert!(config.validate().is_ok());
    assert_eq!(
        init_messages("/w/demo", "web"),
        vec![
            "Created UTO template project at /w/demo (template: web)".to_string(),
            "Next: uto run --project /w/demo".to_string()
        ]
    );
}

#[test]
fn project_names_from_paths() {
    assert_eq!(project_name_of("/work/demo"), "demo");
    assert_eq!(project_name_of("/work/demo//"), "demo");
    assert_eq!(project_name_of("/work/demo/."), "demo");
    assert_eq!(project_name_of("/work/.."), "uto-project");
    assert_eq!(project_name_of("/"), "uto-project");
    assert_eq!(project_name_of("."), "uto-project");
    assert_eq!(project_name_of("demo"), "demo");
}

#[test]
fn report_paths_and_existence() {
    let config = init_project_config("demo", "web", "/repo");
    let args = parse_report_args(&strings(&["--project", "/p"])).unwrap();
    assert_eq!(report_path(HostOs::Linux, &args, &config), "/p/.uto/reports/last-run.json");
    let args = parse_report_args(&strings(&["--project", "/p", "--input", "x.json"])).unwrap();
    assert_eq!(report_path(HostOs::Linux, &args, &config), "x.json");
    let mut abs = init_project_config("demo", "web", "C:\\repo");
    abs.report_dir = "C:\\reports".to_string();
    let args = parse_report_args(&strings(&["--project", "P"])).unwrap();
    assert_eq!(report_path(HostOs::Windows, &args, &abs), "C:\\reports\\last-run.json");
    assert_eq!(report_path(HostOs::Windows, &args, &config), "P\\.uto/reports\\last-run.json");
    assert_eq!(
        check_report_exists("x.json", "/p", false).unwrap_err(),
        "Report file not found: x.json. Run `uto run --project /p` first or pass --input <report-path>"
    );
}

#[test]
fn report_summaries() {
    let mut single = UtoReportV1::new("run-1".to_string(), "web".to_string(), 10);
    single.status = "passed".to_string();
    single.timeline.duration_ms = Some(25);
    let lines = report_summary(&ParsedReport::Single(single), "r.json");
    assert_eq!(
        lines,
        strings(&[
            "UTO Report Summary",
            "==================",
            "Schema: uto-report/v1",
            "Run ID: run-1",
            "Mode: web",
            "Status: passed",
            "Duration (ms): 25",
            "Events: 0",
            "Report: r.json",
        ])
    );
    let suite = UtoSuiteReportV1::new("s-1".to_string(), "mobile".to_string(), 10);
    let lines = report_summary(&ParsedReport::Suite(suite), "s.json");
    assert_eq!(lines[0], "UTO Suite Report Summary");
    assert_eq!(lines[6], "Duration (ms): 0");
    assert_eq!(lines[7], "Tests: 0 total | 0 passed | 0 failed | 0 skipped");
}

#[test]
fn parsed_reports_need_a_status() {
    let mut single = UtoReportV1::new("run-1".to_string(), "web".to_string(), 10);
    single.status = "  ".to_string();
    assert_eq!(
        accept_parsed_report(ParsedReport::Single(single)).unwrap_err(),
        "Invalid report: missing status"
    );
    let mut suite = UtoSuiteReportV1::new("s".to_string(), "web".to_string(), 1);
    suite.status = String::new();
    assert_eq!(
        accept_parsed_report(ParsedReport::Suite(suite)).unwrap_err(),
        "Invalid suite report: missing status"
    );
    let ok = UtoSuiteReportV1::new("s".to_string(), "web".to_string(), 1);
    assert!(accept_parsed_report(ParsedReport::Suite(ok)).is_ok());
}

#[test]
fn html_path_replaces_the_extension() {
    assert_eq!(html_path_for("./project/.uto/reports/last-run.json"), "./project/.uto/reports/last-run.html");
    assert_eq!(html_path_for("report"), "report.html");
    assert_eq!(html_path_for("a/b.tar.gz"), "a/b.tar.html");
    assert_eq!(html_path_for("a/.hidden"), "a/.hidden.html");
    assert_eq!(html_path_for("a/b/"), "a/b.html");
    assert_eq!(html_path_for("a/b/."), "a/b.html");
    assert_eq!(html_path_for("name."), "name.html");
    assert_eq!(html_path_for("/"), "/");
    assert_eq!(html_path_for("a/.."), "a/..");
}
