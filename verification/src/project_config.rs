//! Project configuration (`uto.json`), its validation, and the decisions the
//! CLI takes from it.
use vstd::prelude::*;

use crate::cli_args::{normalize_target, normalize_target_spec, RunArgs, RunArgsModel};
use crate::discovery::framework_version_spec;
use crate::platform::{os_join, os_join_exec, HostOs};
use crate::suite_report::{UtoReportV1, UtoSuiteReportV1};
use crate::text::{
    all_ws, chars_of, eq_str, is_blank, opt_str, push_str, string_from,
};

verus! {

pub const PROJECT_SCHEMA_VERSION: &'static str = "1";

pub const UTO_REPORT_SCHEMA_V1: &'static str = "uto-report/v1";

pub const UTO_SUITE_SCHEMA_V1: &'static str = "uto-suite/v1";

pub const DEFAULT_REPORT_SCHEMA_VERSION: &'static str = "uto-suite/v1";

pub const DEFAULT_FRAMEWORK_VERSION: &'static str = "4.5";

/// UTO project configuration from uto.json.
#[derive(Debug)]
pub struct UtoProjectConfig {
    pub schema_version: String,
    pub project_name: String,
    pub tests_dir: String,
    pub default_target: String,
    pub report_dir: String,
    pub uto_root: String,
    pub report_schema: String,
    pub framework_version: Option<String>,
}

pub ghost struct ConfigModel {
    pub schema_version: Seq<char>,
    pub project_name: Seq<char>,
    pub tests_dir: Seq<char>,
    pub default_target: Seq<char>,
    pub report_dir: Seq<char>,
    pub uto_root: Seq<char>,
    pub report_schema: Seq<char>,
    pub framework_version: Option<Seq<char>>,
}

impl View for UtoProjectConfig {
    type V = ConfigModel;

    open spec fn view(&self) -> ConfigModel {
        ConfigModel {
            schema_version: self.schema_version@,
            project_name: self.project_name@,
            tests_dir: self.tests_dir@,
            default_target: self.default_target@,
            report_dir: self.report_dir@,
            uto_root: self.uto_root@,
            report_schema: self.report_schema@,
            framework_version: opt_str(self.framework_version),
        }
    }
}

pub open spec fn is_supported_report_schema_spec(schema: Seq<char>) -> bool {
    schema == "uto-report/v1"@ || schema == "uto-suite/v1"@
}

/// Only the single-run and the suite report schemas are supported.
pub fn is_supported_report_schema(schema: &str) -> (b: bool)
    ensures
        b == is_supported_report_schema_spec(schema@),
{
    let v = chars_of(schema);
    eq_str(&v, "uto-report/v1") || eq_str(&v, "uto-suite/v1")
}

/// The first problem with a configuration, checked in this order: schema
/// version, report schema, blank project name, tests directory and report
/// directory, then the default target.
pub open spec fn validate_spec(c: ConfigModel) -> Result<(), Seq<char>> {
    if c.schema_version != "1"@ {
        Err("Unsupported uto.json schema_version '"@ + c.schema_version + "'. Expected 1"@)
    } else if !is_supported_report_schema_spec(c.report_schema) {
        Err(
            "Unsupported report_schema '"@ + c.report_schema
                + "'. Expected uto-report/v1 or uto-suite/v1"@,
        )
    } else if all_ws(c.project_name) {
        Err("Invalid uto.json: project_name must not be empty"@)
    } else if all_ws(c.tests_dir) {
        Err("Invalid uto.json: tests_dir must not be empty"@)
    } else if all_ws(c.report_dir) {
        Err("Invalid uto.json: report_dir must not be empty"@)
    } else {
        match normalize_target_spec(c.default_target) {
            Err(e) => Err(e),
            Ok(_) => Ok(()),
        }
    }
}

pub open spec fn unit_result(r: Result<(), String>) -> Result<(), Seq<char>> {
    match r {
        Ok(()) => Ok(()),
        Err(e) => Err(e@),
    }
}

impl UtoProjectConfig {
    /// Validates that the config has a recognized schema and consistent fields.
    pub fn validate(&self) -> (r: Result<(), String>)
        ensures
            unit_result(r) == validate_spec(self@),
    {
        let sv = chars_of(self.schema_version.as_str());
        if !eq_str(&sv, "1") {
            let mut msg = string_from("Unsupported uto.json schema_version '");
            push_str(&mut msg, self.schema_version.as_str());
            push_str(&mut msg, "'. Expected 1");
            return Err(msg);
        }
        if !is_supported_report_schema(self.report_schema.as_str()) {
            let mut msg = string_from("Unsupported report_schema '");
            push_str(&mut msg, self.report_schema.as_str());
            push_str(&mut msg, "'. Expected uto-report/v1 or uto-suite/v1");
            return Err(msg);
        }
        if is_blank(&chars_of(self.project_name.as_str())) {
            return Err(string_from("Invalid uto.json: project_name must not be empty"));
        }
        if is_blank(&chars_of(self.tests_dir.as_str())) {
            return Err(string_from("Invalid uto.json: tests_dir must not be empty"));
        }
        if is_blank(&chars_of(self.report_dir.as_str())) {
            return Err(string_from("Invalid uto.json: report_dir must not be empty"));
        }
        let _ = normalize_target(self.default_target.as_str())?;
        Ok(())
    }
}

pub open spec fn config_result(r: Result<UtoProjectConfig, String>) -> Result<ConfigModel, Seq<char>> {
    match r {
        Ok(c) => Ok(c@),
        Err(e) => Err(e@),
    }
}

/// Loading `uto.json` from `project`: the directory must exist, the file must
/// exist, it must read and parse (`config` holds that outcome, `None` when the
/// file is missing), and it must validate.
pub open spec fn load_config_spec(
    os: HostOs,
    project: Seq<char>,
    project_exists: bool,
    config: Option<Result<ConfigModel, Seq<char>>>,
) -> Result<ConfigModel, Seq<char>> {
    if !project_exists {
        Err("Project directory does not exist: "@ + project)
    } else {
        match config {
            None => Err(
                "Missing project config: "@ + os_join(os, project, "uto.json"@)
                    + ". Run `uto init <project-dir>` first."@,
            ),
            Some(Err(e)) => Err(e),
            Some(Ok(c)) => match validate_spec(c) {
                Err(e) => Err(e),
                Ok(()) => Ok(c),
            },
        }
    }
}

/// Loads and validates project config from uto.json, given whether the project
/// directory exists and the outcome of reading `<project>/uto.json` (`None`
/// when that file does not exist).
pub fn load_project_config(
    os: HostOs,
    project: &str,
    project_exists: bool,
    config: Option<Result<UtoProjectConfig, String>>,
) -> (r: Result<UtoProjectConfig, String>)
    ensures
        config_result(r) == load_config_spec(
            os,
            project@,
            project_exists,
            match config {
                None => None,
                Some(res) => Some(config_result(res)),
            },
        ),
{
    if !project_exists {
        let mut msg = string_from("Project directory does not exist: ");
        push_str(&mut msg, project);
        return Err(msg);
    }
    match config {
        None => {
            let path = os_join_exec(os, project, "uto.json");
            let mut msg = string_from("Missing project config: ");
            push_str(&mut msg, path.as_str());
            push_str(&mut msg, ". Run `uto init <project-dir>` first.");
            Err(msg)
        },
        Some(Err(e)) => Err(e),
        Some(Ok(c)) => {
            c.validate()?;
            Ok(c)
        },
    }
}

pub open spec fn runner_path(os: HostOs, project: Seq<char>) -> Seq<char> {
    os_join(os, project, "src/bin/uto_project_runner.rs"@)
}

pub open spec fn validate_runner_spec(os: HostOs, project: Seq<char>, runner_exists: bool) -> Result<
    (),
    Seq<char>,
> {
    if runner_exists {
        Ok(())
    } else {
        Err(
            "Missing project runner: "@ + runner_path(os, project)
                + ". Re-run `uto init` or restore the generated runner."@,
        )
    }
}

/// Validates that a project runner exists, given whether
/// `<project>/src/bin/uto_project_runner.rs` exists.
pub fn validate_project_runner(os: HostOs, project: &str, runner_exists: bool) -> (r: Result<(), String>)
    ensures
        unit_result(r) == validate_runner_spec(os, project@, runner_exists),
{
    if !runner_exists {
        let path = os_join_exec(os, project, "src/bin/uto_project_runner.rs");
        let mut msg = string_from("Missing project runner: ");
        push_str(&mut msg, path.as_str());
        push_str(&mut msg, ". Re-run `uto init` or restore the generated runner.");
        return Err(msg);
    }
    Ok(())
}

// ---------------------------------------------------------------------------
// Report artifacts
// ---------------------------------------------------------------------------

/// The two report schemas the CLI reads.
#[derive(Debug, Clone, Copy, PartialEq, Eq)]
pub enum ReportSchema {
    /// `uto-report/v1`: a single run.
    Single,
    /// `uto-suite/v1`: a suite of test cases.
    Suite,
}

pub open spec fn report_schema_spec(schema_version: Option<Seq<char>>) -> Result<
    ReportSchema,
    Seq<char>,
> {
    match schema_version {
        None => Err("Invalid report: missing schema_version"@),
        Some(s) => if s == "uto-report/v1"@ {
            Ok(ReportSchema::Single)
        } else if s == "uto-suite/v1"@ {
            Ok(ReportSchema::Suite)
        } else {
            Err("Unsupported report schema '"@ + s + "'. Expected uto-report/v1 or uto-suite/v1"@)
        },
    }
}

/// Which schema a report artifact declares, from its `schema_version` string
/// (`None` when the field is absent or not a string).
pub fn report_schema_of(schema_version: Option<&str>) -> (r: Result<ReportSchema, String>)
    ensures
        match r {
            Ok(k) => report_schema_spec(
                match schema_version {
                    Some(s) => Some(s@),
                    None => None,
                },
            ) == Ok::<ReportSchema, Seq<char>>(k),
            Err(e) => report_schema_spec(
                match schema_version {
                    Some(s) => Some(s@),
                    None => None,
                },
            ) == Err::<ReportSchema, Seq<char>>(e@),
        },
{
    match schema_version {
        None => Err(string_from("Invalid report: missing schema_version")),
        Some(s) => {
            let v = chars_of(s);
            if eq_str(&v, "uto-report/v1") {
                Ok(ReportSchema::Single)
            } else if eq_str(&v, "uto-suite/v1") {
                Ok(ReportSchema::Suite)
            } else {
                let mut msg = string_from("Unsupported report schema '");
                push_str(&mut msg, s);
                push_str(&mut msg, "'. Expected uto-report/v1 or uto-suite/v1");
                Err(msg)
            }
        },
    }
}

/// Parsed report — either a single-run or a multi-test suite.
#[derive(Debug)]
pub enum ParsedReport {
    Single(UtoReportV1),
    Suite(UtoSuiteReportV1),
}

/// A parsed report must carry a non-blank status.
pub open spec fn accept_report_spec(r: ParsedReport) -> Result<(), Seq<char>> {
    match r {
        ParsedReport::Single(s) => if all_ws(s.status@) {
            Err("Invalid report: missing status"@)
        } else {
            Ok(())
        },
        ParsedReport::Suite(s) => if all_ws(s.status@) {
            Err("Invalid suite report: missing status"@)
        } else {
            Ok(())
        },
    }
}

/// Accepts a report read with the shape its schema names, provided its
/// status is not blank.
pub fn accept_parsed_report(report: ParsedReport) -> (r: Result<ParsedReport, String>)
    ensures
        match r {
            Ok(p) => p == report && accept_report_spec(report) is Ok,
            Err(e) => accept_report_spec(report) == Err::<(), Seq<char>>(e@),
        },
{
    let blank = match &report {
        ParsedReport::Single(s) => is_blank(&chars_of(s.status.as_str())),
        ParsedReport::Suite(s) => is_blank(&chars_of(s.status.as_str())),
    };
    if blank {
        match report {
            ParsedReport::Single(_) => Err(string_from("Invalid report: missing status")),
            ParsedReport::Suite(_) => Err(string_from("Invalid suite report: missing status")),
        }
    } else {
        Ok(report)
    }
}

// ---------------------------------------------------------------------------
// Run decisions
// ---------------------------------------------------------------------------

/// Whether a project that still has a legacy runner may use it.
#[derive(Debug, PartialEq, Eq)]
pub enum LegacyRunnerGate {
    /// Supported without remark.
    Allowed,
    /// Supported, with this warning for the user (framework 4.6 and 4.7).
    SunsetWarning(String),
}

pub open spec fn effective_framework_version(v: Option<Seq<char>>) -> Seq<char> {
    match v {
        Some(s) => s,
        None => "4.5"@,
    }
}

/// The legacy runner is refused from framework 4.8 on, accepted with a warning
/// for 4.6 and 4.7, and accepted silently before; a version that is not
/// `<major>.<minor>` is an error.  `Ok(None)` stands for no warning.
pub open spec fn legacy_gate_spec(
    os: HostOs,
    framework_version: Option<Seq<char>>,
    project: Seq<char>,
) -> Result<Option<Seq<char>>, Seq<char>> {
    let v = effective_framework_version(framework_version);
    match framework_version_spec(v) {
        None => Err(
            "Invalid framework_version '"@ + v + "' in uto.json. Expected '<major>.<minor>'"@,
        ),
        Some((major, minor)) => if major > 4 || (major == 4 && minor >= 8) {
            Err(
                "Legacy runner mode is disabled for framework_version "@ + v + ". Remove "@
                    + runner_path(os, project) + " and run with CLI-owned execution only."@,
            )
        } else if major == 4 && (minor == 6 || minor == 7) {
            Ok(
                Some(
                    "Warning: framework_version "@ + v + " is in legacy sunset window. "@
                        + runner_path(os, project) + " is still supported, but support ends at 4.8."@,
                ),
            )
        } else {
            Ok(None)
        },
    }
}

pub open spec fn gate_result(r: Result<LegacyRunnerGate, String>) -> Result<
    Option<Seq<char>>,
    Seq<char>,
> {
    match r {
        Ok(LegacyRunnerGate::Allowed) => Ok(None),
        Ok(LegacyRunnerGate::SunsetWarning(w)) => Ok(Some(w@)),
        Err(e) => Err(e@),
    }
}

/// Decides whether the legacy project runner of `project` may run under the
/// configured framework version (4.5 when the config names none).
pub fn enforce_legacy_runner_gate(os: HostOs, config: &UtoProjectConfig, project: &str) -> (r: Result<
    LegacyRunnerGate,
    String,
>)
    ensures
        gate_result(r) == legacy_gate_spec(os, config@.framework_version, project@),
{
    let version: String = match &config.framework_version {
        Some(v) => v.clone(),
        None => string_from("4.5"),
    };
    let parsed = crate::discovery::parse_framework_version(version.as_str());
    match parsed {
        None => {
            let mut msg = string_from("Invalid framework_version '");
            push_str(&mut msg, version.as_str());
            push_str(&mut msg, "' in uto.json. Expected '<major>.<minor>'");
            Err(msg)
        },
        Some((major, minor)) => {
            if major > 4 || (major == 4 && minor >= 8) {
                let runner = os_join_exec(os, project, "src/bin/uto_project_runner.rs");
                let mut msg = string_from("Legacy runner mode is disabled for framework_version ");
                push_str(&mut msg, version.as_str());
                push_str(&mut msg, ". Remove ");
                push_str(&mut msg, runner.as_str());
                push_str(&mut msg, " and run with CLI-owned execution only.");
                Err(msg)
            } else if major == 4 && (minor == 6 || minor == 7) {
                let runner = os_join_exec(os, project, "src/bin/uto_project_runner.rs");
                let mut msg = string_from("Warning: framework_version ");
                push_str(&mut msg, version.as_str());
                push_str(&mut msg, " is in legacy sunset window. ");
                push_str(&mut msg, runner.as_str());
                push_str(&mut msg, " is still supported, but support ends at 4.8.");
                Ok(LegacyRunnerGate::SunsetWarning(msg))
            } else {
                Ok(LegacyRunnerGate::Allowed)
            }
        },
    }
}

/// Where `uto run` runs and writes: the target and the JSON report path.
#[derive(Debug)]
pub struct RunPlan {
    pub target: String,
    pub report_path: String,
}

pub open spec fn run_plan_spec(os: HostOs, args: RunArgsModel, config: ConfigModel) -> Result<
    (Seq<char>, Seq<char>),
    Seq<char>,
> {
    let requested = match args.target {
        Some(t) => t,
        None => config.default_target,
    };
    match normalize_target_spec(requested) {
        Err(e) => Err(e),
        Ok(t) => Ok(
            (
                t,
                match args.report_json {
                    Some(p) => p,
                    None => os_join(os, 
                        os_join(os, args.project, config.report_dir),
                        "last-run.json"@,
                    ),
                },
            ),
        ),
    }
}

/// The target of a run (the `--target` flag, else the project default) and its
/// report path (`--report-json`, else `<project>/<report_dir>/last-run.json`).
pub fn plan_run(os: HostOs, args: &RunArgs, config: &UtoProjectConfig) -> (r: Result<RunPlan, String>)
    ensures
        match r {
            Ok(p) => run_plan_spec(os, args@, config@) == Ok::<(Seq<char>, Seq<char>), Seq<char>>(
                (p.target@, p.report_path@),
            ),
            Err(e) => run_plan_spec(os, args@, config@) == Err::<(Seq<char>, Seq<char>), Seq<char>>(
                e@,
            ),
        },
{
    let requested: &str = match &args.target {
        Some(t) => t.as_str(),
        None => config.default_target.as_str(),
    };
    let target = normalize_target(requested)?;
    let report_path = match &args.report_json {
        Some(p) => p.clone(),
        None => {
            let dir = os_join_exec(os, args.project.as_str(), config.report_dir.as_str());
            os_join_exec(os, dir.as_str(), "last-run.json")
        },
    };
    Ok(RunPlan { target, report_path })
}

} // verus!
