//! The `uto` command line: which command runs, and the checks, texts and
//! configuration of `init` and `report`.  The program does the file work.
use vstd::prelude::*;

use crate::cli_args::{ReportArgs, ReportArgsModel};
use crate::mobile_session::trim_slashes;
use crate::platform::{os_join, os_join_exec, HostOs};
use crate::project_config::{ConfigModel, ParsedReport, UtoProjectConfig};
use crate::suite_report::UtoSuiteReportV1;
use crate::text::{
    chars_of, decimal, decimal_string, eq_str, push_str, string_from,
    string_of_range, strs,
};

verus! {

// ---------------------------------------------------------------------------
// Dispatch
// ---------------------------------------------------------------------------

/// The `uto` sub-commands.
#[derive(Debug, Clone, Copy, PartialEq, Eq)]
pub enum CliCommand {
    Help,
    Init,
    Run,
    Report,
    Ui,
}

pub open spec fn dispatch_spec(args: Seq<Seq<char>>) -> Result<CliCommand, Seq<char>> {
    if args.len() < 2 {
        Ok(CliCommand::Help)
    } else {
        let c = args[1];
        if c == "init"@ {
            Ok(CliCommand::Init)
        } else if c == "run"@ {
            Ok(CliCommand::Run)
        } else if c == "report"@ {
            Ok(CliCommand::Report)
        } else if c == "ui"@ {
            Ok(CliCommand::Ui)
        } else if c == "help"@ || c == "--help"@ || c == "-h"@ {
            Ok(CliCommand::Help)
        } else {
            Err("Unknown command '"@ + c + "'. Supported commands: init, run, report, ui"@)
        }
    }
}

/// The command named by `args[1]` (help when there is none); its own
/// arguments are `args[2..]`.
pub fn dispatch(args: &[String]) -> (r: Result<CliCommand, String>)
    ensures
        match r {
            Ok(c) => dispatch_spec(strs(args@)) == Ok::<CliCommand, Seq<char>>(c),
            Err(e) => dispatch_spec(strs(args@)) == Err::<CliCommand, Seq<char>>(e@),
        },
{
    if args.len() < 2 {
        return Ok(CliCommand::Help);
    }
    assert(strs(args@)[1] == args@[1]@);
    let c = chars_of(args[1].as_str());
    if eq_str(&c, "init") {
        Ok(CliCommand::Init)
    } else if eq_str(&c, "run") {
        Ok(CliCommand::Run)
    } else if eq_str(&c, "report") {
        Ok(CliCommand::Report)
    } else if eq_str(&c, "ui") {
        Ok(CliCommand::Ui)
    } else if eq_str(&c, "help") || eq_str(&c, "--help") || eq_str(&c, "-h") {
        Ok(CliCommand::Help)
    } else {
        let mut m = string_from("Unknown command '");
        push_str(&mut m, args[1].as_str());
        push_str(&mut m, "'. Supported commands: init, run, report, ui");
        Err(m)
    }
}

/// The usage text of `uto help`.
pub fn help_text() -> (r: &'static str)
    ensures
        r@
            == "UTO CLI\n\nCommands:\n  uto init <project-dir> [--template web|mobile] [--uto-root <path>]\n  uto run --project <project-dir> [--target web|mobile] [--report-json <path>] [--driver-trace]\n  uto report --project <project-dir> [--input <report-path>] [--html] [--html-output <report.html>]\n  uto ui [--project <project-dir>] [--port <port>] [--open] [--watch] [--report <report-path>]"@,
{
    "UTO CLI\n\nCommands:\n  uto init <project-dir> [--template web|mobile] [--uto-root <path>]\n  uto run --project <project-dir> [--target web|mobile] [--report-json <path>] [--driver-trace]\n  uto report --project <project-dir> [--input <report-path>] [--html] [--html-output <report.html>]\n  uto ui [--project <project-dir>] [--port <port>] [--open] [--watch] [--report <report-path>]"
}

// ---------------------------------------------------------------------------
// uto init
// ---------------------------------------------------------------------------

/// `--uto-root` must hold the `uto-core` directory.
pub fn check_uto_root(os: HostOs, uto_root: &str, core_exists: bool) -> (r: Result<(), String>)
    ensures
        r is Ok <==> core_exists,
        r matches Err(e) ==> e@ == "Invalid --uto-root '"@ + uto_root@
            + "': expected uto-core directory at "@ + os_join(os, uto_root@, "uto-core"@),
{
    if core_exists {
        return Ok(());
    }
    let core = os_join_exec(os, uto_root, "uto-core");
    let mut m = string_from("Invalid --uto-root '");
    push_str(&mut m, uto_root);
    push_str(&mut m, "': expected uto-core directory at ");
    push_str(&mut m, core.as_str());
    Err(m)
}

/// An existing project directory must be empty.
pub fn check_project_dir_empty(project_dir: &str, has_entries: bool) -> (r: Result<(), String>)
    ensures
        r is Ok <==> !has_entries,
        r matches Err(e) ==> e@ == "Refusing to initialize non-empty directory: "@ + project_dir@,
{
    if !has_entries {
        return Ok(());
    }
    let mut m = string_from("Refusing to initialize non-empty directory: ");
    push_str(&mut m, project_dir);
    Err(m)
}

/// The last component of a Unix path, as `Path::file_name` gives it:
/// trailing separators and `.` components are skipped, and there is none
/// for an empty path, `.`, or one ending in `..`.
pub open spec fn file_name_spec(p: Seq<char>) -> Option<Seq<char>>
    decreases p.len(),
{
    let t = trim_slashes(p);
    if t.len() >= 2 && t[t.len() - 1] == '.' && t[t.len() - 2] == '/' {
        proof {
            lemma_trim_slashes_len(p);
        }
        file_name_spec(t.take(t.len() - 2))
    } else {
        let last = t.skip(after_last_slash(t));
        if last.len() == 0 || last == "."@ || last == ".."@ {
            None
        } else {
            Some(last)
        }
    }
}

/// The position just after the last `/` (0 without one).
pub open spec fn after_last_slash(t: Seq<char>) -> int
    decreases t.len(),
{
    if t.len() == 0 {
        0
    } else if t.last() == '/' {
        t.len() as int
    } else {
        after_last_slash(t.drop_last())
    }
}

pub proof fn lemma_trim_slashes_len(p: Seq<char>)
    ensures
        trim_slashes(p).len() <= p.len(),
        trim_slashes(p) == p.take(trim_slashes(p).len() as int),
    decreases p.len(),
{
    if p.len() > 0 && p.last() == '/' {
        lemma_trim_slashes_len(p.drop_last());
        assert(p.drop_last().take(trim_slashes(p).len() as int) =~= p.take(
            trim_slashes(p).len() as int,
        ));
    } else {
        assert(p.take(p.len() as int) =~= p);
    }
}

proof fn lemma_after_last_slash(t: Seq<char>)
    ensures
        0 <= after_last_slash(t) <= t.len(),
        forall|i: int| after_last_slash(t) <= i < t.len() ==> t[i] != '/',
    decreases t.len(),
{
    if t.len() > 0 && t.last() != '/' {
        let d = t.drop_last();
        lemma_after_last_slash(d);
        assert forall|i: int| after_last_slash(t) <= i < t.len() implies t[i] != '/' by {
            if i < t.len() - 1 {
                assert(t[i] == d[i]);
            }
        }
    }
}

/// The last component of a path (see [`file_name_spec`]).
pub fn file_name_of(path: &str) -> (r: Option<String>)
    ensures
        crate::text::opt_str(r) == file_name_spec(path@),
    decreases path@.len(),
{
    let v = chars_of(path);
    let mut n = v.len();
    proof {
        assert(v@.take(n as int) =~= v@);
    }
    while n > 0 && v[n - 1] == '/'
        invariant
            n <= v.len(),
            trim_slashes(v@) == trim_slashes(v@.take(n as int)),
        decreases n,
    {
        assert(v@.take(n as int).drop_last() =~= v@.take(n - 1));
        n = n - 1;
    }
    let ghost t = v@.take(n as int);
    assert(trim_slashes(t) == t);
    if n >= 2 && v[n - 1] == '.' && v[n - 2] == '/' {
        let shorter = string_of_range(&v, 0, n - 2);
        assert(shorter@ =~= t.take(t.len() - 2));
        return file_name_of(shorter.as_str());
    }
    let mut k = n;
    assert(t.take(n as int) =~= t);
    while k > 0 && v[k - 1] != '/'
        invariant
            k <= n <= v.len(),
            t == v@.take(n as int),
            after_last_slash(t) == after_last_slash(t.take(k as int)),
        decreases k,
    {
        assert(t.take(k as int).drop_last() =~= t.take(k - 1));
        k = k - 1;
    }
    proof {
        assert(t.take(n as int) =~= t);
        if k > 0 {
            assert(t.take(k as int).last() == '/');
        }
        assert(t.skip(k as int) =~= v@.subrange(k as int, n as int));
    }
    let last = string_of_range(&v, k, n);
    let lc = chars_of(last.as_str());
    if lc.len() == 0 || eq_str(&lc, ".") || eq_str(&lc, "..") {
        None
    } else {
        Some(last)
    }
}

/// The prefix of a path that ends with its last component: trailing
/// separators and trailing `.` components removed (see [`file_name_spec`]).
pub open spec fn name_end_prefix(p: Seq<char>) -> Seq<char>
    decreases p.len(),
{
    let t = trim_slashes(p);
    if t.len() >= 2 && t[t.len() - 1] == '.' && t[t.len() - 2] == '/' {
        proof {
            lemma_trim_slashes_len(p);
        }
        name_end_prefix(t.take(t.len() - 2))
    } else {
        t
    }
}

/// The index of the last `.` in `s`, or -1.
pub open spec fn last_dot(s: Seq<char>) -> int
    decreases s.len(),
{
    if s.len() == 0 {
        -1
    } else if s.last() == '.' {
        s.len() - 1
    } else {
        last_dot(s.drop_last())
    }
}

/// The length of a file name's stem, as `Path::file_stem` gives it: the name
/// up to its last `.`, or the whole name when it has no `.` or only a
/// leading one.
pub open spec fn stem_len(name: Seq<char>) -> int {
    if last_dot(name) > 0 {
        last_dot(name)
    } else {
        name.len() as int
    }
}

/// `Path::with_extension(p, "html")` on a Unix path: the path up to the end
/// of its file stem, then `.html`; a path without a file name is kept as it is.
pub open spec fn html_path_spec(p: Seq<char>) -> Seq<char> {
    match file_name_spec(p) {
        None => p,
        Some(_) => {
            let t = name_end_prefix(p);
            let a = after_last_slash(t);
            t.take(a + stem_len(t.skip(a))) + ".html"@
        },
    }
}

fn name_end(v: &Vec<char>, n0: usize) -> (n: usize)
    requires
        n0 <= v.len(),
    ensures
        n <= n0,
        v@.take(n as int) == name_end_prefix(v@.take(n0 as int)),
    decreases n0,
{
    let ghost p = v@.take(n0 as int);
    let mut n = n0;
    proof {
        assert(p.take(n as int) =~= p);
    }
    while n > 0 && v[n - 1] == '/'
        invariant
            n <= n0 <= v.len(),
            p == v@.take(n0 as int),
            trim_slashes(p) == trim_slashes(v@.take(n as int)),
        decreases n,
    {
        assert(v@.take(n as int).drop_last() =~= v@.take(n - 1));
        n = n - 1;
    }
    let ghost t = v@.take(n as int);
    assert(trim_slashes(t) == t);
    if n >= 2 && v[n - 1] == '.' && v[n - 2] == '/' {
        assert(v@.take(n - 2) =~= t.take(t.len() - 2));
        name_end(v, n - 2)
    } else {
        n
    }
}

/// The HTML file written next to a JSON report: the report path with its
/// extension replaced by `html` (`Path::with_extension`).
pub fn html_path_for(report_path: &str) -> (r: String)
    ensures
        r@ == html_path_spec(report_path@),
{
    if file_name_of(report_path).is_none() {
        return string_from(report_path);
    }
    let v = chars_of(report_path);
    proof {
        assert(v@.take(v@.len() as int) =~= v@);
    }
    let n = name_end(&v, v.len());
    let ghost t = v@.take(n as int);
    let mut k = n;
    assert(t.take(n as int) =~= t);
    while k > 0 && v[k - 1] != '/'
        invariant
            k <= n <= v.len(),
            t == v@.take(n as int),
            after_last_slash(t) == after_last_slash(t.take(k as int)),
        decreases k,
    {
        assert(t.take(k as int).drop_last() =~= t.take(k - 1));
        k = k - 1;
    }
    proof {
        assert(t.take(n as int) =~= t);
        if k > 0 {
            assert(t.take(k as int).last() == '/');
        }
        assert(t.skip(k as int) =~= v@.subrange(k as int, n as int));
    }
    let ghost name = v@.subrange(k as int, n as int);
    let mut j = n;
    assert(v@.subrange(k as int, j as int) =~= name);
    while j > k && v[j - 1] != '.'
        invariant
            k <= j <= n <= v.len(),
            name == v@.subrange(k as int, n as int),
            last_dot(name) == last_dot(v@.subrange(k as int, j as int)),
        decreases j,
    {
        assert(v@.subrange(k as int, j as int).drop_last() =~= v@.subrange(k as int, j - 1));
        j = j - 1;
    }
    let end = if j > k && j - 1 > k {
        j - 1
    } else {
        n
    };
    proof {
        if j > k {
            assert(v@.subrange(k as int, j as int).last() == '.');
        } else {
            assert(v@.subrange(k as int, j as int) =~= seq![]);
        }
        assert(k + stem_len(name) == end);
    }
    let mut out = crate::text::slice_chars(&v, 0, end);
    crate::text::extend_str(&mut out, ".html");
    assert(out@ =~= t.take(end as int) + ".html"@);
    crate::text::string_of(&out)
}

/// The project name `uto init` derives from its directory (`uto-project`
/// when the path has no file name).
pub fn project_name_of(project_dir: &str) -> (r: String)
    ensures
        r@ == match file_name_spec(project_dir@) {
            Some(n) => n,
            None => "uto-project"@,
        },
{
    match file_name_of(project_dir) {
        Some(n) => n,
        None => string_from("uto-project"),
    }
}

/// The `uto.json` of a new project.
pub fn init_project_config(project_name: &str, template: &str, uto_root: &str) -> (r: UtoProjectConfig)
    ensures
        r@ == (ConfigModel {
            schema_version: "1"@,
            project_name: project_name@,
            tests_dir: "tests"@,
            default_target: template@,
            report_dir: ".uto/reports"@,
            uto_root: uto_root@,
            report_schema: "uto-suite/v1"@,
            framework_version: Some("4.5"@),
        }),
{
    UtoProjectConfig {
        schema_version: string_from("1"),
        project_name: string_from(project_name),
        tests_dir: string_from("tests"),
        default_target: string_from(template),
        report_dir: string_from(".uto/reports"),
        uto_root: string_from(uto_root),
        report_schema: string_from("uto-suite/v1"),
        framework_version: Some(string_from("4.5")),
    }
}

/// What `uto init` prints once the project exists.
pub fn init_messages(project_dir: &str, template: &str) -> (r: Vec<String>)
    ensures
        strs(r@) == seq![
            "Created UTO template project at "@ + project_dir@ + " (template: "@ + template@ + ")"@,
            "Next: uto run --project "@ + project_dir@,
        ],
{
    let mut a = string_from("Created UTO template project at ");
    push_str(&mut a, project_dir);
    push_str(&mut a, " (template: ");
    push_str(&mut a, template);
    push_str(&mut a, ")");
    let mut b = string_from("Next: uto run --project ");
    push_str(&mut b, project_dir);
    let mut r: Vec<String> = Vec::new();
    r.push(a);
    r.push(b);
    assert(strs(r@) =~= seq![
        "Created UTO template project at "@ + project_dir@ + " (template: "@ + template@ + ")"@,
        "Next: uto run --project "@ + project_dir@,
    ]);
    r
}

// ---------------------------------------------------------------------------
// uto report
// ---------------------------------------------------------------------------

pub open spec fn report_path_spec(os: HostOs, args: ReportArgsModel, config: ConfigModel) -> Seq<char> {
    match args.input {
        Some(p) => p,
        None => os_join(os, os_join(os, args.project, config.report_dir), "last-run.json"@),
    }
}

/// The report read by `uto report`: `--input`, else the project's last run.
pub fn report_path(os: HostOs, args: &ReportArgs, config: &UtoProjectConfig) -> (r: String)
    ensures
        r@ == report_path_spec(os, args@, config@),
{
    match &args.input {
        Some(p) => p.clone(),
        None => {
            let dir = os_join_exec(os, args.project.as_str(), config.report_dir.as_str());
            os_join_exec(os, dir.as_str(), "last-run.json")
        },
    }
}

/// The report must exist.
pub fn check_report_exists(report_path: &str, project: &str, exists: bool) -> (r: Result<(), String>)
    ensures
        r is Ok <==> exists,
        r matches Err(e) ==> e@ == "Report file not found: "@ + report_path@ + ". Run `uto run --project "@
            + project@ + "` first or pass --input <report-path>"@,
{
    if exists {
        return Ok(());
    }
    let mut m = string_from("Report file not found: ");
    push_str(&mut m, report_path);
    push_str(&mut m, ". Run `uto run --project ");
    push_str(&mut m, project);
    push_str(&mut m, "` first or pass --input <report-path>");
    Err(m)
}

pub open spec fn opt_or_zero(d: Option<u64>) -> nat {
    match d {
        Some(v) => v as nat,
        None => 0,
    }
}

/// The summary `uto report` prints for a report.
pub open spec fn report_summary_spec(report: ParsedReport, path: Seq<char>) -> Seq<Seq<char>> {
    match report {
        ParsedReport::Single(r) => seq![
            "UTO Report Summary"@,
            "=================="@,
            "Schema: "@ + r.schema_version@,
            "Run ID: "@ + r.run_id@,
            "Mode: "@ + r.mode@,
            "Status: "@ + r.status@,
            "Duration (ms): "@ + decimal(opt_or_zero(r.timeline.duration_ms)),
            "Events: "@ + decimal(r.events@.len()),
            "Report: "@ + path,
        ],
        ParsedReport::Suite(s) => seq![
            "UTO Suite Report Summary"@,
            "========================"@,
            "Schema: "@ + s.schema_version@,
            "Suite ID: "@ + s.suite_id@,
            "Mode: "@ + s.mode@,
            "Status: "@ + s.status@,
            "Duration (ms): "@ + decimal(opt_or_zero(s.timeline.duration_ms)),
            "Tests: "@ + decimal(s.summary.total as nat) + " total | "@ + decimal(
                s.summary.passed as nat,
            ) + " passed | "@ + decimal(s.summary.failed as nat) + " failed | "@ + decimal(
                s.summary.skipped as nat,
            ) + " skipped"@,
            "Report: "@ + path,
        ],
    }
}

/// Law: a suite report's summary has nine lines, and its `Tests:` line
/// prints each count of the report's summary right before its own word:
/// the total before ` total`, the passed count before ` passed`, the failed
/// count before ` failed` and the skipped count before ` skipped`, each
/// following `Tests: ` or a `| ` separator.
#[verifier::spinoff_prover]
#[verifier::rlimit(60)]
pub proof fn lemma_suite_summary_counts(s: UtoSuiteReportV1, path: Seq<char>)
    ensures
        report_summary_spec(ParsedReport::Suite(s), path).len() == 9,
        exists|b: Seq<char>|
            report_summary_spec(ParsedReport::Suite(s), path)[7] == "Tests: "@ + decimal(
                s.summary.total as nat,
            ) + " total"@ + b,
        exists|a: Seq<char>, b: Seq<char>|
            report_summary_spec(ParsedReport::Suite(s), path)[7] == a + "| "@ + decimal(
                s.summary.passed as nat,
            ) + " passed"@ + b,
        exists|a: Seq<char>, b: Seq<char>|
            report_summary_spec(ParsedReport::Suite(s), path)[7] == a + "| "@ + decimal(
                s.summary.failed as nat,
            ) + " failed"@ + b,
        exists|a: Seq<char>|
            report_summary_spec(ParsedReport::Suite(s), path)[7] == a + "| "@ + decimal(
                s.summary.skipped as nat,
            ) + " skipped"@,
{
    let line = report_summary_spec(ParsedReport::Suite(s), path)[7];
    let t = decimal(s.summary.total as nat);
    let p = decimal(s.summary.passed as nat);
    let f = decimal(s.summary.failed as nat);
    let k = decimal(s.summary.skipped as nat);
    reveal_strlit("Tests: ");
    reveal_strlit(" total | ");
    reveal_strlit(" total");
    reveal_strlit(" passed | ");
    reveal_strlit(" passed");
    reveal_strlit(" failed | ");
    reveal_strlit(" failed");
    reveal_strlit(" skipped");
    reveal_strlit("| ");
    reveal_strlit(" | ");
    reveal_strlit(" total ");
    reveal_strlit(" passed ");
    reveal_strlit(" failed ");
    assert(line == "Tests: "@ + t + " total | "@ + p + " passed | "@ + f + " failed | "@ + k
        + " skipped"@);
    let rest = "| "@ + p + " passed | "@ + f + " failed | "@ + k + " skipped"@;
    assert(line =~= "Tests: "@ + t + " total"@ + (seq![' '] + rest));
    assert(line =~= ("Tests: "@ + t + " total "@) + "| "@ + p + " passed"@ + (" | "@ + f
        + " failed | "@ + k + " skipped"@));
    assert(line =~= ("Tests: "@ + t + " total | "@ + p + " passed "@) + "| "@ + f + " failed"@ + (
    " | "@ + k + " skipped"@));
    assert(line =~= ("Tests: "@ + t + " total | "@ + p + " passed | "@ + f + " failed "@) + "| "@ + k
        + " skipped"@);
}

fn labelled(label: &str, value: &str) -> (r: String)
    ensures
        r@ == label@ + value@,
{
    let mut s = string_from(label);
    push_str(&mut s, value);
    s
}

/// The summary lines of a report read from `report_path`.
pub fn report_summary(report: &ParsedReport, report_path: &str) -> (r: Vec<String>)
    ensures
        strs(r@) == report_summary_spec(*report, report_path@),
{
    let mut out: Vec<String> = Vec::new();
    match report {
        ParsedReport::Single(r) => {
            out.push(string_from("UTO Report Summary"));
            out.push(string_from("=================="));
            out.push(labelled("Schema: ", r.schema_version.as_str()));
            out.push(labelled("Run ID: ", r.run_id.as_str()));
            out.push(labelled("Mode: ", r.mode.as_str()));
            out.push(labelled("Status: ", r.status.as_str()));
            let d: u64 = match r.timeline.duration_ms {
                Some(v) => v,
                None => 0,
            };
            out.push(labelled("Duration (ms): ", decimal_string(d).as_str()));
            out.push(labelled("Events: ", decimal_string(r.events.len() as u64).as_str()));
            out.push(labelled("Report: ", report_path));
        },
        ParsedReport::Suite(s) => {
            out.push(string_from("UTO Suite Report Summary"));
            out.push(string_from("========================"));
            out.push(labelled("Schema: ", s.schema_version.as_str()));
            out.push(labelled("Suite ID: ", s.suite_id.as_str()));
            out.push(labelled("Mode: ", s.mode.as_str()));
            out.push(labelled("Status: ", s.status.as_str()));
            let d: u64 = match s.timeline.duration_ms {
                Some(v) => v,
                None => 0,
            };
            out.push(labelled("Duration (ms): ", decimal_string(d).as_str()));
            let mut t = labelled("Tests: ", decimal_string(s.summary.total).as_str());
            push_str(&mut t, " total | ");
            push_str(&mut t, decimal_string(s.summary.passed).as_str());
            push_str(&mut t, " passed | ");
            push_str(&mut t, decimal_string(s.summary.failed).as_str());
            push_str(&mut t, " failed | ");
            push_str(&mut t, decimal_string(s.summary.skipped).as_str());
            push_str(&mut t, " skipped");
            out.push(t);
            out.push(labelled("Report: ", report_path));
        },
    }
    assert(strs(out@) =~= report_summary_spec(*report, report_path@));
    out
}

} // verus!
