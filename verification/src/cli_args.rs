//! Command-line argument parsing for the `uto` commands.
//!
//! Each parser reads the arguments that follow the command name from left to
//! right.  A flag that takes a value consumes the next argument, which must be
//! present and must not itself start with `-`.  The first problem found is
//! reported as an `Err` with a human-readable message.
use vstd::prelude::*;

use crate::text::{
    chars_of, opt_str, str_result, strs, eq_str, parse_unsigned, parse_unsigned_exec,
    eq_ignore_case, eq_ignore_case_str, push_str, starts_with_char, starts_with_char_exec,
    string_from,
};

verus! {

// ---------------------------------------------------------------------------
// Targets and flag values
// ---------------------------------------------------------------------------

pub open spec fn invalid_target_message(t: Seq<char>) -> Seq<char> {
    "Invalid target/template '"@ + t + "'. Supported values: web, mobile"@
}

/// `web` or `mobile`, in any ASCII case, normalised to lower case.
pub open spec fn normalize_target_spec(t: Seq<char>) -> Result<Seq<char>, Seq<char>> {
    if eq_ignore_case(t, "web"@) {
        Ok("web"@)
    } else if eq_ignore_case(t, "mobile"@) {
        Ok("mobile"@)
    } else {
        Err(invalid_target_message(t))
    }
}

/// Normalises a target or template name to `web` or `mobile`.
pub fn normalize_target(target: &str) -> (r: Result<String, String>)
    ensures
        str_result(r) == normalize_target_spec(target@),
{
    let v = chars_of(target);
    if eq_ignore_case_str(&v, "web") {
        return Ok(string_from("web"));
    }
    if eq_ignore_case_str(&v, "mobile") {
        return Ok(string_from("mobile"));
    }
    let mut msg = string_from("Invalid target/template '");
    push_str(&mut msg, target);
    push_str(&mut msg, "'. Supported values: web, mobile");
    Err(msg)
}

pub open spec fn requires_value_message(flag: Seq<char>) -> Seq<char> {
    flag + " requires a value"@
}

/// The value that follows the flag at `index`: it must exist and must not start with `-`.
pub open spec fn flag_value_spec(args: Seq<Seq<char>>, index: int, flag: Seq<char>) -> Result<
    Seq<char>,
    Seq<char>,
> {
    if index + 1 >= args.len() || starts_with_char(args[index + 1], '-') {
        Err(requires_value_message(flag))
    } else {
        Ok(args[index + 1])
    }
}

/// Returns the argument after the flag at `index`.
pub fn get_flag_value<'a>(args: &'a [String], index: usize, flag: &str) -> (r: Result<
    &'a str,
    String,
>)
    ensures
        match r {
            Ok(v) => flag_value_spec(strs(args@), index as int, flag@) == Ok::<Seq<char>, Seq<char>>(v@),
            Err(e) => flag_value_spec(strs(args@), index as int, flag@) == Err::<Seq<char>, Seq<char>>(e@),
        },
{
    if args.len() == 0 || index >= args.len() - 1 {
        let mut msg = string_from(flag);
        push_str(&mut msg, " requires a value");
        return Err(msg);
    }
    let value: &str = args[index + 1].as_str();
    let v = chars_of(value);
    if starts_with_char_exec(&v, '-') {
        let mut msg = string_from(flag);
        push_str(&mut msg, " requires a value");
        return Err(msg);
    }
    Ok(value)
}

/// Copies an argument into an owned `String`.
fn owned(s: &str) -> (r: String)
    ensures
        r@ == s@,
{
    string_from(s)
}

// ---------------------------------------------------------------------------
// uto init <project-dir> [--template web|mobile] [--uto-root <path>] [--dev]
// ---------------------------------------------------------------------------

#[derive(Debug, PartialEq, Eq)]
pub struct InitArgs {
    pub project_dir: String,
    pub template: String,
    pub uto_root: String,
    /// Development mode: the project depends on the UTO source tree by path
    /// instead of on published crates.
    pub dev: bool,
}

pub ghost struct InitArgsModel {
    pub project_dir: Seq<char>,
    pub template: Seq<char>,
    pub uto_root: Seq<char>,
    pub dev: bool,
}

impl View for InitArgs {
    type V = InitArgsModel;

    open spec fn view(&self) -> InitArgsModel {
        InitArgsModel {
            project_dir: self.project_dir@,
            template: self.template@,
            uto_root: self.uto_root@,
            dev: self.dev,
        }
    }
}

/// The options after `<project-dir>`, from position `i` on.
pub open spec fn parse_init_options(
    args: Seq<Seq<char>>,
    i: int,
    st: InitArgsModel,
) -> Result<InitArgsModel, Seq<char>>
    decreases args.len() - i,
{
    if i < 0 || i >= args.len() {
        Ok(st)
    } else {
        let a = args[i];
        if a == "--template"@ {
            match flag_value_spec(args, i, "--template"@) {
                Err(e) => Err(e),
                Ok(v) => match normalize_target_spec(v) {
                    Err(e) => Err(e),
                    Ok(t) => parse_init_options(args, i + 2, InitArgsModel { template: t, ..st }),
                },
            }
        } else if a == "--uto-root"@ {
            match flag_value_spec(args, i, "--uto-root"@) {
                Err(e) => Err(e),
                Ok(v) => parse_init_options(args, i + 2, InitArgsModel { uto_root: v, ..st }),
            }
        } else if a == "--dev"@ {
            parse_init_options(args, i + 1, InitArgsModel { dev: true, ..st })
        } else if starts_with_char(a, '-') {
            Err("Unknown init option: "@ + a)
        } else {
            Err("Unexpected positional argument for init: "@ + a + ". Expected only <project-dir>"@)
        }
    }
}

/// `uto init`: the project directory comes first; the template defaults to
/// `web`, the UTO root to the current directory, and the project uses
/// published crates unless `--dev` asks for path dependencies.
pub open spec fn parse_init_spec(args: Seq<Seq<char>>, current_dir: Seq<char>) -> Result<
    InitArgsModel,
    Seq<char>,
> {
    if args.len() == 0 {
        Err("init requires <project-dir>"@)
    } else if starts_with_char(args[0], '-') {
        Err("init requires <project-dir> as the first argument"@)
    } else {
        parse_init_options(
            args,
            1,
            InitArgsModel {
                project_dir: args[0],
                template: "web"@,
                uto_root: current_dir,
                dev: false,
            },
        )
    }
}

pub open spec fn init_result(r: Result<InitArgs, String>) -> Result<InitArgsModel, Seq<char>> {
    match r {
        Ok(a) => Ok(a@),
        Err(e) => Err(e@),
    }
}

pub fn parse_init_args(args: &[String], current_dir: &str) -> (r: Result<InitArgs, String>)
    ensures
        init_result(r) == parse_init_spec(strs(args@), current_dir@),
{
    let ghost sargs = strs(args@);
    if args.len() == 0 {
        return Err(string_from("init requires <project-dir>"));
    }
    let first = chars_of(args[0].as_str());
    if starts_with_char_exec(&first, '-') {
        return Err(string_from("init requires <project-dir> as the first argument"));
    }
    let project_dir = owned(args[0].as_str());
    let mut template = string_from("web");
    let mut uto_root = owned(current_dir);
    let mut dev = false;
    let mut i: usize = 1;
    while i < args.len()
        invariant
            1 <= i <= args.len(),
            sargs == strs(args@),
            parse_init_spec(sargs, current_dir@) == parse_init_options(
                sargs,
                i as int,
                InitArgsModel {
                    project_dir: project_dir@,
                    template: template@,
                    uto_root: uto_root@,
                    dev,
                },
            ),
        decreases args.len() - i,
    {
        let a = chars_of(args[i].as_str());
        assert(a@ == sargs[i as int]);
        if eq_str(&a, "--template") {
            let value = get_flag_value(args, i, "--template")?;
            template = normalize_target(value)?;
            i = i + 2;
        } else if eq_str(&a, "--uto-root") {
            let value = get_flag_value(args, i, "--uto-root")?;
            uto_root = owned(value);
            i = i + 2;
        } else if eq_str(&a, "--dev") {
            dev = true;
            i = i + 1;
        } else if starts_with_char_exec(&a, '-') {
            let mut msg = string_from("Unknown init option: ");
            push_str(&mut msg, args[i].as_str());
            return Err(msg);
        } else {
            let mut msg = string_from("Unexpected positional argument for init: ");
            push_str(&mut msg, args[i].as_str());
            push_str(&mut msg, ". Expected only <project-dir>");
            return Err(msg);
        }
    }
    Ok(InitArgs { project_dir, template, uto_root, dev })
}

// ---------------------------------------------------------------------------
// uto run --project <dir> [--target web|mobile] [--report-json <path>] [--driver-trace]
// ---------------------------------------------------------------------------

#[derive(Debug, PartialEq, Eq)]
pub struct RunArgs {
    pub project: String,
    pub target: Option<String>,
    pub report_json: Option<String>,
    pub driver_trace: bool,
}

pub ghost struct RunArgsModel {
    pub project: Seq<char>,
    pub target: Option<Seq<char>>,
    pub report_json: Option<Seq<char>>,
    pub driver_trace: bool,
}

impl View for RunArgs {
    type V = RunArgsModel;

    open spec fn view(&self) -> RunArgsModel {
        RunArgsModel {
            project: self.project@,
            target: opt_str(self.target),
            report_json: opt_str(self.report_json),
            driver_trace: self.driver_trace,
        }
    }
}

/// The options seen so far by `uto run`; `project` stays `None` until given.
pub ghost struct RunScan {
    pub project: Option<Seq<char>>,
    pub target: Option<Seq<char>>,
    pub report_json: Option<Seq<char>>,
    pub driver_trace: bool,
}

pub open spec fn scan_run_options(args: Seq<Seq<char>>, i: int, st: RunScan) -> Result<
    RunScan,
    Seq<char>,
>
    decreases args.len() - i,
{
    if i < 0 || i >= args.len() {
        Ok(st)
    } else {
        let a = args[i];
        if a == "--project"@ {
            match flag_value_spec(args, i, "--project"@) {
                Err(e) => Err(e),
                Ok(v) => scan_run_options(args, i + 2, RunScan { project: Some(v), ..st }),
            }
        } else if a == "--target"@ {
            match flag_value_spec(args, i, "--target"@) {
                Err(e) => Err(e),
                Ok(v) => match normalize_target_spec(v) {
                    Err(e) => Err(e),
                    Ok(t) => scan_run_options(args, i + 2, RunScan { target: Some(t), ..st }),
                },
            }
        } else if a == "--report-json"@ {
            match flag_value_spec(args, i, "--report-json"@) {
                Err(e) => Err(e),
                Ok(v) => scan_run_options(args, i + 2, RunScan { report_json: Some(v), ..st }),
            }
        } else if a == "--driver-trace"@ {
            scan_run_options(args, i + 1, RunScan { driver_trace: true, ..st })
        } else if starts_with_char(a, '-') {
            Err("Unknown run option: "@ + a)
        } else {
            Err("Unexpected argument for run: "@ + a)
        }
    }
}

/// `uto run`: `--project` is required; a later occurrence of a flag wins.
pub open spec fn parse_run_spec(args: Seq<Seq<char>>) -> Result<RunArgsModel, Seq<char>> {
    match scan_run_options(
        args,
        0,
        RunScan { project: None, target: None, report_json: None, driver_trace: false },
    ) {
        Err(e) => Err(e),
        Ok(st) => match st.project {
            None => Err("run requires --project <project-dir>"@),
            Some(p) => Ok(
                RunArgsModel {
                    project: p,
                    target: st.target,
                    report_json: st.report_json,
                    driver_trace: st.driver_trace,
                },
            ),
        },
    }
}

pub open spec fn run_result(r: Result<RunArgs, String>) -> Result<RunArgsModel, Seq<char>> {
    match r {
        Ok(a) => Ok(a@),
        Err(e) => Err(e@),
    }
}

pub fn parse_run_args(args: &[String]) -> (r: Result<RunArgs, String>)
    ensures
        run_result(r) == parse_run_spec(strs(args@)),
{
    let ghost sargs = strs(args@);
    let mut project: Option<String> = None;
    let mut target: Option<String> = None;
    let mut report_json: Option<String> = None;
    let mut driver_trace = false;
    let mut i: usize = 0;
    while i < args.len()
        invariant
            i <= args.len(),
            sargs == strs(args@),
            scan_run_options(
                sargs,
                0,
                RunScan { project: None, target: None, report_json: None, driver_trace: false },
            ) == scan_run_options(
                sargs,
                i as int,
                RunScan {
                    project: opt_str(project),
                    target: opt_str(target),
                    report_json: opt_str(report_json),
                    driver_trace,
                },
            ),
        decreases args.len() - i,
    {
        let a = chars_of(args[i].as_str());
        assert(a@ == sargs[i as int]);
        if eq_str(&a, "--project") {
            let value = get_flag_value(args, i, "--project")?;
            project = Some(owned(value));
            i = i + 2;
        } else if eq_str(&a, "--target") {
            let value = get_flag_value(args, i, "--target")?;
            target = Some(normalize_target(value)?);
            i = i + 2;
        } else if eq_str(&a, "--report-json") {
            let value = get_flag_value(args, i, "--report-json")?;
            report_json = Some(owned(value));
            i = i + 2;
        } else if eq_str(&a, "--driver-trace") {
            driver_trace = true;
            i = i + 1;
        } else if starts_with_char_exec(&a, '-') {
            let mut msg = string_from("Unknown run option: ");
            push_str(&mut msg, args[i].as_str());
            return Err(msg);
        } else {
            let mut msg = string_from("Unexpected argument for run: ");
            push_str(&mut msg, args[i].as_str());
            return Err(msg);
        }
    }
    match project {
        None => Err(string_from("run requires --project <project-dir>")),
        Some(project) => Ok(RunArgs { project, target, report_json, driver_trace }),
    }
}

// ---------------------------------------------------------------------------
// uto report --project <dir> [--input <path>] [--html] [--html-output <path>]
// ---------------------------------------------------------------------------

#[derive(Debug, PartialEq, Eq)]
pub struct ReportArgs {
    pub project: String,
    pub input: Option<String>,
    pub html: bool,
    pub html_output: Option<String>,
}

pub ghost struct ReportArgsModel {
    pub project: Seq<char>,
    pub input: Option<Seq<char>>,
    pub html: bool,
    pub html_output: Option<Seq<char>>,
}

impl View for ReportArgs {
    type V = ReportArgsModel;

    open spec fn view(&self) -> ReportArgsModel {
        ReportArgsModel {
            project: self.project@,
            input: opt_str(self.input),
            html: self.html,
            html_output: opt_str(self.html_output),
        }
    }
}

pub ghost struct ReportScan {
    pub project: Option<Seq<char>>,
    pub input: Option<Seq<char>>,
    pub html: bool,
    pub html_output: Option<Seq<char>>,
}

pub open spec fn scan_report_options(args: Seq<Seq<char>>, i: int, st: ReportScan) -> Result<
    ReportScan,
    Seq<char>,
>
    decreases args.len() - i,
{
    if i < 0 || i >= args.len() {
        Ok(st)
    } else {
        let a = args[i];
        if a == "--project"@ {
            match flag_value_spec(args, i, "--project"@) {
                Err(e) => Err(e),
                Ok(v) => scan_report_options(args, i + 2, ReportScan { project: Some(v), ..st }),
            }
        } else if a == "--input"@ {
            match flag_value_spec(args, i, "--input"@) {
                Err(e) => Err(e),
                Ok(v) => scan_report_options(args, i + 2, ReportScan { input: Some(v), ..st }),
            }
        } else if a == "--html"@ {
            scan_report_options(args, i + 1, ReportScan { html: true, ..st })
        } else if a == "--html-output"@ {
            match flag_value_spec(args, i, "--html-output"@) {
                Err(e) => Err(e),
                Ok(v) => scan_report_options(
                    args,
                    i + 2,
                    ReportScan { html: true, html_output: Some(v), ..st },
                ),
            }
        } else if starts_with_char(a, '-') {
            Err("Unknown report option: "@ + a)
        } else {
            Err("Unexpected argument for report: "@ + a)
        }
    }
}

/// `uto report`: `--project` is required; `--html-output` implies `--html`.
pub open spec fn parse_report_spec(args: Seq<Seq<char>>) -> Result<ReportArgsModel, Seq<char>> {
    match scan_report_options(
        args,
        0,
        ReportScan { project: None, input: None, html: false, html_output: None },
    ) {
        Err(e) => Err(e),
        Ok(st) => match st.project {
            None => Err("report requires --project <project-dir>"@),
            Some(p) => Ok(
                ReportArgsModel {
                    project: p,
                    input: st.input,
                    html: st.html,
                    html_output: st.html_output,
                },
            ),
        },
    }
}

pub open spec fn report_result(r: Result<ReportArgs, String>) -> Result<ReportArgsModel, Seq<char>> {
    match r {
        Ok(a) => Ok(a@),
        Err(e) => Err(e@),
    }
}

pub fn parse_report_args(args: &[String]) -> (r: Result<ReportArgs, String>)
    ensures
        report_result(r) == parse_report_spec(strs(args@)),
{
    let ghost sargs = strs(args@);
    let mut project: Option<String> = None;
    let mut input: Option<String> = None;
    let mut html = false;
    let mut html_output: Option<String> = None;
    let mut i: usize = 0;
    while i < args.len()
        invariant
            i <= args.len(),
            sargs == strs(args@),
            scan_report_options(
                sargs,
                0,
                ReportScan { project: None, input: None, html: false, html_output: None },
            ) == scan_report_options(
                sargs,
                i as int,
                ReportScan {
                    project: opt_str(project),
                    input: opt_str(input),
                    html,
                    html_output: opt_str(html_output),
                },
            ),
        decreases args.len() - i,
    {
        let a = chars_of(args[i].as_str());
        assert(a@ == sargs[i as int]);
        if eq_str(&a, "--project") {
            let value = get_flag_value(args, i, "--project")?;
            project = Some(owned(value));
            i = i + 2;
        } else if eq_str(&a, "--input") {
            let value = get_flag_value(args, i, "--input")?;
            input = Some(owned(value));
            i = i + 2;
        } else if eq_str(&a, "--html") {
            html = true;
            i = i + 1;
        } else if eq_str(&a, "--html-output") {
            let value = get_flag_value(args, i, "--html-output")?;
            html = true;
            html_output = Some(owned(value));
            i = i + 2;
        } else if starts_with_char_exec(&a, '-') {
            let mut msg = string_from("Unknown report option: ");
            push_str(&mut msg, args[i].as_str());
            return Err(msg);
        } else {
            let mut msg = string_from("Unexpected argument for report: ");
            push_str(&mut msg, args[i].as_str());
            return Err(msg);
        }
    }
    match project {
        None => Err(string_from("report requires --project <project-dir>")),
        Some(project) => Ok(ReportArgs { project, input, html, html_output }),
    }
}

// ---------------------------------------------------------------------------
// uto ui [--project <dir>] [--port <port>] [--open] [--watch] [--report <path>]
// ---------------------------------------------------------------------------

#[derive(Debug, PartialEq, Eq)]
pub struct UiArgs {
    /// Project directory to serve (`uto.json` validated if present). Default: `.`
    pub project: String,
    /// Local port for the HTTP + WebSocket server. Default: `4000`.
    pub port: u16,
    /// Automatically open the browser after startup.
    pub open: bool,
    /// Enable watch mode (file-change auto re-run).
    pub watch: bool,
    /// Path to an existing `uto-suite/v1` or `uto-report/v1` JSON artifact to replay.
    pub report: Option<String>,
}

pub ghost struct UiArgsModel {
    pub project: Seq<char>,
    pub port: u16,
    pub open: bool,
    pub watch: bool,
    pub report: Option<Seq<char>>,
}

impl View for UiArgs {
    type V = UiArgsModel;

    open spec fn view(&self) -> UiArgsModel {
        UiArgsModel {
            project: self.project@,
            port: self.port,
            open: self.open,
            watch: self.watch,
            report: opt_str(self.report),
        }
    }
}

pub open spec fn invalid_port_message(v: Seq<char>) -> Seq<char> {
    "Invalid port '"@ + v + "': must be a number between 1 and 65535"@
}

/// A port must parse as a `u16` and must not be zero.
pub open spec fn port_spec(v: Seq<char>) -> Result<u16, Seq<char>> {
    match parse_unsigned(v, 65535) {
        Some(p) => if p == 0 {
            Err(invalid_port_message(v))
        } else {
            Ok(p as u16)
        },
        None => Err(invalid_port_message(v)),
    }
}

pub open spec fn parse_ui_options(args: Seq<Seq<char>>, i: int, st: UiArgsModel) -> Result<
    UiArgsModel,
    Seq<char>,
>
    decreases args.len() - i,
{
    if i < 0 || i >= args.len() {
        Ok(st)
    } else {
        let a = args[i];
        if a == "--project"@ {
            match flag_value_spec(args, i, "--project"@) {
                Err(e) => Err(e),
                Ok(v) => parse_ui_options(args, i + 2, UiArgsModel { project: v, ..st }),
            }
        } else if a == "--port"@ {
            match flag_value_spec(args, i, "--port"@) {
                Err(e) => Err(e),
                Ok(v) => match port_spec(v) {
                    Err(e) => Err(e),
                    Ok(p) => parse_ui_options(args, i + 2, UiArgsModel { port: p, ..st }),
                },
            }
        } else if a == "--open"@ {
            parse_ui_options(args, i + 1, UiArgsModel { open: true, ..st })
        } else if a == "--watch"@ {
            parse_ui_options(args, i + 1, UiArgsModel { watch: true, ..st })
        } else if a == "--report"@ {
            match flag_value_spec(args, i, "--report"@) {
                Err(e) => Err(e),
                Ok(v) => parse_ui_options(args, i + 2, UiArgsModel { report: Some(v), ..st }),
            }
        } else if starts_with_char(a, '-') {
            Err("Unknown ui option: "@ + a)
        } else {
            Err("Unexpected argument for ui: "@ + a)
        }
    }
}

/// `uto ui`: every option is optional; the project defaults to `.` and the port to 4000.
pub open spec fn parse_ui_spec(args: Seq<Seq<char>>) -> Result<UiArgsModel, Seq<char>> {
    parse_ui_options(
        args,
        0,
        UiArgsModel { project: "."@, port: 4000, open: false, watch: false, report: None },
    )
}

pub open spec fn ui_result(r: Result<UiArgs, String>) -> Result<UiArgsModel, Seq<char>> {
    match r {
        Ok(a) => Ok(a@),
        Err(e) => Err(e@),
    }
}

fn parse_port(value: &str) -> (r: Result<u16, String>)
    ensures
        match r {
            Ok(p) => port_spec(value@) == Ok::<u16, Seq<char>>(p),
            Err(e) => port_spec(value@) == Err::<u16, Seq<char>>(e@),
        },
{
    let v = chars_of(value);
    let parsed = parse_unsigned_exec(&v, 0, v.len(), 65535);
    assert(v@.subrange(0, v@.len() as int) =~= value@);
    match parsed {
        Some(p) if p != 0 => Ok(p as u16),
        _ => {
            let mut msg = string_from("Invalid port '");
            push_str(&mut msg, value);
            push_str(&mut msg, "': must be a number between 1 and 65535");
            Err(msg)
        },
    }
}

/// Parse arguments for `uto ui`.
pub fn parse_ui_args(args: &[String]) -> (r: Result<UiArgs, String>)
    ensures
        ui_result(r) == parse_ui_spec(strs(args@)),
{
    let ghost sargs = strs(args@);
    let mut project = string_from(".");
    let mut port: u16 = 4000;
    let mut open = false;
    let mut watch = false;
    let mut report: Option<String> = None;
    let mut i: usize = 0;
    while i < args.len()
        invariant
            i <= args.len(),
            sargs == strs(args@),
            parse_ui_spec(sargs) == parse_ui_options(
                sargs,
                i as int,
                UiArgsModel { project: project@, port, open, watch, report: opt_str(report) },
            ),
        decreases args.len() - i,
    {
        let a = chars_of(args[i].as_str());
        assert(a@ == sargs[i as int]);
        if eq_str(&a, "--project") {
            let value = get_flag_value(args, i, "--project")?;
            project = owned(value);
            i = i + 2;
        } else if eq_str(&a, "--port") {
            let value = get_flag_value(args, i, "--port")?;
            port = parse_port(value)?;
            i = i + 2;
        } else if eq_str(&a, "--open") {
            open = true;
            i = i + 1;
        } else if eq_str(&a, "--watch") {
            watch = true;
            i = i + 1;
        } else if eq_str(&a, "--report") {
            let value = get_flag_value(args, i, "--report")?;
            report = Some(owned(value));
            i = i + 2;
        } else if starts_with_char_exec(&a, '-') {
            let mut msg = string_from("Unknown ui option: ");
            push_str(&mut msg, args[i].as_str());
            return Err(msg);
        } else {
            let mut msg = string_from("Unexpected argument for ui: ");
            push_str(&mut msg, args[i].as_str());
            return Err(msg);
        }
    }
    Ok(UiArgs { project, port, open, watch, report })
}

} // verus!
