//! Options of the intent demo suite (web or mobile, text or JSON report),
//! read from its environment variables and then its arguments, and the
//! bookkeeping of its scenario steps.
use vstd::prelude::*;

use crate::json_text::{entries_view, json_object, json_string, json_string_text, object_text};
use crate::suite_report::{SuiteReport, TestRunHandle};
use crate::text::{chars_of, eq_ignore_case, eq_ignore_case_str, eq_str, string_from, strs};

verus! {

/// Which demo suite runs.
#[derive(Debug, Clone, Copy, PartialEq, Eq)]
pub enum DemoMode {
    Web,
    Mobile,
}

impl DemoMode {
    /// The mode's name, also the suite report's mode.
    pub fn as_str(self) -> (r: &'static str)
        ensures
            r@ == match self {
                DemoMode::Web => "web"@,
                DemoMode::Mobile => "mobile"@,
            },
    {
        match self {
            DemoMode::Web => "web",
            DemoMode::Mobile => "mobile",
        }
    }
}

/// How the suite result is reported.
#[derive(Debug, Clone, Copy, PartialEq, Eq)]
pub enum ReportFormat {
    Text,
    Json,
}

/// The demo's options.
#[derive(Debug)]
pub struct CliOptions {
    pub demo_mode: DemoMode,
    pub report_format: ReportFormat,
    pub report_file: Option<String>,
    pub report_html: bool,
    pub report_html_file: Option<String>,
}

/// The demo's environment variables (`None` when unset):
/// `UTO_DEMO`, `UTO_REPORT_FORMAT`, `UTO_REPORT_FILE`, `UTO_REPORT_HTML`,
/// `UTO_REPORT_HTML_FILE`.
#[derive(Debug)]
pub struct DemoEnv {
    pub demo: Option<String>,
    pub report_format: Option<String>,
    pub report_file: Option<String>,
    pub report_html: Option<String>,
    pub report_html_file: Option<String>,
}

pub ghost struct OptionsModel {
    pub demo_mode: DemoMode,
    pub report_format: ReportFormat,
    pub report_file: Option<Seq<char>>,
    pub report_html: bool,
    pub report_html_file: Option<Seq<char>>,
}

pub open spec fn options_view(o: CliOptions) -> OptionsModel {
    OptionsModel {
        demo_mode: o.demo_mode,
        report_format: o.report_format,
        report_file: crate::text::opt_str(o.report_file),
        report_html: o.report_html,
        report_html_file: crate::text::opt_str(o.report_html_file),
    }
}

/// The options the environment gives: mobile only for `UTO_DEMO=mobile`,
/// JSON only for `UTO_REPORT_FORMAT=json` (any letter case), HTML for
/// `UTO_REPORT_HTML` of `1` or `true` (any letter case).
pub open spec fn env_options(env: DemoEnv) -> OptionsModel {
    OptionsModel {
        demo_mode: match env.demo {
            Some(v) => if eq_ignore_case(v@, "mobile"@) {
                DemoMode::Mobile
            } else {
                DemoMode::Web
            },
            None => DemoMode::Web,
        },
        report_format: match env.report_format {
            Some(v) => if eq_ignore_case(v@, "json"@) {
                ReportFormat::Json
            } else {
                ReportFormat::Text
            },
            None => ReportFormat::Text,
        },
        report_file: crate::text::opt_str(env.report_file),
        report_html: match env.report_html {
            Some(v) => v@ == "1"@ || eq_ignore_case(v@, "true"@),
            None => false,
        },
        report_html_file: crate::text::opt_str(env.report_html_file),
    }
}

/// The arguments from position `i` on applied over `o`: `--mobile`, `--web`,
/// `--json`, `--html`, and `--report-file`/`--html-file` with the following
/// argument (ignored when none follows); anything else is skipped.
pub open spec fn scan_args(args: Seq<Seq<char>>, i: int, o: OptionsModel) -> OptionsModel
    decreases args.len() - i,
{
    if i < 0 || i >= args.len() {
        o
    } else {
        let a = args[i];
        if a == "--mobile"@ {
            scan_args(args, i + 1, OptionsModel { demo_mode: DemoMode::Mobile, ..o })
        } else if a == "--web"@ {
            scan_args(args, i + 1, OptionsModel { demo_mode: DemoMode::Web, ..o })
        } else if a == "--json"@ {
            scan_args(args, i + 1, OptionsModel { report_format: ReportFormat::Json, ..o })
        } else if a == "--html"@ {
            scan_args(args, i + 1, OptionsModel { report_html: true, ..o })
        } else if a == "--report-file"@ && i + 1 < args.len() {
            scan_args(args, i + 2, OptionsModel { report_file: Some(args[i + 1]), ..o })
        } else if a == "--html-file"@ && i + 1 < args.len() {
            scan_args(args, i + 2, OptionsModel { report_html_file: Some(args[i + 1]), ..o })
        } else {
            scan_args(args, i + 1, o)
        }
    }
}

fn copy_opt(o: &Option<String>) -> (r: Option<String>)
    ensures
        r == *o,
{
    match o {
        Some(s) => Some(s.clone()),
        None => None,
    }
}

/// The demo options: the environment's, overridden by the arguments after
/// the program name (`args[0]`).
pub fn parse_cli_options(env: &DemoEnv, args: &[String]) -> (r: CliOptions)
    ensures
        options_view(r) == scan_args(strs(args@), 1, env_options(*env)),
{
    let demo_mode = match &env.demo {
        Some(v) => if eq_ignore_case_str(&chars_of(v.as_str()), "mobile") {
            DemoMode::Mobile
        } else {
            DemoMode::Web
        },
        None => DemoMode::Web,
    };
    let report_format = match &env.report_format {
        Some(v) => if eq_ignore_case_str(&chars_of(v.as_str()), "json") {
            ReportFormat::Json
        } else {
            ReportFormat::Text
        },
        None => ReportFormat::Text,
    };
    let report_html = match &env.report_html {
        Some(v) => {
            let c = chars_of(v.as_str());
            eq_str(&c, "1") || eq_ignore_case_str(&c, "true")
        },
        None => false,
    };
    let mut o = CliOptions {
        demo_mode,
        report_format,
        report_file: copy_opt(&env.report_file),
        report_html,
        report_html_file: copy_opt(&env.report_html_file),
    };
    let ghost av = strs(args@);
    let mut i: usize = 1;
    while i < args.len()
        invariant
            av == strs(args@),
            1 <= i,
            scan_args(av, 1, env_options(*env)) == scan_args(av, i as int, options_view(o)),
        decreases args.len() - i,
    {
        let a = chars_of(args[i].as_str());
        assert(av[i as int] == args@[i as int]@);
        if eq_str(&a, "--mobile") {
            o.demo_mode = DemoMode::Mobile;
        } else if eq_str(&a, "--web") {
            o.demo_mode = DemoMode::Web;
        } else if eq_str(&a, "--json") {
            o.report_format = ReportFormat::Json;
        } else if eq_str(&a, "--html") {
            o.report_html = true;
        } else if eq_str(&a, "--report-file") && i + 1 < args.len() {
            assert(av[i + 1] == args@[i + 1]@);
            o.report_file = Some(args[i + 1].clone());
            i = i + 1;
        } else if eq_str(&a, "--html-file") && i + 1 < args.len() {
            assert(av[i + 1] == args@[i + 1]@);
            o.report_html_file = Some(args[i + 1].clone());
            i = i + 1;
        }
        i = i + 1;
    }
    o
}

/// Ends a demo scenario at a failed step: the step's `failed` event with the
/// error, then the test recorded as `failed` with that error.
pub fn fail_scenario(suite: &mut SuiteReport, handle: TestRunHandle, stage: &str, error: &str)
    ensures
        final(suite).is_enabled() == old(suite).is_enabled(),
        !old(suite).is_enabled() ==> final(suite).spec_payload() == old(suite).spec_payload(),
        old(suite).is_enabled() ==> {
            let before = old(suite).spec_payload();
            let after = final(suite).spec_payload();
            let t = after.tests@.last();
            &&& after.tests@.len() == before.tests@.len() + 1
            &&& after.tests@.drop_last() == before.tests@
            &&& t.name == handle.name
            &&& t.status@ == "failed"@
            &&& t.error matches Some(e) && e@ == error@
            &&& t.events@.drop_last() == handle.events@
            &&& t.events@.last().stage@ == stage@
            &&& t.events@.last().status@ == "failed"@
            &&& t.events@.last().detail@ == object_text(seq![("error"@, json_string_text(error@))])
        },
{
    let mut handle = handle;
    let mut members: Vec<(String, String)> = Vec::new();
    members.push((string_from("error"), json_string(error)));
    assert(entries_view(members@) =~= seq![("error"@, json_string_text(error@))]);
    let detail = json_object(&members);
    handle.event(stage, "failed", detail);
    suite.record_test(handle, "failed", Some(string_from(error)));
}

/// A demo suite fails when any of its scenarios failed.
pub fn demo_suite_verdict(mode: DemoMode, any_failed: bool) -> (r: Result<(), String>)
    ensures
        r is Ok <==> !any_failed,
        r matches Err(e) ==> e@ == match mode {
            DemoMode::Web => "Phase 3 web suite failed"@,
            DemoMode::Mobile => "Phase 3 mobile suite failed"@,
        },
{
    if !any_failed {
        return Ok(());
    }
    match mode {
        DemoMode::Web => Err(string_from("Phase 3 web suite failed")),
        DemoMode::Mobile => Err(string_from("Phase 3 mobile suite failed")),
    }
}

} // verus!
