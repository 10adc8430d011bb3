//! The scenarios of the intent demo suite, as a state machine.
//!
//! A scenario is a fixed sequence of outside operations (find Chrome, start a
//! driver, open a session, act through intents, assert what the page shows,
//! close the session, stop the driver).  The caller performs the operation
//! that an action names and hands back what came of it; [`scenario_step`]
//! decides which event the test records, which operation comes next, and how
//! the test ends.  Setup failures end the test at once; once the driver has
//! started, every path stops it before the test is recorded.
use vstd::prelude::*;

use crate::json_text::{json_object, json_string, json_string_text, object_text};
use crate::text::{chars_of, contains_str, contains_text, decimal, decimal_string, eq_str, push_str, string_from};

verus! {

/// The scenarios of the web and mobile demo suites.
#[derive(Debug, Clone, Copy, PartialEq, Eq, Structural)]
pub enum ScenarioKind {
    /// Fill an e-mail field and click a button by their accessible labels.
    WebFillAndClick,
    /// Rank candidates for a label and check the page title.
    WebRanking,
    /// Launch the Android settings activity.
    MobileLaunch,
    /// Resolve a search control in the settings by one of several labels.
    MobileSearch,
}

/// The outside operations a scenario asks for.
#[derive(Debug, Clone, Copy, PartialEq, Eq, Structural)]
pub enum ScenarioOp {
    DiscoverChrome,
    ProvisionChromedriver,
    StartChromedriver,
    PrepareMobile,
    StartAppium,
    CreateWebSession,
    GotoInlineForm,
    FillEmail,
    ClickSubmit,
    ReadOutput,
    GotoRankingPage,
    RankCheckout,
    ReadTitle,
    CreateMobileSession,
    LaunchSettings,
    /// Select the control with the search label of this index.
    SelectLabel(usize),
    CloseSession,
    StopDriver,
}

/// What a successful operation gave back.
#[derive(Debug)]
pub enum StepOutput {
    Nothing,
    /// A text: Chrome's version, the driver path, the driver URL a session
    /// was opened on, the output text, the ranking summary, the page title.
    Text(String),
    /// A started driver.
    Driver { url: String, port: u16 },
    /// A prepared mobile environment.
    MobileEnv { sdk_root: String, appium_path: String, device_serial: Option<String> },
}

/// How an operation went.
#[derive(Debug)]
pub enum StepEvent {
    Done(StepOutput),
    Failed(String),
}

/// Where a scenario stands.
#[derive(Debug)]
pub enum ScenarioPhase {
    /// Waiting for the setup operation of this index.
    Setup(usize),
    /// Waiting for the run operation of this index (the driver is up).
    Run(usize),
    /// Waiting for the selection by the search label of this index.
    Search(usize),
    /// Waiting for the session to close after the run succeeded.
    Closing,
    /// Waiting for the session to close after no search label resolved.
    ClosingAfterSearch,
    /// Waiting for the driver to stop; holds the run's error, if any.
    Stopping(Option<String>),
    /// The test has been recorded.
    Finished,
}

pub ghost enum PhaseModel {
    Setup(nat),
    Run(nat),
    Search(nat),
    Closing,
    ClosingAfterSearch,
    Stopping(Option<Seq<char>>),
    Finished,
}

pub ghost struct StateModel {
    pub kind: ScenarioKind,
    pub phase: PhaseModel,
}

/// A scenario in progress.
pub struct ScenarioState {
    kind: ScenarioKind,
    phase: ScenarioPhase,
}

pub open spec fn phase_view(p: ScenarioPhase) -> PhaseModel {
    match p {
        ScenarioPhase::Setup(i) => PhaseModel::Setup(i as nat),
        ScenarioPhase::Run(i) => PhaseModel::Run(i as nat),
        ScenarioPhase::Search(i) => PhaseModel::Search(i as nat),
        ScenarioPhase::Closing => PhaseModel::Closing,
        ScenarioPhase::ClosingAfterSearch => PhaseModel::ClosingAfterSearch,
        ScenarioPhase::Stopping(e) => PhaseModel::Stopping(
            match e {
                Some(m) => Some(m@),
                None => None,
            },
        ),
        ScenarioPhase::Finished => PhaseModel::Finished,
    }
}

impl View for ScenarioState {
    type V = StateModel;

    closed spec fn view(&self) -> StateModel {
        StateModel { kind: self.kind, phase: phase_view(self.phase) }
    }
}

/// An event for the test to record.
#[derive(Debug)]
pub struct StepRecord {
    pub stage: &'static str,
    pub status: &'static str,
    /// The event's detail object, as JSON text.
    pub detail: String,
}

/// How the test ends: its status and error, and what the scenario returns.
#[derive(Debug)]
pub struct ScenarioVerdict {
    pub test_status: &'static str,
    pub error: Option<String>,
    pub result: Result<(), String>,
}

/// What to do next.
#[derive(Debug)]
pub enum ScenarioNext {
    /// Perform this operation and report how it went.
    Perform(ScenarioOp),
    /// Record the test as the verdict says; the scenario is over.
    Finish(ScenarioVerdict),
    /// Nothing: the scenario was already over.
    Done,
}

/// The event to record, if any, and what to do next.
#[derive(Debug)]
pub struct ScenarioAction {
    pub record: Option<StepRecord>,
    pub next: ScenarioNext,
}

pub ghost struct RecordModel {
    pub stage: Seq<char>,
    pub status: Seq<char>,
    pub detail: Seq<char>,
}

pub ghost struct VerdictModel {
    pub test_status: Seq<char>,
    pub error: Option<Seq<char>>,
    pub result: Result<(), Seq<char>>,
}

pub ghost enum NextModel {
    Perform(ScenarioOp),
    Finish(VerdictModel),
    Done,
}

pub ghost struct ActionModel {
    pub record: Option<RecordModel>,
    pub next: NextModel,
}

impl View for StepRecord {
    type V = RecordModel;

    open spec fn view(&self) -> RecordModel {
        RecordModel { stage: self.stage@, status: self.status@, detail: self.detail@ }
    }
}

impl View for ScenarioVerdict {
    type V = VerdictModel;

    open spec fn view(&self) -> VerdictModel {
        VerdictModel {
            test_status: self.test_status@,
            error: match self.error {
                Some(e) => Some(e@),
                None => None,
            },
            result: match self.result {
                Ok(_) => Ok(()),
                Err(e) => Err(e@),
            },
        }
    }
}

impl View for ScenarioNext {
    type V = NextModel;

    open spec fn view(&self) -> NextModel {
        match self {
            ScenarioNext::Perform(op) => NextModel::Perform(*op),
            ScenarioNext::Finish(v) => NextModel::Finish(v@),
            ScenarioNext::Done => NextModel::Done,
        }
    }
}

impl View for ScenarioAction {
    type V = ActionModel;

    open spec fn view(&self) -> ActionModel {
        ActionModel {
            record: match self.record {
                Some(r) => Some(r@),
                None => None,
            },
            next: self.next@,
        }
    }
}

// ---------------------------------------------------------------------------
// The scenarios' steps
// ---------------------------------------------------------------------------

pub open spec fn is_web(k: ScenarioKind) -> bool {
    k is WebFillAndClick || k is WebRanking
}

/// The test name each scenario records.
pub open spec fn test_name_spec(k: ScenarioKind) -> Seq<char> {
    match k {
        ScenarioKind::WebFillAndClick => "web: fill and click intent updates output"@,
        ScenarioKind::WebRanking => "web: ranking diagnostics stay readable"@,
        ScenarioKind::MobileLaunch => "mobile: settings activity launches"@,
        ScenarioKind::MobileSearch => "mobile: search intent resolves from settings"@,
    }
}

/// The operations before and up to starting the driver.
pub open spec fn setup_ops(k: ScenarioKind) -> Seq<ScenarioOp> {
    if is_web(k) {
        seq![
            ScenarioOp::DiscoverChrome,
            ScenarioOp::ProvisionChromedriver,
            ScenarioOp::StartChromedriver,
        ]
    } else {
        seq![ScenarioOp::PrepareMobile, ScenarioOp::StartAppium]
    }
}

/// The operations run once the driver is up, before the session closes.
pub open spec fn run_ops(k: ScenarioKind) -> Seq<ScenarioOp> {
    match k {
        ScenarioKind::WebFillAndClick => seq![
            ScenarioOp::CreateWebSession,
            ScenarioOp::GotoInlineForm,
            ScenarioOp::FillEmail,
            ScenarioOp::ClickSubmit,
            ScenarioOp::ReadOutput,
        ],
        ScenarioKind::WebRanking => seq![
            ScenarioOp::CreateWebSession,
            ScenarioOp::GotoRankingPage,
            ScenarioOp::RankCheckout,
            ScenarioOp::ReadTitle,
        ],
        _ => seq![ScenarioOp::CreateMobileSession, ScenarioOp::LaunchSettings],
    }
}

/// How many search labels the search scenario tries.
pub open spec fn search_label_count() -> nat {
    5
}

/// The search labels, in the order they are tried.
pub open spec fn search_label(i: int) -> Seq<char> {
    if i == 0 {
        "Search settings"@
    } else if i == 1 {
        "Search"@
    } else if i == 2 {
        "Rechercher"@
    } else if i == 3 {
        "Buscar"@
    } else {
        "Suchen"@
    }
}

/// The search label to try after `tried` labels have failed, if any is left.
pub fn next_search_label(tried: usize) -> (r: Option<&'static str>)
    ensures
        r is Some <==> tried < search_label_count(),
        r matches Some(l) ==> l@ == search_label(tried as int),
{
    if tried == 0 {
        Some("Search settings")
    } else if tried == 1 {
        Some("Search")
    } else if tried == 2 {
        Some("Rechercher")
    } else if tried == 3 {
        Some("Buscar")
    } else if tried == 4 {
        Some("Suchen")
    } else {
        None
    }
}

/// The stage under which an operation's event is recorded.
pub open spec fn stage_spec(k: ScenarioKind, op: ScenarioOp) -> Seq<char> {
    match op {
        ScenarioOp::DiscoverChrome => "env.chrome_discovery"@,
        ScenarioOp::ProvisionChromedriver => "env.chromedriver_provision"@,
        ScenarioOp::StartChromedriver => "driver.chromedriver_start"@,
        ScenarioOp::PrepareMobile => "env.mobile_setup"@,
        ScenarioOp::StartAppium => "driver.appium_start"@,
        ScenarioOp::CreateWebSession => "session.web_create"@,
        ScenarioOp::GotoInlineForm => "session.goto"@,
        ScenarioOp::FillEmail => "intent.fill"@,
        ScenarioOp::ClickSubmit => "intent.click"@,
        ScenarioOp::ReadOutput => "assert.output"@,
        ScenarioOp::GotoRankingPage => "session.goto"@,
        ScenarioOp::RankCheckout => "intent.ranking"@,
        ScenarioOp::ReadTitle => "assert.title"@,
        ScenarioOp::CreateMobileSession => "session.mobile_create"@,
        ScenarioOp::LaunchSettings => "session.launch_activity"@,
        ScenarioOp::SelectLabel(_) => "intent.select"@,
        ScenarioOp::CloseSession => "session.close"@,
        ScenarioOp::StopDriver => if is_web(k) {
            "driver.chromedriver_stop"@
        } else {
            "driver.appium_stop"@
        },
    }
}

fn stage_of(k: ScenarioKind, op: ScenarioOp) -> (r: &'static str)
    ensures
        r@ == stage_spec(k, op),
{
    match op {
        ScenarioOp::DiscoverChrome => "env.chrome_discovery",
        ScenarioOp::ProvisionChromedriver => "env.chromedriver_provision",
        ScenarioOp::StartChromedriver => "driver.chromedriver_start",
        ScenarioOp::PrepareMobile => "env.mobile_setup",
        ScenarioOp::StartAppium => "driver.appium_start",
        ScenarioOp::CreateWebSession => "session.web_create",
        ScenarioOp::GotoInlineForm => "session.goto",
        ScenarioOp::FillEmail => "intent.fill",
        ScenarioOp::ClickSubmit => "intent.click",
        ScenarioOp::ReadOutput => "assert.output",
        ScenarioOp::GotoRankingPage => "session.goto",
        ScenarioOp::RankCheckout => "intent.ranking",
        ScenarioOp::ReadTitle => "assert.title",
        ScenarioOp::CreateMobileSession => "session.mobile_create",
        ScenarioOp::LaunchSettings => "session.launch_activity",
        ScenarioOp::SelectLabel(_) => "intent.select",
        ScenarioOp::CloseSession => "session.close",
        ScenarioOp::StopDriver => match k {
            ScenarioKind::WebFillAndClick => "driver.chromedriver_stop",
            ScenarioKind::WebRanking => "driver.chromedriver_stop",
            _ => "driver.appium_stop",
        },
    }
}

/// The test name a scenario records.
pub fn scenario_test_name(kind: ScenarioKind) -> (r: &'static str)
    ensures
        r@ == test_name_spec(kind),
{
    match kind {
        ScenarioKind::WebFillAndClick => "web: fill and click intent updates output",
        ScenarioKind::WebRanking => "web: ranking diagnostics stay readable",
        ScenarioKind::MobileLaunch => "mobile: settings activity launches",
        ScenarioKind::MobileSearch => "mobile: search intent resolves from settings",
    }
}

/// The device a mobile session targets: the online device, else the default emulator.
pub fn device_name_or_default(serial: &Option<String>) -> (r: String)
    ensures
        r@ == match serial {
            Some(s) => s@,
            None => "emulator-5554"@,
        },
{
    match serial {
        Some(s) => string_from(s.as_str()),
        None => string_from("emulator-5554"),
    }
}

// ---------------------------------------------------------------------------
// Assertions
// ---------------------------------------------------------------------------

/// The text the fill-and-click scenario expects to read back.
pub open spec fn expected_output() -> Seq<char> {
    "phase3@uto.dev"@
}

/// The title of the ranking page.
pub open spec fn expected_title() -> Seq<char> {
    "UTO Intent Ranking"@
}

pub open spec fn check_output_spec(text: Seq<char>, expected: Seq<char>) -> Result<(), Seq<char>> {
    if text == expected {
        Ok(())
    } else {
        Err("Phase 3 web objective mismatch: expected '"@ + expected + "', got '"@ + text + "'"@)
    }
}

pub open spec fn check_ranking_spec(summary: Seq<char>) -> Result<(), Seq<char>> {
    if contains_text(summary, "Checkout"@) {
        Ok(())
    } else {
        Err("ranking assertion failed: expected Checkout in ranking summary, got '"@ + summary
            + "'"@)
    }
}

pub open spec fn check_title_spec(title: Seq<char>, expected: Seq<char>) -> Result<(), Seq<char>> {
    if title == expected {
        Ok(())
    } else {
        Err("title assertion failed: expected '"@ + expected + "', got '"@ + title + "'"@)
    }
}

pub open spec fn unit_result(r: Result<(), String>) -> Result<(), Seq<char>> {
    match r {
        Ok(_) => Ok(()),
        Err(e) => Err(e@),
    }
}

/// The output read back must be the text that was filled in.  The error is
/// the message a scenario raises as a failed session command.
pub fn check_output(text: &str, expected: &str) -> (r: Result<(), String>)
    ensures
        unit_result(r) == check_output_spec(text@, expected@),
{
    let t = chars_of(text);
    if eq_str(&t, expected) {
        Ok(())
    } else {
        let mut m = string_from("Phase 3 web objective mismatch: expected '");
        push_str(&mut m, expected);
        push_str(&mut m, "', got '");
        push_str(&mut m, text);
        push_str(&mut m, "'");
        Err(m)
    }
}

/// The ranking summary must mention `Checkout` (the error as for [`check_output`]).
pub fn check_ranking(summary: &str) -> (r: Result<(), String>)
    ensures
        unit_result(r) == check_ranking_spec(summary@),
{
    let s = chars_of(summary);
    if contains_str(&s, "Checkout") {
        Ok(())
    } else {
        let mut m = string_from("ranking assertion failed: expected Checkout in ranking summary, got '");
        push_str(&mut m, summary);
        push_str(&mut m, "'");
        Err(m)
    }
}

/// The page title must be the expected one (the error as for [`check_output`]).
pub fn check_title(title: &str, expected: &str) -> (r: Result<(), String>)
    ensures
        unit_result(r) == check_title_spec(title@, expected@),
{
    let t = chars_of(title);
    if eq_str(&t, expected) {
        Ok(())
    } else {
        let mut m = string_from("title assertion failed: expected '");
        push_str(&mut m, expected);
        push_str(&mut m, "', got '");
        push_str(&mut m, title);
        push_str(&mut m, "'");
        Err(m)
    }
}


// ---------------------------------------------------------------------------
// Event details
// ---------------------------------------------------------------------------

/// The main text of an operation's output.
pub open spec fn out_text(o: StepOutput) -> Seq<char> {
    match o {
        StepOutput::Nothing => seq![],
        StepOutput::Text(s) => s@,
        StepOutput::Driver { url, .. } => url@,
        StepOutput::MobileEnv { sdk_root, .. } => sdk_root@,
    }
}

/// The port of a started driver, 0 for any other output.
pub open spec fn out_port(o: StepOutput) -> nat {
    match o {
        StepOutput::Driver { port, .. } => port as nat,
        _ => 0,
    }
}

/// The Appium path of a prepared mobile environment.
pub open spec fn out_appium(o: StepOutput) -> Seq<char> {
    match o {
        StepOutput::MobileEnv { appium_path, .. } => appium_path@,
        _ => seq![],
    }
}

/// The JSON text of the online device of a prepared mobile environment, or `null`.
pub open spec fn out_serial_json(o: StepOutput) -> Seq<char> {
    match o {
        StepOutput::MobileEnv { device_serial: Some(d), .. } => json_string_text(d@),
        _ => "null"@,
    }
}

/// A member whose value is a JSON string.
pub open spec fn sm(key: Seq<char>, value: Seq<char>) -> (Seq<char>, Seq<char>) {
    (key, json_string_text(value))
}

/// The detail recorded when an operation succeeded.
pub open spec fn ok_detail(op: ScenarioOp, o: StepOutput) -> Seq<char> {
    match op {
        ScenarioOp::DiscoverChrome => object_text(seq![sm("chrome_version"@, out_text(o))]),
        ScenarioOp::ProvisionChromedriver => object_text(seq![sm("path"@, out_text(o))]),
        ScenarioOp::StartChromedriver => object_text(
            seq![sm("url"@, out_text(o)), ("port"@, decimal(out_port(o)))],
        ),
        ScenarioOp::StartAppium => object_text(
            seq![sm("url"@, out_text(o)), ("port"@, decimal(out_port(o)))],
        ),
        ScenarioOp::PrepareMobile => object_text(
            seq![
                sm("android_sdk_root"@, out_text(o)),
                sm("appium_path"@, out_appium(o)),
                ("device_serial"@, out_serial_json(o)),
            ],
        ),
        ScenarioOp::CreateWebSession => object_text(seq![sm("driver_url"@, out_text(o))]),
        ScenarioOp::CreateMobileSession => object_text(seq![sm("driver_url"@, out_text(o))]),
        ScenarioOp::GotoInlineForm => object_text(seq![sm("target"@, "inline_form"@)]),
        ScenarioOp::GotoRankingPage => object_text(seq![sm("target"@, "ranking_page"@)]),
        ScenarioOp::FillEmail => object_text(
            seq![sm("label"@, "Email Address"@), sm("value"@, expected_output())],
        ),
        ScenarioOp::ClickSubmit => object_text(seq![sm("label"@, "Submit Order"@)]),
        ScenarioOp::ReadOutput => object_text(seq![sm("text"@, out_text(o))]),
        ScenarioOp::RankCheckout => object_text(
            seq![sm("label"@, "Checkout"@), sm("summary"@, out_text(o))],
        ),
        ScenarioOp::ReadTitle => object_text(seq![sm("title"@, out_text(o))]),
        ScenarioOp::LaunchSettings => object_text(seq![sm("activity"@, "Settings"@)]),
        ScenarioOp::SelectLabel(i) => select_ok_detail(i as int),
        ScenarioOp::CloseSession => object_text(seq![]),
        ScenarioOp::StopDriver => object_text(seq![]),
    }
}

pub open spec fn select_ok_detail(i: int) -> Seq<char> {
    object_text(seq![sm("label"@, search_label(i)), sm("strategy"@, "mobile-accessibility"@)])
}

pub open spec fn select_failed_detail(i: int, error: Seq<char>) -> Seq<char> {
    object_text(seq![sm("label"@, search_label(i)), sm("error"@, error)])
}

/// The detail recorded when an operation failed.
pub open spec fn error_detail(error: Seq<char>) -> Seq<char> {
    object_text(seq![sm("error"@, error)])
}

fn out_text_exec(o: &StepOutput) -> (r: &str)
    ensures
        r@ == out_text(*o),
{
    match o {
        StepOutput::Nothing => {
            proof {
                reveal_strlit("");
            }
            ""
        },
        StepOutput::Text(s) => s.as_str(),
        StepOutput::Driver { url, .. } => url.as_str(),
        StepOutput::MobileEnv { sdk_root, .. } => sdk_root.as_str(),
    }
}

fn str_member(key: &str, value: &str) -> (r: (String, String))
    ensures
        r.0@ == key@,
        r.1@ == json_string_text(value@),
{
    (string_from(key), json_string(value))
}

fn obj0() -> (r: String)
    ensures
        r@ == object_text(seq![]),
{
    let v: Vec<(String, String)> = Vec::new();
    assert(crate::json_text::entries_view(v@) =~= seq![]);
    json_object(&v)
}

fn obj1(a: (String, String)) -> (r: String)
    ensures
        r@ == object_text(seq![(a.0@, a.1@)]),
{
    let ghost av = (a.0@, a.1@);
    let mut v: Vec<(String, String)> = Vec::new();
    v.push(a);
    assert(crate::json_text::entries_view(v@) =~= seq![av]);
    json_object(&v)
}

fn obj2(a: (String, String), b: (String, String)) -> (r: String)
    ensures
        r@ == object_text(seq![(a.0@, a.1@), (b.0@, b.1@)]),
{
    let ghost av = (a.0@, a.1@);
    let ghost bv = (b.0@, b.1@);
    let mut v: Vec<(String, String)> = Vec::new();
    v.push(a);
    v.push(b);
    assert(crate::json_text::entries_view(v@) =~= seq![av, bv]);
    json_object(&v)
}

fn obj3(a: (String, String), b: (String, String), c: (String, String)) -> (r: String)
    ensures
        r@ == object_text(seq![(a.0@, a.1@), (b.0@, b.1@), (c.0@, c.1@)]),
{
    let ghost av = (a.0@, a.1@);
    let ghost bv = (b.0@, b.1@);
    let ghost cv = (c.0@, c.1@);
    let mut v: Vec<(String, String)> = Vec::new();
    v.push(a);
    v.push(b);
    v.push(c);
    assert(crate::json_text::entries_view(v@) =~= seq![av, bv, cv]);
    json_object(&v)
}

fn search_label_exec(i: usize) -> (r: &'static str)
    requires
        i < search_label_count(),
    ensures
        r@ == search_label(i as int),
{
    match next_search_label(i) {
        Some(l) => l,
        None => "",
    }
}

fn ok_detail_exec(op: ScenarioOp, o: &StepOutput) -> (r: String)
    requires
        op matches ScenarioOp::SelectLabel(i) ==> i < search_label_count(),
    ensures
        r@ == ok_detail(op, *o),
{
    match op {
        ScenarioOp::DiscoverChrome => obj1(str_member("chrome_version", out_text_exec(o))),
        ScenarioOp::ProvisionChromedriver => obj1(str_member("path", out_text_exec(o))),
        ScenarioOp::StartChromedriver | ScenarioOp::StartAppium => {
            let port: u16 = match o {
                StepOutput::Driver { port, .. } => *port,
                _ => 0,
            };
            obj2(
                str_member("url", out_text_exec(o)),
                (string_from("port"), decimal_string(port as u64)),
            )
        },
        ScenarioOp::PrepareMobile => {
            let (appium, serial) = match o {
                StepOutput::MobileEnv { appium_path, device_serial, .. } => (
                    appium_path.as_str(),
                    match device_serial {
                        Some(d) => json_string(d.as_str()),
                        None => string_from("null"),
                    },
                ),
                _ => {
                    proof {
                        reveal_strlit("");
                    }
                    ("", string_from("null"))
                },
            };
            obj3(
                str_member("android_sdk_root", out_text_exec(o)),
                str_member("appium_path", appium),
                (string_from("device_serial"), serial),
            )
        },
        ScenarioOp::CreateWebSession | ScenarioOp::CreateMobileSession => obj1(
            str_member("driver_url", out_text_exec(o)),
        ),
        ScenarioOp::GotoInlineForm => obj1(str_member("target", "inline_form")),
        ScenarioOp::GotoRankingPage => obj1(str_member("target", "ranking_page")),
        ScenarioOp::FillEmail => obj2(
            str_member("label", "Email Address"),
            str_member("value", "phase3@uto.dev"),
        ),
        ScenarioOp::ClickSubmit => obj1(str_member("label", "Submit Order")),
        ScenarioOp::ReadOutput => obj1(str_member("text", out_text_exec(o))),
        ScenarioOp::RankCheckout => obj2(
            str_member("label", "Checkout"),
            str_member("summary", out_text_exec(o)),
        ),
        ScenarioOp::ReadTitle => obj1(str_member("title", out_text_exec(o))),
        ScenarioOp::LaunchSettings => obj1(str_member("activity", "Settings")),
        ScenarioOp::SelectLabel(i) => obj2(
            str_member("label", search_label_exec(i)),
            str_member("strategy", "mobile-accessibility"),
        ),
        ScenarioOp::CloseSession | ScenarioOp::StopDriver => obj0(),
    }
}

fn error_detail_exec(error: &str) -> (r: String)
    ensures
        r@ == error_detail(error@),
{
    obj1(str_member("error", error))
}


// ---------------------------------------------------------------------------
// The machine
// ---------------------------------------------------------------------------

/// The states a scenario can be in.
pub open spec fn state_wf(s: StateModel) -> bool {
    match s.phase {
        PhaseModel::Setup(i) => i < setup_ops(s.kind).len(),
        PhaseModel::Run(i) => i < run_ops(s.kind).len(),
        PhaseModel::Search(i) => s.kind is MobileSearch && i < search_label_count(),
        PhaseModel::ClosingAfterSearch => s.kind is MobileSearch,
        _ => true,
    }
}

/// The text of a failed session command carrying `m` (the engine's
/// `SessionCommandFailed` error, as the test records it).
pub open spec fn session_command_failed(m: Seq<char>) -> Seq<char> {
    "Session command failed: "@ + m
}

/// An assertion's failure, raised as a failed session command.
pub open spec fn as_command_failure(r: Result<(), Seq<char>>) -> Result<(), Seq<char>> {
    match r {
        Ok(_) => Ok(()),
        Err(m) => Err(session_command_failed(m)),
    }
}

/// What the assertion step of an operation makes of its output.
pub open spec fn run_check(op: ScenarioOp, o: StepOutput) -> Result<(), Seq<char>> {
    match op {
        ScenarioOp::ReadOutput => as_command_failure(
            check_output_spec(out_text(o), expected_output()),
        ),
        ScenarioOp::RankCheckout => as_command_failure(check_ranking_spec(out_text(o))),
        ScenarioOp::ReadTitle => as_command_failure(
            check_title_spec(out_text(o), expected_title()),
        ),
        _ => Ok(()),
    }
}

/// Where the run goes after its operation `i` succeeded, and what it does next:
/// the next run operation, else the first search label, else closing the session.
pub open spec fn after_run(k: ScenarioKind, i: nat) -> (PhaseModel, ScenarioOp) {
    if i + 1 < run_ops(k).len() {
        (PhaseModel::Run(i + 1), run_ops(k)[i + 1int])
    } else if k is MobileSearch {
        (PhaseModel::Search(0), ScenarioOp::SelectLabel(0))
    } else {
        (PhaseModel::Closing, ScenarioOp::CloseSession)
    }
}

pub open spec fn no_label_message() -> Seq<char> {
    session_command_failed("Phase 3 mobile objective failed: no search label resolved"@)
}

pub open spec fn st(k: ScenarioKind, p: PhaseModel) -> StateModel {
    StateModel { kind: k, phase: p }
}

pub open spec fn act(record: Option<RecordModel>, next: NextModel) -> ActionModel {
    ActionModel { record, next }
}

pub open spec fn record_of(stage: Seq<char>, status: Seq<char>, detail: Seq<char>) -> Option<
    RecordModel,
> {
    Some(RecordModel { stage, status, detail })
}

/// How the test ends, from the run's error (if any) and how stopping the
/// driver went: a run error fails the test and is returned; otherwise the
/// test passes and the scenario returns the stop result.
pub open spec fn finish_spec(run: Option<Seq<char>>, stop: Result<(), Seq<char>>) -> NextModel {
    match run {
        None => NextModel::Finish(VerdictModel { test_status: "passed"@, error: None, result: stop }),
        Some(m) => NextModel::Finish(
            VerdictModel { test_status: "failed"@, error: Some(m), result: Err(m) },
        ),
    }
}

/// One step of a scenario: the state after `e`, the event to record and what to do next.
pub open spec fn scenario_step_spec(s: StateModel, e: StepEvent) -> (StateModel, ActionModel) {
    let k = s.kind;
    match s.phase {
        PhaseModel::Setup(i) => {
            let op = setup_ops(k)[i as int];
            match e {
                StepEvent::Done(o) => {
                    let rec = record_of(stage_spec(k, op), "ok"@, ok_detail(op, o));
                    if i + 1 < setup_ops(k).len() {
                        (
                            st(k, PhaseModel::Setup(i + 1)),
                            act(rec, NextModel::Perform(setup_ops(k)[i + 1int])),
                        )
                    } else {
                        (st(k, PhaseModel::Run(0)), act(rec, NextModel::Perform(run_ops(k)[0])))
                    }
                },
                StepEvent::Failed(m) => (
                    st(k, PhaseModel::Finished),
                    act(
                        record_of(stage_spec(k, op), "failed"@, error_detail(m@)),
                        finish_spec(Some(m@), Err(m@)),
                    ),
                ),
            }
        },
        PhaseModel::Run(i) => {
            let op = run_ops(k)[i as int];
            match e {
                StepEvent::Done(o) => match run_check(op, o) {
                    Err(m) => (
                        st(k, PhaseModel::Stopping(Some(m))),
                        act(None, NextModel::Perform(ScenarioOp::StopDriver)),
                    ),
                    Ok(_) => (
                        st(k, after_run(k, i).0),
                        act(
                            record_of(stage_spec(k, op), "ok"@, ok_detail(op, o)),
                            NextModel::Perform(after_run(k, i).1),
                        ),
                    ),
                },
                StepEvent::Failed(m) => (
                    st(k, PhaseModel::Stopping(Some(m@))),
                    act(None, NextModel::Perform(ScenarioOp::StopDriver)),
                ),
            }
        },
        PhaseModel::Search(i) => match e {
            StepEvent::Done(_) => (
                st(k, PhaseModel::Closing),
                act(
                    record_of("intent.select"@, "ok"@, select_ok_detail(i as int)),
                    NextModel::Perform(ScenarioOp::CloseSession),
                ),
            ),
            StepEvent::Failed(m) => {
                let rec = record_of("intent.select"@, "failed"@, select_failed_detail(i as int, m@));
                if i + 1 < search_label_count() {
                    (
                        st(k, PhaseModel::Search(i + 1)),
                        act(rec, NextModel::Perform(ScenarioOp::SelectLabel((i + 1) as usize))),
                    )
                } else {
                    (
                        st(k, PhaseModel::ClosingAfterSearch),
                        act(rec, NextModel::Perform(ScenarioOp::CloseSession)),
                    )
                }
            },
        },
        PhaseModel::Closing => match e {
            StepEvent::Done(_) => (
                st(k, PhaseModel::Stopping(None)),
                act(None, NextModel::Perform(ScenarioOp::StopDriver)),
            ),
            StepEvent::Failed(m) => (
                st(k, PhaseModel::Stopping(Some(m@))),
                act(None, NextModel::Perform(ScenarioOp::StopDriver)),
            ),
        },
        PhaseModel::ClosingAfterSearch => (
            st(k, PhaseModel::Stopping(Some(no_label_message()))),
            act(None, NextModel::Perform(ScenarioOp::StopDriver)),
        ),
        PhaseModel::Stopping(run) => {
            let stage = stage_spec(k, ScenarioOp::StopDriver);
            match e {
                StepEvent::Done(_) => (
                    st(k, PhaseModel::Finished),
                    act(record_of(stage, "ok"@, object_text(seq![])), finish_spec(run, Ok(()))),
                ),
                StepEvent::Failed(m) => (
                    st(k, PhaseModel::Finished),
                    act(record_of(stage, "failed"@, error_detail(m@)), finish_spec(run, Err(m@))),
                ),
            }
        },
        PhaseModel::Finished => (s, act(None, NextModel::Done)),
    }
}

impl ScenarioState {
    /// Every scenario state names an existing step of its scenario.
    #[verifier::type_invariant]
    spec fn wf(self) -> bool {
        state_wf(self@)
    }

    /// Which scenario this is.
    pub fn kind(&self) -> (k: ScenarioKind)
        ensures
            k == self@.kind,
    {
        self.kind
    }

    /// Whether the scenario is over.
    pub fn is_finished(&self) -> (b: bool)
        ensures
            b == (self@.phase is Finished),
    {
        match self.phase {
            ScenarioPhase::Finished => true,
            _ => false,
        }
    }
}

fn setup_len(k: ScenarioKind) -> (r: usize)
    ensures
        r == setup_ops(k).len(),
{
    match k {
        ScenarioKind::WebFillAndClick | ScenarioKind::WebRanking => 3,
        _ => 2,
    }
}

fn setup_op(k: ScenarioKind, i: usize) -> (r: ScenarioOp)
    requires
        i < setup_ops(k).len(),
    ensures
        r == setup_ops(k)[i as int],
{
    match k {
        ScenarioKind::WebFillAndClick | ScenarioKind::WebRanking => if i == 0 {
            ScenarioOp::DiscoverChrome
        } else if i == 1 {
            ScenarioOp::ProvisionChromedriver
        } else {
            ScenarioOp::StartChromedriver
        },
        _ => if i == 0 {
            ScenarioOp::PrepareMobile
        } else {
            ScenarioOp::StartAppium
        },
    }
}

fn run_len(k: ScenarioKind) -> (r: usize)
    ensures
        r == run_ops(k).len(),
{
    match k {
        ScenarioKind::WebFillAndClick => 5,
        ScenarioKind::WebRanking => 4,
        _ => 2,
    }
}

fn run_op(k: ScenarioKind, i: usize) -> (r: ScenarioOp)
    requires
        i < run_ops(k).len(),
    ensures
        r == run_ops(k)[i as int],
{
    match k {
        ScenarioKind::WebFillAndClick => if i == 0 {
            ScenarioOp::CreateWebSession
        } else if i == 1 {
            ScenarioOp::GotoInlineForm
        } else if i == 2 {
            ScenarioOp::FillEmail
        } else if i == 3 {
            ScenarioOp::ClickSubmit
        } else {
            ScenarioOp::ReadOutput
        },
        ScenarioKind::WebRanking => if i == 0 {
            ScenarioOp::CreateWebSession
        } else if i == 1 {
            ScenarioOp::GotoRankingPage
        } else if i == 2 {
            ScenarioOp::RankCheckout
        } else {
            ScenarioOp::ReadTitle
        },
        _ => if i == 0 {
            ScenarioOp::CreateMobileSession
        } else {
            ScenarioOp::LaunchSettings
        },
    }
}

fn run_check_exec(op: ScenarioOp, o: &StepOutput) -> (r: Result<(), String>)
    ensures
        unit_result(r) == run_check(op, *o),
{
    let checked = match op {
        ScenarioOp::ReadOutput => check_output(out_text_exec(o), "phase3@uto.dev"),
        ScenarioOp::RankCheckout => check_ranking(out_text_exec(o)),
        ScenarioOp::ReadTitle => check_title(out_text_exec(o), "UTO Intent Ranking"),
        _ => Ok(()),
    };
    match checked {
        Ok(()) => Ok(()),
        Err(m) => Err(command_failure(m.as_str())),
    }
}

fn command_failure(m: &str) -> (r: String)
    ensures
        r@ == session_command_failed(m@),
{
    let mut s = string_from("Session command failed: ");
    push_str(&mut s, m);
    s
}

fn after_run_exec(k: ScenarioKind, i: usize) -> (r: (ScenarioPhase, ScenarioOp))
    requires
        i < run_ops(k).len(),
    ensures
        phase_view(r.0) == after_run(k, i as nat).0,
        r.1 == after_run(k, i as nat).1,
{
    if i + 1 < run_len(k) {
        (ScenarioPhase::Run(i + 1), run_op(k, i + 1))
    } else if k == ScenarioKind::MobileSearch {
        (ScenarioPhase::Search(0), ScenarioOp::SelectLabel(0))
    } else {
        (ScenarioPhase::Closing, ScenarioOp::CloseSession)
    }
}

fn finish_exec(run: Option<String>, stop: Result<(), String>) -> (r: ScenarioNext)
    ensures
        r@ == finish_spec(
            match run {
                Some(m) => Some(m@),
                None => None,
            },
            unit_result(stop),
        ),
{
    match run {
        None => ScenarioNext::Finish(ScenarioVerdict { test_status: "passed", error: None, result: stop }),
        Some(m) => {
            let e = m.clone();
            ScenarioNext::Finish(ScenarioVerdict { test_status: "failed", error: Some(m), result: Err(e) })
        },
    }
}

/// Starts a scenario: nothing recorded yet, its first setup operation to perform.
pub fn scenario_start(kind: ScenarioKind) -> (r: (ScenarioState, ScenarioAction))
    ensures
        r.0@ == st(kind, PhaseModel::Setup(0)),
        r.1@ == act(None, NextModel::Perform(setup_ops(kind)[0])),
{
    let op = setup_op(kind, 0);
    (
        ScenarioState { kind, phase: ScenarioPhase::Setup(0) },
        ScenarioAction { record: None, next: ScenarioNext::Perform(op) },
    )
}

/// Takes how the last operation went and decides the event to record, the
/// next operation or how the test ends.
pub fn scenario_step(state: &ScenarioState, event: StepEvent) -> (r: (ScenarioState, ScenarioAction))
    ensures
        r.0@ == scenario_step_spec(state@, event).0,
        r.1@ == scenario_step_spec(state@, event).1,
{
    proof {
        use_type_invariant(state);
    }
    let k = state.kind;
    match &state.phase {
        ScenarioPhase::Setup(i) => {
            let i: usize = *i;
            let op = setup_op(k, i);
            match event {
                StepEvent::Done(o) => {
                    let rec = StepRecord { stage: stage_of(k, op), status: "ok", detail: ok_detail_exec(op, &o) };
                    if i + 1 < setup_len(k) {
                        let next = setup_op(k, i + 1);
                        (
                            ScenarioState { kind: k, phase: ScenarioPhase::Setup(i + 1) },
                            ScenarioAction { record: Some(rec), next: ScenarioNext::Perform(next) },
                        )
                    } else {
                        let next = run_op(k, 0);
                        (
                            ScenarioState { kind: k, phase: ScenarioPhase::Run(0) },
                            ScenarioAction { record: Some(rec), next: ScenarioNext::Perform(next) },
                        )
                    }
                },
                StepEvent::Failed(m) => {
                    let rec = StepRecord {
                        stage: stage_of(k, op),
                        status: "failed",
                        detail: error_detail_exec(m.as_str()),
                    };
                    let next = finish_exec(Some(m), Err(string_from("")));
                    (
                        ScenarioState { kind: k, phase: ScenarioPhase::Finished },
                        ScenarioAction { record: Some(rec), next },
                    )
                },
            }
        },
        ScenarioPhase::Run(i) => {
            let i: usize = *i;
            let op = run_op(k, i);
            match event {
                StepEvent::Done(o) => match run_check_exec(op, &o) {
                    Err(m) => (
                        ScenarioState { kind: k, phase: ScenarioPhase::Stopping(Some(m)) },
                        ScenarioAction { record: None, next: ScenarioNext::Perform(ScenarioOp::StopDriver) },
                    ),
                    Ok(_) => {
                        let rec = StepRecord { stage: stage_of(k, op), status: "ok", detail: ok_detail_exec(op, &o) };
                        let (phase, next) = after_run_exec(k, i);
                        (
                            ScenarioState { kind: k, phase },
                            ScenarioAction { record: Some(rec), next: ScenarioNext::Perform(next) },
                        )
                    },
                },
                StepEvent::Failed(m) => (
                    ScenarioState { kind: k, phase: ScenarioPhase::Stopping(Some(m)) },
                    ScenarioAction { record: None, next: ScenarioNext::Perform(ScenarioOp::StopDriver) },
                ),
            }
        },
        ScenarioPhase::Search(i) => {
            let i: usize = *i;
            let label = search_label_exec(i);
            match event {
                StepEvent::Done(_) => {
                    let detail = obj2(
                        str_member("label", label),
                        str_member("strategy", "mobile-accessibility"),
                    );
                    (
                        ScenarioState { kind: k, phase: ScenarioPhase::Closing },
                        ScenarioAction {
                            record: Some(StepRecord { stage: "intent.select", status: "ok", detail }),
                            next: ScenarioNext::Perform(ScenarioOp::CloseSession),
                        },
                    )
                },
                StepEvent::Failed(m) => {
                    let detail = obj2(str_member("label", label), str_member("error", m.as_str()));
                    let rec = StepRecord { stage: "intent.select", status: "failed", detail };
                    if i + 1 < 5 {
                        (
                            ScenarioState { kind: k, phase: ScenarioPhase::Search(i + 1) },
                            ScenarioAction {
                                record: Some(rec),
                                next: ScenarioNext::Perform(ScenarioOp::SelectLabel(i + 1)),
                            },
                        )
                    } else {
                        (
                            ScenarioState { kind: k, phase: ScenarioPhase::ClosingAfterSearch },
                            ScenarioAction {
                                record: Some(rec),
                                next: ScenarioNext::Perform(ScenarioOp::CloseSession),
                            },
                        )
                    }
                },
            }
        },
        ScenarioPhase::Closing => {
            let run = match event {
                StepEvent::Done(_) => None,
                StepEvent::Failed(m) => Some(m),
            };
            (
                ScenarioState { kind: k, phase: ScenarioPhase::Stopping(run) },
                ScenarioAction { record: None, next: ScenarioNext::Perform(ScenarioOp::StopDriver) },
            )
        },
        ScenarioPhase::ClosingAfterSearch => {
            let m = command_failure("Phase 3 mobile objective failed: no search label resolved");
            (
                ScenarioState { kind: k, phase: ScenarioPhase::Stopping(Some(m)) },
                ScenarioAction { record: None, next: ScenarioNext::Perform(ScenarioOp::StopDriver) },
            )
        },
        ScenarioPhase::Stopping(run) => {
            let run: Option<String> = match run {
                Some(m) => Some(m.clone()),
                None => None,
            };
            let stage = stage_of(k, ScenarioOp::StopDriver);
            let (rec, stop) = match event {
                StepEvent::Done(_) => (StepRecord { stage, status: "ok", detail: obj0() }, Ok(())),
                StepEvent::Failed(m) => (
                    StepRecord { stage, status: "failed", detail: error_detail_exec(m.as_str()) },
                    Err(m),
                ),
            };
            let next = finish_exec(run, stop);
            (
                ScenarioState { kind: k, phase: ScenarioPhase::Finished },
                ScenarioAction { record: Some(rec), next },
            )
        },
        ScenarioPhase::Finished => (
            ScenarioState { kind: k, phase: ScenarioPhase::Finished },
            ScenarioAction { record: None, next: ScenarioNext::Done },
        ),
    }
}


// ---------------------------------------------------------------------------
// Laws
// ---------------------------------------------------------------------------

/// An upper bound on the steps left before the test is recorded.
pub open spec fn steps_left(s: StateModel) -> nat {
    match s.phase {
        PhaseModel::Setup(i) => (40 - i) as nat,
        PhaseModel::Run(i) => (30 - i) as nat,
        PhaseModel::Search(i) => (20 - i) as nat,
        PhaseModel::Closing => 10,
        PhaseModel::ClosingAfterSearch => 10,
        PhaseModel::Stopping(_) => 5,
        PhaseModel::Finished => 0,
    }
}

/// The driver has started and not yet been stopped.
pub open spec fn driver_up(p: PhaseModel) -> bool {
    p is Run || p is Search || p is Closing || p is ClosingAfterSearch || p is Stopping
}

/// The run has already failed: whatever comes next, the test fails.
pub open spec fn run_failed(p: PhaseModel) -> bool {
    p is ClosingAfterSearch || p matches PhaseModel::Stopping(Some(_))
}

/// Law: each step keeps the scenario well formed and brings it closer to its
/// end; the test is recorded (a `Finish`) exactly on the step that ends the
/// scenario, and an ended scenario does nothing more.  So every scenario
/// records its test exactly once.
pub proof fn lemma_scenario_records_test_once(s: StateModel, e: StepEvent)
    requires
        state_wf(s),
    ensures
        state_wf(scenario_step_spec(s, e).0),
        scenario_step_spec(s, e).0.kind == s.kind,
        scenario_step_spec(s, e).1.next is Finish <==> (s.phase !is Finished
            && scenario_step_spec(s, e).0.phase is Finished),
        s.phase !is Finished ==> steps_left(scenario_step_spec(s, e).0) < steps_left(s),
        s.phase is Finished ==> scenario_step_spec(s, e).0 == s
            && scenario_step_spec(s, e).1.next is Done && scenario_step_spec(s, e).1.record is None,
{
}

/// The scenario ends with an error.
pub open spec fn ends_with_err(n: NextModel) -> bool {
    n matches NextModel::Finish(v) && v.result is Err
}

/// The scenario ends with the test recorded `failed` and an error returned.
pub open spec fn ends_failed(n: NextModel) -> bool {
    n matches NextModel::Finish(v) && v.result is Err && v.test_status == "failed"@
}

/// The driver-starting step: the last setup operation, which starts the driver, succeeded.
pub open spec fn is_driver_start(s: StateModel, e: StepEvent) -> bool {
    &&& e is Done
    &&& s.phase matches PhaseModel::Setup(i)
    &&& i + 1 == setup_ops(s.kind).len()
    &&& (setup_ops(s.kind)[i as int] == ScenarioOp::StartChromedriver || setup_ops(s.kind)[i as int]
        == ScenarioOp::StartAppium)
}

/// Law: a failed step outside the search fails the scenario: either the test
/// ends at once, recorded `failed` with an error returned, or the run is
/// marked failed; a failed run stays failed until the test is recorded
/// `failed` and the scenario returns the run's error.  A failure to stop the
/// driver is returned as an error too.
pub proof fn lemma_failed_step_gives_err(s: StateModel, e: StepEvent)
    requires
        state_wf(s),
    ensures
        (e is Failed && (s.phase is Setup || s.phase is Run || s.phase is Closing)) ==> (run_failed(
            scenario_step_spec(s, e).0.phase,
        ) || ends_failed(scenario_step_spec(s, e).1.next)),
        (e is Failed && s.phase is Stopping) ==> ends_with_err(scenario_step_spec(s, e).1.next),
        run_failed(s.phase) ==> (run_failed(scenario_step_spec(s, e).0.phase) || ends_failed(
            scenario_step_spec(s, e).1.next,
        )),
        s.phase matches PhaseModel::Stopping(Some(m)) ==> scenario_step_spec(s, e).1.next
            == NextModel::Finish(
            VerdictModel { test_status: "failed"@, error: Some(m), result: Err(m) },
        ),
{
}

/// Law: once the driver has started it stays up, with the test not yet
/// recorded, until the scenario asks to stop it (and it asks exactly when it
/// moves to stopping); the test is recorded on the step that reports how
/// stopping went.  The driver starts only with the driver-starting step.
pub proof fn lemma_started_driver_is_stopped(s: StateModel, e: StepEvent)
    requires
        state_wf(s),
    ensures
        driver_up(s.phase) && s.phase !is Stopping ==> driver_up(scenario_step_spec(s, e).0.phase)
            && scenario_step_spec(s, e).1.next is Perform,
        (scenario_step_spec(s, e).0.phase is Stopping && s.phase !is Stopping) <==> scenario_step_spec(
            s,
            e,
        ).1.next == NextModel::Perform(ScenarioOp::StopDriver),
        s.phase is Stopping ==> scenario_step_spec(s, e).1.next is Finish,
        driver_up(scenario_step_spec(s, e).0.phase) && !driver_up(s.phase) ==> is_driver_start(s, e),
{
}

} // verus!
