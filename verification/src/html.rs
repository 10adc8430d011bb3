//! Deterministic, offline-readable HTML rendering of `uto-report/v1` payloads.
//!
//! Every text taken from the report is HTML-escaped before it is placed in
//! the page.
use vstd::prelude::*;

use crate::json_text::{pretty_json, pretty_json_text};
use crate::suite_report::{ReportEvent, UtoReportV1};
use crate::text::{chars_of, decimal, eq_ignore_case, eq_ignore_case_str, push_decimal, string_from};

verus! {

/// The HTML escape of one character.
pub open spec fn escape_char(c: char) -> Seq<char> {
    if c == '&' {
        "&amp;"@
    } else if c == '<' {
        "&lt;"@
    } else if c == '>' {
        "&gt;"@
    } else if c == '"' {
        "&quot;"@
    } else if c == '\'' {
        "&#39;"@
    } else {
        seq![c]
    }
}

/// `s` with `&`, `<`, `>`, `"` and `'` replaced by their HTML entities.
pub open spec fn escape_spec(s: Seq<char>) -> Seq<char>
    decreases s.len(),
{
    if s.len() == 0 {
        seq![]
    } else {
        escape_spec(s.drop_last()) + escape_char(s.last())
    }
}

/// Law: escaped text holds no `<`, `>`, `"` or `'`, so untrusted text
/// cannot open a tag or leave an attribute value.
pub proof fn lemma_escape_inert(s: Seq<char>)
    ensures
        forall|i: int|
            0 <= i < escape_spec(s).len() ==> {
                let c = #[trigger] escape_spec(s)[i];
                c != '<' && c != '>' && c != '"' && c != '\''
            },
    decreases s.len(),
{
    reveal_strlit("&amp;");
    reveal_strlit("&lt;");
    reveal_strlit("&gt;");
    reveal_strlit("&quot;");
    reveal_strlit("&#39;");
    if s.len() > 0 {
        lemma_escape_inert(s.drop_last());
        let a = escape_spec(s.drop_last());
        let b = escape_char(s.last());
        assert forall|i: int| 0 <= i < escape_spec(s).len() implies {
            let c = #[trigger] escape_spec(s)[i];
            c != '<' && c != '>' && c != '"' && c != '\''
        } by {
            if i < a.len() {
                assert(escape_spec(s)[i] == a[i]);
            } else {
                assert(escape_spec(s)[i] == b[i - a.len()]);
            }
        }
    }
}

fn push_escaped(out: &mut Vec<char>, s: &str)
    ensures
        final(out)@ == old(out)@ + escape_spec(s@),
{
    let v = chars_of(s);
    let ghost start = out@;
    let mut i: usize = 0;
    while i < v.len()
        invariant
            i <= v.len(),
            v@ == s@,
            out@ == start + escape_spec(v@.take(i as int)),
        decreases v.len() - i,
    {
        let c = v[i];
        if c == '&' {
            crate::text::extend_str(out, "&amp;");
        } else if c == '<' {
            crate::text::extend_str(out, "&lt;");
        } else if c == '>' {
            crate::text::extend_str(out, "&gt;");
        } else if c == '"' {
            crate::text::extend_str(out, "&quot;");
        } else if c == '\'' {
            crate::text::extend_str(out, "&#39;");
        } else {
            out.push(c);
        }
        proof {
            assert(v@.take(i + 1).drop_last() =~= v@.take(i as int));
            assert(v@.take(i + 1).last() == c);
            assert(out@ =~= start + escape_spec(v@.take(i + 1)));
        }
        i = i + 1;
    }
    assert(v@.take(v@.len() as int) =~= v@);
}

/// HTML-escapes untrusted text.
pub fn escape_html(raw: &str) -> (r: String)
    ensures
        r@ == escape_spec(raw@),
{
    let mut v: Vec<char> = Vec::new();
    push_escaped(&mut v, raw);
    assert(v@ =~= escape_spec(raw@));
    crate::text::string_of(&v)
}

/// The CSS class of a status badge.
pub open spec fn status_class_spec(status: Seq<char>) -> Seq<char> {
    if eq_ignore_case(status, "passed"@) || eq_ignore_case(status, "ok"@) {
        "status-ok"@
    } else if eq_ignore_case(status, "running"@) {
        "status-running"@
    } else {
        "status-fail"@
    }
}

pub fn status_class(status: &str) -> (r: &'static str)
    ensures
        r@ == status_class_spec(status@),
{
    let v = chars_of(status);
    if eq_ignore_case_str(&v, "passed") || eq_ignore_case_str(&v, "ok") {
        "status-ok"
    } else if eq_ignore_case_str(&v, "running") {
        "status-running"
    } else {
        "status-fail"
    }
}

/// A number, or `-` when absent.
pub open spec fn optional_spec(value: Option<u64>) -> Seq<char> {
    match value {
        Some(v) => decimal(v as nat),
        None => "-"@,
    }
}

pub fn optional_u64(value: Option<u64>) -> (r: String)
    ensures
        r@ == optional_spec(value),
{
    match value {
        Some(v) => crate::text::decimal_string(v),
        None => string_from("-"),
    }
}

fn push_optional(out: &mut Vec<char>, value: Option<u64>)
    ensures
        final(out)@ == old(out)@ + optional_spec(value),
{
    match value {
        Some(v) => push_decimal(out, v),
        None => crate::text::extend_str(out, "-"),
    }
}

// ---------------------------------------------------------------------------
// The report page
// ---------------------------------------------------------------------------

pub const TEMPLATE_0: &'static str = "<!doctype html>\n<html lang=\\\"en\\\">\n<head>\n  <meta charset=\\\"utf-8\\\">\n  <meta name=\\\"viewport\\\" content=\\\"width=device-width, initial-scale=1\\\">\n  <title>UTO Report ";

pub const TEMPLATE_1: &'static str = "</title>\n  <style>\n    :root {\n      --bg: #f5f3ef;\n      --panel: #ffffff;\n      --ink: #1f2429;\n      --muted: #5a646e;\n      --line: #d7d2ca;\n      --ok: #1d7f4f;\n      --warn: #af702d;\n      --bad: #a93030;\n    }\n    * { box-sizing: border-box; }\n    body {\n      margin: 0;\n      background: radial-gradient(circle at 15% 0, #fdfbf7, var(--bg));\n      color: var(--ink);\n      font-family: \\\"Iowan Old Style\\\", \\\"Georgia\\\", serif;\n      line-height: 1.45;\n    }\n    .wrap { max-width: 1100px; margin: 32px auto; padding: 0 18px 32px; }\n    h1, h2 { margin: 0 0 12px; letter-spacing: 0.2px; }\n    h1 { font-size: 2rem; }\n    h2 { font-size: 1.2rem; }\n    .panel {\n      background: var(--panel);\n      border: 1px solid var(--line);\n      border-radius: 12px;\n      padding: 16px;\n      margin: 14px 0;\n      box-shadow: 0 2px 10px rgba(31, 36, 41, 0.04);\n    }\n    .meta {\n      display: grid;\n      grid-template-columns: repeat(auto-fit, minmax(220px, 1fr));\n      gap: 10px 16px;\n      margin-top: 10px;\n    }\n    .meta-item { border-top: 1px solid var(--line); padding-top: 8px; }\n    .label { color: var(--muted); font-size: 0.85rem; text-transform: uppercase; letter-spacing: 0.08em; }\n    .value { font-size: 1.03rem; margin-top: 2px; word-break: break-word; }\n    .status {\n      display: inline-block;\n      border-radius: 999px;\n      padding: 3px 10px;\n      font-size: 0.85rem;\n      font-weight: 600;\n      text-transform: uppercase;\n      letter-spacing: 0.06em;\n    }\n    .status-ok { background: #deefe6; color: var(--ok); }\n    .status-running { background: #f4e8d5; color: var(--warn); }\n    .status-fail { background: #f4dddd; color: var(--bad); }\n    .panel-error { border-color: #e5b5b5; background: #fff9f9; }\n    table { width: 100%; border-collapse: collapse; }\n    th, td { border-top: 1px solid var(--line); padding: 10px 8px; vertical-align: top; text-align: left; }\n    th { border-top: none; font-size: 0.85rem; color: var(--muted); text-transform: uppercase; letter-spacing: 0.08em; }\n    td.empty { color: var(--muted); text-align: center; padding: 18px 10px; }\n    pre {\n      margin: 0;\n      font-family: ui-monospace, SFMono-Regular, Menlo, Monaco, Consolas, \\\"Liberation Mono\\\", \\\"Courier New\\\", monospace;\n      font-size: 0.83rem;\n      white-space: pre-wrap;\n      overflow-wrap: anywhere;\n    }\n  </style>\n</head>\n<body>\n  <div class=\\\"wrap\\\">\n    <section class=\\\"panel\\\">\n      <h1>UTO Execution Report</h1>\n      <span class=\\\"status ";

pub const TEMPLATE_2: &'static str = "\\\">";

pub const TEMPLATE_3: &'static str = "</span>\n      <div class=\\\"meta\\\">\n        <div class=\\\"meta-item\\\"><div class=\\\"label\\\">Schema</div><div class=\\\"value\\\">";

pub const TEMPLATE_4: &'static str = "</div></div>\n        <div class=\\\"meta-item\\\"><div class=\\\"label\\\">Framework</div><div class=\\\"value\\\">";

pub const TEMPLATE_5: &'static str = "</div></div>\n        <div class=\\\"meta-item\\\"><div class=\\\"label\\\">Run ID</div><div class=\\\"value\\\">";

pub const TEMPLATE_6: &'static str = "</div></div>\n        <div class=\\\"meta-item\\\"><div class=\\\"label\\\">Mode</div><div class=\\\"value\\\">";

pub const TEMPLATE_7: &'static str = "</div></div>\n        <div class=\\\"meta-item\\\"><div class=\\\"label\\\">Started (unix ms)</div><div class=\\\"value\\\">";

pub const TEMPLATE_8: &'static str = "</div></div>\n        <div class=\\\"meta-item\\\"><div class=\\\"label\\\">Finished (unix ms)</div><div class=\\\"value\\\">";

pub const TEMPLATE_9: &'static str = "</div></div>\n        <div class=\\\"meta-item\\\"><div class=\\\"label\\\">Duration (ms)</div><div class=\\\"value\\\">";

pub const TEMPLATE_10: &'static str = "</div></div>\n        <div class=\\\"meta-item\\\"><div class=\\\"label\\\">Event Count</div><div class=\\\"value\\\">";

pub const TEMPLATE_11: &'static str = "</div></div>\n      </div>\n    </section>\n    ";

pub const TEMPLATE_12: &'static str = "\n    <section class=\\\"panel\\\">\n      <h2>Events</h2>\n      <table>\n        <thead>\n          <tr><th>#</th><th>Stage</th><th>Status</th><th>Detail</th></tr>\n        </thead>\n        <tbody>\n          ";

pub const TEMPLATE_13: &'static str = "\n        </tbody>\n      </table>\n    </section>\n  </div>\n</body>\n</html>";

pub const EMPTY_EVENTS_ROW: &'static str = "<tr><td colspan=\"4\" class=\"empty\">No events recorded for this run.</td></tr>";

/// How an event's detail is shown: pretty-printed JSON, or a marker when the
/// detail is not JSON.
pub open spec fn detail_display_spec(detail: Seq<char>) -> Seq<char> {
    match pretty_json_text(detail) {
        Some(p) => p,
        None => "\"<invalid detail json>\""@,
    }
}

/// The detail text shown for an event.
pub fn detail_display(detail: &str) -> (r: String)
    ensures
        r@ == detail_display_spec(detail@),
{
    match pretty_json(detail) {
        Some(p) => p,
        None => string_from("\"<invalid detail json>\""),
    }
}

/// One row of the events table; rows are numbered from 1.
pub open spec fn event_row(index: nat, e: ReportEvent) -> Seq<char> {
    "<tr><td>"@ + decimal(index + 1) + "</td><td>"@ + escape_spec(e.stage@) + "</td><td>"@
        + escape_spec(e.status@) + "</td><td><pre>"@ + escape_spec(detail_display_spec(e.detail@))
        + "</pre></td></tr>"@
}

pub open spec fn event_rows(events: Seq<ReportEvent>) -> Seq<char>
    decreases events.len(),
{
    if events.len() == 0 {
        seq![]
    } else {
        event_rows(events.drop_last()) + event_row((events.len() - 1) as nat, events.last())
    }
}

/// The events table body: one row per event, or a placeholder row without events.
pub open spec fn event_table(events: Seq<ReportEvent>) -> Seq<char> {
    if events.len() == 0 {
        EMPTY_EVENTS_ROW@
    } else {
        event_rows(events)
    }
}

/// The error panel, present only when the report carries an error.
pub open spec fn error_block(error: Option<String>) -> Seq<char> {
    match error {
        Some(e) => "<section class=\"panel panel-error\"><h2>Error</h2><pre>"@ + escape_spec(e@)
            + "</pre></section>"@,
        None => seq![],
    }
}

/// The whole page for a report.
pub open spec fn render_report_spec(r: UtoReportV1) -> Seq<char> {
    TEMPLATE_0@ + escape_spec(r.run_id@) + TEMPLATE_1@ + status_class_spec(r.status@) + TEMPLATE_2@
        + escape_spec(r.status@) + TEMPLATE_3@ + escape_spec(r.schema_version@) + TEMPLATE_4@
        + escape_spec(r.framework@) + TEMPLATE_5@ + escape_spec(r.run_id@) + TEMPLATE_6@
        + escape_spec(r.mode@) + TEMPLATE_7@ + decimal(r.timeline.started_at_unix_ms as nat)
        + TEMPLATE_8@ + optional_spec(r.timeline.finished_at_unix_ms) + TEMPLATE_9@
        + optional_spec(r.timeline.duration_ms) + TEMPLATE_10@ + decimal(r.events@.len())
        + TEMPLATE_11@ + error_block(r.error) + TEMPLATE_12@ + event_table(r.events@)
        + TEMPLATE_13@
}

/// `value` appears in `page` right between `before` and `after`.
pub open spec fn appears_between(
    page: Seq<char>,
    before: Seq<char>,
    value: Seq<char>,
    after: Seq<char>,
) -> bool {
    exists|i: int|
        0 <= i && i + before.len() + value.len() + after.len() <= page.len() && #[trigger] page.subrange(
            i,
            i + before.len() + value.len() + after.len(),
        ) == before + value + after
}

/// A number as the page shows it: its decimal digits, or `-` when absent.
pub open spec fn shown_number(v: Option<u64>) -> Seq<char> {
    match v {
        Some(n) => decimal(n as nat),
        None => "-"@,
    }
}

proof fn lemma_appears_between(
    page: Seq<char>,
    x: Seq<char>,
    before: Seq<char>,
    value: Seq<char>,
    after: Seq<char>,
    y: Seq<char>,
)
    requires
        page == x + before + value + after + y,
    ensures
        appears_between(page, before, value, after),
{
    let i = x.len() as int;
    assert(page.subrange(i, i + before.len() + value.len() + after.len()) =~= before + value + after);
}

/// Law: the page shows the report's timeline under its labels: the start
/// time after "Started (unix ms)", the finish time after "Finished (unix ms)"
/// and the duration after "Duration (ms)", each as a decimal number, or `-`
/// when the report has none.
#[verifier::spinoff_prover]
#[verifier::rlimit(60)]
pub proof fn lemma_report_page_timeline(r: UtoReportV1)
    ensures
        appears_between(
            render_report_spec(r),
            TEMPLATE_7@,
            decimal(r.timeline.started_at_unix_ms as nat),
            TEMPLATE_8@,
        ),
        appears_between(
            render_report_spec(r),
            TEMPLATE_8@,
            shown_number(r.timeline.finished_at_unix_ms),
            TEMPLATE_9@,
        ),
        appears_between(
            render_report_spec(r),
            TEMPLATE_9@,
            shown_number(r.timeline.duration_ms),
            TEMPLATE_10@,
        ),
{
    let head = TEMPLATE_0@ + escape_spec(r.run_id@) + TEMPLATE_1@ + status_class_spec(r.status@)
        + TEMPLATE_2@ + escape_spec(r.status@) + TEMPLATE_3@ + escape_spec(r.schema_version@)
        + TEMPLATE_4@ + escape_spec(r.framework@) + TEMPLATE_5@ + escape_spec(r.run_id@)
        + TEMPLATE_6@ + escape_spec(r.mode@);
    let started = decimal(r.timeline.started_at_unix_ms as nat);
    let finished = shown_number(r.timeline.finished_at_unix_ms);
    let duration = shown_number(r.timeline.duration_ms);
    let tail = decimal(r.events@.len()) + TEMPLATE_11@ + error_block(r.error) + TEMPLATE_12@
        + event_table(r.events@) + TEMPLATE_13@;
    let page = render_report_spec(r);
    assert(page =~= head + TEMPLATE_7@ + started + TEMPLATE_8@ + (finished + TEMPLATE_9@ + duration
        + TEMPLATE_10@ + tail));
    lemma_appears_between(
        page,
        head,
        TEMPLATE_7@,
        started,
        TEMPLATE_8@,
        finished + TEMPLATE_9@ + duration + TEMPLATE_10@ + tail,
    );
    assert(page =~= (head + TEMPLATE_7@ + started) + TEMPLATE_8@ + finished + TEMPLATE_9@ + (
    duration + TEMPLATE_10@ + tail));
    lemma_appears_between(
        page,
        head + TEMPLATE_7@ + started,
        TEMPLATE_8@,
        finished,
        TEMPLATE_9@,
        duration + TEMPLATE_10@ + tail,
    );
    assert(page =~= (head + TEMPLATE_7@ + started + TEMPLATE_8@ + finished) + TEMPLATE_9@
        + duration + TEMPLATE_10@ + tail);
    lemma_appears_between(
        page,
        head + TEMPLATE_7@ + started + TEMPLATE_8@ + finished,
        TEMPLATE_9@,
        duration,
        TEMPLATE_10@,
        tail,
    );
}

fn push_event_row(out: &mut Vec<char>, i: usize, e: &ReportEvent)
    requires
        i < usize::MAX,
    ensures
        final(out)@ == old(out)@ + event_row(i as nat, *e),
{
    let ghost start = out@;
    crate::text::extend_str(out, "<tr><td>");
    push_decimal(out, (i + 1) as u64);
    crate::text::extend_str(out, "</td><td>");
    push_escaped(out, e.stage.as_str());
    crate::text::extend_str(out, "</td><td>");
    push_escaped(out, e.status.as_str());
    crate::text::extend_str(out, "</td><td><pre>");
    let shown = detail_display(e.detail.as_str());
    push_escaped(out, shown.as_str());
    crate::text::extend_str(out, "</pre></td></tr>");
    assert(out@ =~= start + event_row(i as nat, *e));
}

fn push_event_table(out: &mut Vec<char>, events: &Vec<ReportEvent>)
    ensures
        final(out)@ == old(out)@ + event_table(events@),
{
    if events.len() == 0 {
        crate::text::extend_str(out, EMPTY_EVENTS_ROW);
        return;
    }
    let ghost start = out@;
    let mut i: usize = 0;
    while i < events.len()
        invariant
            i <= events.len(),
            out@ == start + event_rows(events@.take(i as int)),
        decreases events.len() - i,
    {
        let e = &events[i];
        push_event_row(out, i, e);
        proof {
            let s = events@.take(i + 1);
            assert(s.drop_last() =~= events@.take(i as int));
            assert(s.last() == *e);
            assert(out@ =~= start + event_rows(s));
        }
        i = i + 1;
    }
    assert(events@.take(events@.len() as int) =~= events@);
}

/// Renders an offline-readable HTML document for a uto-report/v1 payload.
pub fn render_report_html(report: &UtoReportV1) -> (html: String)
    ensures
        html@ == render_report_spec(*report),
{
    let mut out: Vec<char> = Vec::new();
    crate::text::extend_str(&mut out, TEMPLATE_0);
    push_escaped(&mut out, report.run_id.as_str());
    crate::text::extend_str(&mut out, TEMPLATE_1);
    crate::text::extend_str(&mut out, status_class(report.status.as_str()));
    crate::text::extend_str(&mut out, TEMPLATE_2);
    push_escaped(&mut out, report.status.as_str());
    crate::text::extend_str(&mut out, TEMPLATE_3);
    push_escaped(&mut out, report.schema_version.as_str());
    crate::text::extend_str(&mut out, TEMPLATE_4);
    push_escaped(&mut out, report.framework.as_str());
    crate::text::extend_str(&mut out, TEMPLATE_5);
    push_escaped(&mut out, report.run_id.as_str());
    crate::text::extend_str(&mut out, TEMPLATE_6);
    push_escaped(&mut out, report.mode.as_str());
    crate::text::extend_str(&mut out, TEMPLATE_7);
    push_decimal(&mut out, report.timeline.started_at_unix_ms);
    crate::text::extend_str(&mut out, TEMPLATE_8);
    push_optional(&mut out, report.timeline.finished_at_unix_ms);
    crate::text::extend_str(&mut out, TEMPLATE_9);
    push_optional(&mut out, report.timeline.duration_ms);
    crate::text::extend_str(&mut out, TEMPLATE_10);
    push_decimal(&mut out, report.events.len() as u64);
    crate::text::extend_str(&mut out, TEMPLATE_11);
    match &report.error {
        Some(e) => {
            crate::text::extend_str(&mut out, "<section class=\"panel panel-error\"><h2>Error</h2><pre>");
            push_escaped(&mut out, e.as_str());
            crate::text::extend_str(&mut out, "</pre></section>");
        },
        None => {},
    }
    crate::text::extend_str(&mut out, TEMPLATE_12);
    push_event_table(&mut out, &report.events);
    crate::text::extend_str(&mut out, TEMPLATE_13);
    assert(out@ =~= render_report_spec(*report));
    crate::text::string_of(&out)
}

} // verus!
