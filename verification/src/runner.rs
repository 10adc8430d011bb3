//! The decisions of CLI-owned test execution: which sources hold tests and
//! in what order they run, the command each test runs with, how an outcome
//! is recorded into the suite report, and the verdict of the run.
use vstd::prelude::*;

use crate::discovery::{
    cases_view, truncate_for_report, truncate_spec, CaseModel, DiscoveredTestCase,
};
use crate::json_text::{
    entries_view, json_object, json_opt_number, json_opt_signed, json_string, json_string_array,
    json_string_text, object_text, opt_number_text, opt_signed_text, string_array_text,
};
use crate::platform::{os_join, os_join_exec, HostOs};
use crate::suite_report::{ReportEvent, SuiteReport, TestRunHandle};
use crate::text::{
    all_ws, chars_of, decimal, decimal_string, is_blank, push_str,
    string_from, strs,
};

verus! {

broadcast use vstd::seq_lib::group_to_multiset_ensures;

// ---------------------------------------------------------------------------
// Ordering of discovered tests
// ---------------------------------------------------------------------------

/// Lexicographic order of strings by character, as `str`'s `Ord` compares them.
pub open spec fn seq_lt(a: Seq<char>, b: Seq<char>) -> bool
    decreases a.len(),
{
    if a.len() == 0 {
        b.len() > 0
    } else if b.len() == 0 {
        false
    } else if a[0] != b[0] {
        a[0] < b[0]
    } else {
        seq_lt(a.drop_first(), b.drop_first())
    }
}

/// Test cases are ordered by binary, then by name.
pub open spec fn case_lt(x: CaseModel, y: CaseModel) -> bool {
    seq_lt(x.test_bin, y.test_bin) || (x.test_bin == y.test_bin && seq_lt(x.test_name, y.test_name))
}

/// `x` placed after every case that does not order after it.
pub open spec fn insert_case(s: Seq<CaseModel>, x: CaseModel) -> Seq<CaseModel>
    decreases s.len(),
{
    if s.len() == 0 || !case_lt(x, s.last()) {
        s.push(x)
    } else {
        insert_case(s.drop_last(), x).push(s.last())
    }
}

/// The cases in (binary, name) order, cases with equal keys in their
/// original order (a stable sort).
pub open spec fn sort_cases(s: Seq<CaseModel>) -> Seq<CaseModel>
    decreases s.len(),
{
    if s.len() == 0 {
        s
    } else {
        insert_case(sort_cases(s.drop_last()), s.last())
    }
}

pub open spec fn cases_sorted(s: Seq<CaseModel>) -> bool {
    forall|i: int, j: int| 0 <= i < j < s.len() ==> !case_lt(s[j], s[i])
}

proof fn lemma_seq_lt_irrefl(a: Seq<char>)
    ensures
        !seq_lt(a, a),
    decreases a.len(),
{
    if a.len() > 0 {
        lemma_seq_lt_irrefl(a.drop_first());
    }
}

proof fn lemma_seq_lt_trans(a: Seq<char>, b: Seq<char>, c: Seq<char>)
    requires
        seq_lt(a, b),
        seq_lt(b, c),
    ensures
        seq_lt(a, c),
    decreases a.len(),
{
    if a.len() > 0 && b.len() > 0 && c.len() > 0 && a[0] == b[0] && b[0] == c[0] {
        lemma_seq_lt_trans(a.drop_first(), b.drop_first(), c.drop_first());
    }
}

proof fn lemma_seq_lt_total(a: Seq<char>, b: Seq<char>)
    ensures
        a == b || seq_lt(a, b) || seq_lt(b, a),
    decreases a.len(),
{
    if a.len() > 0 && b.len() > 0 && a[0] == b[0] {
        lemma_seq_lt_total(a.drop_first(), b.drop_first());
        if a.drop_first() == b.drop_first() {
            assert(a =~= seq![a[0]] + a.drop_first());
            assert(b =~= seq![b[0]] + b.drop_first());
        }
    } else if a.len() == 0 && b.len() == 0 {
        assert(a =~= b);
    }
}

proof fn lemma_case_lt_trans(x: CaseModel, y: CaseModel, z: CaseModel)
    requires
        case_lt(x, y),
        case_lt(y, z),
    ensures
        case_lt(x, z),
{
    if seq_lt(x.test_bin, y.test_bin) && seq_lt(y.test_bin, z.test_bin) {
        lemma_seq_lt_trans(x.test_bin, y.test_bin, z.test_bin);
    } else if x.test_bin == y.test_bin && y.test_bin == z.test_bin {
        lemma_seq_lt_trans(x.test_name, y.test_name, z.test_name);
    }
}

/// Not ordering after is transitive.
proof fn lemma_case_le_trans(x: CaseModel, y: CaseModel, z: CaseModel)
    requires
        !case_lt(y, x),
        !case_lt(z, y),
    ensures
        !case_lt(z, x),
{
    lemma_seq_lt_total(x.test_bin, y.test_bin);
    lemma_seq_lt_total(y.test_bin, z.test_bin);
    lemma_seq_lt_total(x.test_name, y.test_name);
    lemma_seq_lt_total(y.test_name, z.test_name);
    if case_lt(z, x) {
        if seq_lt(x.test_bin, y.test_bin) || (x.test_bin == y.test_bin && seq_lt(
            x.test_name,
            y.test_name,
        )) {
            lemma_case_lt_trans(z, x, y);
        } else {
            assert(x.test_bin == y.test_bin && x.test_name == y.test_name);
        }
    }
}

proof fn lemma_case_lt_asym(x: CaseModel, y: CaseModel)
    requires
        case_lt(x, y),
    ensures
        !case_lt(y, x),
{
    if case_lt(y, x) {
        lemma_case_lt_trans(x, y, x);
        lemma_seq_lt_irrefl(x.test_bin);
        lemma_seq_lt_irrefl(x.test_name);
    }
}

proof fn lemma_insert_case(s: Seq<CaseModel>, x: CaseModel)
    requires
        cases_sorted(s),
    ensures
        cases_sorted(insert_case(s, x)),
        insert_case(s, x).to_multiset() =~= s.to_multiset().insert(x),
        insert_case(s, x).len() == s.len() + 1,
    decreases s.len(),
{
    if s.len() == 0 || !case_lt(x, s.last()) {
        let r = s.push(x);
        assert forall|i: int, j: int| 0 <= i < j < r.len() implies !case_lt(r[j], r[i]) by {
            if j == s.len() && s.len() > 0 && i < s.len() - 1 {
                lemma_case_le_trans(r[i], s.last(), x);
            }
        }
    } else {
        let d = s.drop_last();
        let last = s.last();
        assert(cases_sorted(d));
        lemma_insert_case(d, x);
        let r = insert_case(d, x);
        assert(s =~= d.push(last));
        lemma_case_lt_asym(x, last);
        assert forall|i: int| 0 <= i < r.len() implies !case_lt(last, #[trigger] r[i]) by {
            assert(r.to_multiset().count(r[i]) > 0);
            if r[i] != x {
                assert(d.to_multiset().count(r[i]) > 0);
                assert(d.contains(r[i]));
                let k = choose|k: int| 0 <= k < d.len() && d[k] == r[i];
                assert(!case_lt(s[s.len() - 1], s[k]));
            }
        }
        let rr = r.push(last);
        assert forall|i: int, j: int| 0 <= i < j < rr.len() implies !case_lt(rr[j], rr[i]) by {
            if j == r.len() {
                assert(rr[i] == r[i]);
            } else {
                assert(rr[i] == r[i] && rr[j] == r[j]);
            }
        }
    }
}

/// Law: the discovered tests run in (binary, name) order, and the order is a
/// rearrangement that keeps every test case exactly once.
pub proof fn lemma_sort_cases(s: Seq<CaseModel>)
    ensures
        cases_sorted(sort_cases(s)),
        sort_cases(s).to_multiset() =~= s.to_multiset(),
        sort_cases(s).len() == s.len(),
    decreases s.len(),
{
    if s.len() > 0 {
        lemma_sort_cases(s.drop_last());
        lemma_insert_case(sort_cases(s.drop_last()), s.last());
        assert(s =~= s.drop_last().push(s.last()));
    }
}

/// `a < b` for strings.
pub fn str_lt(a: &str, b: &str) -> (r: bool)
    ensures
        r == seq_lt(a@, b@),
{
    let x = chars_of(a);
    let y = chars_of(b);
    let mut i: usize = 0;
    proof {
        assert(a@.skip(0) =~= a@);
        assert(b@.skip(0) =~= b@);
    }
    while i < x.len() && i < y.len() && x[i] == y[i]
        invariant
            i <= x.len(),
            i <= y.len(),
            seq_lt(a@, b@) == seq_lt(x@.skip(i as int), y@.skip(i as int)),
            x@ == a@,
            y@ == b@,
        decreases x.len() - i,
    {
        proof {
            assert(x@.skip(i as int).drop_first() =~= x@.skip(i + 1));
            assert(y@.skip(i as int).drop_first() =~= y@.skip(i + 1));
        }
        i = i + 1;
    }
    if i == x.len() {
        i < y.len()
    } else if i == y.len() {
        false
    } else {
        x[i] < y[i]
    }
}

fn case_lt_exec(x: &DiscoveredTestCase, y: &DiscoveredTestCase) -> (r: bool)
    ensures
        r == case_lt(x@, y@),
{
    if str_lt(x.test_bin.as_str(), y.test_bin.as_str()) {
        return true;
    }
    let same_bin = crate::text::eq_chars(
        &chars_of(x.test_bin.as_str()),
        &chars_of(y.test_bin.as_str()),
    );
    same_bin && str_lt(x.test_name.as_str(), y.test_name.as_str())
}

proof fn lemma_insert_case_at(s: Seq<CaseModel>, x: CaseModel, j: int)
    requires
        0 <= j <= s.len(),
        forall|k: int| j <= k < s.len() ==> case_lt(x, #[trigger] s[k]),
        j == 0 || !case_lt(x, s[j - 1]),
    ensures
        insert_case(s, x) == s.insert(j, x),
    decreases s.len() - j,
{
    if s.len() == j {
        assert(s.insert(j, x) =~= s.push(x));
    } else {
        let d = s.drop_last();
        lemma_insert_case_at(d, x, j);
        assert(s.insert(j, x) =~= d.insert(j, x).push(s.last()));
    }
}

/// Orders discovered tests by binary, then name; equal keys keep their order.
pub fn sort_discovered_tests(cases: Vec<DiscoveredTestCase>) -> (out: Vec<DiscoveredTestCase>)
    ensures
        cases_view(out@) == sort_cases(cases_view(cases@)),
{
    let ghost all = cases_view(cases@);
    let mut rest = cases;
    let mut out: Vec<DiscoveredTestCase> = Vec::new();
    let ghost mut done: int = 0;
    while rest.len() > 0
        invariant
            0 <= done <= all.len(),
            cases_view(rest@) == all.skip(done),
            cases_view(out@) == sort_cases(all.take(done)),
        decreases rest.len(),
    {
        let x = rest.remove(0);
        proof {
            assert(all.skip(done)[0] == x@);
            assert(all.skip(done).drop_first() =~= all.skip(done + 1));
            assert(cases_view(rest@) =~= all.skip(done + 1));
        }
        let mut j = out.len();
        while j > 0 && case_lt_exec(&x, &out[j - 1])
            invariant
                j <= out.len(),
                forall|k: int| j <= k < out.len() ==> case_lt(x@, #[trigger] cases_view(out@)[k]),
            decreases j,
        {
            j = j - 1;
        }
        let ghost before = cases_view(out@);
        proof {
            lemma_insert_case_at(before, x@, j as int);
            assert(all.take(done + 1).drop_last() =~= all.take(done));
            assert(all.take(done + 1).last() == x@);
        }
        out.insert(j, x);
        proof {
            assert(cases_view(out@) =~= before.insert(j as int, x@));
            done = done + 1;
        }
    }
    assert(all.take(done) =~= all);
    out
}

// ---------------------------------------------------------------------------
// Test sources
// ---------------------------------------------------------------------------

/// The last position of `c` in `s`.
pub open spec fn last_index_of(s: Seq<char>, c: char) -> Option<int>
    decreases s.len(),
{
    if s.len() == 0 {
        None
    } else if s.last() == c {
        Some(s.len() - 1)
    } else {
        last_index_of(s.drop_last(), c)
    }
}

/// The test binary a directory entry named `name` defines: its stem when
/// its extension is `rs` (a leading dot starts no extension).
pub open spec fn test_bin_spec(name: Seq<char>) -> Option<Seq<char>> {
    match last_index_of(name, '.') {
        Some(k) => if k > 0 && name.skip(k + 1) == "rs"@ {
            Some(name.take(k))
        } else {
            None
        },
        None => None,
    }
}

/// The test binary of a `tests/` entry, or `None` when it is no `.rs` file.
pub fn test_bin_of(file_name: &str) -> (r: Option<String>)
    ensures
        crate::text::opt_str(r) == test_bin_spec(file_name@),
{
    let v = chars_of(file_name);
    let mut k = v.len();
    assert(v@.take(v@.len() as int) =~= v@);
    while k > 0 && v[k - 1] != '.'
        invariant
            k <= v.len(),
            last_index_of(v@, '.') == last_index_of(v@.take(k as int), '.'),
        decreases k,
    {
        assert(v@.take(k as int).drop_last() =~= v@.take(k - 1));
        k = k - 1;
    }
    proof {
        assert(v@.take(v@.len() as int) =~= v@);
    }
    if k <= 1 {
        return None;
    }
    let dot = k - 1;
    let ext = crate::text::slice_chars(&v, dot + 1, v.len());
    assert(ext@ =~= v@.skip(dot + 1));
    if crate::text::eq_str(&ext, "rs") {
        Some(crate::text::string_of_range(&v, 0, dot))
    } else {
        None
    }
}

/// `Missing tests directory: <project>/<tests_dir>`.
pub fn missing_tests_dir_message(os: HostOs, project: &str, tests_dir: &str) -> (r: String)
    ensures
        r@ == "Missing tests directory: "@ + os_join(os, project@, tests_dir@),
{
    let root = os_join_exec(os, project, tests_dir);
    let mut m = string_from("Missing tests directory: ");
    push_str(&mut m, root.as_str());
    m
}

pub open spec fn no_tests_message_spec(target: Seq<char>, tests_root: Seq<char>) -> Seq<char> {
    "No tests discovered for target '"@ + target + "' in "@ + tests_root
        + ". Add #[uto_test(target = \""@ + target
        + "\")] on test functions or use web_/mobile_ naming."@
}

/// A run needs at least one selected test.
pub fn check_tests_selected(
    os: HostOs,
    selected: &Vec<DiscoveredTestCase>,
    target: &str,
    project: &str,
    tests_dir: &str,
) -> (r: Result<(), String>)
    ensures
        r is Ok <==> selected@.len() > 0,
        r matches Err(e) ==> e@ == no_tests_message_spec(target@, os_join(os, project@, tests_dir@)),
{
    if selected.len() > 0 {
        return Ok(());
    }
    let root = os_join_exec(os, project, tests_dir);
    let mut m = string_from("No tests discovered for target '");
    push_str(&mut m, target);
    push_str(&mut m, "' in ");
    push_str(&mut m, root.as_str());
    push_str(&mut m, ". Add #[uto_test(target = \"");
    push_str(&mut m, target);
    push_str(&mut m, "\")] on test functions or use web_/mobile_ naming.");
    Err(m)
}

// ---------------------------------------------------------------------------
// Commands
// ---------------------------------------------------------------------------

/// A `cargo` invocation: its arguments and extra environment variables.
#[derive(Debug)]
pub struct CargoCommand {
    pub args: Vec<String>,
    pub env: Vec<(String, String)>,
}

pub open spec fn command_env_spec(driver_trace: bool) -> Seq<(Seq<char>, Seq<char>)> {
    if driver_trace {
        seq![("RUST_LOG"@, "info"@), ("UTO_DRIVER_TRACE"@, "1"@)]
    } else {
        seq![("RUST_LOG"@, "info"@)]
    }
}

fn command_env(driver_trace: bool) -> (r: Vec<(String, String)>)
    ensures
        entries_view(r@) == command_env_spec(driver_trace),
{
    let mut env: Vec<(String, String)> = Vec::new();
    env.push((string_from("RUST_LOG"), string_from("info")));
    if driver_trace {
        env.push((string_from("UTO_DRIVER_TRACE"), string_from("1")));
    }
    assert(entries_view(env@) =~= command_env_spec(driver_trace));
    env
}

/// `cargo test --test <bin> <name> -- --nocapture` for one discovered test.
pub fn test_command(case: &DiscoveredTestCase, driver_trace: bool) -> (r: CargoCommand)
    ensures
        strs(r.args@) == seq!["test"@, "--test"@, case.test_bin@, case.test_name@, "--"@, "--nocapture"@],
        entries_view(r.env@) == command_env_spec(driver_trace),
{
    let mut args: Vec<String> = Vec::new();
    args.push(string_from("test"));
    args.push(string_from("--test"));
    args.push(case.test_bin.clone());
    args.push(case.test_name.clone());
    args.push(string_from("--"));
    args.push(string_from("--nocapture"));
    assert(strs(args@) =~= seq!["test"@, "--test"@, case.test_bin@, case.test_name@, "--"@, "--nocapture"@]);
    CargoCommand { args, env: command_env(driver_trace) }
}

/// `cargo run --bin uto_project_runner -- --target <t> --json --report-file <p>`.
pub fn legacy_runner_command(target: &str, report_path: &str, driver_trace: bool) -> (r: CargoCommand)
    ensures
        strs(r.args@) == seq![
            "run"@,
            "--bin"@,
            "uto_project_runner"@,
            "--"@,
            "--target"@,
            target@,
            "--json"@,
            "--report-file"@,
            report_path@,
        ],
        entries_view(r.env@) == command_env_spec(driver_trace),
{
    let mut args: Vec<String> = Vec::new();
    args.push(string_from("run"));
    args.push(string_from("--bin"));
    args.push(string_from("uto_project_runner"));
    args.push(string_from("--"));
    args.push(string_from("--target"));
    args.push(string_from(target));
    args.push(string_from("--json"));
    args.push(string_from("--report-file"));
    args.push(string_from(report_path));
    assert(strs(args@) =~= seq![
        "run"@,
        "--bin"@,
        "uto_project_runner"@,
        "--"@,
        "--target"@,
        target@,
        "--json"@,
        "--report-file"@,
        report_path@,
    ]);
    CargoCommand { args, env: command_env(driver_trace) }
}

/// The warning printed before running a legacy project runner.
pub fn legacy_runner_warning(os: HostOs, project: &str) -> (r: String)
    ensures
        r@ == "Warning: legacy project runner detected at "@ + os_join(os, 
            project@,
            "src/bin/uto_project_runner.rs"@,
        ) + ". This compatibility mode will be removed after two minor releases."@,
{
    let runner = os_join_exec(os, project, "src/bin/uto_project_runner.rs");
    let mut m = string_from("Warning: legacy project runner detected at ");
    push_str(&mut m, runner.as_str());
    push_str(&mut m, ". This compatibility mode will be removed after two minor releases.");
    m
}

/// A legacy runner run fails when its process did not exit successfully.
pub fn legacy_runner_verdict(success: bool) -> (r: Result<(), String>)
    ensures
        r is Ok <==> success,
        r matches Err(e) ==> e@ == "Legacy project runner exited with non-zero status"@,
{
    if success {
        Ok(())
    } else {
        Err(string_from("Legacy project runner exited with non-zero status"))
    }
}

// ---------------------------------------------------------------------------
// Recording outcomes
// ---------------------------------------------------------------------------

/// What running one test's command gave.
#[derive(Debug)]
pub struct TestOutcome {
    pub success: bool,
    pub exit_code: Option<i32>,
    pub stdout: String,
    pub stderr: String,
    pub duration_ms: u64,
}

/// The members describing the test command.
pub open spec fn command_members(
    case: DiscoveredTestCase,
    target: Seq<char>,
) -> Seq<(Seq<char>, Seq<char>)> {
    seq![
        ("binary"@, json_string_text(case.test_bin@)),
        ("name"@, json_string_text(case.test_name@)),
        ("target"@, json_string_text(target)),
        ("tags"@, string_array_text(strs(case.tags@))),
        ("timeout_ms"@, opt_number_text(case.timeout_ms)),
    ]
}

/// Detail of the event recording that the test command ran.
pub open spec fn command_detail_spec(
    case: DiscoveredTestCase,
    target: Seq<char>,
    duration_ms: u64,
) -> Seq<char> {
    object_text(command_members(case, target).push(("duration_ms"@, decimal(duration_ms as nat))))
}

/// The part of a failed test's output kept in the report: stderr unless it
/// is blank, else stdout, cut at 4000 characters.
pub open spec fn excerpt_spec(stdout: Seq<char>, stderr: Seq<char>) -> Seq<char> {
    if !all_ws(stderr) {
        truncate_spec(stderr, 4000)
    } else {
        truncate_spec(stdout, 4000)
    }
}

/// Detail of the event recording that the test command failed.
pub open spec fn failure_detail_spec(
    case: DiscoveredTestCase,
    target: Seq<char>,
    o: TestOutcome,
) -> Seq<char> {
    object_text(
        command_members(case, target) + seq![
            ("exit_code"@, opt_signed_text(o.exit_code)),
            ("duration_ms"@, decimal(o.duration_ms as nat)),
            ("excerpt"@, json_string_text(excerpt_spec(o.stdout@, o.stderr@))),
        ],
    )
}

pub open spec fn event_view(e: ReportEvent) -> (Seq<char>, Seq<char>, Seq<char>) {
    (e.stage@, e.status@, e.detail@)
}

pub open spec fn events_view(es: Seq<ReportEvent>) -> Seq<(Seq<char>, Seq<char>, Seq<char>)> {
    es.map_values(|e: ReportEvent| event_view(e))
}

/// The two events recorded for a test after its command ran.
pub open spec fn outcome_events_spec(
    case: DiscoveredTestCase,
    target: Seq<char>,
    o: TestOutcome,
) -> Seq<(Seq<char>, Seq<char>, Seq<char>)> {
    let ran = ("runner.test_command"@, "ok"@, command_detail_spec(case, target, o.duration_ms));
    if o.success {
        seq![ran, ("test.result"@, "ok"@, object_text(seq![("outcome"@, json_string_text("passed"@))]))]
    } else {
        seq![ran, ("runner.test_command"@, "failed"@, failure_detail_spec(case, target, o))]
    }
}

fn command_members_exec(case: &DiscoveredTestCase, target: &str) -> (r: Vec<(String, String)>)
    ensures
        entries_view(r@) == command_members(*case, target@),
{
    let mut m: Vec<(String, String)> = Vec::new();
    m.push((string_from("binary"), json_string(case.test_bin.as_str())));
    m.push((string_from("name"), json_string(case.test_name.as_str())));
    m.push((string_from("target"), json_string(target)));
    m.push((string_from("tags"), json_string_array(&case.tags)));
    m.push((string_from("timeout_ms"), json_opt_number(case.timeout_ms)));
    assert(entries_view(m@) =~= command_members(*case, target@));
    m
}

/// Records what one test's command gave: the command event, then either the
/// passing result or the failure with an excerpt of the output; the test is
/// `passed` or `failed` accordingly.
pub fn record_case_outcome(
    suite: &mut SuiteReport,
    handle: TestRunHandle,
    case: &DiscoveredTestCase,
    target: &str,
    outcome: &TestOutcome,
)
    ensures
        final(suite).is_enabled() == old(suite).is_enabled(),
        final(suite).spec_report_file() == old(suite).spec_report_file(),
        !old(suite).is_enabled() ==> final(suite).spec_payload() == old(suite).spec_payload(),
        old(suite).is_enabled() ==> {
            let before = old(suite).spec_payload();
            let after = final(suite).spec_payload();
            let t = after.tests@.last();
            &&& after.tests@.len() == before.tests@.len() + 1
            &&& after.tests@.drop_last() == before.tests@
            &&& t.name == handle.name
            &&& events_view(t.events@) == events_view(handle.events@) + outcome_events_spec(
                *case,
                target@,
                *outcome,
            )
            &&& t.status@ == if outcome.success {
                "passed"@
            } else {
                "failed"@
            }
            &&& outcome.success ==> t.error is None
            &&& !outcome.success ==> (t.error matches Some(e) && e@ == "cargo test failed for "@
                + case.test_bin@ + "::"@ + case.test_name@)
            &&& after.status == before.status
            &&& after.suite_id == before.suite_id
        },
{
    let mut handle = handle;
    let ghost start = events_view(handle.events@);
    let members = command_members_exec(case, target);
    let mut ran = members;
    ran.push((string_from("duration_ms"), decimal_string(outcome.duration_ms)));
    proof {
        assert(entries_view(ran@) =~= command_members(*case, target@).push(
            ("duration_ms"@, decimal(outcome.duration_ms as nat)),
        ));
    }
    let ran_detail = json_object(&ran);
    handle.event("runner.test_command", "ok", ran_detail);
    if outcome.success {
        let mut res: Vec<(String, String)> = Vec::new();
        res.push((string_from("outcome"), json_string("passed")));
        assert(entries_view(res@) =~= seq![("outcome"@, json_string_text("passed"@))]);
        let detail = json_object(&res);
        handle.event("test.result", "ok", detail);
        proof {
            assert(events_view(handle.events@) =~= start + outcome_events_spec(
                *case,
                target@,
                *outcome,
            ));
        }
        suite.record_test(handle, "passed", None);
        return;
    }
    let excerpt = if !is_blank(&chars_of(outcome.stderr.as_str())) {
        truncate_for_report(outcome.stderr.as_str(), 4000)
    } else {
        truncate_for_report(outcome.stdout.as_str(), 4000)
    };
    let mut failed = command_members_exec(case, target);
    failed.push((string_from("exit_code"), json_opt_signed(outcome.exit_code)));
    failed.push((string_from("duration_ms"), decimal_string(outcome.duration_ms)));
    failed.push((string_from("excerpt"), json_string(excerpt.as_str())));
    proof {
        assert(entries_view(failed@) =~= command_members(*case, target@) + seq![
            ("exit_code"@, opt_signed_text(outcome.exit_code)),
            ("duration_ms"@, decimal(outcome.duration_ms as nat)),
            ("excerpt"@, json_string_text(excerpt_spec(outcome.stdout@, outcome.stderr@))),
        ]);
    }
    let detail = json_object(&failed);
    handle.event("runner.test_command", "failed", detail);
    proof {
        assert(events_view(handle.events@) =~= start + outcome_events_spec(*case, target@, *outcome));
    }
    let mut msg = string_from("cargo test failed for ");
    push_str(&mut msg, case.test_bin.as_str());
    push_str(&mut msg, "::");
    push_str(&mut msg, case.test_name.as_str());
    suite.record_test(handle, "failed", Some(msg));
}

/// The run fails when any test failed.
pub fn suite_verdict(suite: &SuiteReport) -> (r: Result<(), String>)
    ensures
        r is Ok <==> suite.spec_payload().summary.failed == 0,
        r matches Err(e) ==> e@ == "One or more tests failed"@,
{
    if suite.payload().summary.failed > 0 {
        Err(string_from("One or more tests failed"))
    } else {
        Ok(())
    }
}

} // verus!
