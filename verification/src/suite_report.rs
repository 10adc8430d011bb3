//! The `uto-report/v1` and `uto-suite/v1` report payloads, and the suite-level
//! accumulator that records test-case outcomes into a `uto-suite/v1` payload.
//!
//! Event details are carried as JSON text; turning a payload into JSON
//! bytes is left to the caller.
use vstd::prelude::*;

use crate::clock::now_unix_ms;
use crate::text::{eq_str, string_from};

verus! {

/// One execution event of a run or test case.
#[derive(Debug)]
pub struct ReportEvent {
    pub stage: String,
    pub status: String,
    /// The event's detail object, as JSON text.
    pub detail: String,
}

/// Start, end and duration of a run, in Unix milliseconds.
#[derive(Debug, Clone, Copy)]
pub struct ReportTimeline {
    pub started_at_unix_ms: u64,
    pub finished_at_unix_ms: Option<u64>,
    pub duration_ms: Option<u64>,
}

/// The outcome of one test case of a suite.
#[derive(Debug)]
pub struct TestCaseResult {
    pub name: String,
    pub status: String,
    pub timeline: ReportTimeline,
    pub events: Vec<ReportEvent>,
    pub error: Option<String>,
}

/// Counts of test cases by outcome.
#[derive(Debug, Clone, Copy)]
pub struct SuiteSummary {
    pub total: u64,
    pub passed: u64,
    pub failed: u64,
    pub skipped: u64,
}

/// A `uto-suite/v1` payload.
#[derive(Debug)]
pub struct UtoSuiteReportV1 {
    pub schema_version: String,
    pub framework: String,
    pub suite_id: String,
    pub mode: String,
    pub status: String,
    pub timeline: ReportTimeline,
    pub summary: SuiteSummary,
    pub tests: Vec<TestCaseResult>,
}

/// A `uto-report/v1` payload: one run and its events.
#[derive(Debug)]
pub struct UtoReportV1 {
    pub schema_version: String,
    pub framework: String,
    pub run_id: String,
    pub mode: String,
    pub status: String,
    pub timeline: ReportTimeline,
    pub events: Vec<ReportEvent>,
    pub error: Option<String>,
}

impl UtoReportV1 {
    /// A report for a run that has just started: status `running`, no events.
    pub fn new(run_id: String, mode: String, started_at_unix_ms: u64) -> (r: Self)
        ensures
            r.schema_version@ == "uto-report/v1"@,
            r.framework@ == "uto"@,
            r.run_id@ == run_id@,
            r.mode@ == mode@,
            r.status@ == "running"@,
            r.timeline.started_at_unix_ms == started_at_unix_ms,
            r.timeline.finished_at_unix_ms is None,
            r.timeline.duration_ms is None,
            r.events@.len() == 0,
            r.error is None,
    {
        UtoReportV1 {
            schema_version: string_from("uto-report/v1"),
            framework: string_from("uto"),
            run_id,
            mode,
            status: string_from("running"),
            timeline: ReportTimeline {
                started_at_unix_ms,
                finished_at_unix_ms: None,
                duration_ms: None,
            },
            events: Vec::new(),
            error: None,
        }
    }
}

impl UtoSuiteReportV1 {
    /// A suite that has just started: status `running`, no test cases.
    pub fn new(suite_id: String, mode: String, started_at_unix_ms: u64) -> (r: Self)
        ensures
            r.schema_version@ == "uto-suite/v1"@,
            r.framework@ == "uto"@,
            r.suite_id@ == suite_id@,
            r.mode@ == mode@,
            r.status@ == "running"@,
            r.timeline.started_at_unix_ms == started_at_unix_ms,
            r.timeline.finished_at_unix_ms is None,
            r.timeline.duration_ms is None,
            r.summary == (SuiteSummary { total: 0, passed: 0, failed: 0, skipped: 0 }),
            r.tests@.len() == 0,
    {
        UtoSuiteReportV1 {
            schema_version: string_from("uto-suite/v1"),
            framework: string_from("uto"),
            suite_id,
            mode,
            status: string_from("running"),
            timeline: ReportTimeline {
                started_at_unix_ms,
                finished_at_unix_ms: None,
                duration_ms: None,
            },
            summary: SuiteSummary { total: 0, passed: 0, failed: 0, skipped: 0 },
            tests: Vec::new(),
        }
    }
}

// ---------------------------------------------------------------------------
// TestRunHandle
// ---------------------------------------------------------------------------

/// Accumulates events for a single named test case while it is executing.
///
/// Obtain one via [`SuiteReport::begin_test`] and return it to the suite via
/// [`SuiteReport::record_test`] once the test case completes.
pub struct TestRunHandle {
    pub name: String,
    pub events: Vec<ReportEvent>,
    pub start_ms: u64,
}

impl TestRunHandle {
    /// Records one execution event for this test case; `detail` is JSON text.
    pub fn event(&mut self, stage: &str, status: &str, detail: String)
        ensures
            final(self).name == old(self).name,
            final(self).start_ms == old(self).start_ms,
            final(self).events@.len() == old(self).events@.len() + 1,
            final(self).events@.drop_last() == old(self).events@,
            final(self).events@.last().stage@ == stage@,
            final(self).events@.last().status@ == status@,
            final(self).events@.last().detail == detail,
    {
        self.events.push(
            ReportEvent { stage: string_from(stage), status: string_from(status), detail },
        );
    }
}

// ---------------------------------------------------------------------------
// SuiteReport
// ---------------------------------------------------------------------------

/// How many recorded test cases have the given status.
pub open spec fn count_status(tests: Seq<TestCaseResult>, status: Seq<char>) -> nat
    decreases tests.len(),
{
    if tests.len() == 0 {
        0
    } else {
        count_status(tests.drop_last(), status) + if tests.last().status@ == status {
            1nat
        } else {
            0nat
        }
    }
}

pub proof fn lemma_count_status_bound(tests: Seq<TestCaseResult>, status: Seq<char>)
    ensures
        count_status(tests, status) <= tests.len(),
    decreases tests.len(),
{
    if tests.len() > 0 {
        lemma_count_status_bound(tests.drop_last(), status);
    }
}

/// Some recorded test has the status exactly when the count is positive.
pub proof fn lemma_count_status_positive(tests: Seq<TestCaseResult>, status: Seq<char>)
    ensures
        count_status(tests, status) > 0 <==> exists|i: int|
            0 <= i < tests.len() && (#[trigger] tests[i]).status@ == status,
    decreases tests.len(),
{
    if tests.len() > 0 {
        let d = tests.drop_last();
        lemma_count_status_positive(d, status);
        if count_status(d, status) > 0 {
            let i = choose|i: int| 0 <= i < d.len() && (#[trigger] d[i]).status@ == status;
            assert(tests[i] == d[i]);
        }
        if exists|i: int| 0 <= i < tests.len() && (#[trigger] tests[i]).status@ == status {
            let i = choose|i: int| 0 <= i < tests.len() && (#[trigger] tests[i]).status@ == status;
            if i < tests.len() - 1 {
                assert(d[i] == tests[i]);
            }
        }
    }
}

/// Law: with the summary counting the recorded tests, a suite finishes
/// `passed` when no test failed, `failed` when some failed and none passed,
/// and `partial` when some failed and some passed.
pub proof fn lemma_suite_status_from_tests(tests: Seq<TestCaseResult>, summary: SuiteSummary)
    requires
        summary.total == tests.len(),
        summary.passed == count_status(tests, "passed"@),
        summary.failed == count_status(tests, "failed"@),
    ensures
        suite_status_spec(summary) == "passed"@ <==> forall|i: int|
            0 <= i < tests.len() ==> (#[trigger] tests[i]).status@ != "failed"@,
        suite_status_spec(summary) == "failed"@ <==> (exists|i: int|
            0 <= i < tests.len() && (#[trigger] tests[i]).status@ == "failed"@) && forall|i: int|
            0 <= i < tests.len() ==> (#[trigger] tests[i]).status@ != "passed"@,
        suite_status_spec(summary) == "partial"@ <==> (exists|i: int|
            0 <= i < tests.len() && (#[trigger] tests[i]).status@ == "failed"@) && (exists|i: int|
            0 <= i < tests.len() && (#[trigger] tests[i]).status@ == "passed"@),
{
    reveal_strlit("passed");
    reveal_strlit("failed");
    reveal_strlit("partial");
    lemma_count_status_positive(tests, "passed"@);
    lemma_count_status_positive(tests, "failed"@);
    lemma_count_status_bound(tests, "failed"@);
    assert("passed"@ != "failed"@ && "passed"@ != "partial"@ && "failed"@ != "partial"@) by {
        assert("passed"@[0] != "failed"@[0]);
        assert("passed"@.len() != "partial"@.len());
        assert("failed"@[0] != "partial"@[0]);
    }
}

/// `b - a`, or 0 when `a` is later than `b` (`u64::saturating_sub`).
pub open spec fn elapsed(a: u64, b: u64) -> u64 {
    if b >= a {
        (b - a) as u64
    } else {
        0
    }
}

/// The overall status of a suite from its counts: it passes when nothing ran
/// or nothing failed, is partial when something passed as well, and fails
/// otherwise.
pub open spec fn suite_status_spec(s: SuiteSummary) -> Seq<char> {
    if s.total == 0 || s.failed == 0 {
        "passed"@
    } else if s.passed > 0 {
        "partial"@
    } else {
        "failed"@
    }
}

/// Accumulates test-case outcomes into a suite-level [`UtoSuiteReportV1`] payload.
pub struct SuiteReport {
    enabled: bool,
    report_file: Option<String>,
    payload: UtoSuiteReportV1,
    start_ms: u64,
}

impl SuiteReport {
    /// The summary always counts the recorded test cases by status.
    #[verifier::type_invariant]
    spec fn counts_match(self) -> bool {
        let t = self.payload.tests@;
        &&& self.payload.summary.total == t.len()
        &&& self.payload.summary.passed == count_status(t, "passed"@)
        &&& self.payload.summary.failed == count_status(t, "failed"@)
        &&& self.payload.summary.skipped == count_status(t, "skipped"@)
    }

    pub closed spec fn is_enabled(self) -> bool {
        self.enabled
    }

    pub closed spec fn spec_payload(self) -> UtoSuiteReportV1 {
        self.payload
    }

    pub closed spec fn spec_report_file(self) -> Option<String> {
        self.report_file
    }

    pub closed spec fn started_ms(self) -> u64 {
        self.start_ms
    }

    /// Creates a new suite report for `mode`; its id is `suite-<start ms>-<process_id>`.
    /// Pass `enabled = false` to record nothing.
    pub fn new(enabled: bool, report_file: Option<String>, mode: &str, process_id: u32) -> (r: Self)
        ensures
            r.is_enabled() == enabled,
            r.spec_report_file() == report_file,
            r.spec_payload().schema_version@ == "uto-suite/v1"@,
            r.spec_payload().framework@ == "uto"@,
            r.spec_payload().suite_id@ == "suite-"@ + crate::text::decimal(r.started_ms() as nat)
                + "-"@ + crate::text::decimal(process_id as nat),
            r.spec_payload().mode@ == mode@,
            r.spec_payload().status@ == "running"@,
            r.spec_payload().timeline.started_at_unix_ms == r.started_ms(),
            r.spec_payload().timeline.finished_at_unix_ms is None,
            r.spec_payload().timeline.duration_ms is None,
            r.spec_payload().tests@.len() == 0,
            r.spec_payload().summary == (SuiteSummary {
                total: 0,
                passed: 0,
                failed: 0,
                skipped: 0,
            }),
    {
        let start_ms = now_unix_ms();
        let mut id = string_from("suite-");
        crate::text::push_str(&mut id, crate::text::decimal_string(start_ms).as_str());
        crate::text::push_str(&mut id, "-");
        crate::text::push_str(&mut id, crate::text::decimal_string(process_id as u64).as_str());
        let payload = UtoSuiteReportV1::new(id, string_from(mode), start_ms);
        SuiteReport { enabled, report_file, payload, start_ms }
    }

    /// Opens a new [`TestRunHandle`] for a named test case.
    pub fn begin_test(&self, name: &str) -> (h: TestRunHandle)
        ensures
            h.name@ == name@,
            h.events@.len() == 0,
    {
        TestRunHandle { name: string_from(name), events: Vec::new(), start_ms: now_unix_ms() }
    }

    /// Records a completed test case into the suite.
    ///
    /// `status` should be one of `"passed"`, `"failed"`, or `"skipped"`; any
    /// other status counts towards the total only.  A disabled suite records
    /// nothing.
    pub fn record_test(&mut self, handle: TestRunHandle, status: &str, error: Option<String>)
        ensures
            final(self).is_enabled() == old(self).is_enabled(),
            final(self).spec_report_file() == old(self).spec_report_file(),
            final(self).started_ms() == old(self).started_ms(),
            !old(self).is_enabled() ==> final(self).spec_payload() == old(self).spec_payload(),
            old(self).is_enabled() ==> {
                let before = old(self).spec_payload();
                let after = final(self).spec_payload();
                let t = after.tests@.last();
                &&& after.tests@.len() == before.tests@.len() + 1
                &&& after.tests@.drop_last() == before.tests@
                &&& t.name == handle.name
                &&& t.status@ == status@
                &&& t.events == handle.events
                &&& t.error == error
                &&& t.timeline.started_at_unix_ms == handle.start_ms
                &&& t.timeline.finished_at_unix_ms matches Some(end) && t.timeline.duration_ms
                    == Some(elapsed(handle.start_ms, end))
                &&& after.summary.total == before.summary.total + 1
                &&& after.summary.passed == before.summary.passed + if status@ == "passed"@ {
                    1int
                } else {
                    0int
                }
                &&& after.summary.failed == before.summary.failed + if status@ == "failed"@ {
                    1int
                } else {
                    0int
                }
                &&& after.summary.skipped == before.summary.skipped + if status@ == "skipped"@ {
                    1int
                } else {
                    0int
                }
                &&& after.status == before.status
                &&& after.timeline == before.timeline
                &&& after.suite_id == before.suite_id
                &&& after.mode == before.mode
                &&& after.schema_version == before.schema_version
                &&& after.framework == before.framework
            },
    {
        proof {
            use_type_invariant(&*self);
        }
        if !self.enabled {
            return;
        }
        let end_ms = now_unix_ms();
        let duration = end_ms.saturating_sub(handle.start_ms);
        let st = crate::text::chars_of(status);
        let is_passed = eq_str(&st, "passed");
        let is_failed = eq_str(&st, "failed");
        let is_skipped = eq_str(&st, "skipped");
        let result = TestCaseResult {
            name: handle.name,
            status: string_from(status),
            timeline: ReportTimeline {
                started_at_unix_ms: handle.start_ms,
                finished_at_unix_ms: Some(end_ms),
                duration_ms: Some(duration),
            },
            events: handle.events,
            error,
        };
        let ghost old_tests = self.payload.tests@;
        let mut payload = UtoSuiteReportV1 {
            schema_version: string_from("uto-suite/v1"),
            framework: string_from("uto"),
            suite_id: string_from(""),
            mode: string_from(""),
            status: string_from(""),
            timeline: ReportTimeline { started_at_unix_ms: 0, finished_at_unix_ms: None, duration_ms: None },
            summary: SuiteSummary { total: 0, passed: 0, failed: 0, skipped: 0 },
            tests: Vec::new(),
        };
        std::mem::swap(&mut payload, &mut self.payload);
        proof {
            lemma_count_status_bound(old_tests, "passed"@);
            lemma_count_status_bound(old_tests, "failed"@);
            lemma_count_status_bound(old_tests, "skipped"@);
        }
        payload.tests.push(result);
        let n = payload.tests.len();
        proof {
            assert(payload.tests@.drop_last() =~= old_tests);
        }
        payload.summary.total = n as u64;
        if is_passed {
            payload.summary.passed = payload.summary.passed + 1;
        }
        if is_failed {
            payload.summary.failed = payload.summary.failed + 1;
        }
        if is_skipped {
            payload.summary.skipped = payload.summary.skipped + 1;
        }
        self.payload = payload;
    }

    /// Finalises the suite timeline and derives the overall pass/fail status.
    pub fn finish(&mut self)
        ensures
            final(self).is_enabled() == old(self).is_enabled(),
            final(self).spec_report_file() == old(self).spec_report_file(),
            final(self).started_ms() == old(self).started_ms(),
            !old(self).is_enabled() ==> final(self).spec_payload() == old(self).spec_payload(),
            old(self).is_enabled() ==> {
                let before = old(self).spec_payload();
                let after = final(self).spec_payload();
                &&& after.status@ == suite_status_spec(before.summary)
                &&& after.timeline.started_at_unix_ms == before.timeline.started_at_unix_ms
                &&& after.timeline.finished_at_unix_ms matches Some(end) && after.timeline.duration_ms
                    == Some(elapsed(old(self).started_ms(), end))
                &&& after.summary == before.summary
                &&& after.tests == before.tests
                &&& after.suite_id == before.suite_id
                &&& after.mode == before.mode
                &&& after.schema_version == before.schema_version
                &&& after.framework == before.framework
            },
    {
        proof {
            use_type_invariant(&*self);
        }
        if !self.enabled {
            return;
        }
        let end_ms = now_unix_ms();
        self.payload.timeline.finished_at_unix_ms = Some(end_ms);
        self.payload.timeline.duration_ms = Some(end_ms.saturating_sub(self.start_ms));
        let s = self.payload.summary;
        self.payload.status = if s.total == 0 || s.failed == 0 {
            string_from("passed")
        } else if s.passed > 0 {
            string_from("partial")
        } else {
            string_from("failed")
        };
    }

    /// Returns a reference to the suite report payload.
    /// Its summary always counts its test cases by status.
    pub fn payload(&self) -> (p: &UtoSuiteReportV1)
        ensures
            *p == self.spec_payload(),
            p.summary.total == p.tests@.len(),
            p.summary.passed == count_status(p.tests@, "passed"@),
            p.summary.failed == count_status(p.tests@, "failed"@),
            p.summary.skipped == count_status(p.tests@, "skipped"@),
    {
        proof {
            use_type_invariant(self);
        }
        &self.payload
    }

    /// Whether the suite records and emits anything.
    pub fn enabled(&self) -> (b: bool)
        ensures
            b == self.is_enabled(),
    {
        self.enabled
    }

    /// The file the suite report is written to, if any.
    pub fn report_file(&self) -> (f: &Option<String>)
        ensures
            *f == self.spec_report_file(),
    {
        &self.report_file
    }
}

} // verus!
