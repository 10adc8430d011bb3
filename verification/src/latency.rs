//! Latency instrumentation and guardrails for intent resolution.
use std::time::Instant;
use vstd::prelude::*;

use crate::text::{decimal, push_decimal, push_str, string_from, string_of};

verus! {

broadcast use vstd::seq_lib::group_to_multiset_ensures;

// ---------------------------------------------------------------------------
// Sorting samples
// ---------------------------------------------------------------------------

/// `x` inserted into `s` after every element that is not larger than it.
pub open spec fn insert_sorted(s: Seq<u64>, x: u64) -> Seq<u64>
    decreases s.len(),
{
    if s.len() == 0 || s.last() <= x {
        s.push(x)
    } else {
        insert_sorted(s.drop_last(), x).push(s.last())
    }
}

/// The samples in ascending order (insertion sort).
pub open spec fn sorted_samples(s: Seq<u64>) -> Seq<u64>
    decreases s.len(),
{
    if s.len() == 0 {
        s
    } else {
        insert_sorted(sorted_samples(s.drop_last()), s.last())
    }
}

pub open spec fn is_ascending(s: Seq<u64>) -> bool {
    forall|i: int, j: int| 0 <= i <= j < s.len() ==> s[i] <= s[j]
}

proof fn lemma_insert_sorted(s: Seq<u64>, x: u64)
    requires
        is_ascending(s),
    ensures
        is_ascending(insert_sorted(s, x)),
        insert_sorted(s, x).to_multiset() =~= s.to_multiset().insert(x),
        insert_sorted(s, x).len() == s.len() + 1,
    decreases s.len(),
{
    if s.len() == 0 || s.last() <= x {
    } else {
        let d = s.drop_last();
        lemma_insert_sorted(d, x);
        let r = insert_sorted(d, x);
        assert(s =~= d.push(s.last()));
        assert forall|i: int| 0 <= i < r.len() implies #[trigger] r[i] <= s.last() by {
            assert(r.to_multiset().contains(r[i]));
            assert(r.to_multiset().count(r[i]) > 0);
            if r[i] != x {
                assert(d.to_multiset().count(r[i]) > 0);
                assert(d.contains(r[i]));
                let k = choose|k: int| 0 <= k < d.len() && d[k] == r[i];
                assert(s[k] <= s[s.len() - 1]);
            }
        }
    }
}

/// Sorting yields the samples in ascending order, each sample kept exactly as
/// often as it occurs.
pub proof fn lemma_sorted_samples(s: Seq<u64>)
    ensures
        is_ascending(sorted_samples(s)),
        sorted_samples(s).to_multiset() =~= s.to_multiset(),
        sorted_samples(s).len() == s.len(),
    decreases s.len(),
{
    if s.len() > 0 {
        lemma_sorted_samples(s.drop_last());
        lemma_insert_sorted(sorted_samples(s.drop_last()), s.last());
        assert(s =~= s.drop_last().push(s.last()));
    }
}

proof fn lemma_insert_at(s: Seq<u64>, x: u64, j: int)
    requires
        0 <= j <= s.len(),
        forall|k: int| j <= k < s.len() ==> #[trigger] s[k] > x,
        j == 0 || s[j - 1] <= x,
    ensures
        insert_sorted(s, x) == s.insert(j, x),
    decreases s.len() - j,
{
    if s.len() == j {
        assert(s.insert(j, x) =~= s.push(x));
    } else {
        let d = s.drop_last();
        lemma_insert_at(d, x, j);
        assert(s.insert(j, x) =~= d.insert(j, x).push(s.last()));
    }
}

/// The samples in ascending order.
pub fn sort_samples(v: &Vec<u64>) -> (out: Vec<u64>)
    ensures
        out@ == sorted_samples(v@),
{
    let mut out: Vec<u64> = Vec::new();
    let mut i: usize = 0;
    while i < v.len()
        invariant
            i <= v.len(),
            out@ == sorted_samples(v@.take(i as int)),
        decreases v.len() - i,
    {
        let x = v[i];
        proof {
            lemma_sorted_samples(v@.take(i as int));
        }
        let mut j = out.len();
        while j > 0 && out[j - 1] > x
            invariant
                j <= out.len(),
                forall|k: int| j <= k < out.len() ==> #[trigger] out@[k] > x,
            decreases j,
        {
            j = j - 1;
        }
        proof {
            lemma_insert_at(out@, x, j as int);
            assert(v@.take(i + 1).drop_last() =~= v@.take(i as int));
            assert(v@.take(i + 1).last() == x);
        }
        out.insert(j, x);
        i = i + 1;
    }
    assert(v@.take(v@.len() as int) =~= v@);
    out
}

// ---------------------------------------------------------------------------
// Statistics
// ---------------------------------------------------------------------------

/// The median: the middle sample, or the mean of the two middle samples
/// (rounded down) when there is an even number of them.
pub open spec fn median_spec(samples: Seq<u64>) -> Option<int> {
    let s = sorted_samples(samples);
    let n = s.len() as int;
    if n == 0 {
        None
    } else if n % 2 == 0 {
        Some((s[n / 2 - 1] + s[n / 2]) / 2)
    } else {
        Some(s[n / 2] as int)
    }
}

/// The 95th percentile, nearest-rank: the sample at rank ⌈0.95·n⌉.
pub open spec fn p95_spec(samples: Seq<u64>) -> Option<int> {
    let s = sorted_samples(samples);
    let n = s.len() as int;
    if n == 0 {
        None
    } else {
        let rank = n - n / 20;
        Some(s[rank - 1] as int)
    }
}

/// Law: with at least one sample, the median never exceeds the 95th
/// percentile.
pub proof fn lemma_median_le_p95(samples: Seq<u64>)
    requires
        samples.len() > 0,
    ensures
        median_spec(samples)->0 <= p95_spec(samples)->0,
{
    lemma_sorted_samples(samples);
    let s = sorted_samples(samples);
    let n = s.len() as int;
    let rank = n - n / 20;
    assert(n / 2 <= rank - 1);
    assert(s[n / 2] <= s[rank - 1]);
    if n % 2 == 0 {
        assert(s[n / 2 - 1] <= s[n / 2]);
    }
}

pub open spec fn sum_spec(s: Seq<u64>) -> int
    decreases s.len(),
{
    if s.len() == 0 {
        0
    } else {
        sum_spec(s.drop_last()) + s.last()
    }
}

/// The mean, rounded down.
pub open spec fn mean_spec(samples: Seq<u64>) -> Option<int> {
    if samples.len() == 0 {
        None
    } else {
        Some(sum_spec(samples) / (samples.len() as int))
    }
}

pub open spec fn opt_u64(o: Option<u64>) -> Option<int> {
    match o {
        Some(x) => Some(x as int),
        None => None,
    }
}

/// Both the median and the 95th percentile are within bounds; trivially true
/// without samples.
pub open spec fn meets_sla_spec(samples: Seq<u64>, max_median: u64, max_p95: u64) -> bool {
    match (median_spec(samples), p95_spec(samples)) {
        (Some(m), Some(p)) => m <= max_median && p <= max_p95,
        _ => true,
    }
}

/// Latency tracking for intent resolution operations.
#[derive(Debug)]
pub struct LatencyTracker {
    /// Individual operation durations in milliseconds.
    pub samples: Vec<u64>,
    /// Operation name for diagnostics.
    pub operation: String,
}

impl LatencyTracker {
    /// Creates a new latency tracker.
    pub fn new(operation: &str) -> (r: Self)
        ensures
            r.samples@.len() == 0,
            r.operation@ == operation@,
    {
        LatencyTracker { samples: Vec::new(), operation: string_from(operation) }
    }

    /// Records a measurement (in milliseconds).
    pub fn record(&mut self, duration_ms: u64)
        ensures
            final(self).samples@ == old(self).samples@.push(duration_ms),
            final(self).operation == old(self).operation,
    {
        self.samples.push(duration_ms);
    }

    /// Computes the median of recorded samples.
    pub fn median(&self) -> (r: Option<u64>)
        ensures
            opt_u64(r) == median_spec(self.samples@),
    {
        if self.samples.len() == 0 {
            return None;
        }
        let sorted = sort_samples(&self.samples);
        proof {
            lemma_sorted_samples(self.samples@);
        }
        let mid = sorted.len() / 2;
        if sorted.len() % 2 == 0 {
            let a = sorted[mid - 1];
            let b = sorted[mid];
            let m = a / 2 + b / 2 + (a % 2 + b % 2) / 2;
            assert(m == (a + b) / 2) by (nonlinear_arith)
                requires
                    m == a / 2 + b / 2 + (a % 2 + b % 2) / 2,
            ;
            Some(m)
        } else {
            Some(sorted[mid])
        }
    }

    /// Computes the 95th percentile of recorded samples.
    pub fn p95(&self) -> (r: Option<u64>)
        ensures
            opt_u64(r) == p95_spec(self.samples@),
    {
        if self.samples.len() == 0 {
            return None;
        }
        let sorted = sort_samples(&self.samples);
        proof {
            lemma_sorted_samples(self.samples@);
        }
        let n = sorted.len();
        let rank = n - n / 20;
        Some(sorted[rank - 1])
    }

    /// Computes mean latency.
    pub fn mean(&self) -> (r: Option<u64>)
        ensures
            opt_u64(r) == mean_spec(self.samples@),
    {
        let n = self.samples.len();
        if n == 0 {
            return None;
        }
        let mut sum: u128 = 0;
        let mut i: usize = 0;
        while i < n
            invariant
                i <= n == self.samples.len(),
                sum == sum_spec(self.samples@.take(i as int)),
                sum <= i * (u64::MAX as int),
            decreases n - i,
        {
            let x = self.samples[i];
            proof {
                assert(self.samples@.take(i + 1).drop_last() =~= self.samples@.take(i as int));
                assert(i < 0x1_0000_0000_0000_0000);
                assert((i + 1) * (u64::MAX as int) == i * (u64::MAX as int) + u64::MAX)
                    by (nonlinear_arith);
                assert((i + 1) * (u64::MAX as int) <= 0x1_0000_0000_0000_0000 * (u64::MAX as int))
                    by (nonlinear_arith)
                    requires
                        i < 0x1_0000_0000_0000_0000,
                ;
            }
            sum = sum + x as u128;
            i = i + 1;
        }
        assert(self.samples@.take(n as int) =~= self.samples@);
        let mean = sum / (n as u128);
        assert(mean <= u64::MAX) by (nonlinear_arith)
            requires
                sum <= n * (u64::MAX as int),
                n > 0,
                mean as int == (sum as int) / (n as int),
        ;
        Some(mean as u64)
    }

    /// Returns a summary string for logs.
    pub fn summary(&self) -> (s: String)
        ensures
            s@ == (match (median_spec(self.samples@), p95_spec(self.samples@), mean_spec(
                self.samples@,
            )) {
                (Some(med), Some(p95), Some(mean)) => self.operation@ + ": median="@ + decimal(
                    med as nat,
                ) + "ms, p95="@ + decimal(p95 as nat) + "ms, mean="@ + decimal(mean as nat)
                    + "ms, samples="@ + decimal(self.samples@.len()),
                _ => self.operation@ + ": no samples"@,
            }),
    {
        match (self.median(), self.p95(), self.mean()) {
            (Some(med), Some(p95), Some(mean)) => {
                let mut v: Vec<char> = crate::text::chars_of(self.operation.as_str());
                crate::text::extend_str(&mut v, ": median=");
                push_decimal(&mut v, med);
                crate::text::extend_str(&mut v, "ms, p95=");
                push_decimal(&mut v, p95);
                crate::text::extend_str(&mut v, "ms, mean=");
                push_decimal(&mut v, mean);
                crate::text::extend_str(&mut v, "ms, samples=");
                push_decimal(&mut v, self.samples.len() as u64);
                string_of(&v)
            },
            _ => {
                let mut s = self.operation.clone();
                push_str(&mut s, ": no samples");
                s
            },
        }
    }

    /// Checks if the current metrics meet the expected SLA.
    pub fn meets_sla(&self, max_median_ms: u64, max_p95_ms: u64) -> (b: bool)
        ensures
            b == meets_sla_spec(self.samples@, max_median_ms, max_p95_ms),
    {
        match (self.median(), self.p95()) {
            (Some(med), Some(p95)) => med <= max_median_ms && p95 <= max_p95_ms,
            _ => true,
        }
    }
}

/// A stopwatch for one operation: started on creation, recorded into a
/// tracker by [`ScopedLatency::finish`].
pub struct ScopedLatency {
    start: Instant,
}

impl ScopedLatency {
    /// Starts a new scoped latency measurement.
    pub fn new() -> Self {
        ScopedLatency { start: crate::clock::instant_now() }
    }

    /// Records the milliseconds elapsed since the measurement started.
    pub fn finish(self, tracker: &mut LatencyTracker)
        ensures
            final(tracker).samples@.len() == old(tracker).samples@.len() + 1,
            final(tracker).samples@.drop_last() == old(tracker).samples@,
            final(tracker).operation == old(tracker).operation,
    {
        let elapsed = crate::clock::elapsed_ms(&self.start);
        tracker.record(elapsed);
    }
}

} // verus!
