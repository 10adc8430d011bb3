use uto::latency::{sort_samples, LatencyTracker, ScopedLatency};

#[test]
fn latency_tracker_computes_median() {
    let mut tracker = LatencyTracker::new("test-op");
    tracker.record(10);
    tracker.record(20);
    tracker.record(30);

    assert_eq!(tracker.median(), Some(20));
}

#[test]
fn latency_tracker_computes_p95() {
    let mut tracker = LatencyTracker::new("test-op");
    for i in 1..=100 {
        tracker.record(i);
    }

    let p95 = tracker.p95().expect("p95 should be computed");
    assert!((94..=96).contains(&p95), "p95={}", p95);
}

#[test]
fn latency_tracker_meets_sla() {
    let mut tracker = LatencyTracker::new("test-op");
    tracker.record(10);
    tracker.record(15);
    tracker.record(20);

    assert!(tracker.meets_sla(20, 30));
    assert!(!tracker.meets_sla(10, 30));
    assert!(!tracker.meets_sla(20, 15));
}

#[test]
fn latency_tracker_summary_includes_percentiles() {
    let mut tracker = LatencyTracker::new("test-select");
    tracker.record(5);
    tracker.record(10);

    let summary = tracker.summary();
    assert!(summary.contains("test-select"));
    assert!(summary.contains("median"));
    assert!(summary.contains("p95"));
    assert!(summary.contains("samples=2"));
}

#[test]
fn latency_tracker_even_median_and_mean() {
    let mut tracker = LatencyTracker::new("op");
    for v in [40, 10, 30, 20] {
        tracker.record(v);
    }
    assert_eq!(tracker.median(), Some(25));
    assert_eq!(tracker.mean(), Some(25));
    assert_eq!(tracker.p95(), Some(40));
    assert_eq!(
        tracker.summary(),
        "op: median=25ms, p95=40ms, mean=25ms, samples=4"
    );
}

#[test]
fn latency_tracker_without_samples() {
    let tracker = LatencyTracker::new("idle");
    assert_eq!(tracker.median(), None);
    assert_eq!(tracker.p95(), None);
    assert_eq!(tracker.mean(), None);
    assert!(tracker.meets_sla(0, 0));
    assert_eq!(tracker.summary(), "idle: no samples");
}

#[test]
fn latency_tracker_median_does_not_overflow() {
    let mut tracker = LatencyTracker::new("big");
    tracker.record(u64::MAX);
    tracker.record(u64::MAX - 1);
    assert_eq!(tracker.median(), Some(u64::MAX - 1));
    assert_eq!(tracker.mean(), Some(u64::MAX - 1));
}

#[test]
fn sort_samples_orders_and_keeps_duplicates() {
    let v = vec![5, 1, 5, 3, 0];
    assert_eq!(sort_samples(&v), vec![0, 1, 3, 5, 5]);
}

#[test]
fn scoped_latency_records_one_sample() {
    let mut tracker = LatencyTracker::new("scoped-test");
    let scoped = ScopedLatency::new();
    scoped.finish(&mut tracker);
    assert_eq!(tracker.samples.len(), 1);
}
