//! Statistics engine tests: percentiles, latency and throughput
//! reductions, error classification and the metrics collector.

use gateway_bench::benchmark::metrics::{
    ErrorStats, LatencyStats, MetricsCollector, Percentiles, ThroughputStats,
};

#[test]
fn test_percentiles() {
    // Latencies of 1..=100 milliseconds, in microseconds.
    let data: Vec<u32> = (1..=100u32).map(|x| x * 1000).collect();
    let p = Percentiles::from_sorted(&data);

    assert!((p.p50 as i64 - 50_000).abs() < 1000);
    assert!((p.p90 as i64 - 90_000).abs() < 1000);
    assert!((p.p95 as i64 - 95_000).abs() < 1000);
    assert!((p.p99 as i64 - 99_000).abs() < 1000);
}

#[test]
fn test_latency_stats() {
    // 1, 2, 3, 4, 5 milliseconds, in microseconds.
    let samples: Vec<u32> = vec![1000, 2000, 3000, 4000, 5000];
    let stats = LatencyStats::from_samples(&samples);

    assert_eq!(stats.min, 1000);
    assert_eq!(stats.max, 5000);
    assert_eq!(stats.mean, 3000);
    assert_eq!(stats.count, 5);
}

#[test]
fn test_throughput_stats() {
    let stats = ThroughputStats::new(1000, 950, 10_000);

    // 100.000 requests per second, in thousandths.
    assert_eq!(stats.rps, 100_000);
    // 95.00 percent, in hundredths of a percent.
    assert_eq!(stats.success_rate, 9500);
    assert_eq!(stats.failed_requests, 50);
}

#[test]
fn test_metrics_collector() {
    let mut collector = MetricsCollector::new();

    for i in 0..100 {
        if i % 10 == 0 {
            collector.record_failure(10_000, Some(500), false, false);
        } else {
            collector.record_success(5000);
        }
    }

    let metrics = collector.finalize();
    assert_eq!(metrics.throughput.total_requests, 100);
    assert_eq!(metrics.throughput.failed_requests, 10);
    assert_eq!(metrics.errors.server_errors, 10);
}

#[test]
fn test_error_stats() {
    let mut errors = ErrorStats::default();
    errors.record(Some(404), false, false);
    errors.record(Some(500), false, false);
    errors.record(None, true, false);
    errors.record(None, false, true);

    assert_eq!(errors.client_errors, 1);
    assert_eq!(errors.server_errors, 1);
    assert_eq!(errors.timeout_errors, 1);
    assert_eq!(errors.connection_errors, 1);
    assert_eq!(errors.total(), 4);
}

#[test]
fn test_timeout_outranks_status() {
    // A timeout is counted as a timeout even when a status code arrives.
    let mut errors = ErrorStats::default();
    errors.record(Some(503), true, false);
    assert_eq!(errors.timeout_errors, 1);
    assert_eq!(errors.server_errors, 0);

    // A connection error outranks the status buckets too.
    errors.record(Some(404), false, true);
    assert_eq!(errors.connection_errors, 1);
    assert_eq!(errors.client_errors, 0);

    // An unclassified failure without a status is an other error.
    errors.record(None, false, false);
    assert_eq!(errors.other_errors, 1);

    // A status outside the error classes is an other error as well.
    errors.record(Some(302), false, false);
    assert_eq!(errors.other_errors, 2);

    assert_eq!(errors.total(), 4);
}

#[test]
fn test_snapshot_is_idempotent() {
    let mut collector = MetricsCollector::new();
    collector.record_success(2000);
    collector.record_failure(7000, Some(502), false, false);
    collector.record(3000, true, Some(200));

    // Snapshots over the same explicit duration are identical, and
    // finalizing yields exactly the last snapshot.
    let a = collector.snapshot_with(5000);
    let b = collector.snapshot_with(5000);
    assert_eq!(a, b);
    let f = collector.finalize_with(5000);
    assert_eq!(a, f);
}

#[test]
fn test_no_lost_records() {
    // As many workers' worth of outcomes as the harness can hand over in
    // sequence: every record accounts for exactly one request.
    let workers = 8u64;
    let per_worker = 250u64;
    let mut collector = MetricsCollector::new();
    for w in 0..workers {
        for i in 0..per_worker {
            if (w + i) % 2 == 0 {
                collector.record_success(1000 + (i as u32));
            } else {
                collector.record_failure(500, None, i % 3 == 0, i % 3 == 1);
            }
        }
    }
    assert_eq!(collector.request_count(), workers * per_worker);
}

#[test]
fn test_empty_samples_yield_zeroes() {
    let stats = LatencyStats::from_samples(&Vec::new());
    assert_eq!(stats.min, 0);
    assert_eq!(stats.max, 0);
    assert_eq!(stats.mean, 0);
    assert_eq!(stats.std_dev, 0);
    assert_eq!(stats.count, 0);
    assert_eq!(stats.percentiles.p999, 0);
}

#[test]
fn test_single_sample_percentiles() {
    let stats = LatencyStats::from_samples(&vec![42_000]);
    assert_eq!(stats.min, 42_000);
    assert_eq!(stats.max, 42_000);
    assert_eq!(stats.percentiles.p50, 42_000);
    assert_eq!(stats.percentiles.p999, 42_000);
    assert_eq!(stats.std_dev, 0);
}

#[test]
fn test_std_dev_exact() {
    // 2ms and 4ms: mean 3ms, deviations 1ms each, population stddev 1ms.
    let stats = LatencyStats::from_samples(&vec![2000, 4000]);
    assert_eq!(stats.mean, 3000);
    assert_eq!(stats.std_dev, 1000);
}

#[test]
fn test_from_samples_sorts_unsorted_input() {
    let stats = LatencyStats::from_samples(&vec![5000, 1000, 3000]);
    assert_eq!(stats.min, 1000);
    assert_eq!(stats.max, 5000);
}

#[test]
fn test_zero_total_success_rate() {
    let stats = ThroughputStats::new(0, 0, 1000);
    assert_eq!(stats.success_rate, 0);
    assert_eq!(stats.rps, 0);
    assert_eq!(stats.failed_requests, 0);
}
