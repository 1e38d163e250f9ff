//! Load pattern and benchmark configuration tests.  Times are handed to
//! the evaluator in milliseconds.

use gateway_bench::benchmark::metrics::{
    ErrorStats, LatencyStats, Metrics, Percentiles, ThroughputStats,
};
use gateway_bench::benchmark::runner::{
    effective_concurrency, pacing_delay_ms, status_is_success, worker_step, BenchmarkComparison,
    BenchmarkConfig, BenchmarkResult, BenchmarkRunner, LoadPattern, WorkerAction,
};
use gateway_bench::models::gateway::GatewayImpl;

#[test]
fn test_load_pattern_constant() {
    let pattern = LoadPattern::Constant { rps: 100 };
    assert_eq!(pattern.rps_at(0, 60_000), 100);
    assert_eq!(pattern.rps_at(30_000, 60_000), 100);
    assert_eq!(pattern.rps_at(60_000, 60_000), 100);
}

#[test]
fn test_load_pattern_ramp() {
    let pattern = LoadPattern::Ramp { start_rps: 100, end_rps: 200, duration_secs: 60 };
    assert_eq!(pattern.rps_at(0, 60_000), 100);
    assert_eq!(pattern.rps_at(30_000, 60_000), 150);
    assert_eq!(pattern.rps_at(60_000, 60_000), 200);
}

#[test]
fn test_load_pattern_step() {
    let pattern = LoadPattern::Step {
        start_rps: 100,
        step_rps: 50,
        step_interval_secs: 10,
        max_rps: 300,
    };
    assert_eq!(pattern.rps_at(0, 60_000), 100);
    assert_eq!(pattern.rps_at(10_000, 60_000), 150);
    // Capped at the maximum.
    assert_eq!(pattern.rps_at(50_000, 60_000), 300);
}

#[test]
fn test_load_pattern_spike() {
    // The spike window opens at one third of the run.
    let pattern = LoadPattern::Spike { base_rps: 50, spike_rps: 500, spike_duration_secs: 10 };
    assert_eq!(pattern.rps_at(0, 60_000), 50);
    assert_eq!(pattern.rps_at(20_000, 60_000), 500);
    assert_eq!(pattern.rps_at(29_999, 60_000), 500);
    assert_eq!(pattern.rps_at(30_000, 60_000), 50);
}

#[test]
fn test_load_pattern_max_is_unbounded() {
    let pattern = LoadPattern::Max { concurrency: 16 };
    assert_eq!(pattern.rps_at(0, 60_000), u32::MAX);
    assert_eq!(pattern.rps_at(59_999, 60_000), u32::MAX);
}

#[test]
fn test_ramp_down() {
    let pattern = LoadPattern::Ramp { start_rps: 200, end_rps: 100, duration_secs: 60 };
    assert_eq!(pattern.rps_at(0, 60_000), 200);
    assert_eq!(pattern.rps_at(30_000, 60_000), 150);
    assert_eq!(pattern.rps_at(60_000, 60_000), 100);
}

#[test]
fn test_pacing_delay() {
    assert_eq!(pacing_delay_ms(100), 10);
    assert_eq!(pacing_delay_ms(0), 0);
    assert_eq!(pacing_delay_ms(u32::MAX), 0);
    assert_eq!(pacing_delay_ms(3), 333);
}

#[test]
fn test_worker_step_decisions() {
    let pattern = LoadPattern::Constant { rps: 100 };
    // The deadline stops a worker even while the run flag is up.
    assert_eq!(worker_step(&pattern, true, 60_000, 60_000), WorkerAction::Stop);
    // A cleared run flag stops a worker before its deadline.
    assert_eq!(worker_step(&pattern, false, 1000, 60_000), WorkerAction::Stop);
    // Otherwise the worker issues one paced request.
    assert_eq!(
        worker_step(&pattern, true, 1000, 60_000),
        WorkerAction::Request { delay_ms: 10 }
    );
}

#[test]
fn test_status_classification() {
    assert!(status_is_success(200));
    assert!(status_is_success(301));
    assert!(!status_is_success(404));
    assert!(!status_is_success(500));
}

#[test]
fn test_effective_concurrency_cap() {
    assert_eq!(effective_concurrency(10), 10);
    assert_eq!(effective_concurrency(100), 100);
    assert_eq!(effective_concurrency(5000), 100);
}

#[test]
fn test_benchmark_config() {
    let config = BenchmarkConfig::new(GatewayImpl::Nginx, "10.0.0.1")
        .with_pattern(LoadPattern::Constant { rps: 500 })
        .with_duration(120)
        .with_concurrency(20);

    assert_eq!(config.gateway, GatewayImpl::Nginx);
    assert_eq!(config.gateway_ip, "10.0.0.1");
    assert_eq!(config.duration_secs, 120);
    assert_eq!(config.concurrency, 20);
}

#[test]
fn test_benchmark_url() {
    let config = BenchmarkConfig::new(GatewayImpl::Envoy, "192.168.1.100").with_path("/api/test");

    assert_eq!(config.url(), "http://192.168.1.100:80/api/test");
}

#[test]
fn test_runner_stop_flag() {
    let config = BenchmarkConfig::new(GatewayImpl::Nginx, "127.0.0.1");
    let mut runner = BenchmarkRunner::new(config);
    assert!(!runner.is_running());
    runner.start();
    assert!(runner.is_running());
    runner.stop();
    assert!(!runner.is_running());
}

#[test]
fn test_benchmark_comparison_ordering() {
    let mk = |gateway: GatewayImpl, rps: u64, p99: u32| BenchmarkResult {
        config: BenchmarkConfig::new(gateway, "127.0.0.1"),
        metrics: Metrics {
            latency: LatencyStats {
                min: 0,
                max: p99,
                mean: p99 / 2,
                std_dev: 0,
                percentiles: Percentiles { p50: p99 / 2, p90: p99, p95: p99, p99, p999: p99 },
                count: 10,
            },
            throughput: ThroughputStats::new(rps, rps, 1000),
            errors: ErrorStats::default(),
        },
        start_time: 0,
        end_time: 1,
        warmup_performed: false,
    };

    let comparison = BenchmarkComparison::new(vec![
        mk(GatewayImpl::Nginx, 100, 30_000),
        mk(GatewayImpl::Envoy, 300, 10_000),
        mk(GatewayImpl::Kong, 200, 20_000),
    ]);

    let by_rps = comparison.by_rps();
    assert_eq!(by_rps[0].config.gateway, GatewayImpl::Envoy);
    assert_eq!(by_rps[2].config.gateway, GatewayImpl::Nginx);

    let by_latency = comparison.by_latency();
    assert_eq!(by_latency[0].config.gateway, GatewayImpl::Envoy);
    assert_eq!(by_latency[2].config.gateway, GatewayImpl::Nginx);
}
