//! Parallel executor, ordering and aggregate reduction tests.

use gateway_bench::executor::parallel::{
    sort_results_by_number, BatchRunner, ParallelExecutor,
};
use gateway_bench::executor::runner::{MultiGatewayRunner, TestRunner};
use gateway_bench::models::gateway::{GatewayConfig, GatewayImpl, TestConfig};
use gateway_bench::models::test_result::{TestCase, TestResult, TestRoundSummary};

#[test]
fn test_parallel_executor_creation() {
    let executor = ParallelExecutor::new(8).with_timeout(60);
    assert_eq!(executor.max_concurrent, 8);
    assert_eq!(executor.timeout_secs, 60);
}

#[test]
fn test_batch_runner_creation() {
    let runner = BatchRunner::new(4, 10);
    assert_eq!(runner.rounds, 10);
}

#[test]
fn test_aggregate_results() {
    let results1 = vec![
        TestResult::pass(TestCase::HostRouting, 100),
        TestResult::fail(TestCase::PathRouting, 50, "failed"),
    ];
    let results2 = vec![
        TestResult::pass(TestCase::HostRouting, 120),
        TestResult::pass(TestCase::PathRouting, 60),
    ];

    let summaries = vec![
        TestRoundSummary::new(1, "nginx", results1),
        TestRoundSummary::new(2, "nginx", results2),
    ];

    let aggregate = BatchRunner::aggregate_results(&summaries);
    assert_eq!(aggregate.total_rounds, 2);
    // Pass rates in hundredths of a percent.
    assert_eq!(pass_rate_of(&aggregate.test_pass_rates, TestCase::HostRouting), Some(10000));
    assert_eq!(pass_rate_of(&aggregate.test_pass_rates, TestCase::PathRouting), Some(5000));
}

fn pass_rate_of(rates: &[(TestCase, u32)], tc: TestCase) -> Option<u32> {
    rates.iter().find(|e| e.0 == tc).map(|e| e.1)
}

#[test]
fn test_flaky_before_stable() {
    // Test A passes in both rounds; test B passes once and fails once.
    let results1 = vec![
        TestResult::pass(TestCase::HostRouting, 100),
        TestResult::pass(TestCase::PathRouting, 50),
    ];
    let results2 = vec![
        TestResult::pass(TestCase::HostRouting, 120),
        TestResult::fail(TestCase::PathRouting, 60, "flaked"),
    ];
    let summaries = vec![
        TestRoundSummary::new(1, "nginx", results1),
        TestRoundSummary::new(2, "nginx", results2),
    ];

    let aggregate = BatchRunner::aggregate_results(&summaries);
    let flaky = aggregate.flaky_tests();
    // The flakier test sorts first.
    assert_eq!(flaky[0].0, TestCase::PathRouting);
    assert_eq!(flaky[0].1, 5000);
    assert_eq!(flaky[1].0, TestCase::HostRouting);
    assert_eq!(flaky[1].1, 10000);

    let stable = aggregate.stable_tests();
    assert_eq!(stable, vec![TestCase::HostRouting]);
}

#[test]
fn test_skips_excluded_from_rate() {
    let results = vec![
        TestResult::pass(TestCase::HostRouting, 10),
        TestResult::skip(TestCase::HostRouting, "off this round"),
    ];
    let summaries = vec![TestRoundSummary::new(1, "kong", results)];
    let aggregate = BatchRunner::aggregate_results(&summaries);
    // One pass, one skip: the skip leaves the denominator.
    assert_eq!(pass_rate_of(&aggregate.test_pass_rates, TestCase::HostRouting), Some(10000));
}

#[test]
fn test_sort_results_by_number() {
    let results = vec![
        TestResult::pass(TestCase::GrpcRouting, 5),
        TestResult::pass(TestCase::HostRouting, 1),
        TestResult::pass(TestCase::RateLimiting, 3),
    ];
    let sorted = sort_results_by_number(results);
    assert_eq!(sorted.len(), 3);
    assert_eq!(sorted[0].test_case, TestCase::HostRouting);
    assert_eq!(sorted[1].test_case, TestCase::RateLimiting);
    assert_eq!(sorted[2].test_case, TestCase::GrpcRouting);
}

#[test]
fn test_runner_creation() {
    let config = TestConfig::new(GatewayConfig::new(GatewayImpl::Nginx));
    let runner = TestRunner::new(config);
    assert!(runner.gateway_ip.is_none());
    assert_eq!(runner.gateway_ip(), "127.0.0.1");
}

#[test]
fn test_skip_configuration() {
    let config = TestConfig::new(GatewayConfig::new(GatewayImpl::Nginx)).skip_test(3);
    let runner = TestRunner::new(config);
    let skipped = runner.skip_result(TestCase::HeaderRouting);
    assert!(skipped.is_some());
    assert!(runner.skip_result(TestCase::HostRouting).is_none());
}

#[test]
fn test_multi_gateway_builder() {
    let runner = MultiGatewayRunner::new()
        .add_gateway(GatewayImpl::Nginx, "10.0.0.1")
        .add_gateway(GatewayImpl::Envoy, "10.0.0.2")
        .rounds(5);

    assert_eq!(runner.gateways.len(), 2);
    assert_eq!(runner.rounds, 5);
}
