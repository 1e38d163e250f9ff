//! Data model tests: gateway implementations, test cases, results and
//! round summaries.

use gateway_bench::models::gateway::{GatewayConfig, GatewayImpl, TestConfig};
use gateway_bench::models::test_result::{TestCase, TestResult, TestRoundSummary};

#[test]
fn test_gateway_impl() {
    assert_eq!(GatewayImpl::Nginx.name(), "NGINX Gateway Fabric");
    assert!(GatewayImpl::Nginx.supports_arm64());
    assert!(!GatewayImpl::Kgateway.supports_arm64());
}

#[test]
fn test_gateway_from_str() {
    assert_eq!(GatewayImpl::from_str("nginx"), Some(GatewayImpl::Nginx));
    assert_eq!(GatewayImpl::from_str("ENVOY"), Some(GatewayImpl::Envoy));
    assert_eq!(GatewayImpl::from_str("unknown"), None);
}

#[test]
fn test_all_gateways() {
    let all = GatewayImpl::all();
    assert_eq!(all.len(), 7);
}

#[test]
fn test_arm64_compatible() {
    let arm64 = GatewayImpl::arm64_compatible();
    assert_eq!(arm64.len(), 6);
    assert!(!arm64.contains(&GatewayImpl::Kgateway));
}

#[test]
fn test_gateway_config() {
    let config = GatewayConfig::new(GatewayImpl::Nginx)
        .with_namespace("gateway-system")
        .with_hostname("test.example.com");

    assert_eq!(config.namespace, "gateway-system");
    assert_eq!(config.hostname, "test.example.com");
}

#[test]
fn test_gateway_config_defaults() {
    let config = GatewayConfig::new(GatewayImpl::Envoy);
    assert_eq!(config.name, "eg-gateway");
    assert_eq!(config.http_port, 80);
    assert_eq!(config.https_port, 443);
    assert_eq!(config.grpc_port, Some(9090));
}

#[test]
fn test_test_config_builders() {
    let config = TestConfig::new(GatewayConfig::new(GatewayImpl::Kong))
        .with_rounds(4)
        .parallel(true)
        .skip_test(9);
    assert_eq!(config.rounds, 4);
    assert!(config.parallel);
    assert_eq!(config.skip_tests, vec![9]);
}

#[test]
fn test_case_numbers() {
    assert_eq!(TestCase::HostRouting.number(), 1);
    assert_eq!(TestCase::FailoverRecovery.number(), 17);
}

#[test]
fn test_case_from_number() {
    assert_eq!(TestCase::from_number(1), Some(TestCase::HostRouting));
    assert_eq!(TestCase::from_number(17), Some(TestCase::FailoverRecovery));
    assert_eq!(TestCase::from_number(18), None);
}

#[test]
fn test_all_cases() {
    let all = TestCase::all();
    assert_eq!(all.len(), 17);
}

#[test]
fn test_case_names_and_categories() {
    assert_eq!(TestCase::HostRouting.name(), "Host Routing");
    assert_eq!(TestCase::HostRouting.category(), "Routing");
    assert_eq!(TestCase::TlsTermination.category(), "TLS");
    assert_eq!(TestCase::RateLimiting.category(), "Traffic");
    assert_eq!(TestCase::LoadTest.category(), "Advanced");
}

#[test]
fn test_result_creation() {
    let result = TestResult::pass(TestCase::HostRouting, 100);
    assert!(result.status.is_success());
    assert_eq!(result.duration_ms, 100);
}

#[test]
fn test_round_summary() {
    let results = vec![
        TestResult::pass(TestCase::HostRouting, 100),
        TestResult::fail(TestCase::PathRouting, 50, "Path not found"),
        TestResult::skip(TestCase::GrpcRouting, "gRPC not configured"),
    ];

    let summary = TestRoundSummary::new(1, "nginx", results);
    assert_eq!(summary.total, 3);
    assert_eq!(summary.passed, 1);
    assert_eq!(summary.failed, 1);
    assert_eq!(summary.skipped, 1);
}

#[test]
fn test_round_summary_pass_rate() {
    let results = vec![
        TestResult::pass(TestCase::HostRouting, 10),
        TestResult::pass(TestCase::PathRouting, 10),
        TestResult::fail(TestCase::HeaderRouting, 10, "nope"),
        TestResult::error(TestCase::TlsTermination, "exploded"),
    ];
    let summary = TestRoundSummary::new(2, "istio", results);
    // Two of four passed: 50.00 percent, in hundredths of a percent.
    assert_eq!(summary.pass_rate(), 5000);
    assert!(!summary.is_all_passed());
    assert_eq!(summary.errors, 1);
    assert_eq!(summary.total_duration_ms, 30);
}
