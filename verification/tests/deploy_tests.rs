//! Deployment support tests: manifests, health checking and installer
//! settings.

use gateway_bench::deploy::health::{
    health_status_from_checks, preflight_from_checks, summarize_pod_phases, truncate, wait_step,
    HealthCheck, HealthCheckConfig, WaitDecision,
};
use gateway_bench::deploy::installer::{InstallStatus, InstallerConfig};
use gateway_bench::deploy::manifest::ManifestGenerator;
use gateway_bench::models::gateway::GatewayImpl;

#[test]
fn test_health_check_config() {
    let config = HealthCheckConfig::new()
        .check_timeout(15)
        .total_timeout(180)
        .retry_interval(10);

    assert_eq!(config.check_timeout_secs, 15);
    assert_eq!(config.total_timeout_secs, 180);
    assert_eq!(config.retry_interval_secs, 10);
}

#[test]
fn test_health_check() {
    let pass = HealthCheck::pass("test", "passed");
    assert!(pass.passed);

    let fail = HealthCheck::fail("test", "failed");
    assert!(!fail.passed);
}

#[test]
fn health_test_truncate() {
    assert_eq!(truncate("short", 10), "short");
    assert_eq!(truncate("this is long", 10), "this is...");
}

#[test]
fn test_health_status_aggregation() {
    let checks = vec![
        HealthCheck::pass("GatewayClass", "accepted"),
        HealthCheck::pass("HTTP Connectivity", "reachable"),
    ];
    let status = health_status_from_checks(GatewayImpl::Nginx, checks);
    assert!(status.healthy);
    assert_eq!(status.message, "All health checks passed");

    let mixed = vec![
        HealthCheck::pass("GatewayClass", "accepted"),
        HealthCheck::fail("Pods", "0 pods"),
        HealthCheck::fail("HTTP Connectivity", "refused"),
    ];
    let status = health_status_from_checks(GatewayImpl::Envoy, mixed);
    assert!(!status.healthy);
    assert_eq!(status.message, "1/3 checks passed");
}

#[test]
fn test_preflight_aggregation() {
    let checks = vec![HealthCheck::pass("kubectl", "available")];
    let result = preflight_from_checks(checks);
    assert!(result.passed);
}

#[test]
fn test_wait_step_threshold() {
    // Two healthy observations against a threshold of three keep waiting.
    assert_eq!(wait_step(0, 3, true), (1, WaitDecision::Retry));
    assert_eq!(wait_step(1, 3, true), (2, WaitDecision::Retry));
    // The third finishes the wait.
    assert_eq!(wait_step(2, 3, true), (3, WaitDecision::Done));
    // An unhealthy observation resets the streak.
    assert_eq!(wait_step(2, 3, false), (0, WaitDecision::Retry));
}

#[test]
fn test_pod_phase_summary() {
    let all_running = vec!["Running".to_string(), "Running".to_string()];
    let check = summarize_pod_phases(&all_running);
    assert!(check.passed);
    assert_eq!(check.message, "2 pods running");

    let some_pending = vec!["Running".to_string(), "Pending".to_string()];
    let check = summarize_pod_phases(&some_pending);
    assert!(!check.passed);
    assert_eq!(check.message, "1/2 pods running");

    let none: Vec<String> = Vec::new();
    let check = summarize_pod_phases(&none);
    assert!(!check.passed);
    assert_eq!(check.message, "No pods found");
}

#[test]
fn test_installer_config() {
    let config = InstallerConfig::new()
        .namespace("custom-ns")
        .timeout(600)
        .helm_value("replicaCount", "2");

    assert_eq!(config.namespace, "custom-ns");
    assert_eq!(config.timeout_secs, 600);
    assert_eq!(config.helm_values.len(), 1);
}

#[test]
fn test_install_status() {
    assert!(InstallStatus::Installed.is_installed());
    assert!(!InstallStatus::NotInstalled.is_installed());
    assert_eq!(InstallStatus::Installed.as_str(), "Installed");
    assert_eq!(InstallStatus::Failed("boom".to_string()).as_str(), "Failed");
}

#[test]
fn test_gateway_manifest() {
    let gen = ManifestGenerator::new(GatewayImpl::Nginx);
    let gateway = gen.gateway("test-gateway");

    assert_eq!(gateway.metadata.name, "test-gateway");
    assert_eq!(gateway.spec.gateway_class_name, "nginx");
    assert_eq!(gateway.spec.listeners.len(), 1);
}

#[test]
fn test_http_route_manifest() {
    let gen = ManifestGenerator::new(GatewayImpl::Envoy);
    let route = gen.http_route_path("test-route", "test-gateway", "/api", "backend-svc", 8080);

    assert_eq!(route.metadata.name, "test-route");
    assert!(route.spec.rules.is_some());
}

#[test]
fn test_canary_route() {
    let gen = ManifestGenerator::new(GatewayImpl::Istio);
    let route = gen.http_route_canary("canary-route", "gateway", "stable", "canary", 20, 80);

    let rules = route.spec.rules.unwrap();
    let backends = rules[0].backend_refs.as_ref().unwrap();
    assert_eq!(backends.len(), 2);
    assert_eq!(backends[0].weight, Some(80));
    assert_eq!(backends[1].weight, Some(20));
}

#[test]
fn test_tls_gateway_manifest() {
    let gen = ManifestGenerator::new(GatewayImpl::Kong);
    let gateway = gen.gateway_with_tls("secure", "tls-secret");
    assert_eq!(gateway.spec.listeners.len(), 2);
    let https = &gateway.spec.listeners[1];
    assert_eq!(https.port, 443);
    let tls = https.tls.as_ref().unwrap();
    assert_eq!(tls.mode, "Terminate");
    assert_eq!(tls.certificate_refs.as_ref().unwrap()[0].name, "tls-secret");
}
