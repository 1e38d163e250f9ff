//! Result storage and report format tests, including timestamp and run
//! identifier rendering.

use gateway_bench::models::gateway::GatewayImpl;
use gateway_bench::models::test_result::{TestCase, TestResult, TestRoundSummary};
use gateway_bench::results::report::{format_datetime, truncate, ReportFormat};
use gateway_bench::results::storage::{
    format_run_id, generate_run_id, EnvironmentInfo, ExportFormat, StoredRoundSummary,
    StoredTestRun, TestRunConfig,
};

fn test_environment() -> EnvironmentInfo {
    EnvironmentInfo {
        os: "linux".to_string(),
        arch: "x86_64".to_string(),
        k8s_version: None,
        gateway_version: None,
        tool_version: "0.1.0".to_string(),
    }
}

#[test]
fn test_report_format() {
    assert!(matches!(ReportFormat::from_str("text"), Some(ReportFormat::Text)));
    assert!(matches!(ReportFormat::from_str("md"), Some(ReportFormat::Markdown)));
    assert!(matches!(ReportFormat::from_str("html"), Some(ReportFormat::Html)));
    assert!(ReportFormat::from_str("unknown").is_none());
}

#[test]
fn report_test_truncate() {
    assert_eq!(truncate("short", 10), "short");
    assert_eq!(truncate("this is a long string", 10), "this is...");
}

#[test]
fn test_report_extensions() {
    assert_eq!(ReportFormat::Text.extension(), "txt");
    assert_eq!(ReportFormat::Markdown.extension(), "md");
    assert_eq!(ReportFormat::Html.extension(), "html");
}

#[test]
fn test_format_datetime() {
    // The epoch itself.
    assert_eq!(format_datetime(0), "1970-01-01 00:00:00 UTC");
    // A leap-year day with a time of day.
    assert_eq!(format_datetime(951_827_696), "2000-02-29 12:34:56 UTC");
}

#[test]
fn test_format_run_id() {
    assert_eq!(format_run_id(0, 42), "19700101_000000_0042");
    assert_eq!(format_run_id(951_827_696, 123_456), "20000229_123456_3456");
}

#[test]
fn test_generate_run_id() {
    let id1 = generate_run_id();
    let id2 = generate_run_id();
    assert!(!id1.is_empty());
    assert_ne!(id1, id2);
}

#[test]
fn test_stored_test_run() {
    let run = StoredTestRun::new(GatewayImpl::Nginx, "10.0.0.1", test_environment());
    assert_eq!(run.gateway, "NGINX Gateway Fabric");
    assert_eq!(run.gateway_ip, "10.0.0.1");
    assert_eq!(run.rounds, 0);
}

#[test]
fn test_export_format() {
    assert!(matches!(ExportFormat::from_str("json"), Some(ExportFormat::Json)));
    assert!(matches!(ExportFormat::from_str("csv"), Some(ExportFormat::Csv)));
    assert!(ExportFormat::from_str("unknown").is_none());
}

#[test]
fn test_round_storage_and_aggregate() {
    let mut run = StoredTestRun::new(GatewayImpl::Kong, "10.1.2.3", test_environment())
        .with_config(TestRunConfig::default());

    let round1 = TestRoundSummary::new(
        1,
        "Kong Gateway",
        vec![
            TestResult::pass(TestCase::HostRouting, 100),
            TestResult::fail(TestCase::PathRouting, 200, "broken"),
        ],
    );
    let round2 = TestRoundSummary::new(
        2,
        "Kong Gateway",
        vec![
            TestResult::pass(TestCase::HostRouting, 120),
            TestResult::pass(TestCase::PathRouting, 80),
        ],
    );
    run.add_round(1, &round1);
    run.add_round(2, &round2);
    assert_eq!(run.rounds, 2);
    assert_eq!(run.summaries.len(), 2);
    assert_eq!(run.summaries[0].pass_rate, 5000);
    assert_eq!(run.summaries[1].pass_rate, 10000);

    run.calculate_aggregate();
    let agg = run.aggregate.as_ref().unwrap();
    assert_eq!(agg.avg_pass_rate, 7500);
    assert_eq!(agg.min_pass_rate, 5000);
    assert_eq!(agg.max_pass_rate, 10000);
    assert_eq!(agg.total_duration_ms, 500);
    assert_eq!(agg.avg_duration_ms, 250);
    assert_eq!(agg.test_stats.len(), 2);
}

#[test]
fn test_stored_round_summary_conversion() {
    let summary = TestRoundSummary::new(
        3,
        "nginx",
        vec![
            TestResult::pass(TestCase::HostRouting, 10),
            TestResult::skip(TestCase::GrpcRouting, "not configured"),
        ],
    );
    let stored = StoredRoundSummary::from_round_summary(3, &summary);
    assert_eq!(stored.round, 3);
    assert_eq!(stored.total, 2);
    assert_eq!(stored.passed, 1);
    assert_eq!(stored.skipped, 1);
    assert_eq!(stored.results[0].test_number, 1);
    assert_eq!(stored.results[0].test_name, "Host Routing");
    assert!(stored.results[0].passed);
    assert!(!stored.results[1].passed);
}
