//! Output formatting and utility tests: format selection, summary lines,
//! log levels, numbers and string helpers.

use gateway_bench::benchmark::report::ReportFormat as BenchReportFormat;
use gateway_bench::models::test_result::{TestCase, TestResult};
use gateway_bench::output::formatter::{format_result_summary, OutputFormat, ResultFormatter};
use gateway_bench::util::{parse_u64, split_lines, trim_ascii, u64_to_dec_string};
use gateway_bench::utils::logger::LogLevel;
use gateway_bench::utils::timer::Stopwatch;

#[test]
fn test_output_format_from_str() {
    assert_eq!(OutputFormat::from_str("json"), Some(OutputFormat::Json));
    assert_eq!(OutputFormat::from_str("TABLE"), Some(OutputFormat::Table));
    assert_eq!(OutputFormat::from_str("unknown"), None);
}

#[test]
fn test_formatter_creation() {
    let formatter = ResultFormatter::new(OutputFormat::Json).no_color();
    assert_eq!(formatter.format, OutputFormat::Json);
    assert!(!formatter.colorize);
}

#[test]
fn test_summary_line() {
    let result = TestResult::pass(TestCase::HostRouting, 100);
    let line = format_result_summary(&result);
    assert!(line.contains("Host Routing"));
    assert_eq!(line, "\u{2713} Host Routing (100ms)");
}

#[test]
fn test_report_format_from_str() {
    assert_eq!(BenchReportFormat::from_str("text"), Some(BenchReportFormat::Text));
    assert_eq!(BenchReportFormat::from_str("json"), Some(BenchReportFormat::Json));
    assert_eq!(BenchReportFormat::from_str("markdown"), Some(BenchReportFormat::Markdown));
    assert_eq!(BenchReportFormat::from_str("md"), Some(BenchReportFormat::Markdown));
    assert_eq!(BenchReportFormat::from_str("csv"), Some(BenchReportFormat::Csv));
    assert_eq!(BenchReportFormat::from_str("html"), Some(BenchReportFormat::Html));
    assert_eq!(BenchReportFormat::from_str("invalid"), None);
}

#[test]
fn test_log_level_from_str() {
    assert_eq!(LogLevel::from_str("info"), Some(LogLevel::Info));
    assert_eq!(LogLevel::from_str("DEBUG"), Some(LogLevel::Debug));
    assert_eq!(LogLevel::from_str("unknown"), None);
}

#[test]
fn test_decimal_rendering() {
    assert_eq!(u64_to_dec_string(0), "0");
    assert_eq!(u64_to_dec_string(42), "42");
    assert_eq!(u64_to_dec_string(18_446_744_073_709_551_615), "18446744073709551615");
}

#[test]
fn test_parse_u64_round_trips() {
    assert_eq!(parse_u64("0"), Some(0));
    assert_eq!(parse_u64("+120"), Some(120));
    assert_eq!(parse_u64("18446744073709551615"), Some(u64::MAX));
    assert_eq!(parse_u64("18446744073709551616"), None);
    assert_eq!(parse_u64(""), None);
    assert_eq!(parse_u64("12a"), None);
}

#[test]
fn test_trim_and_lines() {
    assert_eq!(trim_ascii("  padded\t"), "padded");
    assert_eq!(trim_ascii(""), "");
    let lines = split_lines("a\r\nb\nc");
    assert_eq!(lines, vec!["a".to_string(), "b".to_string(), "c".to_string()]);
}

#[test]
fn test_stopwatch_laps() {
    let mut sw = Stopwatch::new();
    sw.lap("first");
    sw.lap("second");

    assert_eq!(sw.laps().len(), 2);

    let lap_times = sw.lap_times();
    assert_eq!(lap_times.len(), 2);
    assert_eq!(lap_times[0].0, "first");
}
