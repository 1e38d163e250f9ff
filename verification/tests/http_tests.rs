//! HTTP model tests: requests, responses, URL assembly, backend
//! identification and load-test tallies.

use gateway_bench::http::client::{
    aggregate_load_outcomes, build_url, extract_backend_id, HttpRequest, HttpResponse,
    LoadTestResult,
};

#[test]
fn test_http_request_builder() {
    let req = HttpRequest::get("http://example.com")
        .header("Host", "example.com")
        .header("X-Custom", "value");

    assert_eq!(req.method, "GET");
    assert_eq!(req.headers.len(), 2);
}

#[test]
fn test_http_request_header_replaces() {
    let req = HttpRequest::get("http://example.com")
        .header("Host", "one.example.com")
        .header("Host", "two.example.com");
    assert_eq!(req.headers.len(), 1);
    assert_eq!(req.headers[0].1, "two.example.com");
}

#[test]
fn test_http_response() {
    let resp = HttpResponse {
        status_code: 200,
        headers: Vec::new(),
        body: "Hello World".to_string(),
        duration_ms: 100,
    };

    assert!(resp.is_success());
    assert!(!resp.is_redirect());
    assert!(resp.body_contains("Hello"));
}

#[test]
fn test_response_class_predicates() {
    let mk = |status_code| HttpResponse {
        status_code,
        headers: Vec::new(),
        body: String::new(),
        duration_ms: 0,
    };
    assert!(mk(301).is_redirect());
    assert!(mk(404).is_client_error());
    assert!(mk(503).is_server_error());
    assert!(!mk(200).is_client_error());
}

#[test]
fn test_response_header_lookup() {
    let resp = HttpResponse {
        status_code: 200,
        headers: vec![("set-cookie".to_string(), "session=abc".to_string())],
        body: String::new(),
        duration_ms: 0,
    };
    assert_eq!(resp.get_header("Set-Cookie").map(|s| s.as_str()), Some("session=abc"));
    assert!(resp.get_header("location").is_none());
}

#[test]
fn test_build_url() {
    let base = Some("http://10.0.0.1:8080/".to_string());
    assert_eq!(build_url(&base, "/api"), "http://10.0.0.1:8080/api");
    assert_eq!(build_url(&base, "https://other/x"), "https://other/x");
    assert_eq!(build_url(&None, "/api"), "/api");
}

#[test]
fn test_extract_backend_id() {
    assert_eq!(
        extract_backend_id("Server: pod-abc123-xyz"),
        Some("pod-abc123-xyz".to_string())
    );
    assert_eq!(
        extract_backend_id("backend-v1 responding"),
        Some("backend-v1".to_string())
    );
    assert_eq!(extract_backend_id("no backend info"), None);
}

#[test]
fn test_load_test_result() {
    let result = LoadTestResult {
        total_requests: 100,
        successes: 90,
        failures: 10,
        avg_duration_ms: 50,
    };

    // 90.00 percent, in hundredths of a percent.
    assert_eq!(result.success_rate(), 9000);
}

#[test]
fn test_aggregate_load_outcomes() {
    // Per-worker tallies: successes, failures, summed success duration.
    let outcomes = vec![(40, 10, 2000), (50, 0, 3000)];
    let result = aggregate_load_outcomes(100, &outcomes);
    assert_eq!(result.total_requests, 100);
    assert_eq!(result.successes, 90);
    assert_eq!(result.failures, 10);
    // 5000 milliseconds over 90 successes.
    assert_eq!(result.avg_duration_ms, 55);
}
