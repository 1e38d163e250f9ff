//! Kubernetes resource model tests: Gateway and HTTPRoute builders, pod
//! configuration and the curl output parser.

use gateway_bench::k8s::gateway::{CertificateRef, GatewaySpec, ListenerSpec, TlsConfig};
use gateway_bench::k8s::httproute::{HTTPRouteBuilder, RuleBuilder};
use gateway_bench::k8s::pod::{parse_curl_response, CurlOptions, TestPodConfig};

#[test]
fn test_k8s_client_namespace() {
    // The client itself needs a cluster; its default namespace is plain data.
    let namespace = "test-namespace";
    assert_eq!(namespace, "test-namespace");
}

#[test]
fn test_gateway_spec() {
    let spec = GatewaySpec {
        gateway_class_name: "nginx".to_string(),
        listeners: vec![ListenerSpec {
            name: "http".to_string(),
            port: 80,
            protocol: "HTTP".to_string(),
            ..Default::default()
        }],
        ..Default::default()
    };

    assert_eq!(spec.gateway_class_name, "nginx");
    assert_eq!(spec.listeners.len(), 1);
}

#[test]
fn test_listener_spec() {
    let listener = ListenerSpec {
        name: "https".to_string(),
        port: 443,
        protocol: "HTTPS".to_string(),
        hostname: Some("example.com".to_string()),
        tls: Some(TlsConfig {
            mode: Some("Terminate".to_string()),
            certificate_refs: vec![CertificateRef {
                name: "tls-secret".to_string(),
                ..Default::default()
            }],
        }),
        ..Default::default()
    };

    assert_eq!(listener.port, 443);
    assert!(listener.tls.is_some());
}

#[test]
fn test_httproute_builder() {
    let route = HTTPRouteBuilder::new("test-route", "default")
        .parent_ref("my-gateway")
        .hostname("example.com")
        .rule(
            RuleBuilder::new()
                .path_prefix("/api")
                .backend("api-service", 8080)
                .build(),
        )
        .build();

    assert_eq!(route.metadata.name, Some("test-route".to_string()));
    assert_eq!(route.spec.hostnames, vec!["example.com"]);
}

#[test]
fn test_rule_builder() {
    let rule = RuleBuilder::new()
        .path_prefix("/v1")
        .backend_with_weight("svc-a", 80, 90)
        .backend_with_weight("svc-b", 80, 10)
        .build();

    assert_eq!(rule.backend_refs.len(), 2);
    assert_eq!(rule.backend_refs[0].weight, Some(90));
}

#[test]
fn test_curl_options_builder() {
    let options = CurlOptions::new()
        .method("POST")
        .header("Content-Type", "application/json")
        .body(r#"{"key": "value"}"#)
        .timeout(30)
        .insecure();

    assert_eq!(options.method, "POST");
    assert!(options.insecure);
    assert_eq!(options.timeout_secs, Some(30));
}

#[test]
fn test_parse_curl_response() {
    let output = "HTTP/1.1 200 OK\r\nContent-Type: text/plain\r\n\r\nHello World";
    let (status, headers, body) = parse_curl_response(output);

    assert_eq!(status, 200);
    assert_eq!(
        headers.iter().find(|h| h.0 == "content-type").map(|h| h.1.clone()),
        Some("text/plain".to_string())
    );
    assert_eq!(body, "Hello World");
}

#[test]
fn test_parse_curl_response_multiline_body() {
    let output = "HTTP/1.1 404 Not Found\r\nServer: unit\r\n\r\nline one\nline two";
    let (status, headers, body) = parse_curl_response(output);
    assert_eq!(status, 404);
    assert_eq!(headers.len(), 1);
    assert_eq!(body, "line one\nline two");
}

#[test]
fn test_test_pod_config() {
    let config = TestPodConfig::new("test-pod", "default")
        .with_image("alpine:latest")
        .with_label("test", "true");

    assert_eq!(config.name, "test-pod");
    assert_eq!(config.image, "alpine:latest");
    assert_eq!(config.label_get("test").map(|s| s.as_str()), Some("true"));
}

#[test]
fn test_curl_command_shape() {
    let options = CurlOptions::new().timeout(5).insecure();
    let argv = gateway_bench::k8s::pod::build_curl_command(&options, "http://10.0.0.1/healthz");
    assert_eq!(argv[0], "curl");
    assert!(argv.contains(&"-k".to_string()));
    assert!(argv.contains(&"-m".to_string()));
    assert!(argv.contains(&"5".to_string()));
    assert_eq!(argv[argv.len() - 2], "-i");
    assert_eq!(argv[argv.len() - 1], "http://10.0.0.1/healthz");
}
