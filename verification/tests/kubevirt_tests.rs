//! KubeVirt tests: SSH configuration and argv assembly, output parsing,
//! the VM builder and VMI phases.

use gateway_bench::kubevirt::ssh::{
    curl_full_command, curl_status_command, parse_gateway_test_output, parse_time_total_ms,
    retry_step, RetryDecision, SshClient, SshConfig, SshOutput,
};
use gateway_bench::kubevirt::vm::{NetworkType, VmConfig};
use gateway_bench::kubevirt::vmi::{VmiCondition, VmiInterface, VmiPhase};

#[test]
fn test_ssh_config_builder() {
    let config = SshConfig::new("testuser").port(2222).timeout(60).retries(5);

    assert_eq!(config.username, "testuser");
    assert_eq!(config.port, 2222);
    assert_eq!(config.timeout_secs, 60);
    assert_eq!(config.retries, 5);
}

#[test]
fn test_ssh_client_args() {
    let client = SshClient::new(SshConfig::new("fedora").port(22));
    let args = client.build_ssh_args("192.168.1.100");

    assert!(args.contains(&"-p".to_string()));
    assert!(args.contains(&"22".to_string()));
    assert!(args.contains(&"fedora@192.168.1.100".to_string()));
}

#[test]
fn test_ssh_output() {
    let output = SshOutput {
        stdout: "line1\nline2\nline3".to_string(),
        stderr: String::new(),
        exit_code: 0,
    };

    assert!(output.is_success());
    assert_eq!(output.lines().len(), 3);
}

#[test]
fn test_retry_decisions() {
    assert_eq!(retry_step(1, 3, 0), RetryDecision::Succeed);
    assert_eq!(retry_step(1, 3, 1), RetryDecision::RetryAfterDelay);
    assert_eq!(retry_step(3, 3, 7), RetryDecision::GiveUp);
}

#[test]
fn test_remote_curl_commands() {
    assert_eq!(
        curl_status_command("http://10.0.0.1/"),
        "curl -s -o /dev/null -w '%{http_code}' http://10.0.0.1/"
    );
    assert_eq!(curl_full_command("http://10.0.0.1/"), "curl -s -i http://10.0.0.1/");
}

#[test]
fn test_time_total_parsing() {
    assert_eq!(parse_time_total_ms("0.123456"), 123);
    assert_eq!(parse_time_total_ms("2.5"), 2500);
    assert_eq!(parse_time_total_ms("3"), 3000);
    assert_eq!(parse_time_total_ms("garbage"), 0);
}

#[test]
fn test_gateway_probe_parsing() {
    let lines = vec!["200".to_string(), "0.042".to_string()];
    let result = parse_gateway_test_output(&lines, "");
    assert!(result.success);
    assert_eq!(result.status_code, 200);
    assert_eq!(result.duration_ms, 42);

    let too_few = vec!["oops".to_string()];
    let result = parse_gateway_test_output(&too_few, "connection refused");
    assert!(!result.success);
    assert_eq!(result.error.as_deref(), Some("connection refused"));
}

#[test]
fn test_vm_config_builder() {
    let vm = VmConfig::new("test-vm", "default")
        .cpu(2)
        .memory("2Gi")
        .image("quay.io/containerdisks/ubuntu:latest")
        .label("app", "gateway-test")
        .build();

    assert_eq!(vm.metadata.name.as_deref(), Some("test-vm"));
    assert_eq!(vm.metadata.namespace.as_deref(), Some("default"));
    assert!(vm.spec.running);
}

#[test]
fn test_vm_config_with_ssh() {
    let vm = VmConfig::new("ssh-vm", "default")
        .ssh_key("ssh-rsa AAAAB3...")
        .build();

    assert_eq!(vm.spec.template.spec.volumes.len(), 2);
    assert!(vm.spec.template.spec.volumes[1].cloud_init_no_cloud.is_some());
}

#[test]
fn test_network_types() {
    let masq_vm = VmConfig::new("masq-vm", "default")
        .network(NetworkType::Masquerade)
        .build();
    assert!(masq_vm.spec.template.spec.networks[0].pod.is_some());

    let multus_vm = VmConfig::new("multus-vm", "default")
        .network(NetworkType::Multus("my-network".to_string()))
        .build();
    assert!(multus_vm.spec.template.spec.networks[0].multus.is_some());
}

#[test]
fn test_vmi_phase_from_str() {
    assert_eq!(VmiPhase::from_str("Running"), VmiPhase::Running);
    assert_eq!(VmiPhase::from_str("pending"), VmiPhase::Pending);
    assert_eq!(VmiPhase::from_str("FAILED"), VmiPhase::Failed);
    assert_eq!(VmiPhase::from_str("unknown-phase"), VmiPhase::Unknown);
}

#[test]
fn test_vmi_phase_predicates() {
    assert!(VmiPhase::Running.is_running());
    assert!(!VmiPhase::Pending.is_running());

    assert!(VmiPhase::Succeeded.is_terminal());
    assert!(VmiPhase::Failed.is_terminal());
    assert!(!VmiPhase::Running.is_terminal());
}

#[test]
fn test_vmi_interface() {
    let iface = VmiInterface {
        name: Some("default".to_string()),
        ip_address: Some("10.244.0.5".to_string()),
        mac: Some("52:54:00:12:34:56".to_string()),
        ..Default::default()
    };

    assert_eq!(iface.ip_address.as_deref(), Some("10.244.0.5"));
}

#[test]
fn test_vmi_condition() {
    let cond = VmiCondition {
        condition_type: "Ready".to_string(),
        status: "True".to_string(),
        reason: Some("VMIReady".to_string()),
        ..Default::default()
    };

    assert_eq!(cond.condition_type, "Ready");
    assert_eq!(cond.status, "True");
}
