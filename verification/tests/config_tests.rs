//! Configuration tests: application defaults, environment overrides,
//! profiles and the configuration file model.

use gateway_bench::config::app::{AppConfig, KubeVirtConfig};
use gateway_bench::config::env::{parse_env_flag, EnvBuilder, EnvConfig};
use gateway_bench::config::file::{ConfigFile, EnvironmentConfig};
use gateway_bench::config::profile::{GatewayProfile, ProfileManager, TestProfile};
use gateway_bench::models::gateway::GatewayImpl;

#[test]
fn test_default_config() {
    let config = AppConfig::default();
    assert_eq!(config.default_gateway, "nginx");
    assert_eq!(config.timeout_secs, 30);
}

#[test]
fn test_kubevirt_config() {
    let config = KubeVirtConfig::default();
    assert_eq!(config.default_cpu, 4);
    assert_eq!(config.default_memory, 8);
}

#[test]
fn test_env_config_default() {
    let config = EnvConfig::default();
    assert!(config.gateway_ip.is_none());
    assert!(config.gateway.is_none());
}

#[test]
fn test_env_config_fallback() {
    let config = EnvConfig::default();
    assert_eq!(config.gateway_ip_or("127.0.0.1"), "127.0.0.1");
    assert_eq!(config.gateway_or("nginx"), "nginx");
    assert_eq!(config.timeout_or(30), 30);
}

#[test]
fn test_has_any() {
    let empty = EnvConfig::default();
    assert!(!empty.has_any());

    let mut with_ip = EnvConfig::default();
    with_ip.gateway_ip = Some("10.0.0.1".to_string());
    assert!(with_ip.has_any());
}

#[test]
fn test_env_flag_spellings() {
    assert!(parse_env_flag("1"));
    assert!(parse_env_flag("true"));
    assert!(parse_env_flag("YES"));
    assert!(parse_env_flag("On"));
    assert!(parse_env_flag("enabled"));
    assert!(!parse_env_flag("0"));
    assert!(!parse_env_flag("off"));
}

#[test]
fn test_env_builder_vars() {
    let builder = EnvBuilder::new().gateway_ip("10.0.0.1").gateway("envoy").timeout(60);
    assert_eq!(builder.vars.len(), 3);
    assert_eq!(builder.vars[0].0, "GATEWAY_POC_IP");
    assert_eq!(builder.vars[0].1, "10.0.0.1");
    assert_eq!(builder.vars[2].0, "GATEWAY_POC_TIMEOUT");
    assert_eq!(builder.vars[2].1, "60");
}

#[test]
fn test_gateway_profile_default() {
    let profile = GatewayProfile::default_for(GatewayImpl::Nginx);
    assert_eq!(profile.gateway, GatewayImpl::Nginx);
    assert_eq!(profile.namespace, "nginx-gateway");
}

#[test]
fn test_test_profile_smoke() {
    let profile = TestProfile::smoke();
    assert_eq!(profile.name, "smoke");
    assert_eq!(profile.tests, vec![1, 2, 3, 4]);
}

#[test]
fn test_test_profile_all() {
    let profile = TestProfile::all();
    assert_eq!(profile.tests.len(), 17);
}

#[test]
fn test_profile_manager() {
    let manager = ProfileManager::new();
    assert!(manager.gateway_profile("nginx-default").is_some());
    assert!(manager.test_profile("smoke").is_some());
}

#[test]
fn test_predefined_profiles() {
    let profiles = TestProfile::predefined();
    assert!(profiles.len() >= 6);
}

#[test]
fn test_find_profile() {
    let profile = TestProfile::find("routing");
    assert!(profile.is_some());
    assert_eq!(profile.unwrap().name, "routing");
}

#[test]
fn test_config_file_default() {
    let config = ConfigFile::default();
    assert_eq!(config.version, "1.0");
}

#[test]
fn test_config_file_example() {
    let config = ConfigFile::example();
    assert!(!config.gateway_profiles.is_empty());
    assert!(!config.test_profiles.is_empty());
    assert!(!config.environments.is_empty());
}

#[test]
fn test_environment_config() {
    let env = EnvironmentConfig::new("test", "10.0.0.1")
        .with_hostname("test.example.com")
        .with_tls();

    assert_eq!(env.name, "test");
    assert_eq!(env.gateway_ip, "10.0.0.1");
    assert!(env.tls_enabled);
}

#[test]
fn test_validate_config() {
    let mut config = ConfigFile::default();
    let mut invalid = TestProfile::new("invalid");
    invalid.tests = vec![99];
    config.test_profiles.push(invalid);

    assert!(config.validate().is_err());
}

#[test]
fn test_validate_accepts_good_config() {
    let config = ConfigFile::example();
    assert!(config.validate().is_ok());

    let mut wrong_version = ConfigFile::default();
    wrong_version.version = "2.0".to_string();
    assert!(wrong_version.validate().is_err());
}

#[test]
fn test_merge_keeps_existing_profiles() {
    let mut base = ConfigFile::default();
    base.test_profiles.push(TestProfile::smoke());

    let mut other = ConfigFile::default();
    other.test_profiles.push(TestProfile::smoke());
    other.test_profiles.push(TestProfile::routing());
    other.app.default_rounds = 5;

    base.merge(other);
    // The duplicate smoke profile is not added twice; routing is new.
    assert_eq!(base.test_profiles.len(), 2);
    assert_eq!(base.app.default_rounds, 5);
}
