//! The configuration file model: validation, the generated example, and
//! merging.  Locating, reading and parsing the file from disk is the
//! surrounding tooling's job.

use vstd::prelude::*;

use crate::config::app::{AppConfig, KubeVirtConfig};
use crate::config::profile::{GatewayProfile, TestProfile};
use crate::models::gateway::GatewayImpl;
use crate::util::str_eq;

verus! {

/// Environment-specific configuration.
#[derive(Clone, Debug)]
pub struct EnvironmentConfig {
    /// Environment name
    pub name: String,
    /// Gateway IP address
    pub gateway_ip: String,
    /// Hostname for testing
    pub hostname: String,
    /// TLS enabled
    pub tls_enabled: bool,
    /// Extra environment-specific settings
    pub extra: Vec<(String, String)>,
}

impl EnvironmentConfig {
    /// A new environment: hostname `example.com`, TLS off, nothing extra.
    pub fn new(name: &str, gateway_ip: &str) -> (r: Self)
        ensures
            r.name@ == name@,
            r.gateway_ip@ == gateway_ip@,
            r.hostname@ == "example.com"@,
            r.tls_enabled == false,
            r.extra@.len() == 0,
    {
        EnvironmentConfig {
            name: String::from_str(name),
            gateway_ip: String::from_str(gateway_ip),
            hostname: String::from_str("example.com"),
            tls_enabled: false,
            extra: Vec::new(),
        }
    }

    /// Set hostname.
    pub fn with_hostname(self, hostname: &str) -> (r: Self)
        ensures
            r.hostname@ == hostname@,
            r.name == self.name,
            r.gateway_ip == self.gateway_ip,
            r.tls_enabled == self.tls_enabled,
            r.extra == self.extra,
    {
        EnvironmentConfig { hostname: String::from_str(hostname), ..self }
    }

    /// Enable TLS.
    pub fn with_tls(self) -> (r: Self)
        ensures
            r.tls_enabled == true,
            r.name == self.name,
            r.gateway_ip == self.gateway_ip,
            r.hostname == self.hostname,
            r.extra == self.extra,
    {
        EnvironmentConfig { tls_enabled: true, ..self }
    }
}

/// Why a configuration file is rejected.
#[derive(Clone, Debug)]
pub enum ConfigError {
    /// The version is not one this tool supports
    UnsupportedVersion(String),
    /// A test profile names an ordinal outside the catalog
    InvalidTestNumber { number: u8, profile: String },
}

/// Full configuration file structure.
#[derive(Clone, Debug)]
pub struct ConfigFile {
    /// Version of the file format
    pub version: String,
    /// Application settings
    pub app: AppConfig,
    /// Gateway profiles
    pub gateway_profiles: Vec<GatewayProfile>,
    /// Test profiles
    pub test_profiles: Vec<TestProfile>,
    /// Environment-specific overrides
    pub environments: Vec<EnvironmentConfig>,
}

/// The supported file format versions.
pub open spec fn spec_version_ok(v: Seq<char>) -> bool {
    v == "1.0"@ || v == "1.1"@
}

/// Every test number of every profile is a catalog ordinal.
pub open spec fn spec_tests_ok(profiles: Seq<TestProfile>) -> bool {
    forall|i: int, j: int|
        0 <= i < profiles.len() && 0 <= j < profiles[i].tests@.len() ==> 1 <= (
        #[trigger] profiles[i].tests@[j]) <= 17
}

/// A valid configuration: a supported version and only catalog ordinals.
pub open spec fn spec_config_valid(c: ConfigFile) -> bool {
    spec_version_ok(c.version@) && spec_tests_ok(c.test_profiles@)
}

impl Default for ConfigFile {
    /// Version `1.0`, default application settings, no profiles.
    fn default() -> (r: Self)
        ensures
            r.version@ == "1.0"@,
            r.gateway_profiles@.len() == 0,
            r.test_profiles@.len() == 0,
            r.environments@.len() == 0,
    {
        ConfigFile {
            version: String::from_str("1.0"),
            app: AppConfig::default(),
            gateway_profiles: Vec::new(),
            test_profiles: Vec::new(),
            environments: Vec::new(),
        }
    }
}

impl ConfigFile {
    /// Create a new config file with defaults.
    pub fn new() -> (r: Self)
        ensures
            r.version@ == "1.0"@,
            r.gateway_profiles@.len() == 0,
            r.test_profiles@.len() == 0,
            r.environments@.len() == 0,
    {
        ConfigFile::default()
    }

    /// Validate: `Ok` exactly when the version is supported and every
    /// profile's test numbers are catalog ordinals; the error names what
    /// was found wrong.
    pub fn validate(&self) -> (r: Result<(), ConfigError>)
        ensures
            r is Ok <==> spec_config_valid(*self),
            r matches Err(e) ==> match e {
                ConfigError::UnsupportedVersion(v) => v@ == self.version@ && !spec_version_ok(
                    self.version@,
                ),
                ConfigError::InvalidTestNumber { number, profile } => spec_version_ok(
                    self.version@,
                ) && !(1 <= number <= 17),
            },
    {
        proof {
            reveal_strlit("1.0");
            reveal_strlit("1.1");
        }
        if !(str_eq(self.version.as_str(), "1.0") || str_eq(self.version.as_str(), "1.1")) {
            return Err(ConfigError::UnsupportedVersion(self.version.clone()));
        }
        let mut i: usize = 0;
        while i < self.test_profiles.len()
            invariant
                i <= self.test_profiles@.len(),
                spec_version_ok(self.version@),
                forall|a: int, b: int|
                    0 <= a < i && 0 <= b < self.test_profiles@[a].tests@.len() ==> 1 <= (
                    #[trigger] self.test_profiles@[a].tests@[b]) <= 17,
            decreases self.test_profiles@.len() - i,
        {
            let profile = &self.test_profiles[i];
            let mut j: usize = 0;
            while j < profile.tests.len()
                invariant
                    i < self.test_profiles@.len(),
                    j <= profile.tests@.len(),
                    profile.tests@ == self.test_profiles@[i as int].tests@,
                    profile.name@ == self.test_profiles@[i as int].name@,
                    spec_version_ok(self.version@),
                    forall|b: int|
                        0 <= b < j ==> 1 <= (#[trigger] profile.tests@[b]) <= 17,
                decreases profile.tests@.len() - j,
            {
                let n = profile.tests[j];
                if n < 1 || n > 17 {
                    return Err(
                        ConfigError::InvalidTestNumber {
                            number: n,
                            profile: profile.name.clone(),
                        },
                    );
                }
                j += 1;
            }
            i += 1;
        }
        Ok(())
    }

    /// The generated example configuration: two gateway profiles, three
    /// test profiles, a development and a staging environment.
    pub fn example() -> (r: Self)
        ensures
            r.version@ == "1.0"@,
            r.gateway_profiles@.len() == 2,
            r.test_profiles@.len() == 3,
            r.environments@.len() == 2,
            r.environments@[0].name@ == "development"@,
            r.environments@[1].name@ == "staging"@,
            r.environments@[1].tls_enabled,
    {
        let app = AppConfig {
            default_gateway: String::from_str("nginx"),
            default_rounds: 3,
            timeout_secs: 30,
            parallel: true,
            max_concurrent: 4,
            kubevirt: KubeVirtConfig::default(),
        };
        let mut gateway_profiles: Vec<GatewayProfile> = Vec::new();
        gateway_profiles.push(GatewayProfile::default_for(GatewayImpl::Nginx));
        gateway_profiles.push(GatewayProfile::default_for(GatewayImpl::Envoy));
        let mut test_profiles: Vec<TestProfile> = Vec::new();
        test_profiles.push(TestProfile::smoke());
        test_profiles.push(TestProfile::routing());
        test_profiles.push(TestProfile::all());
        let mut environments: Vec<EnvironmentConfig> = Vec::new();
        let dev = EnvironmentConfig {
            name: String::from_str("development"),
            gateway_ip: String::from_str("127.0.0.1"),
            hostname: String::from_str("dev.example.com"),
            tls_enabled: false,
            extra: Vec::new(),
        };
        let staging = EnvironmentConfig {
            name: String::from_str("staging"),
            gateway_ip: String::from_str("10.0.0.100"),
            hostname: String::from_str("staging.example.com"),
            tls_enabled: true,
            extra: Vec::new(),
        };
        environments.push(dev);
        environments.push(staging);
        ConfigFile {
            version: String::from_str("1.0"),
            app,
            gateway_profiles,
            test_profiles,
            environments,
        }
    }

    /// Get an environment by name: the first one with a matching name.
    pub fn environment(&self, name: &str) -> (r: Option<&EnvironmentConfig>)
        ensures
            match r {
                Some(e) => exists|i: int|
                    0 <= i < self.environments@.len() && (#[trigger] self.environments@[i]).name@
                        == name@ && e == self.environments@[i],
                None => forall|i: int|
                    0 <= i < self.environments@.len() ==> (
                    #[trigger] self.environments@[i]).name@ != name@,
            },
    {
        let mut i: usize = 0;
        while i < self.environments.len()
            invariant
                i <= self.environments@.len(),
                forall|k: int|
                    0 <= k < i ==> (#[trigger] self.environments@[k]).name@ != name@,
            decreases self.environments@.len() - i,
        {
            if str_eq(self.environments[i].name.as_str(), name) {
                return Some(&self.environments[i]);
            }
            i += 1;
        }
        None
    }

    /// Get a gateway profile by name: the first one with a matching name.
    pub fn gateway_profile(&self, name: &str) -> (r: Option<&GatewayProfile>)
        ensures
            match r {
                Some(p) => exists|i: int|
                    0 <= i < self.gateway_profiles@.len() && (
                    #[trigger] self.gateway_profiles@[i]).name@ == name@ && p
                        == self.gateway_profiles@[i],
                None => forall|i: int|
                    0 <= i < self.gateway_profiles@.len() ==> (
                    #[trigger] self.gateway_profiles@[i]).name@ != name@,
            },
    {
        let mut i: usize = 0;
        while i < self.gateway_profiles.len()
            invariant
                i <= self.gateway_profiles@.len(),
                forall|k: int|
                    0 <= k < i ==> (#[trigger] self.gateway_profiles@[k]).name@ != name@,
            decreases self.gateway_profiles@.len() - i,
        {
            if str_eq(self.gateway_profiles[i].name.as_str(), name) {
                return Some(&self.gateway_profiles[i]);
            }
            i += 1;
        }
        None
    }

    /// Get a test profile by name: the first one with a matching name.
    pub fn test_profile(&self, name: &str) -> (r: Option<&TestProfile>)
        ensures
            match r {
                Some(p) => exists|i: int|
                    0 <= i < self.test_profiles@.len() && (
                    #[trigger] self.test_profiles@[i]).name@ == name@ && p
                        == self.test_profiles@[i],
                None => forall|i: int|
                    0 <= i < self.test_profiles@.len() ==> (
                    #[trigger] self.test_profiles@[i]).name@ != name@,
            },
    {
        let mut i: usize = 0;
        while i < self.test_profiles.len()
            invariant
                i <= self.test_profiles@.len(),
                forall|k: int|
                    0 <= k < i ==> (#[trigger] self.test_profiles@[k]).name@ != name@,
            decreases self.test_profiles@.len() - i,
        {
            if str_eq(self.test_profiles[i].name.as_str(), name) {
                return Some(&self.test_profiles[i]);
            }
            i += 1;
        }
        None
    }

    /// Merge another configuration in; the other takes precedence where it
    /// differs from the defaults, and its profiles and environments are
    /// appended when their names are new.  Existing entries keep their
    /// place.
    pub fn merge(&mut self, other: ConfigFile)
        ensures
            final(self).version == old(self).version,
            final(self).app.default_gateway@ == if other.app.default_gateway@ != "nginx"@ {
                other.app.default_gateway@
            } else {
                old(self).app.default_gateway@
            },
            final(self).app.default_rounds == if other.app.default_rounds != 1 {
                other.app.default_rounds
            } else {
                old(self).app.default_rounds
            },
            final(self).app.timeout_secs == if other.app.timeout_secs != 30 {
                other.app.timeout_secs
            } else {
                old(self).app.timeout_secs
            },
            final(self).app.parallel == (old(self).app.parallel || other.app.parallel),
            final(self).app.max_concurrent == if other.app.max_concurrent != 4 {
                other.app.max_concurrent
            } else {
                old(self).app.max_concurrent
            },
            forall|i: int|
                0 <= i < old(self).gateway_profiles@.len() ==> (
                #[trigger] final(self).gateway_profiles@[i]) == old(self).gateway_profiles@[i],
            forall|i: int|
                0 <= i < old(self).test_profiles@.len() ==> (
                #[trigger] final(self).test_profiles@[i]) == old(self).test_profiles@[i],
            forall|i: int|
                0 <= i < old(self).environments@.len() ==> (
                #[trigger] final(self).environments@[i]) == old(self).environments@[i],
    {
        proof {
            reveal_strlit("nginx");
        }
        if !str_eq(other.app.default_gateway.as_str(), "nginx") {
            self.app.default_gateway = other.app.default_gateway;
        }
        if other.app.default_rounds != 1 {
            self.app.default_rounds = other.app.default_rounds;
        }
        if other.app.timeout_secs != 30 {
            self.app.timeout_secs = other.app.timeout_secs;
        }
        if other.app.parallel {
            self.app.parallel = true;
        }
        if other.app.max_concurrent != 4 {
            self.app.max_concurrent = other.app.max_concurrent;
        }
        let mut rest = other.gateway_profiles;
        while rest.len() > 0
            invariant
                forall|i: int|
                    0 <= i < old(self).gateway_profiles@.len() ==> (
                    #[trigger] self.gateway_profiles@[i]) == old(self).gateway_profiles@[i],
                self.gateway_profiles@.len() >= old(self).gateway_profiles@.len(),
                self.test_profiles == old(self).test_profiles,
                self.environments == old(self).environments,
                self.version == old(self).version,
                self.app.default_gateway@ == if other.app.default_gateway@ != "nginx"@ {
                    other.app.default_gateway@
                } else {
                    old(self).app.default_gateway@
                },
                self.app.default_rounds == if other.app.default_rounds != 1 {
                    other.app.default_rounds
                } else {
                    old(self).app.default_rounds
                },
                self.app.timeout_secs == if other.app.timeout_secs != 30 {
                    other.app.timeout_secs
                } else {
                    old(self).app.timeout_secs
                },
                self.app.parallel == (old(self).app.parallel || other.app.parallel),
                self.app.max_concurrent == if other.app.max_concurrent != 4 {
                    other.app.max_concurrent
                } else {
                    old(self).app.max_concurrent
                },
            decreases rest@.len(),
        {
            let p = rest.remove(0);
            let present = self.gateway_profile(p.name.as_str()).is_some();
            if !present {
                self.gateway_profiles.push(p);
            }
        }
        let mut trest = other.test_profiles;
        while trest.len() > 0
            invariant
                forall|i: int|
                    0 <= i < old(self).gateway_profiles@.len() ==> (
                    #[trigger] self.gateway_profiles@[i]) == old(self).gateway_profiles@[i],
                forall|i: int|
                    0 <= i < old(self).test_profiles@.len() ==> (
                    #[trigger] self.test_profiles@[i]) == old(self).test_profiles@[i],
                self.test_profiles@.len() >= old(self).test_profiles@.len(),
                self.environments == old(self).environments,
                self.version == old(self).version,
                self.app.default_gateway@ == if other.app.default_gateway@ != "nginx"@ {
                    other.app.default_gateway@
                } else {
                    old(self).app.default_gateway@
                },
                self.app.default_rounds == if other.app.default_rounds != 1 {
                    other.app.default_rounds
                } else {
                    old(self).app.default_rounds
                },
                self.app.timeout_secs == if other.app.timeout_secs != 30 {
                    other.app.timeout_secs
                } else {
                    old(self).app.timeout_secs
                },
                self.app.parallel == (old(self).app.parallel || other.app.parallel),
                self.app.max_concurrent == if other.app.max_concurrent != 4 {
                    other.app.max_concurrent
                } else {
                    old(self).app.max_concurrent
                },
            decreases trest@.len(),
        {
            let p = trest.remove(0);
            let present = self.test_profile(p.name.as_str()).is_some();
            if !present {
                self.test_profiles.push(p);
            }
        }
        let mut erest = other.environments;
        while erest.len() > 0
            invariant
                forall|i: int|
                    0 <= i < old(self).gateway_profiles@.len() ==> (
                    #[trigger] self.gateway_profiles@[i]) == old(self).gateway_profiles@[i],
                forall|i: int|
                    0 <= i < old(self).test_profiles@.len() ==> (
                    #[trigger] self.test_profiles@[i]) == old(self).test_profiles@[i],
                forall|i: int|
                    0 <= i < old(self).environments@.len() ==> (
                    #[trigger] self.environments@[i]) == old(self).environments@[i],
                self.environments@.len() >= old(self).environments@.len(),
                self.version == old(self).version,
                self.app.default_gateway@ == if other.app.default_gateway@ != "nginx"@ {
                    other.app.default_gateway@
                } else {
                    old(self).app.default_gateway@
                },
                self.app.default_rounds == if other.app.default_rounds != 1 {
                    other.app.default_rounds
                } else {
                    old(self).app.default_rounds
                },
                self.app.timeout_secs == if other.app.timeout_secs != 30 {
                    other.app.timeout_secs
                } else {
                    old(self).app.timeout_secs
                },
                self.app.parallel == (old(self).app.parallel || other.app.parallel),
                self.app.max_concurrent == if other.app.max_concurrent != 4 {
                    other.app.max_concurrent
                } else {
                    old(self).app.max_concurrent
                },
            decreases erest@.len(),
        {
            let e = erest.remove(0);
            let present = self.environment(e.name.as_str()).is_some();
            if !present {
                self.environments.push(e);
            }
        }
    }
}

} // verus!
