//! Environment-variable overrides, as plain values.  Reading the process
//! environment happens outside the verified core; what can be decided from
//! the values alone is decided here.

use vstd::prelude::*;

use crate::util::{spec_lower, str_eq_ignore_ascii_case, u64_to_dec_string, spec_dec};

verus! {

/// Environment configuration, one optional override per variable.
#[derive(Clone, Debug)]
pub struct EnvConfig {
    /// Gateway IP override
    pub gateway_ip: Option<String>,
    /// Gateway implementation override
    pub gateway: Option<String>,
    /// Hostname override
    pub hostname: Option<String>,
    /// Port override
    pub port: Option<u16>,
    /// Timeout override, in seconds
    pub timeout: Option<u64>,
    /// Rounds override
    pub rounds: Option<u32>,
    /// Parallel-execution override
    pub parallel: Option<bool>,
    /// Configuration file override
    pub config_file: Option<String>,
    /// Environment name override
    pub environment: Option<String>,
    /// Verbosity override
    pub verbose: Option<bool>,
    /// Output format override
    pub format: Option<String>,
    /// Kubernetes namespace override
    pub namespace: Option<String>,
    /// Kubeconfig path
    pub kubeconfig: Option<String>,
}

impl Default for EnvConfig {
    /// Nothing overridden.
    fn default() -> (r: Self)
        ensures
            !r.spec_has_any(),
            r.kubeconfig is None,
    {
        EnvConfig {
            gateway_ip: None,
            gateway: None,
            hostname: None,
            port: None,
            timeout: None,
            rounds: None,
            parallel: None,
            config_file: None,
            environment: None,
            verbose: None,
            format: None,
            namespace: None,
            kubeconfig: None,
        }
    }
}

impl EnvConfig {
    /// Whether any override (other than the kubeconfig path) is set.
    pub open spec fn spec_has_any(&self) -> bool {
        self.gateway_ip is Some || self.gateway is Some || self.hostname is Some
            || self.port is Some || self.timeout is Some || self.rounds is Some
            || self.parallel is Some || self.config_file is Some || self.environment is Some
            || self.verbose is Some || self.format is Some || self.namespace is Some
    }

    /// Check if any environment variables are set.
    pub fn has_any(&self) -> (r: bool)
        ensures
            r == self.spec_has_any(),
    {
        self.gateway_ip.is_some() || self.gateway.is_some() || self.hostname.is_some()
            || self.port.is_some() || self.timeout.is_some() || self.rounds.is_some()
            || self.parallel.is_some() || self.config_file.is_some()
            || self.environment.is_some() || self.verbose.is_some() || self.format.is_some()
            || self.namespace.is_some()
    }

    /// Get gateway IP with fallback.
    pub fn gateway_ip_or(&self, default: &str) -> (r: String)
        ensures
            r@ == match self.gateway_ip {
                Some(v) => v@,
                None => default@,
            },
    {
        match &self.gateway_ip {
            Some(v) => v.clone(),
            None => default.to_owned(),
        }
    }

    /// Get gateway with fallback.
    pub fn gateway_or(&self, default: &str) -> (r: String)
        ensures
            r@ == match self.gateway {
                Some(v) => v@,
                None => default@,
            },
    {
        match &self.gateway {
            Some(v) => v.clone(),
            None => default.to_owned(),
        }
    }

    /// Get hostname with fallback.
    pub fn hostname_or(&self, default: &str) -> (r: String)
        ensures
            r@ == match self.hostname {
                Some(v) => v@,
                None => default@,
            },
    {
        match &self.hostname {
            Some(v) => v.clone(),
            None => default.to_owned(),
        }
    }

    /// Get timeout with fallback.
    pub fn timeout_or(&self, default: u64) -> (r: u64)
        ensures
            r == match self.timeout {
                Some(v) => v,
                None => default,
            },
    {
        match self.timeout {
            Some(v) => v,
            None => default,
        }
    }

    /// Get rounds with fallback.
    pub fn rounds_or(&self, default: u32) -> (r: u32)
        ensures
            r == match self.rounds {
                Some(v) => v,
                None => default,
            },
    {
        match self.rounds {
            Some(v) => v,
            None => default,
        }
    }
}

/// The truthy spellings of an environment flag, compared without regard to
/// ASCII case.
pub open spec fn spec_env_truthy(s: Seq<char>) -> bool {
    let l = spec_lower(s);
    l == "1"@ || l == "true"@ || l == "yes"@ || l == "on"@ || l == "enabled"@
}

/// Whether an environment value turns a flag on: `1`, `true`, `yes`, `on`
/// or `enabled` in any case.
pub fn parse_env_flag(v: &str) -> (r: bool)
    ensures
        r == spec_env_truthy(v@),
{
    proof {
        reveal_strlit("1");
        reveal_strlit("true");
        reveal_strlit("yes");
        reveal_strlit("on");
        reveal_strlit("enabled");
        assert(spec_lower("1"@) =~= "1"@);
        assert(spec_lower("true"@) =~= "true"@);
        assert(spec_lower("yes"@) =~= "yes"@);
        assert(spec_lower("on"@) =~= "on"@);
        assert(spec_lower("enabled"@) =~= "enabled"@);
    }
    str_eq_ignore_ascii_case(v, "1") || str_eq_ignore_ascii_case(v, "true")
        || str_eq_ignore_ascii_case(v, "yes") || str_eq_ignore_ascii_case(v, "on")
        || str_eq_ignore_ascii_case(v, "enabled")
}

/// Builder collecting environment variable assignments as plain pairs; the
/// surrounding tooling applies them to the process environment.
#[derive(Clone, Debug)]
pub struct EnvBuilder {
    pub vars: Vec<(String, String)>,
}

impl EnvBuilder {
    /// Create a new environment builder.
    pub fn new() -> (r: Self)
        ensures
            r.vars@.len() == 0,
    {
        EnvBuilder { vars: Vec::new() }
    }

    /// Set gateway IP.
    pub fn gateway_ip(self, ip: &str) -> (r: Self)
        ensures
            r.vars@.len() == self.vars@.len() + 1,
            r.vars@.last().0@ == "GATEWAY_POC_IP"@,
            r.vars@.last().1@ == ip@,
            forall|i: int| 0 <= i < self.vars@.len() ==> r.vars@[i] == self.vars@[i],
    {
        let mut b = self;
        b.vars.push((String::from_str("GATEWAY_POC_IP"), String::from_str(ip)));
        b
    }

    /// Set gateway.
    pub fn gateway(self, gateway: &str) -> (r: Self)
        ensures
            r.vars@.len() == self.vars@.len() + 1,
            r.vars@.last().0@ == "GATEWAY_POC_GATEWAY"@,
            r.vars@.last().1@ == gateway@,
            forall|i: int| 0 <= i < self.vars@.len() ==> r.vars@[i] == self.vars@[i],
    {
        let mut b = self;
        b.vars.push((String::from_str("GATEWAY_POC_GATEWAY"), String::from_str(gateway)));
        b
    }

    /// Set hostname.
    pub fn hostname(self, hostname: &str) -> (r: Self)
        ensures
            r.vars@.len() == self.vars@.len() + 1,
            r.vars@.last().0@ == "GATEWAY_POC_HOSTNAME"@,
            r.vars@.last().1@ == hostname@,
            forall|i: int| 0 <= i < self.vars@.len() ==> r.vars@[i] == self.vars@[i],
    {
        let mut b = self;
        b.vars.push((String::from_str("GATEWAY_POC_HOSTNAME"), String::from_str(hostname)));
        b
    }

    /// Set port.
    pub fn port(self, port: u16) -> (r: Self)
        ensures
            r.vars@.len() == self.vars@.len() + 1,
            r.vars@.last().0@ == "GATEWAY_POC_PORT"@,
            r.vars@.last().1@ == spec_dec(port as int),
            forall|i: int| 0 <= i < self.vars@.len() ==> r.vars@[i] == self.vars@[i],
    {
        let mut b = self;
        b.vars.push((String::from_str("GATEWAY_POC_PORT"), u64_to_dec_string(port as u64)));
        b
    }

    /// Set timeout.
    pub fn timeout(self, timeout: u64) -> (r: Self)
        ensures
            r.vars@.len() == self.vars@.len() + 1,
            r.vars@.last().0@ == "GATEWAY_POC_TIMEOUT"@,
            r.vars@.last().1@ == spec_dec(timeout as int),
            forall|i: int| 0 <= i < self.vars@.len() ==> r.vars@[i] == self.vars@[i],
    {
        let mut b = self;
        b.vars.push((String::from_str("GATEWAY_POC_TIMEOUT"), u64_to_dec_string(timeout)));
        b
    }

    /// Set rounds.
    pub fn rounds(self, rounds: u32) -> (r: Self)
        ensures
            r.vars@.len() == self.vars@.len() + 1,
            r.vars@.last().0@ == "GATEWAY_POC_ROUNDS"@,
            r.vars@.last().1@ == spec_dec(rounds as int),
            forall|i: int| 0 <= i < self.vars@.len() ==> r.vars@[i] == self.vars@[i],
    {
        let mut b = self;
        b.vars.push((String::from_str("GATEWAY_POC_ROUNDS"), u64_to_dec_string(rounds as u64)));
        b
    }

    /// Set parallel.
    pub fn parallel(self, parallel: bool) -> (r: Self)
        ensures
            r.vars@.len() == self.vars@.len() + 1,
            r.vars@.last().0@ == "GATEWAY_POC_PARALLEL"@,
            r.vars@.last().1@ == if parallel {
                "true"@
            } else {
                "false"@
            },
            forall|i: int| 0 <= i < self.vars@.len() ==> r.vars@[i] == self.vars@[i],
    {
        let mut b = self;
        let v = if parallel {
            String::from_str("true")
        } else {
            String::from_str("false")
        };
        b.vars.push((String::from_str("GATEWAY_POC_PARALLEL"), v));
        b
    }

    /// Set environment name.
    pub fn environment(self, env: &str) -> (r: Self)
        ensures
            r.vars@.len() == self.vars@.len() + 1,
            r.vars@.last().0@ == "GATEWAY_POC_ENV"@,
            r.vars@.last().1@ == env@,
            forall|i: int| 0 <= i < self.vars@.len() ==> r.vars@[i] == self.vars@[i],
    {
        let mut b = self;
        b.vars.push((String::from_str("GATEWAY_POC_ENV"), String::from_str(env)));
        b
    }
}

impl Default for EnvBuilder {
    /// An empty builder.
    fn default() -> (r: Self)
        ensures
            r.vars@.len() == 0,
    {
        EnvBuilder::new()
    }
}

} // verus!
