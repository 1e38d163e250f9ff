//! Gateway installer settings and results.  The Helm and kubectl work runs
//! outside the verified core.

use vstd::prelude::*;

use crate::kvlist::{kv_get, kv_insert, kv_unique};
use crate::models::gateway::GatewayImpl;

verus! {

/// Gateway installer configuration.
#[derive(Clone, Debug)]
pub struct InstallerConfig {
    /// Namespace for gateway installation
    pub namespace: String,
    /// Wait timeout in seconds
    pub timeout_secs: u64,
    /// Helm release name prefix
    pub release_prefix: String,
    /// Additional Helm values
    pub helm_values: Vec<(String, String)>,
}

impl InstallerConfig {
    /// The Helm values hold each key once.
    pub open spec fn wf(&self) -> bool {
        kv_unique(self.helm_values@)
    }

    /// The defaults: `gateway-system`, five minutes, the tool's release
    /// prefix, no extra values.
    pub fn new() -> (r: Self)
        ensures
            r.wf(),
            r.namespace@ == "gateway-system"@,
            r.timeout_secs == 300,
            r.release_prefix@ == "gateway-poc"@,
            r.helm_values@.len() == 0,
    {
        InstallerConfig {
            namespace: String::from_str("gateway-system"),
            timeout_secs: 300,
            release_prefix: String::from_str("gateway-poc"),
            helm_values: Vec::new(),
        }
    }

    /// Set namespace.
    pub fn namespace(self, ns: &str) -> (r: Self)
        ensures
            r.wf() == self.wf(),
            r.namespace@ == ns@,
            r.timeout_secs == self.timeout_secs,
            r.release_prefix == self.release_prefix,
            r.helm_values == self.helm_values,
    {
        InstallerConfig { namespace: String::from_str(ns), ..self }
    }

    /// Set the wait timeout.
    pub fn timeout(self, secs: u64) -> (r: Self)
        ensures
            r.wf() == self.wf(),
            r.timeout_secs == secs,
            r.namespace == self.namespace,
            r.release_prefix == self.release_prefix,
            r.helm_values == self.helm_values,
    {
        InstallerConfig { timeout_secs: secs, ..self }
    }

    /// Add (or replace) a Helm value.
    pub fn helm_value(self, key: &str, value: &str) -> (r: Self)
        requires
            self.wf(),
        ensures
            r.wf(),
            kv_get(r.helm_values@, key@) matches Some(v) && v@ == value@,
            forall|k2: Seq<char>| k2 != key@ ==> kv_get(r.helm_values@, k2) == kv_get(
                self.helm_values@,
                k2,
            ),
            r.namespace == self.namespace,
            r.timeout_secs == self.timeout_secs,
            r.release_prefix == self.release_prefix,
    {
        let mut c = self;
        kv_insert(&mut c.helm_values, key, String::from_str(value));
        c
    }
}

impl Default for InstallerConfig {
    /// Same as `new`.
    fn default() -> (r: Self)
        ensures
            r.wf(),
            r.namespace@ == "gateway-system"@,
            r.timeout_secs == 300,
            r.release_prefix@ == "gateway-poc"@,
            r.helm_values@.len() == 0,
    {
        InstallerConfig::new()
    }
}

/// Installation status.
#[derive(Clone, Debug)]
pub enum InstallStatus {
    Installed,
    NotInstalled,
    Installing,
    Failed(String),
}

impl InstallStatus {
    /// Only `Installed` counts as installed.
    pub fn is_installed(&self) -> (r: bool)
        ensures
            r == (self is Installed),
    {
        matches!(self, InstallStatus::Installed)
    }

    /// The display word of each status.
    pub open spec fn spec_as_str(&self) -> Seq<char> {
        match self {
            InstallStatus::Installed => "Installed"@,
            InstallStatus::NotInstalled => "Not Installed"@,
            InstallStatus::Installing => "Installing"@,
            InstallStatus::Failed(_) => "Failed"@,
        }
    }

    pub fn as_str(&self) -> (r: &'static str)
        ensures
            r@ == self.spec_as_str(),
    {
        match self {
            InstallStatus::Installed => "Installed",
            InstallStatus::NotInstalled => "Not Installed",
            InstallStatus::Installing => "Installing",
            InstallStatus::Failed(_) => "Failed",
        }
    }
}

/// Installation result.
#[derive(Clone, Debug)]
pub struct InstallResult {
    /// Gateway implementation
    pub gateway: GatewayImpl,
    /// Helm release name
    pub release_name: String,
    /// Namespace
    pub namespace: String,
    /// GatewayClass name
    pub gateway_class: String,
    /// Installation status
    pub status: InstallStatus,
}

} // verus!
