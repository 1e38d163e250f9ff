//! Application and KubeVirt settings.  Reading and writing them from disk
//! is the surrounding tooling's job; the models and their defaults live
//! here.

use vstd::prelude::*;

verus! {

/// Application configuration.
#[derive(Clone, Debug)]
pub struct AppConfig {
    /// Default gateway implementation
    pub default_gateway: String,
    /// Default number of test rounds
    pub default_rounds: u32,
    /// HTTP timeout in seconds
    pub timeout_secs: u64,
    /// Enable parallel execution by default
    pub parallel: bool,
    /// Maximum concurrent tests
    pub max_concurrent: usize,
    /// KubeVirt configuration
    pub kubevirt: KubeVirtConfig,
}

impl Default for AppConfig {
    /// NGINX by default, one round, 30 second timeout, sequential with a
    /// pool of four.
    fn default() -> (r: Self)
        ensures
            r.default_gateway@ == "nginx"@,
            r.default_rounds == 1,
            r.timeout_secs == 30,
            r.parallel == false,
            r.max_concurrent == 4,
            r.kubevirt.wf_default(),
    {
        AppConfig {
            default_gateway: String::from_str("nginx"),
            default_rounds: 1,
            timeout_secs: 30,
            parallel: false,
            max_concurrent: 4,
            kubevirt: KubeVirtConfig::default(),
        }
    }
}

/// KubeVirt VM configuration.
#[derive(Clone, Debug)]
pub struct KubeVirtConfig {
    /// Namespace for VMs
    pub namespace: String,
    /// Default VM CPU cores
    pub default_cpu: u32,
    /// Default VM memory in GB
    pub default_memory: u32,
    /// Default VM disk size in GB
    pub default_disk: u32,
    /// VM image URL
    pub image_url: String,
    /// SSH key path
    pub ssh_key_path: Option<String>,
}

impl KubeVirtConfig {
    /// The default field values.
    pub open spec fn wf_default(&self) -> bool {
        &&& self.namespace@ == "kubevirt-vms"@
        &&& self.default_cpu == 4
        &&& self.default_memory == 8
        &&& self.default_disk == 50
        &&& self.image_url@ == "docker.io/kubevirt/fedora-cloud-container-disk-demo:latest"@
        &&& self.ssh_key_path is None
    }
}

impl Default for KubeVirtConfig {
    /// Four cores, eight gigabytes of memory, a fifty gigabyte disk and the
    /// Fedora cloud image.
    fn default() -> (r: Self)
        ensures
            r.wf_default(),
    {
        KubeVirtConfig {
            namespace: String::from_str("kubevirt-vms"),
            default_cpu: 4,
            default_memory: 8,
            default_disk: 50,
            image_url: String::from_str(
                "docker.io/kubevirt/fedora-cloud-container-disk-demo:latest",
            ),
            ssh_key_path: None,
        }
    }
}

} // verus!
