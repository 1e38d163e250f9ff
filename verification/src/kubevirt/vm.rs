//! VirtualMachine data model and the configuration builder that assembles
//! a complete VM object.  Cluster operations run outside the verified
//! core.

use vstd::prelude::*;

use crate::kvlist::{kv_get, kv_insert, kv_unique};

verus! {

/// CPU specification.
#[derive(Clone, Debug, Default)]
pub struct CpuSpec {
    pub cores: Option<u32>,
    pub sockets: Option<u32>,
    pub threads: Option<u32>,
    pub model: Option<String>,
    pub dedicated_cpu_placement: Option<bool>,
}

/// Hugepages specification.
#[derive(Clone, Debug, Default)]
pub struct HugepagesSpec {
    pub page_size: Option<String>,
}

/// Memory specification.
#[derive(Clone, Debug, Default)]
pub struct MemorySpec {
    pub guest: Option<String>,
    pub hugepages: Option<HugepagesSpec>,
}

/// Resources specification.
#[derive(Clone, Debug, Default)]
pub struct ResourcesSpec {
    pub requests: Vec<(String, String)>,
    pub limits: Vec<(String, String)>,
}

/// RNG device.
#[derive(Clone, Debug, Default)]
pub struct RngDevice {}

/// Disk target configuration.
#[derive(Clone, Debug, Default)]
pub struct DiskTarget {
    pub bus: Option<String>,
}

/// CD-ROM target configuration.
#[derive(Clone, Debug, Default)]
pub struct CdromTarget {
    pub bus: Option<String>,
    pub readonly: Option<bool>,
}

/// Disk device.
#[derive(Clone, Debug, Default)]
pub struct Disk {
    pub name: String,
    pub disk: Option<DiskTarget>,
    pub cdrom: Option<CdromTarget>,
    pub boot_order: Option<u32>,
}

/// Masquerade network mode.
#[derive(Clone, Debug, Default)]
pub struct MasqueradeMode {}

/// Bridge network mode.
#[derive(Clone, Debug, Default)]
pub struct BridgeMode {}

/// SR-IOV network mode.
#[derive(Clone, Debug, Default)]
pub struct SriovMode {}

/// Network interface.
#[derive(Clone, Debug, Default)]
pub struct Interface {
    pub name: String,
    pub masquerade: Option<MasqueradeMode>,
    pub bridge: Option<BridgeMode>,
    pub sriov: Option<SriovMode>,
    pub mac_address: Option<String>,
    pub model: Option<String>,
}

/// Devices specification.
#[derive(Clone, Debug, Default)]
pub struct DevicesSpec {
    pub disks: Vec<Disk>,
    pub interfaces: Vec<Interface>,
    pub auto_attach_graphics_device: Option<bool>,
    pub auto_attach_mem_balloon: Option<bool>,
    pub rng: Option<RngDevice>,
}

/// Machine type specification.
#[derive(Clone, Debug, Default)]
pub struct MachineSpec {
    pub machine_type: Option<String>,
}

/// Domain specification.
#[derive(Clone, Debug, Default)]
pub struct DomainSpec {
    pub cpu: Option<CpuSpec>,
    pub memory: Option<MemorySpec>,
    pub resources: Option<ResourcesSpec>,
    pub devices: DevicesSpec,
    pub machine: Option<MachineSpec>,
}

/// Pod network configuration.
#[derive(Clone, Debug, Default)]
pub struct PodNetwork {
    pub vm_network_cidr: Option<String>,
}

/// Multus network configuration.
#[derive(Clone, Debug, Default)]
pub struct MultusNetwork {
    pub network_name: String,
}

/// Network configuration.
#[derive(Clone, Debug, Default)]
pub struct Network {
    pub name: String,
    pub pod: Option<PodNetwork>,
    pub multus: Option<MultusNetwork>,
}

/// Container disk source.
#[derive(Clone, Debug, Default)]
pub struct ContainerDiskSource {
    pub image: String,
    pub image_pull_policy: Option<String>,
}

/// Secret reference.
#[derive(Clone, Debug, Default)]
pub struct SecretRef {
    pub name: String,
}

/// Cloud-init config drive.
#[derive(Clone, Debug, Default)]
pub struct CloudInitConfigDrive {
    pub user_data: Option<String>,
    pub network_data: Option<String>,
    pub secret_ref: Option<SecretRef>,
}

/// Cloud-init no-cloud source.
#[derive(Clone, Debug, Default)]
pub struct CloudInitNoCloud {
    pub user_data: Option<String>,
    pub network_data: Option<String>,
    pub secret_ref: Option<SecretRef>,
}

/// PVC source.
#[derive(Clone, Debug, Default)]
pub struct PvcSource {
    pub claim_name: String,
    pub read_only: Option<bool>,
}

/// DataVolume source.
#[derive(Clone, Debug, Default)]
pub struct DataVolumeSource {
    pub name: String,
}

/// Empty disk source.
#[derive(Clone, Debug, Default)]
pub struct EmptyDiskSource {
    pub capacity: String,
}

/// Volume configuration.
#[derive(Clone, Debug, Default)]
pub struct Volume {
    pub name: String,
    pub container_disk: Option<ContainerDiskSource>,
    pub cloud_init_config_drive: Option<CloudInitConfigDrive>,
    pub cloud_init_no_cloud: Option<CloudInitNoCloud>,
    pub persistent_volume_claim: Option<PvcSource>,
    pub data_volume: Option<DataVolumeSource>,
    pub empty_disk: Option<EmptyDiskSource>,
}

/// VMI template metadata.
#[derive(Clone, Debug, Default)]
pub struct VmiTemplateMetadata {
    pub labels: Vec<(String, String)>,
    pub annotations: Vec<(String, String)>,
}

/// VMI template spec.
#[derive(Clone, Debug, Default)]
pub struct VmiTemplateSpec {
    pub domain: DomainSpec,
    pub networks: Vec<Network>,
    pub volumes: Vec<Volume>,
    pub termination_grace_period_seconds: Option<i64>,
}

/// VMI template.
#[derive(Clone, Debug, Default)]
pub struct VmiTemplate {
    pub metadata: Option<VmiTemplateMetadata>,
    pub spec: VmiTemplateSpec,
}

/// VirtualMachine specification.
#[derive(Clone, Debug, Default)]
pub struct VirtualMachineSpec {
    /// Whether the VM should be running
    pub running: bool,
    /// Run strategy
    pub run_strategy: Option<String>,
    /// Template for the VMI
    pub template: VmiTemplate,
}

/// Volume snapshot status.
#[derive(Clone, Debug, Default)]
pub struct VolumeSnapshotStatus {
    pub name: String,
    pub enabled: bool,
}

/// VM condition.
#[derive(Clone, Debug, Default)]
pub struct VmCondition {
    pub condition_type: String,
    pub status: String,
    pub last_transition_time: Option<String>,
    pub reason: Option<String>,
    pub message: Option<String>,
}

/// VirtualMachine status.
#[derive(Clone, Debug, Default)]
pub struct VirtualMachineStatus {
    pub created: bool,
    pub ready: bool,
    pub printable_status: Option<String>,
    pub volume_snapshot_statuses: Vec<VolumeSnapshotStatus>,
    pub conditions: Vec<VmCondition>,
}

/// Object metadata of a VirtualMachine.
#[derive(Clone, Debug, Default)]
pub struct VmMeta {
    pub name: Option<String>,
    pub namespace: Option<String>,
    pub labels: Option<Vec<(String, String)>>,
}

/// A complete VirtualMachine object.
#[derive(Clone, Debug, Default)]
pub struct VirtualMachine {
    pub metadata: VmMeta,
    pub spec: VirtualMachineSpec,
    pub status: Option<VirtualMachineStatus>,
}

/// Network type for a VM.
#[derive(Clone, Debug)]
pub enum NetworkType {
    Masquerade,
    Bridge,
    Multus(String),
}

impl Default for NetworkType {
    /// Masquerade networking.
    fn default() -> (r: Self)
        ensures
            r is Masquerade,
    {
        NetworkType::Masquerade
    }
}

/// VM configuration for easy creation.
#[derive(Clone, Debug)]
pub struct VmConfig {
    pub name: String,
    pub namespace: String,
    pub cpu_cores: u32,
    pub memory: String,
    pub image: String,
    pub ssh_public_key: Option<String>,
    pub labels: Vec<(String, String)>,
    pub network_type: NetworkType,
}

/// The cloud-init user data owed for an authorized SSH key.
pub open spec fn spec_cloud_init(key: Seq<char>) -> Seq<char> {
    "#cloud-config\nuser: fedora\npassword: fedora\nchpasswd:\n  expire: false\nssh_authorized_keys:\n  - "@
        + key + "\n"@
}

impl VmConfig {
    /// The labels hold each key once.
    pub open spec fn wf(&self) -> bool {
        kv_unique(self.labels@)
    }

    /// One core, one gigabyte, the Fedora container disk, masquerade
    /// networking, no SSH key or labels yet.
    pub fn new(name: &str, namespace: &str) -> (r: Self)
        ensures
            r.wf(),
            r.name@ == name@,
            r.namespace@ == namespace@,
            r.cpu_cores == 1,
            r.memory@ == "1Gi"@,
            r.image@ == "quay.io/containerdisks/fedora:latest"@,
            r.ssh_public_key is None,
            r.labels@.len() == 0,
            r.network_type is Masquerade,
    {
        VmConfig {
            name: String::from_str(name),
            namespace: String::from_str(namespace),
            cpu_cores: 1,
            memory: String::from_str("1Gi"),
            image: String::from_str("quay.io/containerdisks/fedora:latest"),
            ssh_public_key: None,
            labels: Vec::new(),
            network_type: NetworkType::Masquerade,
        }
    }

    /// Set CPU cores.
    pub fn cpu(self, cores: u32) -> (r: Self)
        ensures
            r.cpu_cores == cores,
            r.name == self.name,
            r.namespace == self.namespace,
            r.memory == self.memory,
            r.image == self.image,
            r.ssh_public_key == self.ssh_public_key,
            r.labels == self.labels,
            r.network_type == self.network_type,
    {
        VmConfig { cpu_cores: cores, ..self }
    }

    /// Set memory.
    pub fn memory(self, memory: &str) -> (r: Self)
        ensures
            r.memory@ == memory@,
            r.name == self.name,
            r.namespace == self.namespace,
            r.cpu_cores == self.cpu_cores,
            r.image == self.image,
            r.ssh_public_key == self.ssh_public_key,
            r.labels == self.labels,
            r.network_type == self.network_type,
    {
        VmConfig { memory: String::from_str(memory), ..self }
    }

    /// Set container disk image.
    pub fn image(self, image: &str) -> (r: Self)
        ensures
            r.image@ == image@,
            r.name == self.name,
            r.namespace == self.namespace,
            r.cpu_cores == self.cpu_cores,
            r.memory == self.memory,
            r.ssh_public_key == self.ssh_public_key,
            r.labels == self.labels,
            r.network_type == self.network_type,
    {
        VmConfig { image: String::from_str(image), ..self }
    }

    /// Set the SSH public key for cloud-init.
    pub fn ssh_key(self, key: &str) -> (r: Self)
        ensures
            r.ssh_public_key matches Some(k) && k@ == key@,
            r.name == self.name,
            r.namespace == self.namespace,
            r.cpu_cores == self.cpu_cores,
            r.memory == self.memory,
            r.image == self.image,
            r.labels == self.labels,
            r.network_type == self.network_type,
    {
        VmConfig { ssh_public_key: Some(String::from_str(key)), ..self }
    }

    /// Add (or replace) a label.
    pub fn label(self, key: &str, value: &str) -> (r: Self)
        requires
            self.wf(),
        ensures
            r.wf(),
            kv_get(r.labels@, key@) matches Some(v) && v@ == value@,
            r.name == self.name,
            r.namespace == self.namespace,
            r.cpu_cores == self.cpu_cores,
            r.memory == self.memory,
            r.image == self.image,
            r.ssh_public_key == self.ssh_public_key,
            r.network_type == self.network_type,
    {
        let mut c = self;
        kv_insert(&mut c.labels, key, String::from_str(value));
        c
    }

    /// Set the network type.
    pub fn network(self, network_type: NetworkType) -> (r: Self)
        ensures
            r.network_type == network_type,
            r.name == self.name,
            r.namespace == self.namespace,
            r.cpu_cores == self.cpu_cores,
            r.memory == self.memory,
            r.image == self.image,
            r.ssh_public_key == self.ssh_public_key,
            r.labels == self.labels,
    {
        VmConfig { network_type, ..self }
    }

    /// Assemble the VirtualMachine: a running VM whose template carries
    /// the configured CPU and memory, a virtio root disk booted first from
    /// the container image (plus a cloud-init disk and volume when an SSH
    /// key was given), one interface and network matching the network
    /// type, an RNG device and a thirty second grace period.
    pub fn build(self) -> (r: VirtualMachine)
        ensures
            r.metadata.name matches Some(n) && n@ == self.name@,
            r.metadata.namespace matches Some(ns) && ns@ == self.namespace@,
            self.labels@.len() == 0 ==> r.metadata.labels is None,
            self.labels@.len() > 0 ==> (r.metadata.labels matches Some(l) && l@ == self.labels@),
            r.spec.running == true,
            r.spec.run_strategy is None,
            r.spec.template.spec.domain.cpu matches Some(c) && c.cores == Some(self.cpu_cores),
            r.spec.template.spec.domain.memory matches Some(m) && (m.guest matches Some(g) && g@
                == self.memory@),
            r.spec.template.spec.domain.devices.rng is Some,
            r.spec.template.spec.termination_grace_period_seconds == Some(30i64),
            r.spec.template.spec.networks@.len() == 1,
            (self.network_type is Multus) == (r.spec.template.spec.networks@[0].multus is Some),
            !(self.network_type is Multus) == (r.spec.template.spec.networks@[0].pod is Some),
            r.spec.template.spec.domain.devices.interfaces@.len() == 1,
            (self.network_type is Masquerade) == (
            r.spec.template.spec.domain.devices.interfaces@[0].masquerade is Some),
            self.ssh_public_key is None ==> {
                &&& r.spec.template.spec.volumes@.len() == 1
                &&& r.spec.template.spec.domain.devices.disks@.len() == 1
            },
            self.ssh_public_key is Some ==> {
                &&& r.spec.template.spec.volumes@.len() == 2
                &&& r.spec.template.spec.domain.devices.disks@.len() == 2
                &&& r.spec.template.spec.volumes@[1].cloud_init_no_cloud matches Some(ci) && (
                ci.user_data matches Some(ud) && ud@ == spec_cloud_init(
                    self.ssh_public_key->0@,
                ))
            },
            r.spec.template.spec.volumes@[0].name@ == "rootdisk"@,
            r.spec.template.spec.volumes@[0].container_disk matches Some(cd) && cd.image@
                == self.image@,
            r.spec.template.spec.domain.devices.disks@[0].name@ == "rootdisk"@,
            r.spec.template.spec.domain.devices.disks@[0].boot_order == Some(1u32),
            r.status is None,
    {
        let has_ssh_key = self.ssh_public_key.is_some();
        let cloud_init: Option<CloudInitNoCloud> = match &self.ssh_public_key {
            Some(key) => {
                let mut user_data = String::from_str(
                    "#cloud-config\nuser: fedora\npassword: fedora\nchpasswd:\n  expire: false\nssh_authorized_keys:\n  - ",
                );
                user_data.append(key.as_str());
                user_data.append("\n");
                Some(
                    CloudInitNoCloud {
                        user_data: Some(user_data),
                        network_data: None,
                        secret_ref: None,
                    },
                )
            },
            None => None,
        };

        let interface: Interface = match &self.network_type {
            NetworkType::Masquerade => Interface {
                name: String::from_str("default"),
                masquerade: Some(MasqueradeMode {}),
                bridge: None,
                sriov: None,
                mac_address: None,
                model: None,
            },
            NetworkType::Bridge => Interface {
                name: String::from_str("default"),
                masquerade: None,
                bridge: Some(BridgeMode {}),
                sriov: None,
                mac_address: None,
                model: None,
            },
            NetworkType::Multus(_) => Interface {
                name: String::from_str("default"),
                masquerade: None,
                bridge: Some(BridgeMode {}),
                sriov: None,
                mac_address: None,
                model: None,
            },
        };

        let network: Network = match &self.network_type {
            NetworkType::Masquerade => Network {
                name: String::from_str("default"),
                pod: Some(PodNetwork { vm_network_cidr: None }),
                multus: None,
            },
            NetworkType::Bridge => Network {
                name: String::from_str("default"),
                pod: Some(PodNetwork { vm_network_cidr: None }),
                multus: None,
            },
            NetworkType::Multus(net_name) => Network {
                name: String::from_str("default"),
                pod: None,
                multus: Some(MultusNetwork { network_name: net_name.clone() }),
            },
        };

        let mut volumes: Vec<Volume> = Vec::new();
        volumes.push(
            Volume {
                name: String::from_str("rootdisk"),
                container_disk: Some(
                    ContainerDiskSource {
                        image: self.image,
                        image_pull_policy: Some(String::from_str("IfNotPresent")),
                    },
                ),
                cloud_init_config_drive: None,
                cloud_init_no_cloud: None,
                persistent_volume_claim: None,
                data_volume: None,
                empty_disk: None,
            },
        );
        match cloud_init {
            Some(ci) => {
                volumes.push(
                    Volume {
                        name: String::from_str("cloudinit"),
                        container_disk: None,
                        cloud_init_config_drive: None,
                        cloud_init_no_cloud: Some(ci),
                        persistent_volume_claim: None,
                        data_volume: None,
                        empty_disk: None,
                    },
                );
            },
            None => {},
        }

        let mut disks: Vec<Disk> = Vec::new();
        disks.push(
            Disk {
                name: String::from_str("rootdisk"),
                disk: Some(DiskTarget { bus: Some(String::from_str("virtio")) }),
                cdrom: None,
                boot_order: Some(1),
            },
        );
        if has_ssh_key {
            disks.push(
                Disk {
                    name: String::from_str("cloudinit"),
                    disk: Some(DiskTarget { bus: Some(String::from_str("virtio")) }),
                    cdrom: None,
                    boot_order: None,
                },
            );
        }

        let labels: Option<Vec<(String, String)>> = if self.labels.len() == 0 {
            None
        } else {
            Some(self.labels)
        };

        VirtualMachine {
            metadata: VmMeta {
                name: Some(self.name),
                namespace: Some(self.namespace),
                labels,
            },
            spec: VirtualMachineSpec {
                running: true,
                run_strategy: None,
                template: VmiTemplate {
                    metadata: Some(VmiTemplateMetadata { labels: Vec::new(), annotations: Vec::new() }),
                    spec: VmiTemplateSpec {
                        domain: DomainSpec {
                            cpu: Some(
                                CpuSpec {
                                    cores: Some(self.cpu_cores),
                                    sockets: None,
                                    threads: None,
                                    model: None,
                                    dedicated_cpu_placement: None,
                                },
                            ),
                            memory: Some(MemorySpec { guest: Some(self.memory), hugepages: None }),
                            resources: None,
                            devices: DevicesSpec {
                                disks,
                                interfaces: {
                                    let mut ifs: Vec<Interface> = Vec::new();
                                    ifs.push(interface);
                                    ifs
                                },
                                auto_attach_graphics_device: None,
                                auto_attach_mem_balloon: None,
                                rng: Some(RngDevice {}),
                            },
                            machine: None,
                        },
                        networks: {
                            let mut nets: Vec<Network> = Vec::new();
                            nets.push(network);
                            nets
                        },
                        volumes,
                        termination_grace_period_seconds: Some(30),
                    },
                },
            },
            status: None,
        }
    }
}

} // verus!
