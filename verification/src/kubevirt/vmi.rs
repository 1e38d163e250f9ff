//! VirtualMachineInstance data model and phase logic.  Watching instances
//! in the cluster happens outside the verified core.

use vstd::prelude::*;

use crate::util::{spec_lower, str_eq_ignore_ascii_case};

verus! {

/// VMI condition.
#[derive(Clone, Debug, Default)]
pub struct VmiCondition {
    /// Condition type
    pub condition_type: String,
    /// Status (True, False, Unknown)
    pub status: String,
    /// Reason
    pub reason: Option<String>,
    /// Message
    pub message: Option<String>,
}

/// VMI network interface.
#[derive(Clone, Debug, Default)]
pub struct VmiInterface {
    /// Interface name
    pub name: Option<String>,
    /// MAC address
    pub mac: Option<String>,
    /// IP address
    pub ip_address: Option<String>,
    /// IP addresses (multiple)
    pub ip_addresses: Vec<String>,
    /// Interface name inside the guest
    pub interface_name: Option<String>,
    /// Info source
    pub info_source: Option<String>,
}

/// Guest OS information.
#[derive(Clone, Debug, Default)]
pub struct GuestOsInfo {
    /// Guest agent version
    pub version: Option<String>,
    /// OS name
    pub name: Option<String>,
    /// OS ID
    pub id: Option<String>,
    /// Kernel release
    pub kernel_release: Option<String>,
    /// Kernel version
    pub kernel_version: Option<String>,
    /// Machine type
    pub machine: Option<String>,
    /// Pretty name
    pub pretty_name: Option<String>,
    /// Version ID
    pub version_id: Option<String>,
}

/// Migration state.
#[derive(Clone, Debug, Default)]
pub struct MigrationState {
    /// Migration completed
    pub completed: bool,
    /// Migration failed
    pub failed: bool,
    /// Start timestamp
    pub start_timestamp: Option<String>,
    /// End timestamp
    pub end_timestamp: Option<String>,
}

/// VirtualMachineInstance status, as the cluster reports it.
#[derive(Clone, Debug, Default)]
pub struct VirtualMachineInstanceStatus {
    /// Current phase
    pub phase: Option<String>,
    /// Node name where the instance is running
    pub node_name: Option<String>,
    /// Conditions
    pub conditions: Vec<VmiCondition>,
    /// Interfaces with IP addresses
    pub interfaces: Vec<VmiInterface>,
    /// Guest OS info
    pub guest_os_info: Option<GuestOsInfo>,
    /// Active pods by identifier
    pub active_pods: Vec<(String, String)>,
    /// Migration state
    pub migration_state: Option<MigrationState>,
    /// Launcher container image version
    pub launcher_container_image_version: Option<String>,
}

impl VirtualMachineInstanceStatus {
    /// The reported phase, parsed; unreported counts as unknown.
    pub fn parsed_phase(&self) -> (r: VmiPhase)
        ensures
            r == match self.phase {
                Some(p) => VmiPhase::spec_of_str(p@),
                None => VmiPhase::Unknown,
            },
    {
        match &self.phase {
            Some(p) => VmiPhase::from_str(p.as_str()),
            None => VmiPhase::Unknown,
        }
    }

    /// The first interface IP address the status reports, if any.
    pub fn first_ip(&self) -> (r: Option<&String>)
        ensures
            match r {
                Some(ip) => exists|i: int|
                    0 <= i < self.interfaces@.len() && ((#[trigger] self.interfaces@[i]).ip_address
                        matches Some(a) && ip == a),
                None => forall|i: int|
                    0 <= i < self.interfaces@.len() ==> (
                    #[trigger] self.interfaces@[i]).ip_address is None,
            },
    {
        let mut i: usize = 0;
        while i < self.interfaces.len()
            invariant
                i <= self.interfaces@.len(),
                forall|k: int|
                    0 <= k < i ==> (#[trigger] self.interfaces@[k]).ip_address is None,
            decreases self.interfaces@.len() - i,
        {
            match &self.interfaces[i].ip_address {
                Some(ip) => {
                    return Some(ip);
                },
                None => {},
            }
            i += 1;
        }
        None
    }
}

/// VMI phases.
#[derive(Clone, Copy, Debug, PartialEq, Eq, Structural)]
pub enum VmiPhase {
    Pending,
    Scheduling,
    Scheduled,
    Running,
    Succeeded,
    Failed,
    Unknown,
}

impl VmiPhase {
    /// The phase a status string names, after ASCII lower-casing; anything
    /// unrecognized is `Unknown`.
    pub open spec fn spec_of_str(s: Seq<char>) -> VmiPhase {
        let l = spec_lower(s);
        if l == "pending"@ {
            VmiPhase::Pending
        } else if l == "scheduling"@ {
            VmiPhase::Scheduling
        } else if l == "scheduled"@ {
            VmiPhase::Scheduled
        } else if l == "running"@ {
            VmiPhase::Running
        } else if l == "succeeded"@ {
            VmiPhase::Succeeded
        } else if l == "failed"@ {
            VmiPhase::Failed
        } else {
            VmiPhase::Unknown
        }
    }

    /// Parse from string, case-insensitively.
    pub fn from_str(s: &str) -> (r: VmiPhase)
        ensures
            r == VmiPhase::spec_of_str(s@),
    {
        proof {
            reveal_strlit("pending");
            reveal_strlit("scheduling");
            reveal_strlit("scheduled");
            reveal_strlit("running");
            reveal_strlit("succeeded");
            reveal_strlit("failed");
            assert(spec_lower("pending"@) =~= "pending"@);
            assert(spec_lower("scheduling"@) =~= "scheduling"@);
            assert(spec_lower("scheduled"@) =~= "scheduled"@);
            assert(spec_lower("running"@) =~= "running"@);
            assert(spec_lower("succeeded"@) =~= "succeeded"@);
            assert(spec_lower("failed"@) =~= "failed"@);
        }
        if str_eq_ignore_ascii_case(s, "pending") {
            VmiPhase::Pending
        } else if str_eq_ignore_ascii_case(s, "scheduling") {
            VmiPhase::Scheduling
        } else if str_eq_ignore_ascii_case(s, "scheduled") {
            VmiPhase::Scheduled
        } else if str_eq_ignore_ascii_case(s, "running") {
            VmiPhase::Running
        } else if str_eq_ignore_ascii_case(s, "succeeded") {
            VmiPhase::Succeeded
        } else if str_eq_ignore_ascii_case(s, "failed") {
            VmiPhase::Failed
        } else {
            VmiPhase::Unknown
        }
    }

    /// Only `Running` counts as running.
    pub fn is_running(&self) -> (r: bool)
        ensures
            r == (self is Running),
    {
        matches!(self, VmiPhase::Running)
    }

    /// `Succeeded` and `Failed` are the terminal phases.
    pub fn is_terminal(&self) -> (r: bool)
        ensures
            r == (self is Succeeded || self is Failed),
    {
        matches!(self, VmiPhase::Succeeded | VmiPhase::Failed)
    }
}

/// Summary of a VMI's state.
#[derive(Clone, Debug)]
pub struct VmiSummary {
    pub name: String,
    pub namespace: String,
    pub phase: VmiPhase,
    pub node: Option<String>,
    pub ip: Option<String>,
    pub conditions: Vec<VmiCondition>,
}

impl VmiSummary {
    /// Ready means running with a `Ready` condition whose status reads
    /// true (in any case).
    pub fn is_ready(&self) -> (r: bool)
        ensures
            r == (self.phase is Running && exists|i: int|
                0 <= i < self.conditions@.len() && (#[trigger] self.conditions@[i]).condition_type@
                    == "Ready"@ && spec_lower(self.conditions@[i].status@) == spec_lower("true"@)),
    {
        if !self.phase.is_running() {
            return false;
        }
        proof {
            reveal_strlit("Ready");
            reveal_strlit("true");
        }
        let mut i: usize = 0;
        while i < self.conditions.len()
            invariant
                i <= self.conditions@.len(),
                self.phase is Running,
                forall|k: int|
                    0 <= k < i ==> !((#[trigger] self.conditions@[k]).condition_type@ == "Ready"@
                        && spec_lower(self.conditions@[k].status@) == spec_lower("true"@)),
            decreases self.conditions@.len() - i,
        {
            if crate::util::str_eq(self.conditions[i].condition_type.as_str(), "Ready")
                && str_eq_ignore_ascii_case(self.conditions[i].status.as_str(), "true") {
                proof {
                    assert(exists|j: int|
                        0 <= j < self.conditions@.len() && (
                        #[trigger] self.conditions@[j]).condition_type@ == "Ready"@ && spec_lower(
                            self.conditions@[j].status@,
                        ) == spec_lower("true"@)) by {
                        assert(0 <= (i as int) && (i as int) < self.conditions@.len() && (
                        self.conditions@[i as int]).condition_type@ == "Ready"@ && spec_lower(
                            self.conditions@[i as int].status@,
                        ) == spec_lower("true"@));
                    }
                }
                return true;
            }
            i += 1;
        }
        false
    }
}

} // verus!
