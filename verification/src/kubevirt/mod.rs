//! KubeVirt support: SSH command assembly and output parsing, the
//! VirtualMachine data model and builder, and VMI phase logic.

pub mod ssh;
pub mod vm;
pub mod vmi;
