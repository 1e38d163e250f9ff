//! Kubernetes resource models: Gateway and HTTPRoute specifications, their
//! builders, and the pod-side curl toolkit.

pub mod gateway;
pub mod httproute;
pub mod pod;
