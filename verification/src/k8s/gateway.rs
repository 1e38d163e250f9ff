//! Gateway custom resource data model.  Cluster operations on it run
//! outside the verified core.

use vstd::prelude::*;

verus! {

/// Gateway specification.
#[derive(Clone, Debug, Default)]
pub struct GatewaySpec {
    /// GatewayClass name
    pub gateway_class_name: String,
    /// Listeners for the gateway
    pub listeners: Vec<ListenerSpec>,
    /// Addresses for the gateway
    pub addresses: Vec<AddressSpec>,
}

/// Gateway listener specification.
#[derive(Clone, Debug, Default)]
pub struct ListenerSpec {
    /// Listener name
    pub name: String,
    /// Port number
    pub port: u16,
    /// Protocol (HTTP, HTTPS, TLS, TCP, UDP)
    pub protocol: String,
    /// Hostname for this listener
    pub hostname: Option<String>,
    /// TLS configuration
    pub tls: Option<TlsConfig>,
    /// Allowed routes
    pub allowed_routes: Option<AllowedRoutes>,
}

/// TLS configuration for a listener.
#[derive(Clone, Debug, Default)]
pub struct TlsConfig {
    /// TLS mode (Terminate, Passthrough)
    pub mode: Option<String>,
    /// Certificate references
    pub certificate_refs: Vec<CertificateRef>,
}

/// Certificate reference.
#[derive(Clone, Debug, Default)]
pub struct CertificateRef {
    /// Name of the secret
    pub name: String,
    /// Kind (usually Secret)
    pub kind: Option<String>,
    /// Namespace of the secret
    pub namespace: Option<String>,
}

/// Allowed routes configuration.
#[derive(Clone, Debug, Default)]
pub struct AllowedRoutes {
    /// Namespaces from which routes may be attached
    pub namespaces: Option<RouteNamespaces>,
    /// Kinds of routes that may be attached
    pub kinds: Option<Vec<RouteGroupKind>>,
}

/// Route namespace selector.
#[derive(Clone, Debug, Default)]
pub struct RouteNamespaces {
    /// From: All, Same, Selector
    pub from: String,
}

/// Route group kind.
#[derive(Clone, Debug, Default)]
pub struct RouteGroupKind {
    /// API group
    pub group: Option<String>,
    /// Kind name
    pub kind: String,
}

/// Gateway address specification.
#[derive(Clone, Debug, Default)]
pub struct AddressSpec {
    /// Address type (IPAddress, Hostname)
    pub address_type: Option<String>,
    /// Address value
    pub value: String,
}

/// Gateway status.
#[derive(Clone, Debug, Default)]
pub struct GatewayStatus {
    /// Addresses assigned to the gateway
    pub addresses: Vec<AddressSpec>,
    /// Conditions
    pub conditions: Vec<GatewayCondition>,
    /// Listener statuses
    pub listeners: Vec<ListenerStatus>,
}

/// Gateway condition.
#[derive(Clone, Debug, Default)]
pub struct GatewayCondition {
    /// Condition type
    pub condition_type: String,
    /// Status (True, False, Unknown)
    pub status: String,
    /// Reason for the condition
    pub reason: Option<String>,
    /// Human-readable message
    pub message: Option<String>,
}

/// Listener status.
#[derive(Clone, Debug, Default)]
pub struct ListenerStatus {
    /// Listener name
    pub name: String,
    /// Number of attached routes
    pub attached_routes: i32,
    /// Conditions
    pub conditions: Vec<GatewayCondition>,
}

/// Whether a condition list reports the given type as `True`.
pub fn has_true_condition(conditions: &Vec<GatewayCondition>, which: &str) -> (r: bool)
    ensures
        r == exists|i: int|
            0 <= i < conditions@.len() && (#[trigger] conditions@[i]).condition_type@ == which@
                && conditions@[i].status@ == "True"@,
{
    proof {
        reveal_strlit("True");
    }
    let mut i: usize = 0;
    while i < conditions.len()
        invariant
            i <= conditions@.len(),
            forall|k: int|
                0 <= k < i ==> !((#[trigger] conditions@[k]).condition_type@ == which@
                    && conditions@[k].status@ == "True"@),
        decreases conditions@.len() - i,
    {
        if crate::util::str_eq(conditions[i].condition_type.as_str(), which) && crate::util::str_eq(
            conditions[i].status.as_str(),
            "True",
        ) {
            return true;
        }
        i += 1;
    }
    false
}

} // verus!
