//! Gateway implementation models: the seven Gateway API implementations
//! being exercised and their per-run configuration.

use vstd::prelude::*;

use crate::util::{spec_lower, str_eq_ignore_ascii_case};

verus! {

/// Supported Gateway implementations.
#[derive(Clone, Copy, Debug, PartialEq, Eq, Hash, Structural)]
pub enum GatewayImpl {
    Nginx,
    Envoy,
    Istio,
    Cilium,
    Kong,
    Traefik,
    Kgateway,
}

impl GatewayImpl {
    /// The display name of each implementation.
    pub open spec fn spec_name(self) -> Seq<char> {
        match self {
            GatewayImpl::Nginx => "NGINX Gateway Fabric"@,
            GatewayImpl::Envoy => "Envoy Gateway"@,
            GatewayImpl::Istio => "Istio Gateway"@,
            GatewayImpl::Cilium => "Cilium Gateway"@,
            GatewayImpl::Kong => "Kong Gateway"@,
            GatewayImpl::Traefik => "Traefik Gateway"@,
            GatewayImpl::Kgateway => "kgateway"@,
        }
    }

    /// Get gateway display name.
    pub fn name(&self) -> (r: &'static str)
        ensures
            r@ == self.spec_name(),
    {
        match self {
            GatewayImpl::Nginx => "NGINX Gateway Fabric",
            GatewayImpl::Envoy => "Envoy Gateway",
            GatewayImpl::Istio => "Istio Gateway",
            GatewayImpl::Cilium => "Cilium Gateway",
            GatewayImpl::Kong => "Kong Gateway",
            GatewayImpl::Traefik => "Traefik Gateway",
            GatewayImpl::Kgateway => "kgateway",
        }
    }

    /// Check if ARM64 is supported: every implementation but kgateway.
    pub fn supports_arm64(&self) -> (r: bool)
        ensures
            r == !(self is Kgateway),
    {
        !matches!(self, GatewayImpl::Kgateway)
    }

    /// The GatewayClass resource name of each implementation.
    pub open spec fn spec_gateway_class(self) -> Seq<char> {
        match self {
            GatewayImpl::Nginx => "nginx"@,
            GatewayImpl::Envoy => "eg"@,
            GatewayImpl::Istio => "istio"@,
            GatewayImpl::Cilium => "cilium"@,
            GatewayImpl::Kong => "kong"@,
            GatewayImpl::Traefik => "traefik"@,
            GatewayImpl::Kgateway => "kgateway"@,
        }
    }

    /// Get GatewayClass name.
    pub fn gateway_class(&self) -> (r: &'static str)
        ensures
            r@ == self.spec_gateway_class(),
    {
        match self {
            GatewayImpl::Nginx => "nginx",
            GatewayImpl::Envoy => "eg",
            GatewayImpl::Istio => "istio",
            GatewayImpl::Cilium => "cilium",
            GatewayImpl::Kong => "kong",
            GatewayImpl::Traefik => "traefik",
            GatewayImpl::Kgateway => "kgateway",
        }
    }

    /// All implementations, in their canonical order.
    pub open spec fn spec_all() -> Seq<GatewayImpl> {
        seq![
            GatewayImpl::Nginx,
            GatewayImpl::Envoy,
            GatewayImpl::Istio,
            GatewayImpl::Cilium,
            GatewayImpl::Kong,
            GatewayImpl::Traefik,
            GatewayImpl::Kgateway,
        ]
    }

    /// Get all gateway implementations.
    pub fn all() -> (r: Vec<GatewayImpl>)
        ensures
            r@ == GatewayImpl::spec_all(),
    {
        let mut v: Vec<GatewayImpl> = Vec::new();
        v.push(GatewayImpl::Nginx);
        v.push(GatewayImpl::Envoy);
        v.push(GatewayImpl::Istio);
        v.push(GatewayImpl::Cilium);
        v.push(GatewayImpl::Kong);
        v.push(GatewayImpl::Traefik);
        v.push(GatewayImpl::Kgateway);
        proof {
            assert(v@ =~= GatewayImpl::spec_all());
        }
        v
    }

    /// Get the ARM64-compatible gateways: all of them but kgateway, in the
    /// canonical order.
    pub fn arm64_compatible() -> (r: Vec<GatewayImpl>)
        ensures
            r@ == GatewayImpl::spec_all().filter(|g: GatewayImpl| !(g is Kgateway)),
    {
        let all = GatewayImpl::all();
        let mut v: Vec<GatewayImpl> = Vec::new();
        let mut i: usize = 0;
        while i < all.len()
            invariant
                all@ == GatewayImpl::spec_all(),
                i <= all@.len(),
                v@ == all@.subrange(0, i as int).filter(|g: GatewayImpl| !(g is Kgateway)),
            decreases all@.len() - i,
        {
            let g = all[i];
            if g.supports_arm64() {
                v.push(g);
            }
            proof {
                let f = |g: GatewayImpl| !(g is Kgateway)    ;
                let ext = all@.subrange(0, i as int + 1);
                assert(ext.drop_last() =~= all@.subrange(0, i as int));
                reveal_with_fuel(Seq::filter, 2);
                assert(ext.filter(f) == if f(ext.last()) {
                    ext.drop_last().filter(f).push(ext.last())
                } else {
                    ext.drop_last().filter(f)
                });
                assert(v@ == ext.filter(f));
            }
            i += 1;
        }
        proof {
            assert(all@.subrange(0, all@.len() as int) =~= all@);
        }
        v
    }

    /// The index of each implementation in the canonical order.
    pub open spec fn spec_number_of_all(self) -> int {
        match self {
            GatewayImpl::Nginx => 0,
            GatewayImpl::Envoy => 1,
            GatewayImpl::Istio => 2,
            GatewayImpl::Cilium => 3,
            GatewayImpl::Kong => 4,
            GatewayImpl::Traefik => 5,
            GatewayImpl::Kgateway => 6,
        }
    }

    /// The implementation a configuration string names, after ASCII
    /// lower-casing; several aliases are accepted for each.
    pub open spec fn spec_of_str(s: Seq<char>) -> Option<GatewayImpl> {
        let l = spec_lower(s);
        if l == "nginx"@ || l == "nginx-gateway-fabric"@ {
            Some(GatewayImpl::Nginx)
        } else if l == "envoy"@ || l == "envoy-gateway"@ || l == "eg"@ {
            Some(GatewayImpl::Envoy)
        } else if l == "istio"@ || l == "istio-gateway"@ {
            Some(GatewayImpl::Istio)
        } else if l == "cilium"@ || l == "cilium-gateway"@ {
            Some(GatewayImpl::Cilium)
        } else if l == "kong"@ || l == "kong-gateway"@ {
            Some(GatewayImpl::Kong)
        } else if l == "traefik"@ || l == "traefik-gateway"@ {
            Some(GatewayImpl::Traefik)
        } else if l == "kgateway"@ || l == "gloo"@ {
            Some(GatewayImpl::Kgateway)
        } else {
            None
        }
    }

    /// Parse from string, case-insensitively.
    pub fn from_str(s: &str) -> (r: Option<GatewayImpl>)
        ensures
            r == GatewayImpl::spec_of_str(s@),
    {
        proof {
            lemma_gateway_aliases_lower();
        }
        if str_eq_ignore_ascii_case(s, "nginx") || str_eq_ignore_ascii_case(
            s,
            "nginx-gateway-fabric",
        ) {
            Some(GatewayImpl::Nginx)
        } else if str_eq_ignore_ascii_case(s, "envoy") || str_eq_ignore_ascii_case(
            s,
            "envoy-gateway",
        ) || str_eq_ignore_ascii_case(s, "eg") {
            Some(GatewayImpl::Envoy)
        } else if str_eq_ignore_ascii_case(s, "istio") || str_eq_ignore_ascii_case(
            s,
            "istio-gateway",
        ) {
            Some(GatewayImpl::Istio)
        } else if str_eq_ignore_ascii_case(s, "cilium") || str_eq_ignore_ascii_case(
            s,
            "cilium-gateway",
        ) {
            Some(GatewayImpl::Cilium)
        } else if str_eq_ignore_ascii_case(s, "kong") || str_eq_ignore_ascii_case(
            s,
            "kong-gateway",
        ) {
            Some(GatewayImpl::Kong)
        } else if str_eq_ignore_ascii_case(s, "traefik") || str_eq_ignore_ascii_case(
            s,
            "traefik-gateway",
        ) {
            Some(GatewayImpl::Traefik)
        } else if str_eq_ignore_ascii_case(s, "kgateway") || str_eq_ignore_ascii_case(s, "gloo") {
            Some(GatewayImpl::Kgateway)
        } else {
            None
        }
    }
}

/// All the accepted aliases are already ASCII lower case, so lower-casing
/// them is the identity.
proof fn lemma_gateway_aliases_lower()
    ensures
        spec_lower("nginx"@) == "nginx"@,
        spec_lower("nginx-gateway-fabric"@) == "nginx-gateway-fabric"@,
        spec_lower("envoy"@) == "envoy"@,
        spec_lower("envoy-gateway"@) == "envoy-gateway"@,
        spec_lower("eg"@) == "eg"@,
        spec_lower("istio"@) == "istio"@,
        spec_lower("istio-gateway"@) == "istio-gateway"@,
        spec_lower("cilium"@) == "cilium"@,
        spec_lower("cilium-gateway"@) == "cilium-gateway"@,
        spec_lower("kong"@) == "kong"@,
        spec_lower("kong-gateway"@) == "kong-gateway"@,
        spec_lower("traefik"@) == "traefik"@,
        spec_lower("traefik-gateway"@) == "traefik-gateway"@,
        spec_lower("kgateway"@) == "kgateway"@,
        spec_lower("gloo"@) == "gloo"@,
{
    reveal_strlit("nginx");
    reveal_strlit("nginx-gateway-fabric");
    reveal_strlit("envoy");
    reveal_strlit("envoy-gateway");
    reveal_strlit("eg");
    reveal_strlit("istio");
    reveal_strlit("istio-gateway");
    reveal_strlit("cilium");
    reveal_strlit("cilium-gateway");
    reveal_strlit("kong");
    reveal_strlit("kong-gateway");
    reveal_strlit("traefik");
    reveal_strlit("traefik-gateway");
    reveal_strlit("kgateway");
    reveal_strlit("gloo");
    assert(spec_lower("nginx"@) =~= "nginx"@);
    assert(spec_lower("nginx-gateway-fabric"@) =~= "nginx-gateway-fabric"@);
    assert(spec_lower("envoy"@) =~= "envoy"@);
    assert(spec_lower("envoy-gateway"@) =~= "envoy-gateway"@);
    assert(spec_lower("eg"@) =~= "eg"@);
    assert(spec_lower("istio"@) =~= "istio"@);
    assert(spec_lower("istio-gateway"@) =~= "istio-gateway"@);
    assert(spec_lower("cilium"@) =~= "cilium"@);
    assert(spec_lower("cilium-gateway"@) =~= "cilium-gateway"@);
    assert(spec_lower("kong"@) =~= "kong"@);
    assert(spec_lower("kong-gateway"@) =~= "kong-gateway"@);
    assert(spec_lower("traefik"@) =~= "traefik"@);
    assert(spec_lower("traefik-gateway"@) =~= "traefik-gateway"@);
    assert(spec_lower("kgateway"@) =~= "kgateway"@);
    assert(spec_lower("gloo"@) =~= "gloo"@);
}

/// Gateway configuration.
#[derive(Clone, Debug)]
pub struct GatewayConfig {
    pub implementation: GatewayImpl,
    pub namespace: String,
    pub name: String,
    pub http_port: u16,
    pub https_port: u16,
    pub grpc_port: Option<u16>,
    pub hostname: String,
}

impl GatewayConfig {
    /// The defaults for an implementation: namespace `default`, the
    /// GatewayClass name with a `-gateway` suffix, ports 80/443/9090 and
    /// hostname `example.com`.
    pub fn new(implementation: GatewayImpl) -> (r: Self)
        ensures
            r.implementation == implementation,
            r.namespace@ == "default"@,
            r.name@ == implementation.spec_gateway_class() + "-gateway"@,
            r.http_port == 80,
            r.https_port == 443,
            r.grpc_port == Some(9090u16),
            r.hostname@ == "example.com"@,
    {
        let mut name = String::from_str(implementation.gateway_class());
        name.append("-gateway");
        GatewayConfig {
            implementation,
            namespace: String::from_str("default"),
            name,
            http_port: 80,
            https_port: 443,
            grpc_port: Some(9090),
            hostname: String::from_str("example.com"),
        }
    }

    /// Set namespace.
    pub fn with_namespace(self, namespace: &str) -> (r: Self)
        ensures
            r == (GatewayConfig { namespace: r.namespace, ..self }),
            r.namespace@ == namespace@,
    {
        GatewayConfig { namespace: String::from_str(namespace), ..self }
    }

    /// Set name.
    pub fn with_name(self, name: &str) -> (r: Self)
        ensures
            r == (GatewayConfig { name: r.name, ..self }),
            r.name@ == name@,
    {
        GatewayConfig { name: String::from_str(name), ..self }
    }

    /// Set hostname.
    pub fn with_hostname(self, hostname: &str) -> (r: Self)
        ensures
            r == (GatewayConfig { hostname: r.hostname, ..self }),
            r.hostname@ == hostname@,
    {
        GatewayConfig { hostname: String::from_str(hostname), ..self }
    }

    /// Set ports.
    pub fn with_ports(self, http: u16, https: u16, grpc: Option<u16>) -> (r: Self)
        ensures
            r == (GatewayConfig {
                http_port: http,
                https_port: https,
                grpc_port: grpc,
                ..self
            }),
    {
        GatewayConfig { http_port: http, https_port: https, grpc_port: grpc, ..self }
    }
}

/// Gateway test configuration.
#[derive(Clone, Debug)]
pub struct TestConfig {
    pub gateway: GatewayConfig,
    pub rounds: u32,
    pub parallel: bool,
    pub timeout_secs: u64,
    pub skip_tests: Vec<u8>,
}

impl TestConfig {
    /// One sequential round with a 30 second timeout and nothing skipped.
    pub fn new(gateway: GatewayConfig) -> (r: Self)
        ensures
            r.gateway == gateway,
            r.rounds == 1,
            r.parallel == false,
            r.timeout_secs == 30,
            r.skip_tests@.len() == 0,
    {
        TestConfig { gateway, rounds: 1, parallel: false, timeout_secs: 30, skip_tests: Vec::new() }
    }

    /// Set the number of rounds.
    pub fn with_rounds(self, rounds: u32) -> (r: Self)
        ensures
            r == (TestConfig { rounds, ..self }),
    {
        TestConfig { rounds, ..self }
    }

    /// Set parallel execution.
    pub fn parallel(self, parallel: bool) -> (r: Self)
        ensures
            r == (TestConfig { parallel, ..self }),
    {
        TestConfig { parallel, ..self }
    }

    /// Add a test number to the skip list.
    pub fn skip_test(self, test_number: u8) -> (r: Self)
        ensures
            r.skip_tests@ == self.skip_tests@.push(test_number),
            r.gateway == self.gateway,
            r.rounds == self.rounds,
            r.parallel == self.parallel,
            r.timeout_secs == self.timeout_secs,
    {
        let mut c = self;
        c.skip_tests.push(test_number);
        c
    }
}

} // verus!
