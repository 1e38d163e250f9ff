//! Predefined gateway and test profiles.

use vstd::prelude::*;

use crate::kvlist::{kv_get, kv_insert, kv_unique};
use crate::models::gateway::GatewayImpl;
use crate::util::str_eq;

verus! {

/// Installation method for a gateway.
#[derive(Clone, Copy, Debug, PartialEq, Eq, Structural)]
pub enum InstallMethod {
    Helm,
    Manifest,
    Operator,
    Custom,
}

/// A configuration value in a Helm settings map.
#[derive(Clone, Debug)]
pub enum HelmValue {
    /// A boolean chart value
    Bool(bool),
    /// A string chart value
    Str(String),
}

/// Helm chart settings.
#[derive(Clone, Debug)]
pub struct HelmSettings {
    /// Chart repository
    pub repo: String,
    /// Chart name
    pub chart: String,
    /// Chart version
    pub version: Option<String>,
    /// Custom values, keyed by dotted chart path
    pub values: Vec<(String, HelmValue)>,
}

/// Gateway profile with predefined settings.
#[derive(Clone, Debug)]
pub struct GatewayProfile {
    /// Profile name
    pub name: String,
    /// Gateway implementation
    pub gateway: GatewayImpl,
    /// Default namespace
    pub namespace: String,
    /// Default HTTP port
    pub http_port: u16,
    /// Default HTTPS port
    pub https_port: u16,
    /// Default gRPC port
    pub grpc_port: Option<u16>,
    /// Default hostname
    pub hostname: String,
    /// Installation method
    pub install_method: InstallMethod,
    /// Helm chart settings
    pub helm: Option<HelmSettings>,
    /// Custom labels
    pub labels: Vec<(String, String)>,
    /// Custom annotations
    pub annotations: Vec<(String, String)>,
}

impl GatewayProfile {
    /// Labels and annotations hold each key once.
    pub open spec fn wf(&self) -> bool {
        kv_unique(self.labels@) && kv_unique(self.annotations@)
    }

    /// A new profile: `gateway-system` namespace, ports 80/443/9090,
    /// hostname `example.com`, installed by Helm, with no chart settings,
    /// labels or annotations yet.
    pub fn new(name: &str, gateway: GatewayImpl) -> (r: Self)
        ensures
            r.wf(),
            r.name@ == name@,
            r.gateway == gateway,
            r.namespace@ == "gateway-system"@,
            r.http_port == 80,
            r.https_port == 443,
            r.grpc_port == Some(9090u16),
            r.hostname@ == "example.com"@,
            r.install_method is Helm,
            r.helm is None,
            r.labels@.len() == 0,
            r.annotations@.len() == 0,
    {
        GatewayProfile {
            name: String::from_str(name),
            gateway,
            namespace: String::from_str("gateway-system"),
            http_port: 80,
            https_port: 443,
            grpc_port: Some(9090),
            hostname: String::from_str("example.com"),
            install_method: InstallMethod::Helm,
            helm: None,
            labels: Vec::new(),
            annotations: Vec::new(),
        }
    }

    /// The name each implementation's default profile carries.
    pub open spec fn spec_default_name(gateway: GatewayImpl) -> Seq<char> {
        match gateway {
            GatewayImpl::Nginx => "nginx-default"@,
            GatewayImpl::Envoy => "envoy-default"@,
            GatewayImpl::Istio => "istio-default"@,
            GatewayImpl::Cilium => "cilium-default"@,
            GatewayImpl::Kong => "kong-default"@,
            GatewayImpl::Traefik => "traefik-default"@,
            GatewayImpl::Kgateway => "kgateway-default"@,
        }
    }

    /// The default profile for an implementation.
    pub fn default_for(gateway: GatewayImpl) -> (r: Self)
        ensures
            r.wf(),
            r.gateway == gateway,
            r.name@ == GatewayProfile::spec_default_name(gateway),
    {
        match gateway {
            GatewayImpl::Nginx => GatewayProfile::nginx_default(),
            GatewayImpl::Envoy => GatewayProfile::envoy_default(),
            GatewayImpl::Istio => GatewayProfile::istio_default(),
            GatewayImpl::Cilium => GatewayProfile::cilium_default(),
            GatewayImpl::Kong => GatewayProfile::kong_default(),
            GatewayImpl::Traefik => GatewayProfile::traefik_default(),
            GatewayImpl::Kgateway => GatewayProfile::kgateway_default(),
        }
    }

    /// NGINX Gateway Fabric default profile.
    pub fn nginx_default() -> (r: Self)
        ensures
            r.wf(),
            r.gateway == GatewayImpl::Nginx,
            r.name@ == "nginx-default"@,
            r.namespace@ == "nginx-gateway"@,
            r.helm matches Some(h) && h.repo@ == "oci://ghcr.io/nginxinc/charts"@ && h.chart@
                == "nginx-gateway-fabric"@,
    {
        let mut profile = GatewayProfile::new("nginx-default", GatewayImpl::Nginx);
        profile.namespace = String::from_str("nginx-gateway");
        profile.helm = Some(
            HelmSettings {
                repo: String::from_str("oci://ghcr.io/nginxinc/charts"),
                chart: String::from_str("nginx-gateway-fabric"),
                version: Some(String::from_str("1.4.0")),
                values: Vec::new(),
            },
        );
        profile
    }

    /// Envoy Gateway default profile.
    pub fn envoy_default() -> (r: Self)
        ensures
            r.wf(),
            r.gateway == GatewayImpl::Envoy,
            r.name@ == "envoy-default"@,
            r.namespace@ == "envoy-gateway-system"@,
            r.helm is Some,
    {
        let mut profile = GatewayProfile::new("envoy-default", GatewayImpl::Envoy);
        profile.namespace = String::from_str("envoy-gateway-system");
        profile.helm = Some(
            HelmSettings {
                repo: String::from_str("oci://docker.io/envoyproxy"),
                chart: String::from_str("gateway-helm"),
                version: Some(String::from_str("v1.1.0")),
                values: Vec::new(),
            },
        );
        profile
    }

    /// Istio Gateway default profile, installed by its operator.
    pub fn istio_default() -> (r: Self)
        ensures
            r.wf(),
            r.gateway == GatewayImpl::Istio,
            r.name@ == "istio-default"@,
            r.namespace@ == "istio-system"@,
            r.install_method is Operator,
            r.helm is None,
    {
        let mut profile = GatewayProfile::new("istio-default", GatewayImpl::Istio);
        profile.namespace = String::from_str("istio-system");
        profile.install_method = InstallMethod::Operator;
        profile
    }

    /// Cilium Gateway default profile, with the Gateway API chart value
    /// switched on.
    pub fn cilium_default() -> (r: Self)
        ensures
            r.wf(),
            r.gateway == GatewayImpl::Cilium,
            r.name@ == "cilium-default"@,
            r.namespace@ == "kube-system"@,
            r.helm matches Some(h) && kv_get(h.values@, "gatewayAPI.enabled"@) matches Some(v)
                && v is Bool,
    {
        let mut profile = GatewayProfile::new("cilium-default", GatewayImpl::Cilium);
        profile.namespace = String::from_str("kube-system");
        let mut values: Vec<(String, HelmValue)> = Vec::new();
        kv_insert(&mut values, "gatewayAPI.enabled", HelmValue::Bool(true));
        profile.helm = Some(
            HelmSettings {
                repo: String::from_str("https://helm.cilium.io/"),
                chart: String::from_str("cilium"),
                version: Some(String::from_str("1.16.0")),
                values,
            },
        );
        profile
    }

    /// Kong Gateway default profile.
    pub fn kong_default() -> (r: Self)
        ensures
            r.wf(),
            r.gateway == GatewayImpl::Kong,
            r.name@ == "kong-default"@,
            r.namespace@ == "kong"@,
            r.helm is Some,
    {
        let mut profile = GatewayProfile::new("kong-default", GatewayImpl::Kong);
        profile.namespace = String::from_str("kong");
        profile.helm = Some(
            HelmSettings {
                repo: String::from_str("https://charts.konghq.com"),
                chart: String::from_str("kong"),
                version: Some(String::from_str("2.41.0")),
                values: Vec::new(),
            },
        );
        profile
    }

    /// Traefik Gateway default profile, with its Gateway API provider
    /// switched on.
    pub fn traefik_default() -> (r: Self)
        ensures
            r.wf(),
            r.gateway == GatewayImpl::Traefik,
            r.name@ == "traefik-default"@,
            r.namespace@ == "traefik"@,
            r.helm matches Some(h) && kv_get(
                h.values@,
                "providers.kubernetesGateway.enabled"@,
            ) matches Some(v) && v is Bool,
    {
        let mut profile = GatewayProfile::new("traefik-default", GatewayImpl::Traefik);
        profile.namespace = String::from_str("traefik");
        let mut values: Vec<(String, HelmValue)> = Vec::new();
        kv_insert(&mut values, "providers.kubernetesGateway.enabled", HelmValue::Bool(true));
        profile.helm = Some(
            HelmSettings {
                repo: String::from_str("https://traefik.github.io/charts"),
                chart: String::from_str("traefik"),
                version: Some(String::from_str("30.0.0")),
                values,
            },
        );
        profile
    }

    /// kgateway default profile.
    pub fn kgateway_default() -> (r: Self)
        ensures
            r.wf(),
            r.gateway == GatewayImpl::Kgateway,
            r.name@ == "kgateway-default"@,
            r.namespace@ == "gloo-system"@,
            r.helm is Some,
    {
        let mut profile = GatewayProfile::new("kgateway-default", GatewayImpl::Kgateway);
        profile.namespace = String::from_str("gloo-system");
        profile.helm = Some(
            HelmSettings {
                repo: String::from_str("https://storage.googleapis.com/solo-public-helm"),
                chart: String::from_str("gloo"),
                version: Some(String::from_str("1.17.0")),
                values: Vec::new(),
            },
        );
        profile
    }

    /// Set namespace.
    pub fn with_namespace(self, namespace: &str) -> (r: Self)
        ensures
            r.wf() == self.wf(),
            r.namespace@ == namespace@,
            r.name == self.name,
            r.gateway == self.gateway,
            r.labels == self.labels,
            r.annotations == self.annotations,
            r.helm == self.helm,
    {
        GatewayProfile { namespace: String::from_str(namespace), ..self }
    }

    /// Set hostname.
    pub fn with_hostname(self, hostname: &str) -> (r: Self)
        ensures
            r.wf() == self.wf(),
            r.hostname@ == hostname@,
            r.name == self.name,
            r.gateway == self.gateway,
            r.labels == self.labels,
            r.annotations == self.annotations,
    {
        GatewayProfile { hostname: String::from_str(hostname), ..self }
    }

    /// Set ports.
    pub fn with_ports(self, http: u16, https: u16, grpc: Option<u16>) -> (r: Self)
        ensures
            r.wf() == self.wf(),
            r.http_port == http,
            r.https_port == https,
            r.grpc_port == grpc,
            r.name == self.name,
            r.gateway == self.gateway,
            r.labels == self.labels,
            r.annotations == self.annotations,
    {
        GatewayProfile { http_port: http, https_port: https, grpc_port: grpc, ..self }
    }

    /// Add (or replace) a label.
    pub fn with_label(self, key: &str, value: &str) -> (r: Self)
        requires
            self.wf(),
        ensures
            r.wf(),
            kv_get(r.labels@, key@) matches Some(v) && v@ == value@,
            forall|k2: Seq<char>| k2 != key@ ==> kv_get(r.labels@, k2) == kv_get(
                self.labels@,
                k2,
            ),
            r.name == self.name,
            r.gateway == self.gateway,
    {
        let mut p = self;
        kv_insert(&mut p.labels, key, String::from_str(value));
        p
    }
}

/// Test profile: a named collection of test ordinals to run.
#[derive(Clone, Debug)]
pub struct TestProfile {
    /// Profile name
    pub name: String,
    /// Description
    pub description: String,
    /// Test numbers to include
    pub tests: Vec<u8>,
    /// Number of rounds
    pub rounds: u32,
    /// Run in parallel
    pub parallel: bool,
    /// Timeout per test in seconds
    pub timeout_secs: u64,
    /// Tags for filtering
    pub tags: Vec<String>,
}

impl TestProfile {
    /// An empty profile: no tests, one sequential round, 30 second timeout.
    pub fn new(name: &str) -> (r: Self)
        ensures
            r.name@ == name@,
            r.description@.len() == 0,
            r.tests@.len() == 0,
            r.rounds == 1,
            r.parallel == false,
            r.timeout_secs == 30,
            r.tags@.len() == 0,
    {
        TestProfile {
            name: String::from_str(name),
            description: String::new(),
            tests: Vec::new(),
            rounds: 1,
            parallel: false,
            timeout_secs: 30,
            tags: Vec::new(),
        }
    }

    /// The full catalog: every ordinal from 1 to 17, in one parallel round.
    pub fn all() -> (r: Self)
        ensures
            r.name@ == "all"@,
            r.tests@.len() == 17,
            forall|i: int| 0 <= i < 17 ==> (#[trigger] r.tests@[i]) as int == i + 1,
            r.rounds == 1,
            r.parallel == true,
            r.timeout_secs == 30,
    {
        let mut tests: Vec<u8> = Vec::new();
        let mut n: u8 = 1;
        while n <= 17
            invariant
                1 <= n <= 18,
                tests@.len() == n - 1,
                forall|i: int| 0 <= i < n - 1 ==> (#[trigger] tests@[i]) as int == i + 1,
            decreases 18 - n,
        {
            tests.push(n);
            n += 1;
        }
        let mut tags: Vec<String> = Vec::new();
        tags.push(String::from_str("comprehensive"));
        TestProfile {
            name: String::from_str("all"),
            description: String::from_str("Run all 17 test cases"),
            tests,
            rounds: 1,
            parallel: true,
            timeout_secs: 30,
            tags,
        }
    }

    /// The quick smoke profile: the first four ordinals, sequentially.
    pub fn smoke() -> (r: Self)
        ensures
            r.name@ == "smoke"@,
            r.tests@ == seq![1u8, 2u8, 3u8, 4u8],
            r.rounds == 1,
            r.parallel == false,
            r.timeout_secs == 30,
    {
        let mut tests: Vec<u8> = Vec::new();
        tests.push(1);
        tests.push(2);
        tests.push(3);
        tests.push(4);
        proof {
            assert(tests@ =~= seq![1u8, 2u8, 3u8, 4u8]);
        }
        let mut tags: Vec<String> = Vec::new();
        tags.push(String::from_str("quick"));
        tags.push(String::from_str("smoke"));
        TestProfile {
            name: String::from_str("smoke"),
            description: String::from_str("Quick smoke tests for basic functionality"),
            tests,
            rounds: 1,
            parallel: false,
            timeout_secs: 30,
            tags,
        }
    }

    /// The routing profile, run in parallel.
    pub fn routing() -> (r: Self)
        ensures
            r.name@ == "routing"@,
            r.tests@ == seq![1u8, 2u8, 3u8, 4u8, 5u8],
            r.parallel == true,
    {
        let mut tests: Vec<u8> = Vec::new();
        tests.push(1);
        tests.push(2);
        tests.push(3);
        tests.push(4);
        tests.push(5);
        proof {
            assert(tests@ =~= seq![1u8, 2u8, 3u8, 4u8, 5u8]);
        }
        let mut tags: Vec<String> = Vec::new();
        tags.push(String::from_str("routing"));
        TestProfile {
            name: String::from_str("routing"),
            description: String::from_str("HTTP routing test cases"),
            tests,
            rounds: 1,
            parallel: true,
            timeout_secs: 30,
            tags,
        }
    }

    /// The TLS profile, with a longer timeout.
    pub fn tls() -> (r: Self)
        ensures
            r.name@ == "tls"@,
            r.tests@ == seq![6u8, 7u8, 8u8],
            r.timeout_secs == 60,
    {
        let mut tests: Vec<u8> = Vec::new();
        tests.push(6);
        tests.push(7);
        tests.push(8);
        proof {
            assert(tests@ =~= seq![6u8, 7u8, 8u8]);
        }
        let mut tags: Vec<String> = Vec::new();
        tags.push(String::from_str("tls"));
        tags.push(String::from_str("security"));
        TestProfile {
            name: String::from_str("tls"),
            description: String::from_str("TLS and security test cases"),
            tests,
            rounds: 1,
            parallel: false,
            timeout_secs: 60,
            tags,
        }
    }

    /// The traffic-management profile, repeated over three rounds.
    pub fn traffic() -> (r: Self)
        ensures
            r.name@ == "traffic"@,
            r.tests@ == seq![9u8, 10u8, 11u8, 12u8],
            r.rounds == 3,
    {
        let mut tests: Vec<u8> = Vec::new();
        tests.push(9);
        tests.push(10);
        tests.push(11);
        tests.push(12);
        proof {
            assert(tests@ =~= seq![9u8, 10u8, 11u8, 12u8]);
        }
        let mut tags: Vec<String> = Vec::new();
        tags.push(String::from_str("traffic"));
        TestProfile {
            name: String::from_str("traffic"),
            description: String::from_str("Traffic management test cases"),
            tests,
            rounds: 3,
            parallel: false,
            timeout_secs: 60,
            tags,
        }
    }

    /// The advanced-features profile, with the longest timeout.
    pub fn advanced() -> (r: Self)
        ensures
            r.name@ == "advanced"@,
            r.tests@ == seq![13u8, 14u8, 15u8, 16u8, 17u8],
            r.timeout_secs == 120,
    {
        let mut tests: Vec<u8> = Vec::new();
        tests.push(13);
        tests.push(14);
        tests.push(15);
        tests.push(16);
        tests.push(17);
        proof {
            assert(tests@ =~= seq![13u8, 14u8, 15u8, 16u8, 17u8]);
        }
        let mut tags: Vec<String> = Vec::new();
        tags.push(String::from_str("advanced"));
        TestProfile {
            name: String::from_str("advanced"),
            description: String::from_str("Advanced features test cases"),
            tests,
            rounds: 1,
            parallel: false,
            timeout_secs: 120,
            tags,
        }
    }

    /// The performance profile: the load test alone, over ten rounds.
    pub fn performance() -> (r: Self)
        ensures
            r.name@ == "performance"@,
            r.tests@ == seq![16u8],
            r.rounds == 10,
            r.timeout_secs == 300,
    {
        let mut tests: Vec<u8> = Vec::new();
        tests.push(16);
        proof {
            assert(tests@ =~= seq![16u8]);
        }
        let mut tags: Vec<String> = Vec::new();
        tags.push(String::from_str("performance"));
        tags.push(String::from_str("load"));
        TestProfile {
            name: String::from_str("performance"),
            description: String::from_str("Performance and load testing"),
            tests,
            rounds: 10,
            parallel: false,
            timeout_secs: 300,
            tags,
        }
    }

    /// Set description.
    pub fn with_description(self, desc: &str) -> (r: Self)
        ensures
            r.description@ == desc@,
            r.name == self.name,
            r.tests == self.tests,
            r.rounds == self.rounds,
    {
        TestProfile { description: String::from_str(desc), ..self }
    }

    /// Set test numbers.
    pub fn with_tests(self, tests: Vec<u8>) -> (r: Self)
        ensures
            r.tests == tests,
            r.name == self.name,
            r.rounds == self.rounds,
    {
        TestProfile { tests, ..self }
    }

    /// Set rounds.
    pub fn with_rounds(self, rounds: u32) -> (r: Self)
        ensures
            r.rounds == rounds,
            r.name == self.name,
            r.tests == self.tests,
    {
        TestProfile { rounds, ..self }
    }

    /// Set parallel execution.
    pub fn parallel(self, parallel: bool) -> (r: Self)
        ensures
            r.parallel == parallel,
            r.name == self.name,
            r.tests == self.tests,
    {
        TestProfile { parallel, ..self }
    }

    /// Add a tag.
    pub fn with_tag(self, tag: &str) -> (r: Self)
        ensures
            r.tags@.len() == self.tags@.len() + 1,
            r.tags@.last()@ == tag@,
            r.name == self.name,
            r.tests == self.tests,
    {
        let mut p = self;
        p.tags.push(String::from_str(tag));
        p
    }

    /// The predefined profiles, in their canonical order.
    pub fn predefined() -> (r: Vec<TestProfile>)
        ensures
            r@.len() == 7,
            r@[0].name@ == "all"@,
            r@[1].name@ == "smoke"@,
            r@[2].name@ == "routing"@,
            r@[3].name@ == "tls"@,
            r@[4].name@ == "traffic"@,
            r@[5].name@ == "advanced"@,
            r@[6].name@ == "performance"@,
    {
        let mut v: Vec<TestProfile> = Vec::new();
        v.push(TestProfile::all());
        v.push(TestProfile::smoke());
        v.push(TestProfile::routing());
        v.push(TestProfile::tls());
        v.push(TestProfile::traffic());
        v.push(TestProfile::advanced());
        v.push(TestProfile::performance());
        v
    }

    /// Find a predefined profile by name: the profile carrying that name,
    /// or nothing when no predefined profile carries it.
    pub fn find(name: &str) -> (r: Option<TestProfile>)
        ensures
            match r {
                Some(p) => p.name@ == name@,
                None => name@ != "all"@ && name@ != "smoke"@ && name@ != "routing"@ && name@
                    != "tls"@ && name@ != "traffic"@ && name@ != "advanced"@ && name@
                    != "performance"@,
            },
    {
        let mut rest = TestProfile::predefined();
        let ghost names = seq![
            "all"@,
            "smoke"@,
            "routing"@,
            "tls"@,
            "traffic"@,
            "advanced"@,
            "performance"@,
        ];
        let mut idx: usize = 0;
        while rest.len() > 0
            invariant
                idx + rest@.len() == 7,
                forall|k: int| 0 <= k < rest@.len() ==> (#[trigger] rest@[k]).name@ == names[
                    idx + k
                ],
                forall|k: int| 0 <= k < idx ==> names[k] != name@,
            decreases rest@.len(),
        {
            let ghost old_rest = rest@;
            let p = rest.remove(0);
            proof {
                assert(p == old_rest[0]);
                assert(forall|k: int|
                    0 <= k < rest@.len() ==> (#[trigger] rest@[k]) == old_rest[k + 1]);
            }
            if str_eq(p.name.as_str(), name) {
                return Some(p);
            }
            idx += 1;
        }
        proof {
            assert(names[0] == "all"@);
            assert(names[1] == "smoke"@);
            assert(names[2] == "routing"@);
            assert(names[3] == "tls"@);
            assert(names[4] == "traffic"@);
            assert(names[5] == "advanced"@);
            assert(names[6] == "performance"@);
        }
        None
    }
}

/// Profile manager holding gateway and test profiles by name.
#[derive(Clone, Debug)]
pub struct ProfileManager {
    pub gateway_profiles: Vec<(String, GatewayProfile)>,
    pub test_profiles: Vec<(String, TestProfile)>,
}

impl ProfileManager {
    /// Both association lists hold each name once.
    pub open spec fn wf(&self) -> bool {
        kv_unique(self.gateway_profiles@) && kv_unique(self.test_profiles@)
    }

    /// A manager preloaded with the default gateway profiles and the
    /// predefined test profiles: every implementation's default profile is
    /// found under its name, and so is every predefined test profile.
    pub fn new() -> (r: Self)
        ensures
            r.wf(),
            forall|g: GatewayImpl|
                kv_get(r.gateway_profiles@, #[trigger] GatewayProfile::spec_default_name(g))
                    is Some,
            kv_get(r.test_profiles@, "all"@) is Some,
            kv_get(r.test_profiles@, "smoke"@) is Some,
            kv_get(r.test_profiles@, "routing"@) is Some,
            kv_get(r.test_profiles@, "tls"@) is Some,
            kv_get(r.test_profiles@, "traffic"@) is Some,
            kv_get(r.test_profiles@, "advanced"@) is Some,
            kv_get(r.test_profiles@, "performance"@) is Some,
    {
        let mut manager = ProfileManager { gateway_profiles: Vec::new(), test_profiles: Vec::new() };
        let mut rest = GatewayImpl::all();
        let ghost all = GatewayImpl::spec_all();
        let mut idx: usize = 0;
        while rest.len() > 0
            invariant
                idx + rest@.len() == all.len(),
                all == GatewayImpl::spec_all(),
                forall|k: int| 0 <= k < rest@.len() ==> (#[trigger] rest@[k]) == all[idx + k],
                kv_unique(manager.gateway_profiles@),
                kv_unique(manager.test_profiles@),
                manager.test_profiles@.len() == 0,
                forall|k: int|
                    0 <= k < idx ==> kv_get(
                        manager.gateway_profiles@,
                        #[trigger] GatewayProfile::spec_default_name(all[k]),
                    ) is Some,
            decreases rest@.len(),
        {
            let ghost old_rest = rest@;
            let g = rest.remove(0);
            proof {
                assert(g == old_rest[0]);
                assert(forall|k: int|
                    0 <= k < rest@.len() ==> (#[trigger] rest@[k]) == old_rest[k + 1]);
            }
            let profile = GatewayProfile::default_for(g);
            let name = profile.name.clone();
            kv_insert(&mut manager.gateway_profiles, name.as_str(), profile);
            idx += 1;
        }
        proof {
            assert forall|g: GatewayImpl|
                kv_get(
                    manager.gateway_profiles@,
                    #[trigger] GatewayProfile::spec_default_name(g),
                ) is Some by {
                let k = g.spec_number_of_all();
                assert(all[k] == g);
            }
        }
        let mut trest = TestProfile::predefined();
        let ghost tnames = seq![
            "all"@,
            "smoke"@,
            "routing"@,
            "tls"@,
            "traffic"@,
            "advanced"@,
            "performance"@,
        ];
        let mut tidx: usize = 0;
        while trest.len() > 0
            invariant
                tidx + trest@.len() == 7,
                forall|k: int|
                    0 <= k < trest@.len() ==> (#[trigger] trest@[k]).name@ == tnames[tidx + k],
                kv_unique(manager.gateway_profiles@),
                kv_unique(manager.test_profiles@),
                forall|g: GatewayImpl|
                    kv_get(
                        manager.gateway_profiles@,
                        #[trigger] GatewayProfile::spec_default_name(g),
                    ) is Some,
                forall|k: int|
                    0 <= k < tidx ==> kv_get(manager.test_profiles@, #[trigger] tnames[k])
                        is Some,
            decreases trest@.len(),
        {
            let ghost old_trest = trest@;
            let p = trest.remove(0);
            proof {
                assert(p == old_trest[0]);
                assert(forall|k: int|
                    0 <= k < trest@.len() ==> (#[trigger] trest@[k]) == old_trest[k + 1]);
            }
            let name = p.name.clone();
            kv_insert(&mut manager.test_profiles, name.as_str(), p);
            tidx += 1;
        }
        proof {
            assert(kv_get(manager.test_profiles@, tnames[0]) is Some);
            assert(kv_get(manager.test_profiles@, tnames[1]) is Some);
            assert(kv_get(manager.test_profiles@, tnames[2]) is Some);
            assert(kv_get(manager.test_profiles@, tnames[3]) is Some);
            assert(kv_get(manager.test_profiles@, tnames[4]) is Some);
            assert(kv_get(manager.test_profiles@, tnames[5]) is Some);
            assert(kv_get(manager.test_profiles@, tnames[6]) is Some);
        }
        manager
    }

    /// Get a gateway profile by name.
    pub fn gateway_profile(&self, name: &str) -> (r: Option<&GatewayProfile>)
        ensures
            match r {
                Some(p) => kv_get(self.gateway_profiles@, name@) matches Some(sp) && *p == sp,
                None => kv_get(self.gateway_profiles@, name@) is None,
            },
    {
        crate::kvlist::kv_lookup(&self.gateway_profiles, name)
    }

    /// Get a test profile by name.
    pub fn test_profile(&self, name: &str) -> (r: Option<&TestProfile>)
        ensures
            match r {
                Some(p) => kv_get(self.test_profiles@, name@) matches Some(sp) && *p == sp,
                None => kv_get(self.test_profiles@, name@) is None,
            },
    {
        crate::kvlist::kv_lookup(&self.test_profiles, name)
    }

    /// Add (or replace) a gateway profile under its name.
    pub fn add_gateway_profile(&mut self, profile: GatewayProfile)
        requires
            old(self).wf(),
        ensures
            final(self).wf(),
            kv_get(final(self).gateway_profiles@, profile.name@) is Some,
            final(self).test_profiles == old(self).test_profiles,
    {
        let name = profile.name.clone();
        kv_insert(&mut self.gateway_profiles, name.as_str(), profile);
    }

    /// Add (or replace) a test profile under its name.
    pub fn add_test_profile(&mut self, profile: TestProfile)
        requires
            old(self).wf(),
        ensures
            final(self).wf(),
            kv_get(final(self).test_profiles@, profile.name@) is Some,
            final(self).gateway_profiles == old(self).gateway_profiles,
    {
        let name = profile.name.clone();
        kv_insert(&mut self.test_profiles, name.as_str(), profile);
    }
}

impl Default for ProfileManager {
    /// Same as `new`.
    fn default() -> (r: Self)
        ensures
            r.wf(),
    {
        ProfileManager::new()
    }
}

} // verus!
