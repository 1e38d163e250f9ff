//! Kubernetes manifest models for Gateway API resources, and the generator
//! that assembles them.  Serializing them to YAML or JSON happens outside
//! the verified core.

use vstd::prelude::*;

use crate::models::gateway::GatewayImpl;

verus! {

/// Kubernetes object metadata.
#[derive(Clone, Debug)]
pub struct Metadata {
    pub name: String,
    pub namespace: Option<String>,
    pub labels: Vec<(String, String)>,
    pub annotations: Vec<(String, String)>,
}

/// Gateway listener TLS configuration.
#[derive(Clone, Debug)]
pub struct ListenerTls {
    pub mode: String,
    pub certificate_refs: Option<Vec<SecretRef>>,
}

/// Secret reference.
#[derive(Clone, Debug)]
pub struct SecretRef {
    pub name: String,
    pub namespace: Option<String>,
}

/// Route namespaces selector.
#[derive(Clone, Debug)]
pub struct RouteNamespaces {
    pub from: String,
    pub selector: Option<LabelSelector>,
}

/// Label selector.
#[derive(Clone, Debug)]
pub struct LabelSelector {
    pub match_labels: Vec<(String, String)>,
}

/// Route group kind.
#[derive(Clone, Debug)]
pub struct RouteGroupKind {
    pub group: Option<String>,
    pub kind: String,
}

/// Allowed routes configuration.
#[derive(Clone, Debug)]
pub struct AllowedRoutes {
    pub namespaces: Option<RouteNamespaces>,
    pub kinds: Option<Vec<RouteGroupKind>>,
}

/// Gateway listener.
#[derive(Clone, Debug)]
pub struct Listener {
    pub name: String,
    pub port: u16,
    pub protocol: String,
    pub hostname: Option<String>,
    pub tls: Option<ListenerTls>,
    pub allowed_routes: Option<AllowedRoutes>,
}

/// Gateway address.
#[derive(Clone, Debug)]
pub struct GatewayAddress {
    pub address_type: String,
    pub value: String,
}

/// Gateway spec.
#[derive(Clone, Debug)]
pub struct GatewaySpec {
    pub gateway_class_name: String,
    pub listeners: Vec<Listener>,
    pub addresses: Option<Vec<GatewayAddress>>,
}

/// Gateway resource manifest.
#[derive(Clone, Debug)]
pub struct GatewayManifest {
    pub api_version: String,
    pub kind: String,
    pub metadata: Metadata,
    pub spec: GatewaySpec,
}

/// Path match.
#[derive(Clone, Debug)]
pub struct PathMatch {
    pub match_type: String,
    pub value: String,
}

/// Header match.
#[derive(Clone, Debug)]
pub struct HeaderMatch {
    pub match_type: Option<String>,
    pub name: String,
    pub value: String,
}

/// Query parameter match.
#[derive(Clone, Debug)]
pub struct QueryParamMatch {
    pub match_type: Option<String>,
    pub name: String,
    pub value: String,
}

/// HTTPRoute match.
#[derive(Clone, Debug)]
pub struct HttpRouteMatch {
    pub path: Option<PathMatch>,
    pub headers: Option<Vec<HeaderMatch>>,
    pub query_params: Option<Vec<QueryParamMatch>>,
    pub method: Option<String>,
}

/// Header name-value pair.
#[derive(Clone, Debug)]
pub struct HeaderValue {
    pub name: String,
    pub value: String,
}

/// Header modifier.
#[derive(Clone, Debug)]
pub struct HeaderModifier {
    pub set: Vec<HeaderValue>,
    pub add: Vec<HeaderValue>,
    pub remove: Vec<String>,
}

/// Request redirect.
#[derive(Clone, Debug)]
pub struct RequestRedirect {
    pub scheme: Option<String>,
    pub hostname: Option<String>,
    pub port: Option<u16>,
    pub status_code: Option<u16>,
}

/// Path rewrite.
#[derive(Clone, Debug)]
pub struct PathRewrite {
    pub rewrite_type: String,
    pub replace_prefix_match: Option<String>,
    pub replace_full_path: Option<String>,
}

/// URL rewrite.
#[derive(Clone, Debug)]
pub struct UrlRewrite {
    pub hostname: Option<String>,
    pub path: Option<PathRewrite>,
}

/// HTTPRoute filter.
#[derive(Clone, Debug)]
pub struct HttpRouteFilter {
    pub filter_type: String,
    pub request_header_modifier: Option<HeaderModifier>,
    pub response_header_modifier: Option<HeaderModifier>,
    pub request_redirect: Option<RequestRedirect>,
    pub url_rewrite: Option<UrlRewrite>,
}

/// Backend reference.
#[derive(Clone, Debug)]
pub struct BackendRef {
    pub name: String,
    pub namespace: Option<String>,
    pub port: Option<u16>,
    pub weight: Option<u32>,
}

/// HTTPRoute rule.
#[derive(Clone, Debug)]
pub struct HttpRouteRule {
    pub matches: Option<Vec<HttpRouteMatch>>,
    pub filters: Option<Vec<HttpRouteFilter>>,
    pub backend_refs: Option<Vec<BackendRef>>,
}

/// Parent reference.
#[derive(Clone, Debug)]
pub struct ParentRef {
    pub name: String,
    pub namespace: Option<String>,
    pub section_name: Option<String>,
    pub port: Option<u16>,
}

/// HTTPRoute spec.
#[derive(Clone, Debug)]
pub struct HttpRouteSpec {
    pub parent_refs: Option<Vec<ParentRef>>,
    pub hostnames: Option<Vec<String>>,
    pub rules: Option<Vec<HttpRouteRule>>,
}

/// HTTPRoute resource manifest.
#[derive(Clone, Debug)]
pub struct HttpRouteManifest {
    pub api_version: String,
    pub kind: String,
    pub metadata: Metadata,
    pub spec: HttpRouteSpec,
}

/// Manifest generator bound to a namespace and a GatewayClass.
#[derive(Clone, Debug)]
pub struct ManifestGenerator {
    pub target_namespace: String,
    pub gateway_class: String,
}

impl ManifestGenerator {
    /// A generator for an implementation's GatewayClass, targeting the
    /// `default` namespace.
    pub fn new(gateway_impl: GatewayImpl) -> (r: Self)
        ensures
            r.target_namespace@ == "default"@,
            r.gateway_class@ == gateway_impl.spec_gateway_class(),
    {
        ManifestGenerator {
            target_namespace: String::from_str("default"),
            gateway_class: String::from_str(gateway_impl.gateway_class()),
        }
    }

    /// Set namespace.
    pub fn namespace(self, ns: &str) -> (r: Self)
        ensures
            r.target_namespace@ == ns@,
            r.gateway_class == self.gateway_class,
    {
        ManifestGenerator { target_namespace: String::from_str(ns), ..self }
    }

    fn default_labels(&self) -> (r: Vec<(String, String)>)
        ensures
            r@.len() == 1,
            r@[0].0@ == "app.kubernetes.io/managed-by"@,
            r@[0].1@ == "gateway-poc"@,
    {
        let mut labels: Vec<(String, String)> = Vec::new();
        labels.push(
            (String::from_str("app.kubernetes.io/managed-by"), String::from_str("gateway-poc")),
        );
        labels
    }

    /// A basic Gateway: one HTTP listener on port 80 open to routes from
    /// all namespaces.
    pub fn gateway(&self, name: &str) -> (r: GatewayManifest)
        ensures
            r.api_version@ == "gateway.networking.k8s.io/v1"@,
            r.kind@ == "Gateway"@,
            r.metadata.name@ == name@,
            r.metadata.namespace matches Some(ns) && ns@ == self.target_namespace@,
            r.spec.gateway_class_name@ == self.gateway_class@,
            r.spec.listeners@.len() == 1,
            r.spec.listeners@[0].name@ == "http"@,
            r.spec.listeners@[0].port == 80,
            r.spec.listeners@[0].protocol@ == "HTTP"@,
            r.spec.listeners@[0].tls is None,
            r.spec.addresses is None,
    {
        let mut listeners: Vec<Listener> = Vec::new();
        listeners.push(
            Listener {
                name: String::from_str("http"),
                port: 80,
                protocol: String::from_str("HTTP"),
                hostname: None,
                tls: None,
                allowed_routes: Some(
                    AllowedRoutes {
                        namespaces: Some(
                            RouteNamespaces { from: String::from_str("All"), selector: None },
                        ),
                        kinds: None,
                    },
                ),
            },
        );
        GatewayManifest {
            api_version: String::from_str("gateway.networking.k8s.io/v1"),
            kind: String::from_str("Gateway"),
            metadata: Metadata {
                name: String::from_str(name),
                namespace: Some(self.target_namespace.clone()),
                labels: self.default_labels(),
                annotations: Vec::new(),
            },
            spec: GatewaySpec {
                gateway_class_name: self.gateway_class.clone(),
                listeners,
                addresses: None,
            },
        }
    }

    /// A Gateway with an added HTTPS listener on port 443 terminating TLS
    /// with the given certificate secret.
    pub fn gateway_with_tls(&self, name: &str, secret_name: &str) -> (r: GatewayManifest)
        ensures
            r.api_version@ == "gateway.networking.k8s.io/v1"@,
            r.kind@ == "Gateway"@,
            r.metadata.name@ == name@,
            r.spec.listeners@.len() == 2,
            r.spec.listeners@[0].protocol@ == "HTTP"@,
            r.spec.listeners@[1].name@ == "https"@,
            r.spec.listeners@[1].port == 443,
            r.spec.listeners@[1].protocol@ == "HTTPS"@,
            r.spec.listeners@[1].tls matches Some(t) && t.mode@ == "Terminate"@ && (
            t.certificate_refs matches Some(refs) && refs@.len() == 1 && refs@[0].name@
                == secret_name@),
    {
        let mut gateway = self.gateway(name);
        let mut refs: Vec<SecretRef> = Vec::new();
        refs.push(SecretRef { name: String::from_str(secret_name), namespace: None });
        gateway.spec.listeners.push(
            Listener {
                name: String::from_str("https"),
                port: 443,
                protocol: String::from_str("HTTPS"),
                hostname: None,
                tls: Some(
                    ListenerTls { mode: String::from_str("Terminate"), certificate_refs: Some(refs) },
                ),
                allowed_routes: Some(
                    AllowedRoutes {
                        namespaces: Some(
                            RouteNamespaces { from: String::from_str("All"), selector: None },
                        ),
                        kinds: None,
                    },
                ),
            },
        );
        gateway
    }

    /// A basic HTTPRoute bound to the given Gateway, with no hostnames or
    /// rules yet.
    pub fn http_route(&self, name: &str, gateway_name: &str) -> (r: HttpRouteManifest)
        ensures
            r.api_version@ == "gateway.networking.k8s.io/v1"@,
            r.kind@ == "HTTPRoute"@,
            r.metadata.name@ == name@,
            r.metadata.namespace matches Some(ns) && ns@ == self.target_namespace@,
            r.spec.parent_refs matches Some(p) && p@.len() == 1 && p@[0].name@ == gateway_name@,
            r.spec.hostnames is None,
            r.spec.rules is None,
    {
        let mut parent_refs: Vec<ParentRef> = Vec::new();
        parent_refs.push(
            ParentRef {
                name: String::from_str(gateway_name),
                namespace: Some(self.target_namespace.clone()),
                section_name: None,
                port: None,
            },
        );
        HttpRouteManifest {
            api_version: String::from_str("gateway.networking.k8s.io/v1"),
            kind: String::from_str("HTTPRoute"),
            metadata: Metadata {
                name: String::from_str(name),
                namespace: Some(self.target_namespace.clone()),
                labels: self.default_labels(),
                annotations: Vec::new(),
            },
            spec: HttpRouteSpec { parent_refs: Some(parent_refs), hostnames: None, rules: None },
        }
    }

    /// An HTTPRoute matching a path prefix and routing it to one backend.
    pub fn http_route_path(
        &self,
        name: &str,
        gateway_name: &str,
        path: &str,
        backend: &str,
        port: u16,
    ) -> (r: HttpRouteManifest)
        ensures
            r.metadata.name@ == name@,
            r.spec.rules matches Some(rules) && rules@.len() == 1 && {
                &&& rules@[0].matches matches Some(m) && m@.len() == 1 && (m@[0].path
                    matches Some(pm) && pm.match_type@ == "PathPrefix"@ && pm.value@ == path@)
                &&& rules@[0].backend_refs matches Some(b) && b@.len() == 1 && b@[0].name@
                    == backend@ && b@[0].port == Some(port)
            },
    {
        let mut route = self.http_route(name, gateway_name);
        let mut matches: Vec<HttpRouteMatch> = Vec::new();
        matches.push(
            HttpRouteMatch {
                path: Some(
                    PathMatch {
                        match_type: String::from_str("PathPrefix"),
                        value: String::from_str(path),
                    },
                ),
                headers: None,
                query_params: None,
                method: None,
            },
        );
        let mut backend_refs: Vec<BackendRef> = Vec::new();
        backend_refs.push(
            BackendRef {
                name: String::from_str(backend),
                namespace: None,
                port: Some(port),
                weight: None,
            },
        );
        let mut rules: Vec<HttpRouteRule> = Vec::new();
        rules.push(
            HttpRouteRule { matches: Some(matches), filters: None, backend_refs: Some(backend_refs) },
        );
        route.spec.rules = Some(rules);
        route
    }

    /// An HTTPRoute for one hostname routed to one backend.
    pub fn http_route_host(
        &self,
        name: &str,
        gateway_name: &str,
        hostname: &str,
        backend: &str,
        port: u16,
    ) -> (r: HttpRouteManifest)
        ensures
            r.metadata.name@ == name@,
            r.spec.hostnames matches Some(h) && h@.len() == 1 && h@[0]@ == hostname@,
            r.spec.rules matches Some(rules) && rules@.len() == 1 && rules@[0].matches is None
                && (rules@[0].backend_refs matches Some(b) && b@.len() == 1 && b@[0].name@
                == backend@ && b@[0].port == Some(port)),
    {
        let mut route = self.http_route(name, gateway_name);
        let mut hostnames: Vec<String> = Vec::new();
        hostnames.push(String::from_str(hostname));
        route.spec.hostnames = Some(hostnames);
        let mut backend_refs: Vec<BackendRef> = Vec::new();
        backend_refs.push(
            BackendRef {
                name: String::from_str(backend),
                namespace: None,
                port: Some(port),
                weight: None,
            },
        );
        let mut rules: Vec<HttpRouteRule> = Vec::new();
        rules.push(HttpRouteRule { matches: None, filters: None, backend_refs: Some(backend_refs) });
        route.spec.rules = Some(rules);
        route
    }

    /// An HTTPRoute matching one exact header and routing it to a backend.
    pub fn http_route_header(
        &self,
        name: &str,
        gateway_name: &str,
        header_name: &str,
        header_value: &str,
        backend: &str,
        port: u16,
    ) -> (r: HttpRouteManifest)
        ensures
            r.metadata.name@ == name@,
            r.spec.rules matches Some(rules) && rules@.len() == 1 && {
                &&& rules@[0].matches matches Some(m) && m@.len() == 1 && (m@[0].headers
                    matches Some(h) && h@.len() == 1 && h@[0].name@ == header_name@
                    && h@[0].value@ == header_value@ && (h@[0].match_type matches Some(t) && t@
                    == "Exact"@))
                &&& rules@[0].backend_refs matches Some(b) && b@.len() == 1 && b@[0].name@
                    == backend@
            },
    {
        let mut route = self.http_route(name, gateway_name);
        let mut headers: Vec<HeaderMatch> = Vec::new();
        headers.push(
            HeaderMatch {
                match_type: Some(String::from_str("Exact")),
                name: String::from_str(header_name),
                value: String::from_str(header_value),
            },
        );
        let mut matches: Vec<HttpRouteMatch> = Vec::new();
        matches.push(
            HttpRouteMatch { path: None, headers: Some(headers), query_params: None, method: None },
        );
        let mut backend_refs: Vec<BackendRef> = Vec::new();
        backend_refs.push(
            BackendRef {
                name: String::from_str(backend),
                namespace: None,
                port: Some(port),
                weight: None,
            },
        );
        let mut rules: Vec<HttpRouteRule> = Vec::new();
        rules.push(
            HttpRouteRule { matches: Some(matches), filters: None, backend_refs: Some(backend_refs) },
        );
        route.spec.rules = Some(rules);
        route
    }

    /// An HTTPRoute splitting traffic between a stable and a canary
    /// backend; the stable backend carries the rest of the hundred-weight.
    pub fn http_route_canary(
        &self,
        name: &str,
        gateway_name: &str,
        stable_backend: &str,
        canary_backend: &str,
        canary_weight: u32,
        port: u16,
    ) -> (r: HttpRouteManifest)
        requires
            canary_weight <= 100,
        ensures
            r.metadata.name@ == name@,
            r.spec.rules matches Some(rules) && rules@.len() == 1 && (rules@[0].backend_refs
                matches Some(b) && b@.len() == 2 && {
                &&& b@[0].name@ == stable_backend@
                &&& b@[0].weight == Some((100 - canary_weight) as u32)
                &&& b@[1].name@ == canary_backend@
                &&& b@[1].weight == Some(canary_weight)
                &&& b@[0].port == Some(port)
                &&& b@[1].port == Some(port)
            }),
    {
        let stable_weight = 100 - canary_weight;
        let mut route = self.http_route(name, gateway_name);
        let mut backend_refs: Vec<BackendRef> = Vec::new();
        backend_refs.push(
            BackendRef {
                name: String::from_str(stable_backend),
                namespace: None,
                port: Some(port),
                weight: Some(stable_weight),
            },
        );
        backend_refs.push(
            BackendRef {
                name: String::from_str(canary_backend),
                namespace: None,
                port: Some(port),
                weight: Some(canary_weight),
            },
        );
        let mut rules: Vec<HttpRouteRule> = Vec::new();
        rules.push(HttpRouteRule { matches: None, filters: None, backend_refs: Some(backend_refs) });
        route.spec.rules = Some(rules);
        route
    }

    /// An HTTPRoute permanently redirecting everything to HTTPS on 443.
    pub fn http_route_redirect_https(&self, name: &str, gateway_name: &str) -> (r:
        HttpRouteManifest)
        ensures
            r.metadata.name@ == name@,
            r.spec.rules matches Some(rules) && rules@.len() == 1 && (rules@[0].filters
                matches Some(f) && f@.len() == 1 && {
                &&& f@[0].filter_type@ == "RequestRedirect"@
                &&& f@[0].request_redirect matches Some(rd) && (rd.scheme matches Some(sc)
                    && sc@ == "https"@) && rd.port == Some(443u16) && rd.status_code == Some(
                    301u16,
                )
            }) && rules@[0].backend_refs is None,
    {
        let mut route = self.http_route(name, gateway_name);
        let mut filters: Vec<HttpRouteFilter> = Vec::new();
        filters.push(
            HttpRouteFilter {
                filter_type: String::from_str("RequestRedirect"),
                request_header_modifier: None,
                response_header_modifier: None,
                request_redirect: Some(
                    RequestRedirect {
                        scheme: Some(String::from_str("https")),
                        hostname: None,
                        port: Some(443),
                        status_code: Some(301),
                    },
                ),
                url_rewrite: None,
            },
        );
        let mut rules: Vec<HttpRouteRule> = Vec::new();
        rules.push(HttpRouteRule { matches: None, filters: Some(filters), backend_refs: None });
        route.spec.rules = Some(rules);
        route
    }

    /// An HTTPRoute rewriting a path prefix before forwarding to a backend.
    pub fn http_route_rewrite(
        &self,
        name: &str,
        gateway_name: &str,
        path_prefix: &str,
        replace_with: &str,
        backend: &str,
        port: u16,
    ) -> (r: HttpRouteManifest)
        ensures
            r.metadata.name@ == name@,
            r.spec.rules matches Some(rules) && rules@.len() == 1 && {
                &&& rules@[0].matches matches Some(m) && m@.len() == 1 && (m@[0].path
                    matches Some(pm) && pm.value@ == path_prefix@)
                &&& rules@[0].filters matches Some(f) && f@.len() == 1 && f@[0].filter_type@
                    == "URLRewrite"@ && (f@[0].url_rewrite matches Some(rw) && (rw.path
                    matches Some(pr) && pr.rewrite_type@ == "ReplacePrefixMatch"@ && (
                    pr.replace_prefix_match matches Some(rp) && rp@ == replace_with@)))
                &&& rules@[0].backend_refs matches Some(b) && b@.len() == 1 && b@[0].name@
                    == backend@
            },
    {
        let mut route = self.http_route(name, gateway_name);
        let mut matches: Vec<HttpRouteMatch> = Vec::new();
        matches.push(
            HttpRouteMatch {
                path: Some(
                    PathMatch {
                        match_type: String::from_str("PathPrefix"),
                        value: String::from_str(path_prefix),
                    },
                ),
                headers: None,
                query_params: None,
                method: None,
            },
        );
        let mut filters: Vec<HttpRouteFilter> = Vec::new();
        filters.push(
            HttpRouteFilter {
                filter_type: String::from_str("URLRewrite"),
                request_header_modifier: None,
                response_header_modifier: None,
                request_redirect: None,
                url_rewrite: Some(
                    UrlRewrite {
                        hostname: None,
                        path: Some(
                            PathRewrite {
                                rewrite_type: String::from_str("ReplacePrefixMatch"),
                                replace_prefix_match: Some(String::from_str(replace_with)),
                                replace_full_path: None,
                            },
                        ),
                    },
                ),
            },
        );
        let mut backend_refs: Vec<BackendRef> = Vec::new();
        backend_refs.push(
            BackendRef {
                name: String::from_str(backend),
                namespace: None,
                port: Some(port),
                weight: None,
            },
        );
        let mut rules: Vec<HttpRouteRule> = Vec::new();
        rules.push(
            HttpRouteRule {
                matches: Some(matches),
                filters: Some(filters),
                backend_refs: Some(backend_refs),
            },
        );
        route.spec.rules = Some(rules);
        route
    }
}

} // verus!
