//! HTTPRoute custom resource data model and builders.  Cluster operations
//! on it run outside the verified core.

use vstd::prelude::*;

verus! {

/// Parent reference (a gateway).
#[derive(Clone, Debug, Default)]
pub struct ParentRef {
    /// Name of the parent resource
    pub name: String,
    /// Namespace of the parent resource
    pub namespace: Option<String>,
    /// Kind of the parent resource
    pub kind: Option<String>,
    /// Section name within the parent
    pub section_name: Option<String>,
}

/// Path match configuration.
#[derive(Clone, Debug, Default)]
pub struct HTTPPathMatch {
    /// Match type (Exact, PathPrefix, RegularExpression)
    pub match_type: Option<String>,
    /// Path value
    pub value: String,
}

/// Header match configuration.
#[derive(Clone, Debug, Default)]
pub struct HTTPHeaderMatch {
    /// Header name
    pub name: String,
    /// Match type (Exact, RegularExpression)
    pub match_type: Option<String>,
    /// Header value
    pub value: String,
}

/// Query parameter match.
#[derive(Clone, Debug, Default)]
pub struct HTTPQueryParamMatch {
    /// Parameter name
    pub name: String,
    /// Match type
    pub match_type: Option<String>,
    /// Parameter value
    pub value: String,
}

/// HTTPRoute match conditions.
#[derive(Clone, Debug, Default)]
pub struct HTTPRouteMatch {
    /// Path match
    pub path: Option<HTTPPathMatch>,
    /// Header matches
    pub headers: Vec<HTTPHeaderMatch>,
    /// Query parameter matches
    pub query_params: Vec<HTTPQueryParamMatch>,
    /// HTTP method
    pub method: Option<String>,
}

/// Backend reference.
#[derive(Clone, Debug, Default)]
pub struct HTTPBackendRef {
    /// Name of the backend service
    pub name: String,
    /// Port of the backend service
    pub port: Option<u16>,
    /// Weight for traffic splitting
    pub weight: Option<i32>,
    /// Namespace of the backend
    pub namespace: Option<String>,
    /// Kind of the backend
    pub kind: Option<String>,
}

/// HTTP header name-value pair.
#[derive(Clone, Debug, Default)]
pub struct HTTPHeader {
    /// Header name
    pub name: String,
    /// Header value
    pub value: String,
}

/// Header modifier.
#[derive(Clone, Debug, Default)]
pub struct HTTPHeaderModifier {
    /// Headers to add
    pub add: Vec<HTTPHeader>,
    /// Headers to set
    pub set: Vec<HTTPHeader>,
    /// Headers to remove
    pub remove: Vec<String>,
}

/// Path modifier for redirect or rewrite.
#[derive(Clone, Debug, Default)]
pub struct HTTPPathModifier {
    /// Modifier type (ReplaceFullPath, ReplacePrefixMatch)
    pub modifier_type: String,
    /// Replace-full-path value
    pub replace_full_path: Option<String>,
    /// Replace-prefix-match value
    pub replace_prefix_match: Option<String>,
}

/// Request redirect configuration.
#[derive(Clone, Debug, Default)]
pub struct HTTPRequestRedirect {
    /// Redirect scheme
    pub scheme: Option<String>,
    /// Redirect hostname
    pub hostname: Option<String>,
    /// Redirect path
    pub path: Option<HTTPPathModifier>,
    /// Redirect port
    pub port: Option<u16>,
    /// Status code
    pub status_code: Option<u16>,
}

/// URL rewrite configuration.
#[derive(Clone, Debug, Default)]
pub struct HTTPURLRewrite {
    /// Hostname rewrite
    pub hostname: Option<String>,
    /// Path rewrite
    pub path: Option<HTTPPathModifier>,
}

/// HTTPRoute filter.
#[derive(Clone, Debug, Default)]
pub struct HTTPRouteFilter {
    /// Filter type
    pub filter_type: String,
    /// Request header modifier
    pub request_header_modifier: Option<HTTPHeaderModifier>,
    /// Response header modifier
    pub response_header_modifier: Option<HTTPHeaderModifier>,
    /// Request redirect
    pub request_redirect: Option<HTTPRequestRedirect>,
    /// URL rewrite
    pub url_rewrite: Option<HTTPURLRewrite>,
}

/// Timeout configuration.
#[derive(Clone, Debug, Default)]
pub struct HTTPRouteTimeouts {
    /// Request timeout
    pub request: Option<String>,
    /// Backend request timeout
    pub backend_request: Option<String>,
}

/// HTTPRoute routing rule.
#[derive(Clone, Debug, Default)]
pub struct HTTPRouteRule {
    /// Match conditions
    pub matches: Vec<HTTPRouteMatch>,
    /// Backend references
    pub backend_refs: Vec<HTTPBackendRef>,
    /// Filters to apply
    pub filters: Vec<HTTPRouteFilter>,
    /// Timeout configuration
    pub timeouts: Option<HTTPRouteTimeouts>,
}

/// HTTPRoute specification.
#[derive(Clone, Debug, Default)]
pub struct HTTPRouteSpec {
    /// Parent references (gateways)
    pub parent_refs: Vec<ParentRef>,
    /// Hostnames for this route
    pub hostnames: Vec<String>,
    /// Routing rules
    pub rules: Vec<HTTPRouteRule>,
}

/// Route condition.
#[derive(Clone, Debug, Default)]
pub struct RouteCondition {
    /// Condition type
    pub condition_type: String,
    /// Status
    pub status: String,
    /// Reason
    pub reason: Option<String>,
    /// Message
    pub message: Option<String>,
}

/// Route parent status.
#[derive(Clone, Debug, Default)]
pub struct RouteParentStatus {
    /// Parent reference
    pub parent_ref: ParentRef,
    /// Controller name
    pub controller_name: String,
    /// Conditions
    pub conditions: Vec<RouteCondition>,
}

/// HTTPRoute status.
#[derive(Clone, Debug, Default)]
pub struct HTTPRouteStatus {
    /// Parent statuses
    pub parents: Vec<RouteParentStatus>,
}

/// Object metadata of an HTTPRoute.
#[derive(Clone, Debug, Default)]
pub struct HTTPRouteMeta {
    /// Resource name
    pub name: Option<String>,
    /// Resource namespace
    pub namespace: Option<String>,
}

/// A complete HTTPRoute object: metadata, spec and (optionally) status.
#[derive(Clone, Debug, Default)]
pub struct HTTPRoute {
    pub metadata: HTTPRouteMeta,
    pub spec: HTTPRouteSpec,
    pub status: Option<HTTPRouteStatus>,
}

/// HTTPRoute builder.
#[derive(Clone, Debug)]
pub struct HTTPRouteBuilder {
    pub route_name: String,
    pub route_namespace: String,
    pub parent_refs: Vec<ParentRef>,
    pub hostnames: Vec<String>,
    pub rules: Vec<HTTPRouteRule>,
}

impl HTTPRouteBuilder {
    /// A new builder with nothing attached yet.
    pub fn new(name: &str, namespace: &str) -> (r: Self)
        ensures
            r.route_name@ == name@,
            r.route_namespace@ == namespace@,
            r.parent_refs@.len() == 0,
            r.hostnames@.len() == 0,
            r.rules@.len() == 0,
    {
        HTTPRouteBuilder {
            route_name: String::from_str(name),
            route_namespace: String::from_str(namespace),
            parent_refs: Vec::new(),
            hostnames: Vec::new(),
            rules: Vec::new(),
        }
    }

    /// Add a parent reference (gateway).
    pub fn parent_ref(self, gateway_name: &str) -> (r: Self)
        ensures
            r.parent_refs@.len() == self.parent_refs@.len() + 1,
            r.parent_refs@.last().name@ == gateway_name@,
            r.parent_refs@.last().namespace is None,
            r.route_name == self.route_name,
            r.hostnames == self.hostnames,
            r.rules == self.rules,
    {
        let mut b = self;
        b.parent_refs.push(
            ParentRef {
                name: String::from_str(gateway_name),
                namespace: None,
                kind: None,
                section_name: None,
            },
        );
        b
    }

    /// Add a parent reference with a namespace.
    pub fn parent_ref_namespaced(self, gateway_name: &str, namespace: &str) -> (r: Self)
        ensures
            r.parent_refs@.len() == self.parent_refs@.len() + 1,
            r.parent_refs@.last().name@ == gateway_name@,
            r.parent_refs@.last().namespace matches Some(ns) && ns@ == namespace@,
            r.route_name == self.route_name,
            r.hostnames == self.hostnames,
            r.rules == self.rules,
    {
        let mut b = self;
        b.parent_refs.push(
            ParentRef {
                name: String::from_str(gateway_name),
                namespace: Some(String::from_str(namespace)),
                kind: None,
                section_name: None,
            },
        );
        b
    }

    /// Add a hostname.
    pub fn hostname(self, hostname: &str) -> (r: Self)
        ensures
            r.hostnames@.len() == self.hostnames@.len() + 1,
            r.hostnames@.last()@ == hostname@,
            r.route_name == self.route_name,
            r.parent_refs == self.parent_refs,
            r.rules == self.rules,
    {
        let mut b = self;
        b.hostnames.push(String::from_str(hostname));
        b
    }

    /// Add a rule.
    pub fn rule(self, rule: HTTPRouteRule) -> (r: Self)
        ensures
            r.rules@.len() == self.rules@.len() + 1,
            r.rules@.last() == rule,
            r.route_name == self.route_name,
            r.parent_refs == self.parent_refs,
            r.hostnames == self.hostnames,
    {
        let mut b = self;
        b.rules.push(rule);
        b
    }

    /// Build the HTTPRoute: the name goes into the metadata, and the
    /// collected parents, hostnames and rules form the spec.
    pub fn build(self) -> (r: HTTPRoute)
        ensures
            r.metadata.name matches Some(n) && n@ == self.route_name@,
            r.metadata.namespace is None,
            r.spec.parent_refs == self.parent_refs,
            r.spec.hostnames == self.hostnames,
            r.spec.rules == self.rules,
            r.status is None,
    {
        HTTPRoute {
            metadata: HTTPRouteMeta { name: Some(self.route_name), namespace: None },
            spec: HTTPRouteSpec {
                parent_refs: self.parent_refs,
                hostnames: self.hostnames,
                rules: self.rules,
            },
            status: None,
        }
    }
}

/// Rule builder for HTTPRoute rules.
#[derive(Clone, Debug)]
pub struct RuleBuilder {
    pub matches: Vec<HTTPRouteMatch>,
    pub backend_refs: Vec<HTTPBackendRef>,
    pub filters: Vec<HTTPRouteFilter>,
    pub timeouts: Option<HTTPRouteTimeouts>,
}

impl RuleBuilder {
    /// An empty rule.
    pub fn new() -> (r: Self)
        ensures
            r.matches@.len() == 0,
            r.backend_refs@.len() == 0,
            r.filters@.len() == 0,
            r.timeouts is None,
    {
        RuleBuilder { matches: Vec::new(), backend_refs: Vec::new(), filters: Vec::new(), timeouts: None }
    }

    /// Add a path-prefix match.
    pub fn path_prefix(self, prefix: &str) -> (r: Self)
        ensures
            r.matches@.len() == self.matches@.len() + 1,
            r.matches@.last().path matches Some(p) && p.value@ == prefix@ && (p.match_type
                matches Some(t) && t@ == "PathPrefix"@),
            r.backend_refs == self.backend_refs,
            r.filters == self.filters,
    {
        let mut b = self;
        b.matches.push(
            HTTPRouteMatch {
                path: Some(
                    HTTPPathMatch {
                        match_type: Some(String::from_str("PathPrefix")),
                        value: String::from_str(prefix),
                    },
                ),
                headers: Vec::new(),
                query_params: Vec::new(),
                method: None,
            },
        );
        b
    }

    /// Add an exact path match.
    pub fn path_exact(self, path: &str) -> (r: Self)
        ensures
            r.matches@.len() == self.matches@.len() + 1,
            r.matches@.last().path matches Some(p) && p.value@ == path@ && (p.match_type
                matches Some(t) && t@ == "Exact"@),
            r.backend_refs == self.backend_refs,
            r.filters == self.filters,
    {
        let mut b = self;
        b.matches.push(
            HTTPRouteMatch {
                path: Some(
                    HTTPPathMatch {
                        match_type: Some(String::from_str("Exact")),
                        value: String::from_str(path),
                    },
                ),
                headers: Vec::new(),
                query_params: Vec::new(),
                method: None,
            },
        );
        b
    }

    /// Add an exact header match, onto the last match entry if one exists
    /// and as a new entry otherwise.
    pub fn header(self, name: &str, value: &str) -> (r: Self)
        ensures
            self.matches@.len() == 0 ==> r.matches@.len() == 1,
            self.matches@.len() > 0 ==> r.matches@.len() == self.matches@.len(),
            r.matches@.last().headers@.len() > 0,
            r.matches@.last().headers@.last().name@ == name@,
            r.matches@.last().headers@.last().value@ == value@,
            r.backend_refs == self.backend_refs,
            r.filters == self.filters,
    {
        let mut b = self;
        let entry = HTTPHeaderMatch {
            name: String::from_str(name),
            match_type: Some(String::from_str("Exact")),
            value: String::from_str(value),
        };
        let n = b.matches.len();
        if n > 0 {
            let mut m = b.matches.remove(n - 1);
            m.headers.push(entry);
            b.matches.push(m);
        } else {
            b.matches.push(
                HTTPRouteMatch {
                    path: None,
                    headers: {
                        let mut hs: Vec<HTTPHeaderMatch> = Vec::new();
                        hs.push(entry);
                        hs
                    },
                    query_params: Vec::new(),
                    method: None,
                },
            );
        }
        b
    }

    /// Add a backend service.
    pub fn backend(self, name: &str, port: u16) -> (r: Self)
        ensures
            r.backend_refs@.len() == self.backend_refs@.len() + 1,
            r.backend_refs@.last().name@ == name@,
            r.backend_refs@.last().port == Some(port),
            r.backend_refs@.last().weight is None,
            r.matches == self.matches,
            r.filters == self.filters,
    {
        let mut b = self;
        b.backend_refs.push(
            HTTPBackendRef {
                name: String::from_str(name),
                port: Some(port),
                weight: None,
                namespace: None,
                kind: None,
            },
        );
        b
    }

    /// Add a backend with a traffic weight.
    pub fn backend_with_weight(self, name: &str, port: u16, weight: i32) -> (r: Self)
        ensures
            r.backend_refs@.len() == self.backend_refs@.len() + 1,
            r.backend_refs@.last().name@ == name@,
            r.backend_refs@.last().port == Some(port),
            r.backend_refs@.last().weight == Some(weight),
            r.matches == self.matches,
            r.filters == self.filters,
    {
        let mut b = self;
        b.backend_refs.push(
            HTTPBackendRef {
                name: String::from_str(name),
                port: Some(port),
                weight: Some(weight),
                namespace: None,
                kind: None,
            },
        );
        b
    }

    /// Add a permanent redirect to HTTPS.
    pub fn redirect_https(self) -> (r: Self)
        ensures
            r.filters@.len() == self.filters@.len() + 1,
            r.filters@.last().filter_type@ == "RequestRedirect"@,
            r.filters@.last().request_redirect matches Some(rd) && (rd.scheme matches Some(sc)
                && sc@ == "https"@) && rd.status_code == Some(301u16),
            r.matches == self.matches,
            r.backend_refs == self.backend_refs,
    {
        let mut b = self;
        b.filters.push(
            HTTPRouteFilter {
                filter_type: String::from_str("RequestRedirect"),
                request_header_modifier: None,
                response_header_modifier: None,
                request_redirect: Some(
                    HTTPRequestRedirect {
                        scheme: Some(String::from_str("https")),
                        hostname: None,
                        path: None,
                        port: None,
                        status_code: Some(301),
                    },
                ),
                url_rewrite: None,
            },
        );
        b
    }

    /// Add a full-path URL rewrite.
    pub fn url_rewrite(self, path: &str) -> (r: Self)
        ensures
            r.filters@.len() == self.filters@.len() + 1,
            r.filters@.last().filter_type@ == "URLRewrite"@,
            r.filters@.last().url_rewrite matches Some(rw) && (rw.path matches Some(p)
                && p.modifier_type@ == "ReplaceFullPath"@ && (p.replace_full_path matches Some(fp)
                && fp@ == path@)),
            r.matches == self.matches,
            r.backend_refs == self.backend_refs,
    {
        let mut b = self;
        b.filters.push(
            HTTPRouteFilter {
                filter_type: String::from_str("URLRewrite"),
                request_header_modifier: None,
                response_header_modifier: None,
                request_redirect: None,
                url_rewrite: Some(
                    HTTPURLRewrite {
                        hostname: None,
                        path: Some(
                            HTTPPathModifier {
                                modifier_type: String::from_str("ReplaceFullPath"),
                                replace_full_path: Some(String::from_str(path)),
                                replace_prefix_match: None,
                            },
                        ),
                    },
                ),
            },
        );
        b
    }

    /// Set the request timeout.
    pub fn timeout(self, duration: &str) -> (r: Self)
        ensures
            r.timeouts matches Some(t) && (t.request matches Some(d) && d@ == duration@)
                && t.backend_request is None,
            r.matches == self.matches,
            r.backend_refs == self.backend_refs,
            r.filters == self.filters,
    {
        RuleBuilder {
            timeouts: Some(
                HTTPRouteTimeouts { request: Some(String::from_str(duration)), backend_request: None },
            ),
            ..self
        }
    }

    /// Build the rule.
    pub fn build(self) -> (r: HTTPRouteRule)
        ensures
            r.matches == self.matches,
            r.backend_refs == self.backend_refs,
            r.filters == self.filters,
            r.timeouts == self.timeouts,
    {
        HTTPRouteRule {
            matches: self.matches,
            backend_refs: self.backend_refs,
            filters: self.filters,
            timeouts: self.timeouts,
        }
    }
}

impl Default for RuleBuilder {
    /// An empty rule.
    fn default() -> (r: Self)
        ensures
            r.matches@.len() == 0,
            r.backend_refs@.len() == 0,
            r.filters@.len() == 0,
            r.timeouts is None,
    {
        RuleBuilder::new()
    }
}

} // verus!
