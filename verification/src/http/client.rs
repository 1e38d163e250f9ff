//! HTTP request and response models and the pure pieces of the client:
//! URL assembly, status classification and load-test bookkeeping.

use vstd::prelude::*;

use crate::kvlist::{kv_get, kv_insert, kv_unique};
use crate::util::{spec_contains, spec_lower, contains_str, str_eq_ignore_ascii_case};

verus! {

/// HTTP client errors, carried as plain values.
#[derive(Clone, Debug)]
pub enum HttpError {
    /// The request failed for another reason, with its description
    RequestFailed(String),
    /// The request timed out after this many seconds
    Timeout(u64),
    /// The connection was refused to this URL
    ConnectionRefused(String),
    /// The URL could not be parsed
    InvalidUrl(String),
    /// A TLS failure, with its description
    TlsError(String),
}

/// HTTP request builder.
#[derive(Clone, Debug)]
pub struct HttpRequest {
    pub method: String,
    pub url: String,
    pub headers: Vec<(String, String)>,
    pub body: Option<String>,
}

impl HttpRequest {
    /// The headers hold each name once.
    pub open spec fn wf(&self) -> bool {
        kv_unique(self.headers@)
    }

    /// A request with the given method and URL and nothing else.
    pub fn new(method: &str, url: &str) -> (r: Self)
        ensures
            r.wf(),
            r.method@ == method@,
            r.url@ == url@,
            r.headers@.len() == 0,
            r.body is None,
    {
        HttpRequest {
            method: String::from_str(method),
            url: String::from_str(url),
            headers: Vec::new(),
            body: None,
        }
    }

    /// A GET request.
    pub fn get(url: &str) -> (r: Self)
        ensures
            r.wf(),
            r.method@ == "GET"@,
            r.url@ == url@,
            r.headers@.len() == 0,
            r.body is None,
    {
        HttpRequest::new("GET", url)
    }

    /// A POST request.
    pub fn post(url: &str) -> (r: Self)
        ensures
            r.wf(),
            r.method@ == "POST"@,
            r.url@ == url@,
            r.headers@.len() == 0,
            r.body is None,
    {
        HttpRequest::new("POST", url)
    }

    /// A PUT request.
    pub fn put(url: &str) -> (r: Self)
        ensures
            r.wf(),
            r.method@ == "PUT"@,
            r.url@ == url@,
            r.headers@.len() == 0,
            r.body is None,
    {
        HttpRequest::new("PUT", url)
    }

    /// A DELETE request.
    pub fn delete(url: &str) -> (r: Self)
        ensures
            r.wf(),
            r.method@ == "DELETE"@,
            r.url@ == url@,
            r.headers@.len() == 0,
            r.body is None,
    {
        HttpRequest::new("DELETE", url)
    }

    /// Set one header, replacing any earlier value under the same name.
    pub fn header(self, key: &str, value: &str) -> (r: Self)
        requires
            self.wf(),
        ensures
            r.wf(),
            r.method == self.method,
            r.url == self.url,
            r.body == self.body,
            kv_get(r.headers@, key@) matches Some(v) && v@ == value@,
            forall|k2: Seq<char>| k2 != key@ ==> kv_get(r.headers@, k2) == kv_get(
                self.headers@,
                k2,
            ),
    {
        let mut req = self;
        kv_insert(&mut req.headers, key, String::from_str(value));
        req
    }

    /// Merge headers in: a merged name ends up holding the last value the
    /// list gives it, and every other name keeps its value.
    pub fn headers(self, headers: Vec<(String, String)>) -> (r: Self)
        requires
            self.wf(),
        ensures
            r.wf(),
            r.method == self.method,
            r.url == self.url,
            r.body == self.body,
            forall|k: Seq<char>|
                match #[trigger] spec_last_value(headers@, k) {
                    Some(v) => kv_get(r.headers@, k) matches Some(sv) && sv@ == v,
                    None => kv_get(r.headers@, k) == kv_get(self.headers@, k),
                },
    {
        let mut req = self;
        let mut i: usize = 0;
        while i < headers.len()
            invariant
                i <= headers@.len(),
                req.wf(),
                req.method == self.method,
                req.url == self.url,
                req.body == self.body,
                forall|k: Seq<char>|
                    match #[trigger] spec_last_value(headers@.subrange(0, i as int), k) {
                        Some(v) => kv_get(req.headers@, k) matches Some(sv) && sv@ == v,
                        None => kv_get(req.headers@, k) == kv_get(self.headers@, k),
                    },
            decreases headers@.len() - i,
        {
            let k = headers[i].0.clone();
            let v = headers[i].1.clone();
            let ghost pre_headers = req.headers@;
            kv_insert(&mut req.headers, k.as_str(), v);
            proof {
                let pre = headers@.subrange(0, i as int);
                let ext = headers@.subrange(0, i as int + 1);
                assert(ext.drop_last() =~= pre);
                assert(ext.last() == headers@[i as int]);
                assert forall|k2: Seq<char>|
                    match #[trigger] spec_last_value(ext, k2) {
                        Some(v2) => kv_get(req.headers@, k2) matches Some(sv) && sv@ == v2,
                        None => kv_get(req.headers@, k2) == kv_get(self.headers@, k2),
                    } by {
                    if k2 == k@ {
                        assert(ext.last().0@ == k2);
                        assert(spec_last_value(ext, k2) == Some(ext.last().1@));
                    } else {
                        assert(spec_last_value(ext, k2) == spec_last_value(pre, k2));
                        assert(kv_get(req.headers@, k2) == kv_get(pre_headers, k2));
                    }
                }
            }
            i += 1;
        }
        proof {
            assert(headers@.subrange(0, headers@.len() as int) =~= headers@);
        }
        req
    }

    /// Set the body.
    pub fn body(self, body: &str) -> (r: Self)
        ensures
            r.method == self.method,
            r.url == self.url,
            r.headers == self.headers,
            r.body matches Some(b) && b@ == body@,
    {
        HttpRequest { body: Some(String::from_str(body)), ..self }
    }
}

/// The value the last matching entry of a header list gives a name, if
/// any entry names it.
pub open spec fn spec_last_value(s: Seq<(String, String)>, k: Seq<char>) -> Option<Seq<char>>
    decreases s.len(),
{
    if s.len() == 0 {
        None
    } else if s.last().0@ == k {
        Some(s.last().1@)
    } else {
        spec_last_value(s.drop_last(), k)
    }
}

/// Trailing slashes removed, as base URLs are normalized before a path is
/// appended.
pub open spec fn spec_trim_trailing_slashes(s: Seq<char>) -> Seq<char>
    decreases s.len(),
{
    if s.len() > 0 && s.last() == '/' {
        spec_trim_trailing_slashes(s.drop_last())
    } else {
        s
    }
}

/// Whether a path already names an absolute URL.
pub open spec fn spec_is_absolute_url(p: Seq<char>) -> bool {
    p.len() >= "http://"@.len() && p.subrange(0, 7) == "http://"@ || p.len() >= "https://"@.len()
        && p.subrange(0, 8) == "https://"@
}

/// The full URL for a request path: an absolute path is used as is,
/// otherwise it is appended to the base (normalized of trailing slashes);
/// with no base the path stands alone.
pub open spec fn spec_build_url(base: Option<Seq<char>>, path: Seq<char>) -> Seq<char> {
    match base {
        Some(b) => if spec_is_absolute_url(path) {
            path
        } else {
            spec_trim_trailing_slashes(b) + path
        },
        None => path,
    }
}

proof fn lemma_trim_trailing_at(s: Seq<char>, b: int)
    requires
        0 <= b <= s.len(),
        forall|k: int| b <= k < s.len() ==> (#[trigger] s[k]) == '/',
        b > 0 ==> s[b - 1] != '/',
    ensures
        spec_trim_trailing_slashes(s) == s.subrange(0, b),
    decreases s.len() - b,
{
    if b == s.len() {
        assert(s.subrange(0, b) =~= s);
        if s.len() > 0 {
            assert(s.last() != '/');
        }
    } else {
        assert(s.last() == '/');
        let t = s.drop_last();
        assert(forall|k: int| b <= k < t.len() ==> (#[trigger] t[k]) == '/');
        lemma_trim_trailing_at(t, b);
        assert(t.subrange(0, b) =~= s.subrange(0, b));
    }
}

/// Build the full URL from an optional base and a path.
pub fn build_url(base: &Option<String>, path: &str) -> (r: String)
    ensures
        r@ == spec_build_url(
            match base {
                Some(b) => Some(b@),
                None => None,
            },
            path@,
        ),
{
    match base {
        Some(b) => {
            proof {
                reveal_strlit("http://");
                reveal_strlit("https://");
            }
            if crate::util::starts_with_str(path, "http://") || crate::util::starts_with_str(
                path,
                "https://",
            ) {
                path.to_owned()
            } else {
                let bs = b.as_str();
                let n = bs.unicode_len();
                let mut e: usize = n;
                while e > 0 && bs.get_char(e - 1) == '/'
                    invariant
                        n == bs@.len(),
                        e <= n,
                        forall|k: int| e <= k < n ==> (#[trigger] bs@[k]) == '/',
                    decreases e,
                {
                    e -= 1;
                }
                proof {
                    lemma_trim_trailing_at(bs@, e as int);
                }
                let head = bs.substring_char(0, e);
                let mut s = String::from_str(head);
                s.append(path);
                s
            }
        },
        None => path.to_owned(),
    }
}

/// HTTP response.
#[derive(Clone, Debug)]
pub struct HttpResponse {
    pub status_code: u16,
    pub headers: Vec<(String, String)>,
    pub body: String,
    pub duration_ms: u64,
}

impl HttpResponse {
    /// 2xx means success.
    pub fn is_success(&self) -> (r: bool)
        ensures
            r == (200 <= self.status_code < 300),
    {
        200 <= self.status_code && self.status_code < 300
    }

    /// 3xx means redirect.
    pub fn is_redirect(&self) -> (r: bool)
        ensures
            r == (300 <= self.status_code < 400),
    {
        300 <= self.status_code && self.status_code < 400
    }

    /// 4xx means client error.
    pub fn is_client_error(&self) -> (r: bool)
        ensures
            r == (400 <= self.status_code < 500),
    {
        400 <= self.status_code && self.status_code < 500
    }

    /// 5xx means server error.
    pub fn is_server_error(&self) -> (r: bool)
        ensures
            r == (500 <= self.status_code < 600),
    {
        500 <= self.status_code && self.status_code < 600
    }

    /// Look up a header, matching names without regard to ASCII case (the
    /// response's header names arrive already lower-cased).
    pub fn get_header(&self, name: &str) -> (r: Option<&String>)
        ensures
            match r {
                Some(v) => exists|i: int|
                    0 <= i < self.headers@.len() && spec_lower(
                        (#[trigger] self.headers@[i]).0@,
                    ) == spec_lower(name@) && v == self.headers@[i].1,
                None => forall|i: int|
                    0 <= i < self.headers@.len() ==> spec_lower(
                        (#[trigger] self.headers@[i]).0@,
                    ) != spec_lower(name@),
            },
    {
        let mut i: usize = 0;
        while i < self.headers.len()
            invariant
                i <= self.headers@.len(),
                forall|k: int|
                    0 <= k < i ==> spec_lower((#[trigger] self.headers@[k]).0@) != spec_lower(
                        name@,
                    ),
            decreases self.headers@.len() - i,
        {
            if str_eq_ignore_ascii_case(self.headers[i].0.as_str(), name) {
                return Some(&self.headers[i].1);
            }
            i += 1;
        }
        None
    }

    /// Whether the body contains the given text.
    pub fn body_contains(&self, text: &str) -> (r: bool)
        ensures
            r == spec_contains(self.body@, text@),
    {
        contains_str(self.body.as_str(), text)
    }
}

/// Load test result.
#[derive(Clone, Copy, Debug, PartialEq, Eq, Structural)]
pub struct LoadTestResult {
    pub total_requests: usize,
    pub successes: usize,
    pub failures: usize,
    pub avg_duration_ms: u64,
}

impl LoadTestResult {
    /// Success rate over all requests, in hundredths of a percent; 0 when
    /// nothing ran.
    pub fn success_rate(&self) -> (r: u32)
        requires
            self.successes <= self.total_requests,
        ensures
            r as int == if self.total_requests == 0 {
                0int
            } else {
                self.successes * 10000 / self.total_requests as int
            },
    {
        if self.total_requests == 0 {
            0
        } else {
            proof {
                assert((self.successes as int) * 10000 / (self.total_requests as int) <= 10000)
                    by (nonlinear_arith)
                    requires
                        0 <= self.successes as int <= self.total_requests as int,
                        self.total_requests as int > 0,
                ;
            }
            (((self.successes as u128) * 10000) / (self.total_requests as u128)) as u32
        }
    }
}

/// Per-worker load-test tallies: successes, failures and the summed
/// duration of the successes.
pub open spec fn spec_sum_successes(s: Seq<(u64, u64, u64)>) -> int
    decreases s.len(),
{
    if s.len() == 0 {
        0
    } else {
        spec_sum_successes(s.drop_last()) + s.last().0
    }
}

pub open spec fn spec_sum_failures(s: Seq<(u64, u64, u64)>) -> int
    decreases s.len(),
{
    if s.len() == 0 {
        0
    } else {
        spec_sum_failures(s.drop_last()) + s.last().1
    }
}

pub open spec fn spec_sum_durations(s: Seq<(u64, u64, u64)>) -> int
    decreases s.len(),
{
    if s.len() == 0 {
        0
    } else {
        spec_sum_durations(s.drop_last()) + s.last().2
    }
}

/// Fold per-worker tallies into a load-test result: total successes and
/// failures, and the average duration over the successes (0 with none).
pub fn aggregate_load_outcomes(total: usize, outcomes: &Vec<(u64, u64, u64)>) -> (r:
    LoadTestResult)
    requires
        spec_sum_successes(outcomes@) <= usize::MAX,
        spec_sum_failures(outcomes@) <= usize::MAX,
        spec_sum_durations(outcomes@) <= u64::MAX,
        forall|i: int|
            0 <= i < outcomes@.len() ==> (#[trigger] outcomes@[i]).0 + outcomes@[i].1
                <= usize::MAX,
    ensures
        r.total_requests == total,
        r.successes as int == spec_sum_successes(outcomes@),
        r.failures as int == spec_sum_failures(outcomes@),
        r.avg_duration_ms as int == if spec_sum_successes(outcomes@) > 0 {
            spec_sum_durations(outcomes@) / spec_sum_successes(outcomes@)
        } else {
            0int
        },
{
    let mut successes: u64 = 0;
    let mut failures: u64 = 0;
    let mut duration: u64 = 0;
    let mut i: usize = 0;
    while i < outcomes.len()
        invariant
            i <= outcomes@.len(),
            successes as int == spec_sum_successes(outcomes@.subrange(0, i as int)),
            failures as int == spec_sum_failures(outcomes@.subrange(0, i as int)),
            duration as int == spec_sum_durations(outcomes@.subrange(0, i as int)),
            spec_sum_successes(outcomes@) <= usize::MAX,
            spec_sum_failures(outcomes@) <= usize::MAX,
            spec_sum_durations(outcomes@) <= u64::MAX,
        decreases outcomes@.len() - i,
    {
        proof {
            let pre = outcomes@.subrange(0, i as int);
            let ext = outcomes@.subrange(0, i as int + 1);
            assert(ext.drop_last() =~= pre);
            assert(ext.last() == outcomes@[i as int]);
            lemma_sums_monotonic(outcomes@, i as int + 1);
            lemma_sums_nonneg(pre);
        }
        successes = successes + outcomes[i].0;
        failures = failures + outcomes[i].1;
        duration = duration + outcomes[i].2;
        i += 1;
    }
    proof {
        assert(outcomes@.subrange(0, outcomes@.len() as int) =~= outcomes@);
    }
    let avg: u64 = if successes > 0 {
        duration / successes
    } else {
        0
    };
    LoadTestResult {
        total_requests: total,
        successes: successes as usize,
        failures: failures as usize,
        avg_duration_ms: avg,
    }
}

proof fn lemma_sums_nonneg(s: Seq<(u64, u64, u64)>)
    ensures
        spec_sum_successes(s) >= 0,
        spec_sum_failures(s) >= 0,
        spec_sum_durations(s) >= 0,
    decreases s.len(),
{
    if s.len() > 0 {
        lemma_sums_nonneg(s.drop_last());
    }
}

proof fn lemma_sums_monotonic(s: Seq<(u64, u64, u64)>, k: int)
    requires
        0 <= k <= s.len(),
    ensures
        spec_sum_successes(s.subrange(0, k)) <= spec_sum_successes(s),
        spec_sum_failures(s.subrange(0, k)) <= spec_sum_failures(s),
        spec_sum_durations(s.subrange(0, k)) <= spec_sum_durations(s),
    decreases s.len() - k,
{
    if k == s.len() {
        assert(s.subrange(0, k) =~= s);
    } else {
        lemma_sums_monotonic(s, k + 1);
        let a = s.subrange(0, k);
        let b = s.subrange(0, k + 1);
        assert(b.drop_last() =~= a);
    }
}

} // verus!

verus! {

/// A character that can stand in a backend identifier: ASCII letters,
/// digits and hyphens.
pub open spec fn spec_backend_char(c: char) -> bool {
    ('a' <= c && c <= 'z') || ('A' <= c && c <= 'Z') || ('0' <= c && c <= '9') || c == '-'
}

fn is_backend_char(c: char) -> (r: bool)
    ensures
        r == spec_backend_char(c),
{
    ('a' <= c && c <= 'z') || ('A' <= c && c <= 'Z') || ('0' <= c && c <= '9') || c == '-'
}

/// Extract a backend identifier from a response body: the token starting
/// at the first `pod-` (or, failing that, `backend-`) marker, running over
/// ASCII letters, digits and hyphens, cut off after fifty characters.
/// `None` exactly when neither marker occurs.
pub fn extract_backend_id(body: &str) -> (r: Option<String>)
    ensures
        r is None <==> !spec_contains(body@, "pod-"@) && !spec_contains(body@, "backend-"@),
        r matches Some(t) ==> t@.len() >= 4 && (forall|k: int|
            0 <= k < t@.len() ==> spec_backend_char(#[trigger] t@[k])),
{
    proof {
        reveal_strlit("pod-");
        reveal_strlit("backend-");
    }
    let n = body.unicode_len();
    let start: usize = match crate::util::find_str(body, "pod-") {
        Some(at) => {
            proof {
                let sub = body@.subrange(at as int, at as int + 4);
                assert(sub == "pod-"@);
                assert(body@[at as int] == sub[0]);
                assert(body@[at as int + 1] == sub[1]);
                assert(body@[at as int + 2] == sub[2]);
                assert(body@[at as int + 3] == sub[3]);
            }
            at
        },
        None => {
            match crate::util::find_str(body, "backend-") {
                Some(at) => {
                    proof {
                        let sub = body@.subrange(at as int, at as int + 8);
                        assert(sub == "backend-"@);
                        assert(body@[at as int] == sub[0]);
                        assert(body@[at as int + 1] == sub[1]);
                        assert(body@[at as int + 2] == sub[2]);
                        assert(body@[at as int + 3] == sub[3]);
                    }
                    at
                },
                None => {
                    return None;
                },
            }
        },
    };
    let mut end: usize = start;
    while end < n && end - start < 50 && is_backend_char(body.get_char(end))
        invariant
            n == body@.len(),
            start <= end <= n,
            end - start <= 50,
            forall|k: int| start <= k < end ==> spec_backend_char(#[trigger] body@[k]),
            start + 4 <= n,
            spec_backend_char(body@[start as int]),
            spec_backend_char(body@[start as int + 1]),
            spec_backend_char(body@[start as int + 2]),
            spec_backend_char(body@[start as int + 3]),
        decreases n - end,
    {
        end += 1;
    }
    let end_capped: usize = if end < start + 4 {
        start + 4
    } else {
        end
    };
    let token = body.substring_char(start, end_capped);
    let out = token.to_owned();
    proof {
        assert(out@ == body@.subrange(start as int, end_capped as int));
        assert(out@.len() >= 4);
        assert(forall|k: int|
            0 <= k < out@.len() ==> spec_backend_char(#[trigger] out@[k]));
    }
    Some(out)
}

} // verus!
