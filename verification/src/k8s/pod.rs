//! Pod-side curl toolkit: test pod configuration, curl option and command
//! assembly, and the parser for curl's combined header-and-body output.
//! Creating pods and executing commands in them happens outside the
//! verified core.

use vstd::prelude::*;

use crate::kvlist::{kv_get, kv_insert, kv_unique};
use crate::util::{
    parse_u64, spec_digits_val, spec_is_u64_string, spec_lower, spec_num_body, spec_split_lines,
    spec_trim, split_lines, str_eq_ignore_ascii_case, trim_ascii, u64_to_dec_string,
};

verus! {

/// Test pod configuration.
#[derive(Clone, Debug)]
pub struct TestPodConfig {
    pub name: String,
    pub namespace: String,
    pub image: String,
    pub labels: Vec<(String, String)>,
}

impl TestPodConfig {
    /// The labels hold each key once.
    pub open spec fn wf(&self) -> bool {
        kv_unique(self.labels@)
    }

    /// A curl pod in the given namespace, labelled as this tool's test pod.
    pub fn new(name: &str, namespace: &str) -> (r: Self)
        ensures
            r.wf(),
            r.name@ == name@,
            r.namespace@ == namespace@,
            r.image@ == "curlimages/curl:latest"@,
            kv_get(r.labels@, "app"@) matches Some(v) && v@ == "gateway-test"@,
    {
        let mut labels: Vec<(String, String)> = Vec::new();
        kv_insert(&mut labels, "app", String::from_str("gateway-test"));
        TestPodConfig {
            name: String::from_str(name),
            namespace: String::from_str(namespace),
            image: String::from_str("curlimages/curl:latest"),
            labels,
        }
    }

    /// Set the container image.
    pub fn with_image(self, image: &str) -> (r: Self)
        ensures
            r.wf() == self.wf(),
            r.image@ == image@,
            r.name == self.name,
            r.namespace == self.namespace,
            r.labels == self.labels,
    {
        TestPodConfig { image: String::from_str(image), ..self }
    }

    /// Add (or replace) a label.
    pub fn with_label(self, key: &str, value: &str) -> (r: Self)
        requires
            self.wf(),
        ensures
            r.wf(),
            kv_get(r.labels@, key@) matches Some(v) && v@ == value@,
            forall|k2: Seq<char>| k2 != key@ ==> kv_get(r.labels@, k2) == kv_get(self.labels@, k2),
            r.name == self.name,
            r.namespace == self.namespace,
            r.image == self.image,
    {
        let mut c = self;
        kv_insert(&mut c.labels, key, String::from_str(value));
        c
    }

    /// Look a label up.
    pub fn label_get(&self, key: &str) -> (r: Option<&String>)
        ensures
            match r {
                Some(v) => kv_get(self.labels@, key@) matches Some(sv) && *v == sv,
                None => kv_get(self.labels@, key@) is None,
            },
    {
        crate::kvlist::kv_lookup(&self.labels, key)
    }
}

/// Curl command options.
#[derive(Clone, Debug)]
pub struct CurlOptions {
    pub method: String,
    pub headers: Vec<(String, String)>,
    pub body: Option<String>,
    pub timeout_secs: Option<u64>,
    pub insecure: bool,
    pub follow_redirects: bool,
}

impl CurlOptions {
    /// The headers hold each name once.
    pub open spec fn wf(&self) -> bool {
        kv_unique(self.headers@)
    }

    /// A plain GET with nothing else set.
    pub fn new() -> (r: Self)
        ensures
            r.wf(),
            r.method@ == "GET"@,
            r.headers@.len() == 0,
            r.body is None,
            r.timeout_secs is None,
            !r.insecure,
            !r.follow_redirects,
    {
        CurlOptions {
            method: String::from_str("GET"),
            headers: Vec::new(),
            body: None,
            timeout_secs: None,
            insecure: false,
            follow_redirects: false,
        }
    }

    /// Set the method.
    pub fn method(self, method: &str) -> (r: Self)
        ensures
            r.wf() == self.wf(),
            r.method@ == method@,
            r.headers == self.headers,
            r.body == self.body,
            r.timeout_secs == self.timeout_secs,
            r.insecure == self.insecure,
            r.follow_redirects == self.follow_redirects,
    {
        CurlOptions { method: String::from_str(method), ..self }
    }

    /// Set one header, replacing any earlier value under the same name.
    pub fn header(self, key: &str, value: &str) -> (r: Self)
        requires
            self.wf(),
        ensures
            r.wf(),
            kv_get(r.headers@, key@) matches Some(v) && v@ == value@,
            r.method == self.method,
            r.body == self.body,
            r.insecure == self.insecure,
    {
        let mut o = self;
        kv_insert(&mut o.headers, key, String::from_str(value));
        o
    }

    /// Set the body.
    pub fn body(self, body: &str) -> (r: Self)
        ensures
            r.wf() == self.wf(),
            r.body matches Some(b) && b@ == body@,
            r.method == self.method,
            r.headers == self.headers,
            r.insecure == self.insecure,
    {
        CurlOptions { body: Some(String::from_str(body)), ..self }
    }

    /// Set the timeout.
    pub fn timeout(self, secs: u64) -> (r: Self)
        ensures
            r.wf() == self.wf(),
            r.timeout_secs == Some(secs),
            r.method == self.method,
            r.headers == self.headers,
            r.body == self.body,
            r.insecure == self.insecure,
    {
        CurlOptions { timeout_secs: Some(secs), ..self }
    }

    /// Allow insecure TLS.
    pub fn insecure(self) -> (r: Self)
        ensures
            r.wf() == self.wf(),
            r.insecure == true,
            r.method == self.method,
            r.headers == self.headers,
            r.body == self.body,
            r.timeout_secs == self.timeout_secs,
    {
        CurlOptions { insecure: true, ..self }
    }

    /// Follow redirects.
    pub fn follow_redirects(self) -> (r: Self)
        ensures
            r.wf() == self.wf(),
            r.follow_redirects == true,
            r.method == self.method,
            r.headers == self.headers,
            r.body == self.body,
            r.timeout_secs == self.timeout_secs,
            r.insecure == self.insecure,
    {
        CurlOptions { follow_redirects: true, ..self }
    }
}

impl Default for CurlOptions {
    /// An empty option set; the method still defaults to GET when the
    /// command is assembled.
    fn default() -> (r: Self)
        ensures
            r.wf(),
            r.method@.len() == 0,
            r.headers@.len() == 0,
            r.body is None,
            r.timeout_secs is None,
            !r.insecure,
            !r.follow_redirects,
    {
        CurlOptions {
            method: String::new(),
            headers: Vec::new(),
            body: None,
            timeout_secs: None,
            insecure: false,
            follow_redirects: false,
        }
    }
}

/// Assemble the argv a curl probe runs with: flags for the options, `-i` to
/// include response headers, then the URL last.
pub fn build_curl_command(options: &CurlOptions, url: &str) -> (r: Vec<String>)
    ensures
        r@.len() >= 3,
        r@[0]@ == "curl"@,
        r@.last()@ == url@,
        r@[r@.len() - 2]@ == "-i"@,
{
    let mut command: Vec<String> = Vec::new();
    command.push(String::from_str("curl"));
    if options.insecure {
        command.push(String::from_str("-k"));
    }
    if options.follow_redirects {
        command.push(String::from_str("-L"));
    }
    match options.timeout_secs {
        Some(timeout) => {
            command.push(String::from_str("-m"));
            command.push(u64_to_dec_string(timeout));
        },
        None => {},
    }
    let mut i: usize = 0;
    while i < options.headers.len()
        invariant
            i <= options.headers@.len(),
            command@.len() >= 1,
            command@[0]@ == "curl"@,
        decreases options.headers@.len() - i,
    {
        command.push(String::from_str("-H"));
        let mut h = options.headers[i].0.clone();
        h.append(": ");
        h.append(options.headers[i].1.as_str());
        command.push(h);
        i += 1;
    }
    proof {
        reveal_strlit("GET");
    }
    if !crate::util::str_eq(options.method.as_str(), "GET") {
        command.push(String::from_str("-X"));
        command.push(options.method.clone());
    }
    match &options.body {
        Some(body) => {
            command.push(String::from_str("-d"));
            command.push(body.clone());
        },
        None => {},
    }
    command.push(String::from_str("-i"));
    command.push(String::from_str(url));
    command
}

/// Curl response.
#[derive(Clone, Debug)]
pub struct CurlResponse {
    pub status_code: u16,
    pub headers: Vec<(String, String)>,
    pub body: String,
}

impl CurlResponse {
    /// 2xx means success.
    pub fn is_success(&self) -> (r: bool)
        ensures
            r == (200 <= self.status_code < 300),
    {
        200 <= self.status_code && self.status_code < 300
    }

    /// Look up a header, matching names without regard to ASCII case.
    pub fn get_header(&self, name: &str) -> (r: Option<&String>)
        ensures
            match r {
                Some(v) => exists|i: int|
                    0 <= i < self.headers@.len() && spec_lower(
                        (#[trigger] self.headers@[i]).0@,
                    ) == spec_lower(name@) && v == self.headers@[i].1,
                None => forall|i: int|
                    0 <= i < self.headers@.len() ==> spec_lower(
                        (#[trigger] self.headers@[i]).0@,
                    ) != spec_lower(name@),
            },
    {
        let mut i: usize = 0;
        while i < self.headers.len()
            invariant
                i <= self.headers@.len(),
                forall|k: int|
                    0 <= k < i ==> spec_lower((#[trigger] self.headers@[k]).0@) != spec_lower(
                        name@,
                    ),
            decreases self.headers@.len() - i,
        {
            if str_eq_ignore_ascii_case(self.headers[i].0.as_str(), name) {
                return Some(&self.headers[i].1);
            }
            i += 1;
        }
        None
    }
}

/// The first blank line at or after `i`, or the line count if none.
pub open spec fn spec_blank_at(ls: Seq<Seq<char>>, i: int) -> int
    decreases ls.len() - i,
    when 0 <= i <= ls.len()
{
    if i >= ls.len() {
        ls.len() as int
    } else if ls[i].len() == 0 {
        i
    } else {
        spec_blank_at(ls, i + 1)
    }
}

/// The position of the first colon, or the length if there is none.
pub open spec fn spec_colon_at(s: Seq<char>) -> int
    decreases s.len(),
{
    if s.len() == 0 {
        0
    } else if s[0] == ':' {
        0
    } else {
        1 + spec_colon_at(s.drop_first())
    }
}

/// The header entry a line is owed: split at the first colon, the name
/// trimmed and lower-cased, the value trimmed; a line without a colon
/// carries no header.
pub open spec fn spec_header_of(l: Seq<char>) -> Option<(Seq<char>, Seq<char>)> {
    let c = spec_colon_at(l);
    if c >= l.len() {
        None
    } else {
        Some(
            (
                spec_lower(spec_trim(l.subrange(0, c))),
                spec_trim(l.subrange(c + 1, l.len() as int)),
            ),
        )
    }
}

/// The headers of the lines in `[i, b)`, in order, skipping lines without
/// a colon.
pub open spec fn spec_headers_of(ls: Seq<Seq<char>>, i: int, b: int) -> Seq<(Seq<char>, Seq<char>)>
    decreases b - i,
{
    if i >= b {
        Seq::empty()
    } else {
        (match spec_header_of(ls[i]) {
            Some(e) => seq![e],
            None => Seq::empty(),
        }) + spec_headers_of(ls, i + 1, b)
    }
}

/// The first `j` lines joined with newlines.
pub open spec fn spec_join_prefix(ls: Seq<Seq<char>>, j: int) -> Seq<char>
    decreases j,
{
    if j <= 0 {
        Seq::empty()
    } else if j == 1 {
        ls[0]
    } else {
        spec_join_prefix(ls, j - 1) + "
"@ + ls[j - 1]
    }
}

/// All the lines joined with newlines.
pub open spec fn spec_join_lines(ls: Seq<Seq<char>>) -> Seq<char> {
    spec_join_prefix(ls, ls.len() as int)
}

proof fn lemma_blank_at_is(ls: Seq<Seq<char>>, i0: int, b: int)
    requires
        0 <= i0 <= b <= ls.len(),
        forall|k: int| i0 <= k < b ==> (#[trigger] ls[k]).len() != 0,
        b < ls.len() ==> ls[b].len() == 0,
    ensures
        spec_blank_at(ls, i0) == b,
    decreases b - i0,
{
    if i0 < b {
        lemma_blank_at_is(ls, i0 + 1, b);
    }
}

proof fn lemma_colon_at_is(l: Seq<char>, p: int)
    requires
        0 <= p <= l.len(),
        forall|k: int| 0 <= k < p ==> (#[trigger] l[k]) != ':',
        p < l.len() ==> l[p] == ':',
    ensures
        spec_colon_at(l) == p,
    decreases p,
{
    if l.len() == 0 {
    } else if p == 0 {
    } else {
        let t = l.drop_first();
        assert(forall|k: int| 0 <= k < p - 1 ==> (#[trigger] t[k]) != ':');
        lemma_colon_at_is(t, p - 1);
    }
}

/// Extending the scanned range appends that line's header, if it has one.
proof fn lemma_headers_snoc(ls: Seq<Seq<char>>, i: int, b: int)
    requires
        i <= b,
    ensures
        spec_headers_of(ls, i, b + 1) == spec_headers_of(ls, i, b) + (match spec_header_of(
            ls[b],
        ) {
            Some(e) => seq![e],
            None => Seq::<(Seq<char>, Seq<char>)>::empty(),
        }),
    decreases b - i,
{
    if i >= b {
        reveal_with_fuel(spec_headers_of, 3);
        assert(spec_headers_of(ls, i, b) =~= Seq::<(Seq<char>, Seq<char>)>::empty());
        assert(spec_headers_of(ls, b, b + 1) =~= (match spec_header_of(ls[b]) {
            Some(e) => seq![e],
            None => Seq::<(Seq<char>, Seq<char>)>::empty(),
        }) + Seq::<(Seq<char>, Seq<char>)>::empty());
        assert(spec_headers_of(ls, i, b + 1) =~= spec_headers_of(ls, i, b) + (
        match spec_header_of(ls[b]) {
            Some(e) => seq![e],
            None => Seq::<(Seq<char>, Seq<char>)>::empty(),
        }));
    } else {
        lemma_headers_snoc(ls, i + 1, b);
        assert(spec_headers_of(ls, i, b + 1) =~= spec_headers_of(ls, i, b) + (
        match spec_header_of(ls[b]) {
            Some(e) => seq![e],
            None => Seq::<(Seq<char>, Seq<char>)>::empty(),
        }));
    }
}

/// The status code of a curl status line: the second whitespace-separated
/// word parsed as a number, 0 when it is missing or not a number in range.
pub open spec fn spec_status_of_line(line: Seq<char>) -> int {
    let words = spec_split_words(line);
    if words.len() >= 2 && spec_is_u64_string(words[1]) && spec_digits_val(
        spec_num_body(words[1]),
    ) <= u16::MAX {
        spec_digits_val(spec_num_body(words[1]))
    } else {
        0
    }
}

/// The whitespace-separated words of a line (split at single spaces and
/// tabs, empty words dropped).
pub open spec fn spec_split_words(s: Seq<char>) -> Seq<Seq<char>>
    decreases s.len(),
    via spec_split_words_decreases
{
    if s.len() == 0 {
        Seq::empty()
    } else if s[0] == ' ' || s[0] == '\t' {
        spec_split_words(s.drop_first())
    } else {
        let i = spec_word_end(s);
        if i >= s.len() {
            seq![s]
        } else {
            seq![s.subrange(0, i)] + spec_split_words(s.subrange(i, s.len() as int))
        }
    }
}

/// The position of the first space or tab, or the length if there is none.
pub open spec fn spec_word_end(s: Seq<char>) -> int
    decreases s.len(),
{
    if s.len() == 0 {
        0
    } else if s[0] == ' ' || s[0] == '\t' {
        0
    } else {
        1 + spec_word_end(s.drop_first())
    }
}

proof fn lemma_word_end_bounds(s: Seq<char>)
    ensures
        0 <= spec_word_end(s) <= s.len(),
        s.len() > 0 && !(s[0] == ' ' || s[0] == '\t') ==> spec_word_end(s) >= 1,
    decreases s.len(),
{
    if s.len() > 0 && !(s[0] == ' ' || s[0] == '\t') {
        lemma_word_end_bounds(s.drop_first());
    }
}

#[via_fn]
proof fn spec_split_words_decreases(s: Seq<char>) {
    lemma_word_end_bounds(s);
}

fn is_word_char(c: char) -> (r: bool)
    ensures
        r == !(c == ' ' || c == '\t'),
{
    !(c == ' ' || c == '\t')
}

proof fn lemma_word_end_at(s: Seq<char>, i: int)
    requires
        0 <= i <= s.len(),
        forall|k: int| 0 <= k < i ==> !((#[trigger] s[k]) == ' ' || s[k] == '\t'),
        i < s.len() ==> (s[i] == ' ' || s[i] == '\t'),
    ensures
        spec_word_end(s) == i,
    decreases i,
{
    if s.len() == 0 {
    } else if i == 0 {
    } else {
        let t = s.drop_first();
        assert(forall|k: int| 0 <= k < i - 1 ==> !((#[trigger] t[k]) == ' ' || t[k] == '\t'));
        lemma_word_end_at(t, i - 1);
    }
}

/// Split a line into whitespace-separated words.
pub fn split_words(s: &str) -> (r: Vec<String>)
    ensures
        r@.map_values(|w: String| w@) == spec_split_words(s@),
    decreases s@.len(),
{
    let n = s.unicode_len();
    if n == 0 {
        let r: Vec<String> = Vec::new();
        proof {
            assert(r@.map_values(|w: String| w@) =~= spec_split_words(s@));
        }
        return r;
    }
    let c0 = s.get_char(0);
    if c0 == ' ' || c0 == '\t' {
        let rest = s.substring_char(1, n);
        proof {
            assert(rest@ =~= s@.drop_first());
        }
        let r = split_words(rest);
        proof {
            assert(r@.map_values(|w: String| w@) == spec_split_words(s@));
        }
        return r;
    }
    let mut i: usize = 1;
    while i < n && is_word_char(s.get_char(i))
        invariant
            n == s@.len(),
            1 <= i <= n,
            !(s@[0] == ' ' || s@[0] == '\t'),
            forall|k: int| 0 <= k < i ==> !((#[trigger] s@[k]) == ' ' || s@[k] == '\t'),
        decreases n - i,
    {
        i += 1;
    }
    proof {
        lemma_word_end_at(s@, i as int);
    }
    if i >= n {
        let mut r: Vec<String> = Vec::new();
        r.push(s.to_owned());
        proof {
            assert(r@.map_values(|w: String| w@) =~= spec_split_words(s@));
        }
        r
    } else {
        let head = s.substring_char(0, i);
        let tail = s.substring_char(i, n);
        let mut rest = split_words(tail);
        let mut r: Vec<String> = Vec::new();
        r.push(head.to_owned());
        r.append(&mut rest);
        proof {
            assert(r@.map_values(|w: String| w@) =~= spec_split_words(s@));
        }
        r
    }
}

/// Parse `curl -i` output: the status code from the first line's second
/// word; then `name: value` headers (names lower-cased, both sides
/// trimmed, lines without a colon skipped) until the first blank line;
/// then the body, the remaining lines joined with newlines.
pub fn parse_curl_response(output: &str) -> (r: (u16, Vec<(String, String)>, String))
    ensures
        ({
            let lines = spec_split_lines(output@);
            &&& (lines.len() == 0 ==> r.0 == 0 && r.1@.len() == 0 && r.2@.len() == 0)
            &&& (lines.len() > 0 ==> {
                let blank = spec_blank_at(lines, 1);
                &&& r.0 as int == spec_status_of_line(lines[0])
                &&& r.1@.map_values(|e: (String, String)| (e.0@, e.1@)) == spec_headers_of(
                    lines,
                    1,
                    blank,
                )
                &&& r.2@ == spec_join_lines(
                    lines.subrange(
                        if blank + 1 <= lines.len() {
                            blank + 1
                        } else {
                            lines.len() as int
                        },
                        lines.len() as int,
                    ),
                )
            })
        }),
{
    proof {
        reveal_strlit(":");
    }
    let lines = split_lines(output);
    let ghost lviews = lines@.map_values(|l: String| l@);
    if lines.len() == 0 {
        return (0, Vec::new(), String::new());
    }
    let status_line = &lines[0];
    let words = split_words(status_line.as_str());
    let status_code: u16 = if words.len() >= 2 {
        match parse_u64(words[1].as_str()) {
            Some(v) => {
                if v <= 65535 {
                    v as u16
                } else {
                    0
                }
            },
            None => 0,
        }
    } else {
        proof {
            assert(words@.map_values(|w: String| w@).len() < 2);
        }
        0
    };
    proof {
        assert(lviews[0] == lines@[0]@);
        assert(words@.map_values(|w: String| w@) == spec_split_words(lines@[0]@));
        if words@.len() >= 2 {
            assert(words@.map_values(|w: String| w@)[1] == words@[1]@);
        }
        assert(u16::MAX == 65535);
    }
    let mut headers: Vec<(String, String)> = Vec::new();
    let mut body_lines: Vec<String> = Vec::new();
    let mut in_body = false;
    let ghost mut blank: int = 0;
    let mut i: usize = 1;
    while i < lines.len()
        invariant
            1 <= i <= lines@.len(),
            lviews == lines@.map_values(|l: String| l@),
            lviews.len() == lines@.len(),
            !in_body ==> {
                &&& (forall|k: int| 1 <= k < i ==> (#[trigger] lviews[k]).len() != 0)
                &&& headers@.map_values(|e: (String, String)| (e.0@, e.1@)) == spec_headers_of(
                    lviews,
                    1,
                    i as int,
                )
                &&& body_lines@.len() == 0
            },
            in_body ==> {
                &&& 1 <= blank < i
                &&& lviews[blank].len() == 0
                &&& (forall|k: int| 1 <= k < blank ==> (#[trigger] lviews[k]).len() != 0)
                &&& headers@.map_values(|e: (String, String)| (e.0@, e.1@)) == spec_headers_of(
                    lviews,
                    1,
                    blank,
                )
                &&& body_lines@.map_values(|l: String| l@) == lviews.subrange(
                    blank + 1,
                    i as int,
                )
            },
        decreases lines@.len() - i,
    {
        let line = &lines[i];
        proof {
            assert(lviews[i as int] == lines@[i as int]@);
        }
        if in_body {
            body_lines.push(line.clone());
            proof {
                assert(body_lines@.map_values(|l: String| l@) =~= lviews.subrange(
                    blank + 1,
                    i as int + 1,
                ));
            }
        } else if line.as_str().unicode_len() == 0 {
            in_body = true;
            proof {
                blank = i as int;
                assert(body_lines@.map_values(|l: String| l@) =~= lviews.subrange(
                    blank + 1,
                    i as int + 1,
                ));
            }
        } else {
            let ghost l = lviews[i as int];
            let ghost pre_headers = headers@.map_values(|e: (String, String)| (e.0@, e.1@));
            match crate::util::find_str(line.as_str(), ":") {
                Some(pos) => {
                    let ln = line.as_str().unicode_len();
                    proof {
                        reveal_strlit(":");
                        assert(pos + ":"@.len() <= line@.len());
                        assert(l.subrange(pos as int, pos as int + 1) =~= ":"@);
                        assert(l[pos as int] == l.subrange(pos as int, pos as int + 1)[0]);
                        assert(l[pos as int] == ":"@[0]);
                        assert(l[pos as int] == ':');
                        assert forall|bb: int| 0 <= bb < pos implies (#[trigger] l[bb]) != ':' by {
                            if l[bb] == ':' {
                                assert(l.subrange(bb, bb + 1) =~= ":"@);
                                assert(crate::util::spec_match_at(l, ":"@, bb));
                            }
                        }
                        lemma_colon_at_is(l, pos as int);
                    }
                    let key_raw = line.as_str().substring_char(0, pos);
                    let val_raw = line.as_str().substring_char(pos + 1, ln);
                    let key_trimmed = trim_ascii(key_raw);
                    let value = trim_ascii(val_raw);
                    let key = lower_ascii_string(key_trimmed.as_str());
                    headers.push((key, value));
                    proof {
                        lemma_headers_snoc(lviews, 1, i as int);
                        assert(spec_header_of(l) matches Some(e) && e.0 == spec_lower(
                            spec_trim(l.subrange(0, pos as int)),
                        ) && e.1 == spec_trim(l.subrange(pos as int + 1, l.len() as int)));
                        assert(headers@.map_values(|e: (String, String)| (e.0@, e.1@))
                            =~= spec_headers_of(lviews, 1, i as int + 1));
                    }
                },
                None => {
                    proof {
                        reveal_strlit(":");
                        assert forall|bb: int| 0 <= bb < l.len() implies (#[trigger] l[bb])
                            != ':' by {
                            if l[bb] == ':' {
                                assert(l.subrange(bb, bb + 1) =~= ":"@);
                                assert(crate::util::spec_match_at(l, ":"@, bb));
                                assert(crate::util::spec_contains(l, ":"@));
                            }
                        }
                        lemma_colon_at_is(l, l.len() as int);
                        lemma_headers_snoc(lviews, 1, i as int);
                        assert(spec_header_of(l) is None);
                        assert(headers@.map_values(|e: (String, String)| (e.0@, e.1@))
                            =~= spec_headers_of(lviews, 1, i as int + 1));
                    }
                },
            }
        }
        i += 1;
    }
    proof {
        if !in_body {
            lemma_blank_at_is(lviews, 1, lviews.len() as int);
            assert(lviews.subrange(lviews.len() as int, lviews.len() as int) =~= Seq::<
                Seq<char>,
            >::empty());
        } else {
            lemma_blank_at_is(lviews, 1, blank);
            assert(body_lines@.map_values(|l: String| l@) == lviews.subrange(
                blank + 1,
                lviews.len() as int,
            ));
        }
    }
    let mut body = String::new();
    let ghost bviews = body_lines@.map_values(|l: String| l@);
    let mut j: usize = 0;
    while j < body_lines.len()
        invariant
            j <= body_lines@.len(),
            bviews == body_lines@.map_values(|l: String| l@),
            body@ == spec_join_prefix(bviews, j as int),
        decreases body_lines@.len() - j,
    {
        proof {
            assert(bviews[j as int] == body_lines@[j as int]@);
        }
        if j > 0 {
            body.append("\n");
        }
        body.append(body_lines[j].as_str());
        j += 1;
    }
    proof {
        assert(body@ == spec_join_lines(bviews));
    }
    (status_code, headers, body)
}

/// ASCII lower-case a string, character by character.
fn lower_ascii_string(s: &str) -> (r: String)
    ensures
        r@ == spec_lower(s@),
    decreases s@.len(),
{
    let n = s.unicode_len();
    if n == 0 {
        proof {
            assert(spec_lower(s@) =~= Seq::<char>::empty());
        }
        return String::new();
    }
    let c = s.get_char(0);
    let head: String = if c >= 'A' && c <= 'Z' {
        lower_char_str(c)
    } else {
        let h = s.substring_char(0, 1);
        h.to_owned()
    };
    let rest = s.substring_char(1, n);
    let lowered_rest = lower_ascii_string(rest);
    let mut out = head;
    out.append(lowered_rest.as_str());
    proof {
        assert(rest@ =~= s@.drop_first());
        assert(out@ =~= spec_lower(s@));
    }
    out
}

fn lower_char_str(c: char) -> (r: String)
    requires
        'A' <= c && c <= 'Z',
    ensures
        r@ == seq![crate::util::spec_lower_char(c)],
{
    proof {
        reveal_strlit("a");
        reveal_strlit("b");
        reveal_strlit("c");
        reveal_strlit("d");
        reveal_strlit("e");
        reveal_strlit("f");
        reveal_strlit("g");
        reveal_strlit("h");
        reveal_strlit("i");
        reveal_strlit("j");
        reveal_strlit("k");
        reveal_strlit("l");
        reveal_strlit("m");
        reveal_strlit("n");
        reveal_strlit("o");
        reveal_strlit("p");
        reveal_strlit("q");
        reveal_strlit("r");
        reveal_strlit("s");
        reveal_strlit("t");
        reveal_strlit("u");
        reveal_strlit("v");
        reveal_strlit("w");
        reveal_strlit("x");
        reveal_strlit("y");
        reveal_strlit("z");
    }
    let r = if c == 'A' {
        "a"
    } else if c == 'B' {
        "b"
    } else if c == 'C' {
        "c"
    } else if c == 'D' {
        "d"
    } else if c == 'E' {
        "e"
    } else if c == 'F' {
        "f"
    } else if c == 'G' {
        "g"
    } else if c == 'H' {
        "h"
    } else if c == 'I' {
        "i"
    } else if c == 'J' {
        "j"
    } else if c == 'K' {
        "k"
    } else if c == 'L' {
        "l"
    } else if c == 'M' {
        "m"
    } else if c == 'N' {
        "n"
    } else if c == 'O' {
        "o"
    } else if c == 'P' {
        "p"
    } else if c == 'Q' {
        "q"
    } else if c == 'R' {
        "r"
    } else if c == 'S' {
        "s"
    } else if c == 'T' {
        "t"
    } else if c == 'U' {
        "u"
    } else if c == 'V' {
        "v"
    } else if c == 'W' {
        "w"
    } else if c == 'X' {
        "x"
    } else if c == 'Y' {
        "y"
    } else {
        "z"
    };
    String::from_str(r)
}

} // verus!
