//! Test case catalog, statuses and results for Gateway API validation.

use vstd::prelude::*;

verus! {

/// Declares serde_json::Value so that a result can carry opaque structured
/// details through to the reporting layers.
#[verifier::external_type_specification]
#[verifier::external_body]
pub struct ExJsonValue(serde_json::Value);

/// The seventeen test cases for Gateway API validation.
#[derive(Clone, Copy, Debug, PartialEq, Eq, Hash, Structural)]
pub enum TestCase {
    HostRouting,
    PathRouting,
    HeaderRouting,
    TlsTermination,
    HttpsRedirect,
    BackendTls,
    CanaryTraffic,
    RateLimiting,
    TimeoutRetry,
    SessionAffinity,
    UrlRewrite,
    HeaderModifier,
    CrossNamespace,
    GrpcRouting,
    HealthCheck,
    LoadTest,
    FailoverRecovery,
}

impl TestCase {
    /// The canonical ordinal of each test case, 1 through 17.
    pub open spec fn spec_number(self) -> int {
        match self {
            TestCase::HostRouting => 1,
            TestCase::PathRouting => 2,
            TestCase::HeaderRouting => 3,
            TestCase::TlsTermination => 4,
            TestCase::HttpsRedirect => 5,
            TestCase::BackendTls => 6,
            TestCase::CanaryTraffic => 7,
            TestCase::RateLimiting => 8,
            TestCase::TimeoutRetry => 9,
            TestCase::SessionAffinity => 10,
            TestCase::UrlRewrite => 11,
            TestCase::HeaderModifier => 12,
            TestCase::CrossNamespace => 13,
            TestCase::GrpcRouting => 14,
            TestCase::HealthCheck => 15,
            TestCase::LoadTest => 16,
            TestCase::FailoverRecovery => 17,
        }
    }

    /// Get test case number (1-17).
    pub fn number(&self) -> (r: u8)
        ensures
            r as int == self.spec_number(),
    {
        match self {
            TestCase::HostRouting => 1,
            TestCase::PathRouting => 2,
            TestCase::HeaderRouting => 3,
            TestCase::TlsTermination => 4,
            TestCase::HttpsRedirect => 5,
            TestCase::BackendTls => 6,
            TestCase::CanaryTraffic => 7,
            TestCase::RateLimiting => 8,
            TestCase::TimeoutRetry => 9,
            TestCase::SessionAffinity => 10,
            TestCase::UrlRewrite => 11,
            TestCase::HeaderModifier => 12,
            TestCase::CrossNamespace => 13,
            TestCase::GrpcRouting => 14,
            TestCase::HealthCheck => 15,
            TestCase::LoadTest => 16,
            TestCase::FailoverRecovery => 17,
        }
    }

    /// The display name of each test case.
    pub open spec fn spec_case_name(self) -> Seq<char> {
        match self {
            TestCase::HostRouting => "Host Routing"@,
            TestCase::PathRouting => "Path Routing"@,
            TestCase::HeaderRouting => "Header Routing"@,
            TestCase::TlsTermination => "TLS Termination"@,
            TestCase::HttpsRedirect => "HTTPS Redirect"@,
            TestCase::BackendTls => "Backend TLS (mTLS)"@,
            TestCase::CanaryTraffic => "Canary Traffic"@,
            TestCase::RateLimiting => "Rate Limiting"@,
            TestCase::TimeoutRetry => "Timeout & Retry"@,
            TestCase::SessionAffinity => "Session Affinity"@,
            TestCase::UrlRewrite => "URL Rewrite"@,
            TestCase::HeaderModifier => "Header Modifier"@,
            TestCase::CrossNamespace => "Cross Namespace"@,
            TestCase::GrpcRouting => "gRPC Routing"@,
            TestCase::HealthCheck => "Health Check"@,
            TestCase::LoadTest => "Load Test"@,
            TestCase::FailoverRecovery => "Failover Recovery"@,
        }
    }

    /// Get test case name.
    pub fn name(&self) -> (r: &'static str)
        ensures
            r@ == self.spec_case_name(),
    {
        match self {
            TestCase::HostRouting => "Host Routing",
            TestCase::PathRouting => "Path Routing",
            TestCase::HeaderRouting => "Header Routing",
            TestCase::TlsTermination => "TLS Termination",
            TestCase::HttpsRedirect => "HTTPS Redirect",
            TestCase::BackendTls => "Backend TLS (mTLS)",
            TestCase::CanaryTraffic => "Canary Traffic",
            TestCase::RateLimiting => "Rate Limiting",
            TestCase::TimeoutRetry => "Timeout & Retry",
            TestCase::SessionAffinity => "Session Affinity",
            TestCase::UrlRewrite => "URL Rewrite",
            TestCase::HeaderModifier => "Header Modifier",
            TestCase::CrossNamespace => "Cross Namespace",
            TestCase::GrpcRouting => "gRPC Routing",
            TestCase::HealthCheck => "Health Check",
            TestCase::LoadTest => "Load Test",
            TestCase::FailoverRecovery => "Failover Recovery",
        }
    }

    /// The category of each test case by its ordinal: routing, TLS, traffic
    /// management, or advanced.
    pub open spec fn spec_category(self) -> Seq<char> {
        if 1 <= self.spec_number() <= 3 {
            "Routing"@
        } else if 4 <= self.spec_number() <= 6 {
            "TLS"@
        } else if 7 <= self.spec_number() <= 10 {
            "Traffic"@
        } else {
            "Advanced"@
        }
    }

    /// Get test category.
    pub fn category(&self) -> (r: &'static str)
        ensures
            r@ == self.spec_category(),
    {
        match self {
            TestCase::HostRouting | TestCase::PathRouting | TestCase::HeaderRouting => "Routing",
            TestCase::TlsTermination | TestCase::HttpsRedirect | TestCase::BackendTls => "TLS",
            TestCase::CanaryTraffic
            | TestCase::RateLimiting
            | TestCase::TimeoutRetry
            | TestCase::SessionAffinity => "Traffic",
            _ => "Advanced",
        }
    }

    /// All test cases in canonical order: the case with ordinal `i + 1` at
    /// index `i`.
    pub open spec fn spec_all() -> Seq<TestCase> {
        seq![
            TestCase::HostRouting,
            TestCase::PathRouting,
            TestCase::HeaderRouting,
            TestCase::TlsTermination,
            TestCase::HttpsRedirect,
            TestCase::BackendTls,
            TestCase::CanaryTraffic,
            TestCase::RateLimiting,
            TestCase::TimeoutRetry,
            TestCase::SessionAffinity,
            TestCase::UrlRewrite,
            TestCase::HeaderModifier,
            TestCase::CrossNamespace,
            TestCase::GrpcRouting,
            TestCase::HealthCheck,
            TestCase::LoadTest,
            TestCase::FailoverRecovery,
        ]
    }

    /// Get all test cases.
    pub fn all() -> (r: Vec<TestCase>)
        ensures
            r@ == TestCase::spec_all(),
    {
        let mut v: Vec<TestCase> = Vec::new();
        v.push(TestCase::HostRouting);
        v.push(TestCase::PathRouting);
        v.push(TestCase::HeaderRouting);
        v.push(TestCase::TlsTermination);
        v.push(TestCase::HttpsRedirect);
        v.push(TestCase::BackendTls);
        v.push(TestCase::CanaryTraffic);
        v.push(TestCase::RateLimiting);
        v.push(TestCase::TimeoutRetry);
        v.push(TestCase::SessionAffinity);
        v.push(TestCase::UrlRewrite);
        v.push(TestCase::HeaderModifier);
        v.push(TestCase::CrossNamespace);
        v.push(TestCase::GrpcRouting);
        v.push(TestCase::HealthCheck);
        v.push(TestCase::LoadTest);
        v.push(TestCase::FailoverRecovery);
        proof {
            assert(v@ =~= TestCase::spec_all());
        }
        v
    }

    /// The case a number names, if any: the inverse of `spec_number` on 1
    /// through 17, `None` outside.
    pub open spec fn spec_from_number(n: int) -> Option<TestCase> {
        if 1 <= n <= 17 {
            Some(TestCase::spec_all()[n - 1])
        } else {
            None
        }
    }

    /// Parse from test number.
    pub fn from_number(n: u8) -> (r: Option<TestCase>)
        ensures
            r == TestCase::spec_from_number(n as int),
    {
        match n {
            1 => Some(TestCase::HostRouting),
            2 => Some(TestCase::PathRouting),
            3 => Some(TestCase::HeaderRouting),
            4 => Some(TestCase::TlsTermination),
            5 => Some(TestCase::HttpsRedirect),
            6 => Some(TestCase::BackendTls),
            7 => Some(TestCase::CanaryTraffic),
            8 => Some(TestCase::RateLimiting),
            9 => Some(TestCase::TimeoutRetry),
            10 => Some(TestCase::SessionAffinity),
            11 => Some(TestCase::UrlRewrite),
            12 => Some(TestCase::HeaderModifier),
            13 => Some(TestCase::CrossNamespace),
            14 => Some(TestCase::GrpcRouting),
            15 => Some(TestCase::HealthCheck),
            16 => Some(TestCase::LoadTest),
            17 => Some(TestCase::FailoverRecovery),
            _ => None,
        }
    }
}

/// Test execution status.
#[derive(Clone, Copy, Debug, PartialEq, Eq, Structural)]
pub enum TestStatus {
    Pass,
    Fail,
    Skip,
    Error,
}

impl TestStatus {
    /// The one-character marker of each status.
    pub open spec fn spec_symbol(self) -> Seq<char> {
        match self {
            TestStatus::Pass => "✓"@,
            TestStatus::Fail => "✗"@,
            TestStatus::Skip => "○"@,
            TestStatus::Error => "!"@,
        }
    }

    pub fn symbol(&self) -> (r: &'static str)
        ensures
            r@ == self.spec_symbol(),
    {
        match self {
            TestStatus::Pass => "✓",
            TestStatus::Fail => "✗",
            TestStatus::Skip => "○",
            TestStatus::Error => "!",
        }
    }

    /// Only a pass counts as success.
    pub fn is_success(&self) -> (r: bool)
        ensures
            r == (self is Pass),
    {
        matches!(self, TestStatus::Pass)
    }
}

/// Result of a single test execution.
#[derive(Clone, Debug)]
pub struct TestResult {
    pub test_case: TestCase,
    pub status: TestStatus,
    pub duration_ms: u64,
    pub message: Option<String>,
    pub details: Option<serde_json::Value>,
}

impl TestResult {
    /// A passing result with its duration and no message.
    pub fn pass(test_case: TestCase, duration_ms: u64) -> (r: Self)
        ensures
            r.test_case == test_case,
            r.status is Pass,
            r.duration_ms == duration_ms,
            r.message is None,
            r.details is None,
    {
        TestResult {
            test_case,
            status: TestStatus::Pass,
            duration_ms,
            message: None,
            details: None,
        }
    }

    /// A failing result with its duration and message.
    pub fn fail(test_case: TestCase, duration_ms: u64, message: &str) -> (r: Self)
        ensures
            r.test_case == test_case,
            r.status is Fail,
            r.duration_ms == duration_ms,
            r.message matches Some(m) && m@ == message@,
            r.details is None,
    {
        TestResult {
            test_case,
            status: TestStatus::Fail,
            duration_ms,
            message: Some(String::from_str(message)),
            details: None,
        }
    }

    /// A skipped result: zero duration, with the reason as its message.
    pub fn skip(test_case: TestCase, reason: &str) -> (r: Self)
        ensures
            r.test_case == test_case,
            r.status is Skip,
            r.duration_ms == 0,
            r.message matches Some(m) && m@ == reason@,
            r.details is None,
    {
        TestResult {
            test_case,
            status: TestStatus::Skip,
            duration_ms: 0,
            message: Some(String::from_str(reason)),
            details: None,
        }
    }

    /// An errored result: zero duration, with the error as its message.
    pub fn error(test_case: TestCase, error: &str) -> (r: Self)
        ensures
            r.test_case == test_case,
            r.status is Error,
            r.duration_ms == 0,
            r.message matches Some(m) && m@ == error@,
            r.details is None,
    {
        TestResult {
            test_case,
            status: TestStatus::Error,
            duration_ms: 0,
            message: Some(String::from_str(error)),
            details: None,
        }
    }

    /// Replace the message.
    pub fn with_message(self, message: &str) -> (r: Self)
        ensures
            r.test_case == self.test_case,
            r.status == self.status,
            r.duration_ms == self.duration_ms,
            r.message matches Some(m) && m@ == message@,
            r.details is Some == self.details is Some,
    {
        TestResult { message: Some(String::from_str(message)), ..self }
    }

    /// Attach structured details.
    pub fn with_details(self, details: serde_json::Value) -> (r: Self)
        ensures
            r.test_case == self.test_case,
            r.status == self.status,
            r.duration_ms == self.duration_ms,
            r.details is Some,
    {
        TestResult { details: Some(details), ..self }
    }
}

/// How many results in a sequence carry the given status.
pub open spec fn spec_count_status(s: Seq<TestResult>, st: TestStatus) -> int
    decreases s.len(),
{
    if s.len() == 0 {
        0
    } else {
        spec_count_status(s.drop_last(), st) + if s.last().status == st {
            1int
        } else {
            0int
        }
    }
}

/// The sum of the results' durations, saturating at `u64::MAX`.
pub open spec fn spec_duration_sum(s: Seq<TestResult>) -> int
    decreases s.len(),
{
    if s.len() == 0 {
        0
    } else {
        let rest = spec_duration_sum(s.drop_last());
        if rest + s.last().duration_ms > u64::MAX {
            u64::MAX as int
        } else {
            rest + s.last().duration_ms
        }
    }
}

proof fn lemma_count_status_le_len(s: Seq<TestResult>, st: TestStatus)
    ensures
        0 <= spec_count_status(s, st) <= s.len(),
    decreases s.len(),
{
    if s.len() > 0 {
        lemma_count_status_le_len(s.drop_last(), st);
    }
}

proof fn lemma_duration_sum_bounds(s: Seq<TestResult>)
    ensures
        0 <= spec_duration_sum(s) <= u64::MAX,
    decreases s.len(),
{
    if s.len() > 0 {
        lemma_duration_sum_bounds(s.drop_last());
    }
}

/// Summary of one test round.
#[derive(Clone, Debug)]
pub struct TestRoundSummary {
    pub round: u32,
    pub gateway: String,
    pub total: usize,
    pub passed: usize,
    pub failed: usize,
    pub skipped: usize,
    pub errors: usize,
    pub total_duration_ms: u64,
    pub results: Vec<TestResult>,
}

impl TestRoundSummary {
    /// The per-status counts and the duration sum agree with the results.
    pub open spec fn well_formed(&self) -> bool {
        &&& self.total == self.results@.len()
        &&& self.passed == spec_count_status(self.results@, TestStatus::Pass)
        &&& self.failed == spec_count_status(self.results@, TestStatus::Fail)
        &&& self.skipped == spec_count_status(self.results@, TestStatus::Skip)
        &&& self.errors == spec_count_status(self.results@, TestStatus::Error)
        &&& self.total_duration_ms == spec_duration_sum(self.results@)
    }

    /// Build a round summary: count the results by status and sum their
    /// durations (saturating).
    pub fn new(round: u32, gateway: &str, results: Vec<TestResult>) -> (r: Self)
        ensures
            r.well_formed(),
            r.round == round,
            r.gateway@ == gateway@,
            r.results@ == results@,
    {
        let total = results.len();
        let mut passed: usize = 0;
        let mut failed: usize = 0;
        let mut skipped: usize = 0;
        let mut errors: usize = 0;
        let mut total_duration_ms: u64 = 0;
        let mut i: usize = 0;
        while i < results.len()
            invariant
                i <= results@.len(),
                passed == spec_count_status(results@.subrange(0, i as int), TestStatus::Pass),
                failed == spec_count_status(results@.subrange(0, i as int), TestStatus::Fail),
                skipped == spec_count_status(results@.subrange(0, i as int), TestStatus::Skip),
                errors == spec_count_status(results@.subrange(0, i as int), TestStatus::Error),
                total_duration_ms == spec_duration_sum(results@.subrange(0, i as int)),
            decreases results@.len() - i,
        {
            proof {
                let pre = results@.subrange(0, i as int);
                let ext = results@.subrange(0, i as int + 1);
                assert(ext.drop_last() =~= pre);
                assert(ext.last() == results@[i as int]);
                lemma_count_status_le_len(pre, TestStatus::Pass);
                lemma_count_status_le_len(pre, TestStatus::Fail);
                lemma_count_status_le_len(pre, TestStatus::Skip);
                lemma_count_status_le_len(pre, TestStatus::Error);
            }
            let d = results[i].duration_ms;
            if total_duration_ms > u64::MAX - d {
                total_duration_ms = u64::MAX;
            } else {
                total_duration_ms = total_duration_ms + d;
            }
            match results[i].status {
                TestStatus::Pass => {
                    passed += 1;
                },
                TestStatus::Fail => {
                    failed += 1;
                },
                TestStatus::Skip => {
                    skipped += 1;
                },
                TestStatus::Error => {
                    errors += 1;
                },
            }
            i += 1;
        }
        proof {
            assert(results@.subrange(0, results@.len() as int) =~= results@);
        }
        TestRoundSummary {
            round,
            gateway: String::from_str(gateway),
            total,
            passed,
            failed,
            skipped,
            errors,
            total_duration_ms,
            results,
        }
    }

    /// The pass rate over all results, in hundredths of a percent; 0 for an
    /// empty round.
    pub open spec fn spec_pass_rate_bp(&self) -> int {
        if self.total == 0 {
            0
        } else {
            self.passed * 10000 / self.total as int
        }
    }

    /// Pass rate in hundredths of a percent (10000 means every test passed).
    pub fn pass_rate(&self) -> (r: u32)
        requires
            self.well_formed(),
        ensures
            r as int == self.spec_pass_rate_bp(),
    {
        if self.total == 0 {
            0
        } else {
            proof {
                lemma_count_status_le_len(self.results@, TestStatus::Pass);
                assert((self.passed as int) * 10000 / (self.total as int) <= 10000)
                    by (nonlinear_arith)
                    requires
                        0 <= self.passed as int <= self.total as int,
                        self.total as int > 0,
                ;
            }
            ((self.passed as u128) * 10000 / (self.total as u128)) as u32
        }
    }

    /// Whether every result in the round passed.
    pub fn is_all_passed(&self) -> (r: bool)
        ensures
            r == (self.passed == self.total),
    {
        self.passed == self.total
    }
}

} // verus!
