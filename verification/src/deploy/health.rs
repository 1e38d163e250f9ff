//! Health checking for gateway components: the configuration, the check
//! results, and the pure decisions over them.  The kubectl and HTTP probes
//! that feed them run outside the verified core and hand back plain values.

use vstd::prelude::*;

use crate::models::gateway::GatewayImpl;
use crate::util::{spec_truncate, str_eq, truncate_chars, spec_dec, u64_to_dec_string};

verus! {

/// Health check configuration.
#[derive(Clone, Debug)]
pub struct HealthCheckConfig {
    /// Timeout for individual checks, in seconds
    pub check_timeout_secs: u64,
    /// Overall timeout for health checking, in seconds
    pub total_timeout_secs: u64,
    /// Interval between retries, in seconds
    pub retry_interval_secs: u64,
    /// Number of consecutive successful checks required
    pub success_threshold: u32,
    /// HTTP health endpoint path
    pub health_path: String,
}

impl Default for HealthCheckConfig {
    /// Ten second checks, two minutes overall, five second retries, three
    /// consecutive successes, probing `/healthz`.
    fn default() -> (r: Self)
        ensures
            r.check_timeout_secs == 10,
            r.total_timeout_secs == 120,
            r.retry_interval_secs == 5,
            r.success_threshold == 3,
            r.health_path@ == "/healthz"@,
    {
        HealthCheckConfig {
            check_timeout_secs: 10,
            total_timeout_secs: 120,
            retry_interval_secs: 5,
            success_threshold: 3,
            health_path: String::from_str("/healthz"),
        }
    }
}

impl HealthCheckConfig {
    /// The defaults.
    pub fn new() -> (r: Self)
        ensures
            r.check_timeout_secs == 10,
            r.total_timeout_secs == 120,
            r.retry_interval_secs == 5,
            r.success_threshold == 3,
            r.health_path@ == "/healthz"@,
    {
        HealthCheckConfig::default()
    }

    /// Set the per-check timeout.
    pub fn check_timeout(self, secs: u64) -> (r: Self)
        ensures
            r.check_timeout_secs == secs,
            r.total_timeout_secs == self.total_timeout_secs,
            r.retry_interval_secs == self.retry_interval_secs,
            r.success_threshold == self.success_threshold,
            r.health_path == self.health_path,
    {
        HealthCheckConfig { check_timeout_secs: secs, ..self }
    }

    /// Set the overall timeout.
    pub fn total_timeout(self, secs: u64) -> (r: Self)
        ensures
            r.total_timeout_secs == secs,
            r.check_timeout_secs == self.check_timeout_secs,
            r.retry_interval_secs == self.retry_interval_secs,
            r.success_threshold == self.success_threshold,
            r.health_path == self.health_path,
    {
        HealthCheckConfig { total_timeout_secs: secs, ..self }
    }

    /// Set the retry interval.
    pub fn retry_interval(self, secs: u64) -> (r: Self)
        ensures
            r.retry_interval_secs == secs,
            r.check_timeout_secs == self.check_timeout_secs,
            r.total_timeout_secs == self.total_timeout_secs,
            r.success_threshold == self.success_threshold,
            r.health_path == self.health_path,
    {
        HealthCheckConfig { retry_interval_secs: secs, ..self }
    }
}

/// Individual health check result.
#[derive(Clone, Debug)]
pub struct HealthCheck {
    /// Check name
    pub name: String,
    /// Whether the check passed
    pub passed: bool,
    /// Result message
    pub message: String,
}

impl HealthCheck {
    /// A passing check.
    pub fn pass(name: &str, message: &str) -> (r: Self)
        ensures
            r.name@ == name@,
            r.passed == true,
            r.message@ == message@,
    {
        HealthCheck {
            name: String::from_str(name),
            passed: true,
            message: String::from_str(message),
        }
    }

    /// A failing check.
    pub fn fail(name: &str, message: &str) -> (r: Self)
        ensures
            r.name@ == name@,
            r.passed == false,
            r.message@ == message@,
    {
        HealthCheck {
            name: String::from_str(name),
            passed: false,
            message: String::from_str(message),
        }
    }
}

/// How many checks in a sequence passed.
pub open spec fn spec_passed_count(s: Seq<HealthCheck>) -> int
    decreases s.len(),
{
    if s.len() == 0 {
        0
    } else {
        spec_passed_count(s.drop_last()) + if s.last().passed {
            1int
        } else {
            0int
        }
    }
}

proof fn lemma_passed_count_le_len(s: Seq<HealthCheck>)
    ensures
        0 <= spec_passed_count(s) <= s.len(),
    decreases s.len(),
{
    if s.len() > 0 {
        lemma_passed_count_le_len(s.drop_last());
    }
}

/// Count the passing checks.
pub fn count_passed(checks: &Vec<HealthCheck>) -> (r: usize)
    ensures
        r as int == spec_passed_count(checks@),
{
    let mut passed: usize = 0;
    let mut i: usize = 0;
    while i < checks.len()
        invariant
            i <= checks@.len(),
            passed as int == spec_passed_count(checks@.subrange(0, i as int)),
        decreases checks@.len() - i,
    {
        proof {
            let pre = checks@.subrange(0, i as int);
            let ext = checks@.subrange(0, i as int + 1);
            assert(ext.drop_last() =~= pre);
            assert(ext.last() == checks@[i as int]);
            lemma_passed_count_le_len(pre);
        }
        if checks[i].passed {
            passed += 1;
        }
        i += 1;
    }
    proof {
        assert(checks@.subrange(0, checks@.len() as int) =~= checks@);
    }
    passed
}

/// Health status of a gateway.
#[derive(Clone, Debug)]
pub struct HealthStatus {
    /// Gateway implementation
    pub gateway: GatewayImpl,
    /// Overall health status
    pub healthy: bool,
    /// Individual health checks
    pub checks: Vec<HealthCheck>,
    /// Status message
    pub message: String,
}

/// The summary message a partially failed run is owed: the passed and
/// total counts around a slash, then ` checks passed`.
pub open spec fn spec_ratio_message(passed: int, total: int) -> Seq<char> {
    spec_dec(passed) + "/"@ + spec_dec(total) + " checks passed"@
}

/// Fold individual checks into a gateway health status: healthy exactly
/// when every check passed, with the fixed all-clear message in that case
/// and the pass ratio otherwise.
pub fn health_status_from_checks(gateway: GatewayImpl, checks: Vec<HealthCheck>) -> (r:
    HealthStatus)
    ensures
        r.gateway == gateway,
        r.checks@ == checks@,
        r.healthy == (spec_passed_count(checks@) == checks@.len()),
        r.healthy ==> r.message@ == "All health checks passed"@,
        !r.healthy ==> r.message@ == spec_ratio_message(
            spec_passed_count(checks@),
            checks@.len() as int,
        ),
{
    let passed = count_passed(&checks);
    let total = checks.len();
    let healthy = passed == total;
    let message = if healthy {
        String::from_str("All health checks passed")
    } else {
        let mut m = u64_to_dec_string(passed as u64);
        m.append("/");
        let t = u64_to_dec_string(total as u64);
        m.append(t.as_str());
        m.append(" checks passed");
        m
    };
    HealthStatus { gateway, healthy, checks, message }
}

/// Pre-flight check result.
#[derive(Clone, Debug)]
pub struct PreFlightResult {
    /// Whether all checks passed
    pub passed: bool,
    /// Individual checks
    pub checks: Vec<HealthCheck>,
    /// Result message
    pub message: String,
}

/// Fold pre-flight checks into an overall readiness: ready exactly when
/// every check passed.
pub fn preflight_from_checks(checks: Vec<HealthCheck>) -> (r: PreFlightResult)
    ensures
        r.checks@ == checks@,
        r.passed == (spec_passed_count(checks@) == checks@.len()),
        r.passed ==> r.message@ == "All pre-flight checks passed. Ready to run tests."@,
{
    let passed_count = count_passed(&checks);
    let total = checks.len();
    let passed = passed_count == total;
    let message = if passed {
        String::from_str("All pre-flight checks passed. Ready to run tests.")
    } else {
        let mut m = u64_to_dec_string(passed_count as u64);
        m.append("/");
        let t = u64_to_dec_string(total as u64);
        m.append(t.as_str());
        m.append(" checks passed. Some issues found.");
        m
    };
    PreFlightResult { passed, checks, message }
}

/// What the wait-for-healthy loop does after one more overall check.
#[derive(Clone, Copy, Debug, PartialEq, Eq, Structural)]
pub enum WaitDecision {
    /// Healthy often enough in a row: report healthy
    Done,
    /// Keep retrying after the configured interval
    Retry,
}

/// One step of the wait-for-healthy loop: a healthy observation extends the
/// streak and finishes once it reaches the threshold; an unhealthy one
/// resets the streak.
pub fn wait_step(success_count: u32, threshold: u32, healthy: bool) -> (r: (u32, WaitDecision))
    requires
        success_count < u32::MAX,
    ensures
        healthy ==> r.0 == success_count + 1,
        !healthy ==> r.0 == 0,
        r.1 == (if healthy && success_count + 1 >= threshold {
            WaitDecision::Done
        } else {
            WaitDecision::Retry
        }),
{
    if healthy {
        let n = success_count + 1;
        if n >= threshold {
            (n, WaitDecision::Done)
        } else {
            (n, WaitDecision::Retry)
        }
    } else {
        (0, WaitDecision::Retry)
    }
}

/// Summarize pod phases into a check: all pods must be `Running`, and at
/// least one pod must exist.
pub fn summarize_pod_phases(phases: &Vec<String>) -> (r: HealthCheck)
    ensures
        r.name@ == "Pods"@,
        r.passed == (phases@.len() > 0 && spec_running_count(phases@) == phases@.len()),
{
    let total = phases.len();
    if total == 0 {
        return HealthCheck::fail("Pods", "No pods found");
    }
    let mut running: usize = 0;
    let mut i: usize = 0;
    proof {
        reveal_strlit("Running");
    }
    while i < total
        invariant
            total == phases@.len(),
            i <= total,
            running as int == spec_running_count(phases@.subrange(0, i as int)),
        decreases total - i,
    {
        proof {
            let pre = phases@.subrange(0, i as int);
            let ext = phases@.subrange(0, i as int + 1);
            assert(ext.drop_last() =~= pre);
            assert(ext.last() == phases@[i as int]);
            lemma_running_count_le_len(pre);
        }
        if str_eq(phases[i].as_str(), "Running") {
            running += 1;
        }
        i += 1;
    }
    proof {
        assert(phases@.subrange(0, phases@.len() as int) =~= phases@);
        lemma_running_count_le_len(phases@);
    }
    if running == total {
        let mut m = u64_to_dec_string(running as u64);
        m.append(" pods running");
        HealthCheck { name: String::from_str("Pods"), passed: true, message: m }
    } else {
        let mut m = u64_to_dec_string(running as u64);
        m.append("/");
        let t = u64_to_dec_string(total as u64);
        m.append(t.as_str());
        m.append(" pods running");
        HealthCheck { name: String::from_str("Pods"), passed: false, message: m }
    }
}

/// How many phases read `Running`.
pub open spec fn spec_running_count(s: Seq<String>) -> int
    decreases s.len(),
{
    if s.len() == 0 {
        0
    } else {
        spec_running_count(s.drop_last()) + if s.last()@ == "Running"@ {
            1int
        } else {
            0int
        }
    }
}

proof fn lemma_running_count_le_len(s: Seq<String>)
    ensures
        0 <= spec_running_count(s) <= s.len(),
    decreases s.len(),
{
    if s.len() > 0 {
        lemma_running_count_le_len(s.drop_last());
    }
}

/// Shorten a message to at most `max_len` characters for table display;
/// longer messages keep their head and gain a three-dot ellipsis.
pub fn truncate(s: &str, max_len: usize) -> (r: String)
    requires
        max_len >= 3,
    ensures
        r@ == spec_truncate(s@, max_len as int),
{
    truncate_chars(s, max_len)
}

} // verus!
