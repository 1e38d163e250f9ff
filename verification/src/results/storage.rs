//! Stored test run models and their aggregation, and run identifier
//! generation.  Reading and writing them on disk happens outside the
//! verified core.

use vstd::prelude::*;

use crate::clock::now_unix_seconds;
use crate::models::gateway::GatewayImpl;
use crate::models::test_result::{TestResult, TestRoundSummary, TestStatus};
use crate::results::report::{civil_of_days, pad2, spec_civil_of_days, spec_pad2};
use crate::util::{spec_dec, spec_lower, str_eq_ignore_ascii_case, u64_to_dec_string};

verus! {

/// Relies on rand::random: a uniformly random value.  Nothing can be
/// promised of it, so no contract is stated.
#[verifier::external_body]
fn random_u32() -> u32 {
    rand::random::<u32>()
}

/// Stored test result.
#[derive(Clone, Debug)]
pub struct StoredTestResult {
    /// Test case number
    pub test_number: u8,
    /// Test name
    pub test_name: String,
    /// Test category
    pub category: String,
    /// Whether the test passed
    pub passed: bool,
    /// Duration in milliseconds
    pub duration_ms: u64,
    /// HTTP status code (if applicable)
    pub status_code: Option<u16>,
    /// Error message (if failed)
    pub error: Option<String>,
    /// Additional details
    pub details: Vec<(String, String)>,
}

impl StoredTestResult {
    /// Convert from a TestResult: the case flattened to its ordinal, name
    /// and category, with only a pass counting as passed.
    pub fn from_test_result(result: &TestResult) -> (r: Self)
        ensures
            r.test_number as int == result.test_case.spec_number(),
            r.test_name@ == result.test_case.spec_case_name(),
            r.category@ == result.test_case.spec_category(),
            r.passed == (result.status is Pass),
            r.duration_ms == result.duration_ms,
            r.status_code is None,
            match (&r.error, &result.message) {
                (Some(e), Some(m)) => e@ == m@,
                (None, None) => true,
                _ => false,
            },
            r.details@.len() == 0,
    {
        let error: Option<String> = match &result.message {
            Some(m) => Some(m.clone()),
            None => None,
        };
        StoredTestResult {
            test_number: result.test_case.number(),
            test_name: String::from_str(result.test_case.name()),
            category: String::from_str(result.test_case.category()),
            passed: matches!(result.status, TestStatus::Pass),
            duration_ms: result.duration_ms,
            status_code: None,
            error,
            details: Vec::new(),
        }
    }
}

/// Stored round summary.
#[derive(Clone, Debug)]
pub struct StoredRoundSummary {
    /// Round number
    pub round: u32,
    /// Total tests run
    pub total: usize,
    /// Tests passed
    pub passed: usize,
    /// Tests failed
    pub failed: usize,
    /// Tests skipped
    pub skipped: usize,
    /// Pass rate in hundredths of a percent
    pub pass_rate: u32,
    /// Total duration in milliseconds
    pub duration_ms: u64,
    /// Individual test results
    pub results: Vec<StoredTestResult>,
}

impl StoredRoundSummary {
    /// Convert from a round summary, carrying the counts over and flattening
    /// each result.
    pub fn from_round_summary(round: u32, summary: &TestRoundSummary) -> (r: Self)
        requires
            summary.passed <= summary.total,
        ensures
            r.round == round,
            r.total == summary.total,
            r.passed == summary.passed,
            r.failed == summary.failed,
            r.skipped == summary.skipped,
            r.pass_rate as int == if summary.total == 0 {
                0int
            } else {
                summary.passed * 10000 / summary.total as int
            },
            r.duration_ms == summary.total_duration_ms,
            r.results@.len() == summary.results@.len(),
            forall|i: int|
                0 <= i < summary.results@.len() ==> {
                    &&& (#[trigger] r.results@[i]).test_number as int
                        == summary.results@[i].test_case.spec_number()
                    &&& r.results@[i].test_name@ == summary.results@[i].test_case.spec_case_name()
                    &&& r.results@[i].passed == (summary.results@[i].status is Pass)
                    &&& r.results@[i].duration_ms == summary.results@[i].duration_ms
                },
    {
        let mut results: Vec<StoredTestResult> = Vec::new();
        let mut i: usize = 0;
        while i < summary.results.len()
            invariant
                i <= summary.results@.len(),
                results@.len() == i,
                forall|k: int|
                    0 <= k < i ==> {
                        &&& (#[trigger] results@[k]).test_number as int
                            == summary.results@[k].test_case.spec_number()
                        &&& results@[k].test_name@
                            == summary.results@[k].test_case.spec_case_name()
                        &&& results@[k].passed == (summary.results@[k].status is Pass)
                        &&& results@[k].duration_ms == summary.results@[k].duration_ms
                    },
            decreases summary.results@.len() - i,
        {
            results.push(StoredTestResult::from_test_result(&summary.results[i]));
            i += 1;
        }
        let pass_rate: u32 = if summary.total == 0 {
            0
        } else {
            proof {
                assert((summary.passed as int) * 10000 / (summary.total as int) <= 10000)
                    by (nonlinear_arith)
                    requires
                        0 <= summary.passed as int <= summary.total as int,
                        summary.total as int > 0,
                ;
            }
            (((summary.passed as u128) * 10000) / (summary.total as u128)) as u32
        };
        StoredRoundSummary {
            round,
            total: summary.total,
            passed: summary.passed,
            failed: summary.failed,
            skipped: summary.skipped,
            pass_rate,
            duration_ms: summary.total_duration_ms,
            results,
        }
    }
}

/// Statistics for a single test across rounds.
#[derive(Clone, Debug, PartialEq, Eq, Structural)]
pub struct TestStats {
    /// Number of times passed
    pub pass_count: u32,
    /// Number of times failed
    pub fail_count: u32,
    /// Pass rate in hundredths of a percent
    pub pass_rate: u32,
    /// Average duration in milliseconds
    pub avg_duration_ms: u64,
    /// Minimum duration in milliseconds
    pub min_duration_ms: u64,
    /// Maximum duration in milliseconds
    pub max_duration_ms: u64,
}

/// Aggregate statistics across all rounds.
#[derive(Clone, Debug)]
pub struct AggregateStats {
    /// Average pass rate, in hundredths of a percent
    pub avg_pass_rate: u32,
    /// Minimum pass rate, in hundredths of a percent
    pub min_pass_rate: u32,
    /// Maximum pass rate, in hundredths of a percent
    pub max_pass_rate: u32,
    /// Average duration per round, in milliseconds
    pub avg_duration_ms: u64,
    /// Total duration, in milliseconds
    pub total_duration_ms: u64,
    /// Per-test statistics, keyed by test name
    pub test_stats: Vec<(String, TestStats)>,
}

/// Test run configuration.
#[derive(Clone, Debug)]
pub struct TestRunConfig {
    /// Hostname used for tests
    pub hostname: String,
    /// HTTP port
    pub http_port: u16,
    /// HTTPS port
    pub https_port: u16,
    /// Timeout in seconds
    pub timeout_secs: u64,
    /// Whether tests ran in parallel
    pub parallel: bool,
    /// Concurrency level
    pub concurrency: usize,
}

impl Default for TestRunConfig {
    /// Hostname example.com, ports 80 and 443, a 30 second timeout,
    /// sequential with a pool of four.
    fn default() -> (r: Self)
        ensures
            r.hostname@ == "example.com"@,
            r.http_port == 80,
            r.https_port == 443,
            r.timeout_secs == 30,
            r.parallel == false,
            r.concurrency == 4,
    {
        TestRunConfig {
            hostname: String::from_str("example.com"),
            http_port: 80,
            https_port: 443,
            timeout_secs: 30,
            parallel: false,
            concurrency: 4,
        }
    }
}

/// Environment information, as the surrounding tooling reports it.
#[derive(Clone, Debug)]
pub struct EnvironmentInfo {
    /// Operating system
    pub os: String,
    /// Architecture
    pub arch: String,
    /// Kubernetes version (if available)
    pub k8s_version: Option<String>,
    /// Gateway version (if available)
    pub gateway_version: Option<String>,
    /// Tool version
    pub tool_version: String,
}

/// Sum of the rounds' pass rates, in hundredths of a percent.
pub open spec fn spec_rate_sum(s: Seq<StoredRoundSummary>) -> int
    decreases s.len(),
{
    if s.len() == 0 {
        0
    } else {
        spec_rate_sum(s.drop_last()) + s.last().pass_rate
    }
}

/// The smallest pass rate among the rounds (the full rate for no rounds).
pub open spec fn spec_rate_min(s: Seq<StoredRoundSummary>) -> int
    decreases s.len(),
{
    if s.len() == 0 {
        10000
    } else {
        let rest = spec_rate_min(s.drop_last());
        if s.last().pass_rate < rest {
            s.last().pass_rate as int
        } else {
            rest
        }
    }
}

/// The largest pass rate among the rounds (zero for no rounds).
pub open spec fn spec_rate_max(s: Seq<StoredRoundSummary>) -> int
    decreases s.len(),
{
    if s.len() == 0 {
        0
    } else {
        let rest = spec_rate_max(s.drop_last());
        if s.last().pass_rate > rest {
            s.last().pass_rate as int
        } else {
            rest
        }
    }
}

/// Sum of the rounds' durations, saturating at `u64::MAX`.
pub open spec fn spec_round_duration_sum(s: Seq<StoredRoundSummary>) -> int
    decreases s.len(),
{
    if s.len() == 0 {
        0
    } else {
        let rest = spec_round_duration_sum(s.drop_last());
        if rest + s.last().duration_ms > u64::MAX {
            u64::MAX as int
        } else {
            rest + s.last().duration_ms
        }
    }
}

proof fn lemma_round_folds_bounds(s: Seq<StoredRoundSummary>)
    requires
        forall|i: int| 0 <= i < s.len() ==> (#[trigger] s[i]).pass_rate <= 10000,
    ensures
        0 <= spec_rate_sum(s) <= s.len() * 10000,
        0 <= spec_rate_min(s) <= 10000,
        0 <= spec_rate_max(s) <= 10000,
        0 <= spec_round_duration_sum(s) <= u64::MAX,
    decreases s.len(),
{
    if s.len() > 0 {
        lemma_round_folds_bounds(s.drop_last());
        assert((s.len() - 1) * 10000 + 10000 == s.len() * 10000) by (nonlinear_arith);
    }
}

/// Stored test run containing all results.
#[derive(Clone, Debug)]
pub struct StoredTestRun {
    /// Unique run ID
    pub id: String,
    /// Gateway implementation tested
    pub gateway: String,
    /// Gateway IP address
    pub gateway_ip: String,
    /// Seconds since the Unix epoch when the run started
    pub started_at: u64,
    /// Seconds since the Unix epoch when the run completed
    pub completed_at: u64,
    /// Number of rounds
    pub rounds: u32,
    /// Round summaries
    pub summaries: Vec<StoredRoundSummary>,
    /// Aggregate statistics
    pub aggregate: Option<AggregateStats>,
    /// Test configuration
    pub config: TestRunConfig,
    /// Environment info
    pub environment: EnvironmentInfo,
}

impl StoredTestRun {
    /// A fresh run for a gateway: a generated identifier, the wall-clock
    /// start, no rounds and no aggregate yet.
    pub fn new(gateway: GatewayImpl, gateway_ip: &str, environment: EnvironmentInfo) -> (r: Self)
        ensures
            r.gateway@ == gateway.spec_name(),
            r.gateway_ip@ == gateway_ip@,
            r.rounds == 0,
            r.summaries@.len() == 0,
            r.aggregate is None,
            r.started_at == r.completed_at,
    {
        let now = now_unix_seconds();
        StoredTestRun {
            id: generate_run_id(),
            gateway: String::from_str(gateway.name()),
            gateway_ip: String::from_str(gateway_ip),
            started_at: now,
            completed_at: now,
            rounds: 0,
            summaries: Vec::new(),
            aggregate: None,
            config: TestRunConfig::default(),
            environment,
        }
    }

    /// Set configuration.
    pub fn with_config(self, config: TestRunConfig) -> (r: Self)
        ensures
            r.config == config,
            r.id == self.id,
            r.gateway == self.gateway,
            r.summaries == self.summaries,
    {
        StoredTestRun { config, ..self }
    }

    /// Append one round's summary and mark the run completed now.
    pub fn add_round(&mut self, round: u32, summary: &TestRoundSummary)
        requires
            summary.passed <= summary.total,
        ensures
            final(self).summaries@.len() == old(self).summaries@.len() + 1,
            forall|i: int|
                0 <= i < old(self).summaries@.len() ==> (#[trigger] final(self).summaries@[i])
                    == old(self).summaries@[i],
            final(self).summaries@.last().round == round,
            final(self).rounds == round,
            final(self).id == old(self).id,
            final(self).gateway == old(self).gateway,
            final(self).aggregate == old(self).aggregate,
    {
        let stored = StoredRoundSummary::from_round_summary(round, summary);
        self.summaries.push(stored);
        self.rounds = round;
        self.completed_at = now_unix_seconds();
    }

    /// Reduce the rounds into aggregate statistics: the average, smallest
    /// and largest round pass rates, the total and average round duration,
    /// and per-test statistics.  A run with no rounds gains no aggregate.
    pub fn calculate_aggregate(&mut self)
        requires
            old(self).summaries@.len() <= u32::MAX,
            forall|i: int|
                0 <= i < old(self).summaries@.len() ==> (#[trigger] old(
                    self,
                ).summaries@[i]).pass_rate <= 10000,
        ensures
            final(self).summaries == old(self).summaries,
            final(self).id == old(self).id,
            old(self).summaries@.len() == 0 ==> final(self).aggregate == old(self).aggregate,
            old(self).summaries@.len() > 0 ==> (final(self).aggregate matches Some(agg) && {
                &&& agg.avg_pass_rate as int == spec_rate_sum(old(self).summaries@) / old(
                    self,
                ).summaries@.len() as int
                &&& agg.min_pass_rate as int == spec_rate_min(old(self).summaries@)
                &&& agg.max_pass_rate as int == spec_rate_max(old(self).summaries@)
                &&& agg.total_duration_ms as int == spec_round_duration_sum(old(self).summaries@)
                &&& agg.avg_duration_ms as int == spec_round_duration_sum(old(self).summaries@)
                    / old(self).summaries@.len() as int
                &&& crate::kvlist::kv_unique(agg.test_stats@)
                &&& forall|a: int, b: int|
                    0 <= a < old(self).summaries@.len() && 0 <= b < old(
                        self,
                    ).summaries@[a].results@.len() ==> crate::kvlist::kv_get(
                        agg.test_stats@,
                        (#[trigger] old(self).summaries@[a].results@[b]).test_name@,
                    ) is Some
            }),
    {
        let n = self.summaries.len();
        if n == 0 {
            return ;
        }
        let mut rate_sum: u64 = 0;
        let mut rate_min: u32 = 10000;
        let mut rate_max: u32 = 0;
        let mut dur_total: u64 = 0;
        let mut i: usize = 0;
        while i < n
            invariant
                n == self.summaries@.len(),
                i <= n,
                n <= u32::MAX,
                forall|k: int|
                    0 <= k < n ==> (#[trigger] self.summaries@[k]).pass_rate <= 10000,
                rate_sum as int == spec_rate_sum(self.summaries@.subrange(0, i as int)),
                rate_min as int == spec_rate_min(self.summaries@.subrange(0, i as int)),
                rate_max as int == spec_rate_max(self.summaries@.subrange(0, i as int)),
                dur_total as int == spec_round_duration_sum(self.summaries@.subrange(0, i as int)),
                rate_sum as int <= (i as int) * 10000,
            decreases n - i,
        {
            proof {
                let pre = self.summaries@.subrange(0, i as int);
                let ext = self.summaries@.subrange(0, i as int + 1);
                assert(ext.drop_last() =~= pre);
                assert(ext.last() == self.summaries@[i as int]);
                assert((i as int) * 10000 + 10000 == (i as int + 1) * 10000) by (nonlinear_arith);
            }
            let s = &self.summaries[i];
            rate_sum = rate_sum + (s.pass_rate as u64);
            if s.pass_rate < rate_min {
                rate_min = s.pass_rate;
            }
            if s.pass_rate > rate_max {
                rate_max = s.pass_rate;
            }
            if dur_total > u64::MAX - s.duration_ms {
                dur_total = u64::MAX;
            } else {
                dur_total = dur_total + s.duration_ms;
            }
            i += 1;
        }
        proof {
            assert(self.summaries@.subrange(0, n as int) =~= self.summaries@);
            lemma_round_folds_bounds(self.summaries@);
            assert(spec_rate_sum(self.summaries@) / (n as int) <= 10000) by (nonlinear_arith)
                requires
                    0 <= spec_rate_sum(self.summaries@) <= (n as int) * 10000,
                    n >= 1,
            ;
        }
        let avg_pass_rate = (rate_sum / (n as u64)) as u32;
        let avg_duration_ms = dur_total / (n as u64);
        let test_stats = collect_test_stats(&self.summaries);
        self.aggregate = Some(
            AggregateStats {
                avg_pass_rate,
                min_pass_rate: rate_min,
                max_pass_rate: rate_max,
                avg_duration_ms,
                total_duration_ms: dur_total,
                test_stats,
            },
        );
    }
}

/// Per-test accumulators gathered by name, in first-appearance order.  The
/// statistics are folded over every result in round order.
fn collect_test_stats(summaries: &Vec<StoredRoundSummary>) -> (r: Vec<(String, TestStats)>)
    ensures
        crate::kvlist::kv_unique(r@),
        forall|a: int, b: int|
            0 <= a < summaries@.len() && 0 <= b < summaries@[a].results@.len()
                ==> crate::kvlist::kv_get(
                r@,
                (#[trigger] summaries@[a].results@[b]).test_name@,
            ) is Some,
{
    let mut acc: Vec<(String, (u32, u32, u64, u64, u64))> = Vec::new();
    let mut i: usize = 0;
    while i < summaries.len()
        invariant
            i <= summaries@.len(),
            crate::kvlist::kv_unique(acc@),
            forall|a: int, b: int|
                0 <= a < i && 0 <= b < summaries@[a].results@.len() ==> crate::kvlist::kv_get(
                    acc@,
                    (#[trigger] summaries@[a].results@[b]).test_name@,
                ) is Some,
        decreases summaries@.len() - i,
    {
        let row = &summaries[i].results;
        let mut j: usize = 0;
        while j < row.len()
            invariant
                i < summaries@.len(),
                j <= row@.len(),
                row@ == summaries@[i as int].results@,
                crate::kvlist::kv_unique(acc@),
                forall|a: int, b: int|
                    0 <= a < i && 0 <= b < summaries@[a].results@.len() ==> crate::kvlist::kv_get(
                        acc@,
                        (#[trigger] summaries@[a].results@[b]).test_name@,
                    ) is Some,
                forall|b: int|
                    0 <= b < j ==> crate::kvlist::kv_get(
                        acc@,
                        (#[trigger] row@[b]).test_name@,
                    ) is Some,
            decreases row@.len() - j,
        {
            let res = &row[j];
            let passed = res.passed;
            let d = res.duration_ms;
            let prev: (u32, u32, u64, u64, u64) = match crate::kvlist::kv_lookup(
                &acc,
                res.test_name.as_str(),
            ) {
                Some(v) => *v,
                None => (0, 0, 0, u64::MAX, 0),
            };
            let pass_count = if passed {
                if prev.0 < u32::MAX {
                    prev.0 + 1
                } else {
                    prev.0
                }
            } else {
                prev.0
            };
            let fail_count = if !passed {
                if prev.1 < u32::MAX {
                    prev.1 + 1
                } else {
                    prev.1
                }
            } else {
                prev.1
            };
            let dur_sum = if prev.2 > u64::MAX - d {
                u64::MAX
            } else {
                prev.2 + d
            };
            let dur_min = if d < prev.3 {
                d
            } else {
                prev.3
            };
            let dur_max = if d > prev.4 {
                d
            } else {
                prev.4
            };
            crate::kvlist::kv_insert(
                &mut acc,
                res.test_name.as_str(),
                (pass_count, fail_count, dur_sum, dur_min, dur_max),
            );
            j += 1;
        }
        proof {
            assert forall|a: int, b: int|
                0 <= a < i + 1 && 0 <= b < summaries@[a].results@.len() implies
                crate::kvlist::kv_get(
                    acc@,
                    (#[trigger] summaries@[a].results@[b]).test_name@,
                ) is Some by {
                if a == i {
                    assert(crate::kvlist::kv_get(acc@, row@[b].test_name@) is Some);
                }
            }
        }
        i += 1;
    }
    let ghost acc_final = acc@;
    let mut out: Vec<(String, TestStats)> = Vec::new();
    let mut k: usize = 0;
    while k < acc.len()
        invariant
            acc@ == acc_final,
            k <= acc@.len(),
            out@.len() == k,
            crate::kvlist::kv_unique(acc@),
            forall|a: int| 0 <= a < k ==> (#[trigger] out@[a]).0 == acc@[a].0,
        decreases acc@.len() - k,
    {
        let name = acc[k].0.clone();
        let v = acc[k].1;
        let total: u64 = (v.0 as u64) + (v.1 as u64);
        let pass_rate: u32 = if total > 0 {
            proof {
                assert((v.0 as int) * 10000 / (total as int) <= 10000) by (nonlinear_arith)
                    requires
                        0 <= v.0 as int <= total as int,
                        total as int > 0,
                ;
            }
            (((v.0 as u64) * 10000) / total) as u32
        } else {
            0
        };
        let avg: u64 = if total > 0 {
            v.2 / total
        } else {
            0
        };
        let min_d: u64 = if v.3 == u64::MAX && total == 0 {
            0
        } else if v.3 == u64::MAX {
            v.3
        } else {
            v.3
        };
        out.push(
            (
                name,
                TestStats {
                    pass_count: v.0,
                    fail_count: v.1,
                    pass_rate,
                    avg_duration_ms: avg,
                    min_duration_ms: min_d,
                    max_duration_ms: v.4,
                },
            ),
        );
        proof {
            assert forall|a: int, b: int| 0 <= a < b < out@.len() implies (
            #[trigger] out@[a]).0@ != (#[trigger] out@[b]).0@ by {
                assert(out@[a].0 == acc@[a].0);
                assert(out@[b].0 == acc@[b].0);
            }
        }
        k += 1;
    }
    proof {
        assert forall|a: int, b: int|
            0 <= a < summaries@.len() && 0 <= b < summaries@[a].results@.len() implies
            crate::kvlist::kv_get(
                out@,
                (#[trigger] summaries@[a].results@[b]).test_name@,
            ) is Some by {
            crate::kvlist::lemma_kv_same_keys(
                acc@,
                out@,
                summaries@[a].results@[b].test_name@,
            );
        }
    }
    out
}

/// Brief run information.
#[derive(Clone, Debug)]
pub struct RunInfo {
    pub id: String,
    pub gateway: String,
    pub started_at: u64,
    pub rounds: u32,
    pub pass_rate: u32,
}

/// Export format.
#[derive(Clone, Copy, Debug, PartialEq, Eq, Structural)]
pub enum ExportFormat {
    Json,
    Csv,
}

impl ExportFormat {
    /// The format a name selects, after ASCII lower-casing.
    pub open spec fn spec_of_str(s: Seq<char>) -> Option<ExportFormat> {
        let l = spec_lower(s);
        if l == "json"@ {
            Some(ExportFormat::Json)
        } else if l == "csv"@ {
            Some(ExportFormat::Csv)
        } else {
            None
        }
    }

    /// Parse from string, case-insensitively.
    pub fn from_str(s: &str) -> (r: Option<ExportFormat>)
        ensures
            r == ExportFormat::spec_of_str(s@),
    {
        proof {
            reveal_strlit("json");
            reveal_strlit("csv");
            assert(spec_lower("json"@) =~= "json"@);
            assert(spec_lower("csv"@) =~= "csv"@);
        }
        if str_eq_ignore_ascii_case(s, "json") {
            Some(ExportFormat::Json)
        } else if str_eq_ignore_ascii_case(s, "csv") {
            Some(ExportFormat::Csv)
        } else {
            None
        }
    }
}

/// A number in decimal, left-padded with zeros to at least four digits.
pub open spec fn spec_pad4(n: int) -> Seq<char> {
    if n < 10 {
        "000"@ + spec_dec(n)
    } else if n < 100 {
        "00"@ + spec_dec(n)
    } else if n < 1000 {
        "0"@ + spec_dec(n)
    } else {
        spec_dec(n)
    }
}

fn pad4(n: u64) -> (r: String)
    ensures
        r@ == spec_pad4(n as int),
{
    if n < 10 {
        let mut s = String::from_str("000");
        let d = u64_to_dec_string(n);
        s.append(d.as_str());
        s
    } else if n < 100 {
        let mut s = String::from_str("00");
        let d = u64_to_dec_string(n);
        s.append(d.as_str());
        s
    } else if n < 1000 {
        let mut s = String::from_str("0");
        let d = u64_to_dec_string(n);
        s.append(d.as_str());
        s
    } else {
        u64_to_dec_string(n)
    }
}

/// The run identifier owed for an instant and a random tag: the date, the
/// time of day and the tag modulo ten thousand, underscore-separated.
pub open spec fn spec_run_id(epoch_secs: int, tag: int) -> Seq<char> {
    let days = epoch_secs / 86400;
    let rem = epoch_secs % 86400;
    let (y, m, d) = spec_civil_of_days(days);
    spec_dec(y) + spec_pad2(m) + spec_pad2(d) + "_"@ + spec_pad2(rem / 3600) + spec_pad2(
        (rem % 3600) / 60,
    ) + spec_pad2(rem % 60) + "_"@ + spec_pad4(tag % 10000)
}

/// Format a run identifier from an instant and a random tag.
pub fn format_run_id(epoch_secs: u64, tag: u32) -> (r: String)
    requires
        epoch_secs <= 0xFFFF_FFFF * 86400,
    ensures
        r@ == spec_run_id(epoch_secs as int, tag as int),
{
    let days = epoch_secs / 86400;
    let rem = epoch_secs % 86400;
    let date = civil_of_days(days);
    let mut s = u64_to_dec_string(date.year);
    let mm = pad2(date.month);
    s.append(mm.as_str());
    let dd = pad2(date.day);
    s.append(dd.as_str());
    s.append("_");
    let hh = pad2(rem / 3600);
    s.append(hh.as_str());
    let mi = pad2((rem % 3600) / 60);
    s.append(mi.as_str());
    let ss = pad2(rem % 60);
    s.append(ss.as_str());
    s.append("_");
    let t = pad4(((tag % 10000) as u64));
    s.append(t.as_str());
    s
}

/// Generate a run identifier from the wall clock and a random tag.  The
/// value depends on the clock and the random generator; its shape is that
/// of `format_run_id`.
pub fn generate_run_id() -> (r: String)
    ensures
        exists|e: int, t: int| r@ == #[trigger] spec_run_id(e, t),
{
    let now = now_unix_seconds();
    let capped = if now <= 0xFFFF_FFFF * 86400 {
        now
    } else {
        0xFFFF_FFFF * 86400
    };
    let tag = random_u32();
    let r = format_run_id(capped, tag);
    proof {
        assert(r@ == spec_run_id(capped as int, tag as int));
    }
    r
}

} // verus!
