//! Performance metrics collection and analysis.
//!
//! Latencies are carried as whole microseconds, request rates as thousandths
//! of a request per second, and ratios as hundredths of a percent, so that
//! every reduction is exact integer arithmetic.

use vstd::prelude::*;

use crate::clock::{elapsed_millis, instant_now};
use crate::util::{isqrt64, lemma_sum_bounds, sort_u32s, sorted_of, spec_sum};

verus! {

/// Latency percentiles (p50, p90, p95, p99, p999), in microseconds.
#[derive(Clone, Copy, Debug, PartialEq, Eq, Structural)]
pub struct Percentiles {
    /// 50th percentile (median)
    pub p50: u32,
    /// 90th percentile
    pub p90: u32,
    /// 95th percentile
    pub p95: u32,
    /// 99th percentile
    pub p99: u32,
    /// 99.9th percentile
    pub p999: u32,
}

impl Default for Percentiles {
    /// All-zero percentiles, used for an empty sample set.
    fn default() -> (r: Self)
        ensures
            r == spec_percentiles_zero(),
    {
        Percentiles { p50: 0, p90: 0, p95: 0, p99: 0, p999: 0 }
    }
}

pub open spec fn spec_percentiles_zero() -> Percentiles {
    Percentiles { p50: 0, p90: 0, p95: 0, p99: 0, p999: 0 }
}

/// The percentile of a sequence at rank `p` thousandths (`500` is the median,
/// `999` the 99.9th percentile), by linear interpolation between the two
/// bracketing order statistics, with the upper index clamped to the last
/// element.  Meaningful when `s` is sorted ascending.
pub open spec fn spec_percentile(s: Seq<u32>, p: int) -> int {
    if s.len() == 0 {
        0
    } else if s.len() == 1 {
        s[0] as int
    } else {
        let idx = p * (s.len() - 1);
        let lo = idx / 1000;
        let rem = idx % 1000;
        if lo + 1 >= s.len() {
            s[s.len() - 1] as int
        } else {
            ((s[lo] as int) * (1000 - rem) + (s[lo + 1] as int) * rem) / 1000
        }
    }
}

/// Percentile value from an ascending-sorted list of samples; `p` is in
/// thousandths of the whole range.
pub fn percentile(sorted: &Vec<u32>, p: u32) -> (r: u32)
    requires
        p <= 1000,
    ensures
        r as int == spec_percentile(sorted@, p as int),
{
    let n = sorted.len();
    if n == 0 {
        return 0;
    }
    if n == 1 {
        return sorted[0];
    }
    proof {
        assert((p as int) * ((n - 1) as int) <= 1000 * ((n - 1) as int)) by (nonlinear_arith)
            requires
                p <= 1000,
                n >= 2,
        ;
        assert(0 <= (p as int) * ((n - 1) as int)) by (nonlinear_arith)
            requires
                p >= 0,
                n >= 2,
        ;
    }
    let idx: u128 = (p as u128) * ((n - 1) as u128);
    let lo128: u128 = idx / 1000;
    let rem: u128 = idx % 1000;
    proof {
        assert(idx <= 1000 * ((n - 1) as int)) by (nonlinear_arith)
            requires
                idx == (p as int) * ((n - 1) as int),
                p <= 1000,
                n >= 2,
        ;
        assert(lo128 <= ((n - 1) as int)) by (nonlinear_arith)
            requires
                lo128 == idx as int / 1000,
                idx <= 1000 * ((n - 1) as int),
                0 <= idx,
        ;
    }
    let lo = lo128 as usize;
    if lo + 1 >= n {
        sorted[n - 1]
    } else {
        proof {
            let x = sorted@[lo as int] as int;
            let y = sorted@[lo as int + 1] as int;
            assert(x * (1000 - rem) + y * rem <= (u32::MAX as int) * 1000) by (nonlinear_arith)
                requires
                    0 <= x <= u32::MAX as int,
                    0 <= y <= u32::MAX as int,
                    0 <= rem < 1000,
            ;
        }
        let a: u128 = (sorted[lo] as u128) * (1000 - rem) + (sorted[lo + 1] as u128) * rem;
        proof {
            assert(a as int / 1000 <= u32::MAX as int) by (nonlinear_arith)
                requires
                    0 <= a as int <= (u32::MAX as int) * 1000,
            ;
        }
        (a / 1000) as u32
    }
}

/// The five standard percentiles of a sequence, all zero when it is empty.
pub open spec fn spec_percentiles(s: Seq<u32>) -> Percentiles {
    if s.len() == 0 {
        spec_percentiles_zero()
    } else {
        Percentiles {
            p50: spec_percentile(s, 500) as u32,
            p90: spec_percentile(s, 900) as u32,
            p95: spec_percentile(s, 950) as u32,
            p99: spec_percentile(s, 990) as u32,
            p999: spec_percentile(s, 999) as u32,
        }
    }
}

impl Percentiles {
    /// Calculate percentiles from sorted latencies (in microseconds).
    pub fn from_sorted(latencies: &Vec<u32>) -> (r: Percentiles)
        ensures
            r == spec_percentiles(latencies@),
    {
        if latencies.len() == 0 {
            return Percentiles::default();
        }
        Percentiles {
            p50: percentile(latencies, 500),
            p90: percentile(latencies, 900),
            p95: percentile(latencies, 950),
            p99: percentile(latencies, 990),
            p999: percentile(latencies, 999),
        }
    }
}

/// Sum of squared deviations from `m`, as a mathematical integer.
pub open spec fn spec_sqdev(s: Seq<u32>, m: int) -> int
    decreases s.len(),
{
    if s.len() == 0 {
        0
    } else {
        spec_sqdev(s.drop_last(), m) + (s.last() - m) * (s.last() - m)
    }
}

proof fn lemma_sqdev_bounds(s: Seq<u32>, m: int)
    requires
        0 <= m <= u32::MAX as int,
    ensures
        0 <= spec_sqdev(s, m) <= s.len() * ((u32::MAX as int) * (u32::MAX as int)),
    decreases s.len(),
{
    let sq = (u32::MAX as int) * (u32::MAX as int);
    if s.len() > 0 {
        lemma_sqdev_bounds(s.drop_last(), m);
        let d = s.last() - m;
        assert(0 <= d * d <= sq) by (nonlinear_arith)
            requires
                0 <= s.last() <= u32::MAX as int,
                0 <= m <= u32::MAX as int,
                d == s.last() - m,
                sq == (u32::MAX as int) * (u32::MAX as int),
        ;
        assert((s.len() - 1) * sq + sq == s.len() * sq) by (nonlinear_arith);
    }
}

/// Sum of the samples; exact, in a 128-bit accumulator.
fn sum_samples(v: &Vec<u32>) -> (r: u128)
    ensures
        r as int == spec_sum(v@),
{
    let mut acc: u128 = 0;
    let mut i: usize = 0;
    while i < v.len()
        invariant
            i <= v@.len(),
            acc as int == spec_sum(v@.subrange(0, i as int)),
            acc as int <= (i as int) * (u32::MAX as int),
        decreases v@.len() - i,
    {
        proof {
            assert(v@.subrange(0, i as int + 1).drop_last() =~= v@.subrange(0, i as int));
            assert(v@.subrange(0, i as int + 1).last() == v@[i as int]);
            assert((i as int) * (u32::MAX as int) + (u32::MAX as int) == (i as int + 1) * (
            u32::MAX as int)) by (nonlinear_arith);
        }
        acc = acc + (v[i] as u128);
        i += 1;
    }
    proof {
        assert(v@.subrange(0, v@.len() as int) =~= v@);
    }
    acc
}

/// Sum of squared deviations of the samples from `m`; exact, in a 128-bit
/// accumulator.
fn sum_sqdev(v: &Vec<u32>, m: u32) -> (r: u128)
    ensures
        r as int == spec_sqdev(v@, m as int),
{
    let ghost sq = (u32::MAX as int) * (u32::MAX as int);
    let mut acc: u128 = 0;
    let mut i: usize = 0;
    while i < v.len()
        invariant
            i <= v@.len(),
            acc as int == spec_sqdev(v@.subrange(0, i as int), m as int),
            acc as int <= (i as int) * ((u32::MAX as int) * (u32::MAX as int)),
        decreases v@.len() - i,
    {
        let x = v[i];
        let d: u64 = if x >= m {
            (x - m) as u64
        } else {
            (m - x) as u64
        };
        proof {
            assert(v@.subrange(0, i as int + 1).drop_last() =~= v@.subrange(0, i as int));
            assert(v@.subrange(0, i as int + 1).last() == v@[i as int]);
            let dd = (x as int) - (m as int);
            assert((d as int) * (d as int) == dd * dd) by (nonlinear_arith)
                requires
                    d as int == if dd >= 0 {
                        dd
                    } else {
                        -dd
                    },
            ;
            assert((d as int) * (d as int) <= (u32::MAX as int) * (u32::MAX as int))
                by (nonlinear_arith)
                requires
                    0 <= d as int <= u32::MAX as int,
            ;
            assert((i as int) * ((u32::MAX as int) * (u32::MAX as int)) + (u32::MAX as int) * (
            u32::MAX as int) == (i as int + 1) * ((u32::MAX as int) * (u32::MAX as int)))
                by (nonlinear_arith);
            assert((i as int + 1) * ((u32::MAX as int) * (u32::MAX as int)) <= u128::MAX as int)
                by (nonlinear_arith)
                requires
                    i as int + 1 <= 0x1_0000_0000_0000_0000,
            ;
        }
        acc = acc + (d as u128) * (d as u128);
        i += 1;
    }
    proof {
        assert(v@.subrange(0, v@.len() as int) =~= v@);
    }
    acc
}

/// Floor of the square root of a non-negative integer.
pub open spec fn spec_isqrt(v: int) -> int {
    choose|r: int| 0 <= r && #[trigger] (r * r) <= v && v < (r + 1) * (r + 1)
}

proof fn lemma_isqrt_is(v: int, r: int)
    requires
        0 <= r,
        r * r <= v,
        v < (r + 1) * (r + 1),
    ensures
        spec_isqrt(v) == r,
{
    assert(exists|q: int| 0 <= q && #[trigger] (q * q) <= v && v < (q + 1) * (q + 1)) by {
        assert(0 <= r && r * r <= v && v < (r + 1) * (r + 1));
    }
    let c = spec_isqrt(v);
    assert(0 <= c && c * c <= v && v < (c + 1) * (c + 1));
    assert(c == r) by (nonlinear_arith)
        requires
            0 <= r,
            0 <= c,
            r * r <= v,
            v < (r + 1) * (r + 1),
            c * c <= v,
            v < (c + 1) * (c + 1),
    ;
}

/// Latency statistics over a sample set, in microseconds.
#[derive(Clone, Copy, Debug, PartialEq, Eq, Structural)]
pub struct LatencyStats {
    /// Minimum latency
    pub min: u32,
    /// Maximum latency
    pub max: u32,
    /// Mean latency (floor)
    pub mean: u32,
    /// Population standard deviation (floor)
    pub std_dev: u32,
    /// Latency percentiles
    pub percentiles: Percentiles,
    /// Total number of samples
    pub count: usize,
}

impl Default for LatencyStats {
    /// All-zero statistics, used for an empty sample set.
    fn default() -> (r: Self)
        ensures
            r == spec_latency_stats_zero(),
    {
        LatencyStats {
            min: 0,
            max: 0,
            mean: 0,
            std_dev: 0,
            percentiles: Percentiles { p50: 0, p90: 0, p95: 0, p99: 0, p999: 0 },
            count: 0,
        }
    }
}

pub open spec fn spec_latency_stats_zero() -> LatencyStats {
    LatencyStats {
        min: 0,
        max: 0,
        mean: 0,
        std_dev: 0,
        percentiles: spec_percentiles_zero(),
        count: 0,
    }
}

/// The statistics owed for a sample sequence: extremes and percentiles of
/// the sorted samples, floor mean, and floor population standard deviation
/// (deviations taken from the floor mean, divided by the count).
pub open spec fn spec_latency_stats(s: Seq<u32>) -> LatencyStats {
    if s.len() == 0 {
        spec_latency_stats_zero()
    } else {
        let sorted = sorted_of(s);
        let mean = spec_sum(s) / s.len() as int;
        LatencyStats {
            min: sorted[0],
            max: sorted[s.len() - 1],
            mean: mean as u32,
            std_dev: spec_isqrt(spec_sqdev(s, mean) / s.len() as int) as u32,
            percentiles: spec_percentiles(sorted),
            count: s.len() as usize,
        }
    }
}

impl LatencyStats {
    /// Calculate statistics from latency samples (in microseconds).
    pub fn from_samples(samples: &Vec<u32>) -> (r: LatencyStats)
        ensures
            r == spec_latency_stats(samples@),
    {
        let n = samples.len();
        if n == 0 {
            return LatencyStats::default();
        }
        let sorted = sort_u32s(samples);
        proof {
            broadcast use vstd::seq_lib::group_to_multiset_ensures;

            assert(sorted@.len() == samples@.len());
        }
        let min = sorted[0];
        let max = sorted[n - 1];

        let sum = sum_samples(samples);
        proof {
            lemma_sum_bounds(samples@);
            assert(spec_sum(samples@) / (n as int) <= u32::MAX as int) by (nonlinear_arith)
                requires
                    0 <= spec_sum(samples@) <= (n as int) * (u32::MAX as int),
                    n >= 1,
            ;
        }
        let mean = (sum / (n as u128)) as u32;

        let ssd = sum_sqdev(samples, mean);
        proof {
            lemma_sqdev_bounds(samples@, mean as int);
            assert(spec_sqdev(samples@, mean as int) / (n as int) <= (u32::MAX as int) * (
            u32::MAX as int)) by (nonlinear_arith)
                requires
                    0 <= spec_sqdev(samples@, mean as int) <= (n as int) * ((u32::MAX as int) * (
                    u32::MAX as int)),
                    n >= 1,
        ;
        }
        let variance = (ssd / (n as u128)) as u64;
        let std_dev = isqrt64(variance);
        proof {
            lemma_isqrt_is(variance as int, std_dev as int);
        }

        let percentiles = Percentiles::from_sorted(&sorted);

        LatencyStats { min, max, mean, std_dev, percentiles, count: n }
    }
}

/// A request rate in thousandths of a request per second, saturating at
/// `u64::MAX` thousandths.
pub open spec fn spec_rate_milli(count: int, duration_ms: int) -> int {
    let q = count * 1_000_000 / duration_ms;
    if q > u64::MAX as int {
        u64::MAX as int
    } else {
        q
    }
}

/// A ratio in hundredths of a percent; 0 when the denominator is 0.
pub open spec fn spec_rate_bp(part: int, whole: int) -> int {
    if whole == 0 {
        0
    } else {
        part * 10000 / whole
    }
}

/// Throughput statistics.  Rates are in thousandths of a request per second,
/// the success rate in hundredths of a percent.
#[derive(Clone, Copy, Debug, PartialEq, Eq, Structural)]
pub struct ThroughputStats {
    /// Requests per second, in thousandths
    pub rps: u64,
    /// Successful requests per second, in thousandths
    pub success_rps: u64,
    /// Total requests
    pub total_requests: u64,
    /// Successful requests
    pub successful_requests: u64,
    /// Failed requests
    pub failed_requests: u64,
    /// Measured duration in milliseconds
    pub duration_ms: u64,
    /// Success rate in hundredths of a percent (0 when no requests ran)
    pub success_rate: u32,
}

pub open spec fn spec_throughput(total: int, successful: int, duration_ms: int) -> ThroughputStats {
    ThroughputStats {
        rps: spec_rate_milli(total, duration_ms) as u64,
        success_rps: spec_rate_milli(successful, duration_ms) as u64,
        total_requests: total as u64,
        successful_requests: successful as u64,
        failed_requests: (total - successful) as u64,
        duration_ms: duration_ms as u64,
        success_rate: spec_rate_bp(successful, total) as u32,
    }
}

/// A saturating division `count * 1_000_000 / duration_ms` for rates.
fn rate_milli(count: u64, duration_ms: u64) -> (r: u64)
    requires
        duration_ms > 0,
    ensures
        r as int == spec_rate_milli(count as int, duration_ms as int),
{
    let q: u128 = (count as u128) * 1_000_000 / (duration_ms as u128);
    if q > u64::MAX as u128 {
        u64::MAX
    } else {
        q as u64
    }
}

impl ThroughputStats {
    /// Create from request counts and a measured duration in milliseconds.
    /// A zero duration is the caller's responsibility to exclude; durations
    /// come from elapsed wall-clock time and are always positive in practice.
    pub fn new(total: u64, successful: u64, duration_ms: u64) -> (r: ThroughputStats)
        requires
            duration_ms > 0,
            successful <= total,
        ensures
            r == spec_throughput(total as int, successful as int, duration_ms as int),
    {
        let success_rate: u32 = if total > 0 {
            proof {
                assert((successful as int) * 10000 / (total as int) <= 10000) by (nonlinear_arith)
                    requires
                        0 <= successful as int <= total as int,
                        total as int > 0,
                ;
            }
            ((successful as u128) * 10000 / (total as u128)) as u32
        } else {
            0
        };
        ThroughputStats {
            rps: rate_milli(total, duration_ms),
            success_rps: rate_milli(successful, duration_ms),
            total_requests: total,
            successful_requests: successful,
            failed_requests: total - successful,
            duration_ms,
            success_rate,
        }
    }
}

/// Error statistics.
#[derive(Clone, Copy, Debug, PartialEq, Eq, Structural)]
pub struct ErrorStats {
    /// Connection errors
    pub connection_errors: u64,
    /// Timeout errors
    pub timeout_errors: u64,
    /// HTTP 4xx errors
    pub client_errors: u64,
    /// HTTP 5xx errors
    pub server_errors: u64,
    /// Other errors
    pub other_errors: u64,
}

impl Default for ErrorStats {
    /// All counters zero.
    fn default() -> (r: Self)
        ensures
            r == spec_error_stats_zero(),
    {
        ErrorStats {
            connection_errors: 0,
            timeout_errors: 0,
            client_errors: 0,
            server_errors: 0,
            other_errors: 0,
        }
    }
}

pub open spec fn spec_error_stats_zero() -> ErrorStats {
    ErrorStats {
        connection_errors: 0,
        timeout_errors: 0,
        client_errors: 0,
        server_errors: 0,
        other_errors: 0,
    }
}

impl ErrorStats {
    /// The sum of all five error buckets.
    pub open spec fn spec_total(&self) -> int {
        self.connection_errors + self.timeout_errors + self.client_errors + self.server_errors
            + self.other_errors
    }

    /// Total error count: always the sum of the five buckets.
    pub fn total(&self) -> (r: u64)
        requires
            self.spec_total() <= u64::MAX,
        ensures
            r as int == self.spec_total(),
    {
        self.connection_errors + self.timeout_errors + self.client_errors + self.server_errors
            + self.other_errors
    }
}

/// The classification an error record is owed: timeout outranks
/// connection-error, which outranks the HTTP status buckets (4xx, 5xx,
/// other); with no classification and no status the record lands in the
/// other bucket.  Exactly one bucket grows, by exactly one.
pub open spec fn spec_record_error(
    e: ErrorStats,
    status_code: Option<u16>,
    is_timeout: bool,
    is_connection_error: bool,
) -> ErrorStats {
    if is_timeout {
        ErrorStats { timeout_errors: (e.timeout_errors + 1) as u64, ..e }
    } else if is_connection_error {
        ErrorStats { connection_errors: (e.connection_errors + 1) as u64, ..e }
    } else if status_code is Some {
        let code = status_code->0;
        if 400 <= code < 500 {
            ErrorStats { client_errors: (e.client_errors + 1) as u64, ..e }
        } else if 500 <= code < 600 {
            ErrorStats { server_errors: (e.server_errors + 1) as u64, ..e }
        } else {
            ErrorStats { other_errors: (e.other_errors + 1) as u64, ..e }
        }
    } else {
        ErrorStats { other_errors: (e.other_errors + 1) as u64, ..e }
    }
}

impl ErrorStats {
    /// Record an error by status code or type.  A timeout is always counted
    /// as a timeout, whatever status code arrives with it.
    pub fn record(
        &mut self,
        status_code: Option<u16>,
        is_timeout: bool,
        is_connection_error: bool,
    )
        requires
            old(self).spec_total() < u64::MAX,
        ensures
            *final(self) == spec_record_error(
                *old(self),
                status_code,
                is_timeout,
                is_connection_error,
            ),
            final(self).spec_total() == old(self).spec_total() + 1,
    {
        if is_timeout {
            self.timeout_errors += 1;
        } else if is_connection_error {
            self.connection_errors += 1;
        } else {
            match status_code {
                Some(code) => {
                    if 400 <= code && code < 500 {
                        self.client_errors += 1;
                    } else if 500 <= code && code < 600 {
                        self.server_errors += 1;
                    } else {
                        self.other_errors += 1;
                    }
                },
                None => {
                    self.other_errors += 1;
                },
            }
        }
    }
}

/// Combined performance metrics.
#[derive(Clone, Copy, Debug, PartialEq, Eq, Structural)]
pub struct Metrics {
    /// Latency statistics
    pub latency: LatencyStats,
    /// Throughput statistics
    pub throughput: ThroughputStats,
    /// Error breakdown
    pub errors: ErrorStats,
}

/// The mathematical state of a collector: what it has accumulated so far.
pub struct CollectorModel {
    /// Latency samples in microseconds, in recording order
    pub latencies: Seq<u32>,
    /// Successful request count
    pub success: int,
    /// Failed request count
    pub fail: int,
    /// Error breakdown
    pub errors: ErrorStats,
}

/// One recorded request outcome.
#[derive(Clone, Copy, Debug, PartialEq, Eq, Structural)]
pub enum RecordOp {
    /// A successful request with its latency in microseconds
    Success { latency_us: u32 },
    /// A failed request with its latency and error classification
    Failure {
        latency_us: u32,
        status_code: Option<u16>,
        is_timeout: bool,
        is_connection_error: bool,
    },
}

/// What one record call does to the collector state.
pub open spec fn spec_apply_record(m: CollectorModel, op: RecordOp) -> CollectorModel {
    match op {
        RecordOp::Success { latency_us } => CollectorModel {
            latencies: m.latencies.push(latency_us),
            success: m.success + 1,
            ..m
        },
        RecordOp::Failure { latency_us, status_code, is_timeout, is_connection_error } => CollectorModel {
            latencies: m.latencies.push(latency_us),
            fail: m.fail + 1,
            errors: spec_record_error(m.errors, status_code, is_timeout, is_connection_error),
            ..m
        },
    }
}

/// A whole run of record calls, applied in order.
pub open spec fn spec_apply_records(m: CollectorModel, ops: Seq<RecordOp>) -> CollectorModel
    decreases ops.len(),
{
    if ops.len() == 0 {
        m
    } else {
        spec_apply_records(spec_apply_record(m, ops[0]), ops.drop_first())
    }
}

/// No recorded outcome is ever lost: a run of record calls grows the request
/// count by exactly the number of calls, in whatever order concurrent
/// workers' recordings were serialized.
pub proof fn lemma_records_never_lost(m: CollectorModel, ops: Seq<RecordOp>)
    ensures
        spec_apply_records(m, ops).success + spec_apply_records(m, ops).fail == m.success + m.fail
            + ops.len(),
        spec_apply_records(m, ops).latencies.len() == m.latencies.len() + ops.len(),
    decreases ops.len(),
{
    if ops.len() > 0 {
        lemma_records_never_lost(spec_apply_record(m, ops[0]), ops.drop_first());
    }
}

/// The metrics a collector state yields for a measured duration.
pub open spec fn spec_metrics(m: CollectorModel, duration_ms: int) -> Metrics {
    Metrics {
        latency: spec_latency_stats(m.latencies),
        throughput: spec_throughput(m.success + m.fail, m.success, duration_ms),
        errors: m.errors,
    }
}

/// Reading the metrics does not disturb them: any two snapshots of the same
/// accumulated state over the same measured duration are identical.
pub proof fn lemma_snapshot_idempotent(m: CollectorModel, duration_ms: int, s1: Metrics, s2: Metrics)
    requires
        s1 == spec_metrics(m, duration_ms),
        s2 == spec_metrics(m, duration_ms),
    ensures
        s1 == s2,
{
}

/// Finalizing a collector yields exactly what a last snapshot of the same
/// state over the same measured duration would have yielded.
pub proof fn lemma_finalize_matches_snapshot(
    m: CollectorModel,
    duration_ms: int,
    snap: Metrics,
    fin: Metrics,
)
    requires
        snap == spec_metrics(m, duration_ms),
        fin == spec_metrics(m, duration_ms),
    ensures
        snap == fin,
{
}

/// Real-time metrics collector.  Mutating calls must be serialized by the
/// owner (the runner holds it behind a lock); each call accounts for exactly
/// one request.
pub struct MetricsCollector {
    /// Latency samples in microseconds
    latencies: Vec<u32>,
    /// Start time
    start_time: std::time::Instant,
    /// Successful request count
    success_count: u64,
    /// Failed request count
    fail_count: u64,
    /// Error statistics
    errors: ErrorStats,
}

impl MetricsCollector {
    /// The collector's accumulated state.
    pub closed spec fn model(&self) -> CollectorModel {
        CollectorModel {
            latencies: self.latencies@,
            success: self.success_count as int,
            fail: self.fail_count as int,
            errors: self.errors,
        }
    }

    /// Every request is accounted once: the counters agree with the sample
    /// list and the error buckets agree with the failure count.
    pub open spec fn well_formed(&self) -> bool {
        &&& self.model().success + self.model().fail == self.model().latencies.len()
        &&& self.model().latencies.len() <= u64::MAX
        &&& self.model().errors.spec_total() == self.model().fail
    }

    pub open spec fn spec_request_count(&self) -> int {
        self.model().success + self.model().fail
    }

    /// Create a new collector with nothing recorded.
    pub fn new() -> (r: Self)
        ensures
            r.well_formed(),
            r.model().latencies.len() == 0,
            r.model().success == 0,
            r.model().fail == 0,
            r.model().errors == spec_error_stats_zero(),
    {
        MetricsCollector {
            latencies: Vec::new(),
            start_time: instant_now(),
            success_count: 0,
            fail_count: 0,
            errors: ErrorStats::default(),
        }
    }

    /// Record a successful request.
    pub fn record_success(&mut self, latency_us: u32)
        requires
            old(self).well_formed(),
            old(self).spec_request_count() < u64::MAX,
        ensures
            final(self).well_formed(),
            final(self).model() == spec_apply_record(
                old(self).model(),
                RecordOp::Success { latency_us },
            ),
    {
        self.latencies.push(latency_us);
        self.success_count += 1;
    }

    /// Record a failed request.
    pub fn record_failure(
        &mut self,
        latency_us: u32,
        status_code: Option<u16>,
        is_timeout: bool,
        is_connection_error: bool,
    )
        requires
            old(self).well_formed(),
            old(self).spec_request_count() < u64::MAX,
        ensures
            final(self).well_formed(),
            final(self).model() == spec_apply_record(
                old(self).model(),
                RecordOp::Failure { latency_us, status_code, is_timeout, is_connection_error },
            ),
    {
        self.latencies.push(latency_us);
        self.fail_count += 1;
        self.errors.record(status_code, is_timeout, is_connection_error);
    }

    /// Record a request result: a success, or a failure classified only by
    /// its status code.
    pub fn record(&mut self, latency_us: u32, success: bool, status_code: Option<u16>)
        requires
            old(self).well_formed(),
            old(self).spec_request_count() < u64::MAX,
        ensures
            final(self).well_formed(),
            final(self).model() == spec_apply_record(
                old(self).model(),
                if success {
                    RecordOp::Success { latency_us }
                } else {
                    RecordOp::Failure {
                        latency_us,
                        status_code,
                        is_timeout: false,
                        is_connection_error: false,
                    }
                },
            ),
    {
        if success {
            self.record_success(latency_us);
        } else {
            self.record_failure(latency_us, status_code, false, false);
        }
    }

    /// The metrics for the state so far, over an explicitly supplied
    /// measured duration.  Non-destructive and free of side effects.
    pub fn snapshot_with(&self, duration_ms: u64) -> (r: Metrics)
        requires
            self.well_formed(),
            duration_ms > 0,
        ensures
            r == spec_metrics(self.model(), duration_ms as int),
    {
        let total = self.success_count + self.fail_count;
        let latency = LatencyStats::from_samples(&self.latencies);
        let throughput = ThroughputStats::new(total, self.success_count, duration_ms);
        Metrics { latency, throughput, errors: self.errors }
    }

    /// Finalize and return metrics over an explicitly supplied duration,
    /// consuming the collector.  Yields exactly what a last `snapshot_with`
    /// would have yielded.
    pub fn finalize_with(self, duration_ms: u64) -> (r: Metrics)
        requires
            self.well_formed(),
            duration_ms > 0,
        ensures
            r == spec_metrics(self.model(), duration_ms as int),
    {
        self.snapshot_with(duration_ms)
    }

    /// Get a metrics snapshot over the wall-clock duration since the
    /// collector was created (at least one millisecond).  The duration
    /// depends on the clock; everything else is pinned by the state.
    pub fn snapshot(&self) -> (r: Metrics)
        requires
            self.well_formed(),
        ensures
            exists|d: u64| d >= 1 && r == spec_metrics(self.model(), d as int),
            r.latency == spec_latency_stats(self.model().latencies),
            r.errors == self.model().errors,
            r.throughput.total_requests == self.spec_request_count(),
            r.throughput.successful_requests == self.model().success,
            r.throughput.failed_requests == self.model().fail,
    {
        let e = elapsed_millis(&self.start_time);
        let d: u64 = if e == 0 {
            1
        } else {
            e
        };
        let r = self.snapshot_with(d);
        proof {
            assert(d >= 1 && r == spec_metrics(self.model(), d as int));
        }
        r
    }

    /// Finalize and return metrics over the wall-clock duration since the
    /// collector was created, consuming the collector.
    pub fn finalize(self) -> (r: Metrics)
        requires
            self.well_formed(),
        ensures
            exists|d: u64| d >= 1 && r == spec_metrics(self.model(), d as int),
            r.latency == spec_latency_stats(self.model().latencies),
            r.errors == self.model().errors,
            r.throughput.total_requests == self.spec_request_count(),
            r.throughput.successful_requests == self.model().success,
            r.throughput.failed_requests == self.model().fail,
    {
        let e = elapsed_millis(&self.start_time);
        let d: u64 = if e == 0 {
            1
        } else {
            e
        };
        let r = self.snapshot_with(d);
        proof {
            assert(d >= 1 && r == spec_metrics(self.model(), d as int));
        }
        r
    }

    /// Milliseconds of wall clock since the collector was created; depends
    /// only on the clock, not on what was recorded.
    pub fn elapsed(&self) -> u64 {
        elapsed_millis(&self.start_time)
    }

    /// Current request count: successes plus failures.
    pub fn request_count(&self) -> (r: u64)
        requires
            self.well_formed(),
        ensures
            r == self.spec_request_count(),
    {
        self.success_count + self.fail_count
    }

    /// Current request rate over the wall clock, in thousandths of a request
    /// per second; 0 while no time has passed.
    pub fn current_rps(&self) -> (r: u64)
        requires
            self.well_formed(),
        ensures
            r == 0 || exists|e: u64|
                e > 0 && #[trigger] spec_rate_milli(self.spec_request_count(), e as int) == r,
    {
        let e = elapsed_millis(&self.start_time);
        if e == 0 {
            0
        } else {
            let total = self.success_count + self.fail_count;
            let r = rate_milli(total, e);
            proof {
                assert(spec_rate_milli(self.spec_request_count(), e as int) == r);
            }
            r
        }
    }
}

impl Default for MetricsCollector {
    /// A fresh, empty collector.
    fn default() -> (r: Self)
        ensures
            r.well_formed(),
            r.model().latencies.len() == 0,
            r.model().success == 0,
            r.model().fail == 0,
            r.model().errors == spec_error_stats_zero(),
    {
        MetricsCollector::new()
    }
}

} // verus!
