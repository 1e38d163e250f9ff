//! Benchmark run configuration, the load-pattern evaluator and the per-
//! iteration worker decisions.
//!
//! Times are whole milliseconds.  A target rate of `u32::MAX` is the
//! "unbounded" sentinel: workers issue requests back to back.

use vstd::prelude::*;

use crate::benchmark::metrics::Metrics;
use crate::models::gateway::GatewayImpl;
use crate::util::{spec_dec, u64_to_dec_string};

verus! {

/// Load pattern for a benchmark run.
#[derive(Clone, Copy, Debug, PartialEq, Eq, Structural)]
pub enum LoadPattern {
    /// Constant load at the given rate
    Constant { rps: u32 },
    /// Linear ramp from one rate to another over a sub-duration in seconds
    Ramp { start_rps: u32, end_rps: u32, duration_secs: u64 },
    /// Staircase increase, capped
    Step { start_rps: u32, step_rps: u32, step_interval_secs: u64, max_rps: u32 },
    /// Base rate with a spike window starting at one third of the run
    Spike { base_rps: u32, spike_rps: u32, spike_duration_secs: u64 },
    /// No pacing; only the worker count limits throughput
    Max { concurrency: u32 },
}

impl Default for LoadPattern {
    /// A constant 100 requests per second.
    fn default() -> (r: Self)
        ensures
            r == (LoadPattern::Constant { rps: 100u32 }),
    {
        LoadPattern::Constant { rps: 100 }
    }
}

/// The target rate of a pattern at a given elapsed time, with times in
/// milliseconds.  Pure in its arguments:
/// - `Constant` is its rate everywhere;
/// - `Ramp` interpolates linearly (rounding toward the start value) and
///   holds the end rate from its sub-duration onward;
/// - `Step` climbs by one step per whole interval, capped at its maximum
///   (an empty interval caps immediately);
/// - `Spike` is the spike rate inside `[total/3, total/3 + spike)` and the
///   base rate outside;
/// - `Max` is the unbounded sentinel `u32::MAX`.
pub open spec fn spec_rps_at(p: LoadPattern, elapsed_ms: int, total_ms: int) -> int {
    match p {
        LoadPattern::Constant { rps } => rps as int,
        LoadPattern::Ramp { start_rps, end_rps, duration_secs } => {
            let dur_ms = duration_secs * 1000;
            if dur_ms == 0 || elapsed_ms >= dur_ms {
                end_rps as int
            } else if end_rps >= start_rps {
                start_rps + (end_rps - start_rps) * elapsed_ms / dur_ms
            } else {
                start_rps - ((start_rps - end_rps) * elapsed_ms + dur_ms - 1) / dur_ms
            }
        },
        LoadPattern::Step { start_rps, step_rps, step_interval_secs, max_rps } => {
            let interval_ms = step_interval_secs * 1000;
            if interval_ms == 0 {
                max_rps as int
            } else {
                let unc = start_rps + (elapsed_ms / interval_ms) * step_rps;
                if unc > max_rps {
                    max_rps as int
                } else {
                    unc
                }
            }
        },
        LoadPattern::Spike { base_rps, spike_rps, spike_duration_secs } => {
            let spike_start = total_ms / 3;
            if spike_start <= elapsed_ms < spike_start + spike_duration_secs * 1000 {
                spike_rps as int
            } else {
                base_rps as int
            }
        },
        LoadPattern::Max { .. } => u32::MAX as int,
    }
}

impl LoadPattern {
    /// Get the target rate at a given elapsed time within a run.
    pub fn rps_at(&self, elapsed_ms: u64, total_ms: u64) -> (r: u32)
        ensures
            r as int == spec_rps_at(*self, elapsed_ms as int, total_ms as int),
    {
        match self {
            LoadPattern::Constant { rps } => *rps,
            LoadPattern::Ramp { start_rps, end_rps, duration_secs } => {
                let dur_ms: u128 = (*duration_secs as u128) * 1000;
                if dur_ms == 0 || (elapsed_ms as u128) >= dur_ms {
                    *end_rps
                } else if *end_rps >= *start_rps {
                    let diff: u128 = (*end_rps - *start_rps) as u128;
                    proof {
                        assert(diff * (elapsed_ms as int) <= 0x1_0000_0000 * 0x1_0000_0000_0000_0000)
                            by (nonlinear_arith)
                            requires
                                0 <= diff <= 0x1_0000_0000,
                                0 <= elapsed_ms as int && (elapsed_ms as int)
                                    <= 0x1_0000_0000_0000_0000,
                        ;
                    }
                    let q: u128 = diff * (elapsed_ms as u128) / dur_ms;
                    proof {
                        assert(diff * (elapsed_ms as int) / (dur_ms as int) <= diff)
                            by (nonlinear_arith)
                            requires
                                0 <= diff,
                                0 <= elapsed_ms as int && (elapsed_ms as int) < dur_ms as int,
                        ;
                    }
                    *start_rps + (q as u32)
                } else {
                    let diff: u128 = (*start_rps - *end_rps) as u128;
                    proof {
                        assert(diff * (elapsed_ms as int) <= 0x1_0000_0000 * 0x1_0000_0000_0000_0000)
                            by (nonlinear_arith)
                            requires
                                0 <= diff <= 0x1_0000_0000,
                                0 <= elapsed_ms as int && (elapsed_ms as int)
                                    <= 0x1_0000_0000_0000_0000,
                        ;
                    }
                    let q: u128 = (diff * (elapsed_ms as u128) + dur_ms - 1) / dur_ms;
                    proof {
                        assert((diff * (elapsed_ms as int) + dur_ms - 1) / (dur_ms as int)
                            <= diff) by (nonlinear_arith)
                            requires
                                0 <= diff,
                                0 <= elapsed_ms as int && (elapsed_ms as int) < dur_ms as int,
                                dur_ms as int >= 1,
                        ;
                    }
                    *start_rps - (q as u32)
                }
            },
            LoadPattern::Step { start_rps, step_rps, step_interval_secs, max_rps } => {
                let interval_ms: u128 = (*step_interval_secs as u128) * 1000;
                if interval_ms == 0 {
                    *max_rps
                } else {
                    let steps: u128 = (elapsed_ms as u128) / interval_ms;
                    proof {
                        assert(steps * (step_rps as int) <= (elapsed_ms as int) * (
                        step_rps as int)) by (nonlinear_arith)
                            requires
                                0 <= steps <= elapsed_ms as int,
                                0 <= step_rps as int,
                        ;
                        assert((elapsed_ms as int) * (step_rps as int) < 0x1_0000_0000_0000_0000
                            * 0x1_0000_0000) by (nonlinear_arith)
                            requires
                                0 <= elapsed_ms as int && (elapsed_ms as int) < 0x1_0000_0000_0000_0000,
                                0 <= step_rps as int && (step_rps as int) < 0x1_0000_0000,
                        ;
                    }
                    let unc: u128 = (*start_rps as u128) + steps * (*step_rps as u128);
                    if unc > (*max_rps as u128) {
                        *max_rps
                    } else {
                        unc as u32
                    }
                }
            },
            LoadPattern::Spike { base_rps, spike_rps, spike_duration_secs } => {
                let spike_start: u64 = total_ms / 3;
                let spike_len: u128 = (*spike_duration_secs as u128) * 1000;
                if (elapsed_ms >= spike_start) && ((elapsed_ms - spike_start) as u128)
                    < spike_len {
                    *spike_rps
                } else {
                    *base_rps
                }
            },
            LoadPattern::Max { .. } => u32::MAX,
        }
    }
}

/// A constant pattern yields its configured rate at every instant of every
/// run, whatever the elapsed time and total duration.
pub proof fn lemma_constant_rate_everywhere(rps: u32, elapsed_ms: int, total_ms: int)
    ensures
        spec_rps_at(LoadPattern::Constant { rps }, elapsed_ms, total_ms) == rps,
{
}

/// Once a ramp's sub-duration has elapsed, the rate holds exactly at the
/// end rate and never exceeds it.
pub proof fn lemma_ramp_holds_end_rate(
    start_rps: u32,
    end_rps: u32,
    duration_secs: u64,
    elapsed_ms: int,
    total_ms: int,
)
    requires
        elapsed_ms >= duration_secs * 1000,
    ensures
        spec_rps_at(
            LoadPattern::Ramp { start_rps, end_rps, duration_secs },
            elapsed_ms,
            total_ms,
        ) == end_rps,
{
}

/// A step pattern is monotonic: the target rate never decreases as time
/// passes within a run.
pub proof fn lemma_step_monotonic(
    start_rps: u32,
    step_rps: u32,
    step_interval_secs: u64,
    max_rps: u32,
    t1: int,
    t2: int,
    total_ms: int,
)
    requires
        0 <= t1 <= t2,
    ensures
        spec_rps_at(
            LoadPattern::Step { start_rps, step_rps, step_interval_secs, max_rps },
            t1,
            total_ms,
        ) <= spec_rps_at(
            LoadPattern::Step { start_rps, step_rps, step_interval_secs, max_rps },
            t2,
            total_ms,
        ),
{
    let interval_ms = step_interval_secs * 1000;
    if interval_ms != 0 {
        assert(t1 / interval_ms <= t2 / interval_ms) by (nonlinear_arith)
            requires
                0 <= t1 <= t2,
                interval_ms >= 1,
        ;
        assert((t1 / interval_ms) * (step_rps as int) <= (t2 / interval_ms) * (step_rps as int))
            by (nonlinear_arith)
            requires
                t1 / interval_ms <= t2 / interval_ms,
                0 <= step_rps as int,
        ;
    }
}

/// The pacing delay a bounded rate asks for: a thousand milliseconds spread
/// over the target rate; no delay when the rate is zero or unbounded.
pub open spec fn spec_delay_ms(rps: int) -> int {
    if 0 < rps < u32::MAX as int {
        1000int / rps
    } else {
        0
    }
}

/// The per-iteration pacing delay for a target rate.
pub fn pacing_delay_ms(target_rps: u32) -> (r: u64)
    ensures
        r as int == spec_delay_ms(target_rps as int),
{
    if target_rps > 0 && target_rps < u32::MAX {
        (1000 / target_rps) as u64
    } else {
        0
    }
}

/// What a worker does next in its loop.
#[derive(Clone, Copy, Debug, PartialEq, Eq, Structural)]
pub enum WorkerAction {
    /// Leave the loop: the run was stopped or the deadline has passed
    Stop,
    /// Issue one request, then pause for the given pacing delay
    Request { delay_ms: u64 },
}

/// The decision a worker is owed at the top of each iteration: stop exactly
/// when the run flag is cleared or the deadline reached, otherwise issue
/// one request paced by the pattern's rate at this instant.
pub open spec fn spec_worker_step(
    p: LoadPattern,
    running: bool,
    elapsed_ms: int,
    total_ms: int,
) -> WorkerAction {
    if !running || elapsed_ms >= total_ms {
        WorkerAction::Stop
    } else {
        WorkerAction::Request { delay_ms: spec_delay_ms(spec_rps_at(p, elapsed_ms, total_ms)) as u64 }
    }
}

/// One worker-loop decision: check the run flag and the deadline, then pace
/// by the pattern.  The deadline is re-checked before every request, so a
/// run never overruns its duration by more than one in-flight request.
pub fn worker_step(p: &LoadPattern, running: bool, elapsed_ms: u64, total_ms: u64) -> (r:
    WorkerAction)
    ensures
        r == spec_worker_step(*p, running, elapsed_ms as int, total_ms as int),
{
    if !running || elapsed_ms >= total_ms {
        WorkerAction::Stop
    } else {
        let rate = p.rps_at(elapsed_ms, total_ms);
        WorkerAction::Request { delay_ms: pacing_delay_ms(rate) }
    }
}

/// Whether a response status counts as a success for the load generator:
/// anything below client-error class.
pub fn status_is_success(status_code: u16) -> (r: bool)
    ensures
        r == (200 <= status_code < 400),
{
    200 <= status_code && status_code < 400
}

/// Benchmark configuration.
#[derive(Clone, Debug)]
pub struct BenchmarkConfig {
    /// Target gateway
    pub gateway: GatewayImpl,
    /// Gateway IP address
    pub gateway_ip: String,
    /// Gateway port
    pub port: u16,
    /// Target URL path
    pub path: String,
    /// Host header
    pub hostname: String,
    /// Load pattern
    pub pattern: LoadPattern,
    /// Test duration in seconds
    pub duration_secs: u64,
    /// Number of concurrent connections
    pub concurrency: u32,
    /// Request timeout in milliseconds
    pub timeout_ms: u64,
    /// Warmup duration in seconds
    pub warmup_secs: u64,
    /// Enable keep-alive
    pub keep_alive: bool,
}

impl BenchmarkConfig {
    /// The defaults every new configuration starts from.
    pub open spec fn spec_default_fields(self) -> bool {
        &&& self.port == 80
        &&& self.path@ == "/"@
        &&& self.hostname@ == "example.com"@
        &&& self.pattern == (LoadPattern::Constant { rps: 100u32 })
        &&& self.duration_secs == 60
        &&& self.concurrency == 10
        &&& self.timeout_ms == 5000
        &&& self.warmup_secs == 5
        &&& self.keep_alive == true
    }

    /// Create with gateway and IP; everything else at its default.
    pub fn new(gateway: GatewayImpl, gateway_ip: &str) -> (r: Self)
        ensures
            r.gateway == gateway,
            r.gateway_ip@ == gateway_ip@,
            r.spec_default_fields(),
    {
        BenchmarkConfig {
            gateway,
            gateway_ip: String::from_str(gateway_ip),
            port: 80,
            path: String::from_str("/"),
            hostname: String::from_str("example.com"),
            pattern: LoadPattern::Constant { rps: 100 },
            duration_secs: 60,
            concurrency: 10,
            timeout_ms: 5000,
            warmup_secs: 5,
            keep_alive: true,
        }
    }

    /// Set load pattern.
    pub fn with_pattern(self, pattern: LoadPattern) -> (r: Self)
        ensures
            r == (BenchmarkConfig { pattern, ..self }),
    {
        BenchmarkConfig { pattern, ..self }
    }

    /// Set duration.
    pub fn with_duration(self, secs: u64) -> (r: Self)
        ensures
            r == (BenchmarkConfig { duration_secs: secs, ..self }),
    {
        BenchmarkConfig { duration_secs: secs, ..self }
    }

    /// Set concurrency.
    pub fn with_concurrency(self, concurrency: u32) -> (r: Self)
        ensures
            r == (BenchmarkConfig { concurrency, ..self }),
    {
        BenchmarkConfig { concurrency, ..self }
    }

    /// Set target path.
    pub fn with_path(self, path: &str) -> (r: Self)
        ensures
            r == (BenchmarkConfig { path: r.path, ..self }),
            r.path@ == path@,
    {
        BenchmarkConfig { path: String::from_str(path), ..self }
    }

    /// Set hostname.
    pub fn with_hostname(self, hostname: &str) -> (r: Self)
        ensures
            r == (BenchmarkConfig { hostname: r.hostname, ..self }),
            r.hostname@ == hostname@,
    {
        BenchmarkConfig { hostname: String::from_str(hostname), ..self }
    }

    /// The full target URL: scheme, address, port and path.
    pub open spec fn spec_url(self) -> Seq<char> {
        "http://"@ + self.gateway_ip@ + ":"@ + spec_dec(self.port as int) + self.path@
    }

    /// Get full URL.
    pub fn url(&self) -> (r: String)
        ensures
            r@ == self.spec_url(),
    {
        let mut s = String::from_str("http://");
        s.append(self.gateway_ip.as_str());
        s.append(":");
        let port = u64_to_dec_string(self.port as u64);
        s.append(port.as_str());
        s.append(self.path.as_str());
        s
    }
}

impl Default for BenchmarkConfig {
    /// The default configuration: NGINX at localhost.
    fn default() -> (r: Self)
        ensures
            r.gateway == GatewayImpl::Nginx,
            r.gateway_ip@ == "127.0.0.1"@,
            r.spec_default_fields(),
    {
        BenchmarkConfig::new(GatewayImpl::Nginx, "127.0.0.1")
    }
}

/// Benchmark result.
#[derive(Clone, Debug)]
pub struct BenchmarkResult {
    /// Configuration used
    pub config: BenchmarkConfig,
    /// Performance metrics
    pub metrics: Metrics,
    /// Benchmark start time (Unix timestamp, seconds)
    pub start_time: u64,
    /// Benchmark end time (Unix timestamp, seconds)
    pub end_time: u64,
    /// Whether warmup was performed
    pub warmup_performed: bool,
}

/// The hard ceiling on worker count in the paced path, applied over the
/// configured concurrency.
pub fn effective_concurrency(configured: u32) -> (r: u32)
    ensures
        r as int == if configured <= 100 {
            configured as int
        } else {
            100int
        },
{
    if configured < 100 {
        configured
    } else {
        100
    }
}

/// Compare multiple gateway benchmark results.
#[derive(Clone, Debug)]
pub struct BenchmarkComparison {
    pub results: Vec<BenchmarkResult>,
}

impl BenchmarkComparison {
    /// Create a new comparison over the given results.
    pub fn new(results: Vec<BenchmarkResult>) -> (r: Self)
        ensures
            r.results@ == results@,
    {
        BenchmarkComparison { results }
    }

    /// The results ordered by throughput, fastest first: sorted descending
    /// by requests per second, keeping exactly the given results.
    pub fn by_rps(&self) -> (r: Vec<BenchmarkResult>)
        ensures
            r@.len() == self.results@.len(),
            r@.to_multiset() == self.results@.to_multiset(),
            forall|p: int, q: int|
                0 <= p < q < r@.len() ==> (#[trigger] r@[p]).metrics.throughput.rps >= (
                #[trigger] r@[q]).metrics.throughput.rps,
    {
        broadcast use vstd::seq_lib::group_to_multiset_ensures;
        broadcast use vstd::multiset::group_multiset_axioms;

        let mut rest = clone_results(&self.results);
        let ghost orig = rest@;
        proof {
            assert(rest@ =~= self.results@);
        }
        let mut out: Vec<BenchmarkResult> = Vec::new();
        proof {
            assert(out@.to_multiset().add(rest@.to_multiset()) =~= orig.to_multiset());
        }
        while rest.len() > 0
            invariant
                orig == self.results@,
                forall|p: int, q: int|
                    0 <= p < q < out@.len() ==> (#[trigger] out@[p]).metrics.throughput.rps >= (
                    #[trigger] out@[q]).metrics.throughput.rps,
                out@.to_multiset().add(rest@.to_multiset()) == orig.to_multiset(),
                out@.len() + rest@.len() == orig.len(),
            decreases rest@.len(),
        {
            let ghost old_rest = rest@;
            let x = rest.remove(0);
            proof {
                broadcast use vstd::seq_lib::group_to_multiset_ensures;
                broadcast use vstd::multiset::group_multiset_axioms;

                assert(x == old_rest[0]);
                assert(old_rest.contains(x)) by {
                    assert(old_rest[0] == x);
                }
                assert(old_rest.to_multiset().count(x) > 0);
                assert(old_rest.remove(0).to_multiset() =~= old_rest.to_multiset().remove(
                    old_rest[0],
                ));
                assert(rest@.to_multiset() =~= old_rest.to_multiset().remove(x));
            }
            let key = x.metrics.throughput.rps;
            let mut j: usize = 0;
            while j < out.len() && out[j].metrics.throughput.rps >= key
                invariant
                    j <= out@.len(),
                    key == x.metrics.throughput.rps,
                    forall|k: int|
                        0 <= k < j ==> (#[trigger] out@[k]).metrics.throughput.rps >= key,
                decreases out@.len() - j,
            {
                j += 1;
            }
            let ghost old_out = out@;
            out.insert(j, x);
            proof {
                broadcast use vstd::seq_lib::group_to_multiset_ensures;
                broadcast use vstd::multiset::group_multiset_axioms;

                old_out.insert_ensures(j as int, x);
                assert forall|p: int, q: int|
                    0 <= p < q < out@.len() implies (#[trigger] out@[p]).metrics.throughput.rps
                    >= (#[trigger] out@[q]).metrics.throughput.rps by {
                    if q < j {
                        assert(out@[p] == old_out[p]);
                        assert(out@[q] == old_out[q]);
                    } else if q == j {
                        assert(out@[p] == old_out[p]);
                    } else {
                        assert(out@[q] == old_out[q - 1]);
                        if p < j {
                            assert(out@[p] == old_out[p]);
                            if p < q - 1 {
                                assert(old_out[p].metrics.throughput.rps
                                    >= old_out[q - 1].metrics.throughput.rps);
                            }
                        } else if p == j {
                            assert(!(old_out[j as int].metrics.throughput.rps >= key));
                            if j < q - 1 {
                                assert(old_out[j as int].metrics.throughput.rps
                                    >= old_out[q - 1].metrics.throughput.rps);
                            }
                        } else {
                            assert(out@[p] == old_out[p - 1]);
                            if p - 1 < q - 1 {
                                assert(old_out[p - 1].metrics.throughput.rps
                                    >= old_out[q - 1].metrics.throughput.rps);
                            }
                        }
                    }
                }
                let pre = old_out.subrange(0, j as int);
                let post = old_out.subrange(j as int, old_out.len() as int);
                assert(out@ =~= pre.push(x) + post);
                vstd::seq_lib::lemma_multiset_commutative(pre.push(x), post);
                vstd::seq_lib::lemma_multiset_commutative(pre, post);
                assert(old_out =~= pre + post);
                assert(pre.push(x).to_multiset() =~= pre.to_multiset().insert(x));
                assert(out@.to_multiset() =~= old_out.to_multiset().insert(x));
                assert(out@.to_multiset().add(rest@.to_multiset()) =~= orig.to_multiset());
            }
        }
        proof {
            broadcast use vstd::seq_lib::group_to_multiset_ensures;
            broadcast use vstd::multiset::group_multiset_axioms;

            assert(rest@.to_multiset().len() == 0);
            assert(out@.to_multiset().add(rest@.to_multiset()) =~= out@.to_multiset());
            assert(out@.to_multiset() =~= orig.to_multiset());
            assert(out@.to_multiset().len() == out@.len());
            assert(orig.to_multiset().len() == orig.len());
        }
        out
    }

    /// The results ordered by tail latency, best first: sorted ascending by
    /// the 99th-percentile latency, keeping exactly the given results.
    pub fn by_latency(&self) -> (r: Vec<BenchmarkResult>)
        ensures
            r@.len() == self.results@.len(),
            r@.to_multiset() == self.results@.to_multiset(),
            forall|p: int, q: int|
                0 <= p < q < r@.len() ==> (#[trigger] r@[p]).metrics.latency.percentiles.p99 <= (
                #[trigger] r@[q]).metrics.latency.percentiles.p99,
    {
        broadcast use vstd::seq_lib::group_to_multiset_ensures;
        broadcast use vstd::multiset::group_multiset_axioms;

        let mut rest = clone_results(&self.results);
        let ghost orig = rest@;
        proof {
            assert(rest@ =~= self.results@);
        }
        let mut out: Vec<BenchmarkResult> = Vec::new();
        proof {
            assert(out@.to_multiset().add(rest@.to_multiset()) =~= orig.to_multiset());
        }
        while rest.len() > 0
            invariant
                orig == self.results@,
                forall|p: int, q: int|
                    0 <= p < q < out@.len() ==> (
                    #[trigger] out@[p]).metrics.latency.percentiles.p99 <= (
                    #[trigger] out@[q]).metrics.latency.percentiles.p99,
                out@.to_multiset().add(rest@.to_multiset()) == orig.to_multiset(),
                out@.len() + rest@.len() == orig.len(),
            decreases rest@.len(),
        {
            let ghost old_rest = rest@;
            let x = rest.remove(0);
            proof {
                broadcast use vstd::seq_lib::group_to_multiset_ensures;
                broadcast use vstd::multiset::group_multiset_axioms;

                assert(x == old_rest[0]);
                assert(old_rest.contains(x)) by {
                    assert(old_rest[0] == x);
                }
                assert(old_rest.to_multiset().count(x) > 0);
                assert(old_rest.remove(0).to_multiset() =~= old_rest.to_multiset().remove(
                    old_rest[0],
                ));
                assert(rest@.to_multiset() =~= old_rest.to_multiset().remove(x));
            }
            let key = x.metrics.latency.percentiles.p99;
            let mut j: usize = 0;
            while j < out.len() && out[j].metrics.latency.percentiles.p99 <= key
                invariant
                    j <= out@.len(),
                    key == x.metrics.latency.percentiles.p99,
                    forall|k: int|
                        0 <= k < j ==> (#[trigger] out@[k]).metrics.latency.percentiles.p99
                            <= key,
                decreases out@.len() - j,
            {
                j += 1;
            }
            let ghost old_out = out@;
            out.insert(j, x);
            proof {
                broadcast use vstd::seq_lib::group_to_multiset_ensures;
                broadcast use vstd::multiset::group_multiset_axioms;

                old_out.insert_ensures(j as int, x);
                assert forall|p: int, q: int|
                    0 <= p < q < out@.len() implies (
                #[trigger] out@[p]).metrics.latency.percentiles.p99 <= (
                #[trigger] out@[q]).metrics.latency.percentiles.p99 by {
                    if q < j {
                        assert(out@[p] == old_out[p]);
                        assert(out@[q] == old_out[q]);
                    } else if q == j {
                        assert(out@[p] == old_out[p]);
                    } else {
                        assert(out@[q] == old_out[q - 1]);
                        if p < j {
                            assert(out@[p] == old_out[p]);
                            if p < q - 1 {
                                assert(old_out[p].metrics.latency.percentiles.p99
                                    <= old_out[q - 1].metrics.latency.percentiles.p99);
                            }
                        } else if p == j {
                            assert(!(old_out[j as int].metrics.latency.percentiles.p99 <= key));
                            if j < q - 1 {
                                assert(old_out[j as int].metrics.latency.percentiles.p99
                                    <= old_out[q - 1].metrics.latency.percentiles.p99);
                            }
                        } else {
                            assert(out@[p] == old_out[p - 1]);
                            if p - 1 < q - 1 {
                                assert(old_out[p - 1].metrics.latency.percentiles.p99
                                    <= old_out[q - 1].metrics.latency.percentiles.p99);
                            }
                        }
                    }
                }
                let pre = old_out.subrange(0, j as int);
                let post = old_out.subrange(j as int, old_out.len() as int);
                assert(out@ =~= pre.push(x) + post);
                vstd::seq_lib::lemma_multiset_commutative(pre.push(x), post);
                vstd::seq_lib::lemma_multiset_commutative(pre, post);
                assert(old_out =~= pre + post);
                assert(pre.push(x).to_multiset() =~= pre.to_multiset().insert(x));
                assert(out@.to_multiset() =~= old_out.to_multiset().insert(x));
                assert(out@.to_multiset().add(rest@.to_multiset()) =~= orig.to_multiset());
            }
        }
        proof {
            broadcast use vstd::seq_lib::group_to_multiset_ensures;
            broadcast use vstd::multiset::group_multiset_axioms;

            assert(rest@.to_multiset().len() == 0);
            assert(out@.to_multiset().add(rest@.to_multiset()) =~= out@.to_multiset());
            assert(out@.to_multiset() =~= orig.to_multiset());
            assert(out@.to_multiset().len() == out@.len());
            assert(orig.to_multiset().len() == orig.len());
        }
        out
    }
}

/// Duplicate a result list element by element.
fn clone_results(v: &Vec<BenchmarkResult>) -> (r: Vec<BenchmarkResult>)
    ensures
        r@ == v@,
{
    let mut out: Vec<BenchmarkResult> = Vec::new();
    let mut i: usize = 0;
    while i < v.len()
        invariant
            i <= v@.len(),
            out@ == v@.subrange(0, i as int),
        decreases v@.len() - i,
    {
        let e = &v[i];
        let copy = BenchmarkResult {
            config: BenchmarkConfig {
                gateway: e.config.gateway,
                gateway_ip: e.config.gateway_ip.clone(),
                port: e.config.port,
                path: e.config.path.clone(),
                hostname: e.config.hostname.clone(),
                pattern: e.config.pattern,
                duration_secs: e.config.duration_secs,
                concurrency: e.config.concurrency,
                timeout_ms: e.config.timeout_ms,
                warmup_secs: e.config.warmup_secs,
                keep_alive: e.config.keep_alive,
            },
            metrics: e.metrics,
            start_time: e.start_time,
            end_time: e.end_time,
            warmup_performed: e.warmup_performed,
        };
        proof {
            assert(copy.config.gateway_ip@ == e.config.gateway_ip@);
        }
        out.push(copy);
        proof {
            assert(out@ =~= v@.subrange(0, i as int + 1));
        }
        i += 1;
    }
    proof {
        assert(v@.subrange(0, v@.len() as int) =~= v@);
    }
    out
}

/// The run-state core of the benchmark runner: the configuration and the
/// cooperative stop flag every worker checks each iteration.  The
/// orchestration around it owns the HTTP client and the clock.
pub struct BenchmarkRunner {
    config: BenchmarkConfig,
    running: bool,
}

impl BenchmarkRunner {
    pub closed spec fn spec_config(&self) -> BenchmarkConfig {
        self.config
    }

    pub closed spec fn spec_running(&self) -> bool {
        self.running
    }

    /// Create a new benchmark runner, not yet running.
    pub fn new(config: BenchmarkConfig) -> (r: Self)
        ensures
            r.spec_config() == config,
            !r.spec_running(),
    {
        BenchmarkRunner { config, running: false }
    }

    /// The configuration the runner was built with.
    pub fn config(&self) -> (r: &BenchmarkConfig)
        ensures
            *r == self.spec_config(),
    {
        &self.config
    }

    /// Enter the running state (the timed main phase).
    pub fn start(&mut self)
        ensures
            final(self).spec_running(),
            final(self).spec_config() == old(self).spec_config(),
    {
        self.running = true;
    }

    /// Clear the run flag; every worker leaves its loop within one
    /// iteration.
    pub fn stop(&mut self)
        ensures
            !final(self).spec_running(),
            final(self).spec_config() == old(self).spec_config(),
    {
        self.running = false;
    }

    /// Check if running.
    pub fn is_running(&self) -> (r: bool)
        ensures
            r == self.spec_running(),
    {
        self.running
    }
}

} // verus!
