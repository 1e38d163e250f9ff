//! Parallel test execution: the executor's bounded-concurrency settings,
//! the deterministic re-ordering of racily completed results, and the
//! cross-round aggregate reduction with its flakiness ranking.

use vstd::prelude::*;

use crate::models::test_result::{TestCase, TestResult, TestRoundSummary, TestStatus};

verus! {

/// Parallel test executor settings: the semaphore width and per-test
/// timeout the worker pool is built with.
#[derive(Clone, Copy, Debug)]
pub struct ParallelExecutor {
    pub max_concurrent: usize,
    pub timeout_secs: u64,
}

impl ParallelExecutor {
    /// A pool of the given width with a 30 second per-test timeout.
    pub fn new(max_concurrent: usize) -> (r: Self)
        ensures
            r.max_concurrent == max_concurrent,
            r.timeout_secs == 30,
    {
        ParallelExecutor { max_concurrent, timeout_secs: 30 }
    }

    /// Set the per-test timeout.
    pub fn with_timeout(self, secs: u64) -> (r: Self)
        ensures
            r.max_concurrent == self.max_concurrent,
            r.timeout_secs == secs,
    {
        ParallelExecutor { timeout_secs: secs, ..self }
    }
}

impl Default for ParallelExecutor {
    /// Four concurrent tests.
    fn default() -> (r: Self)
        ensures
            r.max_concurrent == 4,
            r.timeout_secs == 30,
    {
        ParallelExecutor::new(4)
    }
}

/// Results ordered by the canonical test ordinal.
pub open spec fn spec_sorted_by_number(s: Seq<TestResult>) -> bool {
    forall|i: int, j: int|
        0 <= i < j < s.len() ==> #[trigger] s[i].test_case.spec_number()
            <= #[trigger] s[j].test_case.spec_number()
}

/// Re-sort completed results by their test case's canonical ordinal, so
/// that presentation order is deterministic regardless of the racy order in
/// which concurrent workers finished.  Keeps exactly the given results.
pub fn sort_results_by_number(results: Vec<TestResult>) -> (r: Vec<TestResult>)
    ensures
        spec_sorted_by_number(r@),
        r@.to_multiset() == results@.to_multiset(),
        r@.len() == results@.len(),
{
    broadcast use vstd::seq_lib::group_to_multiset_ensures;
    broadcast use vstd::multiset::group_multiset_axioms;

    let ghost orig = results@;
    let mut rest = results;
    let mut out: Vec<TestResult> = Vec::new();
    proof {
        assert(out@.to_multiset().add(rest@.to_multiset()) =~= orig.to_multiset());
    }
    while rest.len() > 0
        invariant
            spec_sorted_by_number(out@),
            out@.to_multiset().add(rest@.to_multiset()) == orig.to_multiset(),
            out@.len() + rest@.len() == orig.len(),
        decreases rest@.len(),
    {
        let ghost old_rest = rest@;
        let x = rest.remove(0);
        proof {
            broadcast use vstd::seq_lib::group_to_multiset_ensures;
            broadcast use vstd::multiset::group_multiset_axioms;

            assert(x == old_rest[0]);
            assert(old_rest.contains(x)) by {
                assert(old_rest[0] == x);
            }
            assert(old_rest.to_multiset().count(x) > 0);
            assert(old_rest.remove(0).to_multiset() =~= old_rest.to_multiset().remove(
                old_rest[0],
            ));
            assert(rest@.to_multiset() =~= old_rest.to_multiset().remove(x));
        }
        let xn = x.test_case.number();
        let mut j: usize = 0;
        while j < out.len() && out[j].test_case.number() <= xn
            invariant
                j <= out@.len(),
                xn as int == x.test_case.spec_number(),
                forall|k: int|
                    0 <= k < j ==> #[trigger] out@[k].test_case.spec_number()
                        <= x.test_case.spec_number(),
            decreases out@.len() - j,
        {
            j += 1;
        }
        let ghost old_out = out@;
        out.insert(j, x);
        proof {
            old_out.insert_ensures(j as int, x);
            assert forall|p: int, q: int|
                0 <= p < q < out@.len() implies #[trigger] out@[p].test_case.spec_number()
                <= #[trigger] out@[q].test_case.spec_number() by {
                if q < j {
                    assert(out@[p] == old_out[p]);
                    assert(out@[q] == old_out[q]);
                } else if q == j {
                    assert(out@[p] == old_out[p]);
                } else {
                    assert(out@[q] == old_out[q - 1]);
                    if p < j {
                        assert(out@[p] == old_out[p]);
                        if p < q - 1 {
                            assert(old_out[p].test_case.spec_number()
                                <= old_out[q - 1].test_case.spec_number());
                        }
                    } else if p == j {
                        assert(!(old_out[j as int].test_case.spec_number()
                            <= x.test_case.spec_number()));
                        if j < q - 1 {
                            assert(old_out[j as int].test_case.spec_number()
                                <= old_out[q - 1].test_case.spec_number());
                        }
                    } else {
                        assert(out@[p] == old_out[p - 1]);
                        if p - 1 < q - 1 {
                            assert(old_out[p - 1].test_case.spec_number()
                                <= old_out[q - 1].test_case.spec_number());
                        }
                    }
                }
            }
            let pre = old_out.subrange(0, j as int);
            let post = old_out.subrange(j as int, old_out.len() as int);
            assert(out@ =~= pre.push(x) + post);
            vstd::seq_lib::lemma_multiset_commutative(pre.push(x), post);
            vstd::seq_lib::lemma_multiset_commutative(pre, post);
            assert(old_out =~= pre + post);
            assert(pre.push(x).to_multiset() =~= pre.to_multiset().insert(x));
            assert(out@.to_multiset() =~= old_out.to_multiset().insert(x));
            assert(out@.to_multiset().add(rest@.to_multiset()) =~= orig.to_multiset());
        }
    }
    proof {
        broadcast use vstd::seq_lib::group_to_multiset_ensures;
        broadcast use vstd::multiset::group_multiset_axioms;

        assert(rest@.len() == 0);
        assert(rest@.to_multiset().len() == 0);
        assert(out@.to_multiset().add(rest@.to_multiset()) =~= out@.to_multiset());
        assert(out@.to_multiset() =~= orig.to_multiset());
        assert(out@.to_multiset().len() == out@.len());
        assert(orig.to_multiset().len() == orig.len());
    }
    out
}

/// Statistics for a single test case across rounds.
#[derive(Clone, Copy, Debug, PartialEq, Eq, Structural)]
pub struct TestStats {
    pub passes: u32,
    pub failures: u32,
    pub skips: u32,
    pub errors: u32,
    pub total_duration_ms: u64,
}

impl Default for TestStats {
    /// All counters zero.
    fn default() -> (r: Self)
        ensures
            r == (TestStats { passes: 0u32, failures: 0u32, skips: 0u32, errors: 0u32, total_duration_ms: 0u64 }),
    {
        TestStats { passes: 0, failures: 0, skips: 0, errors: 0, total_duration_ms: 0 }
    }
}

impl TestStats {
    /// The rounds that actually ran this test: skips are excluded.
    pub open spec fn spec_counted_runs(&self) -> int {
        self.passes + self.failures + self.errors
    }

    /// Average duration over the counted runs, 0 if there were none.
    pub fn avg_duration_ms(&self) -> (r: u64)
        ensures
            r as int == if self.spec_counted_runs() > 0 {
                self.total_duration_ms as int / self.spec_counted_runs()
            } else {
                0int
            },
    {
        let total: u64 = (self.passes as u64) + (self.failures as u64) + (self.errors as u64);
        if total > 0 {
            self.total_duration_ms / total
        } else {
            0
        }
    }
}

/// The results of all rounds, flattened in round order.
pub open spec fn spec_all_results(summaries: Seq<TestRoundSummary>) -> Seq<TestResult>
    decreases summaries.len(),
{
    if summaries.len() == 0 {
        Seq::empty()
    } else {
        spec_all_results(summaries.drop_last()) + summaries.last().results@
    }
}

/// How many results for `tc` carry status `st`.
pub open spec fn spec_case_count(rs: Seq<TestResult>, tc: TestCase, st: TestStatus) -> int
    decreases rs.len(),
{
    if rs.len() == 0 {
        0
    } else {
        spec_case_count(rs.drop_last(), tc, st) + if rs.last().test_case == tc && rs.last().status
            == st {
            1int
        } else {
            0int
        }
    }
}

/// The duration sum for `tc` over all its results, saturating at `u64::MAX`.
pub open spec fn spec_case_duration(rs: Seq<TestResult>, tc: TestCase) -> int
    decreases rs.len(),
{
    if rs.len() == 0 {
        0
    } else {
        let rest = spec_case_duration(rs.drop_last(), tc);
        if rs.last().test_case == tc {
            if rest + rs.last().duration_ms > u64::MAX {
                u64::MAX as int
            } else {
                rest + rs.last().duration_ms
            }
        } else {
            rest
        }
    }
}

/// Whether `tc` occurs among the results at all.
pub open spec fn spec_case_occurs(rs: Seq<TestResult>, tc: TestCase) -> bool {
    exists|i: int| 0 <= i < rs.len() && #[trigger] rs[i].test_case == tc
}

/// The statistics owed for `tc` over a flattened result sequence.
pub open spec fn spec_stats_for(rs: Seq<TestResult>, tc: TestCase) -> TestStats {
    TestStats {
        passes: spec_case_count(rs, tc, TestStatus::Pass) as u32,
        failures: spec_case_count(rs, tc, TestStatus::Fail) as u32,
        skips: spec_case_count(rs, tc, TestStatus::Skip) as u32,
        errors: spec_case_count(rs, tc, TestStatus::Error) as u32,
        total_duration_ms: spec_case_duration(rs, tc) as u64,
    }
}

/// The pass rate owed for one test case, in hundredths of a percent:
/// passes over the counted (non-skip) runs, 0 when none ran.
pub open spec fn spec_case_rate_bp(rs: Seq<TestResult>, tc: TestCase) -> int {
    let st = spec_stats_for(rs, tc);
    let counted = spec_case_count(rs, tc, TestStatus::Pass) + spec_case_count(
        rs,
        tc,
        TestStatus::Fail,
    ) + spec_case_count(rs, tc, TestStatus::Error);
    if counted > 0 {
        spec_case_count(rs, tc, TestStatus::Pass) * 10000 / counted
    } else {
        0
    }
}

proof fn lemma_case_count_le_len(rs: Seq<TestResult>, tc: TestCase, st: TestStatus)
    ensures
        0 <= spec_case_count(rs, tc, st) <= rs.len(),
    decreases rs.len(),
{
    if rs.len() > 0 {
        lemma_case_count_le_len(rs.drop_last(), tc, st)
    }
}

proof fn lemma_case_duration_bounds(rs: Seq<TestResult>, tc: TestCase)
    ensures
        0 <= spec_case_duration(rs, tc) <= u64::MAX,
    decreases rs.len(),
{
    if rs.len() > 0 {
        lemma_case_duration_bounds(rs.drop_last(), tc)
    }
}

/// The count of counted (non-skip) runs never exceeds three status counts'
/// sum of bounds; and every count is distinct per status, so their sum over
/// the three statuses is at most the sequence length.
proof fn lemma_counted_le_len(rs: Seq<TestResult>, tc: TestCase)
    ensures
        spec_case_count(rs, tc, TestStatus::Pass) + spec_case_count(rs, tc, TestStatus::Fail)
            + spec_case_count(rs, tc, TestStatus::Error) <= rs.len(),
    decreases rs.len(),
{
    if rs.len() > 0 {
        lemma_counted_le_len(rs.drop_last(), tc);
    }
}

/// Aggregate results across multiple test rounds.  The association lists
/// hold one entry per test case that occurs, in canonical ordinal order.
#[derive(Clone, Debug)]
pub struct AggregateResult {
    pub total_rounds: u32,
    pub test_stats: Vec<(TestCase, TestStats)>,
    pub test_pass_rates: Vec<(TestCase, u32)>,
    pub overall_pass_rate: u32,
}

/// The per-round pass rates averaged, in hundredths of a percent; 0 when
/// there are no rounds.
pub open spec fn spec_overall_rate_bp(summaries: Seq<TestRoundSummary>) -> int {
    if summaries.len() == 0 {
        0
    } else {
        spec_rate_sum_bp(summaries) / summaries.len() as int
    }
}

pub open spec fn spec_rate_sum_bp(summaries: Seq<TestRoundSummary>) -> int
    decreases summaries.len(),
{
    if summaries.len() == 0 {
        0
    } else {
        spec_rate_sum_bp(summaries.drop_last()) + summaries.last().spec_pass_rate_bp()
    }
}

/// Splitting the flattened results at a round boundary.
proof fn lemma_all_results_snoc(s: Seq<TestRoundSummary>, i: int)
    requires
        0 <= i < s.len(),
    ensures
        spec_all_results(s.subrange(0, i + 1)) == spec_all_results(s.subrange(0, i))
            + s[i].results@,
{
    let a = s.subrange(0, i + 1);
    assert(a.drop_last() =~= s.subrange(0, i));
    assert(a.last() == s[i]);
}

/// A round prefix never flattens to more results than the whole run.
proof fn lemma_all_results_prefix_len(s: Seq<TestRoundSummary>, i: int)
    requires
        0 <= i <= s.len(),
    ensures
        spec_all_results(s.subrange(0, i)).len() <= spec_all_results(s).len(),
    decreases s.len() - i,
{
    if i == s.len() {
        assert(s.subrange(0, i) =~= s);
    } else {
        lemma_all_results_snoc(s, i);
        lemma_all_results_prefix_len(s, i + 1);
    }
}

/// A case occurs among the results exactly when some status bucket counted
/// it.
proof fn lemma_occurs_iff_counts(rs: Seq<TestResult>, tc: TestCase)
    ensures
        spec_case_occurs(rs, tc) <==> spec_case_count(rs, tc, TestStatus::Pass) + spec_case_count(
            rs,
            tc,
            TestStatus::Fail,
        ) + spec_case_count(rs, tc, TestStatus::Skip) + spec_case_count(
            rs,
            tc,
            TestStatus::Error,
        ) > 0,
    decreases rs.len(),
{
    lemma_case_count_le_len(rs, tc, TestStatus::Pass);
    lemma_case_count_le_len(rs, tc, TestStatus::Fail);
    lemma_case_count_le_len(rs, tc, TestStatus::Skip);
    lemma_case_count_le_len(rs, tc, TestStatus::Error);
    if rs.len() == 0 {
        assert(!spec_case_occurs(rs, tc));
    } else {
        lemma_occurs_iff_counts(rs.drop_last(), tc);
        lemma_case_count_le_len(rs.drop_last(), tc, TestStatus::Pass);
        lemma_case_count_le_len(rs.drop_last(), tc, TestStatus::Fail);
        lemma_case_count_le_len(rs.drop_last(), tc, TestStatus::Skip);
        lemma_case_count_le_len(rs.drop_last(), tc, TestStatus::Error);
        if rs.last().test_case == tc {
            match rs.last().status {
                TestStatus::Pass => {},
                TestStatus::Fail => {},
                TestStatus::Skip => {},
                TestStatus::Error => {},
            }
            assert(spec_case_occurs(rs, tc)) by {
                assert(rs[rs.len() - 1].test_case == tc);
            }
        } else {
            if spec_case_occurs(rs.drop_last(), tc) {
                let i = choose|i: int|
                    0 <= i < rs.drop_last().len() && #[trigger] rs.drop_last()[i].test_case
                        == tc;
                assert(rs[i].test_case == tc);
                assert(spec_case_occurs(rs, tc));
            }
            if spec_case_occurs(rs, tc) {
                let i = choose|i: int| 0 <= i < rs.len() && #[trigger] rs[i].test_case == tc;
                assert(i != rs.len() - 1);
                assert(rs.drop_last()[i].test_case == tc);
                assert(spec_case_occurs(rs.drop_last(), tc));
            }
        }
    }
}

/// The statistics and occurrence of one test case over all rounds, by a
/// single pass over every round's results in order.
fn stats_for_case(summaries: &Vec<TestRoundSummary>, tc: TestCase) -> (r: (TestStats, bool))
    requires
        spec_all_results(summaries@).len() <= u32::MAX,
    ensures
        r.0 == spec_stats_for(spec_all_results(summaries@), tc),
        r.1 == spec_case_occurs(spec_all_results(summaries@), tc),
{
    let ghost full = spec_all_results(summaries@);
    let mut passes: u32 = 0;
    let mut failures: u32 = 0;
    let mut skips: u32 = 0;
    let mut errors: u32 = 0;
    let mut dur: u64 = 0;
    let mut i: usize = 0;
    while i < summaries.len()
        invariant
            i <= summaries@.len(),
            full == spec_all_results(summaries@),
            full.len() <= u32::MAX,
            passes as int == spec_case_count(
                spec_all_results(summaries@.subrange(0, i as int)),
                tc,
                TestStatus::Pass,
            ),
            failures as int == spec_case_count(
                spec_all_results(summaries@.subrange(0, i as int)),
                tc,
                TestStatus::Fail,
            ),
            skips as int == spec_case_count(
                spec_all_results(summaries@.subrange(0, i as int)),
                tc,
                TestStatus::Skip,
            ),
            errors as int == spec_case_count(
                spec_all_results(summaries@.subrange(0, i as int)),
                tc,
                TestStatus::Error,
            ),
            dur as int == spec_case_duration(
                spec_all_results(summaries@.subrange(0, i as int)),
                tc,
            ),
        decreases summaries@.len() - i,
    {
        let ghost base = spec_all_results(summaries@.subrange(0, i as int));
        let row = &summaries[i].results;
        let mut j: usize = 0;
        while j < row.len()
            invariant
                i < summaries@.len(),
                j <= row@.len(),
                row@ == summaries@[i as int].results@,
                base == spec_all_results(summaries@.subrange(0, i as int)),
                full == spec_all_results(summaries@),
                full.len() <= u32::MAX,
                passes as int == spec_case_count(
                    base + row@.subrange(0, j as int),
                    tc,
                    TestStatus::Pass,
                ),
                failures as int == spec_case_count(
                    base + row@.subrange(0, j as int),
                    tc,
                    TestStatus::Fail,
                ),
                skips as int == spec_case_count(
                    base + row@.subrange(0, j as int),
                    tc,
                    TestStatus::Skip,
                ),
                errors as int == spec_case_count(
                    base + row@.subrange(0, j as int),
                    tc,
                    TestStatus::Error,
                ),
                dur as int == spec_case_duration(base + row@.subrange(0, j as int), tc),
            decreases row@.len() - j,
        {
            let ghost cur = base + row@.subrange(0, j as int);
            let ghost ext = base + row@.subrange(0, j as int + 1);
            proof {
                assert(ext.drop_last() =~= cur);
                assert(ext.last() == row@[j as int]);
                lemma_all_results_snoc(summaries@, i as int);
                lemma_all_results_prefix_len(summaries@, i as int + 1);
                assert(row@.subrange(0, j as int + 1).len() <= row@.len());
                assert(ext.len() <= spec_all_results(summaries@.subrange(0, i as int + 1)).len())
                    by {
                    assert(spec_all_results(summaries@.subrange(0, i as int + 1)) == base
                        + row@);
                }
                assert(ext.len() <= full.len());
                lemma_case_count_le_len(cur, tc, TestStatus::Pass);
                lemma_case_count_le_len(cur, tc, TestStatus::Fail);
                lemma_case_count_le_len(cur, tc, TestStatus::Skip);
                lemma_case_count_le_len(cur, tc, TestStatus::Error);
                lemma_case_duration_bounds(cur, tc);
            }
            let same_case = row[j].test_case == tc;
            if same_case {
                let d = row[j].duration_ms;
                if dur > u64::MAX - d {
                    dur = u64::MAX;
                } else {
                    dur = dur + d;
                }
                match row[j].status {
                    TestStatus::Pass => {
                        passes += 1;
                    },
                    TestStatus::Fail => {
                        failures += 1;
                    },
                    TestStatus::Skip => {
                        skips += 1;
                    },
                    TestStatus::Error => {
                        errors += 1;
                    },
                }
            }
            j += 1;
        }
        proof {
            lemma_all_results_snoc(summaries@, i as int);
            assert(row@.subrange(0, row@.len() as int) =~= row@);
        }
        i += 1;
    }
    proof {
        assert(summaries@.subrange(0, summaries@.len() as int) =~= summaries@);
        lemma_occurs_iff_counts(full, tc);
    }
    let occurred = passes > 0 || failures > 0 || skips > 0 || errors > 0;
    (TestStats { passes, failures, skips, errors, total_duration_ms: dur }, occurred)
}

/// Batch test runner state for multiple rounds: the executor and how many
/// rounds to drive it for.
#[derive(Clone, Copy, Debug)]
pub struct BatchRunner {
    pub executor: ParallelExecutor,
    pub rounds: u32,
}

impl BatchRunner {
    /// A pool of the given width driven for the given number of rounds.
    pub fn new(max_concurrent: usize, rounds: u32) -> (r: Self)
        ensures
            r.executor.max_concurrent == max_concurrent,
            r.executor.timeout_secs == 30,
            r.rounds == rounds,
    {
        BatchRunner { executor: ParallelExecutor::new(max_concurrent), rounds }
    }

    /// Reduce round summaries into per-test tallies and pass rates.  The
    /// association lists hold one entry per test case that occurs, in
    /// canonical ordinal order; pass rates exclude skips from their
    /// denominator.
    pub fn aggregate_results(summaries: &Vec<TestRoundSummary>) -> (r: AggregateResult)
        requires
            summaries@.len() <= u32::MAX,
            spec_all_results(summaries@).len() <= u32::MAX,
            forall|i: int|
                0 <= i < summaries@.len() ==> (#[trigger] summaries@[i]).passed
                    <= summaries@[i].total,
        ensures
            r.total_rounds == summaries@.len(),
            r.overall_pass_rate as int == spec_overall_rate_bp(summaries@),
            r.test_pass_rates@.len() == r.test_stats@.len(),
            forall|k: int|
                0 <= k < r.test_stats@.len() ==> (#[trigger] r.test_stats@[k]).1
                    == spec_stats_for(spec_all_results(summaries@), r.test_stats@[k].0),
            forall|k: int|
                0 <= k < r.test_pass_rates@.len() ==> (#[trigger] r.test_pass_rates@[k]).0
                    == r.test_stats@[k].0 && r.test_pass_rates@[k].1 as int == spec_case_rate_bp(
                    spec_all_results(summaries@),
                    r.test_pass_rates@[k].0,
                ),
            forall|k: int|
                0 <= k < r.test_stats@.len() ==> spec_case_occurs(
                    spec_all_results(summaries@),
                    (#[trigger] r.test_stats@[k]).0,
                ),
            forall|tc: TestCase|
                spec_case_occurs(spec_all_results(summaries@), tc) ==> exists|k: int|
                    0 <= k < r.test_stats@.len() && (#[trigger] r.test_stats@[k]).0 == tc,
            forall|k1: int, k2: int|
                0 <= k1 < k2 < r.test_stats@.len() ==> (#[trigger] r.test_stats@[k1]).0.spec_number()
                    < (#[trigger] r.test_stats@[k2]).0.spec_number(),
    {
        let ghost full = spec_all_results(summaries@);
        let all_cases = TestCase::all();
        let mut test_stats: Vec<(TestCase, TestStats)> = Vec::new();
        let mut test_pass_rates: Vec<(TestCase, u32)> = Vec::new();
        let mut m: usize = 0;
        while m < all_cases.len()
            invariant
                m <= all_cases@.len(),
                all_cases@ == TestCase::spec_all(),
                full == spec_all_results(summaries@),
                full.len() <= u32::MAX,
                test_pass_rates@.len() == test_stats@.len(),
                forall|k: int|
                    0 <= k < test_stats@.len() ==> (#[trigger] test_stats@[k]).1 == spec_stats_for(
                        full,
                        test_stats@[k].0,
                    ),
                forall|k: int|
                    0 <= k < test_pass_rates@.len() ==> (#[trigger] test_pass_rates@[k]).0
                        == test_stats@[k].0 && test_pass_rates@[k].1 as int == spec_case_rate_bp(
                        full,
                        test_pass_rates@[k].0,
                    ),
                forall|k: int|
                    0 <= k < test_stats@.len() ==> spec_case_occurs(
                        full,
                        (#[trigger] test_stats@[k]).0,
                    ) && 1 <= test_stats@[k].0.spec_number() <= m,
                forall|tc: TestCase|
                    spec_case_occurs(full, tc) && tc.spec_number() <= m ==> exists|k: int|
                        0 <= k < test_stats@.len() && (#[trigger] test_stats@[k]).0 == tc,
                forall|k1: int, k2: int|
                    0 <= k1 < k2 < test_stats@.len() ==> (
                    #[trigger] test_stats@[k1]).0.spec_number() < (
                    #[trigger] test_stats@[k2]).0.spec_number(),
            decreases all_cases@.len() - m,
        {
            let tc = all_cases[m];
            proof {
                lemma_case_number_is_index(m as int);
            }
            let (stats, occurred) = stats_for_case(summaries, tc);
            if occurred {
                let counted: u64 = (stats.passes as u64) + (stats.failures as u64) + (
                stats.errors as u64);
                let rate: u32 = if counted > 0 {
                    proof {
                        assert((stats.passes as int) * 10000 / (counted as int) <= 10000)
                            by (nonlinear_arith)
                            requires
                                0 <= stats.passes as int <= counted as int,
                                counted as int > 0,
                        ;
                    }
                    (((stats.passes as u64) * 10000) / counted) as u32
                } else {
                    0
                };
                proof {
                    lemma_case_count_le_len(full, tc, TestStatus::Pass);
                    lemma_case_count_le_len(full, tc, TestStatus::Fail);
                    lemma_case_count_le_len(full, tc, TestStatus::Error);
                    lemma_counted_le_len(full, tc);
                    assert(rate as int == spec_case_rate_bp(full, tc));
                }
                let ghost old_stats = test_stats@;
                test_stats.push((tc, stats));
                test_pass_rates.push((tc, rate));
                proof {
                    assert forall|tc2: TestCase|
                        spec_case_occurs(full, tc2) && tc2.spec_number() <= m + 1 implies exists|
                        k: int,
                    |
                        0 <= k < test_stats@.len() && (#[trigger] test_stats@[k]).0 == tc2 by {
                        if tc2.spec_number() <= m {
                            let k = choose|k: int|
                                0 <= k < old_stats.len() && (#[trigger] old_stats[k]).0 == tc2;
                            assert(test_stats@[k].0 == tc2);
                        } else {
                            lemma_case_number_determines(tc2, tc);
                            assert(test_stats@[test_stats@.len() - 1].0 == tc2);
                        }
                    }
                }
            } else {
                proof {
                    assert forall|tc2: TestCase|
                        spec_case_occurs(full, tc2) && tc2.spec_number() <= m + 1 implies exists|
                        k: int,
                    |
                        0 <= k < test_stats@.len() && (#[trigger] test_stats@[k]).0 == tc2 by {
                        if tc2.spec_number() <= m {
                        } else {
                            lemma_case_number_determines(tc2, tc);
                            assert(spec_case_occurs(full, tc));
                            assert(false);
                        }
                    }
                }
            }
            m += 1;
        }
        let mut rate_sum: u64 = 0;
        let mut i: usize = 0;
        while i < summaries.len()
            invariant
                i <= summaries@.len(),
                summaries@.len() <= u32::MAX,
                forall|k: int|
                    0 <= k < summaries@.len() ==> (#[trigger] summaries@[k]).passed
                        <= summaries@[k].total,
                rate_sum as int == spec_rate_sum_bp(summaries@.subrange(0, i as int)),
                rate_sum as int <= (i as int) * 10000,
            decreases summaries@.len() - i,
        {
            proof {
                let pre = summaries@.subrange(0, i as int);
                let ext = summaries@.subrange(0, i as int + 1);
                assert(ext.drop_last() =~= pre);
                assert(ext.last() == summaries@[i as int]);
                let sm = summaries@[i as int];
                assert(0 <= sm.spec_pass_rate_bp() <= 10000) by (nonlinear_arith)
                    requires
                        sm.spec_pass_rate_bp() == if sm.total == 0 {
                            0int
                        } else {
                            sm.passed * 10000 / sm.total as int
                        },
                        0 <= sm.passed <= sm.total,
                ;
            }
            let s = &summaries[i];
            let round_rate: u32 = if s.total == 0 {
                0
            } else {
                proof {
                    assert((s.passed as int) * 10000 / (s.total as int) <= 10000)
                        by (nonlinear_arith)
                        requires
                            0 <= s.passed as int <= s.total as int,
                            s.total as int > 0,
                    ;
                }
                (((s.passed as u128) * 10000) / (s.total as u128)) as u32
            };
            rate_sum = rate_sum + (round_rate as u64);
            i += 1;
        }
        proof {
            assert(summaries@.subrange(0, summaries@.len() as int) =~= summaries@);
        }
        proof {
            assert forall|tc: TestCase|
                spec_case_occurs(full, tc) implies tc.spec_number() <= all_cases@.len() by {
                lemma_case_number_range(tc);
            }
        }
        let overall: u32 = if summaries.len() == 0 {
            0
        } else {
            proof {
                lemma_rate_sum_bounds(summaries@);
                assert(spec_rate_sum_bp(summaries@) / (summaries@.len() as int) <= 10000)
                    by (nonlinear_arith)
                    requires
                        0 <= spec_rate_sum_bp(summaries@) <= summaries@.len() * 10000,
                        summaries@.len() >= 1,
                ;
            }
            (rate_sum / (summaries.len() as u64)) as u32
        };
        AggregateResult {
            total_rounds: summaries.len() as u32,
            test_stats,
            test_pass_rates,
            overall_pass_rate: overall,
        }
    }
}

/// Every test case's ordinal lies in the catalog range.
proof fn lemma_case_number_range(tc: TestCase)
    ensures
        1 <= tc.spec_number() <= 17,
{
}

/// The canonical catalog lists the case with ordinal `m + 1` at index `m`.
proof fn lemma_case_number_is_index(m: int)
    requires
        0 <= m < TestCase::spec_all().len(),
    ensures
        TestCase::spec_all()[m].spec_number() == m + 1,
{
}

/// Ordinals identify test cases: equal numbers mean the same case.
proof fn lemma_case_number_determines(a: TestCase, b: TestCase)
    requires
        a.spec_number() == b.spec_number(),
    ensures
        a == b,
{
}

impl AggregateResult {
    /// All tests with their pass rates, worst first: sorted ascending by
    /// pass rate, keeping exactly the aggregated entries.
    pub fn flaky_tests(&self) -> (r: Vec<(TestCase, u32)>)
        ensures
            r@.to_multiset() == self.test_pass_rates@.to_multiset(),
            r@.len() == self.test_pass_rates@.len(),
            forall|p: int, q: int| 0 <= p < q < r@.len() ==> (#[trigger] r@[p]).1 <= (#[trigger] r@[q]).1,
    {
        let mut rest: Vec<(TestCase, u32)> = Vec::new();
        let mut t: usize = 0;
        while t < self.test_pass_rates.len()
            invariant
                t <= self.test_pass_rates@.len(),
                rest@ == self.test_pass_rates@.subrange(0, t as int),
            decreases self.test_pass_rates@.len() - t,
        {
            rest.push(self.test_pass_rates[t]);
            proof {
                assert(rest@ =~= self.test_pass_rates@.subrange(0, t as int + 1));
            }
            t += 1;
        }
        proof {
            assert(rest@ =~= self.test_pass_rates@);
        }
        let ghost orig = rest@;
        let mut out: Vec<(TestCase, u32)> = Vec::new();
        proof {
            broadcast use vstd::seq_lib::group_to_multiset_ensures;
            broadcast use vstd::multiset::group_multiset_axioms;

            assert(out@.to_multiset().add(rest@.to_multiset()) =~= orig.to_multiset());
        }
        while rest.len() > 0
            invariant
                orig == self.test_pass_rates@,
                forall|p: int, q: int|
                    0 <= p < q < out@.len() ==> (#[trigger] out@[p]).1 <= (#[trigger] out@[q]).1,
                out@.to_multiset().add(rest@.to_multiset()) == orig.to_multiset(),
                out@.len() + rest@.len() == orig.len(),
            decreases rest@.len(),
        {
            let ghost old_rest = rest@;
            let x = rest.remove(0);
            proof {
                broadcast use vstd::seq_lib::group_to_multiset_ensures;
                broadcast use vstd::multiset::group_multiset_axioms;

                assert(x == old_rest[0]);
                assert(old_rest.contains(x)) by {
                    assert(old_rest[0] == x);
                }
                assert(old_rest.to_multiset().count(x) > 0);
                assert(old_rest.remove(0).to_multiset() =~= old_rest.to_multiset().remove(
                    old_rest[0],
                ));
                assert(rest@.to_multiset() =~= old_rest.to_multiset().remove(x));
            }
            let mut j: usize = 0;
            while j < out.len() && out[j].1 <= x.1
                invariant
                    j <= out@.len(),
                    forall|k: int| 0 <= k < j ==> (#[trigger] out@[k]).1 <= x.1,
                decreases out@.len() - j,
            {
                j += 1;
            }
            let ghost old_out = out@;
            out.insert(j, x);
            proof {
                broadcast use vstd::seq_lib::group_to_multiset_ensures;
                broadcast use vstd::multiset::group_multiset_axioms;

                old_out.insert_ensures(j as int, x);
                assert forall|p: int, q: int|
                    0 <= p < q < out@.len() implies (#[trigger] out@[p]).1 <= (
                #[trigger] out@[q]).1 by {
                    if q < j {
                        assert(out@[p] == old_out[p]);
                        assert(out@[q] == old_out[q]);
                    } else if q == j {
                        assert(out@[p] == old_out[p]);
                    } else {
                        assert(out@[q] == old_out[q - 1]);
                        if p < j {
                            assert(out@[p] == old_out[p]);
                            if p < q - 1 {
                                assert(old_out[p].1 <= old_out[q - 1].1);
                            }
                        } else if p == j {
                            assert(!(old_out[j as int].1 <= x.1));
                            if j < q - 1 {
                                assert(old_out[j as int].1 <= old_out[q - 1].1);
                            }
                        } else {
                            assert(out@[p] == old_out[p - 1]);
                            if p - 1 < q - 1 {
                                assert(old_out[p - 1].1 <= old_out[q - 1].1);
                            }
                        }
                    }
                }
                let pre = old_out.subrange(0, j as int);
                let post = old_out.subrange(j as int, old_out.len() as int);
                assert(out@ =~= pre.push(x) + post);
                vstd::seq_lib::lemma_multiset_commutative(pre.push(x), post);
                vstd::seq_lib::lemma_multiset_commutative(pre, post);
                assert(old_out =~= pre + post);
                assert(pre.push(x).to_multiset() =~= pre.to_multiset().insert(x));
                assert(out@.to_multiset() =~= old_out.to_multiset().insert(x));
                assert(out@.to_multiset().add(rest@.to_multiset()) =~= orig.to_multiset());
            }
        }
        proof {
            broadcast use vstd::seq_lib::group_to_multiset_ensures;
            broadcast use vstd::multiset::group_multiset_axioms;

            assert(rest@.len() == 0);
            assert(rest@.to_multiset().len() == 0);
            assert(out@.to_multiset().add(rest@.to_multiset()) =~= out@.to_multiset());
            assert(out@.to_multiset() =~= orig.to_multiset());
            assert(out@.to_multiset().len() == out@.len());
            assert(orig.to_multiset().len() == orig.len());
        }
        out
    }

    /// Exactly the tests that always pass: those whose aggregated pass rate
    /// is the full ten thousand hundredths of a percent, in aggregation
    /// order.
    pub fn stable_tests(&self) -> (r: Vec<TestCase>)
        ensures
            r@ == self.test_pass_rates@.filter(|e: (TestCase, u32)| e.1 >= 10000).map_values(
                |e: (TestCase, u32)| e.0,
            ),
    {
        let rates = &self.test_pass_rates;
        let mut out: Vec<TestCase> = Vec::new();
        let mut i: usize = 0;
        while i < rates.len()
            invariant
                i <= rates@.len(),
                rates@ == self.test_pass_rates@,
                out@ == rates@.subrange(0, i as int).filter(|e: (TestCase, u32)| e.1 >= 10000)
                    .map_values(|e: (TestCase, u32)| e.0),
            decreases rates@.len() - i,
        {
            let e = rates[i];
            if e.1 >= 10000 {
                out.push(e.0);
            }
            proof {
                let f = |e: (TestCase, u32)| e.1 >= 10000;
                let g = |e: (TestCase, u32)| e.0;
                let pre = rates@.subrange(0, i as int);
                let ext = rates@.subrange(0, i as int + 1);
                assert(ext.drop_last() =~= pre);
                assert(ext.last() == rates@[i as int]);
                reveal_with_fuel(Seq::filter, 2);
                assert(ext.filter(f) == if f(ext.last()) {
                    pre.filter(f).push(ext.last())
                } else {
                    pre.filter(f)
                });
                if f(ext.last()) {
                    assert(pre.filter(f).push(ext.last()).map_values(g) =~= pre.filter(f)
                        .map_values(g).push(g(ext.last())));
                }
                assert(out@ == ext.filter(f).map_values(g));
            }
            i += 1;
        }
        proof {
            assert(rates@.subrange(0, rates@.len() as int) =~= rates@);
        }
        out
    }
}

proof fn lemma_rate_sum_bounds(summaries: Seq<TestRoundSummary>)
    requires
        forall|i: int|
            0 <= i < summaries.len() ==> (#[trigger] summaries[i]).passed <= summaries[i].total,
    ensures
        0 <= spec_rate_sum_bp(summaries) <= summaries.len() * 10000,
    decreases summaries.len(),
{
    if summaries.len() > 0 {
        lemma_rate_sum_bounds(summaries.drop_last());
        let last = summaries.last();
        assert(0 <= last.spec_pass_rate_bp() <= 10000) by (nonlinear_arith)
            requires
                last.spec_pass_rate_bp() == if last.total == 0 {
                    0int
                } else {
                    last.passed * 10000 / last.total as int
                },
                0 <= last.passed <= last.total,
        ;
        assert((summaries.len() - 1) * 10000 + 10000 == summaries.len() * 10000)
            by (nonlinear_arith);
    }
}

} // verus!
