//! Timers and lap accounting over the opaque monotonic clock.

use vstd::prelude::*;

use crate::clock::{elapsed_millis, instant_now};

verus! {

/// Simple timer for measuring elapsed time.
#[derive(Debug)]
pub struct Timer {
    start: std::time::Instant,
    label: String,
}

impl Timer {
    /// Create and start a new timer.
    pub fn start(label: &str) -> (r: Self)
        ensures
            r.spec_label() == label@,
    {
        Timer { start: instant_now(), label: String::from_str(label) }
    }

    /// The timer's label.
    pub closed spec fn spec_label(&self) -> Seq<char> {
        self.label@
    }

    /// Milliseconds since the timer started; depends on the clock alone.
    pub fn elapsed_ms(&self) -> u64 {
        elapsed_millis(&self.start)
    }

    /// Stop the timer, handing back the elapsed milliseconds.
    pub fn stop(self) -> u64 {
        elapsed_millis(&self.start)
    }
}

/// Stopwatch with lap timing.  Laps are recorded as cumulative
/// milliseconds since the stopwatch started, clamped so that the sequence
/// never decreases even if the clock stalls.
#[derive(Debug)]
pub struct Stopwatch {
    start: std::time::Instant,
    laps: Vec<(String, u64)>,
}

/// Cumulative lap marks never decrease.
pub open spec fn spec_laps_monotonic(s: Seq<(String, u64)>) -> bool {
    forall|i: int, j: int| 0 <= i < j < s.len() ==> (#[trigger] s[i]).1 <= (#[trigger] s[j]).1
}

impl Stopwatch {
    /// The recorded laps: labels with their cumulative milliseconds.
    pub closed spec fn spec_laps(&self) -> Seq<(String, u64)> {
        self.laps@
    }

    /// Create a new stopwatch with no laps.
    pub fn new() -> (r: Self)
        ensures
            r.spec_laps().len() == 0,
            spec_laps_monotonic(r.spec_laps()),
    {
        Stopwatch { start: instant_now(), laps: Vec::new() }
    }

    /// Record a lap at the current elapsed time (never earlier than the
    /// previous lap).
    pub fn lap(&mut self, label: &str)
        requires
            spec_laps_monotonic(old(self).spec_laps()),
        ensures
            spec_laps_monotonic(final(self).spec_laps()),
            final(self).spec_laps().len() == old(self).spec_laps().len() + 1,
            forall|i: int|
                0 <= i < old(self).spec_laps().len() ==> (#[trigger] final(self).spec_laps()[i])
                    == old(self).spec_laps()[i],
            final(self).spec_laps().last().0@ == label@,
    {
        let now = elapsed_millis(&self.start);
        let n = self.laps.len();
        let mark = if n > 0 && self.laps[n - 1].1 > now {
            self.laps[n - 1].1
        } else {
            now
        };
        self.laps.push((String::from_str(label), mark));
        proof {
            let s = self.laps@;
            assert forall|i: int, j: int| 0 <= i < j < s.len() implies (#[trigger] s[i]).1 <= (
            #[trigger] s[j]).1 by {
                if j < s.len() - 1 {
                } else {
                    if n > 0 {
                        assert(s[i].1 <= s[n - 1].1);
                    }
                }
            }
        }
    }

    /// Total elapsed milliseconds; depends on the clock alone.
    pub fn total(&self) -> u64 {
        elapsed_millis(&self.start)
    }

    /// Get all laps: labels with cumulative milliseconds.
    pub fn laps(&self) -> (r: &Vec<(String, u64)>)
        ensures
            r@ == self.spec_laps(),
    {
        &self.laps
    }

    /// The duration of each lap: the difference to the previous cumulative
    /// mark.
    pub fn lap_times(&self) -> (r: Vec<(String, u64)>)
        requires
            spec_laps_monotonic(self.spec_laps()),
        ensures
            r@.len() == self.spec_laps().len(),
            forall|i: int|
                0 <= i < r@.len() ==> (#[trigger] r@[i]).0 == self.spec_laps()[i].0 && r@[i].1
                    as int == self.spec_laps()[i].1 - (if i == 0 {
                    0int
                } else {
                    self.spec_laps()[i - 1].1 as int
                }),
    {
        let mut result: Vec<(String, u64)> = Vec::new();
        let mut prev: u64 = 0;
        let mut i: usize = 0;
        while i < self.laps.len()
            invariant
                i <= self.laps@.len(),
                spec_laps_monotonic(self.laps@),
                self.spec_laps() == self.laps@,
                result@.len() == i,
                prev == if i == 0 {
                    0u64
                } else {
                    self.laps@[i as int - 1].1
                },
                forall|k: int|
                    0 <= k < i ==> (#[trigger] result@[k]).0 == self.laps@[k].0 && result@[k].1
                        as int == self.laps@[k].1 - (if k == 0 {
                        0int
                    } else {
                        self.laps@[k - 1].1 as int
                    }),
            decreases self.laps@.len() - i,
        {
            let cumulative = self.laps[i].1;
            proof {
                if i > 0 {
                    assert(self.laps@[i as int - 1].1 <= self.laps@[i as int].1);
                }
            }
            let lap_time = cumulative - prev;
            result.push((self.laps[i].0.clone(), lap_time));
            prev = cumulative;
            i += 1;
        }
        result
    }
}

impl Default for Stopwatch {
    /// A fresh stopwatch.
    fn default() -> (r: Self)
        ensures
            r.spec_laps().len() == 0,
            spec_laps_monotonic(r.spec_laps()),
    {
        Stopwatch::new()
    }
}

} // verus!
