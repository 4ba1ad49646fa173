//! Running request statistics: counters and a rolling average latency.
//!
//! Every backend call feeds one `(success, duration)` outcome into a
//! [`StatsRecorder`].  The recorder keeps the totals incrementally — it never
//! walks the full history — yet [`StatsRecorder::snapshot`] is proved to
//! report the exact arithmetic mean (under integer division) of every
//! duration recorded since creation.

use vstd::prelude::*;
use vstd::arithmetic::div_mod::{lemma_div_by_multiple, lemma_div_is_ordered};
use vstd::arithmetic::mul::lemma_mul_inequality;

verus! {

/// Total duration, as a mathematical integer, of a history of
/// `(success, duration_ms)` outcomes.
pub open spec fn duration_sum(outcomes: Seq<(bool, u64)>) -> int
    decreases outcomes.len(),
{
    if outcomes.len() == 0 {
        0
    } else {
        duration_sum(outcomes.drop_last()) + outcomes.last().1
    }
}

/// Number of successful outcomes in a history.
pub open spec fn success_count(outcomes: Seq<(bool, u64)>) -> int
    decreases outcomes.len(),
{
    if outcomes.len() == 0 {
        0
    } else {
        success_count(outcomes.drop_last()) + if outcomes.last().0 {
            1int
        } else {
            0int
        }
    }
}

/// Every duration fits in a `u64`, so the sum is bounded by the count times
/// `u64::MAX`, and both aggregates are non-negative.
pub proof fn lemma_history_bounds(outcomes: Seq<(bool, u64)>)
    ensures
        0 <= duration_sum(outcomes) <= outcomes.len() * (u64::MAX as int),
        0 <= success_count(outcomes) <= outcomes.len(),
    decreases outcomes.len(),
{
    if outcomes.len() > 0 {
        lemma_history_bounds(outcomes.drop_last());
        lemma_mul_inequality(
            outcomes.len() - 1,
            outcomes.len() as int,
            u64::MAX as int,
        );
    }
}

/// One consistent observation of the recorder, for reporting.
pub struct Stats {
    pub total_requests: u64,
    pub successful_requests: u64,
    pub failed_requests: u64,
    /// Arithmetic mean of all recorded durations, in milliseconds,
    /// rounded down; `0` when nothing was recorded.
    pub average_response_time_ms: u64,
    /// `successful_requests / total_requests` as a percentage, rounded
    /// down; `0` when nothing was recorded.
    pub success_rate_percent: u64,
}

/// Counters and rolling average latency, updated incrementally on every
/// recorded outcome.
///
/// The ghost `history` holds every outcome ever recorded, in order; the
/// executable fields are proved to agree with it at all times, which is what
/// lets `snapshot` promise the exact mean of the full history without the
/// recorder ever storing it.
pub struct StatsRecorder {
    total: u64,
    successful: u64,
    failed: u64,
    duration_total_ms: u128,
    history: Ghost<Seq<(bool, u64)>>,
}

impl StatsRecorder {
    /// Every `(success, duration_ms)` outcome recorded so far, in order.
    pub closed spec fn recorded(self) -> Seq<(bool, u64)> {
        self.history@
    }

    /// The executable counters agree with the recorded history.
    pub closed spec fn wf(self) -> bool {
        &&& self.total as int == self.history@.len()
        &&& self.successful as int == success_count(self.history@)
        &&& self.failed as int == self.history@.len() - success_count(self.history@)
        &&& self.duration_total_ms as int == duration_sum(self.history@)
    }

    /// A fresh recorder with nothing recorded.
    pub fn new() -> (r: StatsRecorder)
        ensures
            r.wf(),
            r.recorded() == Seq::<(bool, u64)>::empty(),
    {
        StatsRecorder {
            total: 0,
            successful: 0,
            failed: 0,
            duration_total_ms: 0,
            history: Ghost(Seq::empty()),
        }
    }

    /// Record one call outcome.  Updates the counters and the rolling
    /// duration total; never recomputes from history.
    pub fn record(&mut self, success: bool, duration_ms: u64)
        requires
            old(self).wf(),
            old(self).recorded().len() < u64::MAX,
        ensures
            final(self).wf(),
            final(self).recorded() == old(self).recorded().push((success, duration_ms)),
    {
        proof {
            lemma_history_bounds(self.history@);
            // (len + 1) * MAX fits in a u128, so the new total does too.
            lemma_mul_inequality(
                self.history@.len() as int + 1,
                u64::MAX as int,
                u64::MAX as int,
            );
        }
        self.total = self.total + 1;
        if success {
            self.successful = self.successful + 1;
        } else {
            self.failed = self.failed + 1;
        }
        self.duration_total_ms = self.duration_total_ms + duration_ms as u128;
        proof {
            let appended = self.history@.push((success, duration_ms));
            assert(appended.drop_last() =~= old(self).history@);
        }
        self.history = Ghost(self.history@.push((success, duration_ms)));
    }

    /// One consistent view of all counters.
    ///
    /// The reported average equals the arithmetic mean (rounded down) of
    /// every duration recorded since creation, and the success rate equals
    /// the percentage of successful outcomes; both are `0` while nothing has
    /// been recorded.
    pub fn snapshot(&self) -> (r: Stats)
        requires
            self.wf(),
        ensures
            r.total_requests as int == self.recorded().len(),
            r.successful_requests as int == success_count(self.recorded()),
            r.failed_requests as int == self.recorded().len() - success_count(self.recorded()),
            r.average_response_time_ms as int == if self.recorded().len() == 0 {
                0int
            } else {
                duration_sum(self.recorded()) / (self.recorded().len() as int)
            },
            r.success_rate_percent as int == if self.recorded().len() == 0 {
                0int
            } else {
                success_count(self.recorded()) * 100 / (self.recorded().len() as int)
            },
    {
        proof {
            lemma_history_bounds(self.history@);
        }
        let average_response_time_ms: u64 = if self.total == 0 {
            0
        } else {
            proof {
                // duration_total_ms <= total * MAX, so the quotient is at
                // most MAX and the narrowing cast below is exact.
                lemma_div_is_ordered(
                    self.duration_total_ms as int,
                    self.total as int * u64::MAX as int,
                    self.total as int,
                );
                lemma_div_by_multiple(u64::MAX as int, self.total as int);
            }
            (self.duration_total_ms / self.total as u128) as u64
        };
        let success_rate_percent: u64 = if self.total == 0 {
            0
        } else {
            proof {
                lemma_mul_inequality(
                    self.successful as int,
                    self.total as int,
                    100int,
                );
                lemma_div_is_ordered(
                    self.successful as int * 100,
                    self.total as int * 100,
                    self.total as int,
                );
                lemma_div_by_multiple(100int, self.total as int);
            }
            ((self.successful as u128) * 100 / (self.total as u128)) as u64
        };
        Stats {
            total_requests: self.total,
            successful_requests: self.successful,
            failed_requests: self.failed,
            average_response_time_ms,
            success_rate_percent,
        }
    }
}

} // verus!
