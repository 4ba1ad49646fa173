//! Bounded retry with linear backoff around a backend call.
//!
//! A [`RetryExecutor`] drives one instrumented backend call up to
//! `max_attempts` times.  A success returns immediately; each failure but
//! the last is followed by a wait of `attempt_number * base_delay_ms`
//! (linear backoff); when every attempt has failed, the most recent error is
//! returned and earlier ones are discarded.  Every failure is retried
//! uniformly — the policy does not distinguish permanent from transient
//! failures.

use vstd::prelude::*;
use crate::backend::{BackendError, Clock, CompletionBackend, InstrumentedBackend};
use crate::stats::success_count;

verus! {

/// What one retried call came to: the final result and how many attempts
/// were spent on it.
#[derive(Debug)]
pub struct RetryOutcome {
    pub result: Result<String, BackendError>,
    pub attempts: u64,
}

/// Retry policy: a positive attempt cap and the base unit of the linear
/// backoff.
#[derive(Clone, Copy)]
pub struct RetryExecutor {
    pub max_attempts: u64,
    pub base_delay_ms: u64,
}

impl RetryExecutor {
    /// At least one attempt is always made.
    pub open spec fn wf(self) -> bool {
        self.max_attempts >= 1
    }

    /// A policy making up to `max_attempts` attempts with linear backoff in
    /// units of `base_delay_ms`.
    pub fn new(max_attempts: u64, base_delay_ms: u64) -> (r: RetryExecutor)
        requires
            max_attempts >= 1,
        ensures
            r.wf(),
            r.max_attempts == max_attempts,
            r.base_delay_ms == base_delay_ms,
    {
        RetryExecutor { max_attempts, base_delay_ms }
    }

    /// The wait before the attempt after `attempt`: linear in the attempt
    /// number, saturating at the largest representable delay.
    pub fn backoff_delay_ms(&self, attempt: u64) -> (d: u64)
        ensures
            d as int == if attempt as int * self.base_delay_ms as int <= u64::MAX as int {
                attempt as int * self.base_delay_ms as int
            } else {
                u64::MAX as int
            },
    {
        match attempt.checked_mul(self.base_delay_ms) {
            Some(d) => d,
            None => u64::MAX,
        }
    }

    /// Drive one prompt through the instrumented backend until it succeeds
    /// or the attempt cap is reached.
    ///
    /// Between `1` and `max_attempts` attempts are made, each recorded in
    /// the backend's statistics; a failure outcome is returned only after
    /// exactly `max_attempts` failed attempts, and a success adds exactly
    /// one successful record.
    pub fn execute<B: CompletionBackend, C: Clock>(
        &self,
        backend: &mut InstrumentedBackend<B, C>,
        prompt: &str,
    ) -> (r: RetryOutcome)
        requires
            self.wf(),
            old(backend).stats.wf(),
            old(backend).stats.recorded().len() + self.max_attempts <= u64::MAX,
        ensures
            final(backend).stats.wf(),
            1 <= r.attempts <= self.max_attempts,
            r.result is Err ==> r.attempts == self.max_attempts,
            final(backend).stats.recorded().len() == old(backend).stats.recorded().len()
                + r.attempts,
            success_count(final(backend).stats.recorded()) == success_count(
                old(backend).stats.recorded(),
            ) + if r.result is Ok {
                1int
            } else {
                0int
            },
    {
        let mut attempt: u64 = 1;
        loop
            invariant
                self.wf(),
                1 <= attempt <= self.max_attempts,
                backend.stats.wf(),
                backend.stats.recorded().len() + self.max_attempts <= u64::MAX + attempt - 1,
                backend.stats.recorded().len() == old(backend).stats.recorded().len() + attempt
                    - 1,
                success_count(backend.stats.recorded()) == success_count(
                    old(backend).stats.recorded(),
                ),
            decreases self.max_attempts - attempt,
        {
            let ghost before = backend.stats.recorded();
            let result = backend.complete(prompt);
            proof {
                let d = choose|d: u64|
                    backend.stats.recorded() == #[trigger] before.push((result is Ok, d));
                assert(backend.stats.recorded().drop_last() =~= before);
            }
            match result {
                Ok(text) => {
                    return RetryOutcome { result: Ok(text), attempts: attempt };
                },
                Err(e) => {
                    if attempt == self.max_attempts {
                        return RetryOutcome { result: Err(e), attempts: attempt };
                    }
                    let delay = self.backoff_delay_ms(attempt);
                    backend.clock.wait_ms(delay);
                    attempt = attempt + 1;
                },
            }
        }
    }

    /// As [`RetryExecutor::execute`], but each attempt is bounded by the
    /// per-call timeout; a timed-out attempt is retried like any other
    /// failure.
    pub fn execute_with_timeout<B: CompletionBackend, C: Clock>(
        &self,
        backend: &mut InstrumentedBackend<B, C>,
        prompt: &str,
        timeout_ms: u64,
    ) -> (r: RetryOutcome)
        requires
            self.wf(),
            old(backend).stats.wf(),
            old(backend).stats.recorded().len() + self.max_attempts <= u64::MAX,
        ensures
            final(backend).stats.wf(),
            1 <= r.attempts <= self.max_attempts,
            r.result is Err ==> r.attempts == self.max_attempts,
            final(backend).stats.recorded().len() == old(backend).stats.recorded().len()
                + r.attempts,
            success_count(final(backend).stats.recorded()) == success_count(
                old(backend).stats.recorded(),
            ) + if r.result is Ok {
                1int
            } else {
                0int
            },
    {
        let mut attempt: u64 = 1;
        loop
            invariant
                self.wf(),
                1 <= attempt <= self.max_attempts,
                backend.stats.wf(),
                backend.stats.recorded().len() + self.max_attempts <= u64::MAX + attempt - 1,
                backend.stats.recorded().len() == old(backend).stats.recorded().len() + attempt
                    - 1,
                success_count(backend.stats.recorded()) == success_count(
                    old(backend).stats.recorded(),
                ),
            decreases self.max_attempts - attempt,
        {
            let ghost before = backend.stats.recorded();
            let result = backend.complete_with_timeout(prompt, timeout_ms);
            proof {
                let d = choose|d: u64|
                    backend.stats.recorded() == #[trigger] before.push((result is Ok, d));
                assert(backend.stats.recorded().drop_last() =~= before);
            }
            match result {
                Ok(text) => {
                    return RetryOutcome { result: Ok(text), attempts: attempt };
                },
                Err(e) => {
                    if attempt == self.max_attempts {
                        return RetryOutcome { result: Err(e), attempts: attempt };
                    }
                    let delay = self.backoff_delay_ms(attempt);
                    backend.clock.wait_ms(delay);
                    attempt = attempt + 1;
                },
            }
        }
    }
}

} // verus!
