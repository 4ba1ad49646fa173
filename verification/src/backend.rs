//! The completion-backend capability and its instrumentation wrapper.
//!
//! The downstream text-completion service is consumed, never implemented,
//! here: callers hand in any [`CompletionBackend`] (real or test double)
//! together with a [`Clock`] for wall-time measurement and backoff waits.
//! [`InstrumentedBackend`] decorates a backend, measuring the duration of
//! every call and feeding `(success, duration)` into a
//! [`StatsRecorder`](crate::stats::StatsRecorder) as a side effect, without
//! altering call semantics.

use vstd::prelude::*;
use vstd::string::StringExecFns;
use crate::stats::StatsRecorder;

verus! {

/// Failure of one backend call.  The timed-out case is distinguishable from
/// every other failure.
#[derive(Debug)]
pub enum BackendError {
    /// The backend reported a failure, with its description.
    Failed(String),
    /// The call exceeded its timeout.
    TimedOut,
}

impl BackendError {
    /// The failure description carried by this error.
    pub open spec fn message_spec(self) -> Seq<char> {
        match self {
            BackendError::Failed(m) => m@,
            BackendError::TimedOut => "backend call timed out"@,
        }
    }

    /// Render the failure for a per-unit result.
    pub fn message(&self) -> (r: String)
        ensures
            r@ == self.message_spec(),
    {
        match self {
            BackendError::Failed(m) => m.clone(),
            BackendError::TimedOut => {
                let mut r = String::new();
                r.append("backend call timed out");
                r
            },
        }
    }
}

/// The external text-completion capability: accepts a prompt and returns
/// text or a failure.  Implementations live outside this crate.
pub trait CompletionBackend {
    /// One completion call.
    fn complete(&mut self, prompt: &str) -> Result<String, BackendError>;

    /// One completion call bounded by a per-call timeout; a timeout
    /// surfaces as [`BackendError::TimedOut`].
    fn complete_with_timeout(&mut self, prompt: &str, timeout_ms: u64) -> Result<
        String,
        BackendError,
    >;
}

/// Wall-clock capability: reading the current time and waiting, both
/// environment effects that implementations provide from outside.
pub trait Clock {
    /// Milliseconds since an arbitrary fixed origin.
    fn now_ms(&mut self) -> u64;

    /// Block for roughly the given duration.
    fn wait_ms(&mut self, duration_ms: u64);
}

/// Decorates a [`CompletionBackend`], measuring wall-clock duration around
/// every call and recording `(success, duration)` — a pure observation
/// layer.  Orchestrators that want statistics recorded must route every
/// call through it.
pub struct InstrumentedBackend<B, C> {
    pub inner: B,
    pub clock: C,
    pub stats: StatsRecorder,
}

impl<B: CompletionBackend, C: Clock> InstrumentedBackend<B, C> {
    /// Wrap a backend and a clock, starting from empty statistics.
    pub fn new(inner: B, clock: C) -> (r: InstrumentedBackend<B, C>)
        ensures
            r.stats.wf(),
            r.stats.recorded() == Seq::<(bool, u64)>::empty(),
    {
        InstrumentedBackend { inner, clock, stats: StatsRecorder::new() }
    }

    /// Forward `complete` to the wrapped backend and record exactly one
    /// outcome, successful exactly when the call succeeded.
    pub fn complete(&mut self, prompt: &str) -> (r: Result<String, BackendError>)
        requires
            old(self).stats.wf(),
            old(self).stats.recorded().len() < u64::MAX,
        ensures
            final(self).stats.wf(),
            exists|d: u64|
                final(self).stats.recorded() == #[trigger] old(self).stats.recorded().push(
                    (r is Ok, d),
                ),
            final(self).stats.recorded().len() == old(self).stats.recorded().len() + 1,
    {
        let start = self.clock.now_ms();
        let result = self.inner.complete(prompt);
        let end = self.clock.now_ms();
        let duration_ms = if end >= start {
            end - start
        } else {
            0
        };
        self.stats.record(result.is_ok(), duration_ms);
        proof {
            assert(self.stats.recorded() == old(self).stats.recorded().push((
                result is Ok,
                duration_ms,
            )));
        }
        result
    }

    /// Forward `complete_with_timeout`, recording one outcome the same way.
    pub fn complete_with_timeout(&mut self, prompt: &str, timeout_ms: u64) -> (r: Result<
        String,
        BackendError,
    >)
        requires
            old(self).stats.wf(),
            old(self).stats.recorded().len() < u64::MAX,
        ensures
            final(self).stats.wf(),
            exists|d: u64|
                final(self).stats.recorded() == #[trigger] old(self).stats.recorded().push(
                    (r is Ok, d),
                ),
            final(self).stats.recorded().len() == old(self).stats.recorded().len() + 1,
    {
        let start = self.clock.now_ms();
        let result = self.inner.complete_with_timeout(prompt, timeout_ms);
        let end = self.clock.now_ms();
        let duration_ms = if end >= start {
            end - start
        } else {
            0
        };
        self.stats.record(result.is_ok(), duration_ms);
        proof {
            assert(self.stats.recorded() == old(self).stats.recorded().push((
                result is Ok,
                duration_ms,
            )));
        }
        result
    }
}

} // verus!
