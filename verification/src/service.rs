//! The explicit context tying the shared components together.
//!
//! No component here is ambient or global: a [`ServiceContext`] is
//! constructed once, holds the only shared mutable state — the rate
//! limiter's per-client windows and the instrumented backend's statistics —
//! and is passed to every call path.  Each entry point runs the same data
//! flow: admission check, then structural validation, then the chosen
//! orchestrator, with every backend call instrumented and retried.

use vstd::prelude::*;
use vstd::string::StringExecFns;
use crate::backend::{Clock, CompletionBackend, InstrumentedBackend};
use crate::batch::{
    decodable_count, successful_count, BatchOrchestrator, ItemResult, BATCH_CAP, BATCH_CAP_ERROR,
};
use crate::chunk::{
    aggregated_text, chunks_of, ChunkedOrchestrator, ChunkedReport, CHUNK_FAILURE_PLACEHOLDER,
    EMPTY_INPUT_ERROR,
};
use crate::rate_limiter::{prune, RateLimiter};
use crate::retry::{RetryExecutor, RetryOutcome};
use crate::stats::Stats;
use crate::stats::{duration_sum, success_count};
use crate::summary_prompts::SummaryFormat;
use crate::work_items::{work_prompt_view, BatchItem};

verus! {

/// The shared state of one running service: admission control, the
/// instrumented backend, and the retry policy applied to every call.
pub struct ServiceContext<B, C> {
    pub limiter: RateLimiter,
    pub backend: InstrumentedBackend<B, C>,
    pub retry: RetryExecutor,
}

impl<B: CompletionBackend, C: Clock> ServiceContext<B, C> {
    /// Usable configuration and consistent statistics.
    pub open spec fn wf(self) -> bool {
        &&& self.limiter.wf()
        &&& self.retry.wf()
        &&& self.backend.stats.wf()
    }

    /// Whether a call by `client_id` at `now` would be admitted.
    pub open spec fn admits(self, client_id: Seq<char>, now: u64) -> bool {
        prune(self.limiter.window_of(client_id), self.limiter.window_ms(), now).len()
            < self.limiter.max_requests()
    }

    /// What every entry point does to the limiter: the caller's window is
    /// pruned on every check, denials included, and `now` is recorded
    /// exactly on admission; other clients' windows and the configuration
    /// are untouched.
    pub open spec fn limiter_checked(
        pre: ServiceContext<B, C>,
        post: ServiceContext<B, C>,
        client_id: Seq<char>,
        now: u64,
    ) -> bool {
        &&& post.limiter.wf()
        &&& post.limiter.max_requests() == pre.limiter.max_requests()
        &&& post.limiter.window_ms() == pre.limiter.window_ms()
        &&& post.limiter.window_of(client_id) == if pre.admits(client_id, now) {
            prune(pre.limiter.window_of(client_id), pre.limiter.window_ms(), now).push(now)
        } else {
            prune(pre.limiter.window_of(client_id), pre.limiter.window_ms(), now)
        }
        &&& forall|other: Seq<char>|
            other != client_id ==> post.limiter.window_of(other) == pre.limiter.window_of(other)
    }

    /// Assemble a context from its components, constructed once and passed
    /// to every caller.
    pub fn new(limiter: RateLimiter, backend: InstrumentedBackend<B, C>, retry: RetryExecutor) -> (r:
        ServiceContext<B, C>)
        requires
            limiter.wf(),
            retry.wf(),
            backend.stats.wf(),
        ensures
            r.wf(),
            r.limiter == limiter,
            r.backend == backend,
            r.retry == retry,
    {
        ServiceContext { limiter, backend, retry }
    }

    /// The stats and health surface: one consistent observation of the
    /// shared counters.
    pub fn stats_snapshot(&self) -> (r: Stats)
        requires
            self.wf(),
        ensures
            r.total_requests as int == self.backend.stats.recorded().len(),
            r.successful_requests as int == success_count(self.backend.stats.recorded()),
            r.failed_requests as int == self.backend.stats.recorded().len() - success_count(
                self.backend.stats.recorded(),
            ),
            r.average_response_time_ms as int == if self.backend.stats.recorded().len() == 0 {
                0int
            } else {
                duration_sum(self.backend.stats.recorded()) / (
                self.backend.stats.recorded().len() as int)
            },
            r.success_rate_percent as int == if self.backend.stats.recorded().len() == 0 {
                0int
            } else {
                success_count(self.backend.stats.recorded()) * 100 / (
                self.backend.stats.recorded().len() as int)
            },
    {
        self.backend.stats.snapshot()
    }

    /// One rate-limited direct call: admission check, then validation of
    /// the prompt, then one retried, instrumented backend call.
    ///
    /// A denied caller gets `None` and causes no backend call — the denial
    /// still prunes the caller's window.  An admitted empty prompt is
    /// rejected whole before any backend call.
    pub fn complete(&mut self, client_id: &String, now: u64, prompt: &str) -> (r: Option<
        Result<RetryOutcome, String>,
    >)
        requires
            old(self).wf(),
            old(self).backend.stats.recorded().len() + old(self).retry.max_attempts <= u64::MAX,
        ensures
            final(self).wf(),
            final(self).retry == old(self).retry,
            Self::limiter_checked(*old(self), *final(self), client_id@, now),
            r is Some <==> old(self).admits(client_id@, now),
            r is None ==> final(self).backend == old(self).backend,
            (match r {
                Some(checked) => match checked {
                    Err(e) => prompt@.len() == 0 && e@ == EMPTY_INPUT_ERROR@ && final(self).backend == old(self).backend,
                    Ok(outcome) => {
                        &&& prompt@.len() > 0
                        &&& 1 <= outcome.attempts <= old(self).retry.max_attempts
                        &&& outcome.result is Err ==> outcome.attempts == old(self).retry.max_attempts
                        &&& final(self).backend.stats.recorded().len() == old(self).backend.stats.recorded().len() + outcome.attempts
                        &&& success_count(final(self).backend.stats.recorded()) == success_count(
                            old(self).backend.stats.recorded(),
                        ) + if outcome.result is Ok {
                            1int
                        } else {
                            0int
                        }
                    },
                },
                None => true,
            }),
    {
        if !self.limiter.allow(client_id, now) {
            return None;
        }
        if prompt.is_empty() {
            let mut e = String::new();
            e.append(EMPTY_INPUT_ERROR);
            proof {
                assert(e@ =~= EMPTY_INPUT_ERROR@);
            }
            return Some(Err(e));
        }
        Some(Ok(self.retry.execute(&mut self.backend, prompt)))
    }

    /// As [`ServiceContext::complete`], with each backend attempt bounded
    /// by the per-call timeout.
    pub fn complete_with_timeout(
        &mut self,
        client_id: &String,
        now: u64,
        prompt: &str,
        timeout_ms: u64,
    ) -> (r: Option<Result<RetryOutcome, String>>)
        requires
            old(self).wf(),
            old(self).backend.stats.recorded().len() + old(self).retry.max_attempts <= u64::MAX,
        ensures
            final(self).wf(),
            final(self).retry == old(self).retry,
            Self::limiter_checked(*old(self), *final(self), client_id@, now),
            r is Some <==> old(self).admits(client_id@, now),
            r is None ==> final(self).backend == old(self).backend,
            (match r {
                Some(checked) => match checked {
                    Err(e) => prompt@.len() == 0 && e@ == EMPTY_INPUT_ERROR@ && final(self).backend == old(self).backend,
                    Ok(outcome) => {
                        &&& prompt@.len() > 0
                        &&& 1 <= outcome.attempts <= old(self).retry.max_attempts
                        &&& outcome.result is Err ==> outcome.attempts == old(self).retry.max_attempts
                        &&& final(self).backend.stats.recorded().len() == old(self).backend.stats.recorded().len() + outcome.attempts
                        &&& success_count(final(self).backend.stats.recorded()) == success_count(
                            old(self).backend.stats.recorded(),
                        ) + if outcome.result is Ok {
                            1int
                        } else {
                            0int
                        }
                    },
                },
                None => true,
            }),
    {
        if !self.limiter.allow(client_id, now) {
            return None;
        }
        if prompt.is_empty() {
            let mut e = String::new();
            e.append(EMPTY_INPUT_ERROR);
            proof {
                assert(e@ =~= EMPTY_INPUT_ERROR@);
            }
            return Some(Err(e));
        }
        Some(Ok(self.retry.execute_with_timeout(&mut self.backend, prompt, timeout_ms)))
    }

    /// One rate-limited chunked run over an oversized input.  An admitted
    /// empty input fails validation whole, before any backend call.
    pub fn process_chunked(
        &mut self,
        client_id: &String,
        now: u64,
        input: &str,
        chunk_size: usize,
        format: SummaryFormat,
    ) -> (r: Option<Result<ChunkedReport, String>>)
        requires
            old(self).wf(),
            chunk_size >= 1,
            old(self).backend.stats.recorded().len() + chunks_of(
                input@,
                chunk_size as int,
            ).len() * old(self).retry.max_attempts <= u64::MAX,
        ensures
            final(self).wf(),
            final(self).retry == old(self).retry,
            Self::limiter_checked(*old(self), *final(self), client_id@, now),
            r is Some <==> old(self).admits(client_id@, now),
            r is None ==> final(self).backend == old(self).backend,
            (match r {
                Some(checked) => match checked {
                    Err(e) => input@.len() == 0 && e@ == EMPTY_INPUT_ERROR@ && final(self).backend == old(self).backend,
                    Ok(report) => {
                        &&& input@.len() > 0
                        &&& report.results@.len() == chunks_of(input@, chunk_size as int).len()
                        &&& forall|i: int|
                            0 <= i < report.results@.len()
                                ==> (#[trigger] report.results@[i].index) == i
                        &&& forall|i: int|
                            0 <= i < report.results@.len() && !report.results@[i].success
                                ==> (#[trigger] report.results@[i].text)@
                                == CHUNK_FAILURE_PLACEHOLDER@
                        &&& report.aggregated@ == aggregated_text(report.results@)
                        &&& final(self).backend.stats.recorded().len() >= old(self).backend.stats.recorded().len() + report.results@.len()
                        &&& final(self).backend.stats.recorded().len() <= old(self).backend.stats.recorded().len() + report.results@.len() * old(self).retry.max_attempts
                    },
                },
                None => true,
            }),
    {
        if !self.limiter.allow(client_id, now) {
            return None;
        }
        let orchestrator = ChunkedOrchestrator::new(chunk_size, format, self.retry);
        Some(orchestrator.process(input, &mut self.backend))
    }

    /// One rate-limited batch submission.  Admission denial returns `None`;
    /// an admitted but oversized batch is rejected by the orchestrator with
    /// one validation error, zero backend calls, and no item processed.
    pub fn process_batch(&mut self, client_id: &String, now: u64, items: &Vec<BatchItem>) -> (r:
        Option<Result<Vec<ItemResult>, String>>)
        requires
            old(self).wf(),
            old(self).backend.stats.recorded().len() + items@.len() * old(self).retry.max_attempts <= u64::MAX,
        ensures
            final(self).wf(),
            final(self).retry == old(self).retry,
            Self::limiter_checked(*old(self), *final(self), client_id@, now),
            r is Some <==> old(self).admits(client_id@, now),
            r is None ==> final(self).backend == old(self).backend,
            (match r {
                Some(outcome) => {
                    &&& outcome is Err <==> items@.len() > BATCH_CAP
                    &&& (match outcome {
                        Ok(out) => {
                            &&& out@.len() == items@.len()
                            &&& forall|i: int|
                                0 <= i < out@.len() ==> (#[trigger] out@[i].index) == i
                            &&& forall|i: int|
                                0 <= i < out@.len() && work_prompt_view(
                                    items@[i].item_type@,
                                    items@[i].payload@,
                                ) is Err ==> !(#[trigger] out@[i].success)
                            &&& final(self).backend.stats.recorded().len() >= old(self).backend.stats.recorded().len() + decodable_count(items@)
                            &&& final(self).backend.stats.recorded().len() <= old(self).backend.stats.recorded().len() + decodable_count(items@) * old(self).retry.max_attempts
                            &&& success_count(final(self).backend.stats.recorded())
                                == success_count(old(self).backend.stats.recorded())
                                + successful_count(out@)
                        },
                        Err(e) => final(self).backend == old(self).backend && e@
                            == BATCH_CAP_ERROR@,
                    })
                },
                None => true,
            }),
    {
        if !self.limiter.allow(client_id, now) {
            return None;
        }
        let orchestrator = BatchOrchestrator::new(self.retry);
        Some(orchestrator.process(items, &mut self.backend))
    }
}

} // verus!
