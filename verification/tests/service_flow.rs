use prompt_pipeline::backend::{BackendError, Clock, CompletionBackend, InstrumentedBackend};
use prompt_pipeline::rate_limiter::RateLimiter;
use prompt_pipeline::retry::RetryExecutor;
use prompt_pipeline::service::ServiceContext;
use prompt_pipeline::summary_prompts::SummaryFormat;
use prompt_pipeline::work_items::{BatchItem, PayloadField};

struct ScriptedBackend {
    replies: Vec<Result<String, BackendError>>,
    calls: usize,
}

impl CompletionBackend for ScriptedBackend {
    fn complete(&mut self, _prompt: &str) -> Result<String, BackendError> {
        self.calls += 1;
        if self.replies.is_empty() {
            Err(BackendError::Failed(String::from("script exhausted")))
        } else {
            self.replies.remove(0)
        }
    }

    fn complete_with_timeout(
        &mut self,
        prompt: &str,
        _timeout_ms: u64,
    ) -> Result<String, BackendError> {
        self.complete(prompt)
    }
}

struct TestClock;

impl Clock for TestClock {
    fn now_ms(&mut self) -> u64 {
        0
    }

    fn wait_ms(&mut self, _duration_ms: u64) {}
}

fn context(
    max_requests: u64,
    replies: Vec<Result<String, BackendError>>,
) -> ServiceContext<ScriptedBackend, TestClock> {
    ServiceContext::new(
        RateLimiter::new(max_requests, 1000),
        InstrumentedBackend::new(ScriptedBackend { replies, calls: 0 }, TestClock),
        RetryExecutor::new(2, 0),
    )
}

#[test]
fn denied_caller_causes_no_backend_call() {
    let mut service = context(1, vec![Ok(String::from("a")), Ok(String::from("b"))]);
    let client = String::from("alice");
    let first = service.complete(&client, 0, "p");
    assert!(first.expect("admitted").is_ok());
    // The second call inside the window is denied before any backend work.
    let second = service.complete(&client, 10, "p");
    assert!(second.is_none());
    assert_eq!(service.backend.inner.calls, 1);
    assert_eq!(service.stats_snapshot().total_requests, 1);
}

#[test]
fn admitted_chunked_run_flows_through_instrumentation() {
    let mut service = context(
        5,
        vec![Ok(String::from("s1")), Ok(String::from("s2"))],
    );
    let client = String::from("bob");
    let report = service
        .process_chunked(&client, 0, "abcdef", 3, SummaryFormat::ProcessFlow)
        .expect("admitted")
        .expect("non-empty input");
    assert_eq!(report.results.len(), 2);
    assert_eq!(report.aggregated, "Chunk 1: s1\n\nChunk 2: s2");
    assert_eq!(service.stats_snapshot().total_requests, 2);
    assert_eq!(service.stats_snapshot().success_rate_percent, 100);
}

#[test]
fn admitted_batch_is_still_validated_against_the_cap() {
    let mut service = context(5, vec![]);
    let client = String::from("carol");
    let items: Vec<BatchItem> = (0..11)
        .map(|i| BatchItem {
            id: format!("item-{}", i),
            item_type: String::from("highlight_extraction"),
            payload: vec![PayloadField {
                key: String::from("text"),
                value: String::from("t"),
            }],
        })
        .collect();
    let outcome = service.process_batch(&client, 0, &items).expect("admitted");
    assert!(outcome.is_err());
    assert_eq!(service.backend.inner.calls, 0);
}

#[test]
fn timeout_call_path_is_rate_limited_too() {
    let mut service = context(1, vec![Ok(String::from("quick"))]);
    let client = String::from("dave");
    let first = service.complete_with_timeout(&client, 0, "p", 500);
    assert_eq!(
        first.expect("admitted").expect("valid").result.unwrap(),
        "quick"
    );
    let second = service.complete_with_timeout(&client, 1, "p", 500);
    assert!(second.is_none());
    assert_eq!(service.backend.inner.calls, 1);
}

#[test]
fn empty_prompt_is_rejected_after_admission_without_backend_work() {
    let mut service = context(5, vec![Ok(String::from("unused"))]);
    let client = String::from("erin");
    let outcome = service.complete(&client, 0, "").expect("admitted");
    assert_eq!(outcome.unwrap_err(), "required input is empty");
    assert_eq!(service.backend.inner.calls, 0);
    // The admission check still consumed a slot in the caller's window.
    assert!(service.complete(&client, 1, "real prompt").is_some());
}

#[test]
fn empty_document_is_rejected_whole() {
    let mut service = context(5, vec![Ok(String::from("unused"))]);
    let client = String::from("frank");
    let outcome = service
        .process_chunked(&client, 0, "", 3, SummaryFormat::ProcessFlow)
        .expect("admitted");
    assert_eq!(outcome.unwrap_err(), "required input is empty");
    assert_eq!(service.backend.inner.calls, 0);
}
