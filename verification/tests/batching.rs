use prompt_pipeline::backend::{BackendError, Clock, CompletionBackend, InstrumentedBackend};
use prompt_pipeline::batch::{reassemble, BatchOrchestrator, ItemResult, BATCH_CAP_ERROR};
use prompt_pipeline::retry::RetryExecutor;
use prompt_pipeline::work_items::{BatchItem, PayloadField};

struct ScriptedBackend {
    replies: Vec<Result<String, BackendError>>,
    calls: usize,
}

impl CompletionBackend for ScriptedBackend {
    fn complete(&mut self, _prompt: &str) -> Result<String, BackendError> {
        self.calls += 1;
        if self.replies.is_empty() {
            Err(BackendError::Failed(String::from("script exhausted")))
        } else {
            self.replies.remove(0)
        }
    }

    fn complete_with_timeout(
        &mut self,
        prompt: &str,
        _timeout_ms: u64,
    ) -> Result<String, BackendError> {
        self.complete(prompt)
    }
}

struct TestClock;

impl Clock for TestClock {
    fn now_ms(&mut self) -> u64 {
        0
    }

    fn wait_ms(&mut self, _duration_ms: u64) {}
}

fn instrumented(
    replies: Vec<Result<String, BackendError>>,
) -> InstrumentedBackend<ScriptedBackend, TestClock> {
    InstrumentedBackend::new(ScriptedBackend { replies, calls: 0 }, TestClock)
}

fn highlight_item(id: &str, text: &str) -> BatchItem {
    BatchItem {
        id: String::from(id),
        item_type: String::from("highlight_extraction"),
        payload: vec![PayloadField {
            key: String::from("text"),
            value: String::from(text),
        }],
    }
}

#[test]
fn eleven_items_yield_one_validation_error_and_no_backend_calls() {
    let orchestrator = BatchOrchestrator::new(RetryExecutor::new(3, 0));
    let items: Vec<BatchItem> = (0..11)
        .map(|i| highlight_item(&format!("item-{}", i), "some text"))
        .collect();
    let mut backend = instrumented(vec![]);
    let outcome = orchestrator.process(&items, &mut backend);
    match outcome {
        Err(message) => assert_eq!(message, BATCH_CAP_ERROR),
        Ok(_) => panic!("an oversized batch must be rejected"),
    }
    // Zero per-item calls reached the backend.
    assert_eq!(backend.inner.calls, 0);
    assert_eq!(backend.stats.snapshot().total_requests, 0);
}

#[test]
fn ten_items_are_within_the_cap() {
    let orchestrator = BatchOrchestrator::new(RetryExecutor::new(1, 0));
    let items: Vec<BatchItem> = (0..10)
        .map(|i| highlight_item(&format!("item-{}", i), "t"))
        .collect();
    let replies = (0..10).map(|i| Ok(format!("reply-{}", i))).collect();
    let mut backend = instrumented(replies);
    let results = orchestrator.process(&items, &mut backend).unwrap();
    assert_eq!(results.len(), 10);
    assert_eq!(backend.inner.calls, 10);
}

#[test]
fn results_come_back_in_submission_order() {
    let orchestrator = BatchOrchestrator::new(RetryExecutor::new(1, 0));
    let items: Vec<BatchItem> = (0..5)
        .map(|i| highlight_item(&format!("item-{}", i), "t"))
        .collect();
    let replies = (0..5).map(|i| Ok(format!("reply-{}", i))).collect();
    let mut backend = instrumented(replies);
    let results = orchestrator.process(&items, &mut backend).unwrap();
    assert_eq!(results.len(), 5);
    for (i, result) in results.iter().enumerate() {
        assert_eq!(result.index, i);
        assert_eq!(result.id, format!("item-{}", i));
        assert!(result.success);
    }
}

#[test]
fn reassembly_restores_submission_order_from_reverse_completion() {
    // Five results arriving in reverse order of submission still come out
    // ordered by submission index.
    let completed: Vec<ItemResult> = (0..5)
        .rev()
        .map(|i| ItemResult {
            index: i,
            id: format!("item-{}", i),
            success: true,
            data: Some(format!("data-{}", i)),
            error: None,
        })
        .collect();
    assert_eq!(completed[0].index, 4);
    let ordered = reassemble(completed);
    let indices: Vec<usize> = ordered.iter().map(|r| r.index).collect();
    assert_eq!(indices, vec![0, 1, 2, 3, 4]);
    for (i, result) in ordered.iter().enumerate() {
        assert_eq!(result.id, format!("item-{}", i));
        assert_eq!(result.data.as_deref(), Some(format!("data-{}", i).as_str()));
    }
}

#[test]
fn reassembly_handles_shuffled_completion() {
    let order = [2usize, 0, 3, 1];
    let completed: Vec<ItemResult> = order
        .iter()
        .map(|&i| ItemResult {
            index: i,
            id: format!("id-{}", i),
            success: i % 2 == 0,
            data: if i % 2 == 0 { Some(format!("d{}", i)) } else { None },
            error: if i % 2 == 0 { None } else { Some(String::from("e")) },
        })
        .collect();
    let ordered = reassemble(completed);
    for (i, result) in ordered.iter().enumerate() {
        assert_eq!(result.index, i);
        assert_eq!(result.id, format!("id-{}", i));
    }
}

#[test]
fn undecodable_item_fails_alone_without_a_backend_call() {
    let orchestrator = BatchOrchestrator::new(RetryExecutor::new(1, 0));
    let items = vec![
        highlight_item("good-1", "alpha"),
        BatchItem {
            id: String::from("bad"),
            item_type: String::from("highlight_extraction"),
            // Wrong shape: the highlight handler requires a `text` field.
            payload: vec![PayloadField {
                key: String::from("body"),
                value: String::from("beta"),
            }],
        },
        highlight_item("good-2", "gamma"),
    ];
    let mut backend = instrumented(vec![Ok(String::from("r1")), Ok(String::from("r2"))]);
    let results = orchestrator.process(&items, &mut backend).unwrap();
    // Only the two decodable items reached the backend.
    assert_eq!(backend.inner.calls, 2);
    assert_eq!(results.len(), 3);
    assert!(results[0].success);
    assert_eq!(results[0].data.as_deref(), Some("r1"));
    assert!(results[0].error.is_none());
    assert!(!results[1].success);
    assert!(results[1].data.is_none());
    assert_eq!(
        results[1].error.as_deref(),
        Some("missing required field: text")
    );
    assert!(results[2].success);
    assert_eq!(results[2].data.as_deref(), Some("r2"));
}

#[test]
fn unknown_item_type_is_an_item_level_error() {
    let orchestrator = BatchOrchestrator::new(RetryExecutor::new(1, 0));
    let items = vec![BatchItem {
        id: String::from("odd"),
        item_type: String::from("telepathy"),
        payload: vec![],
    }];
    let mut backend = instrumented(vec![]);
    let results = orchestrator.process(&items, &mut backend).unwrap();
    assert_eq!(backend.inner.calls, 0);
    assert!(!results[0].success);
    assert_eq!(results[0].error.as_deref(), Some("unknown work item type"));
}

#[test]
fn backend_failure_surfaces_as_item_error_after_retries() {
    let orchestrator = BatchOrchestrator::new(RetryExecutor::new(2, 0));
    let items = vec![highlight_item("only", "text")];
    let mut backend = instrumented(vec![
        Err(BackendError::Failed(String::from("transient"))),
        Err(BackendError::Failed(String::from("persistent"))),
    ]);
    let results = orchestrator.process(&items, &mut backend).unwrap();
    // Both attempts were spent, and the last error is the one surfaced.
    assert_eq!(backend.inner.calls, 2);
    assert!(!results[0].success);
    assert!(results[0].data.is_none());
    assert_eq!(results[0].error.as_deref(), Some("persistent"));
}

#[test]
fn duplicate_ids_are_passed_through() {
    let orchestrator = BatchOrchestrator::new(RetryExecutor::new(1, 0));
    let items = vec![highlight_item("twin", "a"), highlight_item("twin", "b")];
    let mut backend = instrumented(vec![Ok(String::from("ra")), Ok(String::from("rb"))]);
    let results = orchestrator.process(&items, &mut backend).unwrap();
    assert_eq!(results[0].id, "twin");
    assert_eq!(results[1].id, "twin");
    assert_eq!(results[0].data.as_deref(), Some("ra"));
    assert_eq!(results[1].data.as_deref(), Some("rb"));
}
