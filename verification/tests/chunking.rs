use prompt_pipeline::backend::{BackendError, Clock, CompletionBackend, InstrumentedBackend};
use prompt_pipeline::chunk::{
    aggregate_results, split_into_chunks, ChunkedOrchestrator, CHUNK_FAILURE_PLACEHOLDER,
    ChunkOutcome,
};
use prompt_pipeline::retry::RetryExecutor;
use prompt_pipeline::summary_prompts::SummaryFormat;

struct ScriptedBackend {
    replies: Vec<Result<String, BackendError>>,
    calls: usize,
    prompts: Vec<String>,
}

impl CompletionBackend for ScriptedBackend {
    fn complete(&mut self, prompt: &str) -> Result<String, BackendError> {
        self.calls += 1;
        self.prompts.push(String::from(prompt));
        if self.replies.is_empty() {
            Err(BackendError::Failed(String::from("script exhausted")))
        } else {
            self.replies.remove(0)
        }
    }

    fn complete_with_timeout(
        &mut self,
        prompt: &str,
        _timeout_ms: u64,
    ) -> Result<String, BackendError> {
        self.complete(prompt)
    }
}

struct TestClock;

impl Clock for TestClock {
    fn now_ms(&mut self) -> u64 {
        0
    }

    fn wait_ms(&mut self, _duration_ms: u64) {}
}

fn instrumented(
    replies: Vec<Result<String, BackendError>>,
) -> InstrumentedBackend<ScriptedBackend, TestClock> {
    InstrumentedBackend::new(
        ScriptedBackend { replies, calls: 0, prompts: Vec::new() },
        TestClock,
    )
}

#[test]
fn splitting_twelve_thousand_units_gives_three_chunks() {
    let input = "ab".repeat(6000);
    let chunks = split_into_chunks(&input, 5000);
    assert_eq!(chunks.len(), 3);
    assert_eq!(chunks[0].chars().count(), 5000);
    assert_eq!(chunks[1].chars().count(), 5000);
    assert_eq!(chunks[2].chars().count(), 2000);
    // Concatenating the chunks reconstructs the input with no loss or
    // duplication.
    let rejoined: String = chunks.concat();
    assert_eq!(rejoined, input);
}

#[test]
fn splitting_an_exact_multiple_leaves_no_partial_chunk() {
    let chunks = split_into_chunks("abcdef", 3);
    assert_eq!(chunks, vec![String::from("abc"), String::from("def")]);
}

#[test]
fn splitting_an_empty_input_gives_no_chunks() {
    let chunks = split_into_chunks("", 10);
    assert!(chunks.is_empty());
}

#[test]
fn splitting_goes_by_character_count() {
    // Multi-byte characters count as single units.
    let chunks = split_into_chunks("ééééé", 2);
    assert_eq!(
        chunks,
        vec![String::from("éé"), String::from("éé"), String::from("é")]
    );
}

#[test]
fn aggregation_labels_chunks_with_ordinals() {
    let results = vec![
        ChunkOutcome { index: 0, success: true, text: String::from("alpha") },
        ChunkOutcome { index: 1, success: true, text: String::from("beta") },
    ];
    assert_eq!(
        aggregate_results(&results),
        "Chunk 1: alpha\n\nChunk 2: beta"
    );
}

#[test]
fn aggregation_of_one_chunk_has_no_separator() {
    let results = vec![ChunkOutcome { index: 0, success: true, text: String::from("only") }];
    assert_eq!(aggregate_results(&results), "Chunk 1: only");
}

#[test]
fn failed_chunk_leaves_placeholder_and_pipeline_continues() {
    let orchestrator = ChunkedOrchestrator::new(
        4,
        SummaryFormat::ProcessFlow,
        RetryExecutor::new(1, 0),
    );
    let mut backend = instrumented(vec![
        Ok(String::from("first summary")),
        Err(BackendError::Failed(String::from("flaky"))),
        Ok(String::from("third summary")),
    ]);
    let report = orchestrator
        .process("aaaabbbbcc", &mut backend)
        .expect("non-empty input");
    // All three chunks were processed despite the middle failure.
    assert_eq!(backend.inner.calls, 3);
    assert_eq!(report.results.len(), 3);
    assert!(report.results[0].success);
    assert!(!report.results[1].success);
    assert!(report.results[2].success);
    assert_eq!(report.results[1].text, CHUNK_FAILURE_PLACEHOLDER);
    assert_eq!(
        report.aggregated,
        "Chunk 1: first summary\n\nChunk 2: processing failed\n\nChunk 3: third summary"
    );
}

#[test]
fn chunk_prompts_embed_each_chunk_in_the_selected_template() {
    let orchestrator = ChunkedOrchestrator::new(
        3,
        SummaryFormat::SwotAnalysis,
        RetryExecutor::new(1, 0),
    );
    let mut backend = instrumented(vec![Ok(String::from("x")), Ok(String::from("y"))]);
    let _ = orchestrator
        .process("abcdef", &mut backend)
        .expect("non-empty input");
    assert_eq!(backend.inner.prompts.len(), 2);
    assert!(backend.inner.prompts[0].contains("abc"));
    assert!(backend.inner.prompts[1].contains("def"));
    assert!(backend.inner.prompts[0].contains("SWOT"));
}

#[test]
fn chunk_failures_and_successes_feed_the_statistics() {
    let orchestrator = ChunkedOrchestrator::new(
        2,
        SummaryFormat::DialogCondensation,
        RetryExecutor::new(2, 0),
    );
    let mut backend = instrumented(vec![
        Ok(String::from("s1")),
        Err(BackendError::Failed(String::from("e1"))),
        Err(BackendError::Failed(String::from("e2"))),
    ]);
    // Two chunks: the first succeeds on its first attempt, the second
    // fails both its attempts.
    let report = orchestrator
        .process("aabb", &mut backend)
        .expect("non-empty input");
    assert_eq!(report.results.len(), 2);
    assert!(report.results[0].success);
    assert!(!report.results[1].success);
    let snap = backend.stats.snapshot();
    assert_eq!(snap.total_requests, 3);
    assert_eq!(snap.successful_requests, 1);
    assert_eq!(snap.failed_requests, 2);
}

#[test]
fn empty_input_is_rejected_before_any_backend_call() {
    let orchestrator = ChunkedOrchestrator::new(
        4,
        SummaryFormat::ProcessFlow,
        RetryExecutor::new(1, 0),
    );
    let mut backend = instrumented(vec![Ok(String::from("never used"))]);
    let outcome = orchestrator.process("", &mut backend);
    assert_eq!(outcome.unwrap_err(), "required input is empty");
    assert_eq!(backend.inner.calls, 0);
}
