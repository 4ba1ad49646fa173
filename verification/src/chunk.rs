//! Chunk-and-reassemble processing of oversized inputs.
//!
//! An oversized input is divided into contiguous chunks of exactly
//! `chunk_size` characters each, except the final chunk, which holds the
//! remainder; splitting goes by raw character count, not by word or
//! sentence boundary.  Each chunk is summarized through one retried,
//! instrumented backend call, in ordinal order; one chunk's failure leaves
//! a placeholder at its position and never aborts the pipeline.  The
//! aggregation concatenates per-chunk results in ordinal order, each
//! prefixed with its 1-based ordinal label and separated by a blank line.

use vstd::prelude::*;
use vstd::string::{StrSliceExecFns, StringExecFns};
use vstd::arithmetic::mul::{lemma_mul_basics, lemma_mul_is_distributive_add_other_way};
use crate::backend::{Clock, CompletionBackend, InstrumentedBackend};
use crate::decimal::{append_decimal, decimal_digits};
use crate::retry::RetryExecutor;
use crate::summary_prompts::{chunk_summary_prompt_for, SummaryFormat};

verus! {

/// The chunks of `input`: contiguous slices of exactly `size` characters,
/// except the final one, which holds the remainder.
pub open spec fn chunks_of(input: Seq<char>, size: int) -> Seq<Seq<char>>
    decreases input.len(),
    when size >= 1
{
    if input.len() == 0 {
        Seq::empty()
    } else if input.len() <= size {
        seq![input]
    } else {
        seq![input.take(size)] + chunks_of(input.skip(size), size)
    }
}

/// The chunks joined back together, in order.
pub open spec fn concat_chunks(chunks: Seq<Seq<char>>) -> Seq<char>
    decreases chunks.len(),
{
    if chunks.len() == 0 {
        Seq::empty()
    } else {
        chunks[0] + concat_chunks(chunks.drop_first())
    }
}

/// Splitting loses and duplicates nothing: concatenating the chunks, in
/// order, reconstructs the original input exactly.
pub proof fn lemma_chunks_reassemble(input: Seq<char>, size: int)
    requires
        size >= 1,
    ensures
        concat_chunks(chunks_of(input, size)) == input,
    decreases input.len(),
{
    if input.len() == 0 {
        assert(concat_chunks(chunks_of(input, size)) =~= input);
    } else if input.len() <= size {
        let cs = chunks_of(input, size);
        assert(cs =~= seq![input]);
        assert(cs.drop_first() =~= Seq::<Seq<char>>::empty());
        assert(concat_chunks(cs.drop_first()) =~= Seq::<char>::empty());
        assert(concat_chunks(cs) =~= input);
    } else {
        lemma_chunks_reassemble(input.skip(size), size);
        let cs = chunks_of(input, size);
        assert(cs.drop_first() =~= chunks_of(input.skip(size), size));
        assert(cs[0] == input.take(size));
        assert(concat_chunks(cs) =~= input.take(size) + input.skip(size));
        assert(input.take(size) + input.skip(size) =~= input);
    }
}

/// Every chunk but the last holds exactly `size` characters, and the last
/// holds between one and `size`.
pub proof fn lemma_chunks_shape(input: Seq<char>, size: int)
    requires
        size >= 1,
    ensures
        forall|i: int|
            0 <= i < chunks_of(input, size).len() - 1 ==> #[trigger] chunks_of(input, size)[i].len()
                == size,
        input.len() > 0 ==> 1 <= chunks_of(input, size).last().len() <= size,
        chunks_of(input, size).len() == 0 <==> input.len() == 0,
    decreases input.len(),
{
    if input.len() > size {
        lemma_chunks_shape(input.skip(size), size);
        let cs = chunks_of(input, size);
        let rest = chunks_of(input.skip(size), size);
        assert(cs.drop_first() =~= rest);
        assert forall|i: int| 0 <= i < cs.len() - 1 implies #[trigger] cs[i].len() == size by {
            if i > 0 {
                assert(cs[i] == rest[i - 1]);
            }
        }
        assert(cs.last() == rest.last());
    }
}

/// Split `input` into chunks of `chunk_size` characters, the final chunk
/// holding the remainder.
pub fn split_into_chunks(input: &str, chunk_size: usize) -> (chunks: Vec<String>)
    requires
        chunk_size >= 1,
    ensures
        chunks@.len() == chunks_of(input@, chunk_size as int).len(),
        forall|i: int|
            0 <= i < chunks@.len() ==> chunks@[i]@ == chunks_of(input@, chunk_size as int)[i],
{
    let ghost size = chunk_size as int;
    let ghost target = chunks_of(input@, size);
    let total = input.unicode_len();
    let mut chunks: Vec<String> = Vec::new();
    let mut start: usize = 0;
    proof {
        assert(input@.skip(0) =~= input@);
        assert(target.skip(0) =~= target);
    }
    while start < total
        invariant
            chunk_size >= 1,
            size == chunk_size as int,
            target == chunks_of(input@, size),
            total == input@.len(),
            start <= total,
            chunks@.len() <= target.len(),
            forall|j: int| 0 <= j < chunks@.len() ==> chunks@[j]@ == target[j],
            chunks_of(input@.skip(start as int), size) == target.skip(chunks@.len() as int),
        decreases total - start,
    {
        let ghost k = chunks@.len() as int;
        let ghost rem = input@.skip(start as int);
        let remaining = total - start;
        let end = if remaining > chunk_size {
            start + chunk_size
        } else {
            total
        };
        proof {
            assert(rem.len() == total - start);
            assert(chunks_of(rem, size).len() > 0);
            assert(k < target.len());
            assert(target.skip(k)[0] == target[k]);
            assert(target.skip(k).drop_first() =~= target.skip(k + 1));
            if rem.len() <= size {
                assert(chunks_of(rem, size) == seq![rem]);
                assert(rem =~= input@.subrange(start as int, end as int));
                assert(input@.skip(end as int) =~= Seq::<char>::empty());
                assert(chunks_of(input@.skip(end as int), size) =~= Seq::<Seq<char>>::empty());
                assert(target.skip(k + 1) =~= Seq::<Seq<char>>::empty());
            } else {
                assert(chunks_of(rem, size) == seq![rem.take(size)] + chunks_of(
                    rem.skip(size),
                    size,
                ));
                assert(rem.take(size) =~= input@.subrange(start as int, end as int));
                assert(rem.skip(size) =~= input@.skip(end as int));
                assert((seq![rem.take(size)] + chunks_of(rem.skip(size), size)).drop_first()
                    =~= chunks_of(rem.skip(size), size));
            }
            assert(target[k] == input@.subrange(start as int, end as int));
            assert(chunks_of(input@.skip(end as int), size) =~= target.skip(k + 1));
        }
        let piece = input.substring_char(start, end);
        chunks.push(piece.to_owned());
        start = end;
    }
    proof {
        assert(input@.skip(total as int) =~= Seq::<char>::empty());
        assert(chunks_of(Seq::<char>::empty(), size) =~= Seq::<Seq<char>>::empty());
        assert(target.skip(chunks@.len() as int).len() == 0);
    }
    chunks
}

/// Text standing in for the result of a chunk whose backend call failed.
pub const CHUNK_FAILURE_PLACEHOLDER: &'static str = "processing failed";

/// Error text for a request whose required input text is empty.
pub const EMPTY_INPUT_ERROR: &'static str = "required input is empty";

/// The recorded outcome of one chunk: its ordinal position, whether its
/// backend call succeeded, and the reply text — or the failure placeholder.
#[derive(Debug)]
pub struct ChunkOutcome {
    pub index: usize,
    pub success: bool,
    pub text: String,
}

/// The 1-based ordinal label prefixed to one chunk's result.
pub open spec fn ordinal_label(ordinal: nat) -> Seq<char> {
    "Chunk "@ + decimal_digits(ordinal) + ": "@
}

/// Per-chunk results concatenated in ordinal order, each prefixed with its
/// 1-based ordinal label, separated by a blank line.
pub open spec fn aggregated_text(results: Seq<ChunkOutcome>) -> Seq<char>
    decreases results.len(),
{
    if results.len() == 0 {
        Seq::empty()
    } else {
        aggregated_text(results.drop_last()) + (if results.len() == 1 {
            Seq::<char>::empty()
        } else {
            "\n\n"@
        }) + ordinal_label(results.len() as nat) + results.last().text@
    }
}

/// Join per-chunk results into the aggregated response text.
pub fn aggregate_results(results: &Vec<ChunkOutcome>) -> (r: String)
    ensures
        r@ == aggregated_text(results@),
{
    let mut out = String::new();
    let mut i: usize = 0;
    proof {
        assert(results@.take(0) =~= Seq::<ChunkOutcome>::empty());
    }
    while i < results.len()
        invariant
            i <= results@.len(),
            out@ == aggregated_text(results@.take(i as int)),
        decreases results@.len() - i,
    {
        if i > 0 {
            out.append("\n\n");
        }
        out.append("Chunk ");
        append_decimal(&mut out, (i as u64) + 1);
        out.append(": ");
        out.append(results[i].text.as_str());
        proof {
            let done = results@.take(i as int + 1);
            assert(done.drop_last() =~= results@.take(i as int));
            assert(done.last() == results@[i as int]);
            assert(out@ =~= aggregated_text(done));
        }
        i = i + 1;
    }
    proof {
        assert(results@.take(results@.len() as int) =~= results@);
    }
    out
}

/// Splits an oversized input, drives one retried backend call per chunk in
/// ordinal order, and reassembles results in that order, isolating
/// per-chunk failure.
pub struct ChunkedOrchestrator {
    pub chunk_size: usize,
    pub format: SummaryFormat,
    pub retry: RetryExecutor,
}

/// The outcome of one chunked run: per-chunk outcomes in ordinal order and
/// the aggregated response text.
#[derive(Debug)]
pub struct ChunkedReport {
    pub results: Vec<ChunkOutcome>,
    pub aggregated: String,
}

impl ChunkedOrchestrator {
    /// Positive chunk size, and a usable retry policy.
    pub open spec fn wf(self) -> bool {
        self.chunk_size >= 1 && self.retry.wf()
    }

    /// An orchestrator splitting at `chunk_size` characters, summarizing
    /// under `format`, and retrying each chunk under `retry`.
    pub fn new(chunk_size: usize, format: SummaryFormat, retry: RetryExecutor) -> (r:
        ChunkedOrchestrator)
        requires
            chunk_size >= 1,
            retry.wf(),
        ensures
            r.wf(),
            r.chunk_size == chunk_size,
            r.format == format,
            r.retry == retry,
    {
        ChunkedOrchestrator { chunk_size, format, retry }
    }

    /// Process one oversized input end to end.
    ///
    /// An empty input fails structural validation before any work begins:
    /// the whole request is rejected and the backend is untouched.
    /// Otherwise one result is produced per chunk, at the chunk's ordinal
    /// index, whatever each backend call did; a failed chunk yields the
    /// failure placeholder at its position while the remaining chunks are
    /// still processed.  The aggregated text is exactly the ordinal-ordered
    /// aggregation of the per-chunk results, and every chunk spends between
    /// one and `max_attempts` recorded backend calls.
    pub fn process<B: CompletionBackend, C: Clock>(
        &self,
        input: &str,
        backend: &mut InstrumentedBackend<B, C>,
    ) -> (r: Result<ChunkedReport, String>)
        requires
            self.wf(),
            old(backend).stats.wf(),
            old(backend).stats.recorded().len() + chunks_of(
                input@,
                self.chunk_size as int,
            ).len() * self.retry.max_attempts <= u64::MAX,
        ensures
            final(backend).stats.wf(),
            r is Err <==> input@.len() == 0,
            r is Err ==> *final(backend) == *old(backend) && r->Err_0@ == EMPTY_INPUT_ERROR@,
            (match r {
                Ok(report) => {
                    &&& report.results@.len() == chunks_of(input@, self.chunk_size as int).len()
                    &&& forall|i: int|
                        0 <= i < report.results@.len() ==> #[trigger] report.results@[i].index
                            == i
                    &&& forall|i: int|
                        0 <= i < report.results@.len() && !report.results@[i].success
                            ==> #[trigger] report.results@[i].text@ == CHUNK_FAILURE_PLACEHOLDER@
                    &&& report.aggregated@ == aggregated_text(report.results@)
                    &&& final(backend).stats.recorded().len() >= old(
                        backend,
                    ).stats.recorded().len() + report.results@.len()
                    &&& final(backend).stats.recorded().len() <= old(
                        backend,
                    ).stats.recorded().len() + report.results@.len() * self.retry.max_attempts
                },
                Err(_) => true,
            }),
    {
        if input.is_empty() {
            let mut e = String::new();
            e.append(EMPTY_INPUT_ERROR);
            proof {
                assert(e@ =~= EMPTY_INPUT_ERROR@);
            }
            return Err(e);
        }
        let ghost m = self.retry.max_attempts as int;
        let chunks = split_into_chunks(input, self.chunk_size);
        let ghost n = chunks@.len() as int;
        let mut results: Vec<ChunkOutcome> = Vec::new();
        let mut i: usize = 0;
        proof {
            lemma_mul_basics(m);
        }
        while i < chunks.len()
            invariant
                self.wf(),
                m == self.retry.max_attempts as int,
                n == chunks@.len() as int,
                i <= chunks@.len(),
                results@.len() == i,
                forall|j: int| 0 <= j < i ==> #[trigger] results@[j].index == j,
                forall|j: int|
                    0 <= j < i && !results@[j].success ==> #[trigger] results@[j].text@
                        == CHUNK_FAILURE_PLACEHOLDER@,
                backend.stats.wf(),
                backend.stats.recorded().len() >= old(backend).stats.recorded().len() + i,
                backend.stats.recorded().len() <= old(backend).stats.recorded().len() + i * m,
                backend.stats.recorded().len() + (n - i) * m <= u64::MAX,
            decreases chunks@.len() - i,
        {
            proof {
                lemma_mul_is_distributive_add_other_way(m, n - i - 1, 1);
                assert((n - i) * m == (n - i - 1) * m + m);
            }
            let prompt = chunk_summary_prompt_for(&self.format, chunks[i].as_str());
            let ghost before = backend.stats.recorded().len() as int;
            let outcome = self.retry.execute(backend, prompt.as_str());
            let result = match outcome.result {
                Ok(text) => ChunkOutcome { index: i, success: true, text },
                Err(_) => {
                    let mut placeholder = String::new();
                    placeholder.append(CHUNK_FAILURE_PLACEHOLDER);
                    proof {
                        assert(placeholder@ =~= CHUNK_FAILURE_PLACEHOLDER@);
                    }
                    ChunkOutcome { index: i, success: false, text: placeholder }
                },
            };
            results.push(result);
            proof {
                lemma_mul_is_distributive_add_other_way(m, i as int, 1);
                assert((i as int + 1) * m == i as int * m + m);
            }
            i = i + 1;
        }
        let aggregated = aggregate_results(&results);
        Ok(ChunkedReport { results, aggregated })
    }
}

} // verus!
