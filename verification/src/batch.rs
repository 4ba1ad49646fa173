//! Order-preserving batch fan-out with per-item failure isolation.
//!
//! A bounded set of heterogeneous, independent work items is validated
//! against the batch cap, decoded and driven through retried, instrumented
//! backend calls, and answered with one result per item, reordered to match
//! original submission order whatever the completion order was.  A decode
//! failure is isolated to its item and costs no backend call; an oversized
//! batch is rejected whole, with no item processed.

use vstd::prelude::*;
use vstd::string::StringExecFns;
use vstd::pervasive::unreached;
use vstd::arithmetic::mul::{lemma_mul_basics, lemma_mul_is_distributive_add_other_way};
use crate::backend::{Clock, CompletionBackend, InstrumentedBackend};
use crate::retry::RetryExecutor;
use crate::stats::success_count;
use crate::work_items::{work_prompt, work_prompt_view, BatchItem};

verus! {

/// The uniform response for one batch item: its submission index and id,
/// whether it succeeded, and the reply or the error, never both.
#[derive(Debug)]
pub struct ItemResult {
    pub index: usize,
    pub id: String,
    pub success: bool,
    pub data: Option<String>,
    pub error: Option<String>,
}

/// Error text for a submission over the batch cap.
pub const BATCH_CAP_ERROR: &'static str = "batch size exceeds the cap";

/// How many items a batch may carry.
pub const BATCH_CAP: usize = 10;

/// Number of items whose payload decodes, so that a backend call is owed.
pub open spec fn decodable_count(items: Seq<BatchItem>) -> int
    decreases items.len(),
{
    if items.len() == 0 {
        0
    } else {
        decodable_count(items.drop_last()) + if work_prompt_view(
            items.last().item_type@,
            items.last().payload@,
        ) is Ok {
            1int
        } else {
            0int
        }
    }
}

/// Number of results reporting success.
pub open spec fn successful_count(results: Seq<ItemResult>) -> int
    decreases results.len(),
{
    if results.len() == 0 {
        0
    } else {
        successful_count(results.drop_last()) + if results.last().success {
            1int
        } else {
            0int
        }
    }
}

/// At most every item is decodable, and never fewer than none.
pub proof fn lemma_decodable_count_bounds(items: Seq<BatchItem>)
    ensures
        0 <= decodable_count(items) <= items.len(),
    decreases items.len(),
{
    if items.len() > 0 {
        lemma_decodable_count_bounds(items.drop_last());
    }
}

/// Some submitted result carries index `k`.
pub open spec fn covers_index(results: Seq<ItemResult>, k: int) -> bool {
    exists|j: int| 0 <= j < results.len() && (#[trigger] results[j].index) == k
}

/// Reorder results collected in arbitrary completion order back into
/// submission order.
///
/// The indices carried by `results` must form a permutation of the
/// positions `0..len`; the returned sequence holds every result at its own
/// index.  This is the central ordering invariant of the batch pipeline:
/// results may be collected as units complete, yet the caller always sees
/// submission order.
pub fn reassemble(results: Vec<ItemResult>) -> (r: Vec<ItemResult>)
    requires
        forall|j: int|
            0 <= j < results@.len() ==> (#[trigger] results@[j].index) < results@.len(),
        forall|j1: int, j2: int|
            0 <= j1 < j2 < results@.len() ==> results@[j1].index != results@[j2].index,
        forall|k: int| 0 <= k < results@.len() ==> #[trigger] covers_index(results@, k),
    ensures
        r@.len() == results@.len(),
        forall|j: int|
            0 <= j < results@.len() ==> r@[(#[trigger] results@[j].index) as int] == results@[j],
        forall|i: int| 0 <= i < r@.len() ==> (#[trigger] r@[i].index) == i,
{
    let ghost original = results@;
    let n = results.len();
    let mut slots: Vec<Option<ItemResult>> = Vec::new();
    let mut i: usize = 0;
    while i < n
        invariant
            i <= n,
            slots@.len() == i,
            forall|k: int| 0 <= k < i ==> (#[trigger] slots@[k]) is None,
        decreases n - i,
    {
        slots.push(None);
        i = i + 1;
    }
    let mut pending = results;
    while pending.len() > 0
        invariant
            n == original.len(),
            slots@.len() == n,
            pending@.len() <= n,
            pending@ == original.take(pending@.len() as int),
            forall|j: int| 0 <= j < n ==> (#[trigger] original[j].index) < n,
            forall|j1: int, j2: int|
                0 <= j1 < j2 < n ==> original[j1].index != original[j2].index,
            forall|k: int|
                0 <= k < n && (#[trigger] slots@[k]) is Some ==> exists|j: int|
                    pending@.len() <= j < n && (#[trigger] original[j].index) == k && slots@[k]
                        == Some(original[j]),
            forall|k: int, j: int|
                0 <= k < n && (#[trigger] slots@[k]) is None && pending@.len() <= j < n
                    ==> (#[trigger] original[j].index) != k,
        decreases pending@.len(),
    {
        let ghost p = pending@.len() as int;
        let item = match pending.pop() {
            Some(item) => item,
            None => unreached(),
        };
        proof {
            assert(original.take(p).last() == original[p - 1]);
            assert(original.take(p).drop_last() =~= original.take(p - 1));
            assert(item == original[p - 1]);
        }
        let idx = item.index;
        slots[idx] = Some(item);
        proof {
            assert forall|k: int|
                0 <= k < n && (#[trigger] slots@[k]) is Some implies exists|j: int|
                pending@.len() <= j < n && (#[trigger] original[j].index) == k && slots@[k]
                    == Some(original[j]) by {
                if k == idx as int {
                    assert(original[p - 1].index == k && slots@[k] == Some(original[p - 1]));
                }
            }
        }
    }
    let ghost filled = slots@;
    let mut out: Vec<ItemResult> = Vec::new();
    let mut taken: usize = 0;
    proof {
        assert(filled.skip(0) =~= filled);
    }
    while out.len() < n
        invariant
            n == original.len(),
            out@.len() == taken <= n,
            slots@ =~= filled.skip(taken as int),
            filled.len() == n,
            forall|k: int| 0 <= k < taken ==> filled[k] == Some(#[trigger] out@[k]),
            forall|k: int|
                0 <= k < n && (#[trigger] filled[k]) is Some ==> exists|j: int|
                    0 <= j < n && (#[trigger] original[j].index) == k && filled[k] == Some(
                        original[j],
                    ),
            forall|k: int, j: int|
                0 <= k < n && (#[trigger] filled[k]) is None && 0 <= j < n
                    ==> (#[trigger] original[j].index) != k,
            forall|k: int| 0 <= k < n ==> #[trigger] covers_index(original, k),
        decreases n - out@.len(),
    {
        proof {
            // The slot at `taken` was filled: its position has a witness
            // among the submitted indices, so it cannot be empty.
            let k = taken as int;
            if filled[k] is None {
                assert(covers_index(original, k));
                let j = choose|j: int|
                    0 <= j < original.len() && (#[trigger] original[j].index) == k;
                assert(original[j].index == k);
            }
            assert(slots@[0] == filled[taken as int]);
        }
        let slot = slots.remove(0);
        match slot {
            Some(x) => {
                out.push(x);
            },
            None => {
                proof {
                    assert(false);
                }
            },
        }
        taken = taken + 1;
        proof {
            assert(slots@ =~= filled.skip(taken as int));
        }
    }
    proof {
        assert forall|j: int| 0 <= j < original.len() implies out@[(#[trigger] original[j].index)
            as int] == original[j] by {
            let k = original[j].index as int;
            assert(filled[k] == Some(out@[k]));
            let j2 = choose|j2: int|
                0 <= j2 < n && (#[trigger] original[j2].index) == k && filled[k] == Some(
                    original[j2],
                );
            assert(original[j2] == out@[k]);
            if j2 != j {
                assert(original[j].index != original[j2].index);
            }
        }
        assert forall|i: int| 0 <= i < out@.len() implies (#[trigger] out@[i].index) == i by {
            assert(covers_index(original, i));
            let j = choose|j: int|
                0 <= j < original.len() && (#[trigger] original[j].index) == i;
            assert(out@[(original[j].index) as int] == original[j]);
        }
    }
    out
}

/// Fans out a bounded batch of independent work items, isolating per-item
/// failure, and answers in submission order.
pub struct BatchOrchestrator {
    pub cap: usize,
    pub retry: RetryExecutor,
}

impl BatchOrchestrator {
    /// A usable retry policy, and the cap the design fixes.
    pub open spec fn wf(self) -> bool {
        self.retry.wf() && self.cap == BATCH_CAP
    }

    /// An orchestrator accepting at most [`BATCH_CAP`] items per batch and
    /// retrying each backend call under `retry`.
    pub fn new(retry: RetryExecutor) -> (r: BatchOrchestrator)
        requires
            retry.wf(),
        ensures
            r.wf(),
            r.cap == BATCH_CAP,
            r.retry == retry,
    {
        BatchOrchestrator { cap: BATCH_CAP, retry }
    }

    /// Process one batch submission.
    ///
    /// A submission over the cap is rejected whole: one validation error,
    /// zero backend calls, no item processed.  Otherwise every item gets
    /// exactly one result, at its submission index and carrying its id; an
    /// item whose payload does not decode reports that decode error and
    /// costs no backend call, while its siblings proceed; a decoded item's
    /// success or failure follows its retried backend call.  Each decoded
    /// item spends between one and `max_attempts` recorded backend calls.
    pub fn process<B: CompletionBackend, C: Clock>(
        &self,
        items: &Vec<BatchItem>,
        backend: &mut InstrumentedBackend<B, C>,
    ) -> (r: Result<Vec<ItemResult>, String>)
        requires
            self.wf(),
            old(backend).stats.wf(),
            old(backend).stats.recorded().len() + items@.len() * self.retry.max_attempts
                <= u64::MAX,
        ensures
            final(backend).stats.wf(),
            r is Err <==> items@.len() > self.cap,
            r is Err ==> *final(backend) == *old(backend) && r->Err_0@ == BATCH_CAP_ERROR@,
            (match r {
                Ok(out) => {
                    &&& out@.len() == items@.len()
                    &&& forall|i: int| 0 <= i < out@.len() ==> (#[trigger] out@[i].index) == i
                    &&& forall|i: int|
                        0 <= i < out@.len() ==> (#[trigger] out@[i].id)@ == items@[i].id@
                    &&& forall|i: int|
                        0 <= i < out@.len() && work_prompt_view(
                            items@[i].item_type@,
                            items@[i].payload@,
                        ) is Err ==> !(#[trigger] out@[i].success) && (out@[i].error matches
                        Some(e) && e@ == work_prompt_view(
                            items@[i].item_type@,
                            items@[i].payload@,
                        )->Err_0)
                    &&& forall|i: int|
                        0 <= i < out@.len() && (#[trigger] out@[i].success) ==> out@[i].data
                            is Some && out@[i].error is None
                    &&& forall|i: int|
                        0 <= i < out@.len() && !(#[trigger] out@[i].success) ==> out@[i].data
                            is None && out@[i].error is Some
                    &&& final(backend).stats.recorded().len() >= old(
                        backend,
                    ).stats.recorded().len() + decodable_count(items@)
                    &&& final(backend).stats.recorded().len() <= old(
                        backend,
                    ).stats.recorded().len() + decodable_count(items@)
                        * self.retry.max_attempts
                    &&& success_count(final(backend).stats.recorded()) == success_count(
                        old(backend).stats.recorded(),
                    ) + successful_count(out@)
                },
                Err(_) => true,
            }),
    {
        if items.len() > self.cap {
            let mut e = String::new();
            e.append(BATCH_CAP_ERROR);
            proof {
                assert(e@ =~= BATCH_CAP_ERROR@);
            }
            return Err(e);
        }
        let ghost m = self.retry.max_attempts as int;
        let ghost n = items@.len() as int;
        let mut collected: Vec<ItemResult> = Vec::new();
        let mut i: usize = 0;
        proof {
            lemma_mul_basics(m);
            assert(items@.take(0) =~= Seq::<BatchItem>::empty());
        }
        while i < items.len()
            invariant
                self.wf(),
                m == self.retry.max_attempts as int,
                n == items@.len() as int,
                i <= items@.len(),
                collected@.len() == i,
                forall|j: int| 0 <= j < i ==> (#[trigger] collected@[j].index) == j,
                forall|j: int|
                    0 <= j < i ==> (#[trigger] collected@[j].id)@ == items@[j].id@,
                forall|j: int|
                    0 <= j < i && work_prompt_view(items@[j].item_type@, items@[j].payload@)
                        is Err ==> !(#[trigger] collected@[j].success) && (collected@[j].error
                        matches Some(e) && e@ == work_prompt_view(
                        items@[j].item_type@,
                        items@[j].payload@,
                    )->Err_0),
                forall|j: int|
                    0 <= j < i && (#[trigger] collected@[j].success) ==> collected@[j].data
                        is Some && collected@[j].error is None,
                forall|j: int|
                    0 <= j < i && !(#[trigger] collected@[j].success) ==> collected@[j].data
                        is None && collected@[j].error is Some,
                backend.stats.wf(),
                success_count(backend.stats.recorded()) == success_count(
                    old(backend).stats.recorded(),
                ) + successful_count(collected@),
                backend.stats.recorded().len() >= old(backend).stats.recorded().len()
                    + decodable_count(items@.take(i as int)),
                backend.stats.recorded().len() <= old(backend).stats.recorded().len()
                    + decodable_count(items@.take(i as int)) * m,
                backend.stats.recorded().len() + (n - i) * m <= u64::MAX,
            decreases items@.len() - i,
        {
            proof {
                lemma_mul_is_distributive_add_other_way(m, n - i - 1, 1);
                assert((n - i) * m == (n - i - 1) * m + m);
                lemma_decodable_count_bounds(items@.take(i as int));
            }
            let ghost dc = decodable_count(items@.take(i as int));
            let item = &items[i];
            let result = match work_prompt(&item.item_type, &item.payload) {
                Err(decode_error) => ItemResult {
                    index: i,
                    id: item.id.clone(),
                    success: false,
                    data: None,
                    error: Some(decode_error),
                },
                Ok(prompt) => {
                    let outcome = self.retry.execute(backend, prompt.as_str());
                    match outcome.result {
                        Ok(text) => ItemResult {
                            index: i,
                            id: item.id.clone(),
                            success: true,
                            data: Some(text),
                            error: None,
                        },
                        Err(e) => ItemResult {
                            index: i,
                            id: item.id.clone(),
                            success: false,
                            data: None,
                            error: Some(e.message()),
                        },
                    }
                },
            };
            let ghost previously_collected = collected@;
            collected.push(result);
            proof {
                let done = items@.take(i as int + 1);
                assert(done.drop_last() =~= items@.take(i as int));
                assert(done.last() == items@[i as int]);
                assert(collected@.drop_last() =~= previously_collected);
                lemma_mul_is_distributive_add_other_way(m, dc, 1);
                assert((dc + 1) * m == dc * m + m);
            }
            i = i + 1;
        }
        proof {
            assert(items@.take(n) =~= items@);
        }
        let ghost cv = collected@;
        proof {
            assert forall|k: int| 0 <= k < cv.len() implies #[trigger] covers_index(cv, k) by {
                assert(cv[k].index == k);
            }
        }
        let ordered = reassemble(collected);
        proof {
            assert forall|k: int| 0 <= k < cv.len() implies ordered@[k] == cv[k] by {
                assert(ordered@[(cv[k].index) as int] == cv[k]);
            }
            assert(ordered@ =~= cv);
            assert forall|k: int|
                0 <= k < ordered@.len() implies (#[trigger] ordered@[k].id)@ == items@[k].id@ by {
                assert(ordered@[k] == cv[k]);
                assert(cv[k].id@ == items@[k].id@);
            }
            assert forall|k: int|
                0 <= k < ordered@.len() && work_prompt_view(
                    items@[k].item_type@,
                    items@[k].payload@,
                ) is Err implies !(#[trigger] ordered@[k].success) && (ordered@[k].error matches
            Some(e) && e@ == work_prompt_view(
                items@[k].item_type@,
                items@[k].payload@,
            )->Err_0) by {
                assert(ordered@[k] == cv[k]);
                assert(!cv[k].success);
            }
            assert forall|k: int|
                0 <= k < ordered@.len() && (#[trigger] ordered@[k].success) implies ordered@[k].data
                is Some && ordered@[k].error is None by {
                assert(ordered@[k] == cv[k]);
                assert(cv[k].success);
            }
            assert forall|k: int|
                0 <= k < ordered@.len() && !(#[trigger] ordered@[k].success) implies ordered@[k].data
                is None && ordered@[k].error is Some by {
                assert(ordered@[k] == cv[k]);
                assert(!cv[k].success);
            }
        }
        Ok(ordered)
    }
}

} // verus!
