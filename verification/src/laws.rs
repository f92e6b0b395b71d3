//! Stream-level laws of the core, proved over a trace model.
//!
//! The model replays a whole stream of batches through the same step
//! functions that the executable accumulator and controller are specified
//! with (`step_buf`, `step_window`), together with the modeled scorer
//! state: the windows scored since the scorer's last reset. The proof
//! functions here are the library's stream-wide guarantees.

use vstd::prelude::*;

use crate::accumulator::WINDOW_SIZE;
use crate::accumulator::step_buf;
use crate::accumulator::step_window;

verus! {

/// One incoming batch at the model level: its samples and whether the host
/// flagged it as the start of a non-contiguous segment.
pub struct ModelBatch {
    pub samples: Seq<i16>,
    pub discont: bool,
}

/// Cumulative sample count of the first `n` batches.
pub open spec fn total_len(batches: Seq<ModelBatch>, n: int) -> int
    recommends
        0 <= n <= batches.len(),
    decreases n,
{
    if n <= 0 {
        0
    } else {
        total_len(batches, n - 1) + batches[n - 1].samples.len()
    }
}

/// The accumulation buffer after the first `n` batches were processed: a
/// discontinuity-flagged batch drains the buffer before being absorbed.
pub open spec fn buf_after(batches: Seq<ModelBatch>, n: int) -> Seq<i16>
    recommends
        0 <= n <= batches.len(),
    decreases n,
{
    if n <= 0 {
        Seq::empty()
    } else {
        let prev = if batches[n - 1].discont {
            Seq::empty()
        } else {
            buf_after(batches, n - 1)
        };
        step_buf(prev, batches[n - 1].samples)
    }
}

/// The buffer a batch is absorbed into: what the previous batches left,
/// unless this batch is a discontinuity, which drains it first.
pub open spec fn pre_buf(batches: Seq<ModelBatch>, k: int) -> Seq<i16>
    recommends
        0 <= k < batches.len(),
{
    if batches[k].discont {
        Seq::empty()
    } else {
        buf_after(batches, k)
    }
}

/// The analysis window formed while absorbing batch `k`, if any.
pub open spec fn window_at(batches: Seq<ModelBatch>, k: int) -> Option<Seq<i16>>
    recommends
        0 <= k < batches.len(),
{
    step_window(pre_buf(batches, k), batches[k].samples)
}

/// The modeled scorer state after the first `n` batches: the windows scored
/// since its last reset. The controller resets on every discontinuity and
/// after every scored window.
pub open spec fn hist_after(batches: Seq<ModelBatch>, n: int) -> Seq<Seq<i16>>
    recommends
        0 <= n <= batches.len(),
    decreases n,
{
    if n <= 0 {
        Seq::empty()
    } else if window_at(batches, n - 1) is Some {
        Seq::empty()
    } else if batches[n - 1].discont {
        Seq::empty()
    } else {
        hist_after(batches, n - 1)
    }
}

/// The scorer state in force when batch `k`'s window is scored.
pub open spec fn hist_at_score(batches: Seq<ModelBatch>, k: int) -> Seq<Seq<i16>>
    recommends
        0 <= k < batches.len(),
{
    if batches[k].discont {
        Seq::empty()
    } else {
        hist_after(batches, k)
    }
}

/// The score a deterministic scorer `f` — a function of its recurrent state
/// and the window — returns for batch `k`'s window, if one formed.
pub open spec fn score_at(
    f: spec_fn(Seq<Seq<i16>>, Seq<i16>) -> int,
    batches: Seq<ModelBatch>,
    k: int,
) -> Option<int>
    recommends
        0 <= k < batches.len(),
{
    match window_at(batches, k) {
        Some(w) => Some(f(hist_at_score(batches, k), w)),
        None => None,
    }
}

/// The scorer never carries a window across batches: its modeled state is
/// empty after every batch.
pub proof fn lemma_hist_empty(batches: Seq<ModelBatch>, n: int)
    requires
        0 <= n <= batches.len(),
    ensures
        hist_after(batches, n) == Seq::<Seq<i16>>::empty(),
    decreases n,
{
    if n > 0 {
        lemma_hist_empty(batches, n - 1);
    }
}

/// Reset isolation: every window is scored against a freshly reset scorer,
/// so the score of batch `k`'s window depends on that window alone. Two
/// streams whose `k`-th windows agree are scored identically at `k` by any
/// deterministic scorer, however much the earlier audio differed.
pub proof fn lemma_reset_isolation(
    f: spec_fn(Seq<Seq<i16>>, Seq<i16>) -> int,
    a: Seq<ModelBatch>,
    b: Seq<ModelBatch>,
    k: int,
)
    requires
        0 <= k < a.len(),
        0 <= k < b.len(),
        window_at(a, k) == window_at(b, k),
    ensures
        score_at(f, a, k) == score_at(f, b, k),
{
    lemma_hist_empty(a, k);
    lemma_hist_empty(b, k);
}

/// While the cumulative sample count stays short of a window, the buffer
/// simply accumulates every pushed sample and no window is formed.
pub proof fn lemma_buf_while_short(batches: Seq<ModelBatch>, n: int)
    requires
        0 <= n <= batches.len(),
        forall|j: int| 0 <= j < n ==> !batches[j].discont,
        forall|j: int| 1 <= j <= n ==> total_len(batches, j) < WINDOW_SIZE,
    ensures
        buf_after(batches, n).len() == total_len(batches, n),
        forall|j: int| 0 <= j < n ==> window_at(batches, j) is None,
    decreases n,
{
    if n > 0 {
        lemma_buf_while_short(batches, n - 1);
        assert(total_len(batches, n) < WINDOW_SIZE);
        assert(window_at(batches, n - 1) is None);
    }
}

/// Window formation: if the cumulative sample count of a discontinuity-free
/// stream first reaches `WINDOW_SIZE` at batch `k`, then exactly one window
/// is produced, at batch `k` and not before, and it holds exactly
/// `WINDOW_SIZE` samples.
pub proof fn lemma_window_formation(batches: Seq<ModelBatch>, k: int)
    requires
        0 <= k < batches.len(),
        forall|j: int| 0 <= j <= k ==> !batches[j].discont,
        forall|j: int| 1 <= j <= k ==> total_len(batches, j) < WINDOW_SIZE,
        total_len(batches, k + 1) >= WINDOW_SIZE,
    ensures
        forall|j: int| 0 <= j < k ==> window_at(batches, j) is None,
        window_at(batches, k) is Some,
        window_at(batches, k)->Some_0.len() == WINDOW_SIZE,
{
    lemma_buf_while_short(batches, k);
    assert(pre_buf(batches, k).len() + batches[k].samples.len() >= WINDOW_SIZE);
}

/// Empty-batch idempotence: absorbing an empty batch leaves the buffer
/// exactly as it was and forms no window.
pub proof fn lemma_empty_batch(buf: Seq<i16>)
    requires
        buf.len() < WINDOW_SIZE,
    ensures
        step_buf(buf, Seq::<i16>::empty()) == buf,
        step_window(buf, Seq::<i16>::empty()) is None,
{
    assert(buf + Seq::<i16>::empty() =~= buf);
}

/// Discontinuity reset: from a discontinuity-flagged batch onward, the
/// buffer and every formed window are exactly those of a fresh stream fed
/// the batches from the discontinuity on — no sample from before the gap
/// contributes to any later window.
pub proof fn lemma_discontinuity_isolation(batches: Seq<ModelBatch>, k: int, j: int)
    requires
        0 <= k <= j < batches.len(),
        batches[k].discont,
    ensures
        window_at(batches, j) == window_at(batches.skip(k), j - k),
        buf_after(batches, j + 1) == buf_after(batches.skip(k), j - k + 1),
    decreases j - k,
{
    assert(batches.skip(k)[j - k] == batches[j]);
    if j == k {
        assert(pre_buf(batches, k) == Seq::<i16>::empty());
        assert(pre_buf(batches.skip(k), 0) == Seq::<i16>::empty());
    } else {
        lemma_discontinuity_isolation(batches, k, j - 1);
        assert(buf_after(batches, j) == buf_after(batches.skip(k), j - k));
        assert(pre_buf(batches, j) == pre_buf(batches.skip(k), j - k));
    }
}

} // verus!
