//! The threshold gate: turns a voice-activity score into a decision.

use vstd::prelude::*;

verus! {

/// Decision reached for one incoming batch: not enough samples were buffered
/// to form an analysis window yet, or a formed window scored at or below the
/// acceptance threshold, or strictly above it.
#[derive(Clone, Copy, Debug, PartialEq, Eq, Structural)]
pub enum GateDecision {
    Insufficient,
    Reject,
    Accept,
}

/// Scores and thresholds are fixed-point confidences: `SCORE_ONE` stands for
/// a confidence of 1.0, so a scorer's value in [0, 1] scales to [0, 1000000].
/// Out-of-range values are not clamped anywhere: they are compared as-is.
pub const SCORE_ONE: i64 = 1_000_000;

/// The default acceptance threshold, a confidence of 0.5.
pub const ACCEPT_THRESHOLD: i64 = 500_000;

pub open spec fn spec_decide(score: int, threshold: int) -> GateDecision {
    if score > threshold {
        GateDecision::Accept
    } else {
        GateDecision::Reject
    }
}

/// A scored window counts as speech exactly when its score lies strictly
/// above the threshold; a score equal to the threshold is rejected.
pub fn decide(score: i64, threshold: i64) -> (r: GateDecision)
    ensures
        r == spec_decide(score as int, threshold as int),
        r is Accept <==> score > threshold,
        r is Reject <==> score <= threshold,
{
    if score > threshold {
        GateDecision::Accept
    } else {
        GateDecision::Reject
    }
}

/// The boundary pinned down: a score exactly at the threshold is rejected,
/// never accepted.
pub proof fn lemma_threshold_boundary(threshold: int)
    ensures
        spec_decide(threshold, threshold) is Reject,
{
}

} // verus!
