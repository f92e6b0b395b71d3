//! The per-stream controller: a state machine that wires the accumulator,
//! the threshold gate and the outside voice-activity scorer together.
//!
//! The scorer is a collaborator that the library cannot run itself, so one
//! batch is processed in two steps. `begin_batch` absorbs the samples
//! (draining first on a discontinuity) and hands back the analysis window to
//! score, if one formed; the driver scores it and hands the fixed-point
//! score to `finish_window`, which gates it and builds the outcome. The
//! driver must reset the real scorer whenever it signals a discontinuity and
//! after every scored window; the `scorer_hist` field models that scorer's
//! recurrent state — the windows it has scored since its last reset — and
//! the contracts show it is empty at every scoring, so no audio from before
//! a reset can leak into a later score.

use vstd::prelude::*;

use crate::accumulator::FrameAccumulator;
use crate::accumulator::step_buf;
use crate::accumulator::step_window;
use crate::errors::StreamError;
use crate::gate::GateDecision;
use crate::gate::decide;
use crate::gate::spec_decide;
use crate::text::score_text;
use crate::text::spec_score_text;

verus! {

/// Lifecycle of one stream instance.
#[derive(Clone, Copy, Debug, PartialEq, Eq, Structural)]
pub enum Phase {
    Uninitialized,
    Started,
    Stopped,
}

/// What one batch yields for the host: nothing, or one UTF-8 payload.
#[derive(Debug, PartialEq, Eq)]
pub enum Outcome {
    NoOutput,
    Output(Vec<u8>),
}

/// The single stateful element of one stream instance. Exactly one exists
/// per active stream and it is never shared.
pub struct StreamTransform {
    /// Lifecycle phase; batches are processed only while `Started`.
    pub phase: Phase,
    /// The accumulation buffer.
    pub acc: FrameAccumulator,
    /// Fixed-point acceptance threshold (`gate::SCORE_ONE` is 1.0).
    pub threshold: i64,
    /// A window has been handed out and its score is still outstanding.
    pub awaiting: bool,
    /// Model of the outside scorer's recurrent state: the windows scored
    /// since its last reset.
    pub scorer_hist: Ghost<Seq<Seq<i16>>>,
}

impl StreamTransform {
    /// Well-formedness: the buffer never retains a full window, the
    /// threshold is a non-negative confidence, and the modeled scorer
    /// carries no window across the last reset.
    pub open spec fn inv(&self) -> bool {
        &&& self.acc.wf()
        &&& 0 <= self.threshold
        &&& self.scorer_hist@ == Seq::<Seq<i16>>::empty()
    }

    pub fn new(threshold: i64) -> (r: Self)
        requires
            0 <= threshold,
        ensures
            r.inv(),
            r.phase is Uninitialized,
            r.threshold == threshold,
            !r.awaiting,
            r.acc@ == Seq::<i16>::empty(),
    {
        StreamTransform {
            phase: Phase::Uninitialized,
            acc: FrameAccumulator::new(),
            threshold,
            awaiting: false,
            scorer_hist: Ghost(Seq::empty()),
        }
    }

    /// Stream start. The driver loads the scorer model and reports whether
    /// that succeeded; a failed load is fatal: the stream refuses to start
    /// and never reaches `Started`.
    pub fn start(&mut self, scorer_ready: bool) -> (r: Result<(), StreamError>)
        requires
            old(self).inv(),
            old(self).phase is Uninitialized,
        ensures
            final(self).inv(),
            final(self).threshold == old(self).threshold,
            scorer_ready ==> r is Ok && final(self).phase is Started && !final(self).awaiting
                && final(self).acc@ == Seq::<i16>::empty(),
            !scorer_ready ==> (r matches Err(e) && e is InitializationError && *final(self)
                == *old(self)),
    {
        if scorer_ready {
            self.phase = Phase::Started;
            self.acc.clear();
            self.awaiting = false;
            Ok(())
        } else {
            Err(StreamError::InitializationError)
        }
    }

    /// The explicit drain: discards any partially accumulated window and
    /// resets the modeled scorer state. Draining an empty buffer is a no-op,
    /// not an error. The driver must reset the real scorer alongside.
    pub fn drain(&mut self)
        requires
            old(self).inv(),
            old(self).phase is Started,
            !old(self).awaiting,
        ensures
            final(self).inv(),
            final(self).phase is Started,
            final(self).threshold == old(self).threshold,
            !final(self).awaiting,
            final(self).acc@ == Seq::<i16>::empty(),
            final(self).scorer_hist@ == Seq::<Seq<i16>>::empty(),
    {
        self.acc.clear();
        self.scorer_hist = Ghost(Seq::empty());
    }

    /// Absorbs one batch, draining first when the batch is flagged as a
    /// discontinuity so that no stale audio crosses the gap. Returns the
    /// analysis window to score, if one formed; an empty batch never forms
    /// one and changes nothing.
    pub fn begin_batch(&mut self, batch: &[i16], discont: bool) -> (w: Option<Vec<i16>>)
        requires
            old(self).inv(),
            old(self).phase is Started,
            !old(self).awaiting,
        ensures
            final(self).inv(),
            final(self).phase is Started,
            final(self).threshold == old(self).threshold,
            ({
                let buf0 = if discont {
                    Seq::<i16>::empty()
                } else {
                    old(self).acc@
                };
                &&& final(self).acc@ == step_buf(buf0, batch@)
                &&& (match w {
                    Some(v) => step_window(buf0, batch@) == Some(v@),
                    None => step_window(buf0, batch@) is None,
                })
            }),
            final(self).awaiting == w is Some,
            final(self).scorer_hist@ == Seq::<Seq<i16>>::empty(),
            batch@.len() == 0 && !discont ==> w is None && final(self).acc@ == old(self).acc@,
    {
        if discont {
            self.drain();
        }
        let w = self.acc.push(batch);
        self.awaiting = w.is_some();
        w
    }

    /// Consumes the score of the window handed out by `begin_batch` and
    /// gates it: a score strictly above the threshold yields the output
    /// payload, any other score yields nothing, and a scorer fault (`None`)
    /// propagates as `ScoringError`. In every case the window is spent and
    /// the scorer is due a reset, so its recurrent state carries nothing
    /// into the next window.
    pub fn finish_window(&mut self, score: Option<i64>) -> (r: Result<Outcome, StreamError>)
        requires
            old(self).inv(),
            old(self).phase is Started,
            old(self).awaiting,
        ensures
            final(self).inv(),
            final(self).phase is Started,
            final(self).threshold == old(self).threshold,
            final(self).acc@ == old(self).acc@,
            !final(self).awaiting,
            final(self).scorer_hist@ == Seq::<Seq<i16>>::empty(),
            (match score {
                Some(s) => {
                    &&& spec_decide(s as int, old(self).threshold as int) is Accept ==> (r matches Ok(
                        o,
                    ) && o matches Outcome::Output(p) && p@ == spec_score_text(s as int))
                    &&& spec_decide(s as int, old(self).threshold as int) is Reject ==> (r matches Ok(
                        o,
                    ) && o is NoOutput)
                },
                None => r matches Err(e) && e is ScoringError,
            }),
            r is Ok <==> score is Some,
    {
        self.awaiting = false;
        self.scorer_hist = Ghost(Seq::empty());
        match score {
            None => Err(StreamError::ScoringError),
            Some(s) => {
                match decide(s, self.threshold) {
                    GateDecision::Accept => Ok(Outcome::Output(score_text(s))),
                    _ => Ok(Outcome::NoOutput),
                }
            },
        }
    }

    /// The full-build accept path: the driver forwards an accepted span to
    /// the transcription engine and hands back its text, which becomes the
    /// payload in place of the placeholder one; an engine fault propagates
    /// as `TranscriptionError` and the span is not retried.
    pub fn accept_transcription(text: Option<Vec<u8>>) -> (r: Result<Outcome, StreamError>)
        ensures
            text matches Some(t) ==> (r matches Ok(o) && o matches Outcome::Output(p) && p@
                == t@),
            text is None ==> (r matches Err(e) && e is TranscriptionError),
    {
        match text {
            Some(t) => Ok(Outcome::Output(t)),
            None => Err(StreamError::TranscriptionError),
        }
    }

    /// Stream stop: tears the instance down. No batch may be processed once
    /// `Stopped`; the host protocol guarantees none arrives.
    pub fn stop(&mut self)
        requires
            old(self).inv(),
            old(self).phase is Started,
            !old(self).awaiting,
        ensures
            final(self).inv(),
            final(self).phase is Stopped,
    {
        self.phase = Phase::Stopped;
        self.acc.clear();
        self.scorer_hist = Ghost(Seq::empty());
    }
}

} // verus!
