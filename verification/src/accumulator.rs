//! The frame accumulator: buffers incoming sample batches until enough are
//! present to slice out one fixed-size analysis window.

use vstd::prelude::*;

verus! {

/// Samples per analysis window: 30 ms of 16 kHz mono audio.
pub const WINDOW_SIZE: usize = 480;

/// Buffer contents after pushing `batch` onto a buffer holding `buf`: short
/// of a full window the batch is appended in place; once a window forms the
/// buffer is cleared, so samples beyond the window are dropped rather than
/// carried forward.
pub open spec fn step_buf(buf: Seq<i16>, batch: Seq<i16>) -> Seq<i16> {
    if buf.len() + batch.len() < WINDOW_SIZE {
        buf + batch
    } else {
        Seq::empty()
    }
}

/// Window produced by that push: none until `WINDOW_SIZE` samples are at
/// hand, else exactly the first `WINDOW_SIZE` samples of the buffered
/// contents followed by the batch.
pub open spec fn step_window(buf: Seq<i16>, batch: Seq<i16>) -> Option<Seq<i16>> {
    if buf.len() + batch.len() < WINDOW_SIZE {
        None
    } else {
        Some((buf + batch).take(WINDOW_SIZE as int))
    }
}

/// Owns the growable sample buffer of one stream instance. Its invariant:
/// the buffer always holds fewer than `WINDOW_SIZE` samples, because a full
/// window is never left unextracted.
pub struct FrameAccumulator {
    buf: Vec<i16>,
}

impl View for FrameAccumulator {
    type V = Seq<i16>;

    closed spec fn view(&self) -> Seq<i16> {
        self.buf@
    }
}

impl FrameAccumulator {
    pub open spec fn wf(&self) -> bool {
        self@.len() < WINDOW_SIZE
    }

    /// How many samples are currently buffered.
    pub fn len(&self) -> (n: usize)
        ensures
            n == self@.len(),
    {
        self.buf.len()
    }

    pub fn new() -> (r: Self)
        ensures
            r@ == Seq::<i16>::empty(),
            r.wf(),
    {
        FrameAccumulator { buf: Vec::new() }
    }

    /// Drops every buffered sample; called on a stream discontinuity.
    /// Clearing an already-empty buffer is a no-op, not an error.
    pub fn clear(&mut self)
        ensures
            final(self)@ == Seq::<i16>::empty(),
            final(self).wf(),
    {
        self.buf.clear();
    }

    /// Absorbs one batch. Returns the analysis window exactly when the
    /// buffered samples and the batch together reach `WINDOW_SIZE`; an empty
    /// batch never changes the buffer and never produces a window.
    pub fn push(&mut self, batch: &[i16]) -> (w: Option<Vec<i16>>)
        requires
            old(self).wf(),
        ensures
            final(self).wf(),
            final(self)@ == step_buf(old(self)@, batch@),
            (match w {
                Some(v) => step_window(old(self)@, batch@) == Some(v@),
                None => step_window(old(self)@, batch@) is None,
            }),
            batch@.len() == 0 ==> w is None && final(self)@ == old(self)@,
    {
        if batch.len() < WINDOW_SIZE && self.buf.len() + batch.len() < WINDOW_SIZE {
            let mut i: usize = 0;
            while i < batch.len()
                invariant
                    i <= batch.len(),
                    self.buf@ == old(self)@ + batch@.take(i as int),
                    self.buf@.len() + batch@.len() < WINDOW_SIZE + i,
                decreases batch.len() - i,
            {
                self.buf.push(batch[i]);
                i += 1;
            }
            proof {
                assert(self.buf@ == old(self)@ + batch@);
                assert(batch@.len() == 0 ==> old(self)@ + batch@ == old(self)@);
            }
            None
        } else {
            let mut win: Vec<i16> = Vec::new();
            let mut i: usize = 0;
            while i < WINDOW_SIZE
                invariant
                    i <= WINDOW_SIZE,
                    self.buf@ == old(self)@,
                    self.buf@.len() + batch@.len() >= WINDOW_SIZE,
                    self.buf@.len() < WINDOW_SIZE,
                    win@ == (self.buf@ + batch@).take(i as int),
                decreases WINDOW_SIZE - i,
            {
                if i < self.buf.len() {
                    let s = self.buf[i];
                    win.push(s);
                } else {
                    let s = batch[i - self.buf.len()];
                    win.push(s);
                }
                proof {
                    assert((self.buf@ + batch@).take(i + 1)
                        == (self.buf@ + batch@).take(i as int).push((self.buf@ + batch@)[i as int]));
                }
                i += 1;
            }
            self.buf.clear();
            Some(win)
        }
    }
}

} // verus!
