//! Voice-activity gating for a streaming speech-to-text stage.
//!
//! The library buffers incoming 16-bit mono PCM batches until a fixed-size
//! analysis window is available, hands that window out to be scored by a
//! voice-activity detector, applies a threshold gate to the score, and maps
//! the decision to the stream's outcome: produce a text payload, produce
//! nothing, or fail. Discontinuities in the stream drop buffered samples and
//! reset the scorer's recurrent state so that stale audio never crosses a
//! gap. Scoring itself is an outside collaborator; the driver performs it and
//! hands the score back.

pub mod accumulator;
pub mod controller;
pub mod errors;
pub mod gate;
pub mod laws;
pub mod samples;
pub mod text;
