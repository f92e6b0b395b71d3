//! The error taxonomy of the stream core.

use vstd::prelude::*;

verus! {

/// Everything the core can fail with. Each error is surfaced to the caller
/// of the failing call, never swallowed and never retried here; the host is
/// expected to tear the stream instance down on any of them, since scorer
/// state cannot be trusted after a fault.
#[derive(Clone, Copy, Debug, PartialEq, Eq, Structural)]
pub enum StreamError {
    /// The scorer model could not be loaded at stream start; fatal, the
    /// stream never starts.
    InitializationError,
    /// An incoming batch could not be read as 16-bit samples.
    SampleFormatError,
    /// The scorer failed on a well-formed window; the window is lost.
    ScoringError,
    /// The transcription engine failed on an accepted span; the span is not
    /// retried.
    TranscriptionError,
}

} // verus!
