use vstd::prelude::*;

verus! {

/// The failures that the capture and transcription pipeline reports.
#[derive(Debug, Clone, Copy, PartialEq, Eq, Structural)]
pub enum Error {
    /// No input device was found, or the input stream could not be opened.
    Device,
    /// Starting or pausing the input stream failed at the driver level.
    StreamControl,
    /// `stop` was called while nothing was being recorded.
    AlreadyStopped,
    /// The speech model failed on the buffer it was given.
    Inference,
}

} // verus!
