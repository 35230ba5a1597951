//! Typed failures of the capture core. Every failure is returned to the
//! immediate caller; nothing in the core panics or tears a thread down.

use vstd::prelude::*;

verus! {

/// Failures raised while starting or stopping a recording session.
#[derive(Debug, PartialEq, Eq, Structural, Clone, Copy)]
pub enum CaptureError {
    /// `start` was called while a session was already recording.
    AlreadyRecording,
    /// No input device is present, or device negotiation failed.
    Device,
    /// The hardware stream could not be opened or played.
    Stream,
    /// `stop` was called with zero accumulated samples.
    EmptyCapture,
}

/// Failures raised by the capture pipeline after a session ends.
#[derive(Debug, PartialEq, Eq, Structural, Clone, Copy)]
pub enum PipelineError {
    /// The finished session held no samples; there is nothing to encode or
    /// transcribe.
    EmptyCapture,
    /// The encoded container could not be finalized (the data would not fit
    /// the container's size fields).
    Encoding,
    /// The recognition model could not be loaded; voice input is unavailable
    /// but the caller may continue without it.
    ModelLoad,
    /// The recognition engine failed while transcribing; the caller may retry
    /// with a new utterance.
    Inference,
}

impl CaptureError {
    /// A short, user-presentable description of the failure.
    pub fn message(&self) -> (msg: &'static str)
        ensures
            self is AlreadyRecording ==> msg@ == "already recording"@,
            self is Device ==> msg@ == "no input device available"@,
            self is Stream ==> msg@ == "could not open the input stream"@,
            self is EmptyCapture ==> msg@ == "no audio recorded"@,
    {
        match self {
            CaptureError::AlreadyRecording => "already recording",
            CaptureError::Device => "no input device available",
            CaptureError::Stream => "could not open the input stream",
            CaptureError::EmptyCapture => "no audio recorded",
        }
    }
}

impl PipelineError {
    /// A short, user-presentable description of the failure.
    pub fn message(&self) -> (msg: &'static str)
        ensures
            self is EmptyCapture ==> msg@ == "no audio recorded"@,
            self is Encoding ==> msg@ == "could not finalize the audio container"@,
            self is ModelLoad ==> msg@ == "could not load the recognition model"@,
            self is Inference ==> msg@ == "transcription failed"@,
    {
        match self {
            PipelineError::EmptyCapture => "no audio recorded",
            PipelineError::Encoding => "could not finalize the audio container",
            PipelineError::ModelLoad => "could not load the recognition model",
            PipelineError::Inference => "transcription failed",
        }
    }
}

} // verus!
