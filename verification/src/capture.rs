//! The recording session: an `Idle -> Recording -> Idle` state machine around
//! the sample buffer. Device and stream handling live with the caller that
//! owns the hardware; this type owns the state, the buffer, and the rules for
//! entering and leaving a session.

use vstd::prelude::*;

use crate::buffer::SampleBuffer;
use crate::errors::CaptureError;

verus! {

/// The immutable description of the active input device, captured once when
/// the device is opened: interleaved channel count and native sample rate.
/// Sample depth is fixed at 16 bits throughout the core.
#[derive(Debug, Clone, Copy, PartialEq, Eq, Structural)]
pub struct StreamConfig {
    pub channels: u16,
    pub sample_rate: u32,
}

impl StreamConfig {
    /// A device description is well formed when it has at least one channel
    /// and a positive sample rate.
    pub open spec fn wf(&self) -> bool {
        1 <= self.channels && 1 <= self.sample_rate
    }
}

/// One microphone session. The caller that owns the hardware stream opens
/// the device, negotiates a [`StreamConfig`], and feeds every delivered frame
/// through [`AudioRecorder::append`]; this type decides when a session may
/// start, when it ends, and what the finished session contains.
#[derive(Debug)]
pub struct AudioRecorder {
    buffer: SampleBuffer,
    config: StreamConfig,
    recording: bool,
}

impl View for AudioRecorder {
    type V = Seq<i16>;

    /// The samples accumulated so far in the current session.
    closed spec fn view(&self) -> Seq<i16> {
        self.buffer@
    }
}

impl AudioRecorder {
    /// Creates an idle recorder for a device described by `config`.
    pub fn new(config: StreamConfig) -> (rec: AudioRecorder)
        requires
            config.wf(),
        ensures
            rec@ == Seq::<i16>::empty(),
            !rec.is_recording(),
            rec.config() == config,
    {
        AudioRecorder { buffer: SampleBuffer::new(), config, recording: false }
    }

    /// The device description this recorder was created with.
    pub closed spec fn config(&self) -> StreamConfig {
        self.config
    }

    /// Whether a session is currently recording.
    pub closed spec fn is_recording(&self) -> bool {
        self.recording
    }

    /// Returns whether a session is currently recording.
    pub fn recording(&self) -> (r: bool)
        ensures
            r == self.is_recording(),
    {
        self.recording
    }

    /// The recorder keeps its device description well formed.
    pub open spec fn wf(&self) -> bool {
        self.config().wf()
    }

    /// Returns the device description for header generation and resampling.
    pub fn stream_config(&self) -> (config: StreamConfig)
        ensures
            config == self.config(),
    {
        self.config
    }

    /// Begins a new session. Starting is only valid while idle: a second
    /// `start` without an intervening `stop` is rejected and changes nothing.
    /// From idle, the buffer is reset so the session starts empty.
    pub fn start(&mut self) -> (r: Result<(), CaptureError>)
        ensures
            final(self).config() == old(self).config(),
            old(self).is_recording() ==> {
                &&& r == Err::<(), CaptureError>(CaptureError::AlreadyRecording)
                &&& final(self).is_recording()
                &&& final(self)@ == old(self)@
            },
            !old(self).is_recording() ==> {
                &&& r == Ok::<(), CaptureError>(())
                &&& final(self).is_recording()
                &&& final(self)@ == Seq::<i16>::empty()
            },
    {
        if self.recording {
            return Err(CaptureError::AlreadyRecording);
        }
        self.buffer.clear();
        self.recording = true;
        Ok(())
    }

    /// Reverts a freshly started session to idle, discarding its samples.
    /// The caller uses this when the device or stream could not be opened
    /// after `start`, so that such failures leave the recorder idle.
    pub fn cancel(&mut self)
        ensures
            final(self).config() == old(self).config(),
            !final(self).is_recording(),
            final(self)@ == Seq::<i16>::empty(),
    {
        self.buffer.clear();
        self.recording = false;
    }

    /// Appends one chunk of captured frames in temporal order. This is the
    /// only operation the capture callback performs: a single bounded append,
    /// with no other work, so the real-time thread never stalls here.
    pub fn append(&mut self, chunk: &[i16])
        ensures
            final(self).config() == old(self).config(),
            final(self).is_recording() == old(self).is_recording(),
            final(self)@ == old(self)@ + chunk@,
    {
        self.buffer.append(chunk);
    }

    /// Returns the number of samples accumulated so far.
    pub fn len(&self) -> (n: usize)
        ensures
            n == self@.len(),
    {
        self.buffer.len()
    }

    /// Ends the session and drains the buffer into the finished utterance.
    /// The recorder is idle afterwards whatever happens. A session that
    /// accumulated no samples fails with [`CaptureError::EmptyCapture`]
    /// rather than returning empty output: callers must not transcribe
    /// silence by accident.
    pub fn stop(&mut self) -> (r: Result<Vec<i16>, CaptureError>)
        ensures
            final(self).config() == old(self).config(),
            !final(self).is_recording(),
            final(self)@ == Seq::<i16>::empty(),
            old(self)@.len() == 0 ==> r == Err::<Vec<i16>, CaptureError>(
                CaptureError::EmptyCapture,
            ),
            old(self)@.len() > 0 ==> {
                &&& r is Ok
                &&& r->Ok_0@ == old(self)@
            },
    {
        self.recording = false;
        let out = self.buffer.drain();
        if out.len() == 0 {
            Err(CaptureError::EmptyCapture)
        } else {
            Ok(out)
        }
    }
}

} // verus!
