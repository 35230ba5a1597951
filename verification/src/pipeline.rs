//! Orchestration of a capture session: start/stop lifecycle, then either
//! export of the finished utterance as a WAV container, or preparation of
//! the utterance at the recognition model's required rate. The caller that
//! owns the hardware and the recognition engine drives these operations and
//! performs the device work and the inference between them.

use vstd::prelude::*;

use crate::capture::{AudioRecorder, StreamConfig};
use crate::errors::{CaptureError, PipelineError};
use crate::resample::{resample, resampled, target_len};
use crate::wav::{encodable, encode, wav_bytes};

verus! {

/// The sample rate the recognition model requires its input at.
pub const MODEL_SAMPLE_RATE: u32 = 16000;

/// One finished recording session: an immutable snapshot of the captured
/// samples together with the device shape they were captured at. It is
/// decoupled from further capture activity, so encoding and transcription
/// may both read it freely.
#[derive(Debug)]
pub struct Utterance {
    pub samples: Vec<i16>,
    pub channels: u16,
    pub sample_rate: u32,
}

/// The capture pipeline: owns the recorder state machine and wires a
/// finished session into the resampler and the WAV encoder.
#[derive(Debug)]
pub struct CapturePipeline {
    recorder: AudioRecorder,
}

impl CapturePipeline {
    /// The samples accumulated in the current session.
    pub closed spec fn captured(&self) -> Seq<i16> {
        self.recorder@
    }

    /// Whether a session is currently recording.
    pub closed spec fn recording(&self) -> bool {
        self.recorder.is_recording()
    }

    /// The device description the pipeline was created with.
    pub closed spec fn config(&self) -> StreamConfig {
        self.recorder.config()
    }

    /// The pipeline keeps its device description well formed.
    pub open spec fn wf(&self) -> bool {
        self.config().wf()
    }

    /// Creates an idle pipeline for a device described by `config`.
    pub fn new(config: StreamConfig) -> (p: CapturePipeline)
        requires
            config.wf(),
        ensures
            p.captured() == Seq::<i16>::empty(),
            !p.recording(),
            p.config() == config,
    {
        CapturePipeline { recorder: AudioRecorder::new(config) }
    }

    /// Returns whether a session is currently recording.
    pub fn is_recording(&self) -> (r: bool)
        ensures
            r == self.recording(),
    {
        self.recorder.recording()
    }

    /// Returns the number of samples captured so far in this session.
    pub fn captured_len(&self) -> (n: usize)
        ensures
            n == self.captured().len(),
    {
        self.recorder.len()
    }

    /// Returns the device description for resampling and header generation.
    pub fn stream_config(&self) -> (config: StreamConfig)
        ensures
            config == self.config(),
    {
        self.recorder.stream_config()
    }

    /// Starts a session. A second start without an intervening stop is
    /// rejected and changes nothing; from idle the session begins with an
    /// empty buffer.
    pub fn begin_capture(&mut self) -> (r: Result<(), CaptureError>)
        ensures
            final(self).config() == old(self).config(),
            old(self).recording() ==> {
                &&& r == Err::<(), CaptureError>(CaptureError::AlreadyRecording)
                &&& final(self).recording()
                &&& final(self).captured() == old(self).captured()
            },
            !old(self).recording() ==> {
                &&& r == Ok::<(), CaptureError>(())
                &&& final(self).recording()
                &&& final(self).captured() == Seq::<i16>::empty()
            },
    {
        self.recorder.start()
    }

    /// Reverts a freshly started session to idle. The caller uses this when
    /// the device or stream could not be opened, so that device failures
    /// leave the pipeline idle with nothing captured.
    pub fn cancel_capture(&mut self)
        ensures
            final(self).config() == old(self).config(),
            !final(self).recording(),
            final(self).captured() == Seq::<i16>::empty(),
    {
        self.recorder.cancel();
    }

    /// Feeds one chunk of captured frames into the session, in temporal
    /// order. This is the whole of the capture callback's work.
    pub fn append_samples(&mut self, chunk: &[i16])
        ensures
            final(self).config() == old(self).config(),
            final(self).recording() == old(self).recording(),
            final(self).captured() == old(self).captured() + chunk@,
    {
        self.recorder.append(chunk);
    }

    /// Ends the session and snapshots it as an [`Utterance`] stamped with
    /// the device shape. A session that captured nothing fails with
    /// [`PipelineError::EmptyCapture`]; the pipeline is idle and empty
    /// afterwards either way.
    pub fn end_capture(&mut self) -> (r: Result<Utterance, PipelineError>)
        ensures
            final(self).config() == old(self).config(),
            !final(self).recording(),
            final(self).captured() == Seq::<i16>::empty(),
            old(self).captured().len() == 0 ==> r == Err::<Utterance, PipelineError>(
                PipelineError::EmptyCapture,
            ),
            old(self).captured().len() > 0 ==> {
                &&& r is Ok
                &&& r->Ok_0.samples@ == old(self).captured()
                &&& r->Ok_0.channels == old(self).config().channels
                &&& r->Ok_0.sample_rate == old(self).config().sample_rate
            },
    {
        let config = self.recorder.stream_config();
        match self.recorder.stop() {
            Ok(samples) => Ok(
                Utterance {
                    samples,
                    channels: config.channels,
                    sample_rate: config.sample_rate,
                },
            ),
            Err(_) => Err(PipelineError::EmptyCapture),
        }
    }

    /// Ends the session and serializes the utterance as a 16-bit PCM WAV
    /// container at the native device shape. An empty session fails with
    /// [`PipelineError::EmptyCapture`]; an utterance whose size the
    /// container's fixed-width fields cannot hold fails with
    /// [`PipelineError::Encoding`]; sample content never makes this fail.
    pub fn end_capture_and_export(&mut self) -> (r: Result<Vec<u8>, PipelineError>)
        ensures
            final(self).config() == old(self).config(),
            !final(self).recording(),
            final(self).captured() == Seq::<i16>::empty(),
            old(self).captured().len() == 0 ==> r == Err::<Vec<u8>, PipelineError>(
                PipelineError::EmptyCapture,
            ),
            old(self).captured().len() > 0 && encodable(
                old(self).captured().len() as int,
                old(self).config().channels,
                old(self).config().sample_rate,
            ) ==> {
                &&& r is Ok
                &&& r->Ok_0@ == wav_bytes(
                    old(self).captured(),
                    old(self).config().channels,
                    old(self).config().sample_rate,
                )
            },
            old(self).captured().len() > 0 && !encodable(
                old(self).captured().len() as int,
                old(self).config().channels,
                old(self).config().sample_rate,
            ) ==> r == Err::<Vec<u8>, PipelineError>(PipelineError::Encoding),
    {
        let utterance = match self.end_capture() {
            Ok(u) => u,
            Err(e) => {
                return Err(e);
            },
        };
        if !fits_container(utterance.samples.len(), utterance.channels, utterance.sample_rate) {
            return Err(PipelineError::Encoding);
        }
        Ok(encode(&utterance.samples, utterance.channels, utterance.sample_rate))
    }

    /// Ends the session and returns the utterance converted to the model's
    /// required rate, ready to hand to the recognition engine. An empty
    /// session fails with [`PipelineError::EmptyCapture`]. The one machine
    /// limit is that the converted length must fit an in-memory vector.
    pub fn end_capture_for_transcription(&mut self) -> (r: Result<Vec<i16>, PipelineError>)
        requires
            target_len(
                old(self).captured().len() as int,
                old(self).config().sample_rate as int,
                MODEL_SAMPLE_RATE as int,
            ) <= usize::MAX,
            old(self).wf(),
        ensures
            final(self).config() == old(self).config(),
            !final(self).recording(),
            final(self).captured() == Seq::<i16>::empty(),
            old(self).captured().len() == 0 ==> r == Err::<Vec<i16>, PipelineError>(
                PipelineError::EmptyCapture,
            ),
            old(self).captured().len() > 0 ==> {
                &&& r is Ok
                &&& r->Ok_0@ == resampled(
                    old(self).captured(),
                    old(self).config().sample_rate as int,
                    MODEL_SAMPLE_RATE as int,
                )
            },
    {
        let utterance = match self.end_capture() {
            Ok(u) => u,
            Err(e) => {
                return Err(e);
            },
        };
        Ok(resample(&utterance.samples, utterance.sample_rate, MODEL_SAMPLE_RATE))
    }
}

/// Whether the utterance fits the WAV container's fixed-width size fields,
/// decided exactly as [`encodable`] states.
fn fits_container(len: usize, channels: u16, rate: u32) -> (ok: bool)
    ensures
        ok == encodable(len as int, channels, rate),
{
    let shape_ok: bool = 1 <= channels && channels <= 32767 && 1 <= rate;
    let byte_rate_ok: bool = shape_ok && crate::wav::byte_rate_wide(channels, rate)
        <= 0xffff_ffffu64;
    // 36 + 2 * len fits 32 bits exactly when len stays within this bound.
    let data_ok: bool = len as u64 <= 2147483629u64;
    assert((36 + 2 * (len as int) <= u32::MAX) == (len as int <= 2147483629));
    byte_rate_ok && data_ok
}

} // verus!
