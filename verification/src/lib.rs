//! Voice capture core: a sample buffer, a rate resampler, a PCM WAV codec,
//! and the capture/transcription pipeline state machine built on them,
//! together with the application's configuration, history and message
//! types. Device handling, file reading and the recognition engine itself
//! live with the surrounding application, which drives this core and
//! receives either text, bytes, or a typed failure.

pub mod args;
pub mod buffer;
pub mod capture;
pub mod config;
pub mod errors;
pub mod history;
pub mod message;
pub mod pipeline;
pub mod resample;
pub mod transcribe;
pub mod wav;

pub use args::Args;
pub use buffer::SampleBuffer;
pub use capture::{AudioRecorder, StreamConfig};
pub use config::{get_default_config, AiProvider, AppConfig, UserConfig};
pub use errors::{CaptureError, PipelineError};
pub use history::{get_history, History};
pub use message::{AiMessage, AiMessageFrom};
pub use pipeline::{CapturePipeline, Utterance, MODEL_SAMPLE_RATE};
pub use resample::resample;
pub use transcribe::LocalTranscriber;
pub use wav::{decode, encode};
