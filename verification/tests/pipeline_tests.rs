use std::io::Cursor;

use potato_voice::{
    decode, AudioRecorder, CaptureError, CapturePipeline, PipelineError, SampleBuffer,
    StreamConfig, MODEL_SAMPLE_RATE,
};

fn mono_16k() -> StreamConfig {
    StreamConfig { channels: 1, sample_rate: 16000 }
}

#[test]
fn buffer_drain_returns_appends_in_order() {
    let mut buf = SampleBuffer::new();
    buf.append(&[1, 2, 3]);
    buf.append(&[4, 5]);
    assert_eq!(buf.len(), 5);
    let drained = buf.drain();
    assert_eq!(drained, vec![1, 2, 3, 4, 5]);
    assert_eq!(buf.len(), 0);
    // A later session sees only what was appended after the drain.
    buf.append(&[6]);
    assert_eq!(buf.drain(), vec![6]);
}

#[test]
fn recorder_stop_with_nothing_recorded_fails() {
    let mut rec = AudioRecorder::new(mono_16k());
    assert!(rec.start().is_ok());
    assert_eq!(rec.stop(), Err(CaptureError::EmptyCapture));
    assert!(!rec.recording());
}

#[test]
fn recorder_stop_returns_session_samples() {
    let mut rec = AudioRecorder::new(mono_16k());
    assert!(rec.start().is_ok());
    rec.append(&[9, 8, 7]);
    assert_eq!(rec.stop(), Ok(vec![9, 8, 7]));
    assert_eq!(rec.len(), 0);
}

#[test]
fn second_start_is_rejected_and_keeps_samples() {
    let mut p = CapturePipeline::new(mono_16k());
    assert!(p.begin_capture().is_ok());
    p.append_samples(&[1, 2, 3]);
    assert_eq!(p.begin_capture(), Err(CaptureError::AlreadyRecording));
    assert!(p.is_recording());
    assert_eq!(p.captured_len(), 3);
    let utterance = p.end_capture().expect("samples were captured");
    assert_eq!(utterance.samples, vec![1, 2, 3]);
}

#[test]
fn start_after_stop_begins_fresh_session() {
    let mut p = CapturePipeline::new(mono_16k());
    assert!(p.begin_capture().is_ok());
    p.append_samples(&[1]);
    let _ = p.end_capture().unwrap();
    assert!(p.begin_capture().is_ok());
    assert_eq!(p.captured_len(), 0);
    p.append_samples(&[2]);
    assert_eq!(p.end_capture().unwrap().samples, vec![2]);
}

#[test]
fn end_capture_empty_session_fails() {
    let mut p = CapturePipeline::new(mono_16k());
    assert!(p.begin_capture().is_ok());
    assert!(matches!(p.end_capture(), Err(PipelineError::EmptyCapture)));
    assert!(!p.is_recording());
}

#[test]
fn cancel_capture_reverts_to_idle() {
    let mut p = CapturePipeline::new(mono_16k());
    assert!(p.begin_capture().is_ok());
    p.append_samples(&[5]);
    p.cancel_capture();
    assert!(!p.is_recording());
    assert_eq!(p.captured_len(), 0);
}

#[test]
fn export_scenario_half_amplitude() {
    // 16000 samples of quantized 0.5 at a native rate of 16000 Hz.
    let half = (0.5f32 * 32767.0).round() as i16;
    assert!((half as i32 - 16383).abs() <= 1);
    let mut p = CapturePipeline::new(mono_16k());
    assert!(p.begin_capture().is_ok());
    p.append_samples(&vec![half; 16000]);
    let bytes = p.end_capture_and_export().expect("nonempty session exports");
    let (decoded, channels, rate) = decode(&bytes).expect("exported container decodes");
    assert_eq!(channels, 1);
    assert_eq!(rate, 16000);
    assert_eq!(decoded.len(), 16000);
    assert!(decoded.iter().all(|&s| (s as i32 - 16383i32).abs() <= 1));
    // A standard reader sees the same data chunk.
    let mut reader = hound::WavReader::new(Cursor::new(bytes)).unwrap();
    let read: Vec<i16> = reader.samples::<i16>().map(|s| s.unwrap()).collect();
    assert_eq!(read.len(), 16000);
    assert!(read.iter().all(|&s| (s as i32 - 16383).abs() <= 1));
}

#[test]
fn export_empty_session_fails() {
    let mut p = CapturePipeline::new(mono_16k());
    assert!(p.begin_capture().is_ok());
    assert!(matches!(p.end_capture_and_export(), Err(PipelineError::EmptyCapture)));
}

#[test]
fn export_oversized_block_align_fails_with_encoding() {
    // 40000 interleaved channels: twice that many bytes per frame no longer
    // fits the container's 16-bit block-align field.
    let mut p = CapturePipeline::new(StreamConfig { channels: 40000, sample_rate: 16000 });
    assert!(p.begin_capture().is_ok());
    p.append_samples(&[0; 40000]);
    assert!(matches!(p.end_capture_and_export(), Err(PipelineError::Encoding)));
}

#[test]
fn transcription_path_resamples_to_model_rate() {
    let mut p = CapturePipeline::new(StreamConfig { channels: 1, sample_rate: 32000 });
    assert!(p.begin_capture().is_ok());
    p.append_samples(&[10, 11, 12, 13, 14, 15, 16, 17]);
    let prepared = p.end_capture_for_transcription().expect("nonempty session");
    assert_eq!(prepared, vec![10, 12, 14, 16]);
}

#[test]
fn transcription_path_keeps_model_rate_input() {
    let mut p = CapturePipeline::new(mono_16k());
    assert!(p.begin_capture().is_ok());
    p.append_samples(&[1, 2, 3]);
    let prepared = p.end_capture_for_transcription().expect("nonempty session");
    assert_eq!(prepared, vec![1, 2, 3]);
    assert_eq!(MODEL_SAMPLE_RATE, 16000);
}

#[test]
fn transcription_path_empty_session_fails() {
    let mut p = CapturePipeline::new(mono_16k());
    assert!(p.begin_capture().is_ok());
    assert!(matches!(p.end_capture_for_transcription(), Err(PipelineError::EmptyCapture)));
}

#[test]
fn stream_config_is_kept() {
    let config = StreamConfig { channels: 2, sample_rate: 48000 };
    let p = CapturePipeline::new(config);
    assert_eq!(p.stream_config(), config);
}

#[test]
fn error_messages_name_the_failure() {
    assert_eq!(CaptureError::AlreadyRecording.message(), "already recording");
    assert_eq!(CaptureError::Device.message(), "no input device available");
    assert_eq!(CaptureError::Stream.message(), "could not open the input stream");
    assert_eq!(CaptureError::EmptyCapture.message(), "no audio recorded");
    assert_eq!(PipelineError::EmptyCapture.message(), "no audio recorded");
    assert_eq!(PipelineError::Encoding.message(), "could not finalize the audio container");
    assert_eq!(PipelineError::ModelLoad.message(), "could not load the recognition model");
    assert_eq!(PipelineError::Inference.message(), "transcription failed");
}
