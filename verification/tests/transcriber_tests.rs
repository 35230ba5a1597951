use potato_voice::{LocalTranscriber, PipelineError};

#[test]
fn missing_model_is_a_typed_load_error() {
    // The surrounding application maps a nonexistent model path to a failed
    // load; the transcriber turns that into the typed, recoverable error.
    let result = LocalTranscriber::new(false);
    assert!(matches!(result, Err(PipelineError::ModelLoad)));
}

#[test]
fn loaded_model_builds_the_transcriber() {
    let transcriber = LocalTranscriber::new(true).expect("loaded model constructs");
    assert_eq!(transcriber.required_sample_rate(), 16000);
}

#[test]
fn failed_inference_is_a_typed_error() {
    let transcriber = LocalTranscriber::new(true).unwrap();
    assert_eq!(transcriber.transcribe_outcome(None), Err(PipelineError::Inference));
}

#[test]
fn segments_join_with_single_spaces() {
    let transcriber = LocalTranscriber::new(true).unwrap();
    let segments = vec!["hello".to_string(), "there".to_string(), "world".to_string()];
    assert_eq!(transcriber.transcribe_outcome(Some(segments)), Ok("hello there world".to_string()));
}

#[test]
fn single_segment_is_the_transcript() {
    let transcriber = LocalTranscriber::new(true).unwrap();
    let segments = vec!["only".to_string()];
    assert_eq!(transcriber.transcribe_outcome(Some(segments)), Ok("only".to_string()));
}

#[test]
fn no_segments_mean_empty_but_successful() {
    // An empty transcript is "no speech detected", distinct from a failure.
    let transcriber = LocalTranscriber::new(true).unwrap();
    assert_eq!(transcriber.transcribe_outcome(Some(vec![])), Ok(String::new()));
}
