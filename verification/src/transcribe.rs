//! The transcriber's decision layer. Loading the model file and running the
//! inference itself belong to the recognition engine that the surrounding
//! application owns; this module decides what those outcomes mean: a failed
//! load is a typed, recoverable error, a failed inference is a typed error
//! the caller may retry, and a successful inference's segment texts are
//! assembled into the final transcript. An empty transcript from a
//! successful run means "no speech detected" and is distinct from failure.

use vstd::prelude::*;
use vstd::string::StringExecFns;

use crate::errors::PipelineError;
use crate::pipeline::MODEL_SAMPLE_RATE;

verus! {

/// The segment texts joined in order, one space between neighbours; no
/// segments yield the empty transcript.
pub open spec fn joined(segments: Seq<Seq<char>>) -> Seq<char>
    decreases segments.len(),
{
    if segments.len() == 0 {
        Seq::empty()
    } else if segments.len() == 1 {
        segments[0]
    } else {
        joined(segments.drop_last()) + seq![' '] + segments.last()
    }
}

/// The sequence of segment views of a vector of segment texts.
pub open spec fn segment_views(segments: Seq<String>) -> Seq<Seq<char>> {
    segments.map_values(|s: String| s@)
}

/// The speech recognizer of a capture pipeline, constructed once from the
/// outcome of loading the model file and reused for every utterance.
pub struct LocalTranscriber {}

impl LocalTranscriber {
    /// Builds the transcriber from the outcome of loading the recognition
    /// model: a model that could not be loaded (missing path or invalid
    /// format) is a typed [`PipelineError::ModelLoad`] failure, fatal to
    /// transcription but recoverable for the caller, who may continue
    /// without voice input.
    pub fn new(model_loaded: bool) -> (r: Result<LocalTranscriber, PipelineError>)
        ensures
            model_loaded ==> r is Ok,
            !model_loaded ==> r == Err::<LocalTranscriber, PipelineError>(
                PipelineError::ModelLoad,
            ),
    {
        if model_loaded {
            Ok(LocalTranscriber {  })
        } else {
            Err(PipelineError::ModelLoad)
        }
    }

    /// The sample rate this transcriber requires its input at; converting
    /// the utterance to it is the pipeline's responsibility, not this
    /// type's.
    pub fn required_sample_rate(&self) -> (rate: u32)
        ensures
            rate == MODEL_SAMPLE_RATE,
    {
        MODEL_SAMPLE_RATE
    }

    /// Turns one inference outcome into the transcription result: a failure
    /// inside the recognition engine becomes the typed, retryable
    /// [`PipelineError::Inference`]; the segment texts of a successful run
    /// are joined in order into the transcript, which is empty exactly when
    /// the model produced no segments.
    pub fn transcribe_outcome(&self, segments: Option<Vec<String>>) -> (r: Result<
        String,
        PipelineError,
    >)
        ensures
            segments is None ==> r == Err::<String, PipelineError>(PipelineError::Inference),
            segments matches Some(segs) ==> {
                &&& r is Ok
                &&& r->Ok_0@ == joined(segment_views(segs@))
            },
    {
        match segments {
            None => Err(PipelineError::Inference),
            Some(segs) => Ok(join_segments(&segs)),
        }
    }
}

/// Extending the segment prefix by one segment appends a space (after a
/// nonempty prefix) and that segment.
proof fn lemma_joined_push(views: Seq<Seq<char>>, i: int)
    requires
        0 <= i < views.len(),
    ensures
        i == 0 ==> joined(views.take(1)) == views[0],
        i > 0 ==> joined(views.take(i + 1)) == joined(views.take(i)) + seq![' '] + views[i],
{
    assert(views.take(i + 1).drop_last() =~= views.take(i));
    assert(views.take(i + 1).last() == views[i]);
    if i == 0 {
        assert(views.take(1)[0] == views[0]);
    }
}

/// Joins the segment texts in order with one space between neighbours.
fn join_segments(segments: &Vec<String>) -> (text: String)
    ensures
        text@ == joined(segment_views(segments@)),
{
    let ghost views: Seq<Seq<char>> = segment_views(segments@);
    let mut text = String::new();
    let mut i: usize = 0;
    while i < segments.len()
        invariant
            0 <= i <= segments@.len(),
            views == segment_views(segments@),
            views.len() == segments@.len(),
            text@ == joined(views.take(i as int)),
        decreases segments@.len() - i,
    {
        if i > 0 {
            text.append(" ");
            proof {
                reveal_strlit(" ");
            }
        }
        text.append(segments[i].as_str());
        proof {
            lemma_joined_push(views, i as int);
            assert(views[i as int] == segments@[i as int]@);
            if i == 0 {
                assert(text@ =~= joined(views.take(i + 1)));
            } else {
                assert(text@ =~= joined(views.take(i + 1)));
            }
        }
        i = i + 1;
    }
    proof {
        assert(views.take(segments@.len() as int) =~= views);
    }
    text
}

} // verus!
