//! Recognition session: the loaded engine, the per-request options, the
//! decoding parameters asked of the inference backend, and the assembly
//! of its output segments into one text.
//!
//! The inference backend is an external collaborator. It alone can read
//! a model file into a native context and run a decode over samples;
//! the unverified driver performs those calls. What is verified here is
//! everything the session decides: which parameters every run is given
//! (deterministic single-best decoding, no cross-call context, the
//! requested language) and how the produced segments become the result
//! text (concatenated in chronological order, with nothing added and
//! nothing dropped).

use vstd::prelude::*;
use vstd::seq_lib::*;
use vstd::string::StringExecFns;

verus! {

/// Options for one transcription request: the language to decode in, or
/// `"auto"` to let the backend detect it. Immutable per request.
///
/// A caller wanting progress reports attaches its callback when the
/// driver builds the backend's parameter block; the callback carries no
/// influence over the decoded text, so it stays outside the session's
/// state.
pub struct RecognitionOptions {
    pub lang: String,
}

impl Default for RecognitionOptions {
    /// Options naming no language.
    fn default() -> (d: RecognitionOptions)
        ensures
            d.lang@ == Seq::<char>::empty(),
    {
        RecognitionOptions { lang: String::new() }
    }
}

/// One loaded recognition engine, as the verified session sees it: the
/// model file it was built from. Loading a new model fully replaces an
/// engine; there is no partial update.
///
/// The native inference context built from the file is an opaque
/// capability owned by the unverified driver, which constructs this
/// record only for a model file the backend has accepted.
pub struct Recognition {
    model: String,
}

impl View for Recognition {
    type V = Seq<char>;

    closed spec fn view(&self) -> Seq<char> {
        self.model@
    }
}

impl DeepView for Recognition {
    type V = Seq<char>;

    open spec fn deep_view(&self) -> Seq<char> {
        self.view()
    }
}

impl Recognition {
    /// An engine loaded from the given model file.
    pub fn new(model: String) -> (r: Recognition)
        ensures
            r@ == model@,
    {
        Recognition { model }
    }

    /// The model file this engine was built from.
    pub fn model(&self) -> (m: &String)
        ensures
            m@ == self@,
    {
        &self.model
    }
}

/// The parameter block every decode run is given. The strategy is fixed
/// for reproducibility: greedy decoding, best-of-one; context carry-over
/// between calls is disabled so each run is independent of prior runs.
pub struct DecodeParams {
    /// Candidates kept by the greedy sampling strategy.
    pub greedy_best_of: i32,
    /// Whether the run is cut off from the context of earlier runs.
    pub no_context: bool,
    /// Language to decode in, or `"auto"` for detection.
    pub lang: String,
}

/// Builds the parameter block for one request: greedy best-of-one
/// decoding, no cross-call context, and the language the options ask
/// for.
pub fn decode_params(options: &RecognitionOptions) -> (p: DecodeParams)
    ensures
        p.greedy_best_of == 1,
        p.no_context,
        p.lang@ == options.lang@,
{
    DecodeParams { greedy_best_of: 1, no_context: true, lang: options.lang.clone() }
}

/// Concatenates the text segments a decode run produced, in
/// chronological order, into the result text. Nothing is inserted
/// between segments and nothing is trimmed: whitespace is the caller's
/// concern. No segments yield the empty text.
pub fn concat_segments(segments: &Vec<String>) -> (text: String)
    ensures
        text@ == segments.deep_view().flatten(),
{
    let mut text = String::new();
    let n = segments.len();
    for i in 0..n
        invariant
            n == segments@.len(),
            text@ =~= segments.deep_view().take(i as int).flatten(),
    {
        text.append(segments[i].as_str());
        proof {
            let segs = segments.deep_view();
            segs.take(i as int).lemma_flatten_push(segs[i as int]);
            assert(segs.take(i + 1) =~= segs.take(i as int).push(segs[i as int]));
        }
    }
    proof {
        assert(segments.deep_view().take(n as int) =~= segments.deep_view());
    }
    text
}

/// Failures of the recognition side. Each is reported back to the
/// requester; none is fatal to the session.
#[derive(Clone, Debug)]
pub enum RecognitionError {
    /// The model file is missing, malformed or incompatible: the backend
    /// refused to build an engine from it.
    ModelLoadError { path: String, cause: String },
    /// A decode run could not start or a segment could not be
    /// retrieved.
    TranscriptionError { cause: String },
    /// A transcription was asked of a worker holding no engine.
    EngineNotReady,
}

/// The abstract value of a `RecognitionError`.
#[verifier::ext_equal]
pub enum RecognitionErrorView {
    ModelLoadError { path: Seq<char>, cause: Seq<char> },
    TranscriptionError { cause: Seq<char> },
    EngineNotReady,
}

impl View for RecognitionError {
    type V = RecognitionErrorView;

    open spec fn view(&self) -> RecognitionErrorView {
        match self {
            RecognitionError::ModelLoadError { path, cause } => RecognitionErrorView::ModelLoadError {
                path: path@,
                cause: cause@,
            },
            RecognitionError::TranscriptionError { cause } => RecognitionErrorView::TranscriptionError {
                cause: cause@,
            },
            RecognitionError::EngineNotReady => RecognitionErrorView::EngineNotReady,
        }
    }
}

impl DeepView for RecognitionError {
    type V = RecognitionErrorView;

    open spec fn deep_view(&self) -> RecognitionErrorView {
        self.view()
    }
}

} // verus!
