//! The transcription worker: a single-consumer task that owns one
//! engine slot and executes recognition requests without blocking
//! whoever issues them.
//!
//! Callers enqueue requests with `submit`; the worker's own loop takes
//! them out one at a time, in arrival order, with `process_next`. A
//! request either configures the worker on the spot, is rejected with an
//! error to report, or becomes an action — a model load or a decode run
//! — that the unverified driver performs off the caller's thread before
//! handing the outcome back through the matching completion call.
//! Exactly one action is outstanding at a time: while one is, the queue
//! only grows, so a request submitted during a run waits its turn and
//! never preempts it.
//!
//! Because requests take effect strictly in arrival order, a
//! transcription uses the language in effect when it was submitted,
//! never one configured after it. A language set while no engine is
//! loaded is remembered and applies to the engines loaded later.

use vstd::prelude::*;
use crate::recognition::Recognition;
use crate::recognition::RecognitionError;
use crate::recognition::RecognitionErrorView;
use crate::recognition::RecognitionOptions;
use crate::recognition::concat_segments;

verus! {

/// A request to the worker: replace the engine by loading the given
/// model file, transcribe the given samples, or switch the language used
/// by later transcriptions.
pub enum RecognitionMsg {
    LoadModel(String),
    Transcribe(Vec<u32>),
    SetLang(String),
}

/// The abstract value of a `RecognitionMsg`.
#[verifier::ext_equal]
pub enum MsgView {
    LoadModel(Seq<char>),
    Transcribe(Seq<u32>),
    SetLang(Seq<char>),
}

impl View for RecognitionMsg {
    type V = MsgView;

    open spec fn view(&self) -> MsgView {
        match self {
            RecognitionMsg::LoadModel(path) => MsgView::LoadModel(path@),
            RecognitionMsg::Transcribe(samples) => MsgView::Transcribe(samples@),
            RecognitionMsg::SetLang(lang) => MsgView::SetLang(lang@),
        }
    }
}

impl DeepView for RecognitionMsg {
    type V = MsgView;

    open spec fn deep_view(&self) -> MsgView {
        self.view()
    }
}

/// Work the driver must perform before the worker takes another
/// request: run a decode over the samples with the given options, or
/// build an engine from the given model file.
pub enum WorkerAction {
    RunTranscription { samples: Vec<u32>, options: RecognitionOptions },
    LoadEngine { path: String },
}

/// The abstract value of a `WorkerAction`.
#[verifier::ext_equal]
pub enum ActionView {
    RunTranscription { samples: Seq<u32>, lang: Seq<char> },
    LoadEngine { path: Seq<char> },
}

impl View for WorkerAction {
    type V = ActionView;

    open spec fn view(&self) -> ActionView {
        match self {
            WorkerAction::RunTranscription { samples, options } => ActionView::RunTranscription {
                samples: samples@,
                lang: options.lang@,
            },
            WorkerAction::LoadEngine { path } => ActionView::LoadEngine { path: path@ },
        }
    }
}

/// What taking one request produced: nothing to do, a configuration
/// applied on the spot, an error to report to the requester, or an
/// action for the driver to perform.
pub enum Step {
    Idle,
    Handled,
    Report(RecognitionError),
    Perform(WorkerAction),
}

/// The abstract value of a `Step`.
#[verifier::ext_equal]
pub enum StepView {
    Idle,
    Handled,
    Report(RecognitionErrorView),
    Perform(ActionView),
}

impl View for Step {
    type V = StepView;

    open spec fn view(&self) -> StepView {
        match self {
            Step::Idle => StepView::Idle,
            Step::Handled => StepView::Handled,
            Step::Report(e) => StepView::Report(e@),
            Step::Perform(a) => StepView::Perform(a@),
        }
    }
}

/// Which kind of action is outstanding with the driver.
#[derive(Clone, Copy, PartialEq, Eq, Structural, Debug)]
pub enum PendingKind {
    Load,
    Transcribe,
}

/// The abstract state of a worker: the engine slot (the model the held
/// engine was built from, if any), the language later transcriptions
/// will use, the requests waiting in arrival order, and the action
/// outstanding with the driver, if any.
#[verifier::ext_equal]
pub struct WorkerView {
    pub engine: Option<Seq<char>>,
    pub lang: Seq<char>,
    pub queue: Seq<MsgView>,
    pub pending: Option<PendingKind>,
}

impl WorkerView {
    /// A request joins the back of the queue; nothing else moves.
    pub open spec fn after_submit(self, m: MsgView) -> WorkerView {
        WorkerView { queue: self.queue.push(m), ..self }
    }

    /// The state after taking one request: a language switch applies at
    /// once; a load or an accepted transcription leaves its action
    /// outstanding; a transcription without an engine changes nothing.
    pub open spec fn handle(self, m: MsgView) -> WorkerView {
        match m {
            MsgView::SetLang(l) => WorkerView { lang: l, ..self },
            MsgView::LoadModel(_) => WorkerView { pending: Some(PendingKind::Load), ..self },
            MsgView::Transcribe(_) => if self.engine is Some {
                WorkerView { pending: Some(PendingKind::Transcribe), ..self }
            } else {
                self
            },
        }
    }

    /// What taking one request produces. A transcription runs with the
    /// language in effect at this moment — the one configured before the
    /// request, in arrival order; without an engine it is rejected as
    /// `EngineNotReady`.
    pub open spec fn handle_step(self, m: MsgView) -> StepView {
        match m {
            MsgView::SetLang(_) => StepView::Handled,
            MsgView::LoadModel(p) => StepView::Perform(ActionView::LoadEngine { path: p }),
            MsgView::Transcribe(s) => if self.engine is Some {
                StepView::Perform(ActionView::RunTranscription { samples: s, lang: self.lang })
            } else {
                StepView::Report(RecognitionErrorView::EngineNotReady)
            },
        }
    }

    /// A request can be taken only when none is outstanding and the
    /// queue holds one.
    pub open spec fn can_step(self) -> bool {
        self.pending is None && self.queue.len() > 0
    }

    /// The front request leaves the queue.
    pub open spec fn popped(self) -> WorkerView {
        WorkerView { queue: self.queue.drop_first(), ..self }
    }

    /// The state after one scheduling step: the front request taken and
    /// handled, or everything unchanged when none can be.
    pub open spec fn after_step(self) -> WorkerView {
        if self.can_step() {
            self.popped().handle(self.queue.first())
        } else {
            self
        }
    }

    /// What one scheduling step produces.
    pub open spec fn step_result(self) -> StepView {
        if self.can_step() {
            self.popped().handle_step(self.queue.first())
        } else {
            StepView::Idle
        }
    }

    /// A successful load installs the new engine, replacing any held
    /// one.
    pub open spec fn after_load_ok(self, model: Seq<char>) -> WorkerView {
        WorkerView { engine: Some(model), pending: None, ..self }
    }

    /// A failed load leaves the engine slot exactly as it was —
    /// installed or absent.
    pub open spec fn after_load_failed(self) -> WorkerView {
        WorkerView { pending: None, ..self }
    }

    /// A finished decode run changes no state; only the outstanding
    /// action is retired.
    pub open spec fn after_transcription(self) -> WorkerView {
        WorkerView { pending: None, ..self }
    }
}

/// The transcription worker. It owns exactly one engine slot — initially
/// empty or pre-loaded — and the queue of requests, and it hands every
/// model load and decode run to the driver as an explicit action, so
/// that long inference never runs on the thread that asked for it.
pub struct RecognitionWorker {
    recognition: Option<Recognition>,
    lang: String,
    queue: Vec<RecognitionMsg>,
    pending: Option<PendingKind>,
}

impl View for RecognitionWorker {
    type V = WorkerView;

    closed spec fn view(&self) -> WorkerView {
        WorkerView {
            engine: self.recognition.deep_view(),
            lang: self.lang@,
            queue: self.queue.deep_view(),
            pending: self.pending,
        }
    }
}

impl RecognitionWorker {
    /// A worker holding the given engine (or none), with language
    /// detection (`"auto"`), an empty queue, and no outstanding action.
    pub fn init(recognition: Option<Recognition>) -> (w: RecognitionWorker)
        ensures
            w@ =~= (WorkerView {
                engine: recognition.deep_view(),
                lang: "auto"@,
                queue: Seq::<MsgView>::empty(),
                pending: None,
            }),
    {
        RecognitionWorker {
            recognition,
            lang: "auto".to_owned(),
            queue: Vec::new(),
            pending: None,
        }
    }

    /// Whether an engine is loaded: the synchronized read a caller uses
    /// instead of touching the slot.
    pub fn is_ready(&self) -> (b: bool)
        ensures
            b == (self@.engine is Some),
    {
        self.recognition.is_some()
    }

    /// Which kind of action is outstanding with the driver, if any: the
    /// guard a caller reads before retiring one.
    pub fn pending(&self) -> (p: Option<PendingKind>)
        ensures
            p == self@.pending,
    {
        self.pending
    }

    /// Enqueues one request behind every earlier one. Always accepted,
    /// also while an action is outstanding: the request waits its turn.
    pub fn submit(&mut self, msg: RecognitionMsg)
        ensures
            final(self)@ =~= old(self)@.after_submit(msg@),
    {
        self.queue.push(msg);
        proof {
            assert(self.queue.deep_view() =~= old(self).queue.deep_view().push(msg@));
        }
    }

    /// Takes one request, given directly. A language switch updates the
    /// worker at once; a load or an accepted transcription returns the
    /// action to perform and leaves it outstanding; a transcription
    /// without an engine returns `EngineNotReady` to report. Valid only
    /// while no action is outstanding.
    pub fn update(&mut self, msg: RecognitionMsg) -> (step: Step)
        requires
            old(self)@.pending is None,
        ensures
            final(self)@ =~= old(self)@.handle(msg@),
            step@ =~= old(self)@.handle_step(msg@),
    {
        match msg {
            RecognitionMsg::SetLang(lang) => {
                self.lang = lang;
                Step::Handled
            },
            RecognitionMsg::LoadModel(path) => {
                self.pending = Some(PendingKind::Load);
                Step::Perform(WorkerAction::LoadEngine { path })
            },
            RecognitionMsg::Transcribe(samples) => {
                if self.recognition.is_some() {
                    self.pending = Some(PendingKind::Transcribe);
                    let options = RecognitionOptions { lang: self.lang.clone() };
                    Step::Perform(WorkerAction::RunTranscription { samples, options })
                } else {
                    Step::Report(RecognitionError::EngineNotReady)
                }
            },
        }
    }

    /// One scheduling step: takes the front request when none is
    /// outstanding and the queue holds one, and is otherwise idle.
    pub fn process_next(&mut self) -> (step: Step)
        ensures
            final(self)@ =~= old(self)@.after_step(),
            step@ =~= old(self)@.step_result(),
    {
        if self.pending.is_some() || self.queue.len() == 0 {
            Step::Idle
        } else {
            let msg = self.queue.remove(0);
            proof {
                assert(self.queue.deep_view() =~= old(self).queue.deep_view().drop_first());
                assert(self@ =~= old(self)@.popped());
            }
            self.update(msg)
        }
    }

    /// Retires an outstanding load with the driver's outcome. A new
    /// engine replaces whatever the slot held; a failure leaves the slot
    /// exactly as it was and hands back the error, so a failed load is
    /// reported and never mistaken for a missing or a fresh engine.
    pub fn complete_load(&mut self, loaded: Result<Recognition, RecognitionError>) -> (report:
        Option<RecognitionError>)
        requires
            old(self)@.pending == Some(PendingKind::Load),
        ensures
            loaded matches Ok(engine) ==> final(self)@ =~= old(self)@.after_load_ok(engine@)
                && report is None,
            loaded matches Err(e) ==> final(self)@ =~= old(self)@.after_load_failed() && (
            report matches Some(back) && back@ == e@),
    {
        self.pending = None;
        match loaded {
            Ok(engine) => {
                self.recognition = Some(engine);
                None
            },
            Err(e) => Some(e),
        }
    }

    /// Retires an outstanding decode run with the driver's outcome. The
    /// produced segments become the result text, concatenated in order;
    /// a failure becomes a `TranscriptionError` carrying the driver's
    /// cause. Either way the result is reported, never swallowed, and
    /// the worker's state is untouched.
    pub fn complete_transcription(&mut self, outcome: Result<Vec<String>, String>) -> (r: Result<
        String,
        RecognitionError,
    >)
        requires
            old(self)@.pending == Some(PendingKind::Transcribe),
        ensures
            final(self)@ =~= old(self)@.after_transcription(),
            outcome matches Ok(segments) ==> (r matches Ok(text) && text@
                == segments.deep_view().flatten()),
            outcome matches Err(cause) ==> (r matches Err(e) && e@
                == (RecognitionErrorView::TranscriptionError { cause: cause@ })),
    {
        self.pending = None;
        match outcome {
            Ok(segments) => Ok(concat_segments(&segments)),
            Err(cause) => Err(RecognitionError::TranscriptionError { cause }),
        }
    }
}

/// Law: requests take effect in submission order, so a transcription
/// submitted before a language switch runs with the language in effect
/// at submission time, not with the one configured after it. Submitting
/// a transcription and then a new language to a ready, idle worker: the
/// first step performs the transcription with the worker's prior
/// language; only the step after the run's completion applies the
/// switch.
pub proof fn lemma_language_at_submission(w: WorkerView, samples: Seq<u32>, new_lang: Seq<char>)
    requires
        w.pending is None,
        w.queue.len() == 0,
        w.engine is Some,
    ensures
        ({
            let queued = w.after_submit(MsgView::Transcribe(samples)).after_submit(
                MsgView::SetLang(new_lang),
            );
            let switched = queued.after_step().after_transcription().after_step();
            &&& queued.step_result() == StepView::Perform(ActionView::RunTranscription {
                samples,
                lang: w.lang,
            })
            &&& queued.after_step().after_transcription().step_result() == StepView::Handled
            &&& switched.lang == new_lang
            &&& switched.engine == w.engine
        }),
{
    let queued = w.after_submit(MsgView::Transcribe(samples)).after_submit(
        MsgView::SetLang(new_lang),
    );
    assert(queued.queue.first() == MsgView::Transcribe(samples));
    assert(queued.popped().queue =~= seq![MsgView::SetLang(new_lang)]);
    assert(queued.after_step().after_transcription().queue.first() == MsgView::SetLang(new_lang));
    assert(queued.after_step().after_transcription().after_step().queue =~= Seq::<
        MsgView,
    >::empty());
}

/// Law: a failed model load leaves the engine slot exactly as it was.
/// In particular, when no engine was ever loaded, a transcription taken
/// after the failure is still rejected as `EngineNotReady`, exactly as
/// before the attempt.
pub proof fn lemma_failed_load_preserves_engine(w: WorkerView, samples: Seq<u32>)
    requires
        w.pending == Some(PendingKind::Load),
    ensures
        w.after_load_failed().engine == w.engine,
        w.after_load_failed().lang == w.lang,
        w.engine is None ==> w.after_load_failed().handle_step(MsgView::Transcribe(samples))
            == StepView::Report(RecognitionErrorView::EngineNotReady),
{
}

/// Law: a worker holding an engine accepts every transcription request —
/// empty sample sequences included — as a decode run over exactly the
/// submitted samples, with the language in effect; it never rejects one.
pub proof fn lemma_transcribe_accepted_when_ready(w: WorkerView, samples: Seq<u32>)
    requires
        w.engine is Some,
    ensures
        w.handle_step(MsgView::Transcribe(samples)) == StepView::Perform(
            ActionView::RunTranscription { samples, lang: w.lang },
        ),
{
}

} // verus!
