//! The dictation orchestrator: the state machine that turns control events
//! and the replies of the other actors into requests and keyboard operations.
//!
//! The orchestrator asks and then waits. Every request that needs an answer
//! (`GetSamples`, `StopRecording`, `Transcribe`) puts it into a state in which
//! only that answer moves it on, so no two transcriptions ever run at once.
//! Whoever drives it performs the action that `step` returns and hands the
//! answer back as the next event.

use vstd::prelude::*;

use crate::pure::edit_distance::{lemma_edit_ops_reach_target, spec_edit_ops, KeyOp, Screen};
use crate::pure::typing_state::TypingState;
use crate::sources::{
    calls_texts, spec_plan, AudioSource, Capture, KeyboardSink, SourceError, Transcriber,
};

verus! {

/// A control event for the orchestrator.
#[derive(Debug, Clone, Copy, PartialEq, Eq, Structural)]
pub enum KeyboardMsg {
    /// The push-to-talk key went down.
    PTTPressed,
    /// The push-to-talk key went up.
    PTTReleased,
    /// It is time to show what has been heard so far.
    PartialTranscribe,
}

/// Which hypothesis a transcription is for.
#[derive(Debug, Clone, Copy, PartialEq, Eq, Structural)]
pub enum Hypothesis {
    /// What has been heard while the key is still down.
    Partial,
    /// What was heard in the whole recording.
    Final,
}

/// Where a dictation turn stands.
#[derive(Debug, Clone, Copy, PartialEq, Eq, Structural)]
pub enum Phase {
    /// No turn is running.
    Idle,
    /// Audio is being captured.
    Recording,
    /// A hypothesis is being obtained.
    Transcribing(Hypothesis),
}

/// The answer that the orchestrator is blocked on.
#[derive(Debug, Clone, Copy, PartialEq, Eq, Structural)]
pub enum Awaiting {
    /// None: control events are taken.
    Nothing,
    /// The samples asked of the audio coordinator.
    Samples,
    /// The text asked of the transcriber worker.
    Transcript,
}

/// What happened: a control event, or the answer to the last request. A
/// request that failed, or whose answer never came, is an `Err`.
pub enum Event<S> {
    Control(KeyboardMsg),
    Samples(Result<Vec<S>, SourceError>),
    Transcript(Result<String, SourceError>),
}

/// What is to be done next.
pub enum Action<S> {
    /// Nothing.
    Nothing,
    /// Tell the audio coordinator to start a capture. No answer is expected.
    StartRecording,
    /// Ask the audio coordinator for the samples captured so far.
    GetSamples,
    /// Ask the audio coordinator to end the capture and hand over its samples.
    StopRecording,
    /// Ask the transcriber worker for the text in these samples.
    Transcribe(Vec<S>),
    /// Hand these operations to the keyboard sink.
    Emit(Vec<KeyOp>),
}

/// An event as the state machine sees it: of a failure only that it is one.
pub enum EventView<S> {
    Control(KeyboardMsg),
    Samples(Option<Seq<S>>),
    Transcript(Option<Seq<char>>),
}

/// An action as the state machine states it.
pub enum ActionView<S> {
    Nothing,
    StartRecording,
    GetSamples,
    StopRecording,
    Transcribe(Seq<S>),
    Emit(Seq<KeyOp>),
}

impl<S> View for Event<S> {
    type V = EventView<S>;

    open spec fn view(&self) -> EventView<S> {
        match self {
            Event::Control(msg) => EventView::Control(*msg),
            Event::Samples(Ok(samples)) => EventView::Samples(Some(samples@)),
            Event::Samples(Err(_)) => EventView::Samples(None),
            Event::Transcript(Ok(text)) => EventView::Transcript(Some(text@)),
            Event::Transcript(Err(_)) => EventView::Transcript(None),
        }
    }
}

impl<S> View for Action<S> {
    type V = ActionView<S>;

    open spec fn view(&self) -> ActionView<S> {
        match self {
            Action::Nothing => ActionView::Nothing,
            Action::StartRecording => ActionView::StartRecording,
            Action::GetSamples => ActionView::GetSamples,
            Action::StopRecording => ActionView::StopRecording,
            Action::Transcribe(samples) => ActionView::Transcribe(samples@),
            Action::Emit(ops) => ActionView::Emit(ops@),
        }
    }
}

/// The state of the orchestrator: the phase of the turn, the answer it
/// waits for, and the text on screen.
pub struct State {
    pub phase: Phase,
    pub awaiting: Awaiting,
    pub typed: Seq<char>,
}

/// The phase that follows a transcription, whether or not it gave a text.
pub open spec fn successor(hypothesis: Hypothesis) -> Phase {
    match hypothesis {
        Hypothesis::Partial => Phase::Recording,
        Hypothesis::Final => Phase::Idle,
    }
}

impl State {
    /// The state at the start: idle, waiting for nothing, an empty screen.
    pub open spec fn initial() -> State {
        State { phase: Phase::Idle, awaiting: Awaiting::Nothing, typed: Seq::empty() }
    }

    /// The answers that can be outstanding in each phase.
    pub open spec fn wf(self) -> bool {
        match self.phase {
            Phase::Idle => self.awaiting is Nothing,
            Phase::Recording => self.awaiting is Nothing || self.awaiting is Samples,
            Phase::Transcribing(Hypothesis::Partial) => self.awaiting is Transcript,
            Phase::Transcribing(Hypothesis::Final) => self.awaiting is Samples
                || self.awaiting is Transcript,
        }
    }

    /// The state with another phase and another awaited answer.
    pub open spec fn moved(self, phase: Phase, awaiting: Awaiting) -> State {
        State { phase, awaiting, typed: self.typed }
    }

    /// The state after `event`, and the action that the event calls for.
    ///
    /// An event for which no line below stands changes nothing and calls
    /// for nothing: a key press outside `Idle`, a release or a tick outside
    /// `Recording`, a control event while an answer is outstanding, an answer
    /// that was not asked for.
    pub open spec fn next<S>(self, event: EventView<S>) -> (State, ActionView<S>) {
        match (self.phase, self.awaiting, event) {
            (Phase::Idle, Awaiting::Nothing, EventView::Control(KeyboardMsg::PTTPressed)) => (
                State { phase: Phase::Recording, awaiting: Awaiting::Nothing, typed: Seq::empty() },
                ActionView::StartRecording,
            ),
            (
                Phase::Recording,
                Awaiting::Nothing,
                EventView::Control(KeyboardMsg::PartialTranscribe),
            ) => (self.moved(Phase::Recording, Awaiting::Samples), ActionView::GetSamples),
            (Phase::Recording, Awaiting::Nothing, EventView::Control(KeyboardMsg::PTTReleased)) => (
                self.moved(Phase::Transcribing(Hypothesis::Final), Awaiting::Samples),
                ActionView::StopRecording,
            ),
            (Phase::Recording, Awaiting::Samples, EventView::Samples(answer)) => match answer {
                Some(samples) if samples.len() > 0 => (
                    self.moved(Phase::Transcribing(Hypothesis::Partial), Awaiting::Transcript),
                    ActionView::Transcribe(samples),
                ),
                _ => (self.moved(Phase::Recording, Awaiting::Nothing), ActionView::Nothing),
            },
            (
                Phase::Transcribing(Hypothesis::Final),
                Awaiting::Samples,
                EventView::Samples(answer),
            ) => match answer {
                Some(samples) if samples.len() > 0 => (
                    self.moved(Phase::Transcribing(Hypothesis::Final), Awaiting::Transcript),
                    ActionView::Transcribe(samples),
                ),
                Some(_) => (State::initial(), ActionView::Nothing),
                None => (self.moved(Phase::Idle, Awaiting::Nothing), ActionView::Nothing),
            },
            (Phase::Transcribing(hypothesis), Awaiting::Transcript, EventView::Transcript(answer)) => {
                match answer {
                    Some(text) => (
                        State {
                            phase: successor(hypothesis),
                            awaiting: Awaiting::Nothing,
                            typed: text,
                        },
                        ActionView::Emit(spec_edit_ops(self.typed, text)),
                    ),
                    None => (
                        self.moved(successor(hypothesis), Awaiting::Nothing),
                        ActionView::Nothing,
                    ),
                }
            },
            _ => (self, ActionView::Nothing),
        }
    }
}

/// The orchestrator of one dictation pipeline.
pub struct Orchestrator {
    phase: Phase,
    awaiting: Awaiting,
    typing: TypingState,
}

impl View for Orchestrator {
    type V = State;

    closed spec fn view(&self) -> State {
        State { phase: self.phase, awaiting: self.awaiting, typed: self.typing@ }
    }
}

impl Orchestrator {
    /// An idle orchestrator with an empty screen.
    pub fn new() -> (orchestrator: Self)
        ensures
            orchestrator@ == State::initial(),
            orchestrator@.wf(),
    {
        Self { phase: Phase::Idle, awaiting: Awaiting::Nothing, typing: TypingState::new() }
    }

    /// The phase of the turn.
    pub fn phase(&self) -> (phase: Phase)
        ensures
            phase == self@.phase,
    {
        self.phase
    }

    /// Whether audio is being captured and no hypothesis is being obtained: the
    /// only phase in which a partial-poll tick is taken.
    pub fn is_recording(&self) -> (recording: bool)
        ensures
            recording == (self@.phase is Recording),
    {
        match self.phase {
            Phase::Recording => true,
            _ => false,
        }
    }

    /// Whether the orchestrator waits for an answer. While it does, it takes
    /// that answer and nothing else.
    pub fn is_blocked(&self) -> (blocked: bool)
        ensures
            blocked == !(self@.awaiting is Nothing),
    {
        match self.awaiting {
            Awaiting::Nothing => false,
            _ => true,
        }
    }

    /// The text on screen.
    pub fn typed(&self) -> (text: &str)
        ensures
            text@ == self@.typed,
    {
        self.typing.typed()
    }

    /// Takes `event`, moves to the next state and returns the action that the
    /// event calls for, as `State::next` defines both. The outstanding answer
    /// goes on fitting the phase.
    pub fn step<S>(&mut self, event: Event<S>) -> (action: Action<S>)
        ensures
            (final(self)@, action@) == old(self)@.next(event@),
            old(self)@.wf() ==> final(self)@.wf(),
    {
        proof {
            if self@.wf() {
                lemma_next_keeps_wf(self@, event@);
            }
        }
        match event {
            Event::Control(msg) => {
                match (self.phase, self.awaiting, msg) {
                    (Phase::Idle, Awaiting::Nothing, KeyboardMsg::PTTPressed) => {
                        self.typing.clear();
                        self.phase = Phase::Recording;
                        Action::StartRecording
                    },
                    (Phase::Recording, Awaiting::Nothing, KeyboardMsg::PartialTranscribe) => {
                        self.awaiting = Awaiting::Samples;
                        Action::GetSamples
                    },
                    (Phase::Recording, Awaiting::Nothing, KeyboardMsg::PTTReleased) => {
                        self.phase = Phase::Transcribing(Hypothesis::Final);
                        self.awaiting = Awaiting::Samples;
                        Action::StopRecording
                    },
                    _ => Action::Nothing,
                }
            },
            Event::Samples(answer) => {
                match (self.phase, self.awaiting) {
                    (Phase::Recording, Awaiting::Samples) => {
                        match answer {
                            Ok(samples) => {
                                if samples.len() > 0 {
                                    self.phase = Phase::Transcribing(Hypothesis::Partial);
                                    self.awaiting = Awaiting::Transcript;
                                    Action::Transcribe(samples)
                                } else {
                                    self.awaiting = Awaiting::Nothing;
                                    Action::Nothing
                                }
                            },
                            Err(_) => {
                                self.awaiting = Awaiting::Nothing;
                                Action::Nothing
                            },
                        }
                    },
                    (Phase::Transcribing(Hypothesis::Final), Awaiting::Samples) => {
                        match answer {
                            Ok(samples) => {
                                if samples.len() > 0 {
                                    self.awaiting = Awaiting::Transcript;
                                    Action::Transcribe(samples)
                                } else {
                                    self.typing.clear();
                                    self.phase = Phase::Idle;
                                    self.awaiting = Awaiting::Nothing;
                                    Action::Nothing
                                }
                            },
                            Err(_) => {
                                self.phase = Phase::Idle;
                                self.awaiting = Awaiting::Nothing;
                                Action::Nothing
                            },
                        }
                    },
                    _ => Action::Nothing,
                }
            },
            Event::Transcript(answer) => {
                match (self.phase, self.awaiting) {
                    (Phase::Transcribing(hypothesis), Awaiting::Transcript) => {
                        let after = match hypothesis {
                            Hypothesis::Partial => Phase::Recording,
                            Hypothesis::Final => Phase::Idle,
                        };
                        match answer {
                            Ok(text) => {
                                let ops = self.typing.transition(text.as_str());
                                self.phase = after;
                                self.awaiting = Awaiting::Nothing;
                                Action::Emit(ops)
                            },
                            Err(_) => {
                                self.phase = after;
                                self.awaiting = Awaiting::Nothing;
                                Action::Nothing
                            },
                        }
                    },
                    _ => Action::Nothing,
                }
            },
        }
    }
}

impl Default for Orchestrator {
    fn default() -> (orchestrator: Self)
        ensures
            orchestrator@ == State::initial(),
    {
        Self::new()
    }
}

/// Where a control event leads once every request it sets off has been
/// answered: the audio source hands over `gathered` if it is asked, the
/// transcriber answers `heard` (`None` for a failure) if it is asked. The
/// result is the state reached and the operations emitted on the way.
pub open spec fn settled<S>(
    state: State,
    msg: KeyboardMsg,
    gathered: Seq<S>,
    heard: Option<Seq<char>>,
) -> (State, Seq<KeyOp>) {
    let (asked, first) = state.next(EventView::<S>::Control(msg));
    if first is GetSamples || first is StopRecording {
        let (fetched, second) = asked.next(EventView::Samples(Some(gathered)));
        if second is Transcribe {
            let (done, third) = fetched.next(EventView::<S>::Transcript(heard));
            match third {
                ActionView::Emit(ops) => (done, ops),
                _ => (done, Seq::empty()),
            }
        } else {
            (fetched, Seq::empty())
        }
    } else {
        (asked, Seq::empty())
    }
}

/// What a transcriber's announced answer is to the orchestrator: the text,
/// or nothing for a failure.
pub open spec fn text_of(answer: Result<Seq<char>, Seq<char>>) -> Option<Seq<char>> {
    match answer {
        Ok(text) => Some(text),
        Err(_) => None,
    }
}

/// Takes one control event through the whole pipeline, with the collaborators
/// at hand instead of behind mailboxes: every request that the orchestrator
/// makes is carried out at once and its answer handed back, and the
/// operations that come of it are carried out on `sink`.
///
/// An orchestrator that waits for nothing waits for nothing afterwards.
/// Where the audio source, the transcriber and the sink keep account of
/// themselves, the outcome is exact: the orchestrator is where `settled`
/// says, and the sink has received the calls planned for the emitted
/// operations and nothing else.
pub fn dispatch<S, A, T, K>(
    orchestrator: &mut Orchestrator,
    msg: KeyboardMsg,
    audio: &mut A,
    transcriber: &T,
    sink: &mut K,
) where A: AudioSource<S>, T: Transcriber<S>, K: KeyboardSink
    ensures
        old(orchestrator)@.wf() && old(orchestrator)@.awaiting is Nothing ==> {
            &&& final(orchestrator)@.wf()
            &&& final(orchestrator)@.awaiting is Nothing
        },
        old(audio).capture() is Some ==> final(audio).capture() is Some,
        old(audio).capture() matches Some(held) ==> (transcriber.hears(held.gathered) matches Some(
            answer,
        ) ==> (old(sink).received() matches Some(log) ==> {
            let outcome = settled(old(orchestrator)@, msg, held.gathered, text_of(answer));
            &&& final(orchestrator)@ == outcome.0
            &&& final(sink).received() == Some(log + calls_texts(spec_plan(outcome.1)))
        })),
{
    proof {
        if let Some(log) = sink.received() {
            assert(spec_plan(Seq::<KeyOp>::empty()) =~= Seq::<crate::sources::SinkCallView>::empty());
            assert(log + calls_texts(spec_plan(Seq::<KeyOp>::empty())) =~= log);
        }
    }
    let first: Action<S> = orchestrator.step(Event::Control(msg));
    let fetched: Action<S> = match first {
        Action::StartRecording => {
            let _ = audio.start();
            return ;
        },
        Action::GetSamples => {
            let samples = audio.get_current_samples();
            orchestrator.step(Event::Samples(Ok(samples)))
        },
        Action::StopRecording => {
            let samples = audio.stop();
            orchestrator.step(Event::Samples(Ok(samples)))
        },
        _ => {
            return ;
        },
    };
    match fetched {
        Action::Transcribe(samples) => {
            let heard = transcriber.transcribe(samples.as_slice());
            let last: Action<S> = orchestrator.step(Event::Transcript(heard));
            match last {
                Action::Emit(ops) => {
                    sink.execute_ops(ops.as_slice());
                },
                _ => {},
            }
        },
        _ => {},
    }
}

/// In every state that can be reached, the outstanding answer fits the phase.
pub proof fn lemma_next_keeps_wf<S>(state: State, event: EventView<S>)
    requires
        state.wf(),
    ensures
        state.next(event).0.wf(),
{
}

/// A key press in `Idle` starts a turn: the screen is taken as empty, the
/// audio coordinator is told to record, and no answer is awaited.
pub proof fn lemma_press_starts_turn<S>(state: State)
    requires
        state.phase is Idle,
        state.awaiting is Nothing,
    ensures
        state.next(EventView::<S>::Control(KeyboardMsg::PTTPressed)) == (
            State { phase: Phase::Recording, awaiting: Awaiting::Nothing, typed: Seq::empty() },
            ActionView::<S>::StartRecording,
        ),
{
}

/// While an answer is outstanding, a control event changes nothing and calls
/// for nothing.
pub proof fn lemma_blocked_ignores_control<S>(state: State, msg: KeyboardMsg)
    requires
        !(state.awaiting is Nothing),
    ensures
        state.next(EventView::<S>::Control(msg)) == (state, ActionView::<S>::Nothing),
{
}

/// A tick outside `Recording` changes nothing and calls for nothing.
pub proof fn lemma_tick_outside_recording<S>(state: State)
    requires
        !(state.phase is Recording),
    ensures
        state.next(EventView::<S>::Control(KeyboardMsg::PartialTranscribe)) == (
            state,
            ActionView::<S>::Nothing,
        ),
{
}

/// When the capture ends with an empty buffer, the transcriber is not asked
/// and no operation is emitted: the turn ends in `Idle` with the screen taken
/// as empty.
pub proof fn lemma_empty_recording_ends_turn<S>(state: State)
    requires
        state.phase == Phase::Transcribing(Hypothesis::Final),
        state.awaiting is Samples,
    ensures
        state.next(EventView::Samples(Some(Seq::<S>::empty()))) == (
            State::initial(),
            ActionView::<S>::Nothing,
        ),
{
}

/// A poll that finds no samples leaves the orchestrator recording, with the
/// screen as it was.
pub proof fn lemma_empty_poll_keeps_recording<S>(state: State)
    requires
        state.phase is Recording,
        state.awaiting is Samples,
    ensures
        state.next(EventView::Samples(Some(Seq::<S>::empty()))) == (
            state.moved(Phase::Recording, Awaiting::Nothing),
            ActionView::<S>::Nothing,
        ),
{
}

/// The transcriber is asked only in answer to samples, never with an empty
/// buffer, and always with exactly the samples that came.
pub proof fn lemma_transcribe_forwards_samples<S>(state: State, event: EventView<S>, audio: Seq<S>)
    requires
        state.next(event).1 == ActionView::Transcribe(audio),
    ensures
        event == EventView::Samples(Some(audio)),
        audio.len() > 0,
        state.awaiting is Samples,
        state.next(event).0.awaiting is Transcript,
        state.next(event).0.phase is Transcribing,
        state.next(event).0.typed == state.typed,
{
}

/// A failed request is no new text: nothing is emitted, the screen stays, and
/// the orchestrator goes where it would have gone with a text, so it cannot
/// get stuck.
pub proof fn lemma_failure_moves_on<S>(state: State)
    requires
        state.wf(),
        !(state.awaiting is Nothing),
    ensures
        state.awaiting is Samples ==> {
            let after = state.next(EventView::<S>::Samples(None));
            &&& after.1 is Nothing
            &&& after.0.typed == state.typed
            &&& after.0.awaiting is Nothing
            &&& after.0.phase == (if state.phase is Recording {
                Phase::Recording
            } else {
                Phase::Idle
            })
        },
        state.awaiting is Transcript ==> {
            let after = state.next(EventView::<S>::Transcript(None));
            &&& after.1 is Nothing
            &&& after.0.typed == state.typed
            &&& after.0.awaiting is Nothing
            &&& state.phase matches Phase::Transcribing(hypothesis)
            &&& after.0.phase == successor(hypothesis)
        },
{
}

/// The screen follows the emitted operations. The text that the state holds
/// changes in three ways only: operations are emitted that turn the old text
/// into the new one; or nothing is emitted and the text is taken as empty, at
/// a key press in `Idle` or when a capture ends with an empty buffer; or
/// nothing is emitted and the text stays.
pub proof fn lemma_screen_follows_ops<S>(state: State, event: EventView<S>)
    requires
        state.typed.len() <= usize::MAX,
    ensures
        match state.next(event).1 {
            ActionView::Emit(ops) => {
                &&& event matches EventView::Transcript(Some(text))
                &&& ops == spec_edit_ops(state.typed, text)
                &&& state.next(event).0.typed == text
                &&& Screen::at_end(state.typed).apply_all(ops) == Screen::at_end(text)
            },
            _ => state.next(event).0.typed == state.typed || (state.next(event).0.typed
                == Seq::<char>::empty() && (event == EventView::<S>::Control(
                KeyboardMsg::PTTPressed,
            ) || event == EventView::Samples(Some(Seq::<S>::empty())))),
        },
{
    match event {
        EventView::Transcript(Some(text)) => {
            lemma_edit_ops_reach_target(state.typed, text);
        },
        EventView::Samples(Some(samples)) => {
            if samples.len() == 0 {
                assert(samples =~= Seq::<S>::empty());
            }
        },
        _ => {},
    }
}

} // verus!
