use vype::keyboard::{
    dispatch, Action, Awaiting, Event, Hypothesis, KeyboardMsg, Orchestrator, Phase,
};
use vype::pure::edit_distance::edit_ops;
use vype::sources::fakes::{CaptureKeyboardSink, FakeAudioSource, MockTranscriber};
use vype::sources::{AudioSource, KeyOp, KeyboardSink, SourceError, Transcriber};

fn ops_of(action: Action<f32>) -> Vec<KeyOp> {
    match action {
        Action::Emit(ops) => ops,
        _ => panic!("operations were expected"),
    }
}

fn samples_of(action: Action<f32>) -> Vec<f32> {
    match action {
        Action::Transcribe(samples) => samples,
        _ => panic!("a request to transcribe was expected"),
    }
}

fn recording() -> Orchestrator {
    let mut orchestrator = Orchestrator::new();
    let action: Action<f32> = orchestrator.step(Event::Control(KeyboardMsg::PTTPressed));
    assert!(matches!(action, Action::StartRecording));
    orchestrator
}

#[test]
fn keyboard_actor_orchestrates_flow_on_ptt_release() {
    let samples = vec![0.1f32, 0.2, 0.3];
    let mut audio_source = FakeAudioSource::new(samples.clone(), 48000, 1);
    let transcriber = MockTranscriber::new("hello world".to_string());
    let mut keyboard_sink = CaptureKeyboardSink::new();
    let mut orchestrator = Orchestrator::new();

    let action: Action<f32> = orchestrator.step(Event::Control(KeyboardMsg::PTTPressed));
    assert!(matches!(action, Action::StartRecording));
    audio_source.start().unwrap();
    assert_eq!(orchestrator.phase(), Phase::Recording);
    assert!(orchestrator.is_recording());

    let action: Action<f32> = orchestrator.step(Event::Control(KeyboardMsg::PTTReleased));
    assert!(matches!(action, Action::StopRecording));
    assert_eq!(orchestrator.phase(), Phase::Transcribing(Hypothesis::Final));
    assert!(orchestrator.is_blocked());

    let action = orchestrator.step(Event::Samples(Ok(audio_source.stop())));
    let forwarded = samples_of(action);
    assert_eq!(forwarded, samples);
    assert_eq!(orchestrator.phase(), Phase::Transcribing(Hypothesis::Final));

    let action: Action<f32> = orchestrator.step(Event::Transcript(transcriber.transcribe(&forwarded)));
    let ops = ops_of(action);
    assert_eq!(ops, edit_ops("", "hello world"));
    keyboard_sink.execute_ops(&ops);
    assert_eq!(orchestrator.phase(), Phase::Idle);
    assert!(!orchestrator.is_blocked());

    let captured = keyboard_sink.captured();
    assert_eq!(captured, vec!["hello world"]);
}

#[test]
fn partial_then_final_emits_only_the_difference() {
    let mut orchestrator = recording();

    let action: Action<f32> = orchestrator.step(Event::Control(KeyboardMsg::PartialTranscribe));
    assert!(matches!(action, Action::GetSamples));
    assert_eq!(orchestrator.phase(), Phase::Recording);
    let action = orchestrator.step(Event::Samples(Ok(vec![0.5f32; 8])));
    assert_eq!(samples_of(action), vec![0.5f32; 8]);
    assert_eq!(orchestrator.phase(), Phase::Transcribing(Hypothesis::Partial));
    let action: Action<f32> = orchestrator.step(Event::Transcript(Ok("hel".to_string())));
    assert_eq!(ops_of(action), vec![KeyOp::Type('h'), KeyOp::Type('e'), KeyOp::Type('l')]);
    assert_eq!(orchestrator.phase(), Phase::Recording);
    assert_eq!(orchestrator.typed(), "hel");

    let action: Action<f32> = orchestrator.step(Event::Control(KeyboardMsg::PTTReleased));
    assert!(matches!(action, Action::StopRecording));
    let action = orchestrator.step(Event::Samples(Ok(vec![0.5f32; 16])));
    assert_eq!(samples_of(action).len(), 16);
    let action: Action<f32> = orchestrator.step(Event::Transcript(Ok("hello".to_string())));
    assert_eq!(ops_of(action), vec![KeyOp::Type('l'), KeyOp::Type('o')]);
    assert_eq!(orchestrator.phase(), Phase::Idle);
    assert_eq!(orchestrator.typed(), "hello");
}

#[test]
fn empty_recording_asks_no_transcriber_and_emits_nothing() {
    let mut orchestrator = recording();

    let action: Action<f32> = orchestrator.step(Event::Control(KeyboardMsg::PTTReleased));
    assert!(matches!(action, Action::StopRecording));
    let action: Action<f32> = orchestrator.step(Event::Samples(Ok(vec![])));
    assert!(matches!(action, Action::Nothing));
    assert_eq!(orchestrator.phase(), Phase::Idle);
    assert!(!orchestrator.is_blocked());
    assert_eq!(orchestrator.typed(), "");
}

#[test]
fn empty_recording_forgets_the_partial_text() {
    let mut orchestrator = recording();
    let _: Action<f32> = orchestrator.step(Event::Control(KeyboardMsg::PartialTranscribe));
    let _ = orchestrator.step(Event::Samples(Ok(vec![0.1f32])));
    let _: Action<f32> = orchestrator.step(Event::Transcript(Ok("abc".to_string())));
    assert_eq!(orchestrator.typed(), "abc");

    let _: Action<f32> = orchestrator.step(Event::Control(KeyboardMsg::PTTReleased));
    let action: Action<f32> = orchestrator.step(Event::Samples(Ok(vec![])));
    assert!(matches!(action, Action::Nothing));
    assert_eq!(orchestrator.typed(), "");
    assert_eq!(orchestrator.phase(), Phase::Idle);
}

#[test]
fn empty_poll_stays_recording() {
    let mut orchestrator = recording();

    let action: Action<f32> = orchestrator.step(Event::Control(KeyboardMsg::PartialTranscribe));
    assert!(matches!(action, Action::GetSamples));
    assert!(orchestrator.is_blocked());
    let action: Action<f32> = orchestrator.step(Event::Samples(Ok(vec![])));
    assert!(matches!(action, Action::Nothing));
    assert_eq!(orchestrator.phase(), Phase::Recording);
    assert!(!orchestrator.is_blocked());
}

#[test]
fn failed_transcription_keeps_the_text_and_moves_on() {
    let mut orchestrator = recording();
    let _: Action<f32> = orchestrator.step(Event::Control(KeyboardMsg::PartialTranscribe));
    let _ = orchestrator.step(Event::Samples(Ok(vec![0.1f32])));
    let _: Action<f32> = orchestrator.step(Event::Transcript(Ok("kept".to_string())));

    let _: Action<f32> = orchestrator.step(Event::Control(KeyboardMsg::PartialTranscribe));
    let _ = orchestrator.step(Event::Samples(Ok(vec![0.1f32])));
    let failure = SourceError::Transcription("no model".to_string());
    let action: Action<f32> = orchestrator.step(Event::Transcript(Err(failure)));
    assert!(matches!(action, Action::Nothing));
    assert_eq!(orchestrator.phase(), Phase::Recording);
    assert_eq!(orchestrator.typed(), "kept");

    let _: Action<f32> = orchestrator.step(Event::Control(KeyboardMsg::PTTReleased));
    let _ = orchestrator.step(Event::Samples(Ok(vec![0.1f32])));
    let failure = SourceError::Transcription("no model".to_string());
    let action: Action<f32> = orchestrator.step(Event::Transcript(Err(failure)));
    assert!(matches!(action, Action::Nothing));
    assert_eq!(orchestrator.phase(), Phase::Idle);
    assert_eq!(orchestrator.typed(), "kept");
}

#[test]
fn failed_audio_request_falls_back() {
    let mut orchestrator = recording();
    let _: Action<f32> = orchestrator.step(Event::Control(KeyboardMsg::PartialTranscribe));
    let failure = SourceError::Audio("gone".to_string());
    let action: Action<f32> = orchestrator.step(Event::Samples(Err(failure)));
    assert!(matches!(action, Action::Nothing));
    assert_eq!(orchestrator.phase(), Phase::Recording);

    let _: Action<f32> = orchestrator.step(Event::Control(KeyboardMsg::PTTReleased));
    let failure = SourceError::Audio("gone".to_string());
    let action: Action<f32> = orchestrator.step(Event::Samples(Err(failure)));
    assert!(matches!(action, Action::Nothing));
    assert_eq!(orchestrator.phase(), Phase::Idle);
}

#[test]
fn events_without_a_transition_change_nothing() {
    let mut orchestrator = Orchestrator::new();
    let action: Action<f32> = orchestrator.step(Event::Control(KeyboardMsg::PartialTranscribe));
    assert!(matches!(action, Action::Nothing));
    let action: Action<f32> = orchestrator.step(Event::Control(KeyboardMsg::PTTReleased));
    assert!(matches!(action, Action::Nothing));
    let action: Action<f32> = orchestrator.step(Event::Samples(Ok(vec![0.1f32])));
    assert!(matches!(action, Action::Nothing));
    let action: Action<f32> = orchestrator.step(Event::Transcript(Ok("stray".to_string())));
    assert!(matches!(action, Action::Nothing));
    assert_eq!(orchestrator.phase(), Phase::Idle);
    assert_eq!(orchestrator.typed(), "");

    let mut orchestrator = recording();
    let action: Action<f32> = orchestrator.step(Event::Control(KeyboardMsg::PTTPressed));
    assert!(matches!(action, Action::Nothing));
    assert_eq!(orchestrator.phase(), Phase::Recording);

    let _: Action<f32> = orchestrator.step(Event::Control(KeyboardMsg::PTTReleased));
    let action: Action<f32> = orchestrator.step(Event::Control(KeyboardMsg::PTTPressed));
    assert!(matches!(action, Action::Nothing));
    let action: Action<f32> = orchestrator.step(Event::Control(KeyboardMsg::PartialTranscribe));
    assert!(matches!(action, Action::Nothing));
    assert_eq!(orchestrator.phase(), Phase::Transcribing(Hypothesis::Final));
    assert_eq!(Awaiting::Samples, Awaiting::Samples);
}

#[test]
fn a_new_turn_starts_from_an_empty_screen() {
    let mut orchestrator = recording();
    let _: Action<f32> = orchestrator.step(Event::Control(KeyboardMsg::PTTReleased));
    let _ = orchestrator.step(Event::Samples(Ok(vec![0.1f32])));
    let _: Action<f32> = orchestrator.step(Event::Transcript(Ok("first".to_string())));
    assert_eq!(orchestrator.typed(), "first");

    let action: Action<f32> = orchestrator.step(Event::Control(KeyboardMsg::PTTPressed));
    assert!(matches!(action, Action::StartRecording));
    assert_eq!(orchestrator.typed(), "");

    let _: Action<f32> = orchestrator.step(Event::Control(KeyboardMsg::PTTReleased));
    let _ = orchestrator.step(Event::Samples(Ok(vec![0.1f32])));
    let action: Action<f32> = orchestrator.step(Event::Transcript(Ok("fir".to_string())));
    assert_eq!(ops_of(action), vec![KeyOp::Type('f'), KeyOp::Type('i'), KeyOp::Type('r')]);
}

#[test]
fn dispatch_takes_a_whole_turn_through_the_pipeline() {
    let mut audio_source = FakeAudioSource::new(vec![0.1f32, 0.2, 0.3], 48000, 1);
    let transcriber = MockTranscriber::new("hello world".to_string());
    let mut keyboard_sink = CaptureKeyboardSink::new();
    let mut orchestrator = Orchestrator::new();

    dispatch(
        &mut orchestrator,
        KeyboardMsg::PTTPressed,
        &mut audio_source,
        &transcriber,
        &mut keyboard_sink,
    );
    assert!(audio_source.is_recording());
    assert_eq!(orchestrator.phase(), Phase::Recording);
    assert!(keyboard_sink.captured().is_empty());

    dispatch(
        &mut orchestrator,
        KeyboardMsg::PartialTranscribe,
        &mut audio_source,
        &transcriber,
        &mut keyboard_sink,
    );
    assert!(audio_source.is_recording());
    assert_eq!(orchestrator.phase(), Phase::Recording);
    assert_eq!(keyboard_sink.captured(), vec!["hello world"]);

    dispatch(
        &mut orchestrator,
        KeyboardMsg::PTTReleased,
        &mut audio_source,
        &transcriber,
        &mut keyboard_sink,
    );
    assert!(!audio_source.is_recording());
    assert_eq!(orchestrator.phase(), Phase::Idle);
    assert!(!orchestrator.is_blocked());
    assert_eq!(orchestrator.typed(), "hello world");
    assert_eq!(keyboard_sink.captured(), vec!["hello world"]);

    dispatch(
        &mut orchestrator,
        KeyboardMsg::PTTPressed,
        &mut audio_source,
        &transcriber,
        &mut keyboard_sink,
    );
    dispatch(
        &mut orchestrator,
        KeyboardMsg::PTTReleased,
        &mut audio_source,
        &transcriber,
        &mut keyboard_sink,
    );
    assert_eq!(orchestrator.phase(), Phase::Idle);
    assert_eq!(orchestrator.typed(), "");
    assert_eq!(keyboard_sink.captured(), vec!["hello world"]);
}

#[test]
fn dispatch_with_a_failing_transcriber_types_nothing() {
    let mut audio_source = FakeAudioSource::new(vec![1u8, 2, 3], 16000, 1);
    let transcriber = MockTranscriber::with_error("no backend");
    let mut keyboard_sink = CaptureKeyboardSink::new();
    let mut orchestrator = Orchestrator::new();

    dispatch(
        &mut orchestrator,
        KeyboardMsg::PTTPressed,
        &mut audio_source,
        &transcriber,
        &mut keyboard_sink,
    );
    dispatch(
        &mut orchestrator,
        KeyboardMsg::PTTReleased,
        &mut audio_source,
        &transcriber,
        &mut keyboard_sink,
    );
    assert_eq!(orchestrator.phase(), Phase::Idle);
    assert!(keyboard_sink.captured().is_empty());
}
