use vype::keyboard::{Action, Event, KeyboardMsg, Orchestrator};
use vype::sources::fakes::{CaptureKeyboardSink, FakeAudioSource, MockTranscriber};
use vype::sources::{AudioSource, KeyOp, KeyboardSink, Transcriber};

fn deliver(
    orchestrator: &mut Orchestrator,
    audio: &mut FakeAudioSource<f32>,
    transcriber: &MockTranscriber,
    sink: &mut CaptureKeyboardSink,
    msg: KeyboardMsg,
) {
    let mut action = orchestrator.step(Event::Control(msg));
    loop {
        action = match action {
            Action::Nothing => return,
            Action::StartRecording => {
                let _ = audio.start();
                return;
            }
            Action::GetSamples => orchestrator.step(Event::Samples(Ok(audio.get_current_samples()))),
            Action::StopRecording => orchestrator.step(Event::Samples(Ok(audio.stop()))),
            Action::Transcribe(samples) => {
                orchestrator.step(Event::Transcript(transcriber.transcribe(&samples)))
            }
            Action::Emit(ops) => {
                sink.execute_ops(&ops);
                return;
            }
        };
    }
}

#[test]
fn partial_transcription_updates_typed_text() {
    let samples = vec![0.1f32; 16000 * 4];
    let mut audio_source = FakeAudioSource::new(samples.clone(), 48000, 1);
    let transcriber = MockTranscriber::new("hello world".to_string());
    let mut keyboard_sink = CaptureKeyboardSink::new();
    let mut orchestrator = Orchestrator::new();

    deliver(&mut orchestrator, &mut audio_source, &transcriber, &mut keyboard_sink, KeyboardMsg::PTTPressed);
    deliver(
        &mut orchestrator,
        &mut audio_source,
        &transcriber,
        &mut keyboard_sink,
        KeyboardMsg::PartialTranscribe,
    );
    deliver(&mut orchestrator, &mut audio_source, &transcriber, &mut keyboard_sink, KeyboardMsg::PTTReleased);

    let captured = keyboard_sink.captured();
    assert!(!captured.is_empty());
    assert_eq!(captured, vec!["hello world"]);
    assert_eq!(orchestrator.typed(), "hello world");
}

#[test]
fn keyboard_sink_executes_key_ops() {
    let mut sink = CaptureKeyboardSink::new();

    let ops = vec![KeyOp::Type('a'), KeyOp::Type('b'), KeyOp::Backspace(1)];
    sink.execute_ops(&ops);

    let captured = sink.captured();
    assert_eq!(captured, vec!["ab", "\x08"]);
}

#[test]
fn keyboard_sink_batches_consecutive_types() {
    let mut sink = CaptureKeyboardSink::new();

    let ops = vec![
        KeyOp::Type('h'),
        KeyOp::Type('e'),
        KeyOp::Type('l'),
        KeyOp::Type('l'),
        KeyOp::Type('o'),
        KeyOp::Backspace(2),
        KeyOp::Type('!'),
    ];
    sink.execute_ops(&ops);

    let captured = sink.captured();
    assert_eq!(captured, vec!["hello", "\x08\x08", "!"]);
}

#[test]
fn keyboard_sink_default_moves_type_escape_sequences() {
    let mut sink = CaptureKeyboardSink::new();

    sink.execute_ops(&[KeyOp::Left(2), KeyOp::Right(1), KeyOp::Delete(3), KeyOp::Backspace(0)]);
    sink.backspace();
    sink.delete();
    sink.left();
    sink.right();

    let captured = sink.captured();
    assert_eq!(
        captured,
        vec!["\x1B[D", "\x1B[D", "\x1B[C", "\x7F\x7F\x7F", "", "\x08", "\x7F", "\x1B[D", "\x1B[C"]
    );
}

#[test]
fn one_at_a_time_and_batched_send_the_same_characters() {
    let ops = vec![
        KeyOp::Backspace(2),
        KeyOp::Type('h'),
        KeyOp::Type('é'),
        KeyOp::Left(1),
        KeyOp::Type('y'),
        KeyOp::Right(2),
        KeyOp::Delete(1),
        KeyOp::Type('!'),
        KeyOp::Type('?'),
    ];

    let mut batched = CaptureKeyboardSink::new();
    batched.execute_ops(&ops);

    let mut single = CaptureKeyboardSink::new();
    for op in &ops {
        single.execute_ops(&[*op]);
    }

    assert_eq!(batched.captured().concat(), single.captured().concat());
    assert_eq!(batched.captured().concat(), "\x08\x08hé\x1B[Dy\x1B[C\x1B[C\x7F!?");
    assert_eq!(batched.captured().len(), 8);
    assert_eq!(single.captured().len(), 10);
}
