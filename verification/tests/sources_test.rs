use vype::sources::{AudioSource, KeyboardSink, SourceError, Transcriber};

#[test]
fn audio_source_trait_has_required_methods() {
    struct MockAudioSource;

    impl AudioSource<f32> for MockAudioSource {
        fn start(&mut self) -> Result<(), SourceError> {
            Ok(())
        }

        fn stop(&mut self) -> Vec<f32> {
            vec![]
        }

        fn sample_rate(&self) -> u32 {
            16000
        }

        fn channels(&self) -> u16 {
            1
        }

        fn get_current_samples(&self) -> Vec<f32> {
            vec![]
        }
    }

    let mut source = MockAudioSource;
    assert!(source.start().is_ok());
    assert_eq!(source.sample_rate(), 16000);
    assert_eq!(source.channels(), 1);
}

#[test]
fn keyboard_sink_trait_has_type_method() {
    struct MockKeyboardSink;

    impl KeyboardSink for MockKeyboardSink {
        fn type_text(&mut self, _text: &str) {
            // no-op
        }
    }

    let mut sink = MockKeyboardSink;
    sink.type_text("hello");
}

#[test]
fn transcriber_trait_has_transcribe_method() {
    struct MockTranscriber;

    impl Transcriber<f32> for MockTranscriber {
        fn transcribe(&self, _audio: &[f32]) -> Result<String, SourceError> {
            Ok("mock transcription".to_string())
        }
    }

    let transcriber = MockTranscriber;
    let result = transcriber.transcribe(&[]).unwrap();
    assert_eq!(result, "mock transcription");
}

#[test]
fn a_sink_that_replaces_the_cursor_moves_is_used_for_them() {
    struct CountingSink {
        texts: Vec<String>,
        lefts: usize,
        rights: usize,
    }

    impl KeyboardSink for CountingSink {
        fn type_text(&mut self, text: &str) {
            self.texts.push(text.to_string());
        }

        fn left(&mut self) {
            self.lefts += 1;
        }

        fn right(&mut self) {
            self.rights += 1;
        }
    }

    let mut sink = CountingSink { texts: vec![], lefts: 0, rights: 0 };
    sink.execute_ops(&[
        vype::sources::KeyOp::Type('a'),
        vype::sources::KeyOp::Left(3),
        vype::sources::KeyOp::Right(2),
        vype::sources::KeyOp::Delete(2),
    ]);
    assert_eq!(sink.texts, vec!["a", "\x7F\x7F"]);
    assert_eq!(sink.lefts, 3);
    assert_eq!(sink.rights, 2);
}

#[test]
fn source_error_reads_as_one_line() {
    let audio = SourceError::Audio("no device".to_string());
    assert_eq!(audio.to_string(), "Audio source error: no device");
    let heard = SourceError::Transcription("model missing".to_string());
    assert_eq!(heard.to_string(), "Transcription error: model missing");
}
