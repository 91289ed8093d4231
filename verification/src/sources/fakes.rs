//! Collaborators that stand in for the real ones: they hold what they are
//! given and hand it back.

use vstd::prelude::*;

use crate::sources::{answers, AudioSource, Capture, KeyboardSink, SourceError, Transcriber};

verus! {

/// An audio source that "captures" the samples it was made with.
pub struct FakeAudioSource<S> {
    samples: Vec<S>,
    sample_rate: u32,
    channels: u16,
    recording: bool,
}

impl<S> FakeAudioSource<S> {
    /// The samples that the next `stop` hands over.
    pub closed spec fn held(&self) -> Seq<S> {
        self.samples@
    }

    /// Whether a capture is running.
    pub closed spec fn recording(&self) -> bool {
        self.recording
    }

    /// The sample rate that the source reports.
    pub closed spec fn rate(&self) -> u32 {
        self.sample_rate
    }

    /// The channel count that the source reports.
    pub closed spec fn channel_count(&self) -> u16 {
        self.channels
    }

    /// A source that holds `samples` and is not recording.
    pub fn new(samples: Vec<S>, sample_rate: u32, channels: u16) -> (source: Self)
        ensures
            source.held() == samples@,
            source.rate() == sample_rate,
            source.channel_count() == channels,
            !source.recording(),
    {
        Self { samples, sample_rate, channels, recording: false }
    }

    /// Whether a capture is running: after `start` and before `stop`.
    pub fn is_recording(&self) -> (yes: bool)
        ensures
            yes == self.recording(),
    {
        self.recording
    }
}

impl<S: Copy> AudioSource<S> for FakeAudioSource<S> {
    /// This source keeps account of what it holds.
    open spec fn capture(&self) -> Option<Capture<S>> {
        Some(Capture { running: self.recording(), gathered: self.held() })
    }

    /// Starts the capture. It never fails and keeps the samples.
    fn start(&mut self) -> (started: Result<(), SourceError>)
        ensures
            started is Ok,
            final(self).recording(),
            final(self).held() == old(self).held(),
            final(self).rate() == old(self).rate(),
            final(self).channel_count() == old(self).channel_count(),
    {
        self.recording = true;
        Ok(())
    }

    /// Ends the capture and hands over the samples. None are left.
    fn stop(&mut self) -> (samples: Vec<S>)
        ensures
            samples@ == old(self).held(),
            final(self).held() == Seq::<S>::empty(),
            !final(self).recording(),
            final(self).rate() == old(self).rate(),
            final(self).channel_count() == old(self).channel_count(),
    {
        self.recording = false;
        let mut samples: Vec<S> = Vec::new();
        std::mem::swap(&mut samples, &mut self.samples);
        samples
    }

    fn sample_rate(&self) -> (rate: u32)
        ensures
            rate == self.rate(),
    {
        self.sample_rate
    }

    fn channels(&self) -> (count: u16)
        ensures
            count == self.channel_count(),
    {
        self.channels
    }

    /// A copy of the samples. The source keeps its own.
    fn get_current_samples(&self) -> (samples: Vec<S>)
        ensures
            samples@ == self.held(),
    {
        let mut samples: Vec<S> = Vec::new();
        let mut i: usize = 0;
        while i < self.samples.len()
            invariant
                i <= self.samples.len(),
                samples@ == self.samples@.take(i as int),
            decreases self.samples.len() - i,
        {
            samples.push(self.samples[i]);
            i += 1;
            assert(samples@ =~= self.samples@.take(i as int));
        }
        assert(self.samples@.take(self.samples.len() as int) =~= self.samples@);
        samples
    }
}

/// A keyboard sink that keeps every text it is handed, oldest first.
pub struct CaptureKeyboardSink {
    captured: Vec<String>,
}

impl View for CaptureKeyboardSink {
    type V = Seq<Seq<char>>;

    /// The texts handed to the sink so far, oldest first.
    closed spec fn view(&self) -> Seq<Seq<char>> {
        Seq::new(self.captured@.len(), |i: int| self.captured@[i]@)
    }
}

impl CaptureKeyboardSink {
    /// A sink that has been handed nothing.
    pub fn new() -> (sink: Self)
        ensures
            sink@ == Seq::<Seq<char>>::empty(),
    {
        Self { captured: Vec::new() }
    }

    /// The texts handed to the sink so far, oldest first.
    pub fn captured(&self) -> (texts: Vec<String>)
        ensures
            texts@.len() == self@.len(),
            forall|i: int| 0 <= i < texts@.len() ==> (#[trigger] texts@[i])@ == self@[i],
    {
        let mut texts: Vec<String> = Vec::new();
        let mut i: usize = 0;
        while i < self.captured.len()
            invariant
                i <= self.captured.len(),
                texts@.len() == i,
                forall|k: int| 0 <= k < i ==> (#[trigger] texts@[k])@ == self.captured@[k]@,
            decreases self.captured.len() - i,
        {
            texts.push(self.captured[i].clone());
            i += 1;
        }
        texts
    }
}

impl Default for CaptureKeyboardSink {
    fn default() -> (sink: Self)
        ensures
            sink@ == Seq::<Seq<char>>::empty(),
    {
        Self::new()
    }
}

impl KeyboardSink for CaptureKeyboardSink {
    /// This sink keeps account of all that it receives.
    open spec fn received(&self) -> Option<Seq<Seq<char>>> {
        Some(self@)
    }

    /// Keeps `text` as the newest text.
    fn type_text(&mut self, text: &str)
        ensures
            final(self)@ == old(self)@.push(text@),
    {
        self.captured.push(text.to_owned());
        assert(self@ =~= old(self)@.push(text@));
    }
}

/// A transcriber that answers every request with the result it was made with.
pub struct MockTranscriber {
    result: Result<String, String>,
}

impl MockTranscriber {
    /// The text that every request is answered with, if it is one.
    pub closed spec fn answer(&self) -> Result<Seq<char>, Seq<char>> {
        match self.result {
            Ok(text) => Ok(text@),
            Err(error) => Err(error@),
        }
    }

    /// A transcriber that hears `text` in every audio.
    pub fn new(text: String) -> (mock: Self)
        ensures
            mock.answer() == Ok::<Seq<char>, Seq<char>>(text@),
    {
        Self { result: Ok(text) }
    }

    /// A transcriber that fails on every audio, with `error` as the detail.
    pub fn with_error(error: &str) -> (mock: Self)
        ensures
            mock.answer() == Err::<Seq<char>, Seq<char>>(error@),
    {
        Self { result: Err(error.to_owned()) }
    }
}

impl<S> Transcriber<S> for MockTranscriber {
    /// This transcriber hears the same in every audio.
    open spec fn hears(&self, audio: Seq<S>) -> Option<Result<Seq<char>, Seq<char>>> {
        Some(self.answer())
    }

    /// The preset text, or a transcription error with the preset detail,
    /// whatever `audio` holds.
    fn transcribe(&self, audio: &[S]) -> (heard: Result<String, SourceError>)
        ensures
            answers(heard, self.answer()),
    {
        match &self.result {
            Ok(text) => Ok(text.clone()),
            Err(detail) => Err(SourceError::Transcription(detail.clone())),
        }
    }
}

} // verus!
