//! The transcriber worker: it owns the transcriber and answers one request
//! at a time.

use std::sync::mpsc::SendError;
use vstd::prelude::*;

use crate::actors::ActorRef;
use crate::sources::{answers, SourceError, Transcriber};

verus! {

/// A request to the transcriber worker, over samples of type `S`.
#[verifier::reject_recursive_types(S)]
pub enum TranscriberMsg<S> {
    /// Transcribe `audio` and send the text, or the failure, to `reply_to`.
    Transcribe { audio: Vec<S>, reply_to: ActorRef<Result<String, SourceError>> },
}

impl<S> TranscriberMsg<S> {
    /// The audio that the request is about.
    pub open spec fn spec_audio(&self) -> Seq<S> {
        match self {
            TranscriberMsg::Transcribe { audio, .. } => audio@,
        }
    }
}

/// The transcriber worker. A failure of the transcriber is an answer like any
/// other: the worker goes on.
pub struct TranscriberActor<T> {
    transcriber: T,
}

impl<T> TranscriberActor<T> {
    /// The transcriber that the worker owns.
    pub closed spec fn transcriber(&self) -> T {
        self.transcriber
    }

    /// A worker that owns `transcriber`.
    pub fn new(transcriber: T) -> (actor: Self)
        ensures
            actor.transcriber() == transcriber,
    {
        Self { transcriber }
    }

    /// The answer to a request over `audio`: what the transcriber makes of
    /// it, text or failure.
    pub fn answer<S>(&self, audio: &[S]) -> (heard: Result<String, SourceError>) where
        T: Transcriber<S>,

        ensures
            self.transcriber().hears(audio@) matches Some(answer) ==> answers(heard, answer),
    {
        self.transcriber.transcribe(audio)
    }

    /// Takes one request to its end: transcribes the audio and sends the
    /// result, text or failure, to the handle that the request names. The
    /// worker is the same afterwards, whatever the transcriber made of the
    /// audio. Whether the answer is taken is for the one who asked: when
    /// nobody waits for it any more, it comes back in the error, and it is
    /// what the transcriber made of the audio of this request.
    pub fn handle<S>(&self, msg: TranscriberMsg<S>) -> (sent: Result<
        (),
        SendError<Result<String, SourceError>>,
    >) where T: Transcriber<S>
        ensures
            sent matches Err(undelivered) ==> (self.transcriber().hears(
                msg.spec_audio(),
            ) matches Some(answer) ==> answers(undelivered.0, answer)),
    {
        match msg {
            TranscriberMsg::Transcribe { audio, reply_to } => {
                let result = self.answer(audio.as_slice());
                reply_to.send(result)
            },
        }
    }
}

} // verus!
