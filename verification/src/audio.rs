//! The audio coordinator: it owns the audio source and with it the one
//! capture that may run.

use std::time::Duration;
use vstd::prelude::*;

use crate::actors::ActorRef;
use crate::sources::{AudioSource, Capture};

verus! {

/// A request to the audio coordinator, over samples of type `S`.
#[verifier::reject_recursive_types(S)]
pub enum AudioMsg<S> {
    /// Start a capture. No answer is sent. A capture that is already running
    /// starts over and loses what it had gathered.
    StartRecording,
    /// End the capture and send what it gathered to `reply_to`.
    StopRecording { reply_to: ActorRef<Vec<S>> },
    /// Send what the capture has gathered so far to `reply_to`. The capture
    /// goes on.
    GetSamples { reply_to: ActorRef<Vec<S>> },
}

/// What a request asks of the audio source.
#[derive(Debug, Clone, Copy, PartialEq, Eq, Structural)]
pub enum AudioRequest {
    Start,
    Stop,
    Peek,
}

impl<S> AudioMsg<S> {
    /// What this message asks of the audio source.
    pub open spec fn spec_request(&self) -> AudioRequest {
        match self {
            AudioMsg::StartRecording => AudioRequest::Start,
            AudioMsg::StopRecording { .. } => AudioRequest::Stop,
            AudioMsg::GetSamples { .. } => AudioRequest::Peek,
        }
    }

    /// The handle that the answer to this message goes to, if it has one.
    pub open spec fn spec_reply_to(&self) -> Option<ActorRef<Vec<S>>> {
        match self {
            AudioMsg::StartRecording => None,
            AudioMsg::StopRecording { reply_to } => Some(*reply_to),
            AudioMsg::GetSamples { reply_to } => Some(*reply_to),
        }
    }

    /// Takes the message apart: what it asks for, and where the answer goes.
    /// Only `StartRecording` has no answer.
    pub fn into_parts(self) -> (parts: (AudioRequest, Option<ActorRef<Vec<S>>>))
        ensures
            parts.0 == self.spec_request(),
            parts.1 == self.spec_reply_to(),
            parts.1 is None <==> parts.0 is Start,
    {
        match self {
            AudioMsg::StartRecording => (AudioRequest::Start, None),
            AudioMsg::StopRecording { reply_to } => (AudioRequest::Stop, Some(reply_to)),
            AudioMsg::GetSamples { reply_to } => (AudioRequest::Peek, Some(reply_to)),
        }
    }
}

/// The audio coordinator. Its source is reached through it alone.
pub struct AudioActor<Src> {
    source: Src,
    max_duration: Duration,
}

impl<Src> AudioActor<Src> {
    /// The audio source that the coordinator owns.
    pub closed spec fn source(&self) -> Src {
        self.source
    }

    /// The longest capture that the coordinator was made for.
    pub closed spec fn spec_max_duration(&self) -> Duration {
        self.max_duration
    }

    /// A coordinator that owns `source`.
    pub fn new(source: Src, max_duration: Duration) -> (actor: Self)
        ensures
            actor.source() == source,
            actor.spec_max_duration() == max_duration,
    {
        Self { source, max_duration }
    }

    /// The longest capture that the coordinator was made for.
    pub fn max_duration(&self) -> (limit: Duration)
        ensures
            limit == self.spec_max_duration(),
    {
        self.max_duration
    }

    /// Does what `request` asks of the source and returns the samples to
    /// answer with. `Start` has no answer, and a source that fails to start is
    /// not reported: the next `Stop` then hands over what the source has.
    /// `Stop` hands over all that the source has gathered and leaves it empty
    /// and idle; `Peek` hands over a copy and changes nothing.
    pub fn serve<S>(&mut self, request: AudioRequest) -> (answer: Option<Vec<S>>) where
        Src: AudioSource<S>,

        ensures
            answer is None <==> request is Start,
            final(self).spec_max_duration() == old(self).spec_max_duration(),
            old(self).source().capture() matches Some(held) ==> match request {
                AudioRequest::Start => final(self).source().capture() is Some,
                AudioRequest::Stop => {
                    &&& answer matches Some(samples)
                    &&& samples@ == held.gathered
                    &&& final(self).source().capture() == Some(
                        Capture { running: false, gathered: Seq::<S>::empty() },
                    )
                },
                AudioRequest::Peek => {
                    &&& answer matches Some(samples)
                    &&& samples@ == held.gathered
                    &&& final(self).source() == old(self).source()
                },
            },
    {
        match request {
            AudioRequest::Start => {
                let _ = self.source.start();
                None
            },
            AudioRequest::Stop => Some(self.source.stop()),
            AudioRequest::Peek => Some(self.source.get_current_samples()),
        }
    }

    /// Takes one message to its end: serves it and, where it names a handle,
    /// sends the answer there. An answer that nobody waits for any more is
    /// dropped. Returns whether an answer was sent and taken. The source is
    /// left as `serve` leaves it: empty and idle after `StopRecording`,
    /// untouched after `GetSamples`.
    pub fn handle<S>(&mut self, msg: AudioMsg<S>) -> (delivered: bool) where Src: AudioSource<S>
        ensures
            msg.spec_request() is Start ==> !delivered,
            final(self).spec_max_duration() == old(self).spec_max_duration(),
            old(self).source().capture() is Some ==> match msg.spec_request() {
                AudioRequest::Start => final(self).source().capture() is Some,
                AudioRequest::Stop => final(self).source().capture() == Some(
                    Capture { running: false, gathered: Seq::<S>::empty() },
                ),
                AudioRequest::Peek => final(self).source() == old(self).source(),
            },
    {
        let (request, reply_to) = msg.into_parts();
        let answer = self.serve(request);
        match (reply_to, answer) {
            (Some(handle), Some(samples)) => handle.send(samples).is_ok(),
            _ => false,
        }
    }
}

} // verus!
