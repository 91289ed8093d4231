//! Handles to actors: a mailbox is a channel, an actor is what consumes it.

use std::sync::mpsc::{Receiver, SendError, Sender};
use vstd::prelude::*;

verus! {

/// `std::sync::mpsc::Sender`: the sending half of a channel. Nothing inside
/// it is visible here.
#[verifier::external_type_specification]
#[verifier::external_body]
#[verifier::reject_recursive_types(T)]
pub struct ExSender<T>(Sender<T>);

/// `std::sync::mpsc::Receiver`: the receiving half of a channel. Nothing
/// inside it is visible here.
#[verifier::external_type_specification]
#[verifier::external_body]
#[verifier::reject_recursive_types(T)]
pub struct ExReceiver<T>(Receiver<T>);

/// `std::sync::mpsc::SendError`: the message that could not be sent.
#[verifier::external_type_specification]
#[verifier::reject_recursive_types(T)]
pub struct ExSendError<T>(SendError<T>);

/// `Sender::send` never blocks. Whether it succeeds depends on whether the
/// receiver still exists, so only this is claimed: on failure the error
/// holds the message that was to be sent.
pub assume_specification<T>[ Sender::<T>::send ](sender: &Sender<T>, t: T) -> (sent: Result<
    (),
    SendError<T>,
>)
    ensures
        sent matches Err(undelivered) ==> undelivered.0 == t,
;

/// `Sender::clone` gives another sender of the same channel. Nothing is
/// claimed of it.
pub assume_specification<T>[ <Sender<T> as Clone>::clone ](sender: &Sender<T>) -> (other: Sender<T>)
;

/// A means to reach an actor: the sending side of its mailbox. It does not own
/// the actor, and there may be any number of handles to one mailbox.
#[verifier::reject_recursive_types(M)]
pub struct ActorRef<M> {
    sender: Sender<M>,
}

impl<M> ActorRef<M> {
    /// The channel end that this handle sends on.
    pub closed spec fn mailbox(&self) -> Sender<M> {
        self.sender
    }

    /// The handle that sends on `sender`.
    pub fn new(sender: Sender<M>) -> (handle: Self)
        ensures
            handle.mailbox() == sender,
    {
        Self { sender }
    }

    /// Puts `msg` into the mailbox without waiting. Fails when the actor is
    /// gone, and then hands `msg` back inside the error.
    pub fn send(&self, msg: M) -> (sent: Result<(), SendError<M>>)
        ensures
            sent matches Err(undelivered) ==> undelivered.0 == msg,
    {
        self.sender.send(msg)
    }
}

impl<M> Clone for ActorRef<M> {
    /// Another handle to the same mailbox.
    fn clone(&self) -> (other: Self) {
        Self { sender: self.sender.clone() }
    }
}

/// What an actor does: it consumes the messages of its mailbox, one at a
/// time, until every handle to the mailbox is gone.
pub trait Actor<M> {
    /// Consumes `receiver` to its end.
    fn run(self, receiver: Receiver<M>);
}

} // verus!
