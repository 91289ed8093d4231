//! The recorder that a bus service offers: remote calls become messages.

use std::sync::atomic::AtomicBool;
use std::sync::mpsc::{SendError, Sender};
use std::sync::Arc;
use vstd::prelude::*;

verus! {

/// What a remote caller asks for.
#[derive(Clone, Copy, Debug, PartialEq, Eq, Structural)]
pub enum DbusMsg {
    StartRecording,
    StopRecording,
    ToggleRecording,
}

/// The state of the bus service: where its messages go, the recording flag
/// that it shows, and the flag that asks it to stop.
pub struct Dbusservice {
    msg_tx: Sender<DbusMsg>,
    is_recording: Arc<AtomicBool>,
    shutdown: Arc<AtomicBool>,
}

impl Dbusservice {
    /// The channel end that the service sends its messages on.
    pub closed spec fn spec_msg_tx(&self) -> Sender<DbusMsg> {
        self.msg_tx
    }

    /// The recording flag that the service shows.
    pub closed spec fn spec_is_recording(&self) -> Arc<AtomicBool> {
        self.is_recording
    }

    /// A service that sends on `msg_tx`, shows `is_recording`, and has a stop
    /// flag of its own, not raised.
    pub fn new(msg_tx: Sender<DbusMsg>, is_recording: Arc<AtomicBool>) -> (service: Self)
        ensures
            service.spec_msg_tx() == msg_tx,
            service.spec_is_recording() == is_recording,
    {
        Self { msg_tx, is_recording, shutdown: Arc::new(AtomicBool::new(false)) }
    }

    /// Asks the service to stop: raises the stop flag.
    pub fn shutdown(&self) {
        self.shutdown.store(true, std::sync::atomic::Ordering::SeqCst);
    }

    /// Whether the service has been asked to stop.
    pub fn is_shut_down(&self) -> bool {
        self.shutdown.load(std::sync::atomic::Ordering::SeqCst)
    }

    /// The recorder that the service offers on the bus: it shows the same
    /// recording flag and sends on the same channel.
    pub fn recorder(&self) -> (recorder: Recorder)
        ensures
            recorder.spec_is_recording() == self.spec_is_recording(),
    {
        Recorder { msg_tx: self.msg_tx.clone(), is_recording: self.is_recording.clone() }
    }
}

/// What remote callers reach: three requests and the recording flag.
pub struct Recorder {
    msg_tx: Sender<DbusMsg>,
    is_recording: Arc<AtomicBool>,
}

impl Recorder {
    /// The recording flag that the recorder shows.
    pub closed spec fn spec_is_recording(&self) -> Arc<AtomicBool> {
        self.is_recording
    }

    /// Passes `request` on, without waiting. Whether it is taken is for the
    /// listener: when nobody listens any more, the request comes back in the
    /// error, and it is `request`.
    pub fn request(&self, request: DbusMsg) -> (sent: Result<(), SendError<DbusMsg>>)
        ensures
            sent matches Err(undelivered) ==> undelivered.0 == request,
    {
        self.msg_tx.send(request)
    }

    /// Asks for a recording to start. Returns whether the request was taken.
    pub fn start_recording(&self) -> (taken: bool) {
        self.request(DbusMsg::StartRecording).is_ok()
    }

    /// Asks for the recording to stop. Returns whether the request was taken.
    pub fn stop_recording(&self) -> (taken: bool) {
        self.request(DbusMsg::StopRecording).is_ok()
    }

    /// Asks for a recording to start if none runs, to stop if one runs.
    /// Returns whether the request was taken.
    pub fn toggle_recording(&self) -> (taken: bool) {
        self.request(DbusMsg::ToggleRecording).is_ok()
    }

    /// The recording flag, as it is at this moment.
    pub fn is_recording(&self) -> bool {
        self.is_recording.load(std::sync::atomic::Ordering::SeqCst)
    }
}

} // verus!
