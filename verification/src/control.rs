//! Where control events come from: the push-to-talk key, remote requests and
//! the partial-poll timer. Each source looks at the recording flag and decides
//! what, if anything, the orchestrator is told, and what the flag becomes.

use vstd::prelude::*;

use crate::keyboard::KeyboardMsg;
use crate::pure::text::same_text;
use crate::pure::typer::Key;
use crate::sources::dbus_service::DbusMsg;

verus! {

/// What `str::to_uppercase` makes of a text.
pub uninterp spec fn spec_to_uppercase(text: Seq<char>) -> Seq<char>;

/// `str::to_uppercase`: the text with every character replaced by its upper
/// case. Of the result only this is claimed: it depends on the text alone.
#[verifier::external_body]
fn to_uppercase(text: &str) -> (upper: String)
    ensures
        upper@ == spec_to_uppercase(text@),
{
    text.to_uppercase()
}

/// The function key with the given name, `F1` to `F12`; `F12` for any other name.
pub open spec fn spec_function_key(name: Seq<char>) -> Key {
    if name == "F1"@ {
        Key::F1
    } else if name == "F2"@ {
        Key::F2
    } else if name == "F3"@ {
        Key::F3
    } else if name == "F4"@ {
        Key::F4
    } else if name == "F5"@ {
        Key::F5
    } else if name == "F6"@ {
        Key::F6
    } else if name == "F7"@ {
        Key::F7
    } else if name == "F8"@ {
        Key::F8
    } else if name == "F9"@ {
        Key::F9
    } else if name == "F10"@ {
        Key::F10
    } else if name == "F11"@ {
        Key::F11
    } else {
        Key::F12
    }
}

/// The function key with the given name, written in upper case.
pub fn function_key(name: &str) -> (key: Key)
    ensures
        key == spec_function_key(name@),
{
    if same_text(name, "F1") {
        Key::F1
    } else if same_text(name, "F2") {
        Key::F2
    } else if same_text(name, "F3") {
        Key::F3
    } else if same_text(name, "F4") {
        Key::F4
    } else if same_text(name, "F5") {
        Key::F5
    } else if same_text(name, "F6") {
        Key::F6
    } else if same_text(name, "F7") {
        Key::F7
    } else if same_text(name, "F8") {
        Key::F8
    } else if same_text(name, "F9") {
        Key::F9
    } else if same_text(name, "F10") {
        Key::F10
    } else if same_text(name, "F11") {
        Key::F11
    } else {
        Key::F12
    }
}

/// The push-to-talk key that the setting `key` names, in either case.
pub fn parse_ptt_key(key: &str) -> (ptt: Key)
    ensures
        ptt == spec_function_key(spec_to_uppercase(key@)),
{
    let upper = to_uppercase(key);
    function_key(upper.as_str())
}

/// What follows from a control event: what the recording flag becomes, and
/// what the orchestrator is told.
#[derive(Debug, Clone, Copy, PartialEq, Eq, Structural)]
pub struct Decision {
    pub recording: bool,
    pub message: Option<KeyboardMsg>,
}

/// What follows from a request to start, stop or toggle while the recording
/// flag is `recording`.
pub open spec fn spec_on_request(request: DbusMsg, recording: bool) -> Decision {
    match request {
        DbusMsg::StartRecording => if recording {
            Decision { recording: true, message: None }
        } else {
            Decision { recording: true, message: Some(KeyboardMsg::PTTPressed) }
        },
        DbusMsg::StopRecording => if recording {
            Decision { recording: false, message: Some(KeyboardMsg::PTTReleased) }
        } else {
            Decision { recording: false, message: None }
        },
        DbusMsg::ToggleRecording => Decision {
            recording: !recording,
            message: Some(
                if recording {
                    KeyboardMsg::PTTReleased
                } else {
                    KeyboardMsg::PTTPressed
                },
            ),
        },
    }
}

/// What follows from a remote request: a start counts only while not
/// recording, a stop only while recording, a toggle always.
pub fn on_request(request: DbusMsg, recording: bool) -> (decision: Decision)
    ensures
        decision == spec_on_request(request, recording),
{
    match request {
        DbusMsg::StartRecording => {
            if recording {
                Decision { recording: true, message: None }
            } else {
                Decision { recording: true, message: Some(KeyboardMsg::PTTPressed) }
            }
        },
        DbusMsg::StopRecording => {
            if recording {
                Decision { recording: false, message: Some(KeyboardMsg::PTTReleased) }
            } else {
                Decision { recording: false, message: None }
            }
        },
        DbusMsg::ToggleRecording => {
            if recording {
                Decision { recording: false, message: Some(KeyboardMsg::PTTReleased) }
            } else {
                Decision { recording: true, message: Some(KeyboardMsg::PTTPressed) }
            }
        },
    }
}

/// What follows from the push-to-talk key going down (`pressed`) or up: a
/// press counts only while not recording, a release only while recording.
pub fn on_ptt_key(pressed: bool, recording: bool) -> (decision: Decision)
    ensures
        decision == spec_on_request(
            if pressed {
                DbusMsg::StartRecording
            } else {
                DbusMsg::StopRecording
            },
            recording,
        ),
{
    if pressed {
        on_request(DbusMsg::StartRecording, recording)
    } else {
        on_request(DbusMsg::StopRecording, recording)
    }
}

/// What the timer sends when its interval has passed: a poll while
/// recording, nothing otherwise.
pub fn on_timer(recording: bool) -> (message: Option<KeyboardMsg>)
    ensures
        message == if recording {
            Some(KeyboardMsg::PartialTranscribe)
        } else {
            None::<KeyboardMsg>
        },
{
    if recording {
        Some(KeyboardMsg::PartialTranscribe)
    } else {
        None
    }
}

/// A request tells the orchestrator something exactly when it changes the
/// recording flag, and then what it tells fits the new flag: a press when
/// recording begins, a release when it ends.
pub proof fn lemma_request_changes_flag(request: DbusMsg, recording: bool)
    ensures
        spec_on_request(request, recording).message is Some <==> spec_on_request(
            request,
            recording,
        ).recording != recording,
        spec_on_request(request, recording).message == Some(KeyboardMsg::PTTPressed)
            ==> spec_on_request(request, recording).recording,
        spec_on_request(request, recording).message == Some(KeyboardMsg::PTTReleased)
            ==> !spec_on_request(request, recording).recording,
        !(spec_on_request(request, recording).message == Some(KeyboardMsg::PartialTranscribe)),
{
}

} // verus!
