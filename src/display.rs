//! The display path: a task per session that receives display commands and
//! hands each to the display controller.

use vstd::prelude::*;

use crate::message::{decode_display, display_message, DecodeError};
use crate::session::{DecodePolicy, WorkerError};

verus! {

/// A display command: whether the display should be on. An absent member
/// means off.
#[derive(Clone, Copy, Debug, PartialEq, Eq)]
pub struct DisplayControlMessage {
    pub display_on: bool,
}

/// A call to the display controller.
#[derive(Clone, Copy, Debug, PartialEq, Eq)]
pub enum DisplayCall {
    TurnOn,
    TurnOff,
}

/// Where the display task stands.
#[derive(Clone, Copy, Debug, PartialEq, Eq)]
pub enum DisplayTaskState {
    /// Waiting for the next display message.
    Listening,
    /// A controller call is under way.
    Commanding,
    /// The task has ended; only a new session starts another.
    Stopped,
}

/// What happened since the task's last action.
#[derive(Debug, PartialEq, Eq)]
pub enum DisplayEvent {
    /// A message arrived with this text.
    Message(String),
    /// A message arrived whose payload is not text.
    NotText,
    /// The subscription delivers no more messages.
    Ended,
    /// The controller call succeeded.
    CommandDone,
    /// The controller call failed.
    CommandFailed,
}

/// What the task does next.
#[derive(Clone, Copy, Debug, PartialEq, Eq)]
pub enum DisplayAction {
    /// Wait for the next display message.
    Receive,
    /// Make this controller call.
    Invoke(DisplayCall),
    /// End the task, reporting the error if there is one.
    Stop(Option<WorkerError>),
}

/// The controller call that a command asks for.
pub open spec fn call_for(m: DisplayControlMessage) -> DisplayCall {
    if m.display_on {
        DisplayCall::TurnOn
    } else {
        DisplayCall::TurnOff
    }
}

/// The task's reaction to a decoded (or undecodable) message while listening.
pub open spec fn after_display_decode(r: Result<DisplayControlMessage, DecodeError>, policy: DecodePolicy) -> (DisplayTaskState, DisplayAction) {
    match r {
        Ok(m) => (DisplayTaskState::Commanding, DisplayAction::Invoke(call_for(m))),
        Err(e) => match policy {
            DecodePolicy::Abort => (DisplayTaskState::Stopped, DisplayAction::Stop(Some(WorkerError::Decode(e)))),
            DecodePolicy::Skip => (DisplayTaskState::Listening, DisplayAction::Receive),
        },
    }
}

/// The display task's transition: its next state and action on an event.
pub open spec fn display_transition(state: DisplayTaskState, event: DisplayEvent, policy: DecodePolicy) -> (DisplayTaskState, DisplayAction) {
    match state {
        DisplayTaskState::Listening => match event {
            DisplayEvent::Message(text) => after_display_decode(display_message(text@), policy),
            DisplayEvent::NotText => after_display_decode(Err(DecodeError::NotText), policy),
            _ => (DisplayTaskState::Stopped, DisplayAction::Stop(None)),
        },
        DisplayTaskState::Commanding => match event {
            DisplayEvent::CommandDone => (DisplayTaskState::Listening, DisplayAction::Receive),
            DisplayEvent::CommandFailed => (DisplayTaskState::Stopped, DisplayAction::Stop(Some(WorkerError::Collaborator))),
            _ => (DisplayTaskState::Stopped, DisplayAction::Stop(None)),
        },
        DisplayTaskState::Stopped => (DisplayTaskState::Stopped, DisplayAction::Stop(None)),
    }
}

fn react_to_decode(r: Result<DisplayControlMessage, DecodeError>, policy: DecodePolicy) -> (t: (DisplayTaskState, DisplayAction))
    ensures
        t == after_display_decode(r, policy),
{
    match r {
        Ok(m) => {
            let call = if m.display_on {
                DisplayCall::TurnOn
            } else {
                DisplayCall::TurnOff
            };
            (DisplayTaskState::Commanding, DisplayAction::Invoke(call))
        },
        Err(e) => match policy {
            DecodePolicy::Abort => (DisplayTaskState::Stopped, DisplayAction::Stop(Some(WorkerError::Decode(e)))),
            DecodePolicy::Skip => (DisplayTaskState::Listening, DisplayAction::Receive),
        },
    }
}

/// The display task's next state and action on `event`.
pub fn display_step(state: DisplayTaskState, event: &DisplayEvent, policy: DecodePolicy) -> (t: (DisplayTaskState, DisplayAction))
    ensures
        t == display_transition(state, *event, policy),
{
    match state {
        DisplayTaskState::Listening => match event {
            DisplayEvent::Message(text) => react_to_decode(decode_display(text.as_str()), policy),
            DisplayEvent::NotText => react_to_decode(Err(DecodeError::NotText), policy),
            _ => (DisplayTaskState::Stopped, DisplayAction::Stop(None)),
        },
        DisplayTaskState::Commanding => match event {
            DisplayEvent::CommandDone => (DisplayTaskState::Listening, DisplayAction::Receive),
            DisplayEvent::CommandFailed => (DisplayTaskState::Stopped, DisplayAction::Stop(Some(WorkerError::Collaborator))),
            _ => (DisplayTaskState::Stopped, DisplayAction::Stop(None)),
        },
        DisplayTaskState::Stopped => (DisplayTaskState::Stopped, DisplayAction::Stop(None)),
    }
}

/// A display message that decodes leads to exactly one controller call:
/// `TurnOn` when `display_on` is true, `TurnOff` otherwise. When the call
/// completes, the task listens again without another call.
pub proof fn lemma_one_call_per_command(text: String, policy: DecodePolicy)
    requires
        display_message(text@) is Ok,
    ensures
        display_transition(DisplayTaskState::Listening, DisplayEvent::Message(text), policy) == (
            DisplayTaskState::Commanding,
            DisplayAction::Invoke(call_for(display_message(text@)->Ok_0)),
        ),
        display_message(text@)->Ok_0.display_on ==> call_for(display_message(text@)->Ok_0) == DisplayCall::TurnOn,
        !display_message(text@)->Ok_0.display_on ==> call_for(display_message(text@)->Ok_0) == DisplayCall::TurnOff,
        display_transition(DisplayTaskState::Commanding, DisplayEvent::CommandDone, policy) == (
            DisplayTaskState::Listening,
            DisplayAction::Receive,
        ),
{
}

/// Under the abort policy, a display message that does not decode ends the
/// display task with that error, and an ended task stays ended and calls the
/// controller no more, whatever happens next. The task touches neither the
/// live settings nor the settings channel: its transitions take and give
/// neither.
pub proof fn lemma_bad_message_ends_display_task(text: String, later: DisplayEvent, policy: DecodePolicy)
    requires
        display_message(text@) is Err,
    ensures
        display_transition(DisplayTaskState::Listening, DisplayEvent::Message(text), DecodePolicy::Abort) == (
            DisplayTaskState::Stopped,
            DisplayAction::Stop(Some(WorkerError::Decode(display_message(text@)->Err_0))),
        ),
        display_transition(DisplayTaskState::Stopped, later, policy) == (
            DisplayTaskState::Stopped,
            DisplayAction::Stop(None),
        ),
{
}

} // verus!
