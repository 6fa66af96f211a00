use robot_face::display::{display_step, DisplayAction, DisplayCall, DisplayEvent, DisplayTaskState};
use robot_face::message::{DecodeError, MemberName};
use robot_face::session::{
    session_step, DecodePolicy, SessionAction, SessionEvent, SessionState, Transition, WorkerError,
};
use robot_face::settings::{NoiseGeneratorSettingsUpdate, Real};

fn text(s: &str) -> DisplayEvent {
    DisplayEvent::Message(s.to_string())
}

/// Runs the display task over `events` and collects the controller calls made.
fn display_calls(events: Vec<DisplayEvent>) -> (DisplayTaskState, Vec<DisplayCall>) {
    let mut state = DisplayTaskState::Listening;
    let mut calls = Vec::new();
    for e in events {
        let (next, action) = display_step(state, &e, DecodePolicy::Abort);
        if let DisplayAction::Invoke(c) = action {
            calls.push(c);
        }
        state = next;
    }
    (state, calls)
}

fn subscribed() -> SessionState {
    let mut state = SessionState::Disconnected;
    for e in [SessionEvent::Start, SessionEvent::Opened, SessionEvent::Declared] {
        state = session_step(state, &e, DecodePolicy::Abort).state;
    }
    state
}

#[test]
fn display_on_true_turns_on_once() {
    let (state, calls) = display_calls(vec![text("{\"display_on\": true}"), DisplayEvent::CommandDone]);
    assert_eq!(calls, vec![DisplayCall::TurnOn]);
    assert_eq!(state, DisplayTaskState::Listening);
}

#[test]
fn display_empty_object_turns_off_once() {
    let (_, calls) = display_calls(vec![text("{}"), DisplayEvent::CommandDone]);
    assert_eq!(calls, vec![DisplayCall::TurnOff]);
}

#[test]
fn display_on_false_turns_off_once() {
    let (_, calls) = display_calls(vec![text("{\"display_on\": false}"), DisplayEvent::CommandDone]);
    assert_eq!(calls, vec![DisplayCall::TurnOff]);
}

#[test]
fn malformed_display_message_ends_the_task() {
    let (next, action) = display_step(DisplayTaskState::Listening, &text("{not json"), DecodePolicy::Abort);
    assert_eq!(next, DisplayTaskState::Stopped);
    assert_eq!(action, DisplayAction::Stop(Some(WorkerError::Decode(DecodeError::NotAnObject))));
    let (state, calls) = display_calls(vec![text("{not json"), text("{\"display_on\": true}")]);
    assert_eq!(state, DisplayTaskState::Stopped);
    assert!(calls.is_empty());
}

#[test]
fn malformed_display_message_is_dropped_when_skipping() {
    let (next, action) = display_step(DisplayTaskState::Listening, &text("[]"), DecodePolicy::Skip);
    assert_eq!(next, DisplayTaskState::Listening);
    assert_eq!(action, DisplayAction::Receive);
}

#[test]
fn failed_display_command_ends_the_task() {
    let (next, action) = display_step(DisplayTaskState::Commanding, &DisplayEvent::CommandFailed, DecodePolicy::Abort);
    assert_eq!(next, DisplayTaskState::Stopped);
    assert_eq!(action, DisplayAction::Stop(Some(WorkerError::Collaborator)));
}

#[test]
fn display_payload_that_is_not_text_ends_the_task() {
    let (next, action) = display_step(DisplayTaskState::Listening, &DisplayEvent::NotText, DecodePolicy::Abort);
    assert_eq!(next, DisplayTaskState::Stopped);
    assert_eq!(action, DisplayAction::Stop(Some(WorkerError::Decode(DecodeError::NotText))));
}

#[test]
fn display_stream_end_stops_quietly() {
    let (next, action) = display_step(DisplayTaskState::Listening, &DisplayEvent::Ended, DecodePolicy::Abort);
    assert_eq!(next, DisplayTaskState::Stopped);
    assert_eq!(action, DisplayAction::Stop(None));
}

#[test]
fn session_connects_in_order() {
    let p = DecodePolicy::Abort;
    let t = session_step(SessionState::Disconnected, &SessionEvent::Start, p);
    assert_eq!(t, Transition { state: SessionState::Opening, action: SessionAction::Open });
    let t = session_step(t.state, &SessionEvent::Opened, p);
    assert_eq!(t, Transition { state: SessionState::Declaring, action: SessionAction::Declare });
    let t = session_step(t.state, &SessionEvent::Declared, p);
    assert_eq!(t, Transition { state: SessionState::Subscribed, action: SessionAction::Receive });
}

#[test]
fn settings_message_is_forwarded() {
    let p = DecodePolicy::Abort;
    let t = session_step(subscribed(), &SessionEvent::Settings("{\"segment_width\": 4}".to_string()), p);
    let u = NoiseGeneratorSettingsUpdate {
        width_divider: None,
        height_multiplier: None,
        segment_width: Some(Real(4.0f64.to_bits())),
        frame_time_divider: None,
        perlin_noise_octaves: None,
    };
    assert_eq!(t, Transition { state: SessionState::Forwarding(u), action: SessionAction::Send(u) });
    let t = session_step(t.state, &SessionEvent::Sent, p);
    assert_eq!(t, Transition { state: SessionState::Subscribed, action: SessionAction::Receive });
}

#[test]
fn transport_failure_rebuilds_both_subscriptions() {
    let p = DecodePolicy::Abort;
    let t = session_step(subscribed(), &SessionEvent::Failed(WorkerError::TransportReceive), p);
    assert_eq!(
        t,
        Transition { state: SessionState::Disconnected, action: SessionAction::Abandon(Some(WorkerError::TransportReceive)) }
    );
    let t = session_step(t.state, &SessionEvent::Start, p);
    assert_eq!(t.action, SessionAction::Open);
    let t = session_step(t.state, &SessionEvent::Opened, p);
    assert_eq!(t.action, SessionAction::Declare);
}

#[test]
fn failure_while_forwarding_drops_the_update() {
    let p = DecodePolicy::Abort;
    let t = session_step(subscribed(), &SessionEvent::Settings("{}".to_string()), p);
    assert!(matches!(t.state, SessionState::Forwarding(_)));
    let t = session_step(t.state, &SessionEvent::Failed(WorkerError::ChannelClosed), p);
    assert_eq!(
        t,
        Transition { state: SessionState::Disconnected, action: SessionAction::Abandon(Some(WorkerError::ChannelClosed)) }
    );
}

#[test]
fn open_and_subscribe_failures_restart() {
    let p = DecodePolicy::Abort;
    let t = session_step(SessionState::Opening, &SessionEvent::Failed(WorkerError::SessionOpen), p);
    assert_eq!(t.action, SessionAction::Abandon(Some(WorkerError::SessionOpen)));
    let t = session_step(SessionState::Declaring, &SessionEvent::Failed(WorkerError::Subscribe), p);
    assert_eq!(t.action, SessionAction::Abandon(Some(WorkerError::Subscribe)));
    assert_eq!(t.state, SessionState::Disconnected);
}

#[test]
fn bad_settings_message_abandons_the_session() {
    let t = session_step(subscribed(), &SessionEvent::Settings("{\"width_divider\": true}".to_string()), DecodePolicy::Abort);
    assert_eq!(
        t.action,
        SessionAction::Abandon(Some(WorkerError::Decode(DecodeError::BadMember(MemberName::WidthDivider))))
    );
    let t = session_step(subscribed(), &SessionEvent::NotText, DecodePolicy::Abort);
    assert_eq!(t.action, SessionAction::Abandon(Some(WorkerError::Decode(DecodeError::NotText))));
}

#[test]
fn bad_settings_message_is_dropped_when_skipping() {
    let t = session_step(subscribed(), &SessionEvent::Settings("oops".to_string()), DecodePolicy::Skip);
    assert_eq!(t, Transition { state: SessionState::Subscribed, action: SessionAction::Receive });
}

#[test]
fn settings_stream_end_restarts_without_error() {
    let t = session_step(subscribed(), &SessionEvent::Ended, DecodePolicy::Abort);
    assert_eq!(t, Transition { state: SessionState::Disconnected, action: SessionAction::Abandon(None) });
}

#[test]
fn unexpected_event_restarts() {
    let t = session_step(SessionState::Disconnected, &SessionEvent::Sent, DecodePolicy::Abort);
    assert_eq!(t, Transition { state: SessionState::Disconnected, action: SessionAction::Abandon(None) });
}
