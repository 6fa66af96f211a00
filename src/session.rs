//! The session worker's decisions: open a session, declare both
//! subscriptions, forward each settings message into the channel, and on any
//! failure abandon the session and start over.

use vstd::prelude::*;

use crate::message::{decode_settings, settings_message, DecodeError};
use crate::settings::NoiseGeneratorSettingsUpdate;

verus! {

/// Topic of the partial settings messages.
pub const SETTINGS_TOPIC: &'static str = "face/settings";

/// Topic of the display commands.
pub const DISPLAY_TOPIC: &'static str = "face/display";

/// A failure that ends a session or a display task.
#[derive(Clone, Copy, Debug, PartialEq, Eq)]
pub enum WorkerError {
    /// The session could not be opened.
    SessionOpen,
    /// A subscription could not be declared.
    Subscribe,
    /// Receiving from a subscription failed.
    TransportReceive,
    /// A payload did not decode.
    Decode(DecodeError),
    /// The host's end of the settings channel is gone.
    ChannelClosed,
    /// The display controller failed.
    Collaborator,
}

/// What a worker does with a payload that does not decode.
#[derive(Clone, Copy, Debug, PartialEq, Eq)]
pub enum DecodePolicy {
    /// Treat it as a failure: the settings path abandons the session, the
    /// display path ends its task.
    Abort,
    /// Drop the message and wait for the next one.
    Skip,
}

/// Where the session worker stands.
#[derive(Clone, Copy, Debug, PartialEq, Eq)]
pub enum SessionState {
    /// No session; a new one is to be opened.
    Disconnected,
    /// A session is being opened.
    Opening,
    /// The session is open and its subscriptions are being declared.
    Declaring,
    /// Both subscriptions are live; waiting for a settings message.
    Subscribed,
    /// This update is being sent into the channel.
    Forwarding(NoiseGeneratorSettingsUpdate),
}

/// What happened since the worker's last action.
#[derive(Debug, PartialEq, Eq)]
pub enum SessionEvent {
    /// The worker is ready to (re)connect.
    Start,
    /// The session is open.
    Opened,
    /// Both subscriptions are declared and the display task runs.
    Declared,
    /// A settings message arrived with this text.
    Settings(String),
    /// A settings message arrived whose payload is not text.
    NotText,
    /// The update was sent into the channel.
    Sent,
    /// The settings subscription delivers no more messages.
    Ended,
    /// The last action failed.
    Failed(WorkerError),
}

/// What the worker does next.
#[derive(Clone, Copy, Debug, PartialEq, Eq)]
pub enum SessionAction {
    /// Open a session.
    Open,
    /// Declare the settings and display subscriptions on the session and
    /// start its display task.
    Declare,
    /// Wait for the next settings message.
    Receive,
    /// Send this update into the channel, waiting while it is full.
    Send(NoiseGeneratorSettingsUpdate),
    /// Drop the session, its subscriptions and its display task, and report
    /// the error if there is one.
    Abandon(Option<WorkerError>),
}

/// The worker's next state and action.
#[derive(Clone, Copy, Debug, PartialEq, Eq)]
pub struct Transition {
    pub state: SessionState,
    pub action: SessionAction,
}

/// Whether a session is open or being opened.
pub open spec fn in_session(s: SessionState) -> bool {
    !(s is Disconnected)
}

/// The worker's reaction to a decoded (or undecodable) settings message.
pub open spec fn after_settings_decode(r: Result<NoiseGeneratorSettingsUpdate, DecodeError>, policy: DecodePolicy) -> Transition {
    match r {
        Ok(u) => Transition { state: SessionState::Forwarding(u), action: SessionAction::Send(u) },
        Err(e) => match policy {
            DecodePolicy::Abort => Transition {
                state: SessionState::Disconnected,
                action: SessionAction::Abandon(Some(WorkerError::Decode(e))),
            },
            DecodePolicy::Skip => Transition { state: SessionState::Subscribed, action: SessionAction::Receive },
        },
    }
}

/// The session worker's transition. A failure anywhere abandons the session;
/// an event that the state does not expect abandons it too.
pub open spec fn session_transition(state: SessionState, event: SessionEvent, policy: DecodePolicy) -> Transition {
    let restart = Transition { state: SessionState::Disconnected, action: SessionAction::Abandon(None) };
    match event {
        SessionEvent::Failed(e) => Transition {
            state: SessionState::Disconnected,
            action: SessionAction::Abandon(Some(e)),
        },
        SessionEvent::Start => if state is Disconnected {
            Transition { state: SessionState::Opening, action: SessionAction::Open }
        } else {
            restart
        },
        SessionEvent::Opened => if state is Opening {
            Transition { state: SessionState::Declaring, action: SessionAction::Declare }
        } else {
            restart
        },
        SessionEvent::Declared => if state is Declaring {
            Transition { state: SessionState::Subscribed, action: SessionAction::Receive }
        } else {
            restart
        },
        SessionEvent::Settings(text) => if state is Subscribed {
            after_settings_decode(settings_message(text@), policy)
        } else {
            restart
        },
        SessionEvent::NotText => if state is Subscribed {
            after_settings_decode(Err(DecodeError::NotText), policy)
        } else {
            restart
        },
        SessionEvent::Sent => if state is Forwarding {
            Transition { state: SessionState::Subscribed, action: SessionAction::Receive }
        } else {
            restart
        },
        SessionEvent::Ended => restart,
    }
}

fn react_to_decode(r: Result<NoiseGeneratorSettingsUpdate, DecodeError>, policy: DecodePolicy) -> (t: Transition)
    ensures
        t == after_settings_decode(r, policy),
{
    match r {
        Ok(u) => Transition { state: SessionState::Forwarding(u), action: SessionAction::Send(u) },
        Err(e) => match policy {
            DecodePolicy::Abort => Transition {
                state: SessionState::Disconnected,
                action: SessionAction::Abandon(Some(WorkerError::Decode(e))),
            },
            DecodePolicy::Skip => Transition { state: SessionState::Subscribed, action: SessionAction::Receive },
        },
    }
}

/// The session worker's next state and action on `event`.
pub fn session_step(state: SessionState, event: &SessionEvent, policy: DecodePolicy) -> (t: Transition)
    ensures
        t == session_transition(state, *event, policy),
{
    let restart = Transition { state: SessionState::Disconnected, action: SessionAction::Abandon(None) };
    match event {
        SessionEvent::Failed(e) => Transition {
            state: SessionState::Disconnected,
            action: SessionAction::Abandon(Some(*e)),
        },
        SessionEvent::Start => match state {
            SessionState::Disconnected => Transition { state: SessionState::Opening, action: SessionAction::Open },
            _ => restart,
        },
        SessionEvent::Opened => match state {
            SessionState::Opening => Transition { state: SessionState::Declaring, action: SessionAction::Declare },
            _ => restart,
        },
        SessionEvent::Declared => match state {
            SessionState::Declaring => Transition { state: SessionState::Subscribed, action: SessionAction::Receive },
            _ => restart,
        },
        SessionEvent::Settings(text) => match state {
            SessionState::Subscribed => react_to_decode(decode_settings(text.as_str()), policy),
            _ => restart,
        },
        SessionEvent::NotText => match state {
            SessionState::Subscribed => react_to_decode(Err(DecodeError::NotText), policy),
            _ => restart,
        },
        SessionEvent::Sent => match state {
            SessionState::Forwarding(_) => Transition { state: SessionState::Subscribed, action: SessionAction::Receive },
            _ => restart,
        },
        SessionEvent::Ended => restart,
    }
}

/// A failure at any point of a session (opening it, declaring its
/// subscriptions, waiting for a message, forwarding one) abandons the whole
/// session, and an update that was being forwarded is dropped. The worker
/// then opens a fresh session and declares both subscriptions on it; no state
/// is terminal.
pub proof fn lemma_failure_rebuilds_session(s: SessionState, e: WorkerError, policy: DecodePolicy)
    ensures
        session_transition(s, SessionEvent::Failed(e), policy) == (Transition {
            state: SessionState::Disconnected,
            action: SessionAction::Abandon(Some(e)),
        }),
        session_transition(SessionState::Disconnected, SessionEvent::Start, policy) == (Transition {
            state: SessionState::Opening,
            action: SessionAction::Open,
        }),
        session_transition(SessionState::Opening, SessionEvent::Opened, policy) == (Transition {
            state: SessionState::Declaring,
            action: SessionAction::Declare,
        }),
        session_transition(SessionState::Declaring, SessionEvent::Declared, policy) == (Transition {
            state: SessionState::Subscribed,
            action: SessionAction::Receive,
        }),
{
}

/// A settings message that decodes is forwarded as it is, and the worker
/// waits for the next message once the channel has taken it.
pub proof fn lemma_decoded_settings_forwarded(text: String, policy: DecodePolicy)
    requires
        settings_message(text@) is Ok,
    ensures
        session_transition(SessionState::Subscribed, SessionEvent::Settings(text), policy) == (Transition {
            state: SessionState::Forwarding(settings_message(text@)->Ok_0),
            action: SessionAction::Send(settings_message(text@)->Ok_0),
        }),
        session_transition(
            SessionState::Forwarding(settings_message(text@)->Ok_0),
            SessionEvent::Sent,
            policy,
        ) == (Transition { state: SessionState::Subscribed, action: SessionAction::Receive }),
{
}

/// The updates that the worker sends into the channel while it goes through
/// `events` from `state`, in order.
pub open spec fn sent_updates(state: SessionState, events: Seq<SessionEvent>, policy: DecodePolicy) -> Seq<NoiseGeneratorSettingsUpdate>
    decreases events.len(),
{
    if events.len() == 0 {
        Seq::empty()
    } else {
        let t = session_transition(state, events[0], policy);
        let rest = sent_updates(t.state, events.drop_first(), policy);
        match t.action {
            SessionAction::Send(u) => seq![u] + rest,
            _ => rest,
        }
    }
}

/// The state that the worker reaches after going through `events` from
/// `state`.
pub open spec fn state_after(state: SessionState, events: Seq<SessionEvent>, policy: DecodePolicy) -> SessionState
    decreases events.len(),
{
    if events.len() == 0 {
        state
    } else {
        state_after(session_transition(state, events[0], policy).state, events.drop_first(), policy)
    }
}

/// Settings messages with these texts, each followed by the channel taking
/// the update sent for it.
pub open spec fn delivery(texts: Seq<String>) -> Seq<SessionEvent>
    decreases texts.len(),
{
    if texts.len() == 0 {
        Seq::empty()
    } else {
        seq![SessionEvent::Settings(texts[0]), SessionEvent::Sent] + delivery(texts.drop_first())
    }
}

/// Within a session, well-formed settings messages are forwarded one send per
/// message, in arrival order: none is dropped, repeated or reordered, and the
/// worker is back to waiting for the next message afterwards.
pub proof fn lemma_messages_forwarded_in_order(texts: Seq<String>, policy: DecodePolicy)
    requires
        forall|i: int| 0 <= i < texts.len() ==> (#[trigger] settings_message(texts[i]@)) is Ok,
    ensures
        sent_updates(SessionState::Subscribed, delivery(texts), policy)
            == texts.map_values(|t: String| settings_message(t@)->Ok_0),
        state_after(SessionState::Subscribed, delivery(texts), policy) == SessionState::Subscribed,
    decreases texts.len(),
{
    if texts.len() == 0 {
        assert(texts.map_values(|t: String| settings_message(t@)->Ok_0) =~= Seq::empty());
    } else {
        let rest = texts.drop_first();
        assert forall|i: int| 0 <= i < rest.len() implies (#[trigger] settings_message(rest[i]@)) is Ok by {
            assert(rest[i] == texts[i + 1]);
        }
        lemma_messages_forwarded_in_order(rest, policy);
        let events = delivery(texts);
        let u = settings_message(texts[0]@)->Ok_0;
        assert(settings_message(texts[0]@) is Ok);
        assert(events[0] == SessionEvent::Settings(texts[0]));
        assert(events.drop_first()[0] == SessionEvent::Sent);
        assert(events.drop_first().drop_first() =~= delivery(rest));
        assert(sent_updates(SessionState::Forwarding(u), events.drop_first(), policy)
            == sent_updates(SessionState::Subscribed, delivery(rest), policy));
        assert(state_after(SessionState::Forwarding(u), events.drop_first(), policy)
            == state_after(SessionState::Subscribed, delivery(rest), policy));
        assert(texts.map_values(|t: String| settings_message(t@)->Ok_0)
            =~= seq![u] + rest.map_values(|t: String| settings_message(t@)->Ok_0));
    }
}

/// Whether the worker has no live subscriptions: no session, or one whose
/// subscriptions are not declared yet.
pub open spec fn unsubscribed(s: SessionState) -> bool {
    s is Disconnected || s is Opening || s is Declaring
}

/// Once a session is abandoned, nothing more is sent into the channel until a
/// fresh session has declared its subscriptions: messages in flight at the
/// failure are not replayed.
pub proof fn lemma_no_send_until_declared(state: SessionState, events: Seq<SessionEvent>, policy: DecodePolicy)
    requires
        unsubscribed(state),
        forall|i: int| 0 <= i < events.len() ==> !(#[trigger] events[i] is Declared),
    ensures
        sent_updates(state, events, policy) == Seq::<NoiseGeneratorSettingsUpdate>::empty(),
        unsubscribed(state_after(state, events, policy)),
    decreases events.len(),
{
    if events.len() > 0 {
        let rest = events.drop_first();
        assert(!(events[0] is Declared));
        assert forall|i: int| 0 <= i < rest.len() implies !(#[trigger] rest[i] is Declared) by {
            assert(rest[i] == events[i + 1]);
        }
        lemma_no_send_until_declared(session_transition(state, events[0], policy).state, rest, policy);
    }
}

} // verus!
