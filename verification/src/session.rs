//! The per-frame protocol state machine.
//!
//! A session is `Connecting` until the transport yields a stream, `Active`
//! while frames are consumed, and `Terminated` after the server's disconnect
//! request. [`step`] takes one inbound frame and returns the outcome: the
//! next state, the ordered actions the caller must perform (log, send the
//! acknowledgment frame, issue the publish call — in that order), and
//! whether a forwarding failure makes the session fatal. The caller performs
//! the actions in order and reads no further frame unless the next state is
//! `Active` and no failure was reported.
//!
//! Two deliberate policy choices are kept from the protocol as deployed and
//! are worth seeing plainly rather than silently changed: the acknowledgment
//! is owed before the publish call, so an event whose forwarding then fails
//! stays acknowledged but undelivered; and a ping frame is only logged — no
//! pong is produced here, keepalive replies are left to the transport.
//! A failure is reported as a value, so a caller may choose to isolate it
//! per event instead of terminating; the shipped shell terminates, as the
//! service always has.

use vstd::prelude::*;
use crate::json::{JsonValue, json_of};
use crate::messages::{MessageModel, SocketModeAcknowledgeMessage, SocketModeMessage, classify_value, spec_ack_json, spec_classify};
use crate::json::parse_json;
use crate::forward::{ForwardError, PublishRequest, build_publish, spec_forward_text};

verus! {

/// Where the session stands.
#[derive(Debug, PartialEq, Eq, Structural, Clone, Copy)]
pub enum SessionState {
    /// The transport is not up yet.
    Connecting,
    /// Frames are being consumed.
    Active,
    /// The server asked for a disconnect; no further frame is read.
    Terminated,
}

impl SessionState {
    /// The state a session is born in.
    pub fn initial() -> (s: SessionState)
        ensures
            s is Connecting,
    {
        SessionState::Connecting
    }

    /// The transport came up: the session starts consuming frames.
    pub fn activate(self) -> (s: SessionState)
        requires
            self is Connecting,
        ensures
            s is Active,
    {
        SessionState::Active
    }
}

/// One unit of data from the transport.
#[derive(Debug, PartialEq, Eq, Clone)]
pub enum InboundFrame {
    /// A text frame, carrying an application message.
    Text(String),
    /// A keepalive probe.
    Ping(Vec<u8>),
    /// Anything else the transport folds together: binary, pong, close.
    Other,
}

/// An inbound frame over plain sequences.
pub enum FrameModel {
    Text(Seq<char>),
    Ping(Seq<u8>),
    Other,
}

impl InboundFrame {
    pub open spec fn model(&self) -> FrameModel {
        match self {
            InboundFrame::Text(t) => FrameModel::Text(t@),
            InboundFrame::Ping(b) => FrameModel::Ping(b@),
            InboundFrame::Other => FrameModel::Other,
        }
    }
}

/// A log line the caller owes its operator; carries the data the inbound
/// message carried, never a reply.
#[derive(Debug, PartialEq, Eq, Clone)]
pub enum LogEvent {
    /// The greeting arrived; carries the raw frame text.
    Hello(String),
    /// The server asked to disconnect; carries the reason.
    DisconnectRequest(String),
    /// An event delivery arrived; carries the raw frame text.
    EventsApi(String),
    /// A text frame carried no recognizable message; carries the raw text.
    UnknownText(String),
    /// A keepalive probe arrived; carries its bytes.
    Ping(Vec<u8>),
    /// A frame of no interesting kind arrived.
    UnknownFrame,
}

/// A log line over plain sequences.
pub enum LogModel {
    Hello(Seq<char>),
    DisconnectRequest(Seq<char>),
    EventsApi(Seq<char>),
    UnknownText(Seq<char>),
    Ping(Seq<u8>),
    UnknownFrame,
}

impl LogEvent {
    pub open spec fn model(&self) -> LogModel {
        match self {
            LogEvent::Hello(t) => LogModel::Hello(t@),
            LogEvent::DisconnectRequest(r) => LogModel::DisconnectRequest(r@),
            LogEvent::EventsApi(t) => LogModel::EventsApi(t@),
            LogEvent::UnknownText(t) => LogModel::UnknownText(t@),
            LogEvent::Ping(b) => LogModel::Ping(b@),
            LogEvent::UnknownFrame => LogModel::UnknownFrame,
        }
    }
}

/// One thing the caller must do, in the order given.
#[derive(Debug, PartialEq, Eq, Clone)]
pub enum Action {
    /// Record a log line.
    Log(LogEvent),
    /// Send this text back over the socket (the acknowledgment frame).
    SendText(String),
    /// Issue the one outbound publish call.
    Publish(PublishRequest),
}

/// An action over plain sequences.
pub enum ActionModel {
    Log(LogModel),
    SendText(Seq<char>),
    Publish { channel: Seq<char>, text: Seq<char> },
}

impl Action {
    pub open spec fn model(&self) -> ActionModel {
        match self {
            Action::Log(ev) => ActionModel::Log(ev.model()),
            Action::SendText(t) => ActionModel::SendText(t@),
            Action::Publish(req) => ActionModel::Publish {
                channel: req.channel@,
                text: req.text@,
            },
        }
    }
}

/// What one step decided.
#[derive(Debug, PartialEq, Eq, Clone)]
pub struct StepOutcome {
    /// The state the session is in after the frame.
    pub next: SessionState,
    /// What the caller must perform, in this order.
    pub actions: Vec<Action>,
    /// A forwarding failure; the session is fatal when present, after the
    /// actions (the acknowledgment among them) were performed.
    pub failure: Option<ForwardError>,
}

/// A step outcome over plain sequences.
pub struct OutcomeModel {
    pub next: SessionState,
    pub actions: Seq<ActionModel>,
    pub failure: Option<ForwardError>,
}

impl StepOutcome {
    pub open spec fn model(&self) -> OutcomeModel {
        OutcomeModel {
            next: self.next,
            actions: self.actions@.map_values(|a: Action| a.model()),
            failure: self.failure,
        }
    }
}

/// An outcome that keeps the session active with the given actions.
pub open spec fn spec_continue(actions: Seq<ActionModel>) -> OutcomeModel {
    OutcomeModel { next: SessionState::Active, actions, failure: None }
}

/// What an active session does with one classified text frame: the greeting
/// and unrecognized text are logged and tolerated; a disconnect request
/// terminates; an event delivery is logged, then acknowledged, then — when
/// its fields can be read — forwarded, a failure being fatal only after the
/// acknowledgment.
pub open spec fn spec_dispatch(m: MessageModel, text: Seq<char>) -> OutcomeModel {
    match m {
        MessageModel::Hello => spec_continue(seq![ActionModel::Log(LogModel::Hello(text))]),
        MessageModel::Disconnect(reason) => OutcomeModel {
            next: SessionState::Terminated,
            actions: seq![ActionModel::Log(LogModel::DisconnectRequest(reason))],
            failure: None,
        },
        MessageModel::Unrecognized => spec_continue(
            seq![ActionModel::Log(LogModel::UnknownText(text))],
        ),
        MessageModel::EventsApi(envelope_id) => {
            let lead = seq![
                ActionModel::Log(LogModel::EventsApi(text)),
                ActionModel::SendText(spec_ack_json(envelope_id, None)),
            ];
            match spec_forward_text(text) {
                Ok(m) => OutcomeModel {
                    next: SessionState::Active,
                    actions: lead + seq![ActionModel::Publish { channel: m.0, text: m.1 }],
                    failure: None,
                },
                Err(e) => OutcomeModel {
                    next: SessionState::Active,
                    actions: lead,
                    failure: Some(e),
                },
            }
        },
    }
}

/// What an active session does with one raw text frame.
pub open spec fn spec_step_text(text: Seq<char>) -> OutcomeModel {
    spec_dispatch(spec_classify(text), text)
}

/// What an active session does with one inbound frame.
pub open spec fn spec_step(f: FrameModel) -> OutcomeModel {
    match f {
        FrameModel::Text(t) => spec_step_text(t),
        FrameModel::Ping(b) => spec_continue(seq![ActionModel::Log(LogModel::Ping(b))]),
        FrameModel::Other => spec_continue(seq![ActionModel::Log(LogModel::UnknownFrame)]),
    }
}

/// Consumes one inbound frame while the session is active.
pub fn step(state: SessionState, frame: InboundFrame) -> (r: StepOutcome)
    requires
        state is Active,
    ensures
        r.model() == spec_step(frame.model()),
{
    match frame {
        InboundFrame::Ping(bytes) => {
            let mut actions: Vec<Action> = Vec::new();
            actions.push(Action::Log(LogEvent::Ping(bytes)));
            let r = StepOutcome { next: SessionState::Active, actions, failure: None };
            proof {
                assert(r.model().actions =~= spec_step(frame.model()).actions);
            }
            r
        },
        InboundFrame::Other => {
            let mut actions: Vec<Action> = Vec::new();
            actions.push(Action::Log(LogEvent::UnknownFrame));
            let r = StepOutcome { next: SessionState::Active, actions, failure: None };
            proof {
                assert(r.model().actions =~= spec_step(frame.model()).actions);
            }
            r
        },
        InboundFrame::Text(text) => {
            let parsed = parse_json(text.as_str());
            let message = classify_value(&parsed);
            match message {
                SocketModeMessage::Hello => {
                    let mut actions: Vec<Action> = Vec::new();
                    actions.push(Action::Log(LogEvent::Hello(text)));
                    let r = StepOutcome { next: SessionState::Active, actions, failure: None };
                    proof {
                        assert(r.model().actions =~= spec_step_text(text@).actions);
                    }
                    r
                },
                SocketModeMessage::Disconnect { reason } => {
                    let mut actions: Vec<Action> = Vec::new();
                    actions.push(Action::Log(LogEvent::DisconnectRequest(reason)));
                    let r = StepOutcome { next: SessionState::Terminated, actions, failure: None };
                    proof {
                        assert(r.model().actions =~= spec_step_text(text@).actions);
                    }
                    r
                },
                SocketModeMessage::Unrecognized => {
                    let mut actions: Vec<Action> = Vec::new();
                    actions.push(Action::Log(LogEvent::UnknownText(text)));
                    let r = StepOutcome { next: SessionState::Active, actions, failure: None };
                    proof {
                        assert(r.model().actions =~= spec_step_text(text@).actions);
                    }
                    r
                },
                SocketModeMessage::EventsApi { envelope_id } => {
                    let ack = SocketModeAcknowledgeMessage { envelope_id, payload: None };
                    let ack_text = ack.to_json();
                    let mut actions: Vec<Action> = Vec::new();
                    actions.push(Action::Log(LogEvent::EventsApi(text)));
                    actions.push(Action::SendText(ack_text));
                    match &parsed {
                        Some(v) => match build_publish(v) {
                            Ok(req) => {
                                actions.push(Action::Publish(req));
                                let r = StepOutcome {
                                    next: SessionState::Active,
                                    actions,
                                    failure: None,
                                };
                                proof {
                                    assert(r.model().actions =~= spec_step_text(text@).actions);
                                }
                                r
                            },
                            Err(e) => {
                                let r = StepOutcome {
                                    next: SessionState::Active,
                                    actions,
                                    failure: Some(e),
                                };
                                proof {
                                    assert(r.model().actions =~= spec_step_text(text@).actions);
                                }
                                r
                            },
                        },
                        None => {
                            let r = StepOutcome {
                                next: SessionState::Active,
                                actions,
                                failure: Some(ForwardError::MissingEvent),
                            };
                            proof {
                                assert(r.model().actions =~= spec_step_text(text@).actions);
                            }
                            r
                        },
                    }
                },
            }
        },
    }
}

/// Law: a greeting leaves the session active and sends no reply — the one
/// action is the log line, so nothing is written back and nothing is
/// published.
pub proof fn lemma_hello_no_reply(text: Seq<char>)
    ensures
        spec_classify(text) is Hello ==> {
            let out = spec_step_text(text);
            &&& out.next is Active
            &&& out.failure is None
            &&& out.actions =~= seq![ActionModel::Log(LogModel::Hello(text))]
            &&& forall|i: int|
                0 <= i < out.actions.len() ==> !(out.actions[i] is SendText) && !(out.actions[i]
                    is Publish)
        },
{
}

/// Law: a disconnect request, whatever its reason, terminates the session —
/// the outcome's state is `Terminated`, under which the caller reads no
/// further frame — and sends no reply.
pub proof fn lemma_disconnect_terminates(text: Seq<char>)
    ensures
        spec_classify(text) matches MessageModel::Disconnect(reason) ==> {
            let out = spec_step_text(text);
            &&& out.next is Terminated
            &&& out.failure is None
            &&& out.actions =~= seq![ActionModel::Log(LogModel::DisconnectRequest(reason))]
            &&& forall|i: int|
                0 <= i < out.actions.len() ==> !(out.actions[i] is SendText) && !(out.actions[i]
                    is Publish)
        },
{
}

/// Law: an event delivery is acknowledged exactly once, with the frame's
/// envelope identifier and no payload, and the acknowledgment stands before
/// any publish action.
pub proof fn lemma_events_ack_first(text: Seq<char>)
    ensures
        spec_classify(text) matches MessageModel::EventsApi(envelope_id) ==> {
            let out = spec_step_text(text);
            &&& out.actions.len() >= 2
            &&& out.actions[1] == ActionModel::SendText(spec_ack_json(envelope_id, None))
            &&& forall|i: int|
                0 <= i < out.actions.len() && i != 1 ==> !(out.actions[i] is SendText)
            &&& forall|i: int| 0 <= i < out.actions.len() && out.actions[i] is Publish ==> i > 1
        },
{
}

/// Law: a malformed text frame — text that is not JSON, or JSON without the
/// `type` discriminator, or an unknown discriminator — is tolerated: the
/// session stays active, nothing is sent back, nothing fails.
pub proof fn lemma_malformed_tolerated(text: Seq<char>)
    ensures
        spec_classify(text) is Unrecognized ==> {
            let out = spec_step_text(text);
            &&& out.next is Active
            &&& out.failure is None
            &&& out.actions =~= seq![ActionModel::Log(LogModel::UnknownText(text))]
            &&& forall|i: int|
                0 <= i < out.actions.len() ==> !(out.actions[i] is SendText) && !(out.actions[i]
                    is Publish)
        },
{
}

/// Law: receiving the same greeting frame twice is idempotent — both steps
/// start from and end in `Active`, and their outcomes are identical, each
/// owing the one identical log line.
pub proof fn lemma_hello_idempotent(text: Seq<char>)
    ensures
        spec_classify(text) is Hello ==> {
            let first = spec_step(FrameModel::Text(text));
            let second = spec_step(FrameModel::Text(text));
            &&& first.next is Active
            &&& second == first
            &&& second.actions =~= seq![ActionModel::Log(LogModel::Hello(text))]
        },
{
}

} // verus!
