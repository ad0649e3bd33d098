//! The per-frame state machine, exercised over the wire texts it will see.

use socket_relay::forward::ForwardError;
use socket_relay::messages::SocketModeAcknowledgeMessage;
use socket_relay::session::{step, Action, InboundFrame, LogEvent, SessionState, StepOutcome};

fn text_frame(t: &str) -> InboundFrame {
    InboundFrame::Text(t.to_owned())
}

fn sends(outcome: &StepOutcome) -> Vec<&Action> {
    outcome
        .actions
        .iter()
        .filter(|a| matches!(a, Action::SendText(_) | Action::Publish(_)))
        .collect()
}

#[test]
fn hello_keeps_session_active_and_silent() {
    let raw = "{\"type\":\"hello\"}";
    let out = step(SessionState::Active, text_frame(raw));
    assert_eq!(out.next, SessionState::Active);
    assert_eq!(out.failure, None);
    assert_eq!(
        out.actions,
        vec![Action::Log(LogEvent::Hello(raw.to_owned()))]
    );
    assert!(sends(&out).is_empty());
}

#[test]
fn disconnect_terminates_with_reason() {
    let raw = "{\"type\":\"disconnect\",\"reason\":\"link_down\"}";
    let out = step(SessionState::Active, text_frame(raw));
    assert_eq!(out.next, SessionState::Terminated);
    assert_eq!(out.failure, None);
    assert_eq!(
        out.actions,
        vec![Action::Log(LogEvent::DisconnectRequest("link_down".to_owned()))]
    );
    assert!(sends(&out).is_empty());
}

#[test]
fn events_api_is_acked_once_before_publish() {
    let raw = "{\"type\":\"events_api\",\"envelope_id\":\"env-7\",\
               \"payload\":{\"event\":{\"channel\":\"C9\",\"text\":\"hey\"}}}";
    let out = step(SessionState::Active, text_frame(raw));
    assert_eq!(out.next, SessionState::Active);
    assert_eq!(out.failure, None);
    assert_eq!(out.actions.len(), 3);
    assert_eq!(
        out.actions[1],
        Action::SendText("{\"envelope_id\":\"env-7\"}".to_owned())
    );
    let ack_count = out
        .actions
        .iter()
        .filter(|a| matches!(a, Action::SendText(_)))
        .count();
    assert_eq!(ack_count, 1);
    let publish_at = out
        .actions
        .iter()
        .position(|a| matches!(a, Action::Publish(_)))
        .unwrap();
    assert!(publish_at > 1);
}

#[test]
fn malformed_frames_are_tolerated() {
    for raw in [
        "this is not json",
        "{\"no_type\":1}",
        "{\"type\":\"mystery\"}",
        "{\"type\":\"disconnect\"}",
        "{\"type\":\"events_api\"}",
        "{\"type\":5}",
        "[1,2,3]",
        "",
    ] {
        let out = step(SessionState::Active, text_frame(raw));
        assert_eq!(out.next, SessionState::Active, "frame {raw:?}");
        assert_eq!(out.failure, None, "frame {raw:?}");
        assert_eq!(
            out.actions,
            vec![Action::Log(LogEvent::UnknownText(raw.to_owned()))],
            "frame {raw:?}"
        );
    }
}

#[test]
fn ack_round_trip_omits_absent_payload() {
    let ack = SocketModeAcknowledgeMessage {
        envelope_id: "abc123".to_owned(),
        payload: None,
    };
    assert_eq!(ack.to_json(), "{\"envelope_id\":\"abc123\"}");
}

#[test]
fn ack_with_payload_carries_it() {
    let ack = SocketModeAcknowledgeMessage {
        envelope_id: "abc123".to_owned(),
        payload: Some("done".to_owned()),
    };
    assert_eq!(
        ack.to_json(),
        "{\"envelope_id\":\"abc123\",\"payload\":\"done\"}"
    );
}

#[test]
fn hello_twice_is_idempotent() {
    let raw = "{\"type\":\"hello\"}";
    let first = step(SessionState::Active, text_frame(raw));
    assert_eq!(first.next, SessionState::Active);
    let second = step(first.next, text_frame(raw));
    assert_eq!(first, second);
    assert_eq!(
        second.actions,
        vec![Action::Log(LogEvent::Hello(raw.to_owned()))]
    );
}

#[test]
fn ping_and_other_frames_only_log() {
    let out = step(SessionState::Active, InboundFrame::Ping(vec![1, 2, 3]));
    assert_eq!(out.next, SessionState::Active);
    assert_eq!(out.actions, vec![Action::Log(LogEvent::Ping(vec![1, 2, 3]))]);
    let out = step(SessionState::Active, InboundFrame::Other);
    assert_eq!(out.next, SessionState::Active);
    assert_eq!(out.actions, vec![Action::Log(LogEvent::UnknownFrame)]);
}

#[test]
fn event_extraction_failures_are_fatal_after_ack() {
    let cases = [
        ("{\"type\":\"events_api\",\"envelope_id\":\"e1\"}", ForwardError::MissingEvent),
        (
            "{\"type\":\"events_api\",\"envelope_id\":\"e2\",\"payload\":{}}",
            ForwardError::MissingEvent,
        ),
        (
            "{\"type\":\"events_api\",\"envelope_id\":\"e3\",\
             \"payload\":{\"event\":{\"text\":\"hi\"}}}",
            ForwardError::MissingChannel,
        ),
        (
            "{\"type\":\"events_api\",\"envelope_id\":\"e4\",\
             \"payload\":{\"event\":{\"channel\":\"C1\"}}}",
            ForwardError::MissingText,
        ),
    ];
    for (raw, expected) in cases {
        let out = step(SessionState::Active, text_frame(raw));
        assert_eq!(out.failure, Some(expected), "frame {raw:?}");
        // The acknowledgment was still owed before the failure surfaced.
        assert!(
            matches!(out.actions[1], Action::SendText(_)),
            "frame {raw:?}"
        );
        assert_eq!(out.actions.len(), 2, "frame {raw:?}");
    }
}
