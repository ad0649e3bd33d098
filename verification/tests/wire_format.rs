//! The exact JSON wire forms, including string escaping.

use socket_relay::forward::{publish_body_json, PublishRequest};
use socket_relay::messages::{classify_text, SocketModeAcknowledgeMessage, SocketModeMessage};
use socket_relay::session::{step, Action, InboundFrame, SessionState};

fn ack(envelope_id: &str) -> String {
    SocketModeAcknowledgeMessage {
        envelope_id: envelope_id.to_owned(),
        payload: None,
    }
    .to_json()
}

#[test]
fn quotes_and_backslashes_are_escaped() {
    assert_eq!(ack("a\"b"), "{\"envelope_id\":\"a\\\"b\"}");
    assert_eq!(ack("a\\b"), "{\"envelope_id\":\"a\\\\b\"}");
}

#[test]
fn control_characters_become_unicode_escapes() {
    assert_eq!(ack("a\nb"), "{\"envelope_id\":\"a\\u000ab\"}");
    assert_eq!(ack("\t"), "{\"envelope_id\":\"\\u0009\"}");
    assert_eq!(ack("\u{1f}"), "{\"envelope_id\":\"\\u001f\"}");
}

#[test]
fn empty_envelope_is_the_empty_string() {
    assert_eq!(ack(""), "{\"envelope_id\":\"\"}");
}

#[test]
fn multibyte_characters_pass_through() {
    assert_eq!(ack("héllo✓"), "{\"envelope_id\":\"héllo✓\"}");
}

#[test]
fn escaped_acks_parse_back_to_their_envelope() {
    // serde_json reads our writing: the escapes round-trip.
    let raw = ack("a\"\\\nb");
    let v: serde_json::Value = serde_json::from_str(&raw).unwrap();
    assert_eq!(v["envelope_id"].as_str(), Some("a\"\\\nb"));
}

#[test]
fn publish_body_is_the_fixed_two_member_object() {
    let req = PublishRequest {
        channel: "C1".to_owned(),
        text: "You said: ```hi```".to_owned(),
    };
    assert_eq!(
        publish_body_json(&req),
        "{\"channel\":\"C1\",\"text\":\"You said: ```hi```\"}"
    );
}

#[test]
fn end_to_end_event_produces_ack_and_publish_bodies() {
    let raw = "{\"type\":\"events_api\",\"envelope_id\":\"E5\",\
               \"payload\":{\"event\":{\"channel\":\"C1\",\"text\":\"hi\"}}}";
    let out = step(SessionState::Active, InboundFrame::Text(raw.to_owned()));
    assert_eq!(out.actions[1], Action::SendText("{\"envelope_id\":\"E5\"}".to_owned()));
    match &out.actions[2] {
        Action::Publish(req) => {
            assert_eq!(req.channel, "C1");
            assert_eq!(req.text, "You said: ```hi```");
            assert_eq!(
                publish_body_json(req),
                "{\"channel\":\"C1\",\"text\":\"You said: ```hi```\"}"
            );
        }
        other => panic!("expected a publish action, got {other:?}"),
    }
}

#[test]
fn classification_reads_the_type_member() {
    assert_eq!(classify_text("{\"type\":\"hello\"}"), SocketModeMessage::Hello);
    assert_eq!(
        classify_text("{\"type\":\"hello\",\"extra\":[1,2]}"),
        SocketModeMessage::Hello
    );
    assert_eq!(
        classify_text("{\"type\":\"disconnect\",\"reason\":\"r\"}"),
        SocketModeMessage::Disconnect {
            reason: "r".to_owned()
        }
    );
    assert_eq!(
        classify_text("{\"type\":\"events_api\",\"envelope_id\":\"e\"}"),
        SocketModeMessage::EventsApi {
            envelope_id: "e".to_owned()
        }
    );
    assert_eq!(
        classify_text("{\"type\":\"disconnect\",\"reason\":7}"),
        SocketModeMessage::Unrecognized
    );
    assert_eq!(
        classify_text("{\"type\":\"events_api\",\"envelope_id\":null}"),
        SocketModeMessage::Unrecognized
    );
    assert_eq!(classify_text("42"), SocketModeMessage::Unrecognized);
}
