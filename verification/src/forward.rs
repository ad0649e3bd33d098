//! Deriving the outbound publish request from an event frame.
//!
//! An `events_api` frame carries the event under `payload.event`; the
//! forwarder reads its `channel` and `text` string members, wraps the text in
//! the fixed quoting template, and yields the request the messaging endpoint
//! expects. A missing member refuses the event — the session treats that as
//! fatal, there is no per-event recovery.

use vstd::prelude::*;
use crate::json::{JsonValue, json_of, get_field, as_str, value_get};
use crate::wire::{spec_json_string, write_json_string};
use vstd::string::StringExecFns;

verus! {

/// One outbound publish call: a target channel and a text body.
#[derive(Debug, PartialEq, Eq, Clone)]
pub struct PublishRequest {
    pub channel: String,
    pub text: String,
}

/// Why an event frame could not be forwarded.
#[derive(Debug, PartialEq, Eq, Structural, Clone, Copy)]
pub enum ForwardError {
    /// The frame has no `payload.event` object.
    MissingEvent,
    /// The event has no `channel` string member.
    MissingChannel,
    /// The event has no `text` string member.
    MissingText,
}

/// The event object of a frame: member `event` of member `payload`.
pub open spec fn spec_event_of(v: JsonValue) -> Option<JsonValue> {
    match get_field(v, "payload"@) {
        Some(p) => get_field(p, "event"@),
        None => None,
    }
}

/// What the forwarder derives from a parsed frame: the event's channel, and
/// its text wrapped in the quoting template.
pub open spec fn spec_forward(v: JsonValue) -> Result<(Seq<char>, Seq<char>), ForwardError> {
    match spec_event_of(v) {
        None => Err(ForwardError::MissingEvent),
        Some(ev) => match as_str(get_field(ev, "channel"@)) {
            None => Err(ForwardError::MissingChannel),
            Some(channel) => match as_str(get_field(ev, "text"@)) {
                None => Err(ForwardError::MissingText),
                Some(text) => Ok((channel, "You said: ```"@ + text + "```"@)),
            },
        },
    }
}

/// The forwarder's reading of a raw text frame.
pub open spec fn spec_forward_text(text: Seq<char>) -> Result<
    (Seq<char>, Seq<char>),
    ForwardError,
> {
    match json_of(text) {
        Some(v) => spec_forward(v),
        None => Err(ForwardError::MissingEvent),
    }
}

/// Builds the publish request for one parsed event frame.
pub fn build_publish(v: &JsonValue) -> (r: Result<PublishRequest, ForwardError>)
    ensures
        match spec_forward(*v) {
            Ok(m) => r matches Ok(req) && req.channel@ == m.0 && req.text@ == m.1,
            Err(e) => r matches Err(e2) && e2 == e,
        },
{
    let ev = match value_get(v, "payload") {
        Some(p) => match value_get(p, "event") {
            Some(ev) => ev,
            None => {
                return Err(ForwardError::MissingEvent);
            },
        },
        None => {
            return Err(ForwardError::MissingEvent);
        },
    };
    let channel = match value_get(ev, "channel") {
        Some(JsonValue::Str(s)) => s,
        _ => {
            return Err(ForwardError::MissingChannel);
        },
    };
    let body = match value_get(ev, "text") {
        Some(JsonValue::Str(s)) => s,
        _ => {
            return Err(ForwardError::MissingText);
        },
    };
    let mut text: String = "You said: ```".to_owned();
    text.append(body.as_str());
    text.append("```");
    proof {
        assert(text@ =~= "You said: ```"@ + body@ + "```"@);
    }
    Ok(PublishRequest { channel: channel.clone(), text })
}

/// The exact wire form of the publish call's JSON body.
pub open spec fn spec_publish_body(channel: Seq<char>, text: Seq<char>) -> Seq<char> {
    "{\"channel\":"@ + spec_json_string(channel) + ",\"text\":"@ + spec_json_string(text) + "}"@
}

/// Encodes the publish request as the JSON body the messaging endpoint takes.
pub fn publish_body_json(req: &PublishRequest) -> (r: String)
    ensures
        r@ == spec_publish_body(req.channel@, req.text@),
{
    let mut out = String::new();
    out.append("{\"channel\":");
    write_json_string(&mut out, req.channel.as_str());
    out.append(",\"text\":");
    write_json_string(&mut out, req.text.as_str());
    out.append("}");
    proof {
        assert(out@ =~= spec_publish_body(req.channel@, req.text@));
    }
    out
}

} // verus!
