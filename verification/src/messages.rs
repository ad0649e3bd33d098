//! The protocol's message kinds and their exact wire forms.
//!
//! Inbound text frames carry a JSON object tagged by a `type` member with the
//! values `hello`, `disconnect` (with a `reason` string) and `events_api`
//! (with an `envelope_id` string); anything else — including text that is not
//! JSON at all — is an unrecognized frame, which the session tolerates.
//! The one outbound protocol message is the acknowledgment, encoded here.

use vstd::prelude::*;
use crate::json::{JsonValue, json_of, get_field, as_str, parse_json, value_get};
use crate::wire::{spec_json_string, write_json_string};
use vstd::string::StringExecFns;

verus! {

/// An inbound application message, classified.
#[derive(Debug, PartialEq, Eq)]
pub enum SocketModeMessage {
    /// The greeting sent once after connecting; carries nothing the client reads.
    Hello,
    /// The server asks the client to drop the connection.
    Disconnect { reason: String },
    /// An event delivery that must be acknowledged by its envelope identifier.
    EventsApi { envelope_id: String },
    /// A text frame that carries no recognizable message.
    Unrecognized,
}

/// The classification of an inbound message, over plain sequences.
pub enum MessageModel {
    Hello,
    Disconnect(Seq<char>),
    EventsApi(Seq<char>),
    Unrecognized,
}

impl SocketModeMessage {
    pub open spec fn model(&self) -> MessageModel {
        match self {
            SocketModeMessage::Hello => MessageModel::Hello,
            SocketModeMessage::Disconnect { reason } => MessageModel::Disconnect(reason@),
            SocketModeMessage::EventsApi { envelope_id } => MessageModel::EventsApi(envelope_id@),
            SocketModeMessage::Unrecognized => MessageModel::Unrecognized,
        }
    }
}

/// How a parsed text frame is classified: an object tagged `hello`,
/// `disconnect` (whose `reason` must be a string) or `events_api` (whose
/// `envelope_id` must be a string); everything else is unrecognized.
pub open spec fn spec_classify_value(j: Option<JsonValue>) -> MessageModel {
    match j {
        None => MessageModel::Unrecognized,
        Some(v) => match as_str(get_field(v, "type"@)) {
            None => MessageModel::Unrecognized,
            Some(tag) => if tag == "hello"@ {
                MessageModel::Hello
            } else if tag == "disconnect"@ {
                match as_str(get_field(v, "reason"@)) {
                    Some(reason) => MessageModel::Disconnect(reason),
                    None => MessageModel::Unrecognized,
                }
            } else if tag == "events_api"@ {
                match as_str(get_field(v, "envelope_id"@)) {
                    Some(envelope_id) => MessageModel::EventsApi(envelope_id),
                    None => MessageModel::Unrecognized,
                }
            } else {
                MessageModel::Unrecognized
            },
        },
    }
}

/// The classification of a raw text frame.
pub open spec fn spec_classify(text: Seq<char>) -> MessageModel {
    spec_classify_value(json_of(text))
}

/// The string content of member `key` of `v`, when there is one.
fn get_str<'a>(v: &'a JsonValue, key: &str) -> (r: Option<&'a String>)
    ensures
        match r {
            Some(s) => as_str(get_field(*v, key@)) == Some(s@),
            None => as_str(get_field(*v, key@)) is None,
        },
{
    match value_get(v, key) {
        Some(w) => match w {
            JsonValue::Str(s) => Some(s),
            _ => None,
        },
        None => None,
    }
}

/// Classifies an already parsed text frame.
pub fn classify_value(j: &Option<JsonValue>) -> (m: SocketModeMessage)
    ensures
        m.model() == spec_classify_value(*j),
{
    let v = match j {
        Some(v) => v,
        None => {
            return SocketModeMessage::Unrecognized;
        },
    };
    let tag = match get_str(v, "type") {
        Some(tag) => tag,
        None => {
            return SocketModeMessage::Unrecognized;
        },
    };
    let hello: String = "hello".to_owned();
    let disconnect: String = "disconnect".to_owned();
    let events_api: String = "events_api".to_owned();
    if *tag == hello {
        SocketModeMessage::Hello
    } else if *tag == disconnect {
        match get_str(v, "reason") {
            Some(reason) => SocketModeMessage::Disconnect { reason: reason.clone() },
            None => SocketModeMessage::Unrecognized,
        }
    } else if *tag == events_api {
        match get_str(v, "envelope_id") {
            Some(envelope_id) => SocketModeMessage::EventsApi {
                envelope_id: envelope_id.clone(),
            },
            None => SocketModeMessage::Unrecognized,
        }
    } else {
        SocketModeMessage::Unrecognized
    }
}

/// Classifies a raw text frame.
pub fn classify_text(text: &str) -> (m: SocketModeMessage)
    ensures
        m.model() == spec_classify(text@),
{
    let parsed = parse_json(text);
    classify_value(&parsed)
}

/// The acknowledgment for one event envelope; `payload` is omitted from the
/// wire form when absent.
#[derive(Debug, PartialEq, Eq)]
pub struct SocketModeAcknowledgeMessage {
    pub envelope_id: String,
    pub payload: Option<String>,
}

/// The exact wire form of an acknowledgment: the `payload` member is left
/// out entirely when there is none.
pub open spec fn spec_ack_json(envelope_id: Seq<char>, payload: Option<Seq<char>>) -> Seq<char> {
    match payload {
        None => "{\"envelope_id\":"@ + spec_json_string(envelope_id) + "}"@,
        Some(p) => "{\"envelope_id\":"@ + spec_json_string(envelope_id) + ",\"payload\":"@
            + spec_json_string(p) + "}"@,
    }
}

impl SocketModeAcknowledgeMessage {
    /// Encodes the acknowledgment as its one JSON wire form.
    pub fn to_json(&self) -> (r: String)
        ensures
            r@ == spec_ack_json(self.envelope_id@, self.payload.deep_view()),
    {
        let mut out = String::new();
        out.append("{\"envelope_id\":");
        write_json_string(&mut out, self.envelope_id.as_str());
        match &self.payload {
            Some(p) => {
                out.append(",\"payload\":");
                write_json_string(&mut out, p.as_str());
                out.append("}");
            },
            None => {
                out.append("}");
            },
        }
        proof {
            assert(out@ =~= spec_ack_json(self.envelope_id@, self.payload.deep_view()));
        }
        out
    }
}

/// The outcome of the connection-open call: a one-time URL when `ok`, an
/// error description otherwise.
#[derive(Debug, PartialEq, Eq, Clone)]
pub struct OpenConnectionsResponse {
    pub ok: bool,
    pub url: Option<String>,
    pub error: Option<String>,
}

/// An optional string member: absent or `null` reads as `None`, a string as
/// `Some`, and any other value refuses the whole response.
pub open spec fn spec_opt_string_field(v: JsonValue, key: Seq<char>) -> Option<
    Option<Seq<char>>,
> {
    match get_field(v, key) {
        None => Some(None),
        Some(JsonValue::Null) => Some(None),
        Some(JsonValue::Str(s)) => Some(Some(s@)),
        Some(_) => None,
    }
}

/// How a connection-open response body reads: an object whose `ok` member is
/// a boolean, with optional string members `url` and `error`; anything else
/// is not a response at all.
pub open spec fn spec_parse_open(text: Seq<char>) -> Option<
    (bool, Option<Seq<char>>, Option<Seq<char>>),
> {
    match json_of(text) {
        None => None,
        Some(v) => match get_field(v, "ok"@) {
            Some(JsonValue::Bool(ok)) => match (
                spec_opt_string_field(v, "url"@),
                spec_opt_string_field(v, "error"@),
            ) {
                (Some(url), Some(error)) => Some((ok, url, error)),
                _ => None,
            },
            _ => None,
        },
    }
}

/// An optional string member of `v`, as [`spec_opt_string_field`] reads it.
fn opt_string_field(v: &JsonValue, key: &str) -> (r: Option<Option<String>>)
    ensures
        match r {
            None => spec_opt_string_field(*v, key@) is None,
            Some(m) => spec_opt_string_field(*v, key@) == Some(m.deep_view()),
        },
{
    match value_get(v, key) {
        None => Some(None),
        Some(w) => match w {
            JsonValue::Null => Some(None),
            JsonValue::Str(s) => Some(Some(s.clone())),
            _ => None,
        },
    }
}

/// Reads a connection-open response body; `None` when the text does not
/// carry one.
pub fn parse_open_connections(text: &str) -> (r: Option<OpenConnectionsResponse>)
    ensures
        match spec_parse_open(text@) {
            None => r is None,
            Some(m) => r matches Some(resp) && resp.ok == m.0 && resp.url.deep_view() == m.1
                && resp.error.deep_view() == m.2,
        },
{
    let parsed = parse_json(text);
    let v = match &parsed {
        Some(v) => v,
        None => {
            return None;
        },
    };
    let ok = match value_get(v, "ok") {
        Some(JsonValue::Bool(b)) => *b,
        _ => {
            return None;
        },
    };
    let url = match opt_string_field(v, "url") {
        Some(url) => url,
        None => {
            return None;
        },
    };
    let error = match opt_string_field(v, "error") {
        Some(error) => error,
        None => {
            return None;
        },
    };
    Some(OpenConnectionsResponse { ok, url, error })
}

} // verus!
