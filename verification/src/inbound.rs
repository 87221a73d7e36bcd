//! Inbound messages: each is a JSON object; the router cares only
//! about its top-level `type`, `id` and `payload` fields. An outside
//! JSON parser extracts those three as plain values; everything that
//! is decided about them afterwards is verified here.

use vstd::prelude::*;

verus! {

/// The three top-level fields of an inbound JSON object, as plain
/// values: the `type` string, the `id` number, and the `payload`
/// rendered back to JSON text. Absent or differently-typed fields
/// are `None`.
#[derive(Debug, PartialEq)]
pub struct RawInbound {
    pub msg_type: Option<String>,
    pub id: Option<i64>,
    pub payload: Option<String>,
}

/// What the outside JSON parser extracts from a message text:
/// `None` when the text is not a JSON object, otherwise its `type`,
/// `id` and `payload` fields. The result depends on the text alone.
pub uninterp spec fn raw_inbound_of(s: Seq<char>) -> Option<RawInbound>;

/// Relies on `serde_json::from_str` to parse one message, and on
/// `Value::get`, `Value::as_str`, `Value::as_i64` and `Value`'s
/// `Display` to read its top-level `type`, `id` and `payload` fields
/// out as plain values.
#[verifier::external_body]
fn parse_raw(text: &str) -> (r: Option<RawInbound>)
    ensures
        r == raw_inbound_of(text@),
{
    let value: serde_json::Value = match serde_json::from_str(text) {
        Ok(value) => value,
        Err(_) => return None,
    };
    Some(RawInbound {
        msg_type: value.get("type").and_then(serde_json::Value::as_str).map(str::to_owned),
        id: value.get("id").and_then(serde_json::Value::as_i64),
        payload: value.get("payload").map(|p| p.to_string()),
    })
}

/// An inbound message, as the router sees it.
#[derive(Debug, PartialEq)]
pub enum InboundEvent {
    /// The registration acknowledgment: sets the handshake flag.
    Registered,
    /// A correlated message: a protocol-range id and the payload text.
    Response { id: u8, payload: Option<String> },
    /// Anything else: not a JSON object, no recognizable `type`, or
    /// an `id` missing or outside the protocol's single-byte range.
    Malformed,
}

/// How the raw fields of a message classify into an event:
/// a `type` of `"registered"` acknowledges registration; any other
/// `type` is a correlated message if its `id` fits the single-byte
/// protocol range; everything else is malformed.
pub open spec fn classify_spec(raw: Option<RawInbound>) -> InboundEvent {
    match raw {
        None => InboundEvent::Malformed,
        Some(fields) => match fields.msg_type {
            None => InboundEvent::Malformed,
            Some(t) => if t@ == "registered"@ {
                InboundEvent::Registered
            } else {
                match fields.id {
                    Some(id) => if 0 <= id <= 255 {
                        InboundEvent::Response { id: id as u8, payload: fields.payload }
                    } else {
                        InboundEvent::Malformed
                    },
                    None => InboundEvent::Malformed,
                }
            },
        },
    }
}

/// The event a message text denotes.
pub open spec fn event_of(s: Seq<char>) -> InboundEvent {
    classify_spec(raw_inbound_of(s))
}

/// Classify extracted fields into an event.
pub fn classify(raw: Option<RawInbound>) -> (ev: InboundEvent)
    ensures
        ev == classify_spec(raw),
{
    let registered_tag = "registered".to_owned();
    match raw {
        None => InboundEvent::Malformed,
        Some(fields) => match fields.msg_type {
            None => InboundEvent::Malformed,
            Some(t) => if t == registered_tag {
                InboundEvent::Registered
            } else {
                match fields.id {
                    Some(id) => if 0 <= id && id <= 255 {
                        InboundEvent::Response { id: id as u8, payload: fields.payload }
                    } else {
                        InboundEvent::Malformed
                    },
                    None => InboundEvent::Malformed,
                }
            },
        },
    }
}

/// Parse one inbound message text into the event it denotes.
pub fn parse_inbound(text: &str) -> (ev: InboundEvent)
    ensures
        ev == event_of(text@),
{
    classify(parse_raw(text))
}

} // verus!
