//! OCPP-J message framing: `[2, id, action, payload]`, `[3, id, payload]`
//! and `[4, id, code, description, details]`.
use vstd::prelude::*;
use vstd::string::*;
use crate::ocpp::json::{JsonValue, json_read, json_read_error, read_json};
use crate::ocpp::MessageDirection;
use crate::text::{decimal, has_infix, str_contains, u64_to_decimal};
use crate::core_types::{Timestamp, now};

verus! {

/// An OCPP request.
#[derive(Debug)]
pub struct Call {
    /// Message identifier.
    pub message_id: String,
    /// The action requested.
    pub action: String,
    /// The request payload.
    pub payload: JsonValue,
}

/// An OCPP response.
#[derive(Debug)]
pub struct CallResult {
    /// Identifier of the request answered.
    pub message_id: String,
    /// The response payload.
    pub payload: JsonValue,
}

/// An OCPP error response.
#[derive(Debug)]
pub struct CallError {
    /// Identifier of the request answered.
    pub message_id: String,
    /// The error code.
    pub error_code: String,
    /// A description of the error.
    pub error_description: String,
    /// Further details.
    pub details: JsonValue,
}

/// An OCPP message.
#[derive(Debug)]
pub enum OcppMessage {
    /// A request.
    Call(Call),
    /// A response.
    CallResult(CallResult),
    /// An error response.
    CallError(CallError),
}

impl Call {
    /// A request from its parts.
    pub fn new(message_id: String, action: String, payload: JsonValue) -> (c: Self)
        ensures
            c == (Call { message_id, action, payload }),
    {
        Call { message_id, action, payload }
    }
}

impl CallResult {
    /// A response from its parts.
    pub fn new(message_id: String, payload: JsonValue) -> (c: Self)
        ensures
            c == (CallResult { message_id, payload }),
    {
        CallResult { message_id, payload }
    }
}

impl CallError {
    /// An error response from its parts.
    pub fn new(message_id: String, error_code: String, error_description: String, details: JsonValue) -> (c: Self)
        ensures
            c == (CallError { message_id, error_code, error_description, details }),
    {
        CallError { message_id, error_code, error_description, details }
    }
}

/// The message, or the error text, that a JSON value frames.
pub open spec fn frame_of(v: JsonValue) -> Result<OcppMessage, Seq<char>> {
    match v {
        JsonValue::Array(items) => {
            let a = items@;
            if a.len() == 0 {
                Err("Empty message"@)
            } else {
                match a[0].u64_of() {
                    None => Err("Invalid message type"@),
                    Some(t) => if t == 2 {
                        if a.len() < 4 {
                            Err("Invalid Call message"@)
                        } else if a[1].str_of() is None {
                            Err("Invalid message ID"@)
                        } else if a[2].str_of() is None {
                            Err("Invalid action"@)
                        } else {
                            Ok(OcppMessage::Call(Call {
                                message_id: a[1].str_of()->0,
                                action: a[2].str_of()->0,
                                payload: a[3],
                            }))
                        }
                    } else if t == 3 {
                        if a.len() < 3 {
                            Err("Invalid CallResult message"@)
                        } else if a[1].str_of() is None {
                            Err("Invalid message ID"@)
                        } else {
                            Ok(OcppMessage::CallResult(CallResult {
                                message_id: a[1].str_of()->0,
                                payload: a[2],
                            }))
                        }
                    } else if t == 4 {
                        if a.len() < 5 {
                            Err("Invalid CallError message"@)
                        } else if a[1].str_of() is None {
                            Err("Invalid message ID"@)
                        } else if a[2].str_of() is None {
                            Err("Invalid error code"@)
                        } else if a[3].str_of() is None {
                            Err("Invalid error description"@)
                        } else {
                            Ok(OcppMessage::CallError(CallError {
                                message_id: a[1].str_of()->0,
                                error_code: a[2].str_of()->0,
                                error_description: a[3].str_of()->0,
                                details: a[4],
                            }))
                        }
                    } else {
                        Err("Unknown message type: "@ + decimal(t as nat))
                    },
                }
            }
        },
        _ => Err("Expected array"@),
    }
}

/// Whether an outcome is the one `frame_of` gives.
pub open spec fn outcome_matches(r: Result<OcppMessage, String>, expected: Result<OcppMessage, Seq<char>>) -> bool {
    match (r, expected) {
        (Ok(m), Ok(n)) => m == n,
        (Err(e), Err(f)) => e@ == f,
        _ => false,
    }
}

fn text(s: &str) -> (r: String)
    ensures
        r@ == s@,
{
    s.to_owned()
}

fn string_at(items: &Vec<JsonValue>, i: usize) -> (r: Option<String>)
    requires
        i < items.len(),
    ensures
        r == items@[i as int].str_of(),
{
    match &items[i] {
        JsonValue::Str(s) => Some(s.clone()),
        _ => None,
    }
}

impl OcppMessage {
    /// Reads the message framed by a JSON value.
    pub fn parse(value: JsonValue) -> (r: Result<OcppMessage, String>)
        ensures
            outcome_matches(r, frame_of(value)),
    {
        let mut items = match value {
            JsonValue::Array(items) => items,
            _ => {
                return Err(text("Expected array"));
            },
        };
        let ghost a = items@;
        if items.len() == 0 {
            return Err(text("Empty message"));
        }
        let msg_type = match items[0].as_u64() {
            Some(t) => t,
            None => {
                return Err(text("Invalid message type"));
            },
        };
        if msg_type == 2 {
            if items.len() < 4 {
                return Err(text("Invalid Call message"));
            }
            let message_id = match string_at(&items, 1) {
                Some(s) => s,
                None => {
                    return Err(text("Invalid message ID"));
                },
            };
            let action = match string_at(&items, 2) {
                Some(s) => s,
                None => {
                    return Err(text("Invalid action"));
                },
            };
            let payload = items.remove(3);
            Ok(OcppMessage::Call(Call { message_id, action, payload }))
        } else if msg_type == 3 {
            if items.len() < 3 {
                return Err(text("Invalid CallResult message"));
            }
            let message_id = match string_at(&items, 1) {
                Some(s) => s,
                None => {
                    return Err(text("Invalid message ID"));
                },
            };
            let payload = items.remove(2);
            Ok(OcppMessage::CallResult(CallResult { message_id, payload }))
        } else if msg_type == 4 {
            if items.len() < 5 {
                return Err(text("Invalid CallError message"));
            }
            let message_id = match string_at(&items, 1) {
                Some(s) => s,
                None => {
                    return Err(text("Invalid message ID"));
                },
            };
            let error_code = match string_at(&items, 2) {
                Some(s) => s,
                None => {
                    return Err(text("Invalid error code"));
                },
            };
            let error_description = match string_at(&items, 3) {
                Some(s) => s,
                None => {
                    return Err(text("Invalid error description"));
                },
            };
            let details = items.remove(4);
            Ok(OcppMessage::CallError(CallError { message_id, error_code, error_description, details }))
        } else {
            let mut e = text("Unknown message type: ");
            let n = u64_to_decimal(msg_type);
            e.append(n.as_str());
            Err(e)
        }
    }

    /// The one-line description of a message.
    pub open spec fn description(self) -> Seq<char> {
        match self {
            OcppMessage::Call(c) => "Call("@ + c.action@ + ")"@,
            OcppMessage::CallResult(c) => "CallResult("@ + c.message_id@ + ")"@,
            OcppMessage::CallError(c) => "CallError("@ + c.error_code@ + ")"@,
        }
    }

    /// A one-line description: `Call(action)`, `CallResult(id)` or `CallError(code)`.
    pub fn describe(&self) -> (s: String)
        ensures
            s@ == self.description(),
    {
        let (mut s, inner) = match self {
            OcppMessage::Call(c) => (text("Call("), c.action.as_str()),
            OcppMessage::CallResult(c) => (text("CallResult("), c.message_id.as_str()),
            OcppMessage::CallError(c) => (text("CallError("), c.error_code.as_str()),
        };
        s.append(inner);
        s.append(")");
        s
    }
}

/// The direction the raw text of a message suggests: incoming when it
/// mentions `CallResult` or `CallError`, outgoing otherwise.
pub open spec fn direction_of(raw: Seq<char>) -> MessageDirection {
    if has_infix(raw, "CallResult"@) || has_infix(raw, "CallError"@) {
        MessageDirection::Incoming
    } else {
        MessageDirection::Outgoing
    }
}

/// The direction of a raw message.
pub fn message_direction(raw: &str) -> (d: MessageDirection)
    ensures
        d == direction_of(raw@),
{
    if str_contains(raw, "CallResult") || str_contains(raw, "CallError") {
        MessageDirection::Incoming
    } else {
        MessageDirection::Outgoing
    }
}

/// A parsed OCPP message with the time it was read.
#[derive(Debug)]
pub struct ParsedMessage {
    /// The raw text.
    pub raw: String,
    /// When the message was parsed.
    pub timestamp: Timestamp,
    /// The direction of the message.
    pub direction: MessageDirection,
    /// The message.
    pub message: OcppMessage,
}

/// Parses an OCPP 1.6 message from its raw text and the JSON value that the
/// text holds (or the JSON reader's error).
pub fn parse_read_message(raw: &str, json: Result<JsonValue, String>) -> (r: Result<ParsedMessage, String>)
    ensures
        json matches Err(e) ==> r matches Err(f) && f@ == "Invalid JSON: "@ + e@,
        json matches Ok(v) ==> match (r, frame_of(v)) {
            (Ok(p), Ok(m)) => p.raw@ == raw@ && p.direction == direction_of(raw@) && p.message == m,
            (Err(e), Err(f)) => e@ == f,
            _ => false,
        },
{
    let timestamp = now();
    let direction = message_direction(raw);
    let value = match json {
        Ok(v) => v,
        Err(e) => {
            let mut msg = text("Invalid JSON: ");
            msg.append(e.as_str());
            return Err(msg);
        },
    };
    match OcppMessage::parse(value) {
        Ok(message) => Ok(ParsedMessage { raw: text(raw), timestamp, direction, message }),
        Err(e) => Err(e),
    }
}

/// Parses an OCPP 1.6 message from its raw text: the JSON the text holds is
/// read, then framed as `frame_of` says. Text that is not JSON gives
/// "Invalid JSON: " followed by the JSON reader's message.
pub fn parse_ocpp_message(raw: &str) -> (r: Result<ParsedMessage, String>)
    ensures
        json_read(raw@) is None ==> (r matches Err(f) && f@ == "Invalid JSON: "@ + json_read_error(raw@)),
        json_read(raw@) matches Some(v) ==> match (r, frame_of(v)) {
            (Ok(p), Ok(m)) => p.raw@ == raw@ && p.direction == direction_of(raw@) && p.message == m,
            (Err(e), Err(f)) => e@ == f,
            _ => false,
        },
{
    let json = read_json(raw);
    parse_read_message(raw, json)
}

} // verus!
