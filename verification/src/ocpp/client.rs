//! Decisions of the OCPP 1.6 client (charge point side).
use vstd::prelude::*;
use vstd::string::*;
use crate::ocpp::errors::OcppError;
use crate::ocpp::frame::OcppMessage;
use crate::ocpp::json::JsonValue;
use crate::ocpp::messages::{
    RemoteStartTransactionResponse, RemoteStopTransactionRequest, RemoteStopTransactionResponse,
};
use crate::ocpp::types::RemoteStartStopStatus;
use crate::text::{decimal, digit_char, str_eq, u64_to_decimal};

verus! {

/// Advances the request counter and returns the new value in decimal as the
/// next message identifier.
pub fn next_message_id(counter: &mut u64) -> (id: String)
    requires
        *old(counter) < u64::MAX,
    ensures
        *final(counter) == *old(counter) + 1,
        id@ == decimal(*final(counter) as nat),
{
    *counter = *counter + 1;
    u64_to_decimal(*counter)
}

/// What the client makes of the answer to request `message_id`.
pub open spec fn answer_of(message_id: Seq<char>, message: OcppMessage) -> Result<JsonValue, Seq<char>> {
    match message {
        OcppMessage::CallResult(r) => if r.message_id@ == message_id {
            Ok(r.payload)
        } else {
            Err("Message ID mismatch"@)
        },
        OcppMessage::CallError(e) => Err("OCPP Error: "@ + e.error_code@ + " - "@ + e.error_description@),
        OcppMessage::Call(_) => Err("Unexpected message type"@),
    }
}

/// The payload of the answer to request `message_id`: the payload of a
/// `CallResult` with that identifier, and a protocol error otherwise.
pub fn response_payload(message_id: &str, message: OcppMessage) -> (r: Result<JsonValue, OcppError>)
    ensures
        match (r, answer_of(message_id@, message)) {
            (Ok(p), Ok(q)) => p == q,
            (Err(OcppError::Protocol(s)), Err(t)) => s@ == t,
            _ => false,
        },
{
    match message {
        OcppMessage::CallResult(result) => {
            if str_eq(result.message_id.as_str(), message_id) {
                Ok(result.payload)
            } else {
                Err(OcppError::Protocol("Message ID mismatch".to_owned()))
            }
        },
        OcppMessage::CallError(error) => {
            let mut s = "OCPP Error: ".to_owned();
            s.append(error.error_code.as_str());
            s.append(" - ");
            s.append(error.error_description.as_str());
            Err(OcppError::Protocol(s))
        },
        OcppMessage::Call(_) => Err(OcppError::Protocol("Unexpected message type".to_owned())),
    }
}

/// The answer to a remote start request: always accepted.
pub fn accept_remote_start() -> (r: RemoteStartTransactionResponse)
    ensures
        r.status == RemoteStartStopStatus::Accepted,
{
    RemoteStartTransactionResponse { status: RemoteStartStopStatus::Accepted }
}

/// The answer to a remote stop request: always accepted.
pub fn accept_remote_stop(request: &RemoteStopTransactionRequest) -> (r: RemoteStopTransactionResponse)
    ensures
        r.status == RemoteStartStopStatus::Accepted,
{
    RemoteStopTransactionResponse { status: RemoteStartStopStatus::Accepted }
}

proof fn lemma_decimal_nonempty(n: nat)
    ensures
        decimal(n).len() >= 1,
        n >= 10 ==> decimal(n).len() >= 2,
    decreases n,
{
    if n >= 10 {
        lemma_decimal_nonempty(n / 10);
    }
}

proof fn lemma_digit_char_injective(a: int, b: int)
    requires
        0 <= a < 10,
        0 <= b < 10,
        digit_char(a) == digit_char(b),
    ensures
        a == b,
{
}

/// Different counter values give different message identifiers, so the
/// identifiers of one client's requests never repeat.
pub proof fn law_message_ids_never_repeat(a: nat, b: nat)
    ensures
        a != b ==> decimal(a) != decimal(b),
    decreases a,
{
    if decimal(a) == decimal(b) {
        lemma_decimal_nonempty(a);
        lemma_decimal_nonempty(b);
        if a < 10 && b < 10 {
            assert(decimal(a)[0] == digit_char(a as int));
            assert(decimal(b)[0] == digit_char(b as int));
            lemma_digit_char_injective(a as int, b as int);
        } else if a >= 10 && b >= 10 {
            let da = decimal(a);
            let db = decimal(b);
            assert(da.drop_last() =~= decimal(a / 10));
            assert(db.drop_last() =~= decimal(b / 10));
            law_message_ids_never_repeat(a / 10, b / 10);
            assert(da.last() == digit_char((a % 10) as int));
            assert(db.last() == digit_char((b % 10) as int));
            lemma_digit_char_injective((a % 10) as int, (b % 10) as int);
        }
    }
}

} // verus!
