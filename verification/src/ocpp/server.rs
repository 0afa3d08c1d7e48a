//! Decisions of the OCPP 1.6 server (central system side).
use vstd::prelude::*;
use vstd::string::*;
use crate::core_types::{now_rfc3339, random_u64, rfc3339_utc_text};
use crate::ocpp::errors::OcppError;
use crate::ocpp::frame::{Call, CallError, CallResult, OcppMessage};
use crate::ocpp::json::JsonValue;
use crate::ocpp::messages::{
    AuthorizeRequest, AuthorizeResponse, BootNotificationRequest, BootNotificationResponse,
    HeartbeatResponse, MeterValuesRequest, MeterValuesResponse, StartTransactionRequest,
    StartTransactionResponse, StatusNotificationRequest, StatusNotificationResponse,
    StopTransactionRequest, StopTransactionResponse,
};
use crate::ocpp::types::{AuthorizationStatus, IdTagInfo, RegistrationStatus};

verus! {

/// The reply to a request, given what its handler did: `None` when no
/// handler is registered for the action.
pub open spec fn reply_of(call: Call, outcome: Option<Result<JsonValue, OcppError>>) -> (Seq<char>, Seq<char>, Seq<char>) {
    match outcome {
        None => ("NotSupported"@, "Action "@ + call.action@ + " not supported"@, call.message_id@),
        Some(Ok(_)) => (Seq::empty(), Seq::empty(), call.message_id@),
        Some(Err(e)) => ("InternalError"@, e.prefix() + e.detail()@, call.message_id@),
    }
}

/// Builds the reply to a request from its handler's outcome: a `CallResult`
/// carrying the handler's response, an `InternalError` carrying the
/// handler's error message, or `NotSupported` when there is no handler.
/// Error replies carry an empty object as details.
pub fn reply_to_call(call: Call, outcome: Option<Result<JsonValue, OcppError>>) -> (m: OcppMessage)
    ensures
        match outcome {
            Some(Ok(response)) => m == OcppMessage::CallResult(CallResult { message_id: call.message_id, payload: response }),
            _ => {
                &&& m matches OcppMessage::CallError(e)
                &&& e.error_code@ == reply_of(call, outcome).0
                &&& e.error_description@ == reply_of(call, outcome).1
                &&& e.message_id == call.message_id
                &&& e.details == JsonValue::Object(e.details->Object_0)
                &&& e.details->Object_0@.len() == 0
            },
        },
{
    match outcome {
        Some(Ok(response)) => OcppMessage::CallResult(CallResult::new(call.message_id, response)),
        Some(Err(e)) => OcppMessage::CallError(CallError::new(
            call.message_id,
            "InternalError".to_owned(),
            e.message(),
            JsonValue::Object(Vec::new()),
        )),
        None => {
            let mut description = "Action ".to_owned();
            description.append(call.action.as_str());
            description.append(" not supported");
            OcppMessage::CallError(CallError::new(
                call.message_id,
                "NotSupported".to_owned(),
                description,
                JsonValue::Object(Vec::new()),
            ))
        },
    }
}

/// The default request handlers of the central system.
#[derive(Debug, Clone, Copy)]
pub struct DefaultHandlers;

impl DefaultHandlers {
    /// Accepts every charge point, with a heartbeat interval of 60 seconds.
    pub fn boot_notification(&self, request: &BootNotificationRequest) -> (r: BootNotificationResponse)
        ensures
            r.status == RegistrationStatus::Accepted,
            r.interval == 60,
            rfc3339_utc_text(r.current_time@),
    {
        BootNotificationResponse {
            status: RegistrationStatus::Accepted,
            current_time: now_rfc3339(),
            interval: 60,
        }
    }

    /// Answers a heartbeat with the current time.
    pub fn heartbeat(&self) -> (r: HeartbeatResponse)
        ensures
            rfc3339_utc_text(r.current_time@),
    {
        HeartbeatResponse { current_time: now_rfc3339() }
    }

    /// Acknowledges a status notification.
    pub fn status_notification(&self, request: &StatusNotificationRequest) -> (r: StatusNotificationResponse)
        ensures
            r == StatusNotificationResponse,
    {
        StatusNotificationResponse
    }

    /// Accepts every id tag, with no expiry and no parent.
    pub fn authorize(&self, request: &AuthorizeRequest) -> (r: AuthorizeResponse)
        ensures
            r.id_tag_info.status == AuthorizationStatus::Accepted,
            r.id_tag_info.expiry_date is None,
            r.id_tag_info.parent_id_tag is None,
    {
        AuthorizeResponse {
            id_tag_info: IdTagInfo { status: AuthorizationStatus::Accepted, expiry_date: None, parent_id_tag: None },
        }
    }

    /// Accepts every transaction under a random identifier.
    pub fn start_transaction(&self, request: &StartTransactionRequest) -> (r: StartTransactionResponse)
        ensures
            r.id_tag_info.status == AuthorizationStatus::Accepted,
            r.id_tag_info.expiry_date is None,
            r.id_tag_info.parent_id_tag is None,
    {
        StartTransactionResponse {
            transaction_id: random_u64(),
            id_tag_info: IdTagInfo { status: AuthorizationStatus::Accepted, expiry_date: None, parent_id_tag: None },
        }
    }

    /// Acknowledges a stopped transaction, with no id tag information.
    pub fn stop_transaction(&self, request: &StopTransactionRequest) -> (r: StopTransactionResponse)
        ensures
            r.id_tag_info is None,
    {
        StopTransactionResponse { id_tag_info: None }
    }

    /// Acknowledges meter values.
    pub fn meter_values(&self, request: &MeterValuesRequest) -> (r: MeterValuesResponse)
        ensures
            r == MeterValuesResponse,
    {
        MeterValuesResponse
    }
}

} // verus!
