//! OCPP 1.6 request and response messages.
use vstd::prelude::*;
use crate::ocpp::types::{
    ChargePointErrorCode, ChargePointStatus, ChargingProfileStatus,
    ConfigurationKey, ConfigurationStatus, IdTagInfo, MeterValue, RegistrationStatus,
    RemoteStartStopStatus, ResetStatus, ResetType, StopReason, TransactionData,
};

verus! {

/// BootNotification request.
#[derive(Debug, Clone, PartialEq, Eq)]
pub struct BootNotificationRequest {
    /// Vendor.
    pub charge_point_vendor: String,
    /// Model.
    pub charge_point_model: String,
    /// Serial number.
    pub charge_point_serial_number: Option<String>,
    /// Firmware version.
    pub firmware_version: Option<String>,
    /// SIM card ICCID.
    pub iccid: Option<String>,
    /// SIM card IMSI.
    pub imsi: Option<String>,
    /// Meter type.
    pub meter_type: Option<String>,
    /// Meter serial number.
    pub meter_serial_number: Option<String>,
}

/// BootNotification response.
#[derive(Debug, Clone, PartialEq, Eq)]
pub struct BootNotificationResponse {
    /// Registration status.
    pub status: RegistrationStatus,
    /// Central system time.
    pub current_time: String,
    /// Heartbeat interval in seconds.
    pub interval: u64,
}

/// Heartbeat request.
#[derive(Debug, Clone, PartialEq, Eq)]
pub struct HeartbeatRequest;

/// Heartbeat response.
#[derive(Debug, Clone, PartialEq, Eq)]
pub struct HeartbeatResponse {
    /// Central system time.
    pub current_time: String,
}

/// StatusNotification request.
#[derive(Debug, Clone, PartialEq, Eq)]
pub struct StatusNotificationRequest {
    /// Connector.
    pub connector_id: u64,
    /// New status.
    pub status: ChargePointStatus,
    /// Error code.
    pub error_code: ChargePointErrorCode,
    /// Free text.
    pub info: Option<String>,
    /// Time of the change.
    pub timestamp: Option<String>,
    /// Vendor.
    pub vendor_id: Option<String>,
    /// Vendor error code.
    pub vendor_error_code: Option<String>,
}

/// StatusNotification response.
#[derive(Debug, Clone, PartialEq, Eq)]
pub struct StatusNotificationResponse;

/// Authorize request.
#[derive(Debug, Clone, PartialEq, Eq)]
pub struct AuthorizeRequest {
    /// The id tag.
    pub id_tag: String,
}

/// Authorize response.
#[derive(Debug, Clone, PartialEq, Eq)]
pub struct AuthorizeResponse {
    /// Status of the id tag.
    pub id_tag_info: IdTagInfo,
}

/// StartTransaction request.
#[derive(Debug, Clone, PartialEq, Eq)]
pub struct StartTransactionRequest {
    /// Connector.
    pub connector_id: u64,
    /// Id tag.
    pub id_tag: String,
    /// Meter value at start (Wh).
    pub meter_start: u64,
    /// Start time.
    pub timestamp: String,
    /// Reservation used.
    pub reservation_id: Option<u64>,
}

/// StartTransaction response.
#[derive(Debug, Clone, PartialEq, Eq)]
pub struct StartTransactionResponse {
    /// Transaction assigned.
    pub transaction_id: u64,
    /// Status of the id tag.
    pub id_tag_info: IdTagInfo,
}

/// StopTransaction request.
#[derive(Debug, Clone, PartialEq, Eq)]
pub struct StopTransactionRequest {
    /// Transaction.
    pub transaction_id: u64,
    /// Meter value at stop (Wh).
    pub meter_stop: u64,
    /// Stop time.
    pub timestamp: String,
    /// Id tag.
    pub id_tag: Option<String>,
    /// Reason.
    pub reason: Option<StopReason>,
    /// Meter data.
    pub transaction_data: Option<Vec<TransactionData>>,
}

/// StopTransaction response.
#[derive(Debug, Clone, PartialEq, Eq)]
pub struct StopTransactionResponse {
    /// Status of the id tag.
    pub id_tag_info: Option<IdTagInfo>,
}

/// MeterValues request.
#[derive(Debug, Clone, PartialEq, Eq)]
pub struct MeterValuesRequest {
    /// Connector.
    pub connector_id: u64,
    /// Transaction.
    pub transaction_id: Option<u64>,
    /// Readings.
    pub meter_value: Vec<MeterValue>,
}

/// MeterValues response.
#[derive(Debug, Clone, PartialEq, Eq)]
pub struct MeterValuesResponse;

/// RemoteStartTransaction response.
#[derive(Debug, Clone, PartialEq, Eq)]
pub struct RemoteStartTransactionResponse {
    /// Answer.
    pub status: RemoteStartStopStatus,
}

/// RemoteStopTransaction request.
#[derive(Debug, Clone, PartialEq, Eq)]
pub struct RemoteStopTransactionRequest {
    /// Transaction to stop.
    pub transaction_id: u64,
}

/// RemoteStopTransaction response.
#[derive(Debug, Clone, PartialEq, Eq)]
pub struct RemoteStopTransactionResponse {
    /// Answer.
    pub status: RemoteStartStopStatus,
}

/// SetChargingProfile response.
#[derive(Debug, Clone, PartialEq, Eq)]
pub struct SetChargingProfileResponse {
    /// Answer.
    pub status: ChargingProfileStatus,
}

/// Reset request.
#[derive(Debug, Clone, PartialEq, Eq)]
pub struct ResetRequest {
    /// Kind of reset.
    pub reset_type: ResetType,
}

/// Reset response.
#[derive(Debug, Clone, PartialEq, Eq)]
pub struct ResetResponse {
    /// Answer.
    pub status: ResetStatus,
}

/// ChangeConfiguration request.
#[derive(Debug, Clone, PartialEq, Eq)]
pub struct ChangeConfigurationRequest {
    /// Key.
    pub key: String,
    /// New value.
    pub value: String,
}

/// ChangeConfiguration response.
#[derive(Debug, Clone, PartialEq, Eq)]
pub struct ChangeConfigurationResponse {
    /// Answer.
    pub status: ConfigurationStatus,
}

/// GetConfiguration request.
#[derive(Debug, Clone, PartialEq, Eq)]
pub struct GetConfigurationRequest {
    /// Keys asked for.
    pub key: Option<Vec<String>>,
}

/// GetConfiguration response.
#[derive(Debug, Clone, PartialEq, Eq)]
pub struct GetConfigurationResponse {
    /// Known keys.
    pub configuration_key: Vec<ConfigurationKey>,
    /// Unknown keys.
    pub unknown_key: Vec<String>,
}

} // verus!
