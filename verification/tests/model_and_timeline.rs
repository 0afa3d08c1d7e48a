use chargemesh::core_types::CoreError;
use chargemesh::ir::capability::{Capabilities, CapabilityType};
use chargemesh::ir::connector::{Connector, ConnectorState, ConnectorType};
use chargemesh::ir::ids::{ConnectorId, EvseId, Power, StationId};
use chargemesh::ir::session::{ChargingSession, SessionState};
use chargemesh::ocpp::frame::{Call, CallError, CallResult, OcppMessage, ParsedMessage};
use chargemesh::ocpp::json::JsonValue;
use chargemesh::ocpp::session::Ocpp16State;
use chargemesh::ocpp::types::ChargePointStatus;
use chargemesh::ocpp::MessageDirection;
use chargemesh::text::{pad_number, str_contains, str_ends_with, str_starts_with, u64_to_decimal};
use chargemesh::ocpp::messages::{StartTransactionRequest, StatusNotificationRequest, StopTransactionRequest};
use chargemesh::ocpp::types::ChargePointErrorCode;
use chargemesh::timeline::{
    analyze, classify, event_of, request_kind, DiagnosticEventKind, EntryStatus, RequestKind, TimelineEvent,
};

fn session() -> ChargingSession {
    ChargingSession::new(
        StationId("CP-1".to_string()),
        EvseId("1".to_string()),
        ConnectorId("1".to_string()),
    )
}

fn connector() -> Connector {
    Connector::new(ConnectorId("C1".to_string()), EvseId("1".to_string()), ConnectorType::Type2, Power(22000))
}

#[test]
fn connector_takes_one_session_at_a_time() {
    let mut c = connector();
    assert!(c.is_available());
    c.start_session(session()).unwrap();
    assert!(c.is_charging());
    assert!(c.active_session().is_some());
    match c.start_session(session()) {
        Err(CoreError::InvalidState(m)) => assert_eq!(m, "Connector C1 is not available"),
        Ok(()) => panic!("a busy connector took a second session"),
    }
    let s = c.stop_session().unwrap();
    assert!(s.is_some());
    assert_eq!(c.state, ConnectorState::Available);
    match c.stop_session() {
        Err(CoreError::InvalidState(m)) => assert_eq!(m, "Connector C1 has no active session"),
        Ok(_) => panic!("an idle connector stopped a session"),
    }
}

#[test]
fn charging_session_starts_initializing() {
    let mut s = session();
    assert_eq!(s.state, SessionState::Initializing);
    assert_eq!(s.id.0.len(), 36);
    s.transition_to(SessionState::Charging).unwrap();
    assert_eq!(s.state, SessionState::Charging);
    s.transition_to(SessionState::Completed).unwrap();
    match s.transition_to(SessionState::Faulted) {
        Err(CoreError::InvalidState(m)) => assert_eq!(m, "Cannot transition from Completed to Faulted"),
        Ok(()) => panic!("a finished session moved on"),
    }
    assert_eq!(s.state, SessionState::Completed);
}

#[test]
fn capabilities_add_remove_has() {
    let mut caps = Capabilities::new();
    assert!(!caps.has(CapabilityType::SmartCharging));
    caps.add(CapabilityType::SmartCharging);
    caps.add(CapabilityType::V2G);
    caps.add(CapabilityType::SmartCharging);
    assert!(caps.has(CapabilityType::SmartCharging));
    assert!(caps.has(CapabilityType::V2G));
    caps.remove(CapabilityType::SmartCharging);
    assert!(!caps.has(CapabilityType::SmartCharging));
    assert!(caps.has(CapabilityType::V2G));
    caps.add_parameter(CapabilityType::V2G, JsonValue::Bool(true));
    caps.add_parameter(CapabilityType::V2G, JsonValue::Bool(false));
    assert!(matches!(caps.get_parameter(CapabilityType::V2G), Some(JsonValue::Bool(false))));
    assert!(caps.get_parameter(CapabilityType::SmartCharging).is_none());
}

#[test]
fn text_helpers() {
    assert!(str_contains("abcCallResultxyz", "CallResult"));
    assert!(!str_contains("abc", "abcd"));
    assert!(str_starts_with("RFID-1", "RFID-"));
    assert!(str_ends_with("Device:CP-1", "CP-1"));
    assert!(!str_ends_with("CP-1", "Device:CP-1"));
    assert_eq!(u64_to_decimal(0), "0");
    assert_eq!(u64_to_decimal(18446744073709551615), "18446744073709551615");
    assert_eq!(pad_number(42, 5), "   42");
    assert_eq!(pad_number(123456, 3), "123456");
}

fn parsed(message: OcppMessage, direction: MessageDirection, t: i64) -> ParsedMessage {
    ParsedMessage { raw: String::new(), timestamp: t, direction, message }
}

fn call(action: &str) -> OcppMessage {
    OcppMessage::Call(Call::new("1".to_string(), action.to_string(), JsonValue::Null))
}

#[test]
fn request_kinds_by_action() {
    assert_eq!(request_kind("BootNotification"), RequestKind::Boot);
    assert_eq!(request_kind("StatusNotification"), RequestKind::StatusNotification);
    assert_eq!(request_kind("StartTransaction"), RequestKind::StartTransaction);
    assert_eq!(request_kind("StopTransaction"), RequestKind::StopTransaction);
    assert_eq!(request_kind("Heartbeat"), RequestKind::Other);
}

#[test]
fn timeline_replays_events_on_a_session() {
    let entries = vec![
        (parsed(call("BootNotification"), MessageDirection::Outgoing, 1), TimelineEvent::Boot),
        (
            parsed(call("StatusNotification"), MessageDirection::Outgoing, 2),
            TimelineEvent::StatusReported { connector_id: 1, status: ChargePointStatus::Charging },
        ),
        (
            parsed(call("StartTransaction"), MessageDirection::Outgoing, 3),
            TimelineEvent::TransactionStarted { connector_id: 1, id_tag: "RFID-1".to_string(), meter_start: 10 },
        ),
        (
            parsed(
                OcppMessage::CallError(CallError::new(
                    "9".to_string(),
                    "InternalError".to_string(),
                    "meter offline".to_string(),
                    JsonValue::Null,
                )),
                MessageDirection::Incoming,
                4,
            ),
            TimelineEvent::Ignored,
        ),
        (
            parsed(OcppMessage::CallResult(CallResult::new("1".to_string(), JsonValue::Null)), MessageDirection::Incoming, 5),
            TimelineEvent::Ignored,
        ),
    ];
    let a = analyze(&entries);
    assert_eq!(a.timeline.len(), 5);
    assert_eq!(a.timeline[0].message, "Call(BootNotification)");
    assert_eq!(a.timeline[3].message, "CallError(InternalError)");
    assert_eq!(a.timeline[4].direction, MessageDirection::Incoming);
    assert_eq!(a.errors.len(), 1);
    assert_eq!(a.errors[0].timestamp, 4);
    assert_eq!(a.errors[0].error_code, "InternalError");
    assert_eq!(a.errors[0].error_description, "meter offline");
    assert_eq!(a.session.state, Ocpp16State::Booted);
    assert_eq!(a.session.charge_point_id, Some("CP-001".to_string()));
    assert_eq!(a.session.connector_status.get(&1), Some(&ChargePointStatus::Charging));
    assert!(a.session.active_transactions.contains_key(&12345));
    let t = &a.session.active_transactions[&12345];
    assert_eq!(t.transaction_id, 12345);
    assert_eq!(t.connector_id, 1);
    assert_eq!(t.id_tag, "RFID-1");
    assert_eq!(t.meter_start, 10);
    assert!(t.meter_readings.is_empty());
}

#[test]
fn timeline_keeps_the_last_started_transaction() {
    let entries = vec![
        (
            parsed(call("StartTransaction"), MessageDirection::Outgoing, 1),
            TimelineEvent::TransactionStarted { connector_id: 1, id_tag: "A".to_string(), meter_start: 5 },
        ),
        (
            parsed(call("StartTransaction"), MessageDirection::Outgoing, 2),
            TimelineEvent::TransactionStarted { connector_id: 2, id_tag: "B".to_string(), meter_start: 7 },
        ),
    ];
    let a = analyze(&entries);
    assert_eq!(a.session.active_transactions.len(), 1);
    let t = &a.session.active_transactions[&12345];
    assert_eq!((t.connector_id, t.id_tag.as_str(), t.meter_start), (2, "B", 7));
}

fn status_request(connector_id: u64, status: ChargePointStatus) -> StatusNotificationRequest {
    StatusNotificationRequest {
        connector_id,
        status,
        error_code: ChargePointErrorCode::NoError,
        info: None,
        timestamp: None,
        vendor_id: None,
        vendor_error_code: None,
    }
}

fn start_request(connector_id: u64, id_tag: &str, meter_start: u64) -> StartTransactionRequest {
    StartTransactionRequest {
        connector_id,
        id_tag: id_tag.to_string(),
        meter_start,
        timestamp: "2024-01-01T00:00:00Z".to_string(),
        reservation_id: None,
    }
}

fn stop_request(transaction_id: u64) -> StopTransactionRequest {
    StopTransactionRequest {
        transaction_id,
        meter_stop: 100,
        timestamp: "2024-01-01T01:00:00Z".to_string(),
        id_tag: None,
        reason: None,
        transaction_data: None,
    }
}

#[test]
fn events_follow_the_action_and_the_read_request() {
    assert_eq!(event_of(&call("BootNotification"), None, None, None), TimelineEvent::Boot);
    assert_eq!(
        event_of(&call("StatusNotification"), Some(status_request(3, ChargePointStatus::Faulted)), None, None),
        TimelineEvent::StatusReported { connector_id: 3, status: ChargePointStatus::Faulted },
    );
    assert_eq!(event_of(&call("StatusNotification"), None, None, None), TimelineEvent::Ignored);
    assert_eq!(
        event_of(&call("StartTransaction"), None, Some(start_request(2, "RFID-9", 42)), None),
        TimelineEvent::TransactionStarted { connector_id: 2, id_tag: "RFID-9".to_string(), meter_start: 42 },
    );
    assert_eq!(event_of(&call("StartTransaction"), None, None, None), TimelineEvent::Ignored);
    assert_eq!(
        event_of(&call("StopTransaction"), None, None, Some(stop_request(12345))),
        TimelineEvent::TransactionStopped { transaction_id: 12345 },
    );
    // Only the request that the action names is looked at.
    assert_eq!(event_of(&call("StopTransaction"), None, Some(start_request(1, "X", 0)), None), TimelineEvent::Ignored);
    assert_eq!(
        event_of(&call("Heartbeat"), Some(status_request(1, ChargePointStatus::Available)), None, None),
        TimelineEvent::Ignored,
    );
    let result = OcppMessage::CallResult(CallResult::new("1".to_string(), JsonValue::Null));
    assert_eq!(event_of(&result, None, None, Some(stop_request(1))), TimelineEvent::Ignored);
}

#[test]
fn timeline_stop_closes_the_transaction() {
    let entries = vec![
        (
            parsed(call("StartTransaction"), MessageDirection::Outgoing, 1),
            TimelineEvent::TransactionStarted { connector_id: 2, id_tag: "T".to_string(), meter_start: 0 },
        ),
        (
            parsed(call("StopTransaction"), MessageDirection::Outgoing, 2),
            TimelineEvent::TransactionStopped { transaction_id: 12345 },
        ),
    ];
    let a = analyze(&entries);
    assert!(a.session.active_transactions.is_empty());
    assert_eq!(a.session.state, Ocpp16State::Disconnected);
    assert!(a.errors.is_empty());
}

#[test]
fn classify_messages() {
    assert_eq!(classify(&call("Heartbeat")), (DiagnosticEventKind::Heartbeat, EntryStatus::Success));
    assert_eq!(classify(&call("DataTransfer")), (DiagnosticEventKind::Info, EntryStatus::Success));
    let err = OcppMessage::CallError(CallError::new("1".to_string(), "E".to_string(), "d".to_string(), JsonValue::Null));
    assert_eq!(classify(&err), (DiagnosticEventKind::Error, EntryStatus::Failure));
}
