use chargemesh::ocpp::session::{Ocpp16Session, Ocpp16State};
use chargemesh::ocpp::types::ChargePointStatus;

#[test]
fn state_machine_test_session_lifecycle() {
    let mut session = Ocpp16Session::new();
    assert_eq!(session.state, Ocpp16State::Disconnected);

    session.boot("CP-001".to_string());
    assert_eq!(session.state, Ocpp16State::Booted);
    assert_eq!(session.charge_point_id, Some("CP-001".to_string()));

    session.online();
    assert_eq!(session.state, Ocpp16State::Online);
    assert!(session.is_online());
}

#[test]
fn test_transaction_management() {
    let mut session = Ocpp16Session::new();
    session.start_transaction(12345, 1, "RFID-123".to_string(), 1000);

    assert!(session.active_transactions.contains_key(&12345));

    let tx = session.get_transaction(12345).unwrap();
    assert_eq!(tx.connector_id, 1);
    assert_eq!(tx.id_tag, "RFID-123");

    session.stop_transaction(12345);
    assert!(!session.active_transactions.contains_key(&12345));
}

#[test]
fn new_session_defaults() {
    let session = Ocpp16Session::new();
    assert_eq!(session.interval, 60);
    assert!(session.charge_point_id.is_none());
    assert!(session.connector_status.is_empty());
    assert!(session.active_transactions.is_empty());
    assert!(session.last_heartbeat.is_none());
    assert!(!session.is_online());
}

#[test]
fn read_after_write_of_a_transaction() {
    let mut session = Ocpp16Session::new();
    session.start_transaction(7, 2, "TAG".to_string(), 500);
    session.start_transaction(8, 3, "OTHER".to_string(), 0);
    let tx = session.get_transaction(7).unwrap();
    assert_eq!(tx.transaction_id, 7);
    assert_eq!(tx.connector_id, 2);
    assert_eq!(tx.meter_start, 500);
    assert!(tx.meter_readings.is_empty());
    assert!(session.has_transaction(8));
    session.stop_transaction(7);
    assert!(session.get_transaction(7).is_none());
    assert!(session.has_transaction(8));
}

#[test]
fn connector_status_is_the_last_reported() {
    let mut session = Ocpp16Session::new();
    session.update_connector_status(1, ChargePointStatus::Available);
    session.update_connector_status(1, ChargePointStatus::Charging);
    session.update_connector_status(2, ChargePointStatus::Faulted);
    assert_eq!(session.connector_status.get(&1), Some(&ChargePointStatus::Charging));
    assert_eq!(session.connector_status.get(&2), Some(&ChargePointStatus::Faulted));
    assert_eq!(session.connector_status.len(), 2);
}

#[test]
fn heartbeat_records_a_time() {
    let mut session = Ocpp16Session::new();
    session.heartbeat();
    assert!(session.last_heartbeat.is_some());
}
