use chargemesh::ocpp::client::{next_message_id, response_payload};
use chargemesh::ocpp::errors::OcppError;
use chargemesh::ocpp::frame::{parse_ocpp_message, parse_read_message, Call, CallError, CallResult, OcppMessage};
use chargemesh::ocpp::json::{JsonNumber, JsonValue};
use chargemesh::ocpp::messages::BootNotificationRequest;
use chargemesh::ocpp::server::{reply_to_call, DefaultHandlers};
use chargemesh::ocpp::types::RegistrationStatus;
use chargemesh::ocpp::MessageDirection;

fn member<'a>(v: &'a JsonValue, key: &str) -> &'a JsonValue {
    v.get(key).expect("member present")
}

#[test]
fn test_parse_boot_notification() {
    let json = r#"[2, "1", "BootNotification", {"chargePointVendor": "ABB", "chargePointModel": "Terra 54"}]"#;
    let parsed = parse_ocpp_message(json).unwrap();

    match parsed.message {
        OcppMessage::Call(call) => {
            assert_eq!(call.message_id, "1");
            assert_eq!(call.action, "BootNotification");
            assert_eq!(member(&call.payload, "chargePointVendor").as_str(), Some("ABB"));
            assert_eq!(member(&call.payload, "chargePointModel").as_str(), Some("Terra 54"));
        }
        _ => panic!("Expected Call message"),
    }
}

#[test]
fn test_parse_boot_notification_response() {
    let json = r#"[3, "1", {"status": "Accepted", "currentTime": "2024-01-01T00:00:00Z", "interval": 60}]"#;
    let parsed = parse_ocpp_message(json).unwrap();

    match parsed.message {
        OcppMessage::CallResult(result) => {
            assert_eq!(result.message_id, "1");
            assert_eq!(member(&result.payload, "status").as_str(), Some("Accepted"));
            assert_eq!(member(&result.payload, "currentTime").as_str(), Some("2024-01-01T00:00:00Z"));
            assert_eq!(member(&result.payload, "interval").as_u64(), Some(60));
        }
        _ => panic!("Expected CallResult message"),
    }
}

#[test]
fn test_parse_error() {
    let json = r#"[4, "1", "InternalError", "Something went wrong", {}]"#;
    let parsed = parse_ocpp_message(json).unwrap();

    match parsed.message {
        OcppMessage::CallError(error) => {
            assert_eq!(error.message_id, "1");
            assert_eq!(error.error_code, "InternalError");
            assert_eq!(error.error_description, "Something went wrong");
        }
        _ => panic!("Expected CallError message"),
    }
}

fn parse_err(raw: &str) -> String {
    match parse_ocpp_message(raw) {
        Ok(_) => panic!("expected an error for {}", raw),
        Err(e) => e,
    }
}

#[test]
fn parse_refusals_name_the_problem() {
    assert_eq!(parse_err("{}"), "Expected array");
    assert_eq!(parse_err("[]"), "Empty message");
    assert_eq!(parse_err(r#"["2", "1"]"#), "Invalid message type");
    assert_eq!(parse_err(r#"[2, "1", "Heartbeat"]"#), "Invalid Call message");
    assert_eq!(parse_err(r#"[2, 1, "Heartbeat", {}]"#), "Invalid message ID");
    assert_eq!(parse_err(r#"[2, "1", 7, {}]"#), "Invalid action");
    assert_eq!(parse_err(r#"[3, "1"]"#), "Invalid CallResult message");
    assert_eq!(parse_err(r#"[4, "1", "E", "d"]"#), "Invalid CallError message");
    assert_eq!(parse_err(r#"[4, "1", 5, "d", {}]"#), "Invalid error code");
    assert_eq!(parse_err(r#"[4, "1", "E", 5, {}]"#), "Invalid error description");
    assert_eq!(parse_err(r#"[7, "1", {}]"#), "Unknown message type: 7");
}

#[test]
fn parse_reports_reader_errors() {
    let r = parse_read_message("not json", Err("bad input".to_string()));
    assert_eq!(r.err(), Some("Invalid JSON: bad input".to_string()));
    let e = parse_ocpp_message("[2, \"1\"").err().unwrap();
    assert!(e.starts_with("Invalid JSON: "));
    assert!(e.len() > "Invalid JSON: ".len());
}

#[test]
fn parse_keeps_raw_text_and_direction() {
    let raw = r#"[3, "9", {"note": "CallResult"}]"#;
    let parsed = parse_ocpp_message(raw).unwrap();
    assert_eq!(parsed.raw, raw);
    assert_eq!(parsed.direction, MessageDirection::Incoming);
    let raw2 = r#"[2, "9", "Heartbeat", {}]"#;
    let parsed2 = parse_ocpp_message(raw2).unwrap();
    assert_eq!(parsed2.direction, MessageDirection::Outgoing);
}

#[test]
fn describe_names_each_frame() {
    let call = OcppMessage::Call(Call::new("1".to_string(), "Heartbeat".to_string(), JsonValue::Null));
    let result = OcppMessage::CallResult(CallResult::new("42".to_string(), JsonValue::Null));
    let error = OcppMessage::CallError(CallError::new(
        "1".to_string(),
        "NotSupported".to_string(),
        "x".to_string(),
        JsonValue::Null,
    ));
    assert_eq!(call.describe(), "Call(Heartbeat)");
    assert_eq!(result.describe(), "CallResult(42)");
    assert_eq!(error.describe(), "CallError(NotSupported)");
}

#[test]
fn message_ids_count_up_in_decimal() {
    let mut counter: u64 = 0;
    assert_eq!(next_message_id(&mut counter), "1");
    assert_eq!(next_message_id(&mut counter), "2");
    let mut big: u64 = 1233;
    assert_eq!(next_message_id(&mut big), "1234");
    assert_eq!(big, 1234);
}

#[test]
fn response_payload_checks_the_answer() {
    let ok = OcppMessage::CallResult(CallResult::new("5".to_string(), JsonValue::Bool(true)));
    match response_payload("5", ok) {
        Ok(JsonValue::Bool(true)) => {}
        other => panic!("unexpected {:?}", other),
    }
    let wrong = OcppMessage::CallResult(CallResult::new("6".to_string(), JsonValue::Null));
    match response_payload("5", wrong) {
        Err(OcppError::Protocol(m)) => assert_eq!(m, "Message ID mismatch"),
        other => panic!("unexpected {:?}", other),
    }
    let err = OcppMessage::CallError(CallError::new(
        "5".to_string(),
        "InternalError".to_string(),
        "boom".to_string(),
        JsonValue::Null,
    ));
    match response_payload("5", err) {
        Err(OcppError::Protocol(m)) => assert_eq!(m, "OCPP Error: InternalError - boom"),
        other => panic!("unexpected {:?}", other),
    }
    let call = OcppMessage::Call(Call::new("5".to_string(), "Heartbeat".to_string(), JsonValue::Null));
    match response_payload("5", call) {
        Err(OcppError::Protocol(m)) => assert_eq!(m, "Unexpected message type"),
        other => panic!("unexpected {:?}", other),
    }
}

#[test]
fn server_replies() {
    let call = Call::new("3".to_string(), "DataTransfer".to_string(), JsonValue::Null);
    match reply_to_call(call, None) {
        OcppMessage::CallError(e) => {
            assert_eq!(e.message_id, "3");
            assert_eq!(e.error_code, "NotSupported");
            assert_eq!(e.error_description, "Action DataTransfer not supported");
        }
        _ => panic!("expected an error reply"),
    }
    let call = Call::new("4".to_string(), "Heartbeat".to_string(), JsonValue::Null);
    match reply_to_call(call, Some(Ok(JsonValue::Bool(false)))) {
        OcppMessage::CallResult(r) => {
            assert_eq!(r.message_id, "4");
            assert!(matches!(r.payload, JsonValue::Bool(false)));
        }
        _ => panic!("expected a result"),
    }
    let call = Call::new("5".to_string(), "Heartbeat".to_string(), JsonValue::Null);
    match reply_to_call(call, Some(Err(OcppError::Internal("disk full".to_string())))) {
        OcppMessage::CallError(e) => {
            assert_eq!(e.error_code, "InternalError");
            assert_eq!(e.error_description, "Internal error: disk full");
        }
        _ => panic!("expected an error reply"),
    }
}

#[test]
fn payload_values_keep_their_kinds() {
    let raw = r#"[2, "7", "DataTransfer", {"neg": -5, "pos": 18446744073709551615, "real": 1.5, "list": [true, null, "x"]}]"#;
    let parsed = parse_ocpp_message(raw).unwrap();
    match parsed.message {
        OcppMessage::Call(call) => {
            assert!(matches!(member(&call.payload, "neg"), JsonValue::Number(JsonNumber::NegInt(-5))));
            assert_eq!(member(&call.payload, "pos").as_u64(), Some(u64::MAX));
            match member(&call.payload, "real") {
                JsonValue::Number(JsonNumber::Float(bits)) => assert_eq!(f64::from_bits(*bits), 1.5),
                other => panic!("unexpected {:?}", other),
            }
            match member(&call.payload, "list") {
                JsonValue::Array(items) => {
                    assert_eq!(items.len(), 3);
                    assert!(matches!(items[0], JsonValue::Bool(true)));
                    assert!(matches!(items[1], JsonValue::Null));
                    assert_eq!(items[2].as_str(), Some("x"));
                }
                other => panic!("unexpected {:?}", other),
            }
        }
        _ => panic!("Expected Call message"),
    }
}

fn is_rfc3339_utc(s: &str) -> bool {
    let b = s.as_bytes();
    let t = match s.find('T') {
        Some(t) => t,
        None => return false,
    };
    let digits = |from: usize, to: usize| b[from..to].iter().all(|c| c.is_ascii_digit());
    t >= 10
        && b[t - 6] == b'-'
        && b[t - 3] == b'-'
        && digits(t - 5, t - 3)
        && digits(t - 2, t)
        && b[t + 3] == b':'
        && b[t + 6] == b':'
        && digits(t + 1, t + 3)
        && digits(t + 4, t + 6)
        && digits(t + 7, t + 9)
        && s.ends_with("+00:00")
        && [t + 15, t + 19, t + 22, t + 25].contains(&b.len())
}

#[test]
fn default_handlers_answer_with_rfc3339_utc_time() {
    let h = DefaultHandlers;
    let hb = h.heartbeat();
    assert!(is_rfc3339_utc(&hb.current_time), "{}", hb.current_time);
    let req = BootNotificationRequest {
        charge_point_vendor: "ABB".to_string(),
        charge_point_model: "Terra 54".to_string(),
        charge_point_serial_number: None,
        firmware_version: None,
        iccid: None,
        imsi: None,
        meter_type: None,
        meter_serial_number: None,
    };
    let boot = h.boot_notification(&req);
    assert_eq!(boot.status, RegistrationStatus::Accepted);
    assert_eq!(boot.interval, 60);
    assert!(is_rfc3339_utc(&boot.current_time), "{}", boot.current_time);
    assert!(!boot.current_time.is_empty());
}
