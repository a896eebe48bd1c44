use ledger_envelope::error::ErrorKind;
use ledger_envelope::ledger::LedgerInfo;
use ledger_envelope::response::Response;

fn sample_snapshot() -> LedgerInfo {
    LedgerInfo::new(4, 1000, 999999, 7)
}

fn payload_x1() -> serde_json::Value {
    let mut fields = serde_json::Map::new();
    fields.insert("x".to_string(), serde_json::Value::from(1u64));
    serde_json::Value::Object(fields)
}

fn assert_metadata_headers(headers: &[(String, String)]) {
    assert_eq!(headers.len(), 4);
    assert_eq!(headers[0], ("X-Chain-Id".to_string(), "4".to_string()));
    assert_eq!(headers[1], ("X-Ledger-Version".to_string(), "1000".to_string()));
    assert_eq!(
        headers[2],
        ("X-Ledger-TimestampUsec".to_string(), "999999".to_string())
    );
    assert_eq!(headers[3], ("X-Epoch".to_string(), "7".to_string()));
}

#[test]
fn json_envelope_example() {
    let resp = Response::new(sample_snapshot(), &payload_x1()).unwrap();
    assert!(!resp.is_bcs_response);
    let reply = resp.into_transport_reply();
    assert_eq!(reply.content_type, "application/json");
    assert_metadata_headers(&reply.headers);
    assert_eq!(reply.body, b"{\"x\":1}".to_vec());
}

#[test]
fn json_body_round_trips() {
    let payload = payload_x1();
    let resp = Response::new(sample_snapshot(), &payload).unwrap();
    let reply = resp.into_transport_reply();
    let decoded: serde_json::Value = serde_json::from_slice(&reply.body).unwrap();
    assert_eq!(decoded, payload);
}

#[test]
fn bcs_body_round_trips() {
    let payload = serde_json::Value::String("hello".to_string());
    let resp = Response::new_bcs(sample_snapshot(), &payload).unwrap();
    assert!(resp.is_bcs_response);
    let reply = resp.into_transport_reply();
    assert_eq!(reply.content_type, "application/x-bcs");
    let decoded: String = bcs::from_bytes(&reply.body).unwrap();
    assert_eq!(decoded, "hello");
}

#[test]
fn bcs_encoding_is_deterministic() {
    let payload = payload_x1();
    let first = Response::new_bcs(sample_snapshot(), &payload).unwrap();
    let second = Response::new_bcs(sample_snapshot(), &payload).unwrap();
    assert_eq!(first.body, second.body);
}

#[test]
fn headers_do_not_depend_on_format() {
    let payload = serde_json::Value::String("hello".to_string());
    let json_reply = Response::new(sample_snapshot(), &payload)
        .unwrap()
        .into_transport_reply();
    let bcs_reply = Response::new_bcs(sample_snapshot(), &payload)
        .unwrap()
        .into_transport_reply();
    assert_metadata_headers(&json_reply.headers);
    assert_metadata_headers(&bcs_reply.headers);
    assert_eq!(json_reply.headers, bcs_reply.headers);
}

#[test]
fn bcs_failure_is_flattened() {
    let payload = serde_json::Value::from(1.5f64);
    let err = Response::new_bcs(sample_snapshot(), &payload).unwrap_err();
    assert_eq!(err.kind, ErrorKind::SerializationFailure);
    assert_eq!(err.status_code, 500);
    assert_eq!(err.message, "data serialization error");
}

#[test]
fn extreme_snapshot_values_render_exactly() {
    let snapshot = LedgerInfo::new(255, u64::MAX, 0, 1);
    let reply = Response::new(snapshot, &payload_x1())
        .unwrap()
        .into_transport_reply();
    assert_eq!(reply.headers[0].1, "255");
    assert_eq!(reply.headers[1].1, "18446744073709551615");
    assert_eq!(reply.headers[2].1, "0");
    assert_eq!(reply.headers[3].1, "1");
}
