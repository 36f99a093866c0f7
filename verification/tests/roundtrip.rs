use ahagon::form::form_first_value;

// A payload with the documented fields of the CI notifier's callback.
const PAYLOAD: &str =
    "{\"id\":1,\"number\":\"3\",\"status\":\"passed\",\"branch\":\"main\",\"commit\":\"abc123\"}";

fn percent_encode(data: &[u8]) -> String {
    let mut out = String::new();
    for b in data {
        let c = *b as char;
        if c.is_ascii_alphanumeric() {
            out.push(c);
        } else {
            out.push_str(&format!("%{:02X}", b));
        }
    }
    out
}

#[test]
fn payload_round_trips_through_decode_and_reencode() {
    let body = format!("payload={}", percent_encode(PAYLOAD.as_bytes()));
    let decoded = form_first_value(body.as_bytes(), b"payload").unwrap();
    assert_eq!(decoded, PAYLOAD.as_bytes().to_vec());

    let document: serde_json::Value = serde_json::from_slice(&decoded).unwrap();
    let reencoded = serde_json::to_string(&document).unwrap();
    let reparsed: serde_json::Value = serde_json::from_str(&reencoded).unwrap();
    assert_eq!(document, reparsed);

    // key order is not significant in the decoded document
    let shuffled: serde_json::Value = serde_json::from_str(
        "{\"commit\":\"abc123\",\"branch\":\"main\",\"status\":\"passed\",\"number\":\"3\",\"id\":1}",
    )
    .unwrap();
    assert_eq!(document, shuffled);
}

#[test]
fn source_control_payload_round_trips() {
    let payload = "{\"ref\":\"refs/heads/main\",\"before\":\"0000\",\"after\":\"ffff\"}";
    let document: serde_json::Value = serde_json::from_str(payload).unwrap();
    let reencoded = serde_json::to_string(&document).unwrap();
    let reparsed: serde_json::Value = serde_json::from_str(&reencoded).unwrap();
    assert_eq!(document, reparsed);
    assert_eq!(document["ref"], serde_json::Value::String("refs/heads/main".to_string()));
}
