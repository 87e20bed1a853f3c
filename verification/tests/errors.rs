use zkstate::payload::{parse_payload, BadPayload};
use zkstate::{ZkError, ZkStructError};

#[test]
fn a_zookeeper_error_is_carried_on() {
    assert_eq!(
        ZkStructError::from(ZkError::ConnectionLoss),
        ZkStructError::ZkError(ZkError::ConnectionLoss)
    );
    assert_eq!(
        ZkStructError::from(ZkError::BadVersion),
        ZkStructError::ZkError(ZkError::BadVersion)
    );
}

#[test]
fn a_payload_is_read_as_json() {
    let value = parse_payload(br#" {"a": [1, "b", null]} "#).unwrap();
    assert_eq!(value["a"][0], serde_json::Value::from(1));
    assert_eq!(value["a"][1], serde_json::Value::from("b"));
    assert_eq!(value["a"][2], serde_json::Value::Null);
}

#[test]
fn a_payload_that_is_not_json_is_refused() {
    for text in ["", "{", "[1,]", "1 2", "\u{fe}"] {
        assert_eq!(parse_payload(text.as_bytes()), Err(BadPayload));
    }
    assert_eq!(parse_payload(&[0xff]), Err(BadPayload));
}
