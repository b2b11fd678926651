use monadic_mqtt::error::{EventParseError, PublishError, SerializableError};

fn pair(r: SerializableError) -> (String, String) {
    (r.code, r.description)
}

#[test]
fn event_parse_error_reports() {
    let utf8 = std::str::from_utf8(&[0xffu8]).unwrap_err();
    assert_eq!(
        pair(EventParseError::Parsing(utf8).to_serializable()),
        ("UTF8".to_string(), "\"Payload is not valid UTF-8\"".to_string())
    );
    assert_eq!(
        pair(EventParseError::Deserialization("x".to_string()).to_serializable()),
        ("DESERIALIZATION".to_string(), "\"Payload not valid JSON\"".to_string())
    );
    assert_eq!(
        pair(EventParseError::Other.to_serializable()),
        ("UNKNOWN".to_string(), "\"Unknown error\"".to_string())
    );
}

#[test]
fn publish_error_reports() {
    let json = serde_json::from_str::<i32>("nope").unwrap_err();
    assert_eq!(
        pair(PublishError::Serialization(json).to_serializable()),
        (
            "SERIALIZATION".to_string(),
            "\"Client failed serializing response\"".to_string()
        )
    );
    let client = rumqttc::v5::ClientError::Request(rumqttc::v5::Request::PingReq);
    assert_eq!(
        pair(PublishError::ClientError(client).to_serializable()),
        ("CLIENT".to_string(), "\"Client failed receiving event\"".to_string())
    );
    assert_eq!(
        pair(PublishError::EmptyPayload.to_serializable()),
        (
            "EMPTY_PAYLOAD".to_string(),
            "\"Client responded with an empty payload\"".to_string()
        )
    );
    assert_eq!(
        pair(PublishError::Runtime("Non-positive factorials not supported".to_string()).to_serializable()),
        (
            "RUNTIME".to_string(),
            "\"Non-positive factorials not supported\"".to_string()
        )
    );
}

#[test]
fn runtime_description_is_escaped_json() {
    let r = PublishError::Runtime("say \"hi\"\n".to_string()).to_serializable();
    assert_eq!(r.code, "RUNTIME");
    assert_eq!(r.description, "\"say \\\"hi\\\"\\n\"");
}

#[test]
fn new_encodes_description() {
    let r = SerializableError::new("CODE", "a\\b");
    assert_eq!(r.code, "CODE");
    assert_eq!(r.description, "\"a\\\\b\"");
}

#[test]
fn from_conversions_pick_variant() {
    let json = serde_json::from_str::<i32>("").unwrap_err();
    assert!(matches!(PublishError::from(json), PublishError::Serialization(_)));
    let client = rumqttc::v5::ClientError::TryRequest(rumqttc::v5::Request::Disconnect);
    assert!(matches!(PublishError::from(client), PublishError::ClientError(_)));
}

#[test]
fn control_characters_are_escaped() {
    let r = SerializableError::new("C", "a\tb\u{1}c\u{1f}\r\u{8}\u{c}é");
    assert_eq!(r.description, "\"a\\tb\\u0001c\\u001f\\r\\b\\fé\"");
}
