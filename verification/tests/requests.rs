use monadic_mqtt::error::PublishError;
use monadic_mqtt::requests::{
    event_subscription, invocation_reply, reply_subscription, request_publish, Qos,
};
use monadic_mqtt::stream::{ends_stream, stream_end_publish, stream_item_publish, Stream, DEFAULT_BUFFER_SIZE};

#[test]
fn request_publish_carries_reply_topic() {
    let r = request_publish("event/sum", Qos::ExactlyOnce, "{}".to_string(), "event/sum/__res_0");
    assert_eq!(r.topic, "event/sum");
    assert_eq!(r.qos, Qos::ExactlyOnce);
    assert!(!r.retain);
    assert_eq!(r.response_topic, Some("event/sum/__res_0".to_string()));
    let s = reply_subscription("event/sum/__res_0");
    assert_eq!(s.topic, "event/sum/__res_0");
    assert_eq!(s.qos, Qos::AtLeastOnce);
    let e = event_subscription("number", Qos::AtMostOnce);
    assert_eq!(e.topic, "number");
    assert_eq!(e.qos, Qos::AtMostOnce);
}

#[test]
fn invocation_reply_needs_topic() {
    assert!(invocation_reply(None, Ok("7".to_string())).is_none());
    let ok = invocation_reply(Some("r"), Ok("7".to_string())).unwrap();
    assert_eq!(ok.topic, "r");
    assert_eq!(ok.qos, Qos::AtLeastOnce);
    assert!(!ok.retain);
    assert_eq!(ok.payload, "7");
    assert_eq!(ok.response_topic, None);
    let err = invocation_reply(Some("r"), Err("\"boom\"".to_string())).unwrap();
    assert_eq!(err.payload, "\"boom\"");
}

#[test]
fn stream_defaults() {
    let s: Stream<i32> = Stream::new("numbers");
    assert_eq!(s.topic, "numbers");
    assert_eq!(s.buffer_size, 8);
    assert_eq!(DEFAULT_BUFFER_SIZE, 8);
    let t: Stream<i32> = Stream::new_with_size("numbers", 3);
    assert_eq!(t.buffer_size, 3);
}

#[test]
fn stream_messages() {
    let item = stream_item_publish("numbers", "4".to_string());
    assert_eq!(item.topic, "numbers");
    assert_eq!(item.qos, Qos::ExactlyOnce);
    assert_eq!(item.payload, "4");
    let end = stream_end_publish("numbers");
    assert_eq!(end.payload, "");
    assert_eq!(end.qos, Qos::ExactlyOnce);
    assert!(!end.retain);
}

#[test]
fn receiver_stops_only_at_empty_payload() {
    let stop: Result<i32, PublishError> = Err(PublishError::EmptyPayload);
    assert!(ends_stream(&stop));
    let ok: Result<i32, PublishError> = Ok(4);
    assert!(!ends_stream(&ok));
    let other: Result<i32, PublishError> = Err(PublishError::Runtime("x".to_string()));
    assert!(!ends_stream(&other));
}
