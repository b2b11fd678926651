use monadic_mqtt::error::EventParseError;
use monadic_mqtt::listener::{route_publish, Routed};
use monadic_mqtt::registry::TopicRegistry;
use monadic_mqtt::requests::{invocation_reply, request_publish, Qos};
use monadic_mqtt::response::response_topic;

#[test]
fn reply_reaches_waiter_once() {
    let mut awaited: TopicRegistry<&str> = TopicRegistry::new();
    let events: TopicRegistry<&str> = TopicRegistry::new();
    let reply = response_topic("event/sum", 3);
    awaited.add(reply.clone(), "waiter");
    match route_publish(&mut awaited, &events, reply.as_bytes(), b"7") {
        Routed::Delivered(d) => {
            assert_eq!(d.topic, "event/sum/__res_3");
            assert_eq!(d.payload, "7");
            assert_eq!(d.awaited, Some("waiter"));
            assert_eq!(d.event, None);
        }
        _ => panic!("not delivered"),
    }
    match route_publish(&mut awaited, &events, reply.as_bytes(), b"8") {
        Routed::Delivered(d) => {
            assert_eq!(d.awaited, None);
            assert_eq!(d.payload, "8");
        }
        _ => panic!("not delivered"),
    }
}

#[test]
fn event_handler_stays_registered() {
    let mut awaited: TopicRegistry<u8> = TopicRegistry::new();
    let mut events: TopicRegistry<u8> = TopicRegistry::new();
    events.add("event/sum".to_string(), 9);
    for _ in 0..2 {
        match route_publish(&mut awaited, &events, b"event/sum", b"{\"a\":1,\"b\":2}") {
            Routed::Delivered(d) => {
                assert_eq!(d.event, Some(&9));
                assert_eq!(d.awaited, None);
                assert_eq!(d.payload, "{\"a\":1,\"b\":2}");
            }
            _ => panic!("not delivered"),
        }
    }
    assert_eq!(events.get("event/sum"), Some(&9));
}

#[test]
fn unparsable_topic_is_dropped() {
    let mut awaited: TopicRegistry<u8> = TopicRegistry::new();
    let events: TopicRegistry<u8> = TopicRegistry::new();
    awaited.add("a".to_string(), 1);
    let bad = [0xffu8, 0x61];
    match route_publish(&mut awaited, &events, &bad, b"x") {
        Routed::UnparsableTopic(EventParseError::Parsing(e)) => {
            assert_eq!(e.valid_up_to(), 0);
        }
        _ => panic!("topic accepted"),
    }
    assert_eq!(awaited.get("a"), Some(&1));
}

#[test]
fn unparsable_payload_keeps_waiter() {
    let mut awaited: TopicRegistry<u8> = TopicRegistry::new();
    let events: TopicRegistry<u8> = TopicRegistry::new();
    awaited.add("a".to_string(), 1);
    let bad = [0x61u8, 0xc3];
    match route_publish(&mut awaited, &events, b"a", &bad) {
        Routed::UnparsablePayload(EventParseError::Parsing(e)) => {
            assert_eq!(e.valid_up_to(), 1);
        }
        _ => panic!("payload accepted"),
    }
    assert_eq!(awaited.get("a"), Some(&1));
}

#[test]
fn handler_answer_reaches_requester() {
    let mut awaited: TopicRegistry<&str> = TopicRegistry::new();
    let events: TopicRegistry<&str> = TopicRegistry::new();
    let reply_topic = response_topic("event/factorial", 11);
    awaited.add(reply_topic.clone(), "requester");
    let request = request_publish("event/factorial", Qos::AtMostOnce, "5".to_string(), &reply_topic);
    let reply = invocation_reply(request.response_topic.as_deref(), Ok("120".to_string())).unwrap();
    assert_eq!(reply.topic, "event/factorial/__res_11");
    match route_publish(&mut awaited, &events, reply.topic.as_bytes(), reply.payload.as_bytes()) {
        Routed::Delivered(d) => {
            assert_eq!(d.awaited, Some("requester"));
            assert_eq!(d.payload, "120");
        }
        _ => panic!("not delivered"),
    }
    assert_eq!(awaited.get(&reply_topic), None);
}
