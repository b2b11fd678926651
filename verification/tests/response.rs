use monadic_mqtt::response::{response_topic, ResponseIds, ResponseSlot};

#[test]
fn reply_topic_has_number_suffix() {
    assert_eq!(response_topic("event/sum", 0), "event/sum/__res_0");
    assert_eq!(response_topic("event/sum", 42), "event/sum/__res_42");
    assert_eq!(response_topic("", 1907), "/__res_1907");
    assert_eq!(
        response_topic("t", usize::MAX),
        format!("t/__res_{}", usize::MAX)
    );
}

#[test]
fn ids_increase_and_topics_differ() {
    let mut ids = ResponseIds::new();
    assert!(ids.can_issue());
    let a = ids.issue();
    let b = ids.issue();
    let c = ids.issue();
    assert_eq!((a, b, c), (0, 1, 2));
    assert_ne!(response_topic("e", a), response_topic("e", b));
    assert_ne!(response_topic("e", 1), response_topic("e", 10));
}

#[test]
fn slot_pending_until_fulfilled() {
    let mut slot: ResponseSlot<u8, String> = ResponseSlot::new();
    assert_eq!(slot.poll(1), None);
    assert_eq!(slot.waker(), Some(&1));
    assert_eq!(slot.publish_properties(), None);
}

#[test]
fn slot_hands_out_last_reply() {
    let mut slot: ResponseSlot<u8, String> = ResponseSlot::new();
    assert!(!slot.fulfill("1".to_string(), None));
    assert_eq!(slot.poll(5), Some("1".to_string()));
    assert!(slot.fulfill("2".to_string(), Some("props".to_string())));
    assert_eq!(slot.poll(6), Some("2".to_string()));
    assert_eq!(slot.poll(7), Some("2".to_string()));
    assert_eq!(slot.waker(), Some(&7));
    assert_eq!(slot.publish_properties(), Some(&"props".to_string()));
}
