use monadic_mqtt::registry::TopicRegistry;

#[test]
fn add_then_get_finds_handler() {
    let mut reg: TopicRegistry<u32> = TopicRegistry::new();
    reg.add("event/sum".to_string(), 7);
    assert_eq!(reg.get("event/sum"), Some(&7));
    assert_eq!(reg.get("event/other"), None);
}

#[test]
fn add_again_replaces_handler() {
    let mut reg: TopicRegistry<u32> = TopicRegistry::new();
    reg.add("a".to_string(), 1);
    reg.add("b".to_string(), 2);
    reg.add("a".to_string(), 3);
    assert_eq!(reg.get("a"), Some(&3));
    assert_eq!(reg.get("b"), Some(&2));
    assert_eq!(reg.remove("a"), Some(3));
    assert_eq!(reg.remove("a"), None);
    assert_eq!(reg.get("b"), Some(&2));
}

#[test]
fn remove_hands_back_and_forgets() {
    let mut reg: TopicRegistry<String> = TopicRegistry::new();
    reg.add("x/y".to_string(), "h1".to_string());
    assert_eq!(reg.remove("x/y"), Some("h1".to_string()));
    assert_eq!(reg.get("x/y"), None);
    assert_eq!(reg.remove("x/y"), None);
}

#[test]
fn topics_compare_as_text() {
    let mut reg: TopicRegistry<u8> = TopicRegistry::new();
    reg.add("tëst/ü".to_string(), 1);
    reg.add("tëst".to_string(), 2);
    assert_eq!(reg.get("tëst/ü"), Some(&1));
    assert_eq!(reg.get("tëst"), Some(&2));
    assert_eq!(reg.get("test/u"), None);
    assert_eq!(reg.get(""), None);
}
