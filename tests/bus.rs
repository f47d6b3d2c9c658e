use shared::api::COUNTER_CHANGED_TOPIC;
use shared::bus::NotificationBus;

fn drain(bus: &mut NotificationBus, id: u64) -> Vec<u64> {
    let mut out = Vec::new();
    while let Some(v) = bus.receive(id) {
        out.push(v);
    }
    out
}

#[test]
fn subscriber_sees_publishes_in_order() {
    let mut bus = NotificationBus::new();
    let id = bus.subscribe(COUNTER_CHANGED_TOPIC).unwrap();
    for v in [5u64, 3, 9, 3, 1] {
        bus.publish(COUNTER_CHANGED_TOPIC, v);
    }
    assert_eq!(drain(&mut bus, id), vec![5, 3, 9, 3, 1]);
    assert_eq!(bus.receive(id), None);
}

#[test]
fn late_subscriber_gets_no_replay() {
    let mut bus = NotificationBus::new();
    bus.publish(COUNTER_CHANGED_TOPIC, 1);
    bus.publish(COUNTER_CHANGED_TOPIC, 2);
    let id = bus.subscribe(COUNTER_CHANGED_TOPIC).unwrap();
    assert_eq!(bus.receive(id), None);
    bus.publish(COUNTER_CHANGED_TOPIC, 3);
    assert_eq!(drain(&mut bus, id), vec![3]);
}

#[test]
fn publish_without_subscribers_is_a_no_op() {
    let mut bus = NotificationBus::new();
    bus.publish("nobody-listens", 10);
    let id = bus.subscribe("nobody-listens").unwrap();
    assert_eq!(bus.receive(id), None);
}

#[test]
fn topics_are_separate() {
    let mut bus = NotificationBus::new();
    let a = bus.subscribe("a").unwrap();
    let b = bus.subscribe("b").unwrap();
    bus.publish("a", 1);
    bus.publish("b", 2);
    bus.publish("a", 3);
    assert_eq!(drain(&mut bus, a), vec![1, 3]);
    assert_eq!(drain(&mut bus, b), vec![2]);
}

#[test]
fn each_subscriber_has_its_own_queue() {
    let mut bus = NotificationBus::new();
    let a = bus.subscribe(COUNTER_CHANGED_TOPIC).unwrap();
    let b = bus.subscribe(COUNTER_CHANGED_TOPIC).unwrap();
    assert_ne!(a, b);
    bus.publish(COUNTER_CHANGED_TOPIC, 1);
    assert_eq!(bus.receive(a), Some(1));
    bus.publish(COUNTER_CHANGED_TOPIC, 2);
    assert_eq!(drain(&mut bus, a), vec![2]);
    assert_eq!(drain(&mut bus, b), vec![1, 2]);
}

#[test]
fn unsubscribe_drops_the_queue() {
    let mut bus = NotificationBus::new();
    let a = bus.subscribe(COUNTER_CHANGED_TOPIC).unwrap();
    let b = bus.subscribe(COUNTER_CHANGED_TOPIC).unwrap();
    bus.publish(COUNTER_CHANGED_TOPIC, 4);
    assert!(bus.unsubscribe(a));
    assert!(!bus.unsubscribe(a));
    assert_eq!(bus.receive(a), None);
    bus.publish(COUNTER_CHANGED_TOPIC, 5);
    assert_eq!(drain(&mut bus, b), vec![4, 5]);
}

#[test]
fn unknown_subscriber_receives_nothing() {
    let mut bus = NotificationBus::new();
    bus.publish(COUNTER_CHANGED_TOPIC, 4);
    assert_eq!(bus.receive(12345), None);
    assert!(!bus.unsubscribe(12345));
}
