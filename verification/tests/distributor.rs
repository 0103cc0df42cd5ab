use futures_channel::mpsc::{unbounded, TryRecvError, UnboundedReceiver};
use key_overlay::distributor::{Delivery, SubscriberRegistry};
use tokio_tungstenite::tungstenite::Message;

fn next_text(rx: &mut UnboundedReceiver<Message>) -> Option<String> {
    match rx.try_recv() {
        Ok(Message::Text(text)) => Some(text.as_str().to_string()),
        Ok(other) => panic!("not a text message: {other:?}"),
        Err(_) => None,
    }
}

fn taken(subscriber: u64) -> Delivery {
    Delivery { subscriber, accepted: true }
}

fn refused(subscriber: u64) -> Delivery {
    Delivery { subscriber, accepted: false }
}

#[test]
fn new_registry_is_empty() {
    let mut registry = SubscriberRegistry::new();
    assert_eq!(registry.count(), 0);
    assert_eq!(registry.publish("x"), Vec::<Delivery>::new());
    assert!(!registry.unregister(0));
}

#[test]
fn identities_are_handed_out_in_order() {
    let mut registry = SubscriberRegistry::new();
    let mut kept = Vec::new();
    for expected in 0..5u64 {
        let (tx, rx) = unbounded::<Message>();
        kept.push(rx);
        assert_eq!(registry.register(tx), Some(expected));
        assert_eq!(registry.count(), expected as usize + 1);
    }
}

#[test]
fn identities_are_not_reused() {
    let mut registry = SubscriberRegistry::new();
    let (tx0, _rx0) = unbounded::<Message>();
    let (tx1, _rx1) = unbounded::<Message>();
    let (tx2, _rx2) = unbounded::<Message>();
    assert_eq!(registry.register(tx0), Some(0));
    assert_eq!(registry.register(tx1), Some(1));
    assert!(registry.unregister(1));
    assert!(registry.unregister(0));
    assert_eq!(registry.register(tx2), Some(2));
    assert_eq!(registry.count(), 1);
}

#[test]
fn fan_out_reaches_all_subscribers() {
    let mut registry = SubscriberRegistry::new();
    let mut receivers = Vec::new();
    for _ in 0..4 {
        let (tx, rx) = unbounded::<Message>();
        registry.register(tx);
        receivers.push(rx);
    }
    let report = registry.publish("{\"type\":\"keypress\",\"combo\":\"Ctrl+A\"}");
    assert_eq!(report, vec![taken(0), taken(1), taken(2), taken(3)]);
    for rx in receivers.iter_mut() {
        assert_eq!(next_text(rx), Some("{\"type\":\"keypress\",\"combo\":\"Ctrl+A\"}".to_string()));
        assert_eq!(next_text(rx), None);
    }
    assert_eq!(registry.count(), 4);
}

#[test]
fn unregistering_one_leaves_the_others_served() {
    let mut registry = SubscriberRegistry::new();
    let mut receivers = Vec::new();
    for _ in 0..3 {
        let (tx, rx) = unbounded::<Message>();
        registry.register(tx);
        receivers.push(rx);
    }
    registry.publish("first");
    assert!(registry.unregister(1));
    assert_eq!(registry.count(), 2);
    let report = registry.publish("second");
    assert_eq!(report, vec![taken(0), taken(2)]);
    assert_eq!(next_text(&mut receivers[0]), Some("first".to_string()));
    assert_eq!(next_text(&mut receivers[0]), Some("second".to_string()));
    assert_eq!(next_text(&mut receivers[2]), Some("first".to_string()));
    assert_eq!(next_text(&mut receivers[2]), Some("second".to_string()));
    assert_eq!(next_text(&mut receivers[1]), Some("first".to_string()));
    assert!(matches!(receivers[1].try_recv(), Err(TryRecvError::Closed)));
}

#[test]
fn unregistering_an_unknown_subscriber_changes_nothing() {
    let mut registry = SubscriberRegistry::new();
    let (tx, mut rx) = unbounded::<Message>();
    registry.register(tx);
    assert!(!registry.unregister(7));
    assert_eq!(registry.count(), 1);
    assert_eq!(registry.publish("m"), vec![taken(0)]);
    assert_eq!(next_text(&mut rx), Some("m".to_string()));
}

#[test]
fn messages_arrive_in_the_order_published() {
    let mut registry = SubscriberRegistry::new();
    let (tx, mut rx) = unbounded::<Message>();
    registry.register(tx);
    for i in 0..10 {
        registry.publish(&format!("m{i}"));
    }
    for i in 0..10 {
        assert_eq!(next_text(&mut rx), Some(format!("m{i}")));
    }
    assert_eq!(next_text(&mut rx), None);
}

#[test]
fn dead_subscriber_is_dropped_and_the_others_are_served() {
    let mut registry = SubscriberRegistry::new();
    let (tx0, mut rx0) = unbounded::<Message>();
    let (tx1, rx1) = unbounded::<Message>();
    let (tx2, mut rx2) = unbounded::<Message>();
    registry.register(tx0);
    registry.register(tx1);
    registry.register(tx2);
    drop(rx1);
    let report = registry.publish("a");
    assert_eq!(report, vec![taken(0), refused(1), taken(2)]);
    assert_eq!(registry.count(), 2);
    assert_eq!(registry.publish("b"), vec![taken(0), taken(2)]);
    assert!(!registry.unregister(1));
    assert_eq!(next_text(&mut rx0), Some("a".to_string()));
    assert_eq!(next_text(&mut rx0), Some("b".to_string()));
    assert_eq!(next_text(&mut rx2), Some("a".to_string()));
    assert_eq!(next_text(&mut rx2), Some("b".to_string()));
}

#[test]
fn all_dead_subscribers_are_dropped() {
    let mut registry = SubscriberRegistry::new();
    for _ in 0..3 {
        let (tx, rx) = unbounded::<Message>();
        registry.register(tx);
        drop(rx);
    }
    assert_eq!(registry.publish("a"), vec![refused(0), refused(1), refused(2)]);
    assert_eq!(registry.count(), 0);
    assert_eq!(registry.publish("b"), Vec::<Delivery>::new());
}

#[test]
fn closed_receiver_refuses_the_message() {
    let mut registry = SubscriberRegistry::new();
    let (tx, mut rx) = unbounded::<Message>();
    registry.register(tx);
    rx.close();
    assert_eq!(registry.publish("a"), vec![refused(0)]);
    assert_eq!(registry.count(), 0);
}

#[test]
fn published_text_is_not_altered() {
    let mut registry = SubscriberRegistry::new();
    let (tx, mut rx) = unbounded::<Message>();
    registry.register(tx);
    for text in ["", " ", "⌘+Shift+↩", "{\"a\":1}", "line\nbreak"] {
        registry.publish(text);
        assert_eq!(next_text(&mut rx), Some(text.to_string()));
    }
}

#[test]
fn each_identity_keeps_its_own_channel() {
    let mut registry = SubscriberRegistry::new();
    let (tx0, mut rx0) = unbounded::<Message>();
    let (tx1, mut rx1) = unbounded::<Message>();
    let (tx2, mut rx2) = unbounded::<Message>();
    registry.register(tx0);
    registry.register(tx1);
    registry.register(tx2);
    rx1.close();
    assert_eq!(registry.publish("a"), vec![taken(0), refused(1), taken(2)]);
    rx0.close();
    assert_eq!(registry.publish("b"), vec![refused(0), taken(2)]);
    assert_eq!(next_text(&mut rx0), Some("a".to_string()));
    assert_eq!(next_text(&mut rx0), None);
    assert_eq!(next_text(&mut rx1), None);
    assert_eq!(next_text(&mut rx2), Some("a".to_string()));
    assert_eq!(next_text(&mut rx2), Some("b".to_string()));
    assert_eq!(next_text(&mut rx2), None);
}

#[test]
fn removed_subscriber_gets_nothing_more() {
    let mut registry = SubscriberRegistry::new();
    let (tx0, mut rx0) = unbounded::<Message>();
    let (tx1, mut rx1) = unbounded::<Message>();
    registry.register(tx0);
    registry.register(tx1);
    registry.publish("m1");
    assert!(registry.unregister(0));
    assert_eq!(registry.publish("m2"), vec![taken(1)]);
    assert_eq!(next_text(&mut rx0), Some("m1".to_string()));
    assert_eq!(next_text(&mut rx0), None);
    assert_eq!(next_text(&mut rx1), Some("m1".to_string()));
    assert_eq!(next_text(&mut rx1), Some("m2".to_string()));
    assert_eq!(next_text(&mut rx1), None);
}
