use plugin_bridge::data::EventType;
use plugin_bridge::subscriptions::Subscriptions;

fn as_sorted(mut v: Vec<EventType>) -> Vec<EventType> {
    v.sort_by_key(|e| *e as u8 as usize);
    v
}

#[test]
fn subscribe_unions_key_sets() {
    let mut subs = Subscriptions::new();
    subs.subscribe(&vec![EventType::Key, EventType::Timer]);
    subs.subscribe(&vec![EventType::Timer, EventType::Mouse]);
    let current = as_sorted(subs.current());
    assert_eq!(current.len(), 3);
    assert!(current.contains(&EventType::Key));
    assert!(current.contains(&EventType::Timer));
    assert!(current.contains(&EventType::Mouse));
}

#[test]
fn subscribe_is_idempotent_and_commutative() {
    let mut a = Subscriptions::new();
    a.subscribe(&vec![EventType::Key]);
    a.subscribe(&vec![EventType::Mouse]);
    a.subscribe(&vec![EventType::Key]);

    let mut b = Subscriptions::new();
    b.subscribe(&vec![EventType::Mouse]);
    b.subscribe(&vec![EventType::Key]);

    assert_eq!(as_sorted(a.current()), as_sorted(b.current()));
    assert_eq!(a.current().len(), 2);
}

#[test]
fn unsubscribe_inverts_subscribe() {
    let mut subs = Subscriptions::new();
    subs.subscribe(&vec![EventType::Key, EventType::Timer]);
    subs.unsubscribe(&vec![EventType::Key, EventType::Timer]);
    assert!(subs.current().is_empty());
}

#[test]
fn unsubscribe_on_empty_set_is_a_no_op() {
    let mut subs = Subscriptions::new();
    subs.unsubscribe(&vec![EventType::Key]);
    assert!(subs.current().is_empty());
}

#[test]
fn unsubscribe_removes_only_matching_keys() {
    let mut subs = Subscriptions::new();
    subs.subscribe(&vec![EventType::Key, EventType::Timer, EventType::Visible]);
    subs.unsubscribe(&vec![EventType::Timer, EventType::Mouse]);
    let current = as_sorted(subs.current());
    assert_eq!(current, vec![EventType::Key, EventType::Visible]);
}

#[test]
fn duplicate_keys_in_one_call_count_once() {
    let mut subs = Subscriptions::new();
    subs.subscribe(&vec![EventType::Key, EventType::Key, EventType::Key]);
    assert_eq!(subs.current(), vec![EventType::Key]);
    assert!(subs.contains(EventType::Key));
    assert!(!subs.contains(EventType::Timer));
}
