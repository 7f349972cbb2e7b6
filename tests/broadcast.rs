use video_streaming::BroadcastBus;

fn msg(n: u8) -> Vec<u8> {
    vec![n, n, n]
}

#[test]
fn new_viewer_starts_empty() {
    let mut bus = BroadcastBus::new(10);
    bus.publish(&msg(1));
    let sub = bus.register().unwrap();
    assert_eq!(bus.pending(&sub), Some(0));
    assert_eq!(bus.next(&sub), None);
}

#[test]
fn one_over_capacity_evicts_oldest() {
    let k = 10;
    let mut bus = BroadcastBus::new(k);
    let sub = bus.register().unwrap();
    for n in 0..=(k as u8) {
        bus.publish(&msg(n));
    }
    assert_eq!(bus.pending(&sub), Some(k));
    for n in 1..=(k as u8) {
        assert_eq!(bus.next(&sub), Some(msg(n)));
    }
    assert_eq!(bus.next(&sub), None);
}

#[test]
fn zero_capacity_keeps_nothing() {
    let mut bus = BroadcastBus::new(0);
    let sub = bus.register().unwrap();
    bus.publish(&msg(7));
    assert_eq!(bus.pending(&sub), Some(0));
}

#[test]
fn stalled_viewer_does_not_hold_back_another() {
    let mut bus = BroadcastBus::new(3);
    let stalled = bus.register().unwrap();
    let active = bus.register().unwrap();
    for n in 0..100u8 {
        bus.publish(&msg(n));
        assert_eq!(bus.next(&active), Some(msg(n)));
        assert_eq!(bus.pending(&active), Some(0));
    }
    assert_eq!(bus.pending(&stalled), Some(3));
    assert_eq!(bus.next(&stalled), Some(msg(97)));
}

#[test]
fn each_viewer_is_fifo() {
    let mut bus = BroadcastBus::new(4);
    let a = bus.register().unwrap();
    bus.publish(&msg(1));
    let b = bus.register().unwrap();
    bus.publish(&msg(2));
    assert_eq!(bus.next(&a), Some(msg(1)));
    assert_eq!(bus.next(&a), Some(msg(2)));
    assert_eq!(bus.next(&b), Some(msg(2)));
    assert_eq!(bus.next(&b), None);
}

#[test]
fn demand_counts_each_registration_once() {
    let mut bus = BroadcastBus::new(10);
    assert!(!bus.poll_demand());
    let a = bus.register().unwrap();
    let b = bus.register().unwrap();
    let c = bus.register().unwrap();
    assert_eq!(bus.demand(), 3);
    assert!(bus.deregister(&b));
    assert_eq!(bus.demand(), 2);
    // A second deregistration of the same viewer changes nothing.
    assert!(!bus.deregister(&b));
    assert_eq!(bus.demand(), 2);
    assert!(bus.deregister(&a));
    assert!(bus.deregister(&c));
    assert_eq!(bus.demand(), 0);
    assert!(!bus.deregister(&c));
    assert_eq!(bus.demand(), 0);
    assert!(!bus.poll_demand());
    assert_eq!(bus.pending(&a), None);
}

#[test]
fn subscriptions_are_distinct() {
    let mut bus = BroadcastBus::new(1);
    let a = bus.register().unwrap();
    let b = bus.register().unwrap();
    assert_ne!(a.id(), b.id());
    assert!(bus.deregister(&a));
    let c = bus.register().unwrap();
    assert_ne!(c.id(), a.id());
    assert_eq!(bus.capacity(), 1);
}
