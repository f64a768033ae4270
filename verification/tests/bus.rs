use pubsubinator::bus::Bus;
use pubsubinator::bus::BusPoll;
use pubsubinator::reactor_event::ReactorEvent;

fn ev(n: u8) -> ReactorEvent {
    ReactorEvent::Battery(n)
}

#[test]
fn fan_out_all_subscribers_see_all_events_in_order() {
    let mut bus = Bus::new(8, 4);
    let a = bus.subscribe().unwrap();
    let b = bus.subscribe().unwrap();
    for n in 0..3 {
        assert!(bus.try_publish(ev(n)));
    }
    let (lag_a, seen_a) = bus.collect_pending(a);
    let (lag_b, seen_b) = bus.collect_pending(b);
    assert_eq!(lag_a, 0);
    assert_eq!(lag_b, 0);
    assert_eq!(seen_a, vec![ev(0), ev(1), ev(2)]);
    assert_eq!(seen_b, vec![ev(0), ev(1), ev(2)]);
}

#[test]
fn lagged_subscriber_is_told_how_much_it_missed() {
    let mut bus = Bus::new(2, 1);
    let s = bus.subscribe().unwrap();
    for n in 0..5 {
        bus.publish_forced(ev(n));
    }
    let (lag, seen) = bus.collect_pending(s);
    assert_eq!(lag, 3);
    assert_eq!(seen, vec![ev(3), ev(4)]);
    assert_eq!(bus.try_next(s), BusPoll::Empty);
}

#[test]
fn publish_backpressure_refuses_to_overwrite_unread() {
    let mut bus = Bus::new(1, 1);
    let s = bus.subscribe().unwrap();
    assert!(bus.try_publish(ev(0)));
    assert!(!bus.try_publish(ev(1)));
    assert_eq!(bus.try_next(s), BusPoll::Message(ev(0)));
    assert!(bus.try_publish(ev(1)));
    assert_eq!(bus.try_next(s), BusPoll::Message(ev(1)));
}

#[test]
fn forced_publish_wraps_and_reader_resumes_at_oldest_retained() {
    let mut bus = Bus::new(2, 1);
    let s = bus.subscribe().unwrap();
    bus.publish_forced(ev(0));
    bus.publish_forced(ev(1));
    bus.publish_forced(ev(2));
    match bus.try_next(s) {
        BusPoll::Lagged(n) => assert_eq!(n, 1),
        other => panic!("expected a lag marker, got {:?}", other),
    }
    assert_eq!(bus.try_next(s), BusPoll::Message(ev(1)));
    assert_eq!(bus.try_next(s), BusPoll::Message(ev(2)));
    assert_eq!(bus.try_next(s), BusPoll::Empty);
}

#[test]
fn subscriber_limit_is_enforced() {
    let mut bus = Bus::new(4, 2);
    assert_eq!(bus.subscribe(), Some(0));
    assert_eq!(bus.subscribe(), Some(1));
    assert_eq!(bus.subscribe(), None);
}

#[test]
fn subscriber_sees_only_events_published_after_it_joined() {
    let mut bus = Bus::new(8, 2);
    assert!(bus.try_publish(ev(0)));
    let s = bus.subscribe().unwrap();
    assert_eq!(bus.try_next(s), BusPoll::Empty);
    assert!(bus.try_publish(ev(1)));
    assert_eq!(bus.try_next(s), BusPoll::Message(ev(1)));
}

#[test]
fn events_are_never_duplicated_or_reordered() {
    let mut bus = Bus::new(16, 1);
    let s = bus.subscribe().unwrap();
    for n in 0..10 {
        assert!(bus.try_publish(ev(n)));
    }
    let (lag, seen) = bus.collect_pending(s);
    assert_eq!(lag, 0);
    let expected: Vec<ReactorEvent> = (0..10).map(ev).collect();
    assert_eq!(seen, expected);
    assert_eq!(bus.try_next(s), BusPoll::Empty);
}
