use axon_core::event::bus::{create_event_bus, try_create_event_bus, EventBus, RecvOutcome};
use axon_core::event::event::AxonEvent;

fn changed(path: &str) -> AxonEvent {
    AxonEvent::FileChanged { path: path.to_string() }
}

#[test]
fn subscriber_that_keeps_up_sees_publish_order() {
    let (mut bus, mut rx) = create_event_bus(4);
    assert!(bus.publish(changed("a")));
    assert!(bus.publish(changed("b")));
    assert!(bus.publish(changed("c")));
    assert_eq!(rx.try_recv(&bus), RecvOutcome::Event(changed("a")));
    assert_eq!(rx.try_recv(&bus), RecvOutcome::Event(changed("b")));
    assert!(bus.publish(changed("d")));
    assert_eq!(rx.try_recv(&bus), RecvOutcome::Event(changed("c")));
    assert_eq!(rx.try_recv(&bus), RecvOutcome::Event(changed("d")));
    assert_eq!(rx.try_recv(&bus), RecvOutcome::Empty);
    assert_eq!(rx.position(), 4);
}

#[test]
fn interleaved_publishes_never_lag_within_capacity() {
    let (mut bus, mut rx) = create_event_bus(2);
    for round in 0..50u32 {
        let first = format!("{}-a", round);
        let second = format!("{}-b", round);
        bus.publish(changed(&first));
        bus.publish(changed(&second));
        assert_eq!(rx.try_recv(&bus), RecvOutcome::Event(changed(&first)));
        assert_eq!(rx.try_recv(&bus), RecvOutcome::Event(changed(&second)));
        assert_eq!(rx.try_recv(&bus), RecvOutcome::Empty);
    }
    assert_eq!(bus.published(), 100);
}

#[test]
fn paused_subscriber_gets_drop_count_then_continuation() {
    let (mut bus, mut rx) = create_event_bus(2);
    for name in ["1", "2", "3", "4", "5"] {
        bus.publish(changed(name));
    }
    assert_eq!(rx.try_recv(&bus), RecvOutcome::Lagged(3));
    assert_eq!(rx.try_recv(&bus), RecvOutcome::Event(changed("4")));
    assert_eq!(rx.try_recv(&bus), RecvOutcome::Event(changed("5")));
    assert_eq!(rx.try_recv(&bus), RecvOutcome::Empty);
}

#[test]
fn lag_by_one_event() {
    let (mut bus, mut rx) = create_event_bus(1);
    bus.publish(changed("old"));
    bus.publish(changed("new"));
    assert_eq!(rx.try_recv(&bus), RecvOutcome::Lagged(1));
    assert_eq!(rx.try_recv(&bus), RecvOutcome::Event(changed("new")));
}

#[test]
fn exactly_capacity_events_do_not_lag() {
    let (mut bus, mut rx) = create_event_bus(3);
    for name in ["1", "2", "3"] {
        bus.publish(changed(name));
    }
    assert_eq!(rx.try_recv(&bus), RecvOutcome::Event(changed("1")));
}

#[test]
fn each_subscriber_has_its_own_cursor() {
    let mut bus = EventBus::new(8);
    let mut early = bus.subscribe();
    bus.publish(changed("a"));
    let mut late = bus.subscribe();
    bus.publish(changed("b"));
    assert_eq!(early.try_recv(&bus), RecvOutcome::Event(changed("a")));
    assert_eq!(late.try_recv(&bus), RecvOutcome::Event(changed("b")));
    assert_eq!(early.try_recv(&bus), RecvOutcome::Event(changed("b")));
    assert_eq!(late.try_recv(&bus), RecvOutcome::Empty);
}

#[test]
fn closed_bus_delivers_what_is_left_then_says_closed() {
    let (mut bus, mut rx) = create_event_bus(4);
    bus.publish(changed("last"));
    bus.close();
    assert!(bus.is_closed());
    assert!(!bus.publish(changed("late")));
    assert_eq!(bus.published(), 1);
    assert_eq!(rx.try_recv(&bus), RecvOutcome::Event(changed("last")));
    assert_eq!(rx.try_recv(&bus), RecvOutcome::Closed);
    assert_eq!(rx.try_recv(&bus), RecvOutcome::Closed);
}

#[test]
fn closed_is_told_apart_from_lag() {
    let (mut bus, mut rx) = create_event_bus(1);
    bus.publish(changed("1"));
    bus.publish(changed("2"));
    bus.close();
    assert_eq!(rx.try_recv(&bus), RecvOutcome::Lagged(1));
    assert_eq!(rx.try_recv(&bus), RecvOutcome::Event(changed("2")));
    assert_eq!(rx.try_recv(&bus), RecvOutcome::Closed);
}

#[test]
fn zero_capacity_is_refused_by_the_checked_constructor() {
    assert!(try_create_event_bus(0).is_none());
    let (bus, rx) = try_create_event_bus(16).unwrap();
    assert_eq!(bus.capacity(), 16);
    assert_eq!(bus.published(), 0);
    assert_eq!(rx.position(), 0);
}

#[test]
fn ring_wraps_many_times() {
    let (mut bus, mut slow) = create_event_bus(3);
    let mut fast = bus.subscribe();
    for n in 1..=10u32 {
        assert!(bus.publish(changed(&n.to_string())));
        assert_eq!(fast.try_recv(&bus), RecvOutcome::Event(changed(&n.to_string())));
    }
    assert_eq!(slow.try_recv(&bus), RecvOutcome::Lagged(7));
    assert_eq!(slow.try_recv(&bus), RecvOutcome::Event(changed("8")));
    assert_eq!(slow.try_recv(&bus), RecvOutcome::Event(changed("9")));
    assert_eq!(slow.try_recv(&bus), RecvOutcome::Event(changed("10")));
    assert_eq!(slow.try_recv(&bus), RecvOutcome::Empty);
    assert_eq!(slow.position(), 10);
    assert_eq!(fast.position(), 10);
}

#[test]
fn subscriber_that_lags_twice_is_told_twice() {
    let (mut bus, mut rx) = create_event_bus(2);
    for name in ["1", "2", "3"] {
        bus.publish(changed(name));
    }
    assert_eq!(rx.try_recv(&bus), RecvOutcome::Lagged(1));
    for name in ["4", "5", "6"] {
        bus.publish(changed(name));
    }
    assert_eq!(rx.try_recv(&bus), RecvOutcome::Lagged(3));
    assert_eq!(rx.try_recv(&bus), RecvOutcome::Event(changed("5")));
    assert_eq!(rx.try_recv(&bus), RecvOutcome::Event(changed("6")));
}
