//! Tests of the bounded key-change event bus: non-blocking publish, drop
//! accounting, ordered delivery, and single lag notices.

use maghand::bus::{BusWait, KeyChangeBus, KEYCHANGE_BUS_CAP};
use maghand::keys::KeySignal;

fn sig(keynumber: u8, toggle_on: bool) -> KeySignal {
    KeySignal { toggle_on, keynumber }
}

#[test]
fn new_bus_is_empty_and_idle() {
    let mut bus = KeyChangeBus::new(3);
    for sub in 0..3 {
        assert_eq!(bus.next_message(sub), None);
    }
}

#[test]
fn events_are_delivered_in_emission_order() {
    let mut bus = KeyChangeBus::new(1);
    assert_eq!(bus.try_publish(sig(1, true)), 0);
    assert_eq!(bus.try_publish(sig(2, true)), 0);
    assert_eq!(bus.try_publish(sig(1, false)), 0);
    assert_eq!(bus.next_message(0), Some(BusWait::Message(sig(1, true))));
    assert_eq!(bus.next_message(0), Some(BusWait::Message(sig(2, true))));
    assert_eq!(bus.next_message(0), Some(BusWait::Message(sig(1, false))));
    assert_eq!(bus.next_message(0), None);
}

#[test]
fn publish_reaches_every_subscriber() {
    let mut bus = KeyChangeBus::new(2);
    assert_eq!(bus.try_publish(sig(9, true)), 0);
    assert_eq!(bus.next_message(0), Some(BusWait::Message(sig(9, true))));
    assert_eq!(bus.next_message(1), Some(BusWait::Message(sig(9, true))));
}

#[test]
fn full_queue_drops_without_blocking_and_reports_it() {
    let mut bus = KeyChangeBus::new(1);
    for i in 0..KEYCHANGE_BUS_CAP {
        assert_eq!(bus.try_publish(sig(i as u8, true)), 0);
    }
    // The queue is full: the publish returns a drop outcome at once.
    assert_eq!(bus.try_publish(sig(200, true)), 1);
    assert_eq!(bus.try_publish(sig(201, true)), 1);
    // The queued events are intact and still in order.
    assert_eq!(bus.next_message(0), Some(BusWait::Lagged(2)));
    for i in 0..KEYCHANGE_BUS_CAP {
        assert_eq!(bus.next_message(0), Some(BusWait::Message(sig(i as u8, true))));
    }
    assert_eq!(bus.next_message(0), None);
}

#[test]
fn one_lag_notice_per_overflow_window() {
    let mut bus = KeyChangeBus::new(1);
    for i in 0..KEYCHANGE_BUS_CAP {
        bus.try_publish(sig(i as u8, true));
    }
    // Fall behind by five messages.
    for _ in 0..5 {
        assert_eq!(bus.try_publish(sig(99, true)), 1);
    }
    // Exactly one notice, reporting all five misses at once.
    assert_eq!(bus.next_message(0), Some(BusWait::Lagged(5)));
    match bus.next_message(0) {
        Some(BusWait::Message(_)) => {},
        other => panic!("expected a message after the lag notice, got {:?}", other),
    }
}

#[test]
fn lag_only_hits_the_slow_subscriber() {
    let mut bus = KeyChangeBus::new(2);
    // Subscriber 1 keeps up; subscriber 0 never polls.
    for i in 0..(KEYCHANGE_BUS_CAP + 3) {
        let dropped = bus.try_publish(sig((i % 100) as u8, true));
        if i < KEYCHANGE_BUS_CAP {
            assert_eq!(dropped, 0);
        } else {
            assert_eq!(dropped, 1);
        }
        assert!(matches!(bus.next_message(1), Some(BusWait::Message(_))));
    }
    assert_eq!(bus.next_message(0), Some(BusWait::Lagged(3)));
    assert_eq!(bus.next_message(1), None);
}
