use dashbook::bus::{EventBus, RecvOutcome, Subscriber, DEFAULT_CAPACITY};
use dashbook::live::LiveEvent;
use dashbook::rpc::types::NodeNumber;

fn mempool(size: u64) -> LiveEvent {
    LiveEvent::MempoolUpdate { size, bytes: size * 10, total_fee: NodeNumber { bits: 0 } }
}

fn drain(bus: &EventBus, sub: &mut Subscriber) -> Vec<RecvOutcome> {
    let mut seen = Vec::new();
    loop {
        let outcome = bus.recv(sub);
        let last = matches!(outcome, RecvOutcome::Empty | RecvOutcome::Closed);
        seen.push(outcome);
        if last {
            return seen;
        }
    }
}

#[test]
fn default_capacity_is_256() {
    assert_eq!(DEFAULT_CAPACITY, 256);
}

#[test]
fn a_subscriber_receives_events_in_emission_order() {
    let mut bus = EventBus::new(8);
    let mut sub = bus.subscribe();
    for n in 1..=4 {
        assert!(bus.publish(mempool(n)));
    }
    assert_eq!(
        drain(&bus, &mut sub),
        vec![
            RecvOutcome::Event(mempool(1)),
            RecvOutcome::Event(mempool(2)),
            RecvOutcome::Event(mempool(3)),
            RecvOutcome::Event(mempool(4)),
            RecvOutcome::Empty,
        ]
    );
    assert_eq!(sub.cursor(), 4);
}

#[test]
fn a_new_subscriber_sees_only_later_events() {
    let mut bus = EventBus::new(8);
    assert!(bus.publish(mempool(1)));
    let mut sub = bus.subscribe();
    assert_eq!(sub.cursor(), 1);
    assert_eq!(bus.recv(&mut sub), RecvOutcome::Empty);
    assert!(bus.publish(mempool(2)));
    assert_eq!(bus.recv(&mut sub), RecvOutcome::Event(mempool(2)));
    assert_eq!(bus.recv(&mut sub), RecvOutcome::Empty);
}

#[test]
fn a_lagging_subscriber_is_told_and_then_resumes() {
    let mut bus = EventBus::new(2);
    let mut sub = bus.subscribe();
    for n in 0..5 {
        assert!(bus.publish(mempool(n)));
    }
    assert_eq!(bus.published(), 5);
    assert_eq!(
        drain(&bus, &mut sub),
        vec![
            RecvOutcome::Lagged(3),
            RecvOutcome::Event(mempool(3)),
            RecvOutcome::Event(mempool(4)),
            RecvOutcome::Empty,
        ]
    );
    assert!(bus.publish(mempool(5)));
    assert_eq!(bus.recv(&mut sub), RecvOutcome::Event(mempool(5)));
}

#[test]
fn a_subscriber_exactly_one_buffer_behind_does_not_lag() {
    let mut bus = EventBus::new(3);
    let mut sub = bus.subscribe();
    for n in 0..3 {
        assert!(bus.publish(mempool(n)));
    }
    assert_eq!(bus.recv(&mut sub), RecvOutcome::Event(mempool(0)));
    assert!(bus.publish(mempool(3)));
    assert!(bus.publish(mempool(4)));
    assert_eq!(bus.recv(&mut sub), RecvOutcome::Lagged(1));
    assert_eq!(bus.recv(&mut sub), RecvOutcome::Event(mempool(2)));
}

#[test]
fn the_default_buffer_drops_what_exceeds_it() {
    let mut bus = EventBus::new(DEFAULT_CAPACITY);
    let mut sub = bus.subscribe();
    for n in 0..300 {
        assert!(bus.publish(mempool(n)));
    }
    assert_eq!(bus.recv(&mut sub), RecvOutcome::Lagged(44));
    assert_eq!(bus.recv(&mut sub), RecvOutcome::Event(mempool(44)));
    let rest = drain(&bus, &mut sub);
    assert_eq!(rest.len(), 256);
    assert_eq!(rest[254], RecvOutcome::Event(mempool(299)));
    assert_eq!(rest[255], RecvOutcome::Empty);
}

#[test]
fn a_buffer_of_one_keeps_the_newest_event() {
    let mut bus = EventBus::new(1);
    let mut sub = bus.subscribe();
    assert!(bus.publish(mempool(1)));
    assert!(bus.publish(mempool(2)));
    assert_eq!(bus.recv(&mut sub), RecvOutcome::Lagged(1));
    assert_eq!(bus.recv(&mut sub), RecvOutcome::Event(mempool(2)));
    assert_eq!(bus.recv(&mut sub), RecvOutcome::Empty);
}

#[test]
fn closing_ends_subscribers_after_what_is_left() {
    let mut bus = EventBus::new(4);
    let mut sub = bus.subscribe();
    assert!(!bus.closed());
    assert!(bus.publish(mempool(1)));
    bus.close();
    assert!(bus.closed());
    assert!(!bus.publish(mempool(2)));
    assert_eq!(bus.published(), 1);
    assert_eq!(
        drain(&bus, &mut sub),
        vec![RecvOutcome::Event(mempool(1)), RecvOutcome::Closed]
    );
    assert_eq!(bus.recv(&mut sub), RecvOutcome::Closed);
}

#[test]
fn a_lagging_subscriber_of_a_closed_bus_still_gets_what_is_retained() {
    let mut bus = EventBus::new(2);
    let mut sub = bus.subscribe();
    for n in 0..4 {
        assert!(bus.publish(mempool(n)));
    }
    bus.close();
    assert_eq!(
        drain(&bus, &mut sub),
        vec![
            RecvOutcome::Lagged(2),
            RecvOutcome::Event(mempool(2)),
            RecvOutcome::Event(mempool(3)),
            RecvOutcome::Closed,
        ]
    );
}

#[test]
fn subscribers_see_the_same_relative_order() {
    let mut bus = EventBus::new(4);
    let mut early = bus.subscribe();
    assert!(bus.publish(mempool(1)));
    assert!(bus.publish(mempool(2)));
    let mut late = bus.subscribe();
    assert!(bus.publish(mempool(3)));
    assert!(bus.publish(mempool(4)));
    assert_eq!(
        drain(&bus, &mut early),
        vec![
            RecvOutcome::Event(mempool(1)),
            RecvOutcome::Event(mempool(2)),
            RecvOutcome::Event(mempool(3)),
            RecvOutcome::Event(mempool(4)),
            RecvOutcome::Empty,
        ]
    );
    assert_eq!(
        drain(&bus, &mut late),
        vec![RecvOutcome::Event(mempool(3)), RecvOutcome::Event(mempool(4)), RecvOutcome::Empty]
    );
}

#[test]
fn delivered_and_dropped_add_up_to_what_was_published() {
    for capacity in 1..6usize {
        for published in 0..12u64 {
            let mut bus = EventBus::new(capacity);
            let mut sub = bus.subscribe();
            for n in 0..published {
                assert!(bus.publish(mempool(n)));
            }
            let mut delivered = 0u64;
            let mut dropped = 0u64;
            let mut expect = published.saturating_sub(capacity as u64);
            for outcome in drain(&bus, &mut sub) {
                match outcome {
                    RecvOutcome::Event(e) => {
                        assert_eq!(e, mempool(expect));
                        expect += 1;
                        delivered += 1;
                    }
                    RecvOutcome::Lagged(n) => dropped += n,
                    RecvOutcome::Empty => {}
                    RecvOutcome::Closed => panic!("the bus was not closed"),
                }
            }
            assert_eq!(delivered + dropped, published);
            assert_eq!(delivered, published.min(capacity as u64));
        }
    }
}
