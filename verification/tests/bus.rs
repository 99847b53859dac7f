use web_server::{
    subscribers_among, Bus, BusEvent, Message, DEFAULT_BUS_CAPACITY, MAX_SUBSCRIBERS,
};

fn text(s: &str) -> Message {
    Message::Text(s.to_string())
}

#[test]
fn stalled_subscriber_is_told_of_three_skipped_messages() {
    let mut bus = Bus::new(2).unwrap();
    let mut stalled = bus.subscribe();
    for n in ["1", "2", "3", "4", "5"] {
        assert_eq!(bus.publish(text(n)), 1);
    }
    assert_eq!(stalled.poll(&bus), BusEvent::Lagged(3));
    assert_eq!(stalled.poll(&bus), BusEvent::Message(text("4")));
    assert_eq!(stalled.poll(&bus), BusEvent::Message(text("5")));
    assert_eq!(stalled.poll(&bus), BusEvent::Idle);
}

#[test]
fn lag_is_counted_from_the_capacity() {
    let mut bus = Bus::new(3).unwrap();
    assert_eq!(bus.capacity(), 3);
    let mut slow = bus.subscribe();
    for n in ["1", "2", "3"] {
        bus.publish(text(n));
    }
    assert_eq!(slow.poll(&bus), BusEvent::Message(text("1")));
    for n in ["4", "5"] {
        bus.publish(text(n));
    }
    assert_eq!(slow.poll(&bus), BusEvent::Lagged(1));
    assert_eq!(slow.poll(&bus), BusEvent::Message(text("3")));
    assert_eq!(slow.poll(&bus), BusEvent::Message(text("4")));
    assert_eq!(slow.poll(&bus), BusEvent::Message(text("5")));
    assert_eq!(slow.poll(&bus), BusEvent::Idle);
}

#[test]
fn backlog_of_one_above_the_capacity_is_a_lag_of_one() {
    for capacity in [1usize, 2, 3, 5, 6, 7, 9, 33] {
        let mut bus = Bus::new(capacity).unwrap();
        let mut slow = bus.subscribe();
        for n in 0..capacity {
            bus.publish(text(&n.to_string()));
        }
        let mut on_time = bus.subscribe();
        bus.publish(text(&capacity.to_string()));
        assert_eq!(slow.poll(&bus), BusEvent::Lagged(1));
        for n in 1..=capacity {
            assert_eq!(slow.poll(&bus), BusEvent::Message(text(&n.to_string())));
        }
        assert_eq!(slow.poll(&bus), BusEvent::Idle);
        assert_eq!(on_time.poll(&bus), BusEvent::Message(text(&capacity.to_string())));
        assert_eq!(on_time.poll(&bus), BusEvent::Idle);
    }
}

#[test]
fn full_backlog_is_read_without_a_lag() {
    for capacity in [1usize, 3, 5, 8] {
        let mut bus = Bus::new(capacity).unwrap();
        let mut subscriber = bus.subscribe();
        for n in 0..capacity {
            bus.publish(text(&n.to_string()));
        }
        for n in 0..capacity {
            assert_eq!(subscriber.poll(&bus), BusEvent::Message(text(&n.to_string())));
        }
        assert_eq!(subscriber.poll(&bus), BusEvent::Idle);
    }
}

#[test]
fn long_backlog_is_a_lag_by_all_but_the_capacity() {
    let mut bus = Bus::new(5).unwrap();
    let mut slow = bus.subscribe();
    for n in 0..100 {
        bus.publish(text(&n.to_string()));
    }
    assert_eq!(slow.poll(&bus), BusEvent::Lagged(95));
    for n in 95..100 {
        assert_eq!(slow.poll(&bus), BusEvent::Message(text(&n.to_string())));
    }
    assert_eq!(slow.poll(&bus), BusEvent::Idle);
    for n in 100..112 {
        bus.publish(text(&n.to_string()));
    }
    assert_eq!(slow.poll(&bus), BusEvent::Lagged(7));
    assert_eq!(slow.poll(&bus), BusEvent::Message(text("107")));
}

#[test]
fn bus_refuses_a_capacity_it_cannot_have() {
    assert!(Bus::new(0).is_none());
    assert!(Bus::new(usize::MAX).is_none());
    assert!(Bus::new(usize::MAX / 2 + 1).is_none());
    assert!(Bus::new(1).is_some());
}

#[test]
fn default_bus_holds_thirty_two_messages() {
    let bus = Bus::with_default_capacity();
    assert_eq!(DEFAULT_BUS_CAPACITY, 32);
    assert_eq!(bus.subscriber_count(), 0);
    assert_eq!(bus.live_receivers(), 0);
    assert_eq!(bus.capacity(), 32);
    assert_eq!(bus.published(), 0);
}

#[test]
fn publishing_to_nobody_is_a_quiet_success() {
    let mut bus = Bus::with_default_capacity();
    assert_eq!(bus.subscriber_count(), 0);
    assert_eq!(bus.publish(text("lost")), 0);
    assert_eq!(bus.published(), 1);
    let mut late = bus.subscribe();
    assert_eq!(late.poll(&bus), BusEvent::Idle);
    assert_eq!(bus.publish(text("found")), 1);
    assert_eq!(bus.published(), 2);
    assert_eq!(late.poll(&bus), BusEvent::Message(text("found")));
}

#[test]
fn subscription_sees_only_what_is_published_after_it() {
    let mut bus = Bus::with_default_capacity();
    let mut early = bus.subscribe();
    bus.publish(text("before"));
    let mut late = bus.subscribe();
    bus.publish(text("after"));
    assert_eq!(early.poll(&bus), BusEvent::Message(text("before")));
    assert_eq!(early.poll(&bus), BusEvent::Message(text("after")));
    assert_eq!(late.poll(&bus), BusEvent::Message(text("after")));
    assert_eq!(late.poll(&bus), BusEvent::Idle);
}

#[test]
fn every_subscriber_sees_every_message_in_publish_order() {
    let mut bus = Bus::with_default_capacity();
    let mut subscribers = vec![bus.subscribe(), bus.subscribe(), bus.subscribe()];
    let sent = ["a", "b", "c", "d"];
    for n in sent {
        assert_eq!(bus.publish(text(n)), 3);
    }
    assert_eq!(bus.published(), 4);
    for subscriber in subscribers.iter_mut() {
        for n in sent {
            assert_eq!(subscriber.poll(&bus), BusEvent::Message(text(n)));
        }
        assert_eq!(subscriber.poll(&bus), BusEvent::Idle);
    }
}

#[test]
fn binary_payload_travels_unchanged() {
    let mut bus = Bus::with_default_capacity();
    let mut subscriber = bus.subscribe();
    bus.publish(Message::Binary(vec![0, 255, 7]));
    assert_eq!(subscriber.poll(&bus), BusEvent::Message(Message::Binary(vec![0, 255, 7])));
}

#[test]
fn subscriber_publishes_and_reads_its_own_message() {
    let mut bus = Bus::with_default_capacity();
    let mut me = bus.subscribe();
    let mut other = bus.subscribe();
    assert_eq!(me.publish(&mut bus, text("mine")), 2);
    assert_eq!(me.poll(&bus), BusEvent::Message(text("mine")));
    assert_eq!(other.poll(&bus), BusEvent::Message(text("mine")));
}

#[test]
fn subscriber_count_returns_to_its_baseline() {
    let mut bus = Bus::with_default_capacity();
    let resident = bus.subscribe();
    let baseline = bus.subscriber_count();
    assert_eq!(baseline, 1);
    let first = bus.subscribe();
    let second = bus.subscribe();
    assert_eq!(bus.subscriber_count(), baseline + 2);
    assert_eq!(bus.live_receivers(), baseline + 2);
    bus.release(first);
    assert_eq!(bus.subscriber_count(), baseline + 1);
    assert_eq!(bus.live_receivers(), baseline + 1);
    bus.release(second);
    assert_eq!(bus.subscriber_count(), baseline);
    assert_eq!(bus.live_receivers(), baseline);
    assert_eq!(bus.publish(text("still here")), baseline);
    bus.release(resident);
    assert_eq!(bus.subscriber_count(), 0);
    assert_eq!(bus.live_receivers(), 0);
}

#[test]
fn dropped_subscription_stays_counted_by_the_bus() {
    let mut bus = Bus::with_default_capacity();
    let kept = bus.subscribe();
    let dropped = bus.subscribe();
    drop(dropped);
    assert_eq!(bus.subscriber_count(), 2);
    assert_eq!(bus.live_receivers(), 1);
    assert_eq!(bus.publish(text("one")), 2);
    bus.release(kept);
    assert_eq!(bus.subscriber_count(), 1);
    assert_eq!(bus.live_receivers(), 0);
}

#[test]
fn subscribers_are_the_receivers_but_the_bus_own() {
    assert_eq!(subscribers_among(0), 0);
    assert_eq!(subscribers_among(1), 0);
    assert_eq!(subscribers_among(2), 1);
    assert_eq!(subscribers_among(usize::MAX), usize::MAX - 1);
    assert_eq!(MAX_SUBSCRIBERS, usize::MAX / 4 - 1);
}
