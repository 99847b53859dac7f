use std::collections::VecDeque;

use web_server::{
    bundle_from_parts, elapsed_notice, Bus, BusEvent, Message, OutboundQueue, Subscription,
    WebServer,
};

/// A small generator of numbers that look random and are the same on every
/// run.
struct Dice(u64);

impl Dice {
    fn roll(&mut self, sides: u64) -> u64 {
        self.0 = self.0.wrapping_mul(6364136223846793005).wrapping_add(1442695040888963407);
        (self.0 >> 33) % sides
    }
}

fn numbered(n: usize) -> Message {
    Message::Text(format!("message {n}"))
}

/// What a subscriber at `cursor` must read from a bus of this capacity that
/// has `published` messages in its log, and where its cursor must stand
/// afterwards.
fn expected_read(published: usize, capacity: usize, cursor: usize) -> (BusEvent, usize) {
    if cursor >= published {
        (BusEvent::Idle, cursor)
    } else if published - cursor > capacity {
        (BusEvent::Lagged((published - cursor - capacity) as u64), published - capacity)
    } else {
        (BusEvent::Message(numbered(cursor)), cursor + 1)
    }
}

fn bus_follows_the_log_model(capacity: usize, seed: u64) {
    let mut dice = Dice(seed);
    let mut bus = Bus::new(capacity).unwrap();
    let mut published = 0usize;
    let mut subscribers: Vec<(Subscription, usize)> = Vec::new();
    for _ in 0..600 {
        match dice.roll(8) {
            0 => {
                if subscribers.len() < 5 {
                    subscribers.push((bus.subscribe(), published));
                }
            }
            1 => {
                if !subscribers.is_empty() {
                    let gone = dice.roll(subscribers.len() as u64) as usize;
                    let (subscription, _) = subscribers.swap_remove(gone);
                    bus.release(subscription);
                }
            }
            2 | 3 | 4 => {
                let reached = bus.publish(numbered(published));
                assert_eq!(reached, subscribers.len());
                published += 1;
            }
            5 => {
                if !subscribers.is_empty() {
                    let who = dice.roll(subscribers.len() as u64) as usize;
                    let (subscription, _) = &subscribers[who];
                    let reached = subscription.publish(&mut bus, numbered(published));
                    assert_eq!(reached, subscribers.len());
                    published += 1;
                }
            }
            _ => {
                if !subscribers.is_empty() {
                    let who = dice.roll(subscribers.len() as u64) as usize;
                    let (subscription, cursor) = &mut subscribers[who];
                    let (event, moved) = expected_read(published, capacity, *cursor);
                    assert_eq!(subscription.poll(&bus), event);
                    *cursor = moved;
                }
            }
        }
        assert_eq!(bus.published(), published as u64);
        assert_eq!(bus.subscriber_count(), subscribers.len());
        assert_eq!(bus.live_receivers(), subscribers.len());
    }
}

#[test]
fn bus_of_any_small_capacity_follows_the_log_model() {
    for capacity in 1..=9 {
        for seed in 0..6 {
            bus_follows_the_log_model(capacity, seed * 977 + capacity as u64);
        }
    }
}

#[test]
fn default_bus_follows_the_log_model() {
    for seed in 100..104 {
        bus_follows_the_log_model(32, seed);
    }
}

#[test]
fn queue_of_any_small_capacity_follows_the_bounded_fifo_model() {
    for capacity in 1..=6usize {
        let mut dice = Dice(capacity as u64 * 31);
        let mut queue = OutboundQueue::new(capacity).unwrap();
        let mut model: VecDeque<Message> = VecDeque::new();
        for n in 0..500 {
            if dice.roll(5) < 3 {
                let outcome = queue.try_enqueue(numbered(n));
                if model.len() < capacity {
                    assert_eq!(outcome, Ok(()));
                    model.push_back(numbered(n));
                } else {
                    assert_eq!(outcome, Err(numbered(n)));
                }
            } else {
                assert_eq!(queue.dequeue(), model.pop_front());
            }
            assert_eq!(queue.len(), model.len());
            assert!(queue.len() <= capacity);
            assert_eq!(queue.is_empty(), model.is_empty());
            assert_eq!(queue.is_full(), model.len() == capacity);
        }
    }
}

/// The port that the text writes by the rule of the library: an optional
/// plus sign, then decimal digits only, at least one, and no more than
/// fits in 32 bits.
fn expected_port(text: &str) -> u32 {
    let digits = text.strip_prefix('+').unwrap_or(text);
    if digits.is_empty() {
        return 3000;
    }
    let mut value: u64 = 0;
    for c in digits.chars() {
        match c {
            '0'..='9' => value = value * 10 + (c as u64 - '0' as u64),
            _ => return 3000,
        }
        if value > u32::MAX as u64 {
            return 3000;
        }
    }
    value as u32
}

#[test]
fn port_texts_are_read_by_the_decimal_rule() {
    let alphabet = ['0', '1', '4', '9', '+', '-', ' ', 'a', '_'];
    let mut dice = Dice(7);
    for _ in 0..1500 {
        let length = dice.roll(12) as usize;
        let text: String =
            (0..length).map(|_| alphabet[dice.roll(alphabet.len() as u64) as usize]).collect();
        let server = WebServer::configured(None, Some(text.clone()), None);
        assert_eq!(server.port, expected_port(&text), "port text {text:?}");
        assert_eq!(server.socket_address, Some(format!("127.0.0.1:{}", expected_port(&text))));
    }
}

#[test]
fn counts_are_written_in_base_ten() {
    let mut dice = Dice(11);
    for _ in 0..500 {
        let count = dice.roll(u64::MAX) >> dice.roll(64);
        let mut digits = Vec::new();
        let mut rest = count;
        loop {
            digits.push(char::from(b'0' + (rest % 10) as u8));
            rest /= 10;
            if rest == 0 {
                break;
            }
        }
        let written: String = digits.iter().rev().collect();
        assert_eq!(
            elapsed_notice(count),
            Message::Text(format!("Seconds elapsed on a background thread {written}"))
        );
    }
}

/// The name without the copies of dot and ending that it ends with.
fn expected_name(name: &str, ending: &str) -> String {
    let suffix = format!(".{ending}");
    let mut shown = name;
    while shown.ends_with(&suffix) {
        shown = &shown[..shown.len() - suffix.len()];
    }
    shown.to_string()
}

#[test]
fn endings_are_taken_off_by_the_suffix_rule() {
    let alphabet = ['a', 'b', '.', 'é'];
    let mut dice = Dice(13);
    for _ in 0..1500 {
        let name: String = (0..dice.roll(9)).map(|_| alphabet[dice.roll(4) as usize]).collect();
        let ending: String = (0..dice.roll(3)).map(|_| alphabet[dice.roll(4) as usize]).collect();
        let (shown, path) =
            bundle_from_parts("some/path", Some(name.clone()), Some(ending.clone())).unwrap();
        assert_eq!(shown.0, expected_name(&name, &ending), "name {name:?}, ending {ending:?}");
        assert_eq!(path.0, "some/path");
    }
}
