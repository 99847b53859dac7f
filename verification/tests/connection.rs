use web_server::{
    ack_message, greeting_message, welcome_message, Bus, Connection, HandshakeStep, ListenerStep,
    LoopKind, Message, Phase, QueuePolicy, ReaderStep, SocketEvent, WriterStep,
    DEFAULT_QUEUE_CAPACITY,
};

fn text(s: &str) -> Message {
    Message::Text(s.to_string())
}

fn frame(s: &str) -> SocketEvent {
    SocketEvent::Frame(text(s))
}

fn relaying(bus: &mut Bus, peer: &str) -> Connection {
    let mut connection = Connection::accept(peer, "Axum Server");
    assert_eq!(connection.greeting_sent(true), HandshakeStep::Authenticate);
    assert!(connection.complete_handshake(bus, true));
    assert_eq!(connection.next_outbound(), WriterStep::Write(welcome_message(peer, "Axum Server")));
    connection
}

#[test]
fn sender_gets_ack_and_echo_and_the_other_gets_the_message_only() {
    let mut bus = Bus::with_default_capacity();
    let mut a = relaying(&mut bus, "10.0.0.1:1111");
    let mut b = relaying(&mut bus, "10.0.0.2:2222");

    assert_eq!(a.on_socket_event(&mut bus, frame("hello")), ReaderStep::Continue);
    assert_eq!(a.pump(&mut bus), ListenerStep::Relayed);
    assert_eq!(a.pump(&mut bus), ListenerStep::Idle);
    assert_eq!(b.pump(&mut bus), ListenerStep::Relayed);
    assert_eq!(b.pump(&mut bus), ListenerStep::Idle);

    assert_eq!(a.next_outbound(), WriterStep::Write(text("Your message has been sent")));
    assert_eq!(a.next_outbound(), WriterStep::Write(text("hello")));
    assert_eq!(a.next_outbound(), WriterStep::Idle);

    assert_eq!(b.next_outbound(), WriterStep::Write(text("hello")));
    assert_eq!(b.next_outbound(), WriterStep::Idle);
}

#[test]
fn handshake_texts_read_as_they_should() {
    assert_eq!(
        greeting_message(),
        text("Hello from the server! Working to authenticate the user....")
    );
    assert_eq!(
        welcome_message("127.0.0.1:5000", "Axum Server"),
        text("Hello 127.0.0.1:5000! Welcome to Axum Server")
    );
    assert_eq!(welcome_message("", ""), text("Hello ! Welcome to "));
    assert_eq!(ack_message(), text("Your message has been sent"));
}

#[test]
fn accepted_connection_is_in_the_handshake() {
    let connection = Connection::accept("peer", "server");
    assert_eq!(connection.phase(), Phase::Handshaking);
    assert_eq!(connection.policy(), QueuePolicy::Backpressure);
    assert_eq!(connection.peer(), "peer");
    assert_eq!(connection.server_name(), "server");
    assert_eq!(connection.authenticated(), None);
    assert_eq!(connection.queued(), 0);
    assert_eq!(connection.queue_capacity(), DEFAULT_QUEUE_CAPACITY);
    assert!(!connection.is_subscribed());
    assert!(!connection.is_running(LoopKind::StreamReader));
    assert!(!connection.is_running(LoopKind::BusListener));
    assert!(!connection.is_running(LoopKind::SinkWriter));
}

#[test]
fn completed_handshake_starts_three_loops_and_queues_the_welcome() {
    let mut bus = Bus::with_default_capacity();
    let mut connection = Connection::accept("1.2.3.4:9", "Relay");
    assert!(connection.complete_handshake(&mut bus, true));
    assert_eq!(connection.phase(), Phase::Relaying);
    assert_eq!(connection.authenticated(), Some(true));
    assert!(connection.is_subscribed());
    assert_eq!(bus.subscriber_count(), 1);
    assert!(connection.is_running(LoopKind::StreamReader));
    assert!(connection.is_running(LoopKind::BusListener));
    assert!(connection.is_running(LoopKind::SinkWriter));
    assert_eq!(connection.queued(), 1);
    assert_eq!(
        connection.next_outbound(),
        WriterStep::Write(text("Hello 1.2.3.4:9! Welcome to Relay"))
    );
    assert!(!connection.complete_handshake(&mut bus, true));
    assert_eq!(bus.subscriber_count(), 1);
}

#[test]
fn failed_authentication_is_recorded_and_the_client_is_served() {
    let mut bus = Bus::with_default_capacity();
    let mut connection = Connection::accept("guest", "Relay");
    assert!(connection.complete_handshake(&mut bus, false));
    assert_eq!(connection.authenticated(), Some(false));
    assert_eq!(connection.phase(), Phase::Relaying);
    assert_eq!(connection.next_outbound(), WriterStep::Write(text("Hello guest! Welcome to Relay")));
    assert_eq!(connection.on_socket_event(&mut bus, frame("hi")), ReaderStep::Continue);
    assert_eq!(connection.pump(&mut bus), ListenerStep::Relayed);
}

#[test]
fn undelivered_greeting_closes_the_connection() {
    let mut bus = Bus::with_default_capacity();
    let mut connection = Connection::accept("peer", "server");
    assert_eq!(connection.greeting_sent(false), HandshakeStep::Abort);
    assert_eq!(connection.phase(), Phase::Closed);
    assert!(!connection.complete_handshake(&mut bus, true));
    assert_eq!(connection.phase(), Phase::Closed);
    assert_eq!(bus.subscriber_count(), 0);
    assert_eq!(connection.greeting_sent(true), HandshakeStep::Abort);
}

#[test]
fn no_loop_runs_before_the_handshake_is_done() {
    let mut bus = Bus::with_default_capacity();
    let mut connection = Connection::accept("peer", "server");
    assert_eq!(connection.on_socket_event(&mut bus, frame("early")), ReaderStep::Stop);
    assert_eq!(connection.pump(&mut bus), ListenerStep::Stop);
    assert_eq!(connection.next_outbound(), WriterStep::Stop);
    assert_eq!(connection.settle_ack(), ReaderStep::Stop);
    assert!(!connection.on_write_result(&mut bus, true));
    assert_eq!(connection.offer(text("x")), Err(text("x")));
    assert_eq!(connection.phase(), Phase::Handshaking);
    assert_eq!(bus.published(), 0);
}

#[test]
fn closed_socket_stops_all_three_loops_and_releases_the_subscription() {
    let mut bus = Bus::with_default_capacity();
    let baseline = bus.subscriber_count();
    let mut connection = relaying(&mut bus, "peer");
    let mut witness = relaying(&mut bus, "witness");
    assert_eq!(bus.subscriber_count(), baseline + 2);
    assert_eq!(bus.live_receivers(), baseline + 2);

    assert_eq!(connection.on_socket_event(&mut bus, SocketEvent::EndOfStream), ReaderStep::Stop);
    assert_eq!(connection.phase(), Phase::Closing);
    assert!(!connection.is_subscribed());
    assert_eq!(bus.subscriber_count(), baseline + 1);
    assert_eq!(bus.live_receivers(), baseline + 1);
    assert!(!connection.is_running(LoopKind::StreamReader));
    assert!(connection.is_running(LoopKind::BusListener));
    assert!(connection.is_running(LoopKind::SinkWriter));

    assert_eq!(connection.pump(&mut bus), ListenerStep::Stop);
    assert_eq!(connection.phase(), Phase::Closing);
    assert_eq!(connection.next_outbound(), WriterStep::Stop);
    assert_eq!(connection.phase(), Phase::Closed);

    assert_eq!(witness.on_socket_event(&mut bus, frame("still here")), ReaderStep::Continue);
    assert_eq!(witness.pump(&mut bus), ListenerStep::Relayed);
    assert_eq!(connection.pump(&mut bus), ListenerStep::Stop);
    assert_eq!(bus.publish(text("to the one that is left")), baseline + 1);
    witness.shutdown(&mut bus);
    assert_eq!(bus.subscriber_count(), baseline);
    assert_eq!(bus.live_receivers(), baseline);
}

#[test]
fn end_of_stream_and_failed_read_end_the_reader() {
    for event in [SocketEvent::Failed, SocketEvent::EndOfStream] {
        let mut bus = Bus::with_default_capacity();
        let mut connection = relaying(&mut bus, "peer");
        assert_eq!(connection.on_socket_event(&mut bus, event), ReaderStep::Stop);
        assert_eq!(connection.phase(), Phase::Closing);
        assert!(!connection.is_running(LoopKind::StreamReader));
        assert_eq!(bus.published(), 0);
        assert_eq!(connection.queued(), 0);
        assert_eq!(bus.subscriber_count(), 0);
        assert_eq!(bus.live_receivers(), 0);
    }
}

#[test]
fn reader_passes_over_frames_that_are_not_text() {
    let frames = vec![
        Message::Binary(vec![1, 2, 3]),
        Message::Ping(vec![]),
        Message::Pong(vec![7]),
        Message::Close(None),
    ];
    for other in frames {
        let mut bus = Bus::with_default_capacity();
        let mut connection = relaying(&mut bus, "peer");
        assert_eq!(
            connection.on_socket_event(&mut bus, SocketEvent::Frame(other)),
            ReaderStep::Continue
        );
        assert_eq!(connection.phase(), Phase::Relaying);
        assert!(connection.is_running(LoopKind::StreamReader));
        assert!(connection.is_subscribed());
        assert_eq!(bus.published(), 0);
        assert_eq!(connection.queued(), 0);

        assert_eq!(connection.on_socket_event(&mut bus, frame("x")), ReaderStep::Continue);
        assert_eq!(bus.published(), 1);
        assert_eq!(connection.pump(&mut bus), ListenerStep::Relayed);
        assert_eq!(
            connection.next_outbound(),
            WriterStep::Write(text("Your message has been sent"))
        );
        assert_eq!(connection.next_outbound(), WriterStep::Write(text("x")));
        assert_eq!(connection.next_outbound(), WriterStep::Idle);
    }
}

#[test]
fn empty_text_is_a_text_like_any_other() {
    let mut bus = Bus::with_default_capacity();
    let mut connection = relaying(&mut bus, "peer");
    assert_eq!(connection.on_socket_event(&mut bus, frame("")), ReaderStep::Continue);
    assert_eq!(connection.pump(&mut bus), ListenerStep::Relayed);
    assert_eq!(connection.next_outbound(), WriterStep::Write(text("Your message has been sent")));
    assert_eq!(connection.next_outbound(), WriterStep::Write(text("")));
}

#[test]
fn failed_write_ends_the_writer_and_the_connection() {
    let mut bus = Bus::with_default_capacity();
    let mut connection = relaying(&mut bus, "peer");
    assert!(connection.on_write_result(&mut bus, true));
    assert_eq!(connection.phase(), Phase::Relaying);
    assert!(!connection.on_write_result(&mut bus, false));
    assert_eq!(connection.phase(), Phase::Closing);
    assert!(!connection.is_running(LoopKind::SinkWriter));
    assert!(!connection.is_subscribed());
    assert_eq!(bus.subscriber_count(), 0);
}

#[test]
fn cancelled_connection_is_closed_at_once() {
    let mut bus = Bus::with_default_capacity();
    let mut connection = relaying(&mut bus, "peer");
    connection.loop_exited(&mut bus, LoopKind::BusListener);
    assert_eq!(connection.phase(), Phase::Closing);
    connection.shutdown(&mut bus);
    assert_eq!(connection.phase(), Phase::Closed);
    assert!(!connection.is_running(LoopKind::StreamReader));
    assert!(!connection.is_running(LoopKind::SinkWriter));
    assert_eq!(connection.on_socket_event(&mut bus, frame("late")), ReaderStep::Stop);
    assert_eq!(bus.published(), 0);
}

#[test]
fn closing_connection_is_not_drained() {
    let mut bus = Bus::with_default_capacity();
    let mut connection = relaying(&mut bus, "peer");
    assert_eq!(connection.on_socket_event(&mut bus, frame("one")), ReaderStep::Continue);
    assert_eq!(connection.pump(&mut bus), ListenerStep::Relayed);
    assert_eq!(connection.queued(), 2);
    assert_eq!(connection.on_socket_event(&mut bus, SocketEvent::Failed), ReaderStep::Stop);
    assert_eq!(connection.next_outbound(), WriterStep::Stop);
    assert_eq!(connection.queued(), 2);
}

#[test]
fn full_queue_holds_producers_back_until_the_writer_makes_room() {
    let mut bus = Bus::with_default_capacity();
    let mut connection =
        Connection::accept_with("peer", "server", QueuePolicy::Backpressure, 1).unwrap();
    assert!(connection.complete_handshake(&mut bus, true));
    assert_eq!(connection.queued(), 1);

    assert_eq!(connection.on_socket_event(&mut bus, frame("first")), ReaderStep::Blocked);
    assert_eq!(connection.settle_ack(), ReaderStep::Blocked);
    assert_eq!(connection.pump(&mut bus), ListenerStep::Blocked);
    assert_eq!(connection.pump(&mut bus), ListenerStep::Blocked);
    assert_eq!(connection.queued(), 1);
    assert_eq!(connection.phase(), Phase::Relaying);

    assert_eq!(
        connection.next_outbound(),
        WriterStep::Write(text("Hello peer! Welcome to server"))
    );
    assert_eq!(connection.settle_ack(), ReaderStep::Continue);
    assert_eq!(connection.settle_ack(), ReaderStep::Continue);
    assert_eq!(connection.pump(&mut bus), ListenerStep::Blocked);
    assert_eq!(connection.next_outbound(), WriterStep::Write(text("Your message has been sent")));
    assert_eq!(connection.pump(&mut bus), ListenerStep::Relayed);
    assert_eq!(connection.pump(&mut bus), ListenerStep::Idle);
    assert_eq!(connection.next_outbound(), WriterStep::Write(text("first")));
    assert_eq!(connection.next_outbound(), WriterStep::Idle);
}

#[test]
fn fail_fast_ends_the_connection_on_a_full_queue() {
    let mut bus = Bus::with_default_capacity();
    let mut reader = Connection::accept_with("r", "s", QueuePolicy::FailFast, 1).unwrap();
    assert!(reader.complete_handshake(&mut bus, true));
    assert_eq!(reader.policy(), QueuePolicy::FailFast);
    assert_eq!(reader.on_socket_event(&mut bus, frame("too much")), ReaderStep::Stop);
    assert_eq!(reader.phase(), Phase::Closing);
    assert_eq!(bus.published(), 1);

    let mut listener = Connection::accept_with("l", "s", QueuePolicy::FailFast, 1).unwrap();
    assert!(listener.complete_handshake(&mut bus, true));
    bus.publish(text("news"));
    assert_eq!(listener.pump(&mut bus), ListenerStep::Stop);
    assert_eq!(listener.phase(), Phase::Closing);
    assert!(!listener.is_running(LoopKind::BusListener));
}

#[test]
fn lagging_listener_notes_the_loss_and_goes_on() {
    let mut bus = Bus::new(2).unwrap();
    let mut connection = relaying(&mut bus, "slow");
    for n in ["1", "2", "3", "4", "5"] {
        bus.publish(text(n));
    }
    assert_eq!(connection.pump(&mut bus), ListenerStep::Lagged(3));
    assert_eq!(connection.phase(), Phase::Relaying);
    assert_eq!(connection.pump(&mut bus), ListenerStep::Relayed);
    assert_eq!(connection.pump(&mut bus), ListenerStep::Relayed);
    assert_eq!(connection.pump(&mut bus), ListenerStep::Idle);
    assert_eq!(connection.next_outbound(), WriterStep::Write(text("4")));
    assert_eq!(connection.next_outbound(), WriterStep::Write(text("5")));
}

#[test]
fn listener_lag_is_the_backlog_less_the_capacity() {
    let mut bus = Bus::new(3).unwrap();
    let mut connection = relaying(&mut bus, "slow");
    for n in ["1", "2", "3", "4"] {
        bus.publish(text(n));
    }
    assert_eq!(connection.pump(&mut bus), ListenerStep::Lagged(1));
    assert_eq!(connection.phase(), Phase::Relaying);
    for n in ["2", "3", "4"] {
        assert_eq!(connection.pump(&mut bus), ListenerStep::Relayed);
        assert_eq!(connection.next_outbound(), WriterStep::Write(text(n)));
    }
    assert_eq!(connection.pump(&mut bus), ListenerStep::Idle);
}

#[test]
fn listener_relays_bus_messages_in_publish_order() {
    let mut bus = Bus::with_default_capacity();
    let mut connection = relaying(&mut bus, "peer");
    let sent = ["a", "b", "c"];
    for n in sent {
        bus.publish(text(n));
    }
    for _ in sent {
        assert_eq!(connection.pump(&mut bus), ListenerStep::Relayed);
    }
    for n in sent {
        assert_eq!(connection.next_outbound(), WriterStep::Write(text(n)));
    }
}

#[test]
fn offered_message_is_queued_while_there_is_room() {
    let mut bus = Bus::with_default_capacity();
    let mut connection =
        Connection::accept_with("peer", "server", QueuePolicy::Backpressure, 2).unwrap();
    assert!(connection.complete_handshake(&mut bus, true));
    assert_eq!(connection.offer(text("extra")), Ok(()));
    assert_eq!(connection.offer(text("too many")), Err(text("too many")));
    assert_eq!(connection.queued(), 2);
    assert_eq!(connection.next_outbound(), WriterStep::Write(text("Hello peer! Welcome to server")));
    assert_eq!(connection.next_outbound(), WriterStep::Write(text("extra")));
}

#[test]
fn connection_refuses_a_queue_capacity_it_cannot_have() {
    assert!(Connection::accept_with("p", "s", QueuePolicy::Backpressure, 0).is_none());
    assert!(Connection::accept_with("p", "s", QueuePolicy::FailFast, usize::MAX).is_none());
    let connection = Connection::accept_with("p", "s", QueuePolicy::FailFast, 7).unwrap();
    assert_eq!(connection.queue_capacity(), 7);
}

#[test]
fn queue_of_a_connection_stays_within_its_capacity() {
    let mut bus = Bus::with_default_capacity();
    let mut connection =
        Connection::accept_with("peer", "server", QueuePolicy::Backpressure, 3).unwrap();
    assert!(connection.complete_handshake(&mut bus, true));
    for n in 0..10 {
        connection.on_socket_event(&mut bus, frame(&format!("m{n}")));
        connection.pump(&mut bus);
        assert!(connection.queued() <= 3);
    }
    assert_eq!(connection.queued(), 3);
}
