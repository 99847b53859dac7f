//! One client connection: its handshake, its outbound queue, its
//! subscription to the bus, and the steps of its three loops.
//!
//! A [`Connection`] makes every decision of the relay and performs none of
//! the waiting. Whoever drives it reads the socket, waits for a publish or
//! for room in the queue, and hands each outcome to the step that belongs to
//! it; the step answers what to do next. Each step is proved to follow the
//! model in [`pipeline`](crate::pipeline).
use vstd::prelude::*;
use crate::bus::{after_release, Bus, BusEvent, Subscription, MAX_SUBSCRIBERS};
use crate::message::{Message, MessageView};
use crate::pipeline::{
    ack_view,
    greeting_text,
    welcome_text,
    ConnectionView,
    HandshakeStep,
    ListenerStep,
    LoopKind,
    Phase,
    QueuePolicy,
    ReaderStep,
    SocketEvent,
    WriterStep,
};
use crate::queue::{OutboundQueue, DEFAULT_QUEUE_CAPACITY, MAX_QUEUE_CAPACITY};

verus! {

/// One accepted client.
pub struct Connection {
    peer: String,
    server_name: String,
    policy: QueuePolicy,
    phase: Phase,
    authenticated: Option<bool>,
    reader_running: bool,
    listener_running: bool,
    writer_running: bool,
    queue: OutboundQueue,
    subscription: Option<Subscription>,
    held: Option<Message>,
    acks_owed: usize,
}

impl View for Connection {
    type V = ConnectionView;

    closed spec fn view(&self) -> ConnectionView {
        ConnectionView {
            peer: self.peer@,
            server_name: self.server_name@,
            policy: self.policy,
            phase: self.phase,
            authenticated: self.authenticated,
            reader_running: self.reader_running,
            listener_running: self.listener_running,
            writer_running: self.writer_running,
            queue: self.queue.items(),
            capacity: self.queue.spec_capacity(),
            cursor: match self.subscription {
                Some(subscription) => Some(subscription.cursor()),
                None => None,
            },
            held: match self.held {
                Some(message) => Some(message@),
                None => None,
            },
            acks_owed: self.acks_owed as nat,
        }
    }
}

/// The message that acknowledges a client's text to that client alone.
pub fn ack_message() -> (message: Message)
    ensures
        message@ == ack_view(),
{
    Message::text("Your message has been sent")
}

/// The message that greets a client before it is authenticated.
pub fn greeting_message() -> (message: Message)
    ensures
        message@ == MessageView::Text(greeting_text()),
{
    Message::text("Hello from the server! Working to authenticate the user....")
}

/// The message that welcomes `peer` to the server called `server_name`.
pub fn welcome_message(peer: &str, server_name: &str) -> (message: Message)
    ensures
        message@ == MessageView::Text(welcome_text(peer@, server_name@)),
{
    let mut text = String::from_str("Hello ");
    text.append(peer);
    text.append("! Welcome to ");
    text.append(server_name);
    Message::Text(text)
}

impl Connection {
    /// The invariant of a connection.
    pub closed spec fn wf(&self) -> bool {
        &&& self.queue.wf()
        &&& self@.wf()
    }

    /// The subscription that the connection holds while it relays.
    pub closed spec fn subscription(&self) -> Option<Subscription> {
        self.subscription
    }

    /// Whether the connection's subscription, if it has one, listens to
    /// `bus`.
    pub open spec fn attached(&self, bus: &Bus) -> bool {
        self.subscription() matches Some(subscription) ==> subscription.listens_to(bus)
    }

    /// Whether the connection holds the subscription that it held as
    /// `before`, or has given it up.
    pub open spec fn keeps_subscription(&self, before: &Connection) -> bool {
        self.subscription() is None || self.subscription() == before.subscription()
    }

    /// A connection for the client at `peer`, in the handshake, with the
    /// default queue capacity and backpressure.
    pub fn accept(peer: &str, server_name: &str) -> (connection: Connection)
        ensures
            connection.wf(),
            connection.subscription() is None,
            connection@ == ConnectionView::accepted(
                peer@,
                server_name@,
                QueuePolicy::Backpressure,
                DEFAULT_QUEUE_CAPACITY as nat,
            ),
    {
        let connection = Connection {
            peer: String::from_str(peer),
            server_name: String::from_str(server_name),
            policy: QueuePolicy::Backpressure,
            phase: Phase::Handshaking,
            authenticated: None,
            reader_running: false,
            listener_running: false,
            writer_running: false,
            queue: OutboundQueue::with_default_capacity(),
            subscription: None,
            held: None,
            acks_owed: 0,
        };
        assert(connection@ =~= ConnectionView::accepted(
            peer@,
            server_name@,
            QueuePolicy::Backpressure,
            DEFAULT_QUEUE_CAPACITY as nat,
        ));
        connection
    }

    /// A connection for the client at `peer`, in the handshake, with the
    /// given policy and queue capacity; `None` where the capacity is zero or
    /// above [`MAX_QUEUE_CAPACITY`].
    pub fn accept_with(peer: &str, server_name: &str, policy: QueuePolicy, capacity: usize) -> (
        connection: Option<Connection>
    )
        ensures
            connection is Some <==> 0 < capacity <= MAX_QUEUE_CAPACITY,
            connection matches Some(c) ==> {
                &&& c.wf()
                &&& c.subscription() is None
                &&& c@ == ConnectionView::accepted(peer@, server_name@, policy, capacity as nat)
            },
    {
        match OutboundQueue::new(capacity) {
            Some(queue) => {
                let connection = Connection {
                    peer: String::from_str(peer),
                    server_name: String::from_str(server_name),
                    policy,
                    phase: Phase::Handshaking,
                    authenticated: None,
                    reader_running: false,
                    listener_running: false,
                    writer_running: false,
                    queue,
                    subscription: None,
                    held: None,
                    acks_owed: 0,
                };
                assert(connection@ =~= ConnectionView::accepted(
                    peer@,
                    server_name@,
                    policy,
                    capacity as nat,
                ));
                Some(connection)
            },
            None => None,
        }
    }

    /// Whether `after` is what `before` becomes by a step that took this
    /// connection from `earlier` to where it is: the same bus, which counts
    /// one subscription less if the step gave this connection's
    /// subscription up, and as many as before if not.
    pub open spec fn bus_follows(&self, earlier: &Connection, before: &Bus, after: &Bus) -> bool {
        &&& before.grows_into(after)
        &&& after.spec_capacity() == before.spec_capacity()
        &&& after.spec_subscribers() == if earlier@.cursor is Some && self@.cursor is None {
            after_release(before.spec_subscribers())
        } else {
            before.spec_subscribers()
        }
        &&& forall|other: Subscription| #[trigger]
            other.listens_to(after) <== other.listens_to(before)
    }

    /// Ends the loop `kind`, as [`ConnectionView::stop_loop`] says, and
    /// hands the subscription back to the bus if the connection held one.
    fn stop_loop(&mut self, bus: &mut Bus, kind: LoopKind)
        requires
            old(self).wf(),
            old(bus).wf(),
            old(self).attached(old(bus)),
        ensures
            final(self).wf(),
            final(bus).wf(),
            final(self).attached(final(bus)),
            final(self).keeps_subscription(old(self)),
            final(self)@ == old(self)@.stop_loop(kind),
            final(bus).log() == old(bus).log(),
            final(self).bus_follows(old(self), old(bus), final(bus)),
    {
        proof {
            crate::bus::lemma_grows_into_itself(bus);
        }
        match self.phase {
            Phase::Relaying | Phase::Closing => {
                match kind {
                    LoopKind::SinkWriter => {
                        self.writer_running = false;
                    },
                    LoopKind::BusListener => {
                        self.listener_running = false;
                    },
                    LoopKind::StreamReader => {
                        self.reader_running = false;
                    },
                }
                match self.subscription.take() {
                    Some(subscription) => {
                        bus.release(subscription);
                    },
                    None => {},
                }
                self.held = None;
                self.acks_owed = 0;
                if self.reader_running || self.listener_running || self.writer_running {
                    self.phase = Phase::Closing;
                } else {
                    self.phase = Phase::Closed;
                }
            },
            _ => {},
        }
        assert(self@ =~= old(self)@.stop_loop(kind));
    }

    /// Ends the loop `kind` of a connection that does not relay, and so
    /// holds no subscription, as [`ConnectionView::stop_loop`] says.
    fn stop_idle_loop(&mut self, kind: LoopKind)
        requires
            old(self).wf(),
            !(old(self)@.phase is Relaying),
        ensures
            final(self).wf(),
            final(self).subscription() is None,
            final(self)@ == old(self)@.stop_loop(kind),
    {
        match self.phase {
            Phase::Closing => {
                match kind {
                    LoopKind::SinkWriter => {
                        self.writer_running = false;
                    },
                    LoopKind::BusListener => {
                        self.listener_running = false;
                    },
                    LoopKind::StreamReader => {
                        self.reader_running = false;
                    },
                }
                if self.reader_running || self.listener_running || self.writer_running {
                    self.phase = Phase::Closing;
                } else {
                    self.phase = Phase::Closed;
                }
            },
            _ => {},
        }
        assert(self@ =~= old(self)@.stop_loop(kind));
    }

    /// Tells the handshake whether the greeting reached the client. A
    /// greeting that could not be sent closes the connection.
    pub fn greeting_sent(&mut self, delivered: bool) -> (step: HandshakeStep)
        requires
            old(self).wf(),
        ensures
            final(self).wf(),
            final(self).keeps_subscription(old(self)),
            final(self)@ == old(self)@.greeting_sent(delivered).0,
            step == old(self)@.greeting_sent(delivered).1,
    {
        match self.phase {
            Phase::Handshaking => {
                if delivered {
                    HandshakeStep::Authenticate
                } else {
                    self.phase = Phase::Closed;
                    assert(self@ =~= old(self)@.shut_down());
                    HandshakeStep::Abort
                }
            },
            _ => HandshakeStep::Abort,
        }
    }

    /// Completes the handshake once the authentication hook has answered.
    ///
    /// The connection subscribes to `bus`, puts the welcome on its outbound
    /// queue and starts relaying. The hook's answer is recorded and does not
    /// decide anything: a client that failed authentication is served like
    /// any other. Returns whether the pipeline started, which it does
    /// exactly when the connection was in the handshake.
    ///
    /// The bus must have room for one subscription more.
    pub fn complete_handshake(&mut self, bus: &mut Bus, authenticated: bool) -> (started: bool)
        requires
            old(self).wf(),
            old(bus).wf(),
            old(self).attached(old(bus)),
            old(bus).spec_subscribers() < MAX_SUBSCRIBERS,
        ensures
            final(self).wf(),
            final(bus).wf(),
            final(self).attached(final(bus)),
            final(self)@ == old(self)@.handshake_completed(authenticated, old(bus).log().len()).0,
            started == old(self)@.handshake_completed(authenticated, old(bus).log().len()).1,
            final(bus).log() == old(bus).log(),
            old(bus).grows_into(final(bus)),
            final(bus).spec_capacity() == old(bus).spec_capacity(),
            final(bus).spec_subscribers() == if started {
                old(bus).spec_subscribers() + 1
            } else {
                old(bus).spec_subscribers()
            },
            forall|other: Subscription| #[trigger]
                other.listens_to(final(bus)) <== other.listens_to(old(bus)),
    {
        proof {
            crate::bus::lemma_grows_into_itself(bus);
        }
        match self.phase {
            Phase::Handshaking => {
                let welcome = welcome_message(self.peer.as_str(), self.server_name.as_str());
                let outcome = self.queue.try_enqueue(welcome);
                assert(outcome is Ok);
                self.subscription = Some(bus.subscribe());
                self.authenticated = Some(authenticated);
                self.reader_running = true;
                self.listener_running = true;
                self.writer_running = true;
                self.phase = Phase::Relaying;
                assert(self@ =~= old(self)@.handshake_completed(
                    authenticated,
                    old(bus).log().len(),
                ).0);
                true
            },
            _ => false,
        }
    }

    /// The reader tries to enqueue an acknowledgment that it owes. Call it
    /// after [`ReaderStep::Blocked`], once the queue may have room again.
    pub fn settle_ack(&mut self) -> (step: ReaderStep)
        requires
            old(self).wf(),
        ensures
            final(self).wf(),
            final(self).keeps_subscription(old(self)),
            final(self)@.cursor == old(self)@.cursor,
            final(self)@ == old(self)@.settle().0,
            step == old(self)@.settle().1,
    {
        if !(self.phase == Phase::Relaying && self.reader_running) {
            self.stop_idle_loop(LoopKind::StreamReader);
            return ReaderStep::Stop;
        }
        if self.acks_owed == 0 {
            return ReaderStep::Continue;
        }
        match self.queue.try_enqueue(ack_message()) {
            Ok(()) => {
                self.acks_owed = self.acks_owed - 1;
                assert(self@ =~= old(self)@.settle().0);
                if self.acks_owed == 0 {
                    ReaderStep::Continue
                } else {
                    ReaderStep::Blocked
                }
            },
            Err(_) => {
                assert(self@ =~= old(self)@);
                ReaderStep::Blocked
            },
        }
    }

    /// The stream reader's step on what the socket gave.
    ///
    /// A text message is published on `bus`, for every connection and this
    /// one too, and an acknowledgment is put on this connection's own
    /// queue. A frame that is not text is passed over, and the reader reads
    /// on. The end of the stream and a failed read end the reader, and so
    /// does a full queue where the acknowledgment cannot wait for room.
    pub fn on_socket_event(&mut self, bus: &mut Bus, event: SocketEvent) -> (step: ReaderStep)
        requires
            old(self).wf(),
            old(bus).wf(),
            old(self).attached(old(bus)),
        ensures
            final(self).wf(),
            final(bus).wf(),
            final(self).attached(final(bus)),
            final(self).keeps_subscription(old(self)),
            final(self).bus_follows(old(self), old(bus), final(bus)),
            final(bus).log() == old(self)@.log_after_read(event@, old(bus).log()),
            final(self)@ == old(self)@.read(event@).0,
            step == old(self)@.read(event@).1,
    {
        proof {
            crate::bus::lemma_grows_into_itself(bus);
        }
        if !(self.phase == Phase::Relaying && self.reader_running) {
            self.stop_loop(bus, LoopKind::StreamReader);
            return ReaderStep::Stop;
        }
        let message = match event {
            SocketEvent::Frame(message) => message,
            SocketEvent::Failed | SocketEvent::EndOfStream => {
                self.stop_loop(bus, LoopKind::StreamReader);
                return ReaderStep::Stop;
            },
        };
        let text = match message {
            Message::Text(text) => text,
            _ => {
                return ReaderStep::Continue;
            },
        };
        match &self.subscription {
            Some(subscription) => {
                subscription.publish(bus, Message::Text(text));
            },
            None => {},
        }
        let ghost published = *bus;
        match self.queue.try_enqueue(ack_message()) {
            Ok(()) => {
                assert(self@ =~= old(self)@.read(event@).0);
                if self.acks_owed == 0 {
                    ReaderStep::Continue
                } else {
                    ReaderStep::Blocked
                }
            },
            Err(_) => {
                if self.policy == QueuePolicy::Backpressure && self.acks_owed < usize::MAX {
                    self.acks_owed = self.acks_owed + 1;
                    assert(self@ =~= old(self)@.read(event@).0);
                    ReaderStep::Blocked
                } else {
                    self.stop_loop(bus, LoopKind::StreamReader);
                    proof {
                        crate::bus::lemma_growth_goes_on(old(bus), &published, bus);
                    }
                    ReaderStep::Stop
                }
            },
        }
    }

    /// The listener puts `message`, which it took from the bus, on the
    /// outbound queue, or deals with a full queue as the policy says.
    fn relay(&mut self, bus: &mut Bus, message: Message) -> (step: ListenerStep)
        requires
            old(self).wf(),
            old(bus).wf(),
            old(self).attached(old(bus)),
            old(self)@.active(LoopKind::BusListener),
            old(self).held is None,
        ensures
            final(self).wf(),
            final(bus).wf(),
            final(self).attached(final(bus)),
            final(self).keeps_subscription(old(self)),
            final(self).bus_follows(old(self), old(bus), final(bus)),
            final(bus).log() == old(bus).log(),
            final(self)@ == old(self)@.relay(message@).0,
            step@ == old(self)@.relay(message@).1,
    {
        proof {
            crate::bus::lemma_grows_into_itself(bus);
        }
        match self.queue.try_enqueue(message) {
            Ok(()) => {
                assert(self@ =~= old(self)@.relay(message@).0);
                ListenerStep::Relayed
            },
            Err(back) => {
                match self.policy {
                    QueuePolicy::Backpressure => {
                        self.held = Some(back);
                        assert(self@ =~= old(self)@.relay(message@).0);
                        ListenerStep::Blocked
                    },
                    QueuePolicy::FailFast => {
                        self.stop_loop(bus, LoopKind::BusListener);
                        ListenerStep::Stop
                    },
                }
            },
        }
    }

    /// The bus listener's step: one message from the bus to the outbound
    /// queue, if there is one and there is room.
    pub fn pump(&mut self, bus: &mut Bus) -> (step: ListenerStep)
        requires
            old(self).wf(),
            old(bus).wf(),
            old(self).attached(old(bus)),
        ensures
            final(self).wf(),
            final(bus).wf(),
            final(self).attached(final(bus)),
            final(self).bus_follows(old(self), old(bus), final(bus)),
            final(bus).log() == old(bus).log(),
            final(self)@ == old(self)@.pump(old(bus).log(), old(bus).spec_capacity()).0,
            step@ == old(self)@.pump(old(bus).log(), old(bus).spec_capacity()).1,
    {
        proof {
            crate::bus::lemma_grows_into_itself(bus);
        }
        if !(self.phase == Phase::Relaying && self.listener_running) {
            self.stop_loop(bus, LoopKind::BusListener);
            return ListenerStep::Stop;
        }
        let held = self.held.take();
        let event = match held {
            Some(message) => BusEvent::Message(message),
            None => match &mut self.subscription {
                Some(subscription) => subscription.poll(bus),
                None => BusEvent::Closed,
            },
        };
        match event {
            BusEvent::Message(message) => self.relay(bus, message),
            BusEvent::Lagged(missed) => ListenerStep::Lagged(missed),
            BusEvent::Idle => ListenerStep::Idle,
            BusEvent::Closed => {
                self.stop_loop(bus, LoopKind::BusListener);
                ListenerStep::Stop
            },
        }
    }

    /// The sink writer's step: the next message to write to the client.
    pub fn next_outbound(&mut self) -> (step: WriterStep)
        requires
            old(self).wf(),
        ensures
            final(self).wf(),
            final(self).keeps_subscription(old(self)),
            final(self)@.cursor == old(self)@.cursor,
            final(self)@ == old(self)@.next_outbound().0,
            step@ == old(self)@.next_outbound().1,
    {
        if !(self.phase == Phase::Relaying && self.writer_running) {
            self.stop_idle_loop(LoopKind::SinkWriter);
            return WriterStep::Stop;
        }
        match self.queue.dequeue() {
            Some(message) => {
                assert(self@ =~= old(self)@.next_outbound().0);
                WriterStep::Write(message)
            },
            None => {
                assert(self@ =~= old(self)@);
                WriterStep::Idle
            },
        }
    }

    /// Tells the sink writer whether the client took the message. A failed
    /// write ends the writer. Returns whether the writer goes on.
    pub fn on_write_result(&mut self, bus: &mut Bus, delivered: bool) -> (goes_on: bool)
        requires
            old(self).wf(),
            old(bus).wf(),
            old(self).attached(old(bus)),
        ensures
            final(self).wf(),
            final(bus).wf(),
            final(self).attached(final(bus)),
            final(self).keeps_subscription(old(self)),
            final(self).bus_follows(old(self), old(bus), final(bus)),
            final(bus).log() == old(bus).log(),
            final(self)@ == old(self)@.written(delivered).0,
            goes_on == old(self)@.written(delivered).1,
    {
        proof {
            crate::bus::lemma_grows_into_itself(bus);
        }
        if self.phase == Phase::Relaying && self.writer_running && delivered {
            true
        } else {
            self.stop_loop(bus, LoopKind::SinkWriter);
            false
        }
    }

    /// Puts a message from any other producer on the outbound queue. The
    /// message comes back where the connection does not relay or the queue
    /// is full.
    pub fn offer(&mut self, message: Message) -> (outcome: Result<(), Message>)
        requires
            old(self).wf(),
        ensures
            final(self).wf(),
            final(self).keeps_subscription(old(self)),
            final(self)@.cursor == old(self)@.cursor,
            final(self)@ == old(self)@.offer(message@).0,
            outcome is Ok == old(self)@.offer(message@).1,
            outcome matches Err(back) ==> back@ == message@,
    {
        if !(self.phase == Phase::Relaying) {
            return Err(message);
        }
        let outcome = self.queue.try_enqueue(message);
        assert(self@ =~= old(self)@.offer(message@).0);
        outcome
    }

    /// Records that the loop `kind` has ended, for whatever reason. The
    /// first loop to end takes the connection out of `Relaying` and hands
    /// its subscription back to the bus.
    pub fn loop_exited(&mut self, bus: &mut Bus, kind: LoopKind)
        requires
            old(self).wf(),
            old(bus).wf(),
            old(self).attached(old(bus)),
        ensures
            final(self).wf(),
            final(bus).wf(),
            final(self).attached(final(bus)),
            final(self).keeps_subscription(old(self)),
            final(self).bus_follows(old(self), old(bus), final(bus)),
            final(bus).log() == old(bus).log(),
            final(self)@ == old(self)@.stop_loop(kind),
    {
        self.stop_loop(bus, kind);
    }

    /// Cancels every loop and hands the subscription back to the bus: the
    /// connection is closed for good.
    pub fn shutdown(&mut self, bus: &mut Bus)
        requires
            old(self).wf(),
            old(bus).wf(),
            old(self).attached(old(bus)),
        ensures
            final(self).wf(),
            final(bus).wf(),
            final(self).attached(final(bus)),
            final(self).keeps_subscription(old(self)),
            final(self).bus_follows(old(self), old(bus), final(bus)),
            final(bus).log() == old(bus).log(),
            final(self)@ == old(self)@.shut_down(),
    {
        proof {
            crate::bus::lemma_grows_into_itself(bus);
        }
        self.phase = Phase::Closed;
        self.reader_running = false;
        self.listener_running = false;
        self.writer_running = false;
        match self.subscription.take() {
            Some(subscription) => {
                bus.release(subscription);
            },
            None => {},
        }
        self.held = None;
        self.acks_owed = 0;
        assert(self@ =~= old(self)@.shut_down());
    }

    /// The state of the connection.
    pub fn phase(&self) -> (phase: Phase)
        ensures
            phase == self@.phase,
    {
        self.phase
    }

    /// What producers do when the outbound queue is full.
    pub fn policy(&self) -> (policy: QueuePolicy)
        ensures
            policy == self@.policy,
    {
        self.policy
    }

    /// The client's address, as text.
    pub fn peer(&self) -> (peer: &str)
        ensures
            peer@ == self@.peer,
    {
        self.peer.as_str()
    }

    /// The name under which the server welcomes the client.
    pub fn server_name(&self) -> (server_name: &str)
        ensures
            server_name@ == self@.server_name,
    {
        self.server_name.as_str()
    }

    /// What the authentication hook said, once it has run.
    pub fn authenticated(&self) -> (authenticated: Option<bool>)
        ensures
            authenticated == self@.authenticated,
    {
        self.authenticated
    }

    /// Whether the loop `kind` runs.
    pub fn is_running(&self, kind: LoopKind) -> (running: bool)
        ensures
            running == self@.runs(kind),
    {
        match kind {
            LoopKind::SinkWriter => self.writer_running,
            LoopKind::BusListener => self.listener_running,
            LoopKind::StreamReader => self.reader_running,
        }
    }

    /// How many messages wait in the outbound queue.
    pub fn queued(&self) -> (queued: usize)
        requires
            self.wf(),
        ensures
            queued == self@.queue.len(),
    {
        self.queue.len()
    }

    /// The most messages that the outbound queue holds.
    pub fn queue_capacity(&self) -> (capacity: usize)
        ensures
            capacity == self@.capacity,
    {
        self.queue.capacity()
    }

    /// Whether the connection holds a subscription to the bus.
    pub fn is_subscribed(&self) -> (subscribed: bool)
        ensures
            subscribed == (self@.cursor is Some),
    {
        self.subscription.is_some()
    }
}

/// What the invariant of a connection says of its state: the state is one
/// that the model allows, the outbound queue holds no more than its
/// capacity, and the subscription has not run past the log of the bus that
/// the connection is attached to.
pub proof fn lemma_connection_keeps_to_the_model(connection: &Connection, bus: &Bus)
    requires
        connection.wf(),
        connection.attached(bus),
    ensures
        connection@.wf(),
        connection@.queue.len() <= connection@.capacity,
        connection@.cursor == match connection.subscription() {
            Some(subscription) => Some(subscription.cursor()),
            None => None,
        },
        connection@.cursor matches Some(cursor) ==> cursor <= bus.log().len(),
{
    if connection.subscription is Some {
        crate::bus::lemma_cursor_within_log(&connection.subscription->0, bus);
    }
}

} // verus!
