//! The relay pipeline of one connection, as a mathematical model.
//!
//! A connection goes through `Handshaking`, `Relaying`, `Closing` and
//! `Closed`. While it relays, three loops run side by side: the stream
//! reader, the bus listener and the sink writer. This file says, for every
//! state and every event, what the next state is and what the loop that
//! asked is told to do. [`Connection`](crate::connection::Connection) is the
//! executable form, and each of its steps is proved to follow this model.
use vstd::prelude::*;
use crate::bus::{next_cursor, next_event, BusEventView};
use crate::message::{Message, MessageView};

verus! {

/// The states of a connection.
#[derive(Clone, Copy, Debug, PartialEq, Eq, Structural)]
pub enum Phase {
    /// The client is being greeted and authenticated; no loop runs yet.
    Handshaking,
    /// The three loops run.
    Relaying,
    /// One loop has ended and the others are being cancelled.
    Closing,
    /// Every loop has ended and the subscription is released.
    Closed,
}

/// What a producer does when the outbound queue is full.
#[derive(Clone, Copy, Debug, PartialEq, Eq, Structural)]
pub enum QueuePolicy {
    /// The producer keeps its message and waits for room.
    Backpressure,
    /// The producer ends, and the connection with it.
    FailFast,
}

/// The three loops of a relaying connection.
#[derive(Clone, Copy, Debug, PartialEq, Eq, Structural)]
pub enum LoopKind {
    /// Takes messages from the outbound queue and writes them to the client.
    SinkWriter,
    /// Takes messages from the bus and puts them on the outbound queue.
    BusListener,
    /// Takes messages from the client and publishes them on the bus.
    StreamReader,
}

/// What one read of the client socket yields.
#[derive(Clone, Debug, PartialEq, Eq)]
pub enum SocketEvent {
    /// A message from the client.
    Frame(Message),
    /// The read failed.
    Failed,
    /// The client closed the stream.
    EndOfStream,
}

/// The mathematical value of a [`SocketEvent`].
pub enum SocketEventView {
    Frame(MessageView),
    Failed,
    EndOfStream,
}

impl View for SocketEvent {
    type V = SocketEventView;

    open spec fn view(&self) -> SocketEventView {
        match self {
            SocketEvent::Frame(message) => SocketEventView::Frame(message@),
            SocketEvent::Failed => SocketEventView::Failed,
            SocketEvent::EndOfStream => SocketEventView::EndOfStream,
        }
    }
}

/// What the handshake does after the greeting went out.
#[derive(Clone, Copy, Debug, PartialEq, Eq, Structural)]
pub enum HandshakeStep {
    /// Run the authentication hook, then complete the handshake.
    Authenticate,
    /// Give the connection up.
    Abort,
}

/// What the stream reader does next.
#[derive(Clone, Copy, Debug, PartialEq, Eq, Structural)]
pub enum ReaderStep {
    /// Read the next message from the client.
    Continue,
    /// An acknowledgment waits for room in the outbound queue: settle it
    /// before reading on.
    Blocked,
    /// End the loop.
    Stop,
}

/// What the bus listener does next.
#[derive(Clone, Copy, Debug, PartialEq, Eq, Structural)]
pub enum ListenerStep {
    /// A message went from the bus to the outbound queue; go on.
    Relayed,
    /// The subscription fell behind by this many messages, which are lost;
    /// note it and go on.
    Lagged(u64),
    /// The bus has nothing new: wait for the next publish.
    Idle,
    /// A message waits for room in the outbound queue: wait for the writer.
    Blocked,
    /// End the loop.
    Stop,
}

/// The mathematical value of a [`ListenerStep`].
pub enum ListenerStepView {
    Relayed,
    Lagged(nat),
    Idle,
    Blocked,
    Stop,
}

impl View for ListenerStep {
    type V = ListenerStepView;

    open spec fn view(&self) -> ListenerStepView {
        match self {
            ListenerStep::Relayed => ListenerStepView::Relayed,
            ListenerStep::Lagged(missed) => ListenerStepView::Lagged(*missed as nat),
            ListenerStep::Idle => ListenerStepView::Idle,
            ListenerStep::Blocked => ListenerStepView::Blocked,
            ListenerStep::Stop => ListenerStepView::Stop,
        }
    }
}

/// What the sink writer does next.
#[derive(Clone, Debug, PartialEq, Eq)]
pub enum WriterStep {
    /// Write this message to the client.
    Write(Message),
    /// The outbound queue is empty: wait for a producer.
    Idle,
    /// End the loop.
    Stop,
}

/// The mathematical value of a [`WriterStep`].
pub enum WriterStepView {
    Write(MessageView),
    Idle,
    Stop,
}

impl View for WriterStep {
    type V = WriterStepView;

    open spec fn view(&self) -> WriterStepView {
        match self {
            WriterStep::Write(message) => WriterStepView::Write(message@),
            WriterStep::Idle => WriterStepView::Idle,
            WriterStep::Stop => WriterStepView::Stop,
        }
    }
}

/// The text that acknowledges a client's message to that client alone.
pub open spec fn ack_text() -> Seq<char> {
    "Your message has been sent"@
}

/// The acknowledgment as a message.
pub open spec fn ack_view() -> MessageView {
    MessageView::Text(ack_text())
}

/// The text that greets a client before it is authenticated.
pub open spec fn greeting_text() -> Seq<char> {
    "Hello from the server! Working to authenticate the user...."@
}

/// The text that welcomes `peer` to the server called `server_name`.
pub open spec fn welcome_text(peer: Seq<char>, server_name: Seq<char>) -> Seq<char> {
    "Hello "@ + peer + "! Welcome to "@ + server_name
}

/// The state of one connection.
#[verifier::ext_equal]
pub struct ConnectionView {
    /// The client's address, as text.
    pub peer: Seq<char>,
    /// The name under which the server welcomes the client.
    pub server_name: Seq<char>,
    /// What producers do when the outbound queue is full.
    pub policy: QueuePolicy,
    pub phase: Phase,
    /// What the authentication hook said, once it has run.
    pub authenticated: Option<bool>,
    pub reader_running: bool,
    pub listener_running: bool,
    pub writer_running: bool,
    /// The outbound queue, oldest message first.
    pub queue: Seq<MessageView>,
    /// The most messages that the outbound queue holds.
    pub capacity: nat,
    /// Where the subscription stands in the bus's log, while there is one.
    pub cursor: Option<nat>,
    /// A message that the listener took from the bus and found no room for.
    pub held: Option<MessageView>,
    /// How many acknowledgments the reader has yet to enqueue.
    pub acks_owed: nat,
}

impl ConnectionView {
    /// The state of a connection that was just accepted.
    pub open spec fn accepted(
        peer: Seq<char>,
        server_name: Seq<char>,
        policy: QueuePolicy,
        capacity: nat,
    ) -> ConnectionView {
        ConnectionView {
            peer,
            server_name,
            policy,
            phase: Phase::Handshaking,
            authenticated: None,
            reader_running: false,
            listener_running: false,
            writer_running: false,
            queue: Seq::empty(),
            capacity,
            cursor: None,
            held: None,
            acks_owed: 0,
        }
    }

    /// Whether the loop `kind` runs.
    pub open spec fn runs(self, kind: LoopKind) -> bool {
        match kind {
            LoopKind::SinkWriter => self.writer_running,
            LoopKind::BusListener => self.listener_running,
            LoopKind::StreamReader => self.reader_running,
        }
    }

    /// Whether any loop runs.
    pub open spec fn any_running(self) -> bool {
        self.reader_running || self.listener_running || self.writer_running
    }

    /// Whether the loop `kind` may take a step: the connection relays and
    /// the loop has not ended.
    pub open spec fn active(self, kind: LoopKind) -> bool {
        self.phase is Relaying && self.runs(kind)
    }

    /// Whether the outbound queue has room for one more message.
    pub open spec fn has_room(self) -> bool {
        self.queue.len() < self.capacity
    }

    /// The invariant of a connection.
    pub open spec fn wf(self) -> bool {
        &&& 0 < self.capacity
        &&& self.queue.len() <= self.capacity
        &&& match self.phase {
            Phase::Handshaking => {
                &&& !self.any_running()
                &&& self.queue.len() == 0
                &&& self.authenticated is None
            },
            Phase::Relaying => {
                &&& self.reader_running
                &&& self.listener_running
                &&& self.writer_running
            },
            Phase::Closing => {
                &&& self.any_running()
                &&& !(self.reader_running && self.listener_running && self.writer_running)
            },
            Phase::Closed => !self.any_running(),
        }
        &&& self.cursor is Some <==> self.phase is Relaying
        &&& !(self.phase is Relaying) ==> self.held is None && self.acks_owed == 0
        &&& self.policy is FailFast ==> self.held is None && self.acks_owed == 0
    }

    /// The state after the loop `kind` has ended.
    ///
    /// The first loop to end takes the connection to `Closing`: the
    /// subscription is released at once and whatever a producer still held
    /// is discarded. When the last loop has ended the connection is
    /// `Closed`. The outbound queue is left as it is; nobody drains it.
    pub open spec fn stop_loop(self, kind: LoopKind) -> ConnectionView {
        if self.phase is Relaying || self.phase is Closing {
            let stopped = ConnectionView {
                reader_running: self.reader_running && !(kind is StreamReader),
                listener_running: self.listener_running && !(kind is BusListener),
                writer_running: self.writer_running && !(kind is SinkWriter),
                cursor: None,
                held: None,
                acks_owed: 0,
                ..self
            };
            ConnectionView {
                phase: if stopped.any_running() {
                    Phase::Closing
                } else {
                    Phase::Closed
                },
                ..stopped
            }
        } else {
            self
        }
    }

    /// The state after every loop was cancelled.
    pub open spec fn shut_down(self) -> ConnectionView {
        ConnectionView {
            phase: Phase::Closed,
            reader_running: false,
            listener_running: false,
            writer_running: false,
            cursor: None,
            held: None,
            acks_owed: 0,
            ..self
        }
    }

    /// The handshake after the greeting was sent, or could not be sent.
    pub open spec fn greeting_sent(self, delivered: bool) -> (ConnectionView, HandshakeStep) {
        if self.phase is Handshaking && delivered {
            (self, HandshakeStep::Authenticate)
        } else if self.phase is Handshaking {
            (self.shut_down(), HandshakeStep::Abort)
        } else {
            (self, HandshakeStep::Abort)
        }
    }

    /// The end of the handshake, on a bus that has published `published`
    /// messages: the connection subscribes at the tail of the log, puts the
    /// welcome on its outbound queue and starts its three loops, whatever
    /// the authentication hook said. In any other phase nothing happens.
    pub open spec fn handshake_completed(self, authenticated: bool, published: nat) -> (
        ConnectionView,
        bool,
    ) {
        if self.phase is Handshaking {
            (
                ConnectionView {
                    phase: Phase::Relaying,
                    authenticated: Some(authenticated),
                    reader_running: true,
                    listener_running: true,
                    writer_running: true,
                    queue: self.queue.push(
                        MessageView::Text(welcome_text(self.peer, self.server_name)),
                    ),
                    cursor: Some(published),
                    ..self
                },
                true,
            )
        } else {
            (self, false)
        }
    }

    /// The reader tries to enqueue one of the acknowledgments it owes.
    pub open spec fn settle(self) -> (ConnectionView, ReaderStep) {
        if !self.active(LoopKind::StreamReader) {
            (self.stop_loop(LoopKind::StreamReader), ReaderStep::Stop)
        } else if self.acks_owed == 0 {
            (self, ReaderStep::Continue)
        } else if self.has_room() {
            (
                ConnectionView {
                    queue: self.queue.push(ack_view()),
                    acks_owed: (self.acks_owed - 1) as nat,
                    ..self
                },
                if self.acks_owed == 1 {
                    ReaderStep::Continue
                } else {
                    ReaderStep::Blocked
                },
            )
        } else if self.policy is Backpressure {
            (self, ReaderStep::Blocked)
        } else {
            (self.stop_loop(LoopKind::StreamReader), ReaderStep::Stop)
        }
    }

    /// Whether the reader takes `event` up: it is active, and the event is
    /// a text message.
    pub open spec fn reads(self, event: SocketEventView) -> bool {
        &&& self.active(LoopKind::StreamReader)
        &&& event is Frame
        &&& event->Frame_0 is Text
    }

    /// Whether `event` ends the stream: the read failed, or the client
    /// closed the stream.
    pub open spec fn ends_stream(event: SocketEventView) -> bool {
        event is Failed || event is EndOfStream
    }

    /// What the bus's log is after the reader handled `event`: a text
    /// message is published, unless the log is full; nothing else is.
    pub open spec fn log_after_read(self, event: SocketEventView, log: Seq<MessageView>) -> Seq<
        MessageView,
    > {
        if self.reads(event) && log.len() < u64::MAX {
            log.push(event->Frame_0)
        } else {
            log
        }
    }

    /// The reader's step on `event`.
    ///
    /// A text message is published on the bus and the reader owes its
    /// client an acknowledgment, which goes on the outbound queue at once
    /// if there is room. A frame that is not text is passed over: nothing
    /// is published, nothing is acknowledged, and the reader reads on. Only
    /// the end of the stream and a failed read end the loop, and a full
    /// queue where the acknowledgment cannot wait: under fail-fast, and
    /// where `usize::MAX` acknowledgments are owed already.
    pub open spec fn read(self, event: SocketEventView) -> (ConnectionView, ReaderStep) {
        if !self.active(LoopKind::StreamReader) || Self::ends_stream(event) {
            (self.stop_loop(LoopKind::StreamReader), ReaderStep::Stop)
        } else if !(event->Frame_0 is Text) {
            (self, ReaderStep::Continue)
        } else if self.has_room() {
            (
                ConnectionView { queue: self.queue.push(ack_view()), ..self },
                if self.acks_owed == 0 {
                    ReaderStep::Continue
                } else {
                    ReaderStep::Blocked
                },
            )
        } else if self.policy is Backpressure && self.acks_owed < usize::MAX {
            (ConnectionView { acks_owed: self.acks_owed + 1, ..self }, ReaderStep::Blocked)
        } else {
            (self.stop_loop(LoopKind::StreamReader), ReaderStep::Stop)
        }
    }

    /// The listener tries to enqueue `message`, which it has taken from the
    /// bus.
    pub open spec fn relay(self, message: MessageView) -> (ConnectionView, ListenerStepView) {
        if self.has_room() {
            (
                ConnectionView { queue: self.queue.push(message), held: None, ..self },
                ListenerStepView::Relayed,
            )
        } else if self.policy is Backpressure {
            (ConnectionView { held: Some(message), ..self }, ListenerStepView::Blocked)
        } else {
            (self.stop_loop(LoopKind::BusListener), ListenerStepView::Stop)
        }
    }

    /// The listener's step on a bus of this capacity with this `log`.
    ///
    /// A message that was held back goes first. Otherwise the listener
    /// reads its subscription: a message goes to the outbound queue, a lag
    /// is reported and survived, an idle bus is waited for.
    pub open spec fn pump(self, log: Seq<MessageView>, bus_capacity: nat) -> (
        ConnectionView,
        ListenerStepView,
    ) {
        if !self.active(LoopKind::BusListener) || self.cursor is None {
            (self.stop_loop(LoopKind::BusListener), ListenerStepView::Stop)
        } else if let Some(message) = self.held {
            self.relay(message)
        } else {
            let cursor = self.cursor->0;
            let moved = ConnectionView {
                cursor: Some(next_cursor(log, bus_capacity, cursor)),
                ..self
            };
            match next_event(log, bus_capacity, cursor) {
                BusEventView::Message(message) => moved.relay(message),
                BusEventView::Lagged(missed) => (moved, ListenerStepView::Lagged(missed)),
                BusEventView::Idle => (self, ListenerStepView::Idle),
                BusEventView::Closed => (
                    self.stop_loop(LoopKind::BusListener),
                    ListenerStepView::Stop,
                ),
            }
        }
    }

    /// The writer's step: the oldest message of the outbound queue, if
    /// there is one.
    pub open spec fn next_outbound(self) -> (ConnectionView, WriterStepView) {
        if !self.active(LoopKind::SinkWriter) {
            (self.stop_loop(LoopKind::SinkWriter), WriterStepView::Stop)
        } else if self.queue.len() > 0 {
            (
                ConnectionView { queue: self.queue.drop_first(), ..self },
                WriterStepView::Write(self.queue[0]),
            )
        } else {
            (self, WriterStepView::Idle)
        }
    }

    /// The writer after a write: it goes on if the client took the message,
    /// and ends if not.
    pub open spec fn written(self, delivered: bool) -> (ConnectionView, bool) {
        if self.active(LoopKind::SinkWriter) && delivered {
            (self, true)
        } else {
            (self.stop_loop(LoopKind::SinkWriter), false)
        }
    }

    /// A producer from outside offers `message`: it is taken if the
    /// connection relays and the queue has room.
    pub open spec fn offer(self, message: MessageView) -> (ConnectionView, bool) {
        if self.phase is Relaying && self.has_room() {
            (ConnectionView { queue: self.queue.push(message), ..self }, true)
        } else {
            (self, false)
        }
    }
}

} // verus!
