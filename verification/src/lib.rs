//! A real-time relay. Clients connect over a message stream, every text
//! message that one of them sends is fanned out to all of them over a
//! shared bus, and the embedding application can publish onto the same
//! bus.
//!
//! The crate makes every decision of the relay and does none of the
//! waiting: it never touches a socket and never sleeps. A [`Bus`] is the
//! fan-out point, a [`Connection`] is one client with its handshake, its
//! bounded outbound queue and the steps of its three loops, and whoever
//! drives them performs the socket work between the steps.
//!
//! What the relay promises:
//! - Every subscriber sees the published messages in publish order. A
//!   subscriber that falls behind by more than the capacity of the bus is
//!   told by how many, and goes on from the oldest of its newest messages;
//!   nothing is lost in silence.
//! - The sender of a message is a subscriber like any other and reads its
//!   own message back.
//! - The reader of a connection acts on text. Any other frame is passed
//!   over, and only the end of the stream or a failed read ends the reader.
//! - An outbound queue never holds more than its capacity. A producer that
//!   finds it full keeps its message and waits (the default), or ends the
//!   connection, as the connection's [`QueuePolicy`] says.
//! - The first loop of a connection to end ends the other two, and the
//!   subscription is handed back to the bus at once, whose count of
//!   subscriptions is then what it was before the client came. What still
//!   waits in the outbound queue is not delivered: delivery is best effort.
//! - The authentication hook is advisory. Its answer is recorded, and a
//!   client that fails it is served like any other.
//!
//! These promises are proved in [`laws`], from the contracts in
//! [`channel`], which state what the underlying channels do and are taken
//! on trust.
pub mod bundle;
pub mod bus;
pub mod channel;
pub mod connection;
pub mod fileserv;
pub mod laws;
pub mod message;
pub mod pipeline;
pub mod queue;
pub mod server;
pub mod text;

pub use bundle::{
    bundle_from_file_name, bundle_from_parts, default_bundle_from_path, ending_of,
    lacks_file_name, FileName, FilePath,
};
pub use bus::{
    subscribers_among, Bus, BusEvent, BusEventView, Subscription, DEFAULT_BUS_CAPACITY,
    MAX_SUBSCRIBERS,
};
pub use connection::{ack_message, greeting_message, welcome_message, Connection};
pub use fileserv::{html_fallback, NOT_FOUND};
pub use message::{CloseFrame, CloseFrameView, Message, MessageKind, MessageView};
pub use pipeline::{
    ConnectionView, HandshakeStep, ListenerStep, ListenerStepView, LoopKind, Phase, QueuePolicy,
    ReaderStep, SocketEvent, SocketEventView, WriterStep, WriterStepView,
};
pub use queue::{OutboundQueue, DEFAULT_QUEUE_CAPACITY, MAX_QUEUE_CAPACITY};
pub use server::{elapsed_notice, timer_notice, WebServer, DEFAULT_PORT, WEBSOCKET_PATH};
