//! The web server as the application sees it: where it listens, what it
//! calls itself, and the bus that its connections share.
use vstd::prelude::*;
use crate::bus::{Bus, DEFAULT_BUS_CAPACITY};
use crate::message::{Message, MessageView};
use crate::text::{decimal, decimal_text, parse_u32, parsed_u32};

verus! {

/// The port that the server listens on unless told otherwise.
pub const DEFAULT_PORT: u32 = 3000;

/// The path of the endpoint that upgrades a request to a message stream.
pub const WEBSOCKET_PATH: &'static str = "/ws";

/// The host that the server listens on unless told otherwise.
pub open spec fn default_host() -> Seq<char> {
    "127.0.0.1"@
}

/// The name that the server goes by unless told otherwise.
pub open spec fn default_server_name() -> Seq<char> {
    "Axum Server"@
}

/// The port that the text of a setting asks for: the number it writes, and
/// the default where there is no text or the text writes no port.
pub open spec fn chosen_port(text: Option<Seq<char>>) -> u32 {
    match text {
        Some(text) => match parsed_u32(text) {
            Some(port) => port,
            None => DEFAULT_PORT,
        },
        None => DEFAULT_PORT,
    }
}

/// The address `host:port` as text.
pub open spec fn socket_text(host: Seq<char>, port: u32) -> Seq<char> {
    host + ":"@ + decimal_text(port as nat)
}

/// The web server's settings and its bus.
pub struct WebServer {
    /// The host to listen on.
    pub host: String,
    /// The port to listen on.
    pub port: u32,
    /// The name under which clients are welcomed.
    pub server_name: String,
    /// `host:port`, once the settings were read.
    pub socket_address: Option<String>,
    /// The channel that reaches every connected client.
    pub bus: Bus,
}

impl WebServer {
    /// The invariant of a server: that of its bus.
    pub open spec fn wf(&self) -> bool {
        self.bus.wf()
    }

    /// The server as configured by three optional settings: the host, the
    /// text of the port, and the server's name. Each falls back to its
    /// default, the port also where its text writes no port. The bus is new
    /// and of the default capacity.
    pub fn configured(host: Option<String>, port: Option<String>, server_name: Option<String>) -> (
        server: WebServer
    )
        ensures
            server.wf(),
            server.bus.log() == Seq::<MessageView>::empty(),
            server.bus.spec_capacity() == DEFAULT_BUS_CAPACITY,
            server.bus.spec_subscribers() == 0,
            server.host@ == match host {
                Some(host) => host@,
                None => default_host(),
            },
            server.port == chosen_port(
                match port {
                    Some(port) => Some(port@),
                    None => None,
                },
            ),
            server.server_name@ == match server_name {
                Some(server_name) => server_name@,
                None => default_server_name(),
            },
            server.socket_address matches Some(address) && address@ == socket_text(
                server.host@,
                server.port,
            ),
    {
        let host = match host {
            Some(host) => host,
            None => String::from_str("127.0.0.1"),
        };
        let port = match port {
            Some(text) => match parse_u32(text.as_str()) {
                Some(port) => port,
                None => DEFAULT_PORT,
            },
            None => DEFAULT_PORT,
        };
        let server_name = match server_name {
            Some(server_name) => server_name,
            None => String::from_str("Axum Server"),
        };
        let mut address = host.clone();
        address.append(":");
        address.append(decimal(port as u64).as_str());
        WebServer {
            host,
            port,
            server_name,
            socket_address: Some(address),
            bus: Bus::with_default_capacity(),
        }
    }
}

impl Default for WebServer {
    /// The server on `127.0.0.1`, port 3000, called `Axum Server`, with no
    /// socket address yet and a new bus of the default capacity.
    fn default() -> (server: WebServer)
        ensures
            server.wf(),
            server.bus.log() == Seq::<MessageView>::empty(),
            server.bus.spec_capacity() == DEFAULT_BUS_CAPACITY,
            server.bus.spec_subscribers() == 0,
            server.host@ == default_host(),
            server.port == DEFAULT_PORT,
            server.server_name@ == default_server_name(),
            server.socket_address is None,
    {
        WebServer {
            host: String::from_str("127.0.0.1"),
            port: DEFAULT_PORT,
            server_name: String::from_str("Axum Server"),
            socket_address: None,
            bus: Bus::with_default_capacity(),
        }
    }
}

/// The text that the application's background task publishes after `count`
/// seconds.
pub open spec fn elapsed_text(count: u64) -> Seq<char> {
    "Seconds elapsed on a background thread "@ + decimal_text(count as nat)
}

/// The text that the application publishes whenever its five-second timer
/// has run down.
pub open spec fn timer_text() -> Seq<char> {
    "Five more seconds have elapsed on the main thread"@
}

/// The message that the application's background task publishes after
/// `count` seconds.
pub fn elapsed_notice(count: u64) -> (message: Message)
    ensures
        message@ == MessageView::Text(elapsed_text(count)),
{
    let mut text = String::from_str("Seconds elapsed on a background thread ");
    text.append(decimal(count).as_str());
    Message::Text(text)
}

/// The message that the application publishes whenever its five-second
/// timer has run down.
pub fn timer_notice() -> (message: Message)
    ensures
        message@ == MessageView::Text(timer_text()),
{
    Message::text("Five more seconds have elapsed on the main thread")
}

} // verus!
