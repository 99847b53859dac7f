//! The payloads that travel through the relay.
//!
//! A [`Message`] is what a client sends or receives: text, bytes or one of
//! the control frames. The relay re-routes messages and never looks inside
//! them, except to tell text from everything else. Contracts speak of a
//! message through its view, a [`MessageView`], in which strings and byte
//! vectors are plain sequences.
use vstd::prelude::*;

verus! {

/// Why a peer closes the stream: a status code and a reason in words.
#[derive(Clone, Debug, PartialEq, Eq)]
pub struct CloseFrame {
    pub code: u16,
    pub reason: String,
}

/// The mathematical value of a [`CloseFrame`].
pub struct CloseFrameView {
    pub code: u16,
    pub reason: Seq<char>,
}

impl View for CloseFrame {
    type V = CloseFrameView;

    open spec fn view(&self) -> CloseFrameView {
        CloseFrameView { code: self.code, reason: self.reason@ }
    }
}

/// One message on a client stream or on the bus.
#[derive(Clone, Debug, PartialEq, Eq)]
pub enum Message {
    /// A UTF-8 text payload.
    Text(String),
    /// An opaque byte payload.
    Binary(Vec<u8>),
    /// A ping control frame with its payload.
    Ping(Vec<u8>),
    /// A pong control frame with its payload.
    Pong(Vec<u8>),
    /// A close control frame, with the peer's reason if it gave one.
    Close(Option<CloseFrame>),
}

/// The mathematical value of a [`Message`].
pub enum MessageView {
    Text(Seq<char>),
    Binary(Seq<u8>),
    Ping(Seq<u8>),
    Pong(Seq<u8>),
    Close(Option<CloseFrameView>),
}

/// The three kinds of payload that the relay tells apart.
#[derive(Clone, Copy, Debug, PartialEq, Eq, Structural)]
pub enum MessageKind {
    Text,
    Binary,
    Control,
}

impl MessageView {
    /// The kind of a message: text, binary, or control for ping, pong and
    /// close.
    pub open spec fn kind(self) -> MessageKind {
        match self {
            MessageView::Text(_) => MessageKind::Text,
            MessageView::Binary(_) => MessageKind::Binary,
            _ => MessageKind::Control,
        }
    }
}

impl View for Message {
    type V = MessageView;

    open spec fn view(&self) -> MessageView {
        match self {
            Message::Text(s) => MessageView::Text(s@),
            Message::Binary(b) => MessageView::Binary(b@),
            Message::Ping(b) => MessageView::Ping(b@),
            Message::Pong(b) => MessageView::Pong(b@),
            Message::Close(None) => MessageView::Close(None),
            Message::Close(Some(frame)) => MessageView::Close(Some(frame@)),
        }
    }
}

impl Message {
    /// A text message that holds a copy of `text`.
    pub fn text(text: &str) -> (message: Message)
        ensures
            message@ == MessageView::Text(text@),
    {
        Message::Text(String::from_str(text))
    }

    /// The kind discriminant of this message.
    pub fn kind(&self) -> (kind: MessageKind)
        ensures
            kind == self@.kind(),
    {
        match self {
            Message::Text(_) => MessageKind::Text,
            Message::Binary(_) => MessageKind::Binary,
            _ => MessageKind::Control,
        }
    }

    /// Whether this is a text message.
    pub fn is_text(&self) -> (yes: bool)
        ensures
            yes == (self@ is Text),
    {
        match self {
            Message::Text(_) => true,
            _ => false,
        }
    }
}

} // verus!
