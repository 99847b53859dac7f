use web_server::{CloseFrame, Message, MessageKind};

#[test]
fn message_kinds_are_text_binary_and_control() {
    assert_eq!(Message::Text("hi".to_string()).kind(), MessageKind::Text);
    assert_eq!(Message::Binary(vec![1, 2]).kind(), MessageKind::Binary);
    assert_eq!(Message::Ping(vec![]).kind(), MessageKind::Control);
    assert_eq!(Message::Pong(vec![9]).kind(), MessageKind::Control);
    assert_eq!(Message::Close(None).kind(), MessageKind::Control);
    let frame = CloseFrame { code: 1000, reason: "bye".to_string() };
    assert_eq!(Message::Close(Some(frame)).kind(), MessageKind::Control);
}

#[test]
fn only_text_is_text() {
    assert!(Message::text("hello").is_text());
    assert!(!Message::Binary(vec![104, 105]).is_text());
    assert!(!Message::Close(None).is_text());
}

#[test]
fn text_constructor_copies_the_text() {
    assert_eq!(Message::text("hello"), Message::Text("hello".to_string()));
    assert_eq!(Message::text(""), Message::Text(String::new()));
}
