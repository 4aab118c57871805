use reqly::websocket::{outgoing_line, ConnectionStatus, WsMessage};

#[test]
fn status_labels_and_display() {
    assert_eq!(ConnectionStatus::Disconnected.label(), "Disconnected");
    assert_eq!(ConnectionStatus::Connecting.label(), "Connecting…");
    assert_eq!(ConnectionStatus::Connected.label(), "Connected ✓");
    assert_eq!(ConnectionStatus::Error("x".to_string()).label(), "Error");
    assert_eq!(ConnectionStatus::Error("refused".to_string()).display_text(), "Error: refused");
    assert_eq!(ConnectionStatus::Connected.display_text(), "Connected ✓");
}

#[test]
fn message_display() {
    assert_eq!(WsMessage::Text("{\"a\":1}".to_string()).display(false), "{\"a\":1}");
    assert_eq!(WsMessage::Text("{\"a\":1}".to_string()).display(true), "{\n  \"a\": 1\n}");
    assert_eq!(WsMessage::Text("plain".to_string()).display(true), "plain");
    assert_eq!(WsMessage::Binary(vec![0x0a, 0xff, 0x00]).display(false), "[binary 3 bytes] 0A FF 00");
    assert_eq!(WsMessage::Binary(vec![]).display(true), "[binary 0 bytes] ");
    assert_eq!(WsMessage::Ping.display(true), "[ping]");
    assert_eq!(WsMessage::Pong.display(false), "[pong]");
    assert_eq!(WsMessage::Close.display(false), "[connection closed]");
}

#[test]
fn binary_length_in_decimal() {
    let long = WsMessage::Binary(vec![7u8; 12]).display(false);
    assert!(long.starts_with("[binary 12 bytes] 07 07"));
}

#[test]
fn outgoing_lines_are_trimmed_and_blank_skipped() {
    assert_eq!(outgoing_line("  hi there \n"), Some("hi there".to_string()));
    assert_eq!(outgoing_line(" \t "), None);
}
