//! WebSocket session pieces: the connection state shown to the user, how a
//! frame is displayed, and which typed lines are sent.

use vstd::prelude::*;

use crate::formatter::{json_pretty, pretty_json_text};
use crate::text::{decimal, hex_byte, hex_digit, push_decimal, push_hex_byte, trim, trim_string};

verus! {

/// Current state of a WebSocket connection.
pub enum ConnectionStatus {
    Disconnected,
    Connecting,
    Connected,
    Error(String),
}

/// The short label of each state.
pub open spec fn status_label(s: ConnectionStatus) -> Seq<char> {
    match s {
        ConnectionStatus::Disconnected => "Disconnected"@,
        ConnectionStatus::Connecting => "Connecting…"@,
        ConnectionStatus::Connected => "Connected ✓"@,
        ConnectionStatus::Error(_) => "Error"@,
    }
}

impl ConnectionStatus {
    /// The short label of the state.
    pub fn label(&self) -> (r: &str)
        ensures
            r@ == status_label(*self),
    {
        match self {
            ConnectionStatus::Disconnected => "Disconnected",
            ConnectionStatus::Connecting => "Connecting…",
            ConnectionStatus::Connected => "Connected ✓",
            ConnectionStatus::Error(_) => "Error",
        }
    }

    /// The text the state is displayed as: the label, or `Error: ` and
    /// the error's message.
    pub fn display_text(&self) -> (r: String)
        ensures
            r@ == match *self {
                ConnectionStatus::Error(e) => "Error: "@ + e@,
                other => status_label(other),
            },
    {
        match self {
            ConnectionStatus::Error(e) => {
                let mut s = String::new();
                s.append("Error: ");
                s.append(e.as_str());
                s
            },
            other => other.label().to_owned(),
        }
    }
}

/// Represents a single WebSocket message frame.
pub enum WsMessage {
    Text(String),
    Binary(Vec<u8>),
    Ping,
    Pong,
    Close,
}

/// The bytes in upper-case hexadecimal, separated by single spaces.
pub open spec fn hex_join(b: Seq<u8>) -> Seq<char>
    decreases b.len(),
{
    if b.len() == 0 {
        seq![]
    } else if b.len() == 1 {
        hex_byte(b[0])
    } else {
        hex_join(b.drop_last()) + " "@ + hex_byte(b.last())
    }
}

/// How a frame is shown in the terminal.
pub open spec fn message_text(m: WsMessage, pretty_json: bool) -> Seq<char> {
    match m {
        WsMessage::Text(s) => if pretty_json {
            match pretty_json_text(s@) {
                Some(p) => p,
                None => s@,
            }
        } else {
            s@
        },
        WsMessage::Binary(b) => "[binary "@ + decimal(b@.len()) + " bytes] "@ + hex_join(b@),
        WsMessage::Ping => "[ping]"@,
        WsMessage::Pong => "[pong]"@,
        WsMessage::Close => "[connection closed]"@,
    }
}

impl WsMessage {
    /// Format the message for display in the terminal.
    pub fn display(&self, pretty_json: bool) -> (r: String)
        ensures
            r@ == message_text(*self, pretty_json),
    {
        match self {
            WsMessage::Text(s) => {
                if pretty_json {
                    match json_pretty(s.as_str()) {
                        Some(p) => p,
                        None => s.clone(),
                    }
                } else {
                    s.clone()
                }
            },
            WsMessage::Binary(b) => {
                let mut out = String::new();
                out.append("[binary ");
                push_decimal(&mut out, b.len() as u128);
                out.append(" bytes] ");
                let ghost prefix = out@;
                let mut i: usize = 0;
                assert(b@.take(0) =~= Seq::<u8>::empty());
                while i < b.len()
                    invariant
                        i <= b@.len(),
                        out@ == prefix + hex_join(b@.take(i as int)),
                    decreases b@.len() - i,
                {
                    let ghost before = out@;
                    if i > 0 {
                        out.append(" ");
                    }
                    push_hex_byte(&mut out, b[i]);
                    proof {
                        let t = b@.take(i + 1);
                        assert(t.drop_last() =~= b@.take(i as int));
                        if i == 0 {
                            assert(hex_join(b@.take(0)) =~= Seq::<char>::empty());
                            assert(out@ =~= prefix + hex_join(t));
                        } else {
                            assert(out@ =~= prefix + hex_join(t));
                        }
                    }
                    i += 1;
                }
                assert(b@.take(b@.len() as int) =~= b@);
                out
            },
            WsMessage::Ping => "[ping]".to_owned(),
            WsMessage::Pong => "[pong]".to_owned(),
            WsMessage::Close => "[connection closed]".to_owned(),
        }
    }
}

/// The character code of the upper-case hexadecimal digit for `d < 16`.
pub open spec fn hex_code(d: u8) -> int {
    if d < 10 {
        48 + d
    } else {
        55 + d
    }
}

/// The hexadecimal digit of `d < 16` has the code of `0`–`9` or `A`–`F`.
proof fn lemma_hex_digit_code(d: u8)
    requires
        d < 16,
    ensures
        hex_digit(d as nat) as int == hex_code(d),
{
}

/// The joined hexadecimal text of `n > 0` bytes has `3n - 1` characters:
/// the two digits of byte `i` at `3i` and `3i + 1`, a space between bytes.
proof fn lemma_hex_join(b: Seq<u8>)
    requires
        b.len() > 0,
    ensures
        hex_join(b).len() == 3 * b.len() - 1,
        forall|i: int|
            0 <= i < b.len() ==> hex_join(b)[3 * i] as int == hex_code(#[trigger] b[i] / 16) && hex_join(
                b,
            )[3 * i + 1] as int == hex_code(b[i] % 16),
        forall|i: int| 0 <= i < b.len() - 1 ==> #[trigger] hex_join(b)[3 * i + 2] == ' ',
    decreases b.len(),
{
    reveal_strlit(" ");
    if b.len() == 1 {
        lemma_hex_digit_code(b[0] / 16);
        lemma_hex_digit_code(b[0] % 16);
    } else {
        let p = b.drop_last();
        lemma_hex_join(p);
        let x = hex_join(b);
        let n = b.len() as int;
        assert(x == hex_join(p) + " "@ + hex_byte(b.last()));
        lemma_hex_digit_code(b.last() / 16);
        lemma_hex_digit_code(b.last() % 16);
        assert forall|i: int| 0 <= i < n implies x[3 * i] as int == hex_code(#[trigger] b[i] / 16)
            && x[3 * i + 1] as int == hex_code(b[i] % 16) by {
            if i < n - 1 {
                assert(b[i] == p[i]);
                assert(x[3 * i] == hex_join(p)[3 * i]);
                assert(x[3 * i + 1] == hex_join(p)[3 * i + 1]);
            } else {
                assert(x[3 * i] == hex_byte(b.last())[0]);
                assert(x[3 * i + 1] == hex_byte(b.last())[1]);
            }
        }
        assert forall|i: int| 0 <= i < n - 1 implies #[trigger] x[3 * i + 2] == ' ' by {
            if i < n - 2 {
                assert(x[3 * i + 2] == hex_join(p)[3 * i + 2]);
            } else {
                assert(x[3 * i + 2] == " "@[0]);
            }
        }
    }
}

/// A binary frame shows every byte: `[binary n bytes] ` and then, for
/// `n > 0`, exactly `3n - 1` characters in which characters `3i` and
/// `3i + 1` are the two upper-case hexadecimal digits of byte `i` and the
/// characters between bytes are single spaces; nothing follows for `n = 0`.
pub proof fn law_binary_display(v: Vec<u8>, pretty_json: bool)
    ensures
        ({
            let t = message_text(WsMessage::Binary(v), pretty_json);
            let head = "[binary "@ + decimal(v@.len()) + " bytes] "@;
            let n = v@.len() as int;
            &&& t.take(head.len() as int) == head
            &&& t.len() == head.len() + if n == 0 { 0 } else { 3 * n - 1 }
            &&& forall|i: int|
                0 <= i < n ==> t[head.len() + 3 * i] as int == hex_code(#[trigger] v@[i] / 16)
                    && t[head.len() + 3 * i + 1] as int == hex_code(v@[i] % 16)
            &&& forall|i: int| 0 <= i < n - 1 ==> #[trigger] t[head.len() + 3 * i + 2] == ' '
        }),
{
    let t = message_text(WsMessage::Binary(v), pretty_json);
    let head = "[binary "@ + decimal(v@.len()) + " bytes] "@;
    let x = hex_join(v@);
    assert(t == head + x);
    assert(t.take(head.len() as int) =~= head);
    if v@.len() == 0 {
        assert(x =~= Seq::<char>::empty());
    } else {
        lemma_hex_join(v@);
        assert forall|i: int| 0 <= i < v@.len() implies t[head.len() + 3 * i] as int == hex_code(
            #[trigger] v@[i] / 16,
        ) && t[head.len() + 3 * i + 1] as int == hex_code(v@[i] % 16) by {
            assert(t[head.len() + 3 * i] == x[3 * i]);
            assert(t[head.len() + 3 * i + 1] == x[3 * i + 1]);
        }
        assert forall|i: int| 0 <= i < v@.len() - 1 implies #[trigger] t[head.len() + 3 * i + 2]
            == ' ' by {
            assert(t[head.len() + 3 * i + 2] == x[3 * i + 2]);
        }
    }
}

/// Async WebSocket client built on `tokio-tungstenite`; the session itself
/// runs in the program around this library.
pub struct WebSocketClient;

/// The text frame sent for a typed line: the line trimmed, nothing when
/// it is blank.
pub fn outgoing_line(line: &str) -> (r: Option<String>)
    ensures
        match r {
            Some(t) => t@ == trim(line@) && t@.len() > 0,
            None => trim(line@).len() == 0,
        },
{
    let t = trim_string(line);
    if t.as_str().is_empty() {
        None
    } else {
        Some(t)
    }
}

/// What the interactive session prints for a frame from the server.
pub enum IncomingLine {
    /// A data frame, as displayed, after the `Server:` prefix.
    Server(String),
    /// A control frame noted on its own line.
    Notice(&'static str),
    /// The server closed the connection; the session stops listening.
    Closed,
}

/// What the interactive session prints for a frame from the server: data
/// frames as displayed, a note for pings and pongs, and the end of the
/// session on a close frame.
pub fn incoming_line(msg: &WsMessage, pretty_json: bool) -> (r: IncomingLine)
    ensures
        match *msg {
            WsMessage::Text(_) | WsMessage::Binary(_) => r matches IncomingLine::Server(t) && t@
                == message_text(*msg, pretty_json),
            WsMessage::Ping => r matches IncomingLine::Notice(n) && n@ == "[ping received]"@,
            WsMessage::Pong => r matches IncomingLine::Notice(n) && n@ == "[pong received]"@,
            WsMessage::Close => r is Closed,
        },
{
    match msg {
        WsMessage::Ping => IncomingLine::Notice("[ping received]"),
        WsMessage::Pong => IncomingLine::Notice("[pong received]"),
        WsMessage::Close => IncomingLine::Closed,
        _ => IncomingLine::Server(msg.display(pretty_json)),
    }
}

} // verus!
