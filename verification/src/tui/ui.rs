//! The content of the interface's panes: what each pane shows, computed
//! from the state; laying it out on the terminal is left to the program.

use vstd::prelude::*;

use crate::graphql::GraphqlResponse;
use crate::headers::HeaderSeq;
use crate::http::{declares_json, HttpResponse};
use crate::formatter::pretty_or_raw;
use crate::tui::app::ProtocolMode;
use crate::text::{decimal, lines, lines_of, push_decimal};

verus! {

/// The text of a field, with a `_` cursor marker when it is focused.
pub open spec fn marked(text: Seq<char>, active: bool) -> Seq<char> {
    if active {
        text + "_"@
    } else {
        text
    }
}

/// The text of a field, with a `_` cursor marker when it is focused.
pub fn cursor_text(text: &str, active: bool) -> (r: String)
    ensures
        r@ == marked(text@, active),
{
    let mut s = text.to_owned();
    if active {
        s.append("_");
    }
    s
}

/// The response pane's title: status code, reason, and elapsed time.
pub open spec fn summary_text(status: u16, status_text: Seq<char>, duration_ms: u128) -> Seq<char> {
    decimal(status as nat) + " "@ + status_text + "  "@ + decimal(duration_ms as nat) + "ms"@
}

/// The response pane's title: status code, reason, and elapsed time.
pub fn response_summary(resp: &HttpResponse) -> (r: String)
    ensures
        r@ == summary_text(resp.status, resp.status_text@, resp.duration_ms),
{
    let mut s = String::new();
    push_decimal(&mut s, resp.status as u128);
    s.append(" ");
    s.append(resp.status_text.as_str());
    s.append("  ");
    push_decimal(&mut s, resp.duration_ms);
    s.append("ms");
    s
}

/// What the response pane says while there is no response.
pub fn idle_message(is_loading: bool) -> (r: &'static str)
    ensures
        r@ == if is_loading {
            "⏳ Sending…"@
        } else {
            "Press ENTER to send"@
        },
{
    if is_loading {
        "⏳ Sending…"
    } else {
        "Press ENTER to send"
    }
}

/// The GraphQL response pane's title: status code, reason, and elapsed
/// time.
pub fn graphql_summary(resp: &GraphqlResponse) -> (r: String)
    ensures
        r@ == summary_text(resp.status, resp.status_text@, resp.duration_ms),
{
    let mut s = String::new();
    push_decimal(&mut s, resp.status as u128);
    s.append(" ");
    s.append(resp.status_text.as_str());
    s.append("  ");
    push_decimal(&mut s, resp.duration_ms);
    s.append("ms");
    s
}

/// What the GraphQL response pane says while there is no response.
pub fn graphql_idle_message(is_loading: bool) -> (r: &'static str)
    ensures
        r@ == if is_loading {
            "⏳ Sending…"@
        } else {
            "Press ENTER to send the query"@
        },
{
    if is_loading {
        "⏳ Sending…"
    } else {
        "Press ENTER to send the query"
    }
}

/// Copies each text of a list, in order.
fn copy_lines(src: &Vec<String>) -> (r: Vec<String>)
    ensures
        r@.map_values(|s: String| s@) == src@.map_values(|s: String| s@),
{
    let mut out: Vec<String> = Vec::new();
    let mut i: usize = 0;
    while i < src.len()
        invariant
            i <= src@.len(),
            out@.map_values(|s: String| s@) == src@.map_values(|s: String| s@).take(i as int),
        decreases src@.len() - i,
    {
        let ghost before = out@.map_values(|s: String| s@);
        out.push(src[i].clone());
        proof {
            assert(out@.map_values(|s: String| s@) =~= before.push(src@[i as int]@));
            assert(src@.map_values(|s: String| s@).take(i + 1) =~= src@.map_values(
                |s: String| s@,
            ).take(i as int).push(src@[i as int]@));
        }
        i += 1;
    }
    proof {
        assert(src@.map_values(|s: String| s@).take(src@.len() as int) =~= src@.map_values(
            |s: String| s@,
        ));
    }
    out
}

/// The lines of the GraphQL response pane: the whole reply body,
/// pretty-printed when it is JSON, line by line.
pub fn graphql_response_lines(resp: &GraphqlResponse) -> (r: Vec<String>)
    ensures
        r@.map_values(|s: String| s@) == lines_of(pretty_or_raw(resp.raw_body@)),
{
    let body = resp.pretty_body();
    lines(body.as_str())
}

/// What the WebSocket message log shows: a hint while it is empty.
pub open spec fn ws_log_lines_of(msgs: Seq<Seq<char>>) -> Seq<Seq<char>> {
    if msgs.len() == 0 {
        seq!["No messages yet — press ENTER to connect"@]
    } else {
        msgs
    }
}

/// The lines of the WebSocket message log pane.
pub fn ws_log_lines(msgs: &Vec<String>) -> (r: Vec<String>)
    ensures
        r@.map_values(|s: String| s@) == ws_log_lines_of(msgs@.map_values(|s: String| s@)),
{
    if msgs.len() == 0 {
        let r = vec!["No messages yet — press ENTER to connect".to_owned()];
        assert(r@.map_values(|s: String| s@) =~= seq![
            "No messages yet — press ENTER to connect"@,
        ]);
        r
    } else {
        copy_lines(msgs)
    }
}

/// The key hints of the status bar for each tab: the key, then what it
/// does.
pub open spec fn hints_of(m: ProtocolMode) -> Seq<(Seq<char>, Seq<char>)> {
    match m {
        ProtocolMode::Http => seq![
            ("TAB"@, "next panel"@),
            ("SPACE"@, "cycle method"@),
            ("ENTER"@, "send"@),
            ("Ctrl+P"@, "protocol"@),
            ("Ctrl+C"@, "quit"@),
        ],
        ProtocolMode::GraphQL => seq![
            ("TAB"@, "next panel"@),
            ("ENTER"@, "send"@),
            ("Ctrl+Q"@, "query"@),
            ("Ctrl+V"@, "vars"@),
            ("Ctrl+P"@, "protocol"@),
            ("Ctrl+C"@, "quit"@),
        ],
        ProtocolMode::WebSocket => seq![
            ("TAB"@, "next panel"@),
            ("ENTER"@, "connect/send"@),
            ("Ctrl+P"@, "protocol"@),
            ("Ctrl+C"@, "quit"@),
        ],
    }
}

/// The key hints of the status bar for the tab shown.
pub fn status_hints(m: ProtocolMode) -> (r: Vec<(&'static str, &'static str)>)
    ensures
        r@.map_values(|h: (&'static str, &'static str)| (h.0@, h.1@)) == hints_of(m),
{
    let r = match m {
        ProtocolMode::Http => vec![
            ("TAB", "next panel"),
            ("SPACE", "cycle method"),
            ("ENTER", "send"),
            ("Ctrl+P", "protocol"),
            ("Ctrl+C", "quit"),
        ],
        ProtocolMode::GraphQL => vec![
            ("TAB", "next panel"),
            ("ENTER", "send"),
            ("Ctrl+Q", "query"),
            ("Ctrl+V", "vars"),
            ("Ctrl+P", "protocol"),
            ("Ctrl+C", "quit"),
        ],
        ProtocolMode::WebSocket => vec![
            ("TAB", "next panel"),
            ("ENTER", "connect/send"),
            ("Ctrl+P", "protocol"),
            ("Ctrl+C", "quit"),
        ],
    };
    assert(r@.map_values(|h: (&'static str, &'static str)| (h.0@, h.1@)) =~= hints_of(m));
    r
}

/// The number of header lines the response pane shows.
pub open spec fn shown_header_count(h: HeaderSeq) -> int {
    if h.len() < 5 {
        h.len() as int
    } else {
        5
    }
}

/// The lines of the response pane: up to five headers as `name: value`,
/// an empty line, then the body (pretty-printed when it is declared JSON)
/// line by line.
pub open spec fn response_lines_of(h: HeaderSeq, body: Seq<char>) -> Seq<Seq<char>> {
    let shown = if declares_json(h) {
        pretty_or_raw(body)
    } else {
        body
    };
    h.take(shown_header_count(h)).map_values(|e: (Seq<char>, Seq<char>)| e.0 + ": "@ + e.1)
        + seq![Seq::<char>::empty()] + lines_of(shown)
}

/// The response pane shows `min(5, n)` header lines for a response with
/// `n` headers: the first `min(5, n)` entries of the header table, each as
/// `name: value`, then one empty line, then every line of the shown body
/// (pretty-printed when the response declares JSON).
pub proof fn law_response_pane(h: HeaderSeq, body: Seq<char>)
    ensures
        ({
            let m: int = if h.len() < 5 { h.len() as int } else { 5 };
            let r = response_lines_of(h, body);
            let shown = if declares_json(h) { pretty_or_raw(body) } else { body };
            &&& r.len() == m + 1 + lines_of(shown).len()
            &&& forall|i: int| 0 <= i < m ==> #[trigger] r[i] == h[i].0 + ": "@ + h[i].1
            &&& r[m] == Seq::<char>::empty()
            &&& forall|i: int| 0 <= i < lines_of(shown).len() ==> #[trigger] r[m + 1 + i] == lines_of(shown)[i]
        }),
{
    let m: int = if h.len() < 5 { h.len() as int } else { 5 };
    let shown = if declares_json(h) { pretty_or_raw(body) } else { body };
    let head = h.take(m).map_values(|e: (Seq<char>, Seq<char>)| e.0 + ": "@ + e.1);
    let r = response_lines_of(h, body);
    assert(r == head + seq![Seq::<char>::empty()] + lines_of(shown));
    assert forall|i: int| 0 <= i < m implies #[trigger] r[i] == h[i].0 + ": "@ + h[i].1 by {
        assert(r[i] == head[i]);
    }
    assert(r[m] == (head + seq![Seq::<char>::empty()])[m]);
    assert forall|i: int| 0 <= i < lines_of(shown).len() implies #[trigger] r[m + 1 + i] == lines_of(
        shown,
    )[i] by {}
}

/// The lines of the response pane.
pub fn response_lines(resp: &HttpResponse) -> (r: Vec<String>)
    ensures
        r@.map_values(|s: String| s@) == response_lines_of(resp.headers@, resp.body@),
{
    let entries = resp.headers.entries();
    let ghost h = resp.headers@;
    let n = if entries.len() < 5 {
        entries.len()
    } else {
        5
    };
    let mut out: Vec<String> = Vec::new();
    let mut i: usize = 0;
    while i < n
        invariant
            entries@.map_values(|e: (String, String)| (e.0@, e.1@)) == h,
            h == resp.headers@,
            n == shown_header_count(h),
            i <= n <= entries@.len(),
            out@.map_values(|s: String| s@) == h.take(i as int).map_values(
                |e: (Seq<char>, Seq<char>)| e.0 + ": "@ + e.1,
            ),
        decreases n - i,
    {
        let ghost before = out@.map_values(|s: String| s@);
        let mut line = entries[i].0.clone();
        line.append(": ");
        line.append(entries[i].1.as_str());
        out.push(line);
        proof {
            assert(h.take(i + 1) =~= h.take(i as int).push(h[i as int]));
            assert(out@.map_values(|s: String| s@) =~= before.push(h[i as int].0 + ": "@ + h[i as int].1));
            assert(h.take(i + 1).map_values(|e: (Seq<char>, Seq<char>)| e.0 + ": "@ + e.1)
                =~= h.take(i as int).map_values(|e: (Seq<char>, Seq<char>)| e.0 + ": "@ + e.1).push(
                h[i as int].0 + ": "@ + h[i as int].1,
            ));
        }
        i += 1;
    }
    let ghost header_part = out@.map_values(|s: String| s@);
    out.push(String::new());
    let body = resp.display_body();
    let body_lines = lines(body.as_str());
    let mut j: usize = 0;
    let ghost base = header_part.push(Seq::<char>::empty());
    assert(out@.map_values(|s: String| s@) =~= base);
    while j < body_lines.len()
        invariant
            j <= body_lines@.len(),
            body_lines@.len() == lines_of(body@).len(),
            forall|k: int| 0 <= k < body_lines@.len() ==> #[trigger] body_lines@[k]@ == lines_of(
                body@,
            )[k],
            out@.map_values(|s: String| s@) == base + lines_of(body@).take(j as int),
        decreases body_lines@.len() - j,
    {
        let ghost before = out@.map_values(|s: String| s@);
        out.push(body_lines[j].clone());
        proof {
            assert(lines_of(body@).take(j + 1) =~= lines_of(body@).take(j as int).push(
                lines_of(body@)[j as int],
            ));
            assert(out@.map_values(|s: String| s@) =~= before.push(body_lines@[j as int]@));
        }
        j += 1;
    }
    proof {
        assert(lines_of(body@).take(body_lines@.len() as int) =~= lines_of(body@));
        assert(base =~= h.take(shown_header_count(h)).map_values(
            |e: (Seq<char>, Seq<char>)| e.0 + ": "@ + e.1,
        ) + seq![Seq::<char>::empty()]);
    }
    out
}

} // verus!
