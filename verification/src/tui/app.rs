//! The state of the interactive interface and the editing operations on it.
//!
//! Text fields are edited at a byte offset (`cursor_pos`), the way `String`
//! indexes text; inserting or deleting needs that offset to fall between two
//! characters, which the contracts below ask for where the edit happens.

use vstd::prelude::*;
use vstd::utf8::encode_utf8;

use crate::formatter::{json_parses, parses_as_json};
use crate::graphql::{GraphqlQuery, GraphqlResponse};
use crate::http::{
    form_request_ok, is_form_request, opt_view, request_from_form, HttpRequest, HttpResponse,
};
use crate::websocket::ConnectionStatus;
use crate::text::{
    byte_len, char_before, char_index, char_start_before, is_boundary, lemma_char_before_unique,
    lemma_char_index_unique, lemma_prefix_bytes_mono, lemma_prefix_bytes_strict, str_byte_len,
    str_eq, string_insert, string_remove, trim, trim_string,
};

verus! {

/// Which protocol tab is shown.
#[derive(Debug, Clone, Copy, PartialEq, Eq, Structural)]
pub enum ProtocolMode {
    Http,
    GraphQL,
    WebSocket,
}

/// Which pane of the TUI is focused.
#[derive(Debug, Clone, Copy, PartialEq, Eq, Structural)]
pub enum FocusedPanel {
    Method,
    Url,
    Headers,
    Body,
    Response,
    GqlEndpoint,
    GqlQuery,
    GqlVariables,
    GqlResponse,
    WsUrl,
    WsMessages,
    WsInput,
}

/// Overall state of the TUI application.
pub struct App {
    pub method: String,
    pub url: String,
    pub headers_raw: String,
    pub body_raw: String,
    pub response: Option<Result<HttpResponse, String>>,
    pub focused: FocusedPanel,
    pub is_loading: bool,
    pub should_quit: bool,
    /// cursor offset within the currently focused text field
    pub cursor_pos: usize,
    /// lines scrolled off the top of the response pane
    pub response_scroll: u16,
    /// earlier entries for the focused field, newest first, once fetched
    pub history_cache: Option<Vec<String>>,
    /// how far back in `history_cache` the field shows (0: the draft)
    pub history_index: usize,
    /// the field's own text, kept while history is shown
    pub working_draft: Option<String>,
    /// the protocol tab shown
    pub protocol: ProtocolMode,
    pub gql_endpoint: String,
    pub gql_query: String,
    pub gql_variables: String,
    pub gql_response: Option<Result<GraphqlResponse, String>>,
    /// lines scrolled off the top of the GraphQL response pane
    pub gql_response_scroll: u16,
    pub ws_url: String,
    pub ws_input: String,
    /// the WebSocket tab's message log, oldest first
    pub ws_messages: Vec<String>,
    pub ws_status: ConnectionStatus,
}

/// The abstract state of the interface: every text by its characters.
pub struct AppView {
    pub method: Seq<char>,
    pub url: Seq<char>,
    pub headers_raw: Seq<char>,
    pub body_raw: Seq<char>,
    pub response: Option<Result<HttpResponse, String>>,
    pub focused: FocusedPanel,
    pub is_loading: bool,
    pub should_quit: bool,
    pub cursor_pos: usize,
    pub response_scroll: u16,
    pub history_cache: Option<Seq<Seq<char>>>,
    pub history_index: usize,
    pub working_draft: Option<Seq<char>>,
    pub protocol: ProtocolMode,
    pub gql_endpoint: Seq<char>,
    pub gql_query: Seq<char>,
    pub gql_variables: Seq<char>,
    pub gql_response: Option<Result<GraphqlResponse, String>>,
    pub gql_response_scroll: u16,
    pub ws_url: Seq<char>,
    pub ws_input: Seq<char>,
    pub ws_messages: Seq<Seq<char>>,
    pub ws_status: ConnectionStatus,
}

/// The characters of an optional list of strings.
pub open spec fn opt_seq_view(o: Option<Vec<String>>) -> Option<Seq<Seq<char>>> {
    match o {
        Some(v) => Some(v@.map_values(|s: String| s@)),
        None => None,
    }
}

/// The characters of an optional string.
pub open spec fn opt_str_view(o: Option<String>) -> Option<Seq<char>> {
    match o {
        Some(s) => Some(s@),
        None => None,
    }
}

impl View for App {
    type V = AppView;

    open spec fn view(&self) -> AppView {
        AppView {
            method: self.method@,
            url: self.url@,
            headers_raw: self.headers_raw@,
            body_raw: self.body_raw@,
            response: self.response,
            focused: self.focused,
            is_loading: self.is_loading,
            should_quit: self.should_quit,
            cursor_pos: self.cursor_pos,
            response_scroll: self.response_scroll,
            history_cache: opt_seq_view(self.history_cache),
            history_index: self.history_index,
            working_draft: opt_str_view(self.working_draft),
            protocol: self.protocol,
            gql_endpoint: self.gql_endpoint@,
            gql_query: self.gql_query@,
            gql_variables: self.gql_variables@,
            gql_response: self.gql_response,
            gql_response_scroll: self.gql_response_scroll,
            ws_url: self.ws_url@,
            ws_input: self.ws_input@,
            ws_messages: self.ws_messages@.map_values(|m: String| m@),
            ws_status: self.ws_status,
        }
    }
}

/// The history entries fetched so far (none before they are fetched).
pub open spec fn cached(v: AppView) -> Seq<Seq<char>> {
    match v.history_cache {
        Some(h) => h,
        None => seq![],
    }
}

/// The panel after `p`: each tab cycles through its own panels, top to
/// bottom (HTTP: Method, Url, Headers, Body, Response; GraphQL: Endpoint,
/// Query, Variables, Response; WebSocket: Url, Messages, Input).
pub open spec fn next_panel(p: FocusedPanel) -> FocusedPanel {
    match p {
        FocusedPanel::Method => FocusedPanel::Url,
        FocusedPanel::Url => FocusedPanel::Headers,
        FocusedPanel::Headers => FocusedPanel::Body,
        FocusedPanel::Body => FocusedPanel::Response,
        FocusedPanel::Response => FocusedPanel::Method,
        FocusedPanel::GqlEndpoint => FocusedPanel::GqlQuery,
        FocusedPanel::GqlQuery => FocusedPanel::GqlVariables,
        FocusedPanel::GqlVariables => FocusedPanel::GqlResponse,
        FocusedPanel::GqlResponse => FocusedPanel::GqlEndpoint,
        FocusedPanel::WsUrl => FocusedPanel::WsMessages,
        FocusedPanel::WsMessages => FocusedPanel::WsInput,
        FocusedPanel::WsInput => FocusedPanel::WsUrl,
    }
}

/// The panel before `p` in the same cycle.
pub open spec fn prev_panel(p: FocusedPanel) -> FocusedPanel {
    match p {
        FocusedPanel::Method => FocusedPanel::Response,
        FocusedPanel::Url => FocusedPanel::Method,
        FocusedPanel::Headers => FocusedPanel::Url,
        FocusedPanel::Body => FocusedPanel::Headers,
        FocusedPanel::Response => FocusedPanel::Body,
        FocusedPanel::GqlEndpoint => FocusedPanel::GqlResponse,
        FocusedPanel::GqlQuery => FocusedPanel::GqlEndpoint,
        FocusedPanel::GqlVariables => FocusedPanel::GqlQuery,
        FocusedPanel::GqlResponse => FocusedPanel::GqlVariables,
        FocusedPanel::WsUrl => FocusedPanel::WsInput,
        FocusedPanel::WsMessages => FocusedPanel::WsUrl,
        FocusedPanel::WsInput => FocusedPanel::WsMessages,
    }
}

/// The panels whose text can be edited.
pub open spec fn is_editable(p: FocusedPanel) -> bool {
    ||| p is Url || p is Headers || p is Body
    ||| p is GqlEndpoint || p is GqlQuery || p is GqlVariables
    ||| p is WsUrl || p is WsInput
}

/// The panels that hold several lines.
pub open spec fn is_multiline(p: FocusedPanel) -> bool {
    p is Headers || p is Body || p is GqlQuery || p is GqlVariables
}

/// The protocol after `m`: HTTP, GraphQL, WebSocket, and round again.
pub open spec fn next_protocol(m: ProtocolMode) -> ProtocolMode {
    match m {
        ProtocolMode::Http => ProtocolMode::GraphQL,
        ProtocolMode::GraphQL => ProtocolMode::WebSocket,
        ProtocolMode::WebSocket => ProtocolMode::Http,
    }
}

/// The panel a protocol tab opens on: its URL field.
pub open spec fn first_panel(m: ProtocolMode) -> FocusedPanel {
    match m {
        ProtocolMode::Http => FocusedPanel::Url,
        ProtocolMode::GraphQL => FocusedPanel::GqlEndpoint,
        ProtocolMode::WebSocket => FocusedPanel::WsUrl,
    }
}

/// The method that follows `m` in GET, POST, PUT, PATCH, DELETE, HEAD,
/// OPTIONS; any other text goes back to GET.
pub open spec fn method_after(m: Seq<char>) -> Seq<char> {
    if m == "GET"@ {
        "POST"@
    } else if m == "POST"@ {
        "PUT"@
    } else if m == "PUT"@ {
        "PATCH"@
    } else if m == "PATCH"@ {
        "DELETE"@
    } else if m == "DELETE"@ {
        "HEAD"@
    } else if m == "HEAD"@ {
        "OPTIONS"@
    } else {
        "GET"@
    }
}

/// The offset where the line holding byte offset `pos` starts: just after
/// the last newline before `pos`, or 0.
pub open spec fn line_start(b: Seq<u8>, pos: int) -> int
    decreases pos,
{
    if pos <= 0 {
        0
    } else if b[pos - 1] == 10 {
        pos
    } else {
        line_start(b, pos - 1)
    }
}

/// The offset of the first newline at or after `pos`, or the length.
pub open spec fn line_end(b: Seq<u8>, pos: int) -> int
    decreases b.len() - pos,
{
    if pos >= b.len() {
        b.len() as int
    } else if b[pos] == 10 {
        pos
    } else {
        line_end(b, pos + 1)
    }
}

impl AppView {
    /// The text shown in panel `p` (empty for the non-text panels).
    pub open spec fn text_of(self, p: FocusedPanel) -> Seq<char> {
        match p {
            FocusedPanel::Url => self.url,
            FocusedPanel::Headers => self.headers_raw,
            FocusedPanel::Body => self.body_raw,
            FocusedPanel::GqlEndpoint => self.gql_endpoint,
            FocusedPanel::GqlQuery => self.gql_query,
            FocusedPanel::GqlVariables => self.gql_variables,
            FocusedPanel::WsUrl => self.ws_url,
            FocusedPanel::WsInput => self.ws_input,
            _ => seq![],
        }
    }

    /// The text of the focused panel.
    pub open spec fn active_text(self) -> Seq<char> {
        self.text_of(self.focused)
    }

    /// The state with the focused panel's text replaced by `t` (no change
    /// when the focused panel holds no text).
    pub open spec fn set_active(self, t: Seq<char>) -> AppView {
        match self.focused {
            FocusedPanel::Url => AppView { url: t, ..self },
            FocusedPanel::Headers => AppView { headers_raw: t, ..self },
            FocusedPanel::Body => AppView { body_raw: t, ..self },
            FocusedPanel::GqlEndpoint => AppView { gql_endpoint: t, ..self },
            FocusedPanel::GqlQuery => AppView { gql_query: t, ..self },
            FocusedPanel::GqlVariables => AppView { gql_variables: t, ..self },
            FocusedPanel::WsUrl => AppView { ws_url: t, ..self },
            FocusedPanel::WsInput => AppView { ws_input: t, ..self },
            _ => self,
        }
    }

    /// Focus on `p` with the cursor after the end of its text.
    pub open spec fn focus_on(self, p: FocusedPanel) -> AppView {
        AppView { focused: p, cursor_pos: byte_len(self.text_of(p)) as usize, ..self }
    }

    pub open spec fn focus_next(self) -> AppView {
        self.focus_on(next_panel(self.focused))
    }

    pub open spec fn focus_prev(self) -> AppView {
        self.focus_on(prev_panel(self.focused))
    }

    /// The next protocol tab, focused on its first panel.
    pub open spec fn cycle_protocol(self) -> AppView {
        let m = next_protocol(self.protocol);
        AppView { protocol: m, ..self }.focus_on(first_panel(m))
    }

    pub open spec fn gql_scroll_up(self) -> AppView {
        AppView {
            gql_response_scroll: if self.gql_response_scroll > 0 {
                (self.gql_response_scroll - 1) as u16
            } else {
                0
            },
            ..self
        }
    }

    pub open spec fn gql_scroll_down(self) -> AppView {
        AppView {
            gql_response_scroll: if self.gql_response_scroll < u16::MAX {
                (self.gql_response_scroll + 1) as u16
            } else {
                u16::MAX
            },
            ..self
        }
    }

    pub open spec fn cycle_method(self) -> AppView {
        AppView { method: method_after(self.method), ..self }
    }

    /// Inserting at the cursor does not panic: the cursor can advance, and
    /// when the text is edited the cursor falls between two characters.
    pub open spec fn can_insert(self) -> bool {
        &&& self.cursor_pos < usize::MAX
        &&& (is_editable(self.focused) && self.cursor_pos <= byte_len(self.active_text()))
            ==> is_boundary(self.active_text(), self.cursor_pos as int)
    }

    /// `c` inserted at the cursor of the focused text (when the cursor is
    /// within it), and the cursor advanced by one.
    pub open spec fn insert_char(self, c: char) -> AppView {
        let t = self.active_text();
        let pos = self.cursor_pos as int;
        let v = if is_editable(self.focused) && pos <= byte_len(t) {
            let k = char_index(t, pos);
            self.set_active(t.take(k) + seq![c] + t.skip(k))
        } else {
            self
        };
        AppView { cursor_pos: (self.cursor_pos + 1) as usize, ..v }
    }

    /// The character before the cursor removed (when the cursor is within
    /// the focused text; a cursor inside a character removes that
    /// character) and the cursor moved to where it started; outside the
    /// text the cursor just moves back by one. Nothing changes at offset 0.
    pub open spec fn delete_char(self) -> AppView {
        if self.cursor_pos == 0 {
            self
        } else {
            let t = self.active_text();
            let pos = self.cursor_pos as int;
            if is_editable(self.focused) && pos <= byte_len(t) {
                let j = char_before(t, pos);
                AppView {
                    cursor_pos: byte_len(t.take(j)) as usize,
                    ..self.set_active(t.take(j) + t.skip(j + 1))
                }
            } else {
                AppView { cursor_pos: (pos - 1) as usize, ..self }
            }
        }
    }

    pub open spec fn move_left(self) -> AppView {
        AppView {
            cursor_pos: if self.cursor_pos > 0 {
                (self.cursor_pos - 1) as usize
            } else {
                0
            },
            ..self
        }
    }

    pub open spec fn move_right(self) -> AppView {
        if self.cursor_pos < byte_len(self.active_text()) {
            AppView { cursor_pos: (self.cursor_pos + 1) as usize, ..self }
        } else {
            self
        }
    }

    pub open spec fn scroll_up(self) -> AppView {
        AppView {
            response_scroll: if self.response_scroll > 0 {
                (self.response_scroll - 1) as u16
            } else {
                0
            },
            ..self
        }
    }

    pub open spec fn scroll_down(self) -> AppView {
        AppView {
            response_scroll: if self.response_scroll < u16::MAX {
                (self.response_scroll + 1) as u16
            } else {
                u16::MAX
            },
            ..self
        }
    }

    /// The cursor on the same column of the previous line (clamped to
    /// that line's end); no change on the first line, outside the text, or
    /// in a panel without text.
    pub open spec fn move_up(self) -> AppView {
        let b = encode_utf8(self.active_text());
        let pos = self.cursor_pos as int;
        if !is_editable(self.focused) || pos > b.len() {
            self
        } else {
            let ls = line_start(b, pos);
            if ls == 0 {
                self
            } else {
                let ps = line_start(b, ls - 1);
                let target = ps + (pos - ls);
                AppView {
                    cursor_pos: (if target < ls - 1 { target } else { ls - 1 }) as usize,
                    ..self
                }
            }
        }
    }

    /// The cursor on the same column of the next line (clamped to that
    /// line's end); no change on the last line, outside the text, or in a
    /// panel without text.
    pub open spec fn move_down(self) -> AppView {
        let b = encode_utf8(self.active_text());
        let pos = self.cursor_pos as int;
        if !is_editable(self.focused) || pos > b.len() {
            self
        } else {
            let le = line_end(b, pos);
            if le == b.len() {
                self
            } else {
                let ne = line_end(b, le + 1);
                let target = le + 1 + (pos - line_start(b, pos));
                AppView { cursor_pos: (if target < ne { target } else { ne }) as usize, ..self }
            }
        }
    }

    /// One step back in the fetched history: the first step keeps the
    /// field's own text as the draft; each step shows the next older entry
    /// and puts the cursor after it. Nothing happens past the oldest entry.
    pub open spec fn history_older(self, h: Seq<Seq<char>>) -> AppView {
        if h.len() > 0 {
            let v = if self.history_index == 0 && self.working_draft is None {
                AppView { working_draft: Some(self.active_text()), ..self }
            } else {
                self
            };
            if v.history_index < h.len() {
                let w = AppView { history_index: (v.history_index + 1) as usize, ..v };
                let x = w.set_active(h[w.history_index - 1]);
                AppView { cursor_pos: byte_len(x.active_text()) as usize, ..x }
            } else {
                v
            }
        } else {
            self
        }
    }

    /// Stepping forward from history index `i` reads entry `i - 2`.
    pub open spec fn can_go_newer(self, h: Seq<Seq<char>>) -> bool {
        self.history_index > 1 ==> self.history_index - 2 < h.len()
    }

    /// One step forward in history: back at index 0 the draft is restored
    /// (and dropped); otherwise the next newer entry is shown. The cursor
    /// goes after the text. Nothing happens at index 0.
    pub open spec fn history_newer(self, h: Seq<Seq<char>>) -> AppView {
        if self.history_index > 0 {
            let w = AppView { history_index: (self.history_index - 1) as usize, ..self };
            let x = if w.history_index == 0 {
                match w.working_draft {
                    Some(d) => AppView { working_draft: None, ..w }.set_active(d),
                    None => w,
                }
            } else {
                w.set_active(h[w.history_index - 1])
            };
            AppView { cursor_pos: byte_len(x.active_text()) as usize, ..x }
        } else {
            self
        }
    }
}

impl App {
    pub fn new() -> (r: Self)
        ensures
            r@.method == "GET"@,
            r@.url.len() == 0,
            r@.headers_raw.len() == 0,
            r@.body_raw.len() == 0,
            r@.response is None,
            r@.focused == FocusedPanel::Url,
            !r@.is_loading,
            !r@.should_quit,
            r@.cursor_pos == 0,
            r@.response_scroll == 0,
            r@.history_cache is None,
            r@.history_index == 0,
            r@.working_draft is None,
            r@.protocol == ProtocolMode::Http,
            r@.gql_endpoint.len() == 0,
            r@.gql_query.len() == 0,
            r@.gql_variables.len() == 0,
            r@.gql_response is None,
            r@.gql_response_scroll == 0,
            r@.ws_url.len() == 0,
            r@.ws_input.len() == 0,
            r@.ws_messages.len() == 0,
            r@.ws_status is Disconnected,
    {
        App {
            method: "GET".to_owned(),
            url: String::new(),
            headers_raw: String::new(),
            body_raw: String::new(),
            response: None,
            focused: FocusedPanel::Url,
            is_loading: false,
            should_quit: false,
            cursor_pos: 0,
            response_scroll: 0,
            history_cache: None,
            history_index: 0,
            working_draft: None,
            protocol: ProtocolMode::Http,
            gql_endpoint: String::new(),
            gql_query: String::new(),
            gql_variables: String::new(),
            gql_response: None,
            gql_response_scroll: 0,
            ws_url: String::new(),
            ws_input: String::new(),
            ws_messages: Vec::new(),
            ws_status: ConnectionStatus::Disconnected,
        }
    }

    /// Cycle through the supported HTTP methods.
    pub fn cycle_method(&mut self)
        ensures
            final(self)@ == old(self)@.cycle_method(),
    {
        let next = if str_eq(self.method.as_str(), "GET") {
            "POST"
        } else if str_eq(self.method.as_str(), "POST") {
            "PUT"
        } else if str_eq(self.method.as_str(), "PUT") {
            "PATCH"
        } else if str_eq(self.method.as_str(), "PATCH") {
            "DELETE"
        } else if str_eq(self.method.as_str(), "DELETE") {
            "HEAD"
        } else if str_eq(self.method.as_str(), "HEAD") {
            "OPTIONS"
        } else {
            "GET"
        };
        self.method = next.to_owned();
    }

    /// The text of panel `p` as a string slice.
    fn text_of(&self, p: FocusedPanel) -> (r: &str)
        ensures
            r@ == self@.text_of(p),
    {
        match p {
            FocusedPanel::Url => self.url.as_str(),
            FocusedPanel::Headers => self.headers_raw.as_str(),
            FocusedPanel::Body => self.body_raw.as_str(),
            FocusedPanel::GqlEndpoint => self.gql_endpoint.as_str(),
            FocusedPanel::GqlQuery => self.gql_query.as_str(),
            FocusedPanel::GqlVariables => self.gql_variables.as_str(),
            FocusedPanel::WsUrl => self.ws_url.as_str(),
            FocusedPanel::WsInput => self.ws_input.as_str(),
            _ => {
                proof {
                    reveal_strlit("");
                }
                ""
            },
        }
    }

    /// Focus on `p` with the cursor after the end of its text.
    pub fn focus_on(&mut self, p: FocusedPanel)
        ensures
            final(self)@ == old(self)@.focus_on(p),
    {
        self.focused = p;
        self.cursor_pos = str_byte_len(self.text_of(p));
    }

    /// Move focus to the next panel in order.
    pub fn focus_next(&mut self)
        ensures
            final(self)@ == old(self)@.focus_next(),
    {
        let next = match self.focused {
            FocusedPanel::Method => FocusedPanel::Url,
            FocusedPanel::Url => FocusedPanel::Headers,
            FocusedPanel::Headers => FocusedPanel::Body,
            FocusedPanel::Body => FocusedPanel::Response,
            FocusedPanel::Response => FocusedPanel::Method,
            FocusedPanel::GqlEndpoint => FocusedPanel::GqlQuery,
            FocusedPanel::GqlQuery => FocusedPanel::GqlVariables,
            FocusedPanel::GqlVariables => FocusedPanel::GqlResponse,
            FocusedPanel::GqlResponse => FocusedPanel::GqlEndpoint,
            FocusedPanel::WsUrl => FocusedPanel::WsMessages,
            FocusedPanel::WsMessages => FocusedPanel::WsInput,
            FocusedPanel::WsInput => FocusedPanel::WsUrl,
        };
        self.focus_on(next);
    }

    /// Move focus to the previous panel.
    pub fn focus_prev(&mut self)
        ensures
            final(self)@ == old(self)@.focus_prev(),
    {
        let prev = match self.focused {
            FocusedPanel::Method => FocusedPanel::Response,
            FocusedPanel::Url => FocusedPanel::Method,
            FocusedPanel::Headers => FocusedPanel::Url,
            FocusedPanel::Body => FocusedPanel::Headers,
            FocusedPanel::Response => FocusedPanel::Body,
            FocusedPanel::GqlEndpoint => FocusedPanel::GqlResponse,
            FocusedPanel::GqlQuery => FocusedPanel::GqlEndpoint,
            FocusedPanel::GqlVariables => FocusedPanel::GqlQuery,
            FocusedPanel::GqlResponse => FocusedPanel::GqlVariables,
            FocusedPanel::WsUrl => FocusedPanel::WsInput,
            FocusedPanel::WsMessages => FocusedPanel::WsUrl,
            FocusedPanel::WsInput => FocusedPanel::WsMessages,
        };
        self.focus_on(prev);
    }

    /// Return a mutable reference to the text buffer for the focused panel.
    pub fn active_text_mut(&mut self) -> (r: Option<&mut String>)
        ensures
            is_editable(old(self).focused) <==> r is Some,
            r matches Some(t) ==> {
                &&& t@ == old(self)@.active_text()
                &&& final(self)@ == old(self)@.set_active(final(t)@)
            },
            r is None ==> final(self)@ == old(self)@,
    {
        match self.focused {
            FocusedPanel::Url => Some(&mut self.url),
            FocusedPanel::Headers => Some(&mut self.headers_raw),
            FocusedPanel::Body => Some(&mut self.body_raw),
            FocusedPanel::GqlEndpoint => Some(&mut self.gql_endpoint),
            FocusedPanel::GqlQuery => Some(&mut self.gql_query),
            FocusedPanel::GqlVariables => Some(&mut self.gql_variables),
            FocusedPanel::WsUrl => Some(&mut self.ws_url),
            FocusedPanel::WsInput => Some(&mut self.ws_input),
            _ => None,
        }
    }

    /// The text of the focused panel (empty for the non-text panels).
    pub fn active_text(&self) -> (r: &str)
        ensures
            r@ == self@.active_text(),
    {
        self.text_of(self.focused)
    }

    /// Push a char at the current cursor position.
    pub fn insert_char(&mut self, c: char)
        requires
            old(self)@.can_insert(),
        ensures
            final(self)@ == old(self)@.insert_char(c),
    {
        let pos = self.cursor_pos;
        let ghost v = self@;
        let ghost t = v.active_text();
        match self.active_text_mut() {
            Some(buf) => {
                if pos <= str_byte_len(buf.as_str()) {
                    proof {
                        let k = char_index(t, pos as int);
                        assert(0 <= k <= t.len() && byte_len(t.take(k)) == pos);
                    }
                    string_insert(buf, pos, c);
                }
            },
            None => {},
        }
        self.cursor_pos = pos + 1;
    }

    /// Delete char before cursor (backspace).
    pub fn delete_char(&mut self)
        ensures
            final(self)@ == old(self)@.delete_char(),
    {
        if self.cursor_pos == 0 {
            return;
        }
        let pos = self.cursor_pos;
        let ghost v = self@;
        let ghost t = v.active_text();
        let mut new_pos = pos - 1;
        match self.active_text_mut() {
            Some(buf) => {
                if pos <= str_byte_len(buf.as_str()) {
                    let start = char_start_before(buf.as_str(), pos);
                    let ghost j = char_before(t, pos as int);
                    proof {
                        lemma_prefix_bytes_mono(t, j + 1, t.len() as int);
                        assert(t.take(t.len() as int) =~= t);
                        lemma_char_index_unique(t, j);
                        assert forall|k: int|
                            0 <= k < t.len() && #[trigger] byte_len(t.take(k)) == start implies k
                            == j by {
                            lemma_char_index_unique(t, k);
                        }
                    }
                    let _ = string_remove(buf, start);
                    new_pos = start;
                }
            },
            None => {},
        }
        self.cursor_pos = new_pos;
    }

    pub fn move_cursor_left(&mut self)
        ensures
            final(self)@ == old(self)@.move_left(),
    {
        self.cursor_pos = if self.cursor_pos > 0 {
            self.cursor_pos - 1
        } else {
            0
        };
    }

    pub fn move_cursor_right(&mut self)
        ensures
            final(self)@ == old(self)@.move_right(),
    {
        let max = str_byte_len(self.active_text());
        if self.cursor_pos < max {
            self.cursor_pos += 1;
        }
    }
}


impl App {
    /// Replaces the focused panel's text (no change for the non-text panels).
    fn set_active_text(&mut self, t: String)
        ensures
            final(self)@ == old(self)@.set_active(t@),
    {
        match self.active_text_mut() {
            Some(buf) => {
                *buf = t;
            },
            None => {},
        }
    }

    /// Switches to the next protocol tab, focused on its first panel.
    pub fn cycle_protocol(&mut self)
        ensures
            final(self)@ == old(self)@.cycle_protocol(),
    {
        let (next, panel) = match self.protocol {
            ProtocolMode::Http => (ProtocolMode::GraphQL, FocusedPanel::GqlEndpoint),
            ProtocolMode::GraphQL => (ProtocolMode::WebSocket, FocusedPanel::WsUrl),
            ProtocolMode::WebSocket => (ProtocolMode::Http, FocusedPanel::Url),
        };
        self.protocol = next;
        self.focus_on(panel);
    }

    /// Scrolls the GraphQL response pane up one line (not past the top).
    pub fn scroll_gql_response_up(&mut self)
        ensures
            final(self)@ == old(self)@.gql_scroll_up(),
    {
        self.gql_response_scroll = if self.gql_response_scroll > 0 {
            self.gql_response_scroll - 1
        } else {
            0
        };
    }

    /// Scrolls the GraphQL response pane down one line (saturating).
    pub fn scroll_gql_response_down(&mut self)
        ensures
            final(self)@ == old(self)@.gql_scroll_down(),
    {
        self.gql_response_scroll = if self.gql_response_scroll < u16::MAX {
            self.gql_response_scroll + 1
        } else {
            u16::MAX
        };
    }

    /// Scrolls the response pane up one line (not past the top).
    pub fn scroll_response_up(&mut self)
        ensures
            final(self)@ == old(self)@.scroll_up(),
    {
        self.response_scroll = if self.response_scroll > 0 {
            self.response_scroll - 1
        } else {
            0
        };
    }

    /// Scrolls the response pane down one line (saturating).
    pub fn scroll_response_down(&mut self)
        ensures
            final(self)@ == old(self)@.scroll_down(),
    {
        self.response_scroll = if self.response_scroll < u16::MAX {
            self.response_scroll + 1
        } else {
            u16::MAX
        };
    }

    /// Moves the cursor to the same column of the previous line.
    pub fn move_cursor_up(&mut self)
        ensures
            final(self)@ == old(self)@.move_up(),
    {
        if !self.is_editable_focused() {
            return;
        }
        let b = self.active_text().as_bytes();
        let pos = self.cursor_pos;
        if pos > b.len() {
            return;
        }
        let ls = line_start_of(b, pos);
        if ls == 0 {
            return;
        }
        let ps = line_start_of(b, ls - 1);
        let col = pos - ls;
        let target = if col < (ls - 1) - ps {
            ps + col
        } else {
            ls - 1
        };
        self.cursor_pos = target;
    }

    /// Moves the cursor to the same column of the next line.
    pub fn move_cursor_down(&mut self)
        ensures
            final(self)@ == old(self)@.move_down(),
    {
        if !self.is_editable_focused() {
            return;
        }
        let b = self.active_text().as_bytes();
        let pos = self.cursor_pos;
        if pos > b.len() {
            return;
        }
        let le = line_end_of(b, pos);
        if le == b.len() {
            return;
        }
        let ne = line_end_of(b, le + 1);
        let col = pos - line_start_of(b, pos);
        let target = if col < ne - (le + 1) {
            le + 1 + col
        } else {
            ne
        };
        self.cursor_pos = target;
    }

    /// Whether the focused panel holds editable text.
    pub fn is_editable_focused(&self) -> (r: bool)
        ensures
            r == is_editable(self.focused),
    {
        match self.focused {
            FocusedPanel::Url | FocusedPanel::Headers | FocusedPanel::Body => true,
            FocusedPanel::GqlEndpoint | FocusedPanel::GqlQuery | FocusedPanel::GqlVariables => true,
            FocusedPanel::WsUrl | FocusedPanel::WsInput => true,
            _ => false,
        }
    }

    /// Whether the focused panel holds several lines.
    pub fn is_multiline_focused(&self) -> (r: bool)
        ensures
            r == is_multiline(self.focused),
    {
        match self.focused {
            FocusedPanel::Headers | FocusedPanel::Body => true,
            FocusedPanel::GqlQuery | FocusedPanel::GqlVariables => true,
            _ => false,
        }
    }

    /// Shows the next older history entry in the focused field.
    pub fn history_older(&mut self)
        ensures
            final(self)@ == old(self)@.history_older(cached(old(self)@)),
    {
        let ghost h = cached(self@);
        let len = match &self.history_cache {
            Some(c) => c.len(),
            None => 0,
        };
        if len > 0 {
            if self.history_index == 0 && self.working_draft.is_none() {
                self.working_draft = Some(self.active_text().to_owned());
            }
            if self.history_index < len {
                self.history_index += 1;
                let next_text = match &self.history_cache {
                    Some(c) => c[self.history_index - 1].clone(),
                    None => String::new(),
                };
                assert(next_text@ == h[self.history_index - 1]);
                self.set_active_text(next_text);
                self.cursor_pos = str_byte_len(self.active_text());
            }
        }
    }

    /// Shows the next newer history entry, or the draft back at the start.
    pub fn history_newer(&mut self)
        requires
            old(self)@.can_go_newer(cached(old(self)@)),
        ensures
            final(self)@ == old(self)@.history_newer(cached(old(self)@)),
    {
        if self.history_index > 0 {
            self.history_index -= 1;
            if self.history_index == 0 {
                match self.working_draft.take() {
                    Some(draft) => {
                        self.set_active_text(draft);
                    },
                    None => {},
                }
            } else {
                let next_text = match &self.history_cache {
                    Some(c) => c[self.history_index - 1].clone(),
                    None => String::new(),
                };
                self.set_active_text(next_text);
            }
            self.cursor_pos = str_byte_len(self.active_text());
        }
    }
}

/// The offset where the line holding `pos` starts.
fn line_start_of(b: &[u8], pos: usize) -> (r: usize)
    requires
        pos <= b@.len(),
    ensures
        r as int == line_start(b@, pos as int),
        r <= pos,
{
    let mut i = pos;
    while i > 0 && b[i - 1] != 10
        invariant
            i <= pos <= b@.len(),
            line_start(b@, pos as int) == line_start(b@, i as int),
        decreases i,
    {
        i -= 1;
    }
    i
}

/// The offset of the first newline at or after `pos`, or the length.
fn line_end_of(b: &[u8], pos: usize) -> (r: usize)
    requires
        pos <= b@.len(),
    ensures
        r as int == line_end(b@, pos as int),
        pos <= r <= b@.len(),
{
    let mut i = pos;
    while i < b.len() && b[i] != 10
        invariant
            pos <= i <= b@.len(),
            line_end(b@, pos as int) == line_end(b@, i as int),
        decreases b@.len() - i,
    {
        i += 1;
    }
    i
}

/// Which stored history a text field pages through.
pub enum HistorySource {
    /// Recently used URLs.
    Urls,
    /// Recently sent header blocks.
    Headers,
    /// Bodies recently sent to the given URL.
    BodiesForUrl(String),
    /// Bodies recently sent to any URL.
    Bodies,
}

impl App {
    /// The history the focused field pages through: URLs for the URL
    /// field, header blocks for the headers, bodies sent to the trimmed URL
    /// (or to any URL while it is blank) for the body; none elsewhere.
    pub fn history_source(&self) -> (r: Option<HistorySource>)
        ensures
            match self.focused {
                FocusedPanel::Url => r matches Some(HistorySource::Urls),
                FocusedPanel::Headers => r matches Some(HistorySource::Headers),
                FocusedPanel::Body => if trim(self.url@).len() > 0 {
                    r matches Some(HistorySource::BodiesForUrl(u)) && u@ == trim(self.url@)
                } else {
                    r matches Some(HistorySource::Bodies)
                },
                _ => r is None,
            },
    {
        match self.focused {
            FocusedPanel::Url => Some(HistorySource::Urls),
            FocusedPanel::Headers => Some(HistorySource::Headers),
            FocusedPanel::Body => {
                let u = trim_string(self.url.as_str());
                if u.as_str().is_empty() {
                    Some(HistorySource::Bodies)
                } else {
                    Some(HistorySource::BodiesForUrl(u))
                }
            },
            _ => None,
        }
    }

    /// Starts sending the form: when the URL is not blank, clears the last
    /// response and hands back the request to send; otherwise nothing
    /// happens.
    pub fn begin_send(&mut self) -> (r: Option<HttpRequest>)
        ensures
            r is Some <==> form_request_ok(old(self).url@),
            r matches Some(req) ==> {
                &&& is_form_request(
                    req,
                    old(self).method@,
                    old(self).url@,
                    old(self).headers_raw@,
                    old(self).body_raw@,
                )
                &&& final(self)@ == (AppView { response: None, ..old(self)@ })
            },
            r is None ==> final(self)@ == old(self)@,
    {
        let req = request_from_form(
            self.method.as_str(),
            self.url.as_str(),
            self.headers_raw.as_str(),
            self.body_raw.as_str(),
        );
        if req.is_some() {
            self.response = None;
        }
        req
    }

    /// Records how sending ended: a response is shown with the focus on the
    /// response pane, an error message is shown in its place; loading ends.
    pub fn finish_send(&mut self, result: Result<HttpResponse, String>)
        ensures
            match result {
                Ok(resp) => final(self)@ == (AppView {
                    focused: FocusedPanel::Response,
                    response: Some(Ok(resp)),
                    is_loading: false,
                    ..old(self)@
                }),
                Err(e) => final(self)@ == (AppView {
                    response: Some(Err(e)),
                    is_loading: false,
                    ..old(self)@
                }),
            },
    {
        match result {
            Ok(resp) => {
                self.focused = FocusedPanel::Response;
                self.response = Some(Ok(resp));
            },
            Err(e) => {
                self.response = Some(Err(e));
            },
        }
        self.is_loading = false;
    }
}

/// The variables a GraphQL form sends: its variables text, when it is not
/// blank and parses as JSON; none otherwise.
pub open spec fn form_variables(vars: Seq<char>) -> Option<Seq<char>> {
    if trim(vars).len() > 0 && parses_as_json(vars) {
        Some(vars)
    } else {
        None
    }
}

/// The line logged when the WebSocket tab is sent without a URL.
pub open spec fn ws_url_missing_line() -> Seq<char> {
    "⚠ Enter a WebSocket URL first (ws:// or wss://)"@
}

/// The line logged for a message typed in the WebSocket tab.
pub open spec fn ws_sent_line(input: Seq<char>) -> Seq<char> {
    "→ Sent: "@ + trim(input)
}

/// The line logged when the WebSocket tab is sent with nothing typed: live
/// sessions are run from the command line.
pub open spec fn ws_hint_line(url: Seq<char>) -> Seq<char> {
    "ℹ  Use  reqly ws "@ + trim(url) + "  in the terminal for live WebSocket sessions."@
}

/// What sending the WebSocket tab does to the interface.
pub open spec fn ws_send_step(v: AppView) -> AppView {
    if trim(v.ws_url).len() == 0 {
        AppView { ws_messages: v.ws_messages.push(ws_url_missing_line()), ..v }
    } else if trim(v.ws_input).len() > 0 {
        AppView {
            ws_messages: v.ws_messages.push(ws_sent_line(v.ws_input)),
            ws_input: Seq::<char>::empty(),
            cursor_pos: 0,
            ..v
        }
    } else {
        AppView {
            ws_messages: v.ws_messages.push(ws_hint_line(v.ws_url)),
            ws_status: ConnectionStatus::Disconnected,
            ..v
        }
    }
}

impl App {
    /// Starts sending the GraphQL form: when neither the endpoint nor the
    /// query is blank, clears the last GraphQL response and hands back the
    /// query to send (trimmed endpoint and query, with the variables when
    /// they are JSON); otherwise nothing happens.
    pub fn begin_graphql(&mut self) -> (r: Option<GraphqlQuery>)
        ensures
            r is Some <==> (trim(old(self).gql_endpoint@).len() > 0 && trim(
                old(self).gql_query@,
            ).len() > 0),
            r matches Some(q) ==> {
                &&& q.url@ == trim(old(self).gql_endpoint@)
                &&& q.query@ == trim(old(self).gql_query@)
                &&& opt_view(q.variables) == form_variables(old(self).gql_variables@)
                &&& q.operation_name is None
                &&& q.headers@ == Seq::<(Seq<char>, Seq<char>)>::empty()
                &&& final(self)@ == (AppView { gql_response: None, ..old(self)@ })
            },
            r is None ==> final(self)@ == old(self)@,
    {
        let endpoint = trim_string(self.gql_endpoint.as_str());
        let query = trim_string(self.gql_query.as_str());
        if endpoint.as_str().is_empty() || query.as_str().is_empty() {
            return None;
        }
        self.gql_response = None;
        let mut q = GraphqlQuery::new(endpoint.as_str(), query.as_str());
        let vars = trim_string(self.gql_variables.as_str());
        if !vars.as_str().is_empty() && json_parses(self.gql_variables.as_str()) {
            q = q.with_variables(self.gql_variables.as_str());
        }
        Some(q)
    }

    /// Records how a GraphQL request ended: a response is shown with the
    /// focus on the GraphQL response pane, an error message is shown in its
    /// place; loading ends.
    pub fn finish_graphql(&mut self, result: Result<GraphqlResponse, String>)
        ensures
            match result {
                Ok(resp) => final(self)@ == (AppView {
                    focused: FocusedPanel::GqlResponse,
                    gql_response: Some(Ok(resp)),
                    is_loading: false,
                    ..old(self)@
                }),
                Err(e) => final(self)@ == (AppView {
                    gql_response: Some(Err(e)),
                    is_loading: false,
                    ..old(self)@
                }),
            },
    {
        match result {
            Ok(resp) => {
                self.focused = FocusedPanel::GqlResponse;
                self.gql_response = Some(Ok(resp));
            },
            Err(e) => {
                self.gql_response = Some(Err(e));
            },
        }
        self.is_loading = false;
    }

    /// Appends a line to the WebSocket tab's message log.
    pub fn push_ws_message(&mut self, msg: String)
        ensures
            final(self)@ == (AppView { ws_messages: old(self)@.ws_messages.push(msg@), ..old(self)@ }),
    {
        self.ws_messages.push(msg);
        proof {
            assert(self.ws_messages@.map_values(|m: String| m@) =~= old(self)@.ws_messages.push(
                msg@,
            ));
        }
    }

    /// Sends the WebSocket tab: without a URL a warning is logged; a typed
    /// message is logged as sent and the input cleared; with nothing typed
    /// a line points to the command line for live sessions.
    pub fn ws_connect_or_send(&mut self)
        ensures
            final(self)@ == ws_send_step(old(self)@),
    {
        let url = trim_string(self.ws_url.as_str());
        if url.as_str().is_empty() {
            self.push_ws_message("⚠ Enter a WebSocket URL first (ws:// or wss://)".to_owned());
            return ;
        }
        let input = trim_string(self.ws_input.as_str());
        if !input.as_str().is_empty() {
            let mut msg = String::new();
            msg.append("→ Sent: ");
            msg.append(input.as_str());
            self.push_ws_message(msg);
            self.ws_input = String::new();
            self.cursor_pos = 0;
        } else {
            self.ws_status = ConnectionStatus::Connecting;
            let mut msg = String::new();
            msg.append("ℹ  Use  reqly ws ");
            msg.append(url.as_str());
            msg.append("  in the terminal for live WebSocket sessions.");
            self.push_ws_message(msg);
            self.ws_status = ConnectionStatus::Disconnected;
        }
    }
}

// ─── Laws ────────────────────────────────────────────────────────────────────

/// Moving focus forward and then back (or back and then forward) returns
/// to the same panel; focus stays within the tab of the panel, and goes
/// round the HTTP tab in five steps, the GraphQL tab in four and the
/// WebSocket tab in three.
pub proof fn law_focus_cycle(p: FocusedPanel)
    ensures
        prev_panel(next_panel(p)) == p,
        next_panel(prev_panel(p)) == p,
        panel_tab(next_panel(p)) == panel_tab(p),
        panel_tab(p) is Http ==> next_panel(next_panel(next_panel(next_panel(next_panel(p))))) == p,
        panel_tab(p) is GraphQL ==> next_panel(next_panel(next_panel(next_panel(p)))) == p,
        panel_tab(p) is WebSocket ==> next_panel(next_panel(next_panel(p))) == p,
{
}

/// The protocol tab a panel belongs to.
pub open spec fn panel_tab(p: FocusedPanel) -> ProtocolMode {
    match p {
        FocusedPanel::Method | FocusedPanel::Url | FocusedPanel::Headers | FocusedPanel::Body
        | FocusedPanel::Response => ProtocolMode::Http,
        FocusedPanel::GqlEndpoint | FocusedPanel::GqlQuery | FocusedPanel::GqlVariables
        | FocusedPanel::GqlResponse => ProtocolMode::GraphQL,
        _ => ProtocolMode::WebSocket,
    }
}

/// Cycling the protocol three times comes back to the same tab, focused on
/// its first panel; each cycle focuses the new tab's first panel.
pub proof fn law_protocol_cycle(v: AppView)
    ensures
        v.cycle_protocol().cycle_protocol().cycle_protocol().protocol == v.protocol,
        v.cycle_protocol().cycle_protocol().cycle_protocol().focused == first_panel(v.protocol),
        panel_tab(v.cycle_protocol().focused) == v.cycle_protocol().protocol,
{
}

/// After moving focus forward and back, the state is the original one with
/// the cursor put after the end of the focused text.
pub proof fn law_focus_next_prev(v: AppView)
    ensures
        v.focus_next().focus_prev() == v.focus_on(v.focused),
{
}

/// Cycling the method goes through the seven methods and returns to the
/// start after seven steps; any other text goes to GET.
pub proof fn law_method_cycle(m: Seq<char>)
    ensures
        method_after(m) == "GET"@ || method_after(m) == "POST"@ || method_after(m) == "PUT"@
            || method_after(m) == "PATCH"@ || method_after(m) == "DELETE"@ || method_after(m)
            == "HEAD"@ || method_after(m) == "OPTIONS"@,
        (m == "GET"@ || m == "POST"@ || m == "PUT"@ || m == "PATCH"@ || m == "DELETE"@ || m
            == "HEAD"@ || m == "OPTIONS"@) ==> method_after(
            method_after(method_after(method_after(method_after(method_after(method_after(m)))))),
        ) == m,
{
    reveal_strlit("GET");
    reveal_strlit("POST");
    reveal_strlit("PUT");
    reveal_strlit("PATCH");
    reveal_strlit("DELETE");
    reveal_strlit("HEAD");
    reveal_strlit("OPTIONS");
    assert("GET"@ != "PUT"@) by {
        assert("GET"@[0] != "PUT"@[0]);
    }
    assert("POST"@ != "HEAD"@) by {
        assert("POST"@[0] != "HEAD"@[0]);
    }
    assert("GET"@.len() == 3 && "PUT"@.len() == 3 && "POST"@.len() == 4 && "HEAD"@.len() == 4);
    assert("PATCH"@.len() == 5 && "DELETE"@.len() == 6 && "OPTIONS"@.len() == 7);
    assert(method_after("GET"@) == "POST"@);
    assert(method_after("POST"@) == "PUT"@);
    assert(method_after("PUT"@) == "PATCH"@);
    assert(method_after("PATCH"@) == "DELETE"@);
    assert(method_after("DELETE"@) == "HEAD"@);
    assert(method_after("HEAD"@) == "OPTIONS"@);
    assert(method_after("OPTIONS"@) == "GET"@);
}

/// Paging back into history and then forward again restores the field's
/// own text, drops the kept draft, and leaves the cursor after the text.
pub proof fn law_history_round_trip(v: AppView, h: Seq<Seq<char>>)
    requires
        is_editable(v.focused),
        v.history_index == 0,
        v.working_draft is None,
        h.len() > 0,
    ensures
        v.history_older(h).history_newer(h) == (AppView {
            cursor_pos: byte_len(v.active_text()) as usize,
            ..v
        }),
{
}

/// Typing a character and then deleting it (backspace) gives back the
/// original text and cursor.
pub proof fn law_insert_then_delete(v: AppView, c: char)
    requires
        is_editable(v.focused),
        v.can_insert(),
        v.cursor_pos <= byte_len(v.active_text()),
    ensures
        v.insert_char(c).delete_char() == v,
{
    let t = v.active_text();
    let pos = v.cursor_pos as int;
    let k = char_index(t, pos);
    let t2 = t.take(k) + seq![c] + t.skip(k);
    let w = v.insert_char(c);
    assert(w.active_text() == t2);
    assert(t2.take(k) =~= t.take(k));
    assert(t2.take(k + 1) =~= t.take(k).push(c));
    assert(t2[k] == c);
    lemma_prefix_bytes_strict(t2, k, k + 1);
    assert(t2.take(t2.len() as int) =~= t2);
    lemma_prefix_bytes_mono(t2, k + 1, t2.len() as int);
    lemma_char_before_unique(t2, pos + 1, k);
    assert(t2.take(k) + t2.skip(k + 1) =~= t);
    assert(t.take(k) + t.skip(k) =~= t);
}

} // verus!
