//! How a key press changes the interface state: the key bindings, and the
//! action handed back to the program around the interface.

use vstd::prelude::*;

use super::app::{cached, is_editable, is_multiline, App, AppView, FocusedPanel, ProtocolMode};
use crate::formatter::pretty_or_raw;
use crate::text::{
    byte_len, char_index, is_boundary, is_char_boundary_at, lemma_ascii_one_byte, str_byte_len,
};

verus! {

/// A key as the interface sees it.
#[derive(Debug, Clone, Copy, PartialEq, Eq, Structural)]
pub enum KeyCode {
    Char(char),
    Enter,
    Tab,
    BackTab,
    Backspace,
    Left,
    Right,
    Up,
    Down,
    PageUp,
    PageDown,
    F(u8),
    Other,
}

/// The modifiers held with a key: none, exactly Control, exactly Shift, or
/// any other combination.
#[derive(Debug, Clone, Copy, PartialEq, Eq, Structural)]
pub enum KeyMods {
    Plain,
    Control,
    Shift,
    Other,
}

/// A key press.
#[derive(Debug, Clone, Copy, PartialEq, Eq, Structural)]
pub struct KeyInput {
    pub mods: KeyMods,
    pub code: KeyCode,
}

/// The result of processing an event.
#[derive(Debug, Clone, Copy, PartialEq, Eq, Structural)]
pub enum EventOutcome {
    Continue,
    SendRequest,
    Quit,
}

/// What the program around the interface does after a key press: act on
/// the outcome, fetch the focused field's history and hand the key over
/// again, or copy text to the clipboard and go on.
pub enum KeyAction {
    Outcome(EventOutcome),
    FetchHistory,
    Copy(String),
}

/// What a key does inside an editable panel.
#[derive(Debug, Clone, Copy, PartialEq, Eq, Structural)]
pub enum EditKey {
    Insert(char),
    Backspace,
    Left,
    Right,
    Up,
    Down,
    Indent,
    NextPanel,
    Older,
    Newer,
    Newline,
    Nothing,
}

/// What a key press does.
#[derive(Debug, Clone, Copy, PartialEq, Eq, Structural)]
pub enum KeyPlan {
    Quit,
    Send,
    CycleProtocol,
    FocusNext,
    FocusPrev,
    Jump(FocusedPanel),
    CycleMethod,
    CopyResponse,
    CopyGqlResponse,
    ScrollUp,
    ScrollDown,
    GqlScrollUp,
    GqlScrollDown,
    Stay,
    Edit(EditKey),
}

/// The key a press stands for inside an editable panel: Control+Up and
/// Control+Down page through history, other modifiers are ignored.
pub open spec fn edit_key(focused: FocusedPanel, k: KeyInput) -> EditKey {
    let code = if k.mods is Control && k.code is Up {
        KeyCode::PageUp
    } else if k.mods is Control && k.code is Down {
        KeyCode::PageDown
    } else {
        k.code
    };
    match code {
        KeyCode::Char(c) => EditKey::Insert(c),
        KeyCode::Backspace => EditKey::Backspace,
        KeyCode::Left => EditKey::Left,
        KeyCode::Right => EditKey::Right,
        KeyCode::Up => EditKey::Up,
        KeyCode::Down => EditKey::Down,
        KeyCode::Tab => if is_multiline(focused) {
            EditKey::Indent
        } else {
            EditKey::NextPanel
        },
        KeyCode::PageUp => EditKey::Older,
        KeyCode::PageDown => EditKey::Newer,
        KeyCode::Enter => if is_multiline(focused) {
            EditKey::Newline
        } else {
            EditKey::Nothing
        },
        _ => EditKey::Nothing,
    }
}

/// The panels on which Enter sends: the single-line fields that name a
/// target or hold a message, and the response panes (to send again).
pub open spec fn enter_sends(p: FocusedPanel) -> bool {
    ||| p is Method || p is Url || p is GqlEndpoint || p is WsUrl || p is WsInput
    ||| p is Response || p is GqlResponse
}

/// The key bindings: global shortcuts first, in order, then the editing
/// keys of an editable panel.
pub open spec fn key_plan(focused: FocusedPanel, protocol: ProtocolMode, k: KeyInput) -> KeyPlan {
    let m = k.mods;
    let c = k.code;
    if m is Control && c == KeyCode::Char('c') {
        KeyPlan::Quit
    } else if m is Control && c == KeyCode::Char('p') {
        KeyPlan::CycleProtocol
    } else if m is Plain && c == KeyCode::F(6) {
        KeyPlan::FocusNext
    } else if (m is Plain && c == KeyCode::F(7)) || (m is Shift && c is BackTab) {
        KeyPlan::FocusPrev
    } else if m is Plain && c is Tab && !is_multiline(focused) {
        KeyPlan::FocusNext
    } else if m is Control && c == KeyCode::Char('u') && protocol is Http {
        KeyPlan::Jump(FocusedPanel::Url)
    } else if m is Control && c == KeyCode::Char('h') && protocol is Http {
        KeyPlan::Jump(FocusedPanel::Headers)
    } else if m is Control && c == KeyCode::Char('b') && protocol is Http {
        KeyPlan::Jump(FocusedPanel::Body)
    } else if m is Control && c == KeyCode::Char('q') && protocol is GraphQL {
        KeyPlan::Jump(FocusedPanel::GqlQuery)
    } else if m is Control && c == KeyCode::Char('v') && protocol is GraphQL {
        KeyPlan::Jump(FocusedPanel::GqlVariables)
    } else if m is Control && c == KeyCode::Char('s') {
        KeyPlan::Send
    } else if m is Plain && c is Enter && enter_sends(focused) {
        KeyPlan::Send
    } else if m is Plain && c == KeyCode::Char(' ') && focused is Method {
        KeyPlan::CycleMethod
    } else if m is Plain && (c == KeyCode::Char('y') || c == KeyCode::Char('c')) && focused is Response {
        KeyPlan::CopyResponse
    } else if m is Plain && (c == KeyCode::Char('y') || c == KeyCode::Char('c')) && focused is GqlResponse {
        KeyPlan::CopyGqlResponse
    } else if m is Plain && c is Up && focused is Response {
        KeyPlan::ScrollUp
    } else if m is Plain && c is Up && focused is GqlResponse {
        KeyPlan::GqlScrollUp
    } else if m is Plain && c is Down && focused is Response {
        KeyPlan::ScrollDown
    } else if m is Plain && c is Down && focused is GqlResponse {
        KeyPlan::GqlScrollDown
    } else if m is Plain && (c is Up || c is Down) && focused is WsMessages {
        KeyPlan::Stay
    } else if is_editable(focused) {
        KeyPlan::Edit(edit_key(focused, k))
    } else {
        KeyPlan::Stay
    }
}

/// The history must be fetched before this step.
pub open spec fn needs_history(v: AppView, e: EditKey) -> bool {
    v.history_cache is None && (e is Older || (e is Newer && v.history_index > 1))
}

/// Four spaces inserted at the cursor.
pub open spec fn indent(v: AppView) -> AppView {
    v.insert_char(' ').insert_char(' ').insert_char(' ').insert_char(' ')
}

/// The state after an editing key.
pub open spec fn apply_edit(v: AppView, e: EditKey) -> AppView {
    match e {
        EditKey::Insert(c) => v.insert_char(c),
        EditKey::Backspace => v.delete_char(),
        EditKey::Left => v.move_left(),
        EditKey::Right => v.move_right(),
        EditKey::Up => v.move_up(),
        EditKey::Down => v.move_down(),
        EditKey::Indent => indent(v),
        EditKey::NextPanel => v.focus_next(),
        EditKey::Older => v.history_older(cached(v)),
        EditKey::Newer => v.history_newer(cached(v)),
        EditKey::Newline => v.insert_char('\n'),
        EditKey::Nothing => v,
    }
}

/// The state after a key press (when no history has to be fetched first).
pub open spec fn apply_plan(v: AppView, p: KeyPlan) -> AppView {
    match p {
        KeyPlan::CycleProtocol => v.cycle_protocol(),
        KeyPlan::FocusNext => v.focus_next(),
        KeyPlan::FocusPrev => v.focus_prev(),
        KeyPlan::Jump(panel) => v.focus_on(panel),
        KeyPlan::CycleMethod => v.cycle_method(),
        KeyPlan::ScrollUp => v.scroll_up(),
        KeyPlan::ScrollDown => v.scroll_down(),
        KeyPlan::GqlScrollUp => v.gql_scroll_up(),
        KeyPlan::GqlScrollDown => v.gql_scroll_down(),
        KeyPlan::Edit(e) => apply_edit(v, e),
        _ => v,
    }
}

/// The plan of a key press in state `v`.
pub open spec fn plan_of(v: AppView, k: KeyInput) -> KeyPlan {
    key_plan(v.focused, v.protocol, k)
}

/// A key press can be handled without panicking: edits happen between two
/// characters and history steps stay within the fetched entries.
pub open spec fn key_ok(v: AppView, k: KeyInput) -> bool {
    match plan_of(v, k) {
        KeyPlan::Edit(EditKey::Insert(_)) => v.can_insert(),
        KeyPlan::Edit(EditKey::Newline) => v.can_insert(),
        KeyPlan::Edit(EditKey::Indent) => v.can_insert() && v.cursor_pos + 4 < usize::MAX,
        KeyPlan::Edit(EditKey::Newer) => v.can_go_newer(cached(v)),
        _ => true,
    }
}

/// How a key press ends: the action handed back and the new state.
pub open spec fn key_step(v: AppView, k: KeyInput, w: AppView, r: KeyAction) -> bool {
    let p = plan_of(v, k);
    match p {
        KeyPlan::Quit => r == KeyAction::Outcome(EventOutcome::Quit) && w == v,
        KeyPlan::Send => r == KeyAction::Outcome(EventOutcome::SendRequest) && w == v,
        KeyPlan::CopyResponse => w == v && match v.response {
            Some(Ok(resp)) => r matches KeyAction::Copy(t) && t@ == resp.body@,
            _ => r == KeyAction::Outcome(EventOutcome::Continue),
        },
        KeyPlan::CopyGqlResponse => w == v && match v.gql_response {
            Some(Ok(resp)) => r matches KeyAction::Copy(t) && t@ == pretty_or_raw(resp.raw_body@),
            _ => r == KeyAction::Outcome(EventOutcome::Continue),
        },
        KeyPlan::Edit(e) => if needs_history(v, e) {
            r == KeyAction::FetchHistory && w == v
        } else {
            r == KeyAction::Outcome(EventOutcome::Continue) && w == apply_plan(v, p)
        },
        _ => r == KeyAction::Outcome(EventOutcome::Continue) && w == apply_plan(v, p),
    }
}

/// Enter sends from the single-line fields (method, URL, endpoint,
/// WebSocket URL and message) and sends again from either response pane:
/// the press is always accepted, hands back `SendRequest` and changes
/// nothing. In a multi-line field it starts a new line instead.
pub proof fn law_enter_sends_or_breaks_line(v: AppView, w: AppView, r: KeyAction)
    ensures
        ({
            let enter = KeyInput { mods: KeyMods::Plain, code: KeyCode::Enter };
            &&& (v.focused is Method || v.focused is Url || v.focused is GqlEndpoint
                || v.focused is WsUrl || v.focused is WsInput || v.focused is Response
                || v.focused is GqlResponse) ==> {
                &&& key_ok(v, enter)
                &&& key_step(v, enter, w, r) ==> r == KeyAction::Outcome(EventOutcome::SendRequest)
                    && w == v
            }
            &&& (v.focused is Headers || v.focused is Body || v.focused is GqlQuery
                || v.focused is GqlVariables) ==> {
                &&& key_ok(v, enter) == v.can_insert()
                &&& key_step(v, enter, w, r) ==> r == KeyAction::Outcome(EventOutcome::Continue)
                    && w == v.insert_char('\n')
            }
        }),
{
}

/// Control+Up pages back through history exactly as PageUp does, and
/// Control+Down forward exactly as PageDown does: in every state the two
/// presses have the same binding, can be handled on the same states, and
/// end the same way.
pub proof fn law_ctrl_arrows_page_history(v: AppView)
    ensures
        ({
            let ctrl_up = KeyInput { mods: KeyMods::Control, code: KeyCode::Up };
            let page_up = KeyInput { mods: KeyMods::Plain, code: KeyCode::PageUp };
            &&& plan_of(v, ctrl_up) == plan_of(v, page_up)
            &&& key_ok(v, ctrl_up) == key_ok(v, page_up)
            &&& forall|w: AppView, r: KeyAction|
                key_step(v, ctrl_up, w, r) == #[trigger] key_step(v, page_up, w, r)
        }),
        ({
            let ctrl_down = KeyInput { mods: KeyMods::Control, code: KeyCode::Down };
            let page_down = KeyInput { mods: KeyMods::Plain, code: KeyCode::PageDown };
            &&& plan_of(v, ctrl_down) == plan_of(v, page_down)
            &&& key_ok(v, ctrl_down) == key_ok(v, page_down)
            &&& forall|w: AppView, r: KeyAction|
                key_step(v, ctrl_down, w, r) == #[trigger] key_step(v, page_down, w, r)
        }),
{
}

/// Four spaces can be inserted one after another when the first can.
proof fn lemma_indent_ok(v: AppView)
    requires
        v.can_insert(),
        v.cursor_pos + 4 < usize::MAX,
    ensures
        v.insert_char(' ').can_insert(),
        v.insert_char(' ').insert_char(' ').can_insert(),
        v.insert_char(' ').insert_char(' ').insert_char(' ').can_insert(),
{
    lemma_space_keeps_insert_ok(v);
    lemma_space_keeps_insert_ok(v.insert_char(' '));
    lemma_space_keeps_insert_ok(v.insert_char(' ').insert_char(' '));
}

/// After inserting a space, the cursor is again between two characters.
proof fn lemma_space_keeps_insert_ok(v: AppView)
    requires
        v.can_insert(),
        v.cursor_pos + 1 < usize::MAX,
    ensures
        v.insert_char(' ').can_insert(),
        v.insert_char(' ').cursor_pos == v.cursor_pos + 1,
        v.insert_char(' ').focused == v.focused,
{
    let t = v.active_text();
    let pos = v.cursor_pos as int;
    let w = v.insert_char(' ');
    if is_editable(v.focused) && pos <= byte_len(t) {
        let k = char_index(t, pos);
        let t2 = t.take(k) + seq![' '] + t.skip(k);
        assert(w.active_text() == t2);
        assert(t2.take(k + 1) =~= t.take(k).push(' '));
        lemma_ascii_one_byte(t.take(k), ' ');
        assert(byte_len(t2.take(k + 1)) == pos + 1);
        assert(is_boundary(t2, pos + 1));
    } else {
        assert(w.active_text() == t);
    }
}

/// Picks the binding for a key press.
pub fn plan_key(focused: FocusedPanel, protocol: ProtocolMode, key: &KeyInput) -> (p: KeyPlan)
    ensures
        p == key_plan(focused, protocol, *key),
{
    let m = key.mods;
    let c = key.code;
    let multiline = focused == FocusedPanel::Headers || focused == FocusedPanel::Body || focused
        == FocusedPanel::GqlQuery || focused == FocusedPanel::GqlVariables;
    let editable = multiline || focused == FocusedPanel::Url || focused == FocusedPanel::GqlEndpoint
        || focused == FocusedPanel::WsUrl || focused == FocusedPanel::WsInput;
    let sends = focused == FocusedPanel::Method || focused == FocusedPanel::Url || focused
        == FocusedPanel::GqlEndpoint || focused == FocusedPanel::WsUrl || focused
        == FocusedPanel::WsInput || focused == FocusedPanel::Response || focused
        == FocusedPanel::GqlResponse;
    let copy_key = c == KeyCode::Char('y') || c == KeyCode::Char('c');
    if m == KeyMods::Control && c == KeyCode::Char('c') {
        KeyPlan::Quit
    } else if m == KeyMods::Control && c == KeyCode::Char('p') {
        KeyPlan::CycleProtocol
    } else if m == KeyMods::Plain && c == KeyCode::F(6) {
        KeyPlan::FocusNext
    } else if (m == KeyMods::Plain && c == KeyCode::F(7)) || (m == KeyMods::Shift && c
        == KeyCode::BackTab) {
        KeyPlan::FocusPrev
    } else if m == KeyMods::Plain && c == KeyCode::Tab && !multiline {
        KeyPlan::FocusNext
    } else if m == KeyMods::Control && c == KeyCode::Char('u') && protocol == ProtocolMode::Http {
        KeyPlan::Jump(FocusedPanel::Url)
    } else if m == KeyMods::Control && c == KeyCode::Char('h') && protocol == ProtocolMode::Http {
        KeyPlan::Jump(FocusedPanel::Headers)
    } else if m == KeyMods::Control && c == KeyCode::Char('b') && protocol == ProtocolMode::Http {
        KeyPlan::Jump(FocusedPanel::Body)
    } else if m == KeyMods::Control && c == KeyCode::Char('q') && protocol == ProtocolMode::GraphQL {
        KeyPlan::Jump(FocusedPanel::GqlQuery)
    } else if m == KeyMods::Control && c == KeyCode::Char('v') && protocol == ProtocolMode::GraphQL {
        KeyPlan::Jump(FocusedPanel::GqlVariables)
    } else if m == KeyMods::Control && c == KeyCode::Char('s') {
        KeyPlan::Send
    } else if m == KeyMods::Plain && c == KeyCode::Enter && sends {
        KeyPlan::Send
    } else if m == KeyMods::Plain && c == KeyCode::Char(' ') && focused == FocusedPanel::Method {
        KeyPlan::CycleMethod
    } else if m == KeyMods::Plain && copy_key && focused == FocusedPanel::Response {
        KeyPlan::CopyResponse
    } else if m == KeyMods::Plain && copy_key && focused == FocusedPanel::GqlResponse {
        KeyPlan::CopyGqlResponse
    } else if m == KeyMods::Plain && c == KeyCode::Up && focused == FocusedPanel::Response {
        KeyPlan::ScrollUp
    } else if m == KeyMods::Plain && c == KeyCode::Up && focused == FocusedPanel::GqlResponse {
        KeyPlan::GqlScrollUp
    } else if m == KeyMods::Plain && c == KeyCode::Down && focused == FocusedPanel::Response {
        KeyPlan::ScrollDown
    } else if m == KeyMods::Plain && c == KeyCode::Down && focused == FocusedPanel::GqlResponse {
        KeyPlan::GqlScrollDown
    } else if m == KeyMods::Plain && (c == KeyCode::Up || c == KeyCode::Down) && focused
        == FocusedPanel::WsMessages {
        KeyPlan::Stay
    } else if editable {
        KeyPlan::Edit(edit_key_of(focused, key))
    } else {
        KeyPlan::Stay
    }
}

/// Picks the editing action of a key in an editable panel.
fn edit_key_of(focused: FocusedPanel, key: &KeyInput) -> (e: EditKey)
    ensures
        e == edit_key(focused, *key),
{
    let multiline = focused == FocusedPanel::Headers || focused == FocusedPanel::Body || focused
        == FocusedPanel::GqlQuery || focused == FocusedPanel::GqlVariables;
    let code = if key.mods == KeyMods::Control && key.code == KeyCode::Up {
        KeyCode::PageUp
    } else if key.mods == KeyMods::Control && key.code == KeyCode::Down {
        KeyCode::PageDown
    } else {
        key.code
    };
    match code {
        KeyCode::Char(c) => EditKey::Insert(c),
        KeyCode::Backspace => EditKey::Backspace,
        KeyCode::Left => EditKey::Left,
        KeyCode::Right => EditKey::Right,
        KeyCode::Up => EditKey::Up,
        KeyCode::Down => EditKey::Down,
        KeyCode::Tab => if multiline {
            EditKey::Indent
        } else {
            EditKey::NextPanel
        },
        KeyCode::PageUp => EditKey::Older,
        KeyCode::PageDown => EditKey::Newer,
        KeyCode::Enter => if multiline {
            EditKey::Newline
        } else {
            EditKey::Nothing
        },
        _ => EditKey::Nothing,
    }
}

/// Applies one key press to the interface state.
pub fn process_key(app: &mut App, key: &KeyInput) -> (r: KeyAction)
    requires
        key_ok(old(app)@, *key),
    ensures
        key_step(old(app)@, *key, final(app)@, r),
{
    let plan = plan_key(app.focused, app.protocol, key);
    match plan {
        KeyPlan::Quit => KeyAction::Outcome(EventOutcome::Quit),
        KeyPlan::Send => KeyAction::Outcome(EventOutcome::SendRequest),
        KeyPlan::FocusNext => {
            app.focus_next();
            KeyAction::Outcome(EventOutcome::Continue)
        },
        KeyPlan::FocusPrev => {
            app.focus_prev();
            KeyAction::Outcome(EventOutcome::Continue)
        },
        KeyPlan::Jump(panel) => {
            app.focus_on(panel);
            KeyAction::Outcome(EventOutcome::Continue)
        },
        KeyPlan::CycleMethod => {
            app.cycle_method();
            KeyAction::Outcome(EventOutcome::Continue)
        },
        KeyPlan::CycleProtocol => {
            app.cycle_protocol();
            KeyAction::Outcome(EventOutcome::Continue)
        },
        KeyPlan::CopyResponse => match &app.response {
            Some(Ok(resp)) => KeyAction::Copy(resp.body.clone()),
            _ => KeyAction::Outcome(EventOutcome::Continue),
        },
        KeyPlan::CopyGqlResponse => match &app.gql_response {
            Some(Ok(resp)) => KeyAction::Copy(resp.pretty_body()),
            _ => KeyAction::Outcome(EventOutcome::Continue),
        },
        KeyPlan::GqlScrollUp => {
            app.scroll_gql_response_up();
            KeyAction::Outcome(EventOutcome::Continue)
        },
        KeyPlan::GqlScrollDown => {
            app.scroll_gql_response_down();
            KeyAction::Outcome(EventOutcome::Continue)
        },
        KeyPlan::ScrollUp => {
            app.scroll_response_up();
            KeyAction::Outcome(EventOutcome::Continue)
        },
        KeyPlan::ScrollDown => {
            app.scroll_response_down();
            KeyAction::Outcome(EventOutcome::Continue)
        },
        KeyPlan::Stay => KeyAction::Outcome(EventOutcome::Continue),
        KeyPlan::Edit(e) => {
            match e {
                EditKey::Insert(c) => app.insert_char(c),
                EditKey::Backspace => app.delete_char(),
                EditKey::Left => app.move_cursor_left(),
                EditKey::Right => app.move_cursor_right(),
                EditKey::Up => app.move_cursor_up(),
                EditKey::Down => app.move_cursor_down(),
                EditKey::Indent => {
                    proof {
                        lemma_indent_ok(app@);
                    }
                    app.insert_char(' ');
                    app.insert_char(' ');
                    app.insert_char(' ');
                    app.insert_char(' ');
                },
                EditKey::NextPanel => app.focus_next(),
                EditKey::Older => {
                    if app.history_cache.is_none() {
                        return KeyAction::FetchHistory;
                    }
                    app.history_older();
                },
                EditKey::Newer => {
                    if app.history_cache.is_none() && app.history_index > 1 {
                        return KeyAction::FetchHistory;
                    }
                    app.history_newer();
                },
                EditKey::Newline => app.insert_char('\n'),
                EditKey::Nothing => {},
            }
            KeyAction::Outcome(EventOutcome::Continue)
        },
    }
}

/// Whether typing at the cursor can proceed (see `AppView::can_insert`).
pub fn can_insert_now(app: &App) -> (r: bool)
    ensures
        r == app@.can_insert(),
{
    if app.cursor_pos == usize::MAX {
        return false;
    }
    let t = app.active_text();
    if app.is_editable_focused() && app.cursor_pos <= str_byte_len(t) {
        is_char_boundary_at(t, app.cursor_pos)
    } else {
        true
    }
}

/// Whether a key press can be handled without the panics that the string
/// edits and history reads would raise (exactly `key_ok`).
pub fn key_is_safe(app: &App, key: &KeyInput) -> (r: bool)
    ensures
        r == key_ok(app@, *key),
{
    match plan_key(app.focused, app.protocol, key) {
        KeyPlan::Edit(EditKey::Insert(_)) => can_insert_now(app),
        KeyPlan::Edit(EditKey::Newline) => can_insert_now(app),
        KeyPlan::Edit(EditKey::Indent) => can_insert_now(app) && app.cursor_pos < usize::MAX - 4,
        KeyPlan::Edit(EditKey::Newer) => {
            let len = match &app.history_cache {
                Some(h) => h.len(),
                None => 0,
            };
            app.history_index <= 1 || app.history_index - 2 < len
        },
        _ => true,
    }
}

} // verus!
