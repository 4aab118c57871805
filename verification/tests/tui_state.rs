use reqly::http::HttpResponse;
use reqly::tui::app::{App, FocusedPanel, HistorySource};
use reqly::tui::events::{process_key, EventOutcome, KeyAction, KeyCode, KeyInput, KeyMods};
use reqly::tui::ui::{cursor_text, idle_message, response_lines, response_summary};

fn key(mods: KeyMods, code: KeyCode) -> KeyInput {
    KeyInput { mods, code }
}

fn plain(code: KeyCode) -> KeyInput {
    key(KeyMods::Plain, code)
}

fn outcome(a: KeyAction) -> Option<EventOutcome> {
    match a {
        KeyAction::Outcome(o) => Some(o),
        _ => None,
    }
}

#[test]
fn new_app_defaults() {
    let app = App::new();
    assert_eq!(app.method, "GET");
    assert_eq!(app.focused, FocusedPanel::Url);
    assert_eq!(app.cursor_pos, 0);
    assert!(app.response.is_none());
    assert_eq!(app.active_text(), "");
}

#[test]
fn method_cycles_through_seven_methods() {
    let mut app = App::new();
    let mut seen = vec![];
    for _ in 0..7 {
        app.cycle_method();
        seen.push(app.method.clone());
    }
    assert_eq!(seen, vec!["POST", "PUT", "PATCH", "DELETE", "HEAD", "OPTIONS", "GET"]);
    app.method = "BREW".to_string();
    app.cycle_method();
    assert_eq!(app.method, "GET");
}

#[test]
fn focus_cycle_and_cursor_at_end() {
    let mut app = App::new();
    app.headers_raw = "A: b".to_string();
    app.focus_next();
    assert_eq!(app.focused, FocusedPanel::Headers);
    assert_eq!(app.cursor_pos, 4);
    app.focus_prev();
    assert_eq!(app.focused, FocusedPanel::Url);
    assert_eq!(app.cursor_pos, 0);
    for _ in 0..5 {
        app.focus_next();
    }
    assert_eq!(app.focused, FocusedPanel::Url);
    app.focus_prev();
    assert_eq!(app.focused, FocusedPanel::Method);
    assert_eq!(app.active_text(), "");
}

#[test]
fn typing_and_backspace() {
    let mut app = App::new();
    for c in "htp".chars() {
        app.insert_char(c);
    }
    app.move_cursor_left();
    app.move_cursor_left();
    app.insert_char('t');
    assert_eq!(app.url, "http");
    assert_eq!(app.cursor_pos, 2);
    app.insert_char('é');
    assert_eq!(app.url, "htétp");
    app.delete_char();
    assert_eq!(app.url, "http");
    assert_eq!(app.cursor_pos, 2);
    app.move_cursor_right();
    app.move_cursor_right();
    app.move_cursor_right();
    assert_eq!(app.cursor_pos, 4);
    app.cursor_pos = 0;
    app.delete_char();
    assert_eq!(app.url, "http");
    app.move_cursor_left();
    assert_eq!(app.cursor_pos, 0);
}

#[test]
fn insert_beyond_text_only_moves_cursor() {
    let mut app = App::new();
    app.cursor_pos = 5;
    app.insert_char('x');
    assert_eq!(app.url, "");
    assert_eq!(app.cursor_pos, 6);
    app.focused = FocusedPanel::Method;
    app.cursor_pos = 0;
    app.insert_char('x');
    assert_eq!(app.method, "GET");
    assert_eq!(app.cursor_pos, 1);
}

#[test]
fn cursor_up_and_down_keep_column() {
    let mut app = App::new();
    app.focused = FocusedPanel::Body;
    app.body_raw = "abcd\nxy\nlonger".to_string();
    app.cursor_pos = 3;
    app.move_cursor_down();
    assert_eq!(app.cursor_pos, 7);
    app.move_cursor_down();
    assert_eq!(app.cursor_pos, 10);
    app.move_cursor_down();
    assert_eq!(app.cursor_pos, 10);
    app.move_cursor_up();
    assert_eq!(app.cursor_pos, 7);
    app.move_cursor_up();
    assert_eq!(app.cursor_pos, 2);
    app.move_cursor_up();
    assert_eq!(app.cursor_pos, 2);
}

#[test]
fn keys_quit_send_and_focus() {
    let mut app = App::new();
    assert_eq!(outcome(process_key(&mut app, &key(KeyMods::Control, KeyCode::Char('c')))), Some(EventOutcome::Quit));
    assert_eq!(outcome(process_key(&mut app, &key(KeyMods::Control, KeyCode::Char('s')))), Some(EventOutcome::SendRequest));
    assert_eq!(outcome(process_key(&mut app, &plain(KeyCode::Enter))), Some(EventOutcome::SendRequest));
    assert_eq!(outcome(process_key(&mut app, &plain(KeyCode::F(6)))), Some(EventOutcome::Continue));
    assert_eq!(app.focused, FocusedPanel::Headers);
    process_key(&mut app, &key(KeyMods::Shift, KeyCode::BackTab));
    assert_eq!(app.focused, FocusedPanel::Url);
    process_key(&mut app, &plain(KeyCode::Tab));
    assert_eq!(app.focused, FocusedPanel::Headers);
    process_key(&mut app, &plain(KeyCode::Tab));
    assert_eq!(app.headers_raw, "    ");
    assert_eq!(app.cursor_pos, 4);
    process_key(&mut app, &plain(KeyCode::Enter));
    assert_eq!(app.headers_raw, "    \n");
    process_key(&mut app, &key(KeyMods::Control, KeyCode::Char('b')));
    assert_eq!(app.focused, FocusedPanel::Body);
}

#[test]
fn keys_edit_the_focused_field() {
    let mut app = App::new();
    for c in "ab".chars() {
        process_key(&mut app, &plain(KeyCode::Char(c)));
    }
    process_key(&mut app, &key(KeyMods::Shift, KeyCode::Char('C')));
    process_key(&mut app, &key(KeyMods::Control, KeyCode::Char('q')));
    assert_eq!(app.url, "abCq");
    process_key(&mut app, &plain(KeyCode::Backspace));
    assert_eq!(app.url, "abC");
    process_key(&mut app, &key(KeyMods::Control, KeyCode::Char('p')));
    assert_eq!(app.url, "abC");
}

#[test]
fn method_panel_space_cycles_and_response_keys() {
    let mut app = App::new();
    app.focused = FocusedPanel::Method;
    process_key(&mut app, &plain(KeyCode::Char(' ')));
    assert_eq!(app.method, "POST");
    app.focused = FocusedPanel::Response;
    assert_eq!(outcome(process_key(&mut app, &plain(KeyCode::Char('y')))), Some(EventOutcome::Continue));
    app.response = Some(Ok(HttpResponse::from_parts(200, &vec![], "body!".to_string(), 3)));
    match process_key(&mut app, &plain(KeyCode::Char('c'))) {
        KeyAction::Copy(t) => assert_eq!(t, "body!"),
        _ => panic!("expected a copy"),
    }
    process_key(&mut app, &plain(KeyCode::Down));
    process_key(&mut app, &plain(KeyCode::Down));
    process_key(&mut app, &plain(KeyCode::Up));
    assert_eq!(app.response_scroll, 1);
    process_key(&mut app, &plain(KeyCode::Up));
    process_key(&mut app, &plain(KeyCode::Up));
    assert_eq!(app.response_scroll, 0);
}

#[test]
fn history_paging_restores_the_draft() {
    let mut app = App::new();
    app.url = "draft".to_string();
    app.cursor_pos = 5;
    assert!(matches!(process_key(&mut app, &plain(KeyCode::PageUp)), KeyAction::FetchHistory));
    assert_eq!(app.url, "draft");
    app.history_cache = Some(vec!["https://b".to_string(), "https://a".to_string()]);
    process_key(&mut app, &plain(KeyCode::PageUp));
    assert_eq!(app.url, "https://b");
    assert_eq!(app.cursor_pos, 9);
    process_key(&mut app, &key(KeyMods::Control, KeyCode::Up));
    assert_eq!(app.url, "https://a");
    process_key(&mut app, &plain(KeyCode::PageUp));
    assert_eq!(app.url, "https://a");
    assert_eq!(app.history_index, 2);
    process_key(&mut app, &plain(KeyCode::PageDown));
    assert_eq!(app.url, "https://b");
    process_key(&mut app, &key(KeyMods::Control, KeyCode::Down));
    assert_eq!(app.url, "draft");
    assert_eq!(app.cursor_pos, 5);
    assert!(app.working_draft.is_none());
    assert_eq!(app.history_index, 0);
    process_key(&mut app, &plain(KeyCode::PageDown));
    assert_eq!(app.url, "draft");
}

#[test]
fn history_sources_per_panel() {
    let mut app = App::new();
    assert!(matches!(app.history_source(), Some(HistorySource::Urls)));
    app.focused = FocusedPanel::Headers;
    assert!(matches!(app.history_source(), Some(HistorySource::Headers)));
    app.focused = FocusedPanel::Body;
    assert!(matches!(app.history_source(), Some(HistorySource::Bodies)));
    app.url = " http://x ".to_string();
    match app.history_source() {
        Some(HistorySource::BodiesForUrl(u)) => assert_eq!(u, "http://x"),
        _ => panic!("expected bodies for the URL"),
    }
    app.focused = FocusedPanel::Response;
    assert!(app.history_source().is_none());
}

#[test]
fn send_cycle_updates_response_and_focus() {
    let mut app = App::new();
    assert!(app.begin_send().is_none());
    app.url = " http://x ".to_string();
    app.body_raw = "{}".to_string();
    app.response = Some(Err("old".to_string()));
    let req = app.begin_send().unwrap();
    assert!(app.response.is_none());
    assert_eq!(req.url, "http://x");
    assert_eq!(req.headers.get("Content-Type").unwrap(), "application/json");
    app.is_loading = true;
    app.finish_send(Err("boom".to_string()));
    assert!(!app.is_loading);
    assert_eq!(app.focused, FocusedPanel::Url);
    assert!(matches!(app.response, Some(Err(ref e)) if e == "boom"));
    app.finish_send(Ok(HttpResponse::from_parts(200, &vec![], String::new(), 1)));
    assert_eq!(app.focused, FocusedPanel::Response);
}

#[test]
fn pane_contents() {
    assert_eq!(cursor_text("abc", true), "abc_");
    assert_eq!(cursor_text("abc", false), "abc");
    assert_eq!(idle_message(true), "⏳ Sending…");
    assert_eq!(idle_message(false), "Press ENTER to send");
    let raw: Vec<(String, Option<String>)> = (0..7)
        .map(|i| (format!("h{}", i), Some(format!("v{}", i))))
        .chain(std::iter::once(("content-type".to_string(), Some("application/json".to_string()))))
        .collect();
    let resp = HttpResponse::from_parts(404, &raw, "{\"e\":1}".to_string(), 1234);
    assert_eq!(response_summary(&resp), "404 Not Found  1234ms");
    let lines = response_lines(&resp);
    assert_eq!(lines.len(), 5 + 1 + 3);
    assert_eq!(lines[0], "h0: v0");
    assert_eq!(lines[4], "h4: v4");
    assert_eq!(lines[5], "");
    assert_eq!(lines[6], "{");
    assert_eq!(lines[7], "  \"e\": 1");
    assert_eq!(lines[8], "}");
}

#[test]
fn backspace_removes_whole_multibyte_character() {
    let mut app = App::new();
    app.url = "aé€b".to_string();
    app.cursor_pos = 6;
    app.delete_char();
    assert_eq!(app.url, "aéb");
    assert_eq!(app.cursor_pos, 3);
    app.delete_char();
    assert_eq!(app.url, "ab");
    assert_eq!(app.cursor_pos, 1);
    app.delete_char();
    assert_eq!(app.url, "b");
    assert_eq!(app.cursor_pos, 0);
    app.cursor_pos = 5;
    app.delete_char();
    assert_eq!(app.url, "b");
    assert_eq!(app.cursor_pos, 4);
    app.focused = FocusedPanel::Method;
    app.delete_char();
    assert_eq!(app.method, "GET");
    assert_eq!(app.cursor_pos, 3);
}

#[test]
fn insert_then_backspace_restores_text_and_cursor() {
    let mut app = App::new();
    app.url = "ab".to_string();
    app.cursor_pos = 1;
    app.insert_char('€');
    assert_eq!(app.url, "a€b");
    app.delete_char();
    assert_eq!(app.url, "ab");
    assert_eq!(app.cursor_pos, 1);
}

#[test]
fn ctrl_arrows_page_history_like_page_keys() {
    let mut a = App::new();
    let mut b = App::new();
    for app in [&mut a, &mut b] {
        app.url = "draft".to_string();
        app.cursor_pos = 5;
        app.history_cache = Some(vec!["x".to_string(), "y".to_string()]);
    }
    process_key(&mut a, &key(KeyMods::Control, KeyCode::Up));
    process_key(&mut b, &plain(KeyCode::PageUp));
    assert_eq!(a.url, b.url);
    assert_eq!(a.history_index, b.history_index);
    process_key(&mut a, &key(KeyMods::Control, KeyCode::Down));
    process_key(&mut b, &plain(KeyCode::PageDown));
    assert_eq!(a.url, "draft");
    assert_eq!(b.url, "draft");
    assert_eq!(a.cursor_pos, b.cursor_pos);
}
