use reqly::graphql::GraphqlResponse;
use reqly::tui::app::{App, FocusedPanel, ProtocolMode};
use reqly::tui::events::{process_key, EventOutcome, KeyAction, KeyCode, KeyInput, KeyMods};
use reqly::tui::ui::{
    graphql_idle_message, graphql_response_lines, graphql_summary, status_hints, ws_log_lines,
};
use reqly::websocket::ConnectionStatus;

fn key(mods: KeyMods, code: KeyCode) -> KeyInput {
    KeyInput { mods, code }
}

#[test]
fn protocol_cycle_focuses_first_panel_of_each_tab() {
    let mut app = App::new();
    app.cycle_protocol();
    assert_eq!(app.protocol, ProtocolMode::GraphQL);
    assert_eq!(app.focused, FocusedPanel::GqlEndpoint);
    app.cycle_protocol();
    assert_eq!(app.protocol, ProtocolMode::WebSocket);
    assert_eq!(app.focused, FocusedPanel::WsUrl);
    app.cycle_protocol();
    assert_eq!(app.protocol, ProtocolMode::Http);
}

#[test]
fn graphql_tab_focus_and_jumps() {
    let mut app = App::new();
    process_key(&mut app, &key(KeyMods::Control, KeyCode::Char('p')));
    for _ in 0..4 {
        app.focus_next();
    }
    assert_eq!(app.focused, FocusedPanel::GqlEndpoint);
    app.gql_query = "{ a }".to_string();
    process_key(&mut app, &key(KeyMods::Control, KeyCode::Char('q')));
    assert_eq!(app.focused, FocusedPanel::GqlQuery);
    assert_eq!(app.cursor_pos, 5);
    process_key(&mut app, &key(KeyMods::Control, KeyCode::Char('v')));
    assert_eq!(app.focused, FocusedPanel::GqlVariables);
    assert_eq!(app.cursor_pos, 0);
    process_key(&mut app, &key(KeyMods::Plain, KeyCode::Enter));
    assert_eq!(app.gql_variables, "\n");
    app.focused = FocusedPanel::GqlEndpoint;
    assert_eq!(
        match process_key(&mut app, &key(KeyMods::Plain, KeyCode::Enter)) {
            KeyAction::Outcome(o) => Some(o),
            _ => None,
        },
        Some(EventOutcome::SendRequest)
    );
}

#[test]
fn graphql_send_needs_endpoint_and_query() {
    let mut app = App::new();
    app.gql_endpoint = "  ".to_string();
    app.gql_query = "{ a }".to_string();
    assert!(app.begin_graphql().is_none());
    app.gql_endpoint = " http://api/graphql ".to_string();
    app.gql_query = "   ".to_string();
    assert!(app.begin_graphql().is_none());
}

#[test]
fn graphql_send_builds_the_query() {
    let mut app = App::new();
    app.gql_endpoint = " http://api/graphql ".to_string();
    app.gql_query = "\n{ user { id } }\n".to_string();
    app.gql_variables = "{\"id\": 7}".to_string();
    app.gql_response = Some(Err("old".to_string()));
    let q = app.begin_graphql().unwrap();
    assert!(app.gql_response.is_none());
    assert_eq!(q.url, "http://api/graphql");
    assert_eq!(q.query, "{ user { id } }");
    assert_eq!(q.variables.as_deref(), Some("{\"id\": 7}"));
    assert!(q.operation_name.is_none());
    assert_eq!(q.to_body_json().unwrap(), "{\"query\":\"{ user { id } }\",\"variables\":{\"id\":7}}");

    app.gql_variables = "{oops".to_string();
    assert!(app.begin_graphql().unwrap().variables.is_none());
    app.gql_variables = "  ".to_string();
    assert!(app.begin_graphql().unwrap().variables.is_none());
}

#[test]
fn graphql_finish_shows_response_or_error() {
    let mut app = App::new();
    app.protocol = ProtocolMode::GraphQL;
    app.focused = FocusedPanel::GqlQuery;
    app.is_loading = true;
    app.finish_graphql(Err("refused".to_string()));
    assert!(!app.is_loading);
    assert_eq!(app.focused, FocusedPanel::GqlQuery);
    assert!(matches!(app.gql_response, Some(Err(ref e)) if e == "refused"));
    app.is_loading = true;
    app.finish_graphql(Ok(GraphqlResponse::from_parts(200, "{\"data\":null}".to_string(), 4)));
    assert!(!app.is_loading);
    assert_eq!(app.focused, FocusedPanel::GqlResponse);
    assert!(matches!(app.gql_response, Some(Ok(ref r)) if r.status == 200));
}

#[test]
fn graphql_response_scrolls_and_copies() {
    let mut app = App::new();
    app.protocol = ProtocolMode::GraphQL;
    app.focused = FocusedPanel::GqlResponse;
    process_key(&mut app, &key(KeyMods::Plain, KeyCode::Down));
    process_key(&mut app, &key(KeyMods::Plain, KeyCode::Down));
    assert_eq!(app.gql_response_scroll, 2);
    process_key(&mut app, &key(KeyMods::Plain, KeyCode::Up));
    assert_eq!(app.gql_response_scroll, 1);
    app.gql_response = Some(Ok(GraphqlResponse::from_parts(200, "{\"data\":1}".to_string(), 1)));
    match process_key(&mut app, &key(KeyMods::Plain, KeyCode::Char('y'))) {
        KeyAction::Copy(t) => assert_eq!(t, "{\n  \"data\": 1\n}"),
        _ => panic!("expected a copy"),
    }
}

#[test]
fn websocket_send_without_url_warns() {
    let mut app = App::new();
    app.ws_input = "hello".to_string();
    app.ws_connect_or_send();
    assert_eq!(app.ws_messages, vec!["⚠ Enter a WebSocket URL first (ws:// or wss://)".to_string()]);
    assert_eq!(app.ws_input, "hello");
}

#[test]
fn websocket_send_logs_typed_message() {
    let mut app = App::new();
    app.ws_url = "ws://echo".to_string();
    app.ws_input = "  hi there ".to_string();
    app.cursor_pos = 4;
    app.ws_connect_or_send();
    assert_eq!(app.ws_messages, vec!["→ Sent: hi there".to_string()]);
    assert_eq!(app.ws_input, "");
    assert_eq!(app.cursor_pos, 0);
}

#[test]
fn websocket_send_with_nothing_typed_points_to_cli() {
    let mut app = App::new();
    app.ws_url = " wss://live ".to_string();
    app.ws_status = ConnectionStatus::Connected;
    app.ws_connect_or_send();
    assert_eq!(
        app.ws_messages,
        vec!["ℹ  Use  reqly ws wss://live  in the terminal for live WebSocket sessions.".to_string()]
    );
    assert!(matches!(app.ws_status, ConnectionStatus::Disconnected));
    app.push_ws_message("second".to_string());
    assert_eq!(app.ws_messages.len(), 2);
    assert_eq!(app.ws_messages[1], "second");
}

#[test]
fn graphql_and_websocket_pane_contents() {
    assert_eq!(graphql_idle_message(true), "⏳ Sending…");
    assert_eq!(graphql_idle_message(false), "Press ENTER to send the query");
    let resp = GraphqlResponse::from_parts(200, "{\"data\":{\"a\":1}}".to_string(), 12);
    assert_eq!(graphql_summary(&resp), "200 OK  12ms");
    assert_eq!(
        graphql_response_lines(&resp),
        vec!["{", "  \"data\": {", "    \"a\": 1", "  }", "}"]
    );
    let raw = GraphqlResponse::from_parts(502, "bad\ngateway".to_string(), 0);
    assert_eq!(graphql_response_lines(&raw), vec!["bad", "gateway"]);
    assert_eq!(ws_log_lines(&vec![]), vec!["No messages yet — press ENTER to connect"]);
    let log = vec!["a".to_string(), "b".to_string()];
    assert_eq!(ws_log_lines(&log), log);
}

#[test]
fn status_bar_hints_per_tab() {
    let http = status_hints(ProtocolMode::Http);
    assert_eq!(http.len(), 5);
    assert_eq!(http[1], ("SPACE", "cycle method"));
    let gql = status_hints(ProtocolMode::GraphQL);
    assert_eq!(gql.len(), 6);
    assert_eq!(gql[2], ("Ctrl+Q", "query"));
    assert_eq!(gql[3], ("Ctrl+V", "vars"));
    let ws = status_hints(ProtocolMode::WebSocket);
    assert_eq!(ws, vec![("TAB", "next panel"), ("ENTER", "connect/send"), ("Ctrl+P", "protocol"), ("Ctrl+C", "quit")]);
}
