use reqly::cli::{http_status_class, pass_fail_status_class, Commands, ParsedRequest, StatusClass};

#[test]
fn from_command_names_the_method() {
    let p = ParsedRequest::from_command(Commands::Get { url: "u".to_string(), headers: vec!["A: b".to_string()] }).unwrap();
    assert_eq!(p.method, "GET");
    assert_eq!(p.url, "u");
    assert_eq!(p.headers, vec!["A: b".to_string()]);
    assert!(p.body.is_none());

    let p = ParsedRequest::from_command(Commands::Delete { url: "u".to_string(), headers: vec![], body: Some("x".to_string()) }).unwrap();
    assert_eq!(p.method, "DELETE");
    assert_eq!(p.body.as_deref(), Some("x"));

    let p = ParsedRequest::from_command(Commands::Options { url: "u".to_string(), headers: vec![] }).unwrap();
    assert_eq!(p.method, "OPTIONS");

    assert!(ParsedRequest::from_command(Commands::Ws { url: "ws://x".to_string(), headers: vec![], json: false, ping: false }).is_none());
    assert!(ParsedRequest::from_command(Commands::Graphql {
        url: "u".to_string(),
        query: "q".to_string(),
        variables: None,
        operation: None,
        headers: vec![],
    })
    .is_none());
}

#[test]
fn to_request_parses_headers_and_adds_json_default() {
    let p = ParsedRequest {
        method: "POST".to_string(),
        url: "https://httpbin.org/post".to_string(),
        headers: vec!["Authorization: Bearer my-token".to_string(), "junk".to_string()],
        body: Some("{\"name\": \"reqly\"}".to_string()),
    };
    let r = p.to_request();
    assert_eq!(r.skipped_headers, vec!["junk".to_string()]);
    assert_eq!(r.request.method, "POST");
    assert_eq!(r.request.body.as_deref(), Some("{\"name\": \"reqly\"}"));
    assert_eq!(r.request.headers.len(), 2);
    assert_eq!(r.request.headers.get("Authorization").unwrap(), "Bearer my-token");
    assert_eq!(r.request.headers.get("Content-Type").unwrap(), "application/json");

    let g = ParsedRequest { method: "GET".to_string(), url: "u".to_string(), headers: vec![], body: None };
    let r = g.to_request();
    assert!(r.request.headers.is_empty());
    assert!(r.skipped_headers.is_empty());
}

#[test]
fn content_type_check_is_exact_name() {
    let p = ParsedRequest {
        method: "POST".to_string(),
        url: "u".to_string(),
        headers: vec!["Content-Type: text/plain".to_string()],
        body: Some("x".to_string()),
    };
    let r = p.to_request();
    assert_eq!(r.request.headers.get("Content-Type").unwrap(), "application/json");
    assert_eq!(r.request.headers.len(), 1);

    let p2 = ParsedRequest {
        method: "POST".to_string(),
        url: "u".to_string(),
        headers: vec!["content-type: text/plain".to_string()],
        body: Some("x".to_string()),
    };
    let r2 = p2.to_request();
    assert_eq!(r2.request.headers.len(), 1);
    assert_eq!(r2.request.headers.get("content-type").unwrap(), "text/plain");
}

#[test]
fn status_classes() {
    assert!(matches!(http_status_class(204), StatusClass::Success));
    assert!(matches!(http_status_class(301), StatusClass::Warning));
    assert!(matches!(http_status_class(499), StatusClass::Warning));
    assert!(matches!(http_status_class(500), StatusClass::Failure));
    assert!(matches!(pass_fail_status_class(299), StatusClass::Success));
    assert!(matches!(pass_fail_status_class(300), StatusClass::Failure));
}
