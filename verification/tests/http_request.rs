use reqly::http::{check_request, request_from_form, status_text, HttpRequest, HttpResponse, RequestError};

#[test]
fn test_http_request_builder() {
    let req = HttpRequest::new("POST", "https://api.example.com")
        .with_header("Accept", "application/json")
        .with_header("Authorization", "Bearer token123")
        .with_body(r#"{"key":"value"}"#);

    assert_eq!(req.method, "POST");
    assert_eq!(req.url, "https://api.example.com");
    assert_eq!(req.headers.get("Accept").unwrap(), "application/json");
    assert_eq!(req.headers.get("Authorization").unwrap(), "Bearer token123");
    assert_eq!(req.body.unwrap(), r#"{"key":"value"}"#);
}

#[test]
fn test_http_request_new() {
    let req = HttpRequest::new("GET", "https://example.com");
    assert_eq!(req.method, "GET");
    assert_eq!(req.url, "https://example.com");
    assert!(req.headers.is_empty());
    assert!(req.body.is_none());
}

#[test]
fn with_header_replaces_value_of_same_name() {
    let req = HttpRequest::new("GET", "http://x")
        .with_header("Accept", "text/plain")
        .with_header("X-Id", "1")
        .with_header("Accept", "application/json");
    assert_eq!(req.headers.len(), 2);
    assert_eq!(req.headers.get("Accept").unwrap(), "application/json");
    assert_eq!(req.headers.get("X-Id").unwrap(), "1");
    assert!(req.headers.get("accept").is_none());
    assert_eq!(req.headers.entries()[0].0, "Accept");
}

#[test]
fn form_with_blank_url_sends_nothing() {
    assert!(request_from_form("GET", "   ", "", "").is_none());
}

#[test]
fn form_builds_trimmed_request_with_json_default() {
    let req = request_from_form(
        "POST",
        "  https://h/api \n",
        "Accept: text/plain\r\n\n  bad line \nX-A:  1 ",
        "  {\"a\": 1}  ",
    )
    .unwrap();
    assert_eq!(req.method, "POST");
    assert_eq!(req.url, "https://h/api");
    assert_eq!(req.body.as_deref(), Some("{\"a\": 1}"));
    assert_eq!(req.headers.len(), 3);
    assert_eq!(req.headers.get("Accept").unwrap(), "text/plain");
    assert_eq!(req.headers.get("X-A").unwrap(), "1");
    assert_eq!(req.headers.get("Content-Type").unwrap(), "application/json");
}

#[test]
fn form_keeps_user_content_type_and_blank_body() {
    let req = request_from_form("PUT", "u", "content-type: text/csv", "  ").unwrap();
    assert!(req.body.is_none());
    assert_eq!(req.headers.len(), 1);
    assert_eq!(req.headers.get("content-type").unwrap(), "text/csv");

    let req2 = request_from_form("PUT", "u", "content-type: text/csv", "x").unwrap();
    assert_eq!(req2.headers.len(), 1);
    assert_eq!(req2.body.as_deref(), Some("x"));
}

#[test]
fn check_request_reports_first_fault() {
    let ok = HttpRequest::new("GET", "http://x").with_header("Accept", "a/b");
    assert!(check_request(&ok).is_ok());

    let bad_method = HttpRequest::new("GE T", "http://x");
    match check_request(&bad_method) {
        Err(e) => {
            assert!(matches!(e, RequestError::UnknownMethod(ref m) if m == "GE T"));
            assert_eq!(e.message(), "Unknown HTTP method: GE T");
        }
        Ok(()) => panic!("method with a space accepted"),
    }

    let empty_method = HttpRequest::new("", "http://x");
    assert!(matches!(check_request(&empty_method), Err(RequestError::UnknownMethod(_))));

    let custom_method = HttpRequest::new("PURGE", "http://x");
    assert!(check_request(&custom_method).is_ok());

    let bad_name = HttpRequest::new("GET", "http://x").with_header("Bad Name", "v");
    match check_request(&bad_name) {
        Err(e) => assert_eq!(e.message(), "Invalid header name: Bad Name"),
        Ok(()) => panic!("header name with a space accepted"),
    }

    let bad_value = HttpRequest::new("GET", "http://x").with_header("X-Ok", "line\nbreak");
    match check_request(&bad_value) {
        Err(e) => assert_eq!(e.message(), "Invalid header value for X-Ok"),
        Ok(()) => panic!("header value with a newline accepted"),
    }
}

#[test]
fn status_text_uses_canonical_reason() {
    assert_eq!(status_text(200), "OK");
    assert_eq!(status_text(404), "Not Found");
    assert_eq!(status_text(299), "Unknown");
    assert_eq!(status_text(42), "Unknown");
}

#[test]
fn response_from_parts_lowercases_and_skips_binary_values() {
    let raw = vec![
        ("Content-Type".to_string(), Some("application/json; charset=utf-8".to_string())),
        ("X-Binary".to_string(), None),
        ("x-dup".to_string(), Some("1".to_string())),
        ("X-DUP".to_string(), Some("2".to_string())),
    ];
    let resp = HttpResponse::from_parts(201, &raw, "{\"a\":1}".to_string(), 12);
    assert_eq!(resp.status, 201);
    assert_eq!(resp.status_text, "Created");
    assert_eq!(resp.duration_ms, 12);
    assert_eq!(resp.headers.len(), 2);
    assert_eq!(resp.headers.get("content-type").unwrap(), "application/json; charset=utf-8");
    assert_eq!(resp.headers.get("x-dup").unwrap(), "2");
    assert!(resp.headers.get("x-binary").is_none());
    assert!(resp.is_json());
    assert_eq!(resp.display_body(), "{\n  \"a\": 1\n}");
}

#[test]
fn is_json_needs_exact_lowercase_header_name() {
    let raw = vec![("content-type".to_string(), Some("text/html".to_string()))];
    let html = HttpResponse::from_parts(200, &raw, "<p>".to_string(), 1);
    assert!(!html.is_json());
    assert_eq!(html.display_body(), "<p>");
    let none = HttpResponse::from_parts(200, &vec![], "{}".to_string(), 1);
    assert!(!none.is_json());
}
