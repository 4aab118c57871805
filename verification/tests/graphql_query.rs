use reqly::graphql::{query_from_cli, BodyError, GraphqlQuery, GraphqlResponse};
use serde_json::Value;

#[test]
fn test_graphql_query_serialization_basic() {
    let q = GraphqlQuery::new("http://api", "query { users { id } }");
    let json_str = q.to_body_json().unwrap();

    let parsed: Value = serde_json::from_str(&json_str).unwrap();
    assert_eq!(parsed["query"], "query { users { id } }");
    assert!(parsed.get("variables").is_none());
    assert!(parsed.get("operationName").is_none());
}

#[test]
fn test_graphql_query_serialization_full() {
    let q = GraphqlQuery::new("http://api", "query GetUser { user { name } }")
        .with_variables(r#"{"id": 123}"#)
        .with_operation("GetUser")
        .with_header("Auth", "secret");

    let json_str = q.to_body_json().unwrap();
    let parsed: Value = serde_json::from_str(&json_str).unwrap();

    assert_eq!(parsed["query"], "query GetUser { user { name } }");
    assert_eq!(parsed["variables"]["id"], 123);
    assert_eq!(parsed["operationName"], "GetUser");

    assert_eq!(q.headers.get("Auth").unwrap(), "secret");
}

#[test]
fn body_json_exact_text() {
    let q = GraphqlQuery::new("u", "q \"x\"");
    assert_eq!(q.to_body_json().unwrap(), r#"{"query":"q \"x\""}"#);
    let q2 = GraphqlQuery::new("u", "q").with_variables("{ \"b\" : [1, 2] }").with_operation("Op");
    assert_eq!(q2.to_body_json().unwrap(), r#"{"query":"q","variables":{"b":[1,2]},"operationName":"Op"}"#);
}

#[test]
fn body_json_rejects_invalid_variables() {
    let q = GraphqlQuery::new("u", "q").with_variables("{not json");
    assert!(matches!(q.to_body_json(), Err(BodyError::InvalidVariables)));
}

#[test]
fn cli_query_ignores_invalid_variables() {
    let headers = vec!["Auth: t".to_string(), "broken".to_string()];
    let built = query_from_cli("http://g", "{ a }", &Some("{x".to_string()), &Some("Op".to_string()), &headers);
    assert!(built.variables_ignored);
    assert!(built.query.variables.is_none());
    assert_eq!(built.query.operation_name.as_deref(), Some("Op"));
    assert_eq!(built.query.headers.len(), 1);
    assert_eq!(built.query.headers.get("Auth").unwrap(), "t");

    let ok = query_from_cli("http://g", "{ a }", &Some("{\"x\": 1}".to_string()), &None, &vec![]);
    assert!(!ok.variables_ignored);
    assert_eq!(ok.query.variables.as_deref(), Some("{\"x\": 1}"));
    assert!(ok.query.operation_name.is_none());
}

#[test]
fn response_reads_data_and_errors() {
    let r = GraphqlResponse::from_parts(200, r#"{"data":{"user":{"name":"Alice"}}}"#.to_string(), 5);
    assert_eq!(r.status_text, "OK");
    assert!(!r.has_errors());
    let data: Value = serde_json::from_str(r.data.as_deref().unwrap()).unwrap();
    assert_eq!(data["user"]["name"], "Alice");
    assert!(r.errors.is_none());

    let e = GraphqlResponse::from_parts(200, r#"{"data":null,"errors":[{"message":"boom"},{"message":"b2"}]}"#.to_string(), 5);
    assert!(e.has_errors());
    assert_eq!(e.errors.as_ref().unwrap().len(), 2);
    assert_eq!(e.errors.as_ref().unwrap()[0], r#"{"message":"boom"}"#);
    assert_eq!(e.data.as_deref(), Some("null"));

    let empty = GraphqlResponse::from_parts(200, r#"{"errors":[]}"#.to_string(), 5);
    assert!(!empty.has_errors());
    assert_eq!(empty.errors.as_ref().unwrap().len(), 0);

    let junk = GraphqlResponse::from_parts(502, "Bad gateway".to_string(), 5);
    assert!(junk.data.is_none());
    assert!(junk.errors.is_none());
    assert_eq!(junk.pretty_body(), "Bad gateway");
    assert_eq!(junk.status_text, "Bad Gateway");
}

#[test]
fn pretty_body_formats_json() {
    let r = GraphqlResponse::from_parts(200, r#"{"data":1}"#.to_string(), 5);
    assert_eq!(r.pretty_body(), "{\n  \"data\": 1\n}");
}
