use reqly::formatter::{is_json, pretty_print};
use reqly::text::{contains_str, lines, trim_string};
use reqly::utils::parse_header;

#[test]
fn parse_header_splits_at_first_colon_and_trims() {
    assert_eq!(
        parse_header("Authorization: Bearer a:b"),
        Some(("Authorization".to_string(), "Bearer a:b".to_string()))
    );
    assert_eq!(parse_header("  X-Key :  v  "), Some(("X-Key".to_string(), "v".to_string())));
    assert_eq!(parse_header("k:"), Some(("k".to_string(), "".to_string())));
    assert_eq!(parse_header("no colon here"), None);
    assert_eq!(parse_header(""), None);
}

#[test]
fn parse_formatted_header_round_trip() {
    let key = " Content-Type ";
    let value = " application/json ";
    let raw = format!("{}:{}", key, value);
    assert_eq!(
        parse_header(&raw),
        Some((key.trim().to_string(), value.trim().to_string()))
    );
}

#[test]
fn trim_matches_std() {
    for s in ["", "  ", " a ", "\t\u{a0}x y\u{3000}\n", "\u{2028}z", "abc"] {
        assert_eq!(trim_string(s), s.trim());
    }
}

#[test]
fn lines_match_std() {
    for s in ["", "a", "a\n", "a\r\nb", "a\n\nb\n", "\r", "x\ry\n", "\n"] {
        let expected: Vec<String> = s.lines().map(|l| l.to_string()).collect();
        assert_eq!(lines(s), expected);
    }
}

#[test]
fn contains_matches_std() {
    assert!(contains_str("application/json; charset=utf-8", "application/json"));
    assert!(!contains_str("application/jso", "application/json"));
    assert!(contains_str("abc", ""));
    assert!(!contains_str("", "a"));
}

#[test]
fn pretty_print_formats_json_and_keeps_other_text() {
    assert_eq!(pretty_print("{\"a\":[1,2]}"), "{\n  \"a\": [\n    1,\n    2\n  ]\n}");
    assert_eq!(pretty_print("not json"), "not json");
    assert!(is_json("[1, 2]"));
    assert!(is_json("null"));
    assert!(!is_json("{"));
}
