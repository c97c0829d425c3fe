use github_notifier::pct::{pct_decode, pct_encode};
use github_notifier::query::{extract_query_param, request_line_target};

#[test]
fn encodes_reserved_characters() {
    assert_eq!(pct_encode("github-notifier://auth"), "github-notifier%3A%2F%2Fauth");
}

#[test]
fn keeps_unreserved_characters() {
    assert_eq!(pct_encode("Abc-._~019"), "Abc-._~019");
}

#[test]
fn encodes_space_and_non_ascii() {
    assert_eq!(pct_encode("a b"), "a%20b");
    // One two-byte character becomes two escaped bytes.
    assert_eq!(pct_encode("\u{e9}"), "%C3%A9");
}

#[test]
fn decodes_escapes_plus_and_literals() {
    assert_eq!(pct_decode("a%20b+c"), "a b c");
}

#[test]
fn passes_malformed_escape_through() {
    assert_eq!(pct_decode("100%zz"), "100%zz");
    assert_eq!(pct_decode("%2"), "%2");
}

#[test]
fn extracts_code_and_state() {
    let url = "github-notifier://auth?code=abc123&state=xyz";
    assert_eq!(extract_query_param(url, "code"), Some("abc123".to_string()));
    assert_eq!(extract_query_param(url, "state"), Some("xyz".to_string()));
}

#[test]
fn missing_parameter_is_none() {
    let url = "github-notifier://auth?code=abc123";
    assert_eq!(extract_query_param(url, "state"), None);
}

#[test]
fn url_without_query_has_no_parameters() {
    assert_eq!(extract_query_param("https://example.net/path", "code"), None);
}

#[test]
fn decodes_escaped_value_and_key() {
    let url = "x://y?re%64irect=a%26b+c";
    assert_eq!(extract_query_param(url, "redirect"), Some("a&b c".to_string()));
}

#[test]
fn stops_at_fragment() {
    let url = "http://h/?a=1#b=2";
    assert_eq!(extract_query_param(url, "a"), Some("1".to_string()));
    assert_eq!(extract_query_param(url, "b"), None);
}

#[test]
fn first_occurrence_wins() {
    let url = "x://y?a=1&a=2";
    assert_eq!(extract_query_param(url, "a"), Some("1".to_string()));
}

#[test]
fn segment_without_equals_has_empty_value() {
    let url = "x://y?flag&a=1";
    assert_eq!(extract_query_param(url, "flag"), Some(String::new()));
}

#[test]
fn reads_the_request_target() {
    let line = "GET /auth?code=abc&state=xyz HTTP/1.1\r\n";
    assert_eq!(
        request_line_target(line).as_deref(),
        Some("/auth?code=abc&state=xyz")
    );
}

#[test]
fn request_line_needs_two_tokens() {
    assert_eq!(request_line_target("GET"), None);
    assert_eq!(request_line_target(""), None);
    assert_eq!(request_line_target("   "), None);
}

#[test]
fn request_target_tolerates_extra_spaces() {
    assert_eq!(request_line_target("GET  /x  HTTP/1.1").as_deref(), Some("/x"));
}

#[test]
fn request_target_composes_with_query_extraction() {
    let line = "GET /auth?code=abc123&state=tok HTTP/1.1\r\n";
    let target = request_line_target(line).expect("a well-formed request line");
    let url = format!("http://127.0.0.1:7878{target}");
    assert_eq!(extract_query_param(&url, "code"), Some("abc123".to_string()));
    assert_eq!(extract_query_param(&url, "state"), Some("tok".to_string()));
}

#[test]
fn empty_segments_are_skipped() {
    let url = "x://y?&&a=1&";
    assert_eq!(extract_query_param(url, "a"), Some("1".to_string()));
}
