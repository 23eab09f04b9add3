use kurl::headers::{eq_ignore_case, make_header, to_lower};
use kurl::text::chars_of;
use kurl::{parse_header, ClientError, ErrorCategory, Header, HeaderSet};

fn bad_name() -> ClientError {
    ClientError::InvalidHeaderName("invalid HTTP header name".to_string())
}

fn bad_value() -> ClientError {
    ClientError::InvalidHeaderValue("failed to parse header value".to_string())
}

fn header(name: &str, value: &str) -> Header {
    Header { name: name.to_string(), value: value.to_string() }
}

#[test]
fn header_is_split_at_first_colon_and_trimmed() {
    assert_eq!(parse_header("Accept: text/html"), Ok(header("accept", "text/html")));
    assert_eq!(parse_header("  X-Custom  :   some value  "), Ok(header("x-custom", "some value")));
}

#[test]
fn header_value_may_hold_colons() {
    assert_eq!(
        parse_header("Referer: http://example.com:8080/a"),
        Ok(header("referer", "http://example.com:8080/a"))
    );
}

#[test]
fn header_name_is_kept_in_lower_case() {
    assert_eq!(parse_header("CONTENT-TYPE:application/json"), Ok(header("content-type", "application/json")));
}

#[test]
fn header_with_empty_value_is_accepted() {
    assert_eq!(parse_header("X-Empty:"), Ok(header("x-empty", "")));
}

#[test]
fn header_without_colon_fails_with_its_text() {
    let err = parse_header("NoColonHere").unwrap_err();
    assert_eq!(err, ClientError::HeaderFormat("NoColonHere".to_string()));
    assert_eq!(err.category(), ErrorCategory::Configuration);
    assert_eq!(err.message(), "Invalid header format: NoColonHere");
}

#[test]
fn empty_header_string_fails_as_format_error() {
    assert_eq!(parse_header(""), Err(ClientError::HeaderFormat(String::new())));
}

#[test]
fn header_with_empty_name_fails() {
    assert_eq!(parse_header(": value"), Err(bad_name()));
    assert_eq!(parse_header("   : value"), Err(bad_name()));
    assert_eq!(bad_name().message(), "invalid HTTP header name");
}

#[test]
fn header_name_with_space_or_control_fails() {
    assert_eq!(parse_header("Bad Name: v"), Err(bad_name()));
    assert_eq!(parse_header("Bad(Name): v"), Err(bad_name()));
    assert_eq!(parse_header("N\u{e9}: v"), Err(bad_name()));
    assert_eq!(bad_name().category(), ErrorCategory::Configuration);
}

#[test]
fn header_name_may_hold_every_token_character() {
    let name = "!#$%&'*+-.^_`|~09azAZ";
    let parsed = parse_header(&format!("{}: v", name)).unwrap();
    assert_eq!(parsed.name, "!#$%&'*+-.^_`|~09azaz");
}

#[test]
fn header_name_length_limit() {
    let longest = "a".repeat(65535);
    assert!(make_header(&longest, "v").is_ok());
    let too_long = "a".repeat(65536);
    assert_eq!(make_header(&too_long, "v"), Err(bad_name()));
}

#[test]
fn header_value_with_control_character_fails() {
    assert_eq!(parse_header("X-A: a\u{1}b"), Err(bad_value()));
    assert_eq!(parse_header("X-A: a\u{7f}b"), Err(bad_value()));
    assert_eq!(make_header("x-a", "line\nbreak"), Err(bad_value()));
    assert_eq!(bad_value().category(), ErrorCategory::Configuration);
}

#[test]
fn header_value_may_hold_tabs_and_text_beyond_ascii() {
    assert_eq!(make_header("x-a", "a\tb"), Ok(header("x-a", "a\tb")));
    assert_eq!(make_header("x-a", "caf\u{e9}"), Ok(header("x-a", "caf\u{e9}")));
}

#[test]
fn header_name_is_checked_before_value() {
    assert_eq!(make_header("bad name", "bad\nvalue"), Err(bad_name()));
}

#[test]
fn header_set_keeps_order_and_duplicates() {
    let raw = vec!["B: 1".to_string(), "A: 2".to_string(), "b: 3".to_string()];
    let set = HeaderSet::build(&raw, &None).unwrap();
    assert_eq!(set.entries, vec![header("b", "1"), header("a", "2"), header("b", "3")]);
    assert_eq!(set.len(), 3);
}

#[test]
fn header_set_lookup_finds_the_last_of_a_name() {
    let raw = vec!["B: 1".to_string(), "A: 2".to_string(), "b: 3".to_string()];
    let set = HeaderSet::build(&raw, &None).unwrap();
    assert_eq!(set.position("B"), Some(2));
    assert_eq!(set.position("a"), Some(1));
    assert_eq!(set.position("c"), None);
    assert!(set.contains("A"));
    assert!(!set.contains("content-type"));
    assert_eq!(set.get("b"), Some("3".to_string()));
    assert_eq!(set.get("A"), Some("2".to_string()));
    assert_eq!(set.get("c"), None);
}

#[test]
fn header_set_puts_cookie_last() {
    let raw = vec!["Accept: */*".to_string()];
    let set = HeaderSet::build(&raw, &Some("a=1; b=2".to_string())).unwrap();
    assert_eq!(set.entries, vec![header("accept", "*/*"), header("cookie", "a=1; b=2")]);
}

#[test]
fn header_set_cookie_is_not_trimmed() {
    let set = HeaderSet::build(&Vec::new(), &Some(" a=1 ".to_string())).unwrap();
    assert_eq!(set.entries, vec![header("cookie", " a=1 ")]);
}

#[test]
fn header_set_rejects_bad_cookie() {
    let err = HeaderSet::build(&Vec::new(), &Some("a=\n1".to_string())).unwrap_err();
    assert_eq!(err, bad_value());
}

#[test]
fn header_set_fails_with_the_first_bad_string() {
    let raw = vec!["A: 1".to_string(), "nocolon".to_string(), "bad name: x".to_string()];
    assert_eq!(
        HeaderSet::build(&raw, &None),
        Err(ClientError::HeaderFormat("nocolon".to_string()))
    );
    let raw = vec!["bad name: x".to_string(), "nocolon".to_string()];
    assert_eq!(HeaderSet::build(&raw, &None), Err(bad_name()));
}

#[test]
fn header_set_reports_header_before_cookie() {
    let raw = vec!["nocolon".to_string()];
    assert_eq!(
        HeaderSet::build(&raw, &Some("bad\ncookie".to_string())),
        Err(ClientError::HeaderFormat("nocolon".to_string()))
    );
}

#[test]
fn empty_header_set() {
    let set = HeaderSet::new();
    assert_eq!(set.len(), 0);
    assert!(!set.contains("accept"));
    assert_eq!(HeaderSet::build(&Vec::new(), &None), Ok(set));
}

#[test]
fn header_set_push_appends() {
    let mut set = HeaderSet::new();
    set.push(header("a", "1"));
    set.push(header("b", "2"));
    assert_eq!(set.entries, vec![header("a", "1"), header("b", "2")]);
}

#[test]
fn names_compare_without_case() {
    assert!(eq_ignore_case(&chars_of("Content-Type"), &chars_of("content-type")));
    assert!(!eq_ignore_case(&chars_of("Content-Type"), &chars_of("content-typ")));
    assert!(!eq_ignore_case(&chars_of("a"), &chars_of("b")));
    assert_eq!(to_lower('Q'), 'q');
    assert_eq!(to_lower('q'), 'q');
    assert_eq!(to_lower('['), '[');
    assert_eq!(to_lower('@'), '@');
}
