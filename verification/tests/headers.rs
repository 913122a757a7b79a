use aira_platform::headers::{if_match_from, trace_id_from};
use axum::http::header::{HeaderMap, HeaderName, HeaderValue};

fn with(name: &'static str, value: &[u8]) -> HeaderMap {
    let mut headers = HeaderMap::new();
    headers.insert(HeaderName::from_static(name), HeaderValue::from_bytes(value).unwrap());
    headers
}

fn is_uuid(s: &str) -> bool {
    let b = s.as_bytes();
    b.len() == 36
        && (0..36).all(|i| {
            if i == 8 || i == 13 || i == 18 || i == 23 {
                b[i] == b'-'
            } else {
                b[i].is_ascii_digit() || (b'a'..=b'f').contains(&b[i])
            }
        })
        && b[14] == b'4'
        && b"89ab".contains(&b[19])
}

#[test]
fn a_given_trace_id_is_kept_as_it_is() {
    assert_eq!(trace_id_from(&with("x-trace-id", b"abc-1")), "abc-1");
    assert_eq!(trace_id_from(&with("x-trace-id", b"  a b\t")), "  a b\t");
}

#[test]
fn the_first_of_two_trace_ids_counts() {
    let mut headers = with("x-trace-id", b"one");
    headers.append("x-trace-id", HeaderValue::from_static("two"));
    assert_eq!(trace_id_from(&headers), "one");
}

#[test]
fn without_a_usable_trace_id_there_is_a_fresh_one() {
    let none = HeaderMap::new();
    assert!(is_uuid(&trace_id_from(&none)));
    assert!(is_uuid(&trace_id_from(&with("x-trace-id", b""))));
    assert!(is_uuid(&trace_id_from(&with("x-trace-id", b" \t "))));
    assert!(is_uuid(&trace_id_from(&with("x-trace-id", b"caf\xc3\xa9"))));
    assert!(trace_id_from(&none) != trace_id_from(&none));
}

#[test]
fn trace_ids_can_be_sent_as_header_values() {
    for _ in 0..20 {
        assert!(HeaderValue::from_str(&trace_id_from(&HeaderMap::new())).is_ok());
    }
    assert!(HeaderValue::from_str(&trace_id_from(&with("x-trace-id", b"\t~ "))).is_ok());
}

#[test]
fn a_precondition_is_read_with_or_without_quotes() {
    assert_eq!(if_match_from(&with("if-match", b"v3")), Some("v3".to_string()));
    assert_eq!(if_match_from(&with("if-match", b"\"v3\"")), Some("v3".to_string()));
    assert_eq!(if_match_from(&with("if-match", b" \t\"v3\" ")), Some("v3".to_string()));
    assert_eq!(if_match_from(&with("if-match", b"\"\"v3\"")), Some("v3".to_string()));
}

#[test]
fn quotes_are_taken_off_after_the_white_space_only() {
    assert_eq!(if_match_from(&with("if-match", b"\" v3 \"")), Some(" v3 ".to_string()));
    assert_eq!(if_match_from(&with("if-match", b"W/\"v3\"")), Some("W/\"v3".to_string()));
    assert_eq!(if_match_from(&with("if-match", b"\"\"\"")), Some(String::new()));
    assert_eq!(if_match_from(&with("if-match", b"")), Some(String::new()));
}

#[test]
fn without_a_readable_field_there_is_no_precondition() {
    assert_eq!(if_match_from(&HeaderMap::new()), None);
    assert_eq!(if_match_from(&with("if-match", b"v\xff")), None);
    assert_eq!(if_match_from(&with("x-trace-id", b"v1")), None);
}
