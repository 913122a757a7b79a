//! Request headers: what the service reads from them, and the trace id of a request.

use axum::http::header::{HeaderMap, HeaderValue, InvalidHeaderValue, ToStrError};
use vstd::prelude::*;

use crate::text::trim_quotes;
use crate::text::{is_blank, opt_string, opt_text, trimmed, unquoted};

verus! {

/// The `http` crate's header multimap.
#[verifier::external_type_specification]
#[verifier::external_body]
#[verifier::reject_recursive_types(T)]
pub struct ExHeaderMap<T>(axum::http::header::HeaderMap<T>);

/// The `http` crate's header value.
#[verifier::external_type_specification]
#[verifier::external_body]
pub struct ExHeaderValue(axum::http::header::HeaderValue);

/// The `http` crate's error for text that is no header value.
#[verifier::external_type_specification]
#[verifier::external_body]
pub struct ExInvalidHeaderValue(axum::http::header::InvalidHeaderValue);

/// The `http` crate's error for a header value that is not plain text.
#[verifier::external_type_specification]
#[verifier::external_body]
pub struct ExToStrError(axum::http::header::ToStrError);

/// The bytes that a header value holds.
pub uninterp spec fn header_bytes(value: HeaderValue) -> Seq<u8>;

/// What a header map holds: for each field name, in small letters, the bytes of the first value.
pub uninterp spec fn header_fields(headers: HeaderMap<HeaderValue>) -> Map<Seq<char>, Seq<u8>>;

/// Whether `b` is a tab or a printable ASCII character.
pub open spec fn is_printable_ascii(b: u8) -> bool {
    32 <= b < 127 || b == 9
}

/// Whether `c` can stand in the text of a header value: no control character but the tab.
pub open spec fn is_header_char(c: char) -> bool {
    32 <= c as u32 && c as u32 != 127 || c as u32 == 9
}

/// Whether `s` can be the text of a header value.
pub open spec fn is_header_text(s: Seq<char>) -> bool {
    forall|i: int| 0 <= i < s.len() ==> is_header_char(#[trigger] s[i])
}

/// The bytes of a header value as text, where each is a tab or a printable ASCII character.
pub open spec fn ascii_text(bytes: Seq<u8>) -> Option<Seq<char>> {
    if forall|i: int| 0 <= i < bytes.len() ==> is_printable_ascii(#[trigger] bytes[i]) {
        Some(bytes.map_values(|b: u8| b as char))
    } else {
        None
    }
}

/// The text of the first value of the field `name`, where there is one and it is plain text.
pub open spec fn field_text(fields: Map<Seq<char>, Seq<u8>>, name: Seq<char>) -> Option<Seq<char>> {
    if fields.contains_key(name) {
        ascii_text(fields[name])
    } else {
        None
    }
}

/// Whether `name` is a field name in small letters.
pub open spec fn is_field_name(name: Seq<char>) -> bool {
    &&& 0 < name.len() <= 64
    &&& forall|i: int| 0 <= i < name.len() ==> 'a' <= #[trigger] name[i] <= 'z' || name[i] == '-'
}

/// `HeaderMap::get`: the first value of the field of that name, or `None` where the map has none.
#[verifier::external_body]
fn first_value<'a>(headers: &'a HeaderMap<HeaderValue>, name: &str) -> (value: Option<&'a HeaderValue>)
    requires
        is_field_name(name@),
    ensures
        match value {
            Some(v) => header_fields(*headers).contains_key(name@) && header_bytes(*v)
                == header_fields(*headers)[name@],
            None => !header_fields(*headers).contains_key(name@),
        },
{
    headers.get(name)
}

/// `HeaderValue::to_str`: the value's bytes as text where each of them is a tab or a printable
/// ASCII character, and an error otherwise.
pub assume_specification[ HeaderValue::to_str ](value: &HeaderValue) -> (text: Result<
    &str,
    ToStrError,
>)
    ensures
        match text {
            Ok(s) => ascii_text(header_bytes(*value)) == Some(s@),
            Err(_) => ascii_text(header_bytes(*value)) is None,
        },
;

/// `HeaderValue::from_str`: a value that holds the text's UTF-8 bytes where the text has no
/// control character but tabs, and an error otherwise.
pub assume_specification[ HeaderValue::from_str ](text: &str) -> (value: Result<
    HeaderValue,
    InvalidHeaderValue,
>)
    ensures
        match value {
            Ok(v) => is_header_text(text@) && header_bytes(v) == vstd::utf8::encode_utf8(text@),
            Err(_) => !is_header_text(text@),
        },
;

/// Whether `s` is a random (version 4) UUID in the hyphenated form with small letters.
pub open spec fn is_uuid_v4(s: Seq<char>) -> bool {
    &&& s.len() == 36
    &&& forall|i: int|
        0 <= i < 36 ==> if i == 8 || i == 13 || i == 18 || i == 23 {
            #[trigger] s[i] == '-'
        } else {
            '0' <= s[i] <= '9' || 'a' <= s[i] <= 'f'
        }
    &&& s[14] == '4'
    &&& s[19] == '8' || s[19] == '9' || s[19] == 'a' || s[19] == 'b'
}

/// `Uuid::new_v4`, printed: a version 4 UUID in the hyphenated form. Which one depends on chance.
/// It panics where the machine has no source of randomness.
#[verifier::external_body]
fn random_uuid() -> (id: String)
    ensures
        is_uuid_v4(id@),
{
    uuid::Uuid::new_v4().to_string()
}

/// The text of the first value of a field, where there is one and it is plain text.
pub(crate) fn header_text<'a>(headers: &'a HeaderMap<HeaderValue>, name: &str) -> (text: Option<&'a str>)
    requires
        is_field_name(name@),
    ensures
        opt_text(text) == field_text(header_fields(*headers), name@),
{
    match first_value(headers, name) {
        Some(value) => match value.to_str() {
            Ok(text) => Some(text),
            Err(_) => None,
        },
        None => None,
    }
}

/// The trace id that a request brings: the text of its `x-trace-id` field, unless that is blank.
pub open spec fn given_trace_id(fields: Map<Seq<char>, Seq<u8>>) -> Option<Seq<char>> {
    match field_text(fields, "x-trace-id"@) {
        Some(s) => if is_blank(s) {
            None
        } else {
            Some(s)
        },
        None => None,
    }
}

/// Whether `trace_id` can be the trace id of a request with these fields: the one that it brings,
/// or else any random UUID.
pub open spec fn is_trace_id_of(fields: Map<Seq<char>, Seq<u8>>, trace_id: Seq<char>) -> bool {
    match given_trace_id(fields) {
        Some(s) => trace_id == s,
        None => is_uuid_v4(trace_id),
    }
}

/// The trace id of a request: the one that it brings, or else a fresh random UUID. Either way it
/// can be sent back as a header value.
pub fn trace_id_from(headers: &HeaderMap<HeaderValue>) -> (trace_id: String)
    ensures
        is_trace_id_of(header_fields(*headers), trace_id@),
        is_header_text(trace_id@),
{
    proof {
        reveal_strlit("x-trace-id");
        assert(is_field_name("x-trace-id"@));
    }
    match header_text(headers, "x-trace-id") {
        Some(s) => if s.trim().is_empty() {
            random_uuid()
        } else {
            s.to_string()
        },
        None => random_uuid(),
    }
}

/// The version precondition of a write: the text of the `if-match` field, without the white space
/// and then without the double quotes round it.
pub open spec fn if_match(fields: Map<Seq<char>, Seq<u8>>) -> Option<Seq<char>> {
    match field_text(fields, "if-match"@) {
        Some(s) => Some(unquoted(trimmed(s))),
        None => None,
    }
}

/// Reads the version precondition of a write from the request's `if-match` field.
pub fn if_match_from(headers: &HeaderMap<HeaderValue>) -> (precondition: Option<String>)
    ensures
        opt_string(precondition) == if_match(header_fields(*headers)),
{
    proof {
        reveal_strlit("if-match");
        assert(is_field_name("if-match"@));
    }
    match header_text(headers, "if-match") {
        Some(s) => Some(trim_quotes(s.trim()).to_string()),
        None => None,
    }
}

} // verus!
