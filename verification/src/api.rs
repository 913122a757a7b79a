//! The request handlers: what each of them decides and answers, round the storage call.

use axum::http::header::{HeaderMap, HeaderValue};
use serde_json::Value;
use vstd::prelude::*;

use crate::entity::DocView;
use crate::entity::{EntityDoc, StoredEntity};
use crate::error::ApiError;
use crate::error::ErrorView;
use crate::headers::{field_text, header_fields, if_match, is_field_name, is_trace_id_of};
use crate::headers::{header_text, if_match_from, trace_id_from};
use crate::json::json_of;
use crate::reply::Reply;
use crate::reply::{api_error_response, read_response, write_response};
use crate::reply::{error_reply, has_legal_headers, read_reply, write_reply, ReplyView};
use crate::storage::{read_result, write_result};
use crate::text::strip_prefix;
use crate::text::{after_prefix, opt_string, opt_text, trimmed};

verus! {

/// The version of the service.
pub const VERSION: &'static str = "0.1.0";

/// Answers a health check: the status and the text of the body.
pub fn health() -> (answer: (u16, &'static str))
    ensures
        answer.0 == 200,
        answer.1@ == "ok"@,
{
    (200, "ok")
}

/// Answers a question for the version of the service: the status and the text of the body.
pub fn version() -> (answer: (u16, &'static str))
    ensures
        answer.0 == 200,
        answer.1@ == "0.1.0"@,
{
    (200, VERSION)
}

/// Whether `reply` is the answer that `answer` gives for a trace id of a request with these
/// fields.
pub open spec fn answers_with_trace_id(
    reply: ReplyView,
    fields: Map<Seq<char>, Seq<u8>>,
    answer: spec_fn(Seq<char>) -> ReplyView,
) -> bool {
    is_trace_id_of(fields, reply.trace_id) && reply == answer(reply.trace_id)
}

/// Answers a read of the entity `id`, given what the storage found.
pub fn get_entity(
    id: &str,
    headers: &HeaderMap<HeaderValue>,
    found: Result<Option<StoredEntity>, ApiError>,
) -> (reply: Reply)
    ensures
        answers_with_trace_id(
            reply@,
            header_fields(*headers),
            |trace_id: Seq<char>| read_reply(id@, read_result(found), trace_id),
        ),
        has_legal_headers(reply@),
{
    read_response(id, found, trace_id_from(headers))
}

/// A write of a whole document, with the precondition that the request states.
#[derive(Debug)]
pub struct Upsert {
    pub doc: EntityDoc,
    pub if_match: Option<String>,
}

/// The write that a PUT of `payload` under `id` asks for, or the answer that refuses it.
pub fn put_entity(id: &str, headers: &HeaderMap<HeaderValue>, payload: &Value) -> (upsert: Result<
    Upsert,
    Reply,
>)
    ensures
        match DocView::with_id(id@, json_of(*payload)) {
            Some(doc) => upsert matches Ok(u) && u.doc@ == doc && opt_string(u.if_match)
                == if_match(header_fields(*headers)),
            None => upsert matches Err(reply) && answers_with_trace_id(
                reply@,
                header_fields(*headers),
                |trace_id: Seq<char>| error_reply(ErrorView::InvalidJson, trace_id),
            ) && has_legal_headers(reply@),
        },
{
    match EntityDoc::with_id(id, payload) {
        Ok(doc) => Ok(Upsert { doc, if_match: if_match_from(headers) }),
        Err(e) => Err(api_error_response(e, trace_id_from(headers))),
    }
}

/// Answers a PUT or a PATCH, given what the storage wrote.
pub fn entity_written(
    headers: &HeaderMap<HeaderValue>,
    written: Result<StoredEntity, ApiError>,
) -> (reply: Reply)
    ensures
        answers_with_trace_id(
            reply@,
            header_fields(*headers),
            |trace_id: Seq<char>| write_reply(write_result(written), trace_id),
        ),
        has_legal_headers(reply@),
{
    write_response(written, trace_id_from(headers))
}

/// The API key that a request offers: the text of its `x-api-key` field, or else what follows
/// `ApiKey ` in its `authorization` field, without the white space round it.
pub open spec fn offered_key(fields: Map<Seq<char>, Seq<u8>>) -> Option<Seq<char>> {
    match field_text(fields, "x-api-key"@) {
        Some(s) => Some(trimmed(s)),
        None => match field_text(fields, "authorization"@) {
            Some(s) => match after_prefix(trimmed(s), "ApiKey "@) {
                Some(rest) => Some(trimmed(rest)),
                None => None,
            },
            None => None,
        },
    }
}

/// Why a request that offers the key `offered` is refused, or `None` where it is let through.
pub open spec fn refusal(
    api_key: Option<Seq<char>>,
    allow_insecure_dev: bool,
    offered: Option<Seq<char>>,
) -> Option<ErrorView> {
    match (api_key, offered) {
        (None, _) => if allow_insecure_dev {
            None
        } else {
            Some(ErrorView::Unauthorized)
        },
        (Some(_), None) => Some(ErrorView::Unauthorized),
        (Some(expected), Some(provided)) => if provided == expected {
            None
        } else {
            Some(ErrorView::Forbidden)
        },
    }
}

/// Reads the API key that a request offers.
fn offered_key_from(headers: &HeaderMap<HeaderValue>) -> (key: Option<String>)
    ensures
        opt_string(key) == offered_key(header_fields(*headers)),
{
    proof {
        reveal_strlit("x-api-key");
        reveal_strlit("authorization");
        assert(is_field_name("x-api-key"@));
        assert(is_field_name("authorization"@));
    }
    match header_text(headers, "x-api-key") {
        Some(s) => Some(s.trim().to_string()),
        None => match header_text(headers, "authorization") {
            Some(s) => match strip_prefix(s.trim(), "ApiKey ") {
                Some(rest) => Some(rest.trim().to_string()),
                None => None,
            },
            None => None,
        },
    }
}

/// Guards the API: the answer that refuses the request, or `None` where it is let through.
pub fn api_key_guard(
    api_key: Option<&str>,
    allow_insecure_dev: bool,
    headers: &HeaderMap<HeaderValue>,
) -> (refused: Option<Reply>)
    ensures
        match refusal(opt_text(api_key), allow_insecure_dev, offered_key(header_fields(*headers))) {
            Some(e) => refused matches Some(reply) && answers_with_trace_id(
                reply@,
                header_fields(*headers),
                |trace_id: Seq<char>| error_reply(e, trace_id),
            ) && has_legal_headers(reply@),
            None => refused is None,
        },
{
    let expected = match api_key {
        Some(expected) => expected,
        None => {
            if allow_insecure_dev {
                return None;
            }
            return Some(api_error_response(ApiError::Unauthorized, trace_id_from(headers)));
        },
    };
    match offered_key_from(headers) {
        Some(provided) => {
            if *provided.as_str() != *expected {
                return Some(api_error_response(ApiError::Forbidden, trace_id_from(headers)));
            }
            None
        },
        None => Some(api_error_response(ApiError::Unauthorized, trace_id_from(headers))),
    }
}

} // verus!
