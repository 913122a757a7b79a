//! The answers of the service, as a status, header texts and a body.

use axum::http::header::HeaderValue;
use serde_json::Value;
use vstd::prelude::*;

use crate::entity::StoredEntity;
use crate::entity::StoredView;
use crate::error::ApiError;
use crate::error::ErrorView;
use crate::etag::{etag, etag_for};
use crate::headers::is_header_text;
use crate::json::{json_of, Json};
use crate::laws::law_answers_have_legal_headers;
use crate::storage::{read_result, write_result};

verus! {

/// The body of an error answer.
#[derive(Debug)]
pub struct ErrorBody {
    pub error: ErrorInner,
}

/// What an error answer tells.
#[derive(Debug)]
pub struct ErrorInner {
    pub code: String,
    pub message: String,
    pub details: Value,
    pub trace_id: String,
}

/// The body of an answer.
#[derive(Debug)]
pub enum ReplyBody {
    Empty,
    Entity(Value),
    Error(ErrorBody),
}

/// An answer: the status, the text of the `etag` field where it has one, the text of the
/// `x-trace-id` field, and the body.
#[derive(Debug)]
pub struct Reply {
    pub status: u16,
    pub etag: Option<String>,
    pub trace_id: String,
    pub body: ReplyBody,
}

/// The body of an answer as a mathematical value.
pub enum BodyView {
    Empty,
    Entity(Json),
    Error {
        code: Seq<char>,
        message: Seq<char>,
        details: Json,
        trace_id: Seq<char>,
    },
}

/// An answer as a mathematical value.
pub struct ReplyView {
    pub status: u16,
    pub etag: Option<Seq<char>>,
    pub trace_id: Seq<char>,
    pub body: BodyView,
}

impl View for ReplyBody {
    type V = BodyView;

    open spec fn view(&self) -> BodyView {
        match self {
            ReplyBody::Empty => BodyView::Empty,
            ReplyBody::Entity(value) => BodyView::Entity(json_of(*value)),
            ReplyBody::Error(body) => BodyView::Error {
                code: body.error.code@,
                message: body.error.message@,
                details: json_of(body.error.details),
                trace_id: body.error.trace_id@,
            },
        }
    }
}

impl View for Reply {
    type V = ReplyView;

    open spec fn view(&self) -> ReplyView {
        ReplyView {
            status: self.status,
            etag: match self.etag {
                Some(tag) => Some(tag@),
                None => None,
            },
            trace_id: self.trace_id@,
            body: self.body@,
        }
    }
}

/// The text of the `x-trace-id` field for a trace id, which may hold characters that no header
/// value can hold.
pub open spec fn trace_field(trace_id: Seq<char>) -> Seq<char> {
    if is_header_text(trace_id) {
        trace_id
    } else {
        "invalid-trace-id"@
    }
}

/// Whether the header fields of an answer can be sent.
pub open spec fn has_legal_headers(reply: ReplyView) -> bool {
    is_header_text(reply.trace_id) && (reply.etag matches Some(tag) ==> is_header_text(tag))
}

/// The answer to a request that is refused.
pub open spec fn error_reply(e: ErrorView, trace_id: Seq<char>) -> ReplyView {
    ReplyView {
        status: e.status(),
        etag: None,
        trace_id: trace_field(trace_id),
        body: BodyView::Error {
            code: e.code(),
            message: e.message(),
            details: Json::Object(e.details()),
            trace_id,
        },
    }
}

/// The answer to a read of the entity `id`.
pub open spec fn read_reply(
    id: Seq<char>,
    found: Result<Option<StoredView>, ErrorView>,
    trace_id: Seq<char>,
) -> ReplyView {
    match found {
        Ok(Some(stored)) => ReplyView {
            status: 200,
            etag: Some(etag(stored.version)),
            trace_id,
            body: BodyView::Entity(stored.doc.to_json()),
        },
        Ok(None) => error_reply(ErrorView::NotFound { entity_id: id }, trace_id),
        Err(e) => error_reply(e, trace_id),
    }
}

/// The answer to a write.
pub open spec fn write_reply(
    written: Result<StoredView, ErrorView>,
    trace_id: Seq<char>,
) -> ReplyView {
    match written {
        Ok(stored) => ReplyView {
            status: 200,
            etag: Some(etag(stored.version)),
            trace_id,
            body: BodyView::Empty,
        },
        Err(e) => error_reply(e, trace_id),
    }
}

/// Answers a request that is refused.
pub fn api_error_response(err: ApiError, trace_id: String) -> (reply: Reply)
    ensures
        reply@ == error_reply(err@, trace_id@),
        has_legal_headers(reply@),
{
    proof {
        law_answers_have_legal_headers(seq![], err@, Ok(None), Err(err@), trace_id@);
    }
    let (code, status) = err.code();
    let trace_field = match HeaderValue::from_str(trace_id.as_str()) {
        Ok(_) => trace_id.clone(),
        Err(_) => "invalid-trace-id".to_string(),
    };
    Reply {
        status,
        etag: None,
        trace_id: trace_field,
        body: ReplyBody::Error(
            ErrorBody {
                error: ErrorInner {
                    code: code.to_string(),
                    message: err.message().to_string(),
                    details: err.details(),
                    trace_id,
                },
            },
        ),
    }
}

/// Answers a read of the entity `id`. The trace id goes out as a header value.
pub fn read_response(
    id: &str,
    found: Result<Option<StoredEntity>, ApiError>,
    trace_id: String,
) -> (reply: Reply)
    requires
        found matches Ok(Some(_)) ==> is_header_text(trace_id@),
    ensures
        reply@ == read_reply(id@, read_result(found), trace_id@),
        has_legal_headers(reply@),
{
    proof {
        law_answers_have_legal_headers(
            id@,
            ErrorView::Internal,
            read_result(found),
            Err(ErrorView::Internal),
            trace_id@,
        );
    }
    match found {
        Ok(Some(stored)) => Reply {
            status: 200,
            etag: Some(etag_for(stored.version)),
            trace_id,
            body: ReplyBody::Entity(stored.doc.to_json()),
        },
        Ok(None) => api_error_response(ApiError::NotFound { entity_id: id.to_string() }, trace_id),
        Err(e) => api_error_response(e, trace_id),
    }
}

/// Answers a write. The trace id goes out as a header value.
pub fn write_response(written: Result<StoredEntity, ApiError>, trace_id: String) -> (reply: Reply)
    requires
        written is Ok ==> is_header_text(trace_id@),
    ensures
        reply@ == write_reply(write_result(written), trace_id@),
        has_legal_headers(reply@),
{
    proof {
        law_answers_have_legal_headers(
            seq![],
            ErrorView::Internal,
            Ok(None),
            write_result(written),
            trace_id@,
        );
    }
    match written {
        Ok(stored) => Reply {
            status: 200,
            etag: Some(etag_for(stored.version)),
            trace_id,
            body: ReplyBody::Empty,
        },
        Err(e) => api_error_response(e, trace_id),
    }
}

} // verus!
