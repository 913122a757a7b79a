//! The errors that the service answers with.

use serde_json::Value;
use vstd::prelude::*;

use crate::json::{json_of, no_members, Json};
use crate::json::{object_value, text_value};

verus! {

/// Why a request is refused.
#[derive(Debug)]
pub enum ApiError {
    Unauthorized,
    Forbidden,
    InvalidJson,
    NotFound { entity_id: String },
    EtagMismatch { entity_id: String, current: String, provided: String },
    Internal,
}

/// An error with its texts as character sequences.
pub enum ErrorView {
    Unauthorized,
    Forbidden,
    InvalidJson,
    NotFound { entity_id: Seq<char> },
    EtagMismatch { entity_id: Seq<char>, current: Seq<char>, provided: Seq<char> },
    Internal,
}

impl View for ApiError {
    type V = ErrorView;

    open spec fn view(&self) -> ErrorView {
        match self {
            ApiError::Unauthorized => ErrorView::Unauthorized,
            ApiError::Forbidden => ErrorView::Forbidden,
            ApiError::InvalidJson => ErrorView::InvalidJson,
            ApiError::NotFound { entity_id } => ErrorView::NotFound { entity_id: entity_id@ },
            ApiError::EtagMismatch { entity_id, current, provided } => ErrorView::EtagMismatch {
                entity_id: entity_id@,
                current: current@,
                provided: provided@,
            },
            ApiError::Internal => ErrorView::Internal,
        }
    }
}

impl ErrorView {
    /// The machine-readable code of the error.
    pub open spec fn code(self) -> Seq<char> {
        match self {
            ErrorView::Unauthorized => "UNAUTHORIZED"@,
            ErrorView::Forbidden => "FORBIDDEN"@,
            ErrorView::InvalidJson => "INVALID_JSON"@,
            ErrorView::NotFound { .. } => "ENTITY_NOT_FOUND"@,
            ErrorView::EtagMismatch { .. } => "ENTITY_ETAG_MISMATCH"@,
            ErrorView::Internal => "INTERNAL"@,
        }
    }

    /// The HTTP status of the error.
    pub open spec fn status(self) -> u16 {
        match self {
            ErrorView::Unauthorized => 401,
            ErrorView::Forbidden => 403,
            ErrorView::InvalidJson => 400,
            ErrorView::NotFound { .. } => 404,
            ErrorView::EtagMismatch { .. } => 412,
            ErrorView::Internal => 500,
        }
    }

    /// The sentence that the client is shown.
    pub open spec fn message(self) -> Seq<char> {
        match self {
            ErrorView::Unauthorized => "Missing API key"@,
            ErrorView::Forbidden => "Invalid API key"@,
            ErrorView::InvalidJson => "Invalid JSON body"@,
            ErrorView::NotFound { .. } => "Entity not found"@,
            ErrorView::EtagMismatch { .. } => "ETag does not match current version"@,
            ErrorView::Internal => "Internal error"@,
        }
    }

    /// The facts that the client is given beside the sentence.
    pub open spec fn details(self) -> Map<Seq<char>, Json> {
        match self {
            ErrorView::NotFound { entity_id } => no_members().insert(
                "entityId"@,
                Json::Text(entity_id),
            ),
            ErrorView::EtagMismatch { entity_id, current, provided } => no_members().insert(
                "entityId"@,
                Json::Text(entity_id),
            ).insert("currentEtag"@, Json::Text(current)).insert(
                "providedIfMatch"@,
                Json::Text(provided),
            ),
            _ => no_members(),
        }
    }

    /// The short description of the error.
    pub open spec fn description(self) -> Seq<char> {
        match self {
            ErrorView::Unauthorized => "unauthorized"@,
            ErrorView::Forbidden => "forbidden"@,
            ErrorView::InvalidJson => "invalid json"@,
            ErrorView::NotFound { .. } => "entity not found"@,
            ErrorView::EtagMismatch { .. } => "etag mismatch"@,
            ErrorView::Internal => "internal"@,
        }
    }
}

impl ApiError {
    /// The machine-readable code of the error and its HTTP status.
    pub fn code(&self) -> (code: (&'static str, u16))
        ensures
            code.0@ == self@.code(),
            code.1 == self@.status(),
    {
        match self {
            ApiError::Unauthorized => ("UNAUTHORIZED", 401),
            ApiError::Forbidden => ("FORBIDDEN", 403),
            ApiError::InvalidJson => ("INVALID_JSON", 400),
            ApiError::NotFound { .. } => ("ENTITY_NOT_FOUND", 404),
            ApiError::EtagMismatch { .. } => ("ENTITY_ETAG_MISMATCH", 412),
            ApiError::Internal => ("INTERNAL", 500),
        }
    }

    /// The sentence that the client is shown.
    pub fn message(&self) -> (message: &'static str)
        ensures
            message@ == self@.message(),
    {
        match self {
            ApiError::Unauthorized => "Missing API key",
            ApiError::Forbidden => "Invalid API key",
            ApiError::InvalidJson => "Invalid JSON body",
            ApiError::NotFound { .. } => "Entity not found",
            ApiError::EtagMismatch { .. } => "ETag does not match current version",
            ApiError::Internal => "Internal error",
        }
    }

    /// The facts that the client is given beside the sentence, as a JSON object.
    pub fn details(&self) -> (details: Value)
        ensures
            json_of(details) == Json::Object(self@.details()),
    {
        let mut members = serde_json::Map::new();
        match self {
            ApiError::NotFound { entity_id } => {
                members.insert("entityId".to_string(), text_value(entity_id.clone()));
            },
            ApiError::EtagMismatch { entity_id, current, provided } => {
                members.insert("entityId".to_string(), text_value(entity_id.clone()));
                members.insert("currentEtag".to_string(), text_value(current.clone()));
                members.insert("providedIfMatch".to_string(), text_value(provided.clone()));
            },
            _ => {},
        }
        object_value(members)
    }

    /// The short description of the error, for logs.
    pub fn description(&self) -> (description: &'static str)
        ensures
            description@ == self@.description(),
    {
        match self {
            ApiError::Unauthorized => "unauthorized",
            ApiError::Forbidden => "forbidden",
            ApiError::InvalidJson => "invalid json",
            ApiError::NotFound { .. } => "entity not found",
            ApiError::EtagMismatch { .. } => "etag mismatch",
            ApiError::Internal => "internal",
        }
    }
}

} // verus!
