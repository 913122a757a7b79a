//! What the mathematical values keep of the values that they stand for: all of it.

use serde_json::Value;
use vstd::prelude::*;

use crate::entity::{doc_result, EntityDoc, StoredEntity};
use crate::error::{ApiError, ErrorView};
use crate::json::{json_of, members_of};
use crate::postgres::{
    opt_json, Action, ActionView, Change, ChangeView, Event, EventView, Phase, PhaseView, Row,
    Transaction,
};
use crate::reply::{BodyView, Reply, ReplyBody};
use crate::storage::{opt_version, read_result, write_result};
use crate::text::{opt_string, opt_text};

verus! {

/// An optional value is there exactly where what stands for it is, and holds the same.
pub proof fn law_options_are_kept(
    text: Option<&str>,
    owned: Option<String>,
    value: Option<Value>,
    version: Option<u64>,
)
    ensures
        match text {
            Some(t) => opt_text(text) == Some(t@),
            None => opt_text(text) is None,
        },
        match owned {
            Some(t) => opt_string(owned) == Some(t@),
            None => opt_string(owned) is None,
        },
        match value {
            Some(v) => opt_json(value) == Some(json_of(v)),
            None => opt_json(value) is None,
        },
        match version {
            Some(v) => opt_version(version) matches Some(n) && n == v,
            None => opt_version(version) is None,
        },
{
}

/// A document and a stored entity are told by each of their fields.
pub proof fn law_entities_are_kept(doc: EntityDoc, stored: StoredEntity)
    ensures
        doc@.id == doc.id@,
        doc@.entity_type == doc.entity_type@,
        doc@.extra == members_of(doc.extra),
        stored@.doc == stored.doc@,
        stored@.version == stored.version,
        stored@.updated_at_ms == stored.updated_at_ms,
{
}

/// An error is told by its kind and by each of its texts.
pub proof fn law_errors_are_kept(e: ApiError)
    ensures
        e is Unauthorized <==> e@ is Unauthorized,
        e is Forbidden <==> e@ is Forbidden,
        e is InvalidJson <==> e@ is InvalidJson,
        e is Internal <==> e@ is Internal,
        e is NotFound <==> e@ is NotFound,
        e is EtagMismatch <==> e@ is EtagMismatch,
        e matches ApiError::NotFound { entity_id } ==> e@ == (ErrorView::NotFound {
            entity_id: entity_id@,
        }),
        e matches ApiError::EtagMismatch { entity_id, current, provided } ==> e@ == (
        ErrorView::EtagMismatch {
            entity_id: entity_id@,
            current: current@,
            provided: provided@,
        }),
{
}

/// What a read or a write came to is told whole.
pub proof fn law_results_are_kept(
    found: Result<Option<StoredEntity>, ApiError>,
    written: Result<StoredEntity, ApiError>,
    doc: Result<EntityDoc, ApiError>,
)
    ensures
        match found {
            Ok(Some(stored)) => read_result(found) matches Ok(Some(s)) && s == stored@,
            Ok(None) => read_result(found) matches Ok(None),
            Err(e) => read_result(found) matches Err(f) && f == e@,
        },
        match written {
            Ok(stored) => write_result(written) matches Ok(s) && s == stored@,
            Err(e) => write_result(written) matches Err(f) && f == e@,
        },
        match doc {
            Ok(d) => doc_result(doc) matches Ok(s) && s == d@,
            Err(e) => doc_result(doc) matches Err(f) && f == e@,
        },
{
}

/// An answer is told by its status, the texts of its header fields, and its body.
pub proof fn law_answers_are_kept(reply: Reply)
    ensures
        reply@.status == reply.status,
        reply@.etag == opt_string(reply.etag),
        reply@.trace_id == reply.trace_id@,
        match reply.body {
            ReplyBody::Empty => reply@.body is Empty,
            ReplyBody::Entity(value) => reply@.body == BodyView::Entity(json_of(value)),
            ReplyBody::Error(body) => reply@.body == (BodyView::Error {
                code: body.error.code@,
                message: body.error.message@,
                details: json_of(body.error.details),
                trace_id: body.error.trace_id@,
            }),
        },
{
}

/// A row and a write under way are told by each of their fields.
pub proof fn law_rows_and_transactions_are_kept(row: Row, change: Change, tx: Transaction)
    ensures
        row@.doc == opt_json(row.doc),
        row@.version == row.version,
        row@.updated_at_ms == row.updated_at_ms,
        match change {
            Change::Upsert(doc) => change@ == ChangeView::Upsert(doc@),
            Change::Patch(patch_doc) => change@ == ChangeView::Patch(json_of(patch_doc)),
        },
        tx@.id == tx.id@,
        tx@.change == tx.change@,
        tx@.if_match == opt_string(tx.if_match),
        tx@.now == tx.now,
        tx@.phase == tx.phase@,
        match tx.phase {
            Phase::Beginning => tx@.phase is Beginning,
            Phase::Selecting => tx@.phase is Selecting,
            Phase::Writing => tx@.phase is Writing,
            Phase::Committing(answer) => tx@.phase == PhaseView::Committing(write_result(answer)),
            Phase::Finished => tx@.phase is Finished,
        },
{
}

/// What the database is asked to do, and what came of it, is told whole.
pub proof fn law_actions_and_events_are_kept(action: Action, event: Event)
    ensures
        match action {
            Action::Begin => action@ is Begin,
            Action::SelectVersion => action@ is SelectVersion,
            Action::SelectDocument => action@ is SelectDocument,
            Action::Update { entity_type, doc } => action@ == (ActionView::Update {
                entity_type: entity_type@,
                doc: json_of(doc),
            }),
            Action::Insert { entity_type, doc } => action@ == (ActionView::Insert {
                entity_type: entity_type@,
                doc: json_of(doc),
            }),
            Action::Commit => action@ is Commit,
            Action::Finish(answer) => action@ == ActionView::Finish(write_result(answer)),
        },
        match event {
            Event::Failed => event@ is Failed,
            Event::Began => event@ is Began,
            Event::NoRow => event@ is NoRow,
            Event::Version(version) => event@ == EventView::Version(version),
            Event::Document { doc, version } => event@ == (EventView::Document {
                doc: opt_json(doc),
                version,
            }),
            Event::Written(row) => event@ == EventView::Written(row@),
            Event::Committed => event@ is Committed,
        },
{
}

} // verus!
