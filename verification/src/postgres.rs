//! A store that keeps its entities in a database table: what it asks of the database, step by
//! step, and what it makes of the answers. The caller performs each step and hands back what came
//! of it.

use serde_json::Value;
use vstd::prelude::*;

use crate::entity::{DocView, StoredView};
use crate::entity::{EntityDoc, StoredEntity};
use crate::error::ApiError;
use crate::error::ErrorView;
use crate::json::{json_of, merge_patch, Json};
use crate::storage::check_if_match;
use crate::storage::{may_write, mismatch, opt_version, read_result, write_result};
use crate::text::{opt_string, opt_text};

verus! {

/// The columns of a row that was read in full. A column that could not be read is `None`.
#[derive(Debug)]
pub struct Row {
    pub doc: Option<Value>,
    pub version: Option<i64>,
    pub updated_at_ms: Option<i64>,
}

/// A row as a mathematical value.
pub struct RowView {
    pub doc: Option<Json>,
    pub version: Option<i64>,
    pub updated_at_ms: Option<i64>,
}

/// The tree of an optional JSON value.
pub open spec fn opt_json(value: Option<Value>) -> Option<Json> {
    match value {
        Some(v) => Some(json_of(v)),
        None => None,
    }
}

impl View for Row {
    type V = RowView;

    open spec fn view(&self) -> RowView {
        RowView {
            doc: opt_json(self.doc),
            version: self.version,
            updated_at_ms: self.updated_at_ms,
        }
    }
}

/// The entity in a row: `Internal` where a column could not be read, and `InvalidJson` where the
/// document is none.
pub open spec fn entity_in(row: RowView) -> Result<StoredView, ErrorView> {
    match (row.doc, row.version, row.updated_at_ms) {
        (Some(value), Some(version), Some(updated_at_ms)) => match DocView::from_json(value) {
            Some(doc) => Ok(
                StoredView {
                    doc,
                    version: (version as u64) as nat,
                    updated_at_ms: updated_at_ms as int,
                },
            ),
            None => Err(ErrorView::InvalidJson),
        },
        _ => Err(ErrorView::Internal),
    }
}

/// Reads the entity in a row.
pub fn entity_from_row(row: Row) -> (entity: Result<StoredEntity, ApiError>)
    ensures
        write_result(entity) == entity_in(row@),
{
    match (row.doc, row.version, row.updated_at_ms) {
        (Some(value), Some(version), Some(updated_at_ms)) => match EntityDoc::from_json(&value) {
            Ok(doc) => Ok(StoredEntity { doc, version: version as u64, updated_at_ms }),
            Err(e) => Err(e),
        },
        _ => Err(ApiError::Internal),
    }
}

/// What came of looking for the row of an entity.
#[derive(Debug)]
pub enum Lookup {
    Failed,
    NoRow,
    Found(Row),
}

/// What a read answers when the lookup of the entity's row ended like this.
pub open spec fn lookup_outcome(lookup: Lookup) -> Result<Option<StoredView>, ErrorView> {
    match lookup {
        Lookup::Failed => Err(ErrorView::Internal),
        Lookup::NoRow => Ok(None),
        Lookup::Found(row) => match entity_in(row@) {
            Ok(stored) => Ok(Some(stored)),
            Err(e) => Err(e),
        },
    }
}

/// Answers a read when the lookup of the entity's row ended like this.
pub fn entity_from_lookup(lookup: Lookup) -> (found: Result<Option<StoredEntity>, ApiError>)
    ensures
        read_result(found) == lookup_outcome(lookup),
{
    match lookup {
        Lookup::Failed => Err(ApiError::Internal),
        Lookup::NoRow => Ok(None),
        Lookup::Found(row) => match entity_from_row(row) {
            Ok(stored) => Ok(Some(stored)),
            Err(e) => Err(e),
        },
    }
}

/// The change that a write makes: a whole document, or a JSON Merge Patch.
#[derive(Debug)]
pub enum Change {
    Upsert(EntityDoc),
    Patch(Value),
}

/// A change as a mathematical value.
pub enum ChangeView {
    Upsert(DocView),
    Patch(Json),
}

impl View for Change {
    type V = ChangeView;

    open spec fn view(&self) -> ChangeView {
        match self {
            Change::Upsert(doc) => ChangeView::Upsert(doc@),
            Change::Patch(patch_doc) => ChangeView::Patch(json_of(*patch_doc)),
        }
    }
}

/// How far a write has come: the step that it waits for.
#[derive(Debug)]
pub enum Phase {
    Beginning,
    Selecting,
    Writing,
    Committing(Result<StoredEntity, ApiError>),
    Finished,
}

/// A phase as a mathematical value.
pub enum PhaseView {
    Beginning,
    Selecting,
    Writing,
    Committing(Result<StoredView, ErrorView>),
    Finished,
}

impl View for Phase {
    type V = PhaseView;

    open spec fn view(&self) -> PhaseView {
        match self {
            Phase::Beginning => PhaseView::Beginning,
            Phase::Selecting => PhaseView::Selecting,
            Phase::Writing => PhaseView::Writing,
            Phase::Committing(answer) => PhaseView::Committing(write_result(*answer)),
            Phase::Finished => PhaseView::Finished,
        }
    }
}

/// A write under way in a transaction.
#[derive(Debug)]
pub struct Transaction {
    pub id: String,
    pub change: Change,
    pub if_match: Option<String>,
    pub now: i64,
    pub phase: Phase,
}

/// A write under way as a mathematical value.
pub struct TransactionView {
    pub id: Seq<char>,
    pub change: ChangeView,
    pub if_match: Option<Seq<char>>,
    pub now: i64,
    pub phase: PhaseView,
}

impl View for Transaction {
    type V = TransactionView;

    open spec fn view(&self) -> TransactionView {
        TransactionView {
            id: self.id@,
            change: self.change@,
            if_match: opt_string(self.if_match),
            now: self.now,
            phase: self.phase@,
        }
    }
}

/// What the database is asked to do next, or the answer to the write.
#[derive(Debug)]
pub enum Action {
    /// Begin a transaction.
    Begin,
    /// Select the version of the entity's row and lock it.
    SelectVersion,
    /// Select the document and the version of the entity's row and lock it.
    SelectDocument,
    /// Set the type and the document of the entity's row, count its version up, and set its time.
    Update { entity_type: String, doc: Value },
    /// Insert a row for the entity with the version 1.
    Insert { entity_type: String, doc: Value },
    /// Commit the transaction.
    Commit,
    /// Answer the write. A transaction that was not committed is rolled back.
    Finish(Result<StoredEntity, ApiError>),
}

/// An action as a mathematical value.
pub enum ActionView {
    Begin,
    SelectVersion,
    SelectDocument,
    Update { entity_type: Seq<char>, doc: Json },
    Insert { entity_type: Seq<char>, doc: Json },
    Commit,
    Finish(Result<StoredView, ErrorView>),
}

impl View for Action {
    type V = ActionView;

    open spec fn view(&self) -> ActionView {
        match self {
            Action::Begin => ActionView::Begin,
            Action::SelectVersion => ActionView::SelectVersion,
            Action::SelectDocument => ActionView::SelectDocument,
            Action::Update { entity_type, doc } => ActionView::Update {
                entity_type: entity_type@,
                doc: json_of(*doc),
            },
            Action::Insert { entity_type, doc } => ActionView::Insert {
                entity_type: entity_type@,
                doc: json_of(*doc),
            },
            Action::Commit => ActionView::Commit,
            Action::Finish(answer) => ActionView::Finish(write_result(*answer)),
        }
    }
}

/// What came of the last action.
#[derive(Debug)]
pub enum Event {
    /// The database reported an error.
    Failed,
    /// The transaction began.
    Began,
    /// The entity has no row.
    NoRow,
    /// The version of the entity's row. A column that could not be read is `None`.
    Version(Option<i64>),
    /// The document and the version of the entity's row. A column that could not be read is
    /// `None`.
    Document { doc: Option<Value>, version: Option<i64> },
    /// The row as it was written.
    Written(Row),
    /// The transaction was committed.
    Committed,
}

/// An event as a mathematical value.
pub enum EventView {
    Failed,
    Began,
    NoRow,
    Version(Option<i64>),
    Document { doc: Option<Json>, version: Option<i64> },
    Written(RowView),
    Committed,
}

impl View for Event {
    type V = EventView;

    open spec fn view(&self) -> EventView {
        match self {
            Event::Failed => EventView::Failed,
            Event::Began => EventView::Began,
            Event::NoRow => EventView::NoRow,
            Event::Version(version) => EventView::Version(*version),
            Event::Document { doc, version } => EventView::Document {
                doc: opt_json(*doc),
                version: *version,
            },
            Event::Written(row) => EventView::Written(row@),
            Event::Committed => EventView::Committed,
        }
    }
}

/// The write that makes `doc` the document of the entity.
pub open spec fn write_of(doc: DocView, exists_already: bool) -> ActionView {
    if exists_already {
        ActionView::Update { entity_type: doc.entity_type, doc: doc.to_json() }
    } else {
        ActionView::Insert { entity_type: doc.entity_type, doc: doc.to_json() }
    }
}

/// The answer `Err(e)`.
pub open spec fn refuse(e: ErrorView) -> ActionView {
    ActionView::Finish(Err(e))
}

impl TransactionView {
    /// A write that has just started.
    pub open spec fn begun(
        id: Seq<char>,
        change: ChangeView,
        if_match: Option<Seq<char>>,
        now: i64,
    ) -> TransactionView {
        TransactionView { id, change, if_match, now, phase: PhaseView::Beginning }
    }

    /// The document that is written over the one that was found, or the error that refuses it.
    pub open spec fn new_doc(self, found: Option<Json>) -> Result<DocView, ErrorView> {
        match self.change {
            ChangeView::Upsert(doc) => Ok(doc),
            ChangeView::Patch(patch) => match found {
                Some(base) => match DocView::with_id(self.id, merge_patch(base, patch)) {
                    Some(doc) => Ok(doc),
                    None => Err(ErrorView::InvalidJson),
                },
                None => Err(ErrorView::NotFound { entity_id: self.id }),
            },
        }
    }

    /// What follows once it is known which version the entity has, if any, and, for a patch, which
    /// document.
    pub open spec fn decide(self, version: Option<nat>, found: Option<Json>) -> ActionView {
        if self.change is Patch && version is None {
            refuse(ErrorView::NotFound { entity_id: self.id })
        } else if !may_write(version, self.if_match) {
            refuse(mismatch(self.id, version, self.if_match->0))
        } else {
            match self.new_doc(found) {
                Ok(doc) => write_of(doc, version is Some),
                Err(e) => refuse(e),
            }
        }
    }

    /// What follows the event `e`. An event that is no answer to the last action counts as a
    /// failure.
    pub open spec fn action_after(self, e: EventView) -> ActionView {
        match (self.phase, e) {
            (PhaseView::Beginning, EventView::Began) => match self.change {
                ChangeView::Upsert(_) => ActionView::SelectVersion,
                ChangeView::Patch(_) => ActionView::SelectDocument,
            },
            (PhaseView::Selecting, EventView::NoRow) => self.decide(None, None),
            (
                PhaseView::Selecting,
                EventView::Version(Some(version)),
            ) if self.change is Upsert => self.decide(Some((version as u64) as nat), None),
            (
                PhaseView::Selecting,
                EventView::Document { doc: Some(doc), version: Some(version) },
            ) if self.change is Patch => self.decide(Some((version as u64) as nat), Some(doc)),
            (PhaseView::Writing, EventView::Written(row)) => match (self.change, entity_in(row)) {
                (ChangeView::Upsert(_), Err(e)) => refuse(e),
                _ => ActionView::Commit,
            },
            (PhaseView::Committing(answer), EventView::Committed) => ActionView::Finish(answer),
            _ => refuse(ErrorView::Internal),
        }
    }

    /// The phase that waits for what comes of an action after the event `e`.
    pub open spec fn phase_after(self, e: EventView) -> PhaseView {
        match self.action_after(e) {
            ActionView::Begin => PhaseView::Beginning,
            ActionView::SelectVersion => PhaseView::Selecting,
            ActionView::SelectDocument => PhaseView::Selecting,
            ActionView::Update { .. } => PhaseView::Writing,
            ActionView::Insert { .. } => PhaseView::Writing,
            ActionView::Commit => PhaseView::Committing(entity_in(e->Written_0)),
            ActionView::Finish(_) => PhaseView::Finished,
        }
    }

    /// The transaction after the event `e`.
    pub open spec fn after(self, e: EventView) -> TransactionView {
        TransactionView { phase: self.phase_after(e), ..self }
    }
}

/// The precondition of a write, as the code holds it.
fn as_precondition(if_match: &Option<String>) -> (precondition: Option<&str>)
    ensures
        opt_text(precondition) == opt_string(*if_match),
{
    match if_match {
        Some(s) => Some(s.as_str()),
        None => None,
    }
}

impl Transaction {
    /// Starts the write of the whole document `doc` under `id` at the time `now`.
    pub fn upsert(id: &str, doc: EntityDoc, if_match: Option<&str>, now: i64) -> (begun: (
        Transaction,
        Action,
    ))
        ensures
            begun.0@ == TransactionView::begun(
                id@,
                ChangeView::Upsert(DocView { id: id@, ..doc@ }),
                opt_text(if_match),
                now,
            ),
            begun.1@ == ActionView::Begin,
    {
        Transaction::begin(id, Change::Upsert(doc.renamed(id)), if_match, now)
    }

    /// Starts the JSON Merge Patch of the entity `id` at the time `now`.
    pub fn patch(id: &str, patch_doc: Value, if_match: Option<&str>, now: i64) -> (begun: (
        Transaction,
        Action,
    ))
        ensures
            begun.0@ == TransactionView::begun(
                id@,
                ChangeView::Patch(json_of(patch_doc)),
                opt_text(if_match),
                now,
            ),
            begun.1@ == ActionView::Begin,
    {
        Transaction::begin(id, Change::Patch(patch_doc), if_match, now)
    }

    fn begin(id: &str, change: Change, if_match: Option<&str>, now: i64) -> (begun: (
        Transaction,
        Action,
    ))
        ensures
            begun.0@ == TransactionView::begun(id@, change@, opt_text(if_match), now),
            begun.1@ == ActionView::Begin,
    {
        let if_match = match if_match {
            Some(s) => Some(s.to_string()),
            None => None,
        };
        let transaction = Transaction {
            id: id.to_string(),
            change,
            if_match,
            now,
            phase: Phase::Beginning,
        };
        (transaction, Action::Begin)
    }

    /// What follows once it is known which version the entity has, if any, and, for a patch, which
    /// document.
    fn decide(&self, version: Option<u64>, found: Option<Value>) -> (action: Action)
        requires
            self.change is Patch ==> (version is Some <==> found is Some),
        ensures
            action@ == self@.decide(opt_version(version), opt_json(found)),
    {
        if let Change::Patch(_) = &self.change {
            if version.is_none() {
                return Action::Finish(Err(ApiError::NotFound { entity_id: self.id.clone() }));
            }
        }
        if let Err(e) = check_if_match(
            self.id.as_str(),
            version,
            as_precondition(&self.if_match),
        ) {
            return Action::Finish(Err(e));
        }
        let (entity_type, doc) = match &self.change {
            Change::Upsert(doc) => (doc.entity_type.clone(), doc.to_json()),
            Change::Patch(patch_doc) => match found {
                Some(base) => match EntityDoc::patched(self.id.as_str(), base, patch_doc) {
                    Ok(doc) => {
                        let value = doc.to_json();
                        (doc.entity_type, value)
                    },
                    Err(e) => return Action::Finish(Err(e)),
                },
                None => return Action::Finish(
                    Err(ApiError::NotFound { entity_id: self.id.clone() }),
                ),
            },
        };
        if version.is_some() {
            Action::Update { entity_type, doc }
        } else {
            Action::Insert { entity_type, doc }
        }
    }

    /// What follows what was found of the entity's row.
    fn after_select(&self, event: Event) -> (action: Action)
        requires
            self.phase is Selecting,
        ensures
            action@ == self@.action_after(event@),
    {
        match event {
            Event::NoRow => self.decide(None, None),
            Event::Version(Some(version)) => match &self.change {
                Change::Upsert(_) => self.decide(Some(version as u64), None),
                Change::Patch(_) => Action::Finish(Err(ApiError::Internal)),
            },
            Event::Document { doc: Some(doc), version: Some(version) } => match &self.change {
                Change::Patch(_) => self.decide(Some(version as u64), Some(doc)),
                Change::Upsert(_) => Action::Finish(Err(ApiError::Internal)),
            },
            _ => Action::Finish(Err(ApiError::Internal)),
        }
    }

    /// Takes what came of the last action, and says what to do next.
    pub fn step(self, event: Event) -> (next: (Transaction, Action))
        ensures
            next.0@ == self@.after(event@),
            next.1@ == self@.action_after(event@),
    {
        let internal = Action::Finish(Err(ApiError::Internal));
        match self.phase {
            Phase::Beginning => match event {
                Event::Began => {
                    let action = match &self.change {
                        Change::Upsert(_) => Action::SelectVersion,
                        Change::Patch(_) => Action::SelectDocument,
                    };
                    (Transaction { phase: Phase::Selecting, ..self }, action)
                },
                _ => (Transaction { phase: Phase::Finished, ..self }, internal),
            },
            Phase::Selecting => {
                let action = self.after_select(event);
                let phase = match &action {
                    Action::Finish(_) => Phase::Finished,
                    _ => Phase::Writing,
                };
                (Transaction { phase, ..self }, action)
            },
            Phase::Writing => match event {
                Event::Written(row) => match (entity_from_row(row), &self.change) {
                    (Err(e), Change::Upsert(_)) => (
                        Transaction { phase: Phase::Finished, ..self },
                        Action::Finish(Err(e)),
                    ),
                    (answer, _) => (
                        Transaction { phase: Phase::Committing(answer), ..self },
                        Action::Commit,
                    ),
                },
                _ => (Transaction { phase: Phase::Finished, ..self }, internal),
            },
            Phase::Committing(answer) => match event {
                Event::Committed => (
                    Transaction { phase: Phase::Finished, ..self },
                    Action::Finish(answer),
                ),
                _ => (Transaction { phase: Phase::Finished, ..self }, internal),
            },
            Phase::Finished => (Transaction { phase: Phase::Finished, ..self }, internal),
        }
    }
}

} // verus!
