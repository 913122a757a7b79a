//! A model of the database that the table store asks, and what holds of the two together. The model
//! keeps each document as it was written; see `Database::serve`.

use vstd::prelude::*;

use crate::entity::{DocView, StoredView};
use crate::error::ErrorView;
use crate::json::{merge_patch, Json};
use crate::laws::law_documents_survive_their_json_form;
use crate::laws::law_documents_that_are_read_are_well_formed;
use crate::postgres::{
    entity_in, refuse, ActionView, ChangeView, EventView, RowView, TransactionView,
};
use crate::storage::{
    may_write, patch_outcome, store_after, upsert_outcome, StoreView,
};

verus! {

/// A row of the table.
pub struct TableRow {
    pub entity_type: Seq<char>,
    pub doc: Json,
    pub version: i64,
    pub updated_at_ms: i64,
}

/// The rows of the table, by id.
pub type Table = Map<Seq<char>, TableRow>;

/// A database during a transaction: the table as others see it, and as the transaction sees it.
pub struct Database {
    pub committed: Table,
    pub working: Table,
}

/// What a statement that returns a row in full hands back.
pub open spec fn returned(row: TableRow) -> RowView {
    RowView {
        doc: Some(row.doc),
        version: Some(row.version),
        updated_at_ms: Some(row.updated_at_ms),
    }
}

impl Database {
    /// The database with `row` written under `id` in the transaction.
    pub open spec fn with_row(self, id: Seq<char>, row: TableRow) -> Database {
        Database { working: self.working.insert(id, row), ..self }
    }

    /// What a database that does not fail makes of an action on the entity `id` at the time `now`.
    /// A document is handed back as the tree that was written. That is an assumption about the
    /// document column: one of the type `JSONB` keeps a number by its value, so it can hand back
    /// another text for it (negative zero comes back as zero). Documents whose numbers it writes
    /// otherwise are outside this model.
    pub open spec fn serve(self, id: Seq<char>, now: i64, action: ActionView) -> (
        Database,
        EventView,
    ) {
        match action {
            ActionView::Begin => (
                Database { working: self.committed, ..self },
                EventView::Began,
            ),
            ActionView::SelectVersion => (
                self,
                if self.working.contains_key(id) {
                    EventView::Version(Some(self.working[id].version))
                } else {
                    EventView::NoRow
                },
            ),
            ActionView::SelectDocument => (
                self,
                if self.working.contains_key(id) {
                    EventView::Document {
                        doc: Some(self.working[id].doc),
                        version: Some(self.working[id].version),
                    }
                } else {
                    EventView::NoRow
                },
            ),
            ActionView::Update { entity_type, doc } => {
                let row = TableRow {
                    entity_type,
                    doc,
                    version: (self.working[id].version + 1) as i64,
                    updated_at_ms: now,
                };
                (self.with_row(id, row), EventView::Written(returned(row)))
            },
            ActionView::Insert { entity_type, doc } => {
                let row = TableRow { entity_type, doc, version: 1, updated_at_ms: now };
                (self.with_row(id, row), EventView::Written(returned(row)))
            },
            ActionView::Commit => (
                Database { committed: self.working, ..self },
                EventView::Committed,
            ),
            ActionView::Finish(_) => (self, EventView::Failed),
        }
    }
}

/// What a transaction that is about to perform `action` leaves in the database and answers, where
/// it ends within `steps` steps.
pub open spec fn run(db: Database, tx: TransactionView, action: ActionView, steps: nat) -> (
    Database,
    Option<Result<StoredView, ErrorView>>,
)
    decreases steps,
{
    match action {
        ActionView::Finish(answer) => (db, Some(answer)),
        _ => if steps == 0 {
            (db, None)
        } else {
            let (served, event) = db.serve(tx.id, tx.now, action);
            run(served, tx.after(event), tx.action_after(event), (steps - 1) as nat)
        },
    }
}

/// Whether the table holds the entities of `store`.
pub open spec fn holds(table: Table, store: StoreView) -> bool {
    &&& forall|id: Seq<char>| #[trigger] table.contains_key(id) <==> store.contains_key(id)
    &&& forall|id: Seq<char>| #[trigger]
        store.contains_key(id) ==> {
            &&& table[id].doc == store[id].doc.to_json()
            &&& table[id].entity_type == store[id].doc.entity_type
            &&& table[id].version == store[id].version
            &&& table[id].updated_at_ms == store[id].updated_at_ms
            &&& store[id].doc.well_formed()
        }
}

/// On a database that does not fail, a write of a whole document answers what the same write on a
/// store in memory answers, and leaves the same entities.
pub proof fn law_upsert_means_the_same_in_the_table(
    db: Database,
    store: StoreView,
    id: Seq<char>,
    doc: DocView,
    if_match: Option<Seq<char>>,
    now: i64,
)
    requires
        holds(db.committed, store),
        doc.well_formed(),
        store.contains_key(id) ==> store[id].version < i64::MAX,
    ensures
        ({
            let tx = TransactionView::begun(
                id,
                ChangeView::Upsert(DocView { id, ..doc }),
                if_match,
                now,
            );
            let outcome = upsert_outcome(store, id, doc, if_match, now as int);
            let (after, answer) = run(db, tx, ActionView::Begin, 4);
            &&& answer == Some(outcome)
            &&& holds(after.committed, store_after(store, id, outcome))
        }),
{
    reveal_with_fuel(run, 5);
    law_documents_survive_their_json_form(DocView { id, ..doc });
}

/// The document that a patch makes is well formed, and its JSON form can be read back.
proof fn lemma_patched_documents_are_read_back(base: Json, patch: Json, id: Seq<char>)
    ensures
        DocView::with_id(id, merge_patch(base, patch)) matches Some(doc) ==> doc.well_formed()
            && DocView::from_json(doc.to_json()) == Some(doc),
{
    let merged = merge_patch(base, patch);
    law_documents_that_are_read_are_well_formed(id, merged);
    if let Some(doc) = DocView::with_id(id, merged) {
        law_documents_survive_their_json_form(doc);
    }
}

/// On a database that does not fail, a JSON Merge Patch answers what the same patch on a store in
/// memory answers, and leaves the same entities.
pub proof fn law_patch_means_the_same_in_the_table(
    db: Database,
    store: StoreView,
    id: Seq<char>,
    patch: Json,
    if_match: Option<Seq<char>>,
    now: i64,
)
    requires
        holds(db.committed, store),
        store.contains_key(id) ==> store[id].version < i64::MAX,
    ensures
        ({
            let tx = TransactionView::begun(id, ChangeView::Patch(patch), if_match, now);
            let outcome = patch_outcome(store, id, patch, if_match, now as int);
            let (after, answer) = run(db, tx, ActionView::Begin, 4);
            &&& answer == Some(outcome)
            &&& holds(after.committed, store_after(store, id, outcome))
        }),
{
    reveal_with_fuel(run, 5);
    lemma_patched_documents_are_read_back(store[id].doc.to_json(), patch, id);
}

/// A row of a table that holds the entities of `store` is read as the entity of that id.
pub proof fn law_read_means_the_same_in_the_table(table: Table, store: StoreView, id: Seq<char>)
    requires
        holds(table, store),
        store.contains_key(id),
    ensures
        entity_in(returned(table[id])) == Ok::<StoredView, ErrorView>(store[id]),
{
    law_documents_survive_their_json_form(store[id].doc);
}

/// The version of the row that a lookup found, where it could be read.
pub open spec fn found_version(e: EventView) -> Option<nat> {
    match e {
        EventView::Version(Some(version)) => Some((version as u64) as nat),
        EventView::Document { version: Some(version), .. } => Some((version as u64) as nat),
        _ => None,
    }
}

/// Whatever the database answers, a row is written only where it was asked for right after the
/// lookup and the precondition holds of the version that was found, and the transaction is
/// committed only right after a row was written.
pub proof fn law_writes_and_commits_are_earned(tx: TransactionView, e: EventView)
    ensures
        tx.action_after(e) is Commit ==> tx.phase is Writing && e is Written,
        tx.action_after(e) is Insert ==> tx.phase is Selecting && e is NoRow && tx.if_match is None
            && tx.change is Upsert,
        tx.action_after(e) is Update ==> tx.phase is Selecting && found_version(e) is Some
            && may_write(found_version(e), tx.if_match),
{
}

/// A failure of the database ends the transaction with `Internal`, and so does everything after
/// the transaction has ended.
pub proof fn law_failures_are_internal(tx: TransactionView, e: EventView)
    ensures
        tx.action_after(EventView::Failed) == refuse(ErrorView::Internal),
        tx.phase is Finished ==> tx.action_after(e) == refuse(ErrorView::Internal),
        tx.after(EventView::Failed).phase is Finished,
{
}

/// Nothing but a commit changes the table that others see.
pub proof fn law_only_a_commit_is_seen(db: Database, id: Seq<char>, now: i64, action: ActionView)
    ensures
        action is Commit ==> db.serve(id, now, action).0.committed == db.working,
        !(action is Commit) ==> db.serve(id, now, action).0.committed == db.committed,
{
}

/// Where a row was written and what comes back of it cannot be read as an entity, a write of a whole
/// document ends with the error that the row gives, and is never committed. A JSON Merge Patch is
/// committed first, and then answers that error, or `Internal` where the commit fails.
pub proof fn law_unreadable_rows_undo_an_upsert_but_not_a_patch(tx: TransactionView, row: RowView)
    requires
        tx.phase is Writing,
        entity_in(row) is Err,
    ensures
        ({
            let e = entity_in(row)->Err_0;
            let next = tx.after(EventView::Written(row));
            &&& e is Internal || e is InvalidJson
            &&& tx.change is Upsert ==> {
                &&& tx.action_after(EventView::Written(row)) == refuse(e)
                &&& next.phase is Finished
            }
            &&& tx.change is Patch ==> {
                &&& tx.action_after(EventView::Written(row)) == ActionView::Commit
                &&& next.action_after(EventView::Committed) == refuse(e)
                &&& next.action_after(EventView::Failed) == refuse(ErrorView::Internal)
            }
        }),
{
}

/// What becomes of an action.
pub enum Service {
    /// It is performed, and what came of it is reported.
    Served,
    /// It fails and has no effect.
    Failed,
    /// It is performed, but the report is lost, which looks like a failure.
    ReportLost,
    /// It is performed, but what it hands back of the entity's row cannot be read. Of a row that was
    /// written, `row` is what comes back, where that is no entity.
    RowUnreadable { row: RowView },
}

/// The report of a row that cannot be read, in the place of `report`. Any other report stays.
pub open spec fn unreadable(report: EventView, row: RowView) -> EventView {
    match report {
        EventView::Version(_) => EventView::Version(None),
        EventView::Document { .. } => EventView::Document { doc: None, version: None },
        EventView::Written(_) if entity_in(row) is Err => EventView::Written(row),
        _ => report,
    }
}

/// What a transaction leaves in the database and answers, where `services` says what becomes of
/// each action in turn.
pub open spec fn run_with_faults(
    db: Database,
    tx: TransactionView,
    action: ActionView,
    services: Seq<Service>,
) -> (Database, Option<Result<StoredView, ErrorView>>)
    decreases services.len(),
{
    match action {
        ActionView::Finish(answer) => (db, Some(answer)),
        _ => if services.len() == 0 {
            (db, None)
        } else {
            let (performed, report) = db.serve(tx.id, tx.now, action);
            let (left, event) = match services.first() {
                Service::Served => (performed, report),
                Service::Failed => (db, EventView::Failed),
                Service::ReportLost => (performed, EventView::Failed),
                Service::RowUnreadable { row } => (performed, unreadable(report, row)),
            };
            run_with_faults(left, tx.after(event), tx.action_after(event), services.drop_first())
        },
    }
}

/// Whether no report is lost.
pub open spec fn all_reported(services: Seq<Service>) -> bool {
    forall|i: int| 0 <= i < services.len() ==> !(#[trigger] services[i] is ReportLost)
}

/// Whether each row that comes back can be read.
pub open spec fn all_readable(services: Seq<Service>) -> bool {
    forall|i: int| 0 <= i < services.len() ==> !(#[trigger] services[i] is RowUnreadable)
}

/// Whether a write that was due to have this `outcome` on the entities of `store` was made as a
/// whole or not at all, and was answered accordingly. An acceptance is the one that was due, and
/// the write was made. With an error the write was not made, except that an accepted one can have
/// been where the error may hide it (`hiding`). The error is the one that was due, or `Internal`,
/// or, where a row came back that cannot be read, `InvalidJson`. Without an answer nothing was made.
pub open spec fn all_or_nothing(
    before: Table,
    after: Table,
    store: StoreView,
    id: Seq<char>,
    outcome: Result<StoredView, ErrorView>,
    answer: Option<Result<StoredView, ErrorView>>,
    hiding: bool,
    readable: bool,
) -> bool {
    match answer {
        Some(Ok(_)) => answer == Some(outcome) && holds(after, store_after(store, id, outcome)),
        Some(Err(e)) => {
            &&& after == before || hiding && outcome is Ok && holds(
                after,
                store_after(store, id, outcome),
            )
            &&& answer == Some(outcome) || e is Internal || !readable && e is InvalidJson
        },
        None => after == before,
    }
}

/// Wherever the database fails, a write of a whole document is made as a whole, as on a store in
/// memory, or leaves the table as it was. An error hides a write that was made only where a report
/// was lost.
pub proof fn law_upsert_is_all_or_nothing(
    db: Database,
    store: StoreView,
    id: Seq<char>,
    doc: DocView,
    if_match: Option<Seq<char>>,
    now: i64,
    services: Seq<Service>,
)
    requires
        holds(db.committed, store),
        doc.well_formed(),
        store.contains_key(id) ==> store[id].version < i64::MAX,
    ensures
        ({
            let tx = TransactionView::begun(
                id,
                ChangeView::Upsert(DocView { id, ..doc }),
                if_match,
                now,
            );
            let outcome = upsert_outcome(store, id, doc, if_match, now as int);
            let (after, answer) = run_with_faults(db, tx, ActionView::Begin, services);
            all_or_nothing(
                db.committed,
                after.committed,
                store,
                id,
                outcome,
                answer,
                !all_reported(services),
                all_readable(services),
            )
        }),
{
    reveal_with_fuel(run_with_faults, 6);
    law_documents_survive_their_json_form(DocView { id, ..doc });
}

/// Wherever the database fails, a JSON Merge Patch is made as a whole, as on a store in memory, or
/// leaves the table as it was. An error hides a patch that was made only where a report was lost or
/// a row came back that cannot be read.
pub proof fn law_patch_is_all_or_nothing(
    db: Database,
    store: StoreView,
    id: Seq<char>,
    patch: Json,
    if_match: Option<Seq<char>>,
    now: i64,
    services: Seq<Service>,
)
    requires
        holds(db.committed, store),
        store.contains_key(id) ==> store[id].version < i64::MAX,
    ensures
        ({
            let tx = TransactionView::begun(id, ChangeView::Patch(patch), if_match, now);
            let outcome = patch_outcome(store, id, patch, if_match, now as int);
            let (after, answer) = run_with_faults(db, tx, ActionView::Begin, services);
            all_or_nothing(
                db.committed,
                after.committed,
                store,
                id,
                outcome,
                answer,
                !all_reported(services) || !all_readable(services),
                all_readable(services),
            )
        }),
{
    reveal_with_fuel(run_with_faults, 6);
    lemma_patched_documents_are_read_back(store[id].doc.to_json(), patch, id);
}

} // verus!
