//! What the store in a table makes of what comes back from the database, told by the columns of the
//! row.

use vstd::prelude::*;

use crate::database::{holds, returned, Table};
use crate::entity::{DocView, StoredView};
use crate::error::ErrorView;
use crate::etag::etag;
use crate::json::{merge_patch, Json};
use crate::laws::law_a_payload_is_read_back_as_it_was_put;
use crate::laws::law_documents_survive_their_json_form;
use crate::outcomes::law_a_document_keeps_every_member;
use crate::outcomes::{has_text, is_document_in};
use crate::postgres::{
    entity_in, lookup_outcome, refuse, ActionView, ChangeView, EventView, Lookup, PhaseView, Row,
    RowView, TransactionView,
};
use crate::storage::{read_outcome, StoreView};

verus! {

/// The version that a column holds, which counts the 64 bits without a sign.
pub open spec fn unsigned(version: i64) -> int {
    if version >= 0 {
        version as int
    } else {
        version + 0x1_0000_0000_0000_0000
    }
}

proof fn lemma_unsigned(version: i64)
    ensures
        version as u64 == unsigned(version),
{
    assert(version >= 0i64 ==> version as u64 == version) by (bit_vector);
    assert(version < 0i64 ==> version as u64 == version + 0x1_0000_0000_0000_0000) by (bit_vector);
}

/// A row is read column by column: the whole document, the version and the time. It is `Internal`
/// exactly where a column could not be read, and `InvalidJson` exactly where all could and the
/// document lacks an `id` or a `type` that is a text.
pub proof fn law_a_row_is_read_column_by_column(row: RowView)
    ensures
        match entity_in(row) {
            Ok(stored) => {
                &&& row.doc matches Some(doc) && has_text(doc, "id"@, stored.doc.id)
                    && is_document_in(stored.doc, stored.doc.id, doc)
                &&& row.version matches Some(version) && stored.version == unsigned(version)
                &&& row.updated_at_ms matches Some(ms) && stored.updated_at_ms == ms
            },
            Err(e) => if row.doc is None || row.version is None || row.updated_at_ms is None {
                e is Internal
            } else {
                &&& e is InvalidJson
                &&& !((exists|t: Seq<char>| has_text(row.doc->0, "type"@, t)) && exists|
                    i: Seq<char>,
                | has_text(row.doc->0, "id"@, i))
            },
        },
        row.doc is None || row.version is None || row.updated_at_ms is None ==> entity_in(
            row,
        ) is Err,
{
    if row.version is Some {
        lemma_unsigned(row.version->0);
    }
    if row.doc is Some {
        law_a_document_keeps_every_member(seq![], row.doc->0);
    }
}

/// A read answers the entity of the row that was found, whole, or the error that the row gives. It
/// answers that there is none exactly where there is no row, and `Internal` where the lookup failed.
pub proof fn law_a_lookup_answers_the_row(row: Row)
    ensures
        lookup_outcome(Lookup::Failed) == Err::<Option<StoredView>, ErrorView>(ErrorView::Internal),
        lookup_outcome(Lookup::NoRow) == Ok::<Option<StoredView>, ErrorView>(None),
        match entity_in(row@) {
            Ok(stored) => lookup_outcome(Lookup::Found(row)) == Ok::<Option<StoredView>, ErrorView>(
                Some(stored),
            ),
            Err(e) => lookup_outcome(Lookup::Found(row)) == Err::<Option<StoredView>, ErrorView>(e),
        },
{
}

/// On a table that holds the entities of a store, a read whose lookup did not fail answers what the
/// same read on the store answers.
pub proof fn law_a_lookup_answers_like_the_store(
    table: Table,
    store: StoreView,
    id: Seq<char>,
    row: Row,
)
    requires
        holds(table, store),
        table.contains_key(id) ==> row@ == returned(table[id]),
    ensures
        read_outcome(store, id) == lookup_outcome(
            if table.contains_key(id) {
                Lookup::Found(row)
            } else {
                Lookup::NoRow
            },
        ),
{
    if table.contains_key(id) {
        assert(store.contains_key(id));
        law_documents_survive_their_json_form(store[id].doc);
        lemma_unsigned(table[id].version);
    }
}

/// A write that has just started knows all that it was asked, and no step forgets any of it.
pub proof fn law_a_write_remembers_what_it_was_asked(
    id: Seq<char>,
    change: ChangeView,
    if_match: Option<Seq<char>>,
    now: i64,
    tx: TransactionView,
    e: EventView,
)
    ensures
        ({
            let begun = TransactionView::begun(id, change, if_match, now);
            &&& begun.id == id && begun.change == change && begun.if_match == if_match && begun.now
                == now
            &&& begun.phase is Beginning
        }),
        ({
            let next = tx.after(e);
            &&& next.id == tx.id && next.change == tx.change && next.if_match == tx.if_match
                && next.now == tx.now
            &&& next.phase is Finished <==> tx.action_after(e) is Finish
            &&& next.phase is Selecting <==> tx.action_after(e) is SelectVersion || tx.action_after(
                e,
            ) is SelectDocument
            &&& next.phase is Writing <==> tx.action_after(e) is Update || tx.action_after(
                e,
            ) is Insert
            &&& next.phase is Committing <==> tx.action_after(e) is Commit
        }),
{
}

/// A write of a whole document goes on from the lookup exactly where its precondition is the tag of
/// the version that was found, or it states none. It then writes the type and the whole document:
/// over the row that is there, or as a new row where there is none.
pub proof fn law_what_follows_the_lookup_of_a_version(
    tx: TransactionView,
    doc: DocView,
    version: i64,
)
    requires
        tx.phase is Selecting,
        tx.change == ChangeView::Upsert(doc),
    ensures
        ({
            let current = etag(unsigned(version) as nat);
            tx.action_after(EventView::Version(Some(version))) == if tx.if_match is None
                || tx.if_match->0 == current {
                ActionView::Update { entity_type: doc.entity_type, doc: doc.to_json() }
            } else {
                ActionView::Finish(
                    Err(
                        ErrorView::EtagMismatch {
                            entity_id: tx.id,
                            current,
                            provided: tx.if_match->0,
                        },
                    ),
                )
            }
        }),
        tx.action_after(EventView::NoRow) == (if tx.if_match is None {
            ActionView::Insert { entity_type: doc.entity_type, doc: doc.to_json() }
        } else {
            ActionView::Finish(
                Err(
                    ErrorView::EtagMismatch {
                        entity_id: tx.id,
                        current: "v0"@,
                        provided: tx.if_match->0,
                    },
                ),
            )
        }),
{
    lemma_unsigned(version);
    reveal_strlit("v0");
    assert(etag(0) =~= "v0"@);
}

/// A JSON Merge Patch goes on from the lookup exactly where a row was found, its precondition is the
/// tag of the version there, or it states none, and the patched document has a `type` that is a
/// text. It then writes that type and the patched document to the last member, under the id of the
/// path.
pub proof fn law_what_follows_the_lookup_of_a_document(
    tx: TransactionView,
    patch: Json,
    found: Json,
    version: i64,
)
    requires
        tx.phase is Selecting,
        tx.change == ChangeView::Patch(patch),
    ensures
        ({
            let current = etag(unsigned(version) as nat);
            let merged = merge_patch(found, patch);
            let action = tx.action_after(
                EventView::Document { doc: Some(found), version: Some(version) },
            );
            if tx.if_match is Some && tx.if_match->0 != current {
                action == ActionView::Finish(
                    Err(
                        ErrorView::EtagMismatch {
                            entity_id: tx.id,
                            current,
                            provided: tx.if_match->0,
                        },
                    ),
                )
            } else if exists|t: Seq<char>| has_text(merged, "type"@, t) {
                action matches ActionView::Update { entity_type, doc } && has_text(
                    merged,
                    "type"@,
                    entity_type,
                ) && doc == Json::Object(merged->Object_0.insert("id"@, Json::Text(tx.id)))
            } else {
                action == ActionView::Finish(Err(ErrorView::InvalidJson))
            }
        }),
        tx.action_after(EventView::NoRow) == ActionView::Finish(
            Err(ErrorView::NotFound { entity_id: tx.id }),
        ),
{
    lemma_unsigned(version);
    law_a_document_keeps_every_member(tx.id, merge_patch(found, patch));
    law_a_payload_is_read_back_as_it_was_put(tx.id, merge_patch(found, patch));
}

/// The other steps: a transaction that began looks the row up, a row that was written and can be read
/// is committed, and what was read from it is the answer once it is.
pub proof fn law_what_the_other_steps_are(tx: TransactionView, row: RowView)
    ensures
        tx.phase is Beginning ==> tx.action_after(EventView::Began) == (if tx.change is Upsert {
            ActionView::SelectVersion
        } else {
            ActionView::SelectDocument
        }),
        tx.phase is Writing && entity_in(row) is Ok ==> {
            let next = tx.after(EventView::Written(row));
            &&& tx.action_after(EventView::Written(row)) is Commit
            &&& next.action_after(EventView::Committed) == ActionView::Finish(entity_in(row))
        },
        tx.phase matches PhaseView::Committing(answer) ==> tx.action_after(EventView::Committed)
            == ActionView::Finish(answer),
{
}

/// A column that could not be read, and an event that answers another action than the last, end the
/// transaction with `Internal`.
pub proof fn law_what_cannot_be_read_is_internal(
    tx: TransactionView,
    e: EventView,
    doc: Option<Json>,
    version: Option<i64>,
)
    ensures
        tx.phase is Selecting ==> tx.action_after(EventView::Version(None)) == refuse(
            ErrorView::Internal,
        ),
        tx.phase is Selecting && (doc is None || version is None) ==> tx.action_after(
            EventView::Document { doc, version },
        ) == refuse(ErrorView::Internal),
        tx.phase is Beginning && !(e is Began) ==> tx.action_after(e) == refuse(
            ErrorView::Internal,
        ),
        tx.phase is Selecting && !(e is NoRow || e is Version || e is Document) ==> tx.action_after(
            e,
        ) == refuse(ErrorView::Internal),
        tx.phase is Writing && !(e is Written) ==> tx.action_after(e) == refuse(
            ErrorView::Internal,
        ),
        tx.phase is Committing && !(e is Committed) ==> tx.action_after(e) == refuse(
            ErrorView::Internal,
        ),
        tx.phase is Finished ==> tx.action_after(e) == refuse(ErrorView::Internal),
        refuse(ErrorView::Internal) == ActionView::Finish(Err(ErrorView::Internal)),
{
}

} // verus!
