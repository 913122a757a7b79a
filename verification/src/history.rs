//! What holds over any sequence of writes.

use vstd::prelude::*;

use crate::entity::{DocView, StoredView};
use crate::error::ErrorView;
use crate::etag::etag;
use crate::etag::law_etag_names_one_version;
use crate::json::Json;
use crate::storage::{
    consistent, identified, may_write, patch_outcome, store_after, upsert_outcome, version_number, version_of,
    StoreView,
};

verus! {

/// A write that a client asks for: a whole document, or a JSON Merge Patch.
pub enum Write {
    Upsert { id: Seq<char>, doc: DocView, if_match: Option<Seq<char>>, now: int },
    Patch { id: Seq<char>, patch: Json, if_match: Option<Seq<char>>, now: int },
}

impl Write {
    /// The id of the entity that it writes.
    pub open spec fn id(self) -> Seq<char> {
        match self {
            Write::Upsert { id, .. } => id,
            Write::Patch { id, .. } => id,
        }
    }

    /// The precondition that it states.
    pub open spec fn if_match(self) -> Option<Seq<char>> {
        match self {
            Write::Upsert { if_match, .. } => if_match,
            Write::Patch { if_match, .. } => if_match,
        }
    }

    /// What it answers.
    pub open spec fn outcome(self, store: StoreView) -> Result<StoredView, ErrorView> {
        match self {
            Write::Upsert { id, doc, if_match, now } => upsert_outcome(
                store,
                id,
                doc,
                if_match,
                now,
            ),
            Write::Patch { id, patch, if_match, now } => patch_outcome(
                store,
                id,
                patch,
                if_match,
                now,
            ),
        }
    }

    /// The store after it.
    pub open spec fn applied(self, store: StoreView) -> StoreView {
        store_after(store, self.id(), self.outcome(store))
    }

    /// Whether a whole document that it brings is well formed.
    pub open spec fn well_formed(self) -> bool {
        self matches Write::Upsert { doc, .. } ==> doc.well_formed()
    }
}

/// The store after these writes, one after the other.
pub open spec fn store_after_all(store: StoreView, writes: Seq<Write>) -> StoreView
    decreases writes.len(),
{
    if writes.len() == 0 {
        store
    } else {
        writes.last().applied(store_after_all(store, writes.drop_last()))
    }
}

/// How many of these writes, made one after the other, are writes of the entity `id` that are
/// accepted.
pub open spec fn accepted(store: StoreView, writes: Seq<Write>, id: Seq<char>) -> nat
    decreases writes.len(),
{
    if writes.len() == 0 {
        0
    } else {
        let before = store_after_all(store, writes.drop_last());
        let last = writes.last();
        accepted(store, writes.drop_last(), id) + if last.id() == id && last.outcome(before) is Ok {
            1nat
        } else {
            0nat
        }
    }
}

/// The version of an entity is the number of accepted writes of it, on top of the version that it
/// had. An entity is there exactly where it was before or a write of it was accepted.
pub proof fn law_the_version_counts_the_accepted_writes(
    store: StoreView,
    writes: Seq<Write>,
    id: Seq<char>,
)
    ensures
        ({
            let later = store_after_all(store, writes);
            let count = accepted(store, writes, id);
            &&& version_number(version_of(later, id)) == version_number(version_of(store, id))
                + count
            &&& later.contains_key(id) <==> store.contains_key(id) || count > 0
        }),
    decreases writes.len(),
{
    if writes.len() > 0 {
        law_the_version_counts_the_accepted_writes(store, writes.drop_last(), id);
    }
}

/// No write takes an entity away or lets its version fall.
pub proof fn law_nothing_goes_away(store: StoreView, writes: Seq<Write>, id: Seq<char>)
    requires
        store.contains_key(id),
    ensures
        store_after_all(store, writes).contains_key(id),
        store_after_all(store, writes)[id].version >= store[id].version,
{
    law_the_version_counts_the_accepted_writes(store, writes, id);
}

/// A precondition that let one write through holds never again, whatever is written after it. So of
/// two clients that write with the same tag, the second is refused and overwrites nothing.
pub proof fn law_a_used_precondition_is_refused_ever_after(
    store: StoreView,
    first: Write,
    writes: Seq<Write>,
    second: Write,
)
    requires
        first.if_match() is Some,
        first.outcome(store) is Ok,
        second.id() == first.id(),
        second.if_match() == first.if_match(),
    ensures
        ({
            let later = store_after_all(first.applied(store), writes);
            &&& !may_write(version_of(later, first.id()), first.if_match())
            &&& second.outcome(later) == Err::<StoredView, ErrorView>(
                ErrorView::EtagMismatch {
                    entity_id: first.id(),
                    current: etag(later[first.id()].version),
                    provided: first.if_match()->0,
                },
            )
            &&& second.applied(later) == later
        }),
{
    let id = first.id();
    let after = first.applied(store);
    let later = store_after_all(after, writes);
    law_nothing_goes_away(after, writes, id);
    law_etag_names_one_version(store[id].version, later[id].version);
}

/// Whatever is written, each entity stands under its own id and was written at least once: in a
/// store that started empty, and in one where it was so before.
pub proof fn law_any_writes_keep_the_ids(store: StoreView, writes: Seq<Write>)
    ensures
        identified(store_after_all(Map::empty(), writes)),
        identified(store) ==> identified(store_after_all(store, writes)),
    decreases writes.len(),
{
    if writes.len() > 0 {
        law_any_writes_keep_the_ids(store, writes.drop_last());
    }
}

/// Writes keep the store consistent, as long as the whole documents among them are well formed.
pub proof fn law_any_writes_keep_the_store_consistent(store: StoreView, writes: Seq<Write>)
    requires
        consistent(store),
        forall|i: int| 0 <= i < writes.len() ==> (#[trigger] writes[i]).well_formed(),
    ensures
        consistent(store_after_all(store, writes)),
    decreases writes.len(),
{
    if writes.len() > 0 {
        law_any_writes_keep_the_store_consistent(store, writes.drop_last());
        assert(writes.last().well_formed());
    }
}

} // verus!
