//! What reads and writes mean on a store of entities, whatever holds it.

use vstd::prelude::*;

use crate::entity::StoredEntity;
use crate::entity::{DocView, StoredView};
use crate::error::ApiError;
use crate::error::ErrorView;
use crate::etag::{etag, etag_for};
use crate::json::{merge_patch, Json};
use crate::text::opt_text;

verus! {

/// The entities of a store, by id.
pub type StoreView = Map<Seq<char>, StoredView>;

/// The version of the entity `id`, where there is one.
pub open spec fn version_of(store: StoreView, id: Seq<char>) -> Option<nat> {
    if store.contains_key(id) {
        Some(store[id].version)
    } else {
        None
    }
}

/// A version as a number, where 0 stands for none.
pub open spec fn version_number(version: Option<nat>) -> nat {
    match version {
        Some(v) => v,
        None => 0,
    }
}

/// Whether a write to an entity of this version may go on: it states no precondition, or the
/// entity exists and the precondition is the tag of its version.
pub open spec fn may_write(version: Option<nat>, if_match: Option<Seq<char>>) -> bool {
    match if_match {
        Some(provided) => version matches Some(v) && provided == etag(v),
        None => true,
    }
}

/// The error for the precondition `provided` on an entity of this version, where it does not
/// hold.
pub open spec fn mismatch(id: Seq<char>, version: Option<nat>, provided: Seq<char>) -> ErrorView {
    ErrorView::EtagMismatch { entity_id: id, current: etag(version_number(version)), provided }
}

/// What a read of the entity `id` answers.
pub open spec fn read_outcome(store: StoreView, id: Seq<char>) -> Result<
    Option<StoredView>,
    ErrorView,
> {
    if store.contains_key(id) {
        Ok(Some(store[id]))
    } else {
        Ok(None)
    }
}

/// What a write of the whole document `doc` under `id` answers. The id of the document is the one
/// that it is written under.
pub open spec fn upsert_outcome(
    store: StoreView,
    id: Seq<char>,
    doc: DocView,
    if_match: Option<Seq<char>>,
    now: int,
) -> Result<StoredView, ErrorView> {
    let version = version_of(store, id);
    if may_write(version, if_match) {
        Ok(
            StoredView {
                doc: DocView { id, ..doc },
                version: version_number(version) + 1,
                updated_at_ms: now,
            },
        )
    } else {
        Err(mismatch(id, version, if_match->0))
    }
}

/// What a JSON Merge Patch of the entity `id` answers.
pub open spec fn patch_outcome(
    store: StoreView,
    id: Seq<char>,
    patch: Json,
    if_match: Option<Seq<char>>,
    now: int,
) -> Result<StoredView, ErrorView> {
    if !store.contains_key(id) {
        Err(ErrorView::NotFound { entity_id: id })
    } else if !may_write(version_of(store, id), if_match) {
        Err(mismatch(id, version_of(store, id), if_match->0))
    } else {
        match DocView::with_id(id, merge_patch(store[id].doc.to_json(), patch)) {
            Some(doc) => Ok(
                StoredView { doc, version: store[id].version + 1, updated_at_ms: now },
            ),
            None => Err(ErrorView::InvalidJson),
        }
    }
}

/// The store after a write under `id` with this outcome: a refused write changes nothing.
pub open spec fn store_after(
    store: StoreView,
    id: Seq<char>,
    outcome: Result<StoredView, ErrorView>,
) -> StoreView {
    match outcome {
        Ok(stored) => store.insert(id, stored),
        Err(_) => store,
    }
}

/// Whether the new version of a write with this outcome fits the 64 bits of a version.
pub open spec fn version_fits(outcome: Result<StoredView, ErrorView>) -> bool {
    outcome matches Ok(stored) ==> stored.version <= u64::MAX
}

/// The time of a write, where the clock gives one. A write without a time is not made, so the 0
/// stands in no store.
pub open spec fn time_or_zero(reading: Option<i64>) -> int {
    match reading {
        Some(now) => now as int,
        None => 0,
    }
}

/// Whether a write with this outcome can be answered, given what the clock reads: a refusal always,
/// and an accepted write where there is a time for it and its version fits.
pub open spec fn can_be_made(
    outcome: Result<StoredView, ErrorView>,
    reading: Option<i64>,
) -> bool {
    outcome is Ok ==> reading is Some && version_fits(outcome)
}

/// Whether each entity stands under its own id and was written at least once.
pub open spec fn identified(store: StoreView) -> bool {
    forall|id: Seq<char>| #[trigger]
        store.contains_key(id) ==> store[id].doc.id == id && store[id].version >= 1
}

/// Whether each entity stands under its own id, was written at least once, and has a well-formed
/// document.
pub open spec fn consistent(store: StoreView) -> bool {
    &&& identified(store)
    &&& forall|id: Seq<char>| #[trigger]
        store.contains_key(id) ==> store[id].doc.well_formed()
}

/// The answer to a write.
pub open spec fn write_result(r: Result<StoredEntity, ApiError>) -> Result<StoredView, ErrorView> {
    match r {
        Ok(stored) => Ok(stored@),
        Err(e) => Err(e@),
    }
}

/// The answer to a read.
pub open spec fn read_result(r: Result<Option<StoredEntity>, ApiError>) -> Result<
    Option<StoredView>,
    ErrorView,
> {
    match r {
        Ok(Some(stored)) => Ok(Some(stored@)),
        Ok(None) => Ok(None),
        Err(e) => Err(e@),
    }
}

/// The version of an entity, as the code holds it.
pub open spec fn opt_version(version: Option<u64>) -> Option<nat> {
    match version {
        Some(v) => Some(v as nat),
        None => None,
    }
}

/// Checks the precondition of a write to the entity `id`, which has this version.
pub fn check_if_match(id: &str, version: Option<u64>, if_match: Option<&str>) -> (checked: Result<
    (),
    ApiError,
>)
    ensures
        match checked {
            Ok(_) => may_write(opt_version(version), opt_text(if_match)),
            Err(e) => !may_write(opt_version(version), opt_text(if_match)) && e@ == mismatch(
                id@,
                opt_version(version),
                if_match->0@,
            ),
        },
{
    let provided = match if_match {
        Some(provided) => provided,
        None => return Ok(()),
    };
    let current = match version {
        Some(v) => {
            let current = etag_for(v);
            if *provided == *current.as_str() {
                return Ok(());
            }
            current
        },
        None => etag_for(0),
    };
    Err(
        ApiError::EtagMismatch {
            entity_id: id.to_string(),
            current,
            provided: provided.to_string(),
        },
    )
}

} // verus!
