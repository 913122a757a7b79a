//! A store that holds its entities in memory.

use serde_json::Value;
use vstd::hash_map::StringHashMap;
use vstd::prelude::*;

use crate::clock::now_ms;
use crate::entity::StoredView;
use crate::entity::{EntityDoc, StoredEntity};
use crate::error::ApiError;
use crate::error::ErrorView;
use crate::json::json_of;
use crate::storage::check_if_match;
use crate::storage::{
    can_be_made, consistent, may_write, mismatch, patch_outcome, read_outcome, read_result,
    store_after, time_or_zero, upsert_outcome, version_fits, version_number, version_of,
    write_result, StoreView,
};
use crate::text::opt_text;

verus! {

/// A store in memory. A caller that shares it between threads puts it behind a lock.
pub struct InMemoryStorage {
    map: StringHashMap<StoredEntity>,
}

impl View for InMemoryStorage {
    type V = StoreView;

    closed spec fn view(&self) -> StoreView {
        self.map@.map_values(|stored: StoredEntity| stored@)
    }
}

/// The time of a write that follows `version`, given what the clock reads: that reading, or `None`
/// where there is no version after it.
fn time_of_next(version: u64, reading: Option<i64>) -> (now: Option<i64>)
    ensures
        now == (if version < u64::MAX {
            reading
        } else {
            None
        }),
{
    if version < u64::MAX {
        reading
    } else {
        None
    }
}

impl Default for InMemoryStorage {
    /// A store without entities.
    fn default() -> (store: InMemoryStorage)
        ensures
            store@ == Map::<Seq<char>, StoredView>::empty(),
            store.well_formed(),
    {
        InMemoryStorage::new()
    }
}

impl InMemoryStorage {
    /// Whether each entity stands under its own id, was written at least once, and has a
    /// well-formed document.
    pub open spec fn well_formed(&self) -> bool {
        consistent(self@)
    }

    /// A store without entities.
    pub fn new() -> (store: InMemoryStorage)
        ensures
            store@ == Map::<Seq<char>, StoredView>::empty(),
            store.well_formed(),
    {
        let store = InMemoryStorage { map: StringHashMap::new() };
        proof {
            assert(store@ =~= Map::<Seq<char>, StoredView>::empty());
        }
        store
    }

    /// The entity `id`, where there is one.
    fn find(&self, id: &str) -> (found: Option<&StoredEntity>)
        ensures
            match found {
                Some(stored) => self@.contains_key(id@) && stored@ == self@[id@],
                None => !self@.contains_key(id@),
            },
    {
        self.map.get(id)
    }

    /// Reads the entity `id`.
    pub fn get(&self, id: &str) -> (found: Result<Option<StoredEntity>, ApiError>)
        ensures
            read_result(found) == read_outcome(self@, id@),
    {
        match self.find(id) {
            Some(stored) => Ok(Some(stored.clone())),
            None => Ok(None),
        }
    }

    /// Puts `doc` under `id` as the version after `version`, and hands back what was stored.
    fn store_next(&mut self, id: &str, doc: EntityDoc, version: u64, now: i64) -> (stored:
        StoredEntity)
        requires
            version < u64::MAX,
        ensures
            stored@ == (StoredView {
                doc: doc@,
                version: version as nat + 1,
                updated_at_ms: now as int,
            }),
            final(self)@ == old(self)@.insert(id@, stored@),
    {
        let stored = StoredEntity { doc, version: version + 1, updated_at_ms: now };
        self.map.insert(id.to_string(), stored.clone());
        proof {
            assert(self@ =~= old(self)@.insert(id@, stored@));
        }
        stored
    }

    /// The version that a write to `id` starts from, where 0 stands for no entity, or the error
    /// that its precondition does not hold.
    fn check_upsert(&self, id: &str, if_match: Option<&str>) -> (version: Result<u64, ApiError>)
        ensures
            match version {
                Ok(v) => may_write(version_of(self@, id@), opt_text(if_match)) && v
                    == version_number(version_of(self@, id@)),
                Err(e) => !may_write(version_of(self@, id@), opt_text(if_match)) && e@ == mismatch(
                    id@,
                    version_of(self@, id@),
                    if_match->0@,
                ),
            },
    {
        let version = match self.find(id) {
            Some(existing) => Some(existing.version),
            None => None,
        };
        match check_if_match(id, version, if_match) {
            Ok(_) => Ok(version.unwrap_or(0)),
            Err(e) => Err(e),
        }
    }

    /// The document that a patch of the entity `id` makes and the version that it starts from, or
    /// the error that the patch is refused with.
    fn check_patch(&self, id: &str, patch_doc: &Value, if_match: Option<&str>) -> (planned: Result<
        (EntityDoc, u64),
        ApiError,
    >)
        ensures
            forall|now: int|
                match planned {
                    Ok((doc, version)) => (
                    #[trigger] patch_outcome(
                        self@,
                        id@,
                        json_of(*patch_doc),
                        opt_text(if_match),
                        now,
                    )) == Ok::<StoredView, ErrorView>(
                        StoredView {
                            doc: doc@,
                            version: version as nat + 1,
                            updated_at_ms: now,
                        },
                    ),
                    Err(e) => patch_outcome(
                        self@,
                        id@,
                        json_of(*patch_doc),
                        opt_text(if_match),
                        now,
                    ) == Err::<StoredView, ErrorView>(e@),
                },
    {
        let existing = match self.find(id) {
            Some(existing) => existing,
            None => return Err(ApiError::NotFound { entity_id: id.to_string() }),
        };
        if let Err(e) = check_if_match(id, Some(existing.version), if_match) {
            return Err(e);
        }
        match EntityDoc::patched(id, existing.doc.to_json(), patch_doc) {
            Ok(doc) => Ok((doc, existing.version)),
            Err(e) => Err(e),
        }
    }

    /// Writes the whole document `doc` under `id` at the time `now`.
    pub fn upsert_at(
        &mut self,
        id: &str,
        doc: EntityDoc,
        if_match: Option<&str>,
        now: i64,
    ) -> (written: Result<StoredEntity, ApiError>)
        requires
            version_fits(upsert_outcome(old(self)@, id@, doc@, opt_text(if_match), now as int)),
        ensures
            write_result(written) == upsert_outcome(
                old(self)@,
                id@,
                doc@,
                opt_text(if_match),
                now as int,
            ),
            final(self)@ == store_after(old(self)@, id@, write_result(written)),
            old(self).well_formed() && doc@.well_formed() ==> final(self).well_formed(),
    {
        match self.check_upsert(id, if_match) {
            Ok(version) => Ok(self.store_next(id, doc.renamed(id), version, now)),
            Err(e) => Err(e),
        }
    }

    /// Applies a JSON Merge Patch to the entity `id` at the time `now`.
    pub fn patch_at(
        &mut self,
        id: &str,
        patch_doc: &Value,
        if_match: Option<&str>,
        now: i64,
    ) -> (written: Result<StoredEntity, ApiError>)
        requires
            version_fits(
                patch_outcome(
                    old(self)@,
                    id@,
                    json_of(*patch_doc),
                    opt_text(if_match),
                    now as int,
                ),
            ),
        ensures
            write_result(written) == patch_outcome(
                old(self)@,
                id@,
                json_of(*patch_doc),
                opt_text(if_match),
                now as int,
            ),
            final(self)@ == store_after(old(self)@, id@, write_result(written)),
            old(self).well_formed() ==> final(self).well_formed(),
    {
        match self.check_patch(id, patch_doc, if_match) {
            Ok((doc, version)) => Ok(self.store_next(id, doc, version, now)),
            Err(e) => Err(e),
        }
    }

    /// Writes the whole document `doc` under `id`, given what the clock
    /// reads. `None` says that the write was due but cannot be made, because the clock gives no time
    /// or the entity's version is the last that there is; the store is then unchanged.
    pub fn upsert_given(
        &mut self,
        id: &str,
        doc: EntityDoc,
        if_match: Option<&str>,
        reading: Option<i64>,
    ) -> (written: Option<Result<StoredEntity, ApiError>>)
        ensures
            ({
                let outcome = upsert_outcome(
                    old(self)@,
                    id@,
                    doc@,
                    opt_text(if_match),
                    time_or_zero(reading),
                );
                &&& written is None <==> !can_be_made(outcome, reading)
                &&& match written {
                    Some(w) => write_result(w) == outcome && final(self)@ == store_after(
                        old(self)@,
                        id@,
                        outcome,
                    ),
                    None => final(self)@ == old(self)@,
                }
            }),
            old(self).well_formed() && doc@.well_formed() ==> final(self).well_formed(),
    {
        match self.check_upsert(id, if_match) {
            Ok(version) => match time_of_next(version, reading) {
                Some(now) => Some(Ok(self.store_next(id, doc.renamed(id), version, now))),
                None => None,
            },
            Err(e) => Some(Err(e)),
        }
    }

    /// Writes the whole document `doc` under `id` at the current time, as `upsert_given` does for what
    /// the machine's clock reads.
    pub fn upsert(&mut self, id: &str, doc: EntityDoc, if_match: Option<&str>) -> (written: Option<
        Result<StoredEntity, ApiError>,
    >)
        ensures
            exists|reading: Option<i64>|
                ({
                    let outcome = upsert_outcome(
                        old(self)@,
                        id@,
                        doc@,
                        opt_text(if_match),
                        #[trigger] time_or_zero(reading),
                    );
                    &&& written is None <==> !can_be_made(outcome, reading)
                    &&& match written {
                        Some(w) => write_result(w) == outcome && final(self)@ == store_after(
                            old(self)@,
                            id@,
                            outcome,
                        ),
                        None => final(self)@ == old(self)@,
                    }
                }),
            old(self).well_formed() && doc@.well_formed() ==> final(self).well_formed(),
    {
        self.upsert_given(id, doc, if_match, now_ms())
    }

    /// Applies a JSON Merge Patch to the entity `id`, given what the clock
    /// reads. `None` says that the write was due but cannot be made, because the clock gives no time
    /// or the entity's version is the last that there is; the store is then unchanged.
    pub fn patch_given(
        &mut self,
        id: &str,
        patch_doc: &Value,
        if_match: Option<&str>,
        reading: Option<i64>,
    ) -> (written: Option<Result<StoredEntity, ApiError>>)
        ensures
            ({
                let outcome = patch_outcome(
                    old(self)@,
                    id@,
                    json_of(*patch_doc),
                    opt_text(if_match),
                    time_or_zero(reading),
                );
                &&& written is None <==> !can_be_made(outcome, reading)
                &&& match written {
                    Some(w) => write_result(w) == outcome && final(self)@ == store_after(
                        old(self)@,
                        id@,
                        outcome,
                    ),
                    None => final(self)@ == old(self)@,
                }
            }),
            old(self).well_formed() ==> final(self).well_formed(),
    {
        match self.check_patch(id, patch_doc, if_match) {
            Ok((doc, version)) => match time_of_next(version, reading) {
                Some(now) => Some(Ok(self.store_next(id, doc, version, now))),
                None => None,
            },
            Err(e) => Some(Err(e)),
        }
    }

    /// Applies a JSON Merge Patch to the entity `id` at the current time, as `patch_given` does for what
    /// the machine's clock reads.
    pub fn patch(&mut self, id: &str, patch_doc: &Value, if_match: Option<&str>) -> (written: Option<
        Result<StoredEntity, ApiError>,
    >)
        ensures
            exists|reading: Option<i64>|
                ({
                    let outcome = patch_outcome(
                        old(self)@,
                        id@,
                        json_of(*patch_doc),
                        opt_text(if_match),
                        #[trigger] time_or_zero(reading),
                    );
                    &&& written is None <==> !can_be_made(outcome, reading)
                    &&& match written {
                        Some(w) => write_result(w) == outcome && final(self)@ == store_after(
                            old(self)@,
                            id@,
                            outcome,
                        ),
                        None => final(self)@ == old(self)@,
                    }
                }),
            old(self).well_formed() ==> final(self).well_formed(),
    {
        self.patch_given(id, patch_doc, if_match, now_ms())
    }
}

} // verus!
