//! What holds of the service as a whole: laws that relate its reads, writes and answers.

use vstd::prelude::*;

use crate::api::refusal;
use crate::entity::{DocView, StoredView};
use crate::error::ErrorView;
use crate::etag::law_etag_names_one_version;
use crate::etag::{decimal, etag};
use crate::headers::{field_text, if_match, is_header_text};
use crate::json::{members_or_none, merge_patch, no_members, Json};
use crate::reply::{error_reply, has_legal_headers, read_reply, write_reply, BodyView};
use crate::storage::{
    consistent, may_write, patch_outcome, read_outcome, store_after, upsert_outcome,
    version_number, version_of, StoreView,
};
use crate::text::{is_white_space, trim_by, trim_end_by, trim_start_by};

verus! {

/// A read after a write answers what the write answered, where it was accepted, and what it
/// answered before, where it was refused. Reads of other entities are not affected.
pub proof fn law_read_after_write(
    store: StoreView,
    id: Seq<char>,
    other: Seq<char>,
    outcome: Result<StoredView, ErrorView>,
)
    ensures
        outcome matches Ok(stored) ==> read_outcome(store_after(store, id, outcome), id) == Ok::<
            Option<StoredView>,
            ErrorView,
        >(Some(stored)),
        outcome is Err ==> store_after(store, id, outcome) == store,
        other != id ==> read_outcome(store_after(store, id, outcome), other) == read_outcome(
            store,
            other,
        ),
{
}

/// An accepted write counts the version up by one, and the first one makes the version 1.
pub proof fn law_accepted_writes_count_the_version(
    store: StoreView,
    id: Seq<char>,
    doc: DocView,
    patch: Json,
    if_match: Option<Seq<char>>,
    now: int,
)
    ensures
        upsert_outcome(store, id, doc, if_match, now) matches Ok(stored) ==> stored.version
            == version_number(version_of(store, id)) + 1 && stored.updated_at_ms == now,
        patch_outcome(store, id, patch, if_match, now) matches Ok(stored) ==> store.contains_key(id)
            && stored.version == store[id].version + 1 && stored.updated_at_ms == now,
{
}

/// The document of an accepted write has the id that it was written under.
pub proof fn law_documents_have_the_id_of_their_path(
    store: StoreView,
    id: Seq<char>,
    doc: DocView,
    patch: Json,
    if_match: Option<Seq<char>>,
    now: int,
)
    ensures
        upsert_outcome(store, id, doc, if_match, now) matches Ok(stored) ==> stored.doc.id == id,
        patch_outcome(store, id, patch, if_match, now) matches Ok(stored) ==> stored.doc.id == id,
{
}

/// Writes of well-formed documents and patches keep the store consistent.
pub proof fn law_writes_keep_the_store_consistent(
    store: StoreView,
    id: Seq<char>,
    doc: DocView,
    patch: Json,
    if_match: Option<Seq<char>>,
    now: int,
)
    requires
        consistent(store),
        doc.well_formed(),
    ensures
        consistent(store_after(store, id, upsert_outcome(store, id, doc, if_match, now))),
        consistent(store_after(store, id, patch_outcome(store, id, patch, if_match, now))),
{
}

/// Once a write was accepted, a precondition holds exactly where it is the tag of the version that
/// the write made. So the tag that it answered is taken, and the tag from before it is refused.
pub proof fn law_stale_tags_are_refused(
    store: StoreView,
    id: Seq<char>,
    doc: DocView,
    patch: Json,
    if_match: Option<Seq<char>>,
    now: int,
    seen: nat,
)
    ensures
        ({
            let outcome = upsert_outcome(store, id, doc, if_match, now);
            let after = version_of(store_after(store, id, outcome), id);
            outcome matches Ok(stored) ==> (may_write(after, Some(etag(seen))) <==> seen
                == stored.version) && !may_write(
                after,
                Some(etag(version_number(version_of(store, id)))),
            )
        }),
        ({
            let outcome = patch_outcome(store, id, patch, if_match, now);
            let after = version_of(store_after(store, id, outcome), id);
            outcome matches Ok(stored) ==> (may_write(after, Some(etag(seen))) <==> seen
                == stored.version) && !may_write(after, Some(etag(store[id].version)))
        }),
{
    let before = version_number(version_of(store, id));
    law_etag_names_one_version(seen, before + 1);
    law_etag_names_one_version(before, before + 1);
}

/// A write with a precondition never creates an entity: the answer is a mismatch against the tag
/// `v0`, or, for a patch, that the entity is not there.
pub proof fn law_preconditions_never_create(
    store: StoreView,
    id: Seq<char>,
    doc: DocView,
    patch: Json,
    provided: Seq<char>,
    now: int,
)
    requires
        !store.contains_key(id),
    ensures
        upsert_outcome(store, id, doc, Some(provided), now) == Err::<StoredView, ErrorView>(
            ErrorView::EtagMismatch { entity_id: id, current: "v0"@, provided },
        ),
        forall|if_match: Option<Seq<char>>| #[trigger]
            patch_outcome(store, id, patch, if_match, now) == Err::<StoredView, ErrorView>(
                ErrorView::NotFound { entity_id: id },
            ),
{
    reveal_strlit("v0");
    assert(etag(0) =~= "v0"@);
}

/// The JSON form of a document can be read back, with or without the id in it.
pub proof fn law_documents_survive_their_json_form(doc: DocView)
    requires
        doc.well_formed(),
    ensures
        DocView::from_json(doc.to_json()) == Some(doc),
        DocView::with_id(doc.id, doc.to_json()) == Some(doc),
{
    lemma_id_is_not_type();
    let members = doc.to_json()->Object_0;
    assert(members.remove("id"@).remove("type"@) =~= doc.extra);
}

proof fn lemma_id_is_not_type()
    ensures
        "id"@ != "type"@,
{
    reveal_strlit("id");
    reveal_strlit("type");
    assert("id"@.len() == 2 && "type"@.len() == 4);
}

/// A document that is read from a request has its id and its type in their own fields only.
pub proof fn law_documents_that_are_read_are_well_formed(id: Seq<char>, value: Json)
    ensures
        DocView::with_id(id, value) matches Some(doc) ==> doc.well_formed() && doc.id == id,
        DocView::from_json(value) matches Some(doc) ==> doc.well_formed(),
{
}

/// A payload is taken exactly where it is an object whose `type` is a text. What is then read back
/// is the payload, with the id of the path in the place of any `id` that it had.
pub proof fn law_a_payload_is_read_back_as_it_was_put(id: Seq<char>, payload: Json)
    ensures
        DocView::with_id(id, payload) is Some <==> payload is Object
            && payload->Object_0.contains_key("type"@) && payload->Object_0["type"@] is Text,
        DocView::with_id(id, payload) matches Some(doc) ==> doc.to_json() == Json::Object(
            payload->Object_0.insert("id"@, Json::Text(id)),
        ),
{
    lemma_id_is_not_type();
    if let Some(doc) = DocView::with_id(id, payload) {
        assert(doc.to_json()->Object_0 =~= payload->Object_0.insert("id"@, Json::Text(id)));
    }
}

/// A GET after an accepted PUT answers the payload, with the id of the path in the place of any
/// `id` that it had, under the tag that the PUT answered.
pub proof fn law_get_after_put(
    store: StoreView,
    id: Seq<char>,
    payload: Json,
    if_match: Option<Seq<char>>,
    now: int,
    put_trace_id: Seq<char>,
    get_trace_id: Seq<char>,
)
    requires
        DocView::with_id(id, payload) is Some,
        may_write(version_of(store, id), if_match),
    ensures
        ({
            let doc = DocView::with_id(id, payload)->0;
            let outcome = upsert_outcome(store, id, doc, if_match, now);
            let after = store_after(store, id, outcome);
            let put = write_reply(outcome, put_trace_id);
            let get = read_reply(id, read_outcome(after, id), get_trace_id);
            &&& put.status == 200
            &&& get.status == 200
            &&& get.etag == put.etag
            &&& put.etag == Some(etag(version_number(version_of(store, id)) + 1))
            &&& get.body == BodyView::Entity(
                Json::Object(payload->Object_0.insert("id"@, Json::Text(id))),
            )
        }),
{
    law_a_payload_is_read_back_as_it_was_put(id, payload);
    let doc = DocView::with_id(id, payload)->0;
    assert(DocView { id, ..doc } == doc);
}

/// A JSON Merge Patch acts on the members that it names and on no others.
pub proof fn law_a_patch_touches_only_what_it_names(
    base: Map<Seq<char>, Json>,
    patch: Map<Seq<char>, Json>,
    name: Seq<char>,
)
    ensures
        ({
            let merged = merge_patch(Json::Object(base), Json::Object(patch));
            let members = merged->Object_0;
            &&& merged is Object
            &&& !patch.contains_key(name) ==> (members.contains_key(name) <==> base.contains_key(
                name,
            )) && (base.contains_key(name) ==> members[name] == base[name])
            &&& patch.contains_key(name) && patch[name] is Null ==> !members.contains_key(name)
            &&& patch.contains_key(name) && !(patch[name] is Null) ==> members.contains_key(name)
                && members[name] == merge_patch(
                if base.contains_key(name) {
                    base[name]
                } else {
                    Json::Null
                },
                patch[name],
            )
            &&& patch.contains_key(name) && !(patch[name] is Null) && !(patch[name] is Object)
                ==> members[name] == patch[name]
        }),
{
}

/// To apply a JSON Merge Patch once more changes nothing.
pub proof fn law_a_patch_can_be_repeated(target: Json, patch: Json)
    ensures
        merge_patch(merge_patch(target, patch), patch) == merge_patch(target, patch),
    decreases patch,
{
    if let Json::Object(p) = patch {
        let base = members_or_none(target);
        let once = merge_patch(target, patch)->Object_0;
        let twice = merge_patch(merge_patch(target, patch), patch)->Object_0;
        assert forall|k: Seq<char>| once.contains_key(k) implies #[trigger] twice[k]
            == once[k] by {
            if p.contains_key(k) {
                law_a_patch_can_be_repeated(
                    if base.contains_key(k) {
                        base[k]
                    } else {
                        Json::Null
                    },
                    p[k],
                );
            }
        }
        assert(twice =~= once);
    }
}

/// A patch of an entity whose precondition holds is accepted exactly where it is an object that
/// leaves the type alone or sets it to a text. What it stores then is the old document with the
/// patch applied, but for the id.
pub proof fn law_which_patches_are_accepted(
    store: StoreView,
    id: Seq<char>,
    patch: Json,
    if_match: Option<Seq<char>>,
    now: int,
)
    requires
        consistent(store),
        store.contains_key(id),
        may_write(version_of(store, id), if_match),
    ensures
        ({
            let outcome = patch_outcome(store, id, patch, if_match, now);
            &&& outcome is Ok <==> patch is Object && (patch->Object_0.contains_key("type"@)
                ==> patch->Object_0["type"@] is Text)
            &&& outcome is Err ==> outcome == Err::<StoredView, ErrorView>(ErrorView::InvalidJson)
            &&& outcome matches Ok(stored) ==> stored.doc.to_json() == Json::Object(
                merge_patch(store[id].doc.to_json(), patch)->Object_0.insert("id"@, Json::Text(id)),
            )
        }),
{
    lemma_id_is_not_type();
    let merged = merge_patch(store[id].doc.to_json(), patch);
    law_a_payload_is_read_back_as_it_was_put(id, merged);
    if let Json::Object(p) = patch {
        let base = store[id].doc.to_json()->Object_0;
        law_a_patch_touches_only_what_it_names(base, p, "type"@);
        if p.contains_key("type"@) && p["type"@] is Object {
            assert(merge_patch(base["type"@], p["type"@]) is Object);
        }
    }
}

/// A GET after an accepted PATCH answers the old document with the patch applied, but for the id,
/// under the tag that the PATCH answered.
pub proof fn law_get_after_patch(
    store: StoreView,
    id: Seq<char>,
    patch: Json,
    if_match: Option<Seq<char>>,
    now: int,
    patch_trace_id: Seq<char>,
    get_trace_id: Seq<char>,
)
    requires
        consistent(store),
        patch_outcome(store, id, patch, if_match, now) is Ok,
    ensures
        ({
            let outcome = patch_outcome(store, id, patch, if_match, now);
            let after = store_after(store, id, outcome);
            let patched = write_reply(outcome, patch_trace_id);
            let get = read_reply(id, read_outcome(after, id), get_trace_id);
            &&& patched.status == 200
            &&& get.status == 200
            &&& get.etag == patched.etag
            &&& patched.etag == Some(etag(store[id].version + 1))
            &&& get.body == BodyView::Entity(
                Json::Object(
                    merge_patch(store[id].doc.to_json(), patch)->Object_0.insert(
                        "id"@,
                        Json::Text(id),
                    ),
                ),
            )
        }),
{
    law_which_patches_are_accepted(store, id, patch, if_match, now);
}

/// A write whose precondition does not hold is answered with the status 412, and with the tag that
/// a GET answers for the entity.
pub proof fn law_a_mismatch_tells_the_current_tag(
    store: StoreView,
    id: Seq<char>,
    doc: DocView,
    patch: Json,
    provided: Seq<char>,
    now: int,
    trace_id: Seq<char>,
)
    requires
        store.contains_key(id),
        provided != etag(store[id].version),
    ensures
        ({
            let put = upsert_outcome(store, id, doc, Some(provided), now);
            let patched = patch_outcome(store, id, patch, Some(provided), now);
            let get = read_reply(id, read_outcome(store, id), trace_id);
            let details = put->Err_0.details();
            &&& put is Err
            &&& patched == put
            &&& write_reply(put, trace_id).status == 412
            &&& get.etag is Some
            &&& details["currentEtag"@] == Json::Text(get.etag->0)
            &&& details["providedIfMatch"@] == Json::Text(provided)
            &&& details["entityId"@] == Json::Text(id)
        }),
{
    reveal_strlit("currentEtag");
    reveal_strlit("providedIfMatch");
    reveal_strlit("entityId");
    assert("currentEtag"@.len() == 11 && "providedIfMatch"@.len() == 15 && "entityId"@.len() == 8);
}

/// The empty patch keeps the document and still counts as a write.
pub proof fn law_the_empty_patch_only_counts_the_version(
    store: StoreView,
    id: Seq<char>,
    if_match: Option<Seq<char>>,
    now: int,
)
    requires
        consistent(store),
        store.contains_key(id),
        may_write(version_of(store, id), if_match),
    ensures
        patch_outcome(store, id, Json::Object(no_members()), if_match, now) == Ok::<
            StoredView,
            ErrorView,
        >(
            StoredView {
                doc: store[id].doc,
                version: store[id].version + 1,
                updated_at_ms: now,
            },
        ),
{
    let doc = store[id].doc;
    law_documents_survive_their_json_form(doc);
    assert(merge_patch(doc.to_json(), Json::Object(no_members()))->Object_0
        =~= doc.to_json()->Object_0);
}

/// Where a key is set, a request is let through exactly where it offers that key. Where none is
/// set, every request is let through or none is. The status of a refusal is 403 where another key
/// is offered, and 401 otherwise.
pub proof fn law_only_the_key_opens(
    api_key: Option<Seq<char>>,
    allow_insecure_dev: bool,
    offered: Option<Seq<char>>,
)
    ensures
        api_key matches Some(key) ==> (refusal(api_key, allow_insecure_dev, offered) is None
            <==> offered == Some(key)),
        api_key is None ==> (refusal(api_key, allow_insecure_dev, offered) is None
            <==> allow_insecure_dev),
        refusal(api_key, allow_insecure_dev, offered) matches Some(e) ==> e.status() == (
        if api_key is Some && offered is Some {
            403u16
        } else {
            401u16
        }),
{
}

proof fn lemma_decimal_chars(n: nat)
    ensures
        decimal(n).len() > 0,
        forall|i: int| 0 <= i < decimal(n).len() ==> '0' <= #[trigger] decimal(n)[i] <= '9',
    decreases n,
{
    if n >= 10 {
        lemma_decimal_chars(n / 10);
    }
}

/// The header fields of each answer can be sent: of an error whatever the trace id is, and of any
/// other answer where the trace id can be.
pub proof fn law_answers_have_legal_headers(
    id: Seq<char>,
    e: ErrorView,
    found: Result<Option<StoredView>, ErrorView>,
    written: Result<StoredView, ErrorView>,
    trace_id: Seq<char>,
)
    ensures
        has_legal_headers(error_reply(e, trace_id)),
        is_header_text(trace_id) ==> has_legal_headers(read_reply(id, found, trace_id)),
        is_header_text(trace_id) ==> has_legal_headers(write_reply(written, trace_id)),
{
    reveal_strlit("invalid-trace-id");
    assert(is_header_text("invalid-trace-id"@));
    assert forall|n: nat| is_header_text(#[trigger] etag(n)) by {
        lemma_decimal_chars(n);
    }
}

proof fn lemma_trim_keeps(s: Seq<char>, drop: spec_fn(char) -> bool)
    requires
        s.len() > 0,
        !drop(s.first()),
        !drop(s.last()),
    ensures
        trim_by(s, drop) == s,
{
}

/// A tag that the service answered is understood when it comes back in an `if-match` field, as it
/// is or in double quotes.
pub proof fn law_a_tag_can_be_sent_back(fields: Map<Seq<char>, Seq<u8>>, version: nat)
    requires
        field_text(fields, "if-match"@) == Some(etag(version)) || field_text(fields, "if-match"@)
            == Some(seq!['"'] + etag(version) + seq!['"']),
    ensures
        if_match(fields) == Some(etag(version)),
{
    let tag = etag(version);
    let quoted = seq!['"'] + tag + seq!['"'];
    let space = |c: char| is_white_space(c);
    let quote = |c: char| c == '"';
    lemma_decimal_chars(version);
    assert(tag.first() == 'v');
    assert(tag.last() == decimal(version).last());
    lemma_trim_keeps(tag, space);
    lemma_trim_keeps(tag, quote);
    lemma_trim_keeps(quoted, space);
    assert(quoted.drop_first() =~= tag + seq!['"']);
    assert((tag + seq!['"']).drop_last() =~= tag);
    assert((tag + seq!['"']).first() == 'v');
    reveal_with_fuel(trim_start_by, 2);
    reveal_with_fuel(trim_end_by, 2);
    assert(trim_start_by(quoted, quote) == tag + seq!['"']);
    assert(trim_end_by(tag + seq!['"'], quote) == tag);
}

} // verus!
