//! What documents, writes and answers are, told by the members, versions and texts in them.

use vstd::prelude::*;

use crate::entity::{or_invalid_json, DocView, StoredView};
use crate::error::ErrorView;
use crate::etag::etag;
use crate::headers::is_header_text;
use crate::json::{merge_patch, text_member, Json};
use crate::reply::{error_reply, read_reply, trace_field, write_reply, BodyView, ReplyView};
use crate::storage::{
    can_be_made, may_write, mismatch, patch_outcome, read_outcome, store_after, time_or_zero,
    upsert_outcome, version_fits, version_number, version_of, StoreView,
};

verus! {

/// Whether `value` is an object with a member `name` that is the text `text`.
pub open spec fn has_text(value: Json, name: Seq<char>, text: Seq<char>) -> bool {
    value matches Json::Object(members) && members.contains_key(name) && members[name]
        == Json::Text(text)
}

/// Whether `doc` is the document `id` with what `value` holds: its type is the `type` there, and it
/// has each other member but the id, with the same value.
pub open spec fn is_document_in(doc: DocView, id: Seq<char>, value: Json) -> bool {
    &&& doc.id == id
    &&& has_text(value, "type"@, doc.entity_type)
    &&& forall|name: Seq<char>| #[trigger]
        doc.extra.contains_key(name) <==> value->Object_0.contains_key(name) && name != "id"@ && name
            != "type"@
    &&& forall|name: Seq<char>| #[trigger]
        doc.extra.contains_key(name) ==> doc.extra[name] == value->Object_0[name]
}

/// The text of a member is there exactly where the member is that text.
pub proof fn law_a_text_member_is_the_text(
    members: Map<Seq<char>, Json>,
    name: Seq<char>,
    text: Seq<char>,
)
    ensures
        text_member(members, name) == Some(text) <==> members.contains_key(name) && members[name]
            == Json::Text(text),
        text_member(members, name) is None <==> !(members.contains_key(name)
            && members[name] is Text),
{
}

/// A JSON value is taken for a document exactly where its `type` is a text, and for one that brings
/// its own id exactly where its `id` is a text too. Every member of it is kept.
pub proof fn law_a_document_keeps_every_member(id: Seq<char>, value: Json)
    ensures
        DocView::with_id(id, value) is Some <==> exists|t: Seq<char>| has_text(value, "type"@, t),
        DocView::with_id(id, value) matches Some(doc) ==> is_document_in(doc, id, value),
        DocView::from_json(value) is Some <==> (exists|t: Seq<char>| has_text(value, "type"@, t))
            && exists|i: Seq<char>| has_text(value, "id"@, i),
        DocView::from_json(value) matches Some(doc) ==> has_text(value, "id"@, doc.id)
            && is_document_in(doc, doc.id, value),
        or_invalid_json(DocView::with_id(id, value)) == match DocView::with_id(id, value) {
            Some(doc) => Ok::<DocView, ErrorView>(doc),
            None => Err(ErrorView::InvalidJson),
        },
{
    if let Json::Object(members) = value {
        if members.contains_key("type"@) && members["type"@] is Text {
            assert(has_text(value, "type"@, members["type"@]->Text_0));
        }
        if members.contains_key("id"@) && members["id"@] is Text {
            assert(has_text(value, "id"@, members["id"@]->Text_0));
        }
    }
}

/// The JSON form of a document holds its id, its type and its other members, and nothing else.
/// Where one of the others is named like the id or the type, it stands in its place.
pub proof fn law_the_json_form_holds_every_member(doc: DocView, name: Seq<char>)
    ensures
        ({
            let members = doc.to_json()->Object_0;
            &&& doc.to_json() is Object
            &&& doc.extra.contains_key(name) ==> members.contains_key(name) && members[name]
                == doc.extra[name]
            &&& !doc.extra.contains_key("id"@) ==> has_text(doc.to_json(), "id"@, doc.id)
            &&& !doc.extra.contains_key("type"@) ==> has_text(
                doc.to_json(),
                "type"@,
                doc.entity_type,
            )
            &&& members.contains_key(name) ==> doc.extra.contains_key(name) || name == "id"@ || name
                == "type"@
        }),
{
    reveal_strlit("id");
    reveal_strlit("type");
    assert("id"@.len() == 2 && "type"@.len() == 4);
}

/// A precondition holds of an entity exactly where it is the tag of the entity's version to the
/// letter, and never of an entity that is not there. A mismatch tells the id, the tag of the version
/// (that of 0 for an entity that is not there), and the precondition.
pub proof fn law_preconditions_are_compared_to_the_letter(
    store: StoreView,
    id: Seq<char>,
    if_match: Option<Seq<char>>,
    provided: Seq<char>,
)
    ensures
        may_write(version_of(store, id), if_match) <==> (match if_match {
            Some(tag) => store.contains_key(id) && tag == etag(store[id].version),
            None => true,
        }),
        version_number(version_of(store, id)) == (if store.contains_key(id) {
            store[id].version
        } else {
            0
        }),
        mismatch(id, version_of(store, id), provided) == (ErrorView::EtagMismatch {
            entity_id: id,
            current: if store.contains_key(id) {
                etag(store[id].version)
            } else {
                "v0"@
            },
            provided,
        }),
{
    reveal_strlit("v0");
    assert(etag(0) =~= "v0"@);
}

/// A write of a whole document is accepted exactly where its precondition holds. What it stores is
/// the document to the last member, under the id of the path, with the next version and the time of
/// the write.
pub proof fn law_what_a_whole_document_stores(
    store: StoreView,
    id: Seq<char>,
    doc: DocView,
    if_match: Option<Seq<char>>,
    now: int,
)
    ensures
        ({
            let held = store.contains_key(id);
            match upsert_outcome(store, id, doc, if_match, now) {
                Ok(stored) => {
                    &&& if_match matches Some(tag) ==> held && tag == etag(store[id].version)
                    &&& stored.doc.id == id
                    &&& stored.doc.entity_type == doc.entity_type
                    &&& stored.doc.extra == doc.extra
                    &&& stored.version == (if held {
                        store[id].version + 1
                    } else {
                        1
                    })
                    &&& stored.updated_at_ms == now
                },
                Err(e) => {
                    &&& if_match is Some
                    &&& held ==> if_match->0 != etag(store[id].version)
                    &&& e == ErrorView::EtagMismatch {
                        entity_id: id,
                        current: if held {
                            etag(store[id].version)
                        } else {
                            "v0"@
                        },
                        provided: if_match->0,
                    }
                },
            }
        }),
{
    reveal_strlit("v0");
    assert(etag(0) =~= "v0"@);
}

/// A JSON Merge Patch is accepted exactly where the entity is there, the precondition holds, and
/// what the patch makes of the document has a `type` that is a text. What it stores is that, to the
/// last member, under the id of the path, with the next version and the time of the write. The first
/// of the three that fails tells the error.
pub proof fn law_what_a_patch_stores(
    store: StoreView,
    id: Seq<char>,
    patch: Json,
    if_match: Option<Seq<char>>,
    now: int,
)
    ensures
        ({
            let merged = merge_patch(store[id].doc.to_json(), patch);
            match patch_outcome(store, id, patch, if_match, now) {
                Ok(stored) => {
                    &&& store.contains_key(id)
                    &&& if_match matches Some(tag) ==> tag == etag(store[id].version)
                    &&& is_document_in(stored.doc, id, merged)
                    &&& stored.version == store[id].version + 1
                    &&& stored.updated_at_ms == now
                },
                Err(e) => if !store.contains_key(id) {
                    e == ErrorView::NotFound { entity_id: id }
                } else if if_match is Some && if_match->0 != etag(store[id].version) {
                    e == ErrorView::EtagMismatch {
                        entity_id: id,
                        current: etag(store[id].version),
                        provided: if_match->0,
                    }
                } else {
                    &&& e == ErrorView::InvalidJson
                    &&& !exists|t: Seq<char>| has_text(merged, "type"@, t)
                },
            }
        }),
{
    law_a_document_keeps_every_member(id, merge_patch(store[id].doc.to_json(), patch));
}

/// A patch that is no object replaces what it is applied to. One that is an object makes an object,
/// and what is no object counts as one without members.
pub proof fn law_what_a_patch_makes_of_other_values(target: Json, patch: Json)
    ensures
        !(patch is Object) ==> merge_patch(target, patch) == patch,
        patch is Object ==> merge_patch(target, patch) is Object,
        patch is Object && !(target is Object) ==> merge_patch(target, patch) == merge_patch(
            Json::Object(Map::empty()),
            patch,
        ),
{
}

/// A read answers what the store holds under the id, whole. An accepted write replaces that and
/// nothing else, and a refused one replaces nothing.
pub proof fn law_a_read_answers_what_is_held(
    store: StoreView,
    id: Seq<char>,
    other: Seq<char>,
    outcome: Result<StoredView, ErrorView>,
)
    ensures
        read_outcome(store, other) == Ok::<Option<StoredView>, ErrorView>(
            if store.contains_key(other) {
                Some(store[other])
            } else {
                None
            },
        ),
        ({
            let after = store_after(store, id, outcome);
            match outcome {
                Ok(stored) => {
                    &&& after.contains_key(id) && after[id] == stored
                    &&& other != id ==> (after.contains_key(other) <==> store.contains_key(other))
                        && (store.contains_key(other) ==> after[other] == store[other])
                },
                Err(_) => after == store,
            }
        }),
{
}

/// A refusal needs no time. An accepted write is made wherever the clock gives a time and the new
/// version fits 64 bits, and the time that it is made at is the one that the clock gives.
pub proof fn law_accepted_writes_are_made(
    outcome: Result<StoredView, ErrorView>,
    reading: Option<i64>,
)
    ensures
        version_fits(outcome) <==> (match outcome {
            Ok(stored) => stored.version <= 0xffff_ffff_ffff_ffff,
            Err(_) => true,
        }),
        can_be_made(outcome, reading) <==> (match (outcome, reading) {
            (Ok(stored), Some(_)) => stored.version <= 0xffff_ffff_ffff_ffff,
            (Ok(_), None) => false,
            (Err(_), _) => true,
        }),
        reading matches Some(now) ==> time_or_zero(reading) == now,
{
}

/// Every write that meets its precondition is made at the time that the clock gives, up to the last
/// version that there is: the version goes up by one each time.
pub proof fn law_no_version_but_the_last_stops_a_write(
    store: StoreView,
    id: Seq<char>,
    doc: DocView,
    patch: Json,
    if_match: Option<Seq<char>>,
    now: i64,
)
    requires
        store.contains_key(id) ==> store[id].version < 0xffff_ffff_ffff_ffff,
        if_match matches Some(tag) ==> store.contains_key(id) && tag == etag(store[id].version),
    ensures
        ({
            let held: nat = if store.contains_key(id) {
                store[id].version
            } else {
                0
            };
            let put = upsert_outcome(store, id, doc, if_match, time_or_zero(Some(now)));
            let patched = patch_outcome(store, id, patch, if_match, time_or_zero(Some(now)));
            &&& can_be_made(put, Some(now))
            &&& can_be_made(patched, Some(now))
            &&& put is Ok && put->Ok_0.version == held + 1 && put->Ok_0.updated_at_ms == now
            &&& patched is Ok ==> patched->Ok_0.version == held + 1 && patched->Ok_0.updated_at_ms
                == now
        }),
{
}

/// Each error has its status, its code, its sentence and its short description, whatever it is
/// about.
pub proof fn law_each_error_has_its_texts(e: ErrorView)
    ensures
        e is Unauthorized ==> e.status() == 401 && e.code() == "UNAUTHORIZED"@ && e.message()
            == "Missing API key"@ && e.description() == "unauthorized"@,
        e is Forbidden ==> e.status() == 403 && e.code() == "FORBIDDEN"@ && e.message()
            == "Invalid API key"@ && e.description() == "forbidden"@,
        e is InvalidJson ==> e.status() == 400 && e.code() == "INVALID_JSON"@ && e.message()
            == "Invalid JSON body"@ && e.description() == "invalid json"@,
        e is NotFound ==> e.status() == 404 && e.code() == "ENTITY_NOT_FOUND"@ && e.message()
            == "Entity not found"@ && e.description() == "entity not found"@,
        e is EtagMismatch ==> e.status() == 412 && e.code() == "ENTITY_ETAG_MISMATCH"@
            && e.message() == "ETag does not match current version"@ && e.description()
            == "etag mismatch"@,
        e is Internal ==> e.status() == 500 && e.code() == "INTERNAL"@ && e.message()
            == "Internal error"@ && e.description() == "internal"@,
{
}

/// The details of an error tell the id, and of a mismatch the two tags as well, to the letter. They
/// tell nothing else.
pub proof fn law_details_tell_the_facts_to_the_letter(e: ErrorView, name: Seq<char>)
    ensures
        match e {
            ErrorView::NotFound { entity_id } => {
                &&& e.details().contains_key(name) <==> name == "entityId"@
                &&& e.details()["entityId"@] == Json::Text(entity_id)
            },
            ErrorView::EtagMismatch { entity_id, current, provided } => {
                &&& e.details().contains_key(name) <==> name == "entityId"@ || name
                    == "currentEtag"@ || name == "providedIfMatch"@
                &&& e.details()["entityId"@] == Json::Text(entity_id)
                &&& e.details()["currentEtag"@] == Json::Text(current)
                &&& e.details()["providedIfMatch"@] == Json::Text(provided)
            },
            _ => !e.details().contains_key(name),
        },
{
    reveal_strlit("currentEtag");
    reveal_strlit("providedIfMatch");
    reveal_strlit("entityId");
    assert("currentEtag"@.len() == 11 && "providedIfMatch"@.len() == 15 && "entityId"@.len() == 8);
}

/// Whether `reply` refuses a request with the error `e`: the status, code, sentence and details are
/// the error's, there is no tag, and the trace id stands in the body to the letter. It stands in the
/// header too, where a header value can hold it.
pub open spec fn refuses_with(reply: ReplyView, e: ErrorView, trace_id: Seq<char>) -> bool {
    &&& reply.status == e.status()
    &&& reply.etag is None
    &&& reply.trace_id == (if is_header_text(trace_id) {
        trace_id
    } else {
        "invalid-trace-id"@
    })
    &&& reply.body matches BodyView::Error { code, message, details, trace_id: told } && code
        == e.code() && message == e.message() && details == Json::Object(e.details()) && told
        == trace_id
}

/// A request that is refused is told its error and its trace id. One that is served has the status
/// 200, the tag of the entity's version and its trace id. A read gets the whole document, and a
/// write no body.
pub proof fn law_what_answers_tell(
    id: Seq<char>,
    e: ErrorView,
    stored: StoredView,
    trace_id: Seq<char>,
)
    ensures
        refuses_with(error_reply(e, trace_id), e, trace_id),
        refuses_with(write_reply(Err(e), trace_id), e, trace_id),
        refuses_with(read_reply(id, Err(e), trace_id), e, trace_id),
        refuses_with(
            read_reply(id, Ok(None), trace_id),
            ErrorView::NotFound { entity_id: id },
            trace_id,
        ),
        ({
            let read = read_reply(id, Ok(Some(stored)), trace_id);
            let written = write_reply(Ok(stored), trace_id);
            &&& read.status == 200 && written.status == 200
            &&& read.etag == Some(etag(stored.version)) && written.etag == read.etag
            &&& read.trace_id == trace_id && written.trace_id == trace_id
            &&& read.body == BodyView::Entity(stored.doc.to_json())
            &&& written.body is Empty
        }),
        is_header_text(trace_id) ==> trace_field(trace_id) == trace_id,
{
}

} // verus!
