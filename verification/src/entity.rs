//! Entity documents: their JSON form, and what a stored entity is.

use serde_json::Value;
use vstd::prelude::*;

use crate::error::ApiError;
use crate::error::ErrorView;
use crate::json::{entries, member_text, object_value, text_value};
use crate::json::{json_of, members_of, merge_patch, no_members, text_member, Json};

verus! {

/// An entity document: its id, its type, and the other members of its JSON form as they came.
#[derive(Debug)]
pub struct EntityDoc {
    pub id: String,
    pub entity_type: String,
    pub extra: serde_json::Map<String, Value>,
}

/// An entity document as a mathematical value.
#[verifier::ext_equal]
pub struct DocView {
    pub id: Seq<char>,
    pub entity_type: Seq<char>,
    pub extra: Map<Seq<char>, Json>,
}

impl View for EntityDoc {
    type V = DocView;

    open spec fn view(&self) -> DocView {
        DocView {
            id: self.id@,
            entity_type: self.entity_type@,
            extra: members_of(self.extra),
        }
    }
}

impl DocView {
    /// Whether the id and the type stand in their own fields only.
    pub open spec fn well_formed(self) -> bool {
        !self.extra.contains_key("id"@) && !self.extra.contains_key("type"@)
    }

    /// The JSON form: an object of the id, the type and the other members.
    pub open spec fn to_json(self) -> Json {
        Json::Object(
            no_members().insert("id"@, Json::Text(self.id)).insert(
                "type"@,
                Json::Text(self.entity_type),
            ).union_prefer_right(self.extra),
        )
    }

    /// The document `id` in a JSON value: an object whose `type` is a text. An `id` in the value
    /// does not count.
    pub open spec fn with_id(id: Seq<char>, value: Json) -> Option<DocView> {
        match value {
            Json::Object(members) => match text_member(members, "type"@) {
                Some(entity_type) => Some(
                    DocView {
                        id,
                        entity_type,
                        extra: members.remove("id"@).remove("type"@),
                    },
                ),
                None => None,
            },
            _ => None,
        }
    }

    /// The document in a JSON value that brings its own id: an object whose `id` and `type` are
    /// texts.
    pub open spec fn from_json(value: Json) -> Option<DocView> {
        match value {
            Json::Object(members) => match text_member(members, "id"@) {
                Some(id) => DocView::with_id(id, value),
                None => None,
            },
            _ => None,
        }
    }
}

/// A document that was read, or the error that there is none.
pub open spec fn doc_result(r: Result<EntityDoc, ApiError>) -> Result<DocView, ErrorView> {
    match r {
        Ok(doc) => Ok(doc@),
        Err(e) => Err(e@),
    }
}

/// A document where there is one, and `InvalidJson` otherwise.
pub open spec fn or_invalid_json(doc: Option<DocView>) -> Result<DocView, ErrorView> {
    match doc {
        Some(d) => Ok(d),
        None => Err(ErrorView::InvalidJson),
    }
}

/// The members of an object but for its id and its type.
fn other_members(map: &serde_json::Map<String, Value>) -> (others: serde_json::Map<String, Value>)
    ensures
        members_of(others) == members_of(*map).remove("id"@).remove("type"@),
{
    let list = entries(map);
    let mut others = serde_json::Map::new();
    let mut i: usize = 0;
    while i < list.len()
        invariant
            i <= list@.len(),
            forall|j: int|
                0 <= j < list@.len() ==> members_of(*map).contains_key((#[trigger] list@[j]).0@)
                    && members_of(*map)[list@[j].0@] == json_of(*list@[j].1),
            forall|k: Seq<char>| #[trigger]
                members_of(others).contains_key(k) ==> members_of(*map).contains_key(k) && k
                    != "id"@ && k != "type"@ && members_of(others)[k] == members_of(*map)[k],
            forall|j: int|
                0 <= j < i && (#[trigger] list@[j]).0@ != "id"@ && list@[j].0@ != "type"@
                    ==> members_of(others).contains_key(list@[j].0@),
        decreases list@.len() - i,
    {
        let (name, value) = list[i];
        if *name.as_str() != *"id" && *name.as_str() != *"type" {
            others.insert(name.clone(), value.clone());
        }
        i += 1;
    }
    proof {
        assert(members_of(others) =~= members_of(*map).remove("id"@).remove("type"@));
    }
    others
}

impl EntityDoc {
    /// The document under another id.
    pub fn renamed(self, id: &str) -> (doc: EntityDoc)
        ensures
            doc@ == (DocView { id: id@, ..self@ }),
    {
        EntityDoc { id: id.to_string(), entity_type: self.entity_type, extra: self.extra }
    }

    /// Reads the document `id` from a JSON value: an object whose `type` is a text. An `id` in
    /// the value does not count.
    pub fn with_id(id: &str, value: &Value) -> (doc: Result<EntityDoc, ApiError>)
        ensures
            doc_result(doc) == or_invalid_json(DocView::with_id(id@, json_of(*value))),
    {
        let members = match value.as_object() {
            Some(members) => members,
            None => return Err(ApiError::InvalidJson),
        };
        let entity_type = match member_text(members, "type") {
            Some(entity_type) => entity_type,
            None => return Err(ApiError::InvalidJson),
        };
        Ok(
            EntityDoc {
                id: id.to_string(),
                entity_type: entity_type.to_string(),
                extra: other_members(members),
            },
        )
    }

    /// Reads a document from a JSON value that brings its own id: an object whose `id` and `type`
    /// are texts.
    pub fn from_json(value: &Value) -> (doc: Result<EntityDoc, ApiError>)
        ensures
            doc_result(doc) == or_invalid_json(DocView::from_json(json_of(*value))),
    {
        let members = match value.as_object() {
            Some(members) => members,
            None => return Err(ApiError::InvalidJson),
        };
        match member_text(members, "id") {
            Some(id) => EntityDoc::with_id(id, value),
            None => Err(ApiError::InvalidJson),
        }
    }

    /// The JSON form of the document: an object of the id, the type and the other members.
    pub fn to_json(&self) -> (value: Value)
        ensures
            json_of(value) == self@.to_json(),
    {
        let mut members = serde_json::Map::new();
        members.insert("id".to_string(), text_value(self.id.clone()));
        members.insert("type".to_string(), text_value(self.entity_type.clone()));
        let ghost first = members_of(members);
        let list = entries(&self.extra);
        let mut i: usize = 0;
        while i < list.len()
            invariant
                i <= list@.len(),
                forall|j: int|
                    0 <= j < list@.len() ==> members_of(self.extra).contains_key(
                        (#[trigger] list@[j]).0@,
                    ) && members_of(self.extra)[list@[j].0@] == json_of(*list@[j].1),
                forall|k: Seq<char>| #[trigger]
                    members_of(members).contains_key(k) ==> first.contains_key(k) || members_of(
                        self.extra,
                    ).contains_key(k),
                forall|k: Seq<char>|
                    first.contains_key(k) ==> #[trigger] members_of(members).contains_key(k),
                forall|k: Seq<char>| #[trigger]
                    members_of(members).contains_key(k) && !members_of(self.extra).contains_key(k)
                        ==> members_of(members)[k] == first[k],
                forall|j: int|
                    0 <= j < i ==> members_of(members).contains_key((#[trigger] list@[j]).0@)
                        && members_of(members)[list@[j].0@] == members_of(self.extra)[list@[j].0@],
            decreases list@.len() - i,
        {
            let (name, value) = list[i];
            members.insert(name.clone(), value.clone());
            i += 1;
        }
        proof {
            assert(members_of(members) =~= first.union_prefer_right(members_of(self.extra)));
        }
        object_value(members)
    }

    /// The document `id` that a JSON Merge Patch makes of a JSON value.
    pub fn patched(id: &str, base: Value, patch: &Value) -> (doc: Result<EntityDoc, ApiError>)
        ensures
            doc_result(doc) == or_invalid_json(
                DocView::with_id(id@, merge_patch(json_of(base), json_of(*patch))),
            ),
    {
        let mut merged = base;
        json_patch::merge(&mut merged, patch);
        EntityDoc::with_id(id, &merged)
    }
}

impl Clone for EntityDoc {
    fn clone(&self) -> (copy: EntityDoc)
        ensures
            copy@ == self@,
    {
        EntityDoc {
            id: self.id.clone(),
            entity_type: self.entity_type.clone(),
            extra: self.extra.clone(),
        }
    }
}

/// An entity in a store: its document, how many writes made it, and when the last one was.
#[derive(Debug)]
pub struct StoredEntity {
    pub doc: EntityDoc,
    pub version: u64,
    pub updated_at_ms: i64,
}

/// A stored entity as a mathematical value.
#[verifier::ext_equal]
pub struct StoredView {
    pub doc: DocView,
    pub version: nat,
    pub updated_at_ms: int,
}

impl View for StoredEntity {
    type V = StoredView;

    open spec fn view(&self) -> StoredView {
        StoredView {
            doc: self.doc@,
            version: self.version as nat,
            updated_at_ms: self.updated_at_ms as int,
        }
    }
}

impl Clone for StoredEntity {
    fn clone(&self) -> (copy: StoredEntity)
        ensures
            copy@ == self@,
    {
        StoredEntity {
            doc: self.doc.clone(),
            version: self.version,
            updated_at_ms: self.updated_at_ms,
        }
    }
}

} // verus!
