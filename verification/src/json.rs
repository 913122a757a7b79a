//! JSON values: the mathematical model, and the contracts of the `serde_json` and `json_patch`
//! items that the service uses.

use serde_json::Value;
use vstd::prelude::*;

use crate::text::opt_text;

verus! {

/// `serde_json`'s JSON value.
#[verifier::external_type_specification]
#[verifier::external_body]
pub struct ExValue(serde_json::Value);

/// `serde_json`'s map from member names to values.
#[verifier::external_type_specification]
#[verifier::external_body]
#[verifier::reject_recursive_types(K)]
#[verifier::reject_recursive_types(V)]
pub struct ExMap<K, V>(serde_json::Map<K, V>);

/// A JSON value as a tree. An object has no order among its members, and a number is told by its
/// text.
pub enum Json {
    Null,
    Bool(bool),
    Number(Seq<char>),
    Text(Seq<char>),
    Array(Seq<Json>),
    Object(Map<Seq<char>, Json>),
}

/// The tree that a value holds.
pub uninterp spec fn json_of(value: Value) -> Json;

/// The members that a map holds.
pub uninterp spec fn members_of(map: serde_json::Map<String, Value>) -> Map<Seq<char>, Json>;

/// The members of an object without any.
pub open spec fn no_members() -> Map<Seq<char>, Json> {
    Map::empty()
}

/// The text of the member `name`, where there is such a member and it is a text.
pub open spec fn text_member(members: Map<Seq<char>, Json>, name: Seq<char>) -> Option<Seq<char>> {
    if members.contains_key(name) && members[name] is Text {
        Some(members[name]->Text_0)
    } else {
        None
    }
}

/// The members of `target` where it is an object, and none otherwise.
pub open spec fn members_or_none(target: Json) -> Map<Seq<char>, Json> {
    if target is Object {
        target->Object_0
    } else {
        no_members()
    }
}

/// JSON Merge Patch: a patch that is no object replaces the target. One that is an object acts on
/// each member that it names: `null` removes it, anything else is merged into it. The members
/// that it does not name stay.
pub open spec fn merge_patch(target: Json, patch: Json) -> Json
    decreases patch,
{
    match patch {
        Json::Object(p) => {
            let base = members_or_none(target);
            Json::Object(
                Map::new(
                    |k: Seq<char>|
                        if p.contains_key(k) {
                            !(p[k] is Null)
                        } else {
                            base.contains_key(k)
                        },
                    |k: Seq<char>|
                        if p.contains_key(k) {
                            merge_patch(
                                if base.contains_key(k) {
                                    base[k]
                                } else {
                                    Json::Null
                                },
                                p[k],
                            )
                        } else {
                            base[k]
                        },
                ),
            )
        },
        _ => patch,
    }
}

/// `json_patch::merge`: applies a JSON Merge Patch to a document in place. It recurses as deep as
/// the objects of the patch are nested.
pub assume_specification[ json_patch::merge ](doc: &mut Value, patch: &Value)
    ensures
        json_of(*final(doc)) == merge_patch(json_of(*old(doc)), json_of(*patch)),
;

/// `Value::as_object`: the members of an object, or `None` where the value is none.
pub assume_specification[ Value::as_object ](value: &Value) -> (map: Option<
    &serde_json::Map<String, Value>,
>)
    ensures
        match map {
            Some(m) => json_of(*value) == Json::Object(members_of(*m)),
            None => !(json_of(*value) is Object),
        },
;

/// `Value::as_str`: the characters of a text, or `None` where the value is none.
pub assume_specification[ Value::as_str ](value: &Value) -> (text: Option<&str>)
    ensures
        match text {
            Some(s) => json_of(*value) == Json::Text(s@),
            None => !(json_of(*value) is Text),
        },
;

/// `Value::clone`: a value that holds the same tree.
pub assume_specification[ <Value as Clone>::clone ](value: &Value) -> (copy: Value)
    ensures
        json_of(copy) == json_of(*value),
;

/// `Map::new`: a map without members.
pub assume_specification[ serde_json::Map::<String, Value>::new ]() -> (map: serde_json::Map<
    String,
    Value,
>)
    ensures
        members_of(map) == no_members(),
;

/// `Map::insert`: sets a member, and hands back the value that it had before, if any.
pub assume_specification[ serde_json::Map::<String, Value>::insert ](
    map: &mut serde_json::Map<String, Value>,
    name: String,
    value: Value,
) -> (before: Option<Value>)
    ensures
        members_of(*final(map)) == members_of(*old(map)).insert(name@, json_of(value)),
        match before {
            Some(v) => members_of(*old(map)).contains_key(name@) && json_of(v) == members_of(
                *old(map),
            )[name@],
            None => !members_of(*old(map)).contains_key(name@),
        },
;

/// `Map::clone`: a map that holds the same members.
pub assume_specification[ <serde_json::Map<String, Value> as Clone>::clone ](
    map: &serde_json::Map<String, Value>,
) -> (copy: serde_json::Map<String, Value>)
    ensures
        members_of(copy) == members_of(*map),
;

/// `Map::get` with a text: the value of the member of that name, or `None` where there is none.
#[verifier::external_body]
fn member<'a>(map: &'a serde_json::Map<String, Value>, name: &str) -> (value: Option<&'a Value>)
    ensures
        match value {
            Some(v) => members_of(*map).contains_key(name@) && json_of(*v) == members_of(
                *map,
            )[name@],
            None => !members_of(*map).contains_key(name@),
        },
{
    map.get(name)
}

/// `Map::iter`: every member with its value, and nothing else. The order is left unsaid, and so is
/// that each member comes once.
#[verifier::external_body]
pub(crate) fn entries(map: &serde_json::Map<String, Value>) -> (list: Vec<(&String, &Value)>)
    ensures
        forall|i: int|
            0 <= i < list@.len() ==> members_of(*map).contains_key((#[trigger] list@[i]).0@)
                && members_of(*map)[list@[i].0@] == json_of(*list@[i].1),
        forall|k: Seq<char>| #[trigger]
            members_of(*map).contains_key(k) ==> exists|i: int|
                0 <= i < list@.len() && (#[trigger] list@[i]).0@ == k,
{
    map.iter().collect()
}

/// `Value::String`: the value that is this text.
#[verifier::external_body]
pub(crate) fn text_value(text: String) -> (value: Value)
    ensures
        json_of(value) == Json::Text(text@),
{
    Value::String(text)
}

/// `Value::Object`: the value that is the object with these members.
#[verifier::external_body]
pub(crate) fn object_value(map: serde_json::Map<String, Value>) -> (value: Value)
    ensures
        json_of(value) == Json::Object(members_of(map)),
{
    Value::Object(map)
}

/// The text of a member, where there is such a member and it is a text.
pub fn member_text<'a>(map: &'a serde_json::Map<String, Value>, name: &str) -> (text: Option<
    &'a str,
>)
    ensures
        opt_text(text) == text_member(members_of(*map), name@),
{
    match member(map, name) {
        Some(value) => value.as_str(),
        None => None,
    }
}

} // verus!
