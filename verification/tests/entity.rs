use aira_platform::entity::{EntityDoc, StoredEntity};
use aira_platform::error::ApiError;
use aira_platform::json::member_text;
use serde_json::Value;

fn json(text: &str) -> Value {
    serde_json::from_str(text).unwrap()
}

fn doc(id: &str, text: &str) -> EntityDoc {
    EntityDoc::with_id(id, &json(text)).unwrap()
}

fn refused(r: Result<EntityDoc, ApiError>) -> bool {
    matches!(r, Err(ApiError::InvalidJson))
}

#[test]
fn the_id_comes_from_the_path() {
    let d = doc("a", r#"{"id":"b","type":"Pump","pressure":4.5,"on":true}"#);
    assert_eq!(d.id, "a");
    assert_eq!(d.entity_type, "Pump");
    assert_eq!(d.extra.len(), 2);
    assert_eq!(d.extra.get("pressure"), Some(&json("4.5")));
    assert_eq!(d.extra.get("on"), Some(&Value::Bool(true)));
}

#[test]
fn a_document_needs_a_textual_type() {
    assert!(refused(EntityDoc::with_id("a", &json(r#"{"id":"a"}"#))));
    assert!(refused(EntityDoc::with_id("a", &json(r#"{"type":1}"#))));
    assert!(refused(EntityDoc::with_id("a", &json(r#"{"type":null}"#))));
    assert!(refused(EntityDoc::with_id("a", &json(r#"["type","Pump"]"#))));
    assert!(refused(EntityDoc::with_id("a", &json(r#""type""#))));
    assert!(refused(EntityDoc::with_id("a", &Value::Null)));
}

#[test]
fn the_json_form_has_id_type_and_the_rest() {
    let d = doc("a", r#"{"type":"Pump","tags":["x"],"nested":{"k":null}}"#);
    assert_eq!(d.to_json(), json(r#"{"id":"a","type":"Pump","tags":["x"],"nested":{"k":null}}"#));
}

#[test]
fn the_json_form_is_read_back() {
    let d = doc("a", r#"{"type":"Pump","n":-3,"f":0.1,"t":"é"}"#);
    let again = EntityDoc::from_json(&d.to_json()).unwrap();
    assert_eq!(again.id, "a");
    assert_eq!(again.entity_type, "Pump");
    assert_eq!(again.extra, d.extra);
}

#[test]
fn from_json_needs_textual_id_and_type() {
    assert!(refused(EntityDoc::from_json(&json(r#"{"type":"Pump"}"#))));
    assert!(refused(EntityDoc::from_json(&json(r#"{"id":3,"type":"Pump"}"#))));
    assert!(refused(EntityDoc::from_json(&json(r#"{"id":"a"}"#))));
    assert!(refused(EntityDoc::from_json(&json(r#"["a","Pump"]"#))));
    assert_eq!(EntityDoc::from_json(&json(r#"{"id":"a","type":"Pump"}"#)).unwrap().id, "a");
}

#[test]
fn members_outside_their_field_win_in_the_json_form() {
    let mut extra = serde_json::Map::new();
    extra.insert("type".to_string(), Value::String("Valve".to_string()));
    let d = EntityDoc { id: "a".to_string(), entity_type: "Pump".to_string(), extra };
    assert_eq!(d.to_json(), json(r#"{"id":"a","type":"Valve"}"#));
}

#[test]
fn a_merge_patch_sets_removes_and_merges() {
    let base = json(
        r#"{"id":"a","type":"T","title":"Goodbye!",
            "author":{"givenName":"John","familyName":"Doe"},
            "tags":["example","sample"],"content":"This will be unchanged"}"#,
    );
    let patch = json(
        r#"{"title":"Hello!","phoneNumber":"+01-123-456-7890",
            "author":{"familyName":null},"tags":["example"]}"#,
    );
    let d = EntityDoc::patched("a", base, &patch).unwrap();
    assert_eq!(
        d.to_json(),
        json(
            r#"{"id":"a","type":"T","title":"Hello!","author":{"givenName":"John"},
                "tags":["example"],"content":"This will be unchanged",
                "phoneNumber":"+01-123-456-7890"}"#
        )
    );
}

#[test]
fn a_patched_object_drops_nested_nulls() {
    let d = EntityDoc::patched(
        "a",
        json(r#"{"type":"T","x":1}"#),
        &json(r#"{"x":{"y":null,"z":{"w":null,"v":2}}}"#),
    )
    .unwrap();
    assert_eq!(d.to_json(), json(r#"{"id":"a","type":"T","x":{"z":{"v":2}}}"#));
}

#[test]
fn a_patch_can_be_repeated() {
    let patch = json(r#"{"a":null,"b":{"c":1,"d":null},"e":[null]}"#);
    let base = json(r#"{"type":"T","a":1,"b":{"d":2,"k":3}}"#);
    let once = EntityDoc::patched("a", base, &patch).unwrap().to_json();
    let twice = EntityDoc::patched("a", once.clone(), &patch).unwrap().to_json();
    assert_eq!(once, twice);
    assert_eq!(once, json(r#"{"id":"a","type":"T","b":{"c":1,"k":3},"e":[null]}"#));
}

#[test]
fn a_patch_must_leave_a_textual_type() {
    let base = json(r#"{"id":"a","type":"T","x":1}"#);
    assert!(refused(EntityDoc::patched("a", base.clone(), &json(r#"{"type":null}"#))));
    assert!(refused(EntityDoc::patched("a", base.clone(), &json(r#"{"type":{"t":"U"}}"#))));
    assert!(refused(EntityDoc::patched("a", base.clone(), &json("[]"))));
    assert!(refused(EntityDoc::patched("a", base.clone(), &Value::Null)));
    let d = EntityDoc::patched("a", base, &json(r#"{"type":"U","id":"zzz"}"#)).unwrap();
    assert_eq!(d.entity_type, "U");
    assert_eq!(d.id, "a");
}

#[test]
fn a_renamed_document_keeps_the_rest() {
    let d = doc("a", r#"{"type":"T","x":1}"#).renamed("b");
    assert_eq!(d.to_json(), json(r#"{"id":"b","type":"T","x":1}"#));
}

#[test]
fn clones_hold_the_same() {
    let stored = StoredEntity {
        doc: doc("a", r#"{"type":"T","x":[1,{"y":2}]}"#),
        version: 9,
        updated_at_ms: -5,
    };
    let copy = stored.clone();
    assert_eq!(copy.doc.to_json(), stored.doc.to_json());
    assert_eq!(copy.version, 9);
    assert_eq!(copy.updated_at_ms, -5);
}

#[test]
fn the_text_of_a_member() {
    let value = json(r#"{"a":"x","b":1}"#);
    let map = value.as_object().unwrap();
    assert_eq!(member_text(map, "a"), Some("x"));
    assert_eq!(member_text(map, "b"), None);
    assert_eq!(member_text(map, "c"), None);
}
