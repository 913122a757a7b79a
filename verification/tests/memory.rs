use aira_platform::clock::now_ms;
use aira_platform::entity::EntityDoc;
use aira_platform::error::ApiError;
use aira_platform::memory::InMemoryStorage;
use serde_json::Value;

fn json(text: &str) -> Value {
    serde_json::from_str(text).unwrap()
}

fn doc(text: &str) -> EntityDoc {
    EntityDoc::with_id("other", &json(text)).unwrap()
}

fn read(store: &InMemoryStorage, id: &str) -> Option<(Value, u64, i64)> {
    store.get(id).unwrap().map(|s| (s.doc.to_json(), s.version, s.updated_at_ms))
}

#[test]
fn an_empty_store_has_no_entities() {
    let store = InMemoryStorage::new();
    assert!(store.get("a").unwrap().is_none());
}

#[test]
fn the_first_write_makes_version_one_under_the_id_of_the_path() {
    let mut store = InMemoryStorage::new();
    let stored = store.upsert_at("a", doc(r#"{"type":"T","x":1}"#), None, 77).unwrap();
    assert_eq!(stored.version, 1);
    assert_eq!(stored.doc.id, "a");
    assert_eq!(read(&store, "a"), Some((json(r#"{"id":"a","type":"T","x":1}"#), 1, 77)));
    assert!(store.get("other").unwrap().is_none());
}

#[test]
fn a_second_write_replaces_the_document_and_counts_up() {
    let mut store = InMemoryStorage::new();
    store.upsert_at("a", doc(r#"{"type":"T","x":1}"#), None, 1).unwrap();
    store.upsert_at("b", doc(r#"{"type":"B"}"#), None, 2).unwrap();
    let stored = store.upsert_at("a", doc(r#"{"type":"U","y":2}"#), None, 3).unwrap();
    assert_eq!(stored.version, 2);
    assert_eq!(read(&store, "a"), Some((json(r#"{"id":"a","type":"U","y":2}"#), 2, 3)));
    assert_eq!(read(&store, "b"), Some((json(r#"{"id":"b","type":"B"}"#), 1, 2)));
}

#[test]
fn the_current_tag_is_taken_and_a_stale_one_is_refused() {
    let mut store = InMemoryStorage::new();
    store.upsert_at("a", doc(r#"{"type":"T"}"#), None, 1).unwrap();
    assert_eq!(store.upsert_at("a", doc(r#"{"type":"U"}"#), Some("v1"), 2).unwrap().version, 2);
    let e = store.upsert_at("a", doc(r#"{"type":"V"}"#), Some("v1"), 3).unwrap_err();
    match e {
        ApiError::EtagMismatch { entity_id, current, provided } => {
            assert_eq!(entity_id, "a");
            assert_eq!(current, "v2");
            assert_eq!(provided, "v1");
        }
        _ => panic!("another error"),
    }
    assert_eq!(read(&store, "a"), Some((json(r#"{"id":"a","type":"U"}"#), 2, 2)));
}

#[test]
fn a_precondition_never_creates() {
    let mut store = InMemoryStorage::new();
    for tag in ["v0", "v1", ""] {
        match store.upsert_at("a", doc(r#"{"type":"T"}"#), Some(tag), 1).unwrap_err() {
            ApiError::EtagMismatch { entity_id, current, provided } => {
                assert_eq!(entity_id, "a");
                assert_eq!(current, "v0");
                assert_eq!(provided, tag);
            }
            _ => panic!("another error"),
        }
    }
    assert!(store.get("a").unwrap().is_none());
}

#[test]
fn a_patch_of_a_missing_entity_is_not_found() {
    let mut store = InMemoryStorage::new();
    for tag in [None, Some("v0"), Some("v1")] {
        match store.patch_at("a", &json("{}"), tag, 1).unwrap_err() {
            ApiError::NotFound { entity_id } => assert_eq!(entity_id, "a"),
            _ => panic!("another error"),
        }
    }
}

#[test]
fn a_patch_merges_and_counts_up() {
    let mut store = InMemoryStorage::new();
    store.upsert_at("a", doc(r#"{"type":"T","x":1,"y":{"p":1,"q":2}}"#), None, 1).unwrap();
    let patch = json(r#"{"x":null,"y":{"q":3},"id":"b"}"#);
    let stored = store.patch_at("a", &patch, Some("v1"), 5).unwrap();
    assert_eq!(stored.version, 2);
    assert_eq!(
        read(&store, "a"),
        Some((json(r#"{"id":"a","type":"T","y":{"p":1,"q":3}}"#), 2, 5))
    );
}

#[test]
fn the_empty_patch_only_counts_the_version() {
    let mut store = InMemoryStorage::new();
    store.upsert_at("a", doc(r#"{"type":"T","x":1}"#), None, 1).unwrap();
    store.patch_at("a", &json("{}"), None, 2).unwrap();
    assert_eq!(read(&store, "a"), Some((json(r#"{"id":"a","type":"T","x":1}"#), 2, 2)));
}

#[test]
fn refused_patches_change_nothing() {
    let mut store = InMemoryStorage::new();
    store.upsert_at("a", doc(r#"{"type":"T","x":1}"#), None, 1).unwrap();
    let before = read(&store, "a");
    assert!(matches!(
        store.patch_at("a", &json(r#"{"type":null}"#), None, 2),
        Err(ApiError::InvalidJson)
    ));
    assert!(matches!(store.patch_at("a", &json("7"), None, 2), Err(ApiError::InvalidJson)));
    // The precondition is looked at first.
    assert!(matches!(
        store.patch_at("a", &json("7"), Some("v2"), 2),
        Err(ApiError::EtagMismatch { .. })
    ));
    assert_eq!(read(&store, "a"), before);
}

#[test]
fn writes_at_the_current_time() {
    let mut store = InMemoryStorage::new();
    let before = now_ms().unwrap();
    let put = store.upsert("a", doc(r#"{"type":"T"}"#), None).unwrap().unwrap();
    let patched = store.patch("a", &json(r#"{"x":1}"#), Some("v1")).unwrap().unwrap();
    let after = now_ms().unwrap();
    assert_eq!(put.version, 1);
    assert_eq!(patched.version, 2);
    assert!(before <= put.updated_at_ms && put.updated_at_ms <= after);
    assert!(before <= patched.updated_at_ms && patched.updated_at_ms <= after);
    assert_eq!(read(&store, "a").unwrap().0, json(r#"{"id":"a","type":"T","x":1}"#));
}

#[test]
fn refusals_at_the_current_time() {
    let mut store = InMemoryStorage::new();
    assert!(matches!(
        store.upsert("a", doc(r#"{"type":"T"}"#), Some("v1")),
        Some(Err(ApiError::EtagMismatch { .. }))
    ));
    assert!(matches!(
        store.patch("a", &json("{}"), None),
        Some(Err(ApiError::NotFound { .. }))
    ));
}

#[test]
fn a_write_needs_a_time_and_a_refusal_does_not() {
    let mut store = InMemoryStorage::new();
    assert!(store.upsert_given("a", doc(r#"{"type":"T"}"#), None, None).is_none());
    assert!(read(&store, "a").is_none());
    assert!(matches!(
        store.upsert_given("a", doc(r#"{"type":"T"}"#), Some("v1"), None),
        Some(Err(ApiError::EtagMismatch { .. }))
    ));
    assert!(matches!(
        store.patch_given("a", &json("{}"), None, None),
        Some(Err(ApiError::NotFound { .. }))
    ));

    let put = store.upsert_given("a", doc(r#"{"type":"T"}"#), None, Some(7)).unwrap().unwrap();
    assert_eq!((put.version, put.updated_at_ms), (1, 7));
    let before = read(&store, "a");
    assert_eq!(before, Some((json(r#"{"id":"a","type":"T"}"#), 1, 7)));
    assert!(store.patch_given("a", &json(r#"{"x":1}"#), None, None).is_none());
    assert!(store.upsert_given("a", doc(r#"{"type":"U"}"#), Some("v1"), None).is_none());
    assert!(matches!(
        store.patch_given("a", &json(r#"{"type":null}"#), None, None),
        Some(Err(ApiError::InvalidJson))
    ));
    assert_eq!(read(&store, "a"), before);

    let patched = store.patch_given("a", &json(r#"{"x":1}"#), None, Some(-3)).unwrap().unwrap();
    assert_eq!((patched.version, patched.updated_at_ms), (2, -3));
    assert_eq!(read(&store, "a"), Some((json(r#"{"id":"a","type":"T","x":1}"#), 2, -3)));
}

#[test]
fn a_used_tag_is_refused_ever_after_and_the_version_counts_the_accepted_writes() {
    let mut store = InMemoryStorage::new();
    let mut accepted = 0;
    for round in 0..12 {
        let tag = format!("v{}", accepted);
        let if_match = if round == 0 { None } else { Some(tag.as_str()) };
        let written = if round % 3 == 1 {
            store.patch_given("a", &json(r#"{"x":1}"#), if_match, Some(round)).unwrap()
        } else {
            store.upsert_given("a", doc(r#"{"type":"T"}"#), if_match, Some(round)).unwrap()
        };
        accepted += 1;
        assert_eq!(written.unwrap().version, accepted);
        for used in 0..accepted {
            let used = format!("v{}", used);
            let before = read(&store, "a");
            assert!(matches!(
                store.upsert_given("a", doc(r#"{"type":"U"}"#), Some(&used), Some(99)),
                Some(Err(ApiError::EtagMismatch { .. }))
            ));
            assert!(matches!(
                store.patch_given("a", &json("{}"), Some(&used), Some(99)),
                Some(Err(ApiError::EtagMismatch { .. }))
            ));
            assert_eq!(read(&store, "a"), before);
        }
    }
    assert_eq!(read(&store, "a").unwrap().1, 12);
}

#[test]
fn an_entity_has_the_id_that_it_stands_under_whatever_is_written() {
    let mut store = InMemoryStorage::new();
    let mut odd = doc(r#"{"type":"T"}"#);
    odd.id = "zzz".to_string();
    odd.extra.insert("id".to_string(), json(r#""yyy""#));
    store.upsert_given("a", odd, None, Some(1)).unwrap().unwrap();
    let found = store.get("a").unwrap().unwrap();
    assert_eq!((found.doc.id.as_str(), found.version), ("a", 1));
    store.patch_given("a", &json(r#"{"id":"xxx"}"#), None, Some(2)).unwrap().unwrap();
    let found = store.get("a").unwrap().unwrap();
    assert_eq!((found.doc.id.as_str(), found.version), ("a", 2));
}
