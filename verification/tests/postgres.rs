use aira_platform::entity::{EntityDoc, StoredEntity};
use aira_platform::error::ApiError;
use aira_platform::memory::InMemoryStorage;
use aira_platform::postgres::{
    entity_from_lookup, entity_from_row, Action, Event, Lookup, Row, Transaction,
};
use aira_platform::storage::check_if_match;
use serde_json::Value;

fn json(text: &str) -> Value {
    serde_json::from_str(text).unwrap()
}

fn doc(text: &str) -> EntityDoc {
    EntityDoc::with_id("other", &json(text)).unwrap()
}

fn row(doc: &str, version: i64, updated_at_ms: i64) -> Row {
    Row { doc: Some(json(doc)), version: Some(version), updated_at_ms: Some(updated_at_ms) }
}

/// A table of one row, and what a transaction sees of it.
struct Table {
    row: Option<(Value, i64, i64)>,
    working: Option<(Value, i64, i64)>,
    fail_at: Option<usize>,
    lose_report_at: Option<usize>,
}

impl Table {
    fn of(row: Option<(Value, i64, i64)>) -> Table {
        Table { row, working: None, fail_at: None, lose_report_at: None }
    }

    fn write(&mut self, doc: Value, version: i64, now: i64) -> Event {
        self.working = Some((doc.clone(), version, now));
        Event::Written(Row {
            doc: Some(doc),
            version: Some(version),
            updated_at_ms: Some(now),
        })
    }

    fn run(&mut self, begun: (Transaction, Action)) -> Result<StoredEntity, ApiError> {
        let (mut tx, mut action) = begun;
        for step in 0.. {
            let now = tx.now;
            let event = if self.fail_at == Some(step) {
                match action {
                    Action::Finish(answer) => return answer,
                    _ => Event::Failed,
                }
            } else {
                match action {
                    Action::Begin => {
                        self.working = self.row.clone();
                        Event::Began
                    }
                    Action::SelectVersion => match &self.working {
                        Some((_, version, _)) => Event::Version(Some(*version)),
                        None => Event::NoRow,
                    },
                    Action::SelectDocument => match &self.working {
                        Some((doc, version, _)) => Event::Document {
                            doc: Some(doc.clone()),
                            version: Some(*version),
                        },
                        None => Event::NoRow,
                    },
                    Action::Update { doc, .. } => {
                        let version = self.working.as_ref().unwrap().1 + 1;
                        self.write(doc, version, now)
                    }
                    Action::Insert { doc, .. } => self.write(doc, 1, now),
                    Action::Commit => {
                        self.row = self.working.clone();
                        Event::Committed
                    }
                    Action::Finish(answer) => return answer,
                }
            };
            let lost = self.lose_report_at == Some(step);
            let next = tx.step(if lost { Event::Failed } else { event });
            tx = next.0;
            action = next.1;
        }
        unreachable!()
    }
}

fn answer(r: &Result<StoredEntity, ApiError>) -> Result<(Value, u64, i64), String> {
    match r {
        Ok(s) => Ok((s.doc.to_json(), s.version, s.updated_at_ms)),
        Err(e) => Err(format!("{:?}", e)),
    }
}

#[test]
fn a_row_is_read_as_an_entity() {
    let stored = entity_from_row(row(r#"{"id":"a","type":"T","x":1}"#, 3, 9)).unwrap();
    assert_eq!(stored.doc.id, "a");
    assert_eq!(stored.doc.entity_type, "T");
    assert_eq!(stored.version, 3);
    assert_eq!(stored.updated_at_ms, 9);
    assert_eq!(stored.doc.extra.len(), 1);
}

#[test]
fn a_negative_version_is_cast() {
    let stored = entity_from_row(row(r#"{"id":"a","type":"T"}"#, -1, 0)).unwrap();
    assert_eq!(stored.version, u64::MAX);
}

#[test]
fn unreadable_columns_are_internal_and_malformed_documents_are_invalid() {
    let good = r#"{"id":"a","type":"T"}"#;
    let mut r = row(good, 1, 1);
    r.doc = None;
    assert!(matches!(entity_from_row(r), Err(ApiError::Internal)));
    let mut r = row(good, 1, 1);
    r.version = None;
    assert!(matches!(entity_from_row(r), Err(ApiError::Internal)));
    let mut r = row("[]", 1, 1);
    r.updated_at_ms = None;
    assert!(matches!(entity_from_row(r), Err(ApiError::Internal)));
    assert!(matches!(entity_from_row(row("[]", 1, 1)), Err(ApiError::InvalidJson)));
    assert!(matches!(entity_from_row(row(r#"{"type":"T"}"#, 1, 1)), Err(ApiError::InvalidJson)));
}

#[test]
fn a_lookup_is_answered() {
    assert!(matches!(entity_from_lookup(Lookup::Failed), Err(ApiError::Internal)));
    assert!(matches!(entity_from_lookup(Lookup::NoRow), Ok(None)));
    let found = entity_from_lookup(Lookup::Found(row(r#"{"id":"a","type":"T"}"#, 2, 0)));
    assert_eq!(found.unwrap().unwrap().version, 2);
    assert!(matches!(
        entity_from_lookup(Lookup::Found(row("1", 2, 0))),
        Err(ApiError::InvalidJson)
    ));
}

#[test]
fn an_upsert_inserts_a_row() {
    let mut table = Table::of(None);
    let stored =
        table.run(Transaction::upsert("a", doc(r#"{"type":"T","x":1}"#), None, 7)).unwrap();
    assert_eq!(stored.version, 1);
    assert_eq!(table.row, Some((json(r#"{"id":"a","type":"T","x":1}"#), 1, 7)));
}

#[test]
fn an_upsert_updates_a_row() {
    let mut table = Table::of(Some((json(r#"{"id":"a","type":"T"}"#), 4, 0)));
    let stored =
        table.run(Transaction::upsert("a", doc(r#"{"type":"U"}"#), Some("v4"), 7)).unwrap();
    assert_eq!(stored.version, 5);
    assert_eq!(stored.doc.entity_type, "U");
    assert_eq!(table.row, Some((json(r#"{"id":"a","type":"U"}"#), 5, 7)));
}

#[test]
fn the_steps_of_an_upsert() {
    let (tx, action) = Transaction::upsert("a", doc(r#"{"type":"T"}"#), None, 7);
    assert!(matches!(action, Action::Begin));
    let (tx, action) = tx.step(Event::Began);
    assert!(matches!(action, Action::SelectVersion));
    let (tx, action) = tx.step(Event::Version(Some(1)));
    match action {
        Action::Update { entity_type, doc } => {
            assert_eq!(entity_type, "T");
            assert_eq!(doc, json(r#"{"id":"a","type":"T"}"#));
        }
        _ => panic!("no update"),
    }
    let (tx, action) = tx.step(Event::Written(row(r#"{"id":"a","type":"T"}"#, 2, 7)));
    assert!(matches!(action, Action::Commit));
    let (tx, action) = tx.step(Event::Committed);
    match action {
        Action::Finish(Ok(stored)) => assert_eq!(stored.version, 2),
        _ => panic!("no entity"),
    }
    let (_, action) = tx.step(Event::Committed);
    assert!(matches!(action, Action::Finish(Err(ApiError::Internal))));
}

#[test]
fn refused_writes_ask_for_no_write() {
    let (tx, _) = Transaction::upsert("a", doc(r#"{"type":"T"}"#), Some("v1"), 7);
    let (_, action) = tx.step(Event::Began).0.step(Event::Version(Some(2)));
    match action {
        Action::Finish(Err(ApiError::EtagMismatch { entity_id, current, provided })) => {
            assert_eq!(entity_id, "a");
            assert_eq!(current, "v2");
            assert_eq!(provided, "v1");
        }
        _ => panic!("no mismatch"),
    }
    let (tx, _) = Transaction::upsert("a", doc(r#"{"type":"T"}"#), Some("v0"), 7);
    let (_, action) = tx.step(Event::Began).0.step(Event::NoRow);
    match action {
        Action::Finish(Err(ApiError::EtagMismatch { current, .. })) => assert_eq!(current, "v0"),
        _ => panic!("no mismatch"),
    }
    let (tx, _) = Transaction::patch("a", json("{}"), None, 7);
    let (_, action) = tx.step(Event::Began).0.step(Event::NoRow);
    assert!(matches!(action, Action::Finish(Err(ApiError::NotFound { .. }))));
    let (tx, _) = Transaction::patch("a", json("[]"), None, 7);
    let (_, action) = tx.step(Event::Began).0.step(Event::Document {
        doc: Some(json(r#"{"id":"a","type":"T"}"#)),
        version: Some(1),
    });
    assert!(matches!(action, Action::Finish(Err(ApiError::InvalidJson))));
}

#[test]
fn an_unreadable_version_is_internal() {
    let (tx, _) = Transaction::upsert("a", doc(r#"{"type":"T"}"#), None, 7);
    let (_, action) = tx.step(Event::Began).0.step(Event::Version(None));
    assert!(matches!(action, Action::Finish(Err(ApiError::Internal))));
    let (tx, _) = Transaction::patch("a", json("{}"), None, 7);
    let (_, action) =
        tx.step(Event::Began).0.step(Event::Document { doc: None, version: Some(1) });
    assert!(matches!(action, Action::Finish(Err(ApiError::Internal))));
}

#[test]
fn a_malformed_row_rolls_an_upsert_back_but_not_a_patch() {
    let (tx, _) = Transaction::upsert("a", doc(r#"{"type":"T"}"#), None, 7);
    let (_, action) =
        tx.step(Event::Began).0.step(Event::NoRow).0.step(Event::Written(row("1", 1, 7)));
    assert!(matches!(action, Action::Finish(Err(ApiError::InvalidJson))));

    let (tx, _) = Transaction::patch("a", json("{}"), None, 7);
    let (tx, action) = tx
        .step(Event::Began)
        .0
        .step(Event::Document {
            doc: Some(json(r#"{"id":"a","type":"T"}"#)),
            version: Some(1),
        })
        .0
        .step(Event::Written(row("1", 2, 7)));
    assert!(matches!(action, Action::Commit));
    let (_, action) = tx.step(Event::Committed);
    assert!(matches!(action, Action::Finish(Err(ApiError::InvalidJson))));
}

#[test]
fn the_table_answers_like_the_store_in_memory() {
    let patches = ["{}", r#"{"x":null,"y":{"z":1}}"#, r#"{"type":null}"#, "3", r#"{"id":"q"}"#];
    let tags = [None, Some("v0"), Some("v1"), Some("v2"), Some("v3")];
    for existing in 0..3i64 {
        for tag in tags {
            let fresh = || {
                let mut store = InMemoryStorage::new();
                let mut table = Table::of(None);
                for now in 0..existing {
                    let text = r#"{"type":"T","x":1}"#;
                    store.upsert_at("a", doc(text), None, now).unwrap();
                    table.run(Transaction::upsert("a", doc(text), None, now)).unwrap();
                }
                (store, table)
            };
            let same = |store: &InMemoryStorage, table: &Table| {
                let kept = store.get("a").unwrap();
                assert_eq!(
                    kept.map(|s| (s.doc.to_json(), s.version as i64, s.updated_at_ms)),
                    table.row
                );
            };
            let (mut store, mut table) = fresh();
            let text = r#"{"type":"U","k":[]}"#;
            let a = store.upsert_at("a", doc(text), tag, 50);
            let b = table.run(Transaction::upsert("a", doc(text), tag, 50));
            assert_eq!(answer(&a), answer(&b));
            same(&store, &table);
            for patch in patches {
                let (mut store, mut table) = fresh();
                let a = store.patch_at("a", &json(patch), tag, 50);
                let b = table.run(Transaction::patch("a", json(patch), tag, 50));
                assert_eq!(answer(&a), answer(&b));
                same(&store, &table);
            }
        }
    }
}

#[test]
fn a_failure_at_any_step_leaves_the_table_as_it_was() {
    for step in 0..4 {
        for existing in [None, Some((json(r#"{"id":"a","type":"T"}"#), 1, 0))] {
            let mut table = Table::of(existing.clone());
            table.fail_at = Some(step);
            let r = table.run(Transaction::upsert("a", doc(r#"{"type":"U"}"#), None, 7));
            assert!(matches!(r, Err(ApiError::Internal)));
            assert_eq!(table.row, existing);
        }
    }
}

#[test]
fn only_a_lost_report_of_the_commit_hides_a_write_that_was_made() {
    for step in 0..4 {
        let existing = Some((json(r#"{"id":"a","type":"T"}"#), 1, 0));
        let mut table = Table::of(existing.clone());
        table.lose_report_at = Some(step);
        let r = table.run(Transaction::upsert("a", doc(r#"{"type":"U"}"#), None, 7));
        assert!(matches!(r, Err(ApiError::Internal)));
        let written = Some((json(r#"{"id":"a","type":"U"}"#), 2, 7));
        assert_eq!(table.row, if step == 3 { written } else { existing.clone() });

        let mut table = Table::of(existing.clone());
        table.lose_report_at = Some(step);
        let r = table.run(Transaction::patch("a", json(r#"{"x":1}"#), None, 7));
        assert!(matches!(r, Err(ApiError::Internal)));
        let written = Some((json(r#"{"id":"a","type":"T","x":1}"#), 2, 7));
        assert_eq!(table.row, if step == 3 { written } else { existing });
    }
}

#[test]
fn preconditions_are_checked() {
    assert!(check_if_match("a", None, None).is_ok());
    assert!(check_if_match("a", Some(3), None).is_ok());
    assert!(check_if_match("a", Some(3), Some("v3")).is_ok());
    assert!(check_if_match("a", Some(3), Some("v4")).is_err());
    assert!(check_if_match("a", Some(3), Some("3")).is_err());
    assert!(check_if_match("a", None, Some("v0")).is_err());
}
