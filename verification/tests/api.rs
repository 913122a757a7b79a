use aira_platform::api::{
    api_key_guard, entity_written, get_entity, health, put_entity, version,
};
use aira_platform::entity::{EntityDoc, StoredEntity};
use aira_platform::error::ApiError;
use aira_platform::memory::InMemoryStorage;
use aira_platform::reply::{
    api_error_response, read_response, write_response, Reply, ReplyBody,
};
use axum::http::header::{HeaderMap, HeaderName, HeaderValue};
use serde_json::Value;

fn json(text: &str) -> Value {
    serde_json::from_str(text).unwrap()
}

fn headers(fields: &[(&'static str, &str)]) -> HeaderMap {
    let mut map = HeaderMap::new();
    for (name, value) in fields {
        map.insert(HeaderName::from_static(name), HeaderValue::from_str(value).unwrap());
    }
    map
}

fn stored(version: u64) -> StoredEntity {
    let doc = EntityDoc::with_id("a", &json(r#"{"type":"T","x":1}"#)).unwrap();
    StoredEntity { doc, version, updated_at_ms: 0 }
}

fn error_of(reply: &Reply) -> (u16, String, String, Value) {
    match &reply.body {
        ReplyBody::Error(body) => {
            assert!(reply.etag.is_none());
            (
                reply.status,
                body.error.code.clone(),
                body.error.message.clone(),
                body.error.details.clone(),
            )
        }
        _ => panic!("not an error"),
    }
}

#[test]
fn health_and_version() {
    assert_eq!(health(), (200, "ok"));
    assert_eq!(version(), (200, "0.1.0"));
}

#[test]
fn each_error_has_its_answer() {
    let answer = |e: ApiError| {
        let reply = api_error_response(e, "t".to_string());
        assert_eq!(reply.trace_id, "t");
        match &reply.body {
            ReplyBody::Error(body) => assert_eq!(body.error.trace_id, "t"),
            _ => panic!("not an error"),
        }
        error_of(&reply)
    };
    let expected = |status: u16, code: &str, message: &str, details: &str| {
        (status, code.to_string(), message.to_string(), json(details))
    };
    assert_eq!(
        answer(ApiError::Unauthorized),
        expected(401, "UNAUTHORIZED", "Missing API key", "{}")
    );
    assert_eq!(answer(ApiError::Forbidden), expected(403, "FORBIDDEN", "Invalid API key", "{}"));
    assert_eq!(
        answer(ApiError::InvalidJson),
        expected(400, "INVALID_JSON", "Invalid JSON body", "{}")
    );
    assert_eq!(
        answer(ApiError::NotFound { entity_id: "a".to_string() }),
        expected(404, "ENTITY_NOT_FOUND", "Entity not found", r#"{"entityId":"a"}"#)
    );
    assert_eq!(
        answer(ApiError::EtagMismatch {
            entity_id: "a".to_string(),
            current: "v2".to_string(),
            provided: "v1".to_string(),
        }),
        expected(
            412,
            "ENTITY_ETAG_MISMATCH",
            "ETag does not match current version",
            r#"{"entityId":"a","currentEtag":"v2","providedIfMatch":"v1"}"#
        )
    );
    assert_eq!(answer(ApiError::Internal), expected(500, "INTERNAL", "Internal error", "{}"));
}

#[test]
fn errors_have_short_descriptions() {
    assert_eq!(ApiError::Unauthorized.description(), "unauthorized");
    assert_eq!(ApiError::Forbidden.description(), "forbidden");
    assert_eq!(ApiError::InvalidJson.description(), "invalid json");
    assert_eq!(
        ApiError::NotFound { entity_id: String::new() }.description(),
        "entity not found"
    );
    let mismatch = ApiError::EtagMismatch {
        entity_id: String::new(),
        current: String::new(),
        provided: String::new(),
    };
    assert_eq!(mismatch.description(), "etag mismatch");
    assert_eq!(ApiError::Internal.description(), "internal");
}

#[test]
fn a_trace_id_that_is_no_header_value_is_replaced_in_the_header_only() {
    for bad in ["a\nb", "\u{7f}", "\u{0}"] {
        let reply = api_error_response(ApiError::Internal, bad.to_string());
        assert_eq!(reply.trace_id, "invalid-trace-id");
        match &reply.body {
            ReplyBody::Error(body) => assert_eq!(body.error.trace_id, bad),
            _ => panic!("not an error"),
        }
    }
    let reply = api_error_response(ApiError::Internal, "caf\u{e9}\t".to_string());
    assert_eq!(reply.trace_id, "caf\u{e9}\t");
    assert!(HeaderValue::from_str(&reply.trace_id).is_ok());
}

#[test]
fn a_read_answers_the_document_and_its_tag() {
    let reply = get_entity("a", &headers(&[("x-trace-id", "t")]), Ok(Some(stored(3))));
    assert_eq!(reply.status, 200);
    assert_eq!(reply.etag, Some("v3".to_string()));
    assert_eq!(reply.trace_id, "t");
    match reply.body {
        ReplyBody::Entity(value) => assert_eq!(value, json(r#"{"id":"a","type":"T","x":1}"#)),
        _ => panic!("no entity"),
    }
}

#[test]
fn a_read_of_nothing_is_not_found() {
    let reply = get_entity("zz", &headers(&[("x-trace-id", "t")]), Ok(None));
    assert_eq!(reply.trace_id, "t");
    let (status, code, _, details) = error_of(&reply);
    assert_eq!((status, code.as_str()), (404, "ENTITY_NOT_FOUND"));
    assert_eq!(details, json(r#"{"entityId":"zz"}"#));
}

#[test]
fn a_failed_read_answers_the_error() {
    let reply = get_entity("a", &headers(&[]), Err(ApiError::Internal));
    assert_eq!(error_of(&reply).0, 500);
    assert_eq!(reply.trace_id.len(), 36);
}

#[test]
fn a_write_answers_the_new_tag_and_no_body() {
    let reply = entity_written(&headers(&[("x-trace-id", "t")]), Ok(stored(12)));
    assert_eq!(reply.status, 200);
    assert_eq!(reply.etag, Some("v12".to_string()));
    assert_eq!(reply.trace_id, "t");
    assert!(matches!(reply.body, ReplyBody::Empty));
    let reply = entity_written(&headers(&[]), Err(ApiError::InvalidJson));
    assert_eq!(error_of(&reply).0, 400);
}

#[test]
fn answers_for_a_chosen_trace_id() {
    let reply = read_response("a", Ok(Some(stored(1))), "t".to_string());
    assert_eq!((reply.status, reply.trace_id.as_str()), (200, "t"));
    let reply = write_response(Ok(stored(1)), "t".to_string());
    assert_eq!((reply.status, reply.trace_id.as_str()), (200, "t"));
}

#[test]
fn a_put_asks_for_the_document_and_states_its_precondition() {
    let payload = json(r#"{"id":"b","type":"T","x":1}"#);
    let upsert = put_entity("a", &headers(&[("if-match", "\"v4\"")]), &payload).unwrap();
    assert_eq!(upsert.doc.to_json(), json(r#"{"id":"a","type":"T","x":1}"#));
    assert_eq!(upsert.if_match, Some("v4".to_string()));
    let upsert = put_entity("a", &headers(&[]), &payload).unwrap();
    assert_eq!(upsert.if_match, None);
}

#[test]
fn a_put_without_a_textual_type_is_refused() {
    for payload in [r#"{"x":1}"#, r#"{"type":false}"#, "[]", "null", r#""T""#] {
        let reply =
            put_entity("a", &headers(&[("x-trace-id", "t")]), &json(payload)).unwrap_err();
        assert_eq!(reply.trace_id, "t");
        let (status, code, _, _) = error_of(&reply);
        assert_eq!((status, code.as_str()), (400, "INVALID_JSON"));
    }
}

#[test]
fn a_get_after_a_put_answers_the_payload() {
    let mut store = InMemoryStorage::new();
    let payload = json(r#"{"id":"zzz","type":"T","@context":["u",{"v":1.5}]}"#);
    let request = headers(&[("x-trace-id", "t")]);
    let upsert = put_entity("a", &request, &payload).unwrap();
    let written = store.upsert("a", upsert.doc, upsert.if_match.as_deref()).unwrap();
    let put = entity_written(&request, written);
    let get = get_entity("a", &request, store.get("a"));
    assert_eq!(put.etag, Some("v1".to_string()));
    assert_eq!(get.etag, put.etag);
    match get.body {
        ReplyBody::Entity(value) => {
            assert_eq!(value, json(r#"{"id":"a","type":"T","@context":["u",{"v":1.5}]}"#))
        }
        _ => panic!("no entity"),
    }
    // The tag that was answered is taken as a precondition.
    let tag = format!("\"{}\"", put.etag.unwrap());
    let upsert = put_entity("a", &headers(&[("if-match", &tag)]), &payload).unwrap();
    let written = store.upsert("a", upsert.doc, upsert.if_match.as_deref()).unwrap();
    assert_eq!(written.unwrap().version, 2);
}

#[test]
fn a_get_after_a_patch_answers_the_patched_document() {
    let mut store = InMemoryStorage::new();
    let request = headers(&[("x-trace-id", "t")]);
    let payload = json(r#"{"type":"T","x":1,"y":{"a":1,"b":2}}"#);
    let upsert = put_entity("a", &request, &payload).unwrap();
    store.upsert("a", upsert.doc, None).unwrap().unwrap();
    let patch = json(r#"{"id":"zzz","x":null,"y":{"b":3}}"#);
    let patched = entity_written(&request, store.patch("a", &patch, None).unwrap());
    let get = get_entity("a", &request, store.get("a"));
    assert_eq!((patched.status, get.status), (200, 200));
    assert_eq!(patched.etag, Some("v2".to_string()));
    assert_eq!(get.etag, patched.etag);
    match get.body {
        ReplyBody::Entity(value) => {
            assert_eq!(value, json(r#"{"id":"a","type":"T","y":{"a":1,"b":3}}"#))
        }
        _ => panic!("no entity"),
    }
}

#[test]
fn a_mismatch_tells_the_tag_that_a_get_answers() {
    let mut store = InMemoryStorage::new();
    let request = headers(&[("if-match", "v7")]);
    let payload = json(r#"{"type":"T"}"#);
    let upsert = put_entity("a", &request, &payload).unwrap();
    store.upsert("a", upsert.doc.clone(), None).unwrap().unwrap();
    let put = store.upsert("a", upsert.doc, upsert.if_match.as_deref()).unwrap();
    let patched = store.patch("a", &json("{}"), upsert.if_match.as_deref()).unwrap();
    let get = get_entity("a", &request, store.get("a"));
    assert_eq!(get.etag, Some("v1".to_string()));
    for written in [put, patched] {
        let (status, _, _, details) = error_of(&entity_written(&request, written));
        assert_eq!(status, 412);
        assert_eq!(
            details,
            json(r#"{"entityId":"a","currentEtag":"v1","providedIfMatch":"v7"}"#)
        );
    }
}

#[test]
fn without_a_key_everything_or_nothing_is_let_through() {
    assert!(api_key_guard(None, true, &headers(&[])).is_none());
    for fields in [headers(&[]), headers(&[("x-api-key", "k")])] {
        let reply = api_key_guard(None, false, &fields).unwrap();
        let (status, code, message, _) = error_of(&reply);
        assert_eq!(
            (status, code.as_str(), message.as_str()),
            (401, "UNAUTHORIZED", "Missing API key")
        );
    }
}

#[test]
fn the_key_is_taken_from_either_field() {
    for allow in [false, true] {
        let guard = |fields: &[(&'static str, &str)]| {
            api_key_guard(Some("k 1"), allow, &headers(fields)).map(|r| error_of(&r).0)
        };
        assert_eq!(guard(&[("x-api-key", "k 1")]), None);
        assert_eq!(guard(&[("x-api-key", "  k 1\t")]), None);
        assert_eq!(guard(&[("authorization", "ApiKey k 1")]), None);
        assert_eq!(guard(&[("authorization", " ApiKey   k 1 ")]), None);
        assert_eq!(guard(&[]), Some(401));
        assert_eq!(guard(&[("authorization", "Bearer k 1")]), Some(401));
        assert_eq!(guard(&[("authorization", "apikey k 1")]), Some(401));
        assert_eq!(guard(&[("authorization", "ApiKey ")]), Some(401));
        assert_eq!(guard(&[("x-api-key", "k")]), Some(403));
        assert_eq!(guard(&[("x-api-key", "")]), Some(403));
        assert_eq!(guard(&[("authorization", "ApiKey k")]), Some(403));
        // The field for the key goes first.
        assert_eq!(guard(&[("x-api-key", "no"), ("authorization", "ApiKey k 1")]), Some(403));
    }
}

#[test]
fn a_key_field_that_is_no_plain_text_is_passed_over() {
    let fields = headers(&[("x-api-key", "k\u{e9}"), ("authorization", "ApiKey k")]);
    assert!(api_key_guard(Some("k"), false, &fields).is_none());
}

#[test]
fn a_refusal_carries_the_trace_id() {
    let fields = headers(&[("x-trace-id", "t"), ("x-api-key", "no")]);
    let reply = api_key_guard(Some("k"), false, &fields).unwrap();
    assert_eq!(reply.trace_id, "t");
    let (status, code, message, _) = error_of(&reply);
    assert_eq!(
        (status, code.as_str(), message.as_str()),
        (403, "FORBIDDEN", "Invalid API key")
    );
}

#[test]
fn the_header_texts_of_each_answer_can_be_sent() {
    let fields = headers(&[("x-trace-id", "a\tb c")]);
    let replies = [
        get_entity("a", &fields, Ok(Some(stored(u64::MAX)))),
        get_entity("a\n", &headers(&[]), Ok(None)),
        put_entity("a", &fields, &json("1")).unwrap_err(),
        entity_written(&headers(&[]), Ok(stored(0))),
        entity_written(&fields, Err(ApiError::Internal)),
        api_key_guard(Some("k"), false, &fields).unwrap(),
        api_error_response(ApiError::Internal, "a\nb".to_string()),
    ];
    for reply in replies {
        assert!(HeaderValue::from_str(&reply.trace_id).is_ok());
        if let Some(tag) = reply.etag {
            assert!(HeaderValue::from_str(&tag).is_ok());
        }
    }
}
