use std::collections::BTreeMap;

use reqores::headers::content_type_json_utf8;
use reqores::{HttpStatusCode, ServerResponse, ServerResponseBuilder};

fn h(name: &str, value: &str) -> (String, String) {
    (name.to_string(), value.to_string())
}

fn json_header() -> (String, String) {
    h("Content-Type", "application/json; charset=UTF-8")
}

#[test]
fn content_type_header_is_json_utf8() {
    assert_eq!(content_type_json_utf8(), json_header());
}

#[test]
fn empty_response_has_nothing() {
    let e = ServerResponse::empty();
    assert_eq!(e.status, None);
    assert!(e.headers.is_empty());
    assert_eq!(e.body, None);
}

#[test]
fn then_empty_keeps_response_with_body() {
    let a = ServerResponseBuilder::new()
        .with_status(HttpStatusCode::Created)
        .with_header("X-A".to_string(), "1".to_string())
        .body_str("X");
    let r = a.then(ServerResponse::empty());
    assert_eq!(r.status, Some(HttpStatusCode::Created));
    assert_eq!(r.headers, vec![h("X-A", "1")]);
    assert_eq!(r.body, Some(b"X".to_vec()));
}

#[test]
fn then_empty_keeps_partial_response() {
    let a = ServerResponseBuilder::new()
        .with_status(HttpStatusCode::Accepted)
        .with_header("X-A".to_string(), "1".to_string())
        .end();
    let r = a.then(ServerResponse::empty());
    assert_eq!(r.status, Some(HttpStatusCode::Accepted));
    assert_eq!(r.headers, vec![h("X-A", "1")]);
    assert_eq!(r.body, None);
}

#[test]
fn then_after_body_discards_next() {
    let a = ServerResponseBuilder::new().body_str("X");
    let b = ServerResponseBuilder::new()
        .with_status(HttpStatusCode::BadRequest)
        .with_header("X-B".to_string(), "2".to_string())
        .body_str("Y");
    let r = a.then(b);
    assert_eq!(r.body, Some(b"X".to_vec()));
    assert_eq!(r.status, None);
    assert!(r.headers.is_empty());
}

#[test]
fn then_merges_partial_with_next() {
    let a = ServerResponse { status: None, headers: vec![h("X-A", "1")], body: None };
    let b = ServerResponse {
        status: Some(HttpStatusCode::try_from(404).unwrap()),
        headers: vec![h("X-B", "2")],
        body: Some(b"Y".to_vec()),
    };
    let r = a.then(b);
    assert_eq!(r.status, Some(HttpStatusCode::Notfound));
    assert_eq!(r.headers, vec![h("X-A", "1"), h("X-B", "2")]);
    assert_eq!(r.body, Some(b"Y".to_vec()));
}

#[test]
fn then_keeps_earlier_status_when_next_has_none() {
    let a = ServerResponse { status: Some(HttpStatusCode::Forbidden), headers: vec![], body: None };
    let b = ServerResponse { status: None, headers: vec![h("X-B", "2")], body: None };
    let r = a.then(b);
    assert_eq!(r.status, Some(HttpStatusCode::Forbidden));
    assert_eq!(r.headers, vec![h("X-B", "2")]);
    assert_eq!(r.body, None);
}

#[test]
fn then_keeps_duplicate_header_names() {
    let a = ServerResponse { status: None, headers: vec![h("X", "1")], body: None };
    let b = ServerResponse { status: None, headers: vec![h("X", "2")], body: None };
    let r = a.then(b);
    assert_eq!(r.headers, vec![h("X", "1"), h("X", "2")]);
}

fn part(status: Option<HttpStatusCode>, name: &str, body: Option<&str>) -> ServerResponse {
    ServerResponse { status, headers: vec![h(name, "v")], body: body.map(|b| b.as_bytes().to_vec()) }
}

#[test]
fn then_chains_fold_either_way() {
    let left = part(Some(HttpStatusCode::Okay), "A", None)
        .then(part(None, "B", None))
        .then(part(Some(HttpStatusCode::Gone), "C", Some("c")));
    let right = part(Some(HttpStatusCode::Okay), "A", None)
        .then(part(None, "B", None).then(part(Some(HttpStatusCode::Gone), "C", Some("c"))));
    for r in [left, right] {
        assert_eq!(r.status, Some(HttpStatusCode::Gone));
        assert_eq!(r.headers, vec![h("A", "v"), h("B", "v"), h("C", "v")]);
        assert_eq!(r.body, Some(b"c".to_vec()));
    }
}

#[test]
fn builder_appends_headers_in_order() {
    let r = ServerResponseBuilder::new()
        .with_header("X".to_string(), "1".to_string())
        .with_header("Y".to_string(), "2".to_string())
        .with_header("X".to_string(), "3".to_string())
        .end();
    assert_eq!(r.headers, vec![h("X", "1"), h("Y", "2"), h("X", "3")]);
    assert_eq!(r.status, None);
    assert_eq!(r.body, None);
}

#[test]
fn builder_status_is_overwritten() {
    let r = ServerResponseBuilder::default()
        .with_status(HttpStatusCode::Okay)
        .with_status(HttpStatusCode::InternalServerError)
        .end();
    assert_eq!(r.status, Some(HttpStatusCode::InternalServerError));
}

#[test]
fn builder_body_bytes_and_str() {
    let r = ServerResponseBuilder::new().body(vec![0, 159, 255]);
    assert_eq!(r.body, Some(vec![0, 159, 255]));
    let r = ServerResponseBuilder::new().body_str("héllo");
    assert_eq!(r.body, Some("héllo".as_bytes().to_vec()));
    let r = ServerResponseBuilder::new().body_str("");
    assert_eq!(r.body, Some(vec![]));
}

#[test]
fn body_json_appends_content_type_after_other_headers() {
    let mut m = BTreeMap::new();
    m.insert("a".to_string(), 1i64);
    let r = ServerResponseBuilder::new()
        .with_status(HttpStatusCode::Created)
        .with_header("X-A".to_string(), "1".to_string())
        .body_json(&m)
        .unwrap();
    assert_eq!(r.status, Some(HttpStatusCode::Created));
    assert_eq!(r.headers, vec![h("X-A", "1"), json_header()]);
    assert_eq!(r.body, Some(b"{\"a\":1}".to_vec()));
}

#[test]
fn body_json_fails_on_unencodable_value() {
    let mut m: BTreeMap<Vec<u8>, i32> = BTreeMap::new();
    m.insert(vec![1, 2], 3);
    let r = ServerResponseBuilder::new().body_json(&m);
    assert!(r.is_err());
}

#[test]
fn body_json_encoded_passes_error_through() {
    let err = serde_json::from_slice::<i32>(b"{").unwrap_err();
    let msg = err.to_string();
    let r = ServerResponseBuilder::new().body_json_encoded(Err(err));
    assert_eq!(r.err().map(|e| e.to_string()), Some(msg));
}

#[test]
fn body_json_encoded_sets_header_and_body() {
    let r = ServerResponseBuilder::new().body_json_encoded(Ok(b"[1]".to_vec())).unwrap();
    assert_eq!(r.headers, vec![json_header()]);
    assert_eq!(r.body, Some(b"[1]".to_vec()));
    assert_eq!(r.status, None);
}
