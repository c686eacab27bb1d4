use elastiql::bulk::{Action, ErrResponse, Item, Response};
use elastiql::json::Json;

fn from_value(v: &serde_json::Value) -> Json {
    match v {
        serde_json::Value::Null => Json::Null,
        serde_json::Value::Bool(b) => Json::Bool(*b),
        serde_json::Value::Number(n) => Json::Number(n.to_string()),
        serde_json::Value::String(s) => Json::Str(s.clone()),
        serde_json::Value::Array(a) => Json::Array(a.iter().map(from_value).collect()),
        serde_json::Value::Object(m) => {
            Json::Object(m.iter().map(|(k, v)| (k.clone(), from_value(v))).collect())
        }
    }
}

fn parse(text: &str) -> Json {
    from_value(&serde_json::from_str::<serde_json::Value>(text).unwrap())
}

const ERROR: &str = r#"{
    "type": "index_not_found_exception",
    "reason": "no such index [x]",
    "index": "x",
    "index_uuid": "_na_",
    "root_cause": [
        { "type": "index_not_found_exception", "reason": "no such index [x]", "index": "x", "index_uuid": "_na_" }
    ]
}"#;

#[test]
fn error_envelope_decodes_with_causes() {
    let e = ErrResponse::from_json(&parse(ERROR)).unwrap();
    assert_eq!(e.ty, "index_not_found_exception");
    assert_eq!(e.index, "x");
    assert_eq!(e.root_cause.len(), 1);
    assert!(e.root_cause[0].root_cause.is_empty());
}

#[test]
fn error_envelope_requires_reason() {
    let j = parse(r#"{ "type": "t", "index": "x", "index_uuid": "u" }"#);
    match ErrResponse::from_json(&j) {
        Err(elastiql::error::DecodeError::MalformedLeaf { missing, .. }) => assert_eq!(missing, "reason"),
        other => panic!("unexpected {:?}", other),
    }
}

#[test]
fn bulk_response_decodes_each_action() {
    let text = format!(
        r#"{{
            "took": 30,
            "errors": true,
            "items": [
                {{ "index": {{ "_id": "1", "_index": "test", "get": {{ "_source": {{ "a": 1 }} }} }} }},
                {{ "delete": {{ "_id": "2", "_index": "test" }} }},
                {{ "create": {{ "error": {}, "status": 404 }} }}
            ]
        }}"#,
        ERROR
    );
    let r = Response::from_json(&parse(&text)).unwrap();
    assert_eq!(r.took, 30);
    assert!(r.errors);
    assert_eq!(r.items.len(), 3);
    match &r.items[0] {
        Action::Index(Item::Success(ok)) => {
            assert_eq!(ok.id, "1");
            assert!(ok.get.as_ref().unwrap().source.is_some());
        }
        other => panic!("unexpected {:?}", other),
    }
    assert!(matches!(&r.items[1], Action::Delete(Item::Success(ok)) if ok.get.is_none()));
    match &r.items[2] {
        Action::Create(Item::Failure { error, status }) => {
            assert_eq!(*status, 404);
            assert_eq!(error.reason, "no such index [x]");
        }
        other => panic!("unexpected {:?}", other),
    }
}

#[test]
fn bulk_rejects_unknown_operation_and_bad_status() {
    let j = parse(r#"{ "took": 1, "errors": false, "items": [ { "upsert": { "_id": "1", "_index": "t" } } ] }"#);
    assert!(matches!(Response::from_json(&j), Err(elastiql::error::DecodeError::InvalidEnum { .. })));
    let text = format!(r#"{{ "took": 1, "errors": true, "items": [ {{ "index": {{ "error": {}, "status": 70000 }} }} ] }}"#, ERROR);
    assert!(Response::from_json(&parse(&text)).is_err());
    let j = parse(r#"{ "errors": false, "items": [] }"#);
    assert!(Response::from_json(&j).is_err());
}
