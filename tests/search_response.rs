use elastiql::json::Json;
use elastiql::search::{CountRelation, Response};
use elastiql::sorted_value::SortedValue;

fn from_value(v: &serde_json::Value) -> Json {
    match v {
        serde_json::Value::Null => Json::Null,
        serde_json::Value::Bool(b) => Json::Bool(*b),
        serde_json::Value::Number(n) => Json::Number(n.to_string()),
        serde_json::Value::String(s) => Json::Str(s.clone()),
        serde_json::Value::Array(a) => Json::Array(a.iter().map(from_value).collect()),
        serde_json::Value::Object(m) => {
            Json::Object(m.iter().map(|(k, v)| (k.clone(), from_value(v))).collect())
        }
    }
}

fn parse(text: &str) -> Json {
    from_value(&serde_json::from_str::<serde_json::Value>(text).unwrap())
}

#[test]
fn ok_response_decodes_hits() {
    let j = parse(
        r#"{
            "took": 2,
            "timed_out": false,
            "hits": {
                "total": { "value": 1, "relation": "eq" },
                "max_score": null,
                "hits": [
                    {
                        "_id": "test_user_id",
                        "_index": "users",
                        "_source": { "id": "test_user_id", "name": "Will" },
                        "_seq_no": 3,
                        "_score": 1.5,
                        "highlight": { "name": ["<em>Will</em>"] },
                        "sort": [101, "x", null]
                    }
                ]
            }
        }"#,
    );
    match Response::from_json(&j).unwrap() {
        Response::Success(ok) => {
            assert_eq!(ok.took, 2);
            assert!(!ok.timed_out);
            assert_eq!(ok.hits.total.value, 1);
            assert_eq!(ok.hits.total.relation, CountRelation::EqualTo);
            assert!(ok.hits.max_score.is_none());
            let h = &ok.hits.hits[0];
            assert_eq!(h.id, "test_user_id");
            assert_eq!(h.seq_no, Some(3));
            assert!(h.version.is_none());
            assert_eq!(h.score.as_deref().map(|t| t.parse::<f64>().unwrap()), Some(1.5));
            assert_eq!(h.highlight, vec![("name".to_string(), vec!["<em>Will</em>".to_string()])]);
            assert!(matches!(h.sort[0], SortedValue::UInt(101)));
            assert!(matches!(h.sort[2], SortedValue::Null));
            assert!(ok.hits.first_doc().is_some());
        }
        other => panic!("unexpected {:?}", other),
    }
}

#[test]
fn err_response_decodes() {
    let j = parse(
        r#"{
            "error": {
                "type": "index_not_found_exception",
                "reason": "no such index [users]",
                "index": "users",
                "index_uuid": "_na_",
                "root_cause": []
            },
            "status": 404
        }"#,
    );
    match Response::from_json(&j).unwrap() {
        Response::Failure { error, status } => {
            assert_eq!(status, 404);
            assert_eq!(error.ty, "index_not_found_exception");
        }
        other => panic!("unexpected {:?}", other),
    }
}

#[test]
fn hit_with_negative_sort_value_is_rejected() {
    let j = parse(
        r#"{ "took": 1, "timed_out": false, "hits": { "total": { "value": 1, "relation": "gte" }, "hits": [
            { "_id": "1", "_index": "i", "_source": {}, "sort": [-5] } ] } }"#,
    );
    assert!(Response::from_json(&j).is_err());
    let j = parse(r#"{ "took": 1, "timed_out": false, "hits": { "total": { "value": 0, "relation": "eq" }, "hits": [] } }"#);
    match Response::from_json(&j).unwrap() {
        Response::Success(ok) => assert!(ok.hits.first_doc().is_none()),
        other => panic!("unexpected {:?}", other),
    }
}
