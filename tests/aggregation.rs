use elastiql::aggregation::{
    Aggregation, AggregationKind, InnerAggregation, MetricKind, TermsAggregation,
};
use elastiql::json::Json;
use elastiql::query::{CompoundQuery, Query, TermsQuery};
use elastiql::response::{split_ty_and_name, ComputedResult, Response, Ty};

fn from_value(v: &serde_json::Value) -> Json {
    match v {
        serde_json::Value::Null => Json::Null,
        serde_json::Value::Bool(b) => Json::Bool(*b),
        serde_json::Value::Number(n) => Json::Number(n.to_string()),
        serde_json::Value::String(s) => Json::Str(s.clone()),
        serde_json::Value::Array(a) => Json::Array(a.iter().map(from_value).collect()),
        serde_json::Value::Object(m) => {
            Json::Object(m.iter().map(|(k, v)| (k.clone(), from_value(v))).collect())
        }
    }
}

fn to_value(j: &Json) -> serde_json::Value {
    match j {
        Json::Null => serde_json::Value::Null,
        Json::Bool(b) => serde_json::Value::Bool(*b),
        Json::Number(t) => serde_json::from_str(t).unwrap(),
        Json::Str(s) => serde_json::Value::String(s.clone()),
        Json::Array(a) => serde_json::Value::Array(a.iter().map(to_value).collect()),
        Json::Object(m) => {
            let mut out = serde_json::Map::new();
            for (k, v) in m {
                out.insert(k.clone(), to_value(v));
            }
            serde_json::Value::Object(out)
        }
    }
}

fn parse(text: &str) -> Json {
    from_value(&serde_json::from_str::<serde_json::Value>(text).unwrap())
}

fn metric(name: &str, kind: MetricKind, field: &str) -> Aggregation {
    Aggregation {
        name: name.to_string(),
        kind: Some(AggregationKind::Metric(
            kind,
            InnerAggregation { field: Some(field.to_string()), script: None, missing: None },
        )),
        metadata: None,
        aggregations: vec![],
    }
}

fn terms(name: &str, field: &str, aggregations: Vec<Aggregation>) -> Aggregation {
    Aggregation {
        name: name.to_string(),
        kind: Some(AggregationKind::Terms(TermsAggregation {
            field: Some(field.to_string()),
            script: None,
            size: None,
            missing: None,
        })),
        metadata: None,
        aggregations,
    }
}

fn nested_request() -> Aggregation {
    let mut filter = CompoundQuery { boolean: None };
    filter.push(Query::Terms(TermsQuery::new(
        "agents",
        vec!["123".to_string(), "456".to_string(), "789".to_string()],
    )));
    Aggregation {
        name: "SPECIFIC_AGENTS".to_string(),
        kind: Some(AggregationKind::Filter(filter)),
        metadata: None,
        aggregations: vec![terms(
            "PER_AGENT",
            "agents",
            vec![terms(
                "PER_TYPE",
                "metadata.type",
                vec![
                    metric("AVG_OF_DURATION", MetricKind::Avg, "duration"),
                    metric("AVG_OF_SILENCE_DURATION", MetricKind::Avg, "silenceDuration"),
                    metric("COUNT_OF_CALLS", MetricKind::ValueCount, "id"),
                ],
            )],
        )],
    }
}

fn values(r: &ComputedResult) -> Vec<f64> {
    r.values.iter().map(|t| t.parse::<f64>().unwrap()).collect()
}

fn find<'a>(resp: &'a Response, name: &str) -> Option<&'a ComputedResult> {
    resp.aggregations.iter().find(|r| r.name == name)
}

#[test]
fn serialization_deserialization_simple() {
    let input = parse(r#"{ "aggregations": { "agg": { "value_count": { "field": "id" } } } }"#);
    assert!(Aggregation::from_json(&input).is_ok());

    let result = parse(r#"{ "aggregations": { "agg": { "value": 123456789 } } }"#);
    let resp = Response::from_json(&result).unwrap();
    assert_eq!(values(&resp.aggregations[0]), vec![123456789.0]);
}

#[test]
fn request_simple_smoke() {
    let input = parse(r#"{ "aggs": { "AVG_AGG": { "avg": { "field": "duration" } } } }"#);
    let a = Aggregation::from_json(&input).unwrap();
    assert_eq!(a.name, "aggs");
    assert!(a.kind.is_none());
}

#[test]
fn aggregation_request_encode_with_nesting() {
    let expected: serde_json::Value = serde_json::from_str(
        r#"{
            "SPECIFIC_AGENTS": {
                "filter": { "bool": { "filter": [{ "terms": { "agents": ["123", "456", "789"] } }] } },
                "aggs": {
                    "PER_AGENT": {
                        "terms": { "field": "agents" },
                        "aggs": {
                            "PER_TYPE": {
                                "terms": { "field": "metadata.type" },
                                "aggs": {
                                    "AVG_OF_DURATION": { "avg": { "field": "duration" } },
                                    "AVG_OF_SILENCE_DURATION": { "avg": { "field": "silenceDuration" } },
                                    "COUNT_OF_CALLS": { "value_count": { "field": "id" } }
                                }
                            }
                        }
                    }
                }
            }
        }"#,
    )
    .unwrap();
    let j = nested_request().to_json();
    assert_eq!(to_value(&j), expected);
}

#[test]
fn aggregation_request_round_trip() {
    let j = nested_request().to_json();
    let back = Aggregation::from_json(&j).unwrap();
    assert_eq!(to_value(&back.to_json()), to_value(&j));
    assert_eq!(back.aggregations.len(), 1);
    assert_eq!(back.aggregations[0].aggregations[0].aggregations.len(), 3);
}

#[test]
fn simple_with_metadata_request() {
    let mut a = terms("hasMetadata", "id", vec![]);
    a.metadata = Some(parse(r#"{"test": true}"#));
    let expected: serde_json::Value =
        serde_json::from_str(r#"{ "hasMetadata": { "terms": { "field": "id" }, "meta": { "test": true } } }"#)
            .unwrap();
    assert_eq!(to_value(&a.to_json()), expected);
    let back = Aggregation::from_json(&a.to_json()).unwrap();
    let meta: serde_json::Value = serde_json::from_str(r#"{"test": true}"#).unwrap();
    assert_eq!(to_value(back.metadata.as_ref().unwrap()), meta);
}

#[test]
fn two_kinds_in_one_body_is_malformed() {
    let j = parse(r#"{ "x": { "avg": { "field": "a" }, "sum": { "field": "b" } } }"#);
    assert!(Aggregation::from_json(&j).is_err());
}

#[test]
fn flatten_without_nest() {
    let doc = parse(r#"{"aggregations":{"avg#AVG_DURATION":{"value":353964.3125}}}"#);
    let resp = Response::from_json(&doc).unwrap();
    assert_eq!(resp.aggregations.len(), 1);
    let r = &resp.aggregations[0];
    assert_eq!(r.parent, None);
    assert_eq!(r.name, "AVG_DURATION");
    assert_eq!(r.type_, Ty::Avg);
    assert!(r.fields.is_empty());
    assert_eq!(values(r), vec![353964.3125]);
}

fn nested_response() -> Json {
    parse(
        r#"{
            "took": 2,
            "timed_out": false,
            "hits": { "total": { "value": 20, "relation": "eq" }, "max_score": null, "hits": [] },
            "aggregations": {
                "PER_AGENT": {
                    "doc_count_error_upper_bound": 0,
                    "sum_other_doc_count": 0,
                    "buckets": [
                        { "key": "dallin", "doc_count": 7, "avg#AVG_DURATION": { "value": 462430.123 } },
                        { "key": "will", "doc_count": 7, "avg#AVG_DURATION": { "value": 346602 } }
                    ]
                }
            }
        }"#,
    )
}

#[test]
fn flatten_with_nested_buckets() {
    let resp = Response::from_json(&nested_response()).unwrap();
    assert_eq!(resp.aggregations.len(), 1);
    let r = &resp.aggregations[0];
    assert_eq!(r.parent, None);
    assert_eq!(r.name, "AVG_DURATION");
    assert_eq!(r.type_, Ty::Avg);
    assert_eq!(r.fields, vec!["dallin".to_string(), "will".to_string()]);
    assert_eq!(values(r), vec![462430.123, 346602.0]);
}

#[test]
fn skip_metadata_suppresses_emission_not_traversal() {
    let doc = parse(
        r#"{
            "aggregations": {
                "PER_AGENT": {
                    "doc_count_error_upper_bound": 0,
                    "sum_other_doc_count": 0,
                    "buckets": [
                        {
                            "key": "dallin",
                            "doc_count": 7,
                            "sum#SUM_DURATION": { "meta": { "_skip": true }, "value": 3237014.0 },
                            "PERCENT_DEAD_AIR": { "value": 0.009 }
                        },
                        {
                            "key": "will",
                            "doc_count": 7,
                            "sum#SUM_DURATION": { "metadata": { "_skip": true }, "value": 2426214.0 },
                            "PERCENT_DEAD_AIR": { "value": 0.017 }
                        }
                    ]
                }
            }
        }"#,
    );
    let resp = Response::from_json(&doc).unwrap();
    assert_eq!(resp.aggregations.len(), 1);
    assert!(find(&resp, "SUM_DURATION").is_none());
    let r = find(&resp, "PERCENT_DEAD_AIR").unwrap();
    assert_eq!(r.type_, Ty::Unknown);
    assert_eq!(r.fields, vec!["dallin".to_string(), "will".to_string()]);
    assert_eq!(values(r), vec![0.009, 0.017]);
}

#[test]
fn skipped_node_children_are_still_walked() {
    let doc = parse(
        r#"{ "aggregations": { "sum#OUTER": { "meta": { "_skip": true }, "value": 1, "avg#INNER": { "value": 2 } } } }"#,
    );
    let resp = Response::from_json(&doc).unwrap();
    assert!(find(&resp, "OUTER").is_none());
    let inner = find(&resp, "INNER").unwrap();
    assert_eq!(values(inner), vec![2.0]);
}

#[test]
fn flatten_grandchildren_carry_parent_key() {
    let doc = parse(
        r#"{
            "aggregations": {
                "PER_AGENT": {
                    "buckets": [
                        {
                            "key": "dallin",
                            "doc_count": 3,
                            "PER_TYPE": {
                                "buckets": [
                                    { "key": "call", "doc_count": 2, "avg#AVG": { "value": 5 } }
                                ]
                            }
                        }
                    ]
                }
            }
        }"#,
    );
    let resp = Response::from_json(&doc).unwrap();
    let r = find(&resp, "AVG").unwrap();
    assert_eq!(r.parent.as_deref(), Some("dallin"));
    assert_eq!(r.fields, vec!["call".to_string()]);
    assert_eq!(values(r), vec![5.0]);
    for r in &resp.aggregations {
        assert!(r.fields.len() == r.values.len() || (r.fields.is_empty() && r.values.len() == 1));
    }
}

#[test]
fn leaf_buckets_use_doc_count() {
    let doc = parse(
        r#"{ "aggregations": { "sterms#TYPES": { "buckets": [ { "key": "a", "doc_count": 4 }, { "key": "b", "doc_count": 6 } ] } } }"#,
    );
    let resp = Response::from_json(&doc).unwrap();
    let r = find(&resp, "TYPES").unwrap();
    assert_eq!(r.type_, Ty::SignificantTerms);
    assert_eq!(r.fields, vec!["a".to_string(), "b".to_string()]);
    assert_eq!(values(r), vec![4.0, 6.0]);
    assert_eq!(r.fields.len(), r.values.len());
}

#[test]
fn flatten_is_deterministic() {
    let a = Response::from_json(&nested_response()).unwrap();
    let b = Response::from_json(&nested_response()).unwrap();
    assert_eq!(a.aggregations.len(), b.aggregations.len());
    for (x, y) in a.aggregations.iter().zip(b.aggregations.iter()) {
        assert_eq!(x.name, y.name);
        assert_eq!(x.parent, y.parent);
        assert_eq!(x.fields, y.fields);
        assert_eq!(x.values, y.values);
        assert_eq!(x.type_, y.type_);
    }
}

#[test]
fn missing_aggregations_is_malformed_response() {
    let doc = parse(r#"{ "took": 1 }"#);
    assert!(matches!(
        Response::from_json(&doc),
        Err(elastiql::error::DecodeError::MalformedResponse { .. })
    ));
}

#[test]
fn unknown_type_tag_is_unknown() {
    let (ty, name) = split_ty_and_name("frobnicate#X");
    assert_eq!(ty, Ty::Unknown);
    assert_eq!(name, "X");
    let (ty, name) = split_ty_and_name("PLAIN");
    assert_eq!(ty, Ty::Unknown);
    assert_eq!(name, "PLAIN");
}

#[test]
fn multiple_hash_parts_join_name() {
    let (ty, name) = split_ty_and_name("avg#A#B#C");
    assert_eq!(ty, Ty::Avg);
    assert_eq!(name, "ABC");
}

#[test]
fn type_tag_is_case_insensitive() {
    assert_eq!(Ty::from_tag("VALUE_COUNT"), Ty::ValueCount);
    assert_eq!(Ty::from_lowercase("date_histogram"), Ty::DateHistogram);
    assert_eq!(Ty::from_lowercase("DATE_HISTOGRAM"), Ty::Unknown);
}

#[test]
fn aggs_alias_is_not_a_response() {
    let doc = parse(r#"{ "aggs": { "avg#A": { "value": 1 } } }"#);
    assert!(matches!(
        Response::from_json(&doc),
        Err(elastiql::error::DecodeError::MalformedResponse { .. })
    ));
}

#[test]
fn last_key_member_wins() {
    // The document is built by hand so that member order is kept.
    let bucket = |members: Vec<(&str, Json)>| {
        Json::Object(members.into_iter().map(|(k, v)| (k.to_string(), v)).collect())
    };
    let doc = bucket(vec![(
        "aggregations",
        bucket(vec![(
            "sterms#T",
            bucket(vec![(
                "buckets",
                Json::Array(vec![
                    bucket(vec![
                        ("key_as_string", Json::Str("a".to_string())),
                        ("key", Json::Str("b".to_string())),
                        ("doc_count", Json::Number("1".to_string())),
                    ]),
                    bucket(vec![
                        ("key", Json::Number("1543622400000".to_string())),
                        ("key_as_string", Json::Str("2018-12-01".to_string())),
                        ("doc_count", Json::Number("2".to_string())),
                    ]),
                ]),
            )]),
        )]),
    )]);
    let resp = Response::from_json(&doc).unwrap();
    let r = find(&resp, "T").unwrap();
    assert_eq!(r.fields, vec!["b".to_string(), "2018-12-01".to_string()]);
    assert_eq!(values(r), vec![1.0, 2.0]);
}

#[test]
fn unkeyed_siblings_share_a_result() {
    let doc = parse(r#"{"aggregations":{"avg#X":{"value":1},"sum#X":{"value":2}}}"#);
    let resp = Response::from_json(&doc).unwrap();
    assert_eq!(resp.aggregations.len(), 1);
    let r = &resp.aggregations[0];
    assert_eq!(r.type_, Ty::Avg);
    assert!(r.fields.is_empty());
    assert_eq!(values(r), vec![1.0, 2.0]);
}

#[test]
fn ignored_members_do_not_change_results() {
    let a = Response::from_json(&parse(
        r#"{"aggregations":{"PER":{"buckets":[{"key":"x","doc_count":3}]}}}"#,
    ))
    .unwrap();
    let b = Response::from_json(&parse(
        r#"{"aggregations":{"PER":{"doc_count_error_upper_bound":0,"sum_other_doc_count":0,"interval":"1d","from":1543622400000.0,"buckets":[{"key":"x","doc_count":3,"to_as_string":"2018"}]}}}"#,
    ))
    .unwrap();
    assert_eq!(a.aggregations.len(), b.aggregations.len());
    assert_eq!(a.aggregations[0].fields, b.aggregations[0].fields);
    assert_eq!(a.aggregations[0].values, b.aggregations[0].values);
}

#[test]
fn weighted_range_histogram_kinds_round_trip() {
    for text in [
        r#"{"W":{"weighted_avg":{"value":{"field":"grade"},"weight":{"field":"weight","missing":2},"format":"0.0"}}}"#,
        r#"{"R":{"range":{"field":"price","script":{"source":"doc['price'].value"},"ranges":[{"to":100},{"from":100,"to":200.5},{"from":200.5}]}}}"#,
        r#"{"H":{"histogram":{"field":"price","interval":50,"min_doc_count":1,"extended_bounds":{"min":0,"max":500}}}}"#,
        r#"{"T":{"terms":{"field":"genre","script":{"source":"x","params":{"a":1}},"size":10}}}"#,
    ] {
        let j = parse(text);
        let a = Aggregation::from_json(&j).unwrap();
        assert_eq!(to_value(&a.to_json()), to_value(&j), "{}", text);
    }
    let j = parse(r#"{"W":{"weighted_avg":{"value":{"field":"grade"}}}}"#);
    assert!(Aggregation::from_json(&j).is_err());
    let j = parse(r#"{"H":{"histogram":{"field":"p","hard_bounds":{"min":0}}}}"#);
    assert!(Aggregation::from_json(&j).is_err());
}
