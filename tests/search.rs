use elastiql::error::DecodeError;
use elastiql::json::Json;
use elastiql::query::{
    BooleanQuery, CompoundQuery, ExistsQuery, MatchQuery, PrefixQuery, Query, RangeQuery,
    RegexpQuery, TermQuery, TermsQuery,
};
use elastiql::sort::{Sort, SortMode, SortOrder};
use elastiql::sorted_value::SortedValue;

fn from_value(v: &serde_json::Value) -> Json {
    match v {
        serde_json::Value::Null => Json::Null,
        serde_json::Value::Bool(b) => Json::Bool(*b),
        serde_json::Value::Number(n) => Json::Number(n.to_string()),
        serde_json::Value::String(s) => Json::Str(s.clone()),
        serde_json::Value::Array(a) => Json::Array(a.iter().map(from_value).collect()),
        serde_json::Value::Object(m) => {
            Json::Object(m.iter().map(|(k, v)| (k.clone(), from_value(v))).collect())
        }
    }
}

fn to_value(j: &Json) -> serde_json::Value {
    match j {
        Json::Null => serde_json::Value::Null,
        Json::Bool(b) => serde_json::Value::Bool(*b),
        Json::Number(t) => serde_json::from_str(t).unwrap(),
        Json::Str(s) => serde_json::Value::String(s.clone()),
        Json::Array(a) => serde_json::Value::Array(a.iter().map(to_value).collect()),
        Json::Object(m) => {
            let mut out = serde_json::Map::new();
            for (k, v) in m {
                out.insert(k.clone(), to_value(v));
            }
            serde_json::Value::Object(out)
        }
    }
}

/// The document that `text` holds, or `None` when it is not JSON.
fn parse(text: &str) -> Option<Json> {
    serde_json::from_str::<serde_json::Value>(text).ok().map(|v| from_value(&v))
}

fn value(text: &str) -> serde_json::Value {
    serde_json::from_str(text).unwrap()
}

fn rejects<T>(text: &str, decode: fn(&Json) -> Result<T, DecodeError>) -> bool {
    match parse(text) {
        None => true,
        Some(j) => decode(&j).is_err(),
    }
}

// ------------------------------------------------------------------ sort

#[test]
fn can_serialize_default() {
    let f = Sort::default();
    assert_eq!(to_value(&f.to_json()), value(r#"{ "id": { "unmapped_type": "keyword" } }"#));
}

#[test]
fn can_serialize_with_order() {
    let asc = Sort::new("id", Some(SortOrder::Asc), None);
    let desc = Sort::new("id", Some(SortOrder::Desc), None);
    assert_eq!(
        to_value(&asc.to_json()),
        value(r#"{ "id": { "order": "asc", "unmapped_type": "keyword" } }"#)
    );
    assert_eq!(
        to_value(&desc.to_json()),
        value(r#"{ "id": { "order": "desc", "unmapped_type": "keyword" } }"#)
    );
}

#[test]
fn can_serialize_with_mode() {
    let modes = [
        (SortMode::Min, "min"),
        (SortMode::Max, "max"),
        (SortMode::Sum, "sum"),
        (SortMode::Avg, "avg"),
        (SortMode::Median, "median"),
    ];
    for (m, name) in modes {
        let s = Sort::new("id", None, Some(m));
        let expected = format!(r#"{{ "id": {{ "mode": "{}", "unmapped_type": "keyword" }} }}"#, name);
        assert_eq!(to_value(&s.to_json()), value(&expected));
    }
}

#[test]
fn can_serialize_with_everything() {
    let sort = Sort::new("id", Some(SortOrder::Desc), Some(SortMode::Max));
    assert_eq!(
        to_value(&sort.to_json()),
        value(r#"{ "id": { "mode": "max", "order": "desc", "unmapped_type": "keyword" } }"#)
    );
}

#[test]
fn can_serialize_with_special_field() {
    let sort = Sort::new("_score", None, None);
    assert_eq!(to_value(&sort.to_json()), value(r#"{ "_score": { } }"#));

    let sort = Sort::new("_key", None, Some(SortMode::Avg));
    assert_eq!(to_value(&sort.to_json()), value(r#"{ "_key": { "mode": "avg" } }"#));

    let sort = Sort::new("_count", None, None);
    assert_eq!(to_value(&sort.to_json()), value(r#"{ "_count": { } }"#));
}

#[test]
fn can_deserialize_with_everything() {
    let j = parse(r#"{ "id": { "mode": "max", "order": "desc", "unmapped_type": "keyword" } }"#)
        .unwrap();
    let actual = Sort::from_json(&j).unwrap();
    assert_eq!(actual.field, "id");
    assert_eq!(actual.mode, Some(SortMode::Max));
    assert_eq!(actual.order, Some(SortOrder::Desc));
}

#[test]
fn sort_round_trip() {
    let s = Sort::new("created_at", Some(SortOrder::Asc), Some(SortMode::Median));
    let back = Sort::from_json(&s.to_json()).unwrap();
    assert_eq!(back.field, "created_at");
    assert_eq!(back.order, Some(SortOrder::Asc));
    assert_eq!(back.mode, Some(SortMode::Median));
}

#[test]
fn sort_unknown_order_is_invalid_enum() {
    let j = parse(r#"{ "id": { "order": "sideways" } }"#).unwrap();
    match Sort::from_json(&j) {
        Err(DecodeError::InvalidEnum { name, value }) => {
            assert_eq!(name, "order");
            assert_eq!(value, "sideways");
        }
        other => panic!("unexpected {:?}", other),
    }
}

// ------------------------------------------------------------------ term

#[test]
fn term_deserialize_invalid_boost_is_err() {
    for j in [
        r#"{ "user": { "value": "Kimchy", "boost": "nan" } }"#,
        r#"{ "user": { "value": "Kimchy", "boost": "asdf" } }"#,
        r#"{ "user": { "value": "Kimchy", "boost": "1.x" } }"#,
        r#"{ "user": { "value": "Kimchy", "boost": "x1" } }"#,
        r#"{ "user": { "value": "Kimchy", "boost": 2.0, "boost": "x1" } }"#,
    ] {
        assert!(rejects(j, TermQuery::from_json), "{}", j);
    }
}

#[test]
fn term_deserialize_missing_values_is_err() {
    for j in [r#"{ "user": "missing" }"#, r#"{ "user": null }"#, r#"{ "user" }"#] {
        assert!(rejects(j, TermQuery::from_json), "{}", j);
    }
}

#[test]
fn term_deserialize_invalid_values_is_err() {
    for j in [
        r#"{ "user": { "value": null } }"#,
        r#"{ "user": { "value": 1.1 } }"#,
        r#"{ "user": { "value": 1 } }"#,
        r#"{ "user": { "value": 999 } }"#,
        r#"{ "user": { "value": [null] } }"#,
        r#"{ "user": { "value": ["Kimchy"] } }"#,
        r#"{ "user": { "value": ["Kimchy", "elasticsearch"] } }"#,
        r#"{ "user": { "value": [1.1] } }"#,
        r#"{ "user": { "value": [1] } }"#,
        r#"{ "user": { "value": [999] } }"#,
    ] {
        assert!(rejects(j, TermQuery::from_json), "{}", j);
    }
}

#[test]
fn term_numeric_value_is_malformed_leaf() {
    let j = parse(r#"{ "user": { "value": 1 } }"#).unwrap();
    match TermQuery::from_json(&j) {
        Err(DecodeError::MalformedLeaf { field, missing }) => {
            assert_eq!(field, "user");
            assert_eq!(missing, "value");
        }
        other => panic!("unexpected {:?}", other),
    }
}

#[test]
fn term_serialize_with_boost() {
    let t = TermQuery { field: "user".to_string(), value: "Kimchy".to_string(), boost: Some("1.1".to_string()) };
    let j = t.to_json();
    assert_eq!(to_value(&j), value(r#"{ "user": { "value": "Kimchy", "boost": 1.1 } }"#));
    let back = TermQuery::from_json(&j).unwrap();
    assert_eq!(back.boost.as_deref(), Some("1.1"));
}

#[test]
fn term_leaf_key_is_field() {
    let j = TermQuery::new("userProfile", "Kimchy").to_json();
    match j {
        Json::Object(ms) => {
            assert_eq!(ms.len(), 1);
            assert_eq!(ms[0].0, "userProfile");
        }
        other => panic!("unexpected {:?}", other),
    }
}

// ------------------------------------------------------------------ terms

#[test]
fn terms_deserialize_invalid_boost_is_err() {
    for j in [
        r#"{ "user": { "value": "Kimchy", "boost": "nan" } }"#,
        r#"{ "user": { "value": "Kimchy", "boost": "asdf" } }"#,
        r#"{ "user": { "value": "Kimchy", "boost": "1.x" } }"#,
        r#"{ "user": { "value": "Kimchy", "boost": "x1" } }"#,
        r#"{ "user": { "value": "Kimchy", "boost": 2.0, "boost": "x1" } }"#,
        r#"{ "user": ["x"], "boost": null }"#,
    ] {
        assert!(rejects(j, TermsQuery::from_json), "{}", j);
    }
}

#[test]
fn terms_deserialize_missing_values_is_err() {
    for j in [r#"{ "user": "missing" }"#, r#"{ "user": null }"#, r#"{ "user" }"#] {
        assert!(rejects(j, TermsQuery::from_json), "{}", j);
    }
}

#[test]
fn terms_deserialize_invalid_values_is_err() {
    for j in [
        r#"{ "user": { "value": 1.1 } }"#,
        r#"{ "user": { "value": 1 } }"#,
        r#"{ "user": { "value": 999 } }"#,
        r#"{ "user": { "values": [null] } }"#,
        r#"{ "user": { "values": [1.1] } }"#,
        r#"{ "user": { "values": [1] } }"#,
        r#"{ "user": { "values": 999 } }"#,
        r#"{ "user": { "values": null } }"#,
    ] {
        assert!(rejects(j, TermsQuery::from_json), "{}", j);
    }
}

#[test]
fn terms_boost_is_a_sibling() {
    let t = TermsQuery {
        field: "user".to_string(),
        values: vec!["kimchy".to_string(), "elkbee".to_string()],
        boost: Some("1.2".to_string()),
    };
    let j = t.to_json();
    assert_eq!(to_value(&j), value(r#"{ "user": ["kimchy", "elkbee"], "boost": 1.2 }"#));
    let back = TermsQuery::from_json(&j).unwrap();
    assert_eq!(back.field, "user");
    assert_eq!(back.values, vec!["kimchy".to_string(), "elkbee".to_string()]);
    assert_eq!(back.boost.as_deref(), Some("1.2"));
}

#[test]
fn terms_empty_values_are_permitted() {
    let j = parse(r#"{ "user": [] }"#).unwrap();
    let t = TermsQuery::from_json(&j).unwrap();
    assert!(t.values.is_empty());
}

// ------------------------------------------------------------------ range

#[test]
fn range_deserialize_invalid_boost_is_err() {
    for j in [
        r#"{ "age": { "gte": "10", "lte": "20", "boost": "nan" } }"#,
        r#"{ "age": { "gte": "10", "lte": "20", "boost": "asdf" } }"#,
        r#"{ "age": { "gte": "10", "lte": "20", "boost": "1.x" } }"#,
        r#"{ "age": { "gte": "10", "lte": "20", "boost": "x1" } }"#,
        r#"{ "age": { "gte": "10", "lte": "20", "boost": "2.0", "boost": "x1" } }"#,
    ] {
        assert!(rejects(j, RangeQuery::from_json), "test case: {}", j);
    }
}

#[test]
fn deserialize_missing_all_ranges_is_err() {
    for j in [r#"{ "age": "missing" }"#, r#"{ "age": null }"#, r#"{ "age" }"#] {
        assert!(rejects(j, RangeQuery::from_json), "test case: {}", j);
    }
}

#[test]
fn deserialize_invalid_ranges_is_err() {
    for j in [r#"{ "age": { "gt": 1.1 } }"#, r#"{ "age": { "gte": 1 } }"#, r#"{ "age": { "lt": 999 } }"#] {
        assert!(rejects(j, RangeQuery::from_json), "test case: {}", j);
    }
}

#[test]
fn range_without_bounds_is_malformed_leaf() {
    let j = parse(r#"{ "age": { "boost": 2.0 } }"#).unwrap();
    match RangeQuery::from_json(&j) {
        Err(DecodeError::MalformedLeaf { field, missing }) => {
            assert_eq!(field, "age");
            assert_eq!(missing, "gt");
        }
        other => panic!("unexpected {:?}", other),
    }
}

#[test]
fn range_serialize_and_back() {
    let r = RangeQuery {
        field: "age".to_string(),
        gt: None,
        gte: Some("10".to_string()),
        lt: None,
        lte: Some("20".to_string()),
        time_zone: None,
        boost: Some("2.0".to_string()),
    };
    let j = r.to_json();
    assert_eq!(to_value(&j), value(r#"{ "age": { "gte": "10", "lte": "20", "boost": 2.0 } }"#));
    let back = RangeQuery::from_json(&j).unwrap();
    assert_eq!(back.gte.as_deref(), Some("10"));
    assert_eq!(back.lte.as_deref(), Some("20"));
    assert!(back.gt.is_none() && back.lt.is_none() && back.time_zone.is_none());
}

// ------------------------------------------------------------------ regexp

#[test]
fn regexp_deserialize_missing_values_is_err() {
    for j in [r#"{ "user": "missing" }"#, r#"{ "user": null }"#, r#"{ "user" }"#, r#"{ "user": { "value": null } }"#] {
        assert!(rejects(j, RegexpQuery::from_json), "{}", j);
    }
}

#[test]
fn regexp_deserialize_invalid_values_is_err() {
    for j in [
        r#"{ "user": { "value": 1.1 } }"#,
        r#"{ "user": { "value": 1 } }"#,
        r#"{ "user": { "value": 999 } }"#,
        r#"{ "user": { "value": null } }"#,
    ] {
        assert!(rejects(j, RegexpQuery::from_json), "{}", j);
    }
}

#[test]
fn deserialize_invalid_flags_is_err() {
    for j in [
        r#"{ "user": { "flags": 1.1 } }"#,
        r#"{ "user": { "flags": 1 } }"#,
        r#"{ "user": { "flags": 999 } }"#,
        r#"{ "user": { "flags": null } }"#,
    ] {
        assert!(rejects(j, RegexpQuery::from_json), "{}", j);
    }
}

#[test]
fn regexp_round_trip() {
    let r = RegexpQuery { field: "user".to_string(), value: "k.*y".to_string(), flags: Some("ALL".to_string()) };
    let j = r.to_json();
    assert_eq!(to_value(&j), value(r#"{ "user": { "value": "k.*y", "flags": "ALL" } }"#));
    let back = RegexpQuery::from_json(&j).unwrap();
    assert_eq!(back.value, "k.*y");
    assert_eq!(back.flags.as_deref(), Some("ALL"));
}

// ------------------------------------------------------------------ prefix

#[test]
fn deserialize_invalid_case_insensitive_is_err() {
    for j in [
        r#"{ "user": { "value": "Kimchy", "case_insensitive": "nan" } }"#,
        r#"{ "user": { "value": "Kimchy", "case_insensitive": "asdf" } }"#,
        r#"{ "user": { "value": "Kimchy", "case_insensitive": "1.x" } }"#,
        r#"{ "user": { "value": "Kimchy", "case_insensitive": "x1" } }"#,
    ] {
        assert!(rejects(j, PrefixQuery::from_json), "{}", j);
    }
}

#[test]
fn prefix_deserialize_missing_values_is_err() {
    for j in [r#"{ "user": "missing" }"#, r#"{ "user": null }"#, r#"{ "user" }"#] {
        assert!(rejects(j, PrefixQuery::from_json), "{}", j);
    }
}

#[test]
fn prefix_deserialize_invalid_values_is_err() {
    for j in [
        r#"{ "user": { "value": null } }"#,
        r#"{ "user": { "value": 1.1 } }"#,
        r#"{ "user": { "value": 1 } }"#,
        r#"{ "user": { "value": 999 } }"#,
        r#"{ "user": { "value": [null] } }"#,
        r#"{ "user": { "value": ["Kimchy"] } }"#,
        r#"{ "user": { "value": ["Kimchy", "elasticsearch"] } }"#,
        r#"{ "user": { "value": [1.1] } }"#,
        r#"{ "user": { "value": [1] } }"#,
        r#"{ "user": { "value": [999] } }"#,
    ] {
        assert!(rejects(j, PrefixQuery::from_json), "{}", j);
    }
}

#[test]
fn prefix_case_insensitive_defaults_to_false() {
    let j = parse(r#"{ "user": { "value": "ki" } }"#).unwrap();
    let p = PrefixQuery::from_json(&j).unwrap();
    assert!(!p.case_insensitive);
    let q = PrefixQuery { field: "user".to_string(), value: "ki".to_string(), case_insensitive: true };
    assert_eq!(
        to_value(&q.to_json()),
        value(r#"{ "user": { "value": "ki", "case_insensitive": true } }"#)
    );
}

// ------------------------------------------------------------------ match

#[test]
fn match__missing_query_is_err() {
    for j in [r#"{ "message": "missing" }"#, r#"{ "message": null }"#, r#"{ "message" }"#] {
        assert!(rejects(j, MatchQuery::from_json), "{}", j);
    }
}

#[test]
fn match__invalid_query_is_err() {
    for j in [
        r#"{ "message": { "query": 1.1 } }"#,
        r#"{ "message": { "query": 1 } }"#,
        r#"{ "message": { "query": 999 } }"#,
        r#"{ "message": { "query": null } }"#,
    ] {
        assert!(rejects(j, MatchQuery::from_json), "{}", j);
    }
}

#[test]
fn match_serialize() {
    let m = MatchQuery::new("testMessage", "this is a test");
    assert_eq!(
        to_value(&m.to_json()),
        value(r#"{ "testMessage": { "query": "this is a test" } }"#)
    );
}

// ------------------------------------------------------------------ query

#[test]
fn term_filter_encode() {
    let mut c = CompoundQuery { boolean: None };
    c.push(Query::Term(TermQuery::new("id", "test_user_id")));
    assert_eq!(
        to_value(&c.to_json()),
        value(r#"{"bool":{"filter":[{"term":{"id":{"value":"test_user_id"}}}]}}"#)
    );
}

#[test]
fn exists_encodes_under_its_tag() {
    let q = Query::Exists(ExistsQuery::new("x"));
    assert_eq!(to_value(&q.to_json()), value(r#"{"exists":{"field":"x"}}"#));
}

#[test]
fn match_encodes_under_match_key() {
    let q = Query::Match(MatchQuery::new("title", "hello"));
    assert_eq!(to_value(&q.to_json()), value(r#"{"match":{"title":{"query":"hello"}}}"#));
}

#[test]
fn query_round_trip() {
    let mut b = BooleanQuery {
        must: vec![Query::Match(MatchQuery::new("title", "hello"))],
        filter: vec![],
        should: vec![Query::Prefix(PrefixQuery::new("user", "ki"))],
        must_not: vec![Query::Exists(ExistsQuery::new("deleted"))],
        minimum_should_match: Some("1".to_string()),
        boost: Some("1.5".to_string()),
    };
    b.push(Query::Terms(TermsQuery::new("tags", vec!["a".to_string(), "b".to_string()])));
    let q = Query::Bool(b);
    let j = q.to_json();
    let back = Query::from_json(&j).unwrap();
    assert_eq!(to_value(&back.to_json()), to_value(&j));
    match back {
        Query::Bool(b) => {
            assert_eq!(b.must.len(), 1);
            assert_eq!(b.filter.len(), 1);
            assert_eq!(b.should.len(), 1);
            assert_eq!(b.must_not.len(), 1);
            assert_eq!(b.minimum_should_match.as_deref(), Some("1"));
        }
        other => panic!("unexpected {:?}", other),
    }
}

#[test]
fn query_with_two_tags_is_malformed() {
    let j = parse(r#"{"term":{"id":{"value":"x"}},"exists":{"field":"x"}}"#).unwrap();
    match Query::from_json(&j) {
        Err(DecodeError::MalformedQuery { reason, tag }) => {
            assert_eq!(reason, "zero_or_multiple");
            assert!(tag.is_none());
        }
        other => panic!("unexpected {:?}", other),
    }
    let j = parse(r#"{}"#).unwrap();
    assert!(matches!(Query::from_json(&j), Err(DecodeError::MalformedQuery { .. })));
}

#[test]
fn query_with_unknown_tag_is_malformed() {
    let j = parse(r#"{"fuzzy":{"id":{"value":"x"}}}"#).unwrap();
    match Query::from_json(&j) {
        Err(DecodeError::MalformedQuery { reason, tag }) => {
            assert_eq!(reason, "unknown_variant");
            assert_eq!(tag.as_deref(), Some("fuzzy"));
        }
        other => panic!("unexpected {:?}", other),
    }
}

#[test]
fn boolean_is_empty_ignores_boost() {
    let b = BooleanQuery {
        must: vec![],
        filter: vec![],
        should: vec![],
        must_not: vec![],
        minimum_should_match: Some("2".to_string()),
        boost: Some("3".to_string()),
    };
    assert!(b.is_empty());
    let c = CompoundQuery { boolean: Some(b) };
    assert!(c.is_empty());
    assert!(CompoundQuery { boolean: None }.is_empty());
    assert_eq!(to_value(&CompoundQuery { boolean: None }.to_json()), value("{}"));
}

// ------------------------------------------------------------------ sort values

#[test]
fn can_parse_null() {
    let val = SortedValue::parse(&Json::Null).unwrap();
    assert!(matches!(val, SortedValue::Null));
}

#[test]
fn can_parse_string() {
    let val = SortedValue::parse(&Json::Str("x".to_string())).unwrap();
    assert!(matches!(val, SortedValue::Str(ref s) if s == "x"));
}

#[test]
fn can_parse_u8() {
    let x: u8 = 101;
    let val = SortedValue::parse(&Json::Number(x.to_string())).unwrap();
    assert!(matches!(val, SortedValue::UInt(101)));
}

#[test]
fn can_parse_u32() {
    let x: u32 = 101;
    let val = SortedValue::parse(&Json::Number(x.to_string())).unwrap();
    assert!(matches!(val, SortedValue::UInt(101)));
}

#[test]
fn can_parse_u64() {
    let x: u64 = 101;
    let val = SortedValue::parse(&Json::Number(x.to_string())).unwrap();
    assert!(matches!(val, SortedValue::UInt(101)));
}

#[test]
fn parse_negative_is_err() {
    let n = serde_json::Number::from_f64(-0.00000000000001).unwrap();
    assert!(SortedValue::parse(&Json::Number(n.to_string())).is_err());
    let x: i64 = -101;
    assert!(SortedValue::parse(&Json::Number(x.to_string())).is_err());
}

#[test]
fn can_parse_f64() {
    let x: f64 = 101.0;
    let n = serde_json::Number::from_f64(x).unwrap();
    match SortedValue::parse(&Json::Number(n.to_string())).unwrap() {
        SortedValue::Float(t) => assert_eq!(t.parse::<f64>().unwrap(), x),
        other => panic!("unexpected {:?}", other),
    }
}

#[test]
fn sorted_value_largest_u64_and_beyond() {
    let val = SortedValue::parse(&Json::Number("18446744073709551615".to_string())).unwrap();
    assert!(matches!(val, SortedValue::UInt(u64::MAX)));
    let val = SortedValue::parse(&Json::Number("18446744073709551616".to_string())).unwrap();
    assert!(matches!(val, SortedValue::Float(_)));
    assert!(SortedValue::parse(&Json::Bool(true)).is_err());
}

#[test]
fn terms_null_boost_is_invalid_number() {
    let j = parse(r#"{ "user": ["x"], "boost": null }"#).unwrap();
    match TermsQuery::from_json(&j) {
        Err(DecodeError::InvalidNumber { field, value }) => {
            assert_eq!(field, "boost");
            assert_eq!(value, "");
        }
        other => panic!("unexpected {:?}", other),
    }
}

#[test]
fn negative_zero_is_a_sort_value() {
    assert!(SortedValue::parse(&Json::Number("-0".to_string())).is_ok());
    assert!(SortedValue::parse(&Json::Number("-0.0e5".to_string())).is_ok());
    assert!(SortedValue::parse(&Json::Number("-0.5".to_string())).is_err());
    assert!(SortedValue::parse(&Json::Number("-1e-3".to_string())).is_err());
}

#[test]
fn range_without_bounds_is_malformed_whatever_else() {
    let j = parse(r#"{ "age": { "boost": "x", "time_zone": 3 } }"#).unwrap();
    match RangeQuery::from_json(&j) {
        Err(DecodeError::MalformedLeaf { field, missing }) => {
            assert_eq!(field, "age");
            assert_eq!(missing, "gt");
        }
        other => panic!("unexpected {:?}", other),
    }
}
