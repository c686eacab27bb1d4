use elastiql::aggregation::{
    Aggregation, AggregationKind, BucketSort, CalendarInterval, DateHistogramAggregation,
    DateRange, DateRangeAggregation, GapPolicy, MinimumInterval, AutoDateHistogramAggregation,
    VariableWidthHistogram,
};
use elastiql::json::Json;
use elastiql::query::{
    default_fifty_i32, default_ten_thousand_i32, default_true, default_zero_i32, BooleanQuery,
    CompoundQuery, FilterField, NestedQuery, Query, QueryField, QueryStringBooleanOperator,
    QueryStringQuery, SimpleQueryStringQuery, TermQuery,
};
use elastiql::query::RegexpQuery;
use elastiql::search::Request;
use elastiql::search::{Count, CountRelation, HighlightOptions, HighlighterType, Script, ScriptLanguage};
use elastiql::sort::{Sort, SortOrder};
use elastiql::sorted_value::{i32_text, parse_i32, u64_text, SortedValue};

fn from_value(v: &serde_json::Value) -> Json {
    match v {
        serde_json::Value::Null => Json::Null,
        serde_json::Value::Bool(b) => Json::Bool(*b),
        serde_json::Value::Number(n) => Json::Number(n.to_string()),
        serde_json::Value::String(s) => Json::Str(s.clone()),
        serde_json::Value::Array(a) => Json::Array(a.iter().map(from_value).collect()),
        serde_json::Value::Object(m) => {
            Json::Object(m.iter().map(|(k, v)| (k.clone(), from_value(v))).collect())
        }
    }
}

fn to_value(j: &Json) -> serde_json::Value {
    match j {
        Json::Null => serde_json::Value::Null,
        Json::Bool(b) => serde_json::Value::Bool(*b),
        Json::Number(t) => serde_json::from_str(t).unwrap(),
        Json::Str(s) => serde_json::Value::String(s.clone()),
        Json::Array(a) => serde_json::Value::Array(a.iter().map(to_value).collect()),
        Json::Object(m) => {
            let mut out = serde_json::Map::new();
            for (k, v) in m {
                out.insert(k.clone(), to_value(v));
            }
            serde_json::Value::Object(out)
        }
    }
}

fn parse(text: &str) -> Json {
    from_value(&serde_json::from_str::<serde_json::Value>(text).unwrap())
}

fn value(text: &str) -> serde_json::Value {
    serde_json::from_str(text).unwrap()
}

#[test]
fn nested_query_encodes_and_decodes() {
    let mut inner = CompoundQuery { boolean: None };
    inner.push(Query::Term(TermQuery::new("comments.author", "kimchy")));
    let q = Query::Nested(NestedQuery::new("comments", inner));
    let j = q.to_json();
    assert_eq!(
        to_value(&j),
        value(
            r#"{"nested":{"path":"comments","query":{"bool":{"filter":[{"term":{"comments.author":{"value":"kimchy"}}}]}},"ignore_unmapped":false}}"#
        )
    );
    match Query::from_json(&j).unwrap() {
        Query::Nested(n) => {
            assert_eq!(n.path, "comments");
            assert!(!n.ignore_unmapped);
            assert!(!n.query.is_empty());
        }
        other => panic!("unexpected {:?}", other),
    }
}

#[test]
fn nested_ignore_unmapped_defaults_to_false_and_reads_true() {
    let j = parse(r#"{"nested":{"path":"p","query":{}}}"#);
    match Query::from_json(&j).unwrap() {
        Query::Nested(n) => assert!(!n.ignore_unmapped),
        other => panic!("unexpected {:?}", other),
    }
    let j = parse(r#"{"nested":{"path":"p","query":{},"ignore_unmapped":true}}"#);
    match Query::from_json(&j).unwrap() {
        Query::Nested(n) => assert!(n.ignore_unmapped),
        other => panic!("unexpected {:?}", other),
    }
    let j = parse(r#"{"nested":{"path":"p"}}"#);
    assert!(Query::from_json(&j).is_err());
}

#[test]
fn query_string_defaults_apply_on_decode() {
    let j = parse(r#"{"query_string":{"query":"a AND b"}}"#);
    match Query::from_json(&j).unwrap() {
        Query::QueryString(q) => {
            assert_eq!(q.query, "a AND b");
            assert!(q.fields.is_empty());
            assert!(q.allow_leading_wildcard);
            assert!(!q.analyze_wildcard);
            assert!(q.auto_generate_synonyms_phrase_query);
            assert_eq!(q.boost.parse::<f32>().unwrap(), 1.0);
            assert_eq!(q.default_operator, QueryStringBooleanOperator::Or);
            assert!(q.enable_position_increments);
            assert_eq!(q.fuzzy_max_expansions, 50);
            assert_eq!(q.fuzzy_prefix_length, 0);
            assert!(q.fuzzy_transpositions);
            assert!(!q.lenient);
            assert_eq!(q.max_determinized_states, 10000);
            assert_eq!(q.phrase_slop, 0);
            assert!(q.default_field.is_none() && q.time_zone.is_none());
        }
        other => panic!("unexpected {:?}", other),
    }
}

#[test]
fn query_string_round_trip_elides_absent_options() {
    let j = parse(
        r#"{"query_string":{"query":"x","fields":["a","b"],"default_operator":"AND","phrase_slop":-3,"time_zone":"UTC"}}"#,
    );
    let q = Query::from_json(&j).unwrap();
    let out = q.to_json();
    let v = to_value(&out);
    let inner = &v["query_string"];
    assert_eq!(inner["default_operator"], value(r#""AND""#));
    assert_eq!(inner["phrase_slop"], value("-3"));
    assert_eq!(inner["fields"], value(r#"["a","b"]"#));
    assert!(inner.get("default_field").is_none());
    assert!(inner.get("rewrite").is_none());
    let back = Query::from_json(&out).unwrap();
    assert_eq!(to_value(&back.to_json()), v);
}

#[test]
fn query_string_bad_operator_is_invalid_enum() {
    let j = parse(r#"{"query_string":{"query":"x","default_operator":"XOR"}}"#);
    assert!(matches!(
        Query::from_json(&j),
        Err(elastiql::error::DecodeError::InvalidEnum { .. })
    ));
}

#[test]
fn simple_query_string_round_trip() {
    let q = Query::SimpleQueryString(SimpleQueryStringQuery {
        fields: vec![],
        query: "\"fried eggs\" +(eggplant | potato)".to_string(),
    });
    let j = q.to_json();
    assert_eq!(
        to_value(&j),
        value(r#"{"simple_query_string":{"query":"\"fried eggs\" +(eggplant | potato)"}}"#)
    );
    let back = Query::from_json(&j).unwrap();
    assert_eq!(to_value(&back.to_json()), to_value(&j));
}

#[test]
fn default_helpers() {
    assert!(default_true());
    assert_eq!(default_zero_i32(), 0);
    assert_eq!(default_fifty_i32(), 50);
    assert_eq!(default_ten_thousand_i32(), 10_000);
}

#[test]
fn integer_text_round_trips() {
    for n in [0i32, 7, -7, 42, i32::MAX, i32::MIN] {
        let t = i32_text(n);
        assert_eq!(t, n.to_string());
        assert_eq!(parse_i32(&t), Some(n));
    }
    assert_eq!(parse_i32("2147483648"), None);
    assert_eq!(parse_i32("-2147483649"), None);
    assert_eq!(parse_i32("1.5"), None);
    assert_eq!(u64_text(u64::MAX), u64::MAX.to_string());
    assert_eq!(u64_text(0), "0");
}

#[test]
fn sorted_value_encodes_back() {
    for v in [
        SortedValue::Null,
        SortedValue::UInt(101),
        SortedValue::Float("101.5".to_string()),
        SortedValue::Str("x".to_string()),
    ] {
        let j = v.to_json();
        let back = SortedValue::parse(&j).unwrap();
        assert_eq!(format!("{:?}", back), format!("{:?}", v));
    }
    assert_eq!(to_value(&SortedValue::UInt(101).to_json()), value("101"));
}

#[test]
fn count_reads_total() {
    let c = Count::from_json(&parse(r#"{"value": 20, "relation": "eq"}"#)).unwrap();
    assert_eq!(c, Count { relation: CountRelation::EqualTo, value: 20 });
    let c = Count::from_json(&parse(r#"{"value": 10000, "relation": "gte"}"#)).unwrap();
    assert_eq!(c.relation, CountRelation::GreaterThanOrEqualTo);
    assert!(Count::from_json(&parse(r#"{"value": -1, "relation": "eq"}"#)).is_err());
    assert!(Count::from_json(&parse(r#"{"value": 1, "relation": "lt"}"#)).is_err());
}

#[test]
fn highlight_defaults_encode() {
    let h = HighlightOptions::default();
    assert_eq!(h.ty, HighlighterType::Unified);
    assert_eq!(
        to_value(&h.to_json()),
        value(
            r#"{"fields":{"*":{}},"type":"unified","number_of_fragments":5,"fragment_size":100,"boundary_max_scan":20,"tags_schema":"styled","require_field_match":true}"#
        )
    );
    assert_eq!(HighlighterType::Fvh.name(), "fvh");
    assert_eq!(HighlighterType::parse("plain"), Some(HighlighterType::Plain));
}

#[test]
fn script_round_trip() {
    let s = Script { source: "doc['a'].value * 2".to_string(), params: Some(parse(r#"{"f": 2}"#)) };
    let j = s.to_json();
    assert_eq!(to_value(&j), value(r#"{"source":"doc['a'].value * 2","params":{"f":2}}"#));
    let back = Script::from_json(&j).unwrap();
    assert_eq!(back.source, s.source);
    assert_eq!(ScriptLanguage::parse(ScriptLanguage::Painless.name()), Some(ScriptLanguage::Painless));
}

#[test]
fn field_records() {
    let q = QueryField::new("name", "keyword");
    assert_eq!((q.field.as_str(), q.type_.as_str()), ("name", "keyword"));
    let f = FilterField::new("age", "long");
    assert_eq!((f.field.as_str(), f.ty.as_str()), ("age", "long"));
}

fn agg(name: &str, kind: AggregationKind) -> Aggregation {
    Aggregation { name: name.to_string(), kind: Some(kind), metadata: None, aggregations: vec![] }
}

#[test]
fn date_histogram_encodes() {
    let a = agg(
        "PER_DAY",
        AggregationKind::DateHistogram(DateHistogramAggregation {
            field: "timestamp".to_string(),
            calendar_interval: Some(CalendarInterval::Day),
            fixed_interval: None,
            time_zone: Some("UTC".to_string()),
            offset: None,
            format: None,
            missing: None,
        }),
    );
    let j = a.to_json();
    assert_eq!(
        to_value(&j),
        value(r#"{"PER_DAY":{"date_histogram":{"field":"timestamp","calendar_interval":"day","time_zone":"UTC"}}}"#)
    );
    let back = Aggregation::from_json(&j).unwrap();
    assert_eq!(to_value(&back.to_json()), to_value(&j));
}

#[test]
fn date_range_with_nest_round_trip() {
    let mut a = agg(
        "TIMESTAMP_DATE_RANGE",
        AggregationKind::DateRange(DateRangeAggregation {
            field: "timestamp".to_string(),
            time_zone: None,
            format: Some("yyyy-MM-dd'T'HH:mm:ssX".to_string()),
            missing: Some("1970-01-01T00:00:00Z".to_string()),
            ranges: vec![DateRange::new(Some("now-10M/M"), Some("now-1d/d"))],
        }),
    );
    a.aggregations.push(agg(
        "ID_VALUE_COUNT",
        AggregationKind::Metric(
            elastiql::aggregation::MetricKind::ValueCount,
            elastiql::aggregation::InnerAggregation { field: Some("id".to_string()), script: None, missing: None },
        ),
    ));
    let expected = value(
        r#"{
            "TIMESTAMP_DATE_RANGE": {
                "aggs": { "ID_VALUE_COUNT": { "value_count": { "field": "id" } } },
                "date_range": {
                    "field": "timestamp",
                    "format": "yyyy-MM-dd'T'HH:mm:ssX",
                    "missing": "1970-01-01T00:00:00Z",
                    "ranges": [{ "from": "now-10M/M", "to": "now-1d/d" }]
                }
            }
        }"#,
    );
    let j = a.to_json();
    assert_eq!(to_value(&j), expected);
    let back = Aggregation::from_json(&j).unwrap();
    assert_eq!(to_value(&back.to_json()), expected);
}

#[test]
fn pipeline_kinds_encode() {
    let a = agg(
        "SORTED",
        AggregationKind::BucketSort(BucketSort {
            sort: vec![Sort::new("_count", Some(SortOrder::Desc), None)],
            from: None,
            size: Some("3".to_string()),
            gap_policy: Some(GapPolicy::InsertZeros),
        }),
    );
    assert_eq!(
        to_value(&a.to_json()),
        value(r#"{"SORTED":{"bucket_sort":{"sort":[{"_count":{"order":"desc"}}],"size":3,"gap_policy":"insert_zeros"}}}"#)
    );
    let back = Aggregation::from_json(&a.to_json()).unwrap();
    assert_eq!(to_value(&back.to_json()), to_value(&a.to_json()));
    let b = agg(
        "AUTO",
        AggregationKind::AutoDateHistogram(AutoDateHistogramAggregation {
            field: "t".to_string(),
            buckets: Some("10".to_string()),
            minimum_interval: Some(MinimumInterval::Minute),
            format: None,
            missing: None,
            time_zone: None,
        }),
    );
    assert_eq!(
        to_value(&b.to_json()),
        value(r#"{"AUTO":{"auto_date_histogram":{"field":"t","buckets":10,"minimum_interval":"minute"}}}"#)
    );
    let v = agg(
        "VW",
        AggregationKind::VariableWidthHistogram(VariableWidthHistogram { field: "p".to_string(), buckets: "4".to_string() }),
    );
    assert_eq!(to_value(&v.to_json()), value(r#"{"VW":{"variable_width_histogram":{"field":"p","buckets":4}}}"#));
    let j = parse(r#"{"VW":{"variable_width_histogram":{"field":"p"}}}"#);
    assert!(Aggregation::from_json(&j).is_err());
}

#[test]
fn boolean_query_push_appends_to_filter() {
    let mut b = BooleanQuery {
        must: vec![],
        filter: vec![],
        should: vec![],
        must_not: vec![],
        minimum_should_match: None,
        boost: None,
    };
    b.push(Query::Term(TermQuery::new("a", "1")));
    b.push(Query::Term(TermQuery::new("b", "2")));
    assert_eq!(b.filter.len(), 2);
    assert!(b.must.is_empty());
}

#[test]
fn request_encodes_elided_and_fixed_members() {
    let mut query = CompoundQuery { boolean: None };
    let empty = Request {
        query: CompoundQuery { boolean: None },
        sort: vec![],
        size: None,
        terminate_after: 0,
        after: vec![],
        version: false,
        seq_no_primary_term: false,
        track_total_hits: None,
        highlight: None,
    };
    assert_eq!(
        to_value(&empty.to_json()),
        value(r#"{"terminate_after":0,"version":false,"seq_no_primary_term":false}"#)
    );
    query.push(Query::Term(TermQuery::new("id", "test_user_id")));
    let r = Request {
        query,
        sort: vec![Sort::new("_score", Some(SortOrder::Desc), None)],
        size: Some(1),
        terminate_after: 100,
        after: vec![SortedValue::UInt(7), SortedValue::Str("x".to_string())],
        version: true,
        seq_no_primary_term: true,
        track_total_hits: Some(10000),
        highlight: Some(HighlightOptions::default()),
    };
    let v = to_value(&r.to_json());
    assert_eq!(v["query"], value(r#"{"bool":{"filter":[{"term":{"id":{"value":"test_user_id"}}}]}}"#));
    assert_eq!(v["sort"], value(r#"[{"_score":{"order":"desc"}}]"#));
    assert_eq!(v["size"], value("1"));
    assert_eq!(v["terminate_after"], value("100"));
    assert_eq!(v["search_after"], value(r#"[7,"x"]"#));
    assert_eq!(v["track_total_hits"], value("10000"));
    assert_eq!(v["highlight"]["type"], value(r#""unified""#));
}

#[test]
fn regexp_requires_string_members() {
    let ok = RegexpQuery::from_json(&parse(r#"{ "user": { "value": "k.*", "flags": "ALL" } }"#)).unwrap();
    assert_eq!(ok.flags.as_deref(), Some("ALL"));
    match RegexpQuery::from_json(&parse(r#"{ "user": { "value": "k.*", "flags": null } }"#)) {
        Err(elastiql::error::DecodeError::MalformedLeaf { missing, .. }) => assert_eq!(missing, "flags"),
        other => panic!("unexpected {:?}", other),
    }
    assert!(RegexpQuery::from_json(&parse(r#"{ "user": { "value": "k.*", "extra": 1 } }"#)).is_err());
    let q = RegexpQuery::new("user", "k.*", Some("ALL"));
    assert_eq!(to_value(&q.to_json()), value(r#"{ "user": { "value": "k.*", "flags": "ALL" } }"#));
}
