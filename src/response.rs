//! Aggregation results as Elasticsearch returns them, flattened into a list.
use vstd::prelude::*;

use crate::error::{malformed_response, DecodeError, DecodeErrorView};
use crate::json::{
    get_member, items_view, json_view, lemma_members_index,
    lookup, member_index, members_view, opt_json_view,
    opt_view, str_eq, strings_view, Json, JsonValue,
};

verus! {

/// The type of an aggregation, read from the tag in front of its name.
#[derive(Clone, Copy, Debug, PartialEq, Eq, Structural)]
pub enum Ty {
    /// A metric aggregation.
    Avg,
    /// A metric aggregation.
    WeightedAvg,
    /// A metric aggregation.
    Cardinality,
    /// A metric aggregation.
    Max,
    /// A metric aggregation.
    Min,
    /// A metric aggregation.
    MedianAbsoluteDeviation,
    /// A metric aggregation.
    Percentiles,
    /// A metric aggregation.
    PercentileRanks,
    /// A metric aggregation.
    Stats,
    /// A metric aggregation.
    ExtendedStats,
    /// A metric aggregation.
    Sum,
    /// A metric aggregation.
    ValueCount,
    /// A bucket aggregation.
    Filter,
    /// A bucket aggregation.
    Filters,
    /// A bucket aggregation.
    Terms,
    /// A bucket aggregation.
    SignificantTerms,
    /// A bucket aggregation.
    Range,
    /// A bucket aggregation.
    DateRange,
    /// A bucket aggregation.
    DateHistogram,
    /// A bucket aggregation.
    AutoDateHistogram,
    /// A bucket aggregation.
    Nested,
    /// A bucket aggregation.
    ReverseNested,
    /// A pipeline aggregation.
    BucketScript,
    /// A pipeline aggregation.
    BucketSelector,
    /// A pipeline aggregation.
    BucketSort,
    /// A missing or unrecognised tag.
    Unknown,
}

/// The type that a lower-case tag names.
pub open spec fn ty_of(s: Seq<char>) -> Ty {
    if s == "avg"@ {
        Ty::Avg
    } else if s == "weighted_avg"@ {
        Ty::WeightedAvg
    } else if s == "cardinality"@ {
        Ty::Cardinality
    } else if s == "max"@ {
        Ty::Max
    } else if s == "min"@ {
        Ty::Min
    } else if s == "median_absolute_deviation"@ {
        Ty::MedianAbsoluteDeviation
    } else if s == "percentiles"@ {
        Ty::Percentiles
    } else if s == "percentile_ranks"@ {
        Ty::PercentileRanks
    } else if s == "stats"@ {
        Ty::Stats
    } else if s == "extended_stats"@ {
        Ty::ExtendedStats
    } else if s == "sum"@ {
        Ty::Sum
    } else if s == "value_count"@ {
        Ty::ValueCount
    } else if s == "filter"@ {
        Ty::Filter
    } else if s == "filters"@ {
        Ty::Filters
    } else if s == "terms"@ {
        Ty::Terms
    } else if s == "sterms"@ {
        Ty::SignificantTerms
    } else if s == "range"@ {
        Ty::Range
    } else if s == "date_range"@ {
        Ty::DateRange
    } else if s == "date_histogram"@ {
        Ty::DateHistogram
    } else if s == "auto_date_histogram"@ {
        Ty::AutoDateHistogram
    } else if s == "bucket_script"@ {
        Ty::BucketScript
    } else if s == "bucket_selector"@ {
        Ty::BucketSelector
    } else if s == "bucket_sort"@ {
        Ty::BucketSort
    } else if s == "nested"@ {
        Ty::Nested
    } else if s == "reverse_nested"@ {
        Ty::ReverseNested
    } else {
        Ty::Unknown
    }
}

/// What `str::to_lowercase` returns for `s`.
pub uninterp spec fn lower_of(s: Seq<char>) -> Seq<char>;

/// Relies on `str::to_lowercase`: the lower-case form of a string, which
/// depends on its characters alone.
#[verifier::external_body]
fn lowercase(s: &str) -> (r: String)
    ensures
        r@ == lower_of(s@),
{
    s.to_lowercase()
}

impl Ty {
    /// The type that an already lower-case tag names.
    pub fn from_lowercase(s: &str) -> (r: Ty)
        ensures
            r == ty_of(s@),
    {
        if str_eq(s, "avg") {
            Ty::Avg
        } else if str_eq(s, "weighted_avg") {
            Ty::WeightedAvg
        } else if str_eq(s, "cardinality") {
            Ty::Cardinality
        } else if str_eq(s, "max") {
            Ty::Max
        } else if str_eq(s, "min") {
            Ty::Min
        } else if str_eq(s, "median_absolute_deviation") {
            Ty::MedianAbsoluteDeviation
        } else if str_eq(s, "percentiles") {
            Ty::Percentiles
        } else if str_eq(s, "percentile_ranks") {
            Ty::PercentileRanks
        } else if str_eq(s, "stats") {
            Ty::Stats
        } else if str_eq(s, "extended_stats") {
            Ty::ExtendedStats
        } else if str_eq(s, "sum") {
            Ty::Sum
        } else if str_eq(s, "value_count") {
            Ty::ValueCount
        } else if str_eq(s, "filter") {
            Ty::Filter
        } else if str_eq(s, "filters") {
            Ty::Filters
        } else if str_eq(s, "terms") {
            Ty::Terms
        } else if str_eq(s, "sterms") {
            Ty::SignificantTerms
        } else if str_eq(s, "range") {
            Ty::Range
        } else if str_eq(s, "date_range") {
            Ty::DateRange
        } else if str_eq(s, "date_histogram") {
            Ty::DateHistogram
        } else if str_eq(s, "auto_date_histogram") {
            Ty::AutoDateHistogram
        } else if str_eq(s, "bucket_script") {
            Ty::BucketScript
        } else if str_eq(s, "bucket_selector") {
            Ty::BucketSelector
        } else if str_eq(s, "bucket_sort") {
            Ty::BucketSort
        } else if str_eq(s, "nested") {
            Ty::Nested
        } else if str_eq(s, "reverse_nested") {
            Ty::ReverseNested
        } else {
            Ty::Unknown
        }
    }

    /// The type that a tag names, whatever its case.
    pub fn from_tag(s: &str) -> (r: Ty)
        ensures
            r == ty_of(lower_of(s@)),
    {
        let lower = lowercase(s);
        Ty::from_lowercase(lower.as_str())
    }
}

/// The index of the first `#` in `s`, or its length when there is none.
pub open spec fn first_hash(s: Seq<char>) -> int
    decreases s.len(),
{
    if s.len() == 0 {
        0
    } else if s[0] == '#' {
        0
    } else {
        1 + first_hash(s.subrange(1, s.len() as int))
    }
}

/// `s` without its `#` characters.
pub open spec fn strip_hashes(s: Seq<char>) -> Seq<char>
    decreases s.len(),
{
    if s.len() == 0 {
        s
    } else {
        let rest = strip_hashes(s.subrange(0, s.len() - 1));
        if s[s.len() - 1] == '#' {
            rest
        } else {
            rest.push(s[s.len() - 1])
        }
    }
}

/// The type and name in a result key: a key without `#` is a bare name of
/// unknown type; otherwise the part before the first `#` is the type tag and
/// the parts after it, joined, are the name.
pub open spec fn split_spec(s: Seq<char>) -> (Ty, Seq<char>) {
    let i = first_hash(s);
    if i >= s.len() {
        (Ty::Unknown, s)
    } else {
        (ty_of(lower_of(s.subrange(0, i))), strip_hashes(s.subrange(i + 1, s.len() as int)))
    }
}

proof fn lemma_first_hash(s: Seq<char>)
    ensures
        0 <= first_hash(s) <= s.len(),
        forall|j: int| 0 <= j < first_hash(s) ==> s[j] != '#',
        first_hash(s) < s.len() ==> s[first_hash(s)] == '#',
    decreases s.len(),
{
    if s.len() > 0 && s[0] != '#' {
        let t = s.subrange(1, s.len() as int);
        lemma_first_hash(t);
        assert forall|j: int| 0 <= j < first_hash(s) implies s[j] != '#' by {
            if j > 0 {
                assert(s[j] == t[j - 1]);
            }
        }
    }
}

proof fn lemma_first_hash_at(s: Seq<char>, i: int)
    requires
        0 <= i <= s.len(),
        forall|j: int| 0 <= j < i ==> s[j] != '#',
        i == s.len() || s[i] == '#',
    ensures
        first_hash(s) == i,
{
    lemma_first_hash(s);
    if first_hash(s) < i {
        assert(s[first_hash(s)] == '#');
    }
    if first_hash(s) > i {
        assert(s[i] != '#');
    }
}

fn strip_hashes_exec(s: &str) -> (r: String)
    ensures
        r@ == strip_hashes(s@),
{
    let n = s.unicode_len();
    let mut out = String::new();
    let mut j: usize = 0;
    while j < n
        invariant
            n == s@.len(),
            0 <= j <= n,
            out@ == strip_hashes(s@.subrange(0, j as int)),
        decreases n - j,
    {
        let c = s.get_char(j);
        proof {
            let t = s@.subrange(0, j + 1);
            assert(t.subrange(0, t.len() - 1) =~= s@.subrange(0, j as int));
        }
        if c != '#' {
            let piece = s.substring_char(j, j + 1);
            out.append(piece);
            proof {
                assert(piece@ =~= seq![c]);
                assert(out@ =~= strip_hashes(s@.subrange(0, j as int)).push(c));
            }
        }
        j = j + 1;
    }
    proof {
        assert(s@.subrange(0, n as int) =~= s@);
    }
    out
}

/// Splits a result key into its type and its name.
pub fn split_ty_and_name(ty_and_name: &str) -> (r: (Ty, String))
    ensures
        r.0 == split_spec(ty_and_name@).0,
        r.1@ == split_spec(ty_and_name@).1,
{
    let n = ty_and_name.unicode_len();
    let mut i: usize = 0;
    while i < n && ty_and_name.get_char(i) != '#'
        invariant
            n == ty_and_name@.len(),
            0 <= i <= n,
            forall|j: int| 0 <= j < i ==> ty_and_name@[j] != '#',
        decreases n - i,
    {
        i = i + 1;
    }
    proof {
        lemma_first_hash_at(ty_and_name@, i as int);
    }
    if i >= n {
        (Ty::Unknown, ty_and_name.to_owned())
    } else {
        let tag = ty_and_name.substring_char(0, i);
        let rest = ty_and_name.substring_char(i + 1, n);
        (Ty::from_tag(tag), strip_hashes_exec(rest))
    }
}

/// One flattened aggregation result: the values that the nodes sharing a
/// parent and a name produced, paired with the bucket keys they came from.
#[derive(Debug)]
pub struct ComputedResult {
    /// The key of the bucket whose sub-aggregations produced this result.
    pub parent: Option<String>,
    /// The name given to the aggregation.
    pub name: String,
    /// The type of the aggregation.
    pub type_: Ty,
    /// The bucket keys the values were computed over.
    pub fields: Vec<String>,
    /// The values, as the decimal text of the response.
    pub values: Vec<String>,
    /// The metadata attached to the aggregation.
    pub metadata: Option<Json>,
}

pub struct ComputedResultView {
    pub parent: Option<Seq<char>>,
    pub name: Seq<char>,
    pub type_: Ty,
    pub fields: Seq<Seq<char>>,
    pub values: Seq<Seq<char>>,
    pub metadata: Option<JsonValue>,
}

impl View for ComputedResult {
    type V = ComputedResultView;

    open spec fn view(&self) -> ComputedResultView {
        ComputedResultView {
            parent: opt_view(self.parent),
            name: self.name@,
            type_: self.type_,
            fields: strings_view(self.fields@),
            values: strings_view(self.values@),
            metadata: opt_json_view(self.metadata),
        }
    }
}

pub open spec fn results_view(v: Seq<ComputedResult>) -> Seq<ComputedResultView> {
    v.map_values(|r: ComputedResult| r@)
}

/// Metadata that asks for its aggregation to be left out: `{"_skip": true}`.
pub open spec fn skip_marked(meta: Option<JsonValue>) -> bool {
    match meta {
        Some(JsonValue::Object(m)) => lookup(m, "_skip"@) == Some(JsonValue::Bool(true)),
        _ => false,
    }
}

/// The metadata of a node: its `meta` member, else its `metadata` member,
/// when that is an object.
pub open spec fn metadata_of(ms: Seq<(Seq<char>, JsonValue)>) -> Option<JsonValue> {
    let m = if lookup(ms, "meta"@) is Some {
        lookup(ms, "meta"@)
    } else {
        lookup(ms, "metadata"@)
    };
    match m {
        Some(JsonValue::Object(o)) => Some(JsonValue::Object(o)),
        _ => None,
    }
}

/// A node with a non-empty `buckets` array.
pub open spec fn has_buckets(ms: Seq<(Seq<char>, JsonValue)>) -> bool {
    match lookup(ms, "buckets"@) {
        Some(JsonValue::Array(items)) => items.len() > 0,
        _ => false,
    }
}

/// The value a node carries: its `value`, else, for a node without buckets,
/// its `doc_count`.
pub open spec fn node_value(ms: Seq<(Seq<char>, JsonValue)>) -> Option<Seq<char>> {
    match lookup(ms, "value"@) {
        Some(JsonValue::Number(t)) => Some(t),
        _ => if has_buckets(ms) {
            None
        } else {
            match lookup(ms, "doc_count"@) {
                Some(JsonValue::Number(t)) => Some(t),
                _ => None,
            }
        },
    }
}

/// A member that gives a node its bucket key: `key` or `key_as_string`
/// holding a string.
pub open spec fn is_key_member(m: (Seq<char>, JsonValue)) -> bool {
    (m.0 == "key"@ || m.0 == "key_as_string"@) && m.1 is Str
}

/// The bucket key of a node: the last of its `key` and `key_as_string`
/// members that holds a string.
pub open spec fn node_key(ms: Seq<(Seq<char>, JsonValue)>) -> Option<Seq<char>>
    decreases ms.len(),
{
    if ms.len() == 0 {
        None
    } else if is_key_member(ms[ms.len() - 1]) {
        Some(ms[ms.len() - 1].1->Str_0)
    } else {
        node_key(ms.subrange(0, ms.len() - 1))
    }
}

/// Member names of a result node that are not sub-aggregations.
pub open spec fn is_reserved(k: Seq<char>) -> bool {
    k == "key"@ || k == "key_as_string"@ || k == "value"@ || k == "buckets"@ || k
        == "doc_count"@ || k == "doc_count_error_upper_bound"@ || k == "sum_other_doc_count"@
        || k == "interval"@ || k == "meta"@ || k == "metadata"@
}

/// A node with at least one sub-aggregation.
pub open spec fn has_sub_aggregations(ms: Seq<(Seq<char>, JsonValue)>) -> bool {
    exists|j: int| 0 <= j < ms.len() && !is_reserved(#[trigger] ms[j].0) && ms[j].1 is Object
}

/// What every emitted result satisfies: it holds at least one value, no
/// more bucket keys than values, and no metadata asking to be skipped.
pub open spec fn result_ok(r: ComputedResultView) -> bool {
    &&& r.values.len() >= 1
    &&& r.fields.len() <= r.values.len()
    &&& !skip_marked(r.metadata)
}

/// Well-formed results: each is [`result_ok`], and no two share a parent
/// and a name.
pub open spec fn results_ok(rs: Seq<ComputedResultView>) -> bool {
    &&& forall|i: int| 0 <= i < rs.len() ==> result_ok(#[trigger] rs[i])
    &&& forall|i: int, j: int|
        0 <= i < j < rs.len() ==> !(#[trigger] rs[i].parent == #[trigger] rs[j].parent && rs[i].name
            == rs[j].name)
}

/// The position of the result for `(parent, name)`, if there is one.
pub open spec fn group_index(rs: Seq<ComputedResultView>, parent: Option<Seq<char>>, name: Seq<char>) -> Option<int> {
    if exists|i: int| 0 <= i < rs.len() && rs[i].parent == parent && rs[i].name == name {
        Some(choose|i: int| 0 <= i < rs.len() && rs[i].parent == parent && rs[i].name == name)
    } else {
        None
    }
}

/// `r` with one more value, and the bucket key it came from if any.
pub open spec fn extend_result(r: ComputedResultView, field: Option<Seq<char>>, value: Seq<char>) -> ComputedResultView {
    ComputedResultView {
        fields: match field {
            Some(f) => r.fields.push(f),
            None => r.fields,
        },
        values: r.values.push(value),
        ..r
    }
}

/// A first result for `(parent, name)`.
pub open spec fn new_result(
    parent: Option<Seq<char>>,
    name: Seq<char>,
    ty: Ty,
    field: Option<Seq<char>>,
    value: Seq<char>,
    metadata: Option<JsonValue>,
) -> ComputedResultView {
    ComputedResultView {
        parent,
        name,
        type_: ty,
        fields: match field {
            Some(f) => seq![f],
            None => seq![],
        },
        values: seq![value],
        metadata,
    }
}

fn opt_clone(a: &Option<String>) -> (r: Option<String>)
    ensures
        opt_view(r) == opt_view(*a),
{
    match a {
        Some(s) => Some(s.clone()),
        None => None,
    }
}

fn opt_eq(a: &Option<String>, b: &Option<String>) -> (r: bool)
    ensures
        r == (opt_view(*a) == opt_view(*b)),
{
    match (a, b) {
        (Some(x), Some(y)) => *x == *y,
        (None, None) => true,
        _ => false,
    }
}

/// Adds a value to the result for `(parent, name)`, creating that result
/// when there is none yet; a later value keeps the type and metadata of the
/// first.
pub fn record(
    results: &mut Vec<ComputedResult>,
    parent: &Option<String>,
    name: &String,
    ty: Ty,
    field: Option<String>,
    value: String,
    metadata: Option<Json>,
)
    requires
        results_ok(results_view(old(results)@)),
        !skip_marked(opt_json_view(metadata)),
    ensures
        results_ok(results_view(final(results)@)),
        match group_index(results_view(old(results)@), opt_view(*parent), name@) {
            Some(i) => results_view(final(results)@) == results_view(old(results)@).update(
                i,
                extend_result(results_view(old(results)@)[i], opt_view(field), value@),
            ),
            None => results_view(final(results)@) == results_view(old(results)@).push(
                new_result(opt_view(*parent), name@, ty, opt_view(field), value@, opt_json_view(metadata)),
            ),
        },
{
    let ghost old_rs = results_view(results@);
    let mut i: usize = 0;
    while i < results.len()
        invariant
            0 <= i <= results.len(),
            results@ == old(results)@,
            old_rs == results_view(results@),
            results_ok(old_rs),
            forall|j: int| 0 <= j < i ==> !(#[trigger] old_rs[j].parent == opt_view(*parent)
                && old_rs[j].name == name@),
        decreases results.len() - i,
    {
        if opt_eq(&results[i].parent, parent) && results[i].name == *name {
            let mut entry = ComputedResult {
                parent: None,
                name: String::new(),
                type_: Ty::Unknown,
                fields: Vec::new(),
                values: Vec::new(),
                metadata: None,
            };
            results.set_and_swap(i, &mut entry);
            let ghost fv = opt_view(field);
            let ghost before = entry;
            match field {
                Some(f) => {
                    entry.fields.push(f);
                    proof {
                        assert(strings_view(entry.fields@) =~= strings_view(before.fields@).push(f@));
                    }
                },
                None => {},
            }
            let ghost vv = value@;
            entry.values.push(value);
            proof {
                assert(strings_view(entry.values@) =~= strings_view(before.values@).push(vv));
            }
            let ghost updated = entry;
            proof {
                assert(updated@ =~= extend_result(before@, fv, vv));
            }
            results.set_and_swap(i, &mut entry);
            proof {
                let g = group_index(old_rs, opt_view(*parent), name@);
                assert(old_rs[i as int].parent == opt_view(*parent) && old_rs[i as int].name == name@);
                assert(g is Some);
                let k = g->0;
                assert(0 <= k < old_rs.len() && old_rs[k].parent == opt_view(*parent) && old_rs[k].name == name@);
                if k < i {
                    assert(!(old_rs[k].parent == opt_view(*parent) && old_rs[k].name == name@));
                }
                if k > i {
                    assert(results_ok(old_rs));
                    assert(old_rs[i as int].parent == old_rs[k].parent);
                    assert(!(old_rs[i as int].parent == old_rs[k].parent && old_rs[i as int].name == old_rs[k].name));
                }
                assert(k == i);
                assert(before@ == old_rs[i as int]);
                assert(results_view(results@) =~= old_rs.update(i as int, extend_result(old_rs[i as int], fv, vv)));
            }
            return;
        }
        i = i + 1;
    }
    let entry = ComputedResult {
        parent: opt_clone(parent),
        name: name.clone(),
        type_: ty,
        fields: match field {
            Some(f) => vec![f],
            None => Vec::new(),
        },
        values: vec![value],
        metadata,
    };
    results.push(entry);
    proof {
        assert(strings_view(entry.values@) =~= seq![value@]);
        assert(strings_view(entry.fields@) =~= new_result(opt_view(*parent), name@, ty, opt_view(field), value@, opt_json_view(metadata)).fields);
        assert(results_view(results@) =~= old_rs.push(new_result(opt_view(*parent), name@, ty, opt_view(field), value@, opt_json_view(metadata))));
    }
}

fn has_buckets_exec(ms: &Vec<(String, Json)>) -> (r: bool)
    ensures
        r == has_buckets(members_view(ms@)),
{
    match get_member(ms, "buckets") {
        Some(Json::Array(items)) => {
            proof {
                crate::json::lemma_items_index(items@);
            }
            items.len() > 0
        },
        _ => false,
    }
}

/// The value a result node carries, as decimal text.
pub fn value_or_doc_count(ms: &Vec<(String, Json)>) -> (r: Option<String>)
    ensures
        opt_view(r) == node_value(members_view(ms@)),
{
    match get_member(ms, "value") {
        Some(Json::Number(t)) => Some(t.clone()),
        _ => {
            if has_buckets_exec(ms) {
                None
            } else {
                match get_member(ms, "doc_count") {
                    Some(Json::Number(t)) => Some(t.clone()),
                    _ => None,
                }
            }
        },
    }
}

/// The bucket key of a result node.
pub fn bucket_key(ms: &Vec<(String, Json)>) -> (r: Option<String>)
    ensures
        opt_view(r) == node_key(members_view(ms@)),
{
    proof {
        lemma_members_index(ms@);
    }
    let ghost mv = members_view(ms@);
    let mut found: Option<usize> = None;
    let mut i: usize = 0;
    while i < ms.len()
        invariant
            0 <= i <= ms.len(),
            mv == members_view(ms@),
            mv.len() == ms@.len(),
            forall|j: int| 0 <= j < ms@.len() ==> #[trigger] mv[j] == (ms@[j].0@, json_view(ms@[j].1)),
            match found {
                Some(k) => k < i && mv[k as int].1 is Str && node_key(mv.subrange(0, i as int)) == Some(mv[k as int].1->Str_0),
                None => node_key(mv.subrange(0, i as int)) is None,
            },
        decreases ms.len() - i,
    {
        proof {
            let t = mv.subrange(0, i + 1);
            assert(t.subrange(0, t.len() - 1) =~= mv.subrange(0, i as int));
            assert(t[t.len() - 1] == mv[i as int]);
        }
        let k = ms[i].0.as_str();
        if str_eq(k, "key") || str_eq(k, "key_as_string") {
            match &ms[i].1 {
                Json::Str(_) => {
                    found = Some(i);
                },
                _ => {},
            }
        }
        i = i + 1;
    }
    proof {
        assert(mv.subrange(0, mv.len() as int) =~= mv);
    }
    match found {
        Some(k) => match &ms[k].1 {
            Json::Str(t) => Some(t.clone()),
            _ => None,
        },
        None => None,
    }
}

/// A copy of the metadata of a result node.
pub fn metadata(ms: &Vec<(String, Json)>) -> (r: Option<Json>)
    ensures
        opt_json_view(r) == metadata_of(members_view(ms@)),
{
    let m = match get_member(ms, "meta") {
        Some(v) => Some(v),
        None => get_member(ms, "metadata"),
    };
    match m {
        Some(Json::Object(o)) => Some(m.unwrap().deep_clone()),
        _ => None,
    }
}

/// Whether the metadata of a result node asks for it to be left out.
pub fn should_skip(ms: &Vec<(String, Json)>) -> (r: bool)
    ensures
        r == skip_marked(metadata_of(members_view(ms@))),
{
    let m = match get_member(ms, "meta") {
        Some(v) => Some(v),
        None => get_member(ms, "metadata"),
    };
    match m {
        Some(Json::Object(o)) => match get_member(o, "_skip") {
            Some(Json::Bool(b)) => *b,
            _ => false,
        },
        _ => false,
    }
}

fn is_reserved_exec(k: &str) -> (r: bool)
    ensures
        r == is_reserved(k@),
{
    str_eq(k, "key") || str_eq(k, "key_as_string") || str_eq(k, "value") || str_eq(k, "buckets")
        || str_eq(k, "doc_count") || str_eq(k, "doc_count_error_upper_bound") || str_eq(
        k,
        "sum_other_doc_count",
    ) || str_eq(k, "interval") || str_eq(k, "meta") || str_eq(k, "metadata")
}

fn has_sub_aggregations_exec(ms: &Vec<(String, Json)>) -> (r: bool)
    ensures
        r == has_sub_aggregations(members_view(ms@)),
{
    proof {
        lemma_members_index(ms@);
    }
    let mut i: usize = 0;
    while i < ms.len()
        invariant
            0 <= i <= ms.len(),
            members_view(ms@).len() == ms@.len(),
            forall|j: int| 0 <= j < ms@.len() ==> #[trigger] members_view(ms@)[j] == (ms@[j].0@, json_view(ms@[j].1)),
            forall|j: int| 0 <= j < i ==> !(!is_reserved(#[trigger] members_view(ms@)[j].0) && members_view(ms@)[j].1 is Object),
        decreases ms.len() - i,
    {
        if !is_reserved_exec(ms[i].0.as_str()) {
            match &ms[i].1 {
                Json::Object(_) => {
                    assert(members_view(ms@)[i as int].1 is Object);
                    assert(!is_reserved(members_view(ms@)[i as int].0));
                    return true;
                },
                _ => {},
            }
        }
        i = i + 1;
    }
    false
}

/// The results after adding `value` for `(parent, name)`, as [`record`]
/// does.
pub open spec fn record_spec(
    rs: Seq<ComputedResultView>,
    parent: Option<Seq<char>>,
    name: Seq<char>,
    ty: Ty,
    field: Option<Seq<char>>,
    value: Seq<char>,
    metadata: Option<JsonValue>,
) -> Seq<ComputedResultView> {
    match group_index(rs, parent, name) {
        Some(i) => rs.update(i, extend_result(rs[i], field, value)),
        None => rs.push(new_result(parent, name, ty, field, value, metadata)),
    }
}

/// The results after one node's own contribution: its value, unless it has
/// none or its metadata asks for it to be skipped.
pub open spec fn leaf_spec(
    ms: Seq<(Seq<char>, JsonValue)>,
    parent: Option<Seq<char>>,
    name: Seq<char>,
    ty: Ty,
    field: Option<Seq<char>>,
    rs: Seq<ComputedResultView>,
) -> Seq<ComputedResultView> {
    match node_value(ms) {
        Some(v) => if skip_marked(metadata_of(ms)) {
            rs
        } else {
            record_spec(rs, parent, name, ty, field, v, metadata_of(ms))
        },
        None => rs,
    }
}

/// The results after walking the aggregations among `ms` in order: all
/// object members at the top level, the non-reserved ones below it.
/// `stamp` is the bucket key of the node holding `ms`.
pub open spec fn walk_spec(
    ms: Seq<(Seq<char>, JsonValue)>,
    top: bool,
    parent: Option<Seq<char>>,
    stamp: Option<Seq<char>>,
    rs: Seq<ComputedResultView>,
) -> Seq<ComputedResultView>
    decreases ms, 0nat,
{
    if ms.len() == 0 {
        rs
    } else {
        walk_spec(
            ms.subrange(1, ms.len() as int),
            top,
            parent,
            stamp,
            member_spec(ms[0].0, ms[0].1, top, parent, stamp, rs),
        )
    }
}

/// The results after one member `k: v`: its own value (keyed by `stamp`,
/// else by its own key), then its sub-aggregations (re-rooted, stamped
/// with its key), then its buckets.
pub open spec fn member_spec(
    k: Seq<char>,
    v: JsonValue,
    top: bool,
    parent: Option<Seq<char>>,
    stamp: Option<Seq<char>>,
    rs: Seq<ComputedResultView>,
) -> Seq<ComputedResultView>
    decreases v, 0nat,
{
    if top || !is_reserved(k) {
        match v {
            JsonValue::Object(cm) => {
                let ty = split_spec(k).0;
                let name = split_spec(k).1;
                let key = node_key(cm);
                let field = if stamp is Some {
                    stamp
                } else {
                    key
                };
                buckets_spec(
                    cm,
                    parent,
                    name,
                    ty,
                    stamp,
                    walk_spec(cm, false, None, key, leaf_spec(cm, parent, name, ty, field, rs)),
                )
            },
            _ => rs,
        }
    } else {
        rs
    }
}

/// The results after the buckets under the first `buckets` member of `cm`.
pub open spec fn buckets_spec(
    cm: Seq<(Seq<char>, JsonValue)>,
    parent: Option<Seq<char>>,
    name: Seq<char>,
    ty: Ty,
    stamp: Option<Seq<char>>,
    rs: Seq<ComputedResultView>,
) -> Seq<ComputedResultView>
    decreases cm, 0nat,
{
    if cm.len() == 0 {
        rs
    } else if cm[0].0 == "buckets"@ {
        match cm[0].1 {
            JsonValue::Array(items) => bucket_fold(items, parent, name, ty, stamp, rs),
            _ => rs,
        }
    } else {
        buckets_spec(cm.subrange(1, cm.len() as int), parent, name, ty, stamp, rs)
    }
}

/// The results after each bucket in order.
pub open spec fn bucket_fold(
    items: Seq<JsonValue>,
    parent: Option<Seq<char>>,
    name: Seq<char>,
    ty: Ty,
    stamp: Option<Seq<char>>,
    rs: Seq<ComputedResultView>,
) -> Seq<ComputedResultView>
    decreases items, 0nat,
{
    if items.len() == 0 {
        rs
    } else {
        bucket_fold(
            items.subrange(1, items.len() as int),
            parent,
            name,
            ty,
            stamp,
            bucket_spec(items[0], parent, name, ty, stamp, rs),
        )
    }
}

/// The results after one bucket: a bucket without sub-aggregations is a
/// value of the enclosing aggregation, keyed by its own key; otherwise its
/// sub-aggregations are walked under the enclosing stamp.
pub open spec fn bucket_spec(
    b: JsonValue,
    parent: Option<Seq<char>>,
    name: Seq<char>,
    ty: Ty,
    stamp: Option<Seq<char>>,
    rs: Seq<ComputedResultView>,
) -> Seq<ComputedResultView>
    decreases b, 0nat,
{
    match b {
        JsonValue::Object(bm) => if !has_sub_aggregations(bm) {
            leaf_spec(bm, parent, name, ty, node_key(bm), rs)
        } else {
            walk_spec(bm, false, stamp, node_key(bm), rs)
        },
        _ => rs,
    }
}

/// The flattened results of a response document: the walk of its
/// `aggregations` object, or nothing without one.
pub open spec fn flatten(doc: JsonValue) -> Seq<ComputedResultView> {
    match doc {
        JsonValue::Object(ms) => match lookup(ms, "aggregations"@) {
            Some(JsonValue::Object(am)) => walk_spec(am, true, None, None, seq![]),
            _ => seq![],
        },
        _ => seq![],
    }
}

/// A node whose metadata asks to be skipped adds no value of its own;
/// one with a value and no such mark adds exactly that value.
pub proof fn lemma_skip_contributes_nothing(
    ms: Seq<(Seq<char>, JsonValue)>,
    parent: Option<Seq<char>>,
    name: Seq<char>,
    ty: Ty,
    field: Option<Seq<char>>,
    rs: Seq<ComputedResultView>,
)
    ensures
        skip_marked(metadata_of(ms)) ==> leaf_spec(ms, parent, name, ty, field, rs) == rs,
        !skip_marked(metadata_of(ms)) && node_value(ms) is Some ==> leaf_spec(ms, parent, name, ty, field, rs)
            == record_spec(rs, parent, name, ty, field, node_value(ms)->0, metadata_of(ms)),
{
}

/// A node whose metadata asks to be skipped adds no value of its own, and
/// its sub-aggregations and buckets are walked exactly as those of the same
/// node would be without any value of its own.
pub proof fn lemma_skip_node(
    k: Seq<char>,
    cm: Seq<(Seq<char>, JsonValue)>,
    top: bool,
    parent: Option<Seq<char>>,
    stamp: Option<Seq<char>>,
    rs: Seq<ComputedResultView>,
)
    requires
        top || !is_reserved(k),
        skip_marked(metadata_of(cm)),
    ensures
        member_spec(k, JsonValue::Object(cm), top, parent, stamp, rs) == buckets_spec(
            cm,
            parent,
            split_spec(k).1,
            split_spec(k).0,
            stamp,
            walk_spec(cm, false, None, node_key(cm), rs),
        ),
{
}

proof fn lemma_buckets_spec(
    cm: Seq<(Seq<char>, JsonValue)>,
    parent: Option<Seq<char>>,
    name: Seq<char>,
    ty: Ty,
    stamp: Option<Seq<char>>,
    rs: Seq<ComputedResultView>,
)
    ensures
        buckets_spec(cm, parent, name, ty, stamp, rs) == match lookup(cm, "buckets"@) {
            Some(JsonValue::Array(items)) => bucket_fold(items, parent, name, ty, stamp, rs),
            _ => rs,
        },
    decreases cm.len(),
{
    if cm.len() > 0 && cm[0].0 != "buckets"@ {
        lemma_buckets_spec(cm.subrange(1, cm.len() as int), parent, name, ty, stamp, rs);
    }
}

/// Adds the value of one node, unless it has none or is marked to be skipped.
fn handle_leaf(
    ms: &Vec<(String, Json)>,
    parent: &Option<String>,
    name: &String,
    ty: Ty,
    field: Option<String>,
    results: &mut Vec<ComputedResult>,
)
    requires
        results_ok(results_view(old(results)@)),
    ensures
        results_ok(results_view(final(results)@)),
        results_view(final(results)@) == leaf_spec(
            members_view(ms@),
            opt_view(*parent),
            name@,
            ty,
            opt_view(field),
            results_view(old(results)@),
        ),
{
    match value_or_doc_count(ms) {
        Some(value) => {
            if !should_skip(ms) {
                let meta = metadata(ms);
                record(results, parent, name, ty, field, value, meta);
            }
        },
        None => {},
    }
}

/// A pending piece of the walk: members of a node from index `i`, or buckets
/// of an aggregation from index `b`.
enum Task<'a> {
    Members {
        ms: &'a Vec<(String, Json)>,
        i: usize,
        top: bool,
        parent: Option<String>,
        stamp: Option<String>,
    },
    Buckets {
        items: &'a Vec<Json>,
        b: usize,
        parent: Option<String>,
        name: String,
        ty: Ty,
        stamp: Option<String>,
    },
}

pub enum TaskView {
    Members {
        ms: Seq<(Seq<char>, JsonValue)>,
        i: int,
        top: bool,
        parent: Option<Seq<char>>,
        stamp: Option<Seq<char>>,
    },
    Buckets {
        items: Seq<JsonValue>,
        b: int,
        parent: Option<Seq<char>>,
        name: Seq<char>,
        ty: Ty,
        stamp: Option<Seq<char>>,
    },
}

impl<'a> View for Task<'a> {
    type V = TaskView;

    closed spec fn view(&self) -> TaskView {
        match self {
            Task::Members { ms, i, top, parent, stamp } => TaskView::Members {
                ms: members_view(ms@),
                i: *i as int,
                top: *top,
                parent: opt_view(*parent),
                stamp: opt_view(*stamp),
            },
            Task::Buckets { items, b, parent, name, ty, stamp } => TaskView::Buckets {
                items: items_view(items@),
                b: *b as int,
                parent: opt_view(*parent),
                name: name@,
                ty: *ty,
                stamp: opt_view(*stamp),
            },
        }
    }
}

pub open spec fn task_ok(t: TaskView) -> bool {
    match t {
        TaskView::Members { ms, i, .. } => 0 <= i <= ms.len(),
        TaskView::Buckets { items, b, .. } => 0 <= b <= items.len(),
    }
}

/// The results after doing what a task has left.
pub open spec fn task_spec(t: TaskView, rs: Seq<ComputedResultView>) -> Seq<ComputedResultView> {
    match t {
        TaskView::Members { ms, i, top, parent, stamp } => walk_spec(
            ms.subrange(i, ms.len() as int),
            top,
            parent,
            stamp,
            rs,
        ),
        TaskView::Buckets { items, b, parent, name, ty, stamp } => bucket_fold(
            items.subrange(b, items.len() as int),
            parent,
            name,
            ty,
            stamp,
            rs,
        ),
    }
}

/// The results after doing every task, the last pushed first.
pub open spec fn run(s: Seq<TaskView>, rs: Seq<ComputedResultView>) -> Seq<ComputedResultView>
    decreases s.len(),
{
    if s.len() == 0 {
        rs
    } else {
        run(s.subrange(0, s.len() - 1), task_spec(s[s.len() - 1], rs))
    }
}

proof fn lemma_run_push(s: Seq<TaskView>, t: TaskView, rs: Seq<ComputedResultView>)
    ensures
        run(s.push(t), rs) == run(s, task_spec(t, rs)),
{
    assert(s.push(t).subrange(0, s.len() as int) =~= s);
}

// The work left in a walk: each member or bucket counts one plus the work
// of its value; an object also counts the buckets inside its arrays.
pub open spec fn work_value(v: JsonValue) -> nat
    decreases v, 0nat,
{
    match v {
        JsonValue::Object(cm) => 1 + work_members(cm) + work_arrays(cm),
        _ => 0,
    }
}

pub open spec fn work_members(ms: Seq<(Seq<char>, JsonValue)>) -> nat
    decreases ms, 0nat,
{
    if ms.len() == 0 {
        0
    } else {
        1 + work_value(ms[0].1) + work_members(ms.subrange(1, ms.len() as int))
    }
}

pub open spec fn work_arrays(ms: Seq<(Seq<char>, JsonValue)>) -> nat
    decreases ms, 0nat,
{
    if ms.len() == 0 {
        0
    } else {
        (match ms[0].1 {
            JsonValue::Array(items) => work_items(items),
            _ => 0,
        }) + work_arrays(ms.subrange(1, ms.len() as int))
    }
}

pub open spec fn work_items(items: Seq<JsonValue>) -> nat
    decreases items, 0nat,
{
    if items.len() == 0 {
        0
    } else {
        1 + work_value(items[0]) + work_items(items.subrange(1, items.len() as int))
    }
}

pub open spec fn task_work(t: TaskView) -> nat {
    match t {
        TaskView::Members { ms, i, .. } => work_members(ms.subrange(i, ms.len() as int)),
        TaskView::Buckets { items, b, .. } => work_items(items.subrange(b, items.len() as int)),
    }
}

pub open spec fn stack_work(s: Seq<TaskView>) -> nat
    decreases s.len(),
{
    if s.len() == 0 {
        0
    } else {
        stack_work(s.subrange(0, s.len() - 1)) + task_work(s[s.len() - 1])
    }
}

proof fn lemma_stack_work_push(s: Seq<TaskView>, t: TaskView)
    ensures
        stack_work(s.push(t)) == stack_work(s) + task_work(t),
{
    assert(s.push(t).subrange(0, s.len() as int) =~= s);
}

/// An array member's buckets count within its object's work.
proof fn lemma_work_arrays(ms: Seq<(Seq<char>, JsonValue)>, k: int, items: Seq<JsonValue>)
    requires
        0 <= k < ms.len(),
        ms[k].1 == JsonValue::Array(items),
    ensures
        work_items(items) <= work_arrays(ms),
    decreases k,
{
    if k > 0 {
        let rest = ms.subrange(1, ms.len() as int);
        assert(rest[k - 1] == ms[k]);
        lemma_work_arrays(rest, k - 1, items);
    }
}

/// One step into a sequence from index `i`.
proof fn lemma_members_step(ms: Seq<(Seq<char>, JsonValue)>, i: int, top: bool, parent: Option<Seq<char>>, stamp: Option<Seq<char>>, rs: Seq<ComputedResultView>)
    requires
        0 <= i < ms.len(),
    ensures
        walk_spec(ms.subrange(i, ms.len() as int), top, parent, stamp, rs) == walk_spec(
            ms.subrange(i + 1, ms.len() as int),
            top,
            parent,
            stamp,
            member_spec(ms[i].0, ms[i].1, top, parent, stamp, rs),
        ),
        work_members(ms.subrange(i, ms.len() as int)) == 1 + work_value(ms[i].1) + work_members(
            ms.subrange(i + 1, ms.len() as int),
        ),
{
    let t = ms.subrange(i, ms.len() as int);
    assert(t[0] == ms[i]);
    assert(t.subrange(1, t.len() as int) =~= ms.subrange(i + 1, ms.len() as int));
}

proof fn lemma_items_step(items: Seq<JsonValue>, b: int, parent: Option<Seq<char>>, name: Seq<char>, ty: Ty, stamp: Option<Seq<char>>, rs: Seq<ComputedResultView>)
    requires
        0 <= b < items.len(),
    ensures
        bucket_fold(items.subrange(b, items.len() as int), parent, name, ty, stamp, rs) == bucket_fold(
            items.subrange(b + 1, items.len() as int),
            parent,
            name,
            ty,
            stamp,
            bucket_spec(items[b], parent, name, ty, stamp, rs),
        ),
        work_items(items.subrange(b, items.len() as int)) == 1 + work_value(items[b]) + work_items(
            items.subrange(b + 1, items.len() as int),
        ),
{
    let t = items.subrange(b, items.len() as int);
    assert(t[0] == items[b]);
    assert(t.subrange(1, t.len() as int) =~= items.subrange(b + 1, items.len() as int));
}

/// Walks an `aggregations` object with an explicit stack of tasks, so that
/// the call stack stays flat however deep the response is.
fn walk_all(am: &Vec<(String, Json)>, results: &mut Vec<ComputedResult>)
    requires
        results_ok(results_view(old(results)@)),
    ensures
        results_ok(results_view(final(results)@)),
        results_view(final(results)@) == walk_spec(members_view(am@), true, None, None, results_view(old(results)@)),
{
    let ghost target = walk_spec(members_view(am@), true, None, None, results_view(results@));
    let mut stack: Vec<Task> = Vec::new();
    stack.push(Task::Members { ms: am, i: 0, top: true, parent: None, stamp: None });
    proof {
        let sv = stack@.map_values(|t: Task| t@);
        assert(sv =~= Seq::<TaskView>::empty().push(stack@[0]@));
        lemma_run_push(Seq::<TaskView>::empty(), stack@[0]@, results_view(results@));
        assert(members_view(am@).subrange(0, members_view(am@).len() as int) =~= members_view(am@));
        lemma_members_index(am@);
    }
    while stack.len() > 0
        invariant
            results_ok(results_view(results@)),
            forall|k: int| 0 <= k < stack@.len() ==> task_ok(#[trigger] stack@[k]@),
            target == run(stack@.map_values(|t: Task| t@), results_view(results@)),
        decreases stack_work(stack@.map_values(|t: Task| t@)), stack@.len(),
    {
        let ghost sv = stack@.map_values(|t: Task| t@);
        let ghost cur = results_view(results@);
        let t = stack.pop().unwrap();
        let ghost rest = stack@.map_values(|t: Task| t@);
        let ghost tv = t@;
        proof {
            assert(rest =~= sv.subrange(0, sv.len() - 1));
            assert(sv[sv.len() - 1] == tv);
            assert(target == run(rest, task_spec(tv, cur)));
            assert(stack_work(sv) == stack_work(rest) + task_work(tv));
            assert(task_ok(tv));
        }
        match t {
            Task::Members { ms, i, top, parent, stamp } => {
                proof {
                    lemma_members_index(ms@);
                }
                let ghost mv = members_view(ms@);
                if i < ms.len() {
                    let ghost p = opt_view(parent);
                    let ghost st = opt_view(stamp);
                    proof {
                        lemma_members_step(mv, i as int, top, p, st, cur);
                        assert(mv[i as int] == (ms@[i as int].0@, json_view(ms@[i as int].1)));
                    }
                    let next = Task::Members { ms, i: i + 1, top, parent: opt_clone(&parent), stamp: opt_clone(&stamp) };
                    let ghost nv = next@;
                    let ghost k = mv[i as int].0;
                    if (top || !is_reserved_exec(ms[i].0.as_str())) && matches!(&ms[i].1, Json::Object(_)) {
                        match &ms[i].1 {
                            Json::Object(cm) => {
                                let ghost cmv = members_view(cm@);
                                proof {
                                    lemma_members_index(cm@);
                                    assert(mv[i as int].1 == JsonValue::Object(cmv));
                                    assert(cmv.subrange(0, cmv.len() as int) =~= cmv);
                                }
                                let (ty, name) = split_ty_and_name(ms[i].0.as_str());
                                let key = bucket_key(cm);
                                let field = match &stamp {
                                    Some(_) => opt_clone(&stamp),
                                    None => opt_clone(&key),
                                };
                                handle_leaf(cm, &parent, &name, ty, field, results);
                                let ghost r1 = results_view(results@);
                                let ghost x = walk_spec(cmv, false, None, node_key(cmv), r1);
                                let ghost after = buckets_spec(cmv, p, name@, ty, st, x);
                                proof {
                                    lemma_buckets_spec(cmv, p, name@, ty, st, x);
                                    assert(member_spec(k, mv[i as int].1, top, p, st, cur) == after);
                                    assert(target == run(rest, walk_spec(mv.subrange(i + 1, mv.len() as int), top, p, st, after)));
                                    assert(task_work(tv) == 2 + work_members(cmv) + work_arrays(cmv) + task_work(nv));
                                }
                                stack.push(next);
                                let ghost mid = stack@.map_values(|t: Task| t@);
                                proof {
                                    assert(mid =~= rest.push(nv));
                                    lemma_stack_work_push(rest, nv);
                                }
                                match member_index(cm, "buckets") {
                                    Some(bi) => match &cm[bi].1 {
                                        Json::Array(items) => {
                                            let bt = Task::Buckets {
                                                items,
                                                b: 0,
                                                parent: opt_clone(&parent),
                                                name: name.clone(),
                                                ty,
                                                stamp: opt_clone(&stamp),
                                            };
                                            let ghost iv = items_view(items@);
                                            proof {
                                                assert(iv.subrange(0, iv.len() as int) =~= iv);
                                                assert(cmv[bi as int] == (cm@[bi as int].0@, json_view(cm@[bi as int].1)));
                                                assert(after == bucket_fold(iv, p, name@, ty, st, x));
                                                lemma_work_arrays(cmv, bi as int, iv);
                                                lemma_run_push(mid, bt@, x);
                                                lemma_run_push(rest, nv, after);
                                                lemma_stack_work_push(mid, bt@);
                                            }
                                            stack.push(bt);
                                            proof {
                                                assert(stack@.map_values(|t: Task| t@) =~= mid.push(bt@));
                                            }
                                        },
                                        _ => {
                                            proof {
                                                assert(cmv[bi as int] == (cm@[bi as int].0@, json_view(cm@[bi as int].1)));
                                                assert(after == x);
                                                lemma_run_push(rest, nv, x);
                                            }
                                        },
                                    },
                                    None => {
                                        proof {
                                            assert(after == x);
                                            lemma_run_push(rest, nv, x);
                                        }
                                    },
                                }
                                let ghost before = stack@.map_values(|t: Task| t@);
                                proof {
                                    assert(run(before, x) == target);
                                    assert(stack_work(before) <= stack_work(rest) + task_work(nv) + work_arrays(cmv));
                                }
                                let ct = Task::Members { ms: cm, i: 0, top: false, parent: None, stamp: key };
                                proof {
                                    assert(task_spec(ct@, r1) == x);
                                    assert(task_work(ct@) == work_members(cmv));
                                    lemma_run_push(before, ct@, r1);
                                    lemma_stack_work_push(before, ct@);
                                }
                                stack.push(ct);
                                proof {
                                    assert(stack@.map_values(|t: Task| t@) =~= before.push(ct@));
                                }
                            },
                            _ => {},
                        }
                    } else {
                        proof {
                            assert(member_spec(k, mv[i as int].1, top, p, st, cur) == cur);
                            lemma_run_push(rest, nv, cur);
                            lemma_stack_work_push(rest, nv);
                        }
                        stack.push(next);
                        proof {
                            assert(stack@.map_values(|t: Task| t@) =~= rest.push(nv));
                        }
                    }
                } else {
                    proof {
                        assert(mv.subrange(i as int, mv.len() as int).len() == 0);
                    }
                }
            },
            Task::Buckets { items, b, parent, name, ty, stamp } => {
                proof {
                    crate::json::lemma_items_index(items@);
                }
                let ghost iv = items_view(items@);
                if b < items.len() {
                    let ghost p = opt_view(parent);
                    let ghost st = opt_view(stamp);
                    proof {
                        lemma_items_step(iv, b as int, p, name@, ty, st, cur);
                    }
                    let next = Task::Buckets { items, b: b + 1, parent: opt_clone(&parent), name: name.clone(), ty, stamp: opt_clone(&stamp) };
                    let ghost nv = next@;
                    match &items[b] {
                        Json::Object(bm) => {
                            let ghost bmv = members_view(bm@);
                            proof {
                                assert(iv[b as int] == JsonValue::Object(bmv));
                                assert(bmv.subrange(0, bmv.len() as int) =~= bmv);
                            }
                            let bk = bucket_key(bm);
                            if !has_sub_aggregations_exec(bm) {
                                handle_leaf(bm, &parent, &name, ty, bk, results);
                                proof {
                                    lemma_run_push(rest, nv, results_view(results@));
                                    lemma_stack_work_push(rest, nv);
                                }
                                stack.push(next);
                                proof {
                                    assert(stack@.map_values(|t: Task| t@) =~= rest.push(nv));
                                }
                            } else {
                                proof {
                                    lemma_run_push(rest, nv, walk_spec(bmv, false, st, node_key(bmv), cur));
                                    lemma_stack_work_push(rest, nv);
                                }
                                stack.push(next);
                                let ct = Task::Members { ms: bm, i: 0, top: false, parent: opt_clone(&stamp), stamp: bk };
                                let ghost before = stack@.map_values(|t: Task| t@);
                                proof {
                                    assert(before =~= rest.push(nv));
                                    lemma_run_push(before, ct@, cur);
                                    lemma_stack_work_push(before, ct@);
                                }
                                stack.push(ct);
                                proof {
                                    assert(stack@.map_values(|t: Task| t@) =~= before.push(ct@));
                                }
                            }
                        },
                        _ => {
                            proof {
                                lemma_run_push(rest, nv, cur);
                                lemma_stack_work_push(rest, nv);
                            }
                            stack.push(next);
                            proof {
                                assert(stack@.map_values(|t: Task| t@) =~= rest.push(nv));
                            }
                        },
                    }
                } else {
                    proof {
                        assert(iv.subrange(b as int, iv.len() as int).len() == 0);
                    }
                }
            },
        }
    }
    proof {
        assert(stack@.map_values(|t: Task| t@).len() == 0);
    }
}

/// A response document that holds an `aggregations` object.
pub open spec fn has_aggregations(doc: JsonValue) -> bool {
    match doc {
        JsonValue::Object(ms) => match lookup(ms, "aggregations"@) {
            Some(JsonValue::Object(_)) => true,
            _ => false,
        },
        _ => false,
    }
}

/// The flattened results of an aggregation request.
#[derive(Debug)]
pub struct Response {
    /// One result per parent and name.
    pub aggregations: Vec<ComputedResult>,
}

impl Response {
    /// Flattens an aggregation response document into one result per parent
    /// bucket and aggregation name, in the order the document first names
    /// them. A document without an `aggregations` object is malformed.
    pub fn from_json(doc: &Json) -> (r: Result<Response, DecodeError>)
        ensures
            r is Err <==> !has_aggregations(doc@),
            r is Err ==> r->Err_0@ == (DecodeErrorView::MalformedResponse {
                reason: "missing_aggregations"@,
            }),
            r is Ok ==> results_view(r->Ok_0.aggregations@) == flatten(doc@),
            r is Ok ==> results_ok(results_view(r->Ok_0.aggregations@)),
    {
        let missing = "missing_aggregations";
        match doc {
            Json::Object(ms) => match get_member(ms, "aggregations") {
                Some(Json::Object(am)) => {
                    let mut results: Vec<ComputedResult> = Vec::new();
                    proof {
                        assert(results_view(results@) =~= Seq::<ComputedResultView>::empty());
                    }
                    walk_all(am, &mut results);
                    Ok(Response { aggregations: results })
                },
                _ => Err(malformed_response(missing)),
            },
            _ => Err(malformed_response(missing)),
        }
    }
}

/// The lower-case tag of a known type.
pub open spec fn ty_tag(t: Ty) -> Option<Seq<char>> {
    match t {
        Ty::Avg => Some("avg"@),
        Ty::WeightedAvg => Some("weighted_avg"@),
        Ty::Cardinality => Some("cardinality"@),
        Ty::Max => Some("max"@),
        Ty::Min => Some("min"@),
        Ty::MedianAbsoluteDeviation => Some("median_absolute_deviation"@),
        Ty::Percentiles => Some("percentiles"@),
        Ty::PercentileRanks => Some("percentile_ranks"@),
        Ty::Stats => Some("stats"@),
        Ty::ExtendedStats => Some("extended_stats"@),
        Ty::Sum => Some("sum"@),
        Ty::ValueCount => Some("value_count"@),
        Ty::Filter => Some("filter"@),
        Ty::Filters => Some("filters"@),
        Ty::Terms => Some("terms"@),
        Ty::SignificantTerms => Some("sterms"@),
        Ty::Range => Some("range"@),
        Ty::DateRange => Some("date_range"@),
        Ty::DateHistogram => Some("date_histogram"@),
        Ty::AutoDateHistogram => Some("auto_date_histogram"@),
        Ty::BucketScript => Some("bucket_script"@),
        Ty::BucketSelector => Some("bucket_selector"@),
        Ty::BucketSort => Some("bucket_sort"@),
        Ty::Nested => Some("nested"@),
        Ty::ReverseNested => Some("reverse_nested"@),
        Ty::Unknown => None,
    }
}

/// A tag names a known type only when it is that type's tag; any other tag,
/// and a key without `#`, gives `Unknown` rather than an error.
pub proof fn lemma_unknown_tag(s: Seq<char>)
    ensures
        ty_of(s) == Ty::Unknown || ty_tag(ty_of(s)) == Some(s),
        first_hash(s) >= s.len() ==> split_spec(s).0 == Ty::Unknown,
{
}

} // verus!
