//! Parts of the search request and response envelopes: the hit count,
//! highlight options and scripts.
use vstd::prelude::*;

use crate::error::{invalid_enum, invalid_number, malformed_leaf, DecodeError, DecodeErrorView};
use crate::json::{
    empty_members, get_member, json_str, lookup, members_view, push_member, str_eq, Json,
    JsonValue,
};
use crate::leaf::{
    obj_opt, opt_json_member, opt_str_member, push_opt_json, push_opt_str, push_req_json,
    push_req_num, read_obj_opt, read_req_str, req_str, strs_json, strs_to_json,
};
use crate::bulk::{err_from, uint_member, ErrResponse, ErrResponseView};
use crate::query::{bool_is_empty, compound_json, CompoundQuery, CompoundQueryView};
use crate::sort::{result_view_copy, sort_to_json, Sort, SortView};
use crate::sorted_value::{
    all_digits, decimal, digits_value, parse_u64, sorted_value_from, sorted_value_json, u64_text,
    SortedValue, SortedValueView,
};

verus! {

/// Whether a hit count is exact or a lower bound.
#[derive(Clone, Copy, Debug, PartialEq, Eq, Structural)]
pub enum CountRelation {
    EqualTo,
    GreaterThanOrEqualTo,
}

pub open spec fn count_relation_name(e: CountRelation) -> Seq<char> {
    match e {
        CountRelation::EqualTo => "eq"@,
        CountRelation::GreaterThanOrEqualTo => "gte"@,
    }
}

pub open spec fn count_relation_of(s: Seq<char>) -> Option<CountRelation> {
    if s == "eq"@ {
        Some(CountRelation::EqualTo)
    } else if s == "gte"@ {
        Some(CountRelation::GreaterThanOrEqualTo)
    } else {
        None
    }
}

impl CountRelation {
    /// The wire name of this value.
    pub fn name(&self) -> (r: &'static str)
        ensures
            r@ == count_relation_name(*self),
    {
        match self {
            CountRelation::EqualTo => "eq",
            CountRelation::GreaterThanOrEqualTo => "gte",
        }
    }

    /// The value a wire name denotes.
    pub fn parse(s: &str) -> (r: Option<CountRelation>)
        ensures
            r == count_relation_of(s@),
    {
        if str_eq(s, "eq") {
            Some(CountRelation::EqualTo)
        } else if str_eq(s, "gte") {
            Some(CountRelation::GreaterThanOrEqualTo)
        } else {
            None
        }
    }
}

/// The highlighter implementation to use.
#[derive(Clone, Copy, Debug, PartialEq, Eq, Structural)]
pub enum HighlighterType {
    Unified,
    Plain,
    Fvh,
}

pub open spec fn highlighter_type_name(e: HighlighterType) -> Seq<char> {
    match e {
        HighlighterType::Unified => "unified"@,
        HighlighterType::Plain => "plain"@,
        HighlighterType::Fvh => "fvh"@,
    }
}

pub open spec fn highlighter_type_of(s: Seq<char>) -> Option<HighlighterType> {
    if s == "unified"@ {
        Some(HighlighterType::Unified)
    } else if s == "plain"@ {
        Some(HighlighterType::Plain)
    } else if s == "fvh"@ {
        Some(HighlighterType::Fvh)
    } else {
        None
    }
}

impl HighlighterType {
    /// The wire name of this value.
    pub fn name(&self) -> (r: &'static str)
        ensures
            r@ == highlighter_type_name(*self),
    {
        match self {
            HighlighterType::Unified => "unified",
            HighlighterType::Plain => "plain",
            HighlighterType::Fvh => "fvh",
        }
    }

    /// The value a wire name denotes.
    pub fn parse(s: &str) -> (r: Option<HighlighterType>)
        ensures
            r == highlighter_type_of(s@),
    {
        if str_eq(s, "unified") {
            Some(HighlighterType::Unified)
        } else if str_eq(s, "plain") {
            Some(HighlighterType::Plain)
        } else if str_eq(s, "fvh") {
            Some(HighlighterType::Fvh)
        } else {
            None
        }
    }
}

/// The language a script is written in.
#[derive(Clone, Copy, Debug, PartialEq, Eq, Structural)]
pub enum ScriptLanguage {
    Expressions,
    Painless,
}

pub open spec fn script_language_name(e: ScriptLanguage) -> Seq<char> {
    match e {
        ScriptLanguage::Expressions => "Expressions"@,
        ScriptLanguage::Painless => "Painless"@,
    }
}

pub open spec fn script_language_of(s: Seq<char>) -> Option<ScriptLanguage> {
    if s == "Expressions"@ {
        Some(ScriptLanguage::Expressions)
    } else if s == "Painless"@ {
        Some(ScriptLanguage::Painless)
    } else {
        None
    }
}

impl ScriptLanguage {
    /// The wire name of this value.
    pub fn name(&self) -> (r: &'static str)
        ensures
            r@ == script_language_name(*self),
    {
        match self {
            ScriptLanguage::Expressions => "Expressions",
            ScriptLanguage::Painless => "Painless",
        }
    }

    /// The value a wire name denotes.
    pub fn parse(s: &str) -> (r: Option<ScriptLanguage>)
        ensures
            r == script_language_of(s@),
    {
        if str_eq(s, "Expressions") {
            Some(ScriptLanguage::Expressions)
        } else if str_eq(s, "Painless") {
            Some(ScriptLanguage::Painless)
        } else {
            None
        }
    }
}

/// The total number of hits: exact, or a lower bound.
#[derive(Clone, Copy, Debug, PartialEq, Eq, Structural)]
pub struct Count {
    pub relation: CountRelation,
    pub value: u64,
}

/// The count `{ "value": n, "relation": "eq" | "gte" }` denotes.
pub open spec fn count_from(v: JsonValue) -> Result<Count, DecodeErrorView> {
    match v {
        JsonValue::Object(m) => match lookup(m, "relation"@) {
            Some(JsonValue::Str(t)) => match count_relation_of(t) {
                None => Err(DecodeErrorView::InvalidEnum { name: "relation"@, value: t }),
                Some(relation) => match lookup(m, "value"@) {
                    Some(JsonValue::Number(n)) => if all_digits(n) && digits_value(n) <= u64::MAX {
                        Ok(Count { relation, value: digits_value(n) as u64 })
                    } else {
                        Err(DecodeErrorView::InvalidNumber { field: "value"@, value: n })
                    },
                    _ => Err(DecodeErrorView::MalformedLeaf { field: "total"@, missing: "value"@ }),
                },
            },
            _ => Err(DecodeErrorView::MalformedLeaf { field: "total"@, missing: "relation"@ }),
        },
        _ => Err(DecodeErrorView::MalformedLeaf { field: "total"@, missing: "value"@ }),
    }
}

impl Count {
    /// Reads the `total` of a hits envelope.
    pub fn from_json(j: &Json) -> (r: Result<Count, DecodeError>)
        ensures
            result_view_copy(r) == count_from(j@),
    {
        match j {
            Json::Object(m) => match get_member(m, "relation") {
                Some(Json::Str(t)) => match CountRelation::parse(t.as_str()) {
                    None => Err(invalid_enum("relation", t.as_str())),
                    Some(relation) => match get_member(m, "value") {
                        Some(Json::Number(n)) => match parse_u64(n.as_str()) {
                            Some(value) => Ok(Count { relation, value }),
                            None => Err(invalid_number("value", n.as_str())),
                        },
                        _ => Err(malformed_leaf("total", "value")),
                    },
                },
                _ => Err(malformed_leaf("total", "relation")),
            },
            _ => Err(malformed_leaf("total", "value")),
        }
    }
}

/// How to highlight matches in the returned documents.
#[derive(Debug)]
pub struct HighlightOptions {
    /// The fields to highlight, each with its own options.
    pub fields: Json,
    pub ty: HighlighterType,
    /// Decimal text, like every number below.
    pub number_of_fragments: String,
    pub fragment_size: String,
    pub boundary_max_scan: String,
    pub tags_schema: Option<String>,
    pub pre_tags: Vec<String>,
    pub post_tags: Vec<String>,
    pub require_field_match: bool,
}

pub struct HighlightOptionsView {
    pub fields: JsonValue,
    pub ty: HighlighterType,
    pub number_of_fragments: Seq<char>,
    pub fragment_size: Seq<char>,
    pub boundary_max_scan: Seq<char>,
    pub tags_schema: Option<Seq<char>>,
    pub pre_tags: Seq<Seq<char>>,
    pub post_tags: Seq<Seq<char>>,
    pub require_field_match: bool,
}

impl View for HighlightOptions {
    type V = HighlightOptionsView;

    open spec fn view(&self) -> HighlightOptionsView {
        HighlightOptionsView {
            fields: self.fields@,
            ty: self.ty,
            number_of_fragments: self.number_of_fragments@,
            fragment_size: self.fragment_size@,
            boundary_max_scan: self.boundary_max_scan@,
            tags_schema: crate::json::opt_view(self.tags_schema),
            pre_tags: crate::json::strings_view(self.pre_tags@),
            post_tags: crate::json::strings_view(self.post_tags@),
            require_field_match: self.require_field_match,
        }
    }
}

/// `name: [..]` for a non-empty list of tags.
pub open spec fn tags_member(name: Seq<char>, v: Seq<Seq<char>>) -> Seq<(Seq<char>, JsonValue)> {
    if v.len() == 0 {
        seq![]
    } else {
        seq![(name, strs_json(v))]
    }
}

pub open spec fn highlight_members(h: HighlightOptionsView) -> Seq<(Seq<char>, JsonValue)> {
    seq![
        ("fields"@, h.fields),
        ("type"@, JsonValue::Str(highlighter_type_name(h.ty))),
        ("number_of_fragments"@, JsonValue::Number(h.number_of_fragments)),
        ("fragment_size"@, JsonValue::Number(h.fragment_size)),
        ("boundary_max_scan"@, JsonValue::Number(h.boundary_max_scan)),
    ] + opt_str_member("tags_schema"@, h.tags_schema) + tags_member("pre_tags"@, h.pre_tags)
        + tags_member("post_tags"@, h.post_tags) + seq![
        ("require_field_match"@, JsonValue::Bool(h.require_field_match)),
    ]
}

fn push_tags(ms: &mut Vec<(String, Json)>, name: &str, v: &Vec<String>)
    ensures
        members_view(final(ms)@) == members_view(old(ms)@) + tags_member(name@, crate::json::strings_view(v@)),
{
    if v.len() > 0 {
        push_member(ms, name, strs_to_json(v));
    }
    proof {
        assert(members_view(ms@) =~= members_view(old(ms)@) + tags_member(name@, crate::json::strings_view(v@)));
    }
}

impl HighlightOptions {
    /// Highlighting of every field with the unified highlighter, five
    /// fragments of 100 characters, and the `styled` tags.
    pub fn default() -> (r: HighlightOptions)
        ensures
            r@.fields == JsonValue::Object(seq![("*"@, JsonValue::Object(seq![]))]),
            r@.ty == HighlighterType::Unified,
            r@.number_of_fragments == "5"@,
            r@.fragment_size == "100"@,
            r@.boundary_max_scan == "20"@,
            r@.tags_schema == Some("styled"@),
            r@.pre_tags.len() == 0,
            r@.post_tags.len() == 0,
            r@.require_field_match,
    {
        let all = crate::json::single_member("*", Json::Object(empty_members()));
        HighlightOptions {
            fields: all,
            ty: HighlighterType::Unified,
            number_of_fragments: "5".to_owned(),
            fragment_size: "100".to_owned(),
            boundary_max_scan: "20".to_owned(),
            tags_schema: Some("styled".to_owned()),
            pre_tags: Vec::new(),
            post_tags: Vec::new(),
            require_field_match: true,
        }
    }

    /// Encodes the options; empty tag lists are left out.
    pub fn to_json(&self) -> (r: Json)
        ensures
            r@ == JsonValue::Object(highlight_members(self@)),
    {
        let mut ms = empty_members();
        push_req_json(&mut ms, "fields", &self.fields);
        push_member(&mut ms, "type", json_str(self.ty.name()));
        push_req_num(&mut ms, "number_of_fragments", &self.number_of_fragments);
        push_req_num(&mut ms, "fragment_size", &self.fragment_size);
        push_req_num(&mut ms, "boundary_max_scan", &self.boundary_max_scan);
        push_opt_str(&mut ms, "tags_schema", &self.tags_schema);
        push_tags(&mut ms, "pre_tags", &self.pre_tags);
        push_tags(&mut ms, "post_tags", &self.post_tags);
        push_member(&mut ms, "require_field_match", Json::Bool(self.require_field_match));
        proof {
            assert(members_view(ms@) =~= highlight_members(self@));
        }
        Json::Object(ms)
    }
}

/// A script: its source and optional parameters.
#[derive(Debug)]
pub struct Script {
    pub source: String,
    pub params: Option<Json>,
}

pub struct ScriptView {
    pub source: Seq<char>,
    pub params: Option<JsonValue>,
}

impl View for Script {
    type V = ScriptView;

    open spec fn view(&self) -> ScriptView {
        ScriptView { source: self.source@, params: crate::json::opt_json_view(self.params) }
    }
}

pub open spec fn script_json(s: ScriptView) -> JsonValue {
    JsonValue::Object(seq![("source"@, JsonValue::Str(s.source))] + opt_json_member("params"@, s.params))
}

pub open spec fn script_from(v: JsonValue) -> Result<ScriptView, DecodeErrorView> {
    match v {
        JsonValue::Object(m) => match req_str(m, "source"@, "script"@) {
            Err(e) => Err(e),
            Ok(source) => match obj_opt(m, "params"@, "script"@) {
                Err(e) => Err(e),
                Ok(params) => Ok(ScriptView { source, params }),
            },
        },
        _ => Err(DecodeErrorView::MalformedLeaf { field: "script"@, missing: "source"@ }),
    }
}

impl Script {
    pub fn to_json(&self) -> (r: Json)
        ensures
            r@ == script_json(self@),
    {
        let mut ms = empty_members();
        push_member(&mut ms, "source", json_str(self.source.as_str()));
        push_opt_json(&mut ms, "params", &self.params);
        proof {
            assert(members_view(ms@) =~= seq![("source"@, JsonValue::Str(self.source@))] + opt_json_member("params"@, self@.params));
        }
        Json::Object(ms)
    }

    pub fn from_json(j: &Json) -> (r: Result<Script, DecodeError>)
        ensures
            crate::error::result_view(r) == script_from(j@),
    {
        match j {
            Json::Object(m) => {
                let source = match read_req_str(m, "source", "script") {
                    Ok(v) => v,
                    Err(e) => return Err(e),
                };
                let params = match read_obj_opt(m, "params", "script") {
                    Ok(v) => v,
                    Err(e) => return Err(e),
                };
                Ok(Script { source, params })
            },
            _ => Err(malformed_leaf("script", "source")),
        }
    }
}

/// An array of strings, if `v` is one.
pub open spec fn strs_of(v: JsonValue) -> Option<Seq<Seq<char>>> {
    match v {
        JsonValue::Array(items) => if forall|i: int| 0 <= i < items.len() ==> #[trigger] items[i] is Str {
            Some(items.map_values(|x: JsonValue| x->Str_0))
        } else {
            None
        },
        _ => None,
    }
}

/// The `highlight` of a hit: field name to snippets; absent or `null` is
/// none.
pub open spec fn highlight_from(h: Option<JsonValue>) -> Result<Seq<(Seq<char>, Seq<Seq<char>>)>, DecodeErrorView> {
    match h {
        None => Ok(seq![]),
        Some(JsonValue::Null) => Ok(seq![]),
        Some(JsonValue::Object(fm)) => if forall|i: int| 0 <= i < fm.len() ==> #[trigger] strs_of(fm[i].1) is Some {
            Ok(fm.map_values(|p: (Seq<char>, JsonValue)| (p.0, strs_of(p.1)->0)))
        } else {
            Err(DecodeErrorView::MalformedLeaf { field: "hit"@, missing: "highlight"@ })
        },
        _ => Err(DecodeErrorView::MalformedLeaf { field: "hit"@, missing: "highlight"@ }),
    }
}

/// The `sort` values of a hit; absent or `null` is none.
pub open spec fn hit_sort_from(v: Option<JsonValue>) -> Result<Seq<SortedValueView>, DecodeErrorView> {
    match v {
        None => Ok(seq![]),
        Some(JsonValue::Null) => Ok(seq![]),
        Some(JsonValue::Array(items)) => if forall|i: int| 0 <= i < items.len() ==> #[trigger] sorted_value_from(items[i]) is Ok {
            Ok(items.map_values(|x: JsonValue| sorted_value_from(x)->Ok_0))
        } else {
            Err(DecodeErrorView::MalformedLeaf { field: "hit"@, missing: "sort"@ })
        },
        _ => Err(DecodeErrorView::MalformedLeaf { field: "hit"@, missing: "sort"@ }),
    }
}

/// An optional unsigned member; absent or `null` is none.
pub open spec fn opt_uint(m: Seq<(Seq<char>, JsonValue)>, name: Seq<char>) -> Result<Option<nat>, DecodeErrorView> {
    match lookup(m, name) {
        None => Ok(None),
        Some(JsonValue::Null) => Ok(None),
        Some(JsonValue::Number(t)) => if all_digits(t) && digits_value(t) <= u64::MAX {
            Ok(Some(digits_value(t)))
        } else {
            Err(DecodeErrorView::InvalidNumber { field: name, value: t })
        },
        _ => Err(DecodeErrorView::InvalidNumber { field: name, value: ""@ }),
    }
}

/// An optional number kept as text; absent or `null` is none.
pub open spec fn opt_score(m: Seq<(Seq<char>, JsonValue)>, name: Seq<char>) -> Result<Option<Seq<char>>, DecodeErrorView> {
    match lookup(m, name) {
        None => Ok(None),
        Some(JsonValue::Null) => Ok(None),
        Some(JsonValue::Number(t)) => Ok(Some(t)),
        _ => Err(DecodeErrorView::InvalidNumber { field: name, value: ""@ }),
    }
}

/// One matching document.
#[derive(Debug)]
pub struct Hit {
    pub id: String,
    pub index: String,
    pub source: Json,
    pub version: Option<u64>,
    pub seq_no: Option<u64>,
    pub primary_term: Option<u64>,
    /// The relevance score, as decimal text.
    pub score: Option<String>,
    pub highlight: Vec<(String, Vec<String>)>,
    /// The values the hit was sorted by, the cursor for the next page.
    pub sort: Vec<SortedValue>,
}

pub struct HitView {
    pub id: Seq<char>,
    pub index: Seq<char>,
    pub source: JsonValue,
    pub version: Option<nat>,
    pub seq_no: Option<nat>,
    pub primary_term: Option<nat>,
    pub score: Option<Seq<char>>,
    pub highlight: Seq<(Seq<char>, Seq<Seq<char>>)>,
    pub sort: Seq<SortedValueView>,
}

pub open spec fn opt_u64_view(v: Option<u64>) -> Option<nat> {
    match v {
        Some(n) => Some(n as nat),
        None => None,
    }
}

impl View for Hit {
    type V = HitView;

    open spec fn view(&self) -> HitView {
        HitView {
            id: self.id@,
            index: self.index@,
            source: self.source@,
            version: opt_u64_view(self.version),
            seq_no: opt_u64_view(self.seq_no),
            primary_term: opt_u64_view(self.primary_term),
            score: crate::json::opt_view(self.score),
            highlight: self.highlight@.map_values(|p: (String, Vec<String>)| (p.0@, crate::json::strings_view(p.1@))),
            sort: self.sort@.map_values(|v: SortedValue| v@),
        }
    }
}

pub open spec fn hit_from(v: JsonValue) -> Result<HitView, DecodeErrorView> {
    match v {
        JsonValue::Object(m) => match req_str(m, "_id"@, "hit"@) {
            Err(e) => Err(e),
            Ok(id) => match req_str(m, "_index"@, "hit"@) {
                Err(e) => Err(e),
                Ok(index) => match lookup(m, "_source"@) {
                    None => Err(DecodeErrorView::MalformedLeaf { field: "hit"@, missing: "_source"@ }),
                    Some(source) => match opt_uint(m, "_version"@) {
                        Err(e) => Err(e),
                        Ok(version) => match opt_uint(m, "_seq_no"@) {
                            Err(e) => Err(e),
                            Ok(seq_no) => match opt_uint(m, "_primary_term"@) {
                                Err(e) => Err(e),
                                Ok(primary_term) => match opt_score(m, "_score"@) {
                                    Err(e) => Err(e),
                                    Ok(score) => match highlight_from(lookup(m, "highlight"@)) {
                                        Err(e) => Err(e),
                                        Ok(highlight) => match hit_sort_from(lookup(m, "sort"@)) {
                                            Err(e) => Err(e),
                                            Ok(sort) => Ok(
                                                HitView {
                                                    id,
                                                    index,
                                                    source,
                                                    version,
                                                    seq_no,
                                                    primary_term,
                                                    score,
                                                    highlight,
                                                    sort,
                                                },
                                            ),
                                        },
                                    },
                                },
                            },
                        },
                    },
                },
            },
        },
        _ => Err(DecodeErrorView::MalformedLeaf { field: "hit"@, missing: "_id"@ }),
    }
}

fn read_opt_uint(m: &Vec<(String, Json)>, name: &str) -> (r: Result<Option<u64>, DecodeError>)
    ensures
        match r {
            Ok(v) => opt_uint(members_view(m@), name@) == Ok::<Option<nat>, DecodeErrorView>(opt_u64_view(v)),
            Err(e) => opt_uint(members_view(m@), name@) == Err::<Option<nat>, DecodeErrorView>(e@),
        },
{
    match get_member(m, name) {
        None => Ok(None),
        Some(Json::Null) => Ok(None),
        Some(Json::Number(t)) => match parse_u64(t.as_str()) {
            Some(n) => Ok(Some(n)),
            None => Err(invalid_number(name, t.as_str())),
        },
        _ => Err(invalid_number(name, "")),
    }
}

fn read_opt_score(m: &Vec<(String, Json)>, name: &str) -> (r: Result<Option<String>, DecodeError>)
    ensures
        match r {
            Ok(v) => opt_score(members_view(m@), name@) == Ok::<Option<Seq<char>>, DecodeErrorView>(crate::json::opt_view(v)),
            Err(e) => opt_score(members_view(m@), name@) == Err::<Option<Seq<char>>, DecodeErrorView>(e@),
        },
{
    match get_member(m, name) {
        None => Ok(None),
        Some(Json::Null) => Ok(None),
        Some(Json::Number(t)) => Ok(Some(t.clone())),
        _ => Err(invalid_number(name, "")),
    }
}

fn strs_of_json(j: &Json) -> (r: Option<Vec<String>>)
    ensures
        match r {
            Some(v) => strs_of(j@) == Some(crate::json::strings_view(v@)),
            None => strs_of(j@) is None,
        },
{
    match j {
        Json::Array(items) => {
            proof {
                crate::json::lemma_items_index(items@);
            }
            let ghost iv = crate::json::items_view(items@);
            let mut out: Vec<String> = Vec::new();
            let mut i: usize = 0;
            while i < items.len()
                invariant
                    0 <= i <= items.len(),
                    iv == crate::json::items_view(items@),
                    iv.len() == items@.len(),
                    j@ == JsonValue::Array(iv),
                    forall|k: int| 0 <= k < items@.len() ==> #[trigger] iv[k] == crate::json::json_view(items@[k]),
                    out@.len() == i,
                    forall|k: int| 0 <= k < i ==> #[trigger] iv[k] is Str && iv[k]->Str_0 == out@[k]@,
                decreases items.len() - i,
            {
                match &items[i] {
                    Json::Str(t) => out.push(t.clone()),
                    _ => {
                        assert(!(iv[i as int] is Str));
                        return None;
                    },
                }
                i = i + 1;
            }
            proof {
                assert(crate::json::strings_view(out@) =~= iv.map_values(|x: JsonValue| x->Str_0));
            }
            Some(out)
        },
        _ => None,
    }
}

fn read_highlight(m: &Vec<(String, Json)>) -> (r: Result<Vec<(String, Vec<String>)>, DecodeError>)
    ensures
        match r {
            Ok(v) => highlight_from(lookup(members_view(m@), "highlight"@)) == Ok::<Seq<(Seq<char>, Seq<Seq<char>>)>, DecodeErrorView>(
                v@.map_values(|p: (String, Vec<String>)| (p.0@, crate::json::strings_view(p.1@))),
            ),
            Err(e) => highlight_from(lookup(members_view(m@), "highlight"@)) == Err::<Seq<(Seq<char>, Seq<Seq<char>>)>, DecodeErrorView>(e@),
        },
{
    match get_member(m, "highlight") {
        None => {
            let v: Vec<(String, Vec<String>)> = Vec::new();
            proof {
                assert(v@.map_values(|p: (String, Vec<String>)| (p.0@, crate::json::strings_view(p.1@))) =~= seq![]);
            }
            Ok(v)
        },
        Some(Json::Null) => {
            let v: Vec<(String, Vec<String>)> = Vec::new();
            proof {
                assert(v@.map_values(|p: (String, Vec<String>)| (p.0@, crate::json::strings_view(p.1@))) =~= seq![]);
            }
            Ok(v)
        },
        Some(Json::Object(fm)) => {
            proof {
                crate::json::lemma_members_index(fm@);
            }
            let ghost mv = members_view(fm@);
            let mut out: Vec<(String, Vec<String>)> = Vec::new();
            let mut i: usize = 0;
            while i < fm.len()
                invariant
                    0 <= i <= fm.len(),
                    mv == members_view(fm@),
                    mv.len() == fm@.len(),
                    lookup(members_view(m@), "highlight"@) == Some(JsonValue::Object(mv)),
                    forall|k: int| 0 <= k < fm@.len() ==> #[trigger] mv[k] == (fm@[k].0@, crate::json::json_view(fm@[k].1)),
                    out@.len() == i,
                    forall|k: int| 0 <= k < i ==> #[trigger] strs_of(mv[k].1) is Some && (mv[k].0, strs_of(mv[k].1)->0) == (out@[k].0@, crate::json::strings_view(out@[k].1@)),
                decreases fm.len() - i,
            {
                match strs_of_json(&fm[i].1) {
                    Some(v) => out.push((fm[i].0.clone(), v)),
                    None => {
                        assert(!(strs_of(mv[i as int].1) is Some));
                        return Err(malformed_leaf("hit", "highlight"));
                    },
                }
                i = i + 1;
            }
            proof {
                assert(out@.map_values(|p: (String, Vec<String>)| (p.0@, crate::json::strings_view(p.1@))) =~= mv.map_values(|p: (Seq<char>, JsonValue)| (p.0, strs_of(p.1)->0)));
            }
            Ok(out)
        },
        _ => Err(malformed_leaf("hit", "highlight")),
    }
}

fn read_hit_sort(m: &Vec<(String, Json)>) -> (r: Result<Vec<SortedValue>, DecodeError>)
    ensures
        match r {
            Ok(v) => hit_sort_from(lookup(members_view(m@), "sort"@)) == Ok::<Seq<SortedValueView>, DecodeErrorView>(v@.map_values(|x: SortedValue| x@)),
            Err(e) => hit_sort_from(lookup(members_view(m@), "sort"@)) == Err::<Seq<SortedValueView>, DecodeErrorView>(e@),
        },
{
    match get_member(m, "sort") {
        None => {
            let v: Vec<SortedValue> = Vec::new();
            proof {
                assert(v@.map_values(|x: SortedValue| x@) =~= seq![]);
            }
            Ok(v)
        },
        Some(Json::Null) => {
            let v: Vec<SortedValue> = Vec::new();
            proof {
                assert(v@.map_values(|x: SortedValue| x@) =~= seq![]);
            }
            Ok(v)
        },
        Some(Json::Array(items)) => {
            proof {
                crate::json::lemma_items_index(items@);
            }
            let ghost iv = crate::json::items_view(items@);
            let mut out: Vec<SortedValue> = Vec::new();
            let mut i: usize = 0;
            while i < items.len()
                invariant
                    0 <= i <= items.len(),
                    iv == crate::json::items_view(items@),
                    iv.len() == items@.len(),
                    lookup(members_view(m@), "sort"@) == Some(JsonValue::Array(iv)),
                    forall|k: int| 0 <= k < items@.len() ==> #[trigger] iv[k] == crate::json::json_view(items@[k]),
                    out@.len() == i,
                    forall|k: int| 0 <= k < i ==> #[trigger] sorted_value_from(iv[k]) == Ok::<SortedValueView, DecodeErrorView>(out@[k]@),
                decreases items.len() - i,
            {
                match SortedValue::parse(&items[i]) {
                    Ok(v) => out.push(v),
                    Err(_) => {
                        assert(!(sorted_value_from(iv[i as int]) is Ok));
                        return Err(malformed_leaf("hit", "sort"));
                    },
                }
                i = i + 1;
            }
            proof {
                assert(out@.map_values(|x: SortedValue| x@) =~= iv.map_values(|x: JsonValue| sorted_value_from(x)->Ok_0));
            }
            Ok(out)
        },
        _ => Err(malformed_leaf("hit", "sort")),
    }
}

impl Hit {
    pub fn from_json(j: &Json) -> (r: Result<Hit, DecodeError>)
        ensures
            crate::error::result_view(r) == hit_from(j@),
    {
        let m = match j {
            Json::Object(m) => m,
            _ => return Err(malformed_leaf("hit", "_id")),
        };
        let id = match read_req_str(m, "_id", "hit") {
            Ok(v) => v,
            Err(e) => return Err(e),
        };
        let index = match read_req_str(m, "_index", "hit") {
            Ok(v) => v,
            Err(e) => return Err(e),
        };
        let source = match get_member(m, "_source") {
            Some(s) => s.deep_clone(),
            None => return Err(malformed_leaf("hit", "_source")),
        };
        let version = match read_opt_uint(m, "_version") {
            Ok(v) => v,
            Err(e) => return Err(e),
        };
        let seq_no = match read_opt_uint(m, "_seq_no") {
            Ok(v) => v,
            Err(e) => return Err(e),
        };
        let primary_term = match read_opt_uint(m, "_primary_term") {
            Ok(v) => v,
            Err(e) => return Err(e),
        };
        let score = match read_opt_score(m, "_score") {
            Ok(v) => v,
            Err(e) => return Err(e),
        };
        let highlight = match read_highlight(m) {
            Ok(v) => v,
            Err(e) => return Err(e),
        };
        let sort = match read_hit_sort(m) {
            Ok(v) => v,
            Err(e) => return Err(e),
        };
        Ok(Hit { id, index, source, version, seq_no, primary_term, score, highlight, sort })
    }
}

/// Each hit decoded in order; the first failure is the result.
pub open spec fn hit_list_from(items: Seq<JsonValue>) -> Result<Seq<HitView>, DecodeErrorView>
    decreases items.len(),
{
    if items.len() == 0 {
        Ok(Seq::empty())
    } else {
        match hit_from(items[0]) {
            Err(e) => Err(e),
            Ok(h) => match hit_list_from(items.subrange(1, items.len() as int)) {
                Err(e) => Err(e),
                Ok(rest) => Ok(seq![h] + rest),
            },
        }
    }
}

/// The hits envelope of a successful search.
#[derive(Debug)]
pub struct Hits {
    pub total: Count,
    /// The highest score, as decimal text.
    pub max_score: Option<String>,
    pub hits: Vec<Hit>,
}

pub struct HitsView {
    pub total: Count,
    pub max_score: Option<Seq<char>>,
    pub hits: Seq<HitView>,
}

impl View for Hits {
    type V = HitsView;

    open spec fn view(&self) -> HitsView {
        HitsView {
            total: self.total,
            max_score: crate::json::opt_view(self.max_score),
            hits: self.hits@.map_values(|h: Hit| h@),
        }
    }
}

pub open spec fn hits_from(v: JsonValue) -> Result<HitsView, DecodeErrorView> {
    match v {
        JsonValue::Object(m) => match lookup(m, "total"@) {
            None => Err(DecodeErrorView::MalformedLeaf { field: "hits"@, missing: "total"@ }),
            Some(t) => match count_from(t) {
                Err(e) => Err(e),
                Ok(total) => match opt_score(m, "max_score"@) {
                    Err(e) => Err(e),
                    Ok(max_score) => match lookup(m, "hits"@) {
                        Some(JsonValue::Array(items)) => match hit_list_from(items) {
                            Err(e) => Err(e),
                            Ok(hits) => Ok(HitsView { total, max_score, hits }),
                        },
                        _ => Err(DecodeErrorView::MalformedLeaf { field: "hits"@, missing: "hits"@ }),
                    },
                },
            },
        },
        _ => Err(DecodeErrorView::MalformedResponse { reason: "hits"@ }),
    }
}

impl Hits {
    pub fn from_json(j: &Json) -> (r: Result<Hits, DecodeError>)
        ensures
            crate::error::result_view(r) == hits_from(j@),
    {
        let m = match j {
            Json::Object(m) => m,
            _ => return Err(crate::error::malformed_response("hits")),
        };
        let total = match get_member(m, "total") {
            None => return Err(malformed_leaf("hits", "total")),
            Some(t) => match Count::from_json(t) {
                Ok(c) => c,
                Err(e) => return Err(e),
            },
        };
        let max_score = match read_opt_score(m, "max_score") {
            Ok(v) => v,
            Err(e) => return Err(e),
        };
        let items = match get_member(m, "hits") {
            Some(Json::Array(items)) => items,
            _ => return Err(malformed_leaf("hits", "hits")),
        };
        proof {
            crate::json::lemma_items_index(items@);
        }
        let ghost iv = crate::json::items_view(items@);
        proof {
            assert(iv.subrange(0, iv.len() as int) =~= iv);
            match hit_list_from(iv) {
                Ok(x) => {
                    assert(Seq::<HitView>::empty() + x =~= x);
                },
                Err(_) => {},
            }
        }
        let mut out: Vec<Hit> = Vec::new();
        let mut i: usize = 0;
        while i < items.len()
            invariant
                0 <= i <= items.len(),
                iv == crate::json::items_view(items@),
                iv.len() == items@.len(),
                hits_from(j@) == match hit_list_from(iv) {
                    Ok(h) => Ok(HitsView { total, max_score: crate::json::opt_view(max_score), hits: h }),
                    Err(e) => Err::<HitsView, DecodeErrorView>(e),
                },
                forall|k: int| 0 <= k < items@.len() ==> #[trigger] iv[k] == crate::json::json_view(items@[k]),
                hit_list_from(iv) == match hit_list_from(iv.subrange(i as int, iv.len() as int)) {
                    Ok(rest) => Ok(out@.map_values(|h: Hit| h@) + rest),
                    Err(e) => Err::<Seq<HitView>, DecodeErrorView>(e),
                },
            decreases items.len() - i,
        {
            proof {
                let t = iv.subrange(i as int, iv.len() as int);
                assert(t[0] == iv[i as int]);
                assert(t.subrange(1, t.len() as int) =~= iv.subrange(i + 1, iv.len() as int));
            }
            let h = match Hit::from_json(&items[i]) {
                Ok(h) => h,
                Err(e) => return Err(e),
            };
            proof {
                assert(out@.push(h).map_values(|x: Hit| x@) =~= out@.map_values(|x: Hit| x@).push(h@));
                match hit_list_from(iv.subrange(i + 1, iv.len() as int)) {
                    Ok(rest) => {
                        assert(out@.map_values(|x: Hit| x@) + (seq![h@] + rest) =~= out@.map_values(|x: Hit| x@).push(h@) + rest);
                    },
                    Err(_) => {},
                }
            }
            out.push(h);
            i = i + 1;
        }
        proof {
            assert(iv.subrange(i as int, iv.len() as int) =~= Seq::<JsonValue>::empty());
            assert(out@.map_values(|x: Hit| x@) + Seq::<HitView>::empty() =~= out@.map_values(|x: Hit| x@));
        }
        Ok(Hits { total, max_score, hits: out })
    }

    /// The document of the first hit, if there is one.
    pub fn first_doc(&self) -> (r: Option<&Json>)
        ensures
            self.hits@.len() == 0 ==> r is None,
            self.hits@.len() > 0 ==> r is Some && r->0@ == self.hits@[0].source@,
    {
        if self.hits.len() == 0 {
            None
        } else {
            Some(&self.hits[0].source)
        }
    }
}

/// A successful search.
#[derive(Debug)]
pub struct OkResponse {
    pub took: u64,
    pub timed_out: bool,
    pub hits: Hits,
}

/// The response to a search: its hits, or the error with its HTTP status.
#[derive(Debug)]
pub enum Response {
    Success(OkResponse),
    Failure { error: ErrResponse, status: u16 },
}

pub enum ResponseView {
    Success { took: nat, timed_out: bool, hits: HitsView },
    Failure { error: ErrResponseView, status: u16 },
}

impl View for Response {
    type V = ResponseView;

    open spec fn view(&self) -> ResponseView {
        match self {
            Response::Success(o) => ResponseView::Success {
                took: o.took as nat,
                timed_out: o.timed_out,
                hits: o.hits@,
            },
            Response::Failure { error, status } => ResponseView::Failure { error: error@, status: *status },
        }
    }
}

/// A search response: an error when it has an `error` member, hits
/// otherwise.
pub open spec fn search_from(v: JsonValue) -> Result<ResponseView, DecodeErrorView> {
    match v {
        JsonValue::Object(m) => match lookup(m, "error"@) {
            Some(ev) => match err_from(ev) {
                Err(e) => Err(e),
                Ok(error) => match uint_member(m, "status"@, "response"@, 0xffff) {
                    Err(e) => Err(e),
                    Ok(status) => Ok(ResponseView::Failure { error, status: status as u16 }),
                },
            },
            None => match uint_member(m, "took"@, "response"@, u64::MAX as nat) {
                Err(e) => Err(e),
                Ok(took) => match lookup(m, "timed_out"@) {
                    Some(JsonValue::Bool(timed_out)) => match lookup(m, "hits"@) {
                        None => Err(DecodeErrorView::MalformedResponse { reason: "hits"@ }),
                        Some(h) => match hits_from(h) {
                            Err(e) => Err(e),
                            Ok(hits) => Ok(ResponseView::Success { took, timed_out, hits }),
                        },
                    },
                    _ => Err(DecodeErrorView::MalformedResponse { reason: "timed_out"@ }),
                },
            },
        },
        _ => Err(DecodeErrorView::MalformedResponse { reason: "took"@ }),
    }
}

impl Response {
    /// Decodes the body of a search response.
    pub fn from_json(j: &Json) -> (r: Result<Response, DecodeError>)
        ensures
            crate::error::result_view(r) == search_from(j@),
    {
        let m = match j {
            Json::Object(m) => m,
            _ => return Err(crate::error::malformed_response("took")),
        };
        match get_member(m, "error") {
            Some(ev) => {
                let error = match ErrResponse::from_json(ev) {
                    Ok(e) => e,
                    Err(e) => return Err(e),
                };
                let status = match crate::bulk::read_uint(m, "status", "response", 0xffff) {
                    Ok(s) => s as u16,
                    Err(e) => return Err(e),
                };
                Ok(Response::Failure { error, status })
            },
            None => {
                let took = match crate::bulk::read_uint(m, "took", "response", u64::MAX) {
                    Ok(t) => t,
                    Err(e) => return Err(e),
                };
                let timed_out = match get_member(m, "timed_out") {
                    Some(Json::Bool(b)) => *b,
                    _ => return Err(crate::error::malformed_response("timed_out")),
                };
                let hits = match get_member(m, "hits") {
                    None => return Err(crate::error::malformed_response("hits")),
                    Some(h) => match Hits::from_json(h) {
                        Ok(h) => h,
                        Err(e) => return Err(e),
                    },
                };
                Ok(Response::Success(OkResponse { took, timed_out, hits }))
            },
        }
    }
}

/// A search request: the query, sorting, paging and highlighting.
#[derive(Debug)]
pub struct Request {
    /// Left out of the encoding when it has no clauses.
    pub query: CompoundQuery,
    pub sort: Vec<Sort>,
    pub size: Option<u64>,
    pub terminate_after: u64,
    /// The sort values of the last hit of the previous page, encoded as
    /// `search_after`.
    pub after: Vec<SortedValue>,
    pub version: bool,
    pub seq_no_primary_term: bool,
    pub track_total_hits: Option<u64>,
    pub highlight: Option<HighlightOptions>,
}

pub struct RequestView {
    pub query: CompoundQueryView,
    pub sort: Seq<SortView>,
    pub size: Option<u64>,
    pub terminate_after: u64,
    pub after: Seq<SortedValueView>,
    pub version: bool,
    pub seq_no_primary_term: bool,
    pub track_total_hits: Option<u64>,
    pub highlight: Option<HighlightOptionsView>,
}

impl View for Request {
    type V = RequestView;

    open spec fn view(&self) -> RequestView {
        RequestView {
            query: self.query@,
            sort: self.sort@.map_values(|s: Sort| s@),
            size: self.size,
            terminate_after: self.terminate_after,
            after: self.after@.map_values(|v: SortedValue| v@),
            version: self.version,
            seq_no_primary_term: self.seq_no_primary_term,
            track_total_hits: self.track_total_hits,
            highlight: match self.highlight {
                Some(h) => Some(h@),
                None => None,
            },
        }
    }
}

/// A compound query with no clauses.
pub open spec fn compound_is_empty(c: CompoundQueryView) -> bool {
    match c.boolean {
        None => true,
        Some(b) => bool_is_empty(b),
    }
}

/// The member `name: n` when `v` is `Some(n)`.
pub open spec fn opt_u64_member(name: Seq<char>, v: Option<u64>) -> Seq<(Seq<char>, JsonValue)> {
    match v {
        Some(n) => seq![(name, JsonValue::Number(decimal(n as nat)))],
        None => seq![],
    }
}

/// The members of an encoded request: the query and the lists when
/// non-empty, the options when present, and always `terminate_after`,
/// `version` and `seq_no_primary_term`.
pub open spec fn request_members(r: RequestView) -> Seq<(Seq<char>, JsonValue)> {
    query_part(r.query) + sort_part(r.sort) + opt_u64_member("size"@, r.size) + seq![
        ("terminate_after"@, JsonValue::Number(decimal(r.terminate_after as nat))),
    ] + after_part(r.after) + seq![("version"@, JsonValue::Bool(r.version))] + seq![
        ("seq_no_primary_term"@, JsonValue::Bool(r.seq_no_primary_term)),
    ] + opt_u64_member("track_total_hits"@, r.track_total_hits) + highlight_part(r.highlight)
}

fn push_opt_u64(ms: &mut Vec<(String, Json)>, name: &str, v: Option<u64>)
    ensures
        members_view(final(ms)@) == members_view(old(ms)@) + opt_u64_member(name@, v),
{
    match v {
        Some(n) => push_member(ms, name, Json::Number(u64_text(n))),
        None => {},
    }
    proof {
        assert(members_view(ms@) =~= members_view(old(ms)@) + opt_u64_member(name@, v));
    }
}

pub open spec fn query_part(q: CompoundQueryView) -> Seq<(Seq<char>, JsonValue)> {
    if compound_is_empty(q) {
        seq![]
    } else {
        seq![("query"@, compound_json(q))]
    }
}

pub open spec fn sort_part(v: Seq<SortView>) -> Seq<(Seq<char>, JsonValue)> {
    if v.len() == 0 {
        seq![]
    } else {
        seq![("sort"@, JsonValue::Array(v.map_values(|s: SortView| sort_to_json(s))))]
    }
}

pub open spec fn after_part(v: Seq<SortedValueView>) -> Seq<(Seq<char>, JsonValue)> {
    if v.len() == 0 {
        seq![]
    } else {
        seq![("search_after"@, JsonValue::Array(v.map_values(|x: SortedValueView| sorted_value_json(x))))]
    }
}

pub open spec fn highlight_part(h: Option<HighlightOptionsView>) -> Seq<(Seq<char>, JsonValue)> {
    match h {
        Some(h) => seq![("highlight"@, JsonValue::Object(highlight_members(h)))],
        None => seq![],
    }
}

fn push_query_part(ms: &mut Vec<(String, Json)>, q: &CompoundQuery)
    ensures
        members_view(final(ms)@) == members_view(old(ms)@) + query_part(q@),
{
    if !q.is_empty() {
        push_member(ms, "query", q.to_json());
    }
    proof {
        assert(members_view(ms@) =~= members_view(old(ms)@) + query_part(q@));
    }
}

fn push_sort_part(ms: &mut Vec<(String, Json)>, v: &Vec<Sort>)
    ensures
        members_view(final(ms)@) == members_view(old(ms)@) + sort_part(v@.map_values(|s: Sort| s@)),
{
    if v.len() > 0 {
        let mut items = crate::json::empty_items();
        let mut i: usize = 0;
        while i < v.len()
            invariant
                0 <= i <= v.len(),
                crate::json::items_view(items@).len() == i,
                forall|j: int| 0 <= j < i ==> #[trigger] crate::json::items_view(items@)[j] == sort_to_json(v@[j]@),
            decreases v.len() - i,
        {
            crate::json::push_item(&mut items, v[i].to_json());
            i = i + 1;
        }
        proof {
            assert(crate::json::items_view(items@) =~= v@.map_values(|s: Sort| s@).map_values(|s: SortView| sort_to_json(s)));
        }
        push_member(ms, "sort", Json::Array(items));
    }
    proof {
        assert(members_view(ms@) =~= members_view(old(ms)@) + sort_part(v@.map_values(|s: Sort| s@)));
    }
}

fn push_after_part(ms: &mut Vec<(String, Json)>, v: &Vec<SortedValue>)
    ensures
        members_view(final(ms)@) == members_view(old(ms)@) + after_part(v@.map_values(|x: SortedValue| x@)),
{
    if v.len() > 0 {
        let mut items = crate::json::empty_items();
        let mut i: usize = 0;
        while i < v.len()
            invariant
                0 <= i <= v.len(),
                crate::json::items_view(items@).len() == i,
                forall|j: int| 0 <= j < i ==> #[trigger] crate::json::items_view(items@)[j] == sorted_value_json(v@[j]@),
            decreases v.len() - i,
        {
            crate::json::push_item(&mut items, v[i].to_json());
            i = i + 1;
        }
        proof {
            assert(crate::json::items_view(items@) =~= v@.map_values(|x: SortedValue| x@).map_values(|x: SortedValueView| sorted_value_json(x)));
        }
        push_member(ms, "search_after", Json::Array(items));
    }
    proof {
        assert(members_view(ms@) =~= members_view(old(ms)@) + after_part(v@.map_values(|x: SortedValue| x@)));
    }
}

fn push_highlight_part(ms: &mut Vec<(String, Json)>, h: &Option<HighlightOptions>)
    ensures
        members_view(final(ms)@) == members_view(old(ms)@) + highlight_part(
            match *h {
                Some(x) => Some(x@),
                None => None,
            },
        ),
{
    match h {
        Some(x) => push_member(ms, "highlight", x.to_json()),
        None => {},
    }
    proof {
        assert(members_view(ms@) =~= members_view(old(ms)@) + highlight_part(
            match *h {
                Some(x) => Some(x@),
                None => None,
            },
        ));
    }
}

impl Request {
    /// Encodes the request body.
    pub fn to_json(&self) -> (r: Json)
        ensures
            r@ == JsonValue::Object(request_members(self@)),
    {
        let mut ms = empty_members();
        push_query_part(&mut ms, &self.query);
        push_sort_part(&mut ms, &self.sort);
        push_opt_u64(&mut ms, "size", self.size);
        push_member(&mut ms, "terminate_after", Json::Number(u64_text(self.terminate_after)));
        push_after_part(&mut ms, &self.after);
        push_member(&mut ms, "version", Json::Bool(self.version));
        push_member(&mut ms, "seq_no_primary_term", Json::Bool(self.seq_no_primary_term));
        push_opt_u64(&mut ms, "track_total_hits", self.track_total_hits);
        push_highlight_part(&mut ms, &self.highlight);
        proof {
            let r = self@;
            assert(members_view(ms@) =~= query_part(r.query) + sort_part(r.sort) + opt_u64_member("size"@, r.size) + seq![("terminate_after"@, JsonValue::Number(decimal(r.terminate_after as nat)))] + after_part(r.after) + seq![("version"@, JsonValue::Bool(r.version))] + seq![("seq_no_primary_term"@, JsonValue::Bool(r.seq_no_primary_term))] + opt_u64_member("track_total_hits"@, r.track_total_hits) + highlight_part(r.highlight));
        }
        Json::Object(ms)
    }
}

/// Script parameters that the encoding carries: an object, if any.
pub open spec fn script_wf(v: Option<ScriptView>) -> bool {
    match v {
        Some(s) => s.params is None || s.params->0 is Object,
        None => true,
    }
}

/// Decoding an encoded script gives it back.
pub proof fn lemma_script_round_trip(s: ScriptView)
    requires
        script_wf(Some(s)),
    ensures
        script_from(script_json(s)) == Ok::<ScriptView, DecodeErrorView>(s),
{
    reveal_strlit("source");
    reveal_strlit("params");
    assert("source"@[0] != "params"@[0]);
    let m0 = seq![("source"@, JsonValue::Str(s.source))];
    let m1 = opt_json_member("params"@, s.params);
    crate::json::lemma_lookup_one("source"@, JsonValue::Str(s.source), "source"@);
    crate::json::lemma_lookup_one("source"@, JsonValue::Str(s.source), "params"@);
    crate::leaf::lemma_opt_json_member("params"@, s.params, "source"@);
    crate::leaf::lemma_opt_json_member("params"@, s.params, "params"@);
    crate::json::lemma_lookup_concat(m0, m1, "source"@);
    crate::json::lemma_lookup_concat(m0, m1, "params"@);
}

} // verus!
