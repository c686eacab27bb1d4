//! Queries: field-keyed leaves, `exists`, and boolean composition.
use vstd::prelude::*;

use crate::error::{malformed_leaf, malformed_query, result_view, DecodeError, DecodeErrorView};
use crate::json::{
    empty_members, json_size, json_str, json_view, lemma_members_index, lemma_members_size, lookup,
    members_size, members_view, opt_view, push_member, single_member, str_eq, strings_view, Json,
    JsonValue,
};
use crate::json::{get_member, lemma_lookup_concat, lemma_lookup_one, lemma_query_keys};
use crate::leaf::{
    bool_member, bool_or, i32_member, i32_or, lemma_i32_slot, lemma_strs_member, lemma_strs_slot,
    num_member, num_or, push_bool, push_i32, push_req_num, push_req_str, push_strs,
    read_bool_or, read_i32_or, read_num_or, read_strs_or_empty, strs_member, strs_or_empty,
};
use crate::sorted_value::int_text;
use crate::leaf::{
    find_non_str, first_non_str, num_present, read_num_present,
    lemma_flag_member, lemma_opt_num_member, lemma_opt_str_member, flag_member,
    leaf_shape, opt_bool, opt_num, opt_num_member, opt_str, opt_str_member, push_opt_num,
    push_opt_str, read_opt_bool, read_opt_num, read_opt_str, read_req_str, read_req_strs,
    req_str, req_strs, strs_json, strs_to_json,
};

verus! {

/// The field and the inner object of a leaf `{ "<field>": { .. } }`.
fn read_leaf_shape<'a>(j: &'a Json, primary: &str) -> (r: Result<(&'a String, &'a Vec<(String, Json)>), DecodeError>)
    ensures
        match r {
            Ok((f, inner)) => leaf_shape(j@, primary@) == Ok::<(Seq<char>, Seq<(Seq<char>, JsonValue)>), DecodeErrorView>((f@, members_view(inner@))),
            Err(e) => leaf_shape(j@, primary@) == Err::<(Seq<char>, Seq<(Seq<char>, JsonValue)>), DecodeErrorView>(e@),
        },
{
    match j {
        Json::Object(ms) => {
            proof {
                lemma_members_index(ms@);
            }
            if ms.len() != 1 {
                return Err(malformed_leaf("", "field"));
            }
            match &ms[0].1 {
                Json::Object(inner) => Ok((&ms[0].0, inner)),
                _ => Err(malformed_leaf(ms[0].0.as_str(), primary)),
            }
        },
        _ => Err(malformed_leaf("", "field")),
    }
}

// ---------------------------------------------------------------- term

/// Documents whose `field` holds exactly `value`.
#[derive(Debug)]
pub struct TermQuery {
    pub field: String,
    pub value: String,
    /// Relevance boost, as decimal text.
    pub boost: Option<String>,
}

pub struct TermQueryView {
    pub field: Seq<char>,
    pub value: Seq<char>,
    pub boost: Option<Seq<char>>,
}

impl View for TermQuery {
    type V = TermQueryView;

    open spec fn view(&self) -> TermQueryView {
        TermQueryView { field: self.field@, value: self.value@, boost: opt_view(self.boost) }
    }
}

pub open spec fn term_json(t: TermQueryView) -> JsonValue {
    JsonValue::Object(
        seq![(t.field, JsonValue::Object(seq![("value"@, JsonValue::Str(t.value))] + opt_num_member("boost"@, t.boost)))],
    )
}

pub open spec fn term_from(v: JsonValue) -> Result<TermQueryView, DecodeErrorView> {
    match leaf_shape(v, "value"@) {
        Err(e) => Err(e),
        Ok((f, inner)) => match req_str(inner, "value"@, f) {
            Err(e) => Err(e),
            Ok(value) => match opt_num(inner, "boost"@) {
                Err(e) => Err(e),
                Ok(boost) => Ok(TermQueryView { field: f, value, boost }),
            },
        },
    }
}

impl TermQuery {
    /// A term query without boost.
    pub fn new(field: &str, value: &str) -> (r: TermQuery)
        ensures
            r@ == (TermQueryView { field: field@, value: value@, boost: None }),
    {
        TermQuery { field: field.to_owned(), value: value.to_owned(), boost: None }
    }

    /// `{ "<field>": { "value": .., "boost": .. } }`.
    pub fn to_json(&self) -> (r: Json)
        ensures
            r@ == term_json(self@),
    {
        let mut inner = empty_members();
        push_member(&mut inner, "value", json_str(self.value.as_str()));
        push_opt_num(&mut inner, "boost", &self.boost);
        proof {
            assert(members_view(inner@) =~= seq![("value"@, JsonValue::Str(self.value@))] + opt_num_member("boost"@, self@.boost));
        }
        single_member(self.field.as_str(), Json::Object(inner))
    }

    pub fn from_json(j: &Json) -> (r: Result<TermQuery, DecodeError>)
        ensures
            result_view(r) == term_from(j@),
    {
        let (f, inner) = match read_leaf_shape(j, "value") {
            Ok(x) => x,
            Err(e) => return Err(e),
        };
        let value = match read_req_str(inner, "value", f.as_str()) {
            Ok(v) => v,
            Err(e) => return Err(e),
        };
        let boost = match read_opt_num(inner, "boost") {
            Ok(b) => b,
            Err(e) => return Err(e),
        };
        Ok(TermQuery { field: f.clone(), value, boost })
    }
}

// ---------------------------------------------------------------- terms

/// Documents whose `field` holds one of `values`. A `boost` beside the field
/// must be a number; `null` is not.
#[derive(Debug)]
pub struct TermsQuery {
    pub field: String,
    pub values: Vec<String>,
    /// Relevance boost, as decimal text; encoded beside the field.
    pub boost: Option<String>,
}

pub struct TermsQueryView {
    pub field: Seq<char>,
    pub values: Seq<Seq<char>>,
    pub boost: Option<Seq<char>>,
}

impl View for TermsQuery {
    type V = TermsQueryView;

    open spec fn view(&self) -> TermsQueryView {
        TermsQueryView {
            field: self.field@,
            values: strings_view(self.values@),
            boost: opt_view(self.boost),
        }
    }
}

pub open spec fn terms_json(t: TermsQueryView) -> JsonValue {
    JsonValue::Object(seq![(t.field, strs_json(t.values))] + opt_num_member("boost"@, t.boost))
}

/// The field of a terms query: its one member besides an optional `boost`.
pub open spec fn terms_field(ms: Seq<(Seq<char>, JsonValue)>) -> Option<Seq<char>> {
    if ms.len() == 1 && ms[0].0 != "boost"@ {
        Some(ms[0].0)
    } else if ms.len() == 2 && ms[0].0 != "boost"@ && ms[1].0 == "boost"@ {
        Some(ms[0].0)
    } else if ms.len() == 2 && ms[0].0 == "boost"@ && ms[1].0 != "boost"@ {
        Some(ms[1].0)
    } else {
        None
    }
}

pub open spec fn terms_from(v: JsonValue) -> Result<TermsQueryView, DecodeErrorView> {
    match v {
        JsonValue::Object(ms) => match terms_field(ms) {
            None => Err(DecodeErrorView::MalformedLeaf { field: ""@, missing: "field"@ }),
            Some(f) => match req_strs(ms, f, f, "values"@) {
                Err(e) => Err(e),
                Ok(values) => match num_present(ms, "boost"@) {
                    Err(e) => Err(e),
                    Ok(boost) => Ok(TermsQueryView { field: f, values, boost }),
                },
            },
        },
        _ => Err(DecodeErrorView::MalformedLeaf { field: ""@, missing: "field"@ }),
    }
}

impl TermsQuery {
    /// A terms query without boost.
    pub fn new(field: &str, values: Vec<String>) -> (r: TermsQuery)
        ensures
            r@ == (TermsQueryView { field: field@, values: strings_view(values@), boost: None }),
    {
        TermsQuery { field: field.to_owned(), values, boost: None }
    }

    /// `{ "<field>": [..], "boost": .. }`.
    pub fn to_json(&self) -> (r: Json)
        ensures
            r@ == terms_json(self@),
    {
        let mut ms = empty_members();
        push_member(&mut ms, self.field.as_str(), strs_to_json(&self.values));
        push_opt_num(&mut ms, "boost", &self.boost);
        proof {
            assert(members_view(ms@) =~= seq![(self.field@, strs_json(self@.values))] + opt_num_member("boost"@, self@.boost));
        }
        Json::Object(ms)
    }

    pub fn from_json(j: &Json) -> (r: Result<TermsQuery, DecodeError>)
        ensures
            result_view(r) == terms_from(j@),
    {
        match j {
            Json::Object(ms) => {
                proof {
                    lemma_members_index(ms@);
                }
                let n = ms.len();
                let f: &String = if n == 1 && !str_eq(ms[0].0.as_str(), "boost") {
                    &ms[0].0
                } else if n == 2 && !str_eq(ms[0].0.as_str(), "boost") && str_eq(ms[1].0.as_str(), "boost") {
                    &ms[0].0
                } else if n == 2 && str_eq(ms[0].0.as_str(), "boost") && !str_eq(ms[1].0.as_str(), "boost") {
                    &ms[1].0
                } else {
                    return Err(malformed_leaf("", "field"));
                };
                let values = match read_req_strs(ms, f.as_str(), f.as_str(), "values") {
                    Ok(v) => v,
                    Err(e) => return Err(e),
                };
                let boost = match read_num_present(ms, "boost") {
                    Ok(b) => b,
                    Err(e) => return Err(e),
                };
                Ok(TermsQuery { field: f.clone(), values, boost })
            },
            _ => Err(malformed_leaf("", "field")),
        }
    }
}

// ---------------------------------------------------------------- range

/// Documents whose `field` lies within the given bounds.
#[derive(Debug)]
pub struct RangeQuery {
    pub field: String,
    pub gt: Option<String>,
    pub gte: Option<String>,
    pub lt: Option<String>,
    pub lte: Option<String>,
    pub time_zone: Option<String>,
    /// Relevance boost, as decimal text.
    pub boost: Option<String>,
}

pub struct RangeQueryView {
    pub field: Seq<char>,
    pub gt: Option<Seq<char>>,
    pub gte: Option<Seq<char>>,
    pub lt: Option<Seq<char>>,
    pub lte: Option<Seq<char>>,
    pub time_zone: Option<Seq<char>>,
    pub boost: Option<Seq<char>>,
}

impl View for RangeQuery {
    type V = RangeQueryView;

    open spec fn view(&self) -> RangeQueryView {
        RangeQueryView {
            field: self.field@,
            gt: opt_view(self.gt),
            gte: opt_view(self.gte),
            lt: opt_view(self.lt),
            lte: opt_view(self.lte),
            time_zone: opt_view(self.time_zone),
            boost: opt_view(self.boost),
        }
    }
}

/// A range with at least one bound; one without is reported as missing `gt`.
pub open spec fn has_bound(r: RangeQueryView) -> bool {
    r.gt is Some || r.gte is Some || r.lt is Some || r.lte is Some
}

pub open spec fn range_members(r: RangeQueryView) -> Seq<(Seq<char>, JsonValue)> {
    opt_str_member("gt"@, r.gt) + opt_str_member("gte"@, r.gte) + opt_str_member("lt"@, r.lt)
        + opt_str_member("lte"@, r.lte) + opt_str_member("time_zone"@, r.time_zone)
        + opt_num_member("boost"@, r.boost)
}

pub open spec fn range_json(r: RangeQueryView) -> JsonValue {
    JsonValue::Object(seq![(r.field, JsonValue::Object(range_members(r)))])
}

pub open spec fn range_from(v: JsonValue) -> Result<RangeQueryView, DecodeErrorView> {
    match leaf_shape(v, "gt"@) {
        Err(e) => Err(e),
        Ok((f, inner)) => match opt_str(inner, "gt"@, f) {
            Err(e) => Err(e),
            Ok(gt) => match opt_str(inner, "gte"@, f) {
                Err(e) => Err(e),
                Ok(gte) => match opt_str(inner, "lt"@, f) {
                    Err(e) => Err(e),
                    Ok(lt) => match opt_str(inner, "lte"@, f) {
                        Err(e) => Err(e),
                        Ok(lte) => if gt is None && gte is None && lt is None && lte is None {
                            Err(DecodeErrorView::MalformedLeaf { field: f, missing: "gt"@ })
                        } else {
                            match opt_str(inner, "time_zone"@, f) {
                                Err(e) => Err(e),
                                Ok(time_zone) => match opt_num(inner, "boost"@) {
                                    Err(e) => Err(e),
                                    Ok(boost) => Ok(RangeQueryView { field: f, gt, gte, lt, lte, time_zone, boost }),
                                },
                            }
                        },
                    },
                },
            },
        },
    }
}

impl RangeQuery {
    /// `{ "<field>": { "gt": .., "gte": .., "lt": .., "lte": .., "time_zone": .., "boost": .. } }`.
    pub fn to_json(&self) -> (r: Json)
        ensures
            r@ == range_json(self@),
    {
        let mut inner = empty_members();
        push_opt_str(&mut inner, "gt", &self.gt);
        push_opt_str(&mut inner, "gte", &self.gte);
        push_opt_str(&mut inner, "lt", &self.lt);
        push_opt_str(&mut inner, "lte", &self.lte);
        push_opt_str(&mut inner, "time_zone", &self.time_zone);
        push_opt_num(&mut inner, "boost", &self.boost);
        proof {
            assert(members_view(inner@) =~= range_members(self@));
        }
        single_member(self.field.as_str(), Json::Object(inner))
    }

    /// Decodes a range; one without any bound is malformed.
    pub fn from_json(j: &Json) -> (r: Result<RangeQuery, DecodeError>)
        ensures
            result_view(r) == range_from(j@),
    {
        let (f, inner) = match read_leaf_shape(j, "gt") {
            Ok(x) => x,
            Err(e) => return Err(e),
        };
        let gt = match read_opt_str(inner, "gt", f.as_str()) {
            Ok(v) => v,
            Err(e) => return Err(e),
        };
        let gte = match read_opt_str(inner, "gte", f.as_str()) {
            Ok(v) => v,
            Err(e) => return Err(e),
        };
        let lt = match read_opt_str(inner, "lt", f.as_str()) {
            Ok(v) => v,
            Err(e) => return Err(e),
        };
        let lte = match read_opt_str(inner, "lte", f.as_str()) {
            Ok(v) => v,
            Err(e) => return Err(e),
        };
        if gt.is_none() && gte.is_none() && lt.is_none() && lte.is_none() {
            return Err(malformed_leaf(f.as_str(), "gt"));
        }
        let time_zone = match read_opt_str(inner, "time_zone", f.as_str()) {
            Ok(v) => v,
            Err(e) => return Err(e),
        };
        let boost = match read_opt_num(inner, "boost") {
            Ok(b) => b,
            Err(e) => return Err(e),
        };
        Ok(RangeQuery { field: f.clone(), gt, gte, lt, lte, time_zone, boost })
    }
}

// ---------------------------------------------------------------- regexp

/// Documents whose `field` matches the regular expression `value`.
#[derive(Debug)]
pub struct RegexpQuery {
    pub field: String,
    pub value: String,
    pub flags: Option<String>,
}

pub struct RegexpQueryView {
    pub field: Seq<char>,
    pub value: Seq<char>,
    pub flags: Option<Seq<char>>,
}

impl View for RegexpQuery {
    type V = RegexpQueryView;

    open spec fn view(&self) -> RegexpQueryView {
        RegexpQueryView { field: self.field@, value: self.value@, flags: opt_view(self.flags) }
    }
}

pub open spec fn regexp_json(t: RegexpQueryView) -> JsonValue {
    JsonValue::Object(
        seq![(t.field, JsonValue::Object(seq![("value"@, JsonValue::Str(t.value))] + opt_str_member("flags"@, t.flags)))],
    )
}

/// A regexp query: every inner member must hold a string.
pub open spec fn regexp_from(v: JsonValue) -> Result<RegexpQueryView, DecodeErrorView> {
    match leaf_shape(v, "value"@) {
        Err(e) => Err(e),
        Ok((f, inner)) => if first_non_str(inner) is Some {
            Err(DecodeErrorView::MalformedLeaf { field: f, missing: first_non_str(inner)->0 })
        } else {
            match req_str(inner, "value"@, f) {
            Err(e) => Err(e),
            Ok(value) => match opt_str(inner, "flags"@, f) {
                Err(e) => Err(e),
                Ok(flags) => Ok(RegexpQueryView { field: f, value, flags }),
            },
            }
        },
    }
}

impl RegexpQuery {
    /// A regexp query with optional flags.
    pub fn new(field: &str, value: &str, flags: Option<&str>) -> (r: RegexpQuery)
        ensures
            r@ == (RegexpQueryView {
                field: field@,
                value: value@,
                flags: match flags {
                    Some(t) => Some(t@),
                    None => None,
                },
            }),
    {
        RegexpQuery {
            field: field.to_owned(),
            value: value.to_owned(),
            flags: match flags {
                Some(t) => Some(t.to_owned()),
                None => None,
            },
        }
    }

    /// `{ "<field>": { "value": .., "flags": .. } }`.
    pub fn to_json(&self) -> (r: Json)
        ensures
            r@ == regexp_json(self@),
    {
        let mut inner = empty_members();
        push_member(&mut inner, "value", json_str(self.value.as_str()));
        push_opt_str(&mut inner, "flags", &self.flags);
        proof {
            assert(members_view(inner@) =~= seq![("value"@, JsonValue::Str(self.value@))] + opt_str_member("flags"@, self@.flags));
        }
        single_member(self.field.as_str(), Json::Object(inner))
    }

    pub fn from_json(j: &Json) -> (r: Result<RegexpQuery, DecodeError>)
        ensures
            result_view(r) == regexp_from(j@),
    {
        let (f, inner) = match read_leaf_shape(j, "value") {
            Ok(x) => x,
            Err(e) => return Err(e),
        };
        match find_non_str(inner) {
            Some(k) => return Err(malformed_leaf(f.as_str(), k.as_str())),
            None => {},
        }
        let value = match read_req_str(inner, "value", f.as_str()) {
            Ok(v) => v,
            Err(e) => return Err(e),
        };
        let flags = match read_opt_str(inner, "flags", f.as_str()) {
            Ok(v) => v,
            Err(e) => return Err(e),
        };
        Ok(RegexpQuery { field: f.clone(), value, flags })
    }
}

// ---------------------------------------------------------------- prefix

/// Documents whose `field` begins with `value`.
#[derive(Debug)]
pub struct PrefixQuery {
    pub field: String,
    pub value: String,
    pub case_insensitive: bool,
}

pub struct PrefixQueryView {
    pub field: Seq<char>,
    pub value: Seq<char>,
    pub case_insensitive: bool,
}

impl View for PrefixQuery {
    type V = PrefixQueryView;

    open spec fn view(&self) -> PrefixQueryView {
        PrefixQueryView {
            field: self.field@,
            value: self.value@,
            case_insensitive: self.case_insensitive,
        }
    }
}

pub open spec fn prefix_members(t: PrefixQueryView) -> Seq<(Seq<char>, JsonValue)> {
    seq![("value"@, JsonValue::Str(t.value))] + if t.case_insensitive {
        seq![("case_insensitive"@, JsonValue::Bool(true))]
    } else {
        seq![]
    }
}

pub open spec fn prefix_json(t: PrefixQueryView) -> JsonValue {
    JsonValue::Object(seq![(t.field, JsonValue::Object(prefix_members(t)))])
}

pub open spec fn prefix_from(v: JsonValue) -> Result<PrefixQueryView, DecodeErrorView> {
    match leaf_shape(v, "value"@) {
        Err(e) => Err(e),
        Ok((f, inner)) => match req_str(inner, "value"@, f) {
            Err(e) => Err(e),
            Ok(value) => match opt_bool(inner, "case_insensitive"@, f) {
                Err(e) => Err(e),
                Ok(case_insensitive) => Ok(PrefixQueryView { field: f, value, case_insensitive }),
            },
        },
    }
}

impl PrefixQuery {
    /// A case-sensitive prefix query.
    pub fn new(field: &str, value: &str) -> (r: PrefixQuery)
        ensures
            r@ == (PrefixQueryView { field: field@, value: value@, case_insensitive: false }),
    {
        PrefixQuery { field: field.to_owned(), value: value.to_owned(), case_insensitive: false }
    }

    /// `{ "<field>": { "value": .., "case_insensitive": true } }`; a
    /// case-sensitive query leaves out `case_insensitive`.
    pub fn to_json(&self) -> (r: Json)
        ensures
            r@ == prefix_json(self@),
    {
        let mut inner = empty_members();
        push_member(&mut inner, "value", json_str(self.value.as_str()));
        if self.case_insensitive {
            push_member(&mut inner, "case_insensitive", Json::Bool(true));
        }
        proof {
            assert(members_view(inner@) =~= prefix_members(self@));
        }
        single_member(self.field.as_str(), Json::Object(inner))
    }

    pub fn from_json(j: &Json) -> (r: Result<PrefixQuery, DecodeError>)
        ensures
            result_view(r) == prefix_from(j@),
    {
        let (f, inner) = match read_leaf_shape(j, "value") {
            Ok(x) => x,
            Err(e) => return Err(e),
        };
        let value = match read_req_str(inner, "value", f.as_str()) {
            Ok(v) => v,
            Err(e) => return Err(e),
        };
        let case_insensitive = match read_opt_bool(inner, "case_insensitive", f.as_str()) {
            Ok(v) => v,
            Err(e) => return Err(e),
        };
        Ok(PrefixQuery { field: f.clone(), value, case_insensitive })
    }
}

// ---------------------------------------------------------------- match

/// Documents whose `field` matches the analysed text `query`.
#[derive(Debug)]
pub struct MatchQuery {
    pub field: String,
    pub query: String,
}

pub struct MatchQueryView {
    pub field: Seq<char>,
    pub query: Seq<char>,
}

impl View for MatchQuery {
    type V = MatchQueryView;

    open spec fn view(&self) -> MatchQueryView {
        MatchQueryView { field: self.field@, query: self.query@ }
    }
}

pub open spec fn match_json(t: MatchQueryView) -> JsonValue {
    JsonValue::Object(
        seq![(t.field, JsonValue::Object(seq![("query"@, JsonValue::Str(t.query))]))],
    )
}

pub open spec fn match_from(v: JsonValue) -> Result<MatchQueryView, DecodeErrorView> {
    match leaf_shape(v, "query"@) {
        Err(e) => Err(e),
        Ok((f, inner)) => match req_str(inner, "query"@, f) {
            Err(e) => Err(e),
            Ok(query) => Ok(MatchQueryView { field: f, query }),
        },
    }
}

impl MatchQuery {
    pub fn new(field: &str, query: &str) -> (r: MatchQuery)
        ensures
            r@ == (MatchQueryView { field: field@, query: query@ }),
    {
        MatchQuery { field: field.to_owned(), query: query.to_owned() }
    }

    /// `{ "<field>": { "query": .. } }`.
    pub fn to_json(&self) -> (r: Json)
        ensures
            r@ == match_json(self@),
    {
        single_member(
            self.field.as_str(),
            single_member("query", json_str(self.query.as_str())),
        )
    }

    pub fn from_json(j: &Json) -> (r: Result<MatchQuery, DecodeError>)
        ensures
            result_view(r) == match_from(j@),
    {
        let (f, inner) = match read_leaf_shape(j, "query") {
            Ok(x) => x,
            Err(e) => return Err(e),
        };
        let query = match read_req_str(inner, "query", f.as_str()) {
            Ok(v) => v,
            Err(e) => return Err(e),
        };
        Ok(MatchQuery { field: f.clone(), query })
    }
}

// ---------------------------------------------------------------- exists

/// Documents that hold some value in `field`.
#[derive(Debug)]
pub struct ExistsQuery {
    pub field: String,
}

pub struct ExistsQueryView {
    pub field: Seq<char>,
}

impl View for ExistsQuery {
    type V = ExistsQueryView;

    open spec fn view(&self) -> ExistsQueryView {
        ExistsQueryView { field: self.field@ }
    }
}

pub open spec fn exists_json(t: ExistsQueryView) -> JsonValue {
    JsonValue::Object(seq![("field"@, JsonValue::Str(t.field))])
}

pub open spec fn exists_from(v: JsonValue) -> Result<ExistsQueryView, DecodeErrorView> {
    match v {
        JsonValue::Object(ms) => match req_str(ms, "field"@, ""@) {
            Err(e) => Err(e),
            Ok(field) => Ok(ExistsQueryView { field }),
        },
        _ => Err(DecodeErrorView::MalformedLeaf { field: ""@, missing: "field"@ }),
    }
}

impl ExistsQuery {
    pub fn new(field: &str) -> (r: ExistsQuery)
        ensures
            r@ == (ExistsQueryView { field: field@ }),
    {
        ExistsQuery { field: field.to_owned() }
    }

    /// `{ "field": .. }`; the `exists` tag is added by [`Query`].
    pub fn to_json(&self) -> (r: Json)
        ensures
            r@ == exists_json(self@),
    {
        single_member("field", json_str(self.field.as_str()))
    }

    pub fn from_json(j: &Json) -> (r: Result<ExistsQuery, DecodeError>)
        ensures
            result_view(r) == exists_from(j@),
    {
        match j {
            Json::Object(ms) => match read_req_str(ms, "field", "") {
                Ok(field) => Ok(ExistsQuery { field }),
                Err(e) => Err(e),
            },
            _ => Err(malformed_leaf("", "field")),
        }
    }
}

// ---------------------------------------------------------------- nested

/// Documents with nested objects at `path` that match `query`. The default
/// of `ignore_unmapped`, on decoding and in [`NestedQuery::new`], is `false`.
#[derive(Debug)]
pub struct NestedQuery {
    pub path: String,
    pub query: CompoundQuery,
    pub ignore_unmapped: bool,
}

pub struct NestedQueryView {
    pub path: Seq<char>,
    pub query: CompoundQueryView,
    pub ignore_unmapped: bool,
}

impl View for NestedQuery {
    type V = NestedQueryView;

    open spec fn view(&self) -> NestedQueryView {
        NestedQueryView { path: self.path@, query: self.query@, ignore_unmapped: self.ignore_unmapped }
    }
}

/// The body of an encoded nested query.
pub open spec fn nested_body_json(n: NestedQueryView) -> JsonValue {
    query_json(QueryView::Nested(n))->Object_0[0].1
}

// ---------------------------------------------------------------- query

/// One query: exactly one of the leaf kinds, or a boolean combination.
#[derive(Debug)]
pub enum Query {
    Exists(ExistsQuery),
    Term(TermQuery),
    Terms(TermsQuery),
    Range(RangeQuery),
    Regexp(RegexpQuery),
    Prefix(PrefixQuery),
    Match(MatchQuery),
    SimpleQueryString(SimpleQueryStringQuery),
    QueryString(QueryStringQuery),
    Nested(NestedQuery),
    Bool(BooleanQuery),
}

/// Queries combined by boolean clauses. `must` and `should` clauses score;
/// `filter` and `must_not` clauses only restrict.
#[derive(Debug)]
pub struct BooleanQuery {
    pub must: Vec<Query>,
    pub filter: Vec<Query>,
    pub should: Vec<Query>,
    pub must_not: Vec<Query>,
    /// How many `should` clauses must match, in the query DSL's syntax.
    pub minimum_should_match: Option<String>,
    /// Relevance boost, as decimal text.
    pub boost: Option<String>,
}

pub enum QueryView {
    Exists(ExistsQueryView),
    Term(TermQueryView),
    Terms(TermsQueryView),
    Range(RangeQueryView),
    Regexp(RegexpQueryView),
    Prefix(PrefixQueryView),
    Match(MatchQueryView),
    SimpleQueryString(SimpleQueryStringQueryView),
    QueryString(QueryStringQueryView),
    Nested(NestedQueryView),
    Bool(BooleanQueryView),
}

pub struct BooleanQueryView {
    pub must: Seq<QueryView>,
    pub filter: Seq<QueryView>,
    pub should: Seq<QueryView>,
    pub must_not: Seq<QueryView>,
    pub minimum_should_match: Option<Seq<char>>,
    pub boost: Option<Seq<char>>,
}

pub open spec fn query_view(q: Query) -> QueryView
    decreases q, 0nat,
{
    match q {
        Query::Exists(t) => QueryView::Exists(t@),
        Query::Term(t) => QueryView::Term(t@),
        Query::Terms(t) => QueryView::Terms(t@),
        Query::Range(t) => QueryView::Range(t@),
        Query::Regexp(t) => QueryView::Regexp(t@),
        Query::Prefix(t) => QueryView::Prefix(t@),
        Query::Match(t) => QueryView::Match(t@),
        Query::SimpleQueryString(t) => QueryView::SimpleQueryString(t@),
        Query::QueryString(t) => QueryView::QueryString(t@),
        Query::Nested(n) => QueryView::Nested(
            NestedQueryView {
                path: n.path@,
                query: CompoundQueryView {
                    boolean: match n.query.boolean {
                        Some(b) => Some(
                            BooleanQueryView {
                                must: queries_view(b.must@),
                                filter: queries_view(b.filter@),
                                should: queries_view(b.should@),
                                must_not: queries_view(b.must_not@),
                                minimum_should_match: opt_view(b.minimum_should_match),
                                boost: opt_view(b.boost),
                            },
                        ),
                        None => None,
                    },
                },
                ignore_unmapped: n.ignore_unmapped,
            },
        ),
        Query::Bool(b) => QueryView::Bool(
            BooleanQueryView {
                must: queries_view(b.must@),
                filter: queries_view(b.filter@),
                should: queries_view(b.should@),
                must_not: queries_view(b.must_not@),
                minimum_should_match: opt_view(b.minimum_should_match),
                boost: opt_view(b.boost),
            },
        ),
    }
}

pub open spec fn queries_view(s: Seq<Query>) -> Seq<QueryView>
    decreases s, 1nat,
{
    if s.len() == 0 {
        Seq::empty()
    } else {
        queries_view(s.subrange(0, s.len() - 1)).push(query_view(s[s.len() - 1]))
    }
}

impl View for Query {
    type V = QueryView;

    open spec fn view(&self) -> QueryView {
        query_view(*self)
    }
}

impl View for BooleanQuery {
    type V = BooleanQueryView;

    open spec fn view(&self) -> BooleanQueryView {
        BooleanQueryView {
            must: queries_view(self.must@),
            filter: queries_view(self.filter@),
            should: queries_view(self.should@),
            must_not: queries_view(self.must_not@),
            minimum_should_match: opt_view(self.minimum_should_match),
            boost: opt_view(self.boost),
        }
    }
}

/// The number of queries in `q`, which recursion over it decreases.
pub open spec fn query_size(q: Query) -> nat
    decreases q, 0nat,
{
    match q {
        Query::Bool(b) => 1 + queries_size(b.must@) + queries_size(b.filter@) + queries_size(
            b.should@,
        ) + queries_size(b.must_not@),
        Query::Nested(n) => 1 + match n.query.boolean {
            Some(b) => 1 + queries_size(b.must@) + queries_size(b.filter@) + queries_size(b.should@)
                + queries_size(b.must_not@),
            None => 0,
        },
        _ => 1,
    }
}

pub open spec fn queries_size(s: Seq<Query>) -> nat
    decreases s, 1nat,
{
    if s.len() == 0 {
        0
    } else {
        queries_size(s.subrange(0, s.len() - 1)) + query_size(s[s.len() - 1])
    }
}

pub proof fn lemma_queries_size(s: Seq<Query>, i: int)
    requires
        0 <= i < s.len(),
    ensures
        query_size(s[i]) <= queries_size(s),
    decreases s.len(),
{
    if i < s.len() - 1 {
        lemma_queries_size(s.subrange(0, s.len() - 1), i);
    }
}

pub proof fn lemma_queries_view_push(s: Seq<Query>, q: Query)
    ensures
        queries_view(s.push(q)) == queries_view(s).push(query_view(q)),
{
    assert(s.push(q).subrange(0, s.len() as int) =~= s);
}

/// `{ "<tag>": body }`.
pub open spec fn tagged(tag: Seq<char>, body: JsonValue) -> JsonValue {
    JsonValue::Object(seq![(tag, body)])
}

/// The member `name: [..]` of a boolean query, left out when empty.
pub open spec fn clause_member(name: Seq<char>, encoded: Seq<JsonValue>) -> Seq<(Seq<char>, JsonValue)> {
    if encoded.len() == 0 {
        seq![]
    } else {
        seq![(name, JsonValue::Array(encoded))]
    }
}

pub open spec fn query_json(q: QueryView) -> JsonValue
    decreases q, 0nat,
{
    match q {
        QueryView::Exists(t) => tagged("exists"@, exists_json(t)),
        QueryView::Term(t) => tagged("term"@, term_json(t)),
        QueryView::Terms(t) => tagged("terms"@, terms_json(t)),
        QueryView::Range(t) => tagged("range"@, range_json(t)),
        QueryView::Regexp(t) => tagged("regexp"@, regexp_json(t)),
        QueryView::Prefix(t) => tagged("prefix"@, prefix_json(t)),
        QueryView::Match(t) => tagged("match"@, match_json(t)),
        QueryView::SimpleQueryString(t) => tagged("simple_query_string"@, simple_query_string_json(t)),
        QueryView::QueryString(t) => tagged("query_string"@, query_string_json(t)),
        QueryView::Nested(n) => tagged(
            "nested"@,
            JsonValue::Object(
                seq![
                    ("path"@, JsonValue::Str(n.path)),
                    (
                        "query"@,
                        match n.query.boolean {
                            Some(b) => tagged(
                                "bool"@,
                                JsonValue::Object(
                                    clause_member("must"@, queries_json(b.must)) + clause_member(
                    "filter"@,
                    queries_json(b.filter),
                ) + clause_member("should"@, queries_json(b.should)) + clause_member(
                    "must_not"@,
                    queries_json(b.must_not),
                ) + opt_str_member("minimum_should_match"@, b.minimum_should_match)
                    + opt_num_member("boost"@, b.boost),
                                ),
                            ),
                            None => JsonValue::Object(seq![]),
                        },
                    ),
                    ("ignore_unmapped"@, JsonValue::Bool(n.ignore_unmapped)),
                ],
            ),
        ),
        QueryView::Bool(b) => tagged(
            "bool"@,
            JsonValue::Object(
                clause_member("must"@, queries_json(b.must)) + clause_member(
                    "filter"@,
                    queries_json(b.filter),
                ) + clause_member("should"@, queries_json(b.should)) + clause_member(
                    "must_not"@,
                    queries_json(b.must_not),
                ) + opt_str_member("minimum_should_match"@, b.minimum_should_match)
                    + opt_num_member("boost"@, b.boost),
            ),
        ),
    }
}

pub open spec fn queries_json(s: Seq<QueryView>) -> Seq<JsonValue>
    decreases s, 1nat,
{
    if s.len() == 0 {
        Seq::empty()
    } else {
        queries_json(s.subrange(0, s.len() - 1)).push(query_json(s[s.len() - 1]))
    }
}

/// The encoding of a boolean query's body.
pub open spec fn bool_json(b: BooleanQueryView) -> JsonValue {
    query_json(QueryView::Bool(b))->Object_0[0].1
}

/// The query a document denotes: a single-member object whose key is the
/// variant tag.
pub open spec fn query_from(v: JsonValue) -> Result<QueryView, DecodeErrorView>
    decreases v, 0nat,
{
    match v {
        JsonValue::Object(ms) => if ms.len() != 1 {
            Err(DecodeErrorView::MalformedQuery { reason: "zero_or_multiple"@, tag: None })
        } else {
            let tag = ms[0].0;
            let body = ms[0].1;
            if tag == "exists"@ {
                match exists_from(body) {
                    Ok(t) => Ok(QueryView::Exists(t)),
                    Err(e) => Err(e),
                }
            } else if tag == "term"@ {
                match term_from(body) {
                    Ok(t) => Ok(QueryView::Term(t)),
                    Err(e) => Err(e),
                }
            } else if tag == "terms"@ {
                match terms_from(body) {
                    Ok(t) => Ok(QueryView::Terms(t)),
                    Err(e) => Err(e),
                }
            } else if tag == "range"@ {
                match range_from(body) {
                    Ok(t) => Ok(QueryView::Range(t)),
                    Err(e) => Err(e),
                }
            } else if tag == "regexp"@ {
                match regexp_from(body) {
                    Ok(t) => Ok(QueryView::Regexp(t)),
                    Err(e) => Err(e),
                }
            } else if tag == "prefix"@ {
                match prefix_from(body) {
                    Ok(t) => Ok(QueryView::Prefix(t)),
                    Err(e) => Err(e),
                }
            } else if tag == "match"@ {
                match match_from(body) {
                    Ok(t) => Ok(QueryView::Match(t)),
                    Err(e) => Err(e),
                }
            } else if tag == "simple_query_string"@ {
                match simple_query_string_from(body) {
                    Ok(t) => Ok(QueryView::SimpleQueryString(t)),
                    Err(e) => Err(e),
                }
            } else if tag == "query_string"@ {
                match query_string_from(body) {
                    Ok(t) => Ok(QueryView::QueryString(t)),
                    Err(e) => Err(e),
                }
            } else if tag == "nested"@ {
                match body {
                    JsonValue::Object(nm) => match nested_from(nm) {
                        Ok(n) => Ok(QueryView::Nested(n)),
                        Err(e) => Err(e),
                    },
                    _ => Err(DecodeErrorView::MalformedLeaf { field: "nested"@, missing: "path"@ }),
                }
            } else if tag == "bool"@ {
                match body {
                    JsonValue::Object(bm) => match bool_from(bm) {
                        Ok(b) => Ok(QueryView::Bool(b)),
                        Err(e) => Err(e),
                    },
                    _ => Err(DecodeErrorView::MalformedLeaf { field: "bool"@, missing: "clauses"@ }),
                }
            } else {
                Err(DecodeErrorView::MalformedQuery { reason: "unknown_variant"@, tag: Some(tag) })
            }
        },
        _ => Err(DecodeErrorView::MalformedQuery { reason: "zero_or_multiple"@, tag: None }),
    }
}

/// The nested query that the members of a `nested` body denote.
pub open spec fn nested_from(nm: Seq<(Seq<char>, JsonValue)>) -> Result<NestedQueryView, DecodeErrorView>
    decreases nm, 5nat,
{
    match req_str(nm, "path"@, "nested"@) {
        Err(e) => Err(e),
        Ok(path) => match nested_query_member(nm) {
            Err(e) => Err(e),
            Ok(query) => match opt_bool(nm, "ignore_unmapped"@, "nested"@) {
                Err(e) => Err(e),
                Ok(ignore_unmapped) => Ok(NestedQueryView { path, query, ignore_unmapped }),
            },
        },
    }
}

/// The compound query under the first `query` member of a `nested` body.
pub open spec fn nested_query_member(nm: Seq<(Seq<char>, JsonValue)>) -> Result<CompoundQueryView, DecodeErrorView>
    decreases nm, 4nat,
{
    if nm.len() == 0 {
        Err(DecodeErrorView::MalformedLeaf { field: "nested"@, missing: "query"@ })
    } else if nm[0].0 == "query"@ {
        compound_in(nm[0].1)
    } else {
        nested_query_member(nm.subrange(1, nm.len() as int))
    }
}

/// The compound query a document denotes: `{}` or `{ "bool": .. }`.
pub open spec fn compound_in(v: JsonValue) -> Result<CompoundQueryView, DecodeErrorView>
    decreases v, 5nat,
{
    match v {
        JsonValue::Object(ms) => if ms.len() == 0 {
            Ok(CompoundQueryView { boolean: None })
        } else if ms.len() == 1 && ms[0].0 == "bool"@ {
            match ms[0].1 {
                JsonValue::Object(bm) => match bool_from(bm) {
                    Ok(b) => Ok(CompoundQueryView { boolean: Some(b) }),
                    Err(e) => Err(e),
                },
                _ => Err(DecodeErrorView::MalformedLeaf { field: "bool"@, missing: "clauses"@ }),
            }
        } else if ms.len() == 1 {
            Err(DecodeErrorView::MalformedQuery { reason: "unknown_variant"@, tag: Some(ms[0].0) })
        } else {
            Err(DecodeErrorView::MalformedQuery { reason: "zero_or_multiple"@, tag: None })
        },
        _ => Err(DecodeErrorView::MalformedQuery { reason: "zero_or_multiple"@, tag: None }),
    }
}

/// The boolean query that the members of a `bool` body denote.
pub open spec fn bool_from(bm: Seq<(Seq<char>, JsonValue)>) -> Result<BooleanQueryView, DecodeErrorView>
    decreases bm, 3nat,
{
    match clause_from(bm, "must"@) {
        Err(e) => Err(e),
        Ok(must) => match clause_from(bm, "filter"@) {
            Err(e) => Err(e),
            Ok(filter) => match clause_from(bm, "should"@) {
                Err(e) => Err(e),
                Ok(should) => match clause_from(bm, "must_not"@) {
                    Err(e) => Err(e),
                    Ok(must_not) => match opt_str(bm, "minimum_should_match"@, "bool"@) {
                        Err(e) => Err(e),
                        Ok(minimum_should_match) => match opt_num(bm, "boost"@) {
                            Err(e) => Err(e),
                            Ok(boost) => Ok(
                                BooleanQueryView {
                                    must,
                                    filter,
                                    should,
                                    must_not,
                                    minimum_should_match,
                                    boost,
                                },
                            ),
                        },
                    },
                },
            },
        },
    }
}

/// The clause `name` of a boolean query's members: absent or `null` is
/// empty, an array is decoded item by item.
pub open spec fn clause_from(bm: Seq<(Seq<char>, JsonValue)>, name: Seq<char>) -> Result<Seq<QueryView>, DecodeErrorView>
    decreases bm, 1nat,
{
    if bm.len() == 0 {
        Ok(Seq::empty())
    } else if bm[0].0 == name {
        match bm[0].1 {
            JsonValue::Null => Ok(Seq::empty()),
            JsonValue::Array(items) => queries_from(items),
            _ => Err(DecodeErrorView::MalformedLeaf { field: "bool"@, missing: name }),
        }
    } else {
        clause_from(bm.subrange(1, bm.len() as int), name)
    }
}

/// Decodes each item; the first failure is the result.
pub open spec fn queries_from(items: Seq<JsonValue>) -> Result<Seq<QueryView>, DecodeErrorView>
    decreases items, 2nat,
{
    if items.len() == 0 {
        Ok(Seq::empty())
    } else {
        match query_from(items[0]) {
            Err(e) => Err(e),
            Ok(q) => match queries_from(items.subrange(1, items.len() as int)) {
                Err(e) => Err(e),
                Ok(rest) => Ok(seq![q] + rest),
            },
        }
    }
}

/// A clause read from the member it is stored under.
pub open spec fn clause_of(m: Option<JsonValue>, name: Seq<char>) -> Result<Seq<QueryView>, DecodeErrorView> {
    match m {
        None => Ok(Seq::empty()),
        Some(JsonValue::Null) => Ok(Seq::empty()),
        Some(JsonValue::Array(items)) => queries_from(items),
        _ => Err(DecodeErrorView::MalformedLeaf { field: "bool"@, missing: name }),
    }
}

pub proof fn lemma_clause_from(bm: Seq<(Seq<char>, JsonValue)>, name: Seq<char>)
    ensures
        clause_from(bm, name) == clause_of(lookup(bm, name), name),
    decreases bm.len(),
{
    if bm.len() > 0 && bm[0].0 != name {
        lemma_clause_from(bm.subrange(1, bm.len() as int), name);
    }
}

/// Prefix `done` onto a decode result.
pub open spec fn prepend(done: Seq<QueryView>, r: Result<Seq<QueryView>, DecodeErrorView>) -> Result<Seq<QueryView>, DecodeErrorView> {
    match r {
        Ok(rest) => Ok(done + rest),
        Err(e) => Err(e),
    }
}

impl Query {
    /// `{ "<tag>": <body> }`: a leaf under its kind's tag, or `bool`.
    pub fn to_json(&self) -> (r: Json)
        ensures
            r@ == query_json(self@),
        decreases query_size(*self), 1nat,
    {
        match self {
            Query::Exists(t) => single_member("exists", t.to_json()),
            Query::Term(t) => single_member("term", t.to_json()),
            Query::Terms(t) => single_member("terms", t.to_json()),
            Query::Range(t) => single_member("range", t.to_json()),
            Query::Regexp(t) => single_member("regexp", t.to_json()),
            Query::Prefix(t) => single_member("prefix", t.to_json()),
            Query::Match(t) => single_member("match", t.to_json()),
            Query::SimpleQueryString(t) => single_member("simple_query_string", t.to_json()),
            Query::QueryString(t) => single_member("query_string", t.to_json()),
            Query::Nested(n) => single_member("nested", n.body_to_json()),
            Query::Bool(b) => {
                let body = b.body_to_json();
                single_member("bool", body)
            },
        }
    }

    /// Decodes a query; an object without exactly one member, or with an
    /// unknown tag, is a malformed query.
    pub fn from_json(j: &Json) -> (r: Result<Query, DecodeError>)
        ensures
            result_view(r) == query_from(j@),
        decreases json_size(*j), 0nat,
    {
        match j {
            Json::Object(ms) => {
                proof {
                    lemma_members_index(ms@);
                    if ms@.len() == 1 {
                        lemma_members_size(ms@, 0);
                    }
                }
                if ms.len() != 1 {
                    return Err(malformed_query("zero_or_multiple"));
                }
                let tag = ms[0].0.as_str();
                let body = &ms[0].1;
                Query::from_tagged(tag, body)
            },
            _ => Err(malformed_query("zero_or_multiple")),
        }
    }

    fn from_tagged(tag: &str, body: &Json) -> (r: Result<Query, DecodeError>)
        ensures
            result_view(r) == query_from(JsonValue::Object(seq![(tag@, body@)])),
        decreases json_size(*body), 1nat,
    {
        let ghost v = JsonValue::Object(seq![(tag@, body@)]);
        assert(v->Object_0[0] == (tag@, body@));
        if str_eq(tag, "exists") {
            match ExistsQuery::from_json(body) {
                Ok(t) => Ok(Query::Exists(t)),
                Err(e) => Err(e),
            }
        } else if str_eq(tag, "term") {
            match TermQuery::from_json(body) {
                Ok(t) => Ok(Query::Term(t)),
                Err(e) => Err(e),
            }
        } else if str_eq(tag, "terms") {
            match TermsQuery::from_json(body) {
                Ok(t) => Ok(Query::Terms(t)),
                Err(e) => Err(e),
            }
        } else if str_eq(tag, "range") {
            match RangeQuery::from_json(body) {
                Ok(t) => Ok(Query::Range(t)),
                Err(e) => Err(e),
            }
        } else if str_eq(tag, "regexp") {
            match RegexpQuery::from_json(body) {
                Ok(t) => Ok(Query::Regexp(t)),
                Err(e) => Err(e),
            }
        } else if str_eq(tag, "prefix") {
            match PrefixQuery::from_json(body) {
                Ok(t) => Ok(Query::Prefix(t)),
                Err(e) => Err(e),
            }
        } else if str_eq(tag, "match") {
            match MatchQuery::from_json(body) {
                Ok(t) => Ok(Query::Match(t)),
                Err(e) => Err(e),
            }
        } else if str_eq(tag, "simple_query_string") {
            match SimpleQueryStringQuery::from_json(body) {
                Ok(t) => Ok(Query::SimpleQueryString(t)),
                Err(e) => Err(e),
            }
        } else if str_eq(tag, "query_string") {
            match QueryStringQuery::from_json(body) {
                Ok(t) => Ok(Query::QueryString(t)),
                Err(e) => Err(e),
            }
        } else if str_eq(tag, "nested") {
            match body {
                Json::Object(nm) => match nested_from_members(nm) {
                    Ok(n) => Ok(Query::Nested(n)),
                    Err(e) => Err(e),
                },
                _ => Err(malformed_leaf("nested", "path")),
            }
        } else if str_eq(tag, "bool") {
            match body {
                Json::Object(bm) => match bool_from_members(bm) {
                    Ok(b) => Ok(Query::Bool(b)),
                    Err(e) => Err(e),
                },
                _ => Err(malformed_leaf("bool", "clauses")),
            }
        } else {
            Err(crate::error::unknown_variant(tag))
        }
    }
}

/// Decodes the members of a `bool` body.
fn bool_from_members(bm: &Vec<(String, Json)>) -> (r: Result<BooleanQuery, DecodeError>)
    ensures
        match r {
            Ok(b) => bool_from(members_view(bm@)) == Ok::<BooleanQueryView, DecodeErrorView>(b@),
            Err(e) => bool_from(members_view(bm@)) == Err::<BooleanQueryView, DecodeErrorView>(e@),
        },
    decreases members_size(bm@), 3nat,
{
    let must = match read_clause(bm, "must") {
        Ok(c) => c,
        Err(e) => return Err(e),
    };
    let filter = match read_clause(bm, "filter") {
        Ok(c) => c,
        Err(e) => return Err(e),
    };
    let should = match read_clause(bm, "should") {
        Ok(c) => c,
        Err(e) => return Err(e),
    };
    let must_not = match read_clause(bm, "must_not") {
        Ok(c) => c,
        Err(e) => return Err(e),
    };
    let minimum_should_match = match read_opt_str(bm, "minimum_should_match", "bool") {
        Ok(v) => v,
        Err(e) => return Err(e),
    };
    let boost = match read_opt_num(bm, "boost") {
        Ok(v) => v,
        Err(e) => return Err(e),
    };
    Ok(BooleanQuery { must, filter, should, must_not, minimum_should_match, boost })
}

proof fn lemma_nested_query_member(nm: Seq<(Seq<char>, JsonValue)>)
    ensures
        nested_query_member(nm) == match lookup(nm, "query"@) {
            None => Err(DecodeErrorView::MalformedLeaf { field: "nested"@, missing: "query"@ }),
            Some(v) => compound_in(v),
        },
    decreases nm.len(),
{
    if nm.len() > 0 && nm[0].0 != "query"@ {
        lemma_nested_query_member(nm.subrange(1, nm.len() as int));
    }
}

/// Decodes the members of a `nested` body.
fn nested_from_members(nm: &Vec<(String, Json)>) -> (r: Result<NestedQuery, DecodeError>)
    ensures
        match r {
            Ok(n) => nested_from(members_view(nm@)) == Ok::<NestedQueryView, DecodeErrorView>(n@),
            Err(e) => nested_from(members_view(nm@)) == Err::<NestedQueryView, DecodeErrorView>(e@),
        },
    decreases members_size(nm@), 6nat,
{
    proof {
        lemma_nested_query_member(members_view(nm@));
    }
    let path = match read_req_str(nm, "path", "nested") {
        Ok(v) => v,
        Err(e) => return Err(e),
    };
    let query = match crate::json::member_index(nm, "query") {
        None => return Err(malformed_leaf("nested", "query")),
        Some(idx) => {
            proof {
                lemma_members_size(nm@, idx as int);
            }
            match compound_in_json(&nm[idx].1) {
                Ok(c) => c,
                Err(e) => return Err(e),
            }
        },
    };
    let ignore_unmapped = match read_opt_bool(nm, "ignore_unmapped", "nested") {
        Ok(v) => v,
        Err(e) => return Err(e),
    };
    Ok(NestedQuery { path, query, ignore_unmapped })
}

/// Decodes `{}` or `{ "bool": .. }`.
fn compound_in_json(v: &Json) -> (r: Result<CompoundQuery, DecodeError>)
    ensures
        result_view(r) == compound_in(v@),
    decreases json_size(*v), 5nat,
{
    match v {
        Json::Object(ms) => {
            proof {
                lemma_members_index(ms@);
                if ms@.len() == 1 {
                    lemma_members_size(ms@, 0);
                }
            }
            if ms.len() == 0 {
                Ok(CompoundQuery { boolean: None })
            } else if ms.len() == 1 && str_eq(ms[0].0.as_str(), "bool") {
                match &ms[0].1 {
                    Json::Object(bm) => match bool_from_members(bm) {
                        Ok(b) => Ok(CompoundQuery { boolean: Some(b) }),
                        Err(e) => Err(e),
                    },
                    _ => Err(malformed_leaf("bool", "clauses")),
                }
            } else if ms.len() == 1 {
                Err(crate::error::unknown_variant(ms[0].0.as_str()))
            } else {
                Err(malformed_query("zero_or_multiple"))
            }
        },
        _ => Err(malformed_query("zero_or_multiple")),
    }
}

impl NestedQuery {
    /// A nested query that does not ignore unmapped paths.
    pub fn new(path: &str, query: CompoundQuery) -> (r: NestedQuery)
        ensures
            r@ == (NestedQueryView { path: path@, query: query@, ignore_unmapped: false }),
    {
        NestedQuery { path: path.to_owned(), query, ignore_unmapped: false }
    }

    /// `{ "path": .., "query": { "bool": .. }, "ignore_unmapped": .. }`.
    pub fn body_to_json(&self) -> (r: Json)
        ensures
            r@ == nested_body_json(self@),
        decreases query_size(Query::Nested(*self)), 0nat,
    {
        let mut ms = empty_members();
        push_member(&mut ms, "path", json_str(self.path.as_str()));
        let q = match &self.query.boolean {
            Some(b) => single_member("bool", b.body_to_json()),
            None => Json::Object(empty_members()),
        };
        push_member(&mut ms, "query", q);
        push_member(&mut ms, "ignore_unmapped", Json::Bool(self.ignore_unmapped));
        proof {
            let n = self@;
            assert(members_view(ms@) =~= nested_body_json(n)->Object_0);
        }
        Json::Object(ms)
    }
}

/// Decodes the clause `name` of a boolean query.
fn read_clause(bm: &Vec<(String, Json)>, name: &str) -> (r: Result<Vec<Query>, DecodeError>)
    ensures
        match r {
            Ok(qs) => clause_from(members_view(bm@), name@) == Ok::<Seq<QueryView>, DecodeErrorView>(queries_view(qs@)),
            Err(e) => clause_from(members_view(bm@), name@) == Err::<Seq<QueryView>, DecodeErrorView>(e@),
        },
    decreases members_size(bm@), 2nat,
{
    proof {
        lemma_clause_from(members_view(bm@), name@);
        lemma_members_index(bm@);
    }
    match crate::json::member_index(bm, name) {
        None => {
            let v: Vec<Query> = Vec::new();
            proof {
                assert(queries_view(v@) =~= Seq::<QueryView>::empty());
            }
            Ok(v)
        },
        Some(idx) => {
            proof {
                lemma_members_size(bm@, idx as int);
            }
            match &bm[idx].1 {
                Json::Null => {
                    let v: Vec<Query> = Vec::new();
                    proof {
                        assert(queries_view(v@) =~= Seq::<QueryView>::empty());
                    }
                    Ok(v)
                },
                Json::Array(items) => queries_from_json(items),
                _ => Err(malformed_leaf("bool", name)),
            }
        },
    }
}

/// Decodes each item of an array of queries.
fn queries_from_json(items: &Vec<Json>) -> (r: Result<Vec<Query>, DecodeError>)
    ensures
        match r {
            Ok(qs) => queries_from(crate::json::items_view(items@)) == Ok::<Seq<QueryView>, DecodeErrorView>(queries_view(qs@)),
            Err(e) => queries_from(crate::json::items_view(items@)) == Err::<Seq<QueryView>, DecodeErrorView>(e@),
        },
    decreases crate::json::items_size(items@), 1nat,
{
    let ghost iv = crate::json::items_view(items@);
    proof {
        crate::json::lemma_items_index(items@);
        assert(iv.subrange(0, iv.len() as int) =~= iv);
        assert(queries_view(Seq::<Query>::empty()) =~= Seq::<QueryView>::empty());
        match queries_from(iv) {
            Ok(x) => {
                assert(Seq::<QueryView>::empty() + x =~= x);
            },
            Err(_) => {},
        }
    }
    let mut out: Vec<Query> = Vec::new();
    let mut i: usize = 0;
    while i < items.len()
        invariant
            0 <= i <= items.len(),
            iv == crate::json::items_view(items@),
            iv.len() == items@.len(),
            forall|j: int| 0 <= j < items@.len() ==> #[trigger] iv[j] == json_view(items@[j]),
            queries_from(iv) == prepend(queries_view(out@), queries_from(iv.subrange(i as int, iv.len() as int))),
        decreases items.len() - i,
    {
        proof {
            crate::json::lemma_items_size(items@, i as int);
            let t = iv.subrange(i as int, iv.len() as int);
            assert(t[0] == iv[i as int]);
            assert(t.subrange(1, t.len() as int) =~= iv.subrange(i + 1, iv.len() as int));
        }
        let q = match Query::from_json(&items[i]) {
            Ok(q) => q,
            Err(e) => return Err(e),
        };
        proof {
            lemma_queries_view_push(out@, q);
            let t = iv.subrange(i as int, iv.len() as int);
            match queries_from(iv.subrange(i + 1, iv.len() as int)) {
                Ok(rest) => {
                    assert(queries_view(out@) + (seq![query_view(q)] + rest) =~= queries_view(out@).push(query_view(q)) + rest);
                },
                Err(_) => {},
            }
        }
        out.push(q);
        i = i + 1;
    }
    proof {
        assert(iv.subrange(i as int, iv.len() as int) =~= Seq::<JsonValue>::empty());
        assert(queries_view(out@) + Seq::<QueryView>::empty() =~= queries_view(out@));
    }
    Ok(out)
}

/// Encodes each query of a clause.
fn queries_to_json(v: &Vec<Query>) -> (r: Vec<Json>)
    ensures
        crate::json::items_view(r@) == queries_json(queries_view(v@)),
    decreases queries_size(v@), 2nat,
{
    let mut out = crate::json::empty_items();
    let mut i: usize = 0;
    while i < v.len()
        invariant
            0 <= i <= v.len(),
            crate::json::items_view(out@) == queries_json(queries_view(v@.subrange(0, i as int))),
        decreases v.len() - i,
    {
        proof {
            lemma_queries_size(v@, i as int);
        }
        let j = v[i].to_json();
        crate::json::push_item(&mut out, j);
        proof {
            let p = v@.subrange(0, i + 1);
            assert(p =~= v@.subrange(0, i as int).push(v@[i as int]));
            lemma_queries_view_push(v@.subrange(0, i as int), v@[i as int]);
            let pv = queries_view(p);
            assert(pv.subrange(0, pv.len() - 1) =~= queries_view(v@.subrange(0, i as int)));
        }
        i = i + 1;
    }
    proof {
        assert(v@.subrange(0, v@.len() as int) =~= v@);
    }
    out
}

/// Appends `name: [..]` for a non-empty clause.
fn push_clause(ms: &mut Vec<(String, Json)>, name: &str, clause: &Vec<Query>)
    ensures
        members_view(final(ms)@) == members_view(old(ms)@) + clause_member(name@, queries_json(queries_view(clause@))),
    decreases queries_size(clause@), 3nat,
{
    let items = queries_to_json(clause);
    proof {
        crate::json::lemma_items_index(items@);
    }
    if items.len() > 0 {
        push_member(ms, name, Json::Array(items));
    }
    proof {
        assert(members_view(ms@) =~= members_view(old(ms)@) + clause_member(name@, queries_json(queries_view(clause@))));
    }
}

impl BooleanQuery {
    /// The body of `{ "bool": .. }`: the non-empty clauses, then
    /// `minimum_should_match` and `boost` when present.
    pub fn body_to_json(&self) -> (r: Json)
        ensures
            r@ == bool_json(self@),
        decreases query_size(Query::Bool(*self)), 0nat,
    {
        let mut ms = empty_members();
        push_clause(&mut ms, "must", &self.must);
        push_clause(&mut ms, "filter", &self.filter);
        push_clause(&mut ms, "should", &self.should);
        push_clause(&mut ms, "must_not", &self.must_not);
        push_opt_str(&mut ms, "minimum_should_match", &self.minimum_should_match);
        push_opt_num(&mut ms, "boost", &self.boost);
        proof {
            let b = self@;
            assert(members_view(ms@) =~= clause_member("must"@, queries_json(b.must)) + clause_member("filter"@, queries_json(b.filter)) + clause_member("should"@, queries_json(b.should)) + clause_member("must_not"@, queries_json(b.must_not)) + opt_str_member("minimum_should_match"@, b.minimum_should_match) + opt_num_member("boost"@, b.boost));
        }
        Json::Object(ms)
    }
}

/// A boolean query with no clauses.
pub open spec fn bool_is_empty(b: BooleanQueryView) -> bool {
    b.must.len() == 0 && b.filter.len() == 0 && b.should.len() == 0 && b.must_not.len() == 0
}

impl BooleanQuery {
    /// True when all four clauses are empty, whatever `minimum_should_match`
    /// and `boost` hold.
    pub fn is_empty(&self) -> (r: bool)
        ensures
            r == bool_is_empty(self@),
    {
        proof {
            lemma_queries_view_len(self.must@);
            lemma_queries_view_len(self.filter@);
            lemma_queries_view_len(self.should@);
            lemma_queries_view_len(self.must_not@);
        }
        self.must.len() == 0 && self.filter.len() == 0 && self.should.len() == 0
            && self.must_not.len() == 0
    }

    /// Appends a query to the `filter` clause.
    pub fn push(&mut self, filter: Query)
        ensures
            final(self)@ == (BooleanQueryView {
                filter: old(self)@.filter.push(filter@),
                ..old(self)@
            }),
    {
        proof {
            lemma_queries_view_push(self.filter@, filter);
        }
        self.filter.push(filter);
    }
}

pub proof fn lemma_queries_view_len(s: Seq<Query>)
    ensures
        queries_view(s).len() == s.len(),
    decreases s.len(),
{
    if s.len() > 0 {
        lemma_queries_view_len(s.subrange(0, s.len() - 1));
    }
}

/// An optional boolean query: `{ "bool": .. }`, or `{}` when absent.
#[derive(Debug)]
pub struct CompoundQuery {
    pub boolean: Option<BooleanQuery>,
}

pub struct CompoundQueryView {
    pub boolean: Option<BooleanQueryView>,
}

impl View for CompoundQuery {
    type V = CompoundQueryView;

    open spec fn view(&self) -> CompoundQueryView {
        CompoundQueryView {
            boolean: match self.boolean {
                Some(b) => Some(b@),
                None => None,
            },
        }
    }
}

pub open spec fn compound_json(c: CompoundQueryView) -> JsonValue {
    match c.boolean {
        Some(b) => query_json(QueryView::Bool(b)),
        None => JsonValue::Object(seq![]),
    }
}

pub open spec fn compound_from(v: JsonValue) -> Result<CompoundQueryView, DecodeErrorView> {
    compound_in(v)
}

/// The empty boolean query.
pub open spec fn empty_bool() -> BooleanQueryView {
    BooleanQueryView {
        must: seq![],
        filter: seq![],
        should: seq![],
        must_not: seq![],
        minimum_should_match: None,
        boost: None,
    }
}

impl CompoundQuery {
    /// True when there is no boolean query or it has no clauses.
    pub fn is_empty(&self) -> (r: bool)
        ensures
            r == match self@.boolean {
                None => true,
                Some(b) => bool_is_empty(b),
            },
    {
        match &self.boolean {
            None => true,
            Some(b) => b.is_empty(),
        }
    }

    /// Appends a query to the `filter` clause, creating the boolean query
    /// when there is none.
    pub fn push(&mut self, filter: Query)
        ensures
            final(self)@.boolean == Some(
                match old(self)@.boolean {
                    Some(b) => BooleanQueryView { filter: b.filter.push(filter@), ..b },
                    None => BooleanQueryView { filter: seq![filter@], ..empty_bool() },
                },
            ),
    {
        match &mut self.boolean {
            Some(b) => b.push(filter),
            None => {
                let mut b = BooleanQuery {
                    must: Vec::new(),
                    filter: Vec::new(),
                    should: Vec::new(),
                    must_not: Vec::new(),
                    minimum_should_match: None,
                    boost: None,
                };
                proof {
                    assert(queries_view(b.must@) =~= Seq::<QueryView>::empty());
                    assert(queries_view(b.filter@) =~= Seq::<QueryView>::empty());
                }
                b.push(filter);
                proof {
                    assert(b@.filter =~= seq![filter@]);
                }
                self.boolean = Some(b);
            },
        }
    }

    /// `{ "bool": .. }`, or `{}` when there is no boolean query.
    pub fn to_json(&self) -> (r: Json)
        ensures
            r@ == compound_json(self@),
    {
        match &self.boolean {
            Some(b) => single_member("bool", b.body_to_json()),
            None => {
                let ms = empty_members();
                proof {
                    assert(members_view(ms@) =~= seq![]);
                }
                Json::Object(ms)
            },
        }
    }

    pub fn from_json(j: &Json) -> (r: Result<CompoundQuery, DecodeError>)
        ensures
            result_view(r) == compound_from(j@),
    {
        compound_in_json(j)
    }
}

/// Each leaf query encodes to an object whose single key is its field.
pub proof fn lemma_leaf_key_is_field(
    t: TermQueryView,
    r: RangeQueryView,
    x: RegexpQueryView,
    p: PrefixQueryView,
    m: MatchQueryView,
)
    ensures
        term_json(t)->Object_0.len() == 1 && term_json(t)->Object_0[0].0 == t.field,
        range_json(r)->Object_0.len() == 1 && range_json(r)->Object_0[0].0 == r.field,
        regexp_json(x)->Object_0.len() == 1 && regexp_json(x)->Object_0[0].0 == x.field,
        prefix_json(p)->Object_0.len() == 1 && prefix_json(p)->Object_0[0].0 == p.field,
        match_json(m)->Object_0.len() == 1 && match_json(m)->Object_0[0].0 == m.field,
{
}

/// A terms query's field is the one key of its encoding besides `boost`.
pub proof fn lemma_terms_key_is_field(t: TermsQueryView)
    requires
        t.field != "boost"@,
    ensures
        terms_json(t)->Object_0[0].0 == t.field,
        forall|i: int|
            0 < i < terms_json(t)->Object_0.len() ==> #[trigger] terms_json(t)->Object_0[i].0
                == "boost"@,
{
}

/// An exists query encodes under the `exists` tag.
pub proof fn lemma_exists_key(t: ExistsQueryView)
    ensures
        query_json(QueryView::Exists(t)) == JsonValue::Object(seq![("exists"@, exists_json(t))]),
{
}

/// How the terms of a query string combine when no operator is written.
#[derive(Clone, Copy, Debug, PartialEq, Eq, Structural)]
pub enum QueryStringBooleanOperator {
    Or,
    And,
}

pub open spec fn query_string_boolean_operator_name(e: QueryStringBooleanOperator) -> Seq<char> {
    match e {
        QueryStringBooleanOperator::Or => "OR"@,
        QueryStringBooleanOperator::And => "AND"@,
    }
}

pub open spec fn query_string_boolean_operator_of(s: Seq<char>) -> Option<QueryStringBooleanOperator> {
    if s == "OR"@ {
        Some(QueryStringBooleanOperator::Or)
    } else if s == "AND"@ {
        Some(QueryStringBooleanOperator::And)
    } else {
        None
    }
}

impl QueryStringBooleanOperator {
    /// The wire name of this value.
    pub fn name(&self) -> (r: &'static str)
        ensures
            r@ == query_string_boolean_operator_name(*self),
    {
        match self {
            QueryStringBooleanOperator::Or => "OR",
            QueryStringBooleanOperator::And => "AND",
        }
    }

    /// The value a wire name denotes.
    pub fn parse(s: &str) -> (r: Option<QueryStringBooleanOperator>)
        ensures
            r == query_string_boolean_operator_of(s@),
    {
        if str_eq(s, "OR") {
            Some(QueryStringBooleanOperator::Or)
        } else if str_eq(s, "AND") {
            Some(QueryStringBooleanOperator::And)
        } else {
            None
        }
    }
}

/// A field name and its mapped type.
#[derive(Debug)]
pub struct QueryField {
    pub field: String,
    pub type_: String,
}

impl QueryField {
    pub fn new(field: &str, ty: &str) -> (r: QueryField)
        ensures
            r.field@ == field@,
            r.type_@ == ty@,
    {
        QueryField { field: field.to_owned(), type_: ty.to_owned() }
    }
}

/// A field name and its mapped type, as offered for filtering.
#[derive(Debug)]
pub struct FilterField {
    pub field: String,
    pub ty: String,
}

impl FilterField {
    pub fn new(field: &str, ty: &str) -> (r: FilterField)
        ensures
            r.field@ == field@,
            r.ty@ == ty@,
    {
        FilterField { field: field.to_owned(), ty: ty.to_owned() }
    }
}

/// Decoding an encoded term query gives it back.
pub proof fn lemma_term_round_trip(t: TermQueryView)
    ensures
        term_from(term_json(t)) == Ok::<TermQueryView, DecodeErrorView>(t),
{
    lemma_query_keys();
    let m0 = seq![("value"@, JsonValue::Str(t.value))];
    let m1 = opt_num_member("boost"@, t.boost);
    lemma_lookup_one("value"@, JsonValue::Str(t.value), "value"@);
    lemma_opt_num_member("boost"@, t.boost, "value"@);
    lemma_lookup_concat(m0, m1, "value"@);
    lemma_lookup_one("value"@, JsonValue::Str(t.value), "boost"@);
    lemma_opt_num_member("boost"@, t.boost, "boost"@);
    lemma_lookup_concat(m0, m1, "boost"@);
    assert(seq![("value"@, JsonValue::Str(t.value))] + opt_num_member("boost"@, t.boost) =~= m0 + m1);
}

/// Decoding an encoded regexp query gives it back.
pub proof fn lemma_regexp_round_trip(t: RegexpQueryView)
    ensures
        regexp_from(regexp_json(t)) == Ok::<RegexpQueryView, DecodeErrorView>(t),
{
    lemma_query_keys();
    let m0 = seq![("value"@, JsonValue::Str(t.value))];
    let m1 = opt_str_member("flags"@, t.flags);
    lemma_lookup_one("value"@, JsonValue::Str(t.value), "value"@);
    lemma_opt_str_member("flags"@, t.flags, "value"@);
    lemma_lookup_concat(m0, m1, "value"@);
    lemma_lookup_one("value"@, JsonValue::Str(t.value), "flags"@);
    lemma_opt_str_member("flags"@, t.flags, "flags"@);
    lemma_lookup_concat(m0, m1, "flags"@);
    assert(seq![("value"@, JsonValue::Str(t.value))] + opt_str_member("flags"@, t.flags) =~= m0 + m1);
    assert forall|k: int| 0 <= k < (m0 + m1).len() implies (#[trigger] (m0 + m1)[k]).1 is Str by {
        if k >= 1 {
            assert((m0 + m1)[k] == m1[k - 1]);
        }
    }
    crate::leaf::lemma_first_non_str_none(m0 + m1);
}

/// Decoding an encoded prefix query gives it back.
pub proof fn lemma_prefix_round_trip(t: PrefixQueryView)
    ensures
        prefix_from(prefix_json(t)) == Ok::<PrefixQueryView, DecodeErrorView>(t),
{
    lemma_query_keys();
    let m0 = seq![("value"@, JsonValue::Str(t.value))];
    let m1 = flag_member("case_insensitive"@, t.case_insensitive);
    lemma_lookup_one("value"@, JsonValue::Str(t.value), "value"@);
    lemma_flag_member("case_insensitive"@, t.case_insensitive, "value"@);
    lemma_lookup_concat(m0, m1, "value"@);
    lemma_lookup_one("value"@, JsonValue::Str(t.value), "case_insensitive"@);
    lemma_flag_member("case_insensitive"@, t.case_insensitive, "case_insensitive"@);
    lemma_lookup_concat(m0, m1, "case_insensitive"@);
    assert(prefix_members(t) =~= m0 + m1);
}

/// Decoding an encoded match query gives it back.
pub proof fn lemma_match_round_trip(t: MatchQueryView)
    ensures
        match_from(match_json(t)) == Ok::<MatchQueryView, DecodeErrorView>(t),
{
    lemma_query_keys();
    let m0 = seq![("query"@, JsonValue::Str(t.query))];
    lemma_lookup_one("query"@, JsonValue::Str(t.query), "query"@);
    assert(seq![("query"@, JsonValue::Str(t.query))] =~= m0);
}

/// Decoding an encoded exists query gives it back.
pub proof fn lemma_exists_round_trip(t: ExistsQueryView)
    ensures
        exists_from(exists_json(t)) == Ok::<ExistsQueryView, DecodeErrorView>(t),
{
    lemma_query_keys();
    let m0 = seq![("field"@, JsonValue::Str(t.field))];
    lemma_lookup_one("field"@, JsonValue::Str(t.field), "field"@);
    assert(seq![("field"@, JsonValue::Str(t.field))] =~= m0);
}

/// Decoding an encoded range query gives it back.
pub proof fn lemma_range_round_trip(t: RangeQueryView)
    requires
        has_bound(t),
    ensures
        range_from(range_json(t)) == Ok::<RangeQueryView, DecodeErrorView>(t),
{
    lemma_query_keys();
    let m0 = opt_str_member("gt"@, t.gt);
    let m1 = opt_str_member("gte"@, t.gte);
    let m2 = opt_str_member("lt"@, t.lt);
    let m3 = opt_str_member("lte"@, t.lte);
    let m4 = opt_str_member("time_zone"@, t.time_zone);
    let m5 = opt_num_member("boost"@, t.boost);
    lemma_opt_str_member("gt"@, t.gt, "gt"@);
    lemma_opt_str_member("gte"@, t.gte, "gt"@);
    lemma_opt_str_member("lt"@, t.lt, "gt"@);
    lemma_opt_str_member("lte"@, t.lte, "gt"@);
    lemma_opt_str_member("time_zone"@, t.time_zone, "gt"@);
    lemma_opt_num_member("boost"@, t.boost, "gt"@);
    lemma_lookup_concat(m0, m1, "gt"@);
    lemma_lookup_concat(m0 + m1, m2, "gt"@);
    lemma_lookup_concat(m0 + m1 + m2, m3, "gt"@);
    lemma_lookup_concat(m0 + m1 + m2 + m3, m4, "gt"@);
    lemma_lookup_concat(m0 + m1 + m2 + m3 + m4, m5, "gt"@);
    lemma_opt_str_member("gt"@, t.gt, "gte"@);
    lemma_opt_str_member("gte"@, t.gte, "gte"@);
    lemma_opt_str_member("lt"@, t.lt, "gte"@);
    lemma_opt_str_member("lte"@, t.lte, "gte"@);
    lemma_opt_str_member("time_zone"@, t.time_zone, "gte"@);
    lemma_opt_num_member("boost"@, t.boost, "gte"@);
    lemma_lookup_concat(m0, m1, "gte"@);
    lemma_lookup_concat(m0 + m1, m2, "gte"@);
    lemma_lookup_concat(m0 + m1 + m2, m3, "gte"@);
    lemma_lookup_concat(m0 + m1 + m2 + m3, m4, "gte"@);
    lemma_lookup_concat(m0 + m1 + m2 + m3 + m4, m5, "gte"@);
    lemma_opt_str_member("gt"@, t.gt, "lt"@);
    lemma_opt_str_member("gte"@, t.gte, "lt"@);
    lemma_opt_str_member("lt"@, t.lt, "lt"@);
    lemma_opt_str_member("lte"@, t.lte, "lt"@);
    lemma_opt_str_member("time_zone"@, t.time_zone, "lt"@);
    lemma_opt_num_member("boost"@, t.boost, "lt"@);
    lemma_lookup_concat(m0, m1, "lt"@);
    lemma_lookup_concat(m0 + m1, m2, "lt"@);
    lemma_lookup_concat(m0 + m1 + m2, m3, "lt"@);
    lemma_lookup_concat(m0 + m1 + m2 + m3, m4, "lt"@);
    lemma_lookup_concat(m0 + m1 + m2 + m3 + m4, m5, "lt"@);
    lemma_opt_str_member("gt"@, t.gt, "lte"@);
    lemma_opt_str_member("gte"@, t.gte, "lte"@);
    lemma_opt_str_member("lt"@, t.lt, "lte"@);
    lemma_opt_str_member("lte"@, t.lte, "lte"@);
    lemma_opt_str_member("time_zone"@, t.time_zone, "lte"@);
    lemma_opt_num_member("boost"@, t.boost, "lte"@);
    lemma_lookup_concat(m0, m1, "lte"@);
    lemma_lookup_concat(m0 + m1, m2, "lte"@);
    lemma_lookup_concat(m0 + m1 + m2, m3, "lte"@);
    lemma_lookup_concat(m0 + m1 + m2 + m3, m4, "lte"@);
    lemma_lookup_concat(m0 + m1 + m2 + m3 + m4, m5, "lte"@);
    lemma_opt_str_member("gt"@, t.gt, "time_zone"@);
    lemma_opt_str_member("gte"@, t.gte, "time_zone"@);
    lemma_opt_str_member("lt"@, t.lt, "time_zone"@);
    lemma_opt_str_member("lte"@, t.lte, "time_zone"@);
    lemma_opt_str_member("time_zone"@, t.time_zone, "time_zone"@);
    lemma_opt_num_member("boost"@, t.boost, "time_zone"@);
    lemma_lookup_concat(m0, m1, "time_zone"@);
    lemma_lookup_concat(m0 + m1, m2, "time_zone"@);
    lemma_lookup_concat(m0 + m1 + m2, m3, "time_zone"@);
    lemma_lookup_concat(m0 + m1 + m2 + m3, m4, "time_zone"@);
    lemma_lookup_concat(m0 + m1 + m2 + m3 + m4, m5, "time_zone"@);
    lemma_opt_str_member("gt"@, t.gt, "boost"@);
    lemma_opt_str_member("gte"@, t.gte, "boost"@);
    lemma_opt_str_member("lt"@, t.lt, "boost"@);
    lemma_opt_str_member("lte"@, t.lte, "boost"@);
    lemma_opt_str_member("time_zone"@, t.time_zone, "boost"@);
    lemma_opt_num_member("boost"@, t.boost, "boost"@);
    lemma_lookup_concat(m0, m1, "boost"@);
    lemma_lookup_concat(m0 + m1, m2, "boost"@);
    lemma_lookup_concat(m0 + m1 + m2, m3, "boost"@);
    lemma_lookup_concat(m0 + m1 + m2 + m3, m4, "boost"@);
    lemma_lookup_concat(m0 + m1 + m2 + m3 + m4, m5, "boost"@);
    assert(range_members(t) =~= m0 + m1 + m2 + m3 + m4 + m5);
}

/// Decoding an encoded terms query gives it back, when its field is not
/// `boost` (which the encoding reserves for the boost beside the field).
pub proof fn lemma_terms_round_trip(t: TermsQueryView)
    requires
        t.field != "boost"@,
    ensures
        terms_from(terms_json(t)) == Ok::<TermsQueryView, DecodeErrorView>(t),
{
    lemma_query_keys();
    let m0 = seq![(t.field, strs_json(t.values))];
    let m1 = opt_num_member("boost"@, t.boost);
    lemma_lookup_one(t.field, strs_json(t.values), t.field);
    lemma_opt_num_member("boost"@, t.boost, t.field);
    lemma_lookup_concat(m0, m1, t.field);
    lemma_lookup_one(t.field, strs_json(t.values), "boost"@);
    lemma_opt_num_member("boost"@, t.boost, "boost"@);
    lemma_lookup_concat(m0, m1, "boost"@);
    let ms = m0 + m1;
    assert(ms[0] == (t.field, strs_json(t.values)));
    if t.boost is Some {
        assert(ms[1].0 == "boost"@);
    }
    let items = t.values.map_values(|x: Seq<char>| JsonValue::Str(x));
    assert(crate::leaf::all_strs(items));
    assert(items.map_values(|v: JsonValue| v->Str_0) =~= t.values);
}

/// A query that its encoding can carry: every range has a bound, no terms
/// query is on a field named `boost`, and so for every nested query.
pub open spec fn query_wf(q: QueryView) -> bool
    decreases q, 0nat,
{
    match q {
        QueryView::Terms(t) => t.field != "boost"@,
        QueryView::Range(r) => has_bound(r),
        QueryView::Bool(b) => queries_wf(b.must) && queries_wf(b.filter) && queries_wf(b.should)
            && queries_wf(b.must_not),
        QueryView::Nested(n) => match n.query.boolean {
            Some(b) => queries_wf(b.must) && queries_wf(b.filter) && queries_wf(b.should)
                && queries_wf(b.must_not),
            None => true,
        },
        _ => true,
    }
}

pub open spec fn queries_wf(s: Seq<QueryView>) -> bool
    decreases s, 1nat,
{
    if s.len() == 0 {
        true
    } else {
        queries_wf(s.subrange(0, s.len() - 1)) && query_wf(s[s.len() - 1])
    }
}

proof fn lemma_queries_json_index(s: Seq<QueryView>)
    ensures
        queries_json(s).len() == s.len(),
        forall|i: int| 0 <= i < s.len() ==> #[trigger] queries_json(s)[i] == query_json(s[i]),
    decreases s.len(),
{
    if s.len() > 0 {
        lemma_queries_json_index(s.subrange(0, s.len() - 1));
    }
}

proof fn lemma_queries_wf_index(s: Seq<QueryView>)
    ensures
        queries_wf(s) <==> forall|i: int| 0 <= i < s.len() ==> #[trigger] query_wf(s[i]),
    decreases s.len(),
{
    if s.len() > 0 {
        let t = s.subrange(0, s.len() - 1);
        lemma_queries_wf_index(t);
        if queries_wf(s) {
            assert forall|i: int| 0 <= i < s.len() implies #[trigger] query_wf(s[i]) by {
                if i < s.len() - 1 {
                    assert(s[i] == t[i]);
                }
            }
        }
        if forall|i: int| 0 <= i < s.len() ==> #[trigger] query_wf(s[i]) {
            assert forall|i: int| 0 <= i < t.len() implies #[trigger] query_wf(t[i]) by {
                assert(s[i] == t[i]);
            }
            assert(query_wf(s[s.len() - 1]));
        }
    }
}

proof fn lemma_clause_member(name: Seq<char>, enc: Seq<JsonValue>, key: Seq<char>)
    ensures
        lookup(clause_member(name, enc), key) == if name == key && enc.len() > 0 {
            Some(JsonValue::Array(enc))
        } else {
            None::<JsonValue>
        },
{
    if enc.len() > 0 {
        lemma_lookup_one(name, JsonValue::Array(enc), key);
    }
}

/// Decoding an encoded well-formed query gives it back.
pub proof fn lemma_query_round_trip(q: QueryView)
    requires
        query_wf(q),
    ensures
        query_from(query_json(q)) == Ok::<QueryView, DecodeErrorView>(q),
    decreases q, 0nat,
{
    lemma_query_keys();
    match q {
        QueryView::Exists(t) => {
            lemma_exists_round_trip(t);
        },
        QueryView::Term(t) => {
            lemma_term_round_trip(t);
        },
        QueryView::Terms(t) => {
            lemma_terms_round_trip(t);
        },
        QueryView::Range(t) => {
            lemma_range_round_trip(t);
        },
        QueryView::Regexp(t) => {
            lemma_regexp_round_trip(t);
        },
        QueryView::Prefix(t) => {
            lemma_prefix_round_trip(t);
        },
        QueryView::Match(t) => {
            lemma_match_round_trip(t);
        },
        QueryView::SimpleQueryString(t) => {
            lemma_simple_query_string_round_trip(t);
        },
        QueryView::QueryString(t) => {
            lemma_query_string_round_trip(t);
        },
        QueryView::Nested(n) => {
            lemma_nested_round_trip(n);
        },
        QueryView::Bool(b) => {
            lemma_bool_round_trip(b);
        },
    }
}

/// The members of an encoded boolean query's body.
pub open spec fn bool_members(b: BooleanQueryView) -> Seq<(Seq<char>, JsonValue)> {
    clause_member("must"@, queries_json(b.must)) + clause_member("filter"@, queries_json(b.filter))
        + clause_member("should"@, queries_json(b.should)) + clause_member(
        "must_not"@,
        queries_json(b.must_not),
    ) + opt_str_member("minimum_should_match"@, b.minimum_should_match) + opt_num_member(
        "boost"@,
        b.boost,
    )
}

/// What each member name finds in an encoded boolean query's body.
proof fn lemma_bool_lookups(b: BooleanQueryView)
    ensures
        lookup(bool_members(b), "must"@) == clause_slot(b.must),
        lookup(bool_members(b), "filter"@) == clause_slot(b.filter),
        lookup(bool_members(b), "should"@) == clause_slot(b.should),
        lookup(bool_members(b), "must_not"@) == clause_slot(b.must_not),
        lookup(bool_members(b), "minimum_should_match"@) == match b.minimum_should_match {
            Some(t) => Some(JsonValue::Str(t)),
            None => None::<JsonValue>,
        },
        lookup(bool_members(b), "boost"@) == match b.boost {
            Some(t) => Some(JsonValue::Number(t)),
            None => None::<JsonValue>,
        },
{
    lemma_query_keys();
    lemma_bool_lookup(b, "must"@);
    lemma_bool_lookup(b, "filter"@);
    lemma_bool_lookup(b, "should"@);
    lemma_bool_lookup(b, "must_not"@);
    lemma_bool_lookup(b, "minimum_should_match"@);
    lemma_bool_lookup(b, "boost"@);
}

proof fn lemma_bool_lookup(b: BooleanQueryView, key: Seq<char>)
    ensures
        lookup(bool_members(b), key) == if key == "must"@ && b.must.len() > 0 {
            Some(JsonValue::Array(queries_json(b.must)))
        } else if key == "filter"@ && b.filter.len() > 0 {
            Some(JsonValue::Array(queries_json(b.filter)))
        } else if key == "should"@ && b.should.len() > 0 {
            Some(JsonValue::Array(queries_json(b.should)))
        } else if key == "must_not"@ && b.must_not.len() > 0 {
            Some(JsonValue::Array(queries_json(b.must_not)))
        } else if key == "minimum_should_match"@ && b.minimum_should_match is Some {
            Some(JsonValue::Str(b.minimum_should_match->0))
        } else if key == "boost"@ && b.boost is Some {
            Some(JsonValue::Number(b.boost->0))
        } else {
            None::<JsonValue>
        },
{
    lemma_query_keys();
    lemma_queries_json_index(b.must);
    lemma_queries_json_index(b.filter);
    lemma_queries_json_index(b.should);
    lemma_queries_json_index(b.must_not);
    let m0 = clause_member("must"@, queries_json(b.must));
    let m1 = clause_member("filter"@, queries_json(b.filter));
    let m2 = clause_member("should"@, queries_json(b.should));
    let m3 = clause_member("must_not"@, queries_json(b.must_not));
    let m4 = opt_str_member("minimum_should_match"@, b.minimum_should_match);
    let m5 = opt_num_member("boost"@, b.boost);
    lemma_clause_member("must"@, queries_json(b.must), key);
    lemma_clause_member("filter"@, queries_json(b.filter), key);
    lemma_clause_member("should"@, queries_json(b.should), key);
    lemma_clause_member("must_not"@, queries_json(b.must_not), key);
    lemma_opt_str_member("minimum_should_match"@, b.minimum_should_match, key);
    lemma_opt_num_member("boost"@, b.boost, key);
    lemma_lookup_concat(m0, m1, key);
    lemma_lookup_concat(m0 + m1, m2, key);
    lemma_lookup_concat(m0 + m1 + m2, m3, key);
    lemma_lookup_concat(m0 + m1 + m2 + m3, m4, key);
    lemma_lookup_concat(m0 + m1 + m2 + m3 + m4, m5, key);
}

/// Decoding an encoded boolean query gives it back.
proof fn lemma_bool_round_trip(b: BooleanQueryView)
    requires
        queries_wf(b.must),
        queries_wf(b.filter),
        queries_wf(b.should),
        queries_wf(b.must_not),
    ensures
        query_from(query_json(QueryView::Bool(b))) == Ok::<QueryView, DecodeErrorView>(QueryView::Bool(b)),
        bool_from(bool_members(b)) == Ok::<BooleanQueryView, DecodeErrorView>(b),
    decreases b, 3nat,
{
    lemma_query_keys();
    let bm = bool_members(b);
    assert(query_json(QueryView::Bool(b)) == tagged("bool"@, JsonValue::Object(bm)));
    lemma_bool_lookups(b);
    lemma_clause_from(bm, "must"@);
    lemma_clause_from(bm, "filter"@);
    lemma_clause_from(bm, "should"@);
    lemma_clause_from(bm, "must_not"@);
    lemma_clause_round_trip(b.must);
    lemma_clause_round_trip(b.filter);
    lemma_clause_round_trip(b.should);
    lemma_clause_round_trip(b.must_not);
    assert(clause_of(clause_slot(b.must), "must"@) == Ok::<Seq<QueryView>, DecodeErrorView>(b.must));
    assert(clause_of(clause_slot(b.filter), "filter"@) == Ok::<Seq<QueryView>, DecodeErrorView>(b.filter));
    assert(clause_of(clause_slot(b.should), "should"@) == Ok::<Seq<QueryView>, DecodeErrorView>(b.should));
    assert(clause_of(clause_slot(b.must_not), "must_not"@) == Ok::<Seq<QueryView>, DecodeErrorView>(b.must_not));
}

/// Decoding an encoded nested query gives it back.
proof fn lemma_nested_round_trip(n: NestedQueryView)
    requires
        query_wf(QueryView::Nested(n)),
    ensures
        query_from(query_json(QueryView::Nested(n))) == Ok::<QueryView, DecodeErrorView>(QueryView::Nested(n)),
    decreases n, 0nat,
{
    lemma_query_keys();
    let cv = match n.query.boolean {
        Some(b) => tagged("bool"@, JsonValue::Object(bool_members(b))),
        None => JsonValue::Object(seq![]),
    };
    let m0 = seq![("path"@, JsonValue::Str(n.path))];
    let m1 = seq![("query"@, cv)];
    let m2 = seq![("ignore_unmapped"@, JsonValue::Bool(n.ignore_unmapped))];
    let nm = m0 + m1 + m2;
    assert(nm =~= seq![
        ("path"@, JsonValue::Str(n.path)),
        ("query"@, cv),
        ("ignore_unmapped"@, JsonValue::Bool(n.ignore_unmapped)),
    ]);
    let enc = query_json(QueryView::Nested(n));
    assert(enc is Object);
    assert(enc->Object_0.len() == 1);
    assert(enc->Object_0[0].0 == "nested"@);
    let body = enc->Object_0[0].1;
    assert(body is Object);
    let bm = body->Object_0;
    assert(bm.len() == 3);
    assert(bm[0] == ("path"@, JsonValue::Str(n.path)));
    assert(bm[2] == ("ignore_unmapped"@, JsonValue::Bool(n.ignore_unmapped)));
    match n.query.boolean {
        Some(b) => {
            assert(query_json(QueryView::Bool(b)) == tagged("bool"@, JsonValue::Object(bool_members(b))));
            assert(cv == query_json(QueryView::Bool(b)));
            assert(bm[1] == ("query"@, cv));
        },
        None => {
            assert(bm[1] == ("query"@, cv));
        },
    }
    assert(bm =~= nm);
    lemma_lookup_one("path"@, JsonValue::Str(n.path), "path"@);
    lemma_lookup_one("query"@, cv, "path"@);
    lemma_lookup_one("ignore_unmapped"@, JsonValue::Bool(n.ignore_unmapped), "path"@);
    lemma_lookup_concat(m0, m1, "path"@);
    lemma_lookup_concat(m0 + m1, m2, "path"@);
    lemma_lookup_one("path"@, JsonValue::Str(n.path), "query"@);
    lemma_lookup_one("query"@, cv, "query"@);
    lemma_lookup_one("ignore_unmapped"@, JsonValue::Bool(n.ignore_unmapped), "query"@);
    lemma_lookup_concat(m0, m1, "query"@);
    lemma_lookup_concat(m0 + m1, m2, "query"@);
    lemma_lookup_one("path"@, JsonValue::Str(n.path), "ignore_unmapped"@);
    lemma_lookup_one("query"@, cv, "ignore_unmapped"@);
    lemma_lookup_one("ignore_unmapped"@, JsonValue::Bool(n.ignore_unmapped), "ignore_unmapped"@);
    lemma_lookup_concat(m0, m1, "ignore_unmapped"@);
    lemma_lookup_concat(m0 + m1, m2, "ignore_unmapped"@);
    lemma_nested_query_member(nm);
    match n.query.boolean {
        Some(b) => {
            lemma_bool_round_trip(b);
            assert(cv->Object_0[0] == ("bool"@, JsonValue::Object(bool_members(b))));
        },
        None => {},
    }
}

/// Where a clause stands in an encoded boolean query: an array when
/// non-empty, absent otherwise.
pub open spec fn clause_slot(s: Seq<QueryView>) -> Option<JsonValue> {
    if s.len() > 0 {
        Some(JsonValue::Array(queries_json(s)))
    } else {
        None
    }
}

/// A clause survives encoding.
proof fn lemma_clause_round_trip(s: Seq<QueryView>)
    requires
        queries_wf(s),
    ensures
        forall|name: Seq<char>| #[trigger] clause_of(clause_slot(s), name) == Ok::<Seq<QueryView>, DecodeErrorView>(s),
    decreases s, 2nat,
{
    if s.len() > 0 {
        lemma_queries_round_trip(s);
    } else {
        assert(s =~= Seq::<QueryView>::empty());
    }
}

/// Decoding the encodings of well-formed queries gives them back.
pub proof fn lemma_queries_round_trip(s: Seq<QueryView>)
    requires
        queries_wf(s),
    ensures
        queries_from(queries_json(s)) == Ok::<Seq<QueryView>, DecodeErrorView>(s),
    decreases s, 1nat,
{
    lemma_queries_json_index(s);
    lemma_queries_wf_index(s);
    if s.len() > 0 {
        let items = queries_json(s);
        let rest = s.subrange(1, s.len() as int);
        lemma_queries_json_index(rest);
        lemma_queries_wf_index(rest);
        assert(items.subrange(1, items.len() as int) =~= queries_json(rest));
        assert(query_wf(s[0]));
        lemma_query_round_trip(s[0]);
        lemma_queries_round_trip(rest);
        assert(seq![s[0]] + rest =~= s);
    } else {
        assert(s =~= Seq::<QueryView>::empty());
    }
}

/// A compound query whose boolean query, if any, is well-formed.
pub open spec fn compound_wf(c: CompoundQueryView) -> bool {
    match c.boolean {
        Some(b) => query_wf(QueryView::Bool(b)),
        None => true,
    }
}

/// Decoding an encoded well-formed compound query gives it back.
pub proof fn lemma_compound_round_trip(c: CompoundQueryView)
    requires
        compound_wf(c),
    ensures
        compound_from(compound_json(c)) == Ok::<CompoundQueryView, DecodeErrorView>(c),
{
    lemma_query_keys();
    match c.boolean {
        Some(b) => {
            lemma_query_round_trip(QueryView::Bool(b));
        },
        None => {},
    }
}

/// Every decoded range has a bound; one without any bound is a malformed
/// leaf missing `gt`, whatever else it holds.
pub proof fn lemma_range_needs_bound(v: JsonValue)
    ensures
        range_from(v) is Ok ==> has_bound(range_from(v)->Ok_0),
        match leaf_shape(v, "gt"@) {
            Ok((f, inner)) => (lookup(inner, "gt"@) is None && lookup(inner, "gte"@) is None
                && lookup(inner, "lt"@) is None && lookup(inner, "lte"@) is None) ==> range_from(v)
                == Err::<RangeQueryView, DecodeErrorView>(
                DecodeErrorView::MalformedLeaf { field: f, missing: "gt"@ },
            ),
            Err(_) => true,
        },
{
}

/// A term query whose `value` is a number is a malformed leaf.
pub proof fn lemma_term_numeric_value(field: Seq<char>, inner: Seq<(Seq<char>, JsonValue)>, t: Seq<char>)
    requires
        lookup(inner, "value"@) == Some(JsonValue::Number(t)),
    ensures
        term_from(JsonValue::Object(seq![(field, JsonValue::Object(inner))])) == Err::<TermQueryView, DecodeErrorView>(
            DecodeErrorView::MalformedLeaf { field, missing: "value"@ },
        ),
{
    let v = JsonValue::Object(seq![(field, JsonValue::Object(inner))]);
    assert(v->Object_0[0] == (field, JsonValue::Object(inner)));
}

/// The names of the query-string options, character by character.
proof fn lemma_query_string_keys()
    ensures
        "allow_leading_wildcard"@.len() == 22 && "allow_leading_wildcard"@[0] == 'a' && "allow_leading_wildcard"@[1] == 'l',
        "analyze_wildcard"@.len() == 16 && "analyze_wildcard"@[0] == 'a' && "analyze_wildcard"@[1] == 'n',
        "analyzer"@.len() == 8 && "analyzer"@[0] == 'a' && "analyzer"@[1] == 'n',
        "auto_generate_synonyms_phrase_query"@.len() == 35 && "auto_generate_synonyms_phrase_query"@[0] == 'a' && "auto_generate_synonyms_phrase_query"@[1] == 'u',
        "boost"@.len() == 5 && "boost"@[0] == 'b' && "boost"@[1] == 'o',
        "default_field"@.len() == 13 && "default_field"@[0] == 'd' && "default_field"@[1] == 'e' && "default_field"@[8] == 'f',
        "default_operator"@.len() == 16 && "default_operator"@[0] == 'd' && "default_operator"@[1] == 'e' && "default_operator"@[8] == 'o',
        "enable_position_increments"@.len() == 26 && "enable_position_increments"@[0] == 'e' && "enable_position_increments"@[1] == 'n',
        "fields"@.len() == 6 && "fields"@[0] == 'f' && "fields"@[1] == 'i',
        "fuzziness"@.len() == 9 && "fuzziness"@[0] == 'f' && "fuzziness"@[1] == 'u',
        "fuzzy_max_expansions"@.len() == 20 && "fuzzy_max_expansions"@[0] == 'f' && "fuzzy_max_expansions"@[1] == 'u' && "fuzzy_max_expansions"@[6] == 'm',
        "fuzzy_prefix_length"@.len() == 19 && "fuzzy_prefix_length"@[0] == 'f' && "fuzzy_prefix_length"@[1] == 'u' && "fuzzy_prefix_length"@[6] == 'p',
        "fuzzy_transpositions"@.len() == 20 && "fuzzy_transpositions"@[0] == 'f' && "fuzzy_transpositions"@[1] == 'u' && "fuzzy_transpositions"@[6] == 't',
        "lenient"@.len() == 7 && "lenient"@[0] == 'l' && "lenient"@[1] == 'e',
        "max_determinized_states"@.len() == 23 && "max_determinized_states"@[0] == 'm' && "max_determinized_states"@[1] == 'a',
        "minimum_should_match"@.len() == 20 && "minimum_should_match"@[0] == 'm' && "minimum_should_match"@[1] == 'i',
        "phrase_slop"@.len() == 11 && "phrase_slop"@[0] == 'p' && "phrase_slop"@[1] == 'h',
        "query"@.len() == 5 && "query"@[0] == 'q' && "query"@[1] == 'u',
        "quote_analyzer"@.len() == 14 && "quote_analyzer"@[0] == 'q' && "quote_analyzer"@[1] == 'u' && "quote_analyzer"@[6] == 'a',
        "quote_field_suffix"@.len() == 18 && "quote_field_suffix"@[0] == 'q' && "quote_field_suffix"@[1] == 'u' && "quote_field_suffix"@[6] == 'f',
        "rewrite"@.len() == 7 && "rewrite"@[0] == 'r' && "rewrite"@[1] == 'e',
        "time_zone"@.len() == 9 && "time_zone"@[0] == 't' && "time_zone"@[1] == 'i',
{
    reveal_strlit("allow_leading_wildcard");
    reveal_strlit("analyze_wildcard");
    reveal_strlit("analyzer");
    reveal_strlit("auto_generate_synonyms_phrase_query");
    reveal_strlit("boost");
    reveal_strlit("default_field");
    reveal_strlit("default_operator");
    reveal_strlit("enable_position_increments");
    reveal_strlit("fields");
    reveal_strlit("fuzziness");
    reveal_strlit("fuzzy_max_expansions");
    reveal_strlit("fuzzy_prefix_length");
    reveal_strlit("fuzzy_transpositions");
    reveal_strlit("lenient");
    reveal_strlit("max_determinized_states");
    reveal_strlit("minimum_should_match");
    reveal_strlit("phrase_slop");
    reveal_strlit("query");
    reveal_strlit("quote_analyzer");
    reveal_strlit("quote_field_suffix");
    reveal_strlit("rewrite");
    reveal_strlit("time_zone");
}

pub open spec fn operator_or(b: Seq<(Seq<char>, JsonValue)>, name: Seq<char>, d: QueryStringBooleanOperator) -> Result<QueryStringBooleanOperator, DecodeErrorView> {
    match lookup(b, name) {
        None => Ok(d),
        Some(JsonValue::Null) => Ok(d),
        Some(JsonValue::Str(t)) => match query_string_boolean_operator_of(t) {
            Some(e) => Ok(e),
            None => Err(DecodeErrorView::InvalidEnum { name, value: t }),
        },
        _ => Err(DecodeErrorView::InvalidEnum { name, value: ""@ }),
    }
}

proof fn lemma_operator_name(e: QueryStringBooleanOperator)
    ensures
        query_string_boolean_operator_of(query_string_boolean_operator_name(e)) == Some(e),
{
    reveal_strlit("OR");
    reveal_strlit("AND");
    assert("OR"@.len() == 2 && "AND"@.len() == 3);
}

fn push_operator(ms: &mut Vec<(String, Json)>, name: &str, e: QueryStringBooleanOperator)
    ensures
        members_view(final(ms)@) == members_view(old(ms)@) + seq![(name@, JsonValue::Str(query_string_boolean_operator_name(e)))],
{
    push_member(ms, name, json_str(e.name()));
    proof {
        assert(members_view(ms@) =~= members_view(old(ms)@) + seq![(name@, JsonValue::Str(query_string_boolean_operator_name(e)))]);
    }
}

fn read_operator_or(b: &Vec<(String, Json)>, name: &str, d: QueryStringBooleanOperator) -> (r: Result<QueryStringBooleanOperator, DecodeError>)
    ensures
        match r {
            Ok(v) => operator_or(members_view(b@), name@, d) == Ok::<QueryStringBooleanOperator, DecodeErrorView>(v),
            Err(e) => operator_or(members_view(b@), name@, d) == Err::<QueryStringBooleanOperator, DecodeErrorView>(e@),
        },
{
    match get_member(b, name) {
        None => Ok(d),
        Some(Json::Null) => Ok(d),
        Some(Json::Str(t)) => match QueryStringBooleanOperator::parse(t.as_str()) {
            Some(e) => Ok(e),
            None => Err(crate::error::invalid_enum(name, t.as_str())),
        },
        _ => Err(crate::error::invalid_enum(name, "")),
    }
}

pub fn default_true() -> (r: bool)
    ensures
        r,
{
    true
}

pub fn default_zero_i32() -> (r: i32)
    ensures
        r == 0,
{
    0
}

pub fn default_fifty_i32() -> (r: i32)
    ensures
        r == 50,
{
    50
}

pub fn default_ten_thousand_i32() -> (r: i32)
    ensures
        r == 10000,
{
    10_000
}

/// A query in the Lucene query-string syntax, with its tuning options.
#[derive(Debug)]
pub struct QueryStringQuery {
    pub query: String,
    pub fields: Vec<String>,
    pub default_field: Option<String>,
    pub allow_leading_wildcard: bool,
    pub analyze_wildcard: bool,
    pub analyzer: Option<String>,
    pub quote_analyzer: Option<String>,
    pub auto_generate_synonyms_phrase_query: bool,
    pub boost: String,
    pub default_operator: QueryStringBooleanOperator,
    pub enable_position_increments: bool,
    pub fuzziness: Option<String>,
    pub fuzzy_max_expansions: i32,
    pub fuzzy_prefix_length: i32,
    pub fuzzy_transpositions: bool,
    pub lenient: bool,
    pub max_determinized_states: i32,
    pub minimum_should_match: Option<String>,
    pub phrase_slop: i32,
    pub quote_field_suffix: Option<String>,
    pub rewrite: Option<String>,
    pub time_zone: Option<String>,
}

pub struct QueryStringQueryView {
    pub query: Seq<char>,
    pub fields: Seq<Seq<char>>,
    pub default_field: Option<Seq<char>>,
    pub allow_leading_wildcard: bool,
    pub analyze_wildcard: bool,
    pub analyzer: Option<Seq<char>>,
    pub quote_analyzer: Option<Seq<char>>,
    pub auto_generate_synonyms_phrase_query: bool,
    pub boost: Seq<char>,
    pub default_operator: QueryStringBooleanOperator,
    pub enable_position_increments: bool,
    pub fuzziness: Option<Seq<char>>,
    pub fuzzy_max_expansions: i32,
    pub fuzzy_prefix_length: i32,
    pub fuzzy_transpositions: bool,
    pub lenient: bool,
    pub max_determinized_states: i32,
    pub minimum_should_match: Option<Seq<char>>,
    pub phrase_slop: i32,
    pub quote_field_suffix: Option<Seq<char>>,
    pub rewrite: Option<Seq<char>>,
    pub time_zone: Option<Seq<char>>,
}

impl View for QueryStringQuery {
    type V = QueryStringQueryView;

    open spec fn view(&self) -> QueryStringQueryView {
        QueryStringQueryView {
            query: self.query@,
            fields: strings_view(self.fields@),
            default_field: opt_view(self.default_field),
            allow_leading_wildcard: self.allow_leading_wildcard,
            analyze_wildcard: self.analyze_wildcard,
            analyzer: opt_view(self.analyzer),
            quote_analyzer: opt_view(self.quote_analyzer),
            auto_generate_synonyms_phrase_query: self.auto_generate_synonyms_phrase_query,
            boost: self.boost@,
            default_operator: self.default_operator,
            enable_position_increments: self.enable_position_increments,
            fuzziness: opt_view(self.fuzziness),
            fuzzy_max_expansions: self.fuzzy_max_expansions,
            fuzzy_prefix_length: self.fuzzy_prefix_length,
            fuzzy_transpositions: self.fuzzy_transpositions,
            lenient: self.lenient,
            max_determinized_states: self.max_determinized_states,
            minimum_should_match: opt_view(self.minimum_should_match),
            phrase_slop: self.phrase_slop,
            quote_field_suffix: opt_view(self.quote_field_suffix),
            rewrite: opt_view(self.rewrite),
            time_zone: opt_view(self.time_zone),
        }
    }
}

pub open spec fn query_string_members(v: QueryStringQueryView) -> Seq<(Seq<char>, JsonValue)> {
    seq![("query"@, JsonValue::Str(v.query))] + strs_member("fields"@, v.fields) + opt_str_member("default_field"@, v.default_field) + bool_member("allow_leading_wildcard"@, v.allow_leading_wildcard) + bool_member("analyze_wildcard"@, v.analyze_wildcard) + opt_str_member("analyzer"@, v.analyzer) + opt_str_member("quote_analyzer"@, v.quote_analyzer) + bool_member("auto_generate_synonyms_phrase_query"@, v.auto_generate_synonyms_phrase_query) + num_member("boost"@, v.boost) + seq![("default_operator"@, JsonValue::Str(query_string_boolean_operator_name(v.default_operator)))] + bool_member("enable_position_increments"@, v.enable_position_increments) + opt_str_member("fuzziness"@, v.fuzziness) + i32_member("fuzzy_max_expansions"@, v.fuzzy_max_expansions) + i32_member("fuzzy_prefix_length"@, v.fuzzy_prefix_length) + bool_member("fuzzy_transpositions"@, v.fuzzy_transpositions) + bool_member("lenient"@, v.lenient) + i32_member("max_determinized_states"@, v.max_determinized_states) + opt_str_member("minimum_should_match"@, v.minimum_should_match) + i32_member("phrase_slop"@, v.phrase_slop) + opt_str_member("quote_field_suffix"@, v.quote_field_suffix) + opt_str_member("rewrite"@, v.rewrite) + opt_str_member("time_zone"@, v.time_zone)
}

pub open spec fn query_string_json(v: QueryStringQueryView) -> JsonValue {
    JsonValue::Object(query_string_members(v))
}

pub open spec fn query_string_from_members(b: Seq<(Seq<char>, JsonValue)>) -> Result<QueryStringQueryView, DecodeErrorView> {
    match req_str(b, "query"@, "query_string"@) {
        Err(e) => Err(e),
        Ok(query) => match strs_or_empty(b, "fields"@, "query_string"@) {
        Err(e) => Err(e),
        Ok(fields) => match opt_str(b, "default_field"@, "query_string"@) {
        Err(e) => Err(e),
        Ok(default_field) => match bool_or(b, "allow_leading_wildcard"@, "query_string"@, true) {
        Err(e) => Err(e),
        Ok(allow_leading_wildcard) => match bool_or(b, "analyze_wildcard"@, "query_string"@, false) {
        Err(e) => Err(e),
        Ok(analyze_wildcard) => match opt_str(b, "analyzer"@, "query_string"@) {
        Err(e) => Err(e),
        Ok(analyzer) => match opt_str(b, "quote_analyzer"@, "query_string"@) {
        Err(e) => Err(e),
        Ok(quote_analyzer) => match bool_or(b, "auto_generate_synonyms_phrase_query"@, "query_string"@, true) {
        Err(e) => Err(e),
        Ok(auto_generate_synonyms_phrase_query) => match num_or(b, "boost"@, "1.0"@) {
        Err(e) => Err(e),
        Ok(boost) => match operator_or(b, "default_operator"@, QueryStringBooleanOperator::Or) {
        Err(e) => Err(e),
        Ok(default_operator) => match bool_or(b, "enable_position_increments"@, "query_string"@, true) {
        Err(e) => Err(e),
        Ok(enable_position_increments) => match opt_str(b, "fuzziness"@, "query_string"@) {
        Err(e) => Err(e),
        Ok(fuzziness) => match i32_or(b, "fuzzy_max_expansions"@, 50i32) {
        Err(e) => Err(e),
        Ok(fuzzy_max_expansions) => match i32_or(b, "fuzzy_prefix_length"@, 0i32) {
        Err(e) => Err(e),
        Ok(fuzzy_prefix_length) => match bool_or(b, "fuzzy_transpositions"@, "query_string"@, true) {
        Err(e) => Err(e),
        Ok(fuzzy_transpositions) => match bool_or(b, "lenient"@, "query_string"@, false) {
        Err(e) => Err(e),
        Ok(lenient) => match i32_or(b, "max_determinized_states"@, 10000i32) {
        Err(e) => Err(e),
        Ok(max_determinized_states) => match opt_str(b, "minimum_should_match"@, "query_string"@) {
        Err(e) => Err(e),
        Ok(minimum_should_match) => match i32_or(b, "phrase_slop"@, 0i32) {
        Err(e) => Err(e),
        Ok(phrase_slop) => match opt_str(b, "quote_field_suffix"@, "query_string"@) {
        Err(e) => Err(e),
        Ok(quote_field_suffix) => match opt_str(b, "rewrite"@, "query_string"@) {
        Err(e) => Err(e),
        Ok(rewrite) => match opt_str(b, "time_zone"@, "query_string"@) {
        Err(e) => Err(e),
        Ok(time_zone) => Ok(QueryStringQueryView { query, fields, default_field, allow_leading_wildcard, analyze_wildcard, analyzer, quote_analyzer, auto_generate_synonyms_phrase_query, boost, default_operator, enable_position_increments, fuzziness, fuzzy_max_expansions, fuzzy_prefix_length, fuzzy_transpositions, lenient, max_determinized_states, minimum_should_match, phrase_slop, quote_field_suffix, rewrite, time_zone }),
    },
    },
    },
    },
    },
    },
    },
    },
    },
    },
    },
    },
    },
    },
    },
    },
    },
    },
    },
    },
    },
    }
}

pub open spec fn query_string_from(v: JsonValue) -> Result<QueryStringQueryView, DecodeErrorView> {
    match v {
        JsonValue::Object(b) => query_string_from_members(b),
        _ => Err(DecodeErrorView::MalformedLeaf { field: "query_string"@, missing: "query"@ }),
    }
}

impl QueryStringQuery {
    /// Encodes the options; absent optional ones are left out.
    pub fn to_json(&self) -> (r: Json)
        ensures
            r@ == query_string_json(self@),
    {
        let mut ms = empty_members();
        push_req_str(&mut ms, "query", &self.query);
        push_strs(&mut ms, "fields", &self.fields);
        push_opt_str(&mut ms, "default_field", &self.default_field);
        push_bool(&mut ms, "allow_leading_wildcard", self.allow_leading_wildcard);
        push_bool(&mut ms, "analyze_wildcard", self.analyze_wildcard);
        push_opt_str(&mut ms, "analyzer", &self.analyzer);
        push_opt_str(&mut ms, "quote_analyzer", &self.quote_analyzer);
        push_bool(&mut ms, "auto_generate_synonyms_phrase_query", self.auto_generate_synonyms_phrase_query);
        push_req_num(&mut ms, "boost", &self.boost);
        push_operator(&mut ms, "default_operator", self.default_operator);
        push_bool(&mut ms, "enable_position_increments", self.enable_position_increments);
        push_opt_str(&mut ms, "fuzziness", &self.fuzziness);
        push_i32(&mut ms, "fuzzy_max_expansions", self.fuzzy_max_expansions);
        push_i32(&mut ms, "fuzzy_prefix_length", self.fuzzy_prefix_length);
        push_bool(&mut ms, "fuzzy_transpositions", self.fuzzy_transpositions);
        push_bool(&mut ms, "lenient", self.lenient);
        push_i32(&mut ms, "max_determinized_states", self.max_determinized_states);
        push_opt_str(&mut ms, "minimum_should_match", &self.minimum_should_match);
        push_i32(&mut ms, "phrase_slop", self.phrase_slop);
        push_opt_str(&mut ms, "quote_field_suffix", &self.quote_field_suffix);
        push_opt_str(&mut ms, "rewrite", &self.rewrite);
        push_opt_str(&mut ms, "time_zone", &self.time_zone);
        proof {
            assert(members_view(ms@) =~= query_string_members(self@));
        }
        Json::Object(ms)
    }

    /// Decodes the options, applying the defaults of absent ones.
    pub fn from_json(j: &Json) -> (r: Result<QueryStringQuery, DecodeError>)
        ensures
            result_view(r) == query_string_from(j@),
    {
        let key = "query_string";
        let b = match j {
            Json::Object(b) => b,
            _ => return Err(malformed_leaf(key, "query")),
        };
        let query = match read_req_str(b, "query", key) {
            Ok(v) => v,
            Err(e) => return Err(e),
        };
        let fields = match read_strs_or_empty(b, "fields", key) {
            Ok(v) => v,
            Err(e) => return Err(e),
        };
        let default_field = match read_opt_str(b, "default_field", key) {
            Ok(v) => v,
            Err(e) => return Err(e),
        };
        let allow_leading_wildcard = match read_bool_or(b, "allow_leading_wildcard", key, default_true()) {
            Ok(v) => v,
            Err(e) => return Err(e),
        };
        let analyze_wildcard = match read_bool_or(b, "analyze_wildcard", key, false) {
            Ok(v) => v,
            Err(e) => return Err(e),
        };
        let analyzer = match read_opt_str(b, "analyzer", key) {
            Ok(v) => v,
            Err(e) => return Err(e),
        };
        let quote_analyzer = match read_opt_str(b, "quote_analyzer", key) {
            Ok(v) => v,
            Err(e) => return Err(e),
        };
        let auto_generate_synonyms_phrase_query = match read_bool_or(b, "auto_generate_synonyms_phrase_query", key, default_true()) {
            Ok(v) => v,
            Err(e) => return Err(e),
        };
        let boost = match read_num_or(b, "boost", "1.0") {
            Ok(v) => v,
            Err(e) => return Err(e),
        };
        let default_operator = match read_operator_or(b, "default_operator", QueryStringBooleanOperator::Or) {
            Ok(v) => v,
            Err(e) => return Err(e),
        };
        let enable_position_increments = match read_bool_or(b, "enable_position_increments", key, default_true()) {
            Ok(v) => v,
            Err(e) => return Err(e),
        };
        let fuzziness = match read_opt_str(b, "fuzziness", key) {
            Ok(v) => v,
            Err(e) => return Err(e),
        };
        let fuzzy_max_expansions = match read_i32_or(b, "fuzzy_max_expansions", default_fifty_i32()) {
            Ok(v) => v,
            Err(e) => return Err(e),
        };
        let fuzzy_prefix_length = match read_i32_or(b, "fuzzy_prefix_length", default_zero_i32()) {
            Ok(v) => v,
            Err(e) => return Err(e),
        };
        let fuzzy_transpositions = match read_bool_or(b, "fuzzy_transpositions", key, default_true()) {
            Ok(v) => v,
            Err(e) => return Err(e),
        };
        let lenient = match read_bool_or(b, "lenient", key, false) {
            Ok(v) => v,
            Err(e) => return Err(e),
        };
        let max_determinized_states = match read_i32_or(b, "max_determinized_states", default_ten_thousand_i32()) {
            Ok(v) => v,
            Err(e) => return Err(e),
        };
        let minimum_should_match = match read_opt_str(b, "minimum_should_match", key) {
            Ok(v) => v,
            Err(e) => return Err(e),
        };
        let phrase_slop = match read_i32_or(b, "phrase_slop", default_zero_i32()) {
            Ok(v) => v,
            Err(e) => return Err(e),
        };
        let quote_field_suffix = match read_opt_str(b, "quote_field_suffix", key) {
            Ok(v) => v,
            Err(e) => return Err(e),
        };
        let rewrite = match read_opt_str(b, "rewrite", key) {
            Ok(v) => v,
            Err(e) => return Err(e),
        };
        let time_zone = match read_opt_str(b, "time_zone", key) {
            Ok(v) => v,
            Err(e) => return Err(e),
        };
        Ok(QueryStringQuery { query, fields, default_field, allow_leading_wildcard, analyze_wildcard, analyzer, quote_analyzer, auto_generate_synonyms_phrase_query, boost, default_operator, enable_position_increments, fuzziness, fuzzy_max_expansions, fuzzy_prefix_length, fuzzy_transpositions, lenient, max_determinized_states, minimum_should_match, phrase_slop, quote_field_suffix, rewrite, time_zone })
    }
}

proof fn lemma_query_string_lookup_query(v: QueryStringQueryView)
    ensures
        lookup(query_string_members(v), "query"@) == Some(JsonValue::Str(v.query)),
{
    lemma_query_string_keys();
    let m0 = seq![("query"@, JsonValue::Str(v.query))];
    let m1 = strs_member("fields"@, v.fields);
    let m2 = opt_str_member("default_field"@, v.default_field);
    let m3 = bool_member("allow_leading_wildcard"@, v.allow_leading_wildcard);
    let m4 = bool_member("analyze_wildcard"@, v.analyze_wildcard);
    let m5 = opt_str_member("analyzer"@, v.analyzer);
    let m6 = opt_str_member("quote_analyzer"@, v.quote_analyzer);
    let m7 = bool_member("auto_generate_synonyms_phrase_query"@, v.auto_generate_synonyms_phrase_query);
    let m8 = num_member("boost"@, v.boost);
    let m9 = seq![("default_operator"@, JsonValue::Str(query_string_boolean_operator_name(v.default_operator)))];
    let m10 = bool_member("enable_position_increments"@, v.enable_position_increments);
    let m11 = opt_str_member("fuzziness"@, v.fuzziness);
    let m12 = i32_member("fuzzy_max_expansions"@, v.fuzzy_max_expansions);
    let m13 = i32_member("fuzzy_prefix_length"@, v.fuzzy_prefix_length);
    let m14 = bool_member("fuzzy_transpositions"@, v.fuzzy_transpositions);
    let m15 = bool_member("lenient"@, v.lenient);
    let m16 = i32_member("max_determinized_states"@, v.max_determinized_states);
    let m17 = opt_str_member("minimum_should_match"@, v.minimum_should_match);
    let m18 = i32_member("phrase_slop"@, v.phrase_slop);
    let m19 = opt_str_member("quote_field_suffix"@, v.quote_field_suffix);
    let m20 = opt_str_member("rewrite"@, v.rewrite);
    let m21 = opt_str_member("time_zone"@, v.time_zone);
    lemma_lookup_one("query"@, JsonValue::Str(v.query), "query"@);
    lemma_strs_member("fields"@, v.fields, "query"@);
    lemma_opt_str_member("default_field"@, v.default_field, "query"@);
    lemma_lookup_one("allow_leading_wildcard"@, JsonValue::Bool(v.allow_leading_wildcard), "query"@);
    lemma_lookup_one("analyze_wildcard"@, JsonValue::Bool(v.analyze_wildcard), "query"@);
    lemma_opt_str_member("analyzer"@, v.analyzer, "query"@);
    lemma_opt_str_member("quote_analyzer"@, v.quote_analyzer, "query"@);
    lemma_lookup_one("auto_generate_synonyms_phrase_query"@, JsonValue::Bool(v.auto_generate_synonyms_phrase_query), "query"@);
    lemma_lookup_one("boost"@, JsonValue::Number(v.boost), "query"@);
    lemma_lookup_one("default_operator"@, JsonValue::Str(query_string_boolean_operator_name(v.default_operator)), "query"@);
    lemma_lookup_one("enable_position_increments"@, JsonValue::Bool(v.enable_position_increments), "query"@);
    lemma_opt_str_member("fuzziness"@, v.fuzziness, "query"@);
    lemma_lookup_one("fuzzy_max_expansions"@, JsonValue::Number(int_text(v.fuzzy_max_expansions as int)), "query"@);
    lemma_lookup_one("fuzzy_prefix_length"@, JsonValue::Number(int_text(v.fuzzy_prefix_length as int)), "query"@);
    lemma_lookup_one("fuzzy_transpositions"@, JsonValue::Bool(v.fuzzy_transpositions), "query"@);
    lemma_lookup_one("lenient"@, JsonValue::Bool(v.lenient), "query"@);
    lemma_lookup_one("max_determinized_states"@, JsonValue::Number(int_text(v.max_determinized_states as int)), "query"@);
    lemma_opt_str_member("minimum_should_match"@, v.minimum_should_match, "query"@);
    lemma_lookup_one("phrase_slop"@, JsonValue::Number(int_text(v.phrase_slop as int)), "query"@);
    lemma_opt_str_member("quote_field_suffix"@, v.quote_field_suffix, "query"@);
    lemma_opt_str_member("rewrite"@, v.rewrite, "query"@);
    lemma_opt_str_member("time_zone"@, v.time_zone, "query"@);
    lemma_lookup_concat(m0, m1, "query"@);
    lemma_lookup_concat(m0 + m1, m2, "query"@);
    lemma_lookup_concat(m0 + m1 + m2, m3, "query"@);
    lemma_lookup_concat(m0 + m1 + m2 + m3, m4, "query"@);
    lemma_lookup_concat(m0 + m1 + m2 + m3 + m4, m5, "query"@);
    lemma_lookup_concat(m0 + m1 + m2 + m3 + m4 + m5, m6, "query"@);
    lemma_lookup_concat(m0 + m1 + m2 + m3 + m4 + m5 + m6, m7, "query"@);
    lemma_lookup_concat(m0 + m1 + m2 + m3 + m4 + m5 + m6 + m7, m8, "query"@);
    lemma_lookup_concat(m0 + m1 + m2 + m3 + m4 + m5 + m6 + m7 + m8, m9, "query"@);
    lemma_lookup_concat(m0 + m1 + m2 + m3 + m4 + m5 + m6 + m7 + m8 + m9, m10, "query"@);
    lemma_lookup_concat(m0 + m1 + m2 + m3 + m4 + m5 + m6 + m7 + m8 + m9 + m10, m11, "query"@);
    lemma_lookup_concat(m0 + m1 + m2 + m3 + m4 + m5 + m6 + m7 + m8 + m9 + m10 + m11, m12, "query"@);
    lemma_lookup_concat(m0 + m1 + m2 + m3 + m4 + m5 + m6 + m7 + m8 + m9 + m10 + m11 + m12, m13, "query"@);
    lemma_lookup_concat(m0 + m1 + m2 + m3 + m4 + m5 + m6 + m7 + m8 + m9 + m10 + m11 + m12 + m13, m14, "query"@);
    lemma_lookup_concat(m0 + m1 + m2 + m3 + m4 + m5 + m6 + m7 + m8 + m9 + m10 + m11 + m12 + m13 + m14, m15, "query"@);
    lemma_lookup_concat(m0 + m1 + m2 + m3 + m4 + m5 + m6 + m7 + m8 + m9 + m10 + m11 + m12 + m13 + m14 + m15, m16, "query"@);
    lemma_lookup_concat(m0 + m1 + m2 + m3 + m4 + m5 + m6 + m7 + m8 + m9 + m10 + m11 + m12 + m13 + m14 + m15 + m16, m17, "query"@);
    lemma_lookup_concat(m0 + m1 + m2 + m3 + m4 + m5 + m6 + m7 + m8 + m9 + m10 + m11 + m12 + m13 + m14 + m15 + m16 + m17, m18, "query"@);
    lemma_lookup_concat(m0 + m1 + m2 + m3 + m4 + m5 + m6 + m7 + m8 + m9 + m10 + m11 + m12 + m13 + m14 + m15 + m16 + m17 + m18, m19, "query"@);
    lemma_lookup_concat(m0 + m1 + m2 + m3 + m4 + m5 + m6 + m7 + m8 + m9 + m10 + m11 + m12 + m13 + m14 + m15 + m16 + m17 + m18 + m19, m20, "query"@);
    lemma_lookup_concat(m0 + m1 + m2 + m3 + m4 + m5 + m6 + m7 + m8 + m9 + m10 + m11 + m12 + m13 + m14 + m15 + m16 + m17 + m18 + m19 + m20, m21, "query"@);
    assert(query_string_members(v) =~= m0 + m1 + m2 + m3 + m4 + m5 + m6 + m7 + m8 + m9 + m10 + m11 + m12 + m13 + m14 + m15 + m16 + m17 + m18 + m19 + m20 + m21);
}

proof fn lemma_query_string_lookup_fields(v: QueryStringQueryView)
    ensures
        lookup(query_string_members(v), "fields"@) == if v.fields.len() > 0 { Some(strs_json(v.fields)) } else { None::<JsonValue> },
{
    lemma_query_string_keys();
    let m0 = seq![("query"@, JsonValue::Str(v.query))];
    let m1 = strs_member("fields"@, v.fields);
    let m2 = opt_str_member("default_field"@, v.default_field);
    let m3 = bool_member("allow_leading_wildcard"@, v.allow_leading_wildcard);
    let m4 = bool_member("analyze_wildcard"@, v.analyze_wildcard);
    let m5 = opt_str_member("analyzer"@, v.analyzer);
    let m6 = opt_str_member("quote_analyzer"@, v.quote_analyzer);
    let m7 = bool_member("auto_generate_synonyms_phrase_query"@, v.auto_generate_synonyms_phrase_query);
    let m8 = num_member("boost"@, v.boost);
    let m9 = seq![("default_operator"@, JsonValue::Str(query_string_boolean_operator_name(v.default_operator)))];
    let m10 = bool_member("enable_position_increments"@, v.enable_position_increments);
    let m11 = opt_str_member("fuzziness"@, v.fuzziness);
    let m12 = i32_member("fuzzy_max_expansions"@, v.fuzzy_max_expansions);
    let m13 = i32_member("fuzzy_prefix_length"@, v.fuzzy_prefix_length);
    let m14 = bool_member("fuzzy_transpositions"@, v.fuzzy_transpositions);
    let m15 = bool_member("lenient"@, v.lenient);
    let m16 = i32_member("max_determinized_states"@, v.max_determinized_states);
    let m17 = opt_str_member("minimum_should_match"@, v.minimum_should_match);
    let m18 = i32_member("phrase_slop"@, v.phrase_slop);
    let m19 = opt_str_member("quote_field_suffix"@, v.quote_field_suffix);
    let m20 = opt_str_member("rewrite"@, v.rewrite);
    let m21 = opt_str_member("time_zone"@, v.time_zone);
    lemma_lookup_one("query"@, JsonValue::Str(v.query), "fields"@);
    lemma_strs_member("fields"@, v.fields, "fields"@);
    lemma_opt_str_member("default_field"@, v.default_field, "fields"@);
    lemma_lookup_one("allow_leading_wildcard"@, JsonValue::Bool(v.allow_leading_wildcard), "fields"@);
    lemma_lookup_one("analyze_wildcard"@, JsonValue::Bool(v.analyze_wildcard), "fields"@);
    lemma_opt_str_member("analyzer"@, v.analyzer, "fields"@);
    lemma_opt_str_member("quote_analyzer"@, v.quote_analyzer, "fields"@);
    lemma_lookup_one("auto_generate_synonyms_phrase_query"@, JsonValue::Bool(v.auto_generate_synonyms_phrase_query), "fields"@);
    lemma_lookup_one("boost"@, JsonValue::Number(v.boost), "fields"@);
    lemma_lookup_one("default_operator"@, JsonValue::Str(query_string_boolean_operator_name(v.default_operator)), "fields"@);
    lemma_lookup_one("enable_position_increments"@, JsonValue::Bool(v.enable_position_increments), "fields"@);
    lemma_opt_str_member("fuzziness"@, v.fuzziness, "fields"@);
    lemma_lookup_one("fuzzy_max_expansions"@, JsonValue::Number(int_text(v.fuzzy_max_expansions as int)), "fields"@);
    lemma_lookup_one("fuzzy_prefix_length"@, JsonValue::Number(int_text(v.fuzzy_prefix_length as int)), "fields"@);
    lemma_lookup_one("fuzzy_transpositions"@, JsonValue::Bool(v.fuzzy_transpositions), "fields"@);
    lemma_lookup_one("lenient"@, JsonValue::Bool(v.lenient), "fields"@);
    lemma_lookup_one("max_determinized_states"@, JsonValue::Number(int_text(v.max_determinized_states as int)), "fields"@);
    lemma_opt_str_member("minimum_should_match"@, v.minimum_should_match, "fields"@);
    lemma_lookup_one("phrase_slop"@, JsonValue::Number(int_text(v.phrase_slop as int)), "fields"@);
    lemma_opt_str_member("quote_field_suffix"@, v.quote_field_suffix, "fields"@);
    lemma_opt_str_member("rewrite"@, v.rewrite, "fields"@);
    lemma_opt_str_member("time_zone"@, v.time_zone, "fields"@);
    lemma_lookup_concat(m0, m1, "fields"@);
    lemma_lookup_concat(m0 + m1, m2, "fields"@);
    lemma_lookup_concat(m0 + m1 + m2, m3, "fields"@);
    lemma_lookup_concat(m0 + m1 + m2 + m3, m4, "fields"@);
    lemma_lookup_concat(m0 + m1 + m2 + m3 + m4, m5, "fields"@);
    lemma_lookup_concat(m0 + m1 + m2 + m3 + m4 + m5, m6, "fields"@);
    lemma_lookup_concat(m0 + m1 + m2 + m3 + m4 + m5 + m6, m7, "fields"@);
    lemma_lookup_concat(m0 + m1 + m2 + m3 + m4 + m5 + m6 + m7, m8, "fields"@);
    lemma_lookup_concat(m0 + m1 + m2 + m3 + m4 + m5 + m6 + m7 + m8, m9, "fields"@);
    lemma_lookup_concat(m0 + m1 + m2 + m3 + m4 + m5 + m6 + m7 + m8 + m9, m10, "fields"@);
    lemma_lookup_concat(m0 + m1 + m2 + m3 + m4 + m5 + m6 + m7 + m8 + m9 + m10, m11, "fields"@);
    lemma_lookup_concat(m0 + m1 + m2 + m3 + m4 + m5 + m6 + m7 + m8 + m9 + m10 + m11, m12, "fields"@);
    lemma_lookup_concat(m0 + m1 + m2 + m3 + m4 + m5 + m6 + m7 + m8 + m9 + m10 + m11 + m12, m13, "fields"@);
    lemma_lookup_concat(m0 + m1 + m2 + m3 + m4 + m5 + m6 + m7 + m8 + m9 + m10 + m11 + m12 + m13, m14, "fields"@);
    lemma_lookup_concat(m0 + m1 + m2 + m3 + m4 + m5 + m6 + m7 + m8 + m9 + m10 + m11 + m12 + m13 + m14, m15, "fields"@);
    lemma_lookup_concat(m0 + m1 + m2 + m3 + m4 + m5 + m6 + m7 + m8 + m9 + m10 + m11 + m12 + m13 + m14 + m15, m16, "fields"@);
    lemma_lookup_concat(m0 + m1 + m2 + m3 + m4 + m5 + m6 + m7 + m8 + m9 + m10 + m11 + m12 + m13 + m14 + m15 + m16, m17, "fields"@);
    lemma_lookup_concat(m0 + m1 + m2 + m3 + m4 + m5 + m6 + m7 + m8 + m9 + m10 + m11 + m12 + m13 + m14 + m15 + m16 + m17, m18, "fields"@);
    lemma_lookup_concat(m0 + m1 + m2 + m3 + m4 + m5 + m6 + m7 + m8 + m9 + m10 + m11 + m12 + m13 + m14 + m15 + m16 + m17 + m18, m19, "fields"@);
    lemma_lookup_concat(m0 + m1 + m2 + m3 + m4 + m5 + m6 + m7 + m8 + m9 + m10 + m11 + m12 + m13 + m14 + m15 + m16 + m17 + m18 + m19, m20, "fields"@);
    lemma_lookup_concat(m0 + m1 + m2 + m3 + m4 + m5 + m6 + m7 + m8 + m9 + m10 + m11 + m12 + m13 + m14 + m15 + m16 + m17 + m18 + m19 + m20, m21, "fields"@);
    assert(query_string_members(v) =~= m0 + m1 + m2 + m3 + m4 + m5 + m6 + m7 + m8 + m9 + m10 + m11 + m12 + m13 + m14 + m15 + m16 + m17 + m18 + m19 + m20 + m21);
}

proof fn lemma_query_string_lookup_default_field(v: QueryStringQueryView)
    ensures
        lookup(query_string_members(v), "default_field"@) == match v.default_field { Some(t) => Some(JsonValue::Str(t)), None => None::<JsonValue> },
{
    lemma_query_string_keys();
    let m0 = seq![("query"@, JsonValue::Str(v.query))];
    let m1 = strs_member("fields"@, v.fields);
    let m2 = opt_str_member("default_field"@, v.default_field);
    let m3 = bool_member("allow_leading_wildcard"@, v.allow_leading_wildcard);
    let m4 = bool_member("analyze_wildcard"@, v.analyze_wildcard);
    let m5 = opt_str_member("analyzer"@, v.analyzer);
    let m6 = opt_str_member("quote_analyzer"@, v.quote_analyzer);
    let m7 = bool_member("auto_generate_synonyms_phrase_query"@, v.auto_generate_synonyms_phrase_query);
    let m8 = num_member("boost"@, v.boost);
    let m9 = seq![("default_operator"@, JsonValue::Str(query_string_boolean_operator_name(v.default_operator)))];
    let m10 = bool_member("enable_position_increments"@, v.enable_position_increments);
    let m11 = opt_str_member("fuzziness"@, v.fuzziness);
    let m12 = i32_member("fuzzy_max_expansions"@, v.fuzzy_max_expansions);
    let m13 = i32_member("fuzzy_prefix_length"@, v.fuzzy_prefix_length);
    let m14 = bool_member("fuzzy_transpositions"@, v.fuzzy_transpositions);
    let m15 = bool_member("lenient"@, v.lenient);
    let m16 = i32_member("max_determinized_states"@, v.max_determinized_states);
    let m17 = opt_str_member("minimum_should_match"@, v.minimum_should_match);
    let m18 = i32_member("phrase_slop"@, v.phrase_slop);
    let m19 = opt_str_member("quote_field_suffix"@, v.quote_field_suffix);
    let m20 = opt_str_member("rewrite"@, v.rewrite);
    let m21 = opt_str_member("time_zone"@, v.time_zone);
    lemma_lookup_one("query"@, JsonValue::Str(v.query), "default_field"@);
    lemma_strs_member("fields"@, v.fields, "default_field"@);
    lemma_opt_str_member("default_field"@, v.default_field, "default_field"@);
    lemma_lookup_one("allow_leading_wildcard"@, JsonValue::Bool(v.allow_leading_wildcard), "default_field"@);
    lemma_lookup_one("analyze_wildcard"@, JsonValue::Bool(v.analyze_wildcard), "default_field"@);
    lemma_opt_str_member("analyzer"@, v.analyzer, "default_field"@);
    lemma_opt_str_member("quote_analyzer"@, v.quote_analyzer, "default_field"@);
    lemma_lookup_one("auto_generate_synonyms_phrase_query"@, JsonValue::Bool(v.auto_generate_synonyms_phrase_query), "default_field"@);
    lemma_lookup_one("boost"@, JsonValue::Number(v.boost), "default_field"@);
    lemma_lookup_one("default_operator"@, JsonValue::Str(query_string_boolean_operator_name(v.default_operator)), "default_field"@);
    lemma_lookup_one("enable_position_increments"@, JsonValue::Bool(v.enable_position_increments), "default_field"@);
    lemma_opt_str_member("fuzziness"@, v.fuzziness, "default_field"@);
    lemma_lookup_one("fuzzy_max_expansions"@, JsonValue::Number(int_text(v.fuzzy_max_expansions as int)), "default_field"@);
    lemma_lookup_one("fuzzy_prefix_length"@, JsonValue::Number(int_text(v.fuzzy_prefix_length as int)), "default_field"@);
    lemma_lookup_one("fuzzy_transpositions"@, JsonValue::Bool(v.fuzzy_transpositions), "default_field"@);
    lemma_lookup_one("lenient"@, JsonValue::Bool(v.lenient), "default_field"@);
    lemma_lookup_one("max_determinized_states"@, JsonValue::Number(int_text(v.max_determinized_states as int)), "default_field"@);
    lemma_opt_str_member("minimum_should_match"@, v.minimum_should_match, "default_field"@);
    lemma_lookup_one("phrase_slop"@, JsonValue::Number(int_text(v.phrase_slop as int)), "default_field"@);
    lemma_opt_str_member("quote_field_suffix"@, v.quote_field_suffix, "default_field"@);
    lemma_opt_str_member("rewrite"@, v.rewrite, "default_field"@);
    lemma_opt_str_member("time_zone"@, v.time_zone, "default_field"@);
    lemma_lookup_concat(m0, m1, "default_field"@);
    lemma_lookup_concat(m0 + m1, m2, "default_field"@);
    lemma_lookup_concat(m0 + m1 + m2, m3, "default_field"@);
    lemma_lookup_concat(m0 + m1 + m2 + m3, m4, "default_field"@);
    lemma_lookup_concat(m0 + m1 + m2 + m3 + m4, m5, "default_field"@);
    lemma_lookup_concat(m0 + m1 + m2 + m3 + m4 + m5, m6, "default_field"@);
    lemma_lookup_concat(m0 + m1 + m2 + m3 + m4 + m5 + m6, m7, "default_field"@);
    lemma_lookup_concat(m0 + m1 + m2 + m3 + m4 + m5 + m6 + m7, m8, "default_field"@);
    lemma_lookup_concat(m0 + m1 + m2 + m3 + m4 + m5 + m6 + m7 + m8, m9, "default_field"@);
    lemma_lookup_concat(m0 + m1 + m2 + m3 + m4 + m5 + m6 + m7 + m8 + m9, m10, "default_field"@);
    lemma_lookup_concat(m0 + m1 + m2 + m3 + m4 + m5 + m6 + m7 + m8 + m9 + m10, m11, "default_field"@);
    lemma_lookup_concat(m0 + m1 + m2 + m3 + m4 + m5 + m6 + m7 + m8 + m9 + m10 + m11, m12, "default_field"@);
    lemma_lookup_concat(m0 + m1 + m2 + m3 + m4 + m5 + m6 + m7 + m8 + m9 + m10 + m11 + m12, m13, "default_field"@);
    lemma_lookup_concat(m0 + m1 + m2 + m3 + m4 + m5 + m6 + m7 + m8 + m9 + m10 + m11 + m12 + m13, m14, "default_field"@);
    lemma_lookup_concat(m0 + m1 + m2 + m3 + m4 + m5 + m6 + m7 + m8 + m9 + m10 + m11 + m12 + m13 + m14, m15, "default_field"@);
    lemma_lookup_concat(m0 + m1 + m2 + m3 + m4 + m5 + m6 + m7 + m8 + m9 + m10 + m11 + m12 + m13 + m14 + m15, m16, "default_field"@);
    lemma_lookup_concat(m0 + m1 + m2 + m3 + m4 + m5 + m6 + m7 + m8 + m9 + m10 + m11 + m12 + m13 + m14 + m15 + m16, m17, "default_field"@);
    lemma_lookup_concat(m0 + m1 + m2 + m3 + m4 + m5 + m6 + m7 + m8 + m9 + m10 + m11 + m12 + m13 + m14 + m15 + m16 + m17, m18, "default_field"@);
    lemma_lookup_concat(m0 + m1 + m2 + m3 + m4 + m5 + m6 + m7 + m8 + m9 + m10 + m11 + m12 + m13 + m14 + m15 + m16 + m17 + m18, m19, "default_field"@);
    lemma_lookup_concat(m0 + m1 + m2 + m3 + m4 + m5 + m6 + m7 + m8 + m9 + m10 + m11 + m12 + m13 + m14 + m15 + m16 + m17 + m18 + m19, m20, "default_field"@);
    lemma_lookup_concat(m0 + m1 + m2 + m3 + m4 + m5 + m6 + m7 + m8 + m9 + m10 + m11 + m12 + m13 + m14 + m15 + m16 + m17 + m18 + m19 + m20, m21, "default_field"@);
    assert(query_string_members(v) =~= m0 + m1 + m2 + m3 + m4 + m5 + m6 + m7 + m8 + m9 + m10 + m11 + m12 + m13 + m14 + m15 + m16 + m17 + m18 + m19 + m20 + m21);
}

proof fn lemma_query_string_lookup_allow_leading_wildcard(v: QueryStringQueryView)
    ensures
        lookup(query_string_members(v), "allow_leading_wildcard"@) == Some(JsonValue::Bool(v.allow_leading_wildcard)),
{
    lemma_query_string_keys();
    let m0 = seq![("query"@, JsonValue::Str(v.query))];
    let m1 = strs_member("fields"@, v.fields);
    let m2 = opt_str_member("default_field"@, v.default_field);
    let m3 = bool_member("allow_leading_wildcard"@, v.allow_leading_wildcard);
    let m4 = bool_member("analyze_wildcard"@, v.analyze_wildcard);
    let m5 = opt_str_member("analyzer"@, v.analyzer);
    let m6 = opt_str_member("quote_analyzer"@, v.quote_analyzer);
    let m7 = bool_member("auto_generate_synonyms_phrase_query"@, v.auto_generate_synonyms_phrase_query);
    let m8 = num_member("boost"@, v.boost);
    let m9 = seq![("default_operator"@, JsonValue::Str(query_string_boolean_operator_name(v.default_operator)))];
    let m10 = bool_member("enable_position_increments"@, v.enable_position_increments);
    let m11 = opt_str_member("fuzziness"@, v.fuzziness);
    let m12 = i32_member("fuzzy_max_expansions"@, v.fuzzy_max_expansions);
    let m13 = i32_member("fuzzy_prefix_length"@, v.fuzzy_prefix_length);
    let m14 = bool_member("fuzzy_transpositions"@, v.fuzzy_transpositions);
    let m15 = bool_member("lenient"@, v.lenient);
    let m16 = i32_member("max_determinized_states"@, v.max_determinized_states);
    let m17 = opt_str_member("minimum_should_match"@, v.minimum_should_match);
    let m18 = i32_member("phrase_slop"@, v.phrase_slop);
    let m19 = opt_str_member("quote_field_suffix"@, v.quote_field_suffix);
    let m20 = opt_str_member("rewrite"@, v.rewrite);
    let m21 = opt_str_member("time_zone"@, v.time_zone);
    lemma_lookup_one("query"@, JsonValue::Str(v.query), "allow_leading_wildcard"@);
    lemma_strs_member("fields"@, v.fields, "allow_leading_wildcard"@);
    lemma_opt_str_member("default_field"@, v.default_field, "allow_leading_wildcard"@);
    lemma_lookup_one("allow_leading_wildcard"@, JsonValue::Bool(v.allow_leading_wildcard), "allow_leading_wildcard"@);
    lemma_lookup_one("analyze_wildcard"@, JsonValue::Bool(v.analyze_wildcard), "allow_leading_wildcard"@);
    lemma_opt_str_member("analyzer"@, v.analyzer, "allow_leading_wildcard"@);
    lemma_opt_str_member("quote_analyzer"@, v.quote_analyzer, "allow_leading_wildcard"@);
    lemma_lookup_one("auto_generate_synonyms_phrase_query"@, JsonValue::Bool(v.auto_generate_synonyms_phrase_query), "allow_leading_wildcard"@);
    lemma_lookup_one("boost"@, JsonValue::Number(v.boost), "allow_leading_wildcard"@);
    lemma_lookup_one("default_operator"@, JsonValue::Str(query_string_boolean_operator_name(v.default_operator)), "allow_leading_wildcard"@);
    lemma_lookup_one("enable_position_increments"@, JsonValue::Bool(v.enable_position_increments), "allow_leading_wildcard"@);
    lemma_opt_str_member("fuzziness"@, v.fuzziness, "allow_leading_wildcard"@);
    lemma_lookup_one("fuzzy_max_expansions"@, JsonValue::Number(int_text(v.fuzzy_max_expansions as int)), "allow_leading_wildcard"@);
    lemma_lookup_one("fuzzy_prefix_length"@, JsonValue::Number(int_text(v.fuzzy_prefix_length as int)), "allow_leading_wildcard"@);
    lemma_lookup_one("fuzzy_transpositions"@, JsonValue::Bool(v.fuzzy_transpositions), "allow_leading_wildcard"@);
    lemma_lookup_one("lenient"@, JsonValue::Bool(v.lenient), "allow_leading_wildcard"@);
    lemma_lookup_one("max_determinized_states"@, JsonValue::Number(int_text(v.max_determinized_states as int)), "allow_leading_wildcard"@);
    lemma_opt_str_member("minimum_should_match"@, v.minimum_should_match, "allow_leading_wildcard"@);
    lemma_lookup_one("phrase_slop"@, JsonValue::Number(int_text(v.phrase_slop as int)), "allow_leading_wildcard"@);
    lemma_opt_str_member("quote_field_suffix"@, v.quote_field_suffix, "allow_leading_wildcard"@);
    lemma_opt_str_member("rewrite"@, v.rewrite, "allow_leading_wildcard"@);
    lemma_opt_str_member("time_zone"@, v.time_zone, "allow_leading_wildcard"@);
    lemma_lookup_concat(m0, m1, "allow_leading_wildcard"@);
    lemma_lookup_concat(m0 + m1, m2, "allow_leading_wildcard"@);
    lemma_lookup_concat(m0 + m1 + m2, m3, "allow_leading_wildcard"@);
    lemma_lookup_concat(m0 + m1 + m2 + m3, m4, "allow_leading_wildcard"@);
    lemma_lookup_concat(m0 + m1 + m2 + m3 + m4, m5, "allow_leading_wildcard"@);
    lemma_lookup_concat(m0 + m1 + m2 + m3 + m4 + m5, m6, "allow_leading_wildcard"@);
    lemma_lookup_concat(m0 + m1 + m2 + m3 + m4 + m5 + m6, m7, "allow_leading_wildcard"@);
    lemma_lookup_concat(m0 + m1 + m2 + m3 + m4 + m5 + m6 + m7, m8, "allow_leading_wildcard"@);
    lemma_lookup_concat(m0 + m1 + m2 + m3 + m4 + m5 + m6 + m7 + m8, m9, "allow_leading_wildcard"@);
    lemma_lookup_concat(m0 + m1 + m2 + m3 + m4 + m5 + m6 + m7 + m8 + m9, m10, "allow_leading_wildcard"@);
    lemma_lookup_concat(m0 + m1 + m2 + m3 + m4 + m5 + m6 + m7 + m8 + m9 + m10, m11, "allow_leading_wildcard"@);
    lemma_lookup_concat(m0 + m1 + m2 + m3 + m4 + m5 + m6 + m7 + m8 + m9 + m10 + m11, m12, "allow_leading_wildcard"@);
    lemma_lookup_concat(m0 + m1 + m2 + m3 + m4 + m5 + m6 + m7 + m8 + m9 + m10 + m11 + m12, m13, "allow_leading_wildcard"@);
    lemma_lookup_concat(m0 + m1 + m2 + m3 + m4 + m5 + m6 + m7 + m8 + m9 + m10 + m11 + m12 + m13, m14, "allow_leading_wildcard"@);
    lemma_lookup_concat(m0 + m1 + m2 + m3 + m4 + m5 + m6 + m7 + m8 + m9 + m10 + m11 + m12 + m13 + m14, m15, "allow_leading_wildcard"@);
    lemma_lookup_concat(m0 + m1 + m2 + m3 + m4 + m5 + m6 + m7 + m8 + m9 + m10 + m11 + m12 + m13 + m14 + m15, m16, "allow_leading_wildcard"@);
    lemma_lookup_concat(m0 + m1 + m2 + m3 + m4 + m5 + m6 + m7 + m8 + m9 + m10 + m11 + m12 + m13 + m14 + m15 + m16, m17, "allow_leading_wildcard"@);
    lemma_lookup_concat(m0 + m1 + m2 + m3 + m4 + m5 + m6 + m7 + m8 + m9 + m10 + m11 + m12 + m13 + m14 + m15 + m16 + m17, m18, "allow_leading_wildcard"@);
    lemma_lookup_concat(m0 + m1 + m2 + m3 + m4 + m5 + m6 + m7 + m8 + m9 + m10 + m11 + m12 + m13 + m14 + m15 + m16 + m17 + m18, m19, "allow_leading_wildcard"@);
    lemma_lookup_concat(m0 + m1 + m2 + m3 + m4 + m5 + m6 + m7 + m8 + m9 + m10 + m11 + m12 + m13 + m14 + m15 + m16 + m17 + m18 + m19, m20, "allow_leading_wildcard"@);
    lemma_lookup_concat(m0 + m1 + m2 + m3 + m4 + m5 + m6 + m7 + m8 + m9 + m10 + m11 + m12 + m13 + m14 + m15 + m16 + m17 + m18 + m19 + m20, m21, "allow_leading_wildcard"@);
    assert(query_string_members(v) =~= m0 + m1 + m2 + m3 + m4 + m5 + m6 + m7 + m8 + m9 + m10 + m11 + m12 + m13 + m14 + m15 + m16 + m17 + m18 + m19 + m20 + m21);
}

proof fn lemma_query_string_lookup_analyze_wildcard(v: QueryStringQueryView)
    ensures
        lookup(query_string_members(v), "analyze_wildcard"@) == Some(JsonValue::Bool(v.analyze_wildcard)),
{
    lemma_query_string_keys();
    let m0 = seq![("query"@, JsonValue::Str(v.query))];
    let m1 = strs_member("fields"@, v.fields);
    let m2 = opt_str_member("default_field"@, v.default_field);
    let m3 = bool_member("allow_leading_wildcard"@, v.allow_leading_wildcard);
    let m4 = bool_member("analyze_wildcard"@, v.analyze_wildcard);
    let m5 = opt_str_member("analyzer"@, v.analyzer);
    let m6 = opt_str_member("quote_analyzer"@, v.quote_analyzer);
    let m7 = bool_member("auto_generate_synonyms_phrase_query"@, v.auto_generate_synonyms_phrase_query);
    let m8 = num_member("boost"@, v.boost);
    let m9 = seq![("default_operator"@, JsonValue::Str(query_string_boolean_operator_name(v.default_operator)))];
    let m10 = bool_member("enable_position_increments"@, v.enable_position_increments);
    let m11 = opt_str_member("fuzziness"@, v.fuzziness);
    let m12 = i32_member("fuzzy_max_expansions"@, v.fuzzy_max_expansions);
    let m13 = i32_member("fuzzy_prefix_length"@, v.fuzzy_prefix_length);
    let m14 = bool_member("fuzzy_transpositions"@, v.fuzzy_transpositions);
    let m15 = bool_member("lenient"@, v.lenient);
    let m16 = i32_member("max_determinized_states"@, v.max_determinized_states);
    let m17 = opt_str_member("minimum_should_match"@, v.minimum_should_match);
    let m18 = i32_member("phrase_slop"@, v.phrase_slop);
    let m19 = opt_str_member("quote_field_suffix"@, v.quote_field_suffix);
    let m20 = opt_str_member("rewrite"@, v.rewrite);
    let m21 = opt_str_member("time_zone"@, v.time_zone);
    lemma_lookup_one("query"@, JsonValue::Str(v.query), "analyze_wildcard"@);
    lemma_strs_member("fields"@, v.fields, "analyze_wildcard"@);
    lemma_opt_str_member("default_field"@, v.default_field, "analyze_wildcard"@);
    lemma_lookup_one("allow_leading_wildcard"@, JsonValue::Bool(v.allow_leading_wildcard), "analyze_wildcard"@);
    lemma_lookup_one("analyze_wildcard"@, JsonValue::Bool(v.analyze_wildcard), "analyze_wildcard"@);
    lemma_opt_str_member("analyzer"@, v.analyzer, "analyze_wildcard"@);
    lemma_opt_str_member("quote_analyzer"@, v.quote_analyzer, "analyze_wildcard"@);
    lemma_lookup_one("auto_generate_synonyms_phrase_query"@, JsonValue::Bool(v.auto_generate_synonyms_phrase_query), "analyze_wildcard"@);
    lemma_lookup_one("boost"@, JsonValue::Number(v.boost), "analyze_wildcard"@);
    lemma_lookup_one("default_operator"@, JsonValue::Str(query_string_boolean_operator_name(v.default_operator)), "analyze_wildcard"@);
    lemma_lookup_one("enable_position_increments"@, JsonValue::Bool(v.enable_position_increments), "analyze_wildcard"@);
    lemma_opt_str_member("fuzziness"@, v.fuzziness, "analyze_wildcard"@);
    lemma_lookup_one("fuzzy_max_expansions"@, JsonValue::Number(int_text(v.fuzzy_max_expansions as int)), "analyze_wildcard"@);
    lemma_lookup_one("fuzzy_prefix_length"@, JsonValue::Number(int_text(v.fuzzy_prefix_length as int)), "analyze_wildcard"@);
    lemma_lookup_one("fuzzy_transpositions"@, JsonValue::Bool(v.fuzzy_transpositions), "analyze_wildcard"@);
    lemma_lookup_one("lenient"@, JsonValue::Bool(v.lenient), "analyze_wildcard"@);
    lemma_lookup_one("max_determinized_states"@, JsonValue::Number(int_text(v.max_determinized_states as int)), "analyze_wildcard"@);
    lemma_opt_str_member("minimum_should_match"@, v.minimum_should_match, "analyze_wildcard"@);
    lemma_lookup_one("phrase_slop"@, JsonValue::Number(int_text(v.phrase_slop as int)), "analyze_wildcard"@);
    lemma_opt_str_member("quote_field_suffix"@, v.quote_field_suffix, "analyze_wildcard"@);
    lemma_opt_str_member("rewrite"@, v.rewrite, "analyze_wildcard"@);
    lemma_opt_str_member("time_zone"@, v.time_zone, "analyze_wildcard"@);
    lemma_lookup_concat(m0, m1, "analyze_wildcard"@);
    lemma_lookup_concat(m0 + m1, m2, "analyze_wildcard"@);
    lemma_lookup_concat(m0 + m1 + m2, m3, "analyze_wildcard"@);
    lemma_lookup_concat(m0 + m1 + m2 + m3, m4, "analyze_wildcard"@);
    lemma_lookup_concat(m0 + m1 + m2 + m3 + m4, m5, "analyze_wildcard"@);
    lemma_lookup_concat(m0 + m1 + m2 + m3 + m4 + m5, m6, "analyze_wildcard"@);
    lemma_lookup_concat(m0 + m1 + m2 + m3 + m4 + m5 + m6, m7, "analyze_wildcard"@);
    lemma_lookup_concat(m0 + m1 + m2 + m3 + m4 + m5 + m6 + m7, m8, "analyze_wildcard"@);
    lemma_lookup_concat(m0 + m1 + m2 + m3 + m4 + m5 + m6 + m7 + m8, m9, "analyze_wildcard"@);
    lemma_lookup_concat(m0 + m1 + m2 + m3 + m4 + m5 + m6 + m7 + m8 + m9, m10, "analyze_wildcard"@);
    lemma_lookup_concat(m0 + m1 + m2 + m3 + m4 + m5 + m6 + m7 + m8 + m9 + m10, m11, "analyze_wildcard"@);
    lemma_lookup_concat(m0 + m1 + m2 + m3 + m4 + m5 + m6 + m7 + m8 + m9 + m10 + m11, m12, "analyze_wildcard"@);
    lemma_lookup_concat(m0 + m1 + m2 + m3 + m4 + m5 + m6 + m7 + m8 + m9 + m10 + m11 + m12, m13, "analyze_wildcard"@);
    lemma_lookup_concat(m0 + m1 + m2 + m3 + m4 + m5 + m6 + m7 + m8 + m9 + m10 + m11 + m12 + m13, m14, "analyze_wildcard"@);
    lemma_lookup_concat(m0 + m1 + m2 + m3 + m4 + m5 + m6 + m7 + m8 + m9 + m10 + m11 + m12 + m13 + m14, m15, "analyze_wildcard"@);
    lemma_lookup_concat(m0 + m1 + m2 + m3 + m4 + m5 + m6 + m7 + m8 + m9 + m10 + m11 + m12 + m13 + m14 + m15, m16, "analyze_wildcard"@);
    lemma_lookup_concat(m0 + m1 + m2 + m3 + m4 + m5 + m6 + m7 + m8 + m9 + m10 + m11 + m12 + m13 + m14 + m15 + m16, m17, "analyze_wildcard"@);
    lemma_lookup_concat(m0 + m1 + m2 + m3 + m4 + m5 + m6 + m7 + m8 + m9 + m10 + m11 + m12 + m13 + m14 + m15 + m16 + m17, m18, "analyze_wildcard"@);
    lemma_lookup_concat(m0 + m1 + m2 + m3 + m4 + m5 + m6 + m7 + m8 + m9 + m10 + m11 + m12 + m13 + m14 + m15 + m16 + m17 + m18, m19, "analyze_wildcard"@);
    lemma_lookup_concat(m0 + m1 + m2 + m3 + m4 + m5 + m6 + m7 + m8 + m9 + m10 + m11 + m12 + m13 + m14 + m15 + m16 + m17 + m18 + m19, m20, "analyze_wildcard"@);
    lemma_lookup_concat(m0 + m1 + m2 + m3 + m4 + m5 + m6 + m7 + m8 + m9 + m10 + m11 + m12 + m13 + m14 + m15 + m16 + m17 + m18 + m19 + m20, m21, "analyze_wildcard"@);
    assert(query_string_members(v) =~= m0 + m1 + m2 + m3 + m4 + m5 + m6 + m7 + m8 + m9 + m10 + m11 + m12 + m13 + m14 + m15 + m16 + m17 + m18 + m19 + m20 + m21);
}

proof fn lemma_query_string_lookup_analyzer(v: QueryStringQueryView)
    ensures
        lookup(query_string_members(v), "analyzer"@) == match v.analyzer { Some(t) => Some(JsonValue::Str(t)), None => None::<JsonValue> },
{
    lemma_query_string_keys();
    let m0 = seq![("query"@, JsonValue::Str(v.query))];
    let m1 = strs_member("fields"@, v.fields);
    let m2 = opt_str_member("default_field"@, v.default_field);
    let m3 = bool_member("allow_leading_wildcard"@, v.allow_leading_wildcard);
    let m4 = bool_member("analyze_wildcard"@, v.analyze_wildcard);
    let m5 = opt_str_member("analyzer"@, v.analyzer);
    let m6 = opt_str_member("quote_analyzer"@, v.quote_analyzer);
    let m7 = bool_member("auto_generate_synonyms_phrase_query"@, v.auto_generate_synonyms_phrase_query);
    let m8 = num_member("boost"@, v.boost);
    let m9 = seq![("default_operator"@, JsonValue::Str(query_string_boolean_operator_name(v.default_operator)))];
    let m10 = bool_member("enable_position_increments"@, v.enable_position_increments);
    let m11 = opt_str_member("fuzziness"@, v.fuzziness);
    let m12 = i32_member("fuzzy_max_expansions"@, v.fuzzy_max_expansions);
    let m13 = i32_member("fuzzy_prefix_length"@, v.fuzzy_prefix_length);
    let m14 = bool_member("fuzzy_transpositions"@, v.fuzzy_transpositions);
    let m15 = bool_member("lenient"@, v.lenient);
    let m16 = i32_member("max_determinized_states"@, v.max_determinized_states);
    let m17 = opt_str_member("minimum_should_match"@, v.minimum_should_match);
    let m18 = i32_member("phrase_slop"@, v.phrase_slop);
    let m19 = opt_str_member("quote_field_suffix"@, v.quote_field_suffix);
    let m20 = opt_str_member("rewrite"@, v.rewrite);
    let m21 = opt_str_member("time_zone"@, v.time_zone);
    lemma_lookup_one("query"@, JsonValue::Str(v.query), "analyzer"@);
    lemma_strs_member("fields"@, v.fields, "analyzer"@);
    lemma_opt_str_member("default_field"@, v.default_field, "analyzer"@);
    lemma_lookup_one("allow_leading_wildcard"@, JsonValue::Bool(v.allow_leading_wildcard), "analyzer"@);
    lemma_lookup_one("analyze_wildcard"@, JsonValue::Bool(v.analyze_wildcard), "analyzer"@);
    lemma_opt_str_member("analyzer"@, v.analyzer, "analyzer"@);
    lemma_opt_str_member("quote_analyzer"@, v.quote_analyzer, "analyzer"@);
    lemma_lookup_one("auto_generate_synonyms_phrase_query"@, JsonValue::Bool(v.auto_generate_synonyms_phrase_query), "analyzer"@);
    lemma_lookup_one("boost"@, JsonValue::Number(v.boost), "analyzer"@);
    lemma_lookup_one("default_operator"@, JsonValue::Str(query_string_boolean_operator_name(v.default_operator)), "analyzer"@);
    lemma_lookup_one("enable_position_increments"@, JsonValue::Bool(v.enable_position_increments), "analyzer"@);
    lemma_opt_str_member("fuzziness"@, v.fuzziness, "analyzer"@);
    lemma_lookup_one("fuzzy_max_expansions"@, JsonValue::Number(int_text(v.fuzzy_max_expansions as int)), "analyzer"@);
    lemma_lookup_one("fuzzy_prefix_length"@, JsonValue::Number(int_text(v.fuzzy_prefix_length as int)), "analyzer"@);
    lemma_lookup_one("fuzzy_transpositions"@, JsonValue::Bool(v.fuzzy_transpositions), "analyzer"@);
    lemma_lookup_one("lenient"@, JsonValue::Bool(v.lenient), "analyzer"@);
    lemma_lookup_one("max_determinized_states"@, JsonValue::Number(int_text(v.max_determinized_states as int)), "analyzer"@);
    lemma_opt_str_member("minimum_should_match"@, v.minimum_should_match, "analyzer"@);
    lemma_lookup_one("phrase_slop"@, JsonValue::Number(int_text(v.phrase_slop as int)), "analyzer"@);
    lemma_opt_str_member("quote_field_suffix"@, v.quote_field_suffix, "analyzer"@);
    lemma_opt_str_member("rewrite"@, v.rewrite, "analyzer"@);
    lemma_opt_str_member("time_zone"@, v.time_zone, "analyzer"@);
    lemma_lookup_concat(m0, m1, "analyzer"@);
    lemma_lookup_concat(m0 + m1, m2, "analyzer"@);
    lemma_lookup_concat(m0 + m1 + m2, m3, "analyzer"@);
    lemma_lookup_concat(m0 + m1 + m2 + m3, m4, "analyzer"@);
    lemma_lookup_concat(m0 + m1 + m2 + m3 + m4, m5, "analyzer"@);
    lemma_lookup_concat(m0 + m1 + m2 + m3 + m4 + m5, m6, "analyzer"@);
    lemma_lookup_concat(m0 + m1 + m2 + m3 + m4 + m5 + m6, m7, "analyzer"@);
    lemma_lookup_concat(m0 + m1 + m2 + m3 + m4 + m5 + m6 + m7, m8, "analyzer"@);
    lemma_lookup_concat(m0 + m1 + m2 + m3 + m4 + m5 + m6 + m7 + m8, m9, "analyzer"@);
    lemma_lookup_concat(m0 + m1 + m2 + m3 + m4 + m5 + m6 + m7 + m8 + m9, m10, "analyzer"@);
    lemma_lookup_concat(m0 + m1 + m2 + m3 + m4 + m5 + m6 + m7 + m8 + m9 + m10, m11, "analyzer"@);
    lemma_lookup_concat(m0 + m1 + m2 + m3 + m4 + m5 + m6 + m7 + m8 + m9 + m10 + m11, m12, "analyzer"@);
    lemma_lookup_concat(m0 + m1 + m2 + m3 + m4 + m5 + m6 + m7 + m8 + m9 + m10 + m11 + m12, m13, "analyzer"@);
    lemma_lookup_concat(m0 + m1 + m2 + m3 + m4 + m5 + m6 + m7 + m8 + m9 + m10 + m11 + m12 + m13, m14, "analyzer"@);
    lemma_lookup_concat(m0 + m1 + m2 + m3 + m4 + m5 + m6 + m7 + m8 + m9 + m10 + m11 + m12 + m13 + m14, m15, "analyzer"@);
    lemma_lookup_concat(m0 + m1 + m2 + m3 + m4 + m5 + m6 + m7 + m8 + m9 + m10 + m11 + m12 + m13 + m14 + m15, m16, "analyzer"@);
    lemma_lookup_concat(m0 + m1 + m2 + m3 + m4 + m5 + m6 + m7 + m8 + m9 + m10 + m11 + m12 + m13 + m14 + m15 + m16, m17, "analyzer"@);
    lemma_lookup_concat(m0 + m1 + m2 + m3 + m4 + m5 + m6 + m7 + m8 + m9 + m10 + m11 + m12 + m13 + m14 + m15 + m16 + m17, m18, "analyzer"@);
    lemma_lookup_concat(m0 + m1 + m2 + m3 + m4 + m5 + m6 + m7 + m8 + m9 + m10 + m11 + m12 + m13 + m14 + m15 + m16 + m17 + m18, m19, "analyzer"@);
    lemma_lookup_concat(m0 + m1 + m2 + m3 + m4 + m5 + m6 + m7 + m8 + m9 + m10 + m11 + m12 + m13 + m14 + m15 + m16 + m17 + m18 + m19, m20, "analyzer"@);
    lemma_lookup_concat(m0 + m1 + m2 + m3 + m4 + m5 + m6 + m7 + m8 + m9 + m10 + m11 + m12 + m13 + m14 + m15 + m16 + m17 + m18 + m19 + m20, m21, "analyzer"@);
    assert(query_string_members(v) =~= m0 + m1 + m2 + m3 + m4 + m5 + m6 + m7 + m8 + m9 + m10 + m11 + m12 + m13 + m14 + m15 + m16 + m17 + m18 + m19 + m20 + m21);
}

proof fn lemma_query_string_lookup_quote_analyzer(v: QueryStringQueryView)
    ensures
        lookup(query_string_members(v), "quote_analyzer"@) == match v.quote_analyzer { Some(t) => Some(JsonValue::Str(t)), None => None::<JsonValue> },
{
    lemma_query_string_keys();
    let m0 = seq![("query"@, JsonValue::Str(v.query))];
    let m1 = strs_member("fields"@, v.fields);
    let m2 = opt_str_member("default_field"@, v.default_field);
    let m3 = bool_member("allow_leading_wildcard"@, v.allow_leading_wildcard);
    let m4 = bool_member("analyze_wildcard"@, v.analyze_wildcard);
    let m5 = opt_str_member("analyzer"@, v.analyzer);
    let m6 = opt_str_member("quote_analyzer"@, v.quote_analyzer);
    let m7 = bool_member("auto_generate_synonyms_phrase_query"@, v.auto_generate_synonyms_phrase_query);
    let m8 = num_member("boost"@, v.boost);
    let m9 = seq![("default_operator"@, JsonValue::Str(query_string_boolean_operator_name(v.default_operator)))];
    let m10 = bool_member("enable_position_increments"@, v.enable_position_increments);
    let m11 = opt_str_member("fuzziness"@, v.fuzziness);
    let m12 = i32_member("fuzzy_max_expansions"@, v.fuzzy_max_expansions);
    let m13 = i32_member("fuzzy_prefix_length"@, v.fuzzy_prefix_length);
    let m14 = bool_member("fuzzy_transpositions"@, v.fuzzy_transpositions);
    let m15 = bool_member("lenient"@, v.lenient);
    let m16 = i32_member("max_determinized_states"@, v.max_determinized_states);
    let m17 = opt_str_member("minimum_should_match"@, v.minimum_should_match);
    let m18 = i32_member("phrase_slop"@, v.phrase_slop);
    let m19 = opt_str_member("quote_field_suffix"@, v.quote_field_suffix);
    let m20 = opt_str_member("rewrite"@, v.rewrite);
    let m21 = opt_str_member("time_zone"@, v.time_zone);
    lemma_lookup_one("query"@, JsonValue::Str(v.query), "quote_analyzer"@);
    lemma_strs_member("fields"@, v.fields, "quote_analyzer"@);
    lemma_opt_str_member("default_field"@, v.default_field, "quote_analyzer"@);
    lemma_lookup_one("allow_leading_wildcard"@, JsonValue::Bool(v.allow_leading_wildcard), "quote_analyzer"@);
    lemma_lookup_one("analyze_wildcard"@, JsonValue::Bool(v.analyze_wildcard), "quote_analyzer"@);
    lemma_opt_str_member("analyzer"@, v.analyzer, "quote_analyzer"@);
    lemma_opt_str_member("quote_analyzer"@, v.quote_analyzer, "quote_analyzer"@);
    lemma_lookup_one("auto_generate_synonyms_phrase_query"@, JsonValue::Bool(v.auto_generate_synonyms_phrase_query), "quote_analyzer"@);
    lemma_lookup_one("boost"@, JsonValue::Number(v.boost), "quote_analyzer"@);
    lemma_lookup_one("default_operator"@, JsonValue::Str(query_string_boolean_operator_name(v.default_operator)), "quote_analyzer"@);
    lemma_lookup_one("enable_position_increments"@, JsonValue::Bool(v.enable_position_increments), "quote_analyzer"@);
    lemma_opt_str_member("fuzziness"@, v.fuzziness, "quote_analyzer"@);
    lemma_lookup_one("fuzzy_max_expansions"@, JsonValue::Number(int_text(v.fuzzy_max_expansions as int)), "quote_analyzer"@);
    lemma_lookup_one("fuzzy_prefix_length"@, JsonValue::Number(int_text(v.fuzzy_prefix_length as int)), "quote_analyzer"@);
    lemma_lookup_one("fuzzy_transpositions"@, JsonValue::Bool(v.fuzzy_transpositions), "quote_analyzer"@);
    lemma_lookup_one("lenient"@, JsonValue::Bool(v.lenient), "quote_analyzer"@);
    lemma_lookup_one("max_determinized_states"@, JsonValue::Number(int_text(v.max_determinized_states as int)), "quote_analyzer"@);
    lemma_opt_str_member("minimum_should_match"@, v.minimum_should_match, "quote_analyzer"@);
    lemma_lookup_one("phrase_slop"@, JsonValue::Number(int_text(v.phrase_slop as int)), "quote_analyzer"@);
    lemma_opt_str_member("quote_field_suffix"@, v.quote_field_suffix, "quote_analyzer"@);
    lemma_opt_str_member("rewrite"@, v.rewrite, "quote_analyzer"@);
    lemma_opt_str_member("time_zone"@, v.time_zone, "quote_analyzer"@);
    lemma_lookup_concat(m0, m1, "quote_analyzer"@);
    lemma_lookup_concat(m0 + m1, m2, "quote_analyzer"@);
    lemma_lookup_concat(m0 + m1 + m2, m3, "quote_analyzer"@);
    lemma_lookup_concat(m0 + m1 + m2 + m3, m4, "quote_analyzer"@);
    lemma_lookup_concat(m0 + m1 + m2 + m3 + m4, m5, "quote_analyzer"@);
    lemma_lookup_concat(m0 + m1 + m2 + m3 + m4 + m5, m6, "quote_analyzer"@);
    lemma_lookup_concat(m0 + m1 + m2 + m3 + m4 + m5 + m6, m7, "quote_analyzer"@);
    lemma_lookup_concat(m0 + m1 + m2 + m3 + m4 + m5 + m6 + m7, m8, "quote_analyzer"@);
    lemma_lookup_concat(m0 + m1 + m2 + m3 + m4 + m5 + m6 + m7 + m8, m9, "quote_analyzer"@);
    lemma_lookup_concat(m0 + m1 + m2 + m3 + m4 + m5 + m6 + m7 + m8 + m9, m10, "quote_analyzer"@);
    lemma_lookup_concat(m0 + m1 + m2 + m3 + m4 + m5 + m6 + m7 + m8 + m9 + m10, m11, "quote_analyzer"@);
    lemma_lookup_concat(m0 + m1 + m2 + m3 + m4 + m5 + m6 + m7 + m8 + m9 + m10 + m11, m12, "quote_analyzer"@);
    lemma_lookup_concat(m0 + m1 + m2 + m3 + m4 + m5 + m6 + m7 + m8 + m9 + m10 + m11 + m12, m13, "quote_analyzer"@);
    lemma_lookup_concat(m0 + m1 + m2 + m3 + m4 + m5 + m6 + m7 + m8 + m9 + m10 + m11 + m12 + m13, m14, "quote_analyzer"@);
    lemma_lookup_concat(m0 + m1 + m2 + m3 + m4 + m5 + m6 + m7 + m8 + m9 + m10 + m11 + m12 + m13 + m14, m15, "quote_analyzer"@);
    lemma_lookup_concat(m0 + m1 + m2 + m3 + m4 + m5 + m6 + m7 + m8 + m9 + m10 + m11 + m12 + m13 + m14 + m15, m16, "quote_analyzer"@);
    lemma_lookup_concat(m0 + m1 + m2 + m3 + m4 + m5 + m6 + m7 + m8 + m9 + m10 + m11 + m12 + m13 + m14 + m15 + m16, m17, "quote_analyzer"@);
    lemma_lookup_concat(m0 + m1 + m2 + m3 + m4 + m5 + m6 + m7 + m8 + m9 + m10 + m11 + m12 + m13 + m14 + m15 + m16 + m17, m18, "quote_analyzer"@);
    lemma_lookup_concat(m0 + m1 + m2 + m3 + m4 + m5 + m6 + m7 + m8 + m9 + m10 + m11 + m12 + m13 + m14 + m15 + m16 + m17 + m18, m19, "quote_analyzer"@);
    lemma_lookup_concat(m0 + m1 + m2 + m3 + m4 + m5 + m6 + m7 + m8 + m9 + m10 + m11 + m12 + m13 + m14 + m15 + m16 + m17 + m18 + m19, m20, "quote_analyzer"@);
    lemma_lookup_concat(m0 + m1 + m2 + m3 + m4 + m5 + m6 + m7 + m8 + m9 + m10 + m11 + m12 + m13 + m14 + m15 + m16 + m17 + m18 + m19 + m20, m21, "quote_analyzer"@);
    assert(query_string_members(v) =~= m0 + m1 + m2 + m3 + m4 + m5 + m6 + m7 + m8 + m9 + m10 + m11 + m12 + m13 + m14 + m15 + m16 + m17 + m18 + m19 + m20 + m21);
}

proof fn lemma_query_string_lookup_auto_generate_synonyms_phrase_query(v: QueryStringQueryView)
    ensures
        lookup(query_string_members(v), "auto_generate_synonyms_phrase_query"@) == Some(JsonValue::Bool(v.auto_generate_synonyms_phrase_query)),
{
    lemma_query_string_keys();
    let m0 = seq![("query"@, JsonValue::Str(v.query))];
    let m1 = strs_member("fields"@, v.fields);
    let m2 = opt_str_member("default_field"@, v.default_field);
    let m3 = bool_member("allow_leading_wildcard"@, v.allow_leading_wildcard);
    let m4 = bool_member("analyze_wildcard"@, v.analyze_wildcard);
    let m5 = opt_str_member("analyzer"@, v.analyzer);
    let m6 = opt_str_member("quote_analyzer"@, v.quote_analyzer);
    let m7 = bool_member("auto_generate_synonyms_phrase_query"@, v.auto_generate_synonyms_phrase_query);
    let m8 = num_member("boost"@, v.boost);
    let m9 = seq![("default_operator"@, JsonValue::Str(query_string_boolean_operator_name(v.default_operator)))];
    let m10 = bool_member("enable_position_increments"@, v.enable_position_increments);
    let m11 = opt_str_member("fuzziness"@, v.fuzziness);
    let m12 = i32_member("fuzzy_max_expansions"@, v.fuzzy_max_expansions);
    let m13 = i32_member("fuzzy_prefix_length"@, v.fuzzy_prefix_length);
    let m14 = bool_member("fuzzy_transpositions"@, v.fuzzy_transpositions);
    let m15 = bool_member("lenient"@, v.lenient);
    let m16 = i32_member("max_determinized_states"@, v.max_determinized_states);
    let m17 = opt_str_member("minimum_should_match"@, v.minimum_should_match);
    let m18 = i32_member("phrase_slop"@, v.phrase_slop);
    let m19 = opt_str_member("quote_field_suffix"@, v.quote_field_suffix);
    let m20 = opt_str_member("rewrite"@, v.rewrite);
    let m21 = opt_str_member("time_zone"@, v.time_zone);
    lemma_lookup_one("query"@, JsonValue::Str(v.query), "auto_generate_synonyms_phrase_query"@);
    lemma_strs_member("fields"@, v.fields, "auto_generate_synonyms_phrase_query"@);
    lemma_opt_str_member("default_field"@, v.default_field, "auto_generate_synonyms_phrase_query"@);
    lemma_lookup_one("allow_leading_wildcard"@, JsonValue::Bool(v.allow_leading_wildcard), "auto_generate_synonyms_phrase_query"@);
    lemma_lookup_one("analyze_wildcard"@, JsonValue::Bool(v.analyze_wildcard), "auto_generate_synonyms_phrase_query"@);
    lemma_opt_str_member("analyzer"@, v.analyzer, "auto_generate_synonyms_phrase_query"@);
    lemma_opt_str_member("quote_analyzer"@, v.quote_analyzer, "auto_generate_synonyms_phrase_query"@);
    lemma_lookup_one("auto_generate_synonyms_phrase_query"@, JsonValue::Bool(v.auto_generate_synonyms_phrase_query), "auto_generate_synonyms_phrase_query"@);
    lemma_lookup_one("boost"@, JsonValue::Number(v.boost), "auto_generate_synonyms_phrase_query"@);
    lemma_lookup_one("default_operator"@, JsonValue::Str(query_string_boolean_operator_name(v.default_operator)), "auto_generate_synonyms_phrase_query"@);
    lemma_lookup_one("enable_position_increments"@, JsonValue::Bool(v.enable_position_increments), "auto_generate_synonyms_phrase_query"@);
    lemma_opt_str_member("fuzziness"@, v.fuzziness, "auto_generate_synonyms_phrase_query"@);
    lemma_lookup_one("fuzzy_max_expansions"@, JsonValue::Number(int_text(v.fuzzy_max_expansions as int)), "auto_generate_synonyms_phrase_query"@);
    lemma_lookup_one("fuzzy_prefix_length"@, JsonValue::Number(int_text(v.fuzzy_prefix_length as int)), "auto_generate_synonyms_phrase_query"@);
    lemma_lookup_one("fuzzy_transpositions"@, JsonValue::Bool(v.fuzzy_transpositions), "auto_generate_synonyms_phrase_query"@);
    lemma_lookup_one("lenient"@, JsonValue::Bool(v.lenient), "auto_generate_synonyms_phrase_query"@);
    lemma_lookup_one("max_determinized_states"@, JsonValue::Number(int_text(v.max_determinized_states as int)), "auto_generate_synonyms_phrase_query"@);
    lemma_opt_str_member("minimum_should_match"@, v.minimum_should_match, "auto_generate_synonyms_phrase_query"@);
    lemma_lookup_one("phrase_slop"@, JsonValue::Number(int_text(v.phrase_slop as int)), "auto_generate_synonyms_phrase_query"@);
    lemma_opt_str_member("quote_field_suffix"@, v.quote_field_suffix, "auto_generate_synonyms_phrase_query"@);
    lemma_opt_str_member("rewrite"@, v.rewrite, "auto_generate_synonyms_phrase_query"@);
    lemma_opt_str_member("time_zone"@, v.time_zone, "auto_generate_synonyms_phrase_query"@);
    lemma_lookup_concat(m0, m1, "auto_generate_synonyms_phrase_query"@);
    lemma_lookup_concat(m0 + m1, m2, "auto_generate_synonyms_phrase_query"@);
    lemma_lookup_concat(m0 + m1 + m2, m3, "auto_generate_synonyms_phrase_query"@);
    lemma_lookup_concat(m0 + m1 + m2 + m3, m4, "auto_generate_synonyms_phrase_query"@);
    lemma_lookup_concat(m0 + m1 + m2 + m3 + m4, m5, "auto_generate_synonyms_phrase_query"@);
    lemma_lookup_concat(m0 + m1 + m2 + m3 + m4 + m5, m6, "auto_generate_synonyms_phrase_query"@);
    lemma_lookup_concat(m0 + m1 + m2 + m3 + m4 + m5 + m6, m7, "auto_generate_synonyms_phrase_query"@);
    lemma_lookup_concat(m0 + m1 + m2 + m3 + m4 + m5 + m6 + m7, m8, "auto_generate_synonyms_phrase_query"@);
    lemma_lookup_concat(m0 + m1 + m2 + m3 + m4 + m5 + m6 + m7 + m8, m9, "auto_generate_synonyms_phrase_query"@);
    lemma_lookup_concat(m0 + m1 + m2 + m3 + m4 + m5 + m6 + m7 + m8 + m9, m10, "auto_generate_synonyms_phrase_query"@);
    lemma_lookup_concat(m0 + m1 + m2 + m3 + m4 + m5 + m6 + m7 + m8 + m9 + m10, m11, "auto_generate_synonyms_phrase_query"@);
    lemma_lookup_concat(m0 + m1 + m2 + m3 + m4 + m5 + m6 + m7 + m8 + m9 + m10 + m11, m12, "auto_generate_synonyms_phrase_query"@);
    lemma_lookup_concat(m0 + m1 + m2 + m3 + m4 + m5 + m6 + m7 + m8 + m9 + m10 + m11 + m12, m13, "auto_generate_synonyms_phrase_query"@);
    lemma_lookup_concat(m0 + m1 + m2 + m3 + m4 + m5 + m6 + m7 + m8 + m9 + m10 + m11 + m12 + m13, m14, "auto_generate_synonyms_phrase_query"@);
    lemma_lookup_concat(m0 + m1 + m2 + m3 + m4 + m5 + m6 + m7 + m8 + m9 + m10 + m11 + m12 + m13 + m14, m15, "auto_generate_synonyms_phrase_query"@);
    lemma_lookup_concat(m0 + m1 + m2 + m3 + m4 + m5 + m6 + m7 + m8 + m9 + m10 + m11 + m12 + m13 + m14 + m15, m16, "auto_generate_synonyms_phrase_query"@);
    lemma_lookup_concat(m0 + m1 + m2 + m3 + m4 + m5 + m6 + m7 + m8 + m9 + m10 + m11 + m12 + m13 + m14 + m15 + m16, m17, "auto_generate_synonyms_phrase_query"@);
    lemma_lookup_concat(m0 + m1 + m2 + m3 + m4 + m5 + m6 + m7 + m8 + m9 + m10 + m11 + m12 + m13 + m14 + m15 + m16 + m17, m18, "auto_generate_synonyms_phrase_query"@);
    lemma_lookup_concat(m0 + m1 + m2 + m3 + m4 + m5 + m6 + m7 + m8 + m9 + m10 + m11 + m12 + m13 + m14 + m15 + m16 + m17 + m18, m19, "auto_generate_synonyms_phrase_query"@);
    lemma_lookup_concat(m0 + m1 + m2 + m3 + m4 + m5 + m6 + m7 + m8 + m9 + m10 + m11 + m12 + m13 + m14 + m15 + m16 + m17 + m18 + m19, m20, "auto_generate_synonyms_phrase_query"@);
    lemma_lookup_concat(m0 + m1 + m2 + m3 + m4 + m5 + m6 + m7 + m8 + m9 + m10 + m11 + m12 + m13 + m14 + m15 + m16 + m17 + m18 + m19 + m20, m21, "auto_generate_synonyms_phrase_query"@);
    assert(query_string_members(v) =~= m0 + m1 + m2 + m3 + m4 + m5 + m6 + m7 + m8 + m9 + m10 + m11 + m12 + m13 + m14 + m15 + m16 + m17 + m18 + m19 + m20 + m21);
}

proof fn lemma_query_string_lookup_boost(v: QueryStringQueryView)
    ensures
        lookup(query_string_members(v), "boost"@) == Some(JsonValue::Number(v.boost)),
{
    lemma_query_string_keys();
    let m0 = seq![("query"@, JsonValue::Str(v.query))];
    let m1 = strs_member("fields"@, v.fields);
    let m2 = opt_str_member("default_field"@, v.default_field);
    let m3 = bool_member("allow_leading_wildcard"@, v.allow_leading_wildcard);
    let m4 = bool_member("analyze_wildcard"@, v.analyze_wildcard);
    let m5 = opt_str_member("analyzer"@, v.analyzer);
    let m6 = opt_str_member("quote_analyzer"@, v.quote_analyzer);
    let m7 = bool_member("auto_generate_synonyms_phrase_query"@, v.auto_generate_synonyms_phrase_query);
    let m8 = num_member("boost"@, v.boost);
    let m9 = seq![("default_operator"@, JsonValue::Str(query_string_boolean_operator_name(v.default_operator)))];
    let m10 = bool_member("enable_position_increments"@, v.enable_position_increments);
    let m11 = opt_str_member("fuzziness"@, v.fuzziness);
    let m12 = i32_member("fuzzy_max_expansions"@, v.fuzzy_max_expansions);
    let m13 = i32_member("fuzzy_prefix_length"@, v.fuzzy_prefix_length);
    let m14 = bool_member("fuzzy_transpositions"@, v.fuzzy_transpositions);
    let m15 = bool_member("lenient"@, v.lenient);
    let m16 = i32_member("max_determinized_states"@, v.max_determinized_states);
    let m17 = opt_str_member("minimum_should_match"@, v.minimum_should_match);
    let m18 = i32_member("phrase_slop"@, v.phrase_slop);
    let m19 = opt_str_member("quote_field_suffix"@, v.quote_field_suffix);
    let m20 = opt_str_member("rewrite"@, v.rewrite);
    let m21 = opt_str_member("time_zone"@, v.time_zone);
    lemma_lookup_one("query"@, JsonValue::Str(v.query), "boost"@);
    lemma_strs_member("fields"@, v.fields, "boost"@);
    lemma_opt_str_member("default_field"@, v.default_field, "boost"@);
    lemma_lookup_one("allow_leading_wildcard"@, JsonValue::Bool(v.allow_leading_wildcard), "boost"@);
    lemma_lookup_one("analyze_wildcard"@, JsonValue::Bool(v.analyze_wildcard), "boost"@);
    lemma_opt_str_member("analyzer"@, v.analyzer, "boost"@);
    lemma_opt_str_member("quote_analyzer"@, v.quote_analyzer, "boost"@);
    lemma_lookup_one("auto_generate_synonyms_phrase_query"@, JsonValue::Bool(v.auto_generate_synonyms_phrase_query), "boost"@);
    lemma_lookup_one("boost"@, JsonValue::Number(v.boost), "boost"@);
    lemma_lookup_one("default_operator"@, JsonValue::Str(query_string_boolean_operator_name(v.default_operator)), "boost"@);
    lemma_lookup_one("enable_position_increments"@, JsonValue::Bool(v.enable_position_increments), "boost"@);
    lemma_opt_str_member("fuzziness"@, v.fuzziness, "boost"@);
    lemma_lookup_one("fuzzy_max_expansions"@, JsonValue::Number(int_text(v.fuzzy_max_expansions as int)), "boost"@);
    lemma_lookup_one("fuzzy_prefix_length"@, JsonValue::Number(int_text(v.fuzzy_prefix_length as int)), "boost"@);
    lemma_lookup_one("fuzzy_transpositions"@, JsonValue::Bool(v.fuzzy_transpositions), "boost"@);
    lemma_lookup_one("lenient"@, JsonValue::Bool(v.lenient), "boost"@);
    lemma_lookup_one("max_determinized_states"@, JsonValue::Number(int_text(v.max_determinized_states as int)), "boost"@);
    lemma_opt_str_member("minimum_should_match"@, v.minimum_should_match, "boost"@);
    lemma_lookup_one("phrase_slop"@, JsonValue::Number(int_text(v.phrase_slop as int)), "boost"@);
    lemma_opt_str_member("quote_field_suffix"@, v.quote_field_suffix, "boost"@);
    lemma_opt_str_member("rewrite"@, v.rewrite, "boost"@);
    lemma_opt_str_member("time_zone"@, v.time_zone, "boost"@);
    lemma_lookup_concat(m0, m1, "boost"@);
    lemma_lookup_concat(m0 + m1, m2, "boost"@);
    lemma_lookup_concat(m0 + m1 + m2, m3, "boost"@);
    lemma_lookup_concat(m0 + m1 + m2 + m3, m4, "boost"@);
    lemma_lookup_concat(m0 + m1 + m2 + m3 + m4, m5, "boost"@);
    lemma_lookup_concat(m0 + m1 + m2 + m3 + m4 + m5, m6, "boost"@);
    lemma_lookup_concat(m0 + m1 + m2 + m3 + m4 + m5 + m6, m7, "boost"@);
    lemma_lookup_concat(m0 + m1 + m2 + m3 + m4 + m5 + m6 + m7, m8, "boost"@);
    lemma_lookup_concat(m0 + m1 + m2 + m3 + m4 + m5 + m6 + m7 + m8, m9, "boost"@);
    lemma_lookup_concat(m0 + m1 + m2 + m3 + m4 + m5 + m6 + m7 + m8 + m9, m10, "boost"@);
    lemma_lookup_concat(m0 + m1 + m2 + m3 + m4 + m5 + m6 + m7 + m8 + m9 + m10, m11, "boost"@);
    lemma_lookup_concat(m0 + m1 + m2 + m3 + m4 + m5 + m6 + m7 + m8 + m9 + m10 + m11, m12, "boost"@);
    lemma_lookup_concat(m0 + m1 + m2 + m3 + m4 + m5 + m6 + m7 + m8 + m9 + m10 + m11 + m12, m13, "boost"@);
    lemma_lookup_concat(m0 + m1 + m2 + m3 + m4 + m5 + m6 + m7 + m8 + m9 + m10 + m11 + m12 + m13, m14, "boost"@);
    lemma_lookup_concat(m0 + m1 + m2 + m3 + m4 + m5 + m6 + m7 + m8 + m9 + m10 + m11 + m12 + m13 + m14, m15, "boost"@);
    lemma_lookup_concat(m0 + m1 + m2 + m3 + m4 + m5 + m6 + m7 + m8 + m9 + m10 + m11 + m12 + m13 + m14 + m15, m16, "boost"@);
    lemma_lookup_concat(m0 + m1 + m2 + m3 + m4 + m5 + m6 + m7 + m8 + m9 + m10 + m11 + m12 + m13 + m14 + m15 + m16, m17, "boost"@);
    lemma_lookup_concat(m0 + m1 + m2 + m3 + m4 + m5 + m6 + m7 + m8 + m9 + m10 + m11 + m12 + m13 + m14 + m15 + m16 + m17, m18, "boost"@);
    lemma_lookup_concat(m0 + m1 + m2 + m3 + m4 + m5 + m6 + m7 + m8 + m9 + m10 + m11 + m12 + m13 + m14 + m15 + m16 + m17 + m18, m19, "boost"@);
    lemma_lookup_concat(m0 + m1 + m2 + m3 + m4 + m5 + m6 + m7 + m8 + m9 + m10 + m11 + m12 + m13 + m14 + m15 + m16 + m17 + m18 + m19, m20, "boost"@);
    lemma_lookup_concat(m0 + m1 + m2 + m3 + m4 + m5 + m6 + m7 + m8 + m9 + m10 + m11 + m12 + m13 + m14 + m15 + m16 + m17 + m18 + m19 + m20, m21, "boost"@);
    assert(query_string_members(v) =~= m0 + m1 + m2 + m3 + m4 + m5 + m6 + m7 + m8 + m9 + m10 + m11 + m12 + m13 + m14 + m15 + m16 + m17 + m18 + m19 + m20 + m21);
}

proof fn lemma_query_string_lookup_default_operator(v: QueryStringQueryView)
    ensures
        lookup(query_string_members(v), "default_operator"@) == Some(JsonValue::Str(query_string_boolean_operator_name(v.default_operator))),
{
    lemma_query_string_keys();
    let m0 = seq![("query"@, JsonValue::Str(v.query))];
    let m1 = strs_member("fields"@, v.fields);
    let m2 = opt_str_member("default_field"@, v.default_field);
    let m3 = bool_member("allow_leading_wildcard"@, v.allow_leading_wildcard);
    let m4 = bool_member("analyze_wildcard"@, v.analyze_wildcard);
    let m5 = opt_str_member("analyzer"@, v.analyzer);
    let m6 = opt_str_member("quote_analyzer"@, v.quote_analyzer);
    let m7 = bool_member("auto_generate_synonyms_phrase_query"@, v.auto_generate_synonyms_phrase_query);
    let m8 = num_member("boost"@, v.boost);
    let m9 = seq![("default_operator"@, JsonValue::Str(query_string_boolean_operator_name(v.default_operator)))];
    let m10 = bool_member("enable_position_increments"@, v.enable_position_increments);
    let m11 = opt_str_member("fuzziness"@, v.fuzziness);
    let m12 = i32_member("fuzzy_max_expansions"@, v.fuzzy_max_expansions);
    let m13 = i32_member("fuzzy_prefix_length"@, v.fuzzy_prefix_length);
    let m14 = bool_member("fuzzy_transpositions"@, v.fuzzy_transpositions);
    let m15 = bool_member("lenient"@, v.lenient);
    let m16 = i32_member("max_determinized_states"@, v.max_determinized_states);
    let m17 = opt_str_member("minimum_should_match"@, v.minimum_should_match);
    let m18 = i32_member("phrase_slop"@, v.phrase_slop);
    let m19 = opt_str_member("quote_field_suffix"@, v.quote_field_suffix);
    let m20 = opt_str_member("rewrite"@, v.rewrite);
    let m21 = opt_str_member("time_zone"@, v.time_zone);
    lemma_lookup_one("query"@, JsonValue::Str(v.query), "default_operator"@);
    lemma_strs_member("fields"@, v.fields, "default_operator"@);
    lemma_opt_str_member("default_field"@, v.default_field, "default_operator"@);
    lemma_lookup_one("allow_leading_wildcard"@, JsonValue::Bool(v.allow_leading_wildcard), "default_operator"@);
    lemma_lookup_one("analyze_wildcard"@, JsonValue::Bool(v.analyze_wildcard), "default_operator"@);
    lemma_opt_str_member("analyzer"@, v.analyzer, "default_operator"@);
    lemma_opt_str_member("quote_analyzer"@, v.quote_analyzer, "default_operator"@);
    lemma_lookup_one("auto_generate_synonyms_phrase_query"@, JsonValue::Bool(v.auto_generate_synonyms_phrase_query), "default_operator"@);
    lemma_lookup_one("boost"@, JsonValue::Number(v.boost), "default_operator"@);
    lemma_lookup_one("default_operator"@, JsonValue::Str(query_string_boolean_operator_name(v.default_operator)), "default_operator"@);
    lemma_lookup_one("enable_position_increments"@, JsonValue::Bool(v.enable_position_increments), "default_operator"@);
    lemma_opt_str_member("fuzziness"@, v.fuzziness, "default_operator"@);
    lemma_lookup_one("fuzzy_max_expansions"@, JsonValue::Number(int_text(v.fuzzy_max_expansions as int)), "default_operator"@);
    lemma_lookup_one("fuzzy_prefix_length"@, JsonValue::Number(int_text(v.fuzzy_prefix_length as int)), "default_operator"@);
    lemma_lookup_one("fuzzy_transpositions"@, JsonValue::Bool(v.fuzzy_transpositions), "default_operator"@);
    lemma_lookup_one("lenient"@, JsonValue::Bool(v.lenient), "default_operator"@);
    lemma_lookup_one("max_determinized_states"@, JsonValue::Number(int_text(v.max_determinized_states as int)), "default_operator"@);
    lemma_opt_str_member("minimum_should_match"@, v.minimum_should_match, "default_operator"@);
    lemma_lookup_one("phrase_slop"@, JsonValue::Number(int_text(v.phrase_slop as int)), "default_operator"@);
    lemma_opt_str_member("quote_field_suffix"@, v.quote_field_suffix, "default_operator"@);
    lemma_opt_str_member("rewrite"@, v.rewrite, "default_operator"@);
    lemma_opt_str_member("time_zone"@, v.time_zone, "default_operator"@);
    lemma_lookup_concat(m0, m1, "default_operator"@);
    lemma_lookup_concat(m0 + m1, m2, "default_operator"@);
    lemma_lookup_concat(m0 + m1 + m2, m3, "default_operator"@);
    lemma_lookup_concat(m0 + m1 + m2 + m3, m4, "default_operator"@);
    lemma_lookup_concat(m0 + m1 + m2 + m3 + m4, m5, "default_operator"@);
    lemma_lookup_concat(m0 + m1 + m2 + m3 + m4 + m5, m6, "default_operator"@);
    lemma_lookup_concat(m0 + m1 + m2 + m3 + m4 + m5 + m6, m7, "default_operator"@);
    lemma_lookup_concat(m0 + m1 + m2 + m3 + m4 + m5 + m6 + m7, m8, "default_operator"@);
    lemma_lookup_concat(m0 + m1 + m2 + m3 + m4 + m5 + m6 + m7 + m8, m9, "default_operator"@);
    lemma_lookup_concat(m0 + m1 + m2 + m3 + m4 + m5 + m6 + m7 + m8 + m9, m10, "default_operator"@);
    lemma_lookup_concat(m0 + m1 + m2 + m3 + m4 + m5 + m6 + m7 + m8 + m9 + m10, m11, "default_operator"@);
    lemma_lookup_concat(m0 + m1 + m2 + m3 + m4 + m5 + m6 + m7 + m8 + m9 + m10 + m11, m12, "default_operator"@);
    lemma_lookup_concat(m0 + m1 + m2 + m3 + m4 + m5 + m6 + m7 + m8 + m9 + m10 + m11 + m12, m13, "default_operator"@);
    lemma_lookup_concat(m0 + m1 + m2 + m3 + m4 + m5 + m6 + m7 + m8 + m9 + m10 + m11 + m12 + m13, m14, "default_operator"@);
    lemma_lookup_concat(m0 + m1 + m2 + m3 + m4 + m5 + m6 + m7 + m8 + m9 + m10 + m11 + m12 + m13 + m14, m15, "default_operator"@);
    lemma_lookup_concat(m0 + m1 + m2 + m3 + m4 + m5 + m6 + m7 + m8 + m9 + m10 + m11 + m12 + m13 + m14 + m15, m16, "default_operator"@);
    lemma_lookup_concat(m0 + m1 + m2 + m3 + m4 + m5 + m6 + m7 + m8 + m9 + m10 + m11 + m12 + m13 + m14 + m15 + m16, m17, "default_operator"@);
    lemma_lookup_concat(m0 + m1 + m2 + m3 + m4 + m5 + m6 + m7 + m8 + m9 + m10 + m11 + m12 + m13 + m14 + m15 + m16 + m17, m18, "default_operator"@);
    lemma_lookup_concat(m0 + m1 + m2 + m3 + m4 + m5 + m6 + m7 + m8 + m9 + m10 + m11 + m12 + m13 + m14 + m15 + m16 + m17 + m18, m19, "default_operator"@);
    lemma_lookup_concat(m0 + m1 + m2 + m3 + m4 + m5 + m6 + m7 + m8 + m9 + m10 + m11 + m12 + m13 + m14 + m15 + m16 + m17 + m18 + m19, m20, "default_operator"@);
    lemma_lookup_concat(m0 + m1 + m2 + m3 + m4 + m5 + m6 + m7 + m8 + m9 + m10 + m11 + m12 + m13 + m14 + m15 + m16 + m17 + m18 + m19 + m20, m21, "default_operator"@);
    assert(query_string_members(v) =~= m0 + m1 + m2 + m3 + m4 + m5 + m6 + m7 + m8 + m9 + m10 + m11 + m12 + m13 + m14 + m15 + m16 + m17 + m18 + m19 + m20 + m21);
}

proof fn lemma_query_string_lookup_enable_position_increments(v: QueryStringQueryView)
    ensures
        lookup(query_string_members(v), "enable_position_increments"@) == Some(JsonValue::Bool(v.enable_position_increments)),
{
    lemma_query_string_keys();
    let m0 = seq![("query"@, JsonValue::Str(v.query))];
    let m1 = strs_member("fields"@, v.fields);
    let m2 = opt_str_member("default_field"@, v.default_field);
    let m3 = bool_member("allow_leading_wildcard"@, v.allow_leading_wildcard);
    let m4 = bool_member("analyze_wildcard"@, v.analyze_wildcard);
    let m5 = opt_str_member("analyzer"@, v.analyzer);
    let m6 = opt_str_member("quote_analyzer"@, v.quote_analyzer);
    let m7 = bool_member("auto_generate_synonyms_phrase_query"@, v.auto_generate_synonyms_phrase_query);
    let m8 = num_member("boost"@, v.boost);
    let m9 = seq![("default_operator"@, JsonValue::Str(query_string_boolean_operator_name(v.default_operator)))];
    let m10 = bool_member("enable_position_increments"@, v.enable_position_increments);
    let m11 = opt_str_member("fuzziness"@, v.fuzziness);
    let m12 = i32_member("fuzzy_max_expansions"@, v.fuzzy_max_expansions);
    let m13 = i32_member("fuzzy_prefix_length"@, v.fuzzy_prefix_length);
    let m14 = bool_member("fuzzy_transpositions"@, v.fuzzy_transpositions);
    let m15 = bool_member("lenient"@, v.lenient);
    let m16 = i32_member("max_determinized_states"@, v.max_determinized_states);
    let m17 = opt_str_member("minimum_should_match"@, v.minimum_should_match);
    let m18 = i32_member("phrase_slop"@, v.phrase_slop);
    let m19 = opt_str_member("quote_field_suffix"@, v.quote_field_suffix);
    let m20 = opt_str_member("rewrite"@, v.rewrite);
    let m21 = opt_str_member("time_zone"@, v.time_zone);
    lemma_lookup_one("query"@, JsonValue::Str(v.query), "enable_position_increments"@);
    lemma_strs_member("fields"@, v.fields, "enable_position_increments"@);
    lemma_opt_str_member("default_field"@, v.default_field, "enable_position_increments"@);
    lemma_lookup_one("allow_leading_wildcard"@, JsonValue::Bool(v.allow_leading_wildcard), "enable_position_increments"@);
    lemma_lookup_one("analyze_wildcard"@, JsonValue::Bool(v.analyze_wildcard), "enable_position_increments"@);
    lemma_opt_str_member("analyzer"@, v.analyzer, "enable_position_increments"@);
    lemma_opt_str_member("quote_analyzer"@, v.quote_analyzer, "enable_position_increments"@);
    lemma_lookup_one("auto_generate_synonyms_phrase_query"@, JsonValue::Bool(v.auto_generate_synonyms_phrase_query), "enable_position_increments"@);
    lemma_lookup_one("boost"@, JsonValue::Number(v.boost), "enable_position_increments"@);
    lemma_lookup_one("default_operator"@, JsonValue::Str(query_string_boolean_operator_name(v.default_operator)), "enable_position_increments"@);
    lemma_lookup_one("enable_position_increments"@, JsonValue::Bool(v.enable_position_increments), "enable_position_increments"@);
    lemma_opt_str_member("fuzziness"@, v.fuzziness, "enable_position_increments"@);
    lemma_lookup_one("fuzzy_max_expansions"@, JsonValue::Number(int_text(v.fuzzy_max_expansions as int)), "enable_position_increments"@);
    lemma_lookup_one("fuzzy_prefix_length"@, JsonValue::Number(int_text(v.fuzzy_prefix_length as int)), "enable_position_increments"@);
    lemma_lookup_one("fuzzy_transpositions"@, JsonValue::Bool(v.fuzzy_transpositions), "enable_position_increments"@);
    lemma_lookup_one("lenient"@, JsonValue::Bool(v.lenient), "enable_position_increments"@);
    lemma_lookup_one("max_determinized_states"@, JsonValue::Number(int_text(v.max_determinized_states as int)), "enable_position_increments"@);
    lemma_opt_str_member("minimum_should_match"@, v.minimum_should_match, "enable_position_increments"@);
    lemma_lookup_one("phrase_slop"@, JsonValue::Number(int_text(v.phrase_slop as int)), "enable_position_increments"@);
    lemma_opt_str_member("quote_field_suffix"@, v.quote_field_suffix, "enable_position_increments"@);
    lemma_opt_str_member("rewrite"@, v.rewrite, "enable_position_increments"@);
    lemma_opt_str_member("time_zone"@, v.time_zone, "enable_position_increments"@);
    lemma_lookup_concat(m0, m1, "enable_position_increments"@);
    lemma_lookup_concat(m0 + m1, m2, "enable_position_increments"@);
    lemma_lookup_concat(m0 + m1 + m2, m3, "enable_position_increments"@);
    lemma_lookup_concat(m0 + m1 + m2 + m3, m4, "enable_position_increments"@);
    lemma_lookup_concat(m0 + m1 + m2 + m3 + m4, m5, "enable_position_increments"@);
    lemma_lookup_concat(m0 + m1 + m2 + m3 + m4 + m5, m6, "enable_position_increments"@);
    lemma_lookup_concat(m0 + m1 + m2 + m3 + m4 + m5 + m6, m7, "enable_position_increments"@);
    lemma_lookup_concat(m0 + m1 + m2 + m3 + m4 + m5 + m6 + m7, m8, "enable_position_increments"@);
    lemma_lookup_concat(m0 + m1 + m2 + m3 + m4 + m5 + m6 + m7 + m8, m9, "enable_position_increments"@);
    lemma_lookup_concat(m0 + m1 + m2 + m3 + m4 + m5 + m6 + m7 + m8 + m9, m10, "enable_position_increments"@);
    lemma_lookup_concat(m0 + m1 + m2 + m3 + m4 + m5 + m6 + m7 + m8 + m9 + m10, m11, "enable_position_increments"@);
    lemma_lookup_concat(m0 + m1 + m2 + m3 + m4 + m5 + m6 + m7 + m8 + m9 + m10 + m11, m12, "enable_position_increments"@);
    lemma_lookup_concat(m0 + m1 + m2 + m3 + m4 + m5 + m6 + m7 + m8 + m9 + m10 + m11 + m12, m13, "enable_position_increments"@);
    lemma_lookup_concat(m0 + m1 + m2 + m3 + m4 + m5 + m6 + m7 + m8 + m9 + m10 + m11 + m12 + m13, m14, "enable_position_increments"@);
    lemma_lookup_concat(m0 + m1 + m2 + m3 + m4 + m5 + m6 + m7 + m8 + m9 + m10 + m11 + m12 + m13 + m14, m15, "enable_position_increments"@);
    lemma_lookup_concat(m0 + m1 + m2 + m3 + m4 + m5 + m6 + m7 + m8 + m9 + m10 + m11 + m12 + m13 + m14 + m15, m16, "enable_position_increments"@);
    lemma_lookup_concat(m0 + m1 + m2 + m3 + m4 + m5 + m6 + m7 + m8 + m9 + m10 + m11 + m12 + m13 + m14 + m15 + m16, m17, "enable_position_increments"@);
    lemma_lookup_concat(m0 + m1 + m2 + m3 + m4 + m5 + m6 + m7 + m8 + m9 + m10 + m11 + m12 + m13 + m14 + m15 + m16 + m17, m18, "enable_position_increments"@);
    lemma_lookup_concat(m0 + m1 + m2 + m3 + m4 + m5 + m6 + m7 + m8 + m9 + m10 + m11 + m12 + m13 + m14 + m15 + m16 + m17 + m18, m19, "enable_position_increments"@);
    lemma_lookup_concat(m0 + m1 + m2 + m3 + m4 + m5 + m6 + m7 + m8 + m9 + m10 + m11 + m12 + m13 + m14 + m15 + m16 + m17 + m18 + m19, m20, "enable_position_increments"@);
    lemma_lookup_concat(m0 + m1 + m2 + m3 + m4 + m5 + m6 + m7 + m8 + m9 + m10 + m11 + m12 + m13 + m14 + m15 + m16 + m17 + m18 + m19 + m20, m21, "enable_position_increments"@);
    assert(query_string_members(v) =~= m0 + m1 + m2 + m3 + m4 + m5 + m6 + m7 + m8 + m9 + m10 + m11 + m12 + m13 + m14 + m15 + m16 + m17 + m18 + m19 + m20 + m21);
}

proof fn lemma_query_string_lookup_fuzziness(v: QueryStringQueryView)
    ensures
        lookup(query_string_members(v), "fuzziness"@) == match v.fuzziness { Some(t) => Some(JsonValue::Str(t)), None => None::<JsonValue> },
{
    lemma_query_string_keys();
    let m0 = seq![("query"@, JsonValue::Str(v.query))];
    let m1 = strs_member("fields"@, v.fields);
    let m2 = opt_str_member("default_field"@, v.default_field);
    let m3 = bool_member("allow_leading_wildcard"@, v.allow_leading_wildcard);
    let m4 = bool_member("analyze_wildcard"@, v.analyze_wildcard);
    let m5 = opt_str_member("analyzer"@, v.analyzer);
    let m6 = opt_str_member("quote_analyzer"@, v.quote_analyzer);
    let m7 = bool_member("auto_generate_synonyms_phrase_query"@, v.auto_generate_synonyms_phrase_query);
    let m8 = num_member("boost"@, v.boost);
    let m9 = seq![("default_operator"@, JsonValue::Str(query_string_boolean_operator_name(v.default_operator)))];
    let m10 = bool_member("enable_position_increments"@, v.enable_position_increments);
    let m11 = opt_str_member("fuzziness"@, v.fuzziness);
    let m12 = i32_member("fuzzy_max_expansions"@, v.fuzzy_max_expansions);
    let m13 = i32_member("fuzzy_prefix_length"@, v.fuzzy_prefix_length);
    let m14 = bool_member("fuzzy_transpositions"@, v.fuzzy_transpositions);
    let m15 = bool_member("lenient"@, v.lenient);
    let m16 = i32_member("max_determinized_states"@, v.max_determinized_states);
    let m17 = opt_str_member("minimum_should_match"@, v.minimum_should_match);
    let m18 = i32_member("phrase_slop"@, v.phrase_slop);
    let m19 = opt_str_member("quote_field_suffix"@, v.quote_field_suffix);
    let m20 = opt_str_member("rewrite"@, v.rewrite);
    let m21 = opt_str_member("time_zone"@, v.time_zone);
    lemma_lookup_one("query"@, JsonValue::Str(v.query), "fuzziness"@);
    lemma_strs_member("fields"@, v.fields, "fuzziness"@);
    lemma_opt_str_member("default_field"@, v.default_field, "fuzziness"@);
    lemma_lookup_one("allow_leading_wildcard"@, JsonValue::Bool(v.allow_leading_wildcard), "fuzziness"@);
    lemma_lookup_one("analyze_wildcard"@, JsonValue::Bool(v.analyze_wildcard), "fuzziness"@);
    lemma_opt_str_member("analyzer"@, v.analyzer, "fuzziness"@);
    lemma_opt_str_member("quote_analyzer"@, v.quote_analyzer, "fuzziness"@);
    lemma_lookup_one("auto_generate_synonyms_phrase_query"@, JsonValue::Bool(v.auto_generate_synonyms_phrase_query), "fuzziness"@);
    lemma_lookup_one("boost"@, JsonValue::Number(v.boost), "fuzziness"@);
    lemma_lookup_one("default_operator"@, JsonValue::Str(query_string_boolean_operator_name(v.default_operator)), "fuzziness"@);
    lemma_lookup_one("enable_position_increments"@, JsonValue::Bool(v.enable_position_increments), "fuzziness"@);
    lemma_opt_str_member("fuzziness"@, v.fuzziness, "fuzziness"@);
    lemma_lookup_one("fuzzy_max_expansions"@, JsonValue::Number(int_text(v.fuzzy_max_expansions as int)), "fuzziness"@);
    lemma_lookup_one("fuzzy_prefix_length"@, JsonValue::Number(int_text(v.fuzzy_prefix_length as int)), "fuzziness"@);
    lemma_lookup_one("fuzzy_transpositions"@, JsonValue::Bool(v.fuzzy_transpositions), "fuzziness"@);
    lemma_lookup_one("lenient"@, JsonValue::Bool(v.lenient), "fuzziness"@);
    lemma_lookup_one("max_determinized_states"@, JsonValue::Number(int_text(v.max_determinized_states as int)), "fuzziness"@);
    lemma_opt_str_member("minimum_should_match"@, v.minimum_should_match, "fuzziness"@);
    lemma_lookup_one("phrase_slop"@, JsonValue::Number(int_text(v.phrase_slop as int)), "fuzziness"@);
    lemma_opt_str_member("quote_field_suffix"@, v.quote_field_suffix, "fuzziness"@);
    lemma_opt_str_member("rewrite"@, v.rewrite, "fuzziness"@);
    lemma_opt_str_member("time_zone"@, v.time_zone, "fuzziness"@);
    lemma_lookup_concat(m0, m1, "fuzziness"@);
    lemma_lookup_concat(m0 + m1, m2, "fuzziness"@);
    lemma_lookup_concat(m0 + m1 + m2, m3, "fuzziness"@);
    lemma_lookup_concat(m0 + m1 + m2 + m3, m4, "fuzziness"@);
    lemma_lookup_concat(m0 + m1 + m2 + m3 + m4, m5, "fuzziness"@);
    lemma_lookup_concat(m0 + m1 + m2 + m3 + m4 + m5, m6, "fuzziness"@);
    lemma_lookup_concat(m0 + m1 + m2 + m3 + m4 + m5 + m6, m7, "fuzziness"@);
    lemma_lookup_concat(m0 + m1 + m2 + m3 + m4 + m5 + m6 + m7, m8, "fuzziness"@);
    lemma_lookup_concat(m0 + m1 + m2 + m3 + m4 + m5 + m6 + m7 + m8, m9, "fuzziness"@);
    lemma_lookup_concat(m0 + m1 + m2 + m3 + m4 + m5 + m6 + m7 + m8 + m9, m10, "fuzziness"@);
    lemma_lookup_concat(m0 + m1 + m2 + m3 + m4 + m5 + m6 + m7 + m8 + m9 + m10, m11, "fuzziness"@);
    lemma_lookup_concat(m0 + m1 + m2 + m3 + m4 + m5 + m6 + m7 + m8 + m9 + m10 + m11, m12, "fuzziness"@);
    lemma_lookup_concat(m0 + m1 + m2 + m3 + m4 + m5 + m6 + m7 + m8 + m9 + m10 + m11 + m12, m13, "fuzziness"@);
    lemma_lookup_concat(m0 + m1 + m2 + m3 + m4 + m5 + m6 + m7 + m8 + m9 + m10 + m11 + m12 + m13, m14, "fuzziness"@);
    lemma_lookup_concat(m0 + m1 + m2 + m3 + m4 + m5 + m6 + m7 + m8 + m9 + m10 + m11 + m12 + m13 + m14, m15, "fuzziness"@);
    lemma_lookup_concat(m0 + m1 + m2 + m3 + m4 + m5 + m6 + m7 + m8 + m9 + m10 + m11 + m12 + m13 + m14 + m15, m16, "fuzziness"@);
    lemma_lookup_concat(m0 + m1 + m2 + m3 + m4 + m5 + m6 + m7 + m8 + m9 + m10 + m11 + m12 + m13 + m14 + m15 + m16, m17, "fuzziness"@);
    lemma_lookup_concat(m0 + m1 + m2 + m3 + m4 + m5 + m6 + m7 + m8 + m9 + m10 + m11 + m12 + m13 + m14 + m15 + m16 + m17, m18, "fuzziness"@);
    lemma_lookup_concat(m0 + m1 + m2 + m3 + m4 + m5 + m6 + m7 + m8 + m9 + m10 + m11 + m12 + m13 + m14 + m15 + m16 + m17 + m18, m19, "fuzziness"@);
    lemma_lookup_concat(m0 + m1 + m2 + m3 + m4 + m5 + m6 + m7 + m8 + m9 + m10 + m11 + m12 + m13 + m14 + m15 + m16 + m17 + m18 + m19, m20, "fuzziness"@);
    lemma_lookup_concat(m0 + m1 + m2 + m3 + m4 + m5 + m6 + m7 + m8 + m9 + m10 + m11 + m12 + m13 + m14 + m15 + m16 + m17 + m18 + m19 + m20, m21, "fuzziness"@);
    assert(query_string_members(v) =~= m0 + m1 + m2 + m3 + m4 + m5 + m6 + m7 + m8 + m9 + m10 + m11 + m12 + m13 + m14 + m15 + m16 + m17 + m18 + m19 + m20 + m21);
}

proof fn lemma_query_string_lookup_fuzzy_max_expansions(v: QueryStringQueryView)
    ensures
        lookup(query_string_members(v), "fuzzy_max_expansions"@) == Some(JsonValue::Number(int_text(v.fuzzy_max_expansions as int))),
{
    lemma_query_string_keys();
    let m0 = seq![("query"@, JsonValue::Str(v.query))];
    let m1 = strs_member("fields"@, v.fields);
    let m2 = opt_str_member("default_field"@, v.default_field);
    let m3 = bool_member("allow_leading_wildcard"@, v.allow_leading_wildcard);
    let m4 = bool_member("analyze_wildcard"@, v.analyze_wildcard);
    let m5 = opt_str_member("analyzer"@, v.analyzer);
    let m6 = opt_str_member("quote_analyzer"@, v.quote_analyzer);
    let m7 = bool_member("auto_generate_synonyms_phrase_query"@, v.auto_generate_synonyms_phrase_query);
    let m8 = num_member("boost"@, v.boost);
    let m9 = seq![("default_operator"@, JsonValue::Str(query_string_boolean_operator_name(v.default_operator)))];
    let m10 = bool_member("enable_position_increments"@, v.enable_position_increments);
    let m11 = opt_str_member("fuzziness"@, v.fuzziness);
    let m12 = i32_member("fuzzy_max_expansions"@, v.fuzzy_max_expansions);
    let m13 = i32_member("fuzzy_prefix_length"@, v.fuzzy_prefix_length);
    let m14 = bool_member("fuzzy_transpositions"@, v.fuzzy_transpositions);
    let m15 = bool_member("lenient"@, v.lenient);
    let m16 = i32_member("max_determinized_states"@, v.max_determinized_states);
    let m17 = opt_str_member("minimum_should_match"@, v.minimum_should_match);
    let m18 = i32_member("phrase_slop"@, v.phrase_slop);
    let m19 = opt_str_member("quote_field_suffix"@, v.quote_field_suffix);
    let m20 = opt_str_member("rewrite"@, v.rewrite);
    let m21 = opt_str_member("time_zone"@, v.time_zone);
    lemma_lookup_one("query"@, JsonValue::Str(v.query), "fuzzy_max_expansions"@);
    lemma_strs_member("fields"@, v.fields, "fuzzy_max_expansions"@);
    lemma_opt_str_member("default_field"@, v.default_field, "fuzzy_max_expansions"@);
    lemma_lookup_one("allow_leading_wildcard"@, JsonValue::Bool(v.allow_leading_wildcard), "fuzzy_max_expansions"@);
    lemma_lookup_one("analyze_wildcard"@, JsonValue::Bool(v.analyze_wildcard), "fuzzy_max_expansions"@);
    lemma_opt_str_member("analyzer"@, v.analyzer, "fuzzy_max_expansions"@);
    lemma_opt_str_member("quote_analyzer"@, v.quote_analyzer, "fuzzy_max_expansions"@);
    lemma_lookup_one("auto_generate_synonyms_phrase_query"@, JsonValue::Bool(v.auto_generate_synonyms_phrase_query), "fuzzy_max_expansions"@);
    lemma_lookup_one("boost"@, JsonValue::Number(v.boost), "fuzzy_max_expansions"@);
    lemma_lookup_one("default_operator"@, JsonValue::Str(query_string_boolean_operator_name(v.default_operator)), "fuzzy_max_expansions"@);
    lemma_lookup_one("enable_position_increments"@, JsonValue::Bool(v.enable_position_increments), "fuzzy_max_expansions"@);
    lemma_opt_str_member("fuzziness"@, v.fuzziness, "fuzzy_max_expansions"@);
    lemma_lookup_one("fuzzy_max_expansions"@, JsonValue::Number(int_text(v.fuzzy_max_expansions as int)), "fuzzy_max_expansions"@);
    lemma_lookup_one("fuzzy_prefix_length"@, JsonValue::Number(int_text(v.fuzzy_prefix_length as int)), "fuzzy_max_expansions"@);
    lemma_lookup_one("fuzzy_transpositions"@, JsonValue::Bool(v.fuzzy_transpositions), "fuzzy_max_expansions"@);
    lemma_lookup_one("lenient"@, JsonValue::Bool(v.lenient), "fuzzy_max_expansions"@);
    lemma_lookup_one("max_determinized_states"@, JsonValue::Number(int_text(v.max_determinized_states as int)), "fuzzy_max_expansions"@);
    lemma_opt_str_member("minimum_should_match"@, v.minimum_should_match, "fuzzy_max_expansions"@);
    lemma_lookup_one("phrase_slop"@, JsonValue::Number(int_text(v.phrase_slop as int)), "fuzzy_max_expansions"@);
    lemma_opt_str_member("quote_field_suffix"@, v.quote_field_suffix, "fuzzy_max_expansions"@);
    lemma_opt_str_member("rewrite"@, v.rewrite, "fuzzy_max_expansions"@);
    lemma_opt_str_member("time_zone"@, v.time_zone, "fuzzy_max_expansions"@);
    lemma_lookup_concat(m0, m1, "fuzzy_max_expansions"@);
    lemma_lookup_concat(m0 + m1, m2, "fuzzy_max_expansions"@);
    lemma_lookup_concat(m0 + m1 + m2, m3, "fuzzy_max_expansions"@);
    lemma_lookup_concat(m0 + m1 + m2 + m3, m4, "fuzzy_max_expansions"@);
    lemma_lookup_concat(m0 + m1 + m2 + m3 + m4, m5, "fuzzy_max_expansions"@);
    lemma_lookup_concat(m0 + m1 + m2 + m3 + m4 + m5, m6, "fuzzy_max_expansions"@);
    lemma_lookup_concat(m0 + m1 + m2 + m3 + m4 + m5 + m6, m7, "fuzzy_max_expansions"@);
    lemma_lookup_concat(m0 + m1 + m2 + m3 + m4 + m5 + m6 + m7, m8, "fuzzy_max_expansions"@);
    lemma_lookup_concat(m0 + m1 + m2 + m3 + m4 + m5 + m6 + m7 + m8, m9, "fuzzy_max_expansions"@);
    lemma_lookup_concat(m0 + m1 + m2 + m3 + m4 + m5 + m6 + m7 + m8 + m9, m10, "fuzzy_max_expansions"@);
    lemma_lookup_concat(m0 + m1 + m2 + m3 + m4 + m5 + m6 + m7 + m8 + m9 + m10, m11, "fuzzy_max_expansions"@);
    lemma_lookup_concat(m0 + m1 + m2 + m3 + m4 + m5 + m6 + m7 + m8 + m9 + m10 + m11, m12, "fuzzy_max_expansions"@);
    lemma_lookup_concat(m0 + m1 + m2 + m3 + m4 + m5 + m6 + m7 + m8 + m9 + m10 + m11 + m12, m13, "fuzzy_max_expansions"@);
    lemma_lookup_concat(m0 + m1 + m2 + m3 + m4 + m5 + m6 + m7 + m8 + m9 + m10 + m11 + m12 + m13, m14, "fuzzy_max_expansions"@);
    lemma_lookup_concat(m0 + m1 + m2 + m3 + m4 + m5 + m6 + m7 + m8 + m9 + m10 + m11 + m12 + m13 + m14, m15, "fuzzy_max_expansions"@);
    lemma_lookup_concat(m0 + m1 + m2 + m3 + m4 + m5 + m6 + m7 + m8 + m9 + m10 + m11 + m12 + m13 + m14 + m15, m16, "fuzzy_max_expansions"@);
    lemma_lookup_concat(m0 + m1 + m2 + m3 + m4 + m5 + m6 + m7 + m8 + m9 + m10 + m11 + m12 + m13 + m14 + m15 + m16, m17, "fuzzy_max_expansions"@);
    lemma_lookup_concat(m0 + m1 + m2 + m3 + m4 + m5 + m6 + m7 + m8 + m9 + m10 + m11 + m12 + m13 + m14 + m15 + m16 + m17, m18, "fuzzy_max_expansions"@);
    lemma_lookup_concat(m0 + m1 + m2 + m3 + m4 + m5 + m6 + m7 + m8 + m9 + m10 + m11 + m12 + m13 + m14 + m15 + m16 + m17 + m18, m19, "fuzzy_max_expansions"@);
    lemma_lookup_concat(m0 + m1 + m2 + m3 + m4 + m5 + m6 + m7 + m8 + m9 + m10 + m11 + m12 + m13 + m14 + m15 + m16 + m17 + m18 + m19, m20, "fuzzy_max_expansions"@);
    lemma_lookup_concat(m0 + m1 + m2 + m3 + m4 + m5 + m6 + m7 + m8 + m9 + m10 + m11 + m12 + m13 + m14 + m15 + m16 + m17 + m18 + m19 + m20, m21, "fuzzy_max_expansions"@);
    assert(query_string_members(v) =~= m0 + m1 + m2 + m3 + m4 + m5 + m6 + m7 + m8 + m9 + m10 + m11 + m12 + m13 + m14 + m15 + m16 + m17 + m18 + m19 + m20 + m21);
}

proof fn lemma_query_string_lookup_fuzzy_prefix_length(v: QueryStringQueryView)
    ensures
        lookup(query_string_members(v), "fuzzy_prefix_length"@) == Some(JsonValue::Number(int_text(v.fuzzy_prefix_length as int))),
{
    lemma_query_string_keys();
    let m0 = seq![("query"@, JsonValue::Str(v.query))];
    let m1 = strs_member("fields"@, v.fields);
    let m2 = opt_str_member("default_field"@, v.default_field);
    let m3 = bool_member("allow_leading_wildcard"@, v.allow_leading_wildcard);
    let m4 = bool_member("analyze_wildcard"@, v.analyze_wildcard);
    let m5 = opt_str_member("analyzer"@, v.analyzer);
    let m6 = opt_str_member("quote_analyzer"@, v.quote_analyzer);
    let m7 = bool_member("auto_generate_synonyms_phrase_query"@, v.auto_generate_synonyms_phrase_query);
    let m8 = num_member("boost"@, v.boost);
    let m9 = seq![("default_operator"@, JsonValue::Str(query_string_boolean_operator_name(v.default_operator)))];
    let m10 = bool_member("enable_position_increments"@, v.enable_position_increments);
    let m11 = opt_str_member("fuzziness"@, v.fuzziness);
    let m12 = i32_member("fuzzy_max_expansions"@, v.fuzzy_max_expansions);
    let m13 = i32_member("fuzzy_prefix_length"@, v.fuzzy_prefix_length);
    let m14 = bool_member("fuzzy_transpositions"@, v.fuzzy_transpositions);
    let m15 = bool_member("lenient"@, v.lenient);
    let m16 = i32_member("max_determinized_states"@, v.max_determinized_states);
    let m17 = opt_str_member("minimum_should_match"@, v.minimum_should_match);
    let m18 = i32_member("phrase_slop"@, v.phrase_slop);
    let m19 = opt_str_member("quote_field_suffix"@, v.quote_field_suffix);
    let m20 = opt_str_member("rewrite"@, v.rewrite);
    let m21 = opt_str_member("time_zone"@, v.time_zone);
    lemma_lookup_one("query"@, JsonValue::Str(v.query), "fuzzy_prefix_length"@);
    lemma_strs_member("fields"@, v.fields, "fuzzy_prefix_length"@);
    lemma_opt_str_member("default_field"@, v.default_field, "fuzzy_prefix_length"@);
    lemma_lookup_one("allow_leading_wildcard"@, JsonValue::Bool(v.allow_leading_wildcard), "fuzzy_prefix_length"@);
    lemma_lookup_one("analyze_wildcard"@, JsonValue::Bool(v.analyze_wildcard), "fuzzy_prefix_length"@);
    lemma_opt_str_member("analyzer"@, v.analyzer, "fuzzy_prefix_length"@);
    lemma_opt_str_member("quote_analyzer"@, v.quote_analyzer, "fuzzy_prefix_length"@);
    lemma_lookup_one("auto_generate_synonyms_phrase_query"@, JsonValue::Bool(v.auto_generate_synonyms_phrase_query), "fuzzy_prefix_length"@);
    lemma_lookup_one("boost"@, JsonValue::Number(v.boost), "fuzzy_prefix_length"@);
    lemma_lookup_one("default_operator"@, JsonValue::Str(query_string_boolean_operator_name(v.default_operator)), "fuzzy_prefix_length"@);
    lemma_lookup_one("enable_position_increments"@, JsonValue::Bool(v.enable_position_increments), "fuzzy_prefix_length"@);
    lemma_opt_str_member("fuzziness"@, v.fuzziness, "fuzzy_prefix_length"@);
    lemma_lookup_one("fuzzy_max_expansions"@, JsonValue::Number(int_text(v.fuzzy_max_expansions as int)), "fuzzy_prefix_length"@);
    lemma_lookup_one("fuzzy_prefix_length"@, JsonValue::Number(int_text(v.fuzzy_prefix_length as int)), "fuzzy_prefix_length"@);
    lemma_lookup_one("fuzzy_transpositions"@, JsonValue::Bool(v.fuzzy_transpositions), "fuzzy_prefix_length"@);
    lemma_lookup_one("lenient"@, JsonValue::Bool(v.lenient), "fuzzy_prefix_length"@);
    lemma_lookup_one("max_determinized_states"@, JsonValue::Number(int_text(v.max_determinized_states as int)), "fuzzy_prefix_length"@);
    lemma_opt_str_member("minimum_should_match"@, v.minimum_should_match, "fuzzy_prefix_length"@);
    lemma_lookup_one("phrase_slop"@, JsonValue::Number(int_text(v.phrase_slop as int)), "fuzzy_prefix_length"@);
    lemma_opt_str_member("quote_field_suffix"@, v.quote_field_suffix, "fuzzy_prefix_length"@);
    lemma_opt_str_member("rewrite"@, v.rewrite, "fuzzy_prefix_length"@);
    lemma_opt_str_member("time_zone"@, v.time_zone, "fuzzy_prefix_length"@);
    lemma_lookup_concat(m0, m1, "fuzzy_prefix_length"@);
    lemma_lookup_concat(m0 + m1, m2, "fuzzy_prefix_length"@);
    lemma_lookup_concat(m0 + m1 + m2, m3, "fuzzy_prefix_length"@);
    lemma_lookup_concat(m0 + m1 + m2 + m3, m4, "fuzzy_prefix_length"@);
    lemma_lookup_concat(m0 + m1 + m2 + m3 + m4, m5, "fuzzy_prefix_length"@);
    lemma_lookup_concat(m0 + m1 + m2 + m3 + m4 + m5, m6, "fuzzy_prefix_length"@);
    lemma_lookup_concat(m0 + m1 + m2 + m3 + m4 + m5 + m6, m7, "fuzzy_prefix_length"@);
    lemma_lookup_concat(m0 + m1 + m2 + m3 + m4 + m5 + m6 + m7, m8, "fuzzy_prefix_length"@);
    lemma_lookup_concat(m0 + m1 + m2 + m3 + m4 + m5 + m6 + m7 + m8, m9, "fuzzy_prefix_length"@);
    lemma_lookup_concat(m0 + m1 + m2 + m3 + m4 + m5 + m6 + m7 + m8 + m9, m10, "fuzzy_prefix_length"@);
    lemma_lookup_concat(m0 + m1 + m2 + m3 + m4 + m5 + m6 + m7 + m8 + m9 + m10, m11, "fuzzy_prefix_length"@);
    lemma_lookup_concat(m0 + m1 + m2 + m3 + m4 + m5 + m6 + m7 + m8 + m9 + m10 + m11, m12, "fuzzy_prefix_length"@);
    lemma_lookup_concat(m0 + m1 + m2 + m3 + m4 + m5 + m6 + m7 + m8 + m9 + m10 + m11 + m12, m13, "fuzzy_prefix_length"@);
    lemma_lookup_concat(m0 + m1 + m2 + m3 + m4 + m5 + m6 + m7 + m8 + m9 + m10 + m11 + m12 + m13, m14, "fuzzy_prefix_length"@);
    lemma_lookup_concat(m0 + m1 + m2 + m3 + m4 + m5 + m6 + m7 + m8 + m9 + m10 + m11 + m12 + m13 + m14, m15, "fuzzy_prefix_length"@);
    lemma_lookup_concat(m0 + m1 + m2 + m3 + m4 + m5 + m6 + m7 + m8 + m9 + m10 + m11 + m12 + m13 + m14 + m15, m16, "fuzzy_prefix_length"@);
    lemma_lookup_concat(m0 + m1 + m2 + m3 + m4 + m5 + m6 + m7 + m8 + m9 + m10 + m11 + m12 + m13 + m14 + m15 + m16, m17, "fuzzy_prefix_length"@);
    lemma_lookup_concat(m0 + m1 + m2 + m3 + m4 + m5 + m6 + m7 + m8 + m9 + m10 + m11 + m12 + m13 + m14 + m15 + m16 + m17, m18, "fuzzy_prefix_length"@);
    lemma_lookup_concat(m0 + m1 + m2 + m3 + m4 + m5 + m6 + m7 + m8 + m9 + m10 + m11 + m12 + m13 + m14 + m15 + m16 + m17 + m18, m19, "fuzzy_prefix_length"@);
    lemma_lookup_concat(m0 + m1 + m2 + m3 + m4 + m5 + m6 + m7 + m8 + m9 + m10 + m11 + m12 + m13 + m14 + m15 + m16 + m17 + m18 + m19, m20, "fuzzy_prefix_length"@);
    lemma_lookup_concat(m0 + m1 + m2 + m3 + m4 + m5 + m6 + m7 + m8 + m9 + m10 + m11 + m12 + m13 + m14 + m15 + m16 + m17 + m18 + m19 + m20, m21, "fuzzy_prefix_length"@);
    assert(query_string_members(v) =~= m0 + m1 + m2 + m3 + m4 + m5 + m6 + m7 + m8 + m9 + m10 + m11 + m12 + m13 + m14 + m15 + m16 + m17 + m18 + m19 + m20 + m21);
}

proof fn lemma_query_string_lookup_fuzzy_transpositions(v: QueryStringQueryView)
    ensures
        lookup(query_string_members(v), "fuzzy_transpositions"@) == Some(JsonValue::Bool(v.fuzzy_transpositions)),
{
    lemma_query_string_keys();
    let m0 = seq![("query"@, JsonValue::Str(v.query))];
    let m1 = strs_member("fields"@, v.fields);
    let m2 = opt_str_member("default_field"@, v.default_field);
    let m3 = bool_member("allow_leading_wildcard"@, v.allow_leading_wildcard);
    let m4 = bool_member("analyze_wildcard"@, v.analyze_wildcard);
    let m5 = opt_str_member("analyzer"@, v.analyzer);
    let m6 = opt_str_member("quote_analyzer"@, v.quote_analyzer);
    let m7 = bool_member("auto_generate_synonyms_phrase_query"@, v.auto_generate_synonyms_phrase_query);
    let m8 = num_member("boost"@, v.boost);
    let m9 = seq![("default_operator"@, JsonValue::Str(query_string_boolean_operator_name(v.default_operator)))];
    let m10 = bool_member("enable_position_increments"@, v.enable_position_increments);
    let m11 = opt_str_member("fuzziness"@, v.fuzziness);
    let m12 = i32_member("fuzzy_max_expansions"@, v.fuzzy_max_expansions);
    let m13 = i32_member("fuzzy_prefix_length"@, v.fuzzy_prefix_length);
    let m14 = bool_member("fuzzy_transpositions"@, v.fuzzy_transpositions);
    let m15 = bool_member("lenient"@, v.lenient);
    let m16 = i32_member("max_determinized_states"@, v.max_determinized_states);
    let m17 = opt_str_member("minimum_should_match"@, v.minimum_should_match);
    let m18 = i32_member("phrase_slop"@, v.phrase_slop);
    let m19 = opt_str_member("quote_field_suffix"@, v.quote_field_suffix);
    let m20 = opt_str_member("rewrite"@, v.rewrite);
    let m21 = opt_str_member("time_zone"@, v.time_zone);
    lemma_lookup_one("query"@, JsonValue::Str(v.query), "fuzzy_transpositions"@);
    lemma_strs_member("fields"@, v.fields, "fuzzy_transpositions"@);
    lemma_opt_str_member("default_field"@, v.default_field, "fuzzy_transpositions"@);
    lemma_lookup_one("allow_leading_wildcard"@, JsonValue::Bool(v.allow_leading_wildcard), "fuzzy_transpositions"@);
    lemma_lookup_one("analyze_wildcard"@, JsonValue::Bool(v.analyze_wildcard), "fuzzy_transpositions"@);
    lemma_opt_str_member("analyzer"@, v.analyzer, "fuzzy_transpositions"@);
    lemma_opt_str_member("quote_analyzer"@, v.quote_analyzer, "fuzzy_transpositions"@);
    lemma_lookup_one("auto_generate_synonyms_phrase_query"@, JsonValue::Bool(v.auto_generate_synonyms_phrase_query), "fuzzy_transpositions"@);
    lemma_lookup_one("boost"@, JsonValue::Number(v.boost), "fuzzy_transpositions"@);
    lemma_lookup_one("default_operator"@, JsonValue::Str(query_string_boolean_operator_name(v.default_operator)), "fuzzy_transpositions"@);
    lemma_lookup_one("enable_position_increments"@, JsonValue::Bool(v.enable_position_increments), "fuzzy_transpositions"@);
    lemma_opt_str_member("fuzziness"@, v.fuzziness, "fuzzy_transpositions"@);
    lemma_lookup_one("fuzzy_max_expansions"@, JsonValue::Number(int_text(v.fuzzy_max_expansions as int)), "fuzzy_transpositions"@);
    lemma_lookup_one("fuzzy_prefix_length"@, JsonValue::Number(int_text(v.fuzzy_prefix_length as int)), "fuzzy_transpositions"@);
    lemma_lookup_one("fuzzy_transpositions"@, JsonValue::Bool(v.fuzzy_transpositions), "fuzzy_transpositions"@);
    lemma_lookup_one("lenient"@, JsonValue::Bool(v.lenient), "fuzzy_transpositions"@);
    lemma_lookup_one("max_determinized_states"@, JsonValue::Number(int_text(v.max_determinized_states as int)), "fuzzy_transpositions"@);
    lemma_opt_str_member("minimum_should_match"@, v.minimum_should_match, "fuzzy_transpositions"@);
    lemma_lookup_one("phrase_slop"@, JsonValue::Number(int_text(v.phrase_slop as int)), "fuzzy_transpositions"@);
    lemma_opt_str_member("quote_field_suffix"@, v.quote_field_suffix, "fuzzy_transpositions"@);
    lemma_opt_str_member("rewrite"@, v.rewrite, "fuzzy_transpositions"@);
    lemma_opt_str_member("time_zone"@, v.time_zone, "fuzzy_transpositions"@);
    lemma_lookup_concat(m0, m1, "fuzzy_transpositions"@);
    lemma_lookup_concat(m0 + m1, m2, "fuzzy_transpositions"@);
    lemma_lookup_concat(m0 + m1 + m2, m3, "fuzzy_transpositions"@);
    lemma_lookup_concat(m0 + m1 + m2 + m3, m4, "fuzzy_transpositions"@);
    lemma_lookup_concat(m0 + m1 + m2 + m3 + m4, m5, "fuzzy_transpositions"@);
    lemma_lookup_concat(m0 + m1 + m2 + m3 + m4 + m5, m6, "fuzzy_transpositions"@);
    lemma_lookup_concat(m0 + m1 + m2 + m3 + m4 + m5 + m6, m7, "fuzzy_transpositions"@);
    lemma_lookup_concat(m0 + m1 + m2 + m3 + m4 + m5 + m6 + m7, m8, "fuzzy_transpositions"@);
    lemma_lookup_concat(m0 + m1 + m2 + m3 + m4 + m5 + m6 + m7 + m8, m9, "fuzzy_transpositions"@);
    lemma_lookup_concat(m0 + m1 + m2 + m3 + m4 + m5 + m6 + m7 + m8 + m9, m10, "fuzzy_transpositions"@);
    lemma_lookup_concat(m0 + m1 + m2 + m3 + m4 + m5 + m6 + m7 + m8 + m9 + m10, m11, "fuzzy_transpositions"@);
    lemma_lookup_concat(m0 + m1 + m2 + m3 + m4 + m5 + m6 + m7 + m8 + m9 + m10 + m11, m12, "fuzzy_transpositions"@);
    lemma_lookup_concat(m0 + m1 + m2 + m3 + m4 + m5 + m6 + m7 + m8 + m9 + m10 + m11 + m12, m13, "fuzzy_transpositions"@);
    lemma_lookup_concat(m0 + m1 + m2 + m3 + m4 + m5 + m6 + m7 + m8 + m9 + m10 + m11 + m12 + m13, m14, "fuzzy_transpositions"@);
    lemma_lookup_concat(m0 + m1 + m2 + m3 + m4 + m5 + m6 + m7 + m8 + m9 + m10 + m11 + m12 + m13 + m14, m15, "fuzzy_transpositions"@);
    lemma_lookup_concat(m0 + m1 + m2 + m3 + m4 + m5 + m6 + m7 + m8 + m9 + m10 + m11 + m12 + m13 + m14 + m15, m16, "fuzzy_transpositions"@);
    lemma_lookup_concat(m0 + m1 + m2 + m3 + m4 + m5 + m6 + m7 + m8 + m9 + m10 + m11 + m12 + m13 + m14 + m15 + m16, m17, "fuzzy_transpositions"@);
    lemma_lookup_concat(m0 + m1 + m2 + m3 + m4 + m5 + m6 + m7 + m8 + m9 + m10 + m11 + m12 + m13 + m14 + m15 + m16 + m17, m18, "fuzzy_transpositions"@);
    lemma_lookup_concat(m0 + m1 + m2 + m3 + m4 + m5 + m6 + m7 + m8 + m9 + m10 + m11 + m12 + m13 + m14 + m15 + m16 + m17 + m18, m19, "fuzzy_transpositions"@);
    lemma_lookup_concat(m0 + m1 + m2 + m3 + m4 + m5 + m6 + m7 + m8 + m9 + m10 + m11 + m12 + m13 + m14 + m15 + m16 + m17 + m18 + m19, m20, "fuzzy_transpositions"@);
    lemma_lookup_concat(m0 + m1 + m2 + m3 + m4 + m5 + m6 + m7 + m8 + m9 + m10 + m11 + m12 + m13 + m14 + m15 + m16 + m17 + m18 + m19 + m20, m21, "fuzzy_transpositions"@);
    assert(query_string_members(v) =~= m0 + m1 + m2 + m3 + m4 + m5 + m6 + m7 + m8 + m9 + m10 + m11 + m12 + m13 + m14 + m15 + m16 + m17 + m18 + m19 + m20 + m21);
}

proof fn lemma_query_string_lookup_lenient(v: QueryStringQueryView)
    ensures
        lookup(query_string_members(v), "lenient"@) == Some(JsonValue::Bool(v.lenient)),
{
    lemma_query_string_keys();
    let m0 = seq![("query"@, JsonValue::Str(v.query))];
    let m1 = strs_member("fields"@, v.fields);
    let m2 = opt_str_member("default_field"@, v.default_field);
    let m3 = bool_member("allow_leading_wildcard"@, v.allow_leading_wildcard);
    let m4 = bool_member("analyze_wildcard"@, v.analyze_wildcard);
    let m5 = opt_str_member("analyzer"@, v.analyzer);
    let m6 = opt_str_member("quote_analyzer"@, v.quote_analyzer);
    let m7 = bool_member("auto_generate_synonyms_phrase_query"@, v.auto_generate_synonyms_phrase_query);
    let m8 = num_member("boost"@, v.boost);
    let m9 = seq![("default_operator"@, JsonValue::Str(query_string_boolean_operator_name(v.default_operator)))];
    let m10 = bool_member("enable_position_increments"@, v.enable_position_increments);
    let m11 = opt_str_member("fuzziness"@, v.fuzziness);
    let m12 = i32_member("fuzzy_max_expansions"@, v.fuzzy_max_expansions);
    let m13 = i32_member("fuzzy_prefix_length"@, v.fuzzy_prefix_length);
    let m14 = bool_member("fuzzy_transpositions"@, v.fuzzy_transpositions);
    let m15 = bool_member("lenient"@, v.lenient);
    let m16 = i32_member("max_determinized_states"@, v.max_determinized_states);
    let m17 = opt_str_member("minimum_should_match"@, v.minimum_should_match);
    let m18 = i32_member("phrase_slop"@, v.phrase_slop);
    let m19 = opt_str_member("quote_field_suffix"@, v.quote_field_suffix);
    let m20 = opt_str_member("rewrite"@, v.rewrite);
    let m21 = opt_str_member("time_zone"@, v.time_zone);
    lemma_lookup_one("query"@, JsonValue::Str(v.query), "lenient"@);
    lemma_strs_member("fields"@, v.fields, "lenient"@);
    lemma_opt_str_member("default_field"@, v.default_field, "lenient"@);
    lemma_lookup_one("allow_leading_wildcard"@, JsonValue::Bool(v.allow_leading_wildcard), "lenient"@);
    lemma_lookup_one("analyze_wildcard"@, JsonValue::Bool(v.analyze_wildcard), "lenient"@);
    lemma_opt_str_member("analyzer"@, v.analyzer, "lenient"@);
    lemma_opt_str_member("quote_analyzer"@, v.quote_analyzer, "lenient"@);
    lemma_lookup_one("auto_generate_synonyms_phrase_query"@, JsonValue::Bool(v.auto_generate_synonyms_phrase_query), "lenient"@);
    lemma_lookup_one("boost"@, JsonValue::Number(v.boost), "lenient"@);
    lemma_lookup_one("default_operator"@, JsonValue::Str(query_string_boolean_operator_name(v.default_operator)), "lenient"@);
    lemma_lookup_one("enable_position_increments"@, JsonValue::Bool(v.enable_position_increments), "lenient"@);
    lemma_opt_str_member("fuzziness"@, v.fuzziness, "lenient"@);
    lemma_lookup_one("fuzzy_max_expansions"@, JsonValue::Number(int_text(v.fuzzy_max_expansions as int)), "lenient"@);
    lemma_lookup_one("fuzzy_prefix_length"@, JsonValue::Number(int_text(v.fuzzy_prefix_length as int)), "lenient"@);
    lemma_lookup_one("fuzzy_transpositions"@, JsonValue::Bool(v.fuzzy_transpositions), "lenient"@);
    lemma_lookup_one("lenient"@, JsonValue::Bool(v.lenient), "lenient"@);
    lemma_lookup_one("max_determinized_states"@, JsonValue::Number(int_text(v.max_determinized_states as int)), "lenient"@);
    lemma_opt_str_member("minimum_should_match"@, v.minimum_should_match, "lenient"@);
    lemma_lookup_one("phrase_slop"@, JsonValue::Number(int_text(v.phrase_slop as int)), "lenient"@);
    lemma_opt_str_member("quote_field_suffix"@, v.quote_field_suffix, "lenient"@);
    lemma_opt_str_member("rewrite"@, v.rewrite, "lenient"@);
    lemma_opt_str_member("time_zone"@, v.time_zone, "lenient"@);
    lemma_lookup_concat(m0, m1, "lenient"@);
    lemma_lookup_concat(m0 + m1, m2, "lenient"@);
    lemma_lookup_concat(m0 + m1 + m2, m3, "lenient"@);
    lemma_lookup_concat(m0 + m1 + m2 + m3, m4, "lenient"@);
    lemma_lookup_concat(m0 + m1 + m2 + m3 + m4, m5, "lenient"@);
    lemma_lookup_concat(m0 + m1 + m2 + m3 + m4 + m5, m6, "lenient"@);
    lemma_lookup_concat(m0 + m1 + m2 + m3 + m4 + m5 + m6, m7, "lenient"@);
    lemma_lookup_concat(m0 + m1 + m2 + m3 + m4 + m5 + m6 + m7, m8, "lenient"@);
    lemma_lookup_concat(m0 + m1 + m2 + m3 + m4 + m5 + m6 + m7 + m8, m9, "lenient"@);
    lemma_lookup_concat(m0 + m1 + m2 + m3 + m4 + m5 + m6 + m7 + m8 + m9, m10, "lenient"@);
    lemma_lookup_concat(m0 + m1 + m2 + m3 + m4 + m5 + m6 + m7 + m8 + m9 + m10, m11, "lenient"@);
    lemma_lookup_concat(m0 + m1 + m2 + m3 + m4 + m5 + m6 + m7 + m8 + m9 + m10 + m11, m12, "lenient"@);
    lemma_lookup_concat(m0 + m1 + m2 + m3 + m4 + m5 + m6 + m7 + m8 + m9 + m10 + m11 + m12, m13, "lenient"@);
    lemma_lookup_concat(m0 + m1 + m2 + m3 + m4 + m5 + m6 + m7 + m8 + m9 + m10 + m11 + m12 + m13, m14, "lenient"@);
    lemma_lookup_concat(m0 + m1 + m2 + m3 + m4 + m5 + m6 + m7 + m8 + m9 + m10 + m11 + m12 + m13 + m14, m15, "lenient"@);
    lemma_lookup_concat(m0 + m1 + m2 + m3 + m4 + m5 + m6 + m7 + m8 + m9 + m10 + m11 + m12 + m13 + m14 + m15, m16, "lenient"@);
    lemma_lookup_concat(m0 + m1 + m2 + m3 + m4 + m5 + m6 + m7 + m8 + m9 + m10 + m11 + m12 + m13 + m14 + m15 + m16, m17, "lenient"@);
    lemma_lookup_concat(m0 + m1 + m2 + m3 + m4 + m5 + m6 + m7 + m8 + m9 + m10 + m11 + m12 + m13 + m14 + m15 + m16 + m17, m18, "lenient"@);
    lemma_lookup_concat(m0 + m1 + m2 + m3 + m4 + m5 + m6 + m7 + m8 + m9 + m10 + m11 + m12 + m13 + m14 + m15 + m16 + m17 + m18, m19, "lenient"@);
    lemma_lookup_concat(m0 + m1 + m2 + m3 + m4 + m5 + m6 + m7 + m8 + m9 + m10 + m11 + m12 + m13 + m14 + m15 + m16 + m17 + m18 + m19, m20, "lenient"@);
    lemma_lookup_concat(m0 + m1 + m2 + m3 + m4 + m5 + m6 + m7 + m8 + m9 + m10 + m11 + m12 + m13 + m14 + m15 + m16 + m17 + m18 + m19 + m20, m21, "lenient"@);
    assert(query_string_members(v) =~= m0 + m1 + m2 + m3 + m4 + m5 + m6 + m7 + m8 + m9 + m10 + m11 + m12 + m13 + m14 + m15 + m16 + m17 + m18 + m19 + m20 + m21);
}

proof fn lemma_query_string_lookup_max_determinized_states(v: QueryStringQueryView)
    ensures
        lookup(query_string_members(v), "max_determinized_states"@) == Some(JsonValue::Number(int_text(v.max_determinized_states as int))),
{
    lemma_query_string_keys();
    let m0 = seq![("query"@, JsonValue::Str(v.query))];
    let m1 = strs_member("fields"@, v.fields);
    let m2 = opt_str_member("default_field"@, v.default_field);
    let m3 = bool_member("allow_leading_wildcard"@, v.allow_leading_wildcard);
    let m4 = bool_member("analyze_wildcard"@, v.analyze_wildcard);
    let m5 = opt_str_member("analyzer"@, v.analyzer);
    let m6 = opt_str_member("quote_analyzer"@, v.quote_analyzer);
    let m7 = bool_member("auto_generate_synonyms_phrase_query"@, v.auto_generate_synonyms_phrase_query);
    let m8 = num_member("boost"@, v.boost);
    let m9 = seq![("default_operator"@, JsonValue::Str(query_string_boolean_operator_name(v.default_operator)))];
    let m10 = bool_member("enable_position_increments"@, v.enable_position_increments);
    let m11 = opt_str_member("fuzziness"@, v.fuzziness);
    let m12 = i32_member("fuzzy_max_expansions"@, v.fuzzy_max_expansions);
    let m13 = i32_member("fuzzy_prefix_length"@, v.fuzzy_prefix_length);
    let m14 = bool_member("fuzzy_transpositions"@, v.fuzzy_transpositions);
    let m15 = bool_member("lenient"@, v.lenient);
    let m16 = i32_member("max_determinized_states"@, v.max_determinized_states);
    let m17 = opt_str_member("minimum_should_match"@, v.minimum_should_match);
    let m18 = i32_member("phrase_slop"@, v.phrase_slop);
    let m19 = opt_str_member("quote_field_suffix"@, v.quote_field_suffix);
    let m20 = opt_str_member("rewrite"@, v.rewrite);
    let m21 = opt_str_member("time_zone"@, v.time_zone);
    lemma_lookup_one("query"@, JsonValue::Str(v.query), "max_determinized_states"@);
    lemma_strs_member("fields"@, v.fields, "max_determinized_states"@);
    lemma_opt_str_member("default_field"@, v.default_field, "max_determinized_states"@);
    lemma_lookup_one("allow_leading_wildcard"@, JsonValue::Bool(v.allow_leading_wildcard), "max_determinized_states"@);
    lemma_lookup_one("analyze_wildcard"@, JsonValue::Bool(v.analyze_wildcard), "max_determinized_states"@);
    lemma_opt_str_member("analyzer"@, v.analyzer, "max_determinized_states"@);
    lemma_opt_str_member("quote_analyzer"@, v.quote_analyzer, "max_determinized_states"@);
    lemma_lookup_one("auto_generate_synonyms_phrase_query"@, JsonValue::Bool(v.auto_generate_synonyms_phrase_query), "max_determinized_states"@);
    lemma_lookup_one("boost"@, JsonValue::Number(v.boost), "max_determinized_states"@);
    lemma_lookup_one("default_operator"@, JsonValue::Str(query_string_boolean_operator_name(v.default_operator)), "max_determinized_states"@);
    lemma_lookup_one("enable_position_increments"@, JsonValue::Bool(v.enable_position_increments), "max_determinized_states"@);
    lemma_opt_str_member("fuzziness"@, v.fuzziness, "max_determinized_states"@);
    lemma_lookup_one("fuzzy_max_expansions"@, JsonValue::Number(int_text(v.fuzzy_max_expansions as int)), "max_determinized_states"@);
    lemma_lookup_one("fuzzy_prefix_length"@, JsonValue::Number(int_text(v.fuzzy_prefix_length as int)), "max_determinized_states"@);
    lemma_lookup_one("fuzzy_transpositions"@, JsonValue::Bool(v.fuzzy_transpositions), "max_determinized_states"@);
    lemma_lookup_one("lenient"@, JsonValue::Bool(v.lenient), "max_determinized_states"@);
    lemma_lookup_one("max_determinized_states"@, JsonValue::Number(int_text(v.max_determinized_states as int)), "max_determinized_states"@);
    lemma_opt_str_member("minimum_should_match"@, v.minimum_should_match, "max_determinized_states"@);
    lemma_lookup_one("phrase_slop"@, JsonValue::Number(int_text(v.phrase_slop as int)), "max_determinized_states"@);
    lemma_opt_str_member("quote_field_suffix"@, v.quote_field_suffix, "max_determinized_states"@);
    lemma_opt_str_member("rewrite"@, v.rewrite, "max_determinized_states"@);
    lemma_opt_str_member("time_zone"@, v.time_zone, "max_determinized_states"@);
    lemma_lookup_concat(m0, m1, "max_determinized_states"@);
    lemma_lookup_concat(m0 + m1, m2, "max_determinized_states"@);
    lemma_lookup_concat(m0 + m1 + m2, m3, "max_determinized_states"@);
    lemma_lookup_concat(m0 + m1 + m2 + m3, m4, "max_determinized_states"@);
    lemma_lookup_concat(m0 + m1 + m2 + m3 + m4, m5, "max_determinized_states"@);
    lemma_lookup_concat(m0 + m1 + m2 + m3 + m4 + m5, m6, "max_determinized_states"@);
    lemma_lookup_concat(m0 + m1 + m2 + m3 + m4 + m5 + m6, m7, "max_determinized_states"@);
    lemma_lookup_concat(m0 + m1 + m2 + m3 + m4 + m5 + m6 + m7, m8, "max_determinized_states"@);
    lemma_lookup_concat(m0 + m1 + m2 + m3 + m4 + m5 + m6 + m7 + m8, m9, "max_determinized_states"@);
    lemma_lookup_concat(m0 + m1 + m2 + m3 + m4 + m5 + m6 + m7 + m8 + m9, m10, "max_determinized_states"@);
    lemma_lookup_concat(m0 + m1 + m2 + m3 + m4 + m5 + m6 + m7 + m8 + m9 + m10, m11, "max_determinized_states"@);
    lemma_lookup_concat(m0 + m1 + m2 + m3 + m4 + m5 + m6 + m7 + m8 + m9 + m10 + m11, m12, "max_determinized_states"@);
    lemma_lookup_concat(m0 + m1 + m2 + m3 + m4 + m5 + m6 + m7 + m8 + m9 + m10 + m11 + m12, m13, "max_determinized_states"@);
    lemma_lookup_concat(m0 + m1 + m2 + m3 + m4 + m5 + m6 + m7 + m8 + m9 + m10 + m11 + m12 + m13, m14, "max_determinized_states"@);
    lemma_lookup_concat(m0 + m1 + m2 + m3 + m4 + m5 + m6 + m7 + m8 + m9 + m10 + m11 + m12 + m13 + m14, m15, "max_determinized_states"@);
    lemma_lookup_concat(m0 + m1 + m2 + m3 + m4 + m5 + m6 + m7 + m8 + m9 + m10 + m11 + m12 + m13 + m14 + m15, m16, "max_determinized_states"@);
    lemma_lookup_concat(m0 + m1 + m2 + m3 + m4 + m5 + m6 + m7 + m8 + m9 + m10 + m11 + m12 + m13 + m14 + m15 + m16, m17, "max_determinized_states"@);
    lemma_lookup_concat(m0 + m1 + m2 + m3 + m4 + m5 + m6 + m7 + m8 + m9 + m10 + m11 + m12 + m13 + m14 + m15 + m16 + m17, m18, "max_determinized_states"@);
    lemma_lookup_concat(m0 + m1 + m2 + m3 + m4 + m5 + m6 + m7 + m8 + m9 + m10 + m11 + m12 + m13 + m14 + m15 + m16 + m17 + m18, m19, "max_determinized_states"@);
    lemma_lookup_concat(m0 + m1 + m2 + m3 + m4 + m5 + m6 + m7 + m8 + m9 + m10 + m11 + m12 + m13 + m14 + m15 + m16 + m17 + m18 + m19, m20, "max_determinized_states"@);
    lemma_lookup_concat(m0 + m1 + m2 + m3 + m4 + m5 + m6 + m7 + m8 + m9 + m10 + m11 + m12 + m13 + m14 + m15 + m16 + m17 + m18 + m19 + m20, m21, "max_determinized_states"@);
    assert(query_string_members(v) =~= m0 + m1 + m2 + m3 + m4 + m5 + m6 + m7 + m8 + m9 + m10 + m11 + m12 + m13 + m14 + m15 + m16 + m17 + m18 + m19 + m20 + m21);
}

proof fn lemma_query_string_lookup_minimum_should_match(v: QueryStringQueryView)
    ensures
        lookup(query_string_members(v), "minimum_should_match"@) == match v.minimum_should_match { Some(t) => Some(JsonValue::Str(t)), None => None::<JsonValue> },
{
    lemma_query_string_keys();
    let m0 = seq![("query"@, JsonValue::Str(v.query))];
    let m1 = strs_member("fields"@, v.fields);
    let m2 = opt_str_member("default_field"@, v.default_field);
    let m3 = bool_member("allow_leading_wildcard"@, v.allow_leading_wildcard);
    let m4 = bool_member("analyze_wildcard"@, v.analyze_wildcard);
    let m5 = opt_str_member("analyzer"@, v.analyzer);
    let m6 = opt_str_member("quote_analyzer"@, v.quote_analyzer);
    let m7 = bool_member("auto_generate_synonyms_phrase_query"@, v.auto_generate_synonyms_phrase_query);
    let m8 = num_member("boost"@, v.boost);
    let m9 = seq![("default_operator"@, JsonValue::Str(query_string_boolean_operator_name(v.default_operator)))];
    let m10 = bool_member("enable_position_increments"@, v.enable_position_increments);
    let m11 = opt_str_member("fuzziness"@, v.fuzziness);
    let m12 = i32_member("fuzzy_max_expansions"@, v.fuzzy_max_expansions);
    let m13 = i32_member("fuzzy_prefix_length"@, v.fuzzy_prefix_length);
    let m14 = bool_member("fuzzy_transpositions"@, v.fuzzy_transpositions);
    let m15 = bool_member("lenient"@, v.lenient);
    let m16 = i32_member("max_determinized_states"@, v.max_determinized_states);
    let m17 = opt_str_member("minimum_should_match"@, v.minimum_should_match);
    let m18 = i32_member("phrase_slop"@, v.phrase_slop);
    let m19 = opt_str_member("quote_field_suffix"@, v.quote_field_suffix);
    let m20 = opt_str_member("rewrite"@, v.rewrite);
    let m21 = opt_str_member("time_zone"@, v.time_zone);
    lemma_lookup_one("query"@, JsonValue::Str(v.query), "minimum_should_match"@);
    lemma_strs_member("fields"@, v.fields, "minimum_should_match"@);
    lemma_opt_str_member("default_field"@, v.default_field, "minimum_should_match"@);
    lemma_lookup_one("allow_leading_wildcard"@, JsonValue::Bool(v.allow_leading_wildcard), "minimum_should_match"@);
    lemma_lookup_one("analyze_wildcard"@, JsonValue::Bool(v.analyze_wildcard), "minimum_should_match"@);
    lemma_opt_str_member("analyzer"@, v.analyzer, "minimum_should_match"@);
    lemma_opt_str_member("quote_analyzer"@, v.quote_analyzer, "minimum_should_match"@);
    lemma_lookup_one("auto_generate_synonyms_phrase_query"@, JsonValue::Bool(v.auto_generate_synonyms_phrase_query), "minimum_should_match"@);
    lemma_lookup_one("boost"@, JsonValue::Number(v.boost), "minimum_should_match"@);
    lemma_lookup_one("default_operator"@, JsonValue::Str(query_string_boolean_operator_name(v.default_operator)), "minimum_should_match"@);
    lemma_lookup_one("enable_position_increments"@, JsonValue::Bool(v.enable_position_increments), "minimum_should_match"@);
    lemma_opt_str_member("fuzziness"@, v.fuzziness, "minimum_should_match"@);
    lemma_lookup_one("fuzzy_max_expansions"@, JsonValue::Number(int_text(v.fuzzy_max_expansions as int)), "minimum_should_match"@);
    lemma_lookup_one("fuzzy_prefix_length"@, JsonValue::Number(int_text(v.fuzzy_prefix_length as int)), "minimum_should_match"@);
    lemma_lookup_one("fuzzy_transpositions"@, JsonValue::Bool(v.fuzzy_transpositions), "minimum_should_match"@);
    lemma_lookup_one("lenient"@, JsonValue::Bool(v.lenient), "minimum_should_match"@);
    lemma_lookup_one("max_determinized_states"@, JsonValue::Number(int_text(v.max_determinized_states as int)), "minimum_should_match"@);
    lemma_opt_str_member("minimum_should_match"@, v.minimum_should_match, "minimum_should_match"@);
    lemma_lookup_one("phrase_slop"@, JsonValue::Number(int_text(v.phrase_slop as int)), "minimum_should_match"@);
    lemma_opt_str_member("quote_field_suffix"@, v.quote_field_suffix, "minimum_should_match"@);
    lemma_opt_str_member("rewrite"@, v.rewrite, "minimum_should_match"@);
    lemma_opt_str_member("time_zone"@, v.time_zone, "minimum_should_match"@);
    lemma_lookup_concat(m0, m1, "minimum_should_match"@);
    lemma_lookup_concat(m0 + m1, m2, "minimum_should_match"@);
    lemma_lookup_concat(m0 + m1 + m2, m3, "minimum_should_match"@);
    lemma_lookup_concat(m0 + m1 + m2 + m3, m4, "minimum_should_match"@);
    lemma_lookup_concat(m0 + m1 + m2 + m3 + m4, m5, "minimum_should_match"@);
    lemma_lookup_concat(m0 + m1 + m2 + m3 + m4 + m5, m6, "minimum_should_match"@);
    lemma_lookup_concat(m0 + m1 + m2 + m3 + m4 + m5 + m6, m7, "minimum_should_match"@);
    lemma_lookup_concat(m0 + m1 + m2 + m3 + m4 + m5 + m6 + m7, m8, "minimum_should_match"@);
    lemma_lookup_concat(m0 + m1 + m2 + m3 + m4 + m5 + m6 + m7 + m8, m9, "minimum_should_match"@);
    lemma_lookup_concat(m0 + m1 + m2 + m3 + m4 + m5 + m6 + m7 + m8 + m9, m10, "minimum_should_match"@);
    lemma_lookup_concat(m0 + m1 + m2 + m3 + m4 + m5 + m6 + m7 + m8 + m9 + m10, m11, "minimum_should_match"@);
    lemma_lookup_concat(m0 + m1 + m2 + m3 + m4 + m5 + m6 + m7 + m8 + m9 + m10 + m11, m12, "minimum_should_match"@);
    lemma_lookup_concat(m0 + m1 + m2 + m3 + m4 + m5 + m6 + m7 + m8 + m9 + m10 + m11 + m12, m13, "minimum_should_match"@);
    lemma_lookup_concat(m0 + m1 + m2 + m3 + m4 + m5 + m6 + m7 + m8 + m9 + m10 + m11 + m12 + m13, m14, "minimum_should_match"@);
    lemma_lookup_concat(m0 + m1 + m2 + m3 + m4 + m5 + m6 + m7 + m8 + m9 + m10 + m11 + m12 + m13 + m14, m15, "minimum_should_match"@);
    lemma_lookup_concat(m0 + m1 + m2 + m3 + m4 + m5 + m6 + m7 + m8 + m9 + m10 + m11 + m12 + m13 + m14 + m15, m16, "minimum_should_match"@);
    lemma_lookup_concat(m0 + m1 + m2 + m3 + m4 + m5 + m6 + m7 + m8 + m9 + m10 + m11 + m12 + m13 + m14 + m15 + m16, m17, "minimum_should_match"@);
    lemma_lookup_concat(m0 + m1 + m2 + m3 + m4 + m5 + m6 + m7 + m8 + m9 + m10 + m11 + m12 + m13 + m14 + m15 + m16 + m17, m18, "minimum_should_match"@);
    lemma_lookup_concat(m0 + m1 + m2 + m3 + m4 + m5 + m6 + m7 + m8 + m9 + m10 + m11 + m12 + m13 + m14 + m15 + m16 + m17 + m18, m19, "minimum_should_match"@);
    lemma_lookup_concat(m0 + m1 + m2 + m3 + m4 + m5 + m6 + m7 + m8 + m9 + m10 + m11 + m12 + m13 + m14 + m15 + m16 + m17 + m18 + m19, m20, "minimum_should_match"@);
    lemma_lookup_concat(m0 + m1 + m2 + m3 + m4 + m5 + m6 + m7 + m8 + m9 + m10 + m11 + m12 + m13 + m14 + m15 + m16 + m17 + m18 + m19 + m20, m21, "minimum_should_match"@);
    assert(query_string_members(v) =~= m0 + m1 + m2 + m3 + m4 + m5 + m6 + m7 + m8 + m9 + m10 + m11 + m12 + m13 + m14 + m15 + m16 + m17 + m18 + m19 + m20 + m21);
}

proof fn lemma_query_string_lookup_phrase_slop(v: QueryStringQueryView)
    ensures
        lookup(query_string_members(v), "phrase_slop"@) == Some(JsonValue::Number(int_text(v.phrase_slop as int))),
{
    lemma_query_string_keys();
    let m0 = seq![("query"@, JsonValue::Str(v.query))];
    let m1 = strs_member("fields"@, v.fields);
    let m2 = opt_str_member("default_field"@, v.default_field);
    let m3 = bool_member("allow_leading_wildcard"@, v.allow_leading_wildcard);
    let m4 = bool_member("analyze_wildcard"@, v.analyze_wildcard);
    let m5 = opt_str_member("analyzer"@, v.analyzer);
    let m6 = opt_str_member("quote_analyzer"@, v.quote_analyzer);
    let m7 = bool_member("auto_generate_synonyms_phrase_query"@, v.auto_generate_synonyms_phrase_query);
    let m8 = num_member("boost"@, v.boost);
    let m9 = seq![("default_operator"@, JsonValue::Str(query_string_boolean_operator_name(v.default_operator)))];
    let m10 = bool_member("enable_position_increments"@, v.enable_position_increments);
    let m11 = opt_str_member("fuzziness"@, v.fuzziness);
    let m12 = i32_member("fuzzy_max_expansions"@, v.fuzzy_max_expansions);
    let m13 = i32_member("fuzzy_prefix_length"@, v.fuzzy_prefix_length);
    let m14 = bool_member("fuzzy_transpositions"@, v.fuzzy_transpositions);
    let m15 = bool_member("lenient"@, v.lenient);
    let m16 = i32_member("max_determinized_states"@, v.max_determinized_states);
    let m17 = opt_str_member("minimum_should_match"@, v.minimum_should_match);
    let m18 = i32_member("phrase_slop"@, v.phrase_slop);
    let m19 = opt_str_member("quote_field_suffix"@, v.quote_field_suffix);
    let m20 = opt_str_member("rewrite"@, v.rewrite);
    let m21 = opt_str_member("time_zone"@, v.time_zone);
    lemma_lookup_one("query"@, JsonValue::Str(v.query), "phrase_slop"@);
    lemma_strs_member("fields"@, v.fields, "phrase_slop"@);
    lemma_opt_str_member("default_field"@, v.default_field, "phrase_slop"@);
    lemma_lookup_one("allow_leading_wildcard"@, JsonValue::Bool(v.allow_leading_wildcard), "phrase_slop"@);
    lemma_lookup_one("analyze_wildcard"@, JsonValue::Bool(v.analyze_wildcard), "phrase_slop"@);
    lemma_opt_str_member("analyzer"@, v.analyzer, "phrase_slop"@);
    lemma_opt_str_member("quote_analyzer"@, v.quote_analyzer, "phrase_slop"@);
    lemma_lookup_one("auto_generate_synonyms_phrase_query"@, JsonValue::Bool(v.auto_generate_synonyms_phrase_query), "phrase_slop"@);
    lemma_lookup_one("boost"@, JsonValue::Number(v.boost), "phrase_slop"@);
    lemma_lookup_one("default_operator"@, JsonValue::Str(query_string_boolean_operator_name(v.default_operator)), "phrase_slop"@);
    lemma_lookup_one("enable_position_increments"@, JsonValue::Bool(v.enable_position_increments), "phrase_slop"@);
    lemma_opt_str_member("fuzziness"@, v.fuzziness, "phrase_slop"@);
    lemma_lookup_one("fuzzy_max_expansions"@, JsonValue::Number(int_text(v.fuzzy_max_expansions as int)), "phrase_slop"@);
    lemma_lookup_one("fuzzy_prefix_length"@, JsonValue::Number(int_text(v.fuzzy_prefix_length as int)), "phrase_slop"@);
    lemma_lookup_one("fuzzy_transpositions"@, JsonValue::Bool(v.fuzzy_transpositions), "phrase_slop"@);
    lemma_lookup_one("lenient"@, JsonValue::Bool(v.lenient), "phrase_slop"@);
    lemma_lookup_one("max_determinized_states"@, JsonValue::Number(int_text(v.max_determinized_states as int)), "phrase_slop"@);
    lemma_opt_str_member("minimum_should_match"@, v.minimum_should_match, "phrase_slop"@);
    lemma_lookup_one("phrase_slop"@, JsonValue::Number(int_text(v.phrase_slop as int)), "phrase_slop"@);
    lemma_opt_str_member("quote_field_suffix"@, v.quote_field_suffix, "phrase_slop"@);
    lemma_opt_str_member("rewrite"@, v.rewrite, "phrase_slop"@);
    lemma_opt_str_member("time_zone"@, v.time_zone, "phrase_slop"@);
    lemma_lookup_concat(m0, m1, "phrase_slop"@);
    lemma_lookup_concat(m0 + m1, m2, "phrase_slop"@);
    lemma_lookup_concat(m0 + m1 + m2, m3, "phrase_slop"@);
    lemma_lookup_concat(m0 + m1 + m2 + m3, m4, "phrase_slop"@);
    lemma_lookup_concat(m0 + m1 + m2 + m3 + m4, m5, "phrase_slop"@);
    lemma_lookup_concat(m0 + m1 + m2 + m3 + m4 + m5, m6, "phrase_slop"@);
    lemma_lookup_concat(m0 + m1 + m2 + m3 + m4 + m5 + m6, m7, "phrase_slop"@);
    lemma_lookup_concat(m0 + m1 + m2 + m3 + m4 + m5 + m6 + m7, m8, "phrase_slop"@);
    lemma_lookup_concat(m0 + m1 + m2 + m3 + m4 + m5 + m6 + m7 + m8, m9, "phrase_slop"@);
    lemma_lookup_concat(m0 + m1 + m2 + m3 + m4 + m5 + m6 + m7 + m8 + m9, m10, "phrase_slop"@);
    lemma_lookup_concat(m0 + m1 + m2 + m3 + m4 + m5 + m6 + m7 + m8 + m9 + m10, m11, "phrase_slop"@);
    lemma_lookup_concat(m0 + m1 + m2 + m3 + m4 + m5 + m6 + m7 + m8 + m9 + m10 + m11, m12, "phrase_slop"@);
    lemma_lookup_concat(m0 + m1 + m2 + m3 + m4 + m5 + m6 + m7 + m8 + m9 + m10 + m11 + m12, m13, "phrase_slop"@);
    lemma_lookup_concat(m0 + m1 + m2 + m3 + m4 + m5 + m6 + m7 + m8 + m9 + m10 + m11 + m12 + m13, m14, "phrase_slop"@);
    lemma_lookup_concat(m0 + m1 + m2 + m3 + m4 + m5 + m6 + m7 + m8 + m9 + m10 + m11 + m12 + m13 + m14, m15, "phrase_slop"@);
    lemma_lookup_concat(m0 + m1 + m2 + m3 + m4 + m5 + m6 + m7 + m8 + m9 + m10 + m11 + m12 + m13 + m14 + m15, m16, "phrase_slop"@);
    lemma_lookup_concat(m0 + m1 + m2 + m3 + m4 + m5 + m6 + m7 + m8 + m9 + m10 + m11 + m12 + m13 + m14 + m15 + m16, m17, "phrase_slop"@);
    lemma_lookup_concat(m0 + m1 + m2 + m3 + m4 + m5 + m6 + m7 + m8 + m9 + m10 + m11 + m12 + m13 + m14 + m15 + m16 + m17, m18, "phrase_slop"@);
    lemma_lookup_concat(m0 + m1 + m2 + m3 + m4 + m5 + m6 + m7 + m8 + m9 + m10 + m11 + m12 + m13 + m14 + m15 + m16 + m17 + m18, m19, "phrase_slop"@);
    lemma_lookup_concat(m0 + m1 + m2 + m3 + m4 + m5 + m6 + m7 + m8 + m9 + m10 + m11 + m12 + m13 + m14 + m15 + m16 + m17 + m18 + m19, m20, "phrase_slop"@);
    lemma_lookup_concat(m0 + m1 + m2 + m3 + m4 + m5 + m6 + m7 + m8 + m9 + m10 + m11 + m12 + m13 + m14 + m15 + m16 + m17 + m18 + m19 + m20, m21, "phrase_slop"@);
    assert(query_string_members(v) =~= m0 + m1 + m2 + m3 + m4 + m5 + m6 + m7 + m8 + m9 + m10 + m11 + m12 + m13 + m14 + m15 + m16 + m17 + m18 + m19 + m20 + m21);
}

proof fn lemma_query_string_lookup_quote_field_suffix(v: QueryStringQueryView)
    ensures
        lookup(query_string_members(v), "quote_field_suffix"@) == match v.quote_field_suffix { Some(t) => Some(JsonValue::Str(t)), None => None::<JsonValue> },
{
    lemma_query_string_keys();
    let m0 = seq![("query"@, JsonValue::Str(v.query))];
    let m1 = strs_member("fields"@, v.fields);
    let m2 = opt_str_member("default_field"@, v.default_field);
    let m3 = bool_member("allow_leading_wildcard"@, v.allow_leading_wildcard);
    let m4 = bool_member("analyze_wildcard"@, v.analyze_wildcard);
    let m5 = opt_str_member("analyzer"@, v.analyzer);
    let m6 = opt_str_member("quote_analyzer"@, v.quote_analyzer);
    let m7 = bool_member("auto_generate_synonyms_phrase_query"@, v.auto_generate_synonyms_phrase_query);
    let m8 = num_member("boost"@, v.boost);
    let m9 = seq![("default_operator"@, JsonValue::Str(query_string_boolean_operator_name(v.default_operator)))];
    let m10 = bool_member("enable_position_increments"@, v.enable_position_increments);
    let m11 = opt_str_member("fuzziness"@, v.fuzziness);
    let m12 = i32_member("fuzzy_max_expansions"@, v.fuzzy_max_expansions);
    let m13 = i32_member("fuzzy_prefix_length"@, v.fuzzy_prefix_length);
    let m14 = bool_member("fuzzy_transpositions"@, v.fuzzy_transpositions);
    let m15 = bool_member("lenient"@, v.lenient);
    let m16 = i32_member("max_determinized_states"@, v.max_determinized_states);
    let m17 = opt_str_member("minimum_should_match"@, v.minimum_should_match);
    let m18 = i32_member("phrase_slop"@, v.phrase_slop);
    let m19 = opt_str_member("quote_field_suffix"@, v.quote_field_suffix);
    let m20 = opt_str_member("rewrite"@, v.rewrite);
    let m21 = opt_str_member("time_zone"@, v.time_zone);
    lemma_lookup_one("query"@, JsonValue::Str(v.query), "quote_field_suffix"@);
    lemma_strs_member("fields"@, v.fields, "quote_field_suffix"@);
    lemma_opt_str_member("default_field"@, v.default_field, "quote_field_suffix"@);
    lemma_lookup_one("allow_leading_wildcard"@, JsonValue::Bool(v.allow_leading_wildcard), "quote_field_suffix"@);
    lemma_lookup_one("analyze_wildcard"@, JsonValue::Bool(v.analyze_wildcard), "quote_field_suffix"@);
    lemma_opt_str_member("analyzer"@, v.analyzer, "quote_field_suffix"@);
    lemma_opt_str_member("quote_analyzer"@, v.quote_analyzer, "quote_field_suffix"@);
    lemma_lookup_one("auto_generate_synonyms_phrase_query"@, JsonValue::Bool(v.auto_generate_synonyms_phrase_query), "quote_field_suffix"@);
    lemma_lookup_one("boost"@, JsonValue::Number(v.boost), "quote_field_suffix"@);
    lemma_lookup_one("default_operator"@, JsonValue::Str(query_string_boolean_operator_name(v.default_operator)), "quote_field_suffix"@);
    lemma_lookup_one("enable_position_increments"@, JsonValue::Bool(v.enable_position_increments), "quote_field_suffix"@);
    lemma_opt_str_member("fuzziness"@, v.fuzziness, "quote_field_suffix"@);
    lemma_lookup_one("fuzzy_max_expansions"@, JsonValue::Number(int_text(v.fuzzy_max_expansions as int)), "quote_field_suffix"@);
    lemma_lookup_one("fuzzy_prefix_length"@, JsonValue::Number(int_text(v.fuzzy_prefix_length as int)), "quote_field_suffix"@);
    lemma_lookup_one("fuzzy_transpositions"@, JsonValue::Bool(v.fuzzy_transpositions), "quote_field_suffix"@);
    lemma_lookup_one("lenient"@, JsonValue::Bool(v.lenient), "quote_field_suffix"@);
    lemma_lookup_one("max_determinized_states"@, JsonValue::Number(int_text(v.max_determinized_states as int)), "quote_field_suffix"@);
    lemma_opt_str_member("minimum_should_match"@, v.minimum_should_match, "quote_field_suffix"@);
    lemma_lookup_one("phrase_slop"@, JsonValue::Number(int_text(v.phrase_slop as int)), "quote_field_suffix"@);
    lemma_opt_str_member("quote_field_suffix"@, v.quote_field_suffix, "quote_field_suffix"@);
    lemma_opt_str_member("rewrite"@, v.rewrite, "quote_field_suffix"@);
    lemma_opt_str_member("time_zone"@, v.time_zone, "quote_field_suffix"@);
    lemma_lookup_concat(m0, m1, "quote_field_suffix"@);
    lemma_lookup_concat(m0 + m1, m2, "quote_field_suffix"@);
    lemma_lookup_concat(m0 + m1 + m2, m3, "quote_field_suffix"@);
    lemma_lookup_concat(m0 + m1 + m2 + m3, m4, "quote_field_suffix"@);
    lemma_lookup_concat(m0 + m1 + m2 + m3 + m4, m5, "quote_field_suffix"@);
    lemma_lookup_concat(m0 + m1 + m2 + m3 + m4 + m5, m6, "quote_field_suffix"@);
    lemma_lookup_concat(m0 + m1 + m2 + m3 + m4 + m5 + m6, m7, "quote_field_suffix"@);
    lemma_lookup_concat(m0 + m1 + m2 + m3 + m4 + m5 + m6 + m7, m8, "quote_field_suffix"@);
    lemma_lookup_concat(m0 + m1 + m2 + m3 + m4 + m5 + m6 + m7 + m8, m9, "quote_field_suffix"@);
    lemma_lookup_concat(m0 + m1 + m2 + m3 + m4 + m5 + m6 + m7 + m8 + m9, m10, "quote_field_suffix"@);
    lemma_lookup_concat(m0 + m1 + m2 + m3 + m4 + m5 + m6 + m7 + m8 + m9 + m10, m11, "quote_field_suffix"@);
    lemma_lookup_concat(m0 + m1 + m2 + m3 + m4 + m5 + m6 + m7 + m8 + m9 + m10 + m11, m12, "quote_field_suffix"@);
    lemma_lookup_concat(m0 + m1 + m2 + m3 + m4 + m5 + m6 + m7 + m8 + m9 + m10 + m11 + m12, m13, "quote_field_suffix"@);
    lemma_lookup_concat(m0 + m1 + m2 + m3 + m4 + m5 + m6 + m7 + m8 + m9 + m10 + m11 + m12 + m13, m14, "quote_field_suffix"@);
    lemma_lookup_concat(m0 + m1 + m2 + m3 + m4 + m5 + m6 + m7 + m8 + m9 + m10 + m11 + m12 + m13 + m14, m15, "quote_field_suffix"@);
    lemma_lookup_concat(m0 + m1 + m2 + m3 + m4 + m5 + m6 + m7 + m8 + m9 + m10 + m11 + m12 + m13 + m14 + m15, m16, "quote_field_suffix"@);
    lemma_lookup_concat(m0 + m1 + m2 + m3 + m4 + m5 + m6 + m7 + m8 + m9 + m10 + m11 + m12 + m13 + m14 + m15 + m16, m17, "quote_field_suffix"@);
    lemma_lookup_concat(m0 + m1 + m2 + m3 + m4 + m5 + m6 + m7 + m8 + m9 + m10 + m11 + m12 + m13 + m14 + m15 + m16 + m17, m18, "quote_field_suffix"@);
    lemma_lookup_concat(m0 + m1 + m2 + m3 + m4 + m5 + m6 + m7 + m8 + m9 + m10 + m11 + m12 + m13 + m14 + m15 + m16 + m17 + m18, m19, "quote_field_suffix"@);
    lemma_lookup_concat(m0 + m1 + m2 + m3 + m4 + m5 + m6 + m7 + m8 + m9 + m10 + m11 + m12 + m13 + m14 + m15 + m16 + m17 + m18 + m19, m20, "quote_field_suffix"@);
    lemma_lookup_concat(m0 + m1 + m2 + m3 + m4 + m5 + m6 + m7 + m8 + m9 + m10 + m11 + m12 + m13 + m14 + m15 + m16 + m17 + m18 + m19 + m20, m21, "quote_field_suffix"@);
    assert(query_string_members(v) =~= m0 + m1 + m2 + m3 + m4 + m5 + m6 + m7 + m8 + m9 + m10 + m11 + m12 + m13 + m14 + m15 + m16 + m17 + m18 + m19 + m20 + m21);
}

proof fn lemma_query_string_lookup_rewrite(v: QueryStringQueryView)
    ensures
        lookup(query_string_members(v), "rewrite"@) == match v.rewrite { Some(t) => Some(JsonValue::Str(t)), None => None::<JsonValue> },
{
    lemma_query_string_keys();
    let m0 = seq![("query"@, JsonValue::Str(v.query))];
    let m1 = strs_member("fields"@, v.fields);
    let m2 = opt_str_member("default_field"@, v.default_field);
    let m3 = bool_member("allow_leading_wildcard"@, v.allow_leading_wildcard);
    let m4 = bool_member("analyze_wildcard"@, v.analyze_wildcard);
    let m5 = opt_str_member("analyzer"@, v.analyzer);
    let m6 = opt_str_member("quote_analyzer"@, v.quote_analyzer);
    let m7 = bool_member("auto_generate_synonyms_phrase_query"@, v.auto_generate_synonyms_phrase_query);
    let m8 = num_member("boost"@, v.boost);
    let m9 = seq![("default_operator"@, JsonValue::Str(query_string_boolean_operator_name(v.default_operator)))];
    let m10 = bool_member("enable_position_increments"@, v.enable_position_increments);
    let m11 = opt_str_member("fuzziness"@, v.fuzziness);
    let m12 = i32_member("fuzzy_max_expansions"@, v.fuzzy_max_expansions);
    let m13 = i32_member("fuzzy_prefix_length"@, v.fuzzy_prefix_length);
    let m14 = bool_member("fuzzy_transpositions"@, v.fuzzy_transpositions);
    let m15 = bool_member("lenient"@, v.lenient);
    let m16 = i32_member("max_determinized_states"@, v.max_determinized_states);
    let m17 = opt_str_member("minimum_should_match"@, v.minimum_should_match);
    let m18 = i32_member("phrase_slop"@, v.phrase_slop);
    let m19 = opt_str_member("quote_field_suffix"@, v.quote_field_suffix);
    let m20 = opt_str_member("rewrite"@, v.rewrite);
    let m21 = opt_str_member("time_zone"@, v.time_zone);
    lemma_lookup_one("query"@, JsonValue::Str(v.query), "rewrite"@);
    lemma_strs_member("fields"@, v.fields, "rewrite"@);
    lemma_opt_str_member("default_field"@, v.default_field, "rewrite"@);
    lemma_lookup_one("allow_leading_wildcard"@, JsonValue::Bool(v.allow_leading_wildcard), "rewrite"@);
    lemma_lookup_one("analyze_wildcard"@, JsonValue::Bool(v.analyze_wildcard), "rewrite"@);
    lemma_opt_str_member("analyzer"@, v.analyzer, "rewrite"@);
    lemma_opt_str_member("quote_analyzer"@, v.quote_analyzer, "rewrite"@);
    lemma_lookup_one("auto_generate_synonyms_phrase_query"@, JsonValue::Bool(v.auto_generate_synonyms_phrase_query), "rewrite"@);
    lemma_lookup_one("boost"@, JsonValue::Number(v.boost), "rewrite"@);
    lemma_lookup_one("default_operator"@, JsonValue::Str(query_string_boolean_operator_name(v.default_operator)), "rewrite"@);
    lemma_lookup_one("enable_position_increments"@, JsonValue::Bool(v.enable_position_increments), "rewrite"@);
    lemma_opt_str_member("fuzziness"@, v.fuzziness, "rewrite"@);
    lemma_lookup_one("fuzzy_max_expansions"@, JsonValue::Number(int_text(v.fuzzy_max_expansions as int)), "rewrite"@);
    lemma_lookup_one("fuzzy_prefix_length"@, JsonValue::Number(int_text(v.fuzzy_prefix_length as int)), "rewrite"@);
    lemma_lookup_one("fuzzy_transpositions"@, JsonValue::Bool(v.fuzzy_transpositions), "rewrite"@);
    lemma_lookup_one("lenient"@, JsonValue::Bool(v.lenient), "rewrite"@);
    lemma_lookup_one("max_determinized_states"@, JsonValue::Number(int_text(v.max_determinized_states as int)), "rewrite"@);
    lemma_opt_str_member("minimum_should_match"@, v.minimum_should_match, "rewrite"@);
    lemma_lookup_one("phrase_slop"@, JsonValue::Number(int_text(v.phrase_slop as int)), "rewrite"@);
    lemma_opt_str_member("quote_field_suffix"@, v.quote_field_suffix, "rewrite"@);
    lemma_opt_str_member("rewrite"@, v.rewrite, "rewrite"@);
    lemma_opt_str_member("time_zone"@, v.time_zone, "rewrite"@);
    lemma_lookup_concat(m0, m1, "rewrite"@);
    lemma_lookup_concat(m0 + m1, m2, "rewrite"@);
    lemma_lookup_concat(m0 + m1 + m2, m3, "rewrite"@);
    lemma_lookup_concat(m0 + m1 + m2 + m3, m4, "rewrite"@);
    lemma_lookup_concat(m0 + m1 + m2 + m3 + m4, m5, "rewrite"@);
    lemma_lookup_concat(m0 + m1 + m2 + m3 + m4 + m5, m6, "rewrite"@);
    lemma_lookup_concat(m0 + m1 + m2 + m3 + m4 + m5 + m6, m7, "rewrite"@);
    lemma_lookup_concat(m0 + m1 + m2 + m3 + m4 + m5 + m6 + m7, m8, "rewrite"@);
    lemma_lookup_concat(m0 + m1 + m2 + m3 + m4 + m5 + m6 + m7 + m8, m9, "rewrite"@);
    lemma_lookup_concat(m0 + m1 + m2 + m3 + m4 + m5 + m6 + m7 + m8 + m9, m10, "rewrite"@);
    lemma_lookup_concat(m0 + m1 + m2 + m3 + m4 + m5 + m6 + m7 + m8 + m9 + m10, m11, "rewrite"@);
    lemma_lookup_concat(m0 + m1 + m2 + m3 + m4 + m5 + m6 + m7 + m8 + m9 + m10 + m11, m12, "rewrite"@);
    lemma_lookup_concat(m0 + m1 + m2 + m3 + m4 + m5 + m6 + m7 + m8 + m9 + m10 + m11 + m12, m13, "rewrite"@);
    lemma_lookup_concat(m0 + m1 + m2 + m3 + m4 + m5 + m6 + m7 + m8 + m9 + m10 + m11 + m12 + m13, m14, "rewrite"@);
    lemma_lookup_concat(m0 + m1 + m2 + m3 + m4 + m5 + m6 + m7 + m8 + m9 + m10 + m11 + m12 + m13 + m14, m15, "rewrite"@);
    lemma_lookup_concat(m0 + m1 + m2 + m3 + m4 + m5 + m6 + m7 + m8 + m9 + m10 + m11 + m12 + m13 + m14 + m15, m16, "rewrite"@);
    lemma_lookup_concat(m0 + m1 + m2 + m3 + m4 + m5 + m6 + m7 + m8 + m9 + m10 + m11 + m12 + m13 + m14 + m15 + m16, m17, "rewrite"@);
    lemma_lookup_concat(m0 + m1 + m2 + m3 + m4 + m5 + m6 + m7 + m8 + m9 + m10 + m11 + m12 + m13 + m14 + m15 + m16 + m17, m18, "rewrite"@);
    lemma_lookup_concat(m0 + m1 + m2 + m3 + m4 + m5 + m6 + m7 + m8 + m9 + m10 + m11 + m12 + m13 + m14 + m15 + m16 + m17 + m18, m19, "rewrite"@);
    lemma_lookup_concat(m0 + m1 + m2 + m3 + m4 + m5 + m6 + m7 + m8 + m9 + m10 + m11 + m12 + m13 + m14 + m15 + m16 + m17 + m18 + m19, m20, "rewrite"@);
    lemma_lookup_concat(m0 + m1 + m2 + m3 + m4 + m5 + m6 + m7 + m8 + m9 + m10 + m11 + m12 + m13 + m14 + m15 + m16 + m17 + m18 + m19 + m20, m21, "rewrite"@);
    assert(query_string_members(v) =~= m0 + m1 + m2 + m3 + m4 + m5 + m6 + m7 + m8 + m9 + m10 + m11 + m12 + m13 + m14 + m15 + m16 + m17 + m18 + m19 + m20 + m21);
}

proof fn lemma_query_string_lookup_time_zone(v: QueryStringQueryView)
    ensures
        lookup(query_string_members(v), "time_zone"@) == match v.time_zone { Some(t) => Some(JsonValue::Str(t)), None => None::<JsonValue> },
{
    lemma_query_string_keys();
    let m0 = seq![("query"@, JsonValue::Str(v.query))];
    let m1 = strs_member("fields"@, v.fields);
    let m2 = opt_str_member("default_field"@, v.default_field);
    let m3 = bool_member("allow_leading_wildcard"@, v.allow_leading_wildcard);
    let m4 = bool_member("analyze_wildcard"@, v.analyze_wildcard);
    let m5 = opt_str_member("analyzer"@, v.analyzer);
    let m6 = opt_str_member("quote_analyzer"@, v.quote_analyzer);
    let m7 = bool_member("auto_generate_synonyms_phrase_query"@, v.auto_generate_synonyms_phrase_query);
    let m8 = num_member("boost"@, v.boost);
    let m9 = seq![("default_operator"@, JsonValue::Str(query_string_boolean_operator_name(v.default_operator)))];
    let m10 = bool_member("enable_position_increments"@, v.enable_position_increments);
    let m11 = opt_str_member("fuzziness"@, v.fuzziness);
    let m12 = i32_member("fuzzy_max_expansions"@, v.fuzzy_max_expansions);
    let m13 = i32_member("fuzzy_prefix_length"@, v.fuzzy_prefix_length);
    let m14 = bool_member("fuzzy_transpositions"@, v.fuzzy_transpositions);
    let m15 = bool_member("lenient"@, v.lenient);
    let m16 = i32_member("max_determinized_states"@, v.max_determinized_states);
    let m17 = opt_str_member("minimum_should_match"@, v.minimum_should_match);
    let m18 = i32_member("phrase_slop"@, v.phrase_slop);
    let m19 = opt_str_member("quote_field_suffix"@, v.quote_field_suffix);
    let m20 = opt_str_member("rewrite"@, v.rewrite);
    let m21 = opt_str_member("time_zone"@, v.time_zone);
    lemma_lookup_one("query"@, JsonValue::Str(v.query), "time_zone"@);
    lemma_strs_member("fields"@, v.fields, "time_zone"@);
    lemma_opt_str_member("default_field"@, v.default_field, "time_zone"@);
    lemma_lookup_one("allow_leading_wildcard"@, JsonValue::Bool(v.allow_leading_wildcard), "time_zone"@);
    lemma_lookup_one("analyze_wildcard"@, JsonValue::Bool(v.analyze_wildcard), "time_zone"@);
    lemma_opt_str_member("analyzer"@, v.analyzer, "time_zone"@);
    lemma_opt_str_member("quote_analyzer"@, v.quote_analyzer, "time_zone"@);
    lemma_lookup_one("auto_generate_synonyms_phrase_query"@, JsonValue::Bool(v.auto_generate_synonyms_phrase_query), "time_zone"@);
    lemma_lookup_one("boost"@, JsonValue::Number(v.boost), "time_zone"@);
    lemma_lookup_one("default_operator"@, JsonValue::Str(query_string_boolean_operator_name(v.default_operator)), "time_zone"@);
    lemma_lookup_one("enable_position_increments"@, JsonValue::Bool(v.enable_position_increments), "time_zone"@);
    lemma_opt_str_member("fuzziness"@, v.fuzziness, "time_zone"@);
    lemma_lookup_one("fuzzy_max_expansions"@, JsonValue::Number(int_text(v.fuzzy_max_expansions as int)), "time_zone"@);
    lemma_lookup_one("fuzzy_prefix_length"@, JsonValue::Number(int_text(v.fuzzy_prefix_length as int)), "time_zone"@);
    lemma_lookup_one("fuzzy_transpositions"@, JsonValue::Bool(v.fuzzy_transpositions), "time_zone"@);
    lemma_lookup_one("lenient"@, JsonValue::Bool(v.lenient), "time_zone"@);
    lemma_lookup_one("max_determinized_states"@, JsonValue::Number(int_text(v.max_determinized_states as int)), "time_zone"@);
    lemma_opt_str_member("minimum_should_match"@, v.minimum_should_match, "time_zone"@);
    lemma_lookup_one("phrase_slop"@, JsonValue::Number(int_text(v.phrase_slop as int)), "time_zone"@);
    lemma_opt_str_member("quote_field_suffix"@, v.quote_field_suffix, "time_zone"@);
    lemma_opt_str_member("rewrite"@, v.rewrite, "time_zone"@);
    lemma_opt_str_member("time_zone"@, v.time_zone, "time_zone"@);
    lemma_lookup_concat(m0, m1, "time_zone"@);
    lemma_lookup_concat(m0 + m1, m2, "time_zone"@);
    lemma_lookup_concat(m0 + m1 + m2, m3, "time_zone"@);
    lemma_lookup_concat(m0 + m1 + m2 + m3, m4, "time_zone"@);
    lemma_lookup_concat(m0 + m1 + m2 + m3 + m4, m5, "time_zone"@);
    lemma_lookup_concat(m0 + m1 + m2 + m3 + m4 + m5, m6, "time_zone"@);
    lemma_lookup_concat(m0 + m1 + m2 + m3 + m4 + m5 + m6, m7, "time_zone"@);
    lemma_lookup_concat(m0 + m1 + m2 + m3 + m4 + m5 + m6 + m7, m8, "time_zone"@);
    lemma_lookup_concat(m0 + m1 + m2 + m3 + m4 + m5 + m6 + m7 + m8, m9, "time_zone"@);
    lemma_lookup_concat(m0 + m1 + m2 + m3 + m4 + m5 + m6 + m7 + m8 + m9, m10, "time_zone"@);
    lemma_lookup_concat(m0 + m1 + m2 + m3 + m4 + m5 + m6 + m7 + m8 + m9 + m10, m11, "time_zone"@);
    lemma_lookup_concat(m0 + m1 + m2 + m3 + m4 + m5 + m6 + m7 + m8 + m9 + m10 + m11, m12, "time_zone"@);
    lemma_lookup_concat(m0 + m1 + m2 + m3 + m4 + m5 + m6 + m7 + m8 + m9 + m10 + m11 + m12, m13, "time_zone"@);
    lemma_lookup_concat(m0 + m1 + m2 + m3 + m4 + m5 + m6 + m7 + m8 + m9 + m10 + m11 + m12 + m13, m14, "time_zone"@);
    lemma_lookup_concat(m0 + m1 + m2 + m3 + m4 + m5 + m6 + m7 + m8 + m9 + m10 + m11 + m12 + m13 + m14, m15, "time_zone"@);
    lemma_lookup_concat(m0 + m1 + m2 + m3 + m4 + m5 + m6 + m7 + m8 + m9 + m10 + m11 + m12 + m13 + m14 + m15, m16, "time_zone"@);
    lemma_lookup_concat(m0 + m1 + m2 + m3 + m4 + m5 + m6 + m7 + m8 + m9 + m10 + m11 + m12 + m13 + m14 + m15 + m16, m17, "time_zone"@);
    lemma_lookup_concat(m0 + m1 + m2 + m3 + m4 + m5 + m6 + m7 + m8 + m9 + m10 + m11 + m12 + m13 + m14 + m15 + m16 + m17, m18, "time_zone"@);
    lemma_lookup_concat(m0 + m1 + m2 + m3 + m4 + m5 + m6 + m7 + m8 + m9 + m10 + m11 + m12 + m13 + m14 + m15 + m16 + m17 + m18, m19, "time_zone"@);
    lemma_lookup_concat(m0 + m1 + m2 + m3 + m4 + m5 + m6 + m7 + m8 + m9 + m10 + m11 + m12 + m13 + m14 + m15 + m16 + m17 + m18 + m19, m20, "time_zone"@);
    lemma_lookup_concat(m0 + m1 + m2 + m3 + m4 + m5 + m6 + m7 + m8 + m9 + m10 + m11 + m12 + m13 + m14 + m15 + m16 + m17 + m18 + m19 + m20, m21, "time_zone"@);
    assert(query_string_members(v) =~= m0 + m1 + m2 + m3 + m4 + m5 + m6 + m7 + m8 + m9 + m10 + m11 + m12 + m13 + m14 + m15 + m16 + m17 + m18 + m19 + m20 + m21);
}

/// Decoding encoded `query_string` options gives them back.
#[verifier::rlimit(100)]
pub proof fn lemma_query_string_round_trip(v: QueryStringQueryView)
    ensures
        query_string_from(query_string_json(v)) == Ok::<QueryStringQueryView, DecodeErrorView>(v),
{
    lemma_query_string_lookup_query(v);
    lemma_query_string_lookup_fields(v);
    lemma_strs_slot(query_string_members(v), "fields"@, "query_string"@, v.fields);
    lemma_query_string_lookup_default_field(v);
    lemma_query_string_lookup_allow_leading_wildcard(v);
    lemma_query_string_lookup_analyze_wildcard(v);
    lemma_query_string_lookup_analyzer(v);
    lemma_query_string_lookup_quote_analyzer(v);
    lemma_query_string_lookup_auto_generate_synonyms_phrase_query(v);
    lemma_query_string_lookup_boost(v);
    lemma_query_string_lookup_default_operator(v);
    lemma_operator_name(v.default_operator);
    lemma_query_string_lookup_enable_position_increments(v);
    lemma_query_string_lookup_fuzziness(v);
    lemma_query_string_lookup_fuzzy_max_expansions(v);
    lemma_i32_slot(query_string_members(v), "fuzzy_max_expansions"@, v.fuzzy_max_expansions, 50i32);
    lemma_query_string_lookup_fuzzy_prefix_length(v);
    lemma_i32_slot(query_string_members(v), "fuzzy_prefix_length"@, v.fuzzy_prefix_length, 0i32);
    lemma_query_string_lookup_fuzzy_transpositions(v);
    lemma_query_string_lookup_lenient(v);
    lemma_query_string_lookup_max_determinized_states(v);
    lemma_i32_slot(query_string_members(v), "max_determinized_states"@, v.max_determinized_states, 10000i32);
    lemma_query_string_lookup_minimum_should_match(v);
    lemma_query_string_lookup_phrase_slop(v);
    lemma_i32_slot(query_string_members(v), "phrase_slop"@, v.phrase_slop, 0i32);
    lemma_query_string_lookup_quote_field_suffix(v);
    lemma_query_string_lookup_rewrite(v);
    lemma_query_string_lookup_time_zone(v);
}

/// A query in the simple query-string syntax.
#[derive(Debug)]
pub struct SimpleQueryStringQuery {
    pub fields: Vec<String>,
    pub query: String,
}

pub struct SimpleQueryStringQueryView {
    pub fields: Seq<Seq<char>>,
    pub query: Seq<char>,
}

impl View for SimpleQueryStringQuery {
    type V = SimpleQueryStringQueryView;

    open spec fn view(&self) -> SimpleQueryStringQueryView {
        SimpleQueryStringQueryView {
            fields: strings_view(self.fields@),
            query: self.query@,
        }
    }
}

pub open spec fn simple_query_string_members(v: SimpleQueryStringQueryView) -> Seq<(Seq<char>, JsonValue)> {
    strs_member("fields"@, v.fields) + seq![("query"@, JsonValue::Str(v.query))]
}

pub open spec fn simple_query_string_json(v: SimpleQueryStringQueryView) -> JsonValue {
    JsonValue::Object(simple_query_string_members(v))
}

pub open spec fn simple_query_string_from_members(b: Seq<(Seq<char>, JsonValue)>) -> Result<SimpleQueryStringQueryView, DecodeErrorView> {
    match strs_or_empty(b, "fields"@, "simple_query_string"@) {
        Err(e) => Err(e),
        Ok(fields) => match req_str(b, "query"@, "simple_query_string"@) {
        Err(e) => Err(e),
        Ok(query) => Ok(SimpleQueryStringQueryView { fields, query }),
    },
    }
}

pub open spec fn simple_query_string_from(v: JsonValue) -> Result<SimpleQueryStringQueryView, DecodeErrorView> {
    match v {
        JsonValue::Object(b) => simple_query_string_from_members(b),
        _ => Err(DecodeErrorView::MalformedLeaf { field: "simple_query_string"@, missing: "query"@ }),
    }
}

impl SimpleQueryStringQuery {
    /// Encodes the options; absent optional ones are left out.
    pub fn to_json(&self) -> (r: Json)
        ensures
            r@ == simple_query_string_json(self@),
    {
        let mut ms = empty_members();
        push_strs(&mut ms, "fields", &self.fields);
        push_req_str(&mut ms, "query", &self.query);
        proof {
            assert(members_view(ms@) =~= simple_query_string_members(self@));
        }
        Json::Object(ms)
    }

    /// Decodes the options, applying the defaults of absent ones.
    pub fn from_json(j: &Json) -> (r: Result<SimpleQueryStringQuery, DecodeError>)
        ensures
            result_view(r) == simple_query_string_from(j@),
    {
        let key = "simple_query_string";
        let b = match j {
            Json::Object(b) => b,
            _ => return Err(malformed_leaf(key, "query")),
        };
        let fields = match read_strs_or_empty(b, "fields", key) {
            Ok(v) => v,
            Err(e) => return Err(e),
        };
        let query = match read_req_str(b, "query", key) {
            Ok(v) => v,
            Err(e) => return Err(e),
        };
        Ok(SimpleQueryStringQuery { fields, query })
    }
}

proof fn lemma_simple_query_string_lookup_fields(v: SimpleQueryStringQueryView)
    ensures
        lookup(simple_query_string_members(v), "fields"@) == if v.fields.len() > 0 { Some(strs_json(v.fields)) } else { None::<JsonValue> },
{
    lemma_query_string_keys();
    let m0 = strs_member("fields"@, v.fields);
    let m1 = seq![("query"@, JsonValue::Str(v.query))];
    lemma_strs_member("fields"@, v.fields, "fields"@);
    lemma_lookup_one("query"@, JsonValue::Str(v.query), "fields"@);
    lemma_lookup_concat(m0, m1, "fields"@);
    assert(simple_query_string_members(v) =~= m0 + m1);
}

proof fn lemma_simple_query_string_lookup_query(v: SimpleQueryStringQueryView)
    ensures
        lookup(simple_query_string_members(v), "query"@) == Some(JsonValue::Str(v.query)),
{
    lemma_query_string_keys();
    let m0 = strs_member("fields"@, v.fields);
    let m1 = seq![("query"@, JsonValue::Str(v.query))];
    lemma_strs_member("fields"@, v.fields, "query"@);
    lemma_lookup_one("query"@, JsonValue::Str(v.query), "query"@);
    lemma_lookup_concat(m0, m1, "query"@);
    assert(simple_query_string_members(v) =~= m0 + m1);
}

/// Decoding encoded `simple_query_string` options gives them back.
pub proof fn lemma_simple_query_string_round_trip(v: SimpleQueryStringQueryView)
    ensures
        simple_query_string_from(simple_query_string_json(v)) == Ok::<SimpleQueryStringQueryView, DecodeErrorView>(v),
{
    lemma_simple_query_string_lookup_fields(v);
    lemma_strs_slot(simple_query_string_members(v), "fields"@, "simple_query_string"@, v.fields);
    lemma_simple_query_string_lookup_query(v);
}

} // verus!
