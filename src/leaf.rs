//! Reading and writing the members of a leaf query's inner object.
use vstd::prelude::*;

use crate::error::{
    invalid_number, malformed_leaf, DecodeError, DecodeErrorView,
};
use crate::sorted_value::{int_of, int_text, is_i32_text, lemma_i32_text, parse_i32, i32_text};
use crate::json::{
    get_member, lemma_items_index, lookup, members_view, opt_view, push_member, strings_view,
    Json, JsonValue,
};

verus! {

/// A required string member.
pub open spec fn req_str(inner: Seq<(Seq<char>, JsonValue)>, name: Seq<char>, field: Seq<char>) -> Result<Seq<char>, DecodeErrorView> {
    match lookup(inner, name) {
        Some(JsonValue::Str(t)) => Ok(t),
        _ => Err(DecodeErrorView::MalformedLeaf { field, missing: name }),
    }
}

/// An optional string member; `null` counts as absent.
pub open spec fn opt_str(inner: Seq<(Seq<char>, JsonValue)>, name: Seq<char>, field: Seq<char>) -> Result<Option<Seq<char>>, DecodeErrorView> {
    match lookup(inner, name) {
        None => Ok(None),
        Some(JsonValue::Null) => Ok(None),
        Some(JsonValue::Str(t)) => Ok(Some(t)),
        _ => Err(DecodeErrorView::MalformedLeaf { field, missing: name }),
    }
}

/// An optional number member; `null` counts as absent.
pub open spec fn opt_num(inner: Seq<(Seq<char>, JsonValue)>, name: Seq<char>) -> Result<Option<Seq<char>>, DecodeErrorView> {
    match lookup(inner, name) {
        None => Ok(None),
        Some(JsonValue::Null) => Ok(None),
        Some(JsonValue::Number(t)) => Ok(Some(t)),
        Some(JsonValue::Str(t)) => Err(DecodeErrorView::InvalidNumber { field: name, value: t }),
        _ => Err(DecodeErrorView::InvalidNumber { field: name, value: ""@ }),
    }
}

/// An optional boolean member, `false` when absent or `null`.
pub open spec fn opt_bool(inner: Seq<(Seq<char>, JsonValue)>, name: Seq<char>, field: Seq<char>) -> Result<bool, DecodeErrorView> {
    match lookup(inner, name) {
        None => Ok(false),
        Some(JsonValue::Null) => Ok(false),
        Some(JsonValue::Bool(b)) => Ok(b),
        _ => Err(DecodeErrorView::MalformedLeaf { field, missing: name }),
    }
}

/// All items of an array of strings.
pub open spec fn all_strs(items: Seq<JsonValue>) -> bool {
    forall|i: int| 0 <= i < items.len() ==> #[trigger] items[i] is Str
}

/// A required member `name` holding an array of strings; `missing` is what
/// the error reports otherwise.
pub open spec fn req_strs(inner: Seq<(Seq<char>, JsonValue)>, name: Seq<char>, field: Seq<char>, missing: Seq<char>) -> Result<Seq<Seq<char>>, DecodeErrorView> {
    match lookup(inner, name) {
        Some(JsonValue::Array(items)) => if all_strs(items) {
            Ok(items.map_values(|v: JsonValue| v->Str_0))
        } else {
            Err(DecodeErrorView::MalformedLeaf { field, missing })
        },
        _ => Err(DecodeErrorView::MalformedLeaf { field, missing }),
    }
}

/// The member `name: "t"` when `v` is `Some(t)`.
pub open spec fn opt_str_member(name: Seq<char>, v: Option<Seq<char>>) -> Seq<(Seq<char>, JsonValue)> {
    match v {
        Some(t) => seq![(name, JsonValue::Str(t))],
        None => seq![],
    }
}

/// The member `name: t` (a number) when `v` is `Some(t)`.
pub open spec fn opt_num_member(name: Seq<char>, v: Option<Seq<char>>) -> Seq<(Seq<char>, JsonValue)> {
    match v {
        Some(t) => seq![(name, JsonValue::Number(t))],
        None => seq![],
    }
}

/// An array of strings.
pub open spec fn strs_json(v: Seq<Seq<char>>) -> JsonValue {
    JsonValue::Array(v.map_values(|t: Seq<char>| JsonValue::Str(t)))
}

/// The field and the inner object of `{ "<field>": { .. } }`; `primary` names
/// the member reported missing when the inner value is not an object.
pub open spec fn leaf_shape(v: JsonValue, primary: Seq<char>) -> Result<(Seq<char>, Seq<(Seq<char>, JsonValue)>), DecodeErrorView> {
    match v {
        JsonValue::Object(ms) => if ms.len() != 1 {
            Err(DecodeErrorView::MalformedLeaf { field: ""@, missing: "field"@ })
        } else {
            match ms[0].1 {
                JsonValue::Object(inner) => Ok((ms[0].0, inner)),
                _ => Err(DecodeErrorView::MalformedLeaf { field: ms[0].0, missing: primary }),
            }
        },
        _ => Err(DecodeErrorView::MalformedLeaf { field: ""@, missing: "field"@ }),
    }
}

pub fn read_req_str(inner: &Vec<(String, Json)>, name: &str, field: &str) -> (r: Result<String, DecodeError>)
    ensures
        crate::error::result_view(r) == req_str(members_view(inner@), name@, field@),
{
    match get_member(inner, name) {
        Some(Json::Str(t)) => Ok(t.clone()),
        _ => Err(malformed_leaf(field, name)),
    }
}

pub fn read_opt_str(inner: &Vec<(String, Json)>, name: &str, field: &str) -> (r: Result<Option<String>, DecodeError>)
    ensures
        match r {
            Ok(v) => opt_str(members_view(inner@), name@, field@) == Ok::<Option<Seq<char>>, DecodeErrorView>(opt_view(v)),
            Err(e) => opt_str(members_view(inner@), name@, field@) == Err::<Option<Seq<char>>, DecodeErrorView>(e@),
        },
{
    match get_member(inner, name) {
        None => Ok(None),
        Some(Json::Null) => Ok(None),
        Some(Json::Str(t)) => Ok(Some(t.clone())),
        _ => Err(malformed_leaf(field, name)),
    }
}

pub fn read_opt_num(inner: &Vec<(String, Json)>, name: &str) -> (r: Result<Option<String>, DecodeError>)
    ensures
        match r {
            Ok(v) => opt_num(members_view(inner@), name@) == Ok::<Option<Seq<char>>, DecodeErrorView>(opt_view(v)),
            Err(e) => opt_num(members_view(inner@), name@) == Err::<Option<Seq<char>>, DecodeErrorView>(e@),
        },
{
    match get_member(inner, name) {
        None => Ok(None),
        Some(Json::Null) => Ok(None),
        Some(Json::Number(t)) => Ok(Some(t.clone())),
        Some(Json::Str(t)) => Err(invalid_number(name, t.as_str())),
        _ => Err(invalid_number(name, "")),
    }
}

pub fn read_opt_bool(inner: &Vec<(String, Json)>, name: &str, field: &str) -> (r: Result<bool, DecodeError>)
    ensures
        match r {
            Ok(v) => opt_bool(members_view(inner@), name@, field@) == Ok::<bool, DecodeErrorView>(v),
            Err(e) => opt_bool(members_view(inner@), name@, field@) == Err::<bool, DecodeErrorView>(e@),
        },
{
    match get_member(inner, name) {
        None => Ok(false),
        Some(Json::Null) => Ok(false),
        Some(Json::Bool(b)) => Ok(*b),
        _ => Err(malformed_leaf(field, name)),
    }
}

pub fn read_req_strs(inner: &Vec<(String, Json)>, name: &str, field: &str, missing: &str) -> (r: Result<Vec<String>, DecodeError>)
    ensures
        match r {
            Ok(v) => req_strs(members_view(inner@), name@, field@, missing@) == Ok::<Seq<Seq<char>>, DecodeErrorView>(strings_view(v@)),
            Err(e) => req_strs(members_view(inner@), name@, field@, missing@) == Err::<Seq<Seq<char>>, DecodeErrorView>(e@),
        },
{
    match get_member(inner, name) {
        Some(Json::Array(items)) => {
            proof {
                lemma_items_index(items@);
            }
            let ghost iv = crate::json::items_view(items@);
            let mut out: Vec<String> = Vec::new();
            let mut i: usize = 0;
            while i < items.len()
                invariant
                    0 <= i <= items.len(),
                    iv.len() == items@.len(),
                    lookup(members_view(inner@), name@) == Some(JsonValue::Array(iv)),
                    forall|j: int| 0 <= j < items@.len() ==> #[trigger] iv[j] == crate::json::json_view(items@[j]),
                    out@.len() == i,
                    forall|j: int| 0 <= j < i ==> #[trigger] iv[j] is Str && iv[j]->Str_0 == out@[j]@,
                decreases items.len() - i,
            {
                match &items[i] {
                    Json::Str(t) => {
                        out.push(t.clone());
                    },
                    _ => {
                        assert(!(iv[i as int] is Str));
                        assert(!all_strs(iv));
                        return Err(malformed_leaf(field, missing));
                    },
                }
                i = i + 1;
            }
            proof {
                assert(all_strs(iv));
                assert(strings_view(out@) =~= iv.map_values(|v: JsonValue| v->Str_0));
            }
            Ok(out)
        },
        _ => Err(malformed_leaf(field, missing)),
    }
}

pub fn push_opt_str(ms: &mut Vec<(String, Json)>, name: &str, v: &Option<String>)
    ensures
        members_view(final(ms)@) == members_view(old(ms)@) + opt_str_member(name@, opt_view(*v)),
{
    match v {
        Some(t) => push_member(ms, name, Json::Str(t.clone())),
        None => {},
    }
    proof {
        assert(members_view(ms@) =~= members_view(old(ms)@) + opt_str_member(name@, opt_view(*v)));
    }
}

pub fn push_opt_num(ms: &mut Vec<(String, Json)>, name: &str, v: &Option<String>)
    ensures
        members_view(final(ms)@) == members_view(old(ms)@) + opt_num_member(name@, opt_view(*v)),
{
    match v {
        Some(t) => push_member(ms, name, Json::Number(t.clone())),
        None => {},
    }
    proof {
        assert(members_view(ms@) =~= members_view(old(ms)@) + opt_num_member(name@, opt_view(*v)));
    }
}

pub fn strs_to_json(v: &Vec<String>) -> (r: Json)
    ensures
        r@ == strs_json(strings_view(v@)),
{
    let mut items = crate::json::empty_items();
    let mut i: usize = 0;
    while i < v.len()
        invariant
            0 <= i <= v.len(),
            crate::json::items_view(items@) == strings_view(v@.subrange(0, i as int)).map_values(|t: Seq<char>| JsonValue::Str(t)),
        decreases v.len() - i,
    {
        crate::json::push_item(&mut items, Json::Str(v[i].clone()));
        proof {
            assert(strings_view(v@.subrange(0, i + 1)).map_values(|t: Seq<char>| JsonValue::Str(t)) =~= strings_view(v@.subrange(0, i as int)).map_values(|t: Seq<char>| JsonValue::Str(t)).push(JsonValue::Str(v@[i as int]@)));
        }
        i = i + 1;
    }
    proof {
        assert(v@.subrange(0, v@.len() as int) =~= v@);
    }
    Json::Array(items)
}

/// A required number member.
pub open spec fn req_num(inner: Seq<(Seq<char>, JsonValue)>, name: Seq<char>, field: Seq<char>) -> Result<Seq<char>, DecodeErrorView> {
    match lookup(inner, name) {
        Some(JsonValue::Number(t)) => Ok(t),
        _ => Err(DecodeErrorView::MalformedLeaf { field, missing: name }),
    }
}

/// An optional object member; `null` counts as absent.
pub open spec fn obj_opt(inner: Seq<(Seq<char>, JsonValue)>, name: Seq<char>, field: Seq<char>) -> Result<Option<JsonValue>, DecodeErrorView> {
    match lookup(inner, name) {
        None => Ok(None),
        Some(JsonValue::Null) => Ok(None),
        Some(JsonValue::Object(m)) => Ok(Some(JsonValue::Object(m))),
        _ => Err(DecodeErrorView::MalformedLeaf { field, missing: name }),
    }
}

/// A required object member.
pub open spec fn obj_req(inner: Seq<(Seq<char>, JsonValue)>, name: Seq<char>, field: Seq<char>) -> Result<JsonValue, DecodeErrorView> {
    match lookup(inner, name) {
        Some(JsonValue::Object(m)) => Ok(JsonValue::Object(m)),
        _ => Err(DecodeErrorView::MalformedLeaf { field, missing: name }),
    }
}

/// The member `name: true` when `b` holds; nothing otherwise.
pub open spec fn flag_member(name: Seq<char>, b: bool) -> Seq<(Seq<char>, JsonValue)> {
    if b {
        seq![(name, JsonValue::Bool(true))]
    } else {
        seq![]
    }
}

/// The member `name: j` when `v` is `Some(j)`.
pub open spec fn opt_json_member(name: Seq<char>, v: Option<JsonValue>) -> Seq<(Seq<char>, JsonValue)> {
    match v {
        Some(j) => seq![(name, j)],
        None => seq![],
    }
}

pub fn read_req_num(inner: &Vec<(String, Json)>, name: &str, field: &str) -> (r: Result<String, DecodeError>)
    ensures
        crate::error::result_view(r) == req_num(members_view(inner@), name@, field@),
{
    match get_member(inner, name) {
        Some(Json::Number(t)) => Ok(t.clone()),
        _ => Err(malformed_leaf(field, name)),
    }
}

pub fn read_obj_opt(inner: &Vec<(String, Json)>, name: &str, field: &str) -> (r: Result<Option<Json>, DecodeError>)
    ensures
        match r {
            Ok(v) => obj_opt(members_view(inner@), name@, field@) == Ok::<Option<JsonValue>, DecodeErrorView>(crate::json::opt_json_view(v)),
            Err(e) => obj_opt(members_view(inner@), name@, field@) == Err::<Option<JsonValue>, DecodeErrorView>(e@),
        },
{
    match get_member(inner, name) {
        None => Ok(None),
        Some(Json::Null) => Ok(None),
        Some(j) => match j {
            Json::Object(_) => Ok(Some(j.deep_clone())),
            _ => Err(malformed_leaf(field, name)),
        },
    }
}

pub fn read_obj_req(inner: &Vec<(String, Json)>, name: &str, field: &str) -> (r: Result<Json, DecodeError>)
    ensures
        crate::error::result_view(r) == obj_req(members_view(inner@), name@, field@),
{
    match get_member(inner, name) {
        Some(j) => match j {
            Json::Object(_) => Ok(j.deep_clone()),
            _ => Err(malformed_leaf(field, name)),
        },
        None => Err(malformed_leaf(field, name)),
    }
}

pub fn push_req_str(ms: &mut Vec<(String, Json)>, name: &str, v: &String)
    ensures
        members_view(final(ms)@) == members_view(old(ms)@) + seq![(name@, JsonValue::Str(v@))],
{
    push_member(ms, name, Json::Str(v.clone()));
    proof {
        assert(members_view(ms@) =~= members_view(old(ms)@) + seq![(name@, JsonValue::Str(v@))]);
    }
}

pub fn push_req_num(ms: &mut Vec<(String, Json)>, name: &str, v: &String)
    ensures
        members_view(final(ms)@) == members_view(old(ms)@) + seq![(name@, JsonValue::Number(v@))],
{
    push_member(ms, name, Json::Number(v.clone()));
    proof {
        assert(members_view(ms@) =~= members_view(old(ms)@) + seq![(name@, JsonValue::Number(v@))]);
    }
}

pub fn push_flag(ms: &mut Vec<(String, Json)>, name: &str, b: bool)
    ensures
        members_view(final(ms)@) == members_view(old(ms)@) + flag_member(name@, b),
{
    if b {
        push_member(ms, name, Json::Bool(true));
    }
    proof {
        assert(members_view(ms@) =~= members_view(old(ms)@) + flag_member(name@, b));
    }
}

pub fn push_opt_json(ms: &mut Vec<(String, Json)>, name: &str, v: &Option<Json>)
    ensures
        members_view(final(ms)@) == members_view(old(ms)@) + opt_json_member(name@, crate::json::opt_json_view(*v)),
{
    match v {
        Some(j) => push_member(ms, name, j.deep_clone()),
        None => {},
    }
    proof {
        assert(members_view(ms@) =~= members_view(old(ms)@) + opt_json_member(name@, crate::json::opt_json_view(*v)));
    }
}

pub fn push_req_json(ms: &mut Vec<(String, Json)>, name: &str, v: &Json)
    ensures
        members_view(final(ms)@) == members_view(old(ms)@) + seq![(name@, v@)],
{
    push_member(ms, name, v.deep_clone());
    proof {
        assert(members_view(ms@) =~= members_view(old(ms)@) + seq![(name@, v@)]);
    }
}

pub proof fn lemma_opt_str_member(name: Seq<char>, v: Option<Seq<char>>, key: Seq<char>)
    ensures
        lookup(opt_str_member(name, v), key) == if name == key && v is Some {
            Some(JsonValue::Str(v->0))
        } else {
            None::<JsonValue>
        },
{
    if v is Some {
        crate::json::lemma_lookup_one(name, JsonValue::Str(v->0), key);
    }
}

pub proof fn lemma_opt_num_member(name: Seq<char>, v: Option<Seq<char>>, key: Seq<char>)
    ensures
        lookup(opt_num_member(name, v), key) == if name == key && v is Some {
            Some(JsonValue::Number(v->0))
        } else {
            None::<JsonValue>
        },
{
    if v is Some {
        crate::json::lemma_lookup_one(name, JsonValue::Number(v->0), key);
    }
}

pub proof fn lemma_opt_json_member(name: Seq<char>, v: Option<JsonValue>, key: Seq<char>)
    ensures
        lookup(opt_json_member(name, v), key) == if name == key && v is Some {
            Some(v->0)
        } else {
            None::<JsonValue>
        },
{
    if v is Some {
        crate::json::lemma_lookup_one(name, v->0, key);
    }
}

pub proof fn lemma_flag_member(name: Seq<char>, b: bool, key: Seq<char>)
    ensures
        lookup(flag_member(name, b), key) == if name == key && b {
            Some(JsonValue::Bool(true))
        } else {
            None::<JsonValue>
        },
{
    if b {
        crate::json::lemma_lookup_one(name, JsonValue::Bool(true), key);
    }
}

/// A boolean member, `d` when absent or `null`.
pub open spec fn bool_or(inner: Seq<(Seq<char>, JsonValue)>, name: Seq<char>, field: Seq<char>, d: bool) -> Result<bool, DecodeErrorView> {
    match lookup(inner, name) {
        None => Ok(d),
        Some(JsonValue::Null) => Ok(d),
        Some(JsonValue::Bool(b)) => Ok(b),
        _ => Err(DecodeErrorView::MalformedLeaf { field, missing: name }),
    }
}

/// A number member kept as text, `d` when absent or `null`.
pub open spec fn num_or(inner: Seq<(Seq<char>, JsonValue)>, name: Seq<char>, d: Seq<char>) -> Result<Seq<char>, DecodeErrorView> {
    match lookup(inner, name) {
        None => Ok(d),
        Some(JsonValue::Null) => Ok(d),
        Some(JsonValue::Number(t)) => Ok(t),
        Some(JsonValue::Str(t)) => Err(DecodeErrorView::InvalidNumber { field: name, value: t }),
        _ => Err(DecodeErrorView::InvalidNumber { field: name, value: ""@ }),
    }
}

/// An `i32` member, `d` when absent or `null`.
pub open spec fn i32_or(inner: Seq<(Seq<char>, JsonValue)>, name: Seq<char>, d: i32) -> Result<i32, DecodeErrorView> {
    match lookup(inner, name) {
        None => Ok(d),
        Some(JsonValue::Null) => Ok(d),
        Some(JsonValue::Number(t)) => if is_i32_text(t) {
            Ok(int_of(t) as i32)
        } else {
            Err(DecodeErrorView::InvalidNumber { field: name, value: t })
        },
        Some(JsonValue::Str(t)) => Err(DecodeErrorView::InvalidNumber { field: name, value: t }),
        _ => Err(DecodeErrorView::InvalidNumber { field: name, value: ""@ }),
    }
}

/// A list of strings, empty when absent or `null`.
pub open spec fn strs_or_empty(inner: Seq<(Seq<char>, JsonValue)>, name: Seq<char>, field: Seq<char>) -> Result<Seq<Seq<char>>, DecodeErrorView> {
    match lookup(inner, name) {
        None => Ok(seq![]),
        Some(JsonValue::Null) => Ok(seq![]),
        _ => req_strs(inner, name, field, name),
    }
}

pub open spec fn bool_member(name: Seq<char>, b: bool) -> Seq<(Seq<char>, JsonValue)> {
    seq![(name, JsonValue::Bool(b))]
}

pub open spec fn num_member(name: Seq<char>, t: Seq<char>) -> Seq<(Seq<char>, JsonValue)> {
    seq![(name, JsonValue::Number(t))]
}

pub open spec fn i32_member(name: Seq<char>, v: i32) -> Seq<(Seq<char>, JsonValue)> {
    seq![(name, JsonValue::Number(int_text(v as int)))]
}

/// `name: [..]` for a non-empty list of strings.
pub open spec fn strs_member(name: Seq<char>, v: Seq<Seq<char>>) -> Seq<(Seq<char>, JsonValue)> {
    if v.len() == 0 {
        seq![]
    } else {
        seq![(name, strs_json(v))]
    }
}

pub fn read_bool_or(inner: &Vec<(String, Json)>, name: &str, field: &str, d: bool) -> (r: Result<bool, DecodeError>)
    ensures
        match r {
            Ok(v) => bool_or(members_view(inner@), name@, field@, d) == Ok::<bool, DecodeErrorView>(v),
            Err(e) => bool_or(members_view(inner@), name@, field@, d) == Err::<bool, DecodeErrorView>(e@),
        },
{
    match get_member(inner, name) {
        None => Ok(d),
        Some(Json::Null) => Ok(d),
        Some(Json::Bool(b)) => Ok(*b),
        _ => Err(malformed_leaf(field, name)),
    }
}

pub fn read_num_or(inner: &Vec<(String, Json)>, name: &str, d: &str) -> (r: Result<String, DecodeError>)
    ensures
        crate::error::result_view(r) == num_or(members_view(inner@), name@, d@),
{
    match get_member(inner, name) {
        None => Ok(d.to_owned()),
        Some(Json::Null) => Ok(d.to_owned()),
        Some(Json::Number(t)) => Ok(t.clone()),
        Some(Json::Str(t)) => Err(invalid_number(name, t.as_str())),
        _ => Err(invalid_number(name, "")),
    }
}

pub fn read_i32_or(inner: &Vec<(String, Json)>, name: &str, d: i32) -> (r: Result<i32, DecodeError>)
    ensures
        match r {
            Ok(v) => i32_or(members_view(inner@), name@, d) == Ok::<i32, DecodeErrorView>(v),
            Err(e) => i32_or(members_view(inner@), name@, d) == Err::<i32, DecodeErrorView>(e@),
        },
{
    match get_member(inner, name) {
        None => Ok(d),
        Some(Json::Null) => Ok(d),
        Some(Json::Number(t)) => match parse_i32(t.as_str()) {
            Some(v) => Ok(v),
            None => Err(invalid_number(name, t.as_str())),
        },
        Some(Json::Str(t)) => Err(invalid_number(name, t.as_str())),
        _ => Err(invalid_number(name, "")),
    }
}

pub fn read_strs_or_empty(inner: &Vec<(String, Json)>, name: &str, field: &str) -> (r: Result<Vec<String>, DecodeError>)
    ensures
        match r {
            Ok(v) => strs_or_empty(members_view(inner@), name@, field@) == Ok::<Seq<Seq<char>>, DecodeErrorView>(strings_view(v@)),
            Err(e) => strs_or_empty(members_view(inner@), name@, field@) == Err::<Seq<Seq<char>>, DecodeErrorView>(e@),
        },
{
    match get_member(inner, name) {
        None => {
            let v: Vec<String> = Vec::new();
            proof {
                assert(strings_view(v@) =~= seq![]);
            }
            Ok(v)
        },
        Some(Json::Null) => {
            let v: Vec<String> = Vec::new();
            proof {
                assert(strings_view(v@) =~= seq![]);
            }
            Ok(v)
        },
        _ => read_req_strs(inner, name, field, name),
    }
}

pub fn push_bool(ms: &mut Vec<(String, Json)>, name: &str, b: bool)
    ensures
        members_view(final(ms)@) == members_view(old(ms)@) + bool_member(name@, b),
{
    push_member(ms, name, Json::Bool(b));
    proof {
        assert(members_view(ms@) =~= members_view(old(ms)@) + bool_member(name@, b));
    }
}

pub fn push_i32(ms: &mut Vec<(String, Json)>, name: &str, v: i32)
    ensures
        members_view(final(ms)@) == members_view(old(ms)@) + i32_member(name@, v),
{
    push_member(ms, name, Json::Number(i32_text(v)));
    proof {
        assert(members_view(ms@) =~= members_view(old(ms)@) + i32_member(name@, v));
    }
}

pub fn push_strs(ms: &mut Vec<(String, Json)>, name: &str, v: &Vec<String>)
    ensures
        members_view(final(ms)@) == members_view(old(ms)@) + strs_member(name@, strings_view(v@)),
{
    if v.len() > 0 {
        push_member(ms, name, strs_to_json(v));
    }
    proof {
        assert(members_view(ms@) =~= members_view(old(ms)@) + strs_member(name@, strings_view(v@)));
    }
}

/// A list of strings found where it was encoded reads back.
pub proof fn lemma_strs_slot(b: Seq<(Seq<char>, JsonValue)>, name: Seq<char>, field: Seq<char>, v: Seq<Seq<char>>)
    requires
        lookup(b, name) == if v.len() > 0 {
            Some(strs_json(v))
        } else {
            None::<JsonValue>
        },
    ensures
        strs_or_empty(b, name, field) == Ok::<Seq<Seq<char>>, DecodeErrorView>(v),
{
    if v.len() > 0 {
        let items = v.map_values(|x: Seq<char>| JsonValue::Str(x));
        assert(all_strs(items));
        assert(items.map_values(|j: JsonValue| j->Str_0) =~= v);
    } else {
        assert(v =~= seq![]);
    }
}

/// An `i32` found where it was encoded reads back.
pub proof fn lemma_i32_slot(b: Seq<(Seq<char>, JsonValue)>, name: Seq<char>, v: i32, d: i32)
    requires
        lookup(b, name) == Some(JsonValue::Number(int_text(v as int))),
    ensures
        i32_or(b, name, d) == Ok::<i32, DecodeErrorView>(v),
{
    lemma_i32_text(v);
}

pub proof fn lemma_strs_member(name: Seq<char>, v: Seq<Seq<char>>, key: Seq<char>)
    ensures
        lookup(strs_member(name, v), key) == if name == key && v.len() > 0 {
            Some(strs_json(v))
        } else {
            None::<JsonValue>
        },
{
    if v.len() > 0 {
        crate::json::lemma_lookup_one(name, strs_json(v), key);
    }
}

/// The name of the first member that does not hold a string.
pub open spec fn first_non_str(inner: Seq<(Seq<char>, JsonValue)>) -> Option<Seq<char>>
    decreases inner.len(),
{
    if inner.len() == 0 {
        None
    } else if !(inner[0].1 is Str) {
        Some(inner[0].0)
    } else {
        first_non_str(inner.subrange(1, inner.len() as int))
    }
}

proof fn lemma_first_non_str_skip(s: Seq<(Seq<char>, JsonValue)>, i: int)
    requires
        0 <= i <= s.len(),
        forall|j: int| 0 <= j < i ==> (#[trigger] s[j]).1 is Str,
    ensures
        first_non_str(s) == first_non_str(s.subrange(i, s.len() as int)),
    decreases i,
{
    if i == 0 {
        assert(s.subrange(0, s.len() as int) =~= s);
    } else {
        let rest = s.subrange(1, s.len() as int);
        assert(s[0].1 is Str);
        assert forall|j: int| 0 <= j < i - 1 implies (#[trigger] rest[j]).1 is Str by {
            assert(rest[j] == s[j + 1]);
        }
        lemma_first_non_str_skip(rest, i - 1);
        assert(rest.subrange(i - 1, rest.len() as int) =~= s.subrange(i, s.len() as int));
    }
}

/// Members that all hold strings have no first non-string member.
pub proof fn lemma_first_non_str_none(s: Seq<(Seq<char>, JsonValue)>)
    requires
        forall|j: int| 0 <= j < s.len() ==> (#[trigger] s[j]).1 is Str,
    ensures
        first_non_str(s) is None,
{
    lemma_first_non_str_skip(s, s.len() as int);
    assert(s.subrange(s.len() as int, s.len() as int).len() == 0);
}

/// The name of the first member that does not hold a string.
pub fn find_non_str(inner: &Vec<(String, Json)>) -> (r: Option<String>)
    ensures
        match r {
            Some(k) => first_non_str(members_view(inner@)) == Some(k@),
            None => first_non_str(members_view(inner@)) is None,
        },
{
    proof {
        crate::json::lemma_members_index(inner@);
    }
    let ghost mv = members_view(inner@);
    let mut i: usize = 0;
    while i < inner.len()
        invariant
            0 <= i <= inner.len(),
            mv == members_view(inner@),
            mv.len() == inner@.len(),
            forall|j: int| 0 <= j < inner@.len() ==> #[trigger] mv[j] == (inner@[j].0@, crate::json::json_view(inner@[j].1)),
            forall|j: int| 0 <= j < i ==> (#[trigger] mv[j]).1 is Str,
        decreases inner.len() - i,
    {
        match &inner[i].1 {
            Json::Str(_) => {},
            _ => {
                proof {
                    lemma_first_non_str_skip(mv, i as int);
                    let t = mv.subrange(i as int, mv.len() as int);
                    assert(t[0] == mv[i as int]);
                }
                return Some(inner[i].0.clone());
            },
        }
        i = i + 1;
    }
    proof {
        lemma_first_non_str_skip(mv, i as int);
    }
    None
}

/// An optional number member where `null` is no number: only absence
/// leaves it out.
pub open spec fn num_present(inner: Seq<(Seq<char>, JsonValue)>, name: Seq<char>) -> Result<Option<Seq<char>>, DecodeErrorView> {
    match lookup(inner, name) {
        None => Ok(None),
        Some(JsonValue::Number(t)) => Ok(Some(t)),
        Some(JsonValue::Str(t)) => Err(DecodeErrorView::InvalidNumber { field: name, value: t }),
        _ => Err(DecodeErrorView::InvalidNumber { field: name, value: ""@ }),
    }
}

pub fn read_num_present(inner: &Vec<(String, Json)>, name: &str) -> (r: Result<Option<String>, DecodeError>)
    ensures
        match r {
            Ok(v) => num_present(members_view(inner@), name@) == Ok::<Option<Seq<char>>, DecodeErrorView>(opt_view(v)),
            Err(e) => num_present(members_view(inner@), name@) == Err::<Option<Seq<char>>, DecodeErrorView>(e@),
        },
{
    match get_member(inner, name) {
        None => Ok(None),
        Some(Json::Number(t)) => Ok(Some(t.clone())),
        Some(Json::Str(t)) => Err(invalid_number(name, t.as_str())),
        _ => Err(invalid_number(name, "")),
    }
}

} // verus!
