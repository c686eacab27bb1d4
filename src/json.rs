//! The JSON documents that requests encode to and responses decode from.
use vstd::prelude::*;

verus! {

/// A JSON document. A number keeps the decimal text it was written with, and
/// an object keeps its members in the order they were written.
#[derive(Debug)]
pub enum Json {
    Null,
    Bool(bool),
    Number(String),
    Str(String),
    Array(Vec<Json>),
    Object(Vec<(String, Json)>),
}

/// The mathematical value of a [`Json`] document.
pub enum JsonValue {
    Null,
    Bool(bool),
    Number(Seq<char>),
    Str(Seq<char>),
    Array(Seq<JsonValue>),
    Object(Seq<(Seq<char>, JsonValue)>),
}

pub open spec fn json_view(j: Json) -> JsonValue
    decreases j, 0nat,
{
    match j {
        Json::Null => JsonValue::Null,
        Json::Bool(b) => JsonValue::Bool(b),
        Json::Number(n) => JsonValue::Number(n@),
        Json::Str(s) => JsonValue::Str(s@),
        Json::Array(items) => JsonValue::Array(items_view(items@)),
        Json::Object(members) => JsonValue::Object(members_view(members@)),
    }
}

pub open spec fn items_view(s: Seq<Json>) -> Seq<JsonValue>
    decreases s, 1nat,
{
    if s.len() == 0 {
        Seq::empty()
    } else {
        items_view(s.subrange(0, s.len() - 1)).push(json_view(s[s.len() - 1]))
    }
}

pub open spec fn members_view(s: Seq<(String, Json)>) -> Seq<(Seq<char>, JsonValue)>
    decreases s, 1nat,
{
    if s.len() == 0 {
        Seq::empty()
    } else {
        members_view(s.subrange(0, s.len() - 1)).push(
            (s[s.len() - 1].0@, json_view(s[s.len() - 1].1)),
        )
    }
}

impl View for Json {
    type V = JsonValue;

    open spec fn view(&self) -> JsonValue {
        json_view(*self)
    }
}


/// The value of the first member of `members` named `key`.
pub open spec fn lookup(members: Seq<(Seq<char>, JsonValue)>, key: Seq<char>) -> Option<JsonValue>
    decreases members.len(),
{
    if members.len() == 0 {
        None
    } else if members[0].0 == key {
        Some(members[0].1)
    } else {
        lookup(members.subrange(1, members.len() as int), key)
    }
}

pub proof fn lemma_items_push(s: Seq<Json>, x: Json)
    ensures
        items_view(s.push(x)) == items_view(s).push(json_view(x)),
{
    assert(s.push(x).subrange(0, s.len() as int) =~= s);
}

pub proof fn lemma_members_push(s: Seq<(String, Json)>, x: (String, Json))
    ensures
        members_view(s.push(x)) == members_view(s).push((x.0@, json_view(x.1))),
{
    assert(s.push(x).subrange(0, s.len() as int) =~= s);
}

pub proof fn lemma_items_index(s: Seq<Json>)
    ensures
        items_view(s).len() == s.len(),
        forall|i: int| 0 <= i < s.len() ==> #[trigger] items_view(s)[i] == json_view(s[i]),
    decreases s.len(),
{
    if s.len() > 0 {
        lemma_items_index(s.subrange(0, s.len() - 1));
    }
}

pub proof fn lemma_members_index(s: Seq<(String, Json)>)
    ensures
        members_view(s).len() == s.len(),
        forall|i: int|
            0 <= i < s.len() ==> #[trigger] members_view(s)[i] == (s[i].0@, json_view(s[i].1)),
    decreases s.len(),
{
    if s.len() > 0 {
        lemma_members_index(s.subrange(0, s.len() - 1));
    }
}

/// A lookup that did not match the first `i` members looks in the rest.
pub proof fn lemma_lookup_skip(members: Seq<(Seq<char>, JsonValue)>, key: Seq<char>, i: int)
    requires
        0 <= i <= members.len(),
        forall|j: int| 0 <= j < i ==> members[j].0 != key,
    ensures
        lookup(members, key) == lookup(members.subrange(i, members.len() as int), key),
    decreases i,
{
    if i == 0 {
        assert(members.subrange(0, members.len() as int) =~= members);
    } else {
        let rest = members.subrange(1, members.len() as int);
        assert(members[0].0 != key);
        assert forall|j: int| 0 <= j < i - 1 implies rest[j].0 != key by {
            assert(rest[j] == members[j + 1]);
        }
        lemma_lookup_skip(rest, key, i - 1);
        assert(rest.subrange(i - 1, rest.len() as int) =~= members.subrange(i, members.len() as int));
    }
}

/// Compares a string with a literal.
pub fn str_eq(a: &str, b: &str) -> (r: bool)
    ensures
        r == (a@ == b@),
{
    let x = a.to_owned();
    let y = b.to_owned();
    x == y
}

/// The position of the first member of `members` named `key`.
pub fn member_index(members: &Vec<(String, Json)>, key: &str) -> (r: Option<usize>)
    ensures
        match r {
            None => lookup(members_view(members@), key@) is None,
            Some(i) => i < members@.len() && members@[i as int].0@ == key@ && lookup(
                members_view(members@),
                key@,
            ) == Some(json_view(members@[i as int].1)),
        },
{
    proof {
        lemma_members_index(members@);
    }
    let mut i: usize = 0;
    while i < members.len()
        invariant
            0 <= i <= members.len(),
            members_view(members@).len() == members@.len(),
            forall|j: int| 0 <= j < members@.len() ==> #[trigger] members_view(members@)[j] == (
            members@[j].0@, json_view(members@[j].1)),
            forall|j: int| 0 <= j < i ==> members_view(members@)[j].0 != key@,
        decreases members.len() - i,
    {
        if str_eq(members[i].0.as_str(), key) {
            proof {
                lemma_lookup_skip(members_view(members@), key@, i as int);
            }
            return Some(i);
        }
        i = i + 1;
    }
    proof {
        lemma_lookup_skip(members_view(members@), key@, i as int);
    }
    None
}

/// The value of the first member of `members` named `key`.
pub fn get_member<'a>(members: &'a Vec<(String, Json)>, key: &str) -> (r: Option<&'a Json>)
    ensures
        match lookup(members_view(members@), key@) {
            None => r is None,
            Some(v) => r is Some && r->0@ == v,
        },
{
    match member_index(members, key) {
        Some(i) => Some(&members[i].1),
        None => None,
    }
}

/// The number of nodes in a document, which recursion over it decreases.
pub open spec fn json_size(j: Json) -> nat
    decreases j, 0nat,
{
    match j {
        Json::Array(items) => 1 + items_size(items@),
        Json::Object(members) => 1 + members_size(members@),
        _ => 1,
    }
}

pub open spec fn items_size(s: Seq<Json>) -> nat
    decreases s, 1nat,
{
    if s.len() == 0 {
        0
    } else {
        items_size(s.subrange(0, s.len() - 1)) + json_size(s[s.len() - 1])
    }
}

pub open spec fn members_size(s: Seq<(String, Json)>) -> nat
    decreases s, 1nat,
{
    if s.len() == 0 {
        0
    } else {
        members_size(s.subrange(0, s.len() - 1)) + json_size(s[s.len() - 1].1)
    }
}

pub proof fn lemma_items_size(s: Seq<Json>, i: int)
    requires
        0 <= i < s.len(),
    ensures
        json_size(s[i]) <= items_size(s),
    decreases s.len(),
{
    if i < s.len() - 1 {
        lemma_items_size(s.subrange(0, s.len() - 1), i);
    }
}

pub proof fn lemma_members_size(s: Seq<(String, Json)>, i: int)
    requires
        0 <= i < s.len(),
    ensures
        json_size(s[i].1) <= members_size(s),
    decreases s.len(),
{
    if i < s.len() - 1 {
        lemma_members_size(s.subrange(0, s.len() - 1), i);
    }
}

impl Json {
    /// A copy of this document.
    pub fn deep_clone(&self) -> (r: Json)
        ensures
            r@ == self@,
        decreases json_size(*self),
    {
        match self {
            Json::Null => Json::Null,
            Json::Bool(b) => Json::Bool(*b),
            Json::Number(n) => Json::Number(n.clone()),
            Json::Str(s) => Json::Str(s.clone()),
            Json::Array(items) => {
                let mut out: Vec<Json> = Vec::new();
                let mut i: usize = 0;
                while i < items.len()
                    invariant
                        0 <= i <= items.len(),
                        json_size(*self) == 1 + items_size(items@),
                        items_view(out@) == items_view(items@.subrange(0, i as int)),
                    decreases items.len() - i,
                {
                    proof {
                        lemma_items_size(items@, i as int);
                    }
                    let c = items[i].deep_clone();
                    proof {
                        lemma_items_push(out@, c);
                        lemma_items_push(items@.subrange(0, i as int), items@[i as int]);
                        assert(items@.subrange(0, i as int).push(items@[i as int]) =~= items@.subrange(0, i + 1));
                    }
                    out.push(c);
                    i = i + 1;
                }
                assert(items@.subrange(0, items@.len() as int) =~= items@);
                Json::Array(out)
            },
            Json::Object(members) => {
                let mut out: Vec<(String, Json)> = Vec::new();
                let mut i: usize = 0;
                while i < members.len()
                    invariant
                        0 <= i <= members.len(),
                        json_size(*self) == 1 + members_size(members@),
                        members_view(out@) == members_view(members@.subrange(0, i as int)),
                    decreases members.len() - i,
                {
                    proof {
                        lemma_members_size(members@, i as int);
                    }
                    let c = (members[i].0.clone(), members[i].1.deep_clone());
                    proof {
                        lemma_members_push(out@, c);
                        lemma_members_push(members@.subrange(0, i as int), members@[i as int]);
                        assert(members@.subrange(0, i as int).push(members@[i as int]) =~= members@.subrange(0, i + 1));
                    }
                    out.push(c);
                    i = i + 1;
                }
                assert(members@.subrange(0, members@.len() as int) =~= members@);
                Json::Object(out)
            },
        }
    }
}

/// Appends the member `key: value` to an object under construction.
pub fn push_member(members: &mut Vec<(String, Json)>, key: &str, value: Json)
    ensures
        members_view(final(members)@) == members_view(old(members)@).push((key@, value@)),
{
    let m = (key.to_owned(), value);
    proof {
        lemma_members_push(members@, m);
    }
    members.push(m);
}

/// Appends an item to an array under construction.
pub fn push_item(items: &mut Vec<Json>, value: Json)
    ensures
        items_view(final(items)@) == items_view(old(items)@).push(value@),
{
    proof {
        lemma_items_push(items@, value);
    }
    items.push(value);
}

/// A JSON string holding `s`.
pub fn json_str(s: &str) -> (r: Json)
    ensures
        r@ == JsonValue::Str(s@),
{
    Json::Str(s.to_owned())
}

/// An object with the single member `key: value`.
pub fn single_member(key: &str, value: Json) -> (r: Json)
    ensures
        r@ == JsonValue::Object(seq![(key@, value@)]),
{
    let mut ms: Vec<(String, Json)> = Vec::new();
    proof {
        assert(members_view(ms@) =~= Seq::<(Seq<char>, JsonValue)>::empty());
    }
    push_member(&mut ms, key, value);
    proof {
        assert(members_view(ms@) =~= seq![(key@, value@)]);
    }
    Json::Object(ms)
}

/// An empty object or array under construction.
pub fn empty_members() -> (r: Vec<(String, Json)>)
    ensures
        members_view(r@) == Seq::<(Seq<char>, JsonValue)>::empty(),
{
    let r: Vec<(String, Json)> = Vec::new();
    proof {
        assert(members_view(r@) =~= Seq::<(Seq<char>, JsonValue)>::empty());
    }
    r
}

pub fn empty_items() -> (r: Vec<Json>)
    ensures
        items_view(r@) == Seq::<JsonValue>::empty(),
{
    let r: Vec<Json> = Vec::new();
    proof {
        assert(items_view(r@) =~= Seq::<JsonValue>::empty());
    }
    r
}

/// A lookup in `a + b`, where `a` holds at most one member.
pub proof fn lemma_lookup_prefix(
    a: Seq<(Seq<char>, JsonValue)>,
    b: Seq<(Seq<char>, JsonValue)>,
    key: Seq<char>,
)
    requires
        a.len() <= 1,
    ensures
        lookup(a + b, key) == if a.len() == 1 && a[0].0 == key {
            Some(a[0].1)
        } else {
            lookup(b, key)
        },
{
    if a.len() == 0 {
        assert(a + b =~= b);
    } else {
        assert((a + b).subrange(1, (a + b).len() as int) =~= b);
    }
}

pub open spec fn opt_view(o: Option<String>) -> Option<Seq<char>> {
    match o {
        Some(s) => Some(s@),
        None => None,
    }
}

pub open spec fn opt_json_view(o: Option<Json>) -> Option<JsonValue> {
    match o {
        Some(j) => Some(j@),
        None => None,
    }
}

pub open spec fn strings_view(v: Seq<String>) -> Seq<Seq<char>> {
    v.map_values(|s: String| s@)
}

/// A lookup in `a + b` finds a member of `a` first.
pub proof fn lemma_lookup_concat(
    a: Seq<(Seq<char>, JsonValue)>,
    b: Seq<(Seq<char>, JsonValue)>,
    key: Seq<char>,
)
    ensures
        lookup(a + b, key) == match lookup(a, key) {
            Some(v) => Some(v),
            None => lookup(b, key),
        },
    decreases a.len(),
{
    if a.len() == 0 {
        assert(a + b =~= b);
    } else {
        let t = a.subrange(1, a.len() as int);
        lemma_lookup_concat(t, b, key);
        assert((a + b).subrange(1, (a + b).len() as int) =~= t + b);
    }
}

/// A lookup in a single member.
pub proof fn lemma_lookup_one(k: Seq<char>, v: JsonValue, key: Seq<char>)
    ensures
        lookup(seq![(k, v)], key) == if k == key {
            Some(v)
        } else {
            None::<JsonValue>
        },
{
    let s = seq![(k, v)];
    assert(s.subrange(1, s.len() as int) =~= Seq::<(Seq<char>, JsonValue)>::empty());
    assert(lookup(s.subrange(1, s.len() as int), key) is None);
    assert(s[0] == (k, v));
}

/// The lengths and first characters of the member names and tags of the
/// query language, which tell them apart.
pub proof fn lemma_query_keys()
    ensures
        "value"@.len() == 5 && "value"@[0] == 'v' && "value"@[1] == 'a',
        "boost"@.len() == 5 && "boost"@[0] == 'b' && "boost"@[1] == 'o',
        "gt"@.len() == 2 && "gt"@[0] == 'g' && "gt"@[1] == 't',
        "gte"@.len() == 3 && "gte"@[0] == 'g' && "gte"@[1] == 't',
        "lt"@.len() == 2 && "lt"@[0] == 'l' && "lt"@[1] == 't',
        "lte"@.len() == 3 && "lte"@[0] == 'l' && "lte"@[1] == 't',
        "time_zone"@.len() == 9 && "time_zone"@[0] == 't' && "time_zone"@[1] == 'i',
        "flags"@.len() == 5 && "flags"@[0] == 'f' && "flags"@[1] == 'l',
        "case_insensitive"@.len() == 16 && "case_insensitive"@[0] == 'c' && "case_insensitive"@[1] == 'a',
        "query"@.len() == 5 && "query"@[0] == 'q' && "query"@[1] == 'u',
        "field"@.len() == 5 && "field"@[0] == 'f' && "field"@[1] == 'i',
        "must"@.len() == 4 && "must"@[0] == 'm' && "must"@[1] == 'u',
        "filter"@.len() == 6 && "filter"@[0] == 'f' && "filter"@[1] == 'i',
        "should"@.len() == 6 && "should"@[0] == 's' && "should"@[1] == 'h',
        "must_not"@.len() == 8 && "must_not"@[0] == 'm' && "must_not"@[1] == 'u',
        "minimum_should_match"@.len() == 20 && "minimum_should_match"@[0] == 'm' && "minimum_should_match"@[1] == 'i',
        "exists"@.len() == 6 && "exists"@[0] == 'e' && "exists"@[1] == 'x',
        "term"@.len() == 4 && "term"@[0] == 't' && "term"@[1] == 'e',
        "terms"@.len() == 5 && "terms"@[0] == 't' && "terms"@[1] == 'e',
        "range"@.len() == 5 && "range"@[0] == 'r' && "range"@[1] == 'a',
        "regexp"@.len() == 6 && "regexp"@[0] == 'r' && "regexp"@[1] == 'e',
        "prefix"@.len() == 6 && "prefix"@[0] == 'p' && "prefix"@[1] == 'r',
        "match"@.len() == 5 && "match"@[0] == 'm' && "match"@[1] == 'a',
        "bool"@.len() == 4 && "bool"@[0] == 'b' && "bool"@[1] == 'o',
        "nested"@.len() == 6 && "nested"@[0] == 'n' && "nested"@[1] == 'e',
        "path"@.len() == 4 && "path"@[0] == 'p' && "path"@[1] == 'a',
        "ignore_unmapped"@.len() == 15 && "ignore_unmapped"@[0] == 'i' && "ignore_unmapped"@[1] == 'g',
        "query_string"@.len() == 12 && "query_string"@[0] == 'q' && "query_string"@[1] == 'u',
        "simple_query_string"@.len() == 19 && "simple_query_string"@[0] == 's' && "simple_query_string"@[1] == 'i',
{
    reveal_strlit("value");
    reveal_strlit("boost");
    reveal_strlit("gt");
    reveal_strlit("gte");
    reveal_strlit("lt");
    reveal_strlit("lte");
    reveal_strlit("time_zone");
    reveal_strlit("flags");
    reveal_strlit("case_insensitive");
    reveal_strlit("query");
    reveal_strlit("field");
    reveal_strlit("must");
    reveal_strlit("filter");
    reveal_strlit("should");
    reveal_strlit("must_not");
    reveal_strlit("minimum_should_match");
    reveal_strlit("exists");
    reveal_strlit("term");
    reveal_strlit("terms");
    reveal_strlit("range");
    reveal_strlit("regexp");
    reveal_strlit("prefix");
    reveal_strlit("match");
    reveal_strlit("bool");
    reveal_strlit("nested");
    reveal_strlit("path");
    reveal_strlit("ignore_unmapped");
    reveal_strlit("query_string");
    reveal_strlit("simple_query_string");
}

} // verus!
