//! Sort criteria: `{ "<field>": { "order": .., "mode": .., "unmapped_type": "keyword" } }`.
use vstd::prelude::*;

use crate::error::{invalid_enum, malformed_leaf, DecodeError, DecodeErrorView};
use crate::json::{
    empty_members, get_member, json_str, lemma_lookup_prefix, lemma_members_index, lookup,
    members_view, push_member,
    single_member, str_eq, Json, JsonValue,
};

verus! {

/// The sort order.
#[derive(Clone, Copy, Debug, PartialEq, Eq, Structural)]
pub enum SortOrder {
    /// Ascending.
    Asc,
    /// Descending.
    Desc,
}

/// How an array-valued field collapses to one sort value.
#[derive(Clone, Copy, Debug, PartialEq, Eq, Structural)]
pub enum SortMode {
    /// The lowest value.
    Min,
    /// The highest value.
    Max,
    /// The sum of the values.
    Sum,
    /// The average of the values.
    Avg,
    /// The median of the values.
    Median,
}

pub open spec fn order_name(o: SortOrder) -> Seq<char> {
    match o {
        SortOrder::Asc => "asc"@,
        SortOrder::Desc => "desc"@,
    }
}

pub open spec fn mode_name(m: SortMode) -> Seq<char> {
    match m {
        SortMode::Min => "min"@,
        SortMode::Max => "max"@,
        SortMode::Sum => "sum"@,
        SortMode::Avg => "avg"@,
        SortMode::Median => "median"@,
    }
}

pub open spec fn order_of(s: Seq<char>) -> Option<SortOrder> {
    if s == "asc"@ {
        Some(SortOrder::Asc)
    } else if s == "desc"@ {
        Some(SortOrder::Desc)
    } else {
        None
    }
}

pub open spec fn mode_of(s: Seq<char>) -> Option<SortMode> {
    if s == "min"@ {
        Some(SortMode::Min)
    } else if s == "max"@ {
        Some(SortMode::Max)
    } else if s == "sum"@ {
        Some(SortMode::Sum)
    } else if s == "avg"@ {
        Some(SortMode::Avg)
    } else if s == "median"@ {
        Some(SortMode::Median)
    } else {
        None
    }
}

impl SortOrder {
    /// The wire name of this order.
    pub fn name(&self) -> (r: &'static str)
        ensures
            r@ == order_name(*self),
    {
        match self {
            SortOrder::Asc => "asc",
            SortOrder::Desc => "desc",
        }
    }

    /// The order a wire name denotes.
    pub fn parse(s: &str) -> (r: Option<SortOrder>)
        ensures
            r == order_of(s@),
    {
        if str_eq(s, "asc") {
            Some(SortOrder::Asc)
        } else if str_eq(s, "desc") {
            Some(SortOrder::Desc)
        } else {
            None
        }
    }
}

impl SortMode {
    /// The wire name of this mode.
    pub fn name(&self) -> (r: &'static str)
        ensures
            r@ == mode_name(*self),
    {
        match self {
            SortMode::Min => "min",
            SortMode::Max => "max",
            SortMode::Sum => "sum",
            SortMode::Avg => "avg",
            SortMode::Median => "median",
        }
    }

    /// The mode a wire name denotes.
    pub fn parse(s: &str) -> (r: Option<SortMode>)
        ensures
            r == mode_of(s@),
    {
        if str_eq(s, "min") {
            Some(SortMode::Min)
        } else if str_eq(s, "max") {
            Some(SortMode::Max)
        } else if str_eq(s, "sum") {
            Some(SortMode::Sum)
        } else if str_eq(s, "avg") {
            Some(SortMode::Avg)
        } else if str_eq(s, "median") {
            Some(SortMode::Median)
        } else {
            None
        }
    }
}

/// One sort criterion.
#[derive(Debug)]
pub struct Sort {
    /// The field to sort by; `_score`, `_key` and `_count` are special.
    pub field: String,
    /// The order to sort in.
    pub order: Option<SortOrder>,
    /// The mode to sort with.
    pub mode: Option<SortMode>,
}

pub struct SortView {
    pub field: Seq<char>,
    pub order: Option<SortOrder>,
    pub mode: Option<SortMode>,
}

impl View for Sort {
    type V = SortView;

    open spec fn view(&self) -> SortView {
        SortView { field: self.field@, order: self.order, mode: self.mode }
    }
}

/// A special field: one whose name begins with `_`.
pub open spec fn is_special_field(f: Seq<char>) -> bool {
    f.len() > 0 && f[0] == '_'
}

/// The inner object of an encoded sort.
pub open spec fn sort_options(s: SortView) -> Seq<(Seq<char>, JsonValue)> {
    let o = match s.order {
        Some(o) => seq![("order"@, JsonValue::Str(order_name(o)))],
        None => seq![],
    };
    let m = match s.mode {
        Some(m) => seq![("mode"@, JsonValue::Str(mode_name(m)))],
        None => seq![],
    };
    let u = if is_special_field(s.field) {
        seq![]
    } else {
        seq![("unmapped_type"@, JsonValue::Str("keyword"@))]
    };
    o + m + u
}

/// The encoding of a sort: its field as the single key.
pub open spec fn sort_to_json(s: SortView) -> JsonValue {
    JsonValue::Object(seq![(s.field, JsonValue::Object(sort_options(s)))])
}

/// The optional `order` member of a sort's options.
pub open spec fn order_option(v: Option<JsonValue>) -> Result<Option<SortOrder>, DecodeErrorView> {
    match v {
        None => Ok(None),
        Some(JsonValue::Null) => Ok(None),
        Some(JsonValue::Str(t)) => match order_of(t) {
            Some(x) => Ok(Some(x)),
            None => Err(DecodeErrorView::InvalidEnum { name: "order"@, value: t }),
        },
        Some(_) => Err(DecodeErrorView::InvalidEnum { name: "order"@, value: ""@ }),
    }
}

/// The optional `mode` member of a sort's options.
pub open spec fn mode_option(v: Option<JsonValue>) -> Result<Option<SortMode>, DecodeErrorView> {
    match v {
        None => Ok(None),
        Some(JsonValue::Null) => Ok(None),
        Some(JsonValue::Str(t)) => match mode_of(t) {
            Some(x) => Ok(Some(x)),
            None => Err(DecodeErrorView::InvalidEnum { name: "mode"@, value: t }),
        },
        Some(_) => Err(DecodeErrorView::InvalidEnum { name: "mode"@, value: ""@ }),
    }
}

/// The sort a document denotes.
pub open spec fn sort_from_json(v: JsonValue) -> Result<SortView, DecodeErrorView> {
    match v {
        JsonValue::Object(ms) => if ms.len() != 1 {
            Err(DecodeErrorView::MalformedLeaf { field: ""@, missing: "field"@ })
        } else {
            match ms[0].1 {
                JsonValue::Object(inner) => {
                    match order_option(lookup(inner, "order"@)) {
                        Err(e) => Err(e),
                        Ok(order) => match mode_option(lookup(inner, "mode"@)) {
                            Err(e) => Err(e),
                            Ok(mode) => Ok(SortView { field: ms[0].0, order, mode }),
                        },
                    }
                },
                _ => Err(DecodeErrorView::MalformedLeaf { field: ms[0].0, missing: "options"@ }),
            }
        },
        _ => Err(DecodeErrorView::MalformedLeaf { field: ""@, missing: "field"@ }),
    }
}

fn starts_with_underscore(s: &str) -> (r: bool)
    ensures
        r == is_special_field(s@),
{
    let n = s.unicode_len();
    n > 0 && s.get_char(0) == '_'
}

fn read_order(inner: &Vec<(String, Json)>) -> (r: Result<Option<SortOrder>, DecodeError>)
    ensures
        result_view_copy(r) == order_option(lookup(members_view(inner@), "order"@)),
{
    match get_member(inner, "order") {
        None => Ok(None),
        Some(Json::Null) => Ok(None),
        Some(Json::Str(t)) => match SortOrder::parse(t.as_str()) {
            Some(o) => Ok(Some(o)),
            None => Err(invalid_enum("order", t.as_str())),
        },
        Some(_) => Err(invalid_enum("order", "")),
    }
}

fn read_mode(inner: &Vec<(String, Json)>) -> (r: Result<Option<SortMode>, DecodeError>)
    ensures
        result_view_copy(r) == mode_option(lookup(members_view(inner@), "mode"@)),
{
    match get_member(inner, "mode") {
        None => Ok(None),
        Some(Json::Null) => Ok(None),
        Some(Json::Str(t)) => match SortMode::parse(t.as_str()) {
            Some(m) => Ok(Some(m)),
            None => Err(invalid_enum("mode", t.as_str())),
        },
        Some(_) => Err(invalid_enum("mode", "")),
    }
}

/// The value of a decode result whose success value is its own model.
pub open spec fn result_view_copy<T>(r: Result<T, DecodeError>) -> Result<T, DecodeErrorView> {
    match r {
        Ok(t) => Ok(t),
        Err(e) => Err(e@),
    }
}

impl Sort {
    /// A sort on `field`.
    pub fn new(field: &str, order: Option<SortOrder>, mode: Option<SortMode>) -> (r: Sort)
        ensures
            r@ == (SortView { field: field@, order, mode }),
    {
        Sort { field: field.to_owned(), order, mode }
    }

    /// Sorting on the tie-breaker field `id` alone.
    pub fn default() -> (r: Sort)
        ensures
            r@ == (SortView { field: "id"@, order: None, mode: None }),
    {
        Sort { field: "id".to_owned(), order: None, mode: None }
    }

    /// Encodes this sort; a special field gets no `unmapped_type`.
    pub fn to_json(&self) -> (r: Json)
        ensures
            r@ == sort_to_json(self@),
    {
        let mut inner = empty_members();
        match self.order {
            Some(o) => push_member(&mut inner, "order", json_str(o.name())),
            None => {},
        }
        match self.mode {
            Some(m) => push_member(&mut inner, "mode", json_str(m.name())),
            None => {},
        }
        if !starts_with_underscore(self.field.as_str()) {
            push_member(&mut inner, "unmapped_type", json_str("keyword"));
        }
        proof {
            assert(members_view(inner@) =~= sort_options(self@));
        }
        single_member(self.field.as_str(), Json::Object(inner))
    }

    /// Decodes a sort.
    pub fn from_json(j: &Json) -> (r: Result<Sort, DecodeError>)
        ensures
            crate::error::result_view(r) == sort_from_json(j@),
    {
        match j {
            Json::Object(ms) => {
                proof {
                    lemma_members_index(ms@);
                }
                if ms.len() != 1 {
                    return Err(malformed_leaf("", "field"));
                }
                match &ms[0].1 {
                    Json::Object(inner) => {
                        let order = match read_order(inner) {
                            Ok(o) => o,
                            Err(e) => return Err(e),
                        };
                        let mode = match read_mode(inner) {
                            Ok(m) => m,
                            Err(e) => return Err(e),
                        };
                        Ok(Sort { field: ms[0].0.clone(), order, mode })
                    },
                    _ => Err(malformed_leaf(ms[0].0.as_str(), "options")),
                }
            },
            _ => Err(malformed_leaf("", "field")),
        }
    }
}

/// Each order's wire name denotes that order.
pub proof fn lemma_order_name(o: SortOrder)
    ensures
        order_of(order_name(o)) == Some(o),
{
    reveal_strlit("asc");
    reveal_strlit("desc");
    assert("asc"@[0] == 'a' && "desc"@[0] == 'd');
    assert("asc"@ != "desc"@);
}

/// Each mode's wire name denotes that mode.
pub proof fn lemma_mode_name(m: SortMode)
    ensures
        mode_of(mode_name(m)) == Some(m),
{
    reveal_strlit("min");
    reveal_strlit("max");
    reveal_strlit("sum");
    reveal_strlit("avg");
    reveal_strlit("median");
    assert("min"@[0] == 'm' && "min"@[1] == 'i');
    assert("max"@[0] == 'm' && "max"@[1] == 'a');
    assert("sum"@[0] == 's');
    assert("avg"@[0] == 'a');
    assert("median"@[0] == 'm' && "median"@[1] == 'e');
    assert("min"@ != "max"@ && "min"@ != "sum"@ && "min"@ != "avg"@ && "min"@ != "median"@);
    assert("max"@ != "sum"@ && "max"@ != "avg"@ && "max"@ != "median"@);
    assert("sum"@ != "avg"@ && "sum"@ != "median"@ && "avg"@ != "median"@);
}

/// Decoding an encoded sort gives the sort back.
pub proof fn lemma_sort_round_trip(s: SortView)
    ensures
        sort_from_json(sort_to_json(s)) == Ok::<SortView, DecodeErrorView>(s),
{
    reveal_strlit("order");
    reveal_strlit("mode");
    reveal_strlit("unmapped_type");
    reveal_strlit("asc");
    reveal_strlit("desc");
    reveal_strlit("min");
    reveal_strlit("max");
    reveal_strlit("sum");
    reveal_strlit("avg");
    reveal_strlit("median");
    let o = match s.order {
        Some(o) => seq![("order"@, JsonValue::Str(order_name(o)))],
        None => seq![],
    };
    let m = match s.mode {
        Some(m) => seq![("mode"@, JsonValue::Str(mode_name(m)))],
        None => seq![],
    };
    let u = if is_special_field(s.field) {
        Seq::<(Seq<char>, JsonValue)>::empty()
    } else {
        seq![("unmapped_type"@, JsonValue::Str("keyword"@))]
    };
    let e = Seq::<(Seq<char>, JsonValue)>::empty();
    assert(sort_options(s) =~= o + (m + u));
    assert(u =~= u + e);
    lemma_lookup_prefix(o, m + u, "order"@);
    lemma_lookup_prefix(m, u, "order"@);
    lemma_lookup_prefix(u, e, "order"@);
    lemma_lookup_prefix(o, m + u, "mode"@);
    lemma_lookup_prefix(m, u, "mode"@);
    lemma_lookup_prefix(u, e, "mode"@);
    assert(lookup(e, "mode"@) is None);
    assert(lookup(e, "order"@) is None);
    let inner = sort_options(s);
    assert("order"@[0] == 'o' && "mode"@[0] == 'm' && "unmapped_type"@[0] == 'u');
    assert("order"@ != "mode"@);
    assert("order"@ != "unmapped_type"@);
    assert("mode"@ != "unmapped_type"@);
    assert(lookup(u, "order"@) is None);
    assert(lookup(u, "mode"@) is None);
    match s.order {
        Some(o) => {
            assert(lookup(inner, "order"@) == Some(JsonValue::Str(order_name(o))));
            lemma_order_name(o);
        },
        None => {
            assert(lookup(m + u, "order"@) is None);
            assert(lookup(inner, "order"@) is None);
        },
    }
    assert(lookup(inner, "mode"@) == lookup(m + u, "mode"@));
    match s.mode {
        Some(md) => {
            assert(lookup(m + u, "mode"@) == Some(JsonValue::Str(mode_name(md))));
            lemma_mode_name(md);
        },
        None => {
            assert(lookup(m + u, "mode"@) is None);
        },
    }
    assert(order_option(lookup(inner, "order"@)) == Ok::<Option<SortOrder>, DecodeErrorView>(s.order));
    assert(mode_option(lookup(inner, "mode"@)) == Ok::<Option<SortMode>, DecodeErrorView>(s.mode));
    let j = sort_to_json(s);
    assert(j->Object_0.len() == 1);
    assert(j->Object_0[0] == (s.field, JsonValue::Object(inner)));
}

/// A sort on a field that does not begin with `_` asks for
/// `unmapped_type: "keyword"`; one on a special field does not.
pub proof fn lemma_sort_unmapped_type(s: SortView)
    ensures
        !is_special_field(s.field) ==> sort_options(s).contains(
            ("unmapped_type"@, JsonValue::Str("keyword"@)),
        ),
        is_special_field(s.field) ==> forall|i: int|
            0 <= i < sort_options(s).len() ==> #[trigger] sort_options(s)[i].0 != "unmapped_type"@,
{
    reveal_strlit("order");
    reveal_strlit("mode");
    reveal_strlit("unmapped_type");
    let inner = sort_options(s);
    if !is_special_field(s.field) {
        assert(inner[inner.len() - 1] == ("unmapped_type"@, JsonValue::Str("keyword"@)));
    } else {
        assert forall|i: int| 0 <= i < inner.len() implies #[trigger] inner[i].0 != "unmapped_type"@ by {
            if s.order is Some && i == 0 {
                assert(inner[i].0 == "order"@);
            } else {
                assert(inner[i].0 == "mode"@);
            }
        }
    }
}

} // verus!
