//! The error envelope of a failed request and the response to a bulk
//! request: one item per action, each a success or an error.
use vstd::prelude::*;

use crate::error::{invalid_number, malformed_leaf, result_view, DecodeError, DecodeErrorView};
use crate::json::{
    get_member, items_size, items_view, json_size, json_view, lemma_items_index, lemma_items_size,
    lemma_members_index, lemma_members_size, lookup, member_index, members_size, members_view, str_eq,
    Json, JsonValue,
};
use crate::leaf::{read_req_str, req_str};
use crate::sorted_value::{all_digits, digits_value, parse_u64};

verus! {

/// The error Elasticsearch reports, with the errors that caused it.
#[derive(Debug)]
pub struct ErrResponse {
    pub ty: String,
    pub reason: String,
    pub index: String,
    pub index_uuid: String,
    pub root_cause: Vec<ErrResponse>,
}

pub struct ErrResponseView {
    pub ty: Seq<char>,
    pub reason: Seq<char>,
    pub index: Seq<char>,
    pub index_uuid: Seq<char>,
    pub root_cause: Seq<ErrResponseView>,
}

pub open spec fn err_view(e: ErrResponse) -> ErrResponseView
    decreases e, 0nat,
{
    ErrResponseView {
        ty: e.ty@,
        reason: e.reason@,
        index: e.index@,
        index_uuid: e.index_uuid@,
        root_cause: errs_view(e.root_cause@),
    }
}

pub open spec fn errs_view(s: Seq<ErrResponse>) -> Seq<ErrResponseView>
    decreases s, 1nat,
{
    if s.len() == 0 {
        Seq::empty()
    } else {
        errs_view(s.subrange(0, s.len() - 1)).push(err_view(s[s.len() - 1]))
    }
}

impl View for ErrResponse {
    type V = ErrResponseView;

    open spec fn view(&self) -> ErrResponseView {
        err_view(*self)
    }
}

/// The error an `error` object denotes; `root_cause` may be absent.
pub open spec fn err_from(v: JsonValue) -> Result<ErrResponseView, DecodeErrorView>
    decreases v, 0nat,
{
    match v {
        JsonValue::Object(m) => match req_str(m, "type"@, "error"@) {
            Err(e) => Err(e),
            Ok(ty) => match req_str(m, "reason"@, "error"@) {
                Err(e) => Err(e),
                Ok(reason) => match req_str(m, "index"@, "error"@) {
                    Err(e) => Err(e),
                    Ok(index) => match req_str(m, "index_uuid"@, "error"@) {
                        Err(e) => Err(e),
                        Ok(index_uuid) => match causes_member(m) {
                            Err(e) => Err(e),
                            Ok(root_cause) => Ok(
                                ErrResponseView { ty, reason, index, index_uuid, root_cause },
                            ),
                        },
                    },
                },
            },
        },
        _ => Err(DecodeErrorView::MalformedResponse { reason: "error"@ }),
    }
}

/// The causes under the first `root_cause` member: absent or `null` is none.
pub open spec fn causes_member(m: Seq<(Seq<char>, JsonValue)>) -> Result<Seq<ErrResponseView>, DecodeErrorView>
    decreases m, 1nat,
{
    if m.len() == 0 {
        Ok(Seq::empty())
    } else if m[0].0 == "root_cause"@ {
        match m[0].1 {
            JsonValue::Null => Ok(Seq::empty()),
            JsonValue::Array(items) => causes_from(items),
            _ => Err(DecodeErrorView::MalformedLeaf { field: "error"@, missing: "root_cause"@ }),
        }
    } else {
        causes_member(m.subrange(1, m.len() as int))
    }
}

/// Each cause decoded in order; the first failure is the result.
pub open spec fn causes_from(items: Seq<JsonValue>) -> Result<Seq<ErrResponseView>, DecodeErrorView>
    decreases items, 2nat,
{
    if items.len() == 0 {
        Ok(Seq::empty())
    } else {
        match err_from(items[0]) {
            Err(e) => Err(e),
            Ok(x) => match causes_from(items.subrange(1, items.len() as int)) {
                Err(e) => Err(e),
                Ok(rest) => Ok(seq![x] + rest),
            },
        }
    }
}

pub open spec fn causes_of(c: Option<JsonValue>) -> Result<Seq<ErrResponseView>, DecodeErrorView> {
    match c {
        None => Ok(Seq::empty()),
        Some(JsonValue::Null) => Ok(Seq::empty()),
        Some(JsonValue::Array(items)) => causes_from(items),
        _ => Err(DecodeErrorView::MalformedLeaf { field: "error"@, missing: "root_cause"@ }),
    }
}

proof fn lemma_causes_member(m: Seq<(Seq<char>, JsonValue)>)
    ensures
        causes_member(m) == causes_of(lookup(m, "root_cause"@)),
    decreases m.len(),
{
    if m.len() > 0 && m[0].0 != "root_cause"@ {
        lemma_causes_member(m.subrange(1, m.len() as int));
    }
}

proof fn lemma_errs_view_push(s: Seq<ErrResponse>, e: ErrResponse)
    ensures
        errs_view(s.push(e)) == errs_view(s).push(err_view(e)),
{
    assert(s.push(e).subrange(0, s.len() as int) =~= s);
}

/// Prefix `done` onto a decode result.
pub open spec fn prepend_errs(done: Seq<ErrResponseView>, r: Result<Seq<ErrResponseView>, DecodeErrorView>) -> Result<Seq<ErrResponseView>, DecodeErrorView> {
    match r {
        Ok(rest) => Ok(done + rest),
        Err(e) => Err(e),
    }
}

impl ErrResponse {
    /// Decodes an `error` object.
    pub fn from_json(j: &Json) -> (r: Result<ErrResponse, DecodeError>)
        ensures
            result_view(r) == err_from(j@),
        decreases json_size(*j), 0nat,
    {
        match j {
            Json::Object(m) => {
                let ty = match read_req_str(m, "type", "error") {
                    Ok(v) => v,
                    Err(e) => return Err(e),
                };
                let reason = match read_req_str(m, "reason", "error") {
                    Ok(v) => v,
                    Err(e) => return Err(e),
                };
                let index = match read_req_str(m, "index", "error") {
                    Ok(v) => v,
                    Err(e) => return Err(e),
                };
                let index_uuid = match read_req_str(m, "index_uuid", "error") {
                    Ok(v) => v,
                    Err(e) => return Err(e),
                };
                let root_cause = match read_causes(m) {
                    Ok(v) => v,
                    Err(e) => return Err(e),
                };
                Ok(ErrResponse { ty, reason, index, index_uuid, root_cause })
            },
            _ => Err(crate::error::malformed_response("error")),
        }
    }
}

fn read_causes(m: &Vec<(String, Json)>) -> (r: Result<Vec<ErrResponse>, DecodeError>)
    ensures
        match r {
            Ok(v) => causes_member(members_view(m@)) == Ok::<Seq<ErrResponseView>, DecodeErrorView>(errs_view(v@)),
            Err(e) => causes_member(members_view(m@)) == Err::<Seq<ErrResponseView>, DecodeErrorView>(e@),
        },
    decreases members_size(m@), 2nat,
{
    proof {
        lemma_causes_member(members_view(m@));
    }
    match member_index(m, "root_cause") {
        None => {
            let v: Vec<ErrResponse> = Vec::new();
            proof {
                assert(errs_view(v@) =~= Seq::<ErrResponseView>::empty());
            }
            Ok(v)
        },
        Some(idx) => {
            proof {
                lemma_members_size(m@, idx as int);
            }
            match &m[idx].1 {
                Json::Null => {
                    let v: Vec<ErrResponse> = Vec::new();
                    proof {
                        assert(errs_view(v@) =~= Seq::<ErrResponseView>::empty());
                    }
                    Ok(v)
                },
                Json::Array(items) => causes_from_json(items),
                _ => Err(malformed_leaf("error", "root_cause")),
            }
        },
    }
}

fn causes_from_json(items: &Vec<Json>) -> (r: Result<Vec<ErrResponse>, DecodeError>)
    ensures
        match r {
            Ok(v) => causes_from(items_view(items@)) == Ok::<Seq<ErrResponseView>, DecodeErrorView>(errs_view(v@)),
            Err(e) => causes_from(items_view(items@)) == Err::<Seq<ErrResponseView>, DecodeErrorView>(e@),
        },
    decreases items_size(items@), 1nat,
{
    let ghost iv = items_view(items@);
    proof {
        lemma_items_index(items@);
        assert(iv.subrange(0, iv.len() as int) =~= iv);
        assert(errs_view(Seq::<ErrResponse>::empty()) =~= Seq::<ErrResponseView>::empty());
        match causes_from(iv) {
            Ok(x) => {
                assert(Seq::<ErrResponseView>::empty() + x =~= x);
            },
            Err(_) => {},
        }
    }
    let mut out: Vec<ErrResponse> = Vec::new();
    let mut i: usize = 0;
    while i < items.len()
        invariant
            0 <= i <= items.len(),
            iv == items_view(items@),
            iv.len() == items@.len(),
            forall|j: int| 0 <= j < items@.len() ==> #[trigger] iv[j] == json_view(items@[j]),
            causes_from(iv) == prepend_errs(errs_view(out@), causes_from(iv.subrange(i as int, iv.len() as int))),
        decreases items.len() - i,
    {
        proof {
            lemma_items_size(items@, i as int);
            let t = iv.subrange(i as int, iv.len() as int);
            assert(t[0] == iv[i as int]);
            assert(t.subrange(1, t.len() as int) =~= iv.subrange(i + 1, iv.len() as int));
        }
        let e = match ErrResponse::from_json(&items[i]) {
            Ok(e) => e,
            Err(err) => return Err(err),
        };
        proof {
            lemma_errs_view_push(out@, e);
            match causes_from(iv.subrange(i + 1, iv.len() as int)) {
                Ok(rest) => {
                    assert(errs_view(out@) + (seq![err_view(e)] + rest) =~= errs_view(out@).push(err_view(e)) + rest);
                },
                Err(_) => {},
            }
        }
        out.push(e);
        i = i + 1;
    }
    proof {
        assert(iv.subrange(i as int, iv.len() as int) =~= Seq::<JsonValue>::empty());
        assert(errs_view(out@) + Seq::<ErrResponseView>::empty() =~= errs_view(out@));
    }
    Ok(out)
}

/// A required unsigned member that fits in `bound`.
pub open spec fn uint_member(m: Seq<(Seq<char>, JsonValue)>, name: Seq<char>, field: Seq<char>, bound: nat) -> Result<nat, DecodeErrorView> {
    match lookup(m, name) {
        Some(JsonValue::Number(t)) => if all_digits(t) && digits_value(t) <= bound {
            Ok(digits_value(t))
        } else {
            Err(DecodeErrorView::InvalidNumber { field: name, value: t })
        },
        _ => Err(DecodeErrorView::MalformedLeaf { field, missing: name }),
    }
}

pub(crate) fn read_uint(m: &Vec<(String, Json)>, name: &str, field: &str, bound: u64) -> (r: Result<u64, DecodeError>)
    ensures
        match r {
            Ok(n) => uint_member(members_view(m@), name@, field@, bound as nat) == Ok::<nat, DecodeErrorView>(n as nat),
            Err(e) => uint_member(members_view(m@), name@, field@, bound as nat) == Err::<nat, DecodeErrorView>(e@),
        },
{
    match get_member(m, name) {
        Some(Json::Number(t)) => match parse_u64(t.as_str()) {
            Some(n) => {
                if n <= bound {
                    Ok(n)
                } else {
                    Err(invalid_number(name, t.as_str()))
                }
            },
            None => Err(invalid_number(name, t.as_str())),
        },
        _ => Err(malformed_leaf(field, name)),
    }
}

/// The document returned with a successful item, if any.
#[derive(Debug)]
pub struct Get {
    pub source: Option<Json>,
}

/// A successful item.
#[derive(Debug)]
pub struct OkItem {
    pub id: String,
    pub index: String,
    pub get: Option<Get>,
}

/// The result of one action: a success, or the error with its HTTP status.
#[derive(Debug)]
pub enum Item {
    Success(OkItem),
    Failure { error: ErrResponse, status: u16 },
}

/// One action of a bulk request, tagged by its operation.
#[derive(Debug)]
pub enum Action {
    Create(Item),
    Index(Item),
    Update(Item),
    Delete(Item),
}

pub enum ItemView {
    Success { id: Seq<char>, index: Seq<char>, get: Option<Option<JsonValue>> },
    Failure { error: ErrResponseView, status: u16 },
}

pub enum Operation {
    Create,
    Index,
    Update,
    Delete,
}

pub open spec fn item_view(i: Item) -> ItemView {
    match i {
        Item::Success(o) => ItemView::Success {
            id: o.id@,
            index: o.index@,
            get: match o.get {
                Some(g) => Some(crate::json::opt_json_view(g.source)),
                None => None,
            },
        },
        Item::Failure { error, status } => ItemView::Failure { error: error@, status },
    }
}

impl View for Action {
    type V = (Operation, ItemView);

    open spec fn view(&self) -> (Operation, ItemView) {
        match self {
            Action::Create(i) => (Operation::Create, item_view(*i)),
            Action::Index(i) => (Operation::Index, item_view(*i)),
            Action::Update(i) => (Operation::Update, item_view(*i)),
            Action::Delete(i) => (Operation::Delete, item_view(*i)),
        }
    }
}

/// The `get` member of a successful item: absent or `null` is none, an
/// object holds an optional `_source`.
pub open spec fn get_from(m: Seq<(Seq<char>, JsonValue)>) -> Result<Option<Option<JsonValue>>, DecodeErrorView> {
    match lookup(m, "get"@) {
        None => Ok(None),
        Some(JsonValue::Null) => Ok(None),
        Some(JsonValue::Object(g)) => Ok(
            Some(
                match lookup(g, "_source"@) {
                    None => None,
                    Some(JsonValue::Null) => None,
                    Some(s) => Some(s),
                },
            ),
        ),
        _ => Err(DecodeErrorView::MalformedLeaf { field: "item"@, missing: "get"@ }),
    }
}

/// An item: an error when it has an `error` member, a success otherwise.
pub open spec fn item_from(v: JsonValue) -> Result<ItemView, DecodeErrorView> {
    match v {
        JsonValue::Object(m) => match lookup(m, "error"@) {
            Some(ev) => match err_from(ev) {
                Err(e) => Err(e),
                Ok(error) => match uint_member(m, "status"@, "item"@, 0xffff) {
                    Err(e) => Err(e),
                    Ok(status) => Ok(ItemView::Failure { error, status: status as u16 }),
                },
            },
            None => match req_str(m, "_id"@, "item"@) {
                Err(e) => Err(e),
                Ok(id) => match req_str(m, "_index"@, "item"@) {
                    Err(e) => Err(e),
                    Ok(index) => match get_from(m) {
                        Err(e) => Err(e),
                        Ok(get) => Ok(ItemView::Success { id, index, get }),
                    },
                },
            },
        },
        _ => Err(DecodeErrorView::MalformedLeaf { field: "item"@, missing: "_id"@ }),
    }
}

/// An action: `{ "<operation>": <item> }`.
pub open spec fn action_from(v: JsonValue) -> Result<(Operation, ItemView), DecodeErrorView> {
    match v {
        JsonValue::Object(m) => if m.len() != 1 {
            Err(DecodeErrorView::MalformedQuery { reason: "zero_or_multiple"@, tag: None })
        } else {
            let op = if m[0].0 == "create"@ {
                Some(Operation::Create)
            } else if m[0].0 == "index"@ {
                Some(Operation::Index)
            } else if m[0].0 == "update"@ {
                Some(Operation::Update)
            } else if m[0].0 == "delete"@ {
                Some(Operation::Delete)
            } else {
                None
            };
            match op {
                None => Err(DecodeErrorView::InvalidEnum { name: "action"@, value: m[0].0 }),
                Some(o) => match item_from(m[0].1) {
                    Err(e) => Err(e),
                    Ok(i) => Ok((o, i)),
                },
            }
        },
        _ => Err(DecodeErrorView::MalformedQuery { reason: "zero_or_multiple"@, tag: None }),
    }
}

impl Item {
    pub fn from_json(j: &Json) -> (r: Result<Item, DecodeError>)
        ensures
            match r {
                Ok(i) => item_from(j@) == Ok::<ItemView, DecodeErrorView>(item_view(i)),
                Err(e) => item_from(j@) == Err::<ItemView, DecodeErrorView>(e@),
            },
    {
        match j {
            Json::Object(m) => match get_member(m, "error") {
                Some(ev) => {
                    let error = match ErrResponse::from_json(ev) {
                        Ok(e) => e,
                        Err(e) => return Err(e),
                    };
                    let status = match read_uint(m, "status", "item", 0xffff) {
                        Ok(s) => s as u16,
                        Err(e) => return Err(e),
                    };
                    Ok(Item::Failure { error, status })
                },
                None => {
                    let id = match read_req_str(m, "_id", "item") {
                        Ok(v) => v,
                        Err(e) => return Err(e),
                    };
                    let index = match read_req_str(m, "_index", "item") {
                        Ok(v) => v,
                        Err(e) => return Err(e),
                    };
                    let get = match get_member(m, "get") {
                        None => None,
                        Some(Json::Null) => None,
                        Some(Json::Object(g)) => Some(
                            Get {
                                source: match get_member(g, "_source") {
                                    None => None,
                                    Some(Json::Null) => None,
                                    Some(s) => Some(s.deep_clone()),
                                },
                            },
                        ),
                        _ => return Err(malformed_leaf("item", "get")),
                    };
                    Ok(Item::Success(OkItem { id, index, get }))
                },
            },
            _ => Err(malformed_leaf("item", "_id")),
        }
    }
}

impl Action {
    /// Decodes `{ "create" | "index" | "update" | "delete": <item> }`.
    pub fn from_json(j: &Json) -> (r: Result<Action, DecodeError>)
        ensures
            match r {
                Ok(a) => action_from(j@) == Ok::<(Operation, ItemView), DecodeErrorView>(a@),
                Err(e) => action_from(j@) == Err::<(Operation, ItemView), DecodeErrorView>(e@),
            },
    {
        match j {
            Json::Object(m) => {
                proof {
                    lemma_members_index(m@);
                }
                if m.len() != 1 {
                    return Err(crate::error::malformed_query("zero_or_multiple"));
                }
                let op = m[0].0.as_str();
                if !(str_eq(op, "create") || str_eq(op, "index") || str_eq(op, "update") || str_eq(op, "delete")) {
                    return Err(crate::error::invalid_enum("action", op));
                }
                let item = match Item::from_json(&m[0].1) {
                    Ok(i) => i,
                    Err(e) => return Err(e),
                };
                if str_eq(op, "create") {
                    Ok(Action::Create(item))
                } else if str_eq(op, "index") {
                    Ok(Action::Index(item))
                } else if str_eq(op, "update") {
                    Ok(Action::Update(item))
                } else {
                    Ok(Action::Delete(item))
                }
            },
            _ => Err(crate::error::malformed_query("zero_or_multiple")),
        }
    }
}

/// The response to a bulk request.
#[derive(Debug)]
pub struct Response {
    pub took: u64,
    /// Whether any item failed.
    pub errors: bool,
    pub items: Vec<Action>,
}

pub open spec fn actions_view(s: Seq<Action>) -> Seq<(Operation, ItemView)> {
    s.map_values(|a: Action| a@)
}

/// Each action decoded in order; the first failure is the result.
pub open spec fn actions_from(items: Seq<JsonValue>) -> Result<Seq<(Operation, ItemView)>, DecodeErrorView>
    decreases items.len(),
{
    if items.len() == 0 {
        Ok(Seq::empty())
    } else {
        match action_from(items[0]) {
            Err(e) => Err(e),
            Ok(a) => match actions_from(items.subrange(1, items.len() as int)) {
                Err(e) => Err(e),
                Ok(rest) => Ok(seq![a] + rest),
            },
        }
    }
}

/// The envelope `{ "took": n, "errors": b, "items": [..] }`.
pub open spec fn bulk_from(v: JsonValue) -> Result<(nat, bool, Seq<(Operation, ItemView)>), DecodeErrorView> {
    match v {
        JsonValue::Object(m) => match uint_member(m, "took"@, "bulk"@, u64::MAX as nat) {
            Err(e) => Err(e),
            Ok(took) => match lookup(m, "errors"@) {
                Some(JsonValue::Bool(errors)) => match lookup(m, "items"@) {
                    Some(JsonValue::Array(items)) => match actions_from(items) {
                        Err(e) => Err(e),
                        Ok(actions) => Ok((took, errors, actions)),
                    },
                    _ => Err(DecodeErrorView::MalformedResponse { reason: "items"@ }),
                },
                _ => Err(DecodeErrorView::MalformedResponse { reason: "errors"@ }),
            },
        },
        _ => Err(DecodeErrorView::MalformedResponse { reason: "took"@ }),
    }
}

impl Response {
    /// Decodes a bulk response; it fails on the first action that does.
    pub fn from_json(j: &Json) -> (r: Result<Response, DecodeError>)
        ensures
            match r {
                Ok(b) => bulk_from(j@) == Ok::<(nat, bool, Seq<(Operation, ItemView)>), DecodeErrorView>(
                    (b.took as nat, b.errors, actions_view(b.items@)),
                ),
                Err(e) => bulk_from(j@) == Err::<(nat, bool, Seq<(Operation, ItemView)>), DecodeErrorView>(e@),
            },
    {
        let m = match j {
            Json::Object(m) => m,
            _ => return Err(crate::error::malformed_response("took")),
        };
        let took = match read_uint(m, "took", "bulk", u64::MAX) {
            Ok(t) => t,
            Err(e) => return Err(e),
        };
        let errors = match get_member(m, "errors") {
            Some(Json::Bool(b)) => *b,
            _ => return Err(crate::error::malformed_response("errors")),
        };
        let items = match get_member(m, "items") {
            Some(Json::Array(items)) => items,
            _ => return Err(crate::error::malformed_response("items")),
        };
        proof {
            lemma_items_index(items@);
        }
        let ghost iv = items_view(items@);
        proof {
            assert(iv.subrange(0, iv.len() as int) =~= iv);
            assert(actions_view(Seq::<Action>::empty()) =~= Seq::<(Operation, ItemView)>::empty());
            match actions_from(iv) {
                Ok(x) => {
                    assert(Seq::<(Operation, ItemView)>::empty() + x =~= x);
                },
                Err(_) => {},
            }
        }
        let mut out: Vec<Action> = Vec::new();
        let mut i: usize = 0;
        while i < items.len()
            invariant
                0 <= i <= items.len(),
                iv == items_view(items@),
                iv.len() == items@.len(),
                bulk_from(j@) == match actions_from(iv) {
                    Ok(a) => Ok((took as nat, errors, a)),
                    Err(e) => Err::<(nat, bool, Seq<(Operation, ItemView)>), DecodeErrorView>(e),
                },
                forall|k: int| 0 <= k < items@.len() ==> #[trigger] iv[k] == json_view(items@[k]),
                actions_from(iv) == match actions_from(iv.subrange(i as int, iv.len() as int)) {
                    Ok(rest) => Ok(actions_view(out@) + rest),
                    Err(e) => Err::<Seq<(Operation, ItemView)>, DecodeErrorView>(e),
                },
            decreases items.len() - i,
        {
            proof {
                let t = iv.subrange(i as int, iv.len() as int);
                assert(t[0] == iv[i as int]);
                assert(t.subrange(1, t.len() as int) =~= iv.subrange(i + 1, iv.len() as int));
            }
            let a = match Action::from_json(&items[i]) {
                Ok(a) => a,
                Err(e) => return Err(e),
            };
            proof {
                assert(actions_view(out@.push(a)) =~= actions_view(out@).push(a@));
                match actions_from(iv.subrange(i + 1, iv.len() as int)) {
                    Ok(rest) => {
                        assert(actions_view(out@) + (seq![a@] + rest) =~= actions_view(out@).push(a@) + rest);
                    },
                    Err(_) => {},
                }
            }
            out.push(a);
            i = i + 1;
        }
        proof {
            assert(iv.subrange(i as int, iv.len() as int) =~= Seq::<JsonValue>::empty());
            assert(actions_view(out@) + Seq::<(Operation, ItemView)>::empty() =~= actions_view(out@));
        }
        Ok(Response { took, errors, items: out })
    }
}

} // verus!
