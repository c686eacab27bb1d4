//! Aggregation requests: a named tree of aggregations, each of one kind.
use vstd::prelude::*;

use crate::error::{
    invalid_enum, malformed_leaf, malformed_query, result_view, DecodeError, DecodeErrorView,
};
use crate::json::{
    empty_items, empty_members, get_member, items_view, json_size, json_str, json_view,
    lemma_items_index, lemma_members_index, lemma_members_size, lookup, member_index, members_size,
    members_view, opt_json_view, opt_view, push_item, push_member, single_member, str_eq, Json,
    JsonValue,
};
use crate::leaf::{
    flag_member, obj_opt, obj_req, opt_bool, opt_json_member, opt_num, opt_num_member, opt_str,
    opt_str_member, push_flag, push_opt_json, push_opt_num, push_opt_str, push_req_json,
    push_req_num, push_req_str, read_obj_opt, read_obj_req, read_opt_bool, read_opt_num,
    read_opt_str, read_req_num, read_req_str, req_num, req_str,
};
use crate::query::{
    compound_from, compound_json, compound_wf, lemma_compound_round_trip, CompoundQuery,
    CompoundQueryView,
};
use crate::json::{lemma_lookup_concat, lemma_lookup_one};
use crate::leaf::{lemma_flag_member, lemma_opt_json_member, lemma_opt_num_member, lemma_opt_str_member};
use crate::search::{lemma_script_round_trip, script_from, script_json, script_wf, Script, ScriptView};
use crate::sort::{lemma_sort_round_trip, sort_from_json, sort_to_json, Sort, SortView};

verus! {

/// The single-value and statistics aggregations over one field.
#[derive(Clone, Copy, Debug, PartialEq, Eq, Structural)]
pub enum MetricKind {
    Avg,
    Cardinality,
    Max,
    Min,
    MedianAbsoluteDeviation,
    Percentiles,
    PercentileRanks,
    Stats,
    ExtendedStats,
    Sum,
    ValueCount,
}

pub open spec fn metric_key(k: MetricKind) -> Seq<char> {
    match k {
        MetricKind::Avg => "avg"@,
        MetricKind::Cardinality => "cardinality"@,
        MetricKind::Max => "max"@,
        MetricKind::Min => "min"@,
        MetricKind::MedianAbsoluteDeviation => "median_absolute_deviation"@,
        MetricKind::Percentiles => "percentiles"@,
        MetricKind::PercentileRanks => "percentile_ranks"@,
        MetricKind::Stats => "stats"@,
        MetricKind::ExtendedStats => "extended_stats"@,
        MetricKind::Sum => "sum"@,
        MetricKind::ValueCount => "value_count"@,
    }
}

pub open spec fn metric_of(s: Seq<char>) -> Option<MetricKind> {
    if s == "avg"@ {
        Some(MetricKind::Avg)
    } else if s == "cardinality"@ {
        Some(MetricKind::Cardinality)
    } else if s == "max"@ {
        Some(MetricKind::Max)
    } else if s == "min"@ {
        Some(MetricKind::Min)
    } else if s == "median_absolute_deviation"@ {
        Some(MetricKind::MedianAbsoluteDeviation)
    } else if s == "percentiles"@ {
        Some(MetricKind::Percentiles)
    } else if s == "percentile_ranks"@ {
        Some(MetricKind::PercentileRanks)
    } else if s == "stats"@ {
        Some(MetricKind::Stats)
    } else if s == "extended_stats"@ {
        Some(MetricKind::ExtendedStats)
    } else if s == "sum"@ {
        Some(MetricKind::Sum)
    } else if s == "value_count"@ {
        Some(MetricKind::ValueCount)
    } else {
        None
    }
}

impl MetricKind {
    /// The wire key of this kind.
    pub fn key(&self) -> (r: &'static str)
        ensures
            r@ == metric_key(*self),
    {
        match self {
            MetricKind::Avg => "avg",
            MetricKind::Cardinality => "cardinality",
            MetricKind::Max => "max",
            MetricKind::Min => "min",
            MetricKind::MedianAbsoluteDeviation => "median_absolute_deviation",
            MetricKind::Percentiles => "percentiles",
            MetricKind::PercentileRanks => "percentile_ranks",
            MetricKind::Stats => "stats",
            MetricKind::ExtendedStats => "extended_stats",
            MetricKind::Sum => "sum",
            MetricKind::ValueCount => "value_count",
        }
    }

    /// The metric kind a wire key names.
    pub fn from_key(s: &str) -> (r: Option<MetricKind>)
        ensures
            r == metric_of(s@),
    {
        if str_eq(s, "avg") {
            Some(MetricKind::Avg)
        } else if str_eq(s, "cardinality") {
            Some(MetricKind::Cardinality)
        } else if str_eq(s, "max") {
            Some(MetricKind::Max)
        } else if str_eq(s, "min") {
            Some(MetricKind::Min)
        } else if str_eq(s, "median_absolute_deviation") {
            Some(MetricKind::MedianAbsoluteDeviation)
        } else if str_eq(s, "percentiles") {
            Some(MetricKind::Percentiles)
        } else if str_eq(s, "percentile_ranks") {
            Some(MetricKind::PercentileRanks)
        } else if str_eq(s, "stats") {
            Some(MetricKind::Stats)
        } else if str_eq(s, "extended_stats") {
            Some(MetricKind::ExtendedStats)
        } else if str_eq(s, "sum") {
            Some(MetricKind::Sum)
        } else if str_eq(s, "value_count") {
            Some(MetricKind::ValueCount)
        } else {
            None
        }
    }
}


/// One range of a `date_range` aggregation; either end may be open.
#[derive(Debug)]
pub struct DateRange {
    pub from: Option<String>,
    pub to: Option<String>,
}

pub struct DateRangeView {
    pub from: Option<Seq<char>>,
    pub to: Option<Seq<char>>,
}

impl View for DateRange {
    type V = DateRangeView;

    open spec fn view(&self) -> DateRangeView {
        DateRangeView { from: opt_view(self.from), to: opt_view(self.to) }
    }
}

pub open spec fn opt_str_view(s: Option<&str>) -> Option<Seq<char>> {
    match s {
        Some(t) => Some(t@),
        None => None,
    }
}

impl DateRange {
    /// A range from `from` to `to`.
    pub fn new(from: Option<&str>, to: Option<&str>) -> (r: DateRange)
        ensures
            r@ == (DateRangeView { from: opt_str_view(from), to: opt_str_view(to) }),
    {
        DateRange {
            from: match from {
                Some(t) => Some(t.to_owned()),
                None => None,
            },
            to: match to {
                Some(t) => Some(t.to_owned()),
                None => None,
            },
        }
    }
}

pub open spec fn date_range_json(r: DateRangeView) -> JsonValue {
    JsonValue::Object(opt_str_member("from"@, r.from) + opt_str_member("to"@, r.to))
}

pub open spec fn date_range_from(v: JsonValue) -> Result<DateRangeView, DecodeErrorView> {
    match v {
        JsonValue::Object(m) => match opt_str(m, "from"@, "ranges"@) {
            Err(e) => Err(e),
            Ok(from) => match opt_str(m, "to"@, "ranges"@) {
                Err(e) => Err(e),
                Ok(to) => Ok(DateRangeView { from, to }),
            },
        },
        _ => Err(DecodeErrorView::MalformedLeaf { field: "ranges"@, missing: "from"@ }),
    }
}

pub open spec fn ranges_view(s: Seq<DateRange>) -> Seq<DateRangeView> {
    s.map_values(|r: DateRange| r@)
}

pub open spec fn sorts_view(s: Seq<Sort>) -> Seq<SortView> {
    s.map_values(|r: Sort| r@)
}

/// `name: [..]` for a non-empty list of ranges.
pub open spec fn ranges_member(name: Seq<char>, v: Seq<DateRangeView>) -> Seq<(Seq<char>, JsonValue)> {
    if v.len() == 0 {
        seq![]
    } else {
        seq![(name, JsonValue::Array(v.map_values(|r: DateRangeView| date_range_json(r))))]
    }
}

/// `name: [..]` for a non-empty list of sorts.
pub open spec fn sorts_member(name: Seq<char>, v: Seq<SortView>) -> Seq<(Seq<char>, JsonValue)> {
    if v.len() == 0 {
        seq![]
    } else {
        seq![(name, JsonValue::Array(v.map_values(|s: SortView| sort_to_json(s))))]
    }
}

/// A list of ranges; absent or `null` is empty, and any item that is not a
/// range makes the member malformed.
pub open spec fn ranges_from(b: Seq<(Seq<char>, JsonValue)>, name: Seq<char>, field: Seq<char>) -> Result<Seq<DateRangeView>, DecodeErrorView> {
    match lookup(b, name) {
        None => Ok(seq![]),
        Some(JsonValue::Null) => Ok(seq![]),
        Some(JsonValue::Array(items)) => if forall|i: int|
            0 <= i < items.len() ==> #[trigger] date_range_from(items[i]) is Ok {
            Ok(items.map_values(|x: JsonValue| date_range_from(x)->Ok_0))
        } else {
            Err(DecodeErrorView::MalformedLeaf { field, missing: name })
        },
        _ => Err(DecodeErrorView::MalformedLeaf { field, missing: name }),
    }
}

/// A list of sorts, read like [`ranges_from`].
pub open spec fn sorts_from(b: Seq<(Seq<char>, JsonValue)>, name: Seq<char>, field: Seq<char>) -> Result<Seq<SortView>, DecodeErrorView> {
    match lookup(b, name) {
        None => Ok(seq![]),
        Some(JsonValue::Null) => Ok(seq![]),
        Some(JsonValue::Array(items)) => if forall|i: int|
            0 <= i < items.len() ==> #[trigger] sort_from_json(items[i]) is Ok {
            Ok(items.map_values(|x: JsonValue| sort_from_json(x)->Ok_0))
        } else {
            Err(DecodeErrorView::MalformedLeaf { field, missing: name })
        },
        _ => Err(DecodeErrorView::MalformedLeaf { field, missing: name }),
    }
}

impl DateRange {
    pub fn to_json(&self) -> (r: Json)
        ensures
            r@ == date_range_json(self@),
    {
        let mut ms = empty_members();
        push_opt_str(&mut ms, "from", &self.from);
        push_opt_str(&mut ms, "to", &self.to);
        proof {
            assert(members_view(ms@) =~= opt_str_member("from"@, self@.from) + opt_str_member("to"@, self@.to));
        }
        Json::Object(ms)
    }

    pub fn from_json(j: &Json) -> (r: Result<DateRange, DecodeError>)
        ensures
            result_view(r) == date_range_from(j@),
    {
        match j {
            Json::Object(m) => {
                let from = match read_opt_str(m, "from", "ranges") {
                    Ok(v) => v,
                    Err(e) => return Err(e),
                };
                let to = match read_opt_str(m, "to", "ranges") {
                    Ok(v) => v,
                    Err(e) => return Err(e),
                };
                Ok(DateRange { from, to })
            },
            _ => Err(malformed_leaf("ranges", "from")),
        }
    }
}

fn push_ranges(ms: &mut Vec<(String, Json)>, name: &str, v: &Vec<DateRange>)
    ensures
        members_view(final(ms)@) == members_view(old(ms)@) + ranges_member(name@, ranges_view(v@)),
{
    if v.len() == 0 {
        proof {
            assert(members_view(ms@) =~= members_view(ms@) + ranges_member(name@, ranges_view(v@)));
        }
        return;
    }
    let mut items = empty_items();
    let mut i: usize = 0;
    while i < v.len()
        invariant
            0 <= i <= v.len(),
            items_view(items@).len() == i,
            forall|j: int| 0 <= j < i ==> #[trigger] items_view(items@)[j] == date_range_json(v@[j]@),
        decreases v.len() - i,
    {
        let j = v[i].to_json();
        push_item(&mut items, j);
        i = i + 1;
    }
    proof {
        assert(items_view(items@) =~= ranges_view(v@).map_values(|r: DateRangeView| date_range_json(r)));
    }
    push_member(ms, name, Json::Array(items));
    proof {
        assert(members_view(ms@) =~= members_view(old(ms)@) + ranges_member(name@, ranges_view(v@)));
    }
}

fn push_sorts(ms: &mut Vec<(String, Json)>, name: &str, v: &Vec<Sort>)
    ensures
        members_view(final(ms)@) == members_view(old(ms)@) + sorts_member(name@, sorts_view(v@)),
{
    if v.len() == 0 {
        proof {
            assert(members_view(ms@) =~= members_view(ms@) + sorts_member(name@, sorts_view(v@)));
        }
        return;
    }
    let mut items = empty_items();
    let mut i: usize = 0;
    while i < v.len()
        invariant
            0 <= i <= v.len(),
            items_view(items@).len() == i,
            forall|j: int| 0 <= j < i ==> #[trigger] items_view(items@)[j] == sort_to_json(v@[j]@),
        decreases v.len() - i,
    {
        let j = v[i].to_json();
        push_item(&mut items, j);
        i = i + 1;
    }
    proof {
        assert(items_view(items@) =~= sorts_view(v@).map_values(|s: SortView| sort_to_json(s)));
    }
    push_member(ms, name, Json::Array(items));
    proof {
        assert(members_view(ms@) =~= members_view(old(ms)@) + sorts_member(name@, sorts_view(v@)));
    }
}

fn read_ranges(b: &Vec<(String, Json)>, name: &str, field: &str) -> (r: Result<Vec<DateRange>, DecodeError>)
    ensures
        match r {
            Ok(v) => ranges_from(members_view(b@), name@, field@) == Ok::<Seq<DateRangeView>, DecodeErrorView>(ranges_view(v@)),
            Err(e) => ranges_from(members_view(b@), name@, field@) == Err::<Seq<DateRangeView>, DecodeErrorView>(e@),
        },
{
    match get_member(b, name) {
        None => {
            let v: Vec<DateRange> = Vec::new();
            proof {
                assert(ranges_view(v@) =~= seq![]);
            }
            Ok(v)
        },
        Some(Json::Null) => {
            let v: Vec<DateRange> = Vec::new();
            proof {
                assert(ranges_view(v@) =~= seq![]);
            }
            Ok(v)
        },
        Some(Json::Array(items)) => {
            proof {
                lemma_items_index(items@);
            }
            let ghost iv = items_view(items@);
            let mut out: Vec<DateRange> = Vec::new();
            let mut i: usize = 0;
            while i < items.len()
                invariant
                    0 <= i <= items.len(),
                    iv == items_view(items@),
                    iv.len() == items@.len(),
                    lookup(members_view(b@), name@) == Some(JsonValue::Array(iv)),
                    forall|j: int| 0 <= j < items@.len() ==> #[trigger] iv[j] == json_view(items@[j]),
                    out@.len() == i,
                    forall|j: int| 0 <= j < i ==> #[trigger] date_range_from(iv[j]) == Ok::<DateRangeView, DecodeErrorView>(out@[j]@),
                decreases items.len() - i,
            {
                match DateRange::from_json(&items[i]) {
                    Ok(d) => out.push(d),
                    Err(_) => {
                        assert(!(date_range_from(iv[i as int]) is Ok));
                        return Err(malformed_leaf(field, name));
                    },
                }
                i = i + 1;
            }
            proof {
                assert(ranges_view(out@) =~= iv.map_values(|x: JsonValue| date_range_from(x)->Ok_0));
            }
            Ok(out)
        },
        _ => Err(malformed_leaf(field, name)),
    }
}

fn read_sorts(b: &Vec<(String, Json)>, name: &str, field: &str) -> (r: Result<Vec<Sort>, DecodeError>)
    ensures
        match r {
            Ok(v) => sorts_from(members_view(b@), name@, field@) == Ok::<Seq<SortView>, DecodeErrorView>(sorts_view(v@)),
            Err(e) => sorts_from(members_view(b@), name@, field@) == Err::<Seq<SortView>, DecodeErrorView>(e@),
        },
{
    match get_member(b, name) {
        None => {
            let v: Vec<Sort> = Vec::new();
            proof {
                assert(sorts_view(v@) =~= seq![]);
            }
            Ok(v)
        },
        Some(Json::Null) => {
            let v: Vec<Sort> = Vec::new();
            proof {
                assert(sorts_view(v@) =~= seq![]);
            }
            Ok(v)
        },
        Some(Json::Array(items)) => {
            proof {
                lemma_items_index(items@);
            }
            let ghost iv = items_view(items@);
            let mut out: Vec<Sort> = Vec::new();
            let mut i: usize = 0;
            while i < items.len()
                invariant
                    0 <= i <= items.len(),
                    iv == items_view(items@),
                    iv.len() == items@.len(),
                    lookup(members_view(b@), name@) == Some(JsonValue::Array(iv)),
                    forall|j: int| 0 <= j < items@.len() ==> #[trigger] iv[j] == json_view(items@[j]),
                    out@.len() == i,
                    forall|j: int| 0 <= j < i ==> #[trigger] sort_from_json(iv[j]) == Ok::<SortView, DecodeErrorView>(out@[j]@),
                decreases items.len() - i,
            {
                match Sort::from_json(&items[i]) {
                    Ok(d) => out.push(d),
                    Err(_) => {
                        assert(!(sort_from_json(iv[i as int]) is Ok));
                        return Err(malformed_leaf(field, name));
                    },
                }
                i = i + 1;
            }
            proof {
                assert(sorts_view(out@) =~= iv.map_values(|x: JsonValue| sort_from_json(x)->Ok_0));
            }
            Ok(out)
        },
        _ => Err(malformed_leaf(field, name)),
    }
}

/// How a pipeline aggregation treats gaps in the data.
#[derive(Clone, Copy, Debug, PartialEq, Eq, Structural)]
pub enum GapPolicy {
    Skip,
    InsertZeros,
}

pub open spec fn gap_policy_name(e: GapPolicy) -> Seq<char> {
    match e {
        GapPolicy::Skip => "skip"@,
        GapPolicy::InsertZeros => "insert_zeros"@,
    }
}

pub open spec fn gap_policy_of(s: Seq<char>) -> Option<GapPolicy> {
    if s == "skip"@ {
        Some(GapPolicy::Skip)
    } else if s == "insert_zeros"@ {
        Some(GapPolicy::InsertZeros)
    } else {
        None
    }
}

/// The member `name: "<wire name>"` when `v` is `Some`.
pub open spec fn gap_policy_member(name: Seq<char>, v: Option<GapPolicy>) -> Seq<(Seq<char>, JsonValue)> {
    match v {
        Some(e) => seq![(name, JsonValue::Str(gap_policy_name(e)))],
        None => seq![],
    }
}

/// An optional `GapPolicy` member; `null` counts as absent.
pub open spec fn gap_policy_opt(b: Seq<(Seq<char>, JsonValue)>, name: Seq<char>) -> Result<Option<GapPolicy>, DecodeErrorView> {
    match lookup(b, name) {
        None => Ok(None),
        Some(JsonValue::Null) => Ok(None),
        Some(JsonValue::Str(t)) => match gap_policy_of(t) {
            Some(e) => Ok(Some(e)),
            None => Err(DecodeErrorView::InvalidEnum { name, value: t }),
        },
        _ => Err(DecodeErrorView::InvalidEnum { name, value: ""@ }),
    }
}

impl GapPolicy {
    /// The wire name of this value.
    pub fn name(&self) -> (r: &'static str)
        ensures
            r@ == gap_policy_name(*self),
    {
        match self {
            GapPolicy::Skip => "skip",
            GapPolicy::InsertZeros => "insert_zeros",
        }
    }

    /// The value a wire name denotes.
    pub fn parse(s: &str) -> (r: Option<GapPolicy>)
        ensures
            r == gap_policy_of(s@),
    {
        if str_eq(s, "skip") {
            Some(GapPolicy::Skip)
        } else if str_eq(s, "insert_zeros") {
            Some(GapPolicy::InsertZeros)
        } else {
            None
        }
    }
}

fn push_gap_policy(ms: &mut Vec<(String, Json)>, name: &str, v: Option<GapPolicy>)
    ensures
        members_view(final(ms)@) == members_view(old(ms)@) + gap_policy_member(name@, v),
{
    match v {
        Some(e) => push_member(ms, name, json_str(e.name())),
        None => {},
    }
    proof {
        assert(members_view(ms@) =~= members_view(old(ms)@) + gap_policy_member(name@, v));
    }
}

fn read_gap_policy(b: &Vec<(String, Json)>, name: &str) -> (r: Result<Option<GapPolicy>, DecodeError>)
    ensures
        match r {
            Ok(v) => gap_policy_opt(members_view(b@), name@) == Ok::<Option<GapPolicy>, DecodeErrorView>(v),
            Err(e) => gap_policy_opt(members_view(b@), name@) == Err::<Option<GapPolicy>, DecodeErrorView>(e@),
        },
{
    match get_member(b, name) {
        None => Ok(None),
        Some(Json::Null) => Ok(None),
        Some(Json::Str(t)) => match GapPolicy::parse(t.as_str()) {
            Some(e) => Ok(Some(e)),
            None => Err(invalid_enum(name, t.as_str())),
        },
        _ => Err(invalid_enum(name, "")),
    }
}

/// A calendar-aware histogram interval.
#[derive(Clone, Copy, Debug, PartialEq, Eq, Structural)]
pub enum CalendarInterval {
    Minute,
    Hour,
    Day,
    Week,
    Month,
    Quarter,
    Year,
}

pub open spec fn calendar_interval_name(e: CalendarInterval) -> Seq<char> {
    match e {
        CalendarInterval::Minute => "minute"@,
        CalendarInterval::Hour => "hour"@,
        CalendarInterval::Day => "day"@,
        CalendarInterval::Week => "week"@,
        CalendarInterval::Month => "month"@,
        CalendarInterval::Quarter => "quarter"@,
        CalendarInterval::Year => "year"@,
    }
}

pub open spec fn calendar_interval_of(s: Seq<char>) -> Option<CalendarInterval> {
    if s == "minute"@ {
        Some(CalendarInterval::Minute)
    } else if s == "hour"@ {
        Some(CalendarInterval::Hour)
    } else if s == "day"@ {
        Some(CalendarInterval::Day)
    } else if s == "week"@ {
        Some(CalendarInterval::Week)
    } else if s == "month"@ {
        Some(CalendarInterval::Month)
    } else if s == "quarter"@ {
        Some(CalendarInterval::Quarter)
    } else if s == "year"@ {
        Some(CalendarInterval::Year)
    } else {
        None
    }
}

/// The member `name: "<wire name>"` when `v` is `Some`.
pub open spec fn calendar_interval_member(name: Seq<char>, v: Option<CalendarInterval>) -> Seq<(Seq<char>, JsonValue)> {
    match v {
        Some(e) => seq![(name, JsonValue::Str(calendar_interval_name(e)))],
        None => seq![],
    }
}

/// An optional `CalendarInterval` member; `null` counts as absent.
pub open spec fn calendar_interval_opt(b: Seq<(Seq<char>, JsonValue)>, name: Seq<char>) -> Result<Option<CalendarInterval>, DecodeErrorView> {
    match lookup(b, name) {
        None => Ok(None),
        Some(JsonValue::Null) => Ok(None),
        Some(JsonValue::Str(t)) => match calendar_interval_of(t) {
            Some(e) => Ok(Some(e)),
            None => Err(DecodeErrorView::InvalidEnum { name, value: t }),
        },
        _ => Err(DecodeErrorView::InvalidEnum { name, value: ""@ }),
    }
}

impl CalendarInterval {
    /// The wire name of this value.
    pub fn name(&self) -> (r: &'static str)
        ensures
            r@ == calendar_interval_name(*self),
    {
        match self {
            CalendarInterval::Minute => "minute",
            CalendarInterval::Hour => "hour",
            CalendarInterval::Day => "day",
            CalendarInterval::Week => "week",
            CalendarInterval::Month => "month",
            CalendarInterval::Quarter => "quarter",
            CalendarInterval::Year => "year",
        }
    }

    /// The value a wire name denotes.
    pub fn parse(s: &str) -> (r: Option<CalendarInterval>)
        ensures
            r == calendar_interval_of(s@),
    {
        if str_eq(s, "minute") {
            Some(CalendarInterval::Minute)
        } else if str_eq(s, "hour") {
            Some(CalendarInterval::Hour)
        } else if str_eq(s, "day") {
            Some(CalendarInterval::Day)
        } else if str_eq(s, "week") {
            Some(CalendarInterval::Week)
        } else if str_eq(s, "month") {
            Some(CalendarInterval::Month)
        } else if str_eq(s, "quarter") {
            Some(CalendarInterval::Quarter)
        } else if str_eq(s, "year") {
            Some(CalendarInterval::Year)
        } else {
            None
        }
    }
}

fn push_calendar_interval(ms: &mut Vec<(String, Json)>, name: &str, v: Option<CalendarInterval>)
    ensures
        members_view(final(ms)@) == members_view(old(ms)@) + calendar_interval_member(name@, v),
{
    match v {
        Some(e) => push_member(ms, name, json_str(e.name())),
        None => {},
    }
    proof {
        assert(members_view(ms@) =~= members_view(old(ms)@) + calendar_interval_member(name@, v));
    }
}

fn read_calendar_interval(b: &Vec<(String, Json)>, name: &str) -> (r: Result<Option<CalendarInterval>, DecodeError>)
    ensures
        match r {
            Ok(v) => calendar_interval_opt(members_view(b@), name@) == Ok::<Option<CalendarInterval>, DecodeErrorView>(v),
            Err(e) => calendar_interval_opt(members_view(b@), name@) == Err::<Option<CalendarInterval>, DecodeErrorView>(e@),
        },
{
    match get_member(b, name) {
        None => Ok(None),
        Some(Json::Null) => Ok(None),
        Some(Json::Str(t)) => match CalendarInterval::parse(t.as_str()) {
            Some(e) => Ok(Some(e)),
            None => Err(invalid_enum(name, t.as_str())),
        },
        _ => Err(invalid_enum(name, "")),
    }
}

/// The smallest interval an automatic date histogram may pick.
#[derive(Clone, Copy, Debug, PartialEq, Eq, Structural)]
pub enum MinimumInterval {
    Second,
    Minute,
    Hour,
    Day,
    Month,
    Year,
}

pub open spec fn minimum_interval_name(e: MinimumInterval) -> Seq<char> {
    match e {
        MinimumInterval::Second => "second"@,
        MinimumInterval::Minute => "minute"@,
        MinimumInterval::Hour => "hour"@,
        MinimumInterval::Day => "day"@,
        MinimumInterval::Month => "month"@,
        MinimumInterval::Year => "year"@,
    }
}

pub open spec fn minimum_interval_of(s: Seq<char>) -> Option<MinimumInterval> {
    if s == "second"@ {
        Some(MinimumInterval::Second)
    } else if s == "minute"@ {
        Some(MinimumInterval::Minute)
    } else if s == "hour"@ {
        Some(MinimumInterval::Hour)
    } else if s == "day"@ {
        Some(MinimumInterval::Day)
    } else if s == "month"@ {
        Some(MinimumInterval::Month)
    } else if s == "year"@ {
        Some(MinimumInterval::Year)
    } else {
        None
    }
}

/// The member `name: "<wire name>"` when `v` is `Some`.
pub open spec fn minimum_interval_member(name: Seq<char>, v: Option<MinimumInterval>) -> Seq<(Seq<char>, JsonValue)> {
    match v {
        Some(e) => seq![(name, JsonValue::Str(minimum_interval_name(e)))],
        None => seq![],
    }
}

/// An optional `MinimumInterval` member; `null` counts as absent.
pub open spec fn minimum_interval_opt(b: Seq<(Seq<char>, JsonValue)>, name: Seq<char>) -> Result<Option<MinimumInterval>, DecodeErrorView> {
    match lookup(b, name) {
        None => Ok(None),
        Some(JsonValue::Null) => Ok(None),
        Some(JsonValue::Str(t)) => match minimum_interval_of(t) {
            Some(e) => Ok(Some(e)),
            None => Err(DecodeErrorView::InvalidEnum { name, value: t }),
        },
        _ => Err(DecodeErrorView::InvalidEnum { name, value: ""@ }),
    }
}

impl MinimumInterval {
    /// The wire name of this value.
    pub fn name(&self) -> (r: &'static str)
        ensures
            r@ == minimum_interval_name(*self),
    {
        match self {
            MinimumInterval::Second => "second",
            MinimumInterval::Minute => "minute",
            MinimumInterval::Hour => "hour",
            MinimumInterval::Day => "day",
            MinimumInterval::Month => "month",
            MinimumInterval::Year => "year",
        }
    }

    /// The value a wire name denotes.
    pub fn parse(s: &str) -> (r: Option<MinimumInterval>)
        ensures
            r == minimum_interval_of(s@),
    {
        if str_eq(s, "second") {
            Some(MinimumInterval::Second)
        } else if str_eq(s, "minute") {
            Some(MinimumInterval::Minute)
        } else if str_eq(s, "hour") {
            Some(MinimumInterval::Hour)
        } else if str_eq(s, "day") {
            Some(MinimumInterval::Day)
        } else if str_eq(s, "month") {
            Some(MinimumInterval::Month)
        } else if str_eq(s, "year") {
            Some(MinimumInterval::Year)
        } else {
            None
        }
    }
}

fn push_minimum_interval(ms: &mut Vec<(String, Json)>, name: &str, v: Option<MinimumInterval>)
    ensures
        members_view(final(ms)@) == members_view(old(ms)@) + minimum_interval_member(name@, v),
{
    match v {
        Some(e) => push_member(ms, name, json_str(e.name())),
        None => {},
    }
    proof {
        assert(members_view(ms@) =~= members_view(old(ms)@) + minimum_interval_member(name@, v));
    }
}

fn read_minimum_interval(b: &Vec<(String, Json)>, name: &str) -> (r: Result<Option<MinimumInterval>, DecodeError>)
    ensures
        match r {
            Ok(v) => minimum_interval_opt(members_view(b@), name@) == Ok::<Option<MinimumInterval>, DecodeErrorView>(v),
            Err(e) => minimum_interval_opt(members_view(b@), name@) == Err::<Option<MinimumInterval>, DecodeErrorView>(e@),
        },
{
    match get_member(b, name) {
        None => Ok(None),
        Some(Json::Null) => Ok(None),
        Some(Json::Str(t)) => match MinimumInterval::parse(t.as_str()) {
            Some(e) => Ok(Some(e)),
            None => Err(invalid_enum(name, t.as_str())),
        },
        _ => Err(invalid_enum(name, "")),
    }
}

/// Buckets by a date interval.
#[derive(Debug)]
pub struct DateHistogramAggregation {
    pub field: String,
    pub calendar_interval: Option<CalendarInterval>,
    pub fixed_interval: Option<String>,
    pub time_zone: Option<String>,
    pub offset: Option<String>,
    pub format: Option<String>,
    pub missing: Option<String>,
}

pub struct DateHistogramAggregationView {
    pub field: Seq<char>,
    pub calendar_interval: Option<CalendarInterval>,
    pub fixed_interval: Option<Seq<char>>,
    pub time_zone: Option<Seq<char>>,
    pub offset: Option<Seq<char>>,
    pub format: Option<Seq<char>>,
    pub missing: Option<Seq<char>>,
}

impl View for DateHistogramAggregation {
    type V = DateHistogramAggregationView;

    open spec fn view(&self) -> DateHistogramAggregationView {
        DateHistogramAggregationView {
            field: self.field@,
            calendar_interval: self.calendar_interval,
            fixed_interval: opt_view(self.fixed_interval),
            time_zone: opt_view(self.time_zone),
            offset: opt_view(self.offset),
            format: opt_view(self.format),
            missing: opt_view(self.missing),
        }
    }
}

/// The members of an encoded `date_histogram` body, absent options left out.
pub open spec fn date_histogram_aggregation_members(v: DateHistogramAggregationView) -> Seq<(Seq<char>, JsonValue)> {
    seq![("field"@, JsonValue::Str(v.field))] + calendar_interval_member("calendar_interval"@, v.calendar_interval) + opt_str_member("fixed_interval"@, v.fixed_interval) + opt_str_member("time_zone"@, v.time_zone) + opt_str_member("offset"@, v.offset) + opt_str_member("format"@, v.format) + opt_str_member("missing"@, v.missing)
}

pub open spec fn date_histogram_aggregation_from(b: Seq<(Seq<char>, JsonValue)>) -> Result<DateHistogramAggregationView, DecodeErrorView> {
    match req_str(b, "field"@, "date_histogram"@) {
        Err(e) => Err(e),
        Ok(field) => match calendar_interval_opt(b, "calendar_interval"@) {
        Err(e) => Err(e),
        Ok(calendar_interval) => match opt_str(b, "fixed_interval"@, "date_histogram"@) {
        Err(e) => Err(e),
        Ok(fixed_interval) => match opt_str(b, "time_zone"@, "date_histogram"@) {
        Err(e) => Err(e),
        Ok(time_zone) => match opt_str(b, "offset"@, "date_histogram"@) {
        Err(e) => Err(e),
        Ok(offset) => match opt_str(b, "format"@, "date_histogram"@) {
        Err(e) => Err(e),
        Ok(format) => match opt_str(b, "missing"@, "date_histogram"@) {
        Err(e) => Err(e),
        Ok(missing) => Ok(DateHistogramAggregationView { field, calendar_interval, fixed_interval, time_zone, offset, format, missing }),
    },
    },
    },
    },
    },
    },
    }
}

impl DateHistogramAggregation {
    /// The members of this body.
    pub fn to_members(&self) -> (r: Vec<(String, Json)>)
        ensures
            members_view(r@) == date_histogram_aggregation_members(self@),
    {
        let mut ms = empty_members();
        push_req_str(&mut ms, "field", &self.field);
        push_calendar_interval(&mut ms, "calendar_interval", self.calendar_interval);
        push_opt_str(&mut ms, "fixed_interval", &self.fixed_interval);
        push_opt_str(&mut ms, "time_zone", &self.time_zone);
        push_opt_str(&mut ms, "offset", &self.offset);
        push_opt_str(&mut ms, "format", &self.format);
        push_opt_str(&mut ms, "missing", &self.missing);
        proof {
            assert(members_view(ms@) =~= date_histogram_aggregation_members(self@));
        }
        ms
    }

    /// Decodes a body from its members.
    pub fn from_members(b: &Vec<(String, Json)>) -> (r: Result<DateHistogramAggregation, DecodeError>)
        ensures
            result_view(r) == date_histogram_aggregation_from(members_view(b@)),
    {
        let key = "date_histogram";
        let field = match read_req_str(b, "field", key) {
            Ok(v) => v,
            Err(e) => return Err(e),
        };
        let calendar_interval = match read_calendar_interval(b, "calendar_interval") {
            Ok(v) => v,
            Err(e) => return Err(e),
        };
        let fixed_interval = match read_opt_str(b, "fixed_interval", key) {
            Ok(v) => v,
            Err(e) => return Err(e),
        };
        let time_zone = match read_opt_str(b, "time_zone", key) {
            Ok(v) => v,
            Err(e) => return Err(e),
        };
        let offset = match read_opt_str(b, "offset", key) {
            Ok(v) => v,
            Err(e) => return Err(e),
        };
        let format = match read_opt_str(b, "format", key) {
            Ok(v) => v,
            Err(e) => return Err(e),
        };
        let missing = match read_opt_str(b, "missing", key) {
            Ok(v) => v,
            Err(e) => return Err(e),
        };
        Ok(DateHistogramAggregation { field, calendar_interval, fixed_interval, time_zone, offset, format, missing })
    }
}

/// Buckets by a date interval chosen to give about `buckets` buckets.
#[derive(Debug)]
pub struct AutoDateHistogramAggregation {
    pub field: String,
    pub buckets: Option<String>,
    pub minimum_interval: Option<MinimumInterval>,
    pub format: Option<String>,
    pub missing: Option<String>,
    pub time_zone: Option<String>,
}

pub struct AutoDateHistogramAggregationView {
    pub field: Seq<char>,
    pub buckets: Option<Seq<char>>,
    pub minimum_interval: Option<MinimumInterval>,
    pub format: Option<Seq<char>>,
    pub missing: Option<Seq<char>>,
    pub time_zone: Option<Seq<char>>,
}

impl View for AutoDateHistogramAggregation {
    type V = AutoDateHistogramAggregationView;

    open spec fn view(&self) -> AutoDateHistogramAggregationView {
        AutoDateHistogramAggregationView {
            field: self.field@,
            buckets: opt_view(self.buckets),
            minimum_interval: self.minimum_interval,
            format: opt_view(self.format),
            missing: opt_view(self.missing),
            time_zone: opt_view(self.time_zone),
        }
    }
}

/// The members of an encoded `auto_date_histogram` body, absent options left out.
pub open spec fn auto_date_histogram_aggregation_members(v: AutoDateHistogramAggregationView) -> Seq<(Seq<char>, JsonValue)> {
    seq![("field"@, JsonValue::Str(v.field))] + opt_num_member("buckets"@, v.buckets) + minimum_interval_member("minimum_interval"@, v.minimum_interval) + opt_str_member("format"@, v.format) + opt_str_member("missing"@, v.missing) + opt_str_member("time_zone"@, v.time_zone)
}

pub open spec fn auto_date_histogram_aggregation_from(b: Seq<(Seq<char>, JsonValue)>) -> Result<AutoDateHistogramAggregationView, DecodeErrorView> {
    match req_str(b, "field"@, "auto_date_histogram"@) {
        Err(e) => Err(e),
        Ok(field) => match opt_num(b, "buckets"@) {
        Err(e) => Err(e),
        Ok(buckets) => match minimum_interval_opt(b, "minimum_interval"@) {
        Err(e) => Err(e),
        Ok(minimum_interval) => match opt_str(b, "format"@, "auto_date_histogram"@) {
        Err(e) => Err(e),
        Ok(format) => match opt_str(b, "missing"@, "auto_date_histogram"@) {
        Err(e) => Err(e),
        Ok(missing) => match opt_str(b, "time_zone"@, "auto_date_histogram"@) {
        Err(e) => Err(e),
        Ok(time_zone) => Ok(AutoDateHistogramAggregationView { field, buckets, minimum_interval, format, missing, time_zone }),
    },
    },
    },
    },
    },
    }
}

impl AutoDateHistogramAggregation {
    /// The members of this body.
    pub fn to_members(&self) -> (r: Vec<(String, Json)>)
        ensures
            members_view(r@) == auto_date_histogram_aggregation_members(self@),
    {
        let mut ms = empty_members();
        push_req_str(&mut ms, "field", &self.field);
        push_opt_num(&mut ms, "buckets", &self.buckets);
        push_minimum_interval(&mut ms, "minimum_interval", self.minimum_interval);
        push_opt_str(&mut ms, "format", &self.format);
        push_opt_str(&mut ms, "missing", &self.missing);
        push_opt_str(&mut ms, "time_zone", &self.time_zone);
        proof {
            assert(members_view(ms@) =~= auto_date_histogram_aggregation_members(self@));
        }
        ms
    }

    /// Decodes a body from its members.
    pub fn from_members(b: &Vec<(String, Json)>) -> (r: Result<AutoDateHistogramAggregation, DecodeError>)
        ensures
            result_view(r) == auto_date_histogram_aggregation_from(members_view(b@)),
    {
        let key = "auto_date_histogram";
        let field = match read_req_str(b, "field", key) {
            Ok(v) => v,
            Err(e) => return Err(e),
        };
        let buckets = match read_opt_num(b, "buckets") {
            Ok(v) => v,
            Err(e) => return Err(e),
        };
        let minimum_interval = match read_minimum_interval(b, "minimum_interval") {
            Ok(v) => v,
            Err(e) => return Err(e),
        };
        let format = match read_opt_str(b, "format", key) {
            Ok(v) => v,
            Err(e) => return Err(e),
        };
        let missing = match read_opt_str(b, "missing", key) {
            Ok(v) => v,
            Err(e) => return Err(e),
        };
        let time_zone = match read_opt_str(b, "time_zone", key) {
            Ok(v) => v,
            Err(e) => return Err(e),
        };
        Ok(AutoDateHistogramAggregation { field, buckets, minimum_interval, format, missing, time_zone })
    }
}

/// Buckets by date ranges.
#[derive(Debug)]
pub struct DateRangeAggregation {
    pub field: String,
    pub time_zone: Option<String>,
    pub format: Option<String>,
    pub missing: Option<String>,
    pub ranges: Vec<DateRange>,
}

pub struct DateRangeAggregationView {
    pub field: Seq<char>,
    pub time_zone: Option<Seq<char>>,
    pub format: Option<Seq<char>>,
    pub missing: Option<Seq<char>>,
    pub ranges: Seq<DateRangeView>,
}

impl View for DateRangeAggregation {
    type V = DateRangeAggregationView;

    open spec fn view(&self) -> DateRangeAggregationView {
        DateRangeAggregationView {
            field: self.field@,
            time_zone: opt_view(self.time_zone),
            format: opt_view(self.format),
            missing: opt_view(self.missing),
            ranges: ranges_view(self.ranges@),
        }
    }
}

/// The members of an encoded `date_range` body, absent options left out.
pub open spec fn date_range_aggregation_members(v: DateRangeAggregationView) -> Seq<(Seq<char>, JsonValue)> {
    seq![("field"@, JsonValue::Str(v.field))] + opt_str_member("time_zone"@, v.time_zone) + opt_str_member("format"@, v.format) + opt_str_member("missing"@, v.missing) + ranges_member("ranges"@, v.ranges)
}

pub open spec fn date_range_aggregation_from(b: Seq<(Seq<char>, JsonValue)>) -> Result<DateRangeAggregationView, DecodeErrorView> {
    match req_str(b, "field"@, "date_range"@) {
        Err(e) => Err(e),
        Ok(field) => match opt_str(b, "time_zone"@, "date_range"@) {
        Err(e) => Err(e),
        Ok(time_zone) => match opt_str(b, "format"@, "date_range"@) {
        Err(e) => Err(e),
        Ok(format) => match opt_str(b, "missing"@, "date_range"@) {
        Err(e) => Err(e),
        Ok(missing) => match ranges_from(b, "ranges"@, "date_range"@) {
        Err(e) => Err(e),
        Ok(ranges) => Ok(DateRangeAggregationView { field, time_zone, format, missing, ranges }),
    },
    },
    },
    },
    }
}

impl DateRangeAggregation {
    /// The members of this body.
    pub fn to_members(&self) -> (r: Vec<(String, Json)>)
        ensures
            members_view(r@) == date_range_aggregation_members(self@),
    {
        let mut ms = empty_members();
        push_req_str(&mut ms, "field", &self.field);
        push_opt_str(&mut ms, "time_zone", &self.time_zone);
        push_opt_str(&mut ms, "format", &self.format);
        push_opt_str(&mut ms, "missing", &self.missing);
        push_ranges(&mut ms, "ranges", &self.ranges);
        proof {
            assert(members_view(ms@) =~= date_range_aggregation_members(self@));
        }
        ms
    }

    /// Decodes a body from its members.
    pub fn from_members(b: &Vec<(String, Json)>) -> (r: Result<DateRangeAggregation, DecodeError>)
        ensures
            result_view(r) == date_range_aggregation_from(members_view(b@)),
    {
        let key = "date_range";
        let field = match read_req_str(b, "field", key) {
            Ok(v) => v,
            Err(e) => return Err(e),
        };
        let time_zone = match read_opt_str(b, "time_zone", key) {
            Ok(v) => v,
            Err(e) => return Err(e),
        };
        let format = match read_opt_str(b, "format", key) {
            Ok(v) => v,
            Err(e) => return Err(e),
        };
        let missing = match read_opt_str(b, "missing", key) {
            Ok(v) => v,
            Err(e) => return Err(e),
        };
        let ranges = match read_ranges(b, "ranges", key) {
            Ok(v) => v,
            Err(e) => return Err(e),
        };
        Ok(DateRangeAggregation { field, time_zone, format, missing, ranges })
    }
}

/// Buckets of varying width, `buckets` of them.
#[derive(Debug)]
pub struct VariableWidthHistogram {
    pub field: String,
    pub buckets: String,
}

pub struct VariableWidthHistogramView {
    pub field: Seq<char>,
    pub buckets: Seq<char>,
}

impl View for VariableWidthHistogram {
    type V = VariableWidthHistogramView;

    open spec fn view(&self) -> VariableWidthHistogramView {
        VariableWidthHistogramView {
            field: self.field@,
            buckets: self.buckets@,
        }
    }
}

/// The members of an encoded `variable_width_histogram` body, absent options left out.
pub open spec fn variable_width_histogram_members(v: VariableWidthHistogramView) -> Seq<(Seq<char>, JsonValue)> {
    seq![("field"@, JsonValue::Str(v.field))] + seq![("buckets"@, JsonValue::Number(v.buckets))]
}

pub open spec fn variable_width_histogram_from(b: Seq<(Seq<char>, JsonValue)>) -> Result<VariableWidthHistogramView, DecodeErrorView> {
    match req_str(b, "field"@, "variable_width_histogram"@) {
        Err(e) => Err(e),
        Ok(field) => match req_num(b, "buckets"@, "variable_width_histogram"@) {
        Err(e) => Err(e),
        Ok(buckets) => Ok(VariableWidthHistogramView { field, buckets }),
    },
    }
}

impl VariableWidthHistogram {
    /// The members of this body.
    pub fn to_members(&self) -> (r: Vec<(String, Json)>)
        ensures
            members_view(r@) == variable_width_histogram_members(self@),
    {
        let mut ms = empty_members();
        push_req_str(&mut ms, "field", &self.field);
        push_req_num(&mut ms, "buckets", &self.buckets);
        proof {
            assert(members_view(ms@) =~= variable_width_histogram_members(self@));
        }
        ms
    }

    /// Decodes a body from its members.
    pub fn from_members(b: &Vec<(String, Json)>) -> (r: Result<VariableWidthHistogram, DecodeError>)
        ensures
            result_view(r) == variable_width_histogram_from(members_view(b@)),
    {
        let key = "variable_width_histogram";
        let field = match read_req_str(b, "field", key) {
            Ok(v) => v,
            Err(e) => return Err(e),
        };
        let buckets = match read_req_num(b, "buckets", key) {
            Ok(v) => v,
            Err(e) => return Err(e),
        };
        Ok(VariableWidthHistogram { field, buckets })
    }
}

/// A per-bucket computation over sibling metrics.
#[derive(Debug)]
pub struct BucketScript {
    pub script: String,
    pub buckets_path: Option<Json>,
    pub gap_policy: Option<GapPolicy>,
    pub format: Option<String>,
}

pub struct BucketScriptView {
    pub script: Seq<char>,
    pub buckets_path: Option<JsonValue>,
    pub gap_policy: Option<GapPolicy>,
    pub format: Option<Seq<char>>,
}

impl View for BucketScript {
    type V = BucketScriptView;

    open spec fn view(&self) -> BucketScriptView {
        BucketScriptView {
            script: self.script@,
            buckets_path: opt_json_view(self.buckets_path),
            gap_policy: self.gap_policy,
            format: opt_view(self.format),
        }
    }
}

/// The members of an encoded `bucket_script` body, absent options left out.
pub open spec fn bucket_script_members(v: BucketScriptView) -> Seq<(Seq<char>, JsonValue)> {
    seq![("script"@, JsonValue::Str(v.script))] + opt_json_member("buckets_path"@, v.buckets_path) + gap_policy_member("gap_policy"@, v.gap_policy) + opt_str_member("format"@, v.format)
}

pub open spec fn bucket_script_from(b: Seq<(Seq<char>, JsonValue)>) -> Result<BucketScriptView, DecodeErrorView> {
    match req_str(b, "script"@, "bucket_script"@) {
        Err(e) => Err(e),
        Ok(script) => match obj_opt(b, "buckets_path"@, "bucket_script"@) {
        Err(e) => Err(e),
        Ok(buckets_path) => match gap_policy_opt(b, "gap_policy"@) {
        Err(e) => Err(e),
        Ok(gap_policy) => match opt_str(b, "format"@, "bucket_script"@) {
        Err(e) => Err(e),
        Ok(format) => Ok(BucketScriptView { script, buckets_path, gap_policy, format }),
    },
    },
    },
    }
}

impl BucketScript {
    /// The members of this body.
    pub fn to_members(&self) -> (r: Vec<(String, Json)>)
        ensures
            members_view(r@) == bucket_script_members(self@),
    {
        let mut ms = empty_members();
        push_req_str(&mut ms, "script", &self.script);
        push_opt_json(&mut ms, "buckets_path", &self.buckets_path);
        push_gap_policy(&mut ms, "gap_policy", self.gap_policy);
        push_opt_str(&mut ms, "format", &self.format);
        proof {
            assert(members_view(ms@) =~= bucket_script_members(self@));
        }
        ms
    }

    /// Decodes a body from its members.
    pub fn from_members(b: &Vec<(String, Json)>) -> (r: Result<BucketScript, DecodeError>)
        ensures
            result_view(r) == bucket_script_from(members_view(b@)),
    {
        let key = "bucket_script";
        let script = match read_req_str(b, "script", key) {
            Ok(v) => v,
            Err(e) => return Err(e),
        };
        let buckets_path = match read_obj_opt(b, "buckets_path", key) {
            Ok(v) => v,
            Err(e) => return Err(e),
        };
        let gap_policy = match read_gap_policy(b, "gap_policy") {
            Ok(v) => v,
            Err(e) => return Err(e),
        };
        let format = match read_opt_str(b, "format", key) {
            Ok(v) => v,
            Err(e) => return Err(e),
        };
        Ok(BucketScript { script, buckets_path, gap_policy, format })
    }
}

/// Keeps the buckets for which `script` holds.
#[derive(Debug)]
pub struct BucketSelector {
    pub script: String,
    pub buckets_path: Json,
    pub gap_policy: Option<GapPolicy>,
}

pub struct BucketSelectorView {
    pub script: Seq<char>,
    pub buckets_path: JsonValue,
    pub gap_policy: Option<GapPolicy>,
}

impl View for BucketSelector {
    type V = BucketSelectorView;

    open spec fn view(&self) -> BucketSelectorView {
        BucketSelectorView {
            script: self.script@,
            buckets_path: self.buckets_path@,
            gap_policy: self.gap_policy,
        }
    }
}

/// The members of an encoded `bucket_selector` body, absent options left out.
pub open spec fn bucket_selector_members(v: BucketSelectorView) -> Seq<(Seq<char>, JsonValue)> {
    seq![("script"@, JsonValue::Str(v.script))] + seq![("buckets_path"@, v.buckets_path)] + gap_policy_member("gap_policy"@, v.gap_policy)
}

pub open spec fn bucket_selector_from(b: Seq<(Seq<char>, JsonValue)>) -> Result<BucketSelectorView, DecodeErrorView> {
    match req_str(b, "script"@, "bucket_selector"@) {
        Err(e) => Err(e),
        Ok(script) => match obj_req(b, "buckets_path"@, "bucket_selector"@) {
        Err(e) => Err(e),
        Ok(buckets_path) => match gap_policy_opt(b, "gap_policy"@) {
        Err(e) => Err(e),
        Ok(gap_policy) => Ok(BucketSelectorView { script, buckets_path, gap_policy }),
    },
    },
    }
}

impl BucketSelector {
    /// The members of this body.
    pub fn to_members(&self) -> (r: Vec<(String, Json)>)
        ensures
            members_view(r@) == bucket_selector_members(self@),
    {
        let mut ms = empty_members();
        push_req_str(&mut ms, "script", &self.script);
        push_req_json(&mut ms, "buckets_path", &self.buckets_path);
        push_gap_policy(&mut ms, "gap_policy", self.gap_policy);
        proof {
            assert(members_view(ms@) =~= bucket_selector_members(self@));
        }
        ms
    }

    /// Decodes a body from its members.
    pub fn from_members(b: &Vec<(String, Json)>) -> (r: Result<BucketSelector, DecodeError>)
        ensures
            result_view(r) == bucket_selector_from(members_view(b@)),
    {
        let key = "bucket_selector";
        let script = match read_req_str(b, "script", key) {
            Ok(v) => v,
            Err(e) => return Err(e),
        };
        let buckets_path = match read_obj_req(b, "buckets_path", key) {
            Ok(v) => v,
            Err(e) => return Err(e),
        };
        let gap_policy = match read_gap_policy(b, "gap_policy") {
            Ok(v) => v,
            Err(e) => return Err(e),
        };
        Ok(BucketSelector { script, buckets_path, gap_policy })
    }
}

/// Sorts and truncates the buckets of its parent.
#[derive(Debug)]
pub struct BucketSort {
    pub sort: Vec<Sort>,
    pub from: Option<String>,
    pub size: Option<String>,
    pub gap_policy: Option<GapPolicy>,
}

pub struct BucketSortView {
    pub sort: Seq<SortView>,
    pub from: Option<Seq<char>>,
    pub size: Option<Seq<char>>,
    pub gap_policy: Option<GapPolicy>,
}

impl View for BucketSort {
    type V = BucketSortView;

    open spec fn view(&self) -> BucketSortView {
        BucketSortView {
            sort: sorts_view(self.sort@),
            from: opt_view(self.from),
            size: opt_view(self.size),
            gap_policy: self.gap_policy,
        }
    }
}

/// The members of an encoded `bucket_sort` body, absent options left out.
pub open spec fn bucket_sort_members(v: BucketSortView) -> Seq<(Seq<char>, JsonValue)> {
    sorts_member("sort"@, v.sort) + opt_num_member("from"@, v.from) + opt_num_member("size"@, v.size) + gap_policy_member("gap_policy"@, v.gap_policy)
}

pub open spec fn bucket_sort_from(b: Seq<(Seq<char>, JsonValue)>) -> Result<BucketSortView, DecodeErrorView> {
    match sorts_from(b, "sort"@, "bucket_sort"@) {
        Err(e) => Err(e),
        Ok(sort) => match opt_num(b, "from"@) {
        Err(e) => Err(e),
        Ok(from) => match opt_num(b, "size"@) {
        Err(e) => Err(e),
        Ok(size) => match gap_policy_opt(b, "gap_policy"@) {
        Err(e) => Err(e),
        Ok(gap_policy) => Ok(BucketSortView { sort, from, size, gap_policy }),
    },
    },
    },
    }
}

impl BucketSort {
    /// The members of this body.
    pub fn to_members(&self) -> (r: Vec<(String, Json)>)
        ensures
            members_view(r@) == bucket_sort_members(self@),
    {
        let mut ms = empty_members();
        push_sorts(&mut ms, "sort", &self.sort);
        push_opt_num(&mut ms, "from", &self.from);
        push_opt_num(&mut ms, "size", &self.size);
        push_gap_policy(&mut ms, "gap_policy", self.gap_policy);
        proof {
            assert(members_view(ms@) =~= bucket_sort_members(self@));
        }
        ms
    }

    /// Decodes a body from its members.
    pub fn from_members(b: &Vec<(String, Json)>) -> (r: Result<BucketSort, DecodeError>)
        ensures
            result_view(r) == bucket_sort_from(members_view(b@)),
    {
        let key = "bucket_sort";
        let sort = match read_sorts(b, "sort", key) {
            Ok(v) => v,
            Err(e) => return Err(e),
        };
        let from = match read_opt_num(b, "from") {
            Ok(v) => v,
            Err(e) => return Err(e),
        };
        let size = match read_opt_num(b, "size") {
            Ok(v) => v,
            Err(e) => return Err(e),
        };
        let gap_policy = match read_gap_policy(b, "gap_policy") {
            Ok(v) => v,
            Err(e) => return Err(e),
        };
        Ok(BucketSort { sort, from, size, gap_policy })
    }
}

/// Aggregates over nested documents at `path`.
#[derive(Debug)]
pub struct NestedAggregation {
    pub path: String,
}

pub struct NestedAggregationView {
    pub path: Seq<char>,
}

impl View for NestedAggregation {
    type V = NestedAggregationView;

    open spec fn view(&self) -> NestedAggregationView {
        NestedAggregationView {
            path: self.path@,
        }
    }
}

/// The members of an encoded `nested` body, absent options left out.
pub open spec fn nested_aggregation_members(v: NestedAggregationView) -> Seq<(Seq<char>, JsonValue)> {
    seq![("path"@, JsonValue::Str(v.path))]
}

pub open spec fn nested_aggregation_from(b: Seq<(Seq<char>, JsonValue)>) -> Result<NestedAggregationView, DecodeErrorView> {
    match req_str(b, "path"@, "nested"@) {
        Err(e) => Err(e),
        Ok(path) => Ok(NestedAggregationView { path }),
    }
}

impl NestedAggregation {
    /// The members of this body.
    pub fn to_members(&self) -> (r: Vec<(String, Json)>)
        ensures
            members_view(r@) == nested_aggregation_members(self@),
    {
        let mut ms = empty_members();
        push_req_str(&mut ms, "path", &self.path);
        proof {
            assert(members_view(ms@) =~= nested_aggregation_members(self@));
        }
        ms
    }

    /// Decodes a body from its members.
    pub fn from_members(b: &Vec<(String, Json)>) -> (r: Result<NestedAggregation, DecodeError>)
        ensures
            result_view(r) == nested_aggregation_from(members_view(b@)),
    {
        let key = "nested";
        let path = match read_req_str(b, "path", key) {
            Ok(v) => v,
            Err(e) => return Err(e),
        };
        Ok(NestedAggregation { path })
    }
}

/// Joins back from nested documents to `path`, or to the root.
#[derive(Debug)]
pub struct ReverseNestedAggregation {
    pub path: Option<String>,
}

pub struct ReverseNestedAggregationView {
    pub path: Option<Seq<char>>,
}

impl View for ReverseNestedAggregation {
    type V = ReverseNestedAggregationView;

    open spec fn view(&self) -> ReverseNestedAggregationView {
        ReverseNestedAggregationView {
            path: opt_view(self.path),
        }
    }
}

/// The members of an encoded `reverse_nested` body, absent options left out.
pub open spec fn reverse_nested_aggregation_members(v: ReverseNestedAggregationView) -> Seq<(Seq<char>, JsonValue)> {
    opt_str_member("path"@, v.path)
}

pub open spec fn reverse_nested_aggregation_from(b: Seq<(Seq<char>, JsonValue)>) -> Result<ReverseNestedAggregationView, DecodeErrorView> {
    match opt_str(b, "path"@, "reverse_nested"@) {
        Err(e) => Err(e),
        Ok(path) => Ok(ReverseNestedAggregationView { path }),
    }
}

impl ReverseNestedAggregation {
    /// The members of this body.
    pub fn to_members(&self) -> (r: Vec<(String, Json)>)
        ensures
            members_view(r@) == reverse_nested_aggregation_members(self@),
    {
        let mut ms = empty_members();
        push_opt_str(&mut ms, "path", &self.path);
        proof {
            assert(members_view(ms@) =~= reverse_nested_aggregation_members(self@));
        }
        ms
    }

    /// Decodes a body from its members.
    pub fn from_members(b: &Vec<(String, Json)>) -> (r: Result<ReverseNestedAggregation, DecodeError>)
        ensures
            result_view(r) == reverse_nested_aggregation_from(members_view(b@)),
    {
        let key = "reverse_nested";
        let path = match read_opt_str(b, "path", key) {
            Ok(v) => v,
            Err(e) => return Err(e),
        };
        Ok(ReverseNestedAggregation { path })
    }
}

/// Limits sub-aggregations to the top-scoring documents.
#[derive(Debug)]
pub struct SamplerAggregation {
    pub shard_size: Option<String>,
}

pub struct SamplerAggregationView {
    pub shard_size: Option<Seq<char>>,
}

impl View for SamplerAggregation {
    type V = SamplerAggregationView;

    open spec fn view(&self) -> SamplerAggregationView {
        SamplerAggregationView {
            shard_size: opt_view(self.shard_size),
        }
    }
}

/// The members of an encoded `sampler` body, absent options left out.
pub open spec fn sampler_aggregation_members(v: SamplerAggregationView) -> Seq<(Seq<char>, JsonValue)> {
    opt_num_member("shard_size"@, v.shard_size)
}

pub open spec fn sampler_aggregation_from(b: Seq<(Seq<char>, JsonValue)>) -> Result<SamplerAggregationView, DecodeErrorView> {
    match opt_num(b, "shard_size"@) {
        Err(e) => Err(e),
        Ok(shard_size) => Ok(SamplerAggregationView { shard_size }),
    }
}

impl SamplerAggregation {
    /// The members of this body.
    pub fn to_members(&self) -> (r: Vec<(String, Json)>)
        ensures
            members_view(r@) == sampler_aggregation_members(self@),
    {
        let mut ms = empty_members();
        push_opt_num(&mut ms, "shard_size", &self.shard_size);
        proof {
            assert(members_view(ms@) =~= sampler_aggregation_members(self@));
        }
        ms
    }

    /// Decodes a body from its members.
    pub fn from_members(b: &Vec<(String, Json)>) -> (r: Result<SamplerAggregation, DecodeError>)
        ensures
            result_view(r) == sampler_aggregation_from(members_view(b@)),
    {
        let key = "sampler";
        let shard_size = match read_opt_num(b, "shard_size") {
            Ok(v) => v,
            Err(e) => return Err(e),
        };
        Ok(SamplerAggregation { shard_size })
    }
}

/// Finds unusually frequent terms in free text.
#[derive(Debug)]
pub struct SignificantTextAggregation {
    pub field: String,
    pub size: Option<String>,
    pub filter_duplicate_text: bool,
}

pub struct SignificantTextAggregationView {
    pub field: Seq<char>,
    pub size: Option<Seq<char>>,
    pub filter_duplicate_text: bool,
}

impl View for SignificantTextAggregation {
    type V = SignificantTextAggregationView;

    open spec fn view(&self) -> SignificantTextAggregationView {
        SignificantTextAggregationView {
            field: self.field@,
            size: opt_view(self.size),
            filter_duplicate_text: self.filter_duplicate_text,
        }
    }
}

/// The members of an encoded `significant_text` body, absent options left out.
pub open spec fn significant_text_aggregation_members(v: SignificantTextAggregationView) -> Seq<(Seq<char>, JsonValue)> {
    seq![("field"@, JsonValue::Str(v.field))] + opt_num_member("size"@, v.size) + flag_member("filter_duplicate_text"@, v.filter_duplicate_text)
}

pub open spec fn significant_text_aggregation_from(b: Seq<(Seq<char>, JsonValue)>) -> Result<SignificantTextAggregationView, DecodeErrorView> {
    match req_str(b, "field"@, "significant_text"@) {
        Err(e) => Err(e),
        Ok(field) => match opt_num(b, "size"@) {
        Err(e) => Err(e),
        Ok(size) => match opt_bool(b, "filter_duplicate_text"@, "significant_text"@) {
        Err(e) => Err(e),
        Ok(filter_duplicate_text) => Ok(SignificantTextAggregationView { field, size, filter_duplicate_text }),
    },
    },
    }
}

impl SignificantTextAggregation {
    /// The members of this body.
    pub fn to_members(&self) -> (r: Vec<(String, Json)>)
        ensures
            members_view(r@) == significant_text_aggregation_members(self@),
    {
        let mut ms = empty_members();
        push_req_str(&mut ms, "field", &self.field);
        push_opt_num(&mut ms, "size", &self.size);
        push_flag(&mut ms, "filter_duplicate_text", self.filter_duplicate_text);
        proof {
            assert(members_view(ms@) =~= significant_text_aggregation_members(self@));
        }
        ms
    }

    /// Decodes a body from its members.
    pub fn from_members(b: &Vec<(String, Json)>) -> (r: Result<SignificantTextAggregation, DecodeError>)
        ensures
            result_view(r) == significant_text_aggregation_from(members_view(b@)),
    {
        let key = "significant_text";
        let field = match read_req_str(b, "field", key) {
            Ok(v) => v,
            Err(e) => return Err(e),
        };
        let size = match read_opt_num(b, "size") {
            Ok(v) => v,
            Err(e) => return Err(e),
        };
        let filter_duplicate_text = match read_opt_bool(b, "filter_duplicate_text", key) {
            Ok(v) => v,
            Err(e) => return Err(e),
        };
        Ok(SignificantTextAggregation { field, size, filter_duplicate_text })
    }
}

/// The member `name: <script>` when `v` is `Some`.
pub open spec fn script_member(name: Seq<char>, v: Option<ScriptView>) -> Seq<(Seq<char>, JsonValue)> {
    match v {
        Some(s) => seq![(name, script_json(s))],
        None => seq![],
    }
}

/// An optional script member; `null` counts as absent.
pub open spec fn script_opt(b: Seq<(Seq<char>, JsonValue)>, name: Seq<char>) -> Result<Option<ScriptView>, DecodeErrorView> {
    match lookup(b, name) {
        None => Ok(None),
        Some(JsonValue::Null) => Ok(None),
        Some(x) => match script_from(x) {
            Ok(s) => Ok(Some(s)),
            Err(e) => Err(e),
        },
    }
}

fn push_script_opt(ms: &mut Vec<(String, Json)>, name: &str, v: &Option<Script>)
    ensures
        members_view(final(ms)@) == members_view(old(ms)@) + script_member(name@, match *v { Some(s) => Some(s@), None => None }),
{
    match v {
        Some(s) => push_member(ms, name, s.to_json()),
        None => {},
    }
    proof {
        assert(members_view(ms@) =~= members_view(old(ms)@) + script_member(name@, match *v { Some(s) => Some(s@), None => None }));
    }
}

fn read_script_opt(b: &Vec<(String, Json)>, name: &str) -> (r: Result<Option<Script>, DecodeError>)
    ensures
        match r {
            Ok(v) => script_opt(members_view(b@), name@) == Ok::<Option<ScriptView>, DecodeErrorView>(match v { Some(s) => Some(s@), None => None }),
            Err(e) => script_opt(members_view(b@), name@) == Err::<Option<ScriptView>, DecodeErrorView>(e@),
        },
{
    match get_member(b, name) {
        None => Ok(None),
        Some(Json::Null) => Ok(None),
        Some(x) => match Script::from_json(x) {
            Ok(s) => Ok(Some(s)),
            Err(e) => Err(e),
        },
    }
}

pub proof fn lemma_script_member(name: Seq<char>, v: Option<ScriptView>, key: Seq<char>)
    ensures
        lookup(script_member(name, v), key) == if name == key && v is Some {
            Some(script_json(v->0))
        } else {
            None::<JsonValue>
        },
{
    if v is Some {
        lemma_lookup_one(name, script_json(v->0), key);
    }
}

/// The body of a metric aggregation; `missing` is decimal text.
#[derive(Debug)]
pub struct InnerAggregation {
    pub field: Option<String>,
    pub script: Option<Script>,
    pub missing: Option<String>,
}

pub struct InnerAggregationView {
    pub field: Option<Seq<char>>,
    pub script: Option<ScriptView>,
    pub missing: Option<Seq<char>>,
}

impl View for InnerAggregation {
    type V = InnerAggregationView;

    open spec fn view(&self) -> InnerAggregationView {
        InnerAggregationView {
            field: opt_view(self.field),
            script: match self.script { Some(s) => Some(s@), None => None },
            missing: opt_view(self.missing),
        }
    }
}

pub open spec fn inner_aggregation_members(v: InnerAggregationView) -> Seq<(Seq<char>, JsonValue)> {
    opt_str_member("field"@, v.field) + script_member("script"@, v.script) + opt_num_member("missing"@, v.missing)
}

pub open spec fn inner_aggregation_from(b: Seq<(Seq<char>, JsonValue)>) -> Result<InnerAggregationView, DecodeErrorView> {
    match opt_str(b, "field"@, "metric"@) {
        Err(e) => Err(e),
        Ok(field) => match script_opt(b, "script"@) {
        Err(e) => Err(e),
        Ok(script) => match opt_num(b, "missing"@) {
        Err(e) => Err(e),
        Ok(missing) => Ok(InnerAggregationView { field, script, missing }),
    },
    },
    }
}

pub open spec fn inner_aggregation_wf(v: InnerAggregationView) -> bool {
    script_wf(v.script)
}

impl InnerAggregation {
    /// The members of this body.
    pub fn to_members(&self) -> (r: Vec<(String, Json)>)
        ensures
            members_view(r@) == inner_aggregation_members(self@),
    {
        let mut ms = empty_members();
        push_opt_str(&mut ms, "field", &self.field);
        push_script_opt(&mut ms, "script", &self.script);
        push_opt_num(&mut ms, "missing", &self.missing);
        proof {
            assert(members_view(ms@) =~= inner_aggregation_members(self@));
        }
        ms
    }

    /// Decodes a body from its members.
    pub fn from_members(b: &Vec<(String, Json)>) -> (r: Result<InnerAggregation, DecodeError>)
        ensures
            result_view(r) == inner_aggregation_from(members_view(b@)),
    {
        let key = "metric";
        let field = match read_opt_str(b, "field", key) {
            Ok(v) => v,
            Err(e) => return Err(e),
        };
        let script = match read_script_opt(b, "script") {
            Ok(v) => v,
            Err(e) => return Err(e),
        };
        let missing = match read_opt_num(b, "missing") {
            Ok(v) => v,
            Err(e) => return Err(e),
        };
        Ok(InnerAggregation { field, script, missing })
    }
}

pub open spec fn inner_aggregation_json(v: InnerAggregationView) -> JsonValue {
    JsonValue::Object(inner_aggregation_members(v))
}

pub open spec fn inner_aggregation_of(v: JsonValue) -> Result<InnerAggregationView, DecodeErrorView> {
    match v {
        JsonValue::Object(b) => inner_aggregation_from(b),
        _ => Err(DecodeErrorView::MalformedLeaf { field: "metric"@, missing: "body"@ }),
    }
}

pub open spec fn inner_aggregation_req(b: Seq<(Seq<char>, JsonValue)>, name: Seq<char>, field: Seq<char>) -> Result<InnerAggregationView, DecodeErrorView> {
    match lookup(b, name) {
        Some(x) => inner_aggregation_of(x),
        None => Err(DecodeErrorView::MalformedLeaf { field, missing: name }),
    }
}

pub open spec fn inner_aggregation_opt(b: Seq<(Seq<char>, JsonValue)>, name: Seq<char>) -> Result<Option<InnerAggregationView>, DecodeErrorView> {
    match lookup(b, name) {
        None => Ok(None),
        Some(JsonValue::Null) => Ok(None),
        Some(x) => match inner_aggregation_of(x) {
            Ok(v) => Ok(Some(v)),
            Err(e) => Err(e),
        },
    }
}

/// A list of bodies; absent or `null` is empty, and any item that is not a
/// body makes the member malformed.
pub open spec fn inner_aggregation_list(b: Seq<(Seq<char>, JsonValue)>, name: Seq<char>, field: Seq<char>) -> Result<Seq<InnerAggregationView>, DecodeErrorView> {
    match lookup(b, name) {
        None => Ok(seq![]),
        Some(JsonValue::Null) => Ok(seq![]),
        Some(JsonValue::Array(items)) => if forall|i: int| 0 <= i < items.len() ==> #[trigger] inner_aggregation_of(items[i]) is Ok {
            Ok(items.map_values(|x: JsonValue| inner_aggregation_of(x)->Ok_0))
        } else {
            Err(DecodeErrorView::MalformedLeaf { field, missing: name })
        },
        _ => Err(DecodeErrorView::MalformedLeaf { field, missing: name }),
    }
}

pub open spec fn inner_aggregation_opt_member(name: Seq<char>, v: Option<InnerAggregationView>) -> Seq<(Seq<char>, JsonValue)> {
    match v {
        Some(x) => seq![(name, inner_aggregation_json(x))],
        None => seq![],
    }
}

pub open spec fn inner_aggregation_list_member(name: Seq<char>, v: Seq<InnerAggregationView>) -> Seq<(Seq<char>, JsonValue)> {
    if v.len() == 0 {
        seq![]
    } else {
        seq![(name, JsonValue::Array(v.map_values(|x: InnerAggregationView| inner_aggregation_json(x))))]
    }
}

impl InnerAggregation {
    pub fn to_json(&self) -> (r: Json)
        ensures
            r@ == inner_aggregation_json(self@),
    {
        Json::Object(self.to_members())
    }

    pub fn from_json(j: &Json) -> (r: Result<InnerAggregation, DecodeError>)
        ensures
            result_view(r) == inner_aggregation_of(j@),
    {
        match j {
            Json::Object(b) => InnerAggregation::from_members(b),
            _ => Err(malformed_leaf("metric", "body")),
        }
    }
}

fn push_inner_aggregation_req(ms: &mut Vec<(String, Json)>, name: &str, v: &InnerAggregation)
    ensures
        members_view(final(ms)@) == members_view(old(ms)@) + seq![(name@, inner_aggregation_json(v@))],
{
    push_member(ms, name, v.to_json());
    proof {
        assert(members_view(ms@) =~= members_view(old(ms)@) + seq![(name@, inner_aggregation_json(v@))]);
    }
}

fn push_inner_aggregation_opt(ms: &mut Vec<(String, Json)>, name: &str, v: &Option<InnerAggregation>)
    ensures
        members_view(final(ms)@) == members_view(old(ms)@) + inner_aggregation_opt_member(name@, match *v { Some(x) => Some(x@), None => None }),
{
    match v {
        Some(x) => push_member(ms, name, x.to_json()),
        None => {},
    }
    proof {
        assert(members_view(ms@) =~= members_view(old(ms)@) + inner_aggregation_opt_member(name@, match *v { Some(x) => Some(x@), None => None }));
    }
}

fn push_inner_aggregation_list(ms: &mut Vec<(String, Json)>, name: &str, v: &Vec<InnerAggregation>)
    ensures
        members_view(final(ms)@) == members_view(old(ms)@) + inner_aggregation_list_member(name@, v@.map_values(|x: InnerAggregation| x@)),
{
    if v.len() > 0 {
        let mut items = empty_items();
        let mut i: usize = 0;
        while i < v.len()
            invariant
                0 <= i <= v.len(),
                items_view(items@).len() == i,
                forall|j: int| 0 <= j < i ==> #[trigger] items_view(items@)[j] == inner_aggregation_json(v@[j]@),
            decreases v.len() - i,
        {
            push_item(&mut items, v[i].to_json());
            i = i + 1;
        }
        proof {
            assert(items_view(items@) =~= v@.map_values(|x: InnerAggregation| x@).map_values(|x: InnerAggregationView| inner_aggregation_json(x)));
        }
        push_member(ms, name, Json::Array(items));
    }
    proof {
        assert(members_view(ms@) =~= members_view(old(ms)@) + inner_aggregation_list_member(name@, v@.map_values(|x: InnerAggregation| x@)));
    }
}

fn read_inner_aggregation_req(b: &Vec<(String, Json)>, name: &str, field: &str) -> (r: Result<InnerAggregation, DecodeError>)
    ensures
        result_view(r) == inner_aggregation_req(members_view(b@), name@, field@),
{
    match get_member(b, name) {
        Some(x) => InnerAggregation::from_json(x),
        None => Err(malformed_leaf(field, name)),
    }
}

fn read_inner_aggregation_opt(b: &Vec<(String, Json)>, name: &str) -> (r: Result<Option<InnerAggregation>, DecodeError>)
    ensures
        match r {
            Ok(v) => inner_aggregation_opt(members_view(b@), name@) == Ok::<Option<InnerAggregationView>, DecodeErrorView>(match v { Some(x) => Some(x@), None => None }),
            Err(e) => inner_aggregation_opt(members_view(b@), name@) == Err::<Option<InnerAggregationView>, DecodeErrorView>(e@),
        },
{
    match get_member(b, name) {
        None => Ok(None),
        Some(Json::Null) => Ok(None),
        Some(x) => match InnerAggregation::from_json(x) {
            Ok(v) => Ok(Some(v)),
            Err(e) => Err(e),
        },
    }
}

fn read_inner_aggregation_list(b: &Vec<(String, Json)>, name: &str, field: &str) -> (r: Result<Vec<InnerAggregation>, DecodeError>)
    ensures
        match r {
            Ok(v) => inner_aggregation_list(members_view(b@), name@, field@) == Ok::<Seq<InnerAggregationView>, DecodeErrorView>(v@.map_values(|x: InnerAggregation| x@)),
            Err(e) => inner_aggregation_list(members_view(b@), name@, field@) == Err::<Seq<InnerAggregationView>, DecodeErrorView>(e@),
        },
{
    match get_member(b, name) {
        None => {
            let v: Vec<InnerAggregation> = Vec::new();
            proof {
                assert(v@.map_values(|x: InnerAggregation| x@) =~= seq![]);
            }
            Ok(v)
        },
        Some(Json::Null) => {
            let v: Vec<InnerAggregation> = Vec::new();
            proof {
                assert(v@.map_values(|x: InnerAggregation| x@) =~= seq![]);
            }
            Ok(v)
        },
        Some(Json::Array(items)) => {
            proof {
                lemma_items_index(items@);
            }
            let ghost iv = items_view(items@);
            let mut out: Vec<InnerAggregation> = Vec::new();
            let mut i: usize = 0;
            while i < items.len()
                invariant
                    0 <= i <= items.len(),
                    iv == items_view(items@),
                    iv.len() == items@.len(),
                    lookup(members_view(b@), name@) == Some(JsonValue::Array(iv)),
                    forall|j: int| 0 <= j < items@.len() ==> #[trigger] iv[j] == json_view(items@[j]),
                    out@.len() == i,
                    forall|j: int| 0 <= j < i ==> #[trigger] inner_aggregation_of(iv[j]) == Ok::<InnerAggregationView, DecodeErrorView>(out@[j]@),
                decreases items.len() - i,
            {
                match InnerAggregation::from_json(&items[i]) {
                    Ok(d) => out.push(d),
                    Err(_) => {
                        assert(!(inner_aggregation_of(iv[i as int]) is Ok));
                        return Err(malformed_leaf(field, name));
                    },
                }
                i = i + 1;
            }
            proof {
                assert(out@.map_values(|x: InnerAggregation| x@) =~= iv.map_values(|x: JsonValue| inner_aggregation_of(x)->Ok_0));
            }
            Ok(out)
        },
        _ => Err(malformed_leaf(field, name)),
    }
}

pub proof fn lemma_inner_aggregation_opt_member(name: Seq<char>, v: Option<InnerAggregationView>, key: Seq<char>)
    ensures
        lookup(inner_aggregation_opt_member(name, v), key) == if name == key && v is Some {
            Some(inner_aggregation_json(v->0))
        } else {
            None::<JsonValue>
        },
{
    if v is Some {
        lemma_lookup_one(name, inner_aggregation_json(v->0), key);
    }
}

pub proof fn lemma_inner_aggregation_list_member(name: Seq<char>, v: Seq<InnerAggregationView>, key: Seq<char>)
    ensures
        lookup(inner_aggregation_list_member(name, v), key) == if name == key && v.len() > 0 {
            Some(JsonValue::Array(v.map_values(|x: InnerAggregationView| inner_aggregation_json(x))))
        } else {
            None::<JsonValue>
        },
{
    if v.len() > 0 {
        lemma_lookup_one(name, JsonValue::Array(v.map_values(|x: InnerAggregationView| inner_aggregation_json(x))), key);
    }
}

pub proof fn lemma_inner_aggregation_list_slot(b: Seq<(Seq<char>, JsonValue)>, name: Seq<char>, field: Seq<char>, v: Seq<InnerAggregationView>)
    requires
        forall|i: int| 0 <= i < v.len() ==> #[trigger] inner_aggregation_wf(v[i]),
        lookup(b, name) == if v.len() > 0 {
            Some(JsonValue::Array(v.map_values(|x: InnerAggregationView| inner_aggregation_json(x))))
        } else {
            None::<JsonValue>
        },
    ensures
        inner_aggregation_list(b, name, field) == Ok::<Seq<InnerAggregationView>, DecodeErrorView>(v),
{
    if v.len() > 0 {
        let items = v.map_values(|x: InnerAggregationView| inner_aggregation_json(x));
        assert forall|i: int| 0 <= i < items.len() implies #[trigger] inner_aggregation_of(items[i]) == Ok::<InnerAggregationView, DecodeErrorView>(v[i]) by {
            lemma_inner_aggregation_round_trip(v[i]);
        }
        assert(items.map_values(|x: JsonValue| inner_aggregation_of(x)->Ok_0) =~= v);
    } else {
        assert(v =~= seq![]);
    }
}

/// Decoding an encoded `metric` body gives it back.
pub proof fn lemma_inner_aggregation_round_trip(v: InnerAggregationView)
    requires
        inner_aggregation_wf(v),
    ensures
        inner_aggregation_from(inner_aggregation_members(v)) == Ok::<InnerAggregationView, DecodeErrorView>(v),
{
    lemma_agg_keys();
    let m0 = opt_str_member("field"@, v.field);
    let m1 = script_member("script"@, v.script);
    let m2 = opt_num_member("missing"@, v.missing);
    lemma_opt_str_member("field"@, v.field, "field"@);
    lemma_script_member("script"@, v.script, "field"@);
    lemma_opt_num_member("missing"@, v.missing, "field"@);
    lemma_lookup_concat(m0, m1, "field"@);
    lemma_lookup_concat(m0 + m1, m2, "field"@);
    lemma_opt_str_member("field"@, v.field, "script"@);
    lemma_script_member("script"@, v.script, "script"@);
    lemma_opt_num_member("missing"@, v.missing, "script"@);
    lemma_lookup_concat(m0, m1, "script"@);
    lemma_lookup_concat(m0 + m1, m2, "script"@);
    if v.script is Some { lemma_script_round_trip(v.script->0); }
    lemma_opt_str_member("field"@, v.field, "missing"@);
    lemma_script_member("script"@, v.script, "missing"@);
    lemma_opt_num_member("missing"@, v.missing, "missing"@);
    lemma_lookup_concat(m0, m1, "missing"@);
    lemma_lookup_concat(m0 + m1, m2, "missing"@);
    assert(inner_aggregation_members(v) =~= m0 + m1 + m2);
}

/// The body of a `terms` aggregation; `size` and `missing` are decimal text.
#[derive(Debug)]
pub struct TermsAggregation {
    pub field: Option<String>,
    pub script: Option<Script>,
    pub size: Option<String>,
    pub missing: Option<String>,
}

pub struct TermsAggregationView {
    pub field: Option<Seq<char>>,
    pub script: Option<ScriptView>,
    pub size: Option<Seq<char>>,
    pub missing: Option<Seq<char>>,
}

impl View for TermsAggregation {
    type V = TermsAggregationView;

    open spec fn view(&self) -> TermsAggregationView {
        TermsAggregationView {
            field: opt_view(self.field),
            script: match self.script { Some(s) => Some(s@), None => None },
            size: opt_view(self.size),
            missing: opt_view(self.missing),
        }
    }
}

pub open spec fn terms_aggregation_members(v: TermsAggregationView) -> Seq<(Seq<char>, JsonValue)> {
    opt_str_member("field"@, v.field) + script_member("script"@, v.script) + opt_num_member("size"@, v.size) + opt_num_member("missing"@, v.missing)
}

pub open spec fn terms_aggregation_from(b: Seq<(Seq<char>, JsonValue)>) -> Result<TermsAggregationView, DecodeErrorView> {
    match opt_str(b, "field"@, "terms"@) {
        Err(e) => Err(e),
        Ok(field) => match script_opt(b, "script"@) {
        Err(e) => Err(e),
        Ok(script) => match opt_num(b, "size"@) {
        Err(e) => Err(e),
        Ok(size) => match opt_num(b, "missing"@) {
        Err(e) => Err(e),
        Ok(missing) => Ok(TermsAggregationView { field, script, size, missing }),
    },
    },
    },
    }
}

pub open spec fn terms_aggregation_wf(v: TermsAggregationView) -> bool {
    script_wf(v.script)
}

impl TermsAggregation {
    /// The members of this body.
    pub fn to_members(&self) -> (r: Vec<(String, Json)>)
        ensures
            members_view(r@) == terms_aggregation_members(self@),
    {
        let mut ms = empty_members();
        push_opt_str(&mut ms, "field", &self.field);
        push_script_opt(&mut ms, "script", &self.script);
        push_opt_num(&mut ms, "size", &self.size);
        push_opt_num(&mut ms, "missing", &self.missing);
        proof {
            assert(members_view(ms@) =~= terms_aggregation_members(self@));
        }
        ms
    }

    /// Decodes a body from its members.
    pub fn from_members(b: &Vec<(String, Json)>) -> (r: Result<TermsAggregation, DecodeError>)
        ensures
            result_view(r) == terms_aggregation_from(members_view(b@)),
    {
        let key = "terms";
        let field = match read_opt_str(b, "field", key) {
            Ok(v) => v,
            Err(e) => return Err(e),
        };
        let script = match read_script_opt(b, "script") {
            Ok(v) => v,
            Err(e) => return Err(e),
        };
        let size = match read_opt_num(b, "size") {
            Ok(v) => v,
            Err(e) => return Err(e),
        };
        let missing = match read_opt_num(b, "missing") {
            Ok(v) => v,
            Err(e) => return Err(e),
        };
        Ok(TermsAggregation { field, script, size, missing })
    }
}

pub open spec fn terms_aggregation_json(v: TermsAggregationView) -> JsonValue {
    JsonValue::Object(terms_aggregation_members(v))
}

pub open spec fn terms_aggregation_of(v: JsonValue) -> Result<TermsAggregationView, DecodeErrorView> {
    match v {
        JsonValue::Object(b) => terms_aggregation_from(b),
        _ => Err(DecodeErrorView::MalformedLeaf { field: "terms"@, missing: "body"@ }),
    }
}

pub open spec fn terms_aggregation_req(b: Seq<(Seq<char>, JsonValue)>, name: Seq<char>, field: Seq<char>) -> Result<TermsAggregationView, DecodeErrorView> {
    match lookup(b, name) {
        Some(x) => terms_aggregation_of(x),
        None => Err(DecodeErrorView::MalformedLeaf { field, missing: name }),
    }
}

pub open spec fn terms_aggregation_opt(b: Seq<(Seq<char>, JsonValue)>, name: Seq<char>) -> Result<Option<TermsAggregationView>, DecodeErrorView> {
    match lookup(b, name) {
        None => Ok(None),
        Some(JsonValue::Null) => Ok(None),
        Some(x) => match terms_aggregation_of(x) {
            Ok(v) => Ok(Some(v)),
            Err(e) => Err(e),
        },
    }
}

/// A list of bodies; absent or `null` is empty, and any item that is not a
/// body makes the member malformed.
pub open spec fn terms_aggregation_list(b: Seq<(Seq<char>, JsonValue)>, name: Seq<char>, field: Seq<char>) -> Result<Seq<TermsAggregationView>, DecodeErrorView> {
    match lookup(b, name) {
        None => Ok(seq![]),
        Some(JsonValue::Null) => Ok(seq![]),
        Some(JsonValue::Array(items)) => if forall|i: int| 0 <= i < items.len() ==> #[trigger] terms_aggregation_of(items[i]) is Ok {
            Ok(items.map_values(|x: JsonValue| terms_aggregation_of(x)->Ok_0))
        } else {
            Err(DecodeErrorView::MalformedLeaf { field, missing: name })
        },
        _ => Err(DecodeErrorView::MalformedLeaf { field, missing: name }),
    }
}

pub open spec fn terms_aggregation_opt_member(name: Seq<char>, v: Option<TermsAggregationView>) -> Seq<(Seq<char>, JsonValue)> {
    match v {
        Some(x) => seq![(name, terms_aggregation_json(x))],
        None => seq![],
    }
}

pub open spec fn terms_aggregation_list_member(name: Seq<char>, v: Seq<TermsAggregationView>) -> Seq<(Seq<char>, JsonValue)> {
    if v.len() == 0 {
        seq![]
    } else {
        seq![(name, JsonValue::Array(v.map_values(|x: TermsAggregationView| terms_aggregation_json(x))))]
    }
}

impl TermsAggregation {
    pub fn to_json(&self) -> (r: Json)
        ensures
            r@ == terms_aggregation_json(self@),
    {
        Json::Object(self.to_members())
    }

    pub fn from_json(j: &Json) -> (r: Result<TermsAggregation, DecodeError>)
        ensures
            result_view(r) == terms_aggregation_of(j@),
    {
        match j {
            Json::Object(b) => TermsAggregation::from_members(b),
            _ => Err(malformed_leaf("terms", "body")),
        }
    }
}

fn push_terms_aggregation_req(ms: &mut Vec<(String, Json)>, name: &str, v: &TermsAggregation)
    ensures
        members_view(final(ms)@) == members_view(old(ms)@) + seq![(name@, terms_aggregation_json(v@))],
{
    push_member(ms, name, v.to_json());
    proof {
        assert(members_view(ms@) =~= members_view(old(ms)@) + seq![(name@, terms_aggregation_json(v@))]);
    }
}

fn push_terms_aggregation_opt(ms: &mut Vec<(String, Json)>, name: &str, v: &Option<TermsAggregation>)
    ensures
        members_view(final(ms)@) == members_view(old(ms)@) + terms_aggregation_opt_member(name@, match *v { Some(x) => Some(x@), None => None }),
{
    match v {
        Some(x) => push_member(ms, name, x.to_json()),
        None => {},
    }
    proof {
        assert(members_view(ms@) =~= members_view(old(ms)@) + terms_aggregation_opt_member(name@, match *v { Some(x) => Some(x@), None => None }));
    }
}

fn push_terms_aggregation_list(ms: &mut Vec<(String, Json)>, name: &str, v: &Vec<TermsAggregation>)
    ensures
        members_view(final(ms)@) == members_view(old(ms)@) + terms_aggregation_list_member(name@, v@.map_values(|x: TermsAggregation| x@)),
{
    if v.len() > 0 {
        let mut items = empty_items();
        let mut i: usize = 0;
        while i < v.len()
            invariant
                0 <= i <= v.len(),
                items_view(items@).len() == i,
                forall|j: int| 0 <= j < i ==> #[trigger] items_view(items@)[j] == terms_aggregation_json(v@[j]@),
            decreases v.len() - i,
        {
            push_item(&mut items, v[i].to_json());
            i = i + 1;
        }
        proof {
            assert(items_view(items@) =~= v@.map_values(|x: TermsAggregation| x@).map_values(|x: TermsAggregationView| terms_aggregation_json(x)));
        }
        push_member(ms, name, Json::Array(items));
    }
    proof {
        assert(members_view(ms@) =~= members_view(old(ms)@) + terms_aggregation_list_member(name@, v@.map_values(|x: TermsAggregation| x@)));
    }
}

fn read_terms_aggregation_req(b: &Vec<(String, Json)>, name: &str, field: &str) -> (r: Result<TermsAggregation, DecodeError>)
    ensures
        result_view(r) == terms_aggregation_req(members_view(b@), name@, field@),
{
    match get_member(b, name) {
        Some(x) => TermsAggregation::from_json(x),
        None => Err(malformed_leaf(field, name)),
    }
}

fn read_terms_aggregation_opt(b: &Vec<(String, Json)>, name: &str) -> (r: Result<Option<TermsAggregation>, DecodeError>)
    ensures
        match r {
            Ok(v) => terms_aggregation_opt(members_view(b@), name@) == Ok::<Option<TermsAggregationView>, DecodeErrorView>(match v { Some(x) => Some(x@), None => None }),
            Err(e) => terms_aggregation_opt(members_view(b@), name@) == Err::<Option<TermsAggregationView>, DecodeErrorView>(e@),
        },
{
    match get_member(b, name) {
        None => Ok(None),
        Some(Json::Null) => Ok(None),
        Some(x) => match TermsAggregation::from_json(x) {
            Ok(v) => Ok(Some(v)),
            Err(e) => Err(e),
        },
    }
}

fn read_terms_aggregation_list(b: &Vec<(String, Json)>, name: &str, field: &str) -> (r: Result<Vec<TermsAggregation>, DecodeError>)
    ensures
        match r {
            Ok(v) => terms_aggregation_list(members_view(b@), name@, field@) == Ok::<Seq<TermsAggregationView>, DecodeErrorView>(v@.map_values(|x: TermsAggregation| x@)),
            Err(e) => terms_aggregation_list(members_view(b@), name@, field@) == Err::<Seq<TermsAggregationView>, DecodeErrorView>(e@),
        },
{
    match get_member(b, name) {
        None => {
            let v: Vec<TermsAggregation> = Vec::new();
            proof {
                assert(v@.map_values(|x: TermsAggregation| x@) =~= seq![]);
            }
            Ok(v)
        },
        Some(Json::Null) => {
            let v: Vec<TermsAggregation> = Vec::new();
            proof {
                assert(v@.map_values(|x: TermsAggregation| x@) =~= seq![]);
            }
            Ok(v)
        },
        Some(Json::Array(items)) => {
            proof {
                lemma_items_index(items@);
            }
            let ghost iv = items_view(items@);
            let mut out: Vec<TermsAggregation> = Vec::new();
            let mut i: usize = 0;
            while i < items.len()
                invariant
                    0 <= i <= items.len(),
                    iv == items_view(items@),
                    iv.len() == items@.len(),
                    lookup(members_view(b@), name@) == Some(JsonValue::Array(iv)),
                    forall|j: int| 0 <= j < items@.len() ==> #[trigger] iv[j] == json_view(items@[j]),
                    out@.len() == i,
                    forall|j: int| 0 <= j < i ==> #[trigger] terms_aggregation_of(iv[j]) == Ok::<TermsAggregationView, DecodeErrorView>(out@[j]@),
                decreases items.len() - i,
            {
                match TermsAggregation::from_json(&items[i]) {
                    Ok(d) => out.push(d),
                    Err(_) => {
                        assert(!(terms_aggregation_of(iv[i as int]) is Ok));
                        return Err(malformed_leaf(field, name));
                    },
                }
                i = i + 1;
            }
            proof {
                assert(out@.map_values(|x: TermsAggregation| x@) =~= iv.map_values(|x: JsonValue| terms_aggregation_of(x)->Ok_0));
            }
            Ok(out)
        },
        _ => Err(malformed_leaf(field, name)),
    }
}

pub proof fn lemma_terms_aggregation_opt_member(name: Seq<char>, v: Option<TermsAggregationView>, key: Seq<char>)
    ensures
        lookup(terms_aggregation_opt_member(name, v), key) == if name == key && v is Some {
            Some(terms_aggregation_json(v->0))
        } else {
            None::<JsonValue>
        },
{
    if v is Some {
        lemma_lookup_one(name, terms_aggregation_json(v->0), key);
    }
}

pub proof fn lemma_terms_aggregation_list_member(name: Seq<char>, v: Seq<TermsAggregationView>, key: Seq<char>)
    ensures
        lookup(terms_aggregation_list_member(name, v), key) == if name == key && v.len() > 0 {
            Some(JsonValue::Array(v.map_values(|x: TermsAggregationView| terms_aggregation_json(x))))
        } else {
            None::<JsonValue>
        },
{
    if v.len() > 0 {
        lemma_lookup_one(name, JsonValue::Array(v.map_values(|x: TermsAggregationView| terms_aggregation_json(x))), key);
    }
}

pub proof fn lemma_terms_aggregation_list_slot(b: Seq<(Seq<char>, JsonValue)>, name: Seq<char>, field: Seq<char>, v: Seq<TermsAggregationView>)
    requires
        forall|i: int| 0 <= i < v.len() ==> #[trigger] terms_aggregation_wf(v[i]),
        lookup(b, name) == if v.len() > 0 {
            Some(JsonValue::Array(v.map_values(|x: TermsAggregationView| terms_aggregation_json(x))))
        } else {
            None::<JsonValue>
        },
    ensures
        terms_aggregation_list(b, name, field) == Ok::<Seq<TermsAggregationView>, DecodeErrorView>(v),
{
    if v.len() > 0 {
        let items = v.map_values(|x: TermsAggregationView| terms_aggregation_json(x));
        assert forall|i: int| 0 <= i < items.len() implies #[trigger] terms_aggregation_of(items[i]) == Ok::<TermsAggregationView, DecodeErrorView>(v[i]) by {
            lemma_terms_aggregation_round_trip(v[i]);
        }
        assert(items.map_values(|x: JsonValue| terms_aggregation_of(x)->Ok_0) =~= v);
    } else {
        assert(v =~= seq![]);
    }
}

/// Decoding an encoded `terms` body gives it back.
pub proof fn lemma_terms_aggregation_round_trip(v: TermsAggregationView)
    requires
        terms_aggregation_wf(v),
    ensures
        terms_aggregation_from(terms_aggregation_members(v)) == Ok::<TermsAggregationView, DecodeErrorView>(v),
{
    lemma_agg_keys();
    let m0 = opt_str_member("field"@, v.field);
    let m1 = script_member("script"@, v.script);
    let m2 = opt_num_member("size"@, v.size);
    let m3 = opt_num_member("missing"@, v.missing);
    lemma_opt_str_member("field"@, v.field, "field"@);
    lemma_script_member("script"@, v.script, "field"@);
    lemma_opt_num_member("size"@, v.size, "field"@);
    lemma_opt_num_member("missing"@, v.missing, "field"@);
    lemma_lookup_concat(m0, m1, "field"@);
    lemma_lookup_concat(m0 + m1, m2, "field"@);
    lemma_lookup_concat(m0 + m1 + m2, m3, "field"@);
    lemma_opt_str_member("field"@, v.field, "script"@);
    lemma_script_member("script"@, v.script, "script"@);
    lemma_opt_num_member("size"@, v.size, "script"@);
    lemma_opt_num_member("missing"@, v.missing, "script"@);
    lemma_lookup_concat(m0, m1, "script"@);
    lemma_lookup_concat(m0 + m1, m2, "script"@);
    lemma_lookup_concat(m0 + m1 + m2, m3, "script"@);
    if v.script is Some { lemma_script_round_trip(v.script->0); }
    lemma_opt_str_member("field"@, v.field, "size"@);
    lemma_script_member("script"@, v.script, "size"@);
    lemma_opt_num_member("size"@, v.size, "size"@);
    lemma_opt_num_member("missing"@, v.missing, "size"@);
    lemma_lookup_concat(m0, m1, "size"@);
    lemma_lookup_concat(m0 + m1, m2, "size"@);
    lemma_lookup_concat(m0 + m1 + m2, m3, "size"@);
    lemma_opt_str_member("field"@, v.field, "missing"@);
    lemma_script_member("script"@, v.script, "missing"@);
    lemma_opt_num_member("size"@, v.size, "missing"@);
    lemma_opt_num_member("missing"@, v.missing, "missing"@);
    lemma_lookup_concat(m0, m1, "missing"@);
    lemma_lookup_concat(m0 + m1, m2, "missing"@);
    lemma_lookup_concat(m0 + m1 + m2, m3, "missing"@);
    assert(terms_aggregation_members(v) =~= m0 + m1 + m2 + m3);
}

/// One range of a `range` aggregation; either end may be open. The ends are decimal text.
#[derive(Debug)]
pub struct Range {
    pub from: Option<String>,
    pub to: Option<String>,
}

pub struct RangeView {
    pub from: Option<Seq<char>>,
    pub to: Option<Seq<char>>,
}

impl View for Range {
    type V = RangeView;

    open spec fn view(&self) -> RangeView {
        RangeView {
            from: opt_view(self.from),
            to: opt_view(self.to),
        }
    }
}

pub open spec fn range_members(v: RangeView) -> Seq<(Seq<char>, JsonValue)> {
    opt_num_member("from"@, v.from) + opt_num_member("to"@, v.to)
}

pub open spec fn range_from(b: Seq<(Seq<char>, JsonValue)>) -> Result<RangeView, DecodeErrorView> {
    match opt_num(b, "from"@) {
        Err(e) => Err(e),
        Ok(from) => match opt_num(b, "to"@) {
        Err(e) => Err(e),
        Ok(to) => Ok(RangeView { from, to }),
    },
    }
}

pub open spec fn range_wf(v: RangeView) -> bool {
    true
}

impl Range {
    /// The members of this body.
    pub fn to_members(&self) -> (r: Vec<(String, Json)>)
        ensures
            members_view(r@) == range_members(self@),
    {
        let mut ms = empty_members();
        push_opt_num(&mut ms, "from", &self.from);
        push_opt_num(&mut ms, "to", &self.to);
        proof {
            assert(members_view(ms@) =~= range_members(self@));
        }
        ms
    }

    /// Decodes a body from its members.
    pub fn from_members(b: &Vec<(String, Json)>) -> (r: Result<Range, DecodeError>)
        ensures
            result_view(r) == range_from(members_view(b@)),
    {
        let key = "ranges";
        let from = match read_opt_num(b, "from") {
            Ok(v) => v,
            Err(e) => return Err(e),
        };
        let to = match read_opt_num(b, "to") {
            Ok(v) => v,
            Err(e) => return Err(e),
        };
        Ok(Range { from, to })
    }
}

pub open spec fn range_json(v: RangeView) -> JsonValue {
    JsonValue::Object(range_members(v))
}

pub open spec fn range_of(v: JsonValue) -> Result<RangeView, DecodeErrorView> {
    match v {
        JsonValue::Object(b) => range_from(b),
        _ => Err(DecodeErrorView::MalformedLeaf { field: "ranges"@, missing: "body"@ }),
    }
}

pub open spec fn range_req(b: Seq<(Seq<char>, JsonValue)>, name: Seq<char>, field: Seq<char>) -> Result<RangeView, DecodeErrorView> {
    match lookup(b, name) {
        Some(x) => range_of(x),
        None => Err(DecodeErrorView::MalformedLeaf { field, missing: name }),
    }
}

pub open spec fn range_opt(b: Seq<(Seq<char>, JsonValue)>, name: Seq<char>) -> Result<Option<RangeView>, DecodeErrorView> {
    match lookup(b, name) {
        None => Ok(None),
        Some(JsonValue::Null) => Ok(None),
        Some(x) => match range_of(x) {
            Ok(v) => Ok(Some(v)),
            Err(e) => Err(e),
        },
    }
}

/// A list of bodies; absent or `null` is empty, and any item that is not a
/// body makes the member malformed.
pub open spec fn range_list(b: Seq<(Seq<char>, JsonValue)>, name: Seq<char>, field: Seq<char>) -> Result<Seq<RangeView>, DecodeErrorView> {
    match lookup(b, name) {
        None => Ok(seq![]),
        Some(JsonValue::Null) => Ok(seq![]),
        Some(JsonValue::Array(items)) => if forall|i: int| 0 <= i < items.len() ==> #[trigger] range_of(items[i]) is Ok {
            Ok(items.map_values(|x: JsonValue| range_of(x)->Ok_0))
        } else {
            Err(DecodeErrorView::MalformedLeaf { field, missing: name })
        },
        _ => Err(DecodeErrorView::MalformedLeaf { field, missing: name }),
    }
}

pub open spec fn range_opt_member(name: Seq<char>, v: Option<RangeView>) -> Seq<(Seq<char>, JsonValue)> {
    match v {
        Some(x) => seq![(name, range_json(x))],
        None => seq![],
    }
}

pub open spec fn range_list_member(name: Seq<char>, v: Seq<RangeView>) -> Seq<(Seq<char>, JsonValue)> {
    if v.len() == 0 {
        seq![]
    } else {
        seq![(name, JsonValue::Array(v.map_values(|x: RangeView| range_json(x))))]
    }
}

impl Range {
    pub fn to_json(&self) -> (r: Json)
        ensures
            r@ == range_json(self@),
    {
        Json::Object(self.to_members())
    }

    pub fn from_json(j: &Json) -> (r: Result<Range, DecodeError>)
        ensures
            result_view(r) == range_of(j@),
    {
        match j {
            Json::Object(b) => Range::from_members(b),
            _ => Err(malformed_leaf("ranges", "body")),
        }
    }
}

fn push_range_req(ms: &mut Vec<(String, Json)>, name: &str, v: &Range)
    ensures
        members_view(final(ms)@) == members_view(old(ms)@) + seq![(name@, range_json(v@))],
{
    push_member(ms, name, v.to_json());
    proof {
        assert(members_view(ms@) =~= members_view(old(ms)@) + seq![(name@, range_json(v@))]);
    }
}

fn push_range_opt(ms: &mut Vec<(String, Json)>, name: &str, v: &Option<Range>)
    ensures
        members_view(final(ms)@) == members_view(old(ms)@) + range_opt_member(name@, match *v { Some(x) => Some(x@), None => None }),
{
    match v {
        Some(x) => push_member(ms, name, x.to_json()),
        None => {},
    }
    proof {
        assert(members_view(ms@) =~= members_view(old(ms)@) + range_opt_member(name@, match *v { Some(x) => Some(x@), None => None }));
    }
}

fn push_range_list(ms: &mut Vec<(String, Json)>, name: &str, v: &Vec<Range>)
    ensures
        members_view(final(ms)@) == members_view(old(ms)@) + range_list_member(name@, v@.map_values(|x: Range| x@)),
{
    if v.len() > 0 {
        let mut items = empty_items();
        let mut i: usize = 0;
        while i < v.len()
            invariant
                0 <= i <= v.len(),
                items_view(items@).len() == i,
                forall|j: int| 0 <= j < i ==> #[trigger] items_view(items@)[j] == range_json(v@[j]@),
            decreases v.len() - i,
        {
            push_item(&mut items, v[i].to_json());
            i = i + 1;
        }
        proof {
            assert(items_view(items@) =~= v@.map_values(|x: Range| x@).map_values(|x: RangeView| range_json(x)));
        }
        push_member(ms, name, Json::Array(items));
    }
    proof {
        assert(members_view(ms@) =~= members_view(old(ms)@) + range_list_member(name@, v@.map_values(|x: Range| x@)));
    }
}

fn read_range_req(b: &Vec<(String, Json)>, name: &str, field: &str) -> (r: Result<Range, DecodeError>)
    ensures
        result_view(r) == range_req(members_view(b@), name@, field@),
{
    match get_member(b, name) {
        Some(x) => Range::from_json(x),
        None => Err(malformed_leaf(field, name)),
    }
}

fn read_range_opt(b: &Vec<(String, Json)>, name: &str) -> (r: Result<Option<Range>, DecodeError>)
    ensures
        match r {
            Ok(v) => range_opt(members_view(b@), name@) == Ok::<Option<RangeView>, DecodeErrorView>(match v { Some(x) => Some(x@), None => None }),
            Err(e) => range_opt(members_view(b@), name@) == Err::<Option<RangeView>, DecodeErrorView>(e@),
        },
{
    match get_member(b, name) {
        None => Ok(None),
        Some(Json::Null) => Ok(None),
        Some(x) => match Range::from_json(x) {
            Ok(v) => Ok(Some(v)),
            Err(e) => Err(e),
        },
    }
}

fn read_range_list(b: &Vec<(String, Json)>, name: &str, field: &str) -> (r: Result<Vec<Range>, DecodeError>)
    ensures
        match r {
            Ok(v) => range_list(members_view(b@), name@, field@) == Ok::<Seq<RangeView>, DecodeErrorView>(v@.map_values(|x: Range| x@)),
            Err(e) => range_list(members_view(b@), name@, field@) == Err::<Seq<RangeView>, DecodeErrorView>(e@),
        },
{
    match get_member(b, name) {
        None => {
            let v: Vec<Range> = Vec::new();
            proof {
                assert(v@.map_values(|x: Range| x@) =~= seq![]);
            }
            Ok(v)
        },
        Some(Json::Null) => {
            let v: Vec<Range> = Vec::new();
            proof {
                assert(v@.map_values(|x: Range| x@) =~= seq![]);
            }
            Ok(v)
        },
        Some(Json::Array(items)) => {
            proof {
                lemma_items_index(items@);
            }
            let ghost iv = items_view(items@);
            let mut out: Vec<Range> = Vec::new();
            let mut i: usize = 0;
            while i < items.len()
                invariant
                    0 <= i <= items.len(),
                    iv == items_view(items@),
                    iv.len() == items@.len(),
                    lookup(members_view(b@), name@) == Some(JsonValue::Array(iv)),
                    forall|j: int| 0 <= j < items@.len() ==> #[trigger] iv[j] == json_view(items@[j]),
                    out@.len() == i,
                    forall|j: int| 0 <= j < i ==> #[trigger] range_of(iv[j]) == Ok::<RangeView, DecodeErrorView>(out@[j]@),
                decreases items.len() - i,
            {
                match Range::from_json(&items[i]) {
                    Ok(d) => out.push(d),
                    Err(_) => {
                        assert(!(range_of(iv[i as int]) is Ok));
                        return Err(malformed_leaf(field, name));
                    },
                }
                i = i + 1;
            }
            proof {
                assert(out@.map_values(|x: Range| x@) =~= iv.map_values(|x: JsonValue| range_of(x)->Ok_0));
            }
            Ok(out)
        },
        _ => Err(malformed_leaf(field, name)),
    }
}

pub proof fn lemma_range_opt_member(name: Seq<char>, v: Option<RangeView>, key: Seq<char>)
    ensures
        lookup(range_opt_member(name, v), key) == if name == key && v is Some {
            Some(range_json(v->0))
        } else {
            None::<JsonValue>
        },
{
    if v is Some {
        lemma_lookup_one(name, range_json(v->0), key);
    }
}

pub proof fn lemma_range_list_member(name: Seq<char>, v: Seq<RangeView>, key: Seq<char>)
    ensures
        lookup(range_list_member(name, v), key) == if name == key && v.len() > 0 {
            Some(JsonValue::Array(v.map_values(|x: RangeView| range_json(x))))
        } else {
            None::<JsonValue>
        },
{
    if v.len() > 0 {
        lemma_lookup_one(name, JsonValue::Array(v.map_values(|x: RangeView| range_json(x))), key);
    }
}

pub proof fn lemma_range_list_slot(b: Seq<(Seq<char>, JsonValue)>, name: Seq<char>, field: Seq<char>, v: Seq<RangeView>)
    requires
        forall|i: int| 0 <= i < v.len() ==> #[trigger] range_wf(v[i]),
        lookup(b, name) == if v.len() > 0 {
            Some(JsonValue::Array(v.map_values(|x: RangeView| range_json(x))))
        } else {
            None::<JsonValue>
        },
    ensures
        range_list(b, name, field) == Ok::<Seq<RangeView>, DecodeErrorView>(v),
{
    if v.len() > 0 {
        let items = v.map_values(|x: RangeView| range_json(x));
        assert forall|i: int| 0 <= i < items.len() implies #[trigger] range_of(items[i]) == Ok::<RangeView, DecodeErrorView>(v[i]) by {
            lemma_range_round_trip(v[i]);
        }
        assert(items.map_values(|x: JsonValue| range_of(x)->Ok_0) =~= v);
    } else {
        assert(v =~= seq![]);
    }
}

/// Decoding an encoded `ranges` body gives it back.
pub proof fn lemma_range_round_trip(v: RangeView)
    requires
        range_wf(v),
    ensures
        range_from(range_members(v)) == Ok::<RangeView, DecodeErrorView>(v),
{
    lemma_agg_keys();
    let m0 = opt_num_member("from"@, v.from);
    let m1 = opt_num_member("to"@, v.to);
    lemma_opt_num_member("from"@, v.from, "from"@);
    lemma_opt_num_member("to"@, v.to, "from"@);
    lemma_lookup_concat(m0, m1, "from"@);
    lemma_opt_num_member("from"@, v.from, "to"@);
    lemma_opt_num_member("to"@, v.to, "to"@);
    lemma_lookup_concat(m0, m1, "to"@);
    assert(range_members(v) =~= m0 + m1);
}

/// Bounds of a histogram, as decimal text.
#[derive(Debug)]
pub struct HistogramBounds {
    pub min: String,
    pub max: String,
}

pub struct HistogramBoundsView {
    pub min: Seq<char>,
    pub max: Seq<char>,
}

impl View for HistogramBounds {
    type V = HistogramBoundsView;

    open spec fn view(&self) -> HistogramBoundsView {
        HistogramBoundsView {
            min: self.min@,
            max: self.max@,
        }
    }
}

pub open spec fn histogram_bounds_members(v: HistogramBoundsView) -> Seq<(Seq<char>, JsonValue)> {
    seq![("min"@, JsonValue::Number(v.min))] + seq![("max"@, JsonValue::Number(v.max))]
}

pub open spec fn histogram_bounds_from(b: Seq<(Seq<char>, JsonValue)>) -> Result<HistogramBoundsView, DecodeErrorView> {
    match req_num(b, "min"@, "bounds"@) {
        Err(e) => Err(e),
        Ok(min) => match req_num(b, "max"@, "bounds"@) {
        Err(e) => Err(e),
        Ok(max) => Ok(HistogramBoundsView { min, max }),
    },
    }
}

pub open spec fn histogram_bounds_wf(v: HistogramBoundsView) -> bool {
    true
}

impl HistogramBounds {
    /// The members of this body.
    pub fn to_members(&self) -> (r: Vec<(String, Json)>)
        ensures
            members_view(r@) == histogram_bounds_members(self@),
    {
        let mut ms = empty_members();
        push_req_num(&mut ms, "min", &self.min);
        push_req_num(&mut ms, "max", &self.max);
        proof {
            assert(members_view(ms@) =~= histogram_bounds_members(self@));
        }
        ms
    }

    /// Decodes a body from its members.
    pub fn from_members(b: &Vec<(String, Json)>) -> (r: Result<HistogramBounds, DecodeError>)
        ensures
            result_view(r) == histogram_bounds_from(members_view(b@)),
    {
        let key = "bounds";
        let min = match read_req_num(b, "min", key) {
            Ok(v) => v,
            Err(e) => return Err(e),
        };
        let max = match read_req_num(b, "max", key) {
            Ok(v) => v,
            Err(e) => return Err(e),
        };
        Ok(HistogramBounds { min, max })
    }
}

pub open spec fn histogram_bounds_json(v: HistogramBoundsView) -> JsonValue {
    JsonValue::Object(histogram_bounds_members(v))
}

pub open spec fn histogram_bounds_of(v: JsonValue) -> Result<HistogramBoundsView, DecodeErrorView> {
    match v {
        JsonValue::Object(b) => histogram_bounds_from(b),
        _ => Err(DecodeErrorView::MalformedLeaf { field: "bounds"@, missing: "body"@ }),
    }
}

pub open spec fn histogram_bounds_req(b: Seq<(Seq<char>, JsonValue)>, name: Seq<char>, field: Seq<char>) -> Result<HistogramBoundsView, DecodeErrorView> {
    match lookup(b, name) {
        Some(x) => histogram_bounds_of(x),
        None => Err(DecodeErrorView::MalformedLeaf { field, missing: name }),
    }
}

pub open spec fn histogram_bounds_opt(b: Seq<(Seq<char>, JsonValue)>, name: Seq<char>) -> Result<Option<HistogramBoundsView>, DecodeErrorView> {
    match lookup(b, name) {
        None => Ok(None),
        Some(JsonValue::Null) => Ok(None),
        Some(x) => match histogram_bounds_of(x) {
            Ok(v) => Ok(Some(v)),
            Err(e) => Err(e),
        },
    }
}

/// A list of bodies; absent or `null` is empty, and any item that is not a
/// body makes the member malformed.
pub open spec fn histogram_bounds_list(b: Seq<(Seq<char>, JsonValue)>, name: Seq<char>, field: Seq<char>) -> Result<Seq<HistogramBoundsView>, DecodeErrorView> {
    match lookup(b, name) {
        None => Ok(seq![]),
        Some(JsonValue::Null) => Ok(seq![]),
        Some(JsonValue::Array(items)) => if forall|i: int| 0 <= i < items.len() ==> #[trigger] histogram_bounds_of(items[i]) is Ok {
            Ok(items.map_values(|x: JsonValue| histogram_bounds_of(x)->Ok_0))
        } else {
            Err(DecodeErrorView::MalformedLeaf { field, missing: name })
        },
        _ => Err(DecodeErrorView::MalformedLeaf { field, missing: name }),
    }
}

pub open spec fn histogram_bounds_opt_member(name: Seq<char>, v: Option<HistogramBoundsView>) -> Seq<(Seq<char>, JsonValue)> {
    match v {
        Some(x) => seq![(name, histogram_bounds_json(x))],
        None => seq![],
    }
}

pub open spec fn histogram_bounds_list_member(name: Seq<char>, v: Seq<HistogramBoundsView>) -> Seq<(Seq<char>, JsonValue)> {
    if v.len() == 0 {
        seq![]
    } else {
        seq![(name, JsonValue::Array(v.map_values(|x: HistogramBoundsView| histogram_bounds_json(x))))]
    }
}

impl HistogramBounds {
    pub fn to_json(&self) -> (r: Json)
        ensures
            r@ == histogram_bounds_json(self@),
    {
        Json::Object(self.to_members())
    }

    pub fn from_json(j: &Json) -> (r: Result<HistogramBounds, DecodeError>)
        ensures
            result_view(r) == histogram_bounds_of(j@),
    {
        match j {
            Json::Object(b) => HistogramBounds::from_members(b),
            _ => Err(malformed_leaf("bounds", "body")),
        }
    }
}

fn push_histogram_bounds_req(ms: &mut Vec<(String, Json)>, name: &str, v: &HistogramBounds)
    ensures
        members_view(final(ms)@) == members_view(old(ms)@) + seq![(name@, histogram_bounds_json(v@))],
{
    push_member(ms, name, v.to_json());
    proof {
        assert(members_view(ms@) =~= members_view(old(ms)@) + seq![(name@, histogram_bounds_json(v@))]);
    }
}

fn push_histogram_bounds_opt(ms: &mut Vec<(String, Json)>, name: &str, v: &Option<HistogramBounds>)
    ensures
        members_view(final(ms)@) == members_view(old(ms)@) + histogram_bounds_opt_member(name@, match *v { Some(x) => Some(x@), None => None }),
{
    match v {
        Some(x) => push_member(ms, name, x.to_json()),
        None => {},
    }
    proof {
        assert(members_view(ms@) =~= members_view(old(ms)@) + histogram_bounds_opt_member(name@, match *v { Some(x) => Some(x@), None => None }));
    }
}

fn push_histogram_bounds_list(ms: &mut Vec<(String, Json)>, name: &str, v: &Vec<HistogramBounds>)
    ensures
        members_view(final(ms)@) == members_view(old(ms)@) + histogram_bounds_list_member(name@, v@.map_values(|x: HistogramBounds| x@)),
{
    if v.len() > 0 {
        let mut items = empty_items();
        let mut i: usize = 0;
        while i < v.len()
            invariant
                0 <= i <= v.len(),
                items_view(items@).len() == i,
                forall|j: int| 0 <= j < i ==> #[trigger] items_view(items@)[j] == histogram_bounds_json(v@[j]@),
            decreases v.len() - i,
        {
            push_item(&mut items, v[i].to_json());
            i = i + 1;
        }
        proof {
            assert(items_view(items@) =~= v@.map_values(|x: HistogramBounds| x@).map_values(|x: HistogramBoundsView| histogram_bounds_json(x)));
        }
        push_member(ms, name, Json::Array(items));
    }
    proof {
        assert(members_view(ms@) =~= members_view(old(ms)@) + histogram_bounds_list_member(name@, v@.map_values(|x: HistogramBounds| x@)));
    }
}

fn read_histogram_bounds_req(b: &Vec<(String, Json)>, name: &str, field: &str) -> (r: Result<HistogramBounds, DecodeError>)
    ensures
        result_view(r) == histogram_bounds_req(members_view(b@), name@, field@),
{
    match get_member(b, name) {
        Some(x) => HistogramBounds::from_json(x),
        None => Err(malformed_leaf(field, name)),
    }
}

fn read_histogram_bounds_opt(b: &Vec<(String, Json)>, name: &str) -> (r: Result<Option<HistogramBounds>, DecodeError>)
    ensures
        match r {
            Ok(v) => histogram_bounds_opt(members_view(b@), name@) == Ok::<Option<HistogramBoundsView>, DecodeErrorView>(match v { Some(x) => Some(x@), None => None }),
            Err(e) => histogram_bounds_opt(members_view(b@), name@) == Err::<Option<HistogramBoundsView>, DecodeErrorView>(e@),
        },
{
    match get_member(b, name) {
        None => Ok(None),
        Some(Json::Null) => Ok(None),
        Some(x) => match HistogramBounds::from_json(x) {
            Ok(v) => Ok(Some(v)),
            Err(e) => Err(e),
        },
    }
}

fn read_histogram_bounds_list(b: &Vec<(String, Json)>, name: &str, field: &str) -> (r: Result<Vec<HistogramBounds>, DecodeError>)
    ensures
        match r {
            Ok(v) => histogram_bounds_list(members_view(b@), name@, field@) == Ok::<Seq<HistogramBoundsView>, DecodeErrorView>(v@.map_values(|x: HistogramBounds| x@)),
            Err(e) => histogram_bounds_list(members_view(b@), name@, field@) == Err::<Seq<HistogramBoundsView>, DecodeErrorView>(e@),
        },
{
    match get_member(b, name) {
        None => {
            let v: Vec<HistogramBounds> = Vec::new();
            proof {
                assert(v@.map_values(|x: HistogramBounds| x@) =~= seq![]);
            }
            Ok(v)
        },
        Some(Json::Null) => {
            let v: Vec<HistogramBounds> = Vec::new();
            proof {
                assert(v@.map_values(|x: HistogramBounds| x@) =~= seq![]);
            }
            Ok(v)
        },
        Some(Json::Array(items)) => {
            proof {
                lemma_items_index(items@);
            }
            let ghost iv = items_view(items@);
            let mut out: Vec<HistogramBounds> = Vec::new();
            let mut i: usize = 0;
            while i < items.len()
                invariant
                    0 <= i <= items.len(),
                    iv == items_view(items@),
                    iv.len() == items@.len(),
                    lookup(members_view(b@), name@) == Some(JsonValue::Array(iv)),
                    forall|j: int| 0 <= j < items@.len() ==> #[trigger] iv[j] == json_view(items@[j]),
                    out@.len() == i,
                    forall|j: int| 0 <= j < i ==> #[trigger] histogram_bounds_of(iv[j]) == Ok::<HistogramBoundsView, DecodeErrorView>(out@[j]@),
                decreases items.len() - i,
            {
                match HistogramBounds::from_json(&items[i]) {
                    Ok(d) => out.push(d),
                    Err(_) => {
                        assert(!(histogram_bounds_of(iv[i as int]) is Ok));
                        return Err(malformed_leaf(field, name));
                    },
                }
                i = i + 1;
            }
            proof {
                assert(out@.map_values(|x: HistogramBounds| x@) =~= iv.map_values(|x: JsonValue| histogram_bounds_of(x)->Ok_0));
            }
            Ok(out)
        },
        _ => Err(malformed_leaf(field, name)),
    }
}

pub proof fn lemma_histogram_bounds_opt_member(name: Seq<char>, v: Option<HistogramBoundsView>, key: Seq<char>)
    ensures
        lookup(histogram_bounds_opt_member(name, v), key) == if name == key && v is Some {
            Some(histogram_bounds_json(v->0))
        } else {
            None::<JsonValue>
        },
{
    if v is Some {
        lemma_lookup_one(name, histogram_bounds_json(v->0), key);
    }
}

pub proof fn lemma_histogram_bounds_list_member(name: Seq<char>, v: Seq<HistogramBoundsView>, key: Seq<char>)
    ensures
        lookup(histogram_bounds_list_member(name, v), key) == if name == key && v.len() > 0 {
            Some(JsonValue::Array(v.map_values(|x: HistogramBoundsView| histogram_bounds_json(x))))
        } else {
            None::<JsonValue>
        },
{
    if v.len() > 0 {
        lemma_lookup_one(name, JsonValue::Array(v.map_values(|x: HistogramBoundsView| histogram_bounds_json(x))), key);
    }
}

pub proof fn lemma_histogram_bounds_list_slot(b: Seq<(Seq<char>, JsonValue)>, name: Seq<char>, field: Seq<char>, v: Seq<HistogramBoundsView>)
    requires
        forall|i: int| 0 <= i < v.len() ==> #[trigger] histogram_bounds_wf(v[i]),
        lookup(b, name) == if v.len() > 0 {
            Some(JsonValue::Array(v.map_values(|x: HistogramBoundsView| histogram_bounds_json(x))))
        } else {
            None::<JsonValue>
        },
    ensures
        histogram_bounds_list(b, name, field) == Ok::<Seq<HistogramBoundsView>, DecodeErrorView>(v),
{
    if v.len() > 0 {
        let items = v.map_values(|x: HistogramBoundsView| histogram_bounds_json(x));
        assert forall|i: int| 0 <= i < items.len() implies #[trigger] histogram_bounds_of(items[i]) == Ok::<HistogramBoundsView, DecodeErrorView>(v[i]) by {
            lemma_histogram_bounds_round_trip(v[i]);
        }
        assert(items.map_values(|x: JsonValue| histogram_bounds_of(x)->Ok_0) =~= v);
    } else {
        assert(v =~= seq![]);
    }
}

/// Decoding an encoded `bounds` body gives it back.
pub proof fn lemma_histogram_bounds_round_trip(v: HistogramBoundsView)
    requires
        histogram_bounds_wf(v),
    ensures
        histogram_bounds_from(histogram_bounds_members(v)) == Ok::<HistogramBoundsView, DecodeErrorView>(v),
{
    lemma_agg_keys();
    let m0 = seq![("min"@, JsonValue::Number(v.min))];
    let m1 = seq![("max"@, JsonValue::Number(v.max))];
    lemma_lookup_one("min"@, JsonValue::Number(v.min), "min"@);
    lemma_lookup_one("max"@, JsonValue::Number(v.max), "min"@);
    lemma_lookup_concat(m0, m1, "min"@);
    lemma_lookup_one("min"@, JsonValue::Number(v.min), "max"@);
    lemma_lookup_one("max"@, JsonValue::Number(v.max), "max"@);
    lemma_lookup_concat(m0, m1, "max"@);
    assert(histogram_bounds_members(v) =~= m0 + m1);
}

/// An average of `value` weighted by `weight`.
#[derive(Debug)]
pub struct WeightedAverageAggregation {
    pub value: InnerAggregation,
    pub weight: InnerAggregation,
    pub format: Option<String>,
    pub value_type: Option<String>,
}

pub struct WeightedAverageAggregationView {
    pub value: InnerAggregationView,
    pub weight: InnerAggregationView,
    pub format: Option<Seq<char>>,
    pub value_type: Option<Seq<char>>,
}

impl View for WeightedAverageAggregation {
    type V = WeightedAverageAggregationView;

    open spec fn view(&self) -> WeightedAverageAggregationView {
        WeightedAverageAggregationView {
            value: self.value@,
            weight: self.weight@,
            format: opt_view(self.format),
            value_type: opt_view(self.value_type),
        }
    }
}

pub open spec fn weighted_average_aggregation_members(v: WeightedAverageAggregationView) -> Seq<(Seq<char>, JsonValue)> {
    seq![("value"@, inner_aggregation_json(v.value))] + seq![("weight"@, inner_aggregation_json(v.weight))] + opt_str_member("format"@, v.format) + opt_str_member("value_type"@, v.value_type)
}

pub open spec fn weighted_average_aggregation_from(b: Seq<(Seq<char>, JsonValue)>) -> Result<WeightedAverageAggregationView, DecodeErrorView> {
    match inner_aggregation_req(b, "value"@, "weighted_avg"@) {
        Err(e) => Err(e),
        Ok(value) => match inner_aggregation_req(b, "weight"@, "weighted_avg"@) {
        Err(e) => Err(e),
        Ok(weight) => match opt_str(b, "format"@, "weighted_avg"@) {
        Err(e) => Err(e),
        Ok(format) => match opt_str(b, "value_type"@, "weighted_avg"@) {
        Err(e) => Err(e),
        Ok(value_type) => Ok(WeightedAverageAggregationView { value, weight, format, value_type }),
    },
    },
    },
    }
}

pub open spec fn weighted_average_aggregation_wf(v: WeightedAverageAggregationView) -> bool {
    inner_aggregation_wf(v.value) && inner_aggregation_wf(v.weight)
}

impl WeightedAverageAggregation {
    /// The members of this body.
    pub fn to_members(&self) -> (r: Vec<(String, Json)>)
        ensures
            members_view(r@) == weighted_average_aggregation_members(self@),
    {
        let mut ms = empty_members();
        push_inner_aggregation_req(&mut ms, "value", &self.value);
        push_inner_aggregation_req(&mut ms, "weight", &self.weight);
        push_opt_str(&mut ms, "format", &self.format);
        push_opt_str(&mut ms, "value_type", &self.value_type);
        proof {
            assert(members_view(ms@) =~= weighted_average_aggregation_members(self@));
        }
        ms
    }

    /// Decodes a body from its members.
    pub fn from_members(b: &Vec<(String, Json)>) -> (r: Result<WeightedAverageAggregation, DecodeError>)
        ensures
            result_view(r) == weighted_average_aggregation_from(members_view(b@)),
    {
        let key = "weighted_avg";
        let value = match read_inner_aggregation_req(b, "value", key) {
            Ok(v) => v,
            Err(e) => return Err(e),
        };
        let weight = match read_inner_aggregation_req(b, "weight", key) {
            Ok(v) => v,
            Err(e) => return Err(e),
        };
        let format = match read_opt_str(b, "format", key) {
            Ok(v) => v,
            Err(e) => return Err(e),
        };
        let value_type = match read_opt_str(b, "value_type", key) {
            Ok(v) => v,
            Err(e) => return Err(e),
        };
        Ok(WeightedAverageAggregation { value, weight, format, value_type })
    }
}

/// Decoding an encoded `weighted_avg` body gives it back.
pub proof fn lemma_weighted_average_aggregation_round_trip(v: WeightedAverageAggregationView)
    requires
        weighted_average_aggregation_wf(v),
    ensures
        weighted_average_aggregation_from(weighted_average_aggregation_members(v)) == Ok::<WeightedAverageAggregationView, DecodeErrorView>(v),
{
    lemma_agg_keys();
    let m0 = seq![("value"@, inner_aggregation_json(v.value))];
    let m1 = seq![("weight"@, inner_aggregation_json(v.weight))];
    let m2 = opt_str_member("format"@, v.format);
    let m3 = opt_str_member("value_type"@, v.value_type);
    lemma_lookup_one("value"@, inner_aggregation_json(v.value), "value"@);
    lemma_lookup_one("weight"@, inner_aggregation_json(v.weight), "value"@);
    lemma_opt_str_member("format"@, v.format, "value"@);
    lemma_opt_str_member("value_type"@, v.value_type, "value"@);
    lemma_lookup_concat(m0, m1, "value"@);
    lemma_lookup_concat(m0 + m1, m2, "value"@);
    lemma_lookup_concat(m0 + m1 + m2, m3, "value"@);
    lemma_inner_aggregation_round_trip(v.value);
    lemma_lookup_one("value"@, inner_aggregation_json(v.value), "weight"@);
    lemma_lookup_one("weight"@, inner_aggregation_json(v.weight), "weight"@);
    lemma_opt_str_member("format"@, v.format, "weight"@);
    lemma_opt_str_member("value_type"@, v.value_type, "weight"@);
    lemma_lookup_concat(m0, m1, "weight"@);
    lemma_lookup_concat(m0 + m1, m2, "weight"@);
    lemma_lookup_concat(m0 + m1 + m2, m3, "weight"@);
    lemma_inner_aggregation_round_trip(v.weight);
    lemma_lookup_one("value"@, inner_aggregation_json(v.value), "format"@);
    lemma_lookup_one("weight"@, inner_aggregation_json(v.weight), "format"@);
    lemma_opt_str_member("format"@, v.format, "format"@);
    lemma_opt_str_member("value_type"@, v.value_type, "format"@);
    lemma_lookup_concat(m0, m1, "format"@);
    lemma_lookup_concat(m0 + m1, m2, "format"@);
    lemma_lookup_concat(m0 + m1 + m2, m3, "format"@);
    lemma_lookup_one("value"@, inner_aggregation_json(v.value), "value_type"@);
    lemma_lookup_one("weight"@, inner_aggregation_json(v.weight), "value_type"@);
    lemma_opt_str_member("format"@, v.format, "value_type"@);
    lemma_opt_str_member("value_type"@, v.value_type, "value_type"@);
    lemma_lookup_concat(m0, m1, "value_type"@);
    lemma_lookup_concat(m0 + m1, m2, "value_type"@);
    lemma_lookup_concat(m0 + m1 + m2, m3, "value_type"@);
    assert(weighted_average_aggregation_members(v) =~= m0 + m1 + m2 + m3);
}

/// Buckets by numeric ranges.
#[derive(Debug)]
pub struct RangeAggregation {
    pub field: Option<String>,
    pub script: Option<Script>,
    pub ranges: Vec<Range>,
}

pub struct RangeAggregationView {
    pub field: Option<Seq<char>>,
    pub script: Option<ScriptView>,
    pub ranges: Seq<RangeView>,
}

impl View for RangeAggregation {
    type V = RangeAggregationView;

    open spec fn view(&self) -> RangeAggregationView {
        RangeAggregationView {
            field: opt_view(self.field),
            script: match self.script { Some(s) => Some(s@), None => None },
            ranges: self.ranges@.map_values(|x: Range| x@),
        }
    }
}

pub open spec fn range_aggregation_members(v: RangeAggregationView) -> Seq<(Seq<char>, JsonValue)> {
    opt_str_member("field"@, v.field) + script_member("script"@, v.script) + range_list_member("ranges"@, v.ranges)
}

pub open spec fn range_aggregation_from(b: Seq<(Seq<char>, JsonValue)>) -> Result<RangeAggregationView, DecodeErrorView> {
    match opt_str(b, "field"@, "range"@) {
        Err(e) => Err(e),
        Ok(field) => match script_opt(b, "script"@) {
        Err(e) => Err(e),
        Ok(script) => match range_list(b, "ranges"@, "range"@) {
        Err(e) => Err(e),
        Ok(ranges) => Ok(RangeAggregationView { field, script, ranges }),
    },
    },
    }
}

pub open spec fn range_aggregation_wf(v: RangeAggregationView) -> bool {
    script_wf(v.script) && (forall|i: int| 0 <= i < v.ranges.len() ==> #[trigger] range_wf(v.ranges[i]))
}

impl RangeAggregation {
    /// The members of this body.
    pub fn to_members(&self) -> (r: Vec<(String, Json)>)
        ensures
            members_view(r@) == range_aggregation_members(self@),
    {
        let mut ms = empty_members();
        push_opt_str(&mut ms, "field", &self.field);
        push_script_opt(&mut ms, "script", &self.script);
        push_range_list(&mut ms, "ranges", &self.ranges);
        proof {
            assert(members_view(ms@) =~= range_aggregation_members(self@));
        }
        ms
    }

    /// Decodes a body from its members.
    pub fn from_members(b: &Vec<(String, Json)>) -> (r: Result<RangeAggregation, DecodeError>)
        ensures
            result_view(r) == range_aggregation_from(members_view(b@)),
    {
        let key = "range";
        let field = match read_opt_str(b, "field", key) {
            Ok(v) => v,
            Err(e) => return Err(e),
        };
        let script = match read_script_opt(b, "script") {
            Ok(v) => v,
            Err(e) => return Err(e),
        };
        let ranges = match read_range_list(b, "ranges", key) {
            Ok(v) => v,
            Err(e) => return Err(e),
        };
        Ok(RangeAggregation { field, script, ranges })
    }
}

/// Decoding an encoded `range` body gives it back.
pub proof fn lemma_range_aggregation_round_trip(v: RangeAggregationView)
    requires
        range_aggregation_wf(v),
    ensures
        range_aggregation_from(range_aggregation_members(v)) == Ok::<RangeAggregationView, DecodeErrorView>(v),
{
    lemma_agg_keys();
    let m0 = opt_str_member("field"@, v.field);
    let m1 = script_member("script"@, v.script);
    let m2 = range_list_member("ranges"@, v.ranges);
    lemma_opt_str_member("field"@, v.field, "field"@);
    lemma_script_member("script"@, v.script, "field"@);
    lemma_range_list_member("ranges"@, v.ranges, "field"@);
    lemma_lookup_concat(m0, m1, "field"@);
    lemma_lookup_concat(m0 + m1, m2, "field"@);
    lemma_opt_str_member("field"@, v.field, "script"@);
    lemma_script_member("script"@, v.script, "script"@);
    lemma_range_list_member("ranges"@, v.ranges, "script"@);
    lemma_lookup_concat(m0, m1, "script"@);
    lemma_lookup_concat(m0 + m1, m2, "script"@);
    if v.script is Some { lemma_script_round_trip(v.script->0); }
    lemma_opt_str_member("field"@, v.field, "ranges"@);
    lemma_script_member("script"@, v.script, "ranges"@);
    lemma_range_list_member("ranges"@, v.ranges, "ranges"@);
    lemma_lookup_concat(m0, m1, "ranges"@);
    lemma_lookup_concat(m0 + m1, m2, "ranges"@);
    lemma_range_list_slot(m0 + m1 + m2, "ranges"@, "range"@, v.ranges);
    assert(range_aggregation_members(v) =~= m0 + m1 + m2);
}

/// Buckets of a fixed numeric `interval`; numbers are decimal text.
#[derive(Debug)]
pub struct HistogramAggregation {
    pub field: String,
    pub interval: Option<String>,
    pub offset: Option<String>,
    pub missing: Option<String>,
    pub min_doc_count: Option<String>,
    pub extended_bounds: Option<HistogramBounds>,
    pub hard_bounds: Option<HistogramBounds>,
}

pub struct HistogramAggregationView {
    pub field: Seq<char>,
    pub interval: Option<Seq<char>>,
    pub offset: Option<Seq<char>>,
    pub missing: Option<Seq<char>>,
    pub min_doc_count: Option<Seq<char>>,
    pub extended_bounds: Option<HistogramBoundsView>,
    pub hard_bounds: Option<HistogramBoundsView>,
}

impl View for HistogramAggregation {
    type V = HistogramAggregationView;

    open spec fn view(&self) -> HistogramAggregationView {
        HistogramAggregationView {
            field: self.field@,
            interval: opt_view(self.interval),
            offset: opt_view(self.offset),
            missing: opt_view(self.missing),
            min_doc_count: opt_view(self.min_doc_count),
            extended_bounds: match self.extended_bounds { Some(s) => Some(s@), None => None },
            hard_bounds: match self.hard_bounds { Some(s) => Some(s@), None => None },
        }
    }
}

pub open spec fn histogram_aggregation_members(v: HistogramAggregationView) -> Seq<(Seq<char>, JsonValue)> {
    seq![("field"@, JsonValue::Str(v.field))] + opt_num_member("interval"@, v.interval) + opt_num_member("offset"@, v.offset) + opt_num_member("missing"@, v.missing) + opt_num_member("min_doc_count"@, v.min_doc_count) + histogram_bounds_opt_member("extended_bounds"@, v.extended_bounds) + histogram_bounds_opt_member("hard_bounds"@, v.hard_bounds)
}

pub open spec fn histogram_aggregation_from(b: Seq<(Seq<char>, JsonValue)>) -> Result<HistogramAggregationView, DecodeErrorView> {
    match req_str(b, "field"@, "histogram"@) {
        Err(e) => Err(e),
        Ok(field) => match opt_num(b, "interval"@) {
        Err(e) => Err(e),
        Ok(interval) => match opt_num(b, "offset"@) {
        Err(e) => Err(e),
        Ok(offset) => match opt_num(b, "missing"@) {
        Err(e) => Err(e),
        Ok(missing) => match opt_num(b, "min_doc_count"@) {
        Err(e) => Err(e),
        Ok(min_doc_count) => match histogram_bounds_opt(b, "extended_bounds"@) {
        Err(e) => Err(e),
        Ok(extended_bounds) => match histogram_bounds_opt(b, "hard_bounds"@) {
        Err(e) => Err(e),
        Ok(hard_bounds) => Ok(HistogramAggregationView { field, interval, offset, missing, min_doc_count, extended_bounds, hard_bounds }),
    },
    },
    },
    },
    },
    },
    }
}

pub open spec fn histogram_aggregation_wf(v: HistogramAggregationView) -> bool {
    (match v.extended_bounds { Some(x) => histogram_bounds_wf(x), None => true }) && (match v.hard_bounds { Some(x) => histogram_bounds_wf(x), None => true })
}

impl HistogramAggregation {
    /// The members of this body.
    pub fn to_members(&self) -> (r: Vec<(String, Json)>)
        ensures
            members_view(r@) == histogram_aggregation_members(self@),
    {
        let mut ms = empty_members();
        push_req_str(&mut ms, "field", &self.field);
        push_opt_num(&mut ms, "interval", &self.interval);
        push_opt_num(&mut ms, "offset", &self.offset);
        push_opt_num(&mut ms, "missing", &self.missing);
        push_opt_num(&mut ms, "min_doc_count", &self.min_doc_count);
        push_histogram_bounds_opt(&mut ms, "extended_bounds", &self.extended_bounds);
        push_histogram_bounds_opt(&mut ms, "hard_bounds", &self.hard_bounds);
        proof {
            assert(members_view(ms@) =~= histogram_aggregation_members(self@));
        }
        ms
    }

    /// Decodes a body from its members.
    pub fn from_members(b: &Vec<(String, Json)>) -> (r: Result<HistogramAggregation, DecodeError>)
        ensures
            result_view(r) == histogram_aggregation_from(members_view(b@)),
    {
        let key = "histogram";
        let field = match read_req_str(b, "field", key) {
            Ok(v) => v,
            Err(e) => return Err(e),
        };
        let interval = match read_opt_num(b, "interval") {
            Ok(v) => v,
            Err(e) => return Err(e),
        };
        let offset = match read_opt_num(b, "offset") {
            Ok(v) => v,
            Err(e) => return Err(e),
        };
        let missing = match read_opt_num(b, "missing") {
            Ok(v) => v,
            Err(e) => return Err(e),
        };
        let min_doc_count = match read_opt_num(b, "min_doc_count") {
            Ok(v) => v,
            Err(e) => return Err(e),
        };
        let extended_bounds = match read_histogram_bounds_opt(b, "extended_bounds") {
            Ok(v) => v,
            Err(e) => return Err(e),
        };
        let hard_bounds = match read_histogram_bounds_opt(b, "hard_bounds") {
            Ok(v) => v,
            Err(e) => return Err(e),
        };
        Ok(HistogramAggregation { field, interval, offset, missing, min_doc_count, extended_bounds, hard_bounds })
    }
}

/// Decoding an encoded `histogram` body gives it back.
pub proof fn lemma_histogram_aggregation_round_trip(v: HistogramAggregationView)
    requires
        histogram_aggregation_wf(v),
    ensures
        histogram_aggregation_from(histogram_aggregation_members(v)) == Ok::<HistogramAggregationView, DecodeErrorView>(v),
{
    lemma_agg_keys();
    let m0 = seq![("field"@, JsonValue::Str(v.field))];
    let m1 = opt_num_member("interval"@, v.interval);
    let m2 = opt_num_member("offset"@, v.offset);
    let m3 = opt_num_member("missing"@, v.missing);
    let m4 = opt_num_member("min_doc_count"@, v.min_doc_count);
    let m5 = histogram_bounds_opt_member("extended_bounds"@, v.extended_bounds);
    let m6 = histogram_bounds_opt_member("hard_bounds"@, v.hard_bounds);
    lemma_lookup_one("field"@, JsonValue::Str(v.field), "field"@);
    lemma_opt_num_member("interval"@, v.interval, "field"@);
    lemma_opt_num_member("offset"@, v.offset, "field"@);
    lemma_opt_num_member("missing"@, v.missing, "field"@);
    lemma_opt_num_member("min_doc_count"@, v.min_doc_count, "field"@);
    lemma_histogram_bounds_opt_member("extended_bounds"@, v.extended_bounds, "field"@);
    lemma_histogram_bounds_opt_member("hard_bounds"@, v.hard_bounds, "field"@);
    lemma_lookup_concat(m0, m1, "field"@);
    lemma_lookup_concat(m0 + m1, m2, "field"@);
    lemma_lookup_concat(m0 + m1 + m2, m3, "field"@);
    lemma_lookup_concat(m0 + m1 + m2 + m3, m4, "field"@);
    lemma_lookup_concat(m0 + m1 + m2 + m3 + m4, m5, "field"@);
    lemma_lookup_concat(m0 + m1 + m2 + m3 + m4 + m5, m6, "field"@);
    lemma_lookup_one("field"@, JsonValue::Str(v.field), "interval"@);
    lemma_opt_num_member("interval"@, v.interval, "interval"@);
    lemma_opt_num_member("offset"@, v.offset, "interval"@);
    lemma_opt_num_member("missing"@, v.missing, "interval"@);
    lemma_opt_num_member("min_doc_count"@, v.min_doc_count, "interval"@);
    lemma_histogram_bounds_opt_member("extended_bounds"@, v.extended_bounds, "interval"@);
    lemma_histogram_bounds_opt_member("hard_bounds"@, v.hard_bounds, "interval"@);
    lemma_lookup_concat(m0, m1, "interval"@);
    lemma_lookup_concat(m0 + m1, m2, "interval"@);
    lemma_lookup_concat(m0 + m1 + m2, m3, "interval"@);
    lemma_lookup_concat(m0 + m1 + m2 + m3, m4, "interval"@);
    lemma_lookup_concat(m0 + m1 + m2 + m3 + m4, m5, "interval"@);
    lemma_lookup_concat(m0 + m1 + m2 + m3 + m4 + m5, m6, "interval"@);
    lemma_lookup_one("field"@, JsonValue::Str(v.field), "offset"@);
    lemma_opt_num_member("interval"@, v.interval, "offset"@);
    lemma_opt_num_member("offset"@, v.offset, "offset"@);
    lemma_opt_num_member("missing"@, v.missing, "offset"@);
    lemma_opt_num_member("min_doc_count"@, v.min_doc_count, "offset"@);
    lemma_histogram_bounds_opt_member("extended_bounds"@, v.extended_bounds, "offset"@);
    lemma_histogram_bounds_opt_member("hard_bounds"@, v.hard_bounds, "offset"@);
    lemma_lookup_concat(m0, m1, "offset"@);
    lemma_lookup_concat(m0 + m1, m2, "offset"@);
    lemma_lookup_concat(m0 + m1 + m2, m3, "offset"@);
    lemma_lookup_concat(m0 + m1 + m2 + m3, m4, "offset"@);
    lemma_lookup_concat(m0 + m1 + m2 + m3 + m4, m5, "offset"@);
    lemma_lookup_concat(m0 + m1 + m2 + m3 + m4 + m5, m6, "offset"@);
    lemma_lookup_one("field"@, JsonValue::Str(v.field), "missing"@);
    lemma_opt_num_member("interval"@, v.interval, "missing"@);
    lemma_opt_num_member("offset"@, v.offset, "missing"@);
    lemma_opt_num_member("missing"@, v.missing, "missing"@);
    lemma_opt_num_member("min_doc_count"@, v.min_doc_count, "missing"@);
    lemma_histogram_bounds_opt_member("extended_bounds"@, v.extended_bounds, "missing"@);
    lemma_histogram_bounds_opt_member("hard_bounds"@, v.hard_bounds, "missing"@);
    lemma_lookup_concat(m0, m1, "missing"@);
    lemma_lookup_concat(m0 + m1, m2, "missing"@);
    lemma_lookup_concat(m0 + m1 + m2, m3, "missing"@);
    lemma_lookup_concat(m0 + m1 + m2 + m3, m4, "missing"@);
    lemma_lookup_concat(m0 + m1 + m2 + m3 + m4, m5, "missing"@);
    lemma_lookup_concat(m0 + m1 + m2 + m3 + m4 + m5, m6, "missing"@);
    lemma_lookup_one("field"@, JsonValue::Str(v.field), "min_doc_count"@);
    lemma_opt_num_member("interval"@, v.interval, "min_doc_count"@);
    lemma_opt_num_member("offset"@, v.offset, "min_doc_count"@);
    lemma_opt_num_member("missing"@, v.missing, "min_doc_count"@);
    lemma_opt_num_member("min_doc_count"@, v.min_doc_count, "min_doc_count"@);
    lemma_histogram_bounds_opt_member("extended_bounds"@, v.extended_bounds, "min_doc_count"@);
    lemma_histogram_bounds_opt_member("hard_bounds"@, v.hard_bounds, "min_doc_count"@);
    lemma_lookup_concat(m0, m1, "min_doc_count"@);
    lemma_lookup_concat(m0 + m1, m2, "min_doc_count"@);
    lemma_lookup_concat(m0 + m1 + m2, m3, "min_doc_count"@);
    lemma_lookup_concat(m0 + m1 + m2 + m3, m4, "min_doc_count"@);
    lemma_lookup_concat(m0 + m1 + m2 + m3 + m4, m5, "min_doc_count"@);
    lemma_lookup_concat(m0 + m1 + m2 + m3 + m4 + m5, m6, "min_doc_count"@);
    lemma_lookup_one("field"@, JsonValue::Str(v.field), "extended_bounds"@);
    lemma_opt_num_member("interval"@, v.interval, "extended_bounds"@);
    lemma_opt_num_member("offset"@, v.offset, "extended_bounds"@);
    lemma_opt_num_member("missing"@, v.missing, "extended_bounds"@);
    lemma_opt_num_member("min_doc_count"@, v.min_doc_count, "extended_bounds"@);
    lemma_histogram_bounds_opt_member("extended_bounds"@, v.extended_bounds, "extended_bounds"@);
    lemma_histogram_bounds_opt_member("hard_bounds"@, v.hard_bounds, "extended_bounds"@);
    lemma_lookup_concat(m0, m1, "extended_bounds"@);
    lemma_lookup_concat(m0 + m1, m2, "extended_bounds"@);
    lemma_lookup_concat(m0 + m1 + m2, m3, "extended_bounds"@);
    lemma_lookup_concat(m0 + m1 + m2 + m3, m4, "extended_bounds"@);
    lemma_lookup_concat(m0 + m1 + m2 + m3 + m4, m5, "extended_bounds"@);
    lemma_lookup_concat(m0 + m1 + m2 + m3 + m4 + m5, m6, "extended_bounds"@);
    if v.extended_bounds is Some { lemma_histogram_bounds_round_trip(v.extended_bounds->0); }
    lemma_lookup_one("field"@, JsonValue::Str(v.field), "hard_bounds"@);
    lemma_opt_num_member("interval"@, v.interval, "hard_bounds"@);
    lemma_opt_num_member("offset"@, v.offset, "hard_bounds"@);
    lemma_opt_num_member("missing"@, v.missing, "hard_bounds"@);
    lemma_opt_num_member("min_doc_count"@, v.min_doc_count, "hard_bounds"@);
    lemma_histogram_bounds_opt_member("extended_bounds"@, v.extended_bounds, "hard_bounds"@);
    lemma_histogram_bounds_opt_member("hard_bounds"@, v.hard_bounds, "hard_bounds"@);
    lemma_lookup_concat(m0, m1, "hard_bounds"@);
    lemma_lookup_concat(m0 + m1, m2, "hard_bounds"@);
    lemma_lookup_concat(m0 + m1 + m2, m3, "hard_bounds"@);
    lemma_lookup_concat(m0 + m1 + m2 + m3, m4, "hard_bounds"@);
    lemma_lookup_concat(m0 + m1 + m2 + m3 + m4, m5, "hard_bounds"@);
    lemma_lookup_concat(m0 + m1 + m2 + m3 + m4 + m5, m6, "hard_bounds"@);
    if v.hard_bounds is Some { lemma_histogram_bounds_round_trip(v.hard_bounds->0); }
    assert(histogram_aggregation_members(v) =~= m0 + m1 + m2 + m3 + m4 + m5 + m6);
}

/// The kind of an aggregation, with its body.
#[derive(Debug)]
pub enum AggregationKind {
    Metric(MetricKind, InnerAggregation),
    Terms(TermsAggregation),
    /// A single-bucket filter; its wire key is `filter`.
    Filter(CompoundQuery),
    DateHistogram(DateHistogramAggregation),
    AutoDateHistogram(AutoDateHistogramAggregation),
    DateRange(DateRangeAggregation),
    VariableWidthHistogram(VariableWidthHistogram),
    BucketScript(BucketScript),
    BucketSelector(BucketSelector),
    BucketSort(BucketSort),
    Nested(NestedAggregation),
    ReverseNested(ReverseNestedAggregation),
    Sampler(SamplerAggregation),
    SignificantText(SignificantTextAggregation),
    WeightedAvg(WeightedAverageAggregation),
    Range(RangeAggregation),
    Histogram(HistogramAggregation),
}

/// A named aggregation with at most one kind, optional metadata and
/// sub-aggregations.
#[derive(Debug)]
pub struct Aggregation {
    pub name: String,
    pub kind: Option<AggregationKind>,
    /// Arbitrary user data, encoded under `meta`.
    pub metadata: Option<Json>,
    /// Sub-aggregations, encoded under `aggs`.
    pub aggregations: Vec<Aggregation>,
}

pub enum KindView {
    Metric(MetricKind, InnerAggregationView),
    Terms(TermsAggregationView),
    Filter(CompoundQueryView),
    DateHistogram(DateHistogramAggregationView),
    AutoDateHistogram(AutoDateHistogramAggregationView),
    DateRange(DateRangeAggregationView),
    VariableWidthHistogram(VariableWidthHistogramView),
    BucketScript(BucketScriptView),
    BucketSelector(BucketSelectorView),
    BucketSort(BucketSortView),
    Nested(NestedAggregationView),
    ReverseNested(ReverseNestedAggregationView),
    Sampler(SamplerAggregationView),
    SignificantText(SignificantTextAggregationView),
    WeightedAvg(WeightedAverageAggregationView),
    Range(RangeAggregationView),
    Histogram(HistogramAggregationView),
}

pub struct AggregationView {
    pub name: Seq<char>,
    pub kind: Option<KindView>,
    pub metadata: Option<JsonValue>,
    pub aggregations: Seq<AggregationView>,
}

pub open spec fn kind_view(k: AggregationKind) -> KindView {
    match k {
        AggregationKind::Metric(m, i) => KindView::Metric(m, i@),
        AggregationKind::Terms(t) => KindView::Terms(t@),
        AggregationKind::Filter(c) => KindView::Filter(c@),
        AggregationKind::DateHistogram(b) => KindView::DateHistogram(b@),
        AggregationKind::AutoDateHistogram(b) => KindView::AutoDateHistogram(b@),
        AggregationKind::DateRange(b) => KindView::DateRange(b@),
        AggregationKind::VariableWidthHistogram(b) => KindView::VariableWidthHistogram(b@),
        AggregationKind::BucketScript(b) => KindView::BucketScript(b@),
        AggregationKind::BucketSelector(b) => KindView::BucketSelector(b@),
        AggregationKind::BucketSort(b) => KindView::BucketSort(b@),
        AggregationKind::Nested(b) => KindView::Nested(b@),
        AggregationKind::ReverseNested(b) => KindView::ReverseNested(b@),
        AggregationKind::Sampler(b) => KindView::Sampler(b@),
        AggregationKind::SignificantText(b) => KindView::SignificantText(b@),
        AggregationKind::WeightedAvg(b) => KindView::WeightedAvg(b@),
        AggregationKind::Range(b) => KindView::Range(b@),
        AggregationKind::Histogram(b) => KindView::Histogram(b@),
    }
}

pub open spec fn agg_view(a: Aggregation) -> AggregationView
    decreases a, 0nat,
{
    AggregationView {
        name: a.name@,
        kind: match a.kind {
            Some(k) => Some(kind_view(k)),
            None => None,
        },
        metadata: opt_json_view(a.metadata),
        aggregations: aggs_view(a.aggregations@),
    }
}

pub open spec fn aggs_view(s: Seq<Aggregation>) -> Seq<AggregationView>
    decreases s, 1nat,
{
    if s.len() == 0 {
        Seq::empty()
    } else {
        aggs_view(s.subrange(0, s.len() - 1)).push(agg_view(s[s.len() - 1]))
    }
}

impl View for Aggregation {
    type V = AggregationView;

    open spec fn view(&self) -> AggregationView {
        agg_view(*self)
    }
}

/// The wire key and body of a kind.
pub open spec fn kind_json(k: KindView) -> (Seq<char>, JsonValue) {
    match k {
        KindView::Metric(m, i) => (metric_key(m), JsonValue::Object(inner_aggregation_members(i))),
        KindView::Terms(t) => ("terms"@, JsonValue::Object(terms_aggregation_members(t))),
        KindView::Filter(c) => ("filter"@, compound_json(c)),
        KindView::DateHistogram(b) => ("date_histogram"@, JsonValue::Object(date_histogram_aggregation_members(b))),
        KindView::AutoDateHistogram(b) => ("auto_date_histogram"@, JsonValue::Object(auto_date_histogram_aggregation_members(b))),
        KindView::DateRange(b) => ("date_range"@, JsonValue::Object(date_range_aggregation_members(b))),
        KindView::VariableWidthHistogram(b) => ("variable_width_histogram"@, JsonValue::Object(variable_width_histogram_members(b))),
        KindView::BucketScript(b) => ("bucket_script"@, JsonValue::Object(bucket_script_members(b))),
        KindView::BucketSelector(b) => ("bucket_selector"@, JsonValue::Object(bucket_selector_members(b))),
        KindView::BucketSort(b) => ("bucket_sort"@, JsonValue::Object(bucket_sort_members(b))),
        KindView::Nested(b) => ("nested"@, JsonValue::Object(nested_aggregation_members(b))),
        KindView::ReverseNested(b) => ("reverse_nested"@, JsonValue::Object(reverse_nested_aggregation_members(b))),
        KindView::Sampler(b) => ("sampler"@, JsonValue::Object(sampler_aggregation_members(b))),
        KindView::SignificantText(b) => ("significant_text"@, JsonValue::Object(significant_text_aggregation_members(b))),
        KindView::WeightedAvg(b) => ("weighted_avg"@, JsonValue::Object(weighted_average_aggregation_members(b))),
        KindView::Range(b) => ("range"@, JsonValue::Object(range_aggregation_members(b))),
        KindView::Histogram(b) => ("histogram"@, JsonValue::Object(histogram_aggregation_members(b))),
    }
}

/// The body of an aggregation: its kind, then `meta`, then a non-empty `aggs`.
pub open spec fn agg_body_json(a: AggregationView) -> JsonValue
    decreases a, 0nat,
{
    JsonValue::Object(
        match a.kind {
            Some(k) => seq![kind_json(k)],
            None => seq![],
        } + match a.metadata {
            Some(m) => seq![("meta"@, m)],
            None => seq![],
        } + if a.aggregations.len() == 0 {
            seq![]
        } else {
            seq![("aggs"@, JsonValue::Object(aggs_members(a.aggregations)))]
        },
    )
}

pub open spec fn aggs_members(s: Seq<AggregationView>) -> Seq<(Seq<char>, JsonValue)>
    decreases s, 1nat,
{
    if s.len() == 0 {
        Seq::empty()
    } else {
        aggs_members(s.subrange(0, s.len() - 1)).push(
            (s[s.len() - 1].name, agg_body_json(s[s.len() - 1])),
        )
    }
}

/// `{ "<name>": <body> }`.
pub open spec fn agg_json(a: AggregationView) -> JsonValue {
    JsonValue::Object(seq![(a.name, agg_body_json(a))])
}

/// A key that names an aggregation kind.
pub open spec fn is_kind_key(k: Seq<char>) -> bool {
    metric_of(k) is Some || k == "terms"@ || k == "filter"@ || k == "date_histogram"@ || k == "auto_date_histogram"@ || k == "date_range"@ || k == "variable_width_histogram"@ || k == "bucket_script"@ || k == "bucket_selector"@ || k == "bucket_sort"@ || k == "nested"@ || k == "reverse_nested"@ || k == "sampler"@ || k == "significant_text"@ || k == "weighted_avg"@ || k == "range"@ || k == "histogram"@
}

/// How many members of `bm` name a kind.
pub open spec fn kind_count(bm: Seq<(Seq<char>, JsonValue)>) -> nat
    decreases bm.len(),
{
    if bm.len() == 0 {
        0
    } else {
        kind_count(bm.subrange(0, bm.len() - 1)) + if is_kind_key(bm[bm.len() - 1].0) {
            1nat
        } else {
            0nat
        }
    }
}

/// The position of the first member of `bm` that names a kind.
pub open spec fn first_kind(bm: Seq<(Seq<char>, JsonValue)>) -> Option<int>
    decreases bm.len(),
{
    if bm.len() == 0 {
        None
    } else {
        match first_kind(bm.subrange(0, bm.len() - 1)) {
            Some(i) => Some(i),
            None => if is_kind_key(bm[bm.len() - 1].0) {
                Some(bm.len() - 1)
            } else {
                None
            },
        }
    }
}

/// The kind named `key`, decoded from `body`.
pub open spec fn kind_from(key: Seq<char>, body: JsonValue) -> Result<KindView, DecodeErrorView> {
    if key == "filter"@ {
        match compound_from(body) {
            Ok(c) => Ok(KindView::Filter(c)),
            Err(e) => Err(e),
        }
    } else {
        match body {
            JsonValue::Object(b) => if key == "terms"@ {
                match terms_aggregation_from(b) {
                    Ok(t) => Ok(KindView::Terms(t)),
                    Err(e) => Err(e),
                }
            } else if key == "date_histogram"@ {
                match date_histogram_aggregation_from(b) {
                    Ok(v) => Ok(KindView::DateHistogram(v)),
                    Err(e) => Err(e),
                }
            } else if key == "auto_date_histogram"@ {
                match auto_date_histogram_aggregation_from(b) {
                    Ok(v) => Ok(KindView::AutoDateHistogram(v)),
                    Err(e) => Err(e),
                }
            } else if key == "date_range"@ {
                match date_range_aggregation_from(b) {
                    Ok(v) => Ok(KindView::DateRange(v)),
                    Err(e) => Err(e),
                }
            } else if key == "variable_width_histogram"@ {
                match variable_width_histogram_from(b) {
                    Ok(v) => Ok(KindView::VariableWidthHistogram(v)),
                    Err(e) => Err(e),
                }
            } else if key == "bucket_script"@ {
                match bucket_script_from(b) {
                    Ok(v) => Ok(KindView::BucketScript(v)),
                    Err(e) => Err(e),
                }
            } else if key == "bucket_selector"@ {
                match bucket_selector_from(b) {
                    Ok(v) => Ok(KindView::BucketSelector(v)),
                    Err(e) => Err(e),
                }
            } else if key == "bucket_sort"@ {
                match bucket_sort_from(b) {
                    Ok(v) => Ok(KindView::BucketSort(v)),
                    Err(e) => Err(e),
                }
            } else if key == "nested"@ {
                match nested_aggregation_from(b) {
                    Ok(v) => Ok(KindView::Nested(v)),
                    Err(e) => Err(e),
                }
            } else if key == "reverse_nested"@ {
                match reverse_nested_aggregation_from(b) {
                    Ok(v) => Ok(KindView::ReverseNested(v)),
                    Err(e) => Err(e),
                }
            } else if key == "sampler"@ {
                match sampler_aggregation_from(b) {
                    Ok(v) => Ok(KindView::Sampler(v)),
                    Err(e) => Err(e),
                }
            } else if key == "significant_text"@ {
                match significant_text_aggregation_from(b) {
                    Ok(v) => Ok(KindView::SignificantText(v)),
                    Err(e) => Err(e),
                }
            } else if key == "weighted_avg"@ {
                match weighted_average_aggregation_from(b) {
                    Ok(v) => Ok(KindView::WeightedAvg(v)),
                    Err(e) => Err(e),
                }
            } else if key == "range"@ {
                match range_aggregation_from(b) {
                    Ok(v) => Ok(KindView::Range(v)),
                    Err(e) => Err(e),
                }
            } else if key == "histogram"@ {
                match histogram_aggregation_from(b) {
                    Ok(v) => Ok(KindView::Histogram(v)),
                    Err(e) => Err(e),
                }
            } else {
                match inner_aggregation_from(b) {
                    Ok(i) => Ok(KindView::Metric(metric_of(key)->0, i)),
                    Err(e) => Err(e),
                }
            },
            _ => Err(DecodeErrorView::MalformedLeaf { field: key, missing: "body"@ }),
        }
    }
}

/// The kind of an aggregation body: none, the one kind member, or an error
/// when several members name kinds.
pub open spec fn body_kind(bm: Seq<(Seq<char>, JsonValue)>) -> Result<Option<KindView>, DecodeErrorView> {
    if kind_count(bm) > 1 {
        Err(DecodeErrorView::MalformedQuery { reason: "zero_or_multiple"@, tag: None })
    } else {
        match first_kind(bm) {
            None => Ok(None),
            Some(i) => match kind_from(bm[i].0, bm[i].1) {
                Ok(k) => Ok(Some(k)),
                Err(e) => Err(e),
            },
        }
    }
}

/// The `meta` member of an aggregation body.
pub open spec fn body_meta(bm: Seq<(Seq<char>, JsonValue)>, name: Seq<char>) -> Result<Option<JsonValue>, DecodeErrorView> {
    match lookup(bm, "meta"@) {
        None => Ok(None),
        Some(JsonValue::Null) => Ok(None),
        Some(JsonValue::Object(m)) => Ok(Some(JsonValue::Object(m))),
        _ => Err(DecodeErrorView::MalformedLeaf { field: name, missing: "meta"@ }),
    }
}

/// The aggregation named `name` with body `v`.
pub open spec fn agg_body_from(name: Seq<char>, v: JsonValue) -> Result<AggregationView, DecodeErrorView>
    decreases v, 0nat,
{
    match v {
        JsonValue::Object(bm) => match body_kind(bm) {
            Err(e) => Err(e),
            Ok(kind) => match body_meta(bm, name) {
                Err(e) => Err(e),
                Ok(metadata) => match children_from(bm, name) {
                    Err(e) => Err(e),
                    Ok(aggregations) => Ok(AggregationView { name, kind, metadata, aggregations }),
                },
            },
        },
        _ => Err(DecodeErrorView::MalformedLeaf { field: name, missing: "body"@ }),
    }
}

/// The sub-aggregations under the first `aggs` member of `bm`.
pub open spec fn children_from(bm: Seq<(Seq<char>, JsonValue)>, name: Seq<char>) -> Result<Seq<AggregationView>, DecodeErrorView>
    decreases bm, 1nat,
{
    if bm.len() == 0 {
        Ok(Seq::empty())
    } else if bm[0].0 == "aggs"@ {
        match bm[0].1 {
            JsonValue::Null => Ok(Seq::empty()),
            JsonValue::Object(cm) => aggs_from(cm),
            _ => Err(DecodeErrorView::MalformedLeaf { field: name, missing: "aggs"@ }),
        }
    } else {
        children_from(bm.subrange(1, bm.len() as int), name)
    }
}

/// Each member of an `aggs` object, decoded in order.
pub open spec fn aggs_from(cm: Seq<(Seq<char>, JsonValue)>) -> Result<Seq<AggregationView>, DecodeErrorView>
    decreases cm, 2nat,
{
    if cm.len() == 0 {
        Ok(Seq::empty())
    } else {
        match agg_body_from(cm[0].0, cm[0].1) {
            Err(e) => Err(e),
            Ok(a) => match aggs_from(cm.subrange(1, cm.len() as int)) {
                Err(e) => Err(e),
                Ok(rest) => Ok(seq![a] + rest),
            },
        }
    }
}

/// The aggregation a document denotes: `{ "<name>": <body> }`.
pub open spec fn agg_from(v: JsonValue) -> Result<AggregationView, DecodeErrorView> {
    match v {
        JsonValue::Object(ms) => if ms.len() == 1 {
            agg_body_from(ms[0].0, ms[0].1)
        } else {
            Err(DecodeErrorView::MalformedQuery { reason: "zero_or_multiple"@, tag: None })
        },
        _ => Err(DecodeErrorView::MalformedQuery { reason: "zero_or_multiple"@, tag: None }),
    }
}

/// The number of aggregations in `a`, which recursion over it decreases.
pub open spec fn agg_size(a: Aggregation) -> nat
    decreases a, 0nat,
{
    1 + aggs_size(a.aggregations@)
}

pub open spec fn aggs_size(s: Seq<Aggregation>) -> nat
    decreases s, 1nat,
{
    if s.len() == 0 {
        0
    } else {
        aggs_size(s.subrange(0, s.len() - 1)) + agg_size(s[s.len() - 1])
    }
}

proof fn lemma_aggs_size(s: Seq<Aggregation>, i: int)
    requires
        0 <= i < s.len(),
    ensures
        agg_size(s[i]) <= aggs_size(s),
    decreases s.len(),
{
    if i < s.len() - 1 {
        lemma_aggs_size(s.subrange(0, s.len() - 1), i);
    }
}

proof fn lemma_aggs_view_push(s: Seq<Aggregation>, a: Aggregation)
    ensures
        aggs_view(s.push(a)) == aggs_view(s).push(agg_view(a)),
{
    assert(s.push(a).subrange(0, s.len() as int) =~= s);
}

proof fn lemma_aggs_view_len(s: Seq<Aggregation>)
    ensures
        aggs_view(s).len() == s.len(),
    decreases s.len(),
{
    if s.len() > 0 {
        lemma_aggs_view_len(s.subrange(0, s.len() - 1));
    }
}

impl AggregationKind {
    /// The wire key and body of this kind.
    pub fn to_member(&self) -> (r: (String, Json))
        ensures
            (r.0@, r.1@) == kind_json(kind_view(*self)),
    {
        match self {
            AggregationKind::Metric(m, inner) => (m.key().to_owned(), Json::Object(inner.to_members())),
            AggregationKind::Terms(t) => ("terms".to_owned(), Json::Object(t.to_members())),
            AggregationKind::Filter(c) => ("filter".to_owned(), c.to_json()),
            AggregationKind::DateHistogram(b) => ("date_histogram".to_owned(), Json::Object(b.to_members())),
            AggregationKind::AutoDateHistogram(b) => ("auto_date_histogram".to_owned(), Json::Object(b.to_members())),
            AggregationKind::DateRange(b) => ("date_range".to_owned(), Json::Object(b.to_members())),
            AggregationKind::VariableWidthHistogram(b) => ("variable_width_histogram".to_owned(), Json::Object(b.to_members())),
            AggregationKind::BucketScript(b) => ("bucket_script".to_owned(), Json::Object(b.to_members())),
            AggregationKind::BucketSelector(b) => ("bucket_selector".to_owned(), Json::Object(b.to_members())),
            AggregationKind::BucketSort(b) => ("bucket_sort".to_owned(), Json::Object(b.to_members())),
            AggregationKind::Nested(b) => ("nested".to_owned(), Json::Object(b.to_members())),
            AggregationKind::ReverseNested(b) => ("reverse_nested".to_owned(), Json::Object(b.to_members())),
            AggregationKind::Sampler(b) => ("sampler".to_owned(), Json::Object(b.to_members())),
            AggregationKind::SignificantText(b) => ("significant_text".to_owned(), Json::Object(b.to_members())),
            AggregationKind::WeightedAvg(b) => ("weighted_avg".to_owned(), Json::Object(b.to_members())),
            AggregationKind::Range(b) => ("range".to_owned(), Json::Object(b.to_members())),
            AggregationKind::Histogram(b) => ("histogram".to_owned(), Json::Object(b.to_members())),
        }
    }
}

/// Encodes sub-aggregations as the members of an `aggs` object.
fn aggs_to_members(v: &Vec<Aggregation>) -> (r: Vec<(String, Json)>)
    ensures
        members_view(r@) == aggs_members(aggs_view(v@)),
    decreases aggs_size(v@), 1nat,
{
    let mut out = empty_members();
    let mut i: usize = 0;
    while i < v.len()
        invariant
            0 <= i <= v.len(),
            members_view(out@) == aggs_members(aggs_view(v@.subrange(0, i as int))),
        decreases v.len() - i,
    {
        proof {
            lemma_aggs_size(v@, i as int);
        }
        let body = v[i].body_to_json();
        push_member(&mut out, v[i].name.as_str(), body);
        proof {
            let p = v@.subrange(0, i + 1);
            assert(p =~= v@.subrange(0, i as int).push(v@[i as int]));
            lemma_aggs_view_push(v@.subrange(0, i as int), v@[i as int]);
            let pv = aggs_view(p);
            assert(pv.subrange(0, pv.len() - 1) =~= aggs_view(v@.subrange(0, i as int)));
        }
        i = i + 1;
    }
    proof {
        assert(v@.subrange(0, v@.len() as int) =~= v@);
    }
    out
}

impl Aggregation {
    /// `{ "<name>": { "<kind>": .., "meta": .., "aggs": { .. } } }`.
    pub fn to_json(&self) -> (r: Json)
        ensures
            r@ == agg_json(self@),
    {
        single_member(self.name.as_str(), self.body_to_json())
    }

    /// The body of this aggregation: its kind, then `meta`, then a non-empty
    /// `aggs`.
    pub fn body_to_json(&self) -> (r: Json)
        ensures
            r@ == agg_body_json(self@),
        decreases agg_size(*self), 0nat,
    {
        let mut ms = empty_members();
        let ghost before = members_view(ms@);
        match &self.kind {
            Some(k) => {
                let (key, body) = k.to_member();
                push_member(&mut ms, key.as_str(), body);
            },
            None => {},
        }
        let ghost with_kind = members_view(ms@);
        match &self.metadata {
            Some(m) => push_member(&mut ms, "meta", m.deep_clone()),
            None => {},
        }
        let ghost with_meta = members_view(ms@);
        proof {
            lemma_aggs_view_len(self.aggregations@);
        }
        if self.aggregations.len() > 0 {
            let children = aggs_to_members(&self.aggregations);
            push_member(&mut ms, "aggs", Json::Object(children));
        }
        proof {
            let a = self@;
            let k = match a.kind {
                Some(k) => seq![kind_json(k)],
                None => Seq::<(Seq<char>, JsonValue)>::empty(),
            };
            let m = match a.metadata {
                Some(m) => seq![("meta"@, m)],
                None => Seq::<(Seq<char>, JsonValue)>::empty(),
            };
            assert(with_kind =~= k);
            assert(with_meta =~= k + m);
            assert(members_view(ms@) =~= k + m + if a.aggregations.len() == 0 {
                Seq::<(Seq<char>, JsonValue)>::empty()
            } else {
                seq![("aggs"@, JsonValue::Object(aggs_members(a.aggregations)))]
            });
        }
        Json::Object(ms)
    }
}

fn is_kind_key_exec(k: &str) -> (r: bool)
    ensures
        r == is_kind_key(k@),
{
    MetricKind::from_key(k).is_some() || str_eq(k, "terms") || str_eq(k, "filter") || str_eq(k, "date_histogram") || str_eq(k, "auto_date_histogram") || str_eq(k, "date_range") || str_eq(k, "variable_width_histogram") || str_eq(k, "bucket_script") || str_eq(k, "bucket_selector") || str_eq(k, "bucket_sort") || str_eq(k, "nested") || str_eq(k, "reverse_nested") || str_eq(k, "sampler") || str_eq(k, "significant_text") || str_eq(k, "weighted_avg") || str_eq(k, "range") || str_eq(k, "histogram")
}

/// Decodes the kind named `key` from its body.
fn read_kind(key: &str, body: &Json) -> (r: Result<AggregationKind, DecodeError>)
    requires
        is_kind_key(key@),
    ensures
        match r {
            Ok(k) => kind_from(key@, body@) == Ok::<KindView, DecodeErrorView>(kind_view(k)),
            Err(e) => kind_from(key@, body@) == Err::<KindView, DecodeErrorView>(e@),
        },
{
    if str_eq(key, "filter") {
        return match CompoundQuery::from_json(body) {
            Ok(c) => Ok(AggregationKind::Filter(c)),
            Err(e) => Err(e),
        };
    }
    match body {
        Json::Object(b) => {
            if str_eq(key, "terms") {
                match TermsAggregation::from_members(b) {
                    Ok(t) => Ok(AggregationKind::Terms(t)),
                    Err(e) => Err(e),
                }
            } else if str_eq(key, "date_histogram") {
                match DateHistogramAggregation::from_members(b) {
                    Ok(v) => Ok(AggregationKind::DateHistogram(v)),
                    Err(e) => Err(e),
                }
            } else if str_eq(key, "auto_date_histogram") {
                match AutoDateHistogramAggregation::from_members(b) {
                    Ok(v) => Ok(AggregationKind::AutoDateHistogram(v)),
                    Err(e) => Err(e),
                }
            } else if str_eq(key, "date_range") {
                match DateRangeAggregation::from_members(b) {
                    Ok(v) => Ok(AggregationKind::DateRange(v)),
                    Err(e) => Err(e),
                }
            } else if str_eq(key, "variable_width_histogram") {
                match VariableWidthHistogram::from_members(b) {
                    Ok(v) => Ok(AggregationKind::VariableWidthHistogram(v)),
                    Err(e) => Err(e),
                }
            } else if str_eq(key, "bucket_script") {
                match BucketScript::from_members(b) {
                    Ok(v) => Ok(AggregationKind::BucketScript(v)),
                    Err(e) => Err(e),
                }
            } else if str_eq(key, "bucket_selector") {
                match BucketSelector::from_members(b) {
                    Ok(v) => Ok(AggregationKind::BucketSelector(v)),
                    Err(e) => Err(e),
                }
            } else if str_eq(key, "bucket_sort") {
                match BucketSort::from_members(b) {
                    Ok(v) => Ok(AggregationKind::BucketSort(v)),
                    Err(e) => Err(e),
                }
            } else if str_eq(key, "nested") {
                match NestedAggregation::from_members(b) {
                    Ok(v) => Ok(AggregationKind::Nested(v)),
                    Err(e) => Err(e),
                }
            } else if str_eq(key, "reverse_nested") {
                match ReverseNestedAggregation::from_members(b) {
                    Ok(v) => Ok(AggregationKind::ReverseNested(v)),
                    Err(e) => Err(e),
                }
            } else if str_eq(key, "sampler") {
                match SamplerAggregation::from_members(b) {
                    Ok(v) => Ok(AggregationKind::Sampler(v)),
                    Err(e) => Err(e),
                }
            } else if str_eq(key, "significant_text") {
                match SignificantTextAggregation::from_members(b) {
                    Ok(v) => Ok(AggregationKind::SignificantText(v)),
                    Err(e) => Err(e),
                }
            } else if str_eq(key, "weighted_avg") {
                match WeightedAverageAggregation::from_members(b) {
                    Ok(v) => Ok(AggregationKind::WeightedAvg(v)),
                    Err(e) => Err(e),
                }
            } else if str_eq(key, "range") {
                match RangeAggregation::from_members(b) {
                    Ok(v) => Ok(AggregationKind::Range(v)),
                    Err(e) => Err(e),
                }
            } else if str_eq(key, "histogram") {
                match HistogramAggregation::from_members(b) {
                    Ok(v) => Ok(AggregationKind::Histogram(v)),
                    Err(e) => Err(e),
                }
            } else {
                let inner = match InnerAggregation::from_members(b) {
                    Ok(i) => i,
                    Err(e) => return Err(e),
                };
                match MetricKind::from_key(key) {
                    Some(m) => Ok(AggregationKind::Metric(m, inner)),
                    None => Err(malformed_leaf(key, "body")),
                }
            }
        },
        _ => Err(malformed_leaf(key, "body")),
    }
}

/// Finds the kind members of an aggregation body.
fn scan_kinds(bm: &Vec<(String, Json)>) -> (r: (usize, Option<usize>))
    ensures
        r.0 == kind_count(members_view(bm@)),
        match r.1 {
            Some(i) => first_kind(members_view(bm@)) == Some(i as int) && i < bm@.len(),
            None => first_kind(members_view(bm@)) is None,
        },
{
    proof {
        lemma_members_index(bm@);
    }
    let ghost mv = members_view(bm@);
    let mut count: usize = 0;
    let mut first: Option<usize> = None;
    let mut i: usize = 0;
    while i < bm.len()
        invariant
            0 <= i <= bm.len(),
            mv == members_view(bm@),
            mv.len() == bm@.len(),
            forall|j: int| 0 <= j < bm@.len() ==> #[trigger] mv[j] == (bm@[j].0@, json_view(bm@[j].1)),
            count == kind_count(mv.subrange(0, i as int)),
            count <= i,
            match first {
                Some(f) => first_kind(mv.subrange(0, i as int)) == Some(f as int) && f < i,
                None => first_kind(mv.subrange(0, i as int)) is None,
            },
        decreases bm.len() - i,
    {
        proof {
            let t = mv.subrange(0, i + 1);
            assert(t.subrange(0, t.len() - 1) =~= mv.subrange(0, i as int));
            assert(t[t.len() - 1] == mv[i as int]);
        }
        if is_kind_key_exec(bm[i].0.as_str()) {
            count = count + 1;
            if first.is_none() {
                first = Some(i);
            }
        }
        i = i + 1;
    }
    proof {
        assert(mv.subrange(0, mv.len() as int) =~= mv);
    }
    (count, first)
}

/// The sub-aggregations read from the member they are stored under.
pub open spec fn children_of(m: Option<JsonValue>, name: Seq<char>) -> Result<Seq<AggregationView>, DecodeErrorView> {
    match m {
        None => Ok(Seq::empty()),
        Some(JsonValue::Null) => Ok(Seq::empty()),
        Some(JsonValue::Object(cm)) => aggs_from(cm),
        _ => Err(DecodeErrorView::MalformedLeaf { field: name, missing: "aggs"@ }),
    }
}

proof fn lemma_children_from(bm: Seq<(Seq<char>, JsonValue)>, name: Seq<char>)
    ensures
        children_from(bm, name) == children_of(lookup(bm, "aggs"@), name),
    decreases bm.len(),
{
    if bm.len() > 0 && bm[0].0 != "aggs"@ {
        lemma_children_from(bm.subrange(1, bm.len() as int), name);
    }
}

/// Prefix `done` onto a decode result.
pub open spec fn prepend_aggs(done: Seq<AggregationView>, r: Result<Seq<AggregationView>, DecodeErrorView>) -> Result<Seq<AggregationView>, DecodeErrorView> {
    match r {
        Ok(rest) => Ok(done + rest),
        Err(e) => Err(e),
    }
}

/// Decodes the `aggs` member of an aggregation body.
fn read_children(bm: &Vec<(String, Json)>, name: &str) -> (r: Result<Vec<Aggregation>, DecodeError>)
    ensures
        match r {
            Ok(v) => children_from(members_view(bm@), name@) == Ok::<Seq<AggregationView>, DecodeErrorView>(aggs_view(v@)),
            Err(e) => children_from(members_view(bm@), name@) == Err::<Seq<AggregationView>, DecodeErrorView>(e@),
        },
    decreases members_size(bm@), 2nat,
{
    proof {
        lemma_children_from(members_view(bm@), name@);
    }
    match member_index(bm, "aggs") {
        None => {
            let v: Vec<Aggregation> = Vec::new();
            proof {
                assert(aggs_view(v@) =~= Seq::<AggregationView>::empty());
            }
            Ok(v)
        },
        Some(idx) => {
            proof {
                lemma_members_size(bm@, idx as int);
            }
            match &bm[idx].1 {
                Json::Null => {
                    let v: Vec<Aggregation> = Vec::new();
                    proof {
                        assert(aggs_view(v@) =~= Seq::<AggregationView>::empty());
                    }
                    Ok(v)
                },
                Json::Object(cm) => aggs_from_json(cm),
                _ => Err(malformed_leaf(name, "aggs")),
            }
        },
    }
}

/// Decodes each member of an `aggs` object.
fn aggs_from_json(cm: &Vec<(String, Json)>) -> (r: Result<Vec<Aggregation>, DecodeError>)
    ensures
        match r {
            Ok(v) => aggs_from(members_view(cm@)) == Ok::<Seq<AggregationView>, DecodeErrorView>(aggs_view(v@)),
            Err(e) => aggs_from(members_view(cm@)) == Err::<Seq<AggregationView>, DecodeErrorView>(e@),
        },
    decreases members_size(cm@), 1nat,
{
    let ghost mv = members_view(cm@);
    proof {
        lemma_members_index(cm@);
        assert(mv.subrange(0, mv.len() as int) =~= mv);
        assert(aggs_view(Seq::<Aggregation>::empty()) =~= Seq::<AggregationView>::empty());
        match aggs_from(mv) {
            Ok(x) => {
                assert(Seq::<AggregationView>::empty() + x =~= x);
            },
            Err(_) => {},
        }
    }
    let mut out: Vec<Aggregation> = Vec::new();
    let mut i: usize = 0;
    while i < cm.len()
        invariant
            0 <= i <= cm.len(),
            mv == members_view(cm@),
            mv.len() == cm@.len(),
            forall|j: int| 0 <= j < cm@.len() ==> #[trigger] mv[j] == (cm@[j].0@, json_view(cm@[j].1)),
            aggs_from(mv) == prepend_aggs(aggs_view(out@), aggs_from(mv.subrange(i as int, mv.len() as int))),
        decreases cm.len() - i,
    {
        proof {
            lemma_members_size(cm@, i as int);
            let t = mv.subrange(i as int, mv.len() as int);
            assert(t[0] == mv[i as int]);
            assert(t.subrange(1, t.len() as int) =~= mv.subrange(i + 1, mv.len() as int));
        }
        let a = match agg_body_from_json(cm[i].0.as_str(), &cm[i].1) {
            Ok(a) => a,
            Err(e) => return Err(e),
        };
        proof {
            lemma_aggs_view_push(out@, a);
            match aggs_from(mv.subrange(i + 1, mv.len() as int)) {
                Ok(rest) => {
                    assert(aggs_view(out@) + (seq![agg_view(a)] + rest) =~= aggs_view(out@).push(agg_view(a)) + rest);
                },
                Err(_) => {},
            }
        }
        out.push(a);
        i = i + 1;
    }
    proof {
        assert(mv.subrange(i as int, mv.len() as int) =~= Seq::<(Seq<char>, JsonValue)>::empty());
        assert(aggs_view(out@) + Seq::<AggregationView>::empty() =~= aggs_view(out@));
    }
    Ok(out)
}

/// Decodes the aggregation named `name` from its body.
fn agg_body_from_json(name: &str, body: &Json) -> (r: Result<Aggregation, DecodeError>)
    ensures
        result_view(r) == agg_body_from(name@, body@),
    decreases json_size(*body), 0nat,
{
    match body {
        Json::Object(bm) => {
            proof {
                lemma_members_index(bm@);
            }
            let (count, first) = scan_kinds(bm);
            if count > 1 {
                return Err(malformed_query("zero_or_multiple"));
            }
            let kind = match first {
                None => None,
                Some(i) => {
                    proof {
                        lemma_first_kind(members_view(bm@));
                    }
                    match read_kind(bm[i].0.as_str(), &bm[i].1) {
                        Ok(k) => Some(k),
                        Err(e) => return Err(e),
                    }
                },
            };
            let metadata = match crate::json::get_member(bm, "meta") {
                None => None,
                Some(Json::Null) => None,
                Some(Json::Object(m)) => Some(crate::json::get_member(bm, "meta").unwrap().deep_clone()),
                _ => return Err(malformed_leaf(name, "meta")),
            };
            let aggregations = match read_children(bm, name) {
                Ok(v) => v,
                Err(e) => return Err(e),
            };
            Ok(Aggregation { name: name.to_owned(), kind, metadata, aggregations })
        },
        _ => Err(malformed_leaf(name, "body")),
    }
}

proof fn lemma_first_kind(bm: Seq<(Seq<char>, JsonValue)>)
    ensures
        match first_kind(bm) {
            Some(i) => 0 <= i < bm.len() && is_kind_key(bm[i].0),
            None => true,
        },
    decreases bm.len(),
{
    if bm.len() > 0 {
        let t = bm.subrange(0, bm.len() - 1);
        lemma_first_kind(t);
        match first_kind(t) {
            Some(i) => {
                assert(bm[i] == t[i]);
            },
            None => {},
        }
    }
}

impl Aggregation {
    /// Decodes `{ "<name>": <body> }`. A body with several kinds, or a
    /// document without exactly one member, is malformed.
    pub fn from_json(j: &Json) -> (r: Result<Aggregation, DecodeError>)
        ensures
            result_view(r) == agg_from(j@),
    {
        match j {
            Json::Object(ms) => {
                proof {
                    lemma_members_index(ms@);
                }
                if ms.len() == 1 {
                    agg_body_from_json(ms[0].0.as_str(), &ms[0].1)
                } else {
                    Err(malformed_query("zero_or_multiple"))
                }
            },
            _ => Err(malformed_query("zero_or_multiple")),
        }
    }
}

/// Decoding an encoded date range gives it back.
pub proof fn lemma_date_range_round_trip(r: DateRangeView)
    ensures
        date_range_from(date_range_json(r)) == Ok::<DateRangeView, DecodeErrorView>(r),
{
    lemma_agg_keys();
    let m0 = opt_str_member("from"@, r.from);
    let m1 = opt_str_member("to"@, r.to);
    lemma_opt_str_member("from"@, r.from, "from"@);
    lemma_opt_str_member("to"@, r.to, "from"@);
    lemma_lookup_concat(m0, m1, "from"@);
    lemma_opt_str_member("from"@, r.from, "to"@);
    lemma_opt_str_member("to"@, r.to, "to"@);
    lemma_lookup_concat(m0, m1, "to"@);
}

pub proof fn lemma_ranges_member(name: Seq<char>, v: Seq<DateRangeView>, key: Seq<char>)
    ensures
        lookup(ranges_member(name, v), key) == if name == key && v.len() > 0 {
            Some(JsonValue::Array(v.map_values(|r: DateRangeView| date_range_json(r))))
        } else {
            None::<JsonValue>
        },
{
    if v.len() > 0 {
        lemma_lookup_one(name, JsonValue::Array(v.map_values(|r: DateRangeView| date_range_json(r))), key);
    }
}

pub proof fn lemma_sorts_member(name: Seq<char>, v: Seq<SortView>, key: Seq<char>)
    ensures
        lookup(sorts_member(name, v), key) == if name == key && v.len() > 0 {
            Some(JsonValue::Array(v.map_values(|s: SortView| sort_to_json(s))))
        } else {
            None::<JsonValue>
        },
{
    if v.len() > 0 {
        lemma_lookup_one(name, JsonValue::Array(v.map_values(|s: SortView| sort_to_json(s))), key);
    }
}

/// A list of ranges found where it was encoded decodes back.
pub proof fn lemma_ranges_slot(b: Seq<(Seq<char>, JsonValue)>, name: Seq<char>, field: Seq<char>, v: Seq<DateRangeView>)
    requires
        lookup(b, name) == if v.len() > 0 {
            Some(JsonValue::Array(v.map_values(|r: DateRangeView| date_range_json(r))))
        } else {
            None::<JsonValue>
        },
    ensures
        ranges_from(b, name, field) == Ok::<Seq<DateRangeView>, DecodeErrorView>(v),
{
    if v.len() > 0 {
        let items = v.map_values(|r: DateRangeView| date_range_json(r));
        assert forall|i: int| 0 <= i < items.len() implies #[trigger] date_range_from(items[i]) == Ok::<DateRangeView, DecodeErrorView>(v[i]) by {
            lemma_date_range_round_trip(v[i]);
        }
        assert(items.map_values(|x: JsonValue| date_range_from(x)->Ok_0) =~= v);
    } else {
        assert(v =~= seq![]);
    }
}

/// A list of sorts found where it was encoded decodes back.
pub proof fn lemma_sorts_slot(b: Seq<(Seq<char>, JsonValue)>, name: Seq<char>, field: Seq<char>, v: Seq<SortView>)
    requires
        lookup(b, name) == if v.len() > 0 {
            Some(JsonValue::Array(v.map_values(|s: SortView| sort_to_json(s))))
        } else {
            None::<JsonValue>
        },
    ensures
        sorts_from(b, name, field) == Ok::<Seq<SortView>, DecodeErrorView>(v),
{
    if v.len() > 0 {
        let items = v.map_values(|s: SortView| sort_to_json(s));
        assert forall|i: int| 0 <= i < items.len() implies #[trigger] sort_from_json(items[i]) == Ok::<SortView, DecodeErrorView>(v[i]) by {
            lemma_sort_round_trip(v[i]);
        }
        assert(items.map_values(|x: JsonValue| sort_from_json(x)->Ok_0) =~= v);
    } else {
        assert(v =~= seq![]);
    }
}

/// The lengths and first characters of the names used by aggregation
/// requests, which tell them apart.
pub proof fn lemma_agg_keys()
    ensures
        "aggs"@.len() == 4 && "aggs"@[0] == 'a' && "aggs"@[1] == 'g',
        "auto_date_histogram"@.len() == 19 && "auto_date_histogram"@[0] == 'a' && "auto_date_histogram"@[1] == 'u',
        "avg"@.len() == 3 && "avg"@[0] == 'a' && "avg"@[1] == 'v',
        "bucket_script"@.len() == 13 && "bucket_script"@[0] == 'b' && "bucket_script"@[1] == 'u',
        "bucket_selector"@.len() == 15 && "bucket_selector"@[0] == 'b' && "bucket_selector"@[1] == 'u',
        "bucket_sort"@.len() == 11 && "bucket_sort"@[0] == 'b' && "bucket_sort"@[1] == 'u',
        "buckets"@.len() == 7 && "buckets"@[0] == 'b' && "buckets"@[1] == 'u',
        "buckets_path"@.len() == 12 && "buckets_path"@[0] == 'b' && "buckets_path"@[1] == 'u',
        "calendar_interval"@.len() == 17 && "calendar_interval"@[0] == 'c' && "calendar_interval"@[1] == 'a',
        "cardinality"@.len() == 11 && "cardinality"@[0] == 'c' && "cardinality"@[1] == 'a',
        "date_histogram"@.len() == 14 && "date_histogram"@[0] == 'd' && "date_histogram"@[1] == 'a',
        "date_range"@.len() == 10 && "date_range"@[0] == 'd' && "date_range"@[1] == 'a',
        "day"@.len() == 3 && "day"@[0] == 'd' && "day"@[1] == 'a',
        "extended_stats"@.len() == 14 && "extended_stats"@[0] == 'e' && "extended_stats"@[1] == 'x',
        "field"@.len() == 5 && "field"@[0] == 'f' && "field"@[1] == 'i',
        "filter"@.len() == 6 && "filter"@[0] == 'f' && "filter"@[1] == 'i',
        "filter_duplicate_text"@.len() == 21 && "filter_duplicate_text"@[0] == 'f' && "filter_duplicate_text"@[1] == 'i',
        "fixed_interval"@.len() == 14 && "fixed_interval"@[0] == 'f' && "fixed_interval"@[1] == 'i',
        "format"@.len() == 6 && "format"@[0] == 'f' && "format"@[1] == 'o',
        "from"@.len() == 4 && "from"@[0] == 'f' && "from"@[1] == 'r',
        "gap_policy"@.len() == 10 && "gap_policy"@[0] == 'g' && "gap_policy"@[1] == 'a',
        "hour"@.len() == 4 && "hour"@[0] == 'h' && "hour"@[1] == 'o',
        "insert_zeros"@.len() == 12 && "insert_zeros"@[0] == 'i' && "insert_zeros"@[1] == 'n',
        "max"@.len() == 3 && "max"@[0] == 'm' && "max"@[1] == 'a',
        "median_absolute_deviation"@.len() == 25 && "median_absolute_deviation"@[0] == 'm' && "median_absolute_deviation"@[1] == 'e',
        "meta"@.len() == 4 && "meta"@[0] == 'm' && "meta"@[1] == 'e',
        "min"@.len() == 3 && "min"@[0] == 'm' && "min"@[1] == 'i',
        "minimum_interval"@.len() == 16 && "minimum_interval"@[0] == 'm' && "minimum_interval"@[1] == 'i',
        "minute"@.len() == 6 && "minute"@[0] == 'm' && "minute"@[1] == 'i',
        "missing"@.len() == 7 && "missing"@[0] == 'm' && "missing"@[1] == 'i',
        "month"@.len() == 5 && "month"@[0] == 'm' && "month"@[1] == 'o',
        "nested"@.len() == 6 && "nested"@[0] == 'n' && "nested"@[1] == 'e',
        "offset"@.len() == 6 && "offset"@[0] == 'o' && "offset"@[1] == 'f',
        "path"@.len() == 4 && "path"@[0] == 'p' && "path"@[1] == 'a',
        "percentile_ranks"@.len() == 16 && "percentile_ranks"@[0] == 'p' && "percentile_ranks"@[1] == 'e',
        "percentiles"@.len() == 11 && "percentiles"@[0] == 'p' && "percentiles"@[1] == 'e',
        "quarter"@.len() == 7 && "quarter"@[0] == 'q' && "quarter"@[1] == 'u',
        "ranges"@.len() == 6 && "ranges"@[0] == 'r' && "ranges"@[1] == 'a',
        "reverse_nested"@.len() == 14 && "reverse_nested"@[0] == 'r' && "reverse_nested"@[1] == 'e',
        "sampler"@.len() == 7 && "sampler"@[0] == 's' && "sampler"@[1] == 'a',
        "script"@.len() == 6 && "script"@[0] == 's' && "script"@[1] == 'c',
        "second"@.len() == 6 && "second"@[0] == 's' && "second"@[1] == 'e',
        "shard_size"@.len() == 10 && "shard_size"@[0] == 's' && "shard_size"@[1] == 'h',
        "significant_text"@.len() == 16 && "significant_text"@[0] == 's' && "significant_text"@[1] == 'i',
        "size"@.len() == 4 && "size"@[0] == 's' && "size"@[1] == 'i',
        "skip"@.len() == 4 && "skip"@[0] == 's' && "skip"@[1] == 'k',
        "sort"@.len() == 4 && "sort"@[0] == 's' && "sort"@[1] == 'o',
        "stats"@.len() == 5 && "stats"@[0] == 's' && "stats"@[1] == 't',
        "sum"@.len() == 3 && "sum"@[0] == 's' && "sum"@[1] == 'u',
        "terms"@.len() == 5 && "terms"@[0] == 't' && "terms"@[1] == 'e',
        "time_zone"@.len() == 9 && "time_zone"@[0] == 't' && "time_zone"@[1] == 'i',
        "to"@.len() == 2 && "to"@[0] == 't' && "to"@[1] == 'o',
        "value_count"@.len() == 11 && "value_count"@[0] == 'v' && "value_count"@[1] == 'a',
        "variable_width_histogram"@.len() == 24 && "variable_width_histogram"@[0] == 'v' && "variable_width_histogram"@[1] == 'a',
        "week"@.len() == 4 && "week"@[0] == 'w' && "week"@[1] == 'e',
        "year"@.len() == 4 && "year"@[0] == 'y' && "year"@[1] == 'e',
        "bounds"@.len() == 6 && "bounds"@[0] == 'b' && "bounds"@[1] == 'o',
        "extended_bounds"@.len() == 15 && "extended_bounds"@[0] == 'e' && "extended_bounds"@[1] == 'x',
        "hard_bounds"@.len() == 11 && "hard_bounds"@[0] == 'h' && "hard_bounds"@[1] == 'a',
        "histogram"@.len() == 9 && "histogram"@[0] == 'h' && "histogram"@[1] == 'i',
        "interval"@.len() == 8 && "interval"@[0] == 'i' && "interval"@[1] == 'n',
        "metric"@.len() == 6 && "metric"@[0] == 'm' && "metric"@[1] == 'e',
        "min_doc_count"@.len() == 13 && "min_doc_count"@[0] == 'm' && "min_doc_count"@[1] == 'i',
        "range"@.len() == 5 && "range"@[0] == 'r' && "range"@[1] == 'a',
        "value"@.len() == 5 && "value"@[0] == 'v' && "value"@[1] == 'a',
        "value_type"@.len() == 10 && "value_type"@[0] == 'v' && "value_type"@[1] == 'a',
        "weight"@.len() == 6 && "weight"@[0] == 'w' && "weight"@[1] == 'e',
        "weighted_avg"@.len() == 12 && "weighted_avg"@[0] == 'w' && "weighted_avg"@[1] == 'e',
{
    reveal_strlit("bounds");
    reveal_strlit("extended_bounds");
    reveal_strlit("hard_bounds");
    reveal_strlit("histogram");
    reveal_strlit("interval");
    reveal_strlit("metric");
    reveal_strlit("min_doc_count");
    reveal_strlit("range");
    reveal_strlit("value");
    reveal_strlit("value_type");
    reveal_strlit("weight");
    reveal_strlit("weighted_avg");
    reveal_strlit("aggs");
    reveal_strlit("auto_date_histogram");
    reveal_strlit("avg");
    reveal_strlit("bucket_script");
    reveal_strlit("bucket_selector");
    reveal_strlit("bucket_sort");
    reveal_strlit("buckets");
    reveal_strlit("buckets_path");
    reveal_strlit("calendar_interval");
    reveal_strlit("cardinality");
    reveal_strlit("date_histogram");
    reveal_strlit("date_range");
    reveal_strlit("day");
    reveal_strlit("extended_stats");
    reveal_strlit("field");
    reveal_strlit("filter");
    reveal_strlit("filter_duplicate_text");
    reveal_strlit("fixed_interval");
    reveal_strlit("format");
    reveal_strlit("from");
    reveal_strlit("gap_policy");
    reveal_strlit("hour");
    reveal_strlit("insert_zeros");
    reveal_strlit("max");
    reveal_strlit("median_absolute_deviation");
    reveal_strlit("meta");
    reveal_strlit("min");
    reveal_strlit("minimum_interval");
    reveal_strlit("minute");
    reveal_strlit("missing");
    reveal_strlit("month");
    reveal_strlit("nested");
    reveal_strlit("offset");
    reveal_strlit("path");
    reveal_strlit("percentile_ranks");
    reveal_strlit("percentiles");
    reveal_strlit("quarter");
    reveal_strlit("ranges");
    reveal_strlit("reverse_nested");
    reveal_strlit("sampler");
    reveal_strlit("script");
    reveal_strlit("second");
    reveal_strlit("shard_size");
    reveal_strlit("significant_text");
    reveal_strlit("size");
    reveal_strlit("skip");
    reveal_strlit("sort");
    reveal_strlit("stats");
    reveal_strlit("sum");
    reveal_strlit("terms");
    reveal_strlit("time_zone");
    reveal_strlit("to");
    reveal_strlit("value_count");
    reveal_strlit("variable_width_histogram");
    reveal_strlit("week");
    reveal_strlit("year");
}

pub proof fn lemma_gap_policy_name(e: GapPolicy)
    ensures
        gap_policy_of(gap_policy_name(e)) == Some(e),
{
    lemma_agg_keys();
}

pub proof fn lemma_gap_policy_member(name: Seq<char>, v: Option<GapPolicy>, key: Seq<char>)
    ensures
        lookup(gap_policy_member(name, v), key) == if name == key && v is Some {
            Some(JsonValue::Str(gap_policy_name(v->0)))
        } else {
            None::<JsonValue>
        },
{
    if v is Some {
        lemma_lookup_one(name, JsonValue::Str(gap_policy_name(v->0)), key);
    }
}

pub proof fn lemma_calendar_interval_name(e: CalendarInterval)
    ensures
        calendar_interval_of(calendar_interval_name(e)) == Some(e),
{
    lemma_agg_keys();
}

pub proof fn lemma_calendar_interval_member(name: Seq<char>, v: Option<CalendarInterval>, key: Seq<char>)
    ensures
        lookup(calendar_interval_member(name, v), key) == if name == key && v is Some {
            Some(JsonValue::Str(calendar_interval_name(v->0)))
        } else {
            None::<JsonValue>
        },
{
    if v is Some {
        lemma_lookup_one(name, JsonValue::Str(calendar_interval_name(v->0)), key);
    }
}

pub proof fn lemma_minimum_interval_name(e: MinimumInterval)
    ensures
        minimum_interval_of(minimum_interval_name(e)) == Some(e),
{
    lemma_agg_keys();
}

pub proof fn lemma_minimum_interval_member(name: Seq<char>, v: Option<MinimumInterval>, key: Seq<char>)
    ensures
        lookup(minimum_interval_member(name, v), key) == if name == key && v is Some {
            Some(JsonValue::Str(minimum_interval_name(v->0)))
        } else {
            None::<JsonValue>
        },
{
    if v is Some {
        lemma_lookup_one(name, JsonValue::Str(minimum_interval_name(v->0)), key);
    }
}

pub proof fn lemma_metric_key(m: MetricKind)
    ensures
        metric_of(metric_key(m)) == Some(m),
{
    lemma_agg_keys();
}

pub open spec fn date_histogram_aggregation_wf(v: DateHistogramAggregationView) -> bool {
    true
}

/// Decoding an encoded `date_histogram` body gives it back.
pub proof fn lemma_date_histogram_aggregation_round_trip(v: DateHistogramAggregationView)
    requires
        date_histogram_aggregation_wf(v),
    ensures
        date_histogram_aggregation_from(date_histogram_aggregation_members(v)) == Ok::<DateHistogramAggregationView, DecodeErrorView>(v),
{
    lemma_agg_keys();
    let m0 = seq![("field"@, JsonValue::Str(v.field))];
    let m1 = calendar_interval_member("calendar_interval"@, v.calendar_interval);
    let m2 = opt_str_member("fixed_interval"@, v.fixed_interval);
    let m3 = opt_str_member("time_zone"@, v.time_zone);
    let m4 = opt_str_member("offset"@, v.offset);
    let m5 = opt_str_member("format"@, v.format);
    let m6 = opt_str_member("missing"@, v.missing);
    lemma_lookup_one("field"@, JsonValue::Str(v.field), "field"@);
    lemma_calendar_interval_member("calendar_interval"@, v.calendar_interval, "field"@);
    lemma_opt_str_member("fixed_interval"@, v.fixed_interval, "field"@);
    lemma_opt_str_member("time_zone"@, v.time_zone, "field"@);
    lemma_opt_str_member("offset"@, v.offset, "field"@);
    lemma_opt_str_member("format"@, v.format, "field"@);
    lemma_opt_str_member("missing"@, v.missing, "field"@);
    lemma_lookup_concat(m0, m1, "field"@);
    lemma_lookup_concat(m0 + m1, m2, "field"@);
    lemma_lookup_concat(m0 + m1 + m2, m3, "field"@);
    lemma_lookup_concat(m0 + m1 + m2 + m3, m4, "field"@);
    lemma_lookup_concat(m0 + m1 + m2 + m3 + m4, m5, "field"@);
    lemma_lookup_concat(m0 + m1 + m2 + m3 + m4 + m5, m6, "field"@);
    lemma_lookup_one("field"@, JsonValue::Str(v.field), "calendar_interval"@);
    lemma_calendar_interval_member("calendar_interval"@, v.calendar_interval, "calendar_interval"@);
    lemma_opt_str_member("fixed_interval"@, v.fixed_interval, "calendar_interval"@);
    lemma_opt_str_member("time_zone"@, v.time_zone, "calendar_interval"@);
    lemma_opt_str_member("offset"@, v.offset, "calendar_interval"@);
    lemma_opt_str_member("format"@, v.format, "calendar_interval"@);
    lemma_opt_str_member("missing"@, v.missing, "calendar_interval"@);
    lemma_lookup_concat(m0, m1, "calendar_interval"@);
    lemma_lookup_concat(m0 + m1, m2, "calendar_interval"@);
    lemma_lookup_concat(m0 + m1 + m2, m3, "calendar_interval"@);
    lemma_lookup_concat(m0 + m1 + m2 + m3, m4, "calendar_interval"@);
    lemma_lookup_concat(m0 + m1 + m2 + m3 + m4, m5, "calendar_interval"@);
    lemma_lookup_concat(m0 + m1 + m2 + m3 + m4 + m5, m6, "calendar_interval"@);
    if v.calendar_interval is Some { lemma_calendar_interval_name(v.calendar_interval->0); }
    lemma_lookup_one("field"@, JsonValue::Str(v.field), "fixed_interval"@);
    lemma_calendar_interval_member("calendar_interval"@, v.calendar_interval, "fixed_interval"@);
    lemma_opt_str_member("fixed_interval"@, v.fixed_interval, "fixed_interval"@);
    lemma_opt_str_member("time_zone"@, v.time_zone, "fixed_interval"@);
    lemma_opt_str_member("offset"@, v.offset, "fixed_interval"@);
    lemma_opt_str_member("format"@, v.format, "fixed_interval"@);
    lemma_opt_str_member("missing"@, v.missing, "fixed_interval"@);
    lemma_lookup_concat(m0, m1, "fixed_interval"@);
    lemma_lookup_concat(m0 + m1, m2, "fixed_interval"@);
    lemma_lookup_concat(m0 + m1 + m2, m3, "fixed_interval"@);
    lemma_lookup_concat(m0 + m1 + m2 + m3, m4, "fixed_interval"@);
    lemma_lookup_concat(m0 + m1 + m2 + m3 + m4, m5, "fixed_interval"@);
    lemma_lookup_concat(m0 + m1 + m2 + m3 + m4 + m5, m6, "fixed_interval"@);
    lemma_lookup_one("field"@, JsonValue::Str(v.field), "time_zone"@);
    lemma_calendar_interval_member("calendar_interval"@, v.calendar_interval, "time_zone"@);
    lemma_opt_str_member("fixed_interval"@, v.fixed_interval, "time_zone"@);
    lemma_opt_str_member("time_zone"@, v.time_zone, "time_zone"@);
    lemma_opt_str_member("offset"@, v.offset, "time_zone"@);
    lemma_opt_str_member("format"@, v.format, "time_zone"@);
    lemma_opt_str_member("missing"@, v.missing, "time_zone"@);
    lemma_lookup_concat(m0, m1, "time_zone"@);
    lemma_lookup_concat(m0 + m1, m2, "time_zone"@);
    lemma_lookup_concat(m0 + m1 + m2, m3, "time_zone"@);
    lemma_lookup_concat(m0 + m1 + m2 + m3, m4, "time_zone"@);
    lemma_lookup_concat(m0 + m1 + m2 + m3 + m4, m5, "time_zone"@);
    lemma_lookup_concat(m0 + m1 + m2 + m3 + m4 + m5, m6, "time_zone"@);
    lemma_lookup_one("field"@, JsonValue::Str(v.field), "offset"@);
    lemma_calendar_interval_member("calendar_interval"@, v.calendar_interval, "offset"@);
    lemma_opt_str_member("fixed_interval"@, v.fixed_interval, "offset"@);
    lemma_opt_str_member("time_zone"@, v.time_zone, "offset"@);
    lemma_opt_str_member("offset"@, v.offset, "offset"@);
    lemma_opt_str_member("format"@, v.format, "offset"@);
    lemma_opt_str_member("missing"@, v.missing, "offset"@);
    lemma_lookup_concat(m0, m1, "offset"@);
    lemma_lookup_concat(m0 + m1, m2, "offset"@);
    lemma_lookup_concat(m0 + m1 + m2, m3, "offset"@);
    lemma_lookup_concat(m0 + m1 + m2 + m3, m4, "offset"@);
    lemma_lookup_concat(m0 + m1 + m2 + m3 + m4, m5, "offset"@);
    lemma_lookup_concat(m0 + m1 + m2 + m3 + m4 + m5, m6, "offset"@);
    lemma_lookup_one("field"@, JsonValue::Str(v.field), "format"@);
    lemma_calendar_interval_member("calendar_interval"@, v.calendar_interval, "format"@);
    lemma_opt_str_member("fixed_interval"@, v.fixed_interval, "format"@);
    lemma_opt_str_member("time_zone"@, v.time_zone, "format"@);
    lemma_opt_str_member("offset"@, v.offset, "format"@);
    lemma_opt_str_member("format"@, v.format, "format"@);
    lemma_opt_str_member("missing"@, v.missing, "format"@);
    lemma_lookup_concat(m0, m1, "format"@);
    lemma_lookup_concat(m0 + m1, m2, "format"@);
    lemma_lookup_concat(m0 + m1 + m2, m3, "format"@);
    lemma_lookup_concat(m0 + m1 + m2 + m3, m4, "format"@);
    lemma_lookup_concat(m0 + m1 + m2 + m3 + m4, m5, "format"@);
    lemma_lookup_concat(m0 + m1 + m2 + m3 + m4 + m5, m6, "format"@);
    lemma_lookup_one("field"@, JsonValue::Str(v.field), "missing"@);
    lemma_calendar_interval_member("calendar_interval"@, v.calendar_interval, "missing"@);
    lemma_opt_str_member("fixed_interval"@, v.fixed_interval, "missing"@);
    lemma_opt_str_member("time_zone"@, v.time_zone, "missing"@);
    lemma_opt_str_member("offset"@, v.offset, "missing"@);
    lemma_opt_str_member("format"@, v.format, "missing"@);
    lemma_opt_str_member("missing"@, v.missing, "missing"@);
    lemma_lookup_concat(m0, m1, "missing"@);
    lemma_lookup_concat(m0 + m1, m2, "missing"@);
    lemma_lookup_concat(m0 + m1 + m2, m3, "missing"@);
    lemma_lookup_concat(m0 + m1 + m2 + m3, m4, "missing"@);
    lemma_lookup_concat(m0 + m1 + m2 + m3 + m4, m5, "missing"@);
    lemma_lookup_concat(m0 + m1 + m2 + m3 + m4 + m5, m6, "missing"@);
    assert(date_histogram_aggregation_members(v) =~= m0 + m1 + m2 + m3 + m4 + m5 + m6);
}

pub open spec fn auto_date_histogram_aggregation_wf(v: AutoDateHistogramAggregationView) -> bool {
    true
}

/// Decoding an encoded `auto_date_histogram` body gives it back.
pub proof fn lemma_auto_date_histogram_aggregation_round_trip(v: AutoDateHistogramAggregationView)
    requires
        auto_date_histogram_aggregation_wf(v),
    ensures
        auto_date_histogram_aggregation_from(auto_date_histogram_aggregation_members(v)) == Ok::<AutoDateHistogramAggregationView, DecodeErrorView>(v),
{
    lemma_agg_keys();
    let m0 = seq![("field"@, JsonValue::Str(v.field))];
    let m1 = opt_num_member("buckets"@, v.buckets);
    let m2 = minimum_interval_member("minimum_interval"@, v.minimum_interval);
    let m3 = opt_str_member("format"@, v.format);
    let m4 = opt_str_member("missing"@, v.missing);
    let m5 = opt_str_member("time_zone"@, v.time_zone);
    lemma_lookup_one("field"@, JsonValue::Str(v.field), "field"@);
    lemma_opt_num_member("buckets"@, v.buckets, "field"@);
    lemma_minimum_interval_member("minimum_interval"@, v.minimum_interval, "field"@);
    lemma_opt_str_member("format"@, v.format, "field"@);
    lemma_opt_str_member("missing"@, v.missing, "field"@);
    lemma_opt_str_member("time_zone"@, v.time_zone, "field"@);
    lemma_lookup_concat(m0, m1, "field"@);
    lemma_lookup_concat(m0 + m1, m2, "field"@);
    lemma_lookup_concat(m0 + m1 + m2, m3, "field"@);
    lemma_lookup_concat(m0 + m1 + m2 + m3, m4, "field"@);
    lemma_lookup_concat(m0 + m1 + m2 + m3 + m4, m5, "field"@);
    lemma_lookup_one("field"@, JsonValue::Str(v.field), "buckets"@);
    lemma_opt_num_member("buckets"@, v.buckets, "buckets"@);
    lemma_minimum_interval_member("minimum_interval"@, v.minimum_interval, "buckets"@);
    lemma_opt_str_member("format"@, v.format, "buckets"@);
    lemma_opt_str_member("missing"@, v.missing, "buckets"@);
    lemma_opt_str_member("time_zone"@, v.time_zone, "buckets"@);
    lemma_lookup_concat(m0, m1, "buckets"@);
    lemma_lookup_concat(m0 + m1, m2, "buckets"@);
    lemma_lookup_concat(m0 + m1 + m2, m3, "buckets"@);
    lemma_lookup_concat(m0 + m1 + m2 + m3, m4, "buckets"@);
    lemma_lookup_concat(m0 + m1 + m2 + m3 + m4, m5, "buckets"@);
    lemma_lookup_one("field"@, JsonValue::Str(v.field), "minimum_interval"@);
    lemma_opt_num_member("buckets"@, v.buckets, "minimum_interval"@);
    lemma_minimum_interval_member("minimum_interval"@, v.minimum_interval, "minimum_interval"@);
    lemma_opt_str_member("format"@, v.format, "minimum_interval"@);
    lemma_opt_str_member("missing"@, v.missing, "minimum_interval"@);
    lemma_opt_str_member("time_zone"@, v.time_zone, "minimum_interval"@);
    lemma_lookup_concat(m0, m1, "minimum_interval"@);
    lemma_lookup_concat(m0 + m1, m2, "minimum_interval"@);
    lemma_lookup_concat(m0 + m1 + m2, m3, "minimum_interval"@);
    lemma_lookup_concat(m0 + m1 + m2 + m3, m4, "minimum_interval"@);
    lemma_lookup_concat(m0 + m1 + m2 + m3 + m4, m5, "minimum_interval"@);
    if v.minimum_interval is Some { lemma_minimum_interval_name(v.minimum_interval->0); }
    lemma_lookup_one("field"@, JsonValue::Str(v.field), "format"@);
    lemma_opt_num_member("buckets"@, v.buckets, "format"@);
    lemma_minimum_interval_member("minimum_interval"@, v.minimum_interval, "format"@);
    lemma_opt_str_member("format"@, v.format, "format"@);
    lemma_opt_str_member("missing"@, v.missing, "format"@);
    lemma_opt_str_member("time_zone"@, v.time_zone, "format"@);
    lemma_lookup_concat(m0, m1, "format"@);
    lemma_lookup_concat(m0 + m1, m2, "format"@);
    lemma_lookup_concat(m0 + m1 + m2, m3, "format"@);
    lemma_lookup_concat(m0 + m1 + m2 + m3, m4, "format"@);
    lemma_lookup_concat(m0 + m1 + m2 + m3 + m4, m5, "format"@);
    lemma_lookup_one("field"@, JsonValue::Str(v.field), "missing"@);
    lemma_opt_num_member("buckets"@, v.buckets, "missing"@);
    lemma_minimum_interval_member("minimum_interval"@, v.minimum_interval, "missing"@);
    lemma_opt_str_member("format"@, v.format, "missing"@);
    lemma_opt_str_member("missing"@, v.missing, "missing"@);
    lemma_opt_str_member("time_zone"@, v.time_zone, "missing"@);
    lemma_lookup_concat(m0, m1, "missing"@);
    lemma_lookup_concat(m0 + m1, m2, "missing"@);
    lemma_lookup_concat(m0 + m1 + m2, m3, "missing"@);
    lemma_lookup_concat(m0 + m1 + m2 + m3, m4, "missing"@);
    lemma_lookup_concat(m0 + m1 + m2 + m3 + m4, m5, "missing"@);
    lemma_lookup_one("field"@, JsonValue::Str(v.field), "time_zone"@);
    lemma_opt_num_member("buckets"@, v.buckets, "time_zone"@);
    lemma_minimum_interval_member("minimum_interval"@, v.minimum_interval, "time_zone"@);
    lemma_opt_str_member("format"@, v.format, "time_zone"@);
    lemma_opt_str_member("missing"@, v.missing, "time_zone"@);
    lemma_opt_str_member("time_zone"@, v.time_zone, "time_zone"@);
    lemma_lookup_concat(m0, m1, "time_zone"@);
    lemma_lookup_concat(m0 + m1, m2, "time_zone"@);
    lemma_lookup_concat(m0 + m1 + m2, m3, "time_zone"@);
    lemma_lookup_concat(m0 + m1 + m2 + m3, m4, "time_zone"@);
    lemma_lookup_concat(m0 + m1 + m2 + m3 + m4, m5, "time_zone"@);
    assert(auto_date_histogram_aggregation_members(v) =~= m0 + m1 + m2 + m3 + m4 + m5);
}

pub open spec fn date_range_aggregation_wf(v: DateRangeAggregationView) -> bool {
    true
}

/// Decoding an encoded `date_range` body gives it back.
pub proof fn lemma_date_range_aggregation_round_trip(v: DateRangeAggregationView)
    requires
        date_range_aggregation_wf(v),
    ensures
        date_range_aggregation_from(date_range_aggregation_members(v)) == Ok::<DateRangeAggregationView, DecodeErrorView>(v),
{
    lemma_agg_keys();
    let m0 = seq![("field"@, JsonValue::Str(v.field))];
    let m1 = opt_str_member("time_zone"@, v.time_zone);
    let m2 = opt_str_member("format"@, v.format);
    let m3 = opt_str_member("missing"@, v.missing);
    let m4 = ranges_member("ranges"@, v.ranges);
    lemma_lookup_one("field"@, JsonValue::Str(v.field), "field"@);
    lemma_opt_str_member("time_zone"@, v.time_zone, "field"@);
    lemma_opt_str_member("format"@, v.format, "field"@);
    lemma_opt_str_member("missing"@, v.missing, "field"@);
    lemma_ranges_member("ranges"@, v.ranges, "field"@);
    lemma_lookup_concat(m0, m1, "field"@);
    lemma_lookup_concat(m0 + m1, m2, "field"@);
    lemma_lookup_concat(m0 + m1 + m2, m3, "field"@);
    lemma_lookup_concat(m0 + m1 + m2 + m3, m4, "field"@);
    lemma_lookup_one("field"@, JsonValue::Str(v.field), "time_zone"@);
    lemma_opt_str_member("time_zone"@, v.time_zone, "time_zone"@);
    lemma_opt_str_member("format"@, v.format, "time_zone"@);
    lemma_opt_str_member("missing"@, v.missing, "time_zone"@);
    lemma_ranges_member("ranges"@, v.ranges, "time_zone"@);
    lemma_lookup_concat(m0, m1, "time_zone"@);
    lemma_lookup_concat(m0 + m1, m2, "time_zone"@);
    lemma_lookup_concat(m0 + m1 + m2, m3, "time_zone"@);
    lemma_lookup_concat(m0 + m1 + m2 + m3, m4, "time_zone"@);
    lemma_lookup_one("field"@, JsonValue::Str(v.field), "format"@);
    lemma_opt_str_member("time_zone"@, v.time_zone, "format"@);
    lemma_opt_str_member("format"@, v.format, "format"@);
    lemma_opt_str_member("missing"@, v.missing, "format"@);
    lemma_ranges_member("ranges"@, v.ranges, "format"@);
    lemma_lookup_concat(m0, m1, "format"@);
    lemma_lookup_concat(m0 + m1, m2, "format"@);
    lemma_lookup_concat(m0 + m1 + m2, m3, "format"@);
    lemma_lookup_concat(m0 + m1 + m2 + m3, m4, "format"@);
    lemma_lookup_one("field"@, JsonValue::Str(v.field), "missing"@);
    lemma_opt_str_member("time_zone"@, v.time_zone, "missing"@);
    lemma_opt_str_member("format"@, v.format, "missing"@);
    lemma_opt_str_member("missing"@, v.missing, "missing"@);
    lemma_ranges_member("ranges"@, v.ranges, "missing"@);
    lemma_lookup_concat(m0, m1, "missing"@);
    lemma_lookup_concat(m0 + m1, m2, "missing"@);
    lemma_lookup_concat(m0 + m1 + m2, m3, "missing"@);
    lemma_lookup_concat(m0 + m1 + m2 + m3, m4, "missing"@);
    lemma_lookup_one("field"@, JsonValue::Str(v.field), "ranges"@);
    lemma_opt_str_member("time_zone"@, v.time_zone, "ranges"@);
    lemma_opt_str_member("format"@, v.format, "ranges"@);
    lemma_opt_str_member("missing"@, v.missing, "ranges"@);
    lemma_ranges_member("ranges"@, v.ranges, "ranges"@);
    lemma_lookup_concat(m0, m1, "ranges"@);
    lemma_lookup_concat(m0 + m1, m2, "ranges"@);
    lemma_lookup_concat(m0 + m1 + m2, m3, "ranges"@);
    lemma_lookup_concat(m0 + m1 + m2 + m3, m4, "ranges"@);
    lemma_ranges_slot(m0 + m1 + m2 + m3 + m4, "ranges"@, "date_range"@, v.ranges);
    assert(date_range_aggregation_members(v) =~= m0 + m1 + m2 + m3 + m4);
}

pub open spec fn variable_width_histogram_wf(v: VariableWidthHistogramView) -> bool {
    true
}

/// Decoding an encoded `variable_width_histogram` body gives it back.
pub proof fn lemma_variable_width_histogram_round_trip(v: VariableWidthHistogramView)
    requires
        variable_width_histogram_wf(v),
    ensures
        variable_width_histogram_from(variable_width_histogram_members(v)) == Ok::<VariableWidthHistogramView, DecodeErrorView>(v),
{
    lemma_agg_keys();
    let m0 = seq![("field"@, JsonValue::Str(v.field))];
    let m1 = seq![("buckets"@, JsonValue::Number(v.buckets))];
    lemma_lookup_one("field"@, JsonValue::Str(v.field), "field"@);
    lemma_lookup_one("buckets"@, JsonValue::Number(v.buckets), "field"@);
    lemma_lookup_concat(m0, m1, "field"@);
    lemma_lookup_one("field"@, JsonValue::Str(v.field), "buckets"@);
    lemma_lookup_one("buckets"@, JsonValue::Number(v.buckets), "buckets"@);
    lemma_lookup_concat(m0, m1, "buckets"@);
    assert(variable_width_histogram_members(v) =~= m0 + m1);
}

pub open spec fn bucket_script_wf(v: BucketScriptView) -> bool {
    (v.buckets_path is None || v.buckets_path->0 is Object)
}

/// Decoding an encoded `bucket_script` body gives it back.
pub proof fn lemma_bucket_script_round_trip(v: BucketScriptView)
    requires
        bucket_script_wf(v),
    ensures
        bucket_script_from(bucket_script_members(v)) == Ok::<BucketScriptView, DecodeErrorView>(v),
{
    lemma_agg_keys();
    let m0 = seq![("script"@, JsonValue::Str(v.script))];
    let m1 = opt_json_member("buckets_path"@, v.buckets_path);
    let m2 = gap_policy_member("gap_policy"@, v.gap_policy);
    let m3 = opt_str_member("format"@, v.format);
    lemma_lookup_one("script"@, JsonValue::Str(v.script), "script"@);
    lemma_opt_json_member("buckets_path"@, v.buckets_path, "script"@);
    lemma_gap_policy_member("gap_policy"@, v.gap_policy, "script"@);
    lemma_opt_str_member("format"@, v.format, "script"@);
    lemma_lookup_concat(m0, m1, "script"@);
    lemma_lookup_concat(m0 + m1, m2, "script"@);
    lemma_lookup_concat(m0 + m1 + m2, m3, "script"@);
    lemma_lookup_one("script"@, JsonValue::Str(v.script), "buckets_path"@);
    lemma_opt_json_member("buckets_path"@, v.buckets_path, "buckets_path"@);
    lemma_gap_policy_member("gap_policy"@, v.gap_policy, "buckets_path"@);
    lemma_opt_str_member("format"@, v.format, "buckets_path"@);
    lemma_lookup_concat(m0, m1, "buckets_path"@);
    lemma_lookup_concat(m0 + m1, m2, "buckets_path"@);
    lemma_lookup_concat(m0 + m1 + m2, m3, "buckets_path"@);
    lemma_lookup_one("script"@, JsonValue::Str(v.script), "gap_policy"@);
    lemma_opt_json_member("buckets_path"@, v.buckets_path, "gap_policy"@);
    lemma_gap_policy_member("gap_policy"@, v.gap_policy, "gap_policy"@);
    lemma_opt_str_member("format"@, v.format, "gap_policy"@);
    lemma_lookup_concat(m0, m1, "gap_policy"@);
    lemma_lookup_concat(m0 + m1, m2, "gap_policy"@);
    lemma_lookup_concat(m0 + m1 + m2, m3, "gap_policy"@);
    if v.gap_policy is Some { lemma_gap_policy_name(v.gap_policy->0); }
    lemma_lookup_one("script"@, JsonValue::Str(v.script), "format"@);
    lemma_opt_json_member("buckets_path"@, v.buckets_path, "format"@);
    lemma_gap_policy_member("gap_policy"@, v.gap_policy, "format"@);
    lemma_opt_str_member("format"@, v.format, "format"@);
    lemma_lookup_concat(m0, m1, "format"@);
    lemma_lookup_concat(m0 + m1, m2, "format"@);
    lemma_lookup_concat(m0 + m1 + m2, m3, "format"@);
    assert(bucket_script_members(v) =~= m0 + m1 + m2 + m3);
}

pub open spec fn bucket_selector_wf(v: BucketSelectorView) -> bool {
    v.buckets_path is Object
}

/// Decoding an encoded `bucket_selector` body gives it back.
pub proof fn lemma_bucket_selector_round_trip(v: BucketSelectorView)
    requires
        bucket_selector_wf(v),
    ensures
        bucket_selector_from(bucket_selector_members(v)) == Ok::<BucketSelectorView, DecodeErrorView>(v),
{
    lemma_agg_keys();
    let m0 = seq![("script"@, JsonValue::Str(v.script))];
    let m1 = seq![("buckets_path"@, v.buckets_path)];
    let m2 = gap_policy_member("gap_policy"@, v.gap_policy);
    lemma_lookup_one("script"@, JsonValue::Str(v.script), "script"@);
    lemma_lookup_one("buckets_path"@, v.buckets_path, "script"@);
    lemma_gap_policy_member("gap_policy"@, v.gap_policy, "script"@);
    lemma_lookup_concat(m0, m1, "script"@);
    lemma_lookup_concat(m0 + m1, m2, "script"@);
    lemma_lookup_one("script"@, JsonValue::Str(v.script), "buckets_path"@);
    lemma_lookup_one("buckets_path"@, v.buckets_path, "buckets_path"@);
    lemma_gap_policy_member("gap_policy"@, v.gap_policy, "buckets_path"@);
    lemma_lookup_concat(m0, m1, "buckets_path"@);
    lemma_lookup_concat(m0 + m1, m2, "buckets_path"@);
    lemma_lookup_one("script"@, JsonValue::Str(v.script), "gap_policy"@);
    lemma_lookup_one("buckets_path"@, v.buckets_path, "gap_policy"@);
    lemma_gap_policy_member("gap_policy"@, v.gap_policy, "gap_policy"@);
    lemma_lookup_concat(m0, m1, "gap_policy"@);
    lemma_lookup_concat(m0 + m1, m2, "gap_policy"@);
    if v.gap_policy is Some { lemma_gap_policy_name(v.gap_policy->0); }
    assert(bucket_selector_members(v) =~= m0 + m1 + m2);
}

pub open spec fn bucket_sort_wf(v: BucketSortView) -> bool {
    true
}

/// Decoding an encoded `bucket_sort` body gives it back.
pub proof fn lemma_bucket_sort_round_trip(v: BucketSortView)
    requires
        bucket_sort_wf(v),
    ensures
        bucket_sort_from(bucket_sort_members(v)) == Ok::<BucketSortView, DecodeErrorView>(v),
{
    lemma_agg_keys();
    let m0 = sorts_member("sort"@, v.sort);
    let m1 = opt_num_member("from"@, v.from);
    let m2 = opt_num_member("size"@, v.size);
    let m3 = gap_policy_member("gap_policy"@, v.gap_policy);
    lemma_sorts_member("sort"@, v.sort, "sort"@);
    lemma_opt_num_member("from"@, v.from, "sort"@);
    lemma_opt_num_member("size"@, v.size, "sort"@);
    lemma_gap_policy_member("gap_policy"@, v.gap_policy, "sort"@);
    lemma_lookup_concat(m0, m1, "sort"@);
    lemma_lookup_concat(m0 + m1, m2, "sort"@);
    lemma_lookup_concat(m0 + m1 + m2, m3, "sort"@);
    lemma_sorts_slot(m0 + m1 + m2 + m3, "sort"@, "bucket_sort"@, v.sort);
    lemma_sorts_member("sort"@, v.sort, "from"@);
    lemma_opt_num_member("from"@, v.from, "from"@);
    lemma_opt_num_member("size"@, v.size, "from"@);
    lemma_gap_policy_member("gap_policy"@, v.gap_policy, "from"@);
    lemma_lookup_concat(m0, m1, "from"@);
    lemma_lookup_concat(m0 + m1, m2, "from"@);
    lemma_lookup_concat(m0 + m1 + m2, m3, "from"@);
    lemma_sorts_member("sort"@, v.sort, "size"@);
    lemma_opt_num_member("from"@, v.from, "size"@);
    lemma_opt_num_member("size"@, v.size, "size"@);
    lemma_gap_policy_member("gap_policy"@, v.gap_policy, "size"@);
    lemma_lookup_concat(m0, m1, "size"@);
    lemma_lookup_concat(m0 + m1, m2, "size"@);
    lemma_lookup_concat(m0 + m1 + m2, m3, "size"@);
    lemma_sorts_member("sort"@, v.sort, "gap_policy"@);
    lemma_opt_num_member("from"@, v.from, "gap_policy"@);
    lemma_opt_num_member("size"@, v.size, "gap_policy"@);
    lemma_gap_policy_member("gap_policy"@, v.gap_policy, "gap_policy"@);
    lemma_lookup_concat(m0, m1, "gap_policy"@);
    lemma_lookup_concat(m0 + m1, m2, "gap_policy"@);
    lemma_lookup_concat(m0 + m1 + m2, m3, "gap_policy"@);
    if v.gap_policy is Some { lemma_gap_policy_name(v.gap_policy->0); }
    assert(bucket_sort_members(v) =~= m0 + m1 + m2 + m3);
}

pub open spec fn nested_aggregation_wf(v: NestedAggregationView) -> bool {
    true
}

/// Decoding an encoded `nested` body gives it back.
pub proof fn lemma_nested_aggregation_round_trip(v: NestedAggregationView)
    requires
        nested_aggregation_wf(v),
    ensures
        nested_aggregation_from(nested_aggregation_members(v)) == Ok::<NestedAggregationView, DecodeErrorView>(v),
{
    lemma_agg_keys();
    let m0 = seq![("path"@, JsonValue::Str(v.path))];
    lemma_lookup_one("path"@, JsonValue::Str(v.path), "path"@);
    assert(nested_aggregation_members(v) =~= m0);
}

pub open spec fn reverse_nested_aggregation_wf(v: ReverseNestedAggregationView) -> bool {
    true
}

/// Decoding an encoded `reverse_nested` body gives it back.
pub proof fn lemma_reverse_nested_aggregation_round_trip(v: ReverseNestedAggregationView)
    requires
        reverse_nested_aggregation_wf(v),
    ensures
        reverse_nested_aggregation_from(reverse_nested_aggregation_members(v)) == Ok::<ReverseNestedAggregationView, DecodeErrorView>(v),
{
    lemma_agg_keys();
    let m0 = opt_str_member("path"@, v.path);
    lemma_opt_str_member("path"@, v.path, "path"@);
    assert(reverse_nested_aggregation_members(v) =~= m0);
}

pub open spec fn sampler_aggregation_wf(v: SamplerAggregationView) -> bool {
    true
}

/// Decoding an encoded `sampler` body gives it back.
pub proof fn lemma_sampler_aggregation_round_trip(v: SamplerAggregationView)
    requires
        sampler_aggregation_wf(v),
    ensures
        sampler_aggregation_from(sampler_aggregation_members(v)) == Ok::<SamplerAggregationView, DecodeErrorView>(v),
{
    lemma_agg_keys();
    let m0 = opt_num_member("shard_size"@, v.shard_size);
    lemma_opt_num_member("shard_size"@, v.shard_size, "shard_size"@);
    assert(sampler_aggregation_members(v) =~= m0);
}

pub open spec fn significant_text_aggregation_wf(v: SignificantTextAggregationView) -> bool {
    true
}

/// Decoding an encoded `significant_text` body gives it back.
pub proof fn lemma_significant_text_aggregation_round_trip(v: SignificantTextAggregationView)
    requires
        significant_text_aggregation_wf(v),
    ensures
        significant_text_aggregation_from(significant_text_aggregation_members(v)) == Ok::<SignificantTextAggregationView, DecodeErrorView>(v),
{
    lemma_agg_keys();
    let m0 = seq![("field"@, JsonValue::Str(v.field))];
    let m1 = opt_num_member("size"@, v.size);
    let m2 = flag_member("filter_duplicate_text"@, v.filter_duplicate_text);
    lemma_lookup_one("field"@, JsonValue::Str(v.field), "field"@);
    lemma_opt_num_member("size"@, v.size, "field"@);
    lemma_flag_member("filter_duplicate_text"@, v.filter_duplicate_text, "field"@);
    lemma_lookup_concat(m0, m1, "field"@);
    lemma_lookup_concat(m0 + m1, m2, "field"@);
    lemma_lookup_one("field"@, JsonValue::Str(v.field), "size"@);
    lemma_opt_num_member("size"@, v.size, "size"@);
    lemma_flag_member("filter_duplicate_text"@, v.filter_duplicate_text, "size"@);
    lemma_lookup_concat(m0, m1, "size"@);
    lemma_lookup_concat(m0 + m1, m2, "size"@);
    lemma_lookup_one("field"@, JsonValue::Str(v.field), "filter_duplicate_text"@);
    lemma_opt_num_member("size"@, v.size, "filter_duplicate_text"@);
    lemma_flag_member("filter_duplicate_text"@, v.filter_duplicate_text, "filter_duplicate_text"@);
    lemma_lookup_concat(m0, m1, "filter_duplicate_text"@);
    lemma_lookup_concat(m0 + m1, m2, "filter_duplicate_text"@);
    assert(significant_text_aggregation_members(v) =~= m0 + m1 + m2);
}

/// A kind whose body its encoding can carry: its objects are objects and
/// its filter is well-formed.
pub open spec fn kind_wf(k: KindView) -> bool {
    match k {
        KindView::Filter(c) => compound_wf(c),
        KindView::Metric(_, i) => inner_aggregation_wf(i),
        KindView::Terms(t) => terms_aggregation_wf(t),
        KindView::WeightedAvg(v) => weighted_average_aggregation_wf(v),
        KindView::Range(v) => range_aggregation_wf(v),
        KindView::Histogram(v) => histogram_aggregation_wf(v),
        KindView::DateHistogram(v) => date_histogram_aggregation_wf(v),
        KindView::AutoDateHistogram(v) => auto_date_histogram_aggregation_wf(v),
        KindView::DateRange(v) => date_range_aggregation_wf(v),
        KindView::VariableWidthHistogram(v) => variable_width_histogram_wf(v),
        KindView::BucketScript(v) => bucket_script_wf(v),
        KindView::BucketSelector(v) => bucket_selector_wf(v),
        KindView::BucketSort(v) => bucket_sort_wf(v),
        KindView::Nested(v) => nested_aggregation_wf(v),
        KindView::ReverseNested(v) => reverse_nested_aggregation_wf(v),
        KindView::Sampler(v) => sampler_aggregation_wf(v),
        KindView::SignificantText(v) => significant_text_aggregation_wf(v),
        _ => true,
    }
}

/// Decoding an encoded kind gives it back, under a key that names a kind.
pub proof fn lemma_kind_round_trip(k: KindView)
    requires
        kind_wf(k),
    ensures
        is_kind_key(kind_json(k).0),
        kind_from(kind_json(k).0, kind_json(k).1) == Ok::<KindView, DecodeErrorView>(k),
{
    lemma_agg_keys();
    match k {
        KindView::Metric(m, i) => {
            lemma_metric_key(m);
            lemma_inner_aggregation_round_trip(i);
        },
        KindView::Terms(t) => {
            lemma_terms_aggregation_round_trip(t);
        },
        KindView::WeightedAvg(v) => {
            lemma_weighted_average_aggregation_round_trip(v);
        },
        KindView::Range(v) => {
            lemma_range_aggregation_round_trip(v);
        },
        KindView::Histogram(v) => {
            lemma_histogram_aggregation_round_trip(v);
        },
        KindView::Filter(c) => {
            lemma_compound_round_trip(c);
        },
        KindView::DateHistogram(v) => {
            lemma_date_histogram_aggregation_round_trip(v);
        },
        KindView::AutoDateHistogram(v) => {
            lemma_auto_date_histogram_aggregation_round_trip(v);
        },
        KindView::DateRange(v) => {
            lemma_date_range_aggregation_round_trip(v);
        },
        KindView::VariableWidthHistogram(v) => {
            lemma_variable_width_histogram_round_trip(v);
        },
        KindView::BucketScript(v) => {
            lemma_bucket_script_round_trip(v);
        },
        KindView::BucketSelector(v) => {
            lemma_bucket_selector_round_trip(v);
        },
        KindView::BucketSort(v) => {
            lemma_bucket_sort_round_trip(v);
        },
        KindView::Nested(v) => {
            lemma_nested_aggregation_round_trip(v);
        },
        KindView::ReverseNested(v) => {
            lemma_reverse_nested_aggregation_round_trip(v);
        },
        KindView::Sampler(v) => {
            lemma_sampler_aggregation_round_trip(v);
        },
        KindView::SignificantText(v) => {
            lemma_significant_text_aggregation_round_trip(v);
        },
    }
}

/// An aggregation that its encoding can carry: a well-formed kind, metadata
/// that is an object, and well-formed sub-aggregations.
pub open spec fn agg_wf(a: AggregationView) -> bool
    decreases a, 0nat,
{
    &&& match a.kind {
        Some(k) => kind_wf(k),
        None => true,
    }
    &&& match a.metadata {
        Some(m) => m is Object,
        None => true,
    }
    &&& aggs_wf(a.aggregations)
}

pub open spec fn aggs_wf(s: Seq<AggregationView>) -> bool
    decreases s, 1nat,
{
    if s.len() == 0 {
        true
    } else {
        aggs_wf(s.subrange(0, s.len() - 1)) && agg_wf(s[s.len() - 1])
    }
}

proof fn lemma_aggs_members_index(s: Seq<AggregationView>)
    ensures
        aggs_members(s).len() == s.len(),
        forall|i: int| 0 <= i < s.len() ==> #[trigger] aggs_members(s)[i] == (s[i].name, agg_body_json(s[i])),
    decreases s.len(),
{
    if s.len() > 0 {
        lemma_aggs_members_index(s.subrange(0, s.len() - 1));
    }
}

proof fn lemma_aggs_wf_index(s: Seq<AggregationView>)
    ensures
        aggs_wf(s) <==> forall|i: int| 0 <= i < s.len() ==> #[trigger] agg_wf(s[i]),
    decreases s.len(),
{
    if s.len() > 0 {
        let t = s.subrange(0, s.len() - 1);
        lemma_aggs_wf_index(t);
        if aggs_wf(s) {
            assert forall|i: int| 0 <= i < s.len() implies #[trigger] agg_wf(s[i]) by {
                if i < s.len() - 1 {
                    assert(s[i] == t[i]);
                }
            }
        }
        if forall|i: int| 0 <= i < s.len() ==> #[trigger] agg_wf(s[i]) {
            assert forall|i: int| 0 <= i < t.len() implies #[trigger] agg_wf(t[i]) by {
                assert(s[i] == t[i]);
            }
            assert(agg_wf(s[s.len() - 1]));
        }
    }
}

/// Only the first member may name a kind: the scan finds it alone.
proof fn lemma_kind_scan(s: Seq<(Seq<char>, JsonValue)>)
    requires
        forall|i: int| 1 <= i < s.len() ==> !is_kind_key(#[trigger] s[i].0),
    ensures
        kind_count(s) == if s.len() > 0 && is_kind_key(s[0].0) {
            1nat
        } else {
            0nat
        },
        first_kind(s) == if s.len() > 0 && is_kind_key(s[0].0) {
            Some(0int)
        } else {
            None::<int>
        },
    decreases s.len(),
{
    if s.len() > 0 {
        let t = s.subrange(0, s.len() - 1);
        assert forall|i: int| 1 <= i < t.len() implies !is_kind_key(#[trigger] t[i].0) by {
            assert(t[i] == s[i]);
        }
        lemma_kind_scan(t);
        if s.len() > 1 {
            assert(t[0] == s[0]);
            assert(!is_kind_key(s[s.len() - 1].0));
        }
    }
}

/// Decoding the encoded body of a well-formed aggregation gives it back.
pub proof fn lemma_agg_body_round_trip(a: AggregationView)
    requires
        agg_wf(a),
    ensures
        agg_body_from(a.name, agg_body_json(a)) == Ok::<AggregationView, DecodeErrorView>(a),
    decreases a, 0nat,
{
    lemma_agg_keys();
    let k = match a.kind {
        Some(k) => seq![kind_json(k)],
        None => Seq::<(Seq<char>, JsonValue)>::empty(),
    };
    let m = match a.metadata {
        Some(m) => seq![("meta"@, m)],
        None => Seq::<(Seq<char>, JsonValue)>::empty(),
    };
    let c = if a.aggregations.len() == 0 {
        Seq::<(Seq<char>, JsonValue)>::empty()
    } else {
        seq![("aggs"@, JsonValue::Object(aggs_members(a.aggregations)))]
    };
    let bm = k + m + c;
    assert(agg_body_json(a) == JsonValue::Object(bm));
    assert(!is_kind_key("meta"@));
    assert(!is_kind_key("aggs"@));
    match a.kind {
        Some(kk) => {
            lemma_kind_round_trip(kk);
        },
        None => {},
    }
    assert forall|i: int| 1 <= i < bm.len() implies !is_kind_key(#[trigger] bm[i].0) by {
        if i < k.len() + m.len() {
            assert(bm[i] == m[i - k.len()]);
        } else {
            assert(bm[i] == c[i - k.len() - m.len()]);
        }
    }
    if k.len() == 0 {
        if bm.len() > 0 {
            if m.len() > 0 {
                assert(bm[0] == m[0]);
            } else {
                assert(bm[0] == c[0]);
            }
        }
    } else {
        assert(bm[0] == k[0]);
    }
    lemma_kind_scan(bm);
    match a.kind {
        Some(kk) => {
            lemma_lookup_one(kind_json(kk).0, kind_json(kk).1, "meta"@);
            lemma_lookup_one(kind_json(kk).0, kind_json(kk).1, "aggs"@);
        },
        None => {},
    }
    match a.metadata {
        Some(md) => {
            lemma_lookup_one("meta"@, md, "meta"@);
            lemma_lookup_one("meta"@, md, "aggs"@);
        },
        None => {},
    }
    if a.aggregations.len() > 0 {
        lemma_lookup_one("aggs"@, JsonValue::Object(aggs_members(a.aggregations)), "meta"@);
        lemma_lookup_one("aggs"@, JsonValue::Object(aggs_members(a.aggregations)), "aggs"@);
    }
    lemma_lookup_concat(k, m, "meta"@);
    lemma_lookup_concat(k + m, c, "meta"@);
    lemma_lookup_concat(k, m, "aggs"@);
    lemma_lookup_concat(k + m, c, "aggs"@);
    lemma_children_from(bm, a.name);
    if a.aggregations.len() > 0 {
        lemma_aggs_round_trip(a.aggregations);
    } else {
        assert(a.aggregations =~= Seq::<AggregationView>::empty());
    }
}

/// Decoding the encoded members of well-formed sub-aggregations gives them
/// back, in order.
pub proof fn lemma_aggs_round_trip(s: Seq<AggregationView>)
    requires
        aggs_wf(s),
    ensures
        aggs_from(aggs_members(s)) == Ok::<Seq<AggregationView>, DecodeErrorView>(s),
    decreases s, 1nat,
{
    lemma_aggs_members_index(s);
    lemma_aggs_wf_index(s);
    if s.len() > 0 {
        let items = aggs_members(s);
        let rest = s.subrange(1, s.len() as int);
        lemma_aggs_members_index(rest);
        lemma_aggs_wf_index(rest);
        assert(items.subrange(1, items.len() as int) =~= aggs_members(rest));
        assert(agg_wf(s[0]));
        lemma_agg_body_round_trip(s[0]);
        lemma_aggs_round_trip(rest);
        assert(seq![s[0]] + rest =~= s);
    } else {
        assert(s =~= Seq::<AggregationView>::empty());
    }
}

/// Decoding an encoded well-formed aggregation request gives it back, its
/// sub-aggregations in their order.
pub proof fn lemma_agg_round_trip(a: AggregationView)
    requires
        agg_wf(a),
    ensures
        agg_from(agg_json(a)) == Ok::<AggregationView, DecodeErrorView>(a),
{
    lemma_agg_body_round_trip(a);
}

} // verus!
