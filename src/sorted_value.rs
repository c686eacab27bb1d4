//! The values a search hit was sorted by: null, an unsigned integer, a
//! floating-point number (kept as its decimal text) or a string.
use vstd::prelude::*;

use crate::error::{invalid_number, DecodeError, DecodeErrorView};
use crate::json::{Json, JsonValue};

verus! {

/// One sort value of a hit.
#[derive(Debug)]
pub enum SortedValue {
    Null,
    UInt(u64),
    /// A non-negative number that is not a `u64`, as decimal text.
    Float(String),
    Str(String),
}

pub enum SortedValueView {
    Null,
    UInt(u64),
    Float(Seq<char>),
    Str(Seq<char>),
}

impl View for SortedValue {
    type V = SortedValueView;

    open spec fn view(&self) -> SortedValueView {
        match self {
            SortedValue::Null => SortedValueView::Null,
            SortedValue::UInt(n) => SortedValueView::UInt(*n),
            SortedValue::Float(t) => SortedValueView::Float(t@),
            SortedValue::Str(s) => SortedValueView::Str(s@),
        }
    }
}

pub open spec fn is_digit(c: char) -> bool {
    '0' <= c && c <= '9'
}

/// A non-empty run of decimal digits.
pub open spec fn all_digits(t: Seq<char>) -> bool {
    t.len() > 0 && forall|i: int| 0 <= i < t.len() ==> is_digit(#[trigger] t[i])
}

/// The number that a run of decimal digits denotes.
pub open spec fn digits_value(t: Seq<char>) -> nat
    decreases t.len(),
{
    if t.len() == 0 {
        0
    } else {
        digits_value(t.subrange(0, t.len() - 1)) * 10 + ((t[t.len() - 1] as nat) - ('0' as nat)) as nat
    }
}

/// A nonzero digit before any exponent marker.
pub open spec fn nonzero_mantissa(s: Seq<char>) -> bool
    decreases s.len(),
{
    if s.len() == 0 {
        false
    } else if s[0] == 'e' || s[0] == 'E' {
        false
    } else if '1' <= s[0] && s[0] <= '9' {
        true
    } else {
        nonzero_mantissa(s.subrange(1, s.len() as int))
    }
}

/// Number text below zero: a minus sign and a nonzero digit in the mantissa
/// (`-0` and `-0.0e5` are zero).
pub open spec fn is_negative(t: Seq<char>) -> bool {
    t.len() > 0 && t[0] == '-' && nonzero_mantissa(t.subrange(1, t.len() as int))
}

/// The sort value a number's decimal text denotes: negative numbers are
/// rejected, a digit run that fits a `u64` is an integer, anything else is
/// kept as floating-point text.
pub open spec fn number_sort_value(t: Seq<char>) -> Result<SortedValueView, DecodeErrorView> {
    if is_negative(t) {
        Err(DecodeErrorView::InvalidNumber { field: "sort"@, value: t })
    } else if all_digits(t) && digits_value(t) <= u64::MAX {
        Ok(SortedValueView::UInt(digits_value(t) as u64))
    } else {
        Ok(SortedValueView::Float(t))
    }
}

pub open spec fn sorted_value_from(v: JsonValue) -> Result<SortedValueView, DecodeErrorView> {
    match v {
        JsonValue::Null => Ok(SortedValueView::Null),
        JsonValue::Str(s) => Ok(SortedValueView::Str(s)),
        JsonValue::Number(t) => number_sort_value(t),
        _ => Err(DecodeErrorView::InvalidNumber { field: "sort"@, value: ""@ }),
    }
}

/// The `u64` a digit run denotes, or `None` when it has another character
/// or does not fit.
pub(crate) fn parse_u64(t: &str) -> (r: Option<u64>)
    ensures
        match r {
            Some(n) => all_digits(t@) && digits_value(t@) == n,
            None => !(all_digits(t@) && digits_value(t@) <= u64::MAX),
        },
{
    let len = t.unicode_len();
    if len == 0 {
        return None;
    }
    let mut value: u64 = 0;
    let mut i: usize = 0;
    while i < len
        invariant
            len == t@.len(),
            0 <= i <= len,
            forall|j: int| 0 <= j < i ==> is_digit(#[trigger] t@[j]),
            value == digits_value(t@.subrange(0, i as int)),
        decreases len - i,
    {
        let c = t.get_char(i);
        proof {
            let s = t@.subrange(0, i + 1);
            assert(s.subrange(0, s.len() - 1) =~= t@.subrange(0, i as int));
        }
        if !('0' <= c && c <= '9') {
            assert(!is_digit(t@[i as int]));
            return None;
        }
        let d = (c as u32 - '0' as u32) as u64;
        if value > (u64::MAX - d) / 10 {
            proof {
                lemma_digits_grow(t@, i as int, value as nat, d as nat);
            }
            return None;
        }
        proof {
            assert(value * 10 + d <= u64::MAX) by (nonlinear_arith)
                requires
                    value <= (u64::MAX - d) / 10,
                    d <= 9,
            ;
        }
        value = value * 10 + d;
        i = i + 1;
    }
    proof {
        assert(t@.subrange(0, len as int) =~= t@);
    }
    Some(value)
}

/// Once a prefix of the digits is past `u64::MAX`, so is the whole run.
proof fn lemma_digits_grow(t: Seq<char>, i: int, value: nat, d: nat)
    requires
        0 <= i < t.len(),
        value == digits_value(t.subrange(0, i)),
        d == (t[i] as nat) - ('0' as nat),
        d <= 9,
        value > (u64::MAX - d) / 10,
    ensures
        !(all_digits(t) && digits_value(t) <= u64::MAX),
{
    if all_digits(t) {
        let p = t.subrange(0, i + 1);
        assert(p.subrange(0, p.len() - 1) =~= t.subrange(0, i));
        assert(digits_value(p) == value * 10 + d);
        assert(value * 10 + d > u64::MAX) by (nonlinear_arith)
            requires
                value > (u64::MAX - d) / 10,
                d <= 9,
        ;
        lemma_digits_monotone(t, i + 1);
    }
}

/// A digit run denotes at least what any of its prefixes does.
proof fn lemma_digits_monotone(t: Seq<char>, k: int)
    requires
        0 <= k <= t.len(),
        all_digits(t),
    ensures
        digits_value(t.subrange(0, k)) <= digits_value(t),
    decreases t.len() - k,
{
    if k < t.len() {
        lemma_digits_monotone(t, k + 1);
        let p = t.subrange(0, k + 1);
        assert(p.subrange(0, p.len() - 1) =~= t.subrange(0, k));
        assert(is_digit(t[k]));
    } else {
        assert(t.subrange(0, k) =~= t);
    }
}

proof fn lemma_nonzero_mantissa_skip(s: Seq<char>, i: int)
    requires
        0 <= i <= s.len(),
        forall|j: int| 0 <= j < i ==> !(#[trigger] s[j] == 'e' || s[j] == 'E' || ('1' <= s[j] && s[j] <= '9')),
    ensures
        nonzero_mantissa(s) == nonzero_mantissa(s.subrange(i, s.len() as int)),
    decreases i,
{
    if i == 0 {
        assert(s.subrange(0, s.len() as int) =~= s);
    } else {
        let rest = s.subrange(1, s.len() as int);
        assert(!(s[0] == 'e' || s[0] == 'E' || ('1' <= s[0] && s[0] <= '9')));
        assert forall|j: int| 0 <= j < i - 1 implies !(#[trigger] rest[j] == 'e' || rest[j] == 'E' || ('1' <= rest[j] && rest[j] <= '9')) by {
            assert(rest[j] == s[j + 1]);
        }
        lemma_nonzero_mantissa_skip(rest, i - 1);
        assert(rest.subrange(i - 1, rest.len() as int) =~= s.subrange(i, s.len() as int));
    }
}

fn negative_text(t: &str) -> (r: bool)
    ensures
        r == is_negative(t@),
{
    let n = t.unicode_len();
    if n == 0 || t.get_char(0) != '-' {
        return false;
    }
    let ghost rest = t@.subrange(1, n as int);
    let mut i: usize = 1;
    while i < n
        invariant
            n == t@.len(),
            1 <= i <= n,
            t@[0] == '-',
            rest == t@.subrange(1, n as int),
            forall|j: int| 0 <= j < i - 1 ==> !(#[trigger] rest[j] == 'e' || rest[j] == 'E' || ('1' <= rest[j] && rest[j] <= '9')),
        decreases n - i,
    {
        let c = t.get_char(i);
        assert(rest[i - 1] == c);
        if c == 'e' || c == 'E' || ('1' <= c && c <= '9') {
            proof {
                lemma_nonzero_mantissa_skip(rest, i - 1);
                let r = rest.subrange(i - 1, rest.len() as int);
                assert(r[0] == c);
            }
            return '1' <= c && c <= '9';
        }
        i = i + 1;
    }
    proof {
        lemma_nonzero_mantissa_skip(rest, i - 1);
        assert(rest.subrange(i - 1, rest.len() as int).len() == 0);
    }
    false
}

impl SortedValue {
    /// Reads a sort value; a negative number is an error.
    pub fn parse(j: &Json) -> (r: Result<SortedValue, DecodeError>)
        ensures
            crate::error::result_view(r) == sorted_value_from(j@),
    {
        match j {
            Json::Null => Ok(SortedValue::Null),
            Json::Str(s) => Ok(SortedValue::Str(s.clone())),
            Json::Number(t) => {
                if negative_text(t.as_str()) {
                    Err(invalid_number("sort", t.as_str()))
                } else {
                    match parse_u64(t.as_str()) {
                        Some(n) => Ok(SortedValue::UInt(n)),
                        None => Ok(SortedValue::Float(t.clone())),
                    }
                }
            },
            _ => Err(invalid_number("sort", "")),
        }
    }
}

/// A negative number, integer or not, is never a sort value.
pub proof fn lemma_negative_rejected(t: Seq<char>)
    requires
        is_negative(t),
    ensures
        sorted_value_from(JsonValue::Number(t)) == Err::<SortedValueView, DecodeErrorView>(
            DecodeErrorView::InvalidNumber { field: "sort"@, value: t },
        ),
{
}

/// The decimal text of `n`, without leading zeros.
pub open spec fn decimal(n: nat) -> Seq<char>
    decreases n,
{
    if n < 10 {
        seq![digit_char(n)]
    } else {
        decimal(n / 10).push(digit_char(n % 10))
    }
}

pub open spec fn digit_char(d: nat) -> char {
    ((d + ('0' as nat)) as u32) as char
}

proof fn lemma_decimal(n: nat)
    ensures
        all_digits(decimal(n)),
        digits_value(decimal(n)) == n,
        decimal(n)[0] != '-',
    decreases n,
{
    if n < 10 {
        let t = decimal(n);
        assert(t.subrange(0, 0) =~= Seq::<char>::empty());
        assert(digit_char(n) as nat == n + ('0' as nat));
        assert(digits_value(t) == digits_value(t.subrange(0, 0)) * 10 + ((t[0] as nat) - ('0' as nat)) as nat);
    } else {
        lemma_decimal(n / 10);
        let t = decimal(n);
        assert(digit_char(n % 10) as nat == n % 10 + ('0' as nat));
        assert((n / 10) * 10 + n % 10 == n);
        assert(t.subrange(0, t.len() - 1) =~= decimal(n / 10));
        assert forall|i: int| 0 <= i < t.len() implies is_digit(#[trigger] t[i]) by {
            if i < t.len() - 1 {
                assert(t[i] == decimal(n / 10)[i]);
            }
        }
    }
}

fn digit_text(d: u64) -> (r: &'static str)
    requires
        d < 10,
    ensures
        r@ == seq![digit_char(d as nat)],
{
    let digits = "0123456789";
    proof {
        reveal_strlit("0123456789");
    }
    let r = digits.substring_char(d as usize, d as usize + 1);
    proof {
        assert(r@ =~= seq![digit_char(d as nat)]);
    }
    r
}

/// The decimal text of `n`.
pub fn u64_text(n: u64) -> (r: String)
    ensures
        r@ == decimal(n as nat),
    decreases n,
{
    if n < 10 {
        digit_text(n).to_owned()
    } else {
        let mut t = u64_text(n / 10);
        t.append(digit_text(n % 10));
        proof {
            assert(t@ =~= decimal(n as nat));
        }
        t
    }
}

/// A sort value that encoding keeps: a float's text is neither negative nor
/// a `u64`.
pub open spec fn sorted_value_wf(v: SortedValueView) -> bool {
    match v {
        SortedValueView::Float(t) => number_sort_value(t) == Ok::<SortedValueView, DecodeErrorView>(v),
        _ => true,
    }
}

pub open spec fn sorted_value_json(v: SortedValueView) -> JsonValue {
    match v {
        SortedValueView::Null => JsonValue::Null,
        SortedValueView::UInt(n) => JsonValue::Number(decimal(n as nat)),
        SortedValueView::Float(t) => JsonValue::Number(t),
        SortedValueView::Str(s) => JsonValue::Str(s),
    }
}

impl SortedValue {
    /// Encodes a sort value; an integer as its decimal text.
    pub fn to_json(&self) -> (r: Json)
        ensures
            r@ == sorted_value_json(self@),
    {
        match self {
            SortedValue::Null => Json::Null,
            SortedValue::UInt(n) => Json::Number(u64_text(*n)),
            SortedValue::Float(t) => Json::Number(t.clone()),
            SortedValue::Str(s) => Json::Str(s.clone()),
        }
    }
}

/// Reading an encoded sort value gives it back.
pub proof fn lemma_sorted_value_round_trip(v: SortedValueView)
    requires
        sorted_value_wf(v),
    ensures
        sorted_value_from(sorted_value_json(v)) == Ok::<SortedValueView, DecodeErrorView>(v),
{
    match v {
        SortedValueView::UInt(n) => {
            lemma_decimal(n as nat);
        },
        _ => {},
    }
}

/// The decimal text of an integer, with `-` in front of a negative one.
pub open spec fn int_text(n: int) -> Seq<char> {
    if n < 0 {
        seq!['-'] + decimal((-n) as nat)
    } else {
        decimal(n as nat)
    }
}

/// Decimal text that denotes an `i32`.
pub open spec fn is_i32_text(t: Seq<char>) -> bool {
    if t.len() > 0 && t[0] == '-' {
        all_digits(t.subrange(1, t.len() as int)) && digits_value(t.subrange(1, t.len() as int)) <= 0x8000_0000
    } else {
        all_digits(t) && digits_value(t) <= 0x7fff_ffff
    }
}

/// The integer that decimal text denotes.
pub open spec fn int_of(t: Seq<char>) -> int {
    if t.len() > 0 && t[0] == '-' {
        -(digits_value(t.subrange(1, t.len() as int)) as int)
    } else {
        digits_value(t) as int
    }
}

/// The decimal text of `n`.
pub fn i32_text(n: i32) -> (r: String)
    ensures
        r@ == int_text(n as int),
{
    if n < 0 {
        let m = (0i64 - n as i64) as u64;
        let mut t = "-".to_owned();
        let digits = u64_text(m);
        t.append(digits.as_str());
        proof {
            reveal_strlit("-");
            assert(t@ =~= int_text(n as int));
        }
        t
    } else {
        u64_text(n as u64)
    }
}

/// The `i32` that decimal text denotes, if it denotes one.
pub fn parse_i32(t: &str) -> (r: Option<i32>)
    ensures
        match r {
            Some(n) => is_i32_text(t@) && int_of(t@) == n,
            None => !is_i32_text(t@),
        },
{
    let len = t.unicode_len();
    if len > 0 && t.get_char(0) == '-' {
        let rest = t.substring_char(1, len);
        match parse_u64(rest) {
            Some(v) => {
                if v <= 0x8000_0000 {
                    Some((0i64 - v as i64) as i32)
                } else {
                    None
                }
            },
            None => None,
        }
    } else {
        match parse_u64(t) {
            Some(v) => {
                if v <= 0x7fff_ffff {
                    Some(v as i32)
                } else {
                    None
                }
            },
            None => None,
        }
    }
}

/// Reading the text of an `i32` gives it back.
pub proof fn lemma_i32_text(n: i32)
    ensures
        is_i32_text(int_text(n as int)),
        int_of(int_text(n as int)) == n,
{
    if n < 0 {
        let m = (-(n as int)) as nat;
        lemma_decimal(m);
        let t = int_text(n as int);
        assert(t.subrange(1, t.len() as int) =~= decimal(m));
    } else {
        lemma_decimal(n as nat);
    }
}

} // verus!
