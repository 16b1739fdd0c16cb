//! Query criteria: a field, a comparer and a value, read from text such as
//! `age >= 18` and checked against items.

use vstd::prelude::*;

use crate::json_value::{field_value, Json, JsonNumber, JsonView};
use crate::build_dyn_routes::{all_digits, digits_value, int_text, is_digit};
use crate::text::{ascii_lower, chars_of, decimal_chars, first_index_of, lemma_first_index_of, push_all, push_str, string_of};

verus! {

/// How a field is compared with a value.
#[derive(Debug, Clone, Copy, PartialEq, Eq, Structural)]
pub enum Comparer {
    /// `=`
    Equal,
    /// `!=` or `<>`
    Different,
    /// `>`
    GreaterThan,
    /// `>=`
    GreaterThanOrEqual,
    /// `<`
    LessThan,
    /// `<=`
    LessThanOrEqual,
    /// `LIKE`
    Like,
    /// `IS NULL`
    IsNull,
    /// `IS NOT NULL`
    IsNotNull,
}

impl Default for Comparer {
    fn default() -> (c: Self)
        ensures
            c == Comparer::Equal,
    {
        Comparer::Equal
    }
}

/// The comparer an operator text names; word operators are written in all
/// uppercase or all lowercase.
pub open spec fn comparer_of(s: Seq<char>) -> Option<Comparer> {
    if s == "="@ {
        Some(Comparer::Equal)
    } else if s == "!="@ || s == "<>"@ {
        Some(Comparer::Different)
    } else if s == ">"@ {
        Some(Comparer::GreaterThan)
    } else if s == ">="@ {
        Some(Comparer::GreaterThanOrEqual)
    } else if s == "<"@ {
        Some(Comparer::LessThan)
    } else if s == "<="@ {
        Some(Comparer::LessThanOrEqual)
    } else if s == "LIKE"@ || s == "like"@ {
        Some(Comparer::Like)
    } else if s == "IS NULL"@ || s == "is null"@ {
        Some(Comparer::IsNull)
    } else if s == "IS NOT NULL"@ || s == "is not null"@ {
        Some(Comparer::IsNotNull)
    } else {
        None
    }
}

/// Message of a text that names no comparer.
pub open spec fn invalid_comparer_message(s: Seq<char>) -> Seq<char> {
    "Invalid comparer operator: '"@ + s + "'"@
}

fn is(value: &Vec<char>, text: &str) -> (r: bool)
    ensures
        r == (value@ == text@),
{
    crate::text::chars_eq_str(value, text)
}

impl Comparer {
    /// The comparer an operator text names, or an error that quotes it.
    pub fn try_from(value: &str) -> (r: Result<Comparer, String>)
        ensures
            match comparer_of(value@) {
                Some(c) => r == Ok::<Comparer, String>(c),
                None => r matches Err(msg) && msg@ == invalid_comparer_message(value@),
            },
    {
        let v = chars_of(value);
        if is(&v, "=") {
            Ok(Comparer::Equal)
        } else if is(&v, "!=") || is(&v, "<>") {
            Ok(Comparer::Different)
        } else if is(&v, ">") {
            Ok(Comparer::GreaterThan)
        } else if is(&v, ">=") {
            Ok(Comparer::GreaterThanOrEqual)
        } else if is(&v, "<") {
            Ok(Comparer::LessThan)
        } else if is(&v, "<=") {
            Ok(Comparer::LessThanOrEqual)
        } else if is(&v, "LIKE") || is(&v, "like") {
            Ok(Comparer::Like)
        } else if is(&v, "IS NULL") || is(&v, "is null") {
            Ok(Comparer::IsNull)
        } else if is(&v, "IS NOT NULL") || is(&v, "is not null") {
            Ok(Comparer::IsNotNull)
        } else {
            let mut msg = chars_of("Invalid comparer operator: '");
            push_str(&mut msg, value);
            push_str(&mut msg, "'");
            Err(string_of(&msg))
        }
    }
}

// ----------------------------------------------------------------------------
// Debug renderings, as error messages show values
// ----------------------------------------------------------------------------

/// What `{:?}` renders for a string: the text in double quotes, with
/// escapes. Named: the escaping rules of Unicode take pages.
pub uninterp spec fn str_debug(s: Seq<char>) -> Seq<char>;

/// `format!("{:?}", s)` for a string.
#[verifier::external_body]
fn debug_str(s: &str) -> (r: String)
    ensures
        r@ == str_debug(s@),
{
    format!("{:?}", s)
}

/// The debug rendering of a JSON value, as serde_json writes it:
/// `Null`, `Bool(true)`, `Number(1)`, `String("a")`, `Array [..]`,
/// `Object {"k": ..}`.
pub open spec fn json_debug(v: JsonView) -> Seq<char>
    decreases v,
{
    match v {
        JsonView::Null => "Null"@,
        JsonView::Bool(b) => if b {
            "Bool(true)"@
        } else {
            "Bool(false)"@
        },
        JsonView::Number(t, _) => "Number("@ + t + ")"@,
        JsonView::Str(s) => "String("@ + str_debug(s) + ")"@,
        JsonView::Array(items) => "Array ["@ + debug_items(items) + "]"@,
        JsonView::Object(fields) => "Object {"@ + debug_entries(fields) + "}"@,
    }
}

/// Debug renderings of items, separated by `", "`.
pub open spec fn debug_items(items: Seq<JsonView>) -> Seq<char>
    decreases items,
{
    if items.len() == 0 {
        Seq::empty()
    } else if items.len() == 1 {
        json_debug(items[0])
    } else {
        debug_items(items.drop_last()) + ", "@ + json_debug(items.last())
    }
}

/// Debug renderings of entries `"key": value`, separated by `", "`.
pub open spec fn debug_entries(fields: Seq<(Seq<char>, JsonView)>) -> Seq<char>
    decreases fields,
{
    if fields.len() == 0 {
        Seq::empty()
    } else if fields.len() == 1 {
        str_debug(fields[0].0) + ": "@ + json_debug(fields[0].1)
    } else {
        debug_entries(fields.drop_last()) + ", "@ + str_debug(fields.last().0) + ": "@ + json_debug(
            fields.last().1,
        )
    }
}

/// Appends the debug rendering of a value.
fn push_debug(out: &mut Vec<char>, v: &Json)
    ensures
        final(out)@ == old(out)@ + json_debug(v@),
    decreases v@,
{
    let ghost start = out@;
    match v {
        Json::Null => push_str(out, "Null"),
        Json::Bool(b) => push_str(out, if *b { "Bool(true)" } else { "Bool(false)" }),
        Json::Number(n) => {
            push_str(out, "Number(");
            push_str(out, n.text.as_str());
            push_str(out, ")");
            assert(out@ =~= start + json_debug(v@));
        },
        Json::Str(s) => {
            push_str(out, "String(");
            push_str(out, debug_str(s.as_str()).as_str());
            push_str(out, ")");
            assert(out@ =~= start + json_debug(v@));
        },
        Json::Array(items) => {
            proof {
                crate::json_value::lemma_array_view(*items);
            }
            let ghost iv = items@.map_values(|j: Json| j@);
            push_str(out, "Array [");
            let ghost head = out@;
            let mut i: usize = 0;
            assert(iv.take(0) =~= Seq::<JsonView>::empty());
            while i < items.len()
                invariant
                    i <= items.len(),
                    iv == items@.map_values(|j: Json| j@),
                    v@ == JsonView::Array(iv),
                    out@ == head + debug_items(iv.take(i as int)),
                decreases items.len() - i,
            {
                assert(iv.take(i + 1).drop_last() =~= iv.take(i as int));
                assert(iv.take(i + 1).last() == items@[i as int]@);
                if i > 0 {
                    push_str(out, ", ");
                }
                proof {
                    assert(decreases_to!(v@ => v@->Array_0));
                    assert(decreases_to!(v@->Array_0 => v@->Array_0[i as int]));
                }
                push_debug(out, &items[i]);
                proof {
                    if i == 0 {
                        assert(iv.take(1) =~= seq![iv[0]]);
                    }
                }
                assert(out@ =~= head + debug_items(iv.take(i + 1)));
                i += 1;
            }
            assert(iv.take(items.len() as int) =~= iv);
            push_str(out, "]");
            assert(out@ =~= start + json_debug(v@));
        },
        Json::Object(fields) => {
            proof {
                crate::json_value::lemma_object_view(*fields);
            }
            let ghost fv = crate::json_value::fields_view(fields@);
            push_str(out, "Object {");
            let ghost head = out@;
            let mut i: usize = 0;
            assert(fv.take(0) =~= Seq::<(Seq<char>, JsonView)>::empty());
            while i < fields.len()
                invariant
                    i <= fields.len(),
                    fv == crate::json_value::fields_view(fields@),
                    v@ == JsonView::Object(fv),
                    out@ == head + debug_entries(fv.take(i as int)),
                decreases fields.len() - i,
            {
                assert(fv.take(i + 1).drop_last() =~= fv.take(i as int));
                assert(fv.take(i + 1).last() == fv[i as int]);
                if i > 0 {
                    push_str(out, ", ");
                }
                push_str(out, debug_str(fields[i].0.as_str()).as_str());
                push_str(out, ": ");
                proof {
                    assert(decreases_to!(v@ => v@->Object_0));
                    assert(decreases_to!(v@->Object_0 => v@->Object_0[i as int]));
                    assert(decreases_to!(v@->Object_0[i as int] => v@->Object_0[i as int].1));
                }
                push_debug(out, &fields[i].1);
                proof {
                    if i == 0 {
                        assert(fv.take(1) =~= seq![fv[0]]);
                    }
                }
                assert(out@ =~= head + debug_entries(fv.take(i + 1)));
                i += 1;
            }
            assert(fv.take(fields.len() as int) =~= fv);
            push_str(out, "}");
            assert(out@ =~= start + json_debug(v@));
        },
    }
}

/// The debug rendering of an optional value: `None` or `Some(..)`.
pub open spec fn option_debug(v: Option<JsonView>) -> Seq<char> {
    match v {
        Some(x) => "Some("@ + json_debug(x) + ")"@,
        None => "None"@,
    }
}

/// The debug rendering of a comparer: its variant name.
pub open spec fn comparer_debug(c: Comparer) -> Seq<char> {
    match c {
        Comparer::Equal => "Equal"@,
        Comparer::Different => "Different"@,
        Comparer::GreaterThan => "GreaterThan"@,
        Comparer::GreaterThanOrEqual => "GreaterThanOrEqual"@,
        Comparer::LessThan => "LessThan"@,
        Comparer::LessThanOrEqual => "LessThanOrEqual"@,
        Comparer::Like => "Like"@,
        Comparer::IsNull => "IsNull"@,
        Comparer::IsNotNull => "IsNotNull"@,
    }
}

/// The debug rendering of a comparer.
fn comparer_name(c: Comparer) -> (s: &'static str)
    ensures
        s@ == comparer_debug(c),
{
    match c {
        Comparer::Equal => "Equal",
        Comparer::Different => "Different",
        Comparer::GreaterThan => "GreaterThan",
        Comparer::GreaterThanOrEqual => "GreaterThanOrEqual",
        Comparer::LessThan => "LessThan",
        Comparer::LessThanOrEqual => "LessThanOrEqual",
        Comparer::Like => "Like",
        Comparer::IsNull => "IsNull",
        Comparer::IsNotNull => "IsNotNull",
    }
}

// ----------------------------------------------------------------------------
// Criteria
// ----------------------------------------------------------------------------

/// A field compared with a value.
#[derive(Debug)]
pub struct Criteria {
    /// The field of the items.
    pub field: String,
    /// How it is compared.
    pub comparer: Comparer,
    /// The value it is compared with (`null` for the null checks).
    pub value: Json,
}

/// The plain value of an optional JSON value.
pub open spec fn opt_json_view(v: Option<Json>) -> Option<JsonView> {
    match v {
        Some(j) => Some(j@),
        None => None,
    }
}

/// A value that `=` and `!=` accept: a boolean, a number or a string.
pub open spec fn scalar_value(v: Option<JsonView>) -> bool {
    match v {
        Some(JsonView::Bool(_)) | Some(JsonView::Number(_, _)) | Some(JsonView::Str(_)) => true,
        _ => false,
    }
}

/// Whether `value` is allowed for `comparer`: a scalar for `=` and `!=`, a
/// number for the orderings, a string for `LIKE`, no value for the null checks.
pub open spec fn allowed_value(comparer: Comparer, value: Option<JsonView>) -> bool {
    match comparer {
        Comparer::Equal | Comparer::Different => scalar_value(value),
        Comparer::GreaterThan | Comparer::GreaterThanOrEqual | Comparer::LessThan
        | Comparer::LessThanOrEqual => value matches Some(JsonView::Number(_, _)),
        Comparer::Like => value matches Some(JsonView::Str(_)),
        Comparer::IsNull | Comparer::IsNotNull => value is None,
    }
}

/// Whether `=` accepts the value.
pub fn validate_for_equal(value: &Option<Json>) -> (r: bool)
    ensures
        r == scalar_value(opt_json_view(*value)),
{
    match value {
        Some(Json::Bool(_)) | Some(Json::Number(_)) | Some(Json::Str(_)) => true,
        _ => false,
    }
}

/// Whether `!=` accepts the value.
pub fn validate_for_different(value: &Option<Json>) -> (r: bool)
    ensures
        r == scalar_value(opt_json_view(*value)),
{
    validate_for_equal(value)
}

/// Whether the orderings accept the value: a number.
pub fn validate_for_greater_or_less_than(value: &Option<Json>) -> (r: bool)
    ensures
        r == opt_json_view(*value) matches Some(JsonView::Number(_, _)),
{
    match value {
        Some(Json::Number(_)) => true,
        _ => false,
    }
}

/// Whether `LIKE` accepts the value: a string.
pub fn validate_for_like(value: &Option<Json>) -> (r: bool)
    ensures
        r == opt_json_view(*value) matches Some(JsonView::Str(_)),
{
    match value {
        Some(Json::Str(_)) => true,
        _ => false,
    }
}

/// The message of a value that a comparer does not accept.
pub open spec fn not_allowed_message(value: Option<JsonView>, comparer: Comparer) -> Seq<char> {
    "The value "@ + option_debug(value) + " is not allowed for the comparer "@ + comparer_debug(comparer)
}

impl Criteria {
    /// The criteria, when the comparer accepts the value; the value is
    /// `null` when there is none.
    pub fn try_new(field: String, comparer: Comparer, value: Option<Json>) -> (r: Result<Criteria, String>)
        ensures
            allowed_value(comparer, opt_json_view(value)) ==> (r matches Ok(c) && c.field@ == field@
                && c.comparer == comparer && c.value@ == match opt_json_view(value) {
                Some(v) => v,
                None => JsonView::Null,
            }),
            !allowed_value(comparer, opt_json_view(value)) ==> (r matches Err(msg) && msg@
                == not_allowed_message(opt_json_view(value), comparer)),
    {
        let is_valid = match comparer {
            Comparer::Equal => validate_for_equal(&value),
            Comparer::Different => validate_for_different(&value),
            Comparer::GreaterThan => validate_for_greater_or_less_than(&value),
            Comparer::GreaterThanOrEqual => validate_for_greater_or_less_than(&value),
            Comparer::LessThan => validate_for_greater_or_less_than(&value),
            Comparer::LessThanOrEqual => validate_for_greater_or_less_than(&value),
            Comparer::Like => validate_for_like(&value),
            Comparer::IsNull => value.is_none(),
            Comparer::IsNotNull => value.is_none(),
        };
        if !is_valid {
            let mut msg = chars_of("The value ");
            match &value {
                Some(v) => {
                    push_str(&mut msg, "Some(");
                    push_debug(&mut msg, v);
                    push_str(&mut msg, ")");
                },
                None => push_str(&mut msg, "None"),
            }
            push_str(&mut msg, " is not allowed for the comparer ");
            push_str(&mut msg, comparer_name(comparer));
            assert(msg@ =~= not_allowed_message(opt_json_view(value), comparer));
            return Err(string_of(&msg));
        }
        let value = match value {
            Some(v) => v,
            None => Json::Null,
        };
        Ok(Criteria { field, comparer, value })
    }
}

// ----------------------------------------------------------------------------
// Values written in criteria text
// ----------------------------------------------------------------------------

/// `str::parse::<i64>`: an optional sign and at least one digit, in range.
pub open spec fn parsed_i64(s: Seq<char>) -> Option<int> {
    let signed = s.len() > 0 && (s[0] == '-' || s[0] == '+');
    let digits = if signed {
        s.drop_first()
    } else {
        s
    };
    let value = if s.len() > 0 && s[0] == '-' {
        -digits_value(digits)
    } else {
        digits_value(digits)
    };
    if digits.len() > 0 && all_digits(digits) && i64::MIN <= value <= i64::MAX {
        Some(value)
    } else {
        None
    }
}

/// `str::parse::<i64>`.
pub fn parse_i64(s: &Vec<char>) -> (r: Option<i64>)
    ensures
        match r {
            Some(v) => parsed_i64(s@) == Some(v as int),
            None => parsed_i64(s@) is None,
        },
{
    let n = s.len();
    if n == 0 {
        return None;
    }
    let negative = s[0] == '-';
    let start: usize = if s[0] == '-' || s[0] == '+' {
        1
    } else {
        0
    };
    let ghost digits = s@.subrange(start as int, n as int);
    assert(digits =~= (if start == 1 {
        s@.drop_first()
    } else {
        s@
    }));
    if start == n {
        return None;
    }
    let cap: i128 = 9223372036854775809;
    let mut acc: i128 = 0;
    let mut k: usize = start;
    while k < n
        invariant
            start <= k <= n,
            n == s.len(),
            digits == s@.subrange(start as int, n as int),
            digits == (if s@.len() > 0 && (s@[0] == '-' || s@[0] == '+') {
                s@.drop_first()
            } else {
                s@
            }),
            cap == 9223372036854775809,
            all_digits(s@.subrange(start as int, k as int)),
            digits_value(s@.subrange(start as int, k as int)) >= 0,
            acc == (if digits_value(s@.subrange(start as int, k as int)) >= cap {
                cap as int
            } else {
                digits_value(s@.subrange(start as int, k as int))
            }),
        decreases n - k,
    {
        let c = s[k];
        if !('0' <= c && c <= '9') {
            assert(digits[k - start] == c);
            assert(!is_digit(digits[k - start]));
            assert(!all_digits(digits));
            return None;
        }
        let ghost prev = s@.subrange(start as int, k as int);
        let ghost next = s@.subrange(start as int, k + 1);
        assert(next.drop_last() =~= prev);
        assert(next.last() == c);
        let d: i128 = (c as u32 - 48) as i128;
        assert(d == (c as int) - ('0' as int));
        if acc < cap {
            acc = acc * 10 + d;
            if acc > cap {
                acc = cap;
            }
        }
        k += 1;
        assert(all_digits(next)) by {
            assert forall|i: int| 0 <= i < next.len() implies is_digit(#[trigger] next[i]) by {
                if i < next.len() - 1 {
                    assert(next[i] == prev[i]);
                }
            }
        }
    }
    assert(s@.subrange(start as int, n as int) =~= digits);
    let value: i128 = if negative {
        -acc
    } else {
        acc
    };
    if value < -9223372036854775808 || value > 9223372036854775807 {
        None
    } else {
        Some(value as i64)
    }
}

/// The decimal text of an `i64`.
fn i64_chars(v: i64) -> (out: Vec<char>)
    ensures
        out@ == int_text(v as int),
{
    if v < 0 {
        let mut out = chars_of("-");
        let magnitude: u64 = (-(v as i128)) as u64;
        push_all(&mut out, &decimal_chars(magnitude));
        out
    } else {
        decimal_chars(v as u64)
    }
}

/// Whether `c` marks an exponent.
pub open spec fn is_exp_mark(c: char) -> bool {
    c == 'e' || c == 'E'
}

/// Position of the first exponent mark, or the length.
pub open spec fn exp_index(s: Seq<char>) -> int
    decreases s.len(),
{
    if s.len() == 0 {
        0
    } else if is_exp_mark(s[0]) {
        0
    } else {
        1 + exp_index(s.drop_first())
    }
}

/// Digits without their leading zeros, or `0` when nothing is left.
pub open spec fn int_part(digits: Seq<char>) -> Seq<char>
    decreases digits.len(),
{
    if digits.len() == 0 {
        "0"@
    } else if digits[0] == '0' {
        int_part(digits.drop_first())
    } else {
        digits
    }
}

/// The literal without its sign.
pub open spec fn unsigned_part(s: Seq<char>) -> Seq<char> {
    if s.len() > 0 && (s[0] == '-' || s[0] == '+') {
        s.drop_first()
    } else {
        s
    }
}

/// The mantissa: the part before the first exponent mark.
pub open spec fn mantissa_of(body: Seq<char>) -> Seq<char> {
    body.take(exp_index(body))
}

/// The exponent: from the first exponent mark on (empty when there is none).
pub open spec fn exponent_of(body: Seq<char>) -> Seq<char> {
    body.skip(exp_index(body))
}

/// The digits of the mantissa before its point.
pub open spec fn int_digits(mant: Seq<char>) -> Seq<char> {
    mant.take(first_index_of(mant, '.'))
}

/// The characters of the mantissa after its point (empty without a point).
pub open spec fn frac_digits(mant: Seq<char>) -> Seq<char> {
    if first_index_of(mant, '.') < mant.len() {
        mant.skip(first_index_of(mant, '.') + 1)
    } else {
        Seq::empty()
    }
}

/// The exponent without its mark.
pub open spec fn exp_tail(exp: Seq<char>) -> Seq<char> {
    if exp.len() > 0 {
        exp.drop_first()
    } else {
        Seq::empty()
    }
}

/// The exponent's digits: its tail without a sign.
pub open spec fn exp_digits_of(tail: Seq<char>) -> Seq<char> {
    if tail.len() > 0 && (tail[0] == '+' || tail[0] == '-') {
        tail.drop_first()
    } else {
        tail
    }
}

/// Whether the parts form a decimal float literal: digits on both sides of
/// the point, at least one digit, and an exponent with digits if any.
pub open spec fn float_parts_valid(ip: Seq<char>, fp: Seq<char>, exp: Seq<char>) -> bool {
    all_digits(ip) && all_digits(fp) && ip.len() + fp.len() > 0 && (exp.len() == 0 || (
    exp_digits_of(exp_tail(exp)).len() > 0 && all_digits(exp_digits_of(exp_tail(exp)))))
}

/// The JSON number text of valid parts.
pub open spec fn float_parts_json(negative: bool, ip: Seq<char>, fp: Seq<char>, exp: Seq<char>) -> Seq<char> {
    (if negative {
        "-"@
    } else {
        Seq::empty()
    }) + int_part(ip) + "."@ + (if fp.len() > 0 {
        fp
    } else {
        "0"@
    }) + (if exp.len() > 0 {
        "e"@ + exp_tail(exp)
    } else {
        Seq::empty()
    })
}

/// A decimal float literal (the grammar of `str::parse::<f64>` for finite
/// numbers: an optional sign, digits with an optional fraction, at least one
/// digit, an optional exponent) rewritten as a JSON number with a fraction:
/// no `+`, no leading zeros, at least one digit on each side of the point.
pub open spec fn float_json(s: Seq<char>) -> Option<Seq<char>> {
    let body = unsigned_part(s);
    let mant = mantissa_of(body);
    let exp = exponent_of(body);
    if float_parts_valid(int_digits(mant), frac_digits(mant), exp) {
        Some(float_parts_json(s.len() > 0 && s[0] == '-', int_digits(mant), frac_digits(mant), exp))
    } else {
        None
    }
}

/// Facts about [`exp_index`]: it lies in `[0, len]`, no mark comes before
/// it, and it is a mark unless it is the end.
pub proof fn lemma_exp_index(s: Seq<char>)
    ensures
        0 <= exp_index(s) <= s.len(),
        forall|j: int| 0 <= j < exp_index(s) ==> !is_exp_mark(s[j]),
        exp_index(s) < s.len() ==> is_exp_mark(s[exp_index(s)]),
    decreases s.len(),
{
    if s.len() > 0 && !is_exp_mark(s[0]) {
        lemma_exp_index(s.drop_first());
        assert forall|j: int| 0 <= j < exp_index(s) implies !is_exp_mark(s[j]) by {
            if j > 0 {
                assert(s[j] == s.drop_first()[j - 1]);
            }
        }
    }
}

/// The position of the first exponent mark, or the length.
fn find_exp(s: &Vec<char>) -> (k: usize)
    ensures
        k == exp_index(s@),
{
    proof {
        lemma_exp_index(s@);
    }
    let mut k: usize = 0;
    while k < s.len() && !(s[k] == 'e' || s[k] == 'E')
        invariant
            k <= s.len(),
            forall|j: int| 0 <= j < k ==> !is_exp_mark(s@[j]),
            0 <= exp_index(s@) <= s@.len(),
            forall|j: int| 0 <= j < exp_index(s@) ==> !is_exp_mark(s@[j]),
            exp_index(s@) < s@.len() ==> is_exp_mark(s@[exp_index(s@)]),
        decreases s.len() - k,
    {
        k += 1;
    }
    k
}

/// Whether every character is an ASCII digit.
fn digits_only(s: &Vec<char>) -> (r: bool)
    ensures
        r == all_digits(s@),
{
    let mut k: usize = 0;
    while k < s.len()
        invariant
            k <= s.len(),
            forall|j: int| 0 <= j < k ==> is_digit(#[trigger] s@[j]),
        decreases s.len() - k,
    {
        if !('0' <= s[k] && s[k] <= '9') {
            assert(!is_digit(s@[k as int]));
            return false;
        }
        k += 1;
    }
    true
}

/// Digits without their leading zeros, or `0`.
fn int_part_chars(digits: &Vec<char>) -> (out: Vec<char>)
    ensures
        out@ == int_part(digits@),
{
    let mut k: usize = 0;
    assert(digits@.skip(0) =~= digits@);
    while k < digits.len() && digits[k] == '0'
        invariant
            k <= digits.len(),
            int_part(digits@) == int_part(digits@.skip(k as int)),
        decreases digits.len() - k,
    {
        assert(digits@.skip(k as int).drop_first() =~= digits@.skip(k + 1));
        k += 1;
    }
    if k == digits.len() {
        assert(digits@.skip(k as int) =~= Seq::<char>::empty());
        chars_of("0")
    } else {
        let out = crate::text::sub_chars(digits, k, digits.len());
        assert(out@ =~= digits@.skip(k as int));
        out
    }
}

/// The mantissa and the exponent of a literal without its sign.
fn split_exponent(body: &Vec<char>) -> (r: (Vec<char>, Vec<char>))
    ensures
        r.0@ == mantissa_of(body@),
        r.1@ == exponent_of(body@),
{
    let e = find_exp(body);
    proof {
        lemma_exp_index(body@);
    }
    let mant = crate::text::sub_chars(body, 0, e);
    let exp = crate::text::sub_chars(body, e, body.len());
    assert(mant@ =~= body@.take(e as int));
    assert(exp@ =~= body@.skip(e as int));
    (mant, exp)
}

/// The digits before and after the point of a mantissa.
fn split_point(mant: &Vec<char>) -> (r: (Vec<char>, Vec<char>))
    ensures
        r.0@ == int_digits(mant@),
        r.1@ == frac_digits(mant@),
{
    let d = crate::text::find_char(mant, '.');
    proof {
        lemma_first_index_of(mant@, '.');
    }
    let ip = crate::text::sub_chars(mant, 0, d);
    assert(ip@ =~= mant@.take(d as int));
    if d < mant.len() {
        let fp = crate::text::sub_chars(mant, d + 1, mant.len());
        assert(fp@ =~= mant@.skip(d + 1));
        (ip, fp)
    } else {
        (ip, Vec::new())
    }
}

/// Whether an exponent is empty or has digits after its mark and sign.
fn exponent_valid(exp: &Vec<char>) -> (r: bool)
    ensures
        r == (exp@.len() == 0 || (exp_digits_of(exp_tail(exp@)).len() > 0 && all_digits(
            exp_digits_of(exp_tail(exp@)),
        ))),
{
    if exp.len() == 0 {
        return true;
    }
    let tail = crate::text::sub_chars(exp, 1, exp.len());
    assert(tail@ =~= exp_tail(exp@));
    let digits = if tail.len() > 0 && (tail[0] == '+' || tail[0] == '-') {
        crate::text::sub_chars(&tail, 1, tail.len())
    } else {
        crate::text::sub_chars(&tail, 0, tail.len())
    };
    assert(digits@ =~= exp_digits_of(tail@));
    digits.len() > 0 && digits_only(&digits)
}

/// The JSON number text of valid parts.
fn assemble_float(negative: bool, ip: &Vec<char>, fp: &Vec<char>, exp: &Vec<char>) -> (out: Vec<char>)
    ensures
        out@ == float_parts_json(negative, ip@, fp@, exp@),
{
    proof {
        reveal_strlit("-");
        reveal_strlit(".");
        reveal_strlit("0");
        reveal_strlit("e");
    }
    let mut out: Vec<char> = Vec::new();
    if negative {
        out.push('-');
    }
    push_all(&mut out, &int_part_chars(ip));
    out.push('.');
    if fp.len() > 0 {
        push_all(&mut out, fp);
    } else {
        out.push('0');
    }
    if exp.len() > 0 {
        out.push('e');
        let tail = crate::text::sub_chars(exp, 1, exp.len());
        assert(tail@ =~= exp_tail(exp@));
        push_all(&mut out, &tail);
    }
    assert(out@ =~= float_parts_json(negative, ip@, fp@, exp@));
    out
}

/// A decimal float literal rewritten as a JSON number with a fraction.
pub fn float_json_text(s: &Vec<char>) -> (r: Option<Vec<char>>)
    ensures
        match r {
            Some(j) => float_json(s@) == Some(j@),
            None => float_json(s@) is None,
        },
{
    let n = s.len();
    let signed = n > 0 && (s[0] == '-' || s[0] == '+');
    let body = if signed {
        crate::text::sub_chars(s, 1, n)
    } else {
        crate::text::sub_chars(s, 0, n)
    };
    assert(body@ =~= unsigned_part(s@));
    let (mant, exp) = split_exponent(&body);
    let (ip, fp) = split_point(&mant);
    let valid = digits_only(&ip) && digits_only(&fp) && (ip.len() > 0 || fp.len() > 0) && exponent_valid(
        &exp,
    );
    if !valid {
        return None;
    }
    let negative = n > 0 && s[0] == '-';
    Some(assemble_float(negative, &ip, &fp, &exp))
}

/// What serde_json parses a JSON number text into: its display text and its
/// value when it is a `u64`; nothing when the text is not a JSON number or
/// its value is out of range. Named: number parsing takes pages.
pub uninterp spec fn json_number_of(text: Seq<char>) -> Option<(Seq<char>, Option<u64>)>;

/// `text.parse::<serde_json::Number>()`, read as its display text and its
/// `u64` value. With the `float_roundtrip` feature, a number with a fraction
/// is the correctly rounded `f64` of its text, as `str::parse::<f64>` gives it.
#[verifier::external_body]
fn json_number(text: &str) -> (r: Option<JsonNumber>)
    ensures
        match r {
            Some(num) => json_number_of(text@) == Some((num.text@, num.unsigned)),
            None => json_number_of(text@) is None,
        },
{
    match text.parse::<serde_json::Number>() {
        Ok(num) => Some(JsonNumber { text: num.to_string(), unsigned: num.as_u64() }),
        Err(_) => None,
    }
}

/// Whether a value is written in quotes: at least two characters, starting
/// and ending with the same quote, `"` or `'`.
pub open spec fn quoted(s: Seq<char>) -> bool {
    s.len() >= 2 && ((s[0] == '"' && s.last() == '"') || (s[0] == '\'' && s.last() == '\''))
}

/// The JSON value a criteria's value text denotes: a quoted text is a string
/// (without its quotes); `true`, `false` and `null` in any case are
/// themselves; an `i64` literal is an integer; a decimal float literal with
/// a finite value is a number; anything else is the text as a string.
pub open spec fn parsed_value(s: Seq<char>) -> JsonView {
    if quoted(s) {
        JsonView::Str(s.subrange(1, s.len() - 1))
    } else if ascii_lower(s) == "true"@ {
        JsonView::Bool(true)
    } else if ascii_lower(s) == "false"@ {
        JsonView::Bool(false)
    } else if ascii_lower(s) == "null"@ {
        JsonView::Null
    } else {
        match parsed_i64(s) {
            Some(v) => JsonView::Number(
                int_text(v),
                if v >= 0 {
                    Some(v as u64)
                } else {
                    None
                },
            ),
            None => match float_json(s) {
                Some(j) => match json_number_of(j) {
                    Some((t, u)) => JsonView::Number(t, u),
                    None => JsonView::Str(s),
                },
                None => JsonView::Str(s),
            },
        }
    }
}

/// The JSON value a criteria's value text denotes. `str::to_lowercase` is
/// compared with `true`, `false` and `null` as ASCII lowercase: no other
/// character lowercases to one of their letters.
pub fn parse_value(value_str: &str) -> (v: Json)
    ensures
        v@ == parsed_value(value_str@),
{
    let chars = chars_of(value_str);
    let n = chars.len();
    if n >= 2 && ((chars[0] == '"' && chars[n - 1] == '"') || (chars[0] == '\'' && chars[n - 1] == '\'')) {
        let inner = crate::text::sub_chars(&chars, 1, n - 1);
        return Json::Str(string_of(&inner));
    }
    let lower = crate::text::lower_chars(&chars);
    if crate::text::chars_eq_str(&lower, "true") {
        return Json::Bool(true);
    }
    if crate::text::chars_eq_str(&lower, "false") {
        return Json::Bool(false);
    }
    if crate::text::chars_eq_str(&lower, "null") {
        return Json::Null;
    }
    match parse_i64(&chars) {
        Some(v) => {
            let text = string_of(&i64_chars(v));
            let unsigned = if v >= 0 {
                Some(v as u64)
            } else {
                None
            };
            return Json::Number(JsonNumber { text, unsigned });
        },
        None => {},
    }
    match float_json_text(&chars) {
        Some(j) => match json_number(string_of(&j).as_str()) {
            Some(num) => Json::Number(num),
            None => Json::Str(value_str.to_string()),
        },
        None => Json::Str(value_str.to_string()),
    }
}

// ----------------------------------------------------------------------------
// Criteria read from text
// ----------------------------------------------------------------------------

/// `str::split_whitespace`, as the words found so far and the word being read.
pub open spec fn words_acc(s: Seq<char>) -> (Seq<Seq<char>>, Seq<char>)
    decreases s.len(),
{
    if s.len() == 0 {
        (Seq::empty(), Seq::empty())
    } else {
        let (done, current) = words_acc(s.drop_last());
        if crate::text::is_ws(s.last()) {
            if current.len() > 0 {
                (done.push(current), Seq::empty())
            } else {
                (done, Seq::empty())
            }
        } else {
            (done, current.push(s.last()))
        }
    }
}

/// `str::split_whitespace`: the non-empty runs of characters between
/// whitespace, in order.
pub open spec fn words(s: Seq<char>) -> Seq<Seq<char>> {
    let (done, current) = words_acc(s);
    if current.len() > 0 {
        done.push(current)
    } else {
        done
    }
}

/// `str::split_whitespace`.
pub fn split_words(s: &Vec<char>) -> (out: Vec<Vec<char>>)
    ensures
        crate::text::seqs_view(out@) == words(s@),
{
    let mut done: Vec<Vec<char>> = Vec::new();
    let mut current: Vec<char> = Vec::new();
    let mut i: usize = 0;
    assert(s@.take(0) =~= Seq::<char>::empty());
    assert(crate::text::seqs_view(done@) =~= Seq::<Seq<char>>::empty());
    while i < s.len()
        invariant
            i <= s.len(),
            (crate::text::seqs_view(done@), current@) == words_acc(s@.take(i as int)),
        decreases s.len() - i,
    {
        assert(s@.take(i + 1).drop_last() =~= s@.take(i as int));
        assert(s@.take(i + 1).last() == s@[i as int]);
        let ghost before = crate::text::seqs_view(done@);
        if crate::text::is_whitespace(s[i]) {
            if current.len() > 0 {
                let ghost cur = current@;
                done.push(current);
                current = Vec::new();
                assert(crate::text::seqs_view(done@) =~= before.push(cur));
            } else {
                current = Vec::new();
            }
            assert(current@ =~= Seq::<char>::empty());
        } else {
            current.push(s[i]);
        }
        i += 1;
    }
    assert(s@.take(s.len() as int) =~= s@);
    if current.len() > 0 {
        let ghost before = crate::text::seqs_view(done@);
        let ghost cur = current@;
        done.push(current);
        assert(crate::text::seqs_view(done@) =~= before.push(cur));
    }
    done
}

/// Words joined with single spaces.
pub open spec fn joined_words(ws: Seq<Seq<char>>) -> Seq<char>
    decreases ws.len(),
{
    if ws.len() == 0 {
        Seq::empty()
    } else if ws.len() == 1 {
        ws[0]
    } else {
        joined_words(ws.drop_last()) + " "@ + ws.last()
    }
}

/// The words from position `k` on, joined with single spaces.
fn join_from(ws: &Vec<Vec<char>>, k: usize) -> (out: Vec<char>)
    requires
        k <= ws.len(),
    ensures
        out@ == joined_words(crate::text::seqs_view(ws@).skip(k as int)),
{
    let ghost wv = crate::text::seqs_view(ws@);
    let mut out: Vec<char> = Vec::new();
    let mut i: usize = k;
    assert(wv.skip(k as int).take(0) =~= Seq::<Seq<char>>::empty());
    while i < ws.len()
        invariant
            k <= i <= ws.len(),
            wv == crate::text::seqs_view(ws@),
            out@ == joined_words(wv.skip(k as int).take(i - k)),
        decreases ws.len() - i,
    {
        let ghost part = wv.skip(k as int).take(i + 1 - k);
        assert(part.drop_last() =~= wv.skip(k as int).take(i - k));
        assert(part.last() == ws@[i as int]@);
        if i > k {
            push_str(&mut out, " ");
        }
        push_all(&mut out, &ws[i]);
        proof {
            if i == k {
                assert(part =~= seq![ws@[i as int]@]);
            }
        }
        assert(out@ =~= joined_words(part));
        i += 1;
    }
    assert(wv.skip(k as int).take(ws.len() - k) =~= wv.skip(k as int));
    out
}

/// The value written from word `k` on, if any.
pub open spec fn value_words(parts: Seq<Seq<char>>, k: int) -> Option<JsonView> {
    if parts.len() > k {
        Some(parsed_value(joined_words(parts.skip(k))))
    } else {
        None
    }
}

/// Field, comparer and value read from the words of a criteria, before the
/// value is checked against the comparer.
pub open spec fn criteria_words(text: Seq<char>) -> Result<(Seq<char>, Comparer, Option<JsonView>), Seq<char>> {
    let parts = words(text);
    if parts.len() < 2 {
        Err("Invalid Criteria: '"@ + text + "'. Must have at least field and operator"@)
    } else if parts.len() >= 3 && crate::text::unicode_upper(parts[1]) == "IS"@ {
        if parts.len() >= 4 && crate::text::unicode_upper(parts[2]) == "NOT"@
            && crate::text::unicode_upper(parts[3]) == "NULL"@ {
            let op = parts[1] + " "@ + parts[2] + " "@ + parts[3];
            match comparer_of(op) {
                Some(c) => Ok((parts[0], c, value_words(parts, 4))),
                None => Err(invalid_comparer_message(op)),
            }
        } else if crate::text::unicode_upper(parts[2]) == "NULL"@ {
            let op = parts[1] + " "@ + parts[2];
            match comparer_of(op) {
                Some(c) => Ok((parts[0], c, value_words(parts, 3))),
                None => Err(invalid_comparer_message(op)),
            }
        } else {
            Err("Invalid operator starting with 'IS' in: '"@ + text + "'"@)
        }
    } else {
        match comparer_of(parts[1]) {
            Some(c) => Ok((parts[0], c, value_words(parts, 2))),
            None => Err(invalid_comparer_message(parts[1])),
        }
    }
}

/// A criteria read from text such as `age >= 18` or `email IS NOT NULL`:
/// the field, the comparer and the value when the comparer accepts it.
pub open spec fn criteria_of_text(text: Seq<char>) -> Result<(Seq<char>, Comparer, JsonView), Seq<char>> {
    match criteria_words(text) {
        Ok((field, comparer, value)) => if allowed_value(comparer, value) {
            Ok(
                (
                    field,
                    comparer,
                    match value {
                        Some(v) => v,
                        None => JsonView::Null,
                    },
                ),
            )
        } else {
            Err(not_allowed_message(value, comparer))
        },
        Err(e) => Err(e),
    }
}

/// Whether the word uppercases to `target`.
fn upper_is(word: &Vec<char>, target: &str) -> (r: bool)
    ensures
        r == (crate::text::unicode_upper(word@) == target@),
{
    let up = crate::text::to_uppercase(string_of(word).as_str());
    crate::text::chars_eq_str(&chars_of(up.as_str()), target)
}

impl Criteria {
    /// Reads a criteria from text: a field, a comparer (`IS NULL` and
    /// `IS NOT NULL` are words of their own) and the rest as the value.
    pub fn try_from(value: &str) -> (r: Result<Criteria, String>)
        ensures
            match r {
                Ok(c) => criteria_of_text(value@) == Ok::<(Seq<char>, Comparer, JsonView), Seq<char>>(
                    (c.field@, c.comparer, c.value@),
                ),
                Err(m) => criteria_of_text(value@) == Err::<(Seq<char>, Comparer, JsonView), Seq<char>>(
                    m@,
                ),
            },
    {
        let text = chars_of(value);
        let parts = split_words(&text);
        let ghost pv = crate::text::seqs_view(parts@);
        if parts.len() < 2 {
            let mut msg = chars_of("Invalid Criteria: '");
            push_str(&mut msg, value);
            push_str(&mut msg, "'. Must have at least field and operator");
            return Err(string_of(&msg));
        }
        let field = string_of(&parts[0]);
        let mut op: Vec<char> = Vec::new();
        let start: usize;
        if parts.len() >= 3 && upper_is(&parts[1], "IS") {
            if parts.len() >= 4 && upper_is(&parts[2], "NOT") && upper_is(&parts[3], "NULL") {
                push_all(&mut op, &parts[1]);
                push_str(&mut op, " ");
                push_all(&mut op, &parts[2]);
                push_str(&mut op, " ");
                push_all(&mut op, &parts[3]);
                start = 4;
            } else if upper_is(&parts[2], "NULL") {
                push_all(&mut op, &parts[1]);
                push_str(&mut op, " ");
                push_all(&mut op, &parts[2]);
                start = 3;
            } else {
                let mut msg = chars_of("Invalid operator starting with 'IS' in: '");
                push_str(&mut msg, value);
                push_str(&mut msg, "'");
                return Err(string_of(&msg));
            }
        } else {
            push_all(&mut op, &parts[1]);
            start = 2;
        }
        let comparer = match Comparer::try_from(string_of(&op).as_str()) {
            Ok(c) => c,
            Err(e) => return Err(e),
        };
        let criteria_value = if parts.len() > start {
            let joined = join_from(&parts, start);
            Some(parse_value(string_of(&joined).as_str()))
        } else {
            None
        };
        assert(criteria_words(value@) == Ok::<(Seq<char>, Comparer, Option<JsonView>), Seq<char>>(
            (field@, comparer, opt_json_view(criteria_value)),
        ));
        Criteria::try_new(field, comparer, criteria_value)
    }
}

// ----------------------------------------------------------------------------
// Items checked against criteria
// ----------------------------------------------------------------------------

/// Whether serde_json holds two number texts for equal numbers (`Number`'s
/// `==`: the same integer, or the same `f64`). Named: it goes through number
/// parsing.
pub uninterp spec fn serde_number_eq(a: Seq<char>, b: Seq<char>) -> bool;

/// `==` of the serde_json numbers that two texts parse into; `false` when a
/// text does not parse.
#[verifier::external_body]
fn number_eq(a: &str, b: &str) -> (r: bool)
    ensures
        r == serde_number_eq(a@, b@),
{
    match (a.parse::<serde_json::Number>(), b.parse::<serde_json::Number>()) {
        (Ok(x), Ok(y)) => x == y,
        _ => false,
    }
}

/// `==` of JSON values as serde_json defines it: objects are equal when they
/// have the same keys with equal values, whatever their order.
pub open spec fn json_eq(a: JsonView, b: JsonView) -> bool
    decreases a,
{
    match (a, b) {
        (JsonView::Null, JsonView::Null) => true,
        (JsonView::Bool(x), JsonView::Bool(y)) => x == y,
        (JsonView::Number(x, _), JsonView::Number(y, _)) => serde_number_eq(x, y),
        (JsonView::Str(x), JsonView::Str(y)) => x == y,
        (JsonView::Array(xs), JsonView::Array(ys)) => xs.len() == ys.len() && items_eq(xs, ys),
        (JsonView::Object(fa), JsonView::Object(fb)) => fa.len() == fb.len() && fields_in(fa, fb),
        _ => false,
    }
}

/// Items equal position by position (up to the length of `xs`).
pub open spec fn items_eq(xs: Seq<JsonView>, ys: Seq<JsonView>) -> bool
    decreases xs,
{
    if xs.len() == 0 {
        true
    } else {
        items_eq(xs.drop_last(), ys) && xs.len() <= ys.len() && json_eq(xs.last(), ys[xs.len() - 1])
    }
}

/// Every field of `fa` is in `fb` with an equal value.
pub open spec fn fields_in(fa: Seq<(Seq<char>, JsonView)>, fb: Seq<(Seq<char>, JsonView)>) -> bool
    decreases fa,
{
    if fa.len() == 0 {
        true
    } else {
        fields_in(fa.drop_last(), fb) && match field_value(fb, fa.last().0) {
            Some(w) => json_eq(fa.last().1, w),
            None => false,
        }
    }
}

/// `==` of JSON values.
pub fn json_equal(a: &Json, b: &Json) -> (r: bool)
    ensures
        r == json_eq(a@, b@),
    decreases a@,
{
    match (a, b) {
        (Json::Null, Json::Null) => true,
        (Json::Bool(x), Json::Bool(y)) => *x == *y,
        (Json::Number(x), Json::Number(y)) => number_eq(x.text.as_str(), y.text.as_str()),
        (Json::Str(x), Json::Str(y)) => crate::text::chars_eq(&chars_of(x.as_str()), &chars_of(y.as_str())),
        (Json::Array(xs), Json::Array(ys)) => {
            proof {
                crate::json_value::lemma_array_view(*xs);
                crate::json_value::lemma_array_view(*ys);
            }
            let ghost xv = xs@.map_values(|j: Json| j@);
            let ghost yv = ys@.map_values(|j: Json| j@);
            if xs.len() != ys.len() {
                return false;
            }
            let mut i: usize = 0;
            assert(xv.take(0) =~= Seq::<JsonView>::empty());
            while i < xs.len()
                invariant
                    i <= xs.len(),
                    xs.len() == ys.len(),
                    xv == xs@.map_values(|j: Json| j@),
                    yv == ys@.map_values(|j: Json| j@),
                    a@ == JsonView::Array(xv),
                    b@ == JsonView::Array(yv),
                    items_eq(xv.take(i as int), yv),
                decreases xs.len() - i,
            {
                assert(xv.take(i + 1).drop_last() =~= xv.take(i as int));
                assert(xv.take(i + 1).last() == xs@[i as int]@);
                proof {
                    assert(decreases_to!(a@ => a@->Array_0));
                    assert(decreases_to!(a@->Array_0 => a@->Array_0[i as int]));
                }
                if !json_equal(&xs[i], &ys[i]) {
                    assert(!items_eq(xv.take(i + 1), yv));
                    proof {
                        if items_eq(xv, yv) {
                            lemma_items_eq_prefix(xv, yv, i + 1);
                        }
                    }
                    return false;
                }
                i += 1;
            }
            assert(xv.take(xs.len() as int) =~= xv);
            true
        },
        (Json::Object(fa), Json::Object(fb)) => {
            proof {
                crate::json_value::lemma_object_view(*fa);
                crate::json_value::lemma_object_view(*fb);
            }
            let ghost av = crate::json_value::fields_view(fa@);
            let ghost bv = crate::json_value::fields_view(fb@);
            if fa.len() != fb.len() {
                return false;
            }
            let mut i: usize = 0;
            assert(av.take(0) =~= Seq::<(Seq<char>, JsonView)>::empty());
            while i < fa.len()
                invariant
                    i <= fa.len(),
                    av == crate::json_value::fields_view(fa@),
                    bv == crate::json_value::fields_view(fb@),
                    a@ == JsonView::Object(av),
                    b@ == JsonView::Object(bv),
                    fields_in(av.take(i as int), bv),
                decreases fa.len() - i,
            {
                assert(av.take(i + 1).drop_last() =~= av.take(i as int));
                assert(av.take(i + 1).last() == av[i as int]);
                let equal = match find_field_in(fb, fa[i].0.as_str()) {
                    Some(j) => {
                        proof {
                            assert(decreases_to!(a@ => a@->Object_0));
                            assert(decreases_to!(a@->Object_0 => a@->Object_0[i as int]));
                            assert(decreases_to!(a@->Object_0[i as int] => a@->Object_0[i as int].1));
                        }
                        json_equal(&fa[i].1, &fb[j].1)
                    },
                    None => false,
                };
                if !equal {
                    assert(!fields_in(av.take(i + 1), bv));
                    proof {
                        if fields_in(av, bv) {
                            lemma_fields_in_prefix(av, bv, i + 1);
                        }
                    }
                    return false;
                }
                i += 1;
            }
            assert(av.take(fa.len() as int) =~= av);
            true
        },
        _ => false,
    }
}

/// The position of the field named `key`.
fn find_field_in(fields: &Vec<(String, Json)>, key: &str) -> (r: Option<usize>)
    ensures
        match r {
            Some(i) => i < fields.len() && field_value(crate::json_value::fields_view(fields@), key@)
                == Some(fields@[i as int].1@),
            None => field_value(crate::json_value::fields_view(fields@), key@) is None,
        },
{
    crate::json_value::find_field(fields, key)
}

/// Items equal up to a length are equal up to any shorter one.
proof fn lemma_items_eq_prefix(xs: Seq<JsonView>, ys: Seq<JsonView>, k: int)
    requires
        0 <= k <= xs.len(),
        items_eq(xs, ys),
    ensures
        items_eq(xs.take(k), ys),
    decreases xs.len(),
{
    if k < xs.len() {
        lemma_items_eq_prefix(xs.drop_last(), ys, k);
        assert(xs.drop_last().take(k) =~= xs.take(k));
    } else {
        assert(xs.take(k) =~= xs);
    }
}

/// Fields found up to a length are found up to any shorter one.
proof fn lemma_fields_in_prefix(fa: Seq<(Seq<char>, JsonView)>, fb: Seq<(Seq<char>, JsonView)>, k: int)
    requires
        0 <= k <= fa.len(),
        fields_in(fa, fb),
    ensures
        fields_in(fa.take(k), fb),
    decreases fa.len(),
{
    if k < fa.len() {
        lemma_fields_in_prefix(fa.drop_last(), fb, k);
        assert(fa.drop_last().take(k) =~= fa.take(k));
    } else {
        assert(fa.take(k) =~= fa);
    }
}

/// How two numbers compare as `f64` values.
#[derive(Debug, Clone, Copy, PartialEq, Eq, Structural)]
pub enum NumberOrder {
    /// The first is smaller.
    Less,
    /// They are equal.
    Equal,
    /// The first is larger.
    Greater,
    /// They do not compare (a text that is not a number).
    Unordered,
}

/// How the `f64` values (`Number::as_f64`) of the serde_json numbers that two
/// texts parse into compare. Named: it compares floating-point values.
pub uninterp spec fn f64_order(a: Seq<char>, b: Seq<char>) -> NumberOrder;

/// `partial_cmp` of the `f64` values of two serde_json number texts.
#[verifier::external_body]
fn number_order(a: &str, b: &str) -> (r: NumberOrder)
    ensures
        r == f64_order(a@, b@),
{
    let x = a.parse::<serde_json::Number>().ok().and_then(|n| n.as_f64());
    let y = b.parse::<serde_json::Number>().ok().and_then(|n| n.as_f64());
    match (x, y) {
        (Some(x), Some(y)) => match x.partial_cmp(&y) {
            Some(std::cmp::Ordering::Less) => NumberOrder::Less,
            Some(std::cmp::Ordering::Equal) => NumberOrder::Equal,
            Some(std::cmp::Ordering::Greater) => NumberOrder::Greater,
            None => NumberOrder::Unordered,
        },
        _ => NumberOrder::Unordered,
    }
}

/// Whether the regex `pattern` compiles (`Some`) and matches somewhere in
/// `text` (`regex::Regex::new` then `is_match`). Named: regex matching takes pages.
pub uninterp spec fn regex_matches(pattern: Seq<char>, text: Seq<char>) -> Option<bool>;

/// `regex::Regex::new(pattern)` then `is_match(text)`; `None` when the
/// pattern does not compile.
#[verifier::external_body]
fn regex_is_match(pattern: &str, text: &str) -> (r: Option<bool>)
    ensures
        r == regex_matches(pattern@, text@),
{
    match regex::Regex::new(pattern) {
        Ok(re) => Some(re.is_match(text)),
        Err(_) => None,
    }
}

/// Whether a character is special in a regex and is escaped.
pub open spec fn regex_special(c: char) -> bool {
    c == '\\' || c == '^' || c == '$' || c == '.' || c == '[' || c == ']' || c == '|' || c == '('
        || c == ')' || c == '?' || c == '*' || c == '+' || c == '{' || c == '}'
}

/// The regex body of a `LIKE` pattern: `%` is any run, `_` any character,
/// special characters are escaped.
pub open spec fn like_regex(pattern: Seq<char>) -> Seq<char>
    decreases pattern.len(),
{
    if pattern.len() == 0 {
        Seq::empty()
    } else {
        let c = pattern.last();
        like_regex(pattern.drop_last()) + if c == '%' {
            ".*"@
        } else if c == '_' {
            "."@
        } else if regex_special(c) {
            seq!['\\', c]
        } else {
            seq![c]
        }
    }
}

/// The regex body of a `LIKE` pattern.
fn like_to_regex(pattern: &Vec<char>) -> (out: Vec<char>)
    ensures
        out@ == like_regex(pattern@),
{
    proof {
        reveal_strlit(".*");
        reveal_strlit(".");
    }
    let mut out: Vec<char> = Vec::new();
    let mut i: usize = 0;
    while i < pattern.len()
        invariant
            i <= pattern.len(),
            out@ == like_regex(pattern@.take(i as int)),
        decreases pattern.len() - i,
    {
        assert(pattern@.take(i + 1).drop_last() =~= pattern@.take(i as int));
        assert(pattern@.take(i + 1).last() == pattern@[i as int]);
        let c = pattern[i];
        let ghost before = out@;
        proof {
            reveal_strlit(".*");
            reveal_strlit(".");
        }
        assert(like_regex(pattern@.take(i + 1)) == before + if c == '%' {
            ".*"@
        } else if c == '_' {
            "."@
        } else if regex_special(c) {
            seq!['\\', c]
        } else {
            seq![c]
        });
        if c == '%' {
            out.push('.');
            out.push('*');
            assert(".*"@ =~= seq!['.', '*']);
        } else if c == '_' {
            out.push('.');
            assert("."@ =~= seq!['.']);
        } else if c == '\\' || c == '^' || c == '$' || c == '.' || c == '[' || c == ']' || c == '|'
            || c == '(' || c == ')' || c == '?' || c == '*' || c == '+' || c == '{' || c == '}' {
            out.push('\\');
            out.push(c);
        } else {
            out.push(c);
        }
        assert(out@ =~= like_regex(pattern@.take(i + 1)));
        i += 1;
    }
    assert(pattern@.take(pattern.len() as int) =~= pattern@);
    out
}

/// Characters that regex syntax reads as operators where they stand unescaped
/// outside a character class: `\ . + * ? ( ) | [ ] { } ^ $`. Written after a
/// backslash, each of them stands for itself.
pub open spec fn regex_meta(c: char) -> bool {
    c == '\\' || c == '.' || c == '+' || c == '*' || c == '?' || c == '(' || c == ')' || c == '|'
        || c == '[' || c == ']' || c == '{' || c == '}' || c == '^' || c == '$'
}

/// The one text a regex made only of literal atoms matches: an unescaped
/// character that is no operator stands for itself, and so does an operator
/// after a backslash; `None` for a regex with anything else in it.
pub open spec fn literal_text(r: Seq<char>) -> Option<Seq<char>>
    decreases r.len(),
{
    if r.len() == 0 {
        Some(Seq::empty())
    } else if r[0] == '\\' {
        if r.len() >= 2 && regex_meta(r[1]) {
            match literal_text(r.skip(2)) {
                Some(t) => Some(seq![r[1]] + t),
                None => None,
            }
        } else {
            None
        }
    } else if regex_meta(r[0]) {
        None
    } else {
        match literal_text(r.skip(1)) {
            Some(t) => Some(seq![r[0]] + t),
            None => None,
        }
    }
}

/// Literal regexes put one after the other match the texts one after the other.
proof fn lemma_literal_concat(x: Seq<char>, y: Seq<char>)
    requires
        literal_text(x) is Some,
        literal_text(y) is Some,
    ensures
        literal_text(x + y) == Some(literal_text(x)->0 + literal_text(y)->0),
    decreases x.len(),
{
    if x.len() > 0 {
        if x[0] == '\\' {
            assert((x + y).skip(2) =~= x.skip(2) + y);
            lemma_literal_concat(x.skip(2), y);
            assert(seq![x[1]] + (literal_text(x.skip(2))->0 + literal_text(y)->0) =~= (seq![x[1]]
                + literal_text(x.skip(2))->0) + literal_text(y)->0);
        } else {
            assert((x + y).skip(1) =~= x.skip(1) + y);
            lemma_literal_concat(x.skip(1), y);
            assert(seq![x[0]] + (literal_text(x.skip(1))->0 + literal_text(y)->0) =~= (seq![x[0]]
                + literal_text(x.skip(1))->0) + literal_text(y)->0);
        }
    } else {
        assert(x + y =~= y);
    }
}

/// A `LIKE` pattern without `%` or `_` matches literally: its regex is made
/// only of literal atoms, and the one text they match is the pattern itself,
/// every character of it, operators of regex syntax included, standing for
/// itself.
pub proof fn lemma_like_without_wildcards_is_literal(pattern: Seq<char>)
    requires
        forall|i: int| 0 <= i < pattern.len() ==> pattern[i] != '%' && pattern[i] != '_',
    ensures
        literal_text(like_regex(pattern)) == Some(pattern),
    decreases pattern.len(),
{
    if pattern.len() > 0 {
        let init = pattern.drop_last();
        let c = pattern.last();
        lemma_like_without_wildcards_is_literal(init);
        let atom = if regex_special(c) {
            seq!['\\', c]
        } else {
            seq![c]
        };
        assert(like_regex(pattern) == like_regex(init) + atom);
        if regex_special(c) {
            assert(atom.skip(2) =~= Seq::<char>::empty());
            assert(literal_text(atom.skip(2)) == Some(Seq::<char>::empty()));
            assert(seq![c] + Seq::<char>::empty() =~= seq![c]);
            assert(literal_text(atom) == Some(seq![c]));
        } else {
            assert(atom.skip(1) =~= Seq::<char>::empty());
            assert(literal_text(atom.skip(1)) == Some(Seq::<char>::empty()));
            assert(seq![c] + Seq::<char>::empty() =~= seq![c]);
            assert(literal_text(atom) == Some(seq![c]));
        }
        lemma_literal_concat(like_regex(init), atom);
        assert(init + seq![c] =~= pattern);
    }
}

/// One piece of a regex made of literals and dots: a character standing for
/// itself, `.` (any one character) or `.*` (any run of characters).
pub enum RegexAtom {
    /// A character standing for itself.
    Literal(char),
    /// `.`: any one character.
    AnyOne,
    /// `.*`: any run of characters.
    AnyRun,
}

/// The pieces of a regex made only of literal characters, escaped operators,
/// `.` and `.*`, read left to right as regex syntax reads them; `None` for a
/// regex with anything else in it.
pub open spec fn regex_atoms(r: Seq<char>) -> Option<Seq<RegexAtom>>
    decreases r.len(),
{
    if r.len() == 0 {
        Some(Seq::empty())
    } else if r[0] == '.' && r.len() >= 2 && r[1] == '*' {
        match regex_atoms(r.skip(2)) {
            Some(t) => Some(seq![RegexAtom::AnyRun] + t),
            None => None,
        }
    } else if r[0] == '.' {
        match regex_atoms(r.skip(1)) {
            Some(t) => Some(seq![RegexAtom::AnyOne] + t),
            None => None,
        }
    } else if r[0] == '\\' {
        if r.len() >= 2 && regex_meta(r[1]) {
            match regex_atoms(r.skip(2)) {
                Some(t) => Some(seq![RegexAtom::Literal(r[1])] + t),
                None => None,
            }
        } else {
            None
        }
    } else if regex_meta(r[0]) {
        None
    } else {
        match regex_atoms(r.skip(1)) {
            Some(t) => Some(seq![RegexAtom::Literal(r[0])] + t),
            None => None,
        }
    }
}

/// What a `LIKE` pattern asks for, character by character: `%` any run, `_`
/// any one character, anything else itself.
pub open spec fn like_atoms(pattern: Seq<char>) -> Seq<RegexAtom> {
    Seq::new(pattern.len(), |i: int| like_atom(pattern[i]))
}

/// What one character of a `LIKE` pattern asks for.
pub open spec fn like_atom(c: char) -> RegexAtom {
    if c == '%' {
        RegexAtom::AnyRun
    } else if c == '_' {
        RegexAtom::AnyOne
    } else {
        RegexAtom::Literal(c)
    }
}

/// One piece put before two runs of pieces.
proof fn lemma_cons_assoc(a: RegexAtom, b: Seq<RegexAtom>, c: Seq<RegexAtom>)
    ensures
        seq![a] + (b + c) == (seq![a] + b) + c,
{
    assert(seq![a] + (b + c) =~= (seq![a] + b) + c);
}

/// Regexes of such pieces put one after the other read as their pieces one
/// after the other.
proof fn lemma_atoms_concat(x: Seq<char>, y: Seq<char>)
    requires
        regex_atoms(x) is Some,
        regex_atoms(y) is Some,
    ensures
        regex_atoms(x + y) == Some(regex_atoms(x)->0 + regex_atoms(y)->0),
    decreases x.len(),
{
    if x.len() == 0 {
        assert(x + y =~= y);
        assert(regex_atoms(x)->0 + regex_atoms(y)->0 =~= regex_atoms(y)->0);
    } else {
        let xy = x + y;
        if x[0] == '.' && x.len() >= 2 && x[1] == '*' {
            assert(xy.skip(2) =~= x.skip(2) + y);
            lemma_atoms_concat(x.skip(2), y);
            assert(seq![RegexAtom::AnyRun] + (regex_atoms(x.skip(2))->0 + regex_atoms(y)->0)
                =~= (seq![RegexAtom::AnyRun] + regex_atoms(x.skip(2))->0) + regex_atoms(y)->0);
        } else if x[0] == '.' {
            assert(xy.skip(1) =~= x.skip(1) + y);
            lemma_atoms_concat(x.skip(1), y);
            if x.len() == 1 && y.len() > 0 {
                assert(y[0] != '*');
                assert(xy[1] == y[0]);
            }
            assert(seq![RegexAtom::AnyOne] + (regex_atoms(x.skip(1))->0 + regex_atoms(y)->0)
                =~= (seq![RegexAtom::AnyOne] + regex_atoms(x.skip(1))->0) + regex_atoms(y)->0);
        } else if x[0] == '\\' {
            assert(xy.skip(2) =~= x.skip(2) + y);
            lemma_atoms_concat(x.skip(2), y);
            lemma_cons_assoc(RegexAtom::Literal(x[1]), regex_atoms(x.skip(2))->0, regex_atoms(y)->0);
        } else {
            assert(xy.skip(1) =~= x.skip(1) + y);
            lemma_atoms_concat(x.skip(1), y);
            lemma_cons_assoc(RegexAtom::Literal(x[0]), regex_atoms(x.skip(1))->0, regex_atoms(y)->0);
        }
    }
}

/// A `LIKE` pattern becomes a regex that asks, piece by piece, what the
/// pattern asks: each `%` any run of characters, each `_` any one character,
/// and every other character itself, operators of regex syntax included.
pub proof fn lemma_like_regex_follows_pattern(pattern: Seq<char>)
    ensures
        regex_atoms(like_regex(pattern)) == Some(like_atoms(pattern)),
    decreases pattern.len(),
{
    reveal_strlit(".*");
    reveal_strlit(".");
    if pattern.len() == 0 {
        assert(like_atoms(pattern) =~= Seq::<RegexAtom>::empty());
    } else {
        let init = pattern.drop_last();
        let c = pattern.last();
        lemma_like_regex_follows_pattern(init);
        let atom: Seq<char> = if c == '%' {
            ".*"@
        } else if c == '_' {
            "."@
        } else if regex_special(c) {
            seq!['\\', c]
        } else {
            seq![c]
        };
        assert(like_regex(pattern) == like_regex(init) + atom);
        let want = seq![like_atom(c)];
        assert(regex_atoms(Seq::<char>::empty()) == Some(Seq::<RegexAtom>::empty()));
        if c == '%' {
            assert(atom =~= seq!['.', '*']);
            assert(atom.skip(2) =~= Seq::<char>::empty());
            assert(seq![RegexAtom::AnyRun] + Seq::<RegexAtom>::empty() =~= want);
        } else if c == '_' {
            assert(atom =~= seq!['.']);
            assert(atom.skip(1) =~= Seq::<char>::empty());
            assert(seq![RegexAtom::AnyOne] + Seq::<RegexAtom>::empty() =~= want);
        } else if regex_special(c) {
            assert(atom.skip(2) =~= Seq::<char>::empty());
            assert(seq![RegexAtom::Literal(c)] + Seq::<RegexAtom>::empty() =~= want);
        } else {
            assert(atom.skip(1) =~= Seq::<char>::empty());
            assert(seq![RegexAtom::Literal(c)] + Seq::<RegexAtom>::empty() =~= want);
        }
        assert(regex_atoms(atom) == Some(want));
        lemma_atoms_concat(like_regex(init), atom);
        assert(like_atoms(init) + want =~= like_atoms(pattern));
    }
}

/// Whether a text matches a `LIKE` pattern as a whole.
pub open spec fn like_matches(pattern: Seq<char>, text: Seq<char>) -> bool {
    regex_matches("^"@ + like_regex(pattern) + "$"@, text) == Some(true)
}

/// Whether `value` satisfies a comparer against the criteria's value:
/// equality as serde_json defines it; the orderings on the `f64` values of
/// two numbers (anything else fails); `LIKE` on two strings; the null checks
/// on the value alone.
pub open spec fn satisfies(comparer: Comparer, criteria_value: JsonView, value: JsonView) -> bool {
    match comparer {
        Comparer::Equal => json_eq(criteria_value, value),
        Comparer::Different => !json_eq(criteria_value, value),
        Comparer::GreaterThan => match (value, criteria_value) {
            (JsonView::Number(a, _), JsonView::Number(b, _)) => f64_order(a, b) == NumberOrder::Greater,
            _ => false,
        },
        Comparer::GreaterThanOrEqual => match (value, criteria_value) {
            (JsonView::Number(a, _), JsonView::Number(b, _)) => f64_order(a, b) == NumberOrder::Greater
                || f64_order(a, b) == NumberOrder::Equal,
            _ => false,
        },
        Comparer::LessThan => match (value, criteria_value) {
            (JsonView::Number(a, _), JsonView::Number(b, _)) => f64_order(a, b) == NumberOrder::Less,
            _ => false,
        },
        Comparer::LessThanOrEqual => match (value, criteria_value) {
            (JsonView::Number(a, _), JsonView::Number(b, _)) => f64_order(a, b) == NumberOrder::Less
                || f64_order(a, b) == NumberOrder::Equal,
            _ => false,
        },
        Comparer::Like => match (criteria_value, value) {
            (JsonView::Str(p), JsonView::Str(t)) => like_matches(p, t),
            _ => false,
        },
        Comparer::IsNull => value is Null,
        Comparer::IsNotNull => !(value is Null),
    }
}

/// Whether a text matches a `LIKE` pattern as a whole.
pub fn compare_like(criteria_value: &Json, actual_value: &Json) -> (r: bool)
    ensures
        r == match (criteria_value@, actual_value@) {
            (JsonView::Str(p), JsonView::Str(t)) => like_matches(p, t),
            _ => false,
        },
{
    match (criteria_value, actual_value) {
        (Json::Str(pattern), Json::Str(text)) => {
            let mut regex = chars_of("^");
            push_all(&mut regex, &like_to_regex(&chars_of(pattern.as_str())));
            push_str(&mut regex, "$");
            match regex_is_match(string_of(&regex).as_str(), text.as_str()) {
                Some(found) => found,
                None => false,
            }
        },
        _ => false,
    }
}

impl Criteria {
    /// Whether a value satisfies the criteria.
    pub fn compare_with(&self, value: &Json) -> (r: bool)
        ensures
            r == satisfies(self.comparer, self.value@, value@),
    {
        match self.comparer {
            Comparer::Equal => json_equal(&self.value, value),
            Comparer::Different => !json_equal(&self.value, value),
            Comparer::GreaterThan | Comparer::GreaterThanOrEqual | Comparer::LessThan
            | Comparer::LessThanOrEqual => match (value, &self.value) {
                (Json::Number(a), Json::Number(b)) => {
                    let order = number_order(a.text.as_str(), b.text.as_str());
                    match self.comparer {
                        Comparer::GreaterThan => order == NumberOrder::Greater,
                        Comparer::GreaterThanOrEqual => order == NumberOrder::Greater || order
                            == NumberOrder::Equal,
                        Comparer::LessThan => order == NumberOrder::Less,
                        _ => order == NumberOrder::Less || order == NumberOrder::Equal,
                    }
                },
                _ => false,
            },
            Comparer::Like => compare_like(&self.value, value),
            Comparer::IsNull => match value {
                Json::Null => true,
                _ => false,
            },
            Comparer::IsNotNull => match value {
                Json::Null => false,
                _ => true,
            },
        }
    }

    /// Whether an object's field satisfies the criteria; an object without
    /// the field does not.
    pub fn compare_item(&self, item: &Vec<(String, Json)>) -> (r: bool)
        ensures
            r == match field_value(crate::json_value::fields_view(item@), self.field@) {
                Some(v) => satisfies(self.comparer, self.value@, v),
                None => false,
            },
    {
        match find_field_in(item, self.field.as_str()) {
            Some(i) => self.compare_with(&item[i].1),
            None => false,
        }
    }
}

} // verus!
