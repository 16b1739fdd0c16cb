//! Criteria trees read from `WHERE` clauses: split at the outermost boolean
//! operator, grouped by parentheses, down to single constraints.

use vstd::prelude::*;

use crate::criteria::{criteria_of_text, Criteria as Constraint};
use crate::memory_db::criteria::{
    invalid_operator_message, operator_of_word, Criteria, CriteriaTree, Operator,
};
use crate::text::{
    ascii_upper, ascii_upper_char, chars_of, contains_sub, is_whitespace, is_ws, push_str, string_of,
    trim, trim_end, trim_start, upper_char,
};

verus! {

/// Builds criteria trees from `WHERE` clauses.
#[derive(Debug, Clone, Copy, PartialEq, Eq, Structural)]
pub struct CriteriaBuilder;

/// Parenthesis depth before position `i`: opening minus closing parentheses in `s[..i]`.
pub open spec fn paren_depth(s: Seq<char>, i: int) -> int
    decreases i,
{
    if i <= 0 {
        0
    } else {
        paren_depth(s, i - 1) + if s[i - 1] == '(' {
            1int
        } else if s[i - 1] == ')' {
            -1int
        } else {
            0int
        }
    }
}

/// `w` occurs at `i` as a whole word, in any letter case: whitespace or the
/// string's edge on both sides.
pub open spec fn whole_word_at(s: Seq<char>, i: int, w: Seq<char>) -> bool {
    &&& 0 <= i
    &&& i + w.len() <= s.len()
    &&& ascii_upper(s.subrange(i, i + w.len())) == w
    &&& (i == 0 || is_ws(s[i - 1]))
    &&& (i + w.len() == s.len() || is_ws(s[i + w.len()]))
}

/// End of the operator (`AND` or `OR`) that starts at `i` outside parentheses, if any.
pub open spec fn operator_end_at(s: Seq<char>, i: int) -> Option<int> {
    if paren_depth(s, i) != 0 {
        None
    } else if whole_word_at(s, i, "AND"@) {
        Some(i + 3)
    } else if whole_word_at(s, i, "OR"@) {
        Some(i + 2)
    } else {
        None
    }
}

/// Whether an operator starts at `i` outside parentheses.
pub open spec fn is_operator_at(s: Seq<char>, i: int) -> bool {
    operator_end_at(s, i) is Some
}

/// Whether `s[i..i + w.len()]` reads `w` in any letter case.
fn word_at(chars: &Vec<char>, i: usize, w: &str) -> (r: bool)
    requires
        i <= chars.len(),
        w@.len() <= 3,
    ensures
        r == (i + w@.len() <= chars.len() && ascii_upper(chars@.subrange(i as int, i + w@.len()))
            == w@),
{
    let wc = chars_of(w);
    if wc.len() > chars.len() - i {
        return false;
    }
    let mut k: usize = 0;
    while k < wc.len()
        invariant
            k <= wc.len(),
            wc@ == w@,
            wc.len() <= 3,
            i + wc.len() <= chars.len(),
            forall|j: int| 0 <= j < k ==> ascii_upper_char(#[trigger] chars@[i + j]) == wc@[j],
        decreases wc.len() - k,
    {
        if upper_char(chars[i + k]) != wc[k] {
            assert(ascii_upper(chars@.subrange(i as int, i + w@.len()))[k as int] != w@[k as int]);
            return false;
        }
        k += 1;
    }
    assert forall|j: int| 0 <= j < w@.len() implies #[trigger] ascii_upper(
        chars@.subrange(i as int, i + w@.len()),
    )[j] == w@[j] by {
        assert(chars@.subrange(i as int, i + w@.len())[j] == chars@[i + j]);
    }
    assert(ascii_upper(chars@.subrange(i as int, i + w@.len())) =~= w@);
    true
}

/// A whole word of `s` read in any letter case: its start and end are boundaries.
fn whole_word(chars: &Vec<char>, i: usize, w: &str) -> (r: bool)
    requires
        i <= chars.len(),
        w@.len() <= 3,
    ensures
        r == whole_word_at(chars@, i as int, w@),
{
    if !word_at(chars, i, w) {
        return false;
    }
    let end = i + chars_of(w).len();
    let start_ok = i == 0 || is_whitespace(chars[i - 1]);
    let end_ok = end == chars.len() || is_whitespace(chars[end]);
    start_ok && end_ok
}

/// A letter read as `l` in any case is neither whitespace nor a parenthesis.
proof fn lemma_letter(c: char, l: char)
    requires
        ascii_upper_char(c) == l,
        'A' <= l <= 'Z',
    ensures
        !is_ws(c),
        c != '(',
        c != ')',
{
}

impl CriteriaBuilder {
    /// A builder.
    pub fn new() -> (b: Self)
        ensures
            b == CriteriaBuilder,
    {
        CriteriaBuilder
    }

    /// The rightmost `AND`/`OR` (any letter case, as a whole word) outside
    /// parentheses, as its start and end; the rightmost one makes `a AND b OR c`
    /// read as `(a AND b) OR c`.
    pub fn find_operator_not_in_parentheses(s: &str) -> (r: Option<(usize, usize)>)
        requires
            s@.len() <= i64::MAX,
        ensures
            r is None <==> forall|i: int| 0 <= i < s@.len() ==> !is_operator_at(s@, i),
            r matches Some((start, end)) ==> operator_end_at(s@, start as int) == Some(end as int)
                && forall|j: int| start < j < s@.len() ==> !is_operator_at(s@, j),
    {
        let chars = chars_of(s);
        let ghost cs = chars@;
        let mut depth: i64 = 0;
        let mut last: Option<(usize, usize)> = None;
        let mut i: usize = 0;
        proof {
            reveal_strlit("AND");
            reveal_strlit("OR");
        }
        while i < chars.len()
            invariant
                chars@ == cs,
                cs == s@,
                cs.len() <= i64::MAX,
                i <= cs.len(),
                depth == paren_depth(cs, i as int),
                -(i as int) <= depth <= i,
                "AND"@ == seq!['A', 'N', 'D'],
                "OR"@ == seq!['O', 'R'],
                last is None ==> forall|j: int| 0 <= j < i ==> !is_operator_at(cs, j),
                last matches Some((st, en)) ==> st < i && operator_end_at(cs, st as int) == Some(
                    en as int,
                ) && forall|j: int| st < j < i ==> !is_operator_at(cs, j),
            decreases cs.len() - i,
        {
            let c = chars[i];
            if c == '(' {
                assert(!is_operator_at(cs, i as int)) by {
                    if whole_word_at(cs, i as int, "AND"@) {
                        assert(ascii_upper(cs.subrange(i as int, i + 3))[0] == 'A');
                    }
                    if whole_word_at(cs, i as int, "OR"@) {
                        assert(ascii_upper(cs.subrange(i as int, i + 2))[0] == 'O');
                    }
                }
                depth = depth + 1;
                i += 1;
            } else if c == ')' {
                assert(!is_operator_at(cs, i as int)) by {
                    if whole_word_at(cs, i as int, "AND"@) {
                        assert(ascii_upper(cs.subrange(i as int, i + 3))[0] == 'A');
                    }
                    if whole_word_at(cs, i as int, "OR"@) {
                        assert(ascii_upper(cs.subrange(i as int, i + 2))[0] == 'O');
                    }
                }
                depth = depth - 1;
                i += 1;
            } else if depth == 0 && whole_word(&chars, i, "AND") {
                proof {
                    let w = ascii_upper(cs.subrange(i as int, i + 3));
                    assert(w[0] == 'A' && w[1] == 'N' && w[2] == 'D');
                    lemma_letter(cs[i as int], 'A');
                    lemma_letter(cs[i + 1], 'N');
                    lemma_letter(cs[i + 2], 'D');
                    assert(!is_operator_at(cs, i + 1));
                    assert(!is_operator_at(cs, i + 2));
                    assert(paren_depth(cs, i + 1) == 0);
                    assert(paren_depth(cs, i + 2) == 0);
                    assert(paren_depth(cs, i + 3) == 0);
                }
                last = Some((i, i + 3));
                i += 3;
            } else if depth == 0 && whole_word(&chars, i, "OR") {
                proof {
                    let w = ascii_upper(cs.subrange(i as int, i + 2));
                    assert(w[0] == 'O' && w[1] == 'R');
                    lemma_letter(cs[i as int], 'O');
                    lemma_letter(cs[i + 1], 'R');
                    assert(!is_operator_at(cs, i + 1));
                    assert(paren_depth(cs, i + 1) == 0);
                    assert(paren_depth(cs, i + 2) == 0);
                }
                last = Some((i, i + 2));
                i += 2;
            } else {
                i += 1;
            }
        }
        proof {
            if let Some((st, en)) = last {
                assert(is_operator_at(cs, st as int));
            }
        }
        last
    }
}

// ----------------------------------------------------------------------------
// Byte offsets
// ----------------------------------------------------------------------------

/// `char::len_utf8`: the bytes a character takes in UTF-8.
pub open spec fn utf8_width(c: char) -> int {
    let u = c as u32;
    if u < 0x80 {
        1
    } else if u < 0x800 {
        2
    } else if u < 0x10000 {
        3
    } else {
        4
    }
}

/// `str::len`: the bytes a text takes in UTF-8.
pub open spec fn utf8_size(t: Seq<char>) -> int
    decreases t.len(),
{
    if t.len() == 0 {
        0
    } else {
        utf8_width(t[0]) + utf8_size(t.drop_first())
    }
}

/// The number of characters that take exactly the first `k` bytes of the
/// text, when byte `k` is a character boundary.
pub open spec fn chars_at_byte(t: Seq<char>, k: int) -> Option<int>
    decreases t.len(),
{
    if k == 0 {
        Some(0)
    } else if t.len() == 0 || k < 0 {
        None
    } else if k < utf8_width(t[0]) {
        None
    } else {
        match chars_at_byte(t.drop_first(), k - utf8_width(t[0])) {
            Some(n) => Some(n + 1),
            None => None,
        }
    }
}

/// Bounds of [`chars_at_byte`]: at most `k` characters, at most the text,
/// and at least one for a positive offset.
pub proof fn lemma_chars_at_byte(t: Seq<char>, k: int)
    ensures
        chars_at_byte(t, k) matches Some(n) ==> 0 <= n <= t.len() && n <= k && (k > 0 ==> n >= 1),
    decreases t.len(),
{
    if k != 0 && t.len() > 0 && k >= 0 && k >= utf8_width(t[0]) {
        lemma_chars_at_byte(t.drop_first(), k - utf8_width(t[0]));
    }
}

/// Later boundaries have more characters before them.
pub proof fn lemma_chars_at_byte_mono(t: Seq<char>, k1: int, k2: int)
    requires
        k1 < k2,
        chars_at_byte(t, k1) is Some,
        chars_at_byte(t, k2) is Some,
    ensures
        chars_at_byte(t, k1)->0 < chars_at_byte(t, k2)->0,
    decreases t.len(),
{
    lemma_chars_at_byte(t, k1);
    lemma_chars_at_byte(t, k2);
    if k1 != 0 {
        lemma_chars_at_byte_mono(t.drop_first(), k1 - utf8_width(t[0]), k2 - utf8_width(t[0]));
    }
}

/// The characters that take exactly the first `k` bytes, if byte `k` is a
/// character boundary.
fn char_count_at_byte(t: &Vec<char>, k: usize) -> (r: Option<usize>)
    ensures
        match r {
            Some(n) => chars_at_byte(t@, k as int) == Some(n as int),
            None => chars_at_byte(t@, k as int) is None,
        },
{
    let mut i: usize = 0;
    let mut used: usize = 0;
    assert(t@.skip(0) =~= t@);
    while i < t.len() && used < k
        invariant
            i <= t.len(),
            used <= k,
            chars_at_byte(t@, k as int) == match chars_at_byte(t@.skip(i as int), k - used) {
                Some(n) => Some(n + i),
                None => None,
            },
        decreases t.len() - i,
    {
        let ghost rest = t@.skip(i as int);
        assert(rest[0] == t@[i as int]);
        assert(rest.drop_first() =~= t@.skip(i + 1));
        let u = t[i] as u32;
        let w: usize = if u < 0x80 {
            1
        } else if u < 0x800 {
            2
        } else if u < 0x10000 {
            3
        } else {
            4
        };
        assert(w == utf8_width(t@[i as int]));
        if k - used < w {
            return None;
        }
        used = used + w;
        i += 1;
    }
    if used == k {
        Some(i)
    } else {
        assert(t@.skip(i as int) =~= Seq::<char>::empty());
        None
    }
}

/// Whether a text takes more than `limit` bytes in UTF-8.
fn utf8_size_exceeds(t: &Vec<char>, limit: usize) -> (r: bool)
    requires
        limit <= 1000,
    ensures
        r == (utf8_size(t@) > limit),
{
    let mut i: usize = 0;
    let mut used: usize = 0;
    assert(t@.skip(0) =~= t@);
    while i < t.len()
        invariant
            i <= t.len(),
            used <= limit,
            limit <= 1000,
            utf8_size(t@) == used + utf8_size(t@.skip(i as int)),
        decreases t.len() - i,
    {
        let ghost rest = t@.skip(i as int);
        assert(rest[0] == t@[i as int]);
        assert(rest.drop_first() =~= t@.skip(i + 1));
        let u = t[i] as u32;
        let w: usize = if u < 0x80 {
            1
        } else if u < 0x800 {
            2
        } else if u < 0x10000 {
            3
        } else {
            4
        };
        assert(w == utf8_width(t@[i as int]));
        if used + w > limit {
            proof {
                lemma_utf8_size_nonneg(t@.skip(i + 1));
            }
            return true;
        }
        used = used + w;
        i += 1;
    }
    assert(t@.skip(i as int) =~= Seq::<char>::empty());
    false
}

/// A text takes no negative number of bytes.
proof fn lemma_utf8_size_nonneg(t: Seq<char>)
    ensures
        utf8_size(t) >= 0,
    decreases t.len(),
{
    if t.len() > 0 {
        lemma_utf8_size_nonneg(t.drop_first());
    }
}

// ----------------------------------------------------------------------------
// The rightmost operator
// ----------------------------------------------------------------------------

/// The rightmost operator that starts before position `n`, as its start and end.
pub open spec fn last_operator_before(s: Seq<char>, n: int) -> Option<(int, int)>
    decreases n,
{
    if n <= 0 {
        None
    } else {
        match operator_end_at(s, n - 1) {
            Some(e) => Some((n - 1, e)),
            None => last_operator_before(s, n - 1),
        }
    }
}

/// The rightmost operator of the text outside parentheses.
pub open spec fn rightmost_operator(s: Seq<char>) -> Option<(int, int)> {
    last_operator_before(s, s.len() as int)
}

/// What [`last_operator_before`] finds: an operator with no other one after
/// it (before `n`), or none at all.
pub proof fn lemma_last_operator(s: Seq<char>, n: int)
    requires
        n <= s.len(),
    ensures
        match last_operator_before(s, n) {
            Some((st, en)) => 0 <= st < n && operator_end_at(s, st) == Some(en) && forall|j: int|
                st < j < n ==> !is_operator_at(s, j),
            None => forall|j: int| 0 <= j < n ==> !is_operator_at(s, j),
        },
    decreases n,
{
    if n > 0 {
        lemma_last_operator(s, n - 1);
    }
}

/// The operator found by [`CriteriaBuilder::find_operator_not_in_parentheses`]
/// is the rightmost one.
proof fn lemma_rightmost_unique(s: Seq<char>, r: Option<(usize, usize)>)
    requires
        r is None <==> forall|i: int| 0 <= i < s.len() ==> !is_operator_at(s, i),
        r matches Some((start, end)) ==> operator_end_at(s, start as int) == Some(end as int)
            && forall|j: int| start < j < s.len() ==> !is_operator_at(s, j),
    ensures
        match r {
            Some((start, end)) => rightmost_operator(s) == Some((start as int, end as int)),
            None => rightmost_operator(s) is None,
        },
{
    lemma_last_operator(s, s.len() as int);
    match r {
        Some((start, end)) => {
            assert(is_operator_at(s, start as int));
            lemma_operator_bounds(s, start as int);
            match rightmost_operator(s) {
                Some((st, en)) => {
                    if st < start {
                        assert(!is_operator_at(s, start as int));
                    } else if st > start {
                        assert(is_operator_at(s, st));
                    }
                },
                None => {
                    assert(start < s.len()) by {
                        assert(whole_word_at(s, start as int, "AND"@) || whole_word_at(
                            s,
                            start as int,
                            "OR"@,
                        ));
                    }
                },
            }
        },
        None => {
            match rightmost_operator(s) {
                Some((st, en)) => {
                    assert(is_operator_at(s, st));
                },
                None => {},
            }
        },
    }
}

/// An operator lies inside the text: two or three characters from its start.
pub proof fn lemma_operator_bounds(s: Seq<char>, st: int)
    requires
        operator_end_at(s, st) is Some,
    ensures
        0 <= st,
        st + 2 <= operator_end_at(s, st)->0 <= s.len(),
{
    reveal_strlit("AND");
    reveal_strlit("OR");
}

// ----------------------------------------------------------------------------
// Criteria trees read from text
// ----------------------------------------------------------------------------

/// `str::trim` keeps a text or shortens it.
pub proof fn lemma_trim_len(s: Seq<char>)
    ensures
        trim(s).len() <= s.len(),
{
    lemma_trim_start_len(s);
    lemma_trim_end_len(trim_start(s));
}

pub proof fn lemma_trim_start_len(s: Seq<char>)
    ensures
        trim_start(s).len() <= s.len(),
    decreases s.len(),
{
    if s.len() > 0 && is_ws(s[0]) {
        lemma_trim_start_len(s.drop_first());
    }
}

pub proof fn lemma_trim_end_len(s: Seq<char>)
    ensures
        trim_end(s).len() <= s.len(),
    decreases s.len(),
{
    if s.len() > 0 && is_ws(s.last()) {
        lemma_trim_end_len(s.drop_last());
    }
}

/// Whether a trimmed text is wrapped in parentheses.
pub open spec fn wrapped(t: Seq<char>) -> bool {
    t.len() > 0 && t[0] == '(' && t.last() == ')'
}

/// The criteria tree a `WHERE` clause (without `WHERE`) reads as. The text is
/// trimmed; one with ` INVALID ` in it is refused; one in parentheses is a
/// group; one with an operator outside parentheses splits at the rightmost
/// one, the operator's character offsets being read as byte offsets; anything
/// else is one constraint.
pub open spec fn built(s: Seq<char>) -> Result<CriteriaTree, Seq<char>>
    decreases s.len(),
{
    let t = trim(s);
    proof {
        lemma_trim_len(s);
    }
    if contains_sub(t, " INVALID "@) {
        Err("Invalid operator 'INVALID' found in: '"@ + t + "'"@)
    } else if wrapped(t) {
        match built(t.subrange(1, t.len() - 1)) {
            Ok(inner) => Ok(CriteriaTree::Grouped(Box::new(inner))),
            Err(e) => Err(e),
        }
    } else {
        match rightmost_operator(t) {
            Some((st, en)) => match (chars_at_byte(t, st), chars_at_byte(t, en)) {
                (Some(a), Some(b)) => {
                    proof {
                        lemma_last_operator(t, t.len() as int);
                        lemma_operator_bounds(t, st);
                        lemma_chars_at_byte(t, st);
                        lemma_chars_at_byte(t, en);
                        lemma_trim_len(t.take(a));
                        lemma_trim_len(t.skip(b));
                    }
                    if a <= b {
                        match built(trim(t.take(a))) {
                            Err(e) => Err(e),
                            Ok(left) => match operator_of_word(t.subrange(a, b)) {
                                None => Err(invalid_operator_message(t.subrange(a, b))),
                                Some(op) => match built(trim(t.skip(b))) {
                                    Err(e) => Err(e),
                                    Ok(right) => Ok(
                                        CriteriaTree::Joined(Box::new(left), op, Box::new(right)),
                                    ),
                                },
                            },
                        }
                    } else {
                        Err(Seq::empty())
                    }
                },
                _ => Err(Seq::empty()),
            },
            None => match criteria_of_text(t) {
                Ok((field, comparer, value)) => Ok(CriteriaTree::Constraint(field, comparer, value)),
                Err(e) => Err(e),
            },
        }
    }
}

/// Whether reading a clause slices the text only at character boundaries:
/// the clause is cut at the operator's character offsets taken as byte
/// offsets, and such a cut may fall inside a multi-byte character.
pub open spec fn build_ok(s: Seq<char>) -> bool
    decreases s.len(),
{
    let t = trim(s);
    proof {
        lemma_trim_len(s);
    }
    if contains_sub(t, " INVALID "@) {
        true
    } else if wrapped(t) {
        build_ok(t.subrange(1, t.len() - 1))
    } else {
        match rightmost_operator(t) {
            Some((st, en)) => match (chars_at_byte(t, st), chars_at_byte(t, en)) {
                (Some(a), Some(b)) => {
                    proof {
                        lemma_last_operator(t, t.len() as int);
                        lemma_operator_bounds(t, st);
                        lemma_chars_at_byte(t, st);
                        lemma_chars_at_byte(t, en);
                        lemma_trim_len(t.take(a));
                        lemma_trim_len(t.skip(b));
                    }
                    a <= b && build_ok(trim(t.take(a))) && (built(trim(t.take(a))) is Err
                        || operator_of_word(t.subrange(a, b)) is None || build_ok(
                        trim(t.skip(b)),
                    ))
                },
                _ => false,
            },
            None => true,
        }
    }
}

/// The tree a `WHERE` clause reads as; `None` where the text would be sliced
/// inside a character.
fn build_tree(s: &Vec<char>) -> (r: Option<Result<Box<Criteria>, String>>)
    requires
        s@.len() <= i64::MAX,
    ensures
        r is None <==> !build_ok(s@),
        r matches Some(Ok(c)) ==> built(s@) == Ok::<CriteriaTree, Seq<char>>((*c)@),
        r matches Some(Err(m)) ==> built(s@) == Err::<CriteriaTree, Seq<char>>(m@),
    decreases s@.len(),
{
    proof {
        reveal_strlit(" INVALID ");
    }
    let t = crate::text::trim_chars(s);
    proof {
        lemma_trim_len(s@);
    }
    if crate::text::contains_chars(&t, &chars_of(" INVALID ")) {
        let mut msg = chars_of("Invalid operator 'INVALID' found in: '");
        crate::text::push_all(&mut msg, &t);
        push_str(&mut msg, "'");
        return Some(Err(string_of(&msg)));
    }
    let n = t.len();
    if n > 0 && t[0] == '(' && t[n - 1] == ')' {
        let inner = crate::text::sub_chars(&t, 1, n - 1);
        return match build_tree(&inner) {
            None => None,
            Some(Ok(c)) => Some(Ok(Criteria::Parentheses(c).into_boxed())),
            Some(Err(e)) => Some(Err(e)),
        };
    }
    let text = string_of(&t);
    let found = CriteriaBuilder::find_operator_not_in_parentheses(text.as_str());
    proof {
        lemma_rightmost_unique(t@, found);
        lemma_last_operator(t@, t@.len() as int);
    }
    match found {
        Some((st, en)) => {
            proof {
                lemma_operator_bounds(t@, st as int);
                lemma_chars_at_byte(t@, st as int);
                lemma_chars_at_byte(t@, en as int);
            }
            let a = match char_count_at_byte(&t, st) {
                Some(a) => a,
                None => return None,
            };
            let b = match char_count_at_byte(&t, en) {
                Some(b) => b,
                None => return None,
            };
            proof {
                lemma_chars_at_byte_mono(t@, st as int, en as int);
            }
            let left = crate::text::trim_chars(&crate::text::sub_chars(&t, 0, a));
            let op = crate::text::sub_chars(&t, a, b);
            let right = crate::text::trim_chars(&crate::text::sub_chars(&t, b, n));
            assert(t@.subrange(0, a as int) =~= t@.take(a as int));
            assert(t@.subrange(b as int, n as int) =~= t@.skip(b as int));
            proof {
                lemma_trim_len(t@.take(a as int));
                lemma_trim_len(t@.skip(b as int));
            }
            let l = match build_tree(&left) {
                None => return None,
                Some(Err(e)) => return Some(Err(e)),
                Some(Ok(l)) => l,
            };
            let o = match Operator::try_from(string_of(&op).as_str()) {
                Err(e) => return Some(Err(e)),
                Ok(o) => o,
            };
            let r = match build_tree(&right) {
                None => return None,
                Some(Err(e)) => return Some(Err(e)),
                Some(Ok(r)) => r,
            };
            Some(Ok(Criteria::LeftAndRight(l, o, r).into_boxed()))
        },
        None => match Constraint::try_from(text.as_str()) {
            Ok(c) => Some(Ok(Criteria::Final(c).into_boxed())),
            Err(e) => Some(Err(e)),
        },
    }
}

/// What `start` reads: a clause of at most six bytes is refused as too short;
/// otherwise the text after its first six bytes (`WHERE `) is read.
pub open spec fn started(s: Seq<char>) -> Result<CriteriaTree, Seq<char>> {
    if utf8_size(s) <= 6 {
        Err("Invalid WHERE clause: too short"@)
    } else {
        match chars_at_byte(s, 6) {
            Some(k) => built(s.skip(k)),
            None => Err(Seq::empty()),
        }
    }
}

/// Whether `start` slices the text only at character boundaries.
pub open spec fn start_ok(s: Seq<char>) -> bool {
    utf8_size(s) <= 6 || (chars_at_byte(s, 6) matches Some(k) && build_ok(s.skip(k)))
}

/// A text of one-byte characters takes one byte each, and the boundary after
/// it is its length.
proof fn lemma_ascii_prefix(p: Seq<char>, rest: Seq<char>)
    requires
        forall|i: int| 0 <= i < p.len() ==> (#[trigger] p[i] as u32) < 0x80,
    ensures
        utf8_size(p + rest) == p.len() + utf8_size(rest),
        chars_at_byte(p + rest, p.len() as int) == Some(p.len() as int),
    decreases p.len(),
{
    if p.len() > 0 {
        assert((p + rest).drop_first() =~= p.drop_first() + rest);
        assert((p[0] as u32) < 0x80);
        lemma_ascii_prefix(p.drop_first(), rest);
    }
}

/// A text takes at least one byte per character.
proof fn lemma_utf8_size_at_least_len(t: Seq<char>)
    ensures
        utf8_size(t) >= t.len(),
    decreases t.len(),
{
    if t.len() > 0 {
        lemma_utf8_size_at_least_len(t.drop_first());
    }
}

/// Reading a whole clause `WHERE <rest>` reads `<rest>`, for a non-empty
/// rest: the same criteria or the same refusal, and on the same texts.
pub proof fn lemma_start_reads_after_where(rest: Seq<char>)
    requires
        rest.len() > 0,
    ensures
        started("WHERE "@ + rest) == built(rest),
        start_ok("WHERE "@ + rest) == build_ok(rest),
{
    reveal_strlit("WHERE ");
    let p = "WHERE "@;
    assert forall|i: int| 0 <= i < p.len() implies (#[trigger] p[i] as u32) < 0x80 by {
        assert(p[0] == 'W' && p[1] == 'H' && p[2] == 'E' && p[3] == 'R' && p[4] == 'E' && p[5] == ' ');
    }
    lemma_ascii_prefix(p, rest);
    lemma_utf8_size_at_least_len(rest);
    assert((p + rest).skip(6) =~= rest);
}

/// `start` on a clause of at most six bytes refuses it as too short; on a
/// longer clause whose sixth byte is a character boundary it reads exactly
/// what `build` reads from the text after those six bytes (the six bytes are
/// not looked at), and it slices only at character boundaries exactly when
/// `build` does on that text.
pub proof fn lemma_start_is_build_after_six_bytes(s: Seq<char>)
    ensures
        utf8_size(s) <= 6 ==> started(s) == Err::<CriteriaTree, Seq<char>>(
            "Invalid WHERE clause: too short"@,
        ) && start_ok(s),
        utf8_size(s) > 6 && chars_at_byte(s, 6) is Some ==> started(s) == built(
            s.skip(chars_at_byte(s, 6)->0),
        ) && start_ok(s) == build_ok(s.skip(chars_at_byte(s, 6)->0)),
{
}

/// What `start` reads, or `None` where the text would be sliced inside a character.
fn start_tree(criteria: &str) -> (r: Option<Result<Box<Criteria>, String>>)
    requires
        criteria@.len() <= i64::MAX,
    ensures
        r is None <==> !start_ok(criteria@),
        r matches Some(Ok(c)) ==> started(criteria@) == Ok::<CriteriaTree, Seq<char>>((*c)@),
        r matches Some(Err(m)) ==> started(criteria@) == Err::<CriteriaTree, Seq<char>>(m@),
{
    let chars = chars_of(criteria);
    if !utf8_size_exceeds(&chars, 6) {
        return Some(Err("Invalid WHERE clause: too short".to_string()));
    }
    match char_count_at_byte(&chars, 6) {
        Some(k) => {
            proof {
                lemma_chars_at_byte(chars@, 6);
            }
            let rest = crate::text::sub_chars(&chars, k, chars.len());
            assert(rest@ =~= criteria@.skip(k as int));
            build_tree(&rest)
        },
        None => None,
    }
}

impl CriteriaBuilder {
    /// Reads a criteria tree from a clause (without `WHERE`).
    pub fn build(slice: &str) -> (r: Result<Box<Criteria>, String>)
        requires
            slice@.len() <= i64::MAX,
            build_ok(slice@),
        ensures
            match r {
                Ok(c) => built(slice@) == Ok::<CriteriaTree, Seq<char>>((*c)@),
                Err(m) => built(slice@) == Err::<CriteriaTree, Seq<char>>(m@),
            },
    {
        match build_tree(&chars_of(slice)) {
            Some(r) => r,
            None => Err(String::new()),
        }
    }

    /// Reads a criteria tree from a whole clause: its first six bytes
    /// (`WHERE `) are skipped.
    pub fn start(criteria: &str) -> (r: Result<Box<Criteria>, String>)
        requires
            criteria@.len() <= i64::MAX,
            start_ok(criteria@),
        ensures
            match r {
                Ok(c) => started(criteria@) == Ok::<CriteriaTree, Seq<char>>((*c)@),
                Err(m) => started(criteria@) == Err::<CriteriaTree, Seq<char>>(m@),
            },
    {
        match start_tree(criteria) {
            Some(r) => r,
            None => Err(String::new()),
        }
    }

    /// [`CriteriaBuilder::build`] on any clause: `None` where reading it would
    /// slice the text inside a character.
    pub fn build_checked(slice: &str) -> (r: Option<Result<Box<Criteria>, String>>)
        requires
            slice@.len() <= i64::MAX,
        ensures
            r is None <==> !build_ok(slice@),
            r matches Some(Ok(c)) ==> built(slice@) == Ok::<CriteriaTree, Seq<char>>((*c)@),
            r matches Some(Err(m)) ==> built(slice@) == Err::<CriteriaTree, Seq<char>>(m@),
    {
        build_tree(&chars_of(slice))
    }

    /// [`CriteriaBuilder::start`] on any clause: `None` where reading it would
    /// slice the text inside a character.
    pub fn start_checked(criteria: &str) -> (r: Option<Result<Box<Criteria>, String>>)
        requires
            criteria@.len() <= i64::MAX,
        ensures
            r is None <==> !start_ok(criteria@),
            r matches Some(Ok(c)) ==> started(criteria@) == Ok::<CriteriaTree, Seq<char>>((*c)@),
            r matches Some(Err(m)) ==> started(criteria@) == Err::<CriteriaTree, Seq<char>>(m@),
    {
        start_tree(criteria)
    }
}

} // verus!
