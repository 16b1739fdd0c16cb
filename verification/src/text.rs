//! Character-sequence helpers shared by the route and content logic.
//!
//! Strings are modelled by their view, a `Seq<char>`. The specifications here
//! state the behaviour of the few `str` operations the library relies on
//! (`split`, `trim`, `contains`, ASCII case mapping) directly over that view.

use vstd::prelude::*;

verus! {

// ----------------------------------------------------------------------------
// Specifications
// ----------------------------------------------------------------------------

/// The views of a sequence of strings.
pub open spec fn string_views(v: Seq<String>) -> Seq<Seq<char>> {
    v.map_values(|x: String| x@)
}

/// The views of a sequence of character vectors.
pub open spec fn seqs_view(v: Seq<Vec<char>>) -> Seq<Seq<char>> {
    v.map_values(|x: Vec<char>| x@)
}

/// `str::split(sep)`: the pieces between occurrences of `sep`, in order.
/// There is always at least one piece; `""` splits into `[""]`.
pub open spec fn split_on(s: Seq<char>, sep: char) -> Seq<Seq<char>>
    decreases s.len(),
{
    if s.len() == 0 {
        seq![Seq::<char>::empty()]
    } else {
        let prev = split_on(s.drop_last(), sep);
        if s.last() == sep {
            prev.push(Seq::<char>::empty())
        } else {
            prev.update(prev.len() - 1, prev.last().push(s.last()))
        }
    }
}

/// `char::is_whitespace`: the Unicode `White_Space` property.
pub open spec fn is_ws(c: char) -> bool {
    let u = c as u32;
    ||| 0x09 <= u <= 0x0d
    ||| u == 0x20
    ||| u == 0x85
    ||| u == 0xa0
    ||| u == 0x1680
    ||| 0x2000 <= u <= 0x200a
    ||| u == 0x2028
    ||| u == 0x2029
    ||| u == 0x202f
    ||| u == 0x205f
    ||| u == 0x3000
}

/// `str::trim_start`.
pub open spec fn trim_start(s: Seq<char>) -> Seq<char>
    decreases s.len(),
{
    if s.len() > 0 && is_ws(s[0]) {
        trim_start(s.drop_first())
    } else {
        s
    }
}

/// `str::trim_end`.
pub open spec fn trim_end(s: Seq<char>) -> Seq<char>
    decreases s.len(),
{
    if s.len() > 0 && is_ws(s.last()) {
        trim_end(s.drop_last())
    } else {
        s
    }
}

/// `str::trim`.
pub open spec fn trim(s: Seq<char>) -> Seq<char> {
    trim_end(trim_start(s))
}

/// `str::contains` with a string pattern.
pub open spec fn contains_sub(s: Seq<char>, t: Seq<char>) -> bool {
    exists|i: int| 0 <= i && i + t.len() <= s.len() && #[trigger] s.subrange(i, i + t.len()) == t
}

/// `char::to_ascii_lowercase`.
pub open spec fn ascii_lower_char(c: char) -> char {
    if 'A' <= c && c <= 'Z' {
        ((c as u32) + 32) as char
    } else {
        c
    }
}

/// `char::to_ascii_uppercase`.
pub open spec fn ascii_upper_char(c: char) -> char {
    if 'a' <= c && c <= 'z' {
        ((c as u32) - 32) as char
    } else {
        c
    }
}

/// `str::to_ascii_lowercase`.
pub open spec fn ascii_lower(s: Seq<char>) -> Seq<char> {
    s.map_values(|c: char| ascii_lower_char(c))
}

/// `str::to_ascii_uppercase`.
pub open spec fn ascii_upper(s: Seq<char>) -> Seq<char> {
    s.map_values(|c: char| ascii_upper_char(c))
}


/// The ASCII digit for `d < 10`.
pub open spec fn digit_char(d: nat) -> char {
    ((d + 48) as u32) as char
}

/// The decimal rendering of a natural number (`u64::to_string`).
pub open spec fn decimal(n: nat) -> Seq<char>
    decreases n,
{
    if n < 10 {
        seq![digit_char(n)]
    } else {
        decimal(n / 10).push(digit_char(n % 10))
    }
}


/// `str::trim_matches(c)` for one character: `c` removed from both ends.
pub open spec fn trim_char(s: Seq<char>, c: char) -> Seq<char>
    decreases s.len(),
{
    if s.len() > 0 && s[0] == c {
        trim_char(s.drop_first(), c)
    } else if s.len() > 0 && s.last() == c {
        trim_char(s.drop_last(), c)
    } else {
        s
    }
}

// ----------------------------------------------------------------------------
// Lemmas
// ----------------------------------------------------------------------------

/// Splitting always yields at least one piece.
pub proof fn lemma_split_nonempty(s: Seq<char>, sep: char)
    ensures
        split_on(s, sep).len() >= 1,
    decreases s.len(),
{
    if s.len() > 0 {
        lemma_split_nonempty(s.drop_last(), sep);
    }
}

/// No piece of a split holds the separator.
pub proof fn lemma_split_pieces_free(s: Seq<char>, sep: char)
    ensures
        forall|k: int, j: int|
            0 <= k < split_on(s, sep).len() && 0 <= j < split_on(s, sep)[k].len()
                ==> split_on(s, sep)[k][j] != sep,
    decreases s.len(),
{
    lemma_split_nonempty(s, sep);
    if s.len() > 0 {
        lemma_split_pieces_free(s.drop_last(), sep);
        lemma_split_nonempty(s.drop_last(), sep);
    }
}

proof fn lemma_trim_start_skip(s: Seq<char>, i: int)
    requires
        0 <= i <= s.len(),
        forall|j: int| 0 <= j < i ==> is_ws(#[trigger] s[j]),
        i == s.len() || !is_ws(s[i]),
    ensures
        trim_start(s) == s.subrange(i, s.len() as int),
    decreases i,
{
    if i > 0 {
        assert forall|j: int| 0 <= j < i - 1 implies is_ws(#[trigger] s.drop_first()[j]) by {
            assert(s.drop_first()[j] == s[j + 1]);
        }
        lemma_trim_start_skip(s.drop_first(), i - 1);
        assert(s.drop_first().subrange(i - 1, s.len() - 1) =~= s.subrange(i, s.len() as int));
    } else {
        assert(s.subrange(0, s.len() as int) =~= s);
    }
}

proof fn lemma_trim_end_cut(s: Seq<char>, e: int)
    requires
        0 <= e <= s.len(),
        forall|j: int| e <= j < s.len() ==> is_ws(#[trigger] s[j]),
        e == 0 || !is_ws(s[e - 1]),
    ensures
        trim_end(s) == s.subrange(0, e),
    decreases s.len() - e,
{
    if e < s.len() {
        assert forall|j: int| e <= j < s.len() - 1 implies is_ws(#[trigger] s.drop_last()[j]) by {
            assert(s.drop_last()[j] == s[j]);
        }
        assert(is_ws(s[s.len() - 1]));
        lemma_trim_end_cut(s.drop_last(), e);
        assert(s.drop_last().subrange(0, e) =~= s.subrange(0, e));
    } else {
        assert(s.subrange(0, e) =~= s);
    }
}

// ----------------------------------------------------------------------------
// Executable helpers
// ----------------------------------------------------------------------------

/// The characters of `s`, in order.
pub fn chars_of(s: &str) -> (out: Vec<char>)
    ensures
        out@ == s@,
{
    let mut out: Vec<char> = Vec::new();
    for c in it: s.chars()
        invariant
            out@ == it.seq().take(it.index() as int),
            it.seq() == s@,
    {
        out.push(c);
    }
    out
}

/// Collects characters into a `String` (std's `FromIterator<char>`).
#[verifier::external_body]
pub(crate) fn string_of(chars: &Vec<char>) -> (s: String)
    ensures
        s@ == chars@,
{
    chars.iter().collect()
}

/// Appends every character of `src` to `dst`.
pub fn push_all(dst: &mut Vec<char>, src: &Vec<char>)
    ensures
        final(dst)@ == old(dst)@ + src@,
{
    let ghost start = dst@;
    let mut i: usize = 0;
    while i < src.len()
        invariant
            i <= src.len(),
            dst@ == start + src@.take(i as int),
        decreases src.len() - i,
    {
        dst.push(src[i]);
        i += 1;
        assert(dst@ =~= start + src@.take(i as int));
    }
    assert(src@.take(src.len() as int) =~= src@);
}

/// Appends the characters of a string slice to `dst`.
pub fn push_str(dst: &mut Vec<char>, src: &str)
    ensures
        final(dst)@ == old(dst)@ + src@,
{
    let chars = chars_of(src);
    push_all(dst, &chars);
}

/// A copy of a character vector.
pub fn copy_chars(src: &Vec<char>) -> (out: Vec<char>)
    ensures
        out@ == src@,
{
    let mut out: Vec<char> = Vec::new();
    push_all(&mut out, src);
    assert(out@ =~= src@);
    out
}

/// `char::is_whitespace`.
pub fn is_whitespace(c: char) -> (b: bool)
    ensures
        b == is_ws(c),
{
    let u = c as u32;
    (0x09 <= u && u <= 0x0d) || u == 0x20 || u == 0x85 || u == 0xa0 || u == 0x1680
        || (0x2000 <= u && u <= 0x200a) || u == 0x2028 || u == 0x2029 || u == 0x202f
        || u == 0x205f || u == 0x3000
}

/// `str::trim` over characters.
pub fn trim_chars(s: &Vec<char>) -> (out: Vec<char>)
    ensures
        out@ == trim(s@),
{
    let n = s.len();
    let mut i: usize = 0;
    while i < n && is_whitespace(s[i])
        invariant
            n == s@.len(),
            i <= n,
            forall|j: int| 0 <= j < i ==> is_ws(#[trigger] s@[j]),
        decreases n - i,
    {
        i += 1;
    }
    proof {
        lemma_trim_start_skip(s@, i as int);
    }
    let ghost t = s@.subrange(i as int, n as int);
    let mut e: usize = n;
    while e > i && is_whitespace(s[e - 1])
        invariant
            n == s@.len(),
            i <= e <= n,
            t == s@.subrange(i as int, n as int),
            forall|j: int| e <= j < n ==> is_ws(#[trigger] s@[j]),
        decreases e - i,
    {
        e -= 1;
    }
    proof {
        assert forall|j: int| e - i <= j < t.len() implies is_ws(#[trigger] t[j]) by {
            assert(t[j] == s@[j + i]);
        }
        if e > i {
            assert(t[e - i - 1] == s@[e - 1]);
        }
        lemma_trim_end_cut(t, e - i);
    }
    let mut out: Vec<char> = Vec::new();
    let mut k: usize = i;
    while k < e
        invariant
            i <= k <= e <= n,
            n == s@.len(),
            out@ == s@.subrange(i as int, k as int),
        decreases e - k,
    {
        out.push(s[k]);
        k += 1;
        assert(out@ =~= s@.subrange(i as int, k as int));
    }
    assert(t.subrange(0, e - i) =~= s@.subrange(i as int, e as int));
    out
}

/// `str::trim` over a string slice, as characters.
pub fn trimmed(s: &str) -> (out: Vec<char>)
    ensures
        out@ == trim(s@),
{
    let chars = chars_of(s);
    trim_chars(&chars)
}

/// Whether two character vectors are equal.
pub fn chars_eq(a: &Vec<char>, b: &Vec<char>) -> (r: bool)
    ensures
        r == (a@ == b@),
{
    if a.len() != b.len() {
        return false;
    }
    let mut i: usize = 0;
    while i < a.len()
        invariant
            a.len() == b.len(),
            i <= a.len(),
            forall|j: int| 0 <= j < i ==> a@[j] == b@[j],
        decreases a.len() - i,
    {
        if a[i] != b[i] {
            return false;
        }
        i += 1;
    }
    assert(a@ =~= b@);
    true
}

/// Whether `a` equals the string slice `b`.
pub fn chars_eq_str(a: &Vec<char>, b: &str) -> (r: bool)
    ensures
        r == (a@ == b@),
{
    let bc = chars_of(b);
    chars_eq(a, &bc)
}

/// Whether `t` occurs in `s` starting at position `i`.
pub fn occurs_at(s: &Vec<char>, t: &Vec<char>, i: usize) -> (r: bool)
    requires
        i <= s.len(),
    ensures
        r == (i + t.len() <= s.len() && s@.subrange(i as int, i + t.len()) == t@),
{
    if t.len() > s.len() - i {
        return false;
    }
    let mut j: usize = 0;
    while j < t.len()
        invariant
            i + t.len() <= s.len(),
            j <= t.len(),
            forall|k: int| 0 <= k < j ==> s@[i + k] == t@[k],
        decreases t.len() - j,
    {
        if s[i + j] != t[j] {
            assert(s@.subrange(i as int, i + t.len())[j as int] != t@[j as int]);
            return false;
        }
        j += 1;
    }
    assert(s@.subrange(i as int, i + t.len()) =~= t@);
    true
}

/// `str::contains` with a string pattern.
pub fn contains_chars(s: &Vec<char>, t: &Vec<char>) -> (r: bool)
    ensures
        r == contains_sub(s@, t@),
{
    if t.len() > s.len() {
        return false;
    }
    let last = s.len() - t.len();
    let mut i: usize = 0;
    while i <= last
        invariant
            last + t.len() == s.len(),
            forall|k: int| 0 <= k < i && k + t.len() <= s.len() ==> #[trigger] s@.subrange(k, k + t.len()) != t@,
        decreases last + 1 - i,
    {
        if occurs_at(s, t, i) {
            return true;
        }
        if i == last {
            assert forall|k: int| 0 <= k && k + t.len() <= s.len() implies #[trigger] s@.subrange(k, k + t.len()) != t@ by {
                if k < i {
                } else {
                    assert(k == i);
                }
            }
            return false;
        }
        i += 1;
    }
    false
}

/// `str::contains` for a string slice and a literal pattern.
pub fn str_contains(s: &str, t: &str) -> (r: bool)
    ensures
        r == contains_sub(s@, t@),
{
    let sc = chars_of(s);
    let tc = chars_of(t);
    contains_chars(&sc, &tc)
}

/// `char::to_ascii_lowercase`.
pub fn lower_char(c: char) -> (r: char)
    ensures
        r == ascii_lower_char(c),
{
    if 'A' <= c && c <= 'Z' {
        let u = (c as u32) + 32;
        char_from_u32_ascii(u)
    } else {
        c
    }
}

/// `char::to_ascii_uppercase`.
pub fn upper_char(c: char) -> (r: char)
    ensures
        r == ascii_upper_char(c),
{
    if 'a' <= c && c <= 'z' {
        let u = (c as u32) - 32;
        char_from_u32_ascii(u)
    } else {
        c
    }
}

/// The character of an ASCII code point.
fn char_from_u32_ascii(u: u32) -> (c: char)
    requires
        u < 128,
    ensures
        c == u as char,
{
    (u as u8) as char
}

/// `str::to_ascii_lowercase` over characters.
pub fn lower_chars(s: &Vec<char>) -> (out: Vec<char>)
    ensures
        out@ == ascii_lower(s@),
{
    let mut out: Vec<char> = Vec::new();
    let mut i: usize = 0;
    while i < s.len()
        invariant
            i <= s.len(),
            out@ == ascii_lower(s@.take(i as int)),
        decreases s.len() - i,
    {
        out.push(lower_char(s[i]));
        i += 1;
        assert(out@ =~= ascii_lower(s@.take(i as int)));
    }
    assert(s@.take(s.len() as int) =~= s@);
    out
}

/// `str::to_ascii_uppercase` over characters.
pub fn upper_chars(s: &Vec<char>) -> (out: Vec<char>)
    ensures
        out@ == ascii_upper(s@),
{
    let mut out: Vec<char> = Vec::new();
    let mut i: usize = 0;
    while i < s.len()
        invariant
            i <= s.len(),
            out@ == ascii_upper(s@.take(i as int)),
        decreases s.len() - i,
    {
        out.push(upper_char(s[i]));
        i += 1;
        assert(out@ =~= ascii_upper(s@.take(i as int)));
    }
    assert(s@.take(s.len() as int) =~= s@);
    out
}

/// `str::split(sep)` over characters.
pub fn split_chars(s: &Vec<char>, sep: char) -> (out: Vec<Vec<char>>)
    ensures
        seqs_view(out@) == split_on(s@, sep),
{
    let mut segments: Vec<Vec<char>> = Vec::new();
    let mut current: Vec<char> = Vec::new();
    let mut i: usize = 0;
    assert(s@.take(0) =~= Seq::<char>::empty());
    assert(seqs_view(segments@).push(current@) =~= split_on(s@.take(0), sep));
    while i < s.len()
        invariant
            i <= s.len(),
            split_on(s@.take(i as int), sep) == seqs_view(segments@).push(current@),
        decreases s.len() - i,
    {
        let c = s[i];
        let ghost before = s@.take(i as int);
        assert(s@.take(i + 1).drop_last() =~= before);
        assert(s@.take(i + 1).last() == c);
        let ghost prev = segments@;
        let ghost cur = current@;
        if c == sep {
            segments.push(current);
            current = Vec::new();
            assert(seqs_view(segments@) =~= seqs_view(prev).push(cur));
        } else {
            current.push(c);
        }
        proof {
            assert(split_on(s@.take(i + 1), sep) =~= seqs_view(segments@).push(current@));
        }
        i += 1;
    }
    assert(s@.take(s.len() as int) =~= s@);
    let ghost before = seqs_view(segments@);
    segments.push(current);
    assert(seqs_view(segments@) =~= before.push(segments@.last()@));
    segments
}


/// The decimal rendering of `n`.
pub fn decimal_chars(n: u64) -> (out: Vec<char>)
    ensures
        out@ == decimal(n as nat),
    decreases n,
{
    if n < 10 {
        let mut out: Vec<char> = Vec::new();
        out.push(char_from_u32_ascii((n as u32) + 48));
        assert(out@ =~= decimal(n as nat));
        out
    } else {
        let mut out = decimal_chars(n / 10);
        out.push(char_from_u32_ascii(((n % 10) as u32) + 48));
        assert(out@ =~= decimal(n as nat));
        out
    }
}


/// `String::push`.
#[verifier::external_body]
pub(crate) fn push_char(s: &mut String, c: char)
    ensures
        final(s)@ == old(s)@.push(c),
{
    s.push(c);
}

/// `String::pop`: removes and returns the last character, if any.
#[verifier::external_body]
pub(crate) fn pop_char(s: &mut String) -> (r: Option<char>)
    ensures
        old(s)@.len() == 0 ==> r.is_none() && final(s)@ == old(s)@,
        old(s)@.len() > 0 ==> r == Some(old(s)@.last()) && final(s)@ == old(s)@.drop_last(),
{
    s.pop()
}


/// `str::trim_matches(c)` over characters.
pub fn trim_char_exec(s: &Vec<char>, c: char) -> (out: Vec<char>)
    ensures
        out@ == trim_char(s@, c),
{
    let mut lo: usize = 0;
    let mut hi: usize = s.len();
    assert(s@.subrange(0, s.len() as int) =~= s@);
    while lo < hi && (s[lo] == c || s[hi - 1] == c)
        invariant
            lo <= hi <= s.len(),
            trim_char(s@, c) == trim_char(s@.subrange(lo as int, hi as int), c),
        decreases hi - lo,
    {
        let ghost cur = s@.subrange(lo as int, hi as int);
        if s[lo] == c {
            assert(cur.drop_first() =~= s@.subrange(lo + 1, hi as int));
            lo += 1;
        } else {
            assert(cur.drop_last() =~= s@.subrange(lo as int, hi - 1));
            hi -= 1;
        }
    }
    let mut out: Vec<char> = Vec::new();
    let mut k: usize = lo;
    while k < hi
        invariant
            lo <= k <= hi <= s.len(),
            out@ == s@.subrange(lo as int, k as int),
        decreases hi - k,
    {
        out.push(s[k]);
        k += 1;
        assert(out@ =~= s@.subrange(lo as int, k as int));
    }
    out
}


/// What `str::to_uppercase` returns for a string: its Unicode uppercase mapping.
pub uninterp spec fn unicode_upper(s: Seq<char>) -> Seq<char>;

/// `str::to_uppercase`. Its result is named, not stated: the Unicode case
/// tables take pages, and it depends on the string alone.
#[verifier::external_body]
pub(crate) fn to_uppercase(s: &str) -> (r: String)
    ensures
        r@ == unicode_upper(s@),
{
    s.to_uppercase()
}


/// What `char::is_alphanumeric` returns: the Unicode `Alphabetic` or
/// `Numeric` property of the character.
pub uninterp spec fn unicode_alphanumeric(c: char) -> bool;

/// Whether `c` is an ASCII letter or digit.
pub open spec fn ascii_alphanumeric(c: char) -> bool {
    ('a' <= c <= 'z') || ('A' <= c <= 'Z') || ('0' <= c <= '9')
}

/// `char::is_alphanumeric`. Its result is named: the Unicode tables take
/// pages. Stated besides: ASCII letters and digits are alphanumeric, other
/// ASCII characters are not.
#[verifier::external_body]
pub(crate) fn is_alphanumeric(c: char) -> (b: bool)
    ensures
        b == unicode_alphanumeric(c),
        ascii_alphanumeric(c) ==> b,
        (c as u32) < 128 && !ascii_alphanumeric(c) ==> !b,
{
    c.is_alphanumeric()
}

/// Position of the first `c` in `s`, or the length of `s` when there is none.
pub open spec fn first_index_of(s: Seq<char>, c: char) -> int
    decreases s.len(),
{
    if s.len() == 0 {
        0
    } else if s[0] == c {
        0
    } else {
        1 + first_index_of(s.drop_first(), c)
    }
}

/// Facts about [`first_index_of`]: it lies in `[0, len]`, nothing before it is
/// `c`, and it is `c` unless it is the end.
pub proof fn lemma_first_index_of(s: Seq<char>, c: char)
    ensures
        0 <= first_index_of(s, c) <= s.len(),
        forall|j: int| 0 <= j < first_index_of(s, c) ==> s[j] != c,
        first_index_of(s, c) < s.len() ==> s[first_index_of(s, c)] == c,
    decreases s.len(),
{
    if s.len() > 0 && s[0] != c {
        lemma_first_index_of(s.drop_first(), c);
        assert forall|j: int| 0 <= j < first_index_of(s, c) implies s[j] != c by {
            if j > 0 {
                assert(s[j] == s.drop_first()[j - 1]);
            }
        }
    }
}

/// Whether `s` starts with `p`.
pub open spec fn starts_with(s: Seq<char>, p: Seq<char>) -> bool {
    s.len() >= p.len() && s.take(p.len() as int) == p
}

/// Position of the first `c` in `s`, or its length.
pub fn find_char(s: &Vec<char>, c: char) -> (k: usize)
    ensures
        k == first_index_of(s@, c),
{
    proof {
        lemma_first_index_of(s@, c);
    }
    let mut k: usize = 0;
    while k < s.len() && s[k] != c
        invariant
            k <= s.len(),
            forall|j: int| 0 <= j < k ==> s@[j] != c,
            0 <= first_index_of(s@, c) <= s@.len(),
            forall|j: int| 0 <= j < first_index_of(s@, c) ==> s@[j] != c,
            first_index_of(s@, c) < s@.len() ==> s@[first_index_of(s@, c)] == c,
        decreases s.len() - k,
    {
        k += 1;
    }
    k
}

/// The characters of `s` from `lo` up to `hi`.
pub fn sub_chars(s: &Vec<char>, lo: usize, hi: usize) -> (out: Vec<char>)
    requires
        lo <= hi <= s.len(),
    ensures
        out@ == s@.subrange(lo as int, hi as int),
{
    let mut out: Vec<char> = Vec::new();
    let mut k: usize = lo;
    while k < hi
        invariant
            lo <= k <= hi <= s.len(),
            out@ == s@.subrange(lo as int, k as int),
        decreases hi - k,
    {
        out.push(s[k]);
        k += 1;
        assert(out@ =~= s@.subrange(lo as int, k as int));
    }
    out
}

/// Whether `s` starts with `p`.
pub fn starts_with_str(s: &Vec<char>, p: &str) -> (r: bool)
    ensures
        r == starts_with(s@, p@),
{
    let pc = chars_of(p);
    if pc.len() > s.len() {
        return false;
    }
    let head = sub_chars(s, 0, pc.len());
    assert(s@.take(pc.len() as int) =~= head@);
    chars_eq(&head, &pc)
}


/// `str::replace` with a non-empty pattern: every occurrence of `p`, read left
/// to right without overlaps, becomes `r`.
pub open spec fn replace_all(s: Seq<char>, p: Seq<char>, r: Seq<char>) -> Seq<char>
    decreases s.len(),
{
    if p.len() == 0 || s.len() < p.len() {
        s
    } else if s.take(p.len() as int) == p {
        r + replace_all(s.skip(p.len() as int), p, r)
    } else {
        seq![s[0]] + replace_all(s.drop_first(), p, r)
    }
}

/// `str::replace` with a non-empty pattern.
pub fn replace_str(s: &str, p: &str, r: &str) -> (out: String)
    requires
        p@.len() > 0,
    ensures
        out@ == replace_all(s@, p@, r@),
{
    let sc = chars_of(s);
    let pc = chars_of(p);
    let rc = chars_of(r);
    let mut out: Vec<char> = Vec::new();
    let mut i: usize = 0;
    assert(sc@.skip(0) =~= sc@);
    while i < sc.len()
        invariant
            i <= sc.len(),
            sc@ == s@,
            pc@ == p@,
            rc@ == r@,
            pc.len() > 0,
            replace_all(s@, p@, r@) == out@ + replace_all(sc@.skip(i as int), p@, r@),
        decreases sc.len() - i,
    {
        let ghost rest = sc@.skip(i as int);
        if pc.len() <= sc.len() - i && chars_eq(&sub_chars(&sc, i, i + pc.len()), &pc) {
            assert(rest.take(p@.len() as int) =~= sc@.subrange(i as int, i + pc.len()));
            assert(rest.skip(p@.len() as int) =~= sc@.skip(i + pc.len()));
            let ghost before = out@;
            let ghost tail = replace_all(sc@.skip(i + pc.len()), p@, r@);
            assert(replace_all(rest, p@, r@) == r@ + tail);
            push_all(&mut out, &rc);
            assert(out@ + tail =~= before + (r@ + tail));
            i = i + pc.len();
        } else {
            assert(rest.drop_first() =~= sc@.skip(i + 1));
            proof {
                if rest.len() >= p@.len() {
                    assert(rest.take(p@.len() as int) =~= sc@.subrange(i as int, i + pc.len()));
                }
            }
            let ghost before = out@;
            let ghost tail = replace_all(sc@.skip(i + 1), p@, r@);
            assert(replace_all(rest, p@, r@) == seq![sc@[i as int]] + tail);
            out.push(sc[i]);
            assert(out@ + tail =~= before + (seq![sc@[i as int]] + tail));
            i = i + 1;
        }
    }
    assert(sc@.skip(sc.len() as int) =~= Seq::<char>::empty());
    string_of(&out)
}


/// A line without one trailing carriage return.
pub open spec fn without_cr(line: Seq<char>) -> Seq<char> {
    if line.len() > 0 && line.last() == '\r' {
        line.drop_last()
    } else {
        line
    }
}

/// `str::lines`: the pieces between line feeds, a carriage return before a
/// line feed dropped, and no empty last line after a final line feed.
pub open spec fn text_lines(s: Seq<char>) -> Seq<Seq<char>> {
    let pieces = split_on(s, '\n');
    let n = pieces.len();
    let kept = if n > 0 && pieces[n - 1].len() == 0 {
        n - 1
    } else {
        n as int
    };
    Seq::new(
        kept as nat,
        |i: int|
            if i < n - 1 {
                without_cr(pieces[i])
            } else {
                pieces[i]
            },
    )
}

/// `str::lines` over characters.
pub fn lines_of(s: &Vec<char>) -> (out: Vec<Vec<char>>)
    ensures
        seqs_view(out@) == text_lines(s@),
{
    let pieces = split_chars(s, '\n');
    let n = pieces.len();
    proof {
        lemma_split_nonempty(s@, '\n');
    }
    let kept = if n > 0 && pieces[n - 1].len() == 0 {
        n - 1
    } else {
        n
    };
    let mut out: Vec<Vec<char>> = Vec::new();
    let mut i: usize = 0;
    while i < kept
        invariant
            i <= kept <= n,
            n == pieces.len(),
            seqs_view(pieces@) == split_on(s@, '\n'),
            kept == (if n > 0 && pieces@[n - 1]@.len() == 0 {
                n - 1
            } else {
                n as int
            }),
            out.len() == i,
            forall|j: int| 0 <= j < i ==> #[trigger] out@[j]@ == text_lines(s@)[j],
        decreases kept - i,
    {
        let piece = &pieces[i];
        let line = if i + 1 < n && piece.len() > 0 && piece[piece.len() - 1] == '\r' {
            sub_chars(piece, 0, piece.len() - 1)
        } else {
            copy_chars(piece)
        };
        assert(split_on(s@, '\n')[i as int] == pieces@[i as int]@);
        out.push(line);
        i += 1;
    }
    assert(seqs_view(out@) =~= text_lines(s@));
    out
}

} // verus!
