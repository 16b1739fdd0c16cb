//! A cursor that walks a string from one delimiter to the next.

use vstd::prelude::*;

use crate::text::chars_of;

verus! {

/// A cursor over a string that stops at either of two delimiter characters.
#[derive(Debug, Clone, PartialEq, Eq, Structural)]
pub struct StringPointer {
    /// Where the last scanned piece starts.
    pub start_position: usize,
    /// Where the last scanned piece ends (the delimiter, or the end of the string).
    pub end_position: usize,
    /// Where the next scan starts.
    pub current_position: usize,
    /// Opening delimiter.
    pub start_char: char,
    /// Closing delimiter.
    pub end_char: char,
}

/// The first position at or after `k` that holds `a` or `b`, or the end of `s`
/// (`k` itself when `k` is past the end).
pub open spec fn stop_index(s: Seq<char>, k: int, a: char, b: char) -> int
    decreases s.len() - k,
{
    if k >= s.len() || s[k] == a || s[k] == b {
        k
    } else {
        stop_index(s, k + 1, a, b)
    }
}

/// Facts about [`stop_index`]: it lies in `[k, len]`, nothing before it is a
/// delimiter, and it is a delimiter unless it is the end.
pub proof fn lemma_stop_index(s: Seq<char>, k: int, a: char, b: char)
    requires
        0 <= k <= s.len(),
    ensures
        k <= stop_index(s, k, a, b) <= s.len(),
        forall|j: int| k <= j < stop_index(s, k, a, b) ==> s[j] != a && s[j] != b,
        stop_index(s, k, a, b) < s.len() ==> (s[stop_index(s, k, a, b)] == a
            || s[stop_index(s, k, a, b)] == b),
    decreases s.len() - k,
{
    if k < s.len() && s[k] != a && s[k] != b {
        lemma_stop_index(s, k + 1, a, b);
    }
}

impl Default for StringPointer {
    fn default() -> (p: Self)
        ensures
            p.start_position == 0,
            p.end_position == 0,
            p.current_position == 0,
            p.start_char == '\0',
            p.end_char == '\0',
    {
        StringPointer {
            start_position: 0,
            end_position: 0,
            current_position: 0,
            start_char: '\0',
            end_char: '\0',
        }
    }
}

impl StringPointer {
    /// A cursor at the start that stops at `start_char` or `end_char`.
    pub fn new(start_char: char, end_char: char) -> (p: Self)
        ensures
            p == (StringPointer {
                start_position: 0,
                end_position: 0,
                current_position: 0,
                start_char,
                end_char,
            }),
    {
        StringPointer { start_position: 0, end_position: 0, current_position: 0, start_char, end_char }
    }

    /// Scans `value` from the current position to the next delimiter (or the
    /// end) and records the piece; `false`, with nothing changed, once the
    /// cursor is at or past the end.
    pub fn next(&mut self, value: &str) -> (more: bool)
        ensures
            more == (old(self).current_position < value@.len()),
            !more ==> *final(self) == *old(self),
            more ==> *final(self) == (StringPointer {
                start_position: old(self).current_position,
                end_position: final(self).current_position,
                current_position: final(self).current_position,
                ..*old(self)
            }),
            more ==> final(self).current_position == stop_index(
                value@,
                old(self).current_position as int,
                old(self).start_char,
                old(self).end_char,
            ),
    {
        let chars = chars_of(value);
        if self.current_position >= chars.len() {
            return false;
        }
        let ghost from = self.current_position as int;
        proof {
            lemma_stop_index(chars@, from, self.start_char, self.end_char);
        }
        self.start_position = self.current_position;
        let ghost started = *self;
        while self.current_position < chars.len() && chars[self.current_position] != self.start_char
            && chars[self.current_position] != self.end_char
            invariant
                from <= self.current_position <= chars.len(),
                chars@ == value@,
                *self == (StringPointer { current_position: self.current_position, ..started }),
                stop_index(chars@, self.current_position as int, self.start_char, self.end_char)
                    == stop_index(chars@, from, self.start_char, self.end_char),
            decreases chars.len() - self.current_position,
        {
            self.current_position = self.current_position + 1;
        }
        self.end_position = self.current_position;
        true
    }
}

} // verus!
