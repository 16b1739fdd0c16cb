//! What the entries of the mock folder stand for.
//!
//! A directory is a route segment (a `$` prefix protects everything below it),
//! a `public...` directory serves static files, and an `{upload}` directory
//! receives uploads. In a file name, the part before the first `.` decides the
//! route: `get.json` answers on the directory's route, `get{id}.json` on any
//! value below it, `get{1-5}.json` on `/1` to `/5`, `get{abc}.json` on `/abc`,
//! `rest.json` (or `rest{id_key:int}.json`) serves a REST collection,
//! `{auth}.json` the login routes, and any other file is streamed under its
//! own name. A `$` in front of the method or `rest` protects the route.

use vstd::prelude::*;

use crate::generator::domain::RouteSelection;
use crate::generator::paths::{basic_file_name, method_extension, or_default, protection_prefix, route_param_descriptor};
use crate::id_manager::IdType;
use crate::text::{
    ascii_lower, chars_eq_str, chars_of, contains_sub, decimal, decimal_chars, find_char, first_index_of,
    lemma_first_index_of, push_all, push_str, starts_with, starts_with_str, str_contains,
    string_of, sub_chars,
};

verus! {

// ----------------------------------------------------------------------------
// Integers in names
// ----------------------------------------------------------------------------

/// An ASCII digit.
pub open spec fn is_digit(c: char) -> bool {
    '0' <= c && c <= '9'
}

/// Whether every character is an ASCII digit.
pub open spec fn all_digits(s: Seq<char>) -> bool {
    forall|i: int| 0 <= i < s.len() ==> is_digit(#[trigger] s[i])
}

/// The value of a run of decimal digits.
pub open spec fn digits_value(s: Seq<char>) -> int
    decreases s.len(),
{
    if s.len() == 0 {
        0
    } else {
        digits_value(s.drop_last()) * 10 + ((s.last() as int) - ('0' as int))
    }
}

/// `str::parse::<i32>`: an optional sign and at least one digit, in range.
pub open spec fn parsed_i32(s: Seq<char>) -> Option<int> {
    let signed = s.len() > 0 && (s[0] == '-' || s[0] == '+');
    let digits = if signed {
        s.drop_first()
    } else {
        s
    };
    let value = if s.len() > 0 && s[0] == '-' {
        -digits_value(digits)
    } else {
        digits_value(digits)
    };
    if digits.len() > 0 && all_digits(digits) && i32::MIN <= value <= i32::MAX {
        Some(value)
    } else {
        None
    }
}

/// The decimal text of an integer, with a `-` when negative.
pub open spec fn int_text(v: int) -> Seq<char> {
    if v < 0 {
        "-"@ + decimal((-v) as nat)
    } else {
        decimal(v as nat)
    }
}

// ----------------------------------------------------------------------------
// Names
// ----------------------------------------------------------------------------

/// `s` without any `c`.
pub open spec fn without_char(s: Seq<char>, c: char) -> Seq<char>
    decreases s.len(),
{
    if s.len() == 0 {
        s
    } else if s.last() == c {
        without_char(s.drop_last(), c)
    } else {
        without_char(s.drop_last(), c).push(s.last())
    }
}

/// Whether `s` holds no line break.
pub open spec fn no_newline(s: Seq<char>) -> bool {
    forall|i: int| 0 <= i < s.len() ==> s[i] != '\n'
}

/// The part of a file name before its first `.`.
pub open spec fn stem_of(name: Seq<char>) -> Seq<char> {
    name.take(first_index_of(name, '.'))
}

/// The route of a directory, `/` for the root.
pub open spec fn route_or_root(parent: Seq<char>) -> Seq<char> {
    if parent.len() == 0 {
        "/"@
    } else {
        parent
    }
}

/// A leading `$` (protection) and the rest of a name.
pub open spec fn dollar_split(stem: Seq<char>) -> (bool, Seq<char>) {
    if stem.len() > 0 && stem[0] == '$' {
        (true, stem.drop_first())
    } else {
        (false, stem)
    }
}

/// What follows a route word: nothing (`Some(None)`), or a non-empty,
/// single-line descriptor in braces (`Some(Some(descriptor))`); `None` for
/// anything else.
pub open spec fn brace_descriptor(rest: Seq<char>) -> Option<Option<Seq<char>>> {
    if rest.len() == 0 {
        Some(None)
    } else if rest.len() >= 3 && rest[0] == '{' && rest.last() == '}' && no_newline(
        rest.subrange(1, rest.len() - 1),
    ) {
        Some(Some(rest.subrange(1, rest.len() - 1)))
    } else {
        None
    }
}

/// `body` is the word `w` followed by an optional descriptor.
pub open spec fn word_then_descriptor(body: Seq<char>, w: Seq<char>) -> Option<Option<Seq<char>>> {
    if starts_with(body, w) {
        brace_descriptor(body.skip(w.len() as int))
    } else {
        None
    }
}

/// The HTTP method a file is named after (get, post, put, patch, delete or
/// options), with its descriptor.
pub open spec fn method_word_match(body: Seq<char>) -> Option<(Seq<char>, Option<Seq<char>>)> {
    if let Some(d) = word_then_descriptor(body, "get"@) {
        Some(("get"@, d))
    } else if let Some(d) = word_then_descriptor(body, "post"@) {
        Some(("post"@, d))
    } else if let Some(d) = word_then_descriptor(body, "put"@) {
        Some(("put"@, d))
    } else if let Some(d) = word_then_descriptor(body, "patch"@) {
        Some(("patch"@, d))
    } else if let Some(d) = word_then_descriptor(body, "delete"@) {
        Some(("delete"@, d))
    } else if let Some(d) = word_then_descriptor(body, "options"@) {
        Some(("options"@, d))
    } else {
        None
    }
}

/// A method file stem: protection, method and descriptor.
pub open spec fn method_file_match(stem: Seq<char>) -> Option<(bool, Seq<char>, Option<Seq<char>>)> {
    let (protected, body) = dollar_split(stem);
    match method_word_match(body) {
        Some((method, d)) => Some((protected, method, d)),
        None => None,
    }
}

/// A REST file stem: protection and descriptor.
pub open spec fn rest_file_match(stem: Seq<char>) -> Option<(bool, Option<Seq<char>>)> {
    let (protected, body) = dollar_split(stem);
    match word_then_descriptor(body, "rest"@) {
        Some(d) => Some((protected, d)),
        None => None,
    }
}

/// The id strategy a REST descriptor names: `int`, else UUID.
pub open spec fn id_type_word(w: Seq<char>) -> IdType {
    if w == "int"@ {
        IdType::Int
    } else {
        IdType::Uuid
    }
}

/// Id field and strategy of a REST descriptor: `uuid` and `int` name the
/// strategy of `id`, another single word names the field (UUID ids), `key:type`
/// names both, and anything with more colons falls back to UUID ids under `id`.
pub open spec fn rest_options(d: Seq<char>) -> (Seq<char>, IdType) {
    let k = first_index_of(d, ':');
    if k == d.len() {
        if d == "uuid"@ {
            ("id"@, IdType::Uuid)
        } else if d == "int"@ {
            ("id"@, IdType::Int)
        } else {
            (d, IdType::Uuid)
        }
    } else {
        let rest = d.skip(k + 1);
        if first_index_of(rest, ':') == rest.len() {
            (d.take(k), id_type_word(rest))
        } else {
            ("id"@, IdType::Uuid)
        }
    }
}

/// The bounds of a range descriptor `start-end`, split at the first `-`.
pub open spec fn range_bounds(d: Seq<char>) -> Option<(int, int)> {
    let k = first_index_of(d, '-');
    if k < d.len() {
        match (parsed_i32(d.take(k)), parsed_i32(d.skip(k + 1))) {
            (Some(a), Some(b)) => Some((a, b)),
            _ => None,
        }
    } else {
        None
    }
}

/// The routes a method file answers on.
pub open spec fn method_routes(parent: Seq<char>, d: Option<Seq<char>>) -> Seq<Seq<char>> {
    match d {
        None => seq![route_or_root(parent)],
        Some(p) => if p == "id"@ {
            seq![parent + "/{id}"@]
        } else {
            match range_bounds(p) {
                Some((a, b)) => Seq::new(
                    if b >= a {
                        (b - a + 1) as nat
                    } else {
                        0
                    },
                    |k: int| parent + "/"@ + int_text(a + k),
                ),
                None => seq![parent + "/"@ + p],
            }
        },
    }
}

/// Upload directory names: `{upload}`, then `{temp}` for temporary storage,
/// then `-name` for the route; the route defaults to `upload`.
pub open spec fn upload_dir_match(e: Seq<char>) -> Option<(bool, Seq<char>)> {
    if !starts_with(e, "{upload}"@) {
        None
    } else {
        let after = e.skip("{upload}"@.len() as int);
        let temporary = starts_with(after, "{temp}"@);
        let r = if temporary {
            after.skip("{temp}"@.len() as int)
        } else {
            after
        };
        if r.len() == 0 {
            Some((temporary, "upload"@))
        } else if r.len() >= 2 && r[0] == '-' && no_newline(r.skip(1)) {
            Some((temporary, r.skip(1)))
        } else {
            None
        }
    }
}

// ----------------------------------------------------------------------------
// Plans
// ----------------------------------------------------------------------------

/// What a mock file serves.
#[derive(Debug)]
pub enum FileRoute {
    /// A file answered for one method on each of the routes.
    Method { method: String, protected: bool, routes: Vec<String> },
    /// A REST collection seeded from the file.
    Rest { route: String, id_key: String, id_type: IdType, protected: bool },
    /// Login and logout routes backed by the file.
    Auth { route: String },
    /// The file streamed on GET.
    Stream { route: String },
}

/// [`FileRoute`] as plain values.
pub enum FileRouteView {
    /// A file answered for one method on each of the routes.
    Method { method: Seq<char>, protected: bool, routes: Seq<Seq<char>> },
    /// A REST collection seeded from the file.
    Rest { route: Seq<char>, id_key: Seq<char>, id_type: IdType, protected: bool },
    /// Login and logout routes backed by the file.
    Auth { route: Seq<char> },
    /// The file streamed on GET.
    Stream { route: Seq<char> },
}

impl View for FileRoute {
    type V = FileRouteView;

    open spec fn view(&self) -> FileRouteView {
        match self {
            FileRoute::Method { method, protected, routes } => FileRouteView::Method {
                method: method@,
                protected: *protected,
                routes: routes@.map_values(|r: String| r@),
            },
            FileRoute::Rest { route, id_key, id_type, protected } => FileRouteView::Rest {
                route: route@,
                id_key: id_key@,
                id_type: *id_type,
                protected: *protected,
            },
            FileRoute::Auth { route } => FileRouteView::Auth { route: route@ },
            FileRoute::Stream { route } => FileRouteView::Stream { route: route@ },
        }
    }
}

/// What the file `name` in the directory routed at `parent` serves.
pub open spec fn planned_file_route(parent: Seq<char>, name: Seq<char>, protected: bool) -> FileRouteView {
    let stem = stem_of(name);
    match method_file_match(stem) {
        Some((marked, method, d)) => FileRouteView::Method {
            method,
            protected: protected || marked,
            routes: method_routes(parent, d),
        },
        None => match rest_file_match(stem) {
            Some((marked, d)) => {
                let options = rest_options(
                    match d {
                        Some(p) => p,
                        None => "id:uuid"@,
                    },
                );
                FileRouteView::Rest {
                    route: route_or_root(parent),
                    id_key: options.0,
                    id_type: options.1,
                    protected: protected || marked,
                }
            },
            None => if stem == "{auth}"@ {
                FileRouteView::Auth { route: route_or_root(parent) }
            } else {
                FileRouteView::Stream { route: parent + "/"@ + stem }
            },
        },
    }
}

/// What an entry of the mock folder stands for.
#[derive(Debug)]
pub enum EntryPlan {
    /// A directory of static files served under its name.
    Public { name: String },
    /// An upload directory and the route that receives uploads.
    Upload { temporary: bool, route: String },
    /// A directory of further entries under a route.
    Directory { route: String, protected: bool },
    /// A file that serves routes.
    File(FileRoute),
    /// Ignored: a hidden file, or neither a file nor a directory.
    Skip,
}

/// [`EntryPlan`] as plain values.
pub enum EntryPlanView {
    /// A directory of static files served under its name.
    Public { name: Seq<char> },
    /// An upload directory and the route that receives uploads.
    Upload { temporary: bool, route: Seq<char> },
    /// A directory of further entries under a route.
    Directory { route: Seq<char>, protected: bool },
    /// A file that serves routes.
    File(FileRouteView),
    /// Ignored.
    Skip,
}

impl View for EntryPlan {
    type V = EntryPlanView;

    open spec fn view(&self) -> EntryPlanView {
        match self {
            EntryPlan::Public { name } => EntryPlanView::Public { name: name@ },
            EntryPlan::Upload { temporary, route } => EntryPlanView::Upload {
                temporary: *temporary,
                route: route@,
            },
            EntryPlan::Directory { route, protected } => EntryPlanView::Directory {
                route: route@,
                protected: *protected,
            },
            EntryPlan::File(f) => EntryPlanView::File(f@),
            EntryPlan::Skip => EntryPlanView::Skip,
        }
    }
}

/// What the entry `name` of the directory routed at `parent` stands for. `$`
/// signs are dropped from the name; a directory named with a leading `$`
/// protects what it holds.
pub open spec fn planned_entry(
    parent: Seq<char>,
    name: Seq<char>,
    is_dir: bool,
    is_file: bool,
    protected: bool,
) -> EntryPlanView {
    let end_point = without_char(name, '$');
    if is_dir {
        if end_point == "public"@ || starts_with(end_point, "public-"@) {
            EntryPlanView::Public { name: end_point }
        } else {
            match upload_dir_match(end_point) {
                Some((temporary, route)) => EntryPlanView::Upload { temporary, route },
                None => EntryPlanView::Directory {
                    route: parent + "/"@ + end_point,
                    protected: protected || starts_with(name, "$"@),
                },
            }
        }
    } else if is_file && !starts_with(end_point, "."@) {
        EntryPlanView::File(planned_file_route(parent, name, protected))
    } else {
        EntryPlanView::Skip
    }
}

/// Whether a watched path lies in an upload folder.
pub open spec fn in_upload_folder(path: Seq<char>) -> bool {
    contains_sub(path, "{upload}"@)
}


// ----------------------------------------------------------------------------
// Executable planning
// ----------------------------------------------------------------------------

/// `str::parse::<i32>` over characters.
pub fn parse_i32(s: &Vec<char>) -> (r: Option<i32>)
    ensures
        match r {
            Some(v) => parsed_i32(s@) == Some(v as int),
            None => parsed_i32(s@) is None,
        },
{
    let n = s.len();
    if n == 0 {
        return None;
    }
    let negative = s[0] == '-';
    let start: usize = if s[0] == '-' || s[0] == '+' {
        1
    } else {
        0
    };
    let ghost digits = s@.subrange(start as int, n as int);
    assert(digits =~= (if start == 1 {
        s@.drop_first()
    } else {
        s@
    }));
    if start == n {
        return None;
    }
    let cap: i64 = 2147483649;
    let mut acc: i64 = 0;
    let mut k: usize = start;
    while k < n
        invariant
            start <= k <= n,
            n == s.len(),
            digits == s@.subrange(start as int, n as int),
            digits == (if s@.len() > 0 && (s@[0] == '-' || s@[0] == '+') {
                s@.drop_first()
            } else {
                s@
            }),
            cap == 2147483649,
            all_digits(s@.subrange(start as int, k as int)),
            digits_value(s@.subrange(start as int, k as int)) >= 0,
            acc == (if digits_value(s@.subrange(start as int, k as int)) >= cap {
                cap as int
            } else {
                digits_value(s@.subrange(start as int, k as int))
            }),
        decreases n - k,
    {
        let c = s[k];
        if !('0' <= c && c <= '9') {
            assert(digits[k - start] == c);
            assert(!is_digit(digits[k - start]));
            assert(!all_digits(digits));
            return None;
        }
        let ghost prev = s@.subrange(start as int, k as int);
        let ghost next = s@.subrange(start as int, k + 1);
        assert(next.drop_last() =~= prev);
        assert(next.last() == c);
        let d: i64 = (c as u32 - 48) as i64;
        assert(d == (c as int) - ('0' as int));
        if acc < cap {
            acc = acc * 10 + d;
            if acc > cap {
                acc = cap;
            }
        }
        k += 1;
        assert(all_digits(next)) by {
            assert forall|i: int| 0 <= i < next.len() implies is_digit(#[trigger] next[i]) by {
                if i < next.len() - 1 {
                    assert(next[i] == prev[i]);
                }
            }
        }
    }
    assert(s@.subrange(start as int, n as int) =~= digits);
    let value: i64 = if negative {
        -acc
    } else {
        acc
    };
    if value < -2147483648 || value > 2147483647 {
        None
    } else {
        Some(value as i32)
    }
}

/// The decimal text of an integer.
pub fn int_chars(v: i32) -> (out: Vec<char>)
    ensures
        out@ == int_text(v as int),
{
    if v < 0 {
        let mut out = chars_of("-");
        let magnitude: u64 = (-(v as i64)) as u64;
        push_all(&mut out, &decimal_chars(magnitude));
        out
    } else {
        decimal_chars(v as u64)
    }
}

/// `name` without any `$`.
pub fn without_dollars(name: &Vec<char>) -> (out: Vec<char>)
    ensures
        out@ == without_char(name@, '$'),
{
    let mut out: Vec<char> = Vec::new();
    let mut k: usize = 0;
    while k < name.len()
        invariant
            k <= name.len(),
            out@ == without_char(name@.take(k as int), '$'),
        decreases name.len() - k,
    {
        assert(name@.take(k + 1).drop_last() =~= name@.take(k as int));
        if name[k] != '$' {
            out.push(name[k]);
        }
        k += 1;
    }
    assert(name@.take(name.len() as int) =~= name@);
    out
}

/// The part of a file name before its first `.`.
pub fn file_stem(name: &Vec<char>) -> (stem: Vec<char>)
    ensures
        stem@ == stem_of(name@),
{
    let k = find_char(name, '.');
    proof {
        lemma_first_index_of(name@, '.');
    }
    sub_chars(name, 0, k)
}

fn route_or_root_chars(parent: &Vec<char>) -> (out: Vec<char>)
    ensures
        out@ == route_or_root(parent@),
{
    if parent.len() == 0 {
        chars_of("/")
    } else {
        crate::text::copy_chars(parent)
    }
}

fn no_newline_in(s: &Vec<char>) -> (r: bool)
    ensures
        r == no_newline(s@),
{
    proof {
        lemma_first_index_of(s@, '\n');
    }
    find_char(s, '\n') == s.len()
}

fn brace_descriptor_of(rest: &Vec<char>) -> (r: Option<Option<Vec<char>>>)
    ensures
        match r {
            None => brace_descriptor(rest@) is None,
            Some(None) => brace_descriptor(rest@) == Some(None::<Seq<char>>),
            Some(Some(d)) => brace_descriptor(rest@) == Some(Some(d@)),
        },
{
    let n = rest.len();
    if n == 0 {
        return Some(None);
    }
    if n >= 3 && rest[0] == '{' && rest[n - 1] == '}' {
        let inner = sub_chars(rest, 1, n - 1);
        if no_newline_in(&inner) {
            return Some(Some(inner));
        }
    }
    None
}

fn word_then_descriptor_of(body: &Vec<char>, w: &str) -> (r: Option<Option<Vec<char>>>)
    ensures
        match r {
            None => word_then_descriptor(body@, w@) is None,
            Some(None) => word_then_descriptor(body@, w@) == Some(None::<Seq<char>>),
            Some(Some(d)) => word_then_descriptor(body@, w@) == Some(Some(d@)),
        },
{
    if !starts_with_str(body, w) {
        return None;
    }
    let len = chars_of(w).len();
    let rest = sub_chars(body, len, body.len());
    assert(rest@ =~= body@.skip(w@.len() as int));
    brace_descriptor_of(&rest)
}

/// A descriptor as plain characters.
pub open spec fn descriptor_view(d: Option<Vec<char>>) -> Option<Seq<char>> {
    match d {
        Some(v) => Some(v@),
        None => None,
    }
}

fn method_of(body: &Vec<char>) -> (r: Option<(&'static str, Option<Vec<char>>)>)
    ensures
        match r {
            None => method_word_match(body@) is None,
            Some((m, d)) => method_word_match(body@) == Some(
                (
                    m@,
                    match d {
                        Some(v) => Some(v@),
                        None => None::<Seq<char>>,
                    },
                ),
            ),
        },
{
    if let Some(d) = word_then_descriptor_of(body, "get") {
        return Some(("get", d));
    }
    if let Some(d) = word_then_descriptor_of(body, "post") {
        return Some(("post", d));
    }
    if let Some(d) = word_then_descriptor_of(body, "put") {
        return Some(("put", d));
    }
    if let Some(d) = word_then_descriptor_of(body, "patch") {
        return Some(("patch", d));
    }
    if let Some(d) = word_then_descriptor_of(body, "delete") {
        return Some(("delete", d));
    }
    if let Some(d) = word_then_descriptor_of(body, "options") {
        return Some(("options", d));
    }
    None
}

/// Id field and strategy of a REST descriptor.
pub fn get_rest_options(descriptor: &str) -> (r: (String, IdType))
    ensures
        (r.0@, r.1) == rest_options(descriptor@),
{
    let d = chars_of(descriptor);
    let k = find_char(&d, ':');
    proof {
        lemma_first_index_of(d@, ':');
    }
    if k == d.len() {
        if chars_eq_str(&d, "uuid") {
            ("id".to_string(), IdType::Uuid)
        } else if chars_eq_str(&d, "int") {
            ("id".to_string(), IdType::Int)
        } else {
            (descriptor.to_string(), IdType::Uuid)
        }
    } else {
        let rest = sub_chars(&d, k + 1, d.len());
        assert(rest@ =~= d@.skip(k + 1));
        let j = find_char(&rest, ':');
        if j == rest.len() {
            let key = sub_chars(&d, 0, k);
            let id_type = if chars_eq_str(&rest, "int") {
                IdType::Int
            } else {
                IdType::Uuid
            };
            (string_of(&key), id_type)
        } else {
            ("id".to_string(), IdType::Uuid)
        }
    }
}

fn joined(parent: &Vec<char>, sep: &str, tail: &Vec<char>) -> (s: String)
    ensures
        s@ == parent@ + sep@ + tail@,
{
    let mut out = crate::text::copy_chars(parent);
    push_str(&mut out, sep);
    push_all(&mut out, tail);
    string_of(&out)
}

fn range_bounds_of(d: &Vec<char>) -> (r: Option<(i32, i32)>)
    ensures
        match r {
            Some((a, b)) => range_bounds(d@) == Some((a as int, b as int)),
            None => range_bounds(d@) is None,
        },
{
    let k = find_char(d, '-');
    proof {
        lemma_first_index_of(d@, '-');
    }
    if k < d.len() {
        let left = sub_chars(d, 0, k);
        let right = sub_chars(d, k + 1, d.len());
        assert(right@ =~= d@.skip(k + 1));
        match (parse_i32(&left), parse_i32(&right)) {
            (Some(a), Some(b)) => Some((a, b)),
            _ => None,
        }
    } else {
        None
    }
}

/// The routes a method file answers on.
pub fn method_route_list(parent: &Vec<char>, d: &Option<Vec<char>>) -> (out: Vec<String>)
    ensures
        out@.map_values(|r: String| r@) == method_routes(parent@, descriptor_view(*d)),
{
    let mut out: Vec<String> = Vec::new();
    match d {
        None => {
            out.push(string_of(&route_or_root_chars(parent)));
        },
        Some(p) => {
            if chars_eq_str(p, "id") {
                out.push(joined(parent, "/{id}", &Vec::new()));
            } else {
                match range_bounds_of(p) {
                    Some((a, b)) => {
                        let ghost count: nat = if b >= a {
                            (b - a + 1) as nat
                        } else {
                            0
                        };
                        let ghost expected = Seq::new(
                            count,
                            |k: int| parent@ + "/"@ + int_text(a + k),
                        );
                        let mut i: i64 = a as i64;
                        while i <= b as i64
                            invariant
                                a <= i <= b as int + 1 || (i == a && b < a),
                                out.len() == i - a,
                                forall|j: int| 0 <= j < out.len() ==> #[trigger] out@[j]@
                                    == parent@ + "/"@ + int_text(a + j),
                            decreases b as int + 1 - i,
                        {
                            out.push(joined(parent, "/", &int_chars(i as i32)));
                            i += 1;
                        }
                        assert(out@.map_values(|r: String| r@) =~= expected);
                        return out;
                    },
                    None => {
                        out.push(joined(parent, "/", p));
                    },
                }
            }
        },
    }
    assert(out@.map_values(|r: String| r@) =~= method_routes(parent@, descriptor_view(*d)));
    out
}

/// What the file `name` in the directory routed at `parent` serves;
/// `protected` tells whether a directory above it is protected.
pub fn plan_file_route(parent: &str, name: &str, protected: bool) -> (r: FileRoute)
    ensures
        r@ == planned_file_route(parent@, name@, protected),
{
    let parent_chars = chars_of(parent);
    let stem = file_stem(&chars_of(name));
    let marked = stem.len() > 0 && stem[0] == '$';
    let body = if marked {
        sub_chars(&stem, 1, stem.len())
    } else {
        crate::text::copy_chars(&stem)
    };
    assert(dollar_split(stem@) == (marked, body@)) by {
        if marked {
            assert(body@ =~= stem@.drop_first());
        }
    }
    if let Some((method, d)) = method_of(&body) {
        let routes = method_route_list(&parent_chars, &d);
        return FileRoute::Method { method: method.to_string(), protected: protected || marked, routes };
    }
    if let Some(d) = word_then_descriptor_of(&body, "rest") {
        let descriptor = match d {
            Some(p) => string_of(&p),
            None => "id:uuid".to_string(),
        };
        let (id_key, id_type) = get_rest_options(descriptor.as_str());
        return FileRoute::Rest {
            route: string_of(&route_or_root_chars(&parent_chars)),
            id_key,
            id_type,
            protected: protected || marked,
        };
    }
    if chars_eq_str(&stem, "{auth}") {
        return FileRoute::Auth { route: string_of(&route_or_root_chars(&parent_chars)) };
    }
    FileRoute::Stream { route: joined(&parent_chars, "/", &stem) }
}

fn upload_dir_of(e: &Vec<char>) -> (r: Option<(bool, String)>)
    ensures
        match r {
            Some((t, route)) => upload_dir_match(e@) == Some((t, route@)),
            None => upload_dir_match(e@) is None,
        },
{
    if !starts_with_str(e, "{upload}") {
        return None;
    }
    let after = sub_chars(e, chars_of("{upload}").len(), e.len());
    assert(after@ =~= e@.skip("{upload}"@.len() as int));
    let temporary = starts_with_str(&after, "{temp}");
    let r = if temporary {
        let t = sub_chars(&after, chars_of("{temp}").len(), after.len());
        assert(t@ =~= after@.skip("{temp}"@.len() as int));
        t
    } else {
        after
    };
    if r.len() == 0 {
        return Some((temporary, "upload".to_string()));
    }
    if r.len() >= 2 && r[0] == '-' {
        let name = sub_chars(&r, 1, r.len());
        assert(name@ =~= r@.skip(1));
        if no_newline_in(&name) {
            return Some((temporary, string_of(&name)));
        }
    }
    None
}

/// What the entry `name` of the directory routed at `parent` stands for;
/// `protected` tells whether a directory above it is protected.
pub fn plan_entry(parent: &str, name: &str, is_dir: bool, is_file: bool, protected: bool) -> (r: EntryPlan)
    ensures
        r@ == planned_entry(parent@, name@, is_dir, is_file, protected),
{
    let name_chars = chars_of(name);
    let end_point = without_dollars(&name_chars);
    if is_dir {
        proof {
            reveal_strlit("public");
        }
        if chars_eq_str(&end_point, "public") || starts_with_str(&end_point, "public-") {
            return EntryPlan::Public { name: string_of(&end_point) };
        }
        if let Some((temporary, route)) = upload_dir_of(&end_point) {
            return EntryPlan::Upload { temporary, route };
        }
        let marked = starts_with_str(&name_chars, "$");
        return EntryPlan::Directory {
            route: joined(&chars_of(parent), "/", &end_point),
            protected: protected || marked,
        };
    }
    if is_file && !starts_with_str(&end_point, ".") {
        return EntryPlan::File(plan_file_route(parent, name, protected));
    }
    EntryPlan::Skip
}

/// Whether a watched path lies in an upload folder (its text holds `{upload}`).
pub fn is_upload_folder(folder: &str) -> (r: bool)
    ensures
        r == in_upload_folder(folder@),
{
    str_contains(folder, "{upload}")
}


// ----------------------------------------------------------------------------
// Generated files route back to their selection
// ----------------------------------------------------------------------------

/// One of the HTTP methods a file can be named after.
pub open spec fn is_method_word(m: Seq<char>) -> bool {
    m == "get"@ || m == "post"@ || m == "put"@ || m == "patch"@ || m == "delete"@ || m
        == "options"@
}

/// The first `c` of `x + [c] + y` is the one after `x` when `x` holds none.
proof fn lemma_first_index_after(x: Seq<char>, y: Seq<char>, c: char)
    requires
        forall|i: int| 0 <= i < x.len() ==> x[i] != c,
    ensures
        first_index_of(x + seq![c] + y, c) == x.len(),
    decreases x.len(),
{
    let s = x + seq![c] + y;
    if x.len() > 0 {
        assert(s.drop_first() =~= x.drop_first() + seq![c] + y);
        lemma_first_index_after(x.drop_first(), y, c);
    } else {
        assert(s[0] == c);
    }
}

/// `w` followed by `d` is read as the word `w` with descriptor `d`.
proof fn lemma_word_then(w: Seq<char>, d: Seq<char>)
    ensures
        starts_with(w + d, w),
        (w + d).skip(w.len() as int) == d,
{
    assert((w + d).take(w.len() as int) =~= w);
    assert((w + d).skip(w.len() as int) =~= d);
}

/// A body that starts with a different method word is not read as `w`.
proof fn lemma_other_word(body: Seq<char>, w: Seq<char>, k: int)
    requires
        0 <= k < w.len(),
        k < body.len(),
        body[k] != w[k],
    ensures
        word_then_descriptor(body, w) is None,
{
    if starts_with(body, w) {
        assert(body.take(w.len() as int)[k] == body[k]);
    }
}

/// A basic route generated for method `m` and the optional `{id}` descriptor
/// is read back by the route scanner as that method, with the selection's
/// protection (or the folder's), on the folder's route or on its `{id}` route.
pub proof fn lemma_generated_basic_file_routes_back(parent: Seq<char>, sel: RouteSelection, protected: bool)
    requires
        is_method_word(ascii_lower(sel.method@)),
        route_param_descriptor(sel.route@) is None || route_param_descriptor(sel.route@) == Some(
            "{id}"@,
        ),
    ensures
        planned_file_route(parent, basic_file_name(sel), protected) == (FileRouteView::Method {
            method: ascii_lower(sel.method@),
            protected: protected || sel.protected,
            routes: if route_param_descriptor(sel.route@) is None {
                seq![route_or_root(parent)]
            } else {
                seq![parent + "/{id}"@]
            },
        }),
{
    reveal_strlit("get");
    reveal_strlit("post");
    reveal_strlit("put");
    reveal_strlit("patch");
    reveal_strlit("delete");
    reveal_strlit("options");
    reveal_strlit("{id}");
    reveal_strlit("id");
    reveal_strlit(".");
    reveal_strlit("$");
    let m = ascii_lower(sel.method@);
    let d = or_default(route_param_descriptor(sel.route@), Seq::empty());
    let body = m + d;
    let stem = protection_prefix(sel.protected) + body;
    let name = basic_file_name(sel);
    assert(name =~= stem + seq!['.'] + method_extension(sel.file_type));
    assert forall|i: int| 0 <= i < stem.len() implies stem[i] != '.' by {
        if sel.protected && i == 0 {
        } else {
            let j = if sel.protected { i - 1 } else { i };
            assert(stem[i] == body[j]);
            if j < m.len() {
            } else {
                assert(body[j] == d[j - m.len()]);
            }
        }
    }
    lemma_first_index_after(stem, method_extension(sel.file_type), '.');
    assert(stem_of(name) =~= stem);
    assert(dollar_split(stem) == (sel.protected, body)) by {
        if sel.protected {
            assert(stem.drop_first() =~= body);
        } else {
            assert(stem =~= body);
        }
    }
    lemma_word_then(m, d);
    if route_param_descriptor(sel.route@) is None {
        assert(d =~= Seq::<char>::empty());
        assert(brace_descriptor(d) == Some(None::<Seq<char>>));
    } else {
        assert(d.subrange(1, d.len() - 1) =~= "id"@);
        assert(brace_descriptor(d) == Some(Some("id"@)));
    }
    if m != "get"@ {
        lemma_other_word(body, "get"@, 0);
    }
    if m != "get"@ && m != "post"@ {
        if m == "put"@ || m == "patch"@ {
            lemma_other_word(body, "post"@, 1);
        } else {
            lemma_other_word(body, "post"@, 0);
        }
    }
    if m == "patch"@ || m == "delete"@ || m == "options"@ {
        if m == "patch"@ {
            lemma_other_word(body, "put"@, 1);
        } else {
            lemma_other_word(body, "put"@, 0);
        }
    }
    if m == "delete"@ || m == "options"@ {
        lemma_other_word(body, "patch"@, 0);
    }
    if m == "options"@ {
        lemma_other_word(body, "delete"@, 0);
    }
}

/// A text without `c` keeps all of its characters when `c` is dropped.
proof fn lemma_without_absent_char(s: Seq<char>, c: char)
    requires
        forall|i: int| 0 <= i < s.len() ==> s[i] != c,
    ensures
        without_char(s, c) == s,
    decreases s.len(),
{
    if s.len() > 0 {
        lemma_without_absent_char(s.drop_last(), c);
        assert(s.drop_last().push(s.last()) =~= s);
    }
}

/// An upload directory named `{upload}-N` or `{upload}{temp}-N`, for any
/// non-empty `N` without `$` or line breaks, takes uploads at the route `N`,
/// whether or not it is temporary; `{temp}` alone marks it temporary.
pub proof fn lemma_upload_route_is_its_suffix(
    parent: Seq<char>,
    n: Seq<char>,
    is_file: bool,
    protected: bool,
)
    requires
        n.len() > 0,
        forall|i: int| 0 <= i < n.len() ==> n[i] != '$' && n[i] != '\n',
    ensures
        planned_entry(parent, "{upload}-"@ + n, true, is_file, protected)
            == (EntryPlanView::Upload { temporary: false, route: n }),
        planned_entry(parent, "{upload}{temp}-"@ + n, true, is_file, protected)
            == (EntryPlanView::Upload { temporary: true, route: n }),
{
    reveal_strlit("{upload}-");
    reveal_strlit("{upload}{temp}-");
    reveal_strlit("{upload}");
    reveal_strlit("{temp}");
    reveal_strlit("public");
    reveal_strlit("public-");
    let a = "{upload}-"@ + n;
    let b = "{upload}{temp}-"@ + n;
    lemma_without_absent_char(a, '$');
    lemma_without_absent_char(b, '$');
    assert(a.take(8) =~= "{upload}"@);
    assert(b.take(8) =~= "{upload}"@);
    let ra = a.skip(8);
    assert(ra =~= seq!['-'] + n);
    assert(!starts_with(ra, "{temp}"@)) by {
        if ra.len() >= 6 {
            assert(ra[0] != "{temp}"@[0]);
            assert(ra.take(6)[0] != "{temp}"@[0]);
        }
    }
    assert(ra.skip(1) =~= n);
    let rb = b.skip(8);
    assert(rb.take(6) =~= "{temp}"@);
    assert(rb.skip(6) =~= seq!['-'] + n);
    assert(rb.skip(6).skip(1) =~= n);
    assert(a != "public"@ && !starts_with(a, "public-"@)) by {
        assert(a[0] == '{');
        assert(a.take(7)[0] == '{');
    }
    assert(b != "public"@ && !starts_with(b, "public-"@)) by {
        assert(b[0] == '{');
        assert(b.take(7)[0] == '{');
    }
}

/// A bare upload directory, `{upload}` or `{upload}{temp}`, takes uploads at
/// the route `upload`; `{temp}` marks it temporary.
pub proof fn lemma_bare_upload_route(parent: Seq<char>, is_file: bool, protected: bool)
    ensures
        planned_entry(parent, "{upload}"@, true, is_file, protected)
            == (EntryPlanView::Upload { temporary: false, route: "upload"@ }),
        planned_entry(parent, "{upload}{temp}"@, true, is_file, protected)
            == (EntryPlanView::Upload { temporary: true, route: "upload"@ }),
{
    reveal_strlit("{upload}");
    reveal_strlit("{upload}{temp}");
    reveal_strlit("{temp}");
    reveal_strlit("public");
    reveal_strlit("public-");
    let a = "{upload}"@;
    let b = "{upload}{temp}"@;
    assert forall|i: int| 0 <= i < a.len() implies a[i] != '$' by {}
    assert forall|i: int| 0 <= i < b.len() implies b[i] != '$' by {}
    lemma_without_absent_char(a, '$');
    lemma_without_absent_char(b, '$');
    assert(a.take(8) =~= a);
    assert(a.skip(8) =~= Seq::<char>::empty());
    assert(b.take(8) =~= "{upload}"@);
    assert(b.skip(8) =~= "{temp}"@);
    assert(b.skip(8).take(6) =~= "{temp}"@);
    assert(b.skip(8).skip(6) =~= Seq::<char>::empty());
    assert(a != "public"@ && !starts_with(a, "public-"@)) by {
        assert(a.take(7)[0] == '{');
    }
    assert(b != "public"@ && !starts_with(b, "public-"@)) by {
        assert(b.take(7)[0] == '{');
    }
}

} // verus!
