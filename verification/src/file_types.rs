//! File names, stems and extensions of paths, and the file types served as text.

use vstd::prelude::*;

use crate::text::{chars_eq_str, chars_of, split_chars, split_on, string_of, sub_chars};

verus! {

/// The components of a path that name something: not empty and not `.`.
pub open spec fn named_components(segs: Seq<Seq<char>>) -> Seq<Seq<char>>
    decreases segs.len(),
{
    if segs.len() == 0 {
        Seq::empty()
    } else if segs.last().len() == 0 || segs.last() == "."@ {
        named_components(segs.drop_last())
    } else {
        named_components(segs.drop_last()).push(segs.last())
    }
}

/// `Path::file_name`: the last component, unless the path ends in `..` or has none.
pub open spec fn path_file_name(path: Seq<char>) -> Option<Seq<char>> {
    let comps = named_components(split_on(path, '/'));
    if comps.len() == 0 || comps.last() == ".."@ {
        None
    } else {
        Some(comps.last())
    }
}

/// Position of the last `.` of a name, if any.
pub open spec fn last_dot(name: Seq<char>) -> Option<int>
    decreases name.len(),
{
    if name.len() == 0 {
        None
    } else if name.last() == '.' {
        Some(name.len() - 1)
    } else {
        last_dot(name.drop_last())
    }
}

/// `Path::extension`: what follows the last `.` of the file name, unless the
/// name has no `.` or only a leading one.
pub open spec fn path_extension(path: Seq<char>) -> Option<Seq<char>> {
    match path_file_name(path) {
        Some(name) => match last_dot(name) {
            Some(i) => if i == 0 {
                None
            } else {
                Some(name.subrange(i + 1, name.len() as int))
            },
            None => None,
        },
        None => None,
    }
}

/// `Path::file_stem`: the file name before its last `.`, or the whole name
/// when it has no `.` or only a leading one.
pub open spec fn path_file_stem(path: Seq<char>) -> Option<Seq<char>> {
    match path_file_name(path) {
        Some(name) => match last_dot(name) {
            Some(i) => if i == 0 {
                Some(name)
            } else {
                Some(name.subrange(0, i))
            },
            None => Some(name),
        },
        None => None,
    }
}

/// The extension of a path, or nothing.
pub open spec fn extension_or_empty(path: Seq<char>) -> Seq<char> {
    match path_extension(path) {
        Some(e) => e,
        None => Seq::empty(),
    }
}

fn last_component(path: &Vec<char>) -> (r: Option<Vec<char>>)
    ensures
        match r {
            Some(c) => path_file_name(path@) == Some(c@),
            None => path_file_name(path@) is None,
        },
{
    let segs = split_chars(path, '/');
    let ghost all = split_on(path@, '/');
    let mut last: Option<usize> = None;
    let mut i: usize = 0;
    while i < segs.len()
        invariant
            i <= segs.len(),
            crate::text::seqs_view(segs@) == all,
            segs.len() == all.len(),
            last is None <==> named_components(all.take(i as int)).len() == 0,
            last matches Some(j) ==> j < i && named_components(all.take(i as int)).last()
                == segs@[j as int]@,
        decreases segs.len() - i,
    {
        assert(all.take(i + 1).drop_last() =~= all.take(i as int));
        assert(all.take(i + 1).last() == segs@[i as int]@);
        if segs[i].len() > 0 && !chars_eq_str(&segs[i], ".") {
            last = Some(i);
        }
        i += 1;
    }
    assert(all.take(segs.len() as int) =~= all);
    match last {
        Some(j) => {
            if chars_eq_str(&segs[j], "..") {
                None
            } else {
                Some(crate::text::copy_chars(&segs[j]))
            }
        },
        None => None,
    }
}

fn find_last_dot(name: &Vec<char>) -> (r: Option<usize>)
    ensures
        match r {
            Some(i) => last_dot(name@) == Some(i as int) && i < name.len(),
            None => last_dot(name@) is None,
        },
{
    let mut k: usize = name.len();
    assert(name@.take(k as int) =~= name@);
    while k > 0
        invariant
            k <= name.len(),
            last_dot(name@) == last_dot(name@.take(k as int)),
        decreases k,
    {
        assert(name@.take(k as int).drop_last() =~= name@.take(k - 1));
        if name[k - 1] == '.' {
            return Some(k - 1);
        }
        k -= 1;
    }
    None
}

/// The extension of a path, or an empty string when it has none.
pub fn get_file_extension(file_path: &str) -> (ext: String)
    ensures
        ext@ == extension_or_empty(file_path@),
{
    match last_component(&chars_of(file_path)) {
        Some(name) => match find_last_dot(&name) {
            Some(i) => if i == 0 {
                String::new()
            } else {
                string_of(&sub_chars(&name, i + 1, name.len()))
            },
            None => String::new(),
        },
        None => String::new(),
    }
}

/// The file stem of a path, if it has a file name.
pub fn file_stem(file_path: &str) -> (stem: Option<String>)
    ensures
        match stem {
            Some(s) => path_file_stem(file_path@) == Some(s@),
            None => path_file_stem(file_path@) is None,
        },
{
    match last_component(&chars_of(file_path)) {
        Some(name) => match find_last_dot(&name) {
            Some(i) => if i == 0 {
                Some(string_of(&name))
            } else {
                Some(string_of(&sub_chars(&name, 0, i)))
            },
            None => Some(string_of(&name)),
        },
        None => None,
    }
}

fn extension_is(file_path: &str, ext: &str) -> (r: bool)
    ensures
        r == (extension_or_empty(file_path@) == ext@),
{
    let e = get_file_extension(file_path);
    chars_eq_str(&chars_of(e.as_str()), ext)
}

/// Whether the path has a textual extension: `txt`, `md`, `json`, `jgd` or `sql`.
pub fn is_text_file(file_path: &str) -> (r: bool)
    ensures
        r == (extension_or_empty(file_path@) == "txt"@ || extension_or_empty(file_path@) == "md"@
            || extension_or_empty(file_path@) == "json"@ || extension_or_empty(file_path@)
            == "jgd"@ || extension_or_empty(file_path@) == "sql"@),
{
    extension_is(file_path, "txt") || extension_is(file_path, "md") || extension_is(file_path, "json")
        || extension_is(file_path, "jgd") || extension_is(file_path, "sql")
}

/// Whether the path has the `json` extension.
pub fn is_json(file_path: &str) -> (r: bool)
    ensures
        r == (extension_or_empty(file_path@) == "json"@),
{
    extension_is(file_path, "json")
}

/// Whether the path has the `jgd` extension.
pub fn is_jgd(file_path: &str) -> (r: bool)
    ensures
        r == (extension_or_empty(file_path@) == "jgd"@),
{
    extension_is(file_path, "jgd")
}

/// Whether the path has the `sql` extension.
pub fn is_sql(file_path: &str) -> (r: bool)
    ensures
        r == (extension_or_empty(file_path@) == "sql"@),
{
    extension_is(file_path, "sql")
}

/// Whether the path has the `toml` extension.
pub fn is_toml(file_path: &str) -> (r: bool)
    ensures
        r == (extension_or_empty(file_path@) == "toml"@),
{
    extension_is(file_path, "toml")
}

} // verus!
