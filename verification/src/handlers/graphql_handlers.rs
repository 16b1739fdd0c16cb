//! The GraphQL endpoint over the collections: which collections a request
//! names, which relation paths its selections expand, how results are cut
//! down to what was selected, and how mutations read their arguments.
//!
//! A request is held as its operations and their selections; argument
//! values are held as the JSON values they denote.

use vstd::prelude::*;

use crate::json_value::{
    field_index, field_value, fields_view, fields_with, find_field, lemma_field_index,
    lemma_object_view, Json, JsonView,
};
use crate::text::{
    chars_of, contains_sub, decimal, decimal_chars, push_all, push_str, starts_with, string_of,
};

verus! {

/// A field of a selection: its name, its arguments, and its own selection.
#[derive(Debug)]
pub struct GqlField {
    /// Name of the field.
    pub name: String,
    /// Arguments, in order, as JSON values.
    pub arguments: Vec<(String, Json)>,
    /// Nested selection; empty for a leaf.
    pub selection: Vec<GqlSelection>,
}

/// One item of a selection set.
#[derive(Debug)]
pub enum GqlSelection {
    /// A field.
    Field(GqlField),
    /// A fragment spread or inline fragment, which the endpoint ignores.
    Fragment,
}

/// One definition of a request document.
#[derive(Debug)]
pub enum GqlDefinition {
    /// A query operation and its selection.
    Query(Vec<GqlSelection>),
    /// A mutation operation and its selection.
    Mutation(Vec<GqlSelection>),
    /// Anything else (a query written as a bare selection set, a
    /// subscription, a fragment definition), which the endpoint skips.
    Other,
}

// ----------------------------------------------------------------------------
// Expansion paths
// ----------------------------------------------------------------------------

/// `prefix.name`, or `name` when the prefix is empty.
pub open spec fn joined(prefix: Seq<char>, name: Seq<char>) -> Seq<char> {
    if prefix.len() == 0 {
        name
    } else {
        prefix + "."@ + name
    }
}

/// The expansion paths of a selection under `prefix`: for each field with a
/// nested selection, the paths that its children with nested selections give.
pub open spec fn expansion_paths_of(sels: Seq<GqlSelection>, prefix: Seq<char>) -> Seq<Seq<char>>
    decreases sels,
{
    if sels.len() == 0 {
        Seq::empty()
    } else {
        let prev = expansion_paths_of(sels.drop_last(), prefix);
        match sels.last() {
            GqlSelection::Field(f) => if f.selection@.len() > 0 {
                prev + child_paths(f.selection@, joined(prefix, f.name@))
            } else {
                prev
            },
            GqlSelection::Fragment => prev,
        }
    }
}

/// For each child field with a nested selection: `base.child`, then the
/// expansion paths of the child's selection under that path.
pub open spec fn child_paths(children: Seq<GqlSelection>, base: Seq<char>) -> Seq<Seq<char>>
    decreases children,
{
    if children.len() == 0 {
        Seq::empty()
    } else {
        let prev = child_paths(children.drop_last(), base);
        match children.last() {
            GqlSelection::Field(cf) => if cf.selection@.len() > 0 {
                let path = base + "."@ + cf.name@;
                prev + seq![path] + expansion_paths_of(cf.selection@, path)
            } else {
                prev
            },
            GqlSelection::Fragment => prev,
        }
    }
}

/// The plain values of strings.
pub open spec fn views_of(v: Seq<String>) -> Seq<Seq<char>> {
    v.map_values(|s: String| s@)
}

/// `prefix.name`, or `name` when the prefix is empty.
fn join_path(prefix: &str, name: &str) -> (s: String)
    ensures
        s@ == joined(prefix@, name@),
{
    let mut out = chars_of(prefix);
    if out.len() == 0 {
        name.to_string()
    } else {
        push_str(&mut out, ".");
        push_str(&mut out, name);
        string_of(&out)
    }
}

/// Appends to `paths` the expansion paths of a selection under `prefix`.
pub fn collect_expansion_paths(selection: &Vec<GqlSelection>, prefix: &str, paths: &mut Vec<String>)
    ensures
        views_of(final(paths)@) == views_of(old(paths)@) + expansion_paths_of(selection@, prefix@),
    decreases selection@,
{
    let ghost start = views_of(paths@);
    let mut i: usize = 0;
    while i < selection.len()
        invariant
            i <= selection.len(),
            views_of(paths@) == start + expansion_paths_of(selection@.take(i as int), prefix@),
        decreases selection.len() - i,
    {
        assert(selection@.take(i + 1).drop_last() =~= selection@.take(i as int));
        assert(selection@.take(i + 1).last() == selection@[i as int]);
        if let GqlSelection::Field(f) = &selection[i] {
            if f.selection.len() > 0 {
                let base = join_path(prefix, f.name.as_str());
                proof {
                    assert(decreases_to!(selection@ => selection@[i as int]));
                }
                collect_child_paths(&f.selection, base.as_str(), paths);
            }
        }
        assert(views_of(paths@) =~= start + expansion_paths_of(selection@.take(i + 1), prefix@));
        i += 1;
    }
    assert(selection@.take(selection.len() as int) =~= selection@);
}

/// Appends to `paths` the paths of the children with nested selections.
fn collect_child_paths(children: &Vec<GqlSelection>, base: &str, paths: &mut Vec<String>)
    ensures
        views_of(final(paths)@) == views_of(old(paths)@) + child_paths(children@, base@),
    decreases children@,
{
    let ghost start = views_of(paths@);
    let mut i: usize = 0;
    while i < children.len()
        invariant
            i <= children.len(),
            views_of(paths@) == start + child_paths(children@.take(i as int), base@),
        decreases children.len() - i,
    {
        assert(children@.take(i + 1).drop_last() =~= children@.take(i as int));
        assert(children@.take(i + 1).last() == children@[i as int]);
        let ghost before = views_of(paths@);
        if let GqlSelection::Field(cf) = &children[i] {
            if cf.selection.len() > 0 {
                let mut out = chars_of(base);
                push_str(&mut out, ".");
                push_str(&mut out, cf.name.as_str());
                let path = string_of(&out);
                paths.push(path.clone());
                assert(views_of(paths@) =~= before + seq![path@]);
                proof {
                    assert(decreases_to!(children@ => children@[i as int]));
                }
                collect_expansion_paths(&cf.selection, path.as_str(), paths);
            }
        }
        assert(views_of(paths@) =~= start + child_paths(children@.take(i + 1), base@));
        i += 1;
    }
    assert(children@.take(children.len() as int) =~= children@);
}

/// The expansion paths of a selection.
pub fn expansion_paths(selection: &Vec<GqlSelection>) -> (paths: Vec<String>)
    ensures
        views_of(paths@) == expansion_paths_of(selection@, Seq::empty()),
{
    let mut paths: Vec<String> = Vec::new();
    assert(views_of(paths@) =~= Seq::<Seq<char>>::empty());
    proof {
        reveal_strlit("");
    }
    collect_expansion_paths(selection, "", &mut paths);
    assert(""@ =~= Seq::<char>::empty());
    assert(views_of(paths@) =~= expansion_paths_of(selection@, Seq::empty()));
    paths
}

// ----------------------------------------------------------------------------
// Results cut down to the selection
// ----------------------------------------------------------------------------

/// A value cut down to a selection: an object keeps the selected fields it
/// has, each once, in selection order (a field with a nested selection is
/// cut down to it in turn); an array cuts down each item; anything else is
/// kept.
pub open spec fn filtered(v: JsonView, sels: Seq<GqlSelection>) -> JsonView
    decreases sels, v,
{
    match v {
        JsonView::Object(fields) => JsonView::Object(picked(fields, sels)),
        JsonView::Array(items) => JsonView::Array(
            Seq::new(
                items.len(),
                |i: int|
                    if 0 <= i < items.len() {
                        filtered(items[i], sels)
                    } else {
                        JsonView::Null
                    },
            ),
        ),
        _ => v,
    }
}

/// The selected fields of an object, each once, in selection order.
pub open spec fn picked(fields: Seq<(Seq<char>, JsonView)>, sels: Seq<GqlSelection>) -> Seq<(Seq<char>, JsonView)>
    decreases sels, fields,
{
    if sels.len() == 0 {
        Seq::empty()
    } else {
        let prev = picked(fields, sels.drop_last());
        match sels.last() {
            GqlSelection::Field(f) => match field_index(fields, f.name@) {
                Some(k) => if field_index(prev, f.name@) is None && 0 <= k < fields.len() {
                    prev.push(
                        (
                            f.name@,
                            if f.selection@.len() > 0 {
                                filtered(fields[k].1, f.selection@)
                            } else {
                                fields[k].1
                            },
                        ),
                    )
                } else {
                    prev
                },
                None => prev,
            },
            GqlSelection::Fragment => prev,
        }
    }
}

/// Whether every object in a value, at any depth, holds only fields that the
/// selection in force there names: at the top the selection itself, below a
/// field the nested selection of a field of that name (arrays pass the
/// selection to their items; a field without a nested selection is not looked
/// into).
pub open spec fn only_selected(v: JsonView, sels: Seq<GqlSelection>) -> bool
    decreases sels, v, 0nat,
{
    match v {
        JsonView::Object(fields) => fields_selected(fields, sels, fields.len()),
        JsonView::Array(items) => items_selected(items, sels, items.len()),
        _ => true,
    }
}

/// Whether each of the first `n` fields is named by the selection (see
/// [`only_selected`]).
pub open spec fn fields_selected(
    fields: Seq<(Seq<char>, JsonView)>,
    sels: Seq<GqlSelection>,
    n: nat,
) -> bool
    decreases sels, fields, n,
{
    if n == 0 || n > fields.len() {
        n == 0
    } else {
        fields_selected(fields, sels, (n - 1) as nat) && entry_selected(
            fields[n - 1],
            sels,
            sels.len(),
        )
    }
}

/// Whether one of the first `m` selection items is a field named like the
/// entry whose nested selection, if any, the entry's value keeps to.
pub open spec fn entry_selected(e: (Seq<char>, JsonView), sels: Seq<GqlSelection>, m: nat) -> bool
    decreases sels, e, m,
{
    if m == 0 || m > sels.len() {
        false
    } else {
        (selects(sels[m - 1], e.0) && (sels[m - 1]->Field_0.selection@.len() > 0 ==> only_selected(
            e.1,
            sels[m - 1]->Field_0.selection@,
        ))) || entry_selected(e, sels, (m - 1) as nat)
    }
}

/// Whether each of the first `n` items keeps to the selection.
pub open spec fn items_selected(items: Seq<JsonView>, sels: Seq<GqlSelection>, n: nat) -> bool
    decreases sels, items, n,
{
    if n == 0 || n > items.len() {
        n == 0
    } else {
        items_selected(items, sels, (n - 1) as nat) && only_selected(items[n - 1], sels)
    }
}

/// Whether a selection item is a field named `name`.
pub open spec fn selects(sel: GqlSelection, name: Seq<char>) -> bool {
    sel matches GqlSelection::Field(f) && f.name@ == name
}

/// An entry is selected once one selection item names it and its value keeps
/// to that item's nested selection.
proof fn lemma_entry_selected(e: (Seq<char>, JsonView), sels: Seq<GqlSelection>, j: int, m: nat)
    requires
        0 <= j < m <= sels.len(),
        selects(sels[j], e.0),
        sels[j]->Field_0.selection@.len() > 0 ==> only_selected(e.1, sels[j]->Field_0.selection@),
    ensures
        entry_selected(e, sels, m),
    decreases m,
{
    if j < m - 1 {
        lemma_entry_selected(e, sels, j, (m - 1) as nat);
    }
}

/// Where an entry of the cut-down fields comes from: the selection field at
/// `j` and the object's field at `k`.
proof fn lemma_picked_entry(fields: Seq<(Seq<char>, JsonView)>, sels: Seq<GqlSelection>, i: int) -> (jk: (
    int,
    int,
))
    requires
        0 <= i < picked(fields, sels).len(),
    ensures
        0 <= jk.0 < sels.len(),
        selects(sels[jk.0], picked(fields, sels)[i].0),
        0 <= jk.1 < fields.len(),
        picked(fields, sels)[i].1 == if sels[jk.0]->Field_0.selection@.len() > 0 {
            filtered(fields[jk.1].1, sels[jk.0]->Field_0.selection@)
        } else {
            fields[jk.1].1
        },
    decreases sels.len(),
{
    let init = sels.drop_last();
    let prev = picked(fields, init);
    if i < prev.len() {
        let jk = lemma_picked_entry(fields, init, i);
        match sels.last() {
            GqlSelection::Field(f) => match field_index(fields, f.name@) {
                Some(k) => {
                    if field_index(prev, f.name@) is None && 0 <= k < fields.len() {
                        assert(picked(fields, sels)[i] == prev[i]);
                    }
                },
                None => {},
            },
            GqlSelection::Fragment => {},
        }
        assert(sels[jk.0] == init[jk.0]);
        jk
    } else {
        let j = sels.len() - 1;
        match sels.last() {
            GqlSelection::Field(f) => {
                let k = field_index(fields, f.name@)->0;
                (j, k)
            },
            GqlSelection::Fragment => (j, 0),
        }
    }
}

/// The first `n` entries of the cut-down fields keep to the selection.
proof fn lemma_picked_selected(fields: Seq<(Seq<char>, JsonView)>, sels: Seq<GqlSelection>, n: nat)
    requires
        n <= picked(fields, sels).len(),
    ensures
        fields_selected(picked(fields, sels), sels, n),
    decreases sels, fields, n,
{
    if n > 0 {
        lemma_picked_selected(fields, sels, (n - 1) as nat);
        let out = picked(fields, sels);
        let i = n - 1;
        let (j, k) = lemma_picked_entry(fields, sels, i);
        let f = sels[j]->Field_0;
        if f.selection@.len() > 0 {
            assert(decreases_to!(sels => sels[j]));
            assert(decreases_to!(sels[j] => f));
            assert(decreases_to!(f => f.selection));
            assert(decreases_to!(f.selection => f.selection@));
            lemma_filtered_only_selected(fields[k].1, f.selection@);
        }
        lemma_entry_selected(out[i], sels, j, sels.len());
    }
}

/// The first `n` items of a cut-down array keep to the selection.
proof fn lemma_items_selected(items: Seq<JsonView>, sels: Seq<GqlSelection>, n: nat)
    requires
        n <= items.len(),
    ensures
        items_selected(
            Seq::new(
                items.len(),
                |i: int|
                    if 0 <= i < items.len() {
                        filtered(items[i], sels)
                    } else {
                        JsonView::Null
                    },
            ),
            sels,
            n,
        ),
    decreases sels, items, n,
{
    if n > 0 {
        lemma_items_selected(items, sels, (n - 1) as nat);
        lemma_filtered_only_selected(items[n - 1], sels);
    }
}

/// Cutting a value down to a selection leaves, in every object at any depth,
/// only fields that the selection in force there names; arrays are cut down
/// item by item, also below a field with a nested selection.
pub proof fn lemma_filtered_only_selected(v: JsonView, sels: Seq<GqlSelection>)
    ensures
        only_selected(filtered(v, sels), sels),
    decreases sels, v, 0nat,
{
    match v {
        JsonView::Object(fields) => {
            assert(decreases_to!(v => fields));
            lemma_picked_selected(fields, sels, picked(fields, sels).len());
            assert(filtered(v, sels) == JsonView::Object(picked(fields, sels)));
            assert(only_selected(JsonView::Object(picked(fields, sels)), sels));
        },
        JsonView::Array(items) => {
            assert(decreases_to!(v => items));
            lemma_items_selected(items, sels, items.len());
            let cut = Seq::new(
                items.len(),
                |i: int|
                    if 0 <= i < items.len() {
                        filtered(items[i], sels)
                    } else {
                        JsonView::Null
                    },
            );
            assert(filtered(v, sels)->Array_0 =~= cut);
            assert(filtered(v, sels) == JsonView::Array(cut));
            assert(only_selected(JsonView::Array(cut), sels));
        },
        _ => {},
    }
}

/// Cuts a value down to a selection.
pub fn filter_value(value: Json, selection: &Vec<GqlSelection>) -> (r: Json)
    ensures
        r@ == filtered(value@, selection@),
{
    filter_ref(&value, selection)
}

/// Cuts a value down to a selection.
fn filter_ref(value: &Json, selection: &Vec<GqlSelection>) -> (r: Json)
    ensures
        r@ == filtered(value@, selection@),
    decreases selection@, value@,
{
    match value {
        Json::Object(fields) => {
            proof {
                lemma_object_view(*fields);
                assert(decreases_to!(value@ => fields_view(fields@)));
            }
            let out = pick_fields(fields, selection);
            proof {
                lemma_object_view(out);
            }
            Json::Object(out)
        },
        Json::Array(items) => {
            proof {
                crate::json_value::lemma_array_view(*items);
            }
            let mut out: Vec<Json> = Vec::new();
            let mut i: usize = 0;
            while i < items.len()
                invariant
                    i <= items.len(),
                    *value == Json::Array(*items),
                    value@ == JsonView::Array(items@.map_values(|j: Json| j@)),
                    out.len() == i,
                    forall|k: int| 0 <= k < i ==> (#[trigger] out@[k])@ == filtered(items@[k]@, selection@),
                decreases items.len() - i,
            {
                proof {
                    assert(decreases_to!(value@ => value@->Array_0));
                    assert(decreases_to!(value@->Array_0 => value@->Array_0[i as int]));
                    assert(value@->Array_0[i as int] == items@[i as int]@);
                }
                let item = filter_ref(&items[i], selection);
                out.push(item);
                i += 1;
            }
            proof {
                crate::json_value::lemma_array_view(out);
                let fv = filtered(value@, selection@);
                assert(out@.map_values(|j: Json| j@) =~= fv->Array_0);
            }
            Json::Array(out)
        },
        Json::Null => Json::Null,
        Json::Bool(b) => Json::Bool(*b),
        Json::Number(n) => Json::Number(crate::json_value::JsonNumber { text: n.text.clone(), unsigned: n.unsigned }),
        Json::Str(t) => Json::Str(t.clone()),
    }
}

/// The selected fields of an object.
fn pick_fields(fields: &Vec<(String, Json)>, selection: &Vec<GqlSelection>) -> (out: Vec<(String, Json)>)
    ensures
        fields_view(out@) == picked(fields_view(fields@), selection@),
    decreases selection@, fields_view(fields@),
{
    let ghost fv = fields_view(fields@);
    let mut out: Vec<(String, Json)> = Vec::new();
    let mut i: usize = 0;
    assert(fields_view(out@) =~= picked(fv, selection@.take(0)));
    while i < selection.len()
        invariant
            i <= selection.len(),
            fv == fields_view(fields@),
            fields_view(out@) == picked(fv, selection@.take(i as int)),
        decreases selection.len() - i,
    {
        let ghost before = fields_view(out@);
        assert(selection@.take(i + 1).drop_last() =~= selection@.take(i as int));
        assert(selection@.take(i + 1).last() == selection@[i as int]);
        if let GqlSelection::Field(f) = &selection[i] {
            let name = f.name.as_str();
            proof {
                lemma_field_index(fv, name@);
            }
            match find_field(fields, name) {
                Some(j) => {
                    if find_field(&out, name).is_none() {
                        let kept = if f.selection.len() > 0 {
                            proof {
                                assert(decreases_to!(selection@ => selection@[i as int]));
                            }
                            filter_ref(&fields[j].1, &f.selection)
                        } else {
                            fields[j].1.duplicate()
                        };
                        out.push((f.name.clone(), kept));
                        assert(fields_view(out@) =~= before.push(
                            (
                                name@,
                                if f.selection@.len() > 0 {
                                    filtered(fv[j as int].1, f.selection@)
                                } else {
                                    fv[j as int].1
                                },
                            ),
                        ));
                    }
                },
                None => {},
            }
        }
        i += 1;
    }
    assert(selection@.take(selection.len() as int) =~= selection@);
    out
}

// ----------------------------------------------------------------------------
// Collections named by a request
// ----------------------------------------------------------------------------

/// The collection a mutation field names: its name after `create`, `update`
/// or `delete`.
pub open spec fn mutation_collection(name: Seq<char>) -> Option<Seq<char>> {
    if starts_with(name, "create"@) {
        Some(name.skip(6))
    } else if starts_with(name, "update"@) {
        Some(name.skip(6))
    } else if starts_with(name, "delete"@) {
        Some(name.skip(6))
    } else {
        None
    }
}

/// The first collection a selection names that is not among `known`:
/// in a query, each field not starting with `__` names a collection; in a
/// mutation, each field starting with `create`, `update` or `delete`.
pub open spec fn unknown_in(sels: Seq<GqlSelection>, is_mutation: bool, known: Seq<Seq<char>>) -> Option<Seq<char>>
    decreases sels.len(),
{
    if sels.len() == 0 {
        None
    } else {
        match sels[0] {
            GqlSelection::Field(f) => {
                let named = if is_mutation {
                    mutation_collection(f.name@)
                } else if starts_with(f.name@, "__"@) {
                    None
                } else {
                    Some(f.name@)
                };
                match named {
                    Some(c) => if known.contains(c) {
                        unknown_in(sels.drop_first(), is_mutation, known)
                    } else {
                        Some(c)
                    },
                    None => unknown_in(sels.drop_first(), is_mutation, known),
                }
            },
            GqlSelection::Fragment => unknown_in(sels.drop_first(), is_mutation, known),
        }
    }
}

/// The first collection a request names that is not among `known`.
pub open spec fn first_unknown(defs: Seq<GqlDefinition>, known: Seq<Seq<char>>) -> Option<Seq<char>>
    decreases defs.len(),
{
    if defs.len() == 0 {
        None
    } else {
        let here = match defs[0] {
            GqlDefinition::Query(sels) => unknown_in(sels@, false, known),
            GqlDefinition::Mutation(sels) => unknown_in(sels@, true, known),
            GqlDefinition::Other => None,
        };
        match here {
            Some(c) => Some(c),
            None => first_unknown(defs.drop_first(), known),
        }
    }
}

/// Whether `name` is one of `known`.
fn is_known(known: &Vec<String>, name: &Vec<char>) -> (r: bool)
    ensures
        r == views_of(known@).contains(name@),
{
    let mut i: usize = 0;
    while i < known.len()
        invariant
            i <= known.len(),
            forall|k: int| 0 <= k < i ==> views_of(known@)[k] != name@,
        decreases known.len() - i,
    {
        if crate::text::chars_eq(&chars_of(known[i].as_str()), name) {
            assert(views_of(known@)[i as int] == name@);
            return true;
        }
        i += 1;
    }
    false
}

/// The collection a mutation field names.
pub fn mutation_target(name: &str) -> (r: Option<String>)
    ensures
        match r {
            Some(c) => mutation_collection(name@) == Some(c@),
            None => mutation_collection(name@) is None,
        },
{
    proof {
        reveal_strlit("create");
        reveal_strlit("update");
        reveal_strlit("delete");
    }
    let chars = chars_of(name);
    if crate::text::starts_with_str(&chars, "create") || crate::text::starts_with_str(&chars, "update")
        || crate::text::starts_with_str(&chars, "delete") {
        let rest = crate::text::sub_chars(&chars, 6, chars.len());
        assert(name@.skip(6) =~= rest@);
        Some(string_of(&rest))
    } else {
        None
    }
}

/// The first collection a selection names that is not known.
fn unknown_in_selection(sels: &Vec<GqlSelection>, is_mutation: bool, known: &Vec<String>) -> (r: Option<String>)
    ensures
        match r {
            Some(c) => unknown_in(sels@, is_mutation, views_of(known@)) == Some(c@),
            None => unknown_in(sels@, is_mutation, views_of(known@)) is None,
        },
{
    proof {
        reveal_strlit("__");
    }
    let ghost kv = views_of(known@);
    let mut i: usize = 0;
    assert(sels@.skip(0) =~= sels@);
    while i < sels.len()
        invariant
            i <= sels.len(),
            kv == views_of(known@),
            unknown_in(sels@, is_mutation, kv) == unknown_in(sels@.skip(i as int), is_mutation, kv),
        decreases sels.len() - i,
    {
        let ghost rest = sels@.skip(i as int);
        assert(rest[0] == sels@[i as int]);
        assert(rest.drop_first() =~= sels@.skip(i + 1));
        if let GqlSelection::Field(f) = &sels[i] {
            let named: Option<String> = if is_mutation {
                mutation_target(f.name.as_str())
            } else if crate::text::starts_with_str(&chars_of(f.name.as_str()), "__") {
                None
            } else {
                Some(f.name.clone())
            };
            if let Some(c) = named {
                if !is_known(known, &chars_of(c.as_str())) {
                    return Some(c);
                }
            }
        }
        i += 1;
    }
    assert(sels@.skip(i as int) =~= Seq::<GqlSelection>::empty());
    None
}

/// The error of a request that names an unknown collection.
pub open spec fn unknown_collection_message(name: Seq<char>) -> Seq<char> {
    "Unknown collection '"@ + name + "'"@
}

/// Checks that every collection a request names exists: `Err` with the
/// first unknown one, in document order.
pub fn validate_request(defs: &Vec<GqlDefinition>, known: &Vec<String>) -> (r: Result<(), String>)
    ensures
        match r {
            Ok(()) => first_unknown(defs@, views_of(known@)) is None,
            Err(msg) => exists|c: Seq<char>|
                first_unknown(defs@, views_of(known@)) == Some(c) && msg@ == unknown_collection_message(c),
        },
{
    let ghost kv = views_of(known@);
    let mut i: usize = 0;
    assert(defs@.skip(0) =~= defs@);
    while i < defs.len()
        invariant
            i <= defs.len(),
            kv == views_of(known@),
            first_unknown(defs@, kv) == first_unknown(defs@.skip(i as int), kv),
        decreases defs.len() - i,
    {
        let ghost rest = defs@.skip(i as int);
        assert(rest[0] == defs@[i as int]);
        assert(rest.drop_first() =~= defs@.skip(i + 1));
        let found = match &defs[i] {
            GqlDefinition::Query(sels) => unknown_in_selection(sels, false, known),
            GqlDefinition::Mutation(sels) => unknown_in_selection(sels, true, known),
            GqlDefinition::Other => None,
        };
        if let Some(c) = found {
            let mut out = chars_of("Unknown collection '");
            push_str(&mut out, c.as_str());
            push_str(&mut out, "'");
            let msg = string_of(&out);
            assert(msg@ == unknown_collection_message(c@));
            return Err(msg);
        }
        i += 1;
    }
    assert(defs@.skip(i as int) =~= Seq::<GqlDefinition>::empty());
    Ok(())
}

// ----------------------------------------------------------------------------
// Arguments
// ----------------------------------------------------------------------------

/// An argument read as an id: an unsigned integer as its decimal text, a
/// string as it is; nothing for anything else.
pub open spec fn id_of_value(v: JsonView) -> Option<Seq<char>> {
    match v {
        JsonView::Number(_, Some(n)) => Some(decimal(n as nat)),
        JsonView::Str(s) => Some(s),
        _ => None,
    }
}

/// An argument read as an id.
pub fn json_value_to_id(value: &Json) -> (r: Option<String>)
    ensures
        match r {
            Some(id) => id_of_value(value@) == Some(id@),
            None => id_of_value(value@) is None,
        },
{
    match value {
        Json::Number(n) => match n.unsigned {
            Some(u) => Some(string_of(&decimal_chars(u))),
            None => None,
        },
        Json::Str(s) => Some(s.clone()),
        _ => None,
    }
}

/// The plain values of arguments.
pub open spec fn args_view(args: Seq<(String, Json)>) -> Seq<(Seq<char>, JsonView)> {
    fields_view(args)
}

/// The item a `create` mutation adds: an object of its arguments, a later
/// argument replacing an earlier one of the same name.
pub open spec fn created_fields(args: Seq<(Seq<char>, JsonView)>) -> Seq<(Seq<char>, JsonView)>
    decreases args.len(),
{
    if args.len() == 0 {
        Seq::empty()
    } else {
        fields_with(created_fields(args.drop_last()), args.last().0, args.last().1)
    }
}

/// The item a `create` mutation adds.
pub fn create_item(arguments: &Vec<(String, Json)>) -> (item: Json)
    ensures
        item@ == JsonView::Object(created_fields(args_view(arguments@))),
{
    let ghost av = args_view(arguments@);
    let empty: Vec<(String, Json)> = Vec::new();
    proof {
        lemma_object_view(empty);
        assert(fields_view(empty@) =~= Seq::<(Seq<char>, JsonView)>::empty());
    }
    let mut item = Json::Object(empty);
    let mut i: usize = 0;
    while i < arguments.len()
        invariant
            i <= arguments.len(),
            av == args_view(arguments@),
            item@ == JsonView::Object(created_fields(av.take(i as int))),
        decreases arguments.len() - i,
    {
        assert(av.take(i + 1).drop_last() =~= av.take(i as int));
        assert(av.take(i + 1).last() == av[i as int]);
        item = crate::json_value::set_field(item, arguments[i].0.as_str(), arguments[i].1.duplicate());
        i += 1;
    }
    assert(av.take(arguments.len() as int) =~= av);
    item
}

/// How an `update` mutation reads its arguments: the id from the arguments
/// named `id_key` (the last one counts), and the other arguments as the
/// partial item, a later one replacing an earlier one of the same name.
pub open spec fn update_args(args: Seq<(Seq<char>, JsonView)>, id_key: Seq<char>) -> (Option<Seq<char>>, Seq<(Seq<char>, JsonView)>)
    decreases args.len(),
{
    if args.len() == 0 {
        (None, Seq::empty())
    } else {
        let (id, partial) = update_args(args.drop_last(), id_key);
        if args.last().0 == id_key {
            (id_of_value(args.last().1), partial)
        } else {
            (id, fields_with(partial, args.last().0, args.last().1))
        }
    }
}

/// Splits the arguments of an `update` mutation into the id and the partial item.
pub fn update_arguments(arguments: &Vec<(String, Json)>, id_key: &str) -> (r: (Option<String>, Json))
    ensures
        match r.0 {
            Some(id) => update_args(args_view(arguments@), id_key@).0 == Some(id@),
            None => update_args(args_view(arguments@), id_key@).0 is None,
        },
        r.1@ == JsonView::Object(update_args(args_view(arguments@), id_key@).1),
{
    let ghost av = args_view(arguments@);
    let mut id: Option<String> = None;
    let empty: Vec<(String, Json)> = Vec::new();
    proof {
        lemma_object_view(empty);
        assert(fields_view(empty@) =~= Seq::<(Seq<char>, JsonView)>::empty());
    }
    let mut partial = Json::Object(empty);
    let mut i: usize = 0;
    while i < arguments.len()
        invariant
            i <= arguments.len(),
            av == args_view(arguments@),
            match id {
                Some(t) => update_args(av.take(i as int), id_key@).0 == Some(t@),
                None => update_args(av.take(i as int), id_key@).0 is None,
            },
            partial@ == JsonView::Object(update_args(av.take(i as int), id_key@).1),
        decreases arguments.len() - i,
    {
        assert(av.take(i + 1).drop_last() =~= av.take(i as int));
        assert(av.take(i + 1).last() == av[i as int]);
        if crate::text::chars_eq_str(&chars_of(arguments[i].0.as_str()), id_key) {
            id = json_value_to_id(&arguments[i].1);
        } else {
            partial = crate::json_value::set_field(
                partial,
                arguments[i].0.as_str(),
                arguments[i].1.duplicate(),
            );
        }
        i += 1;
    }
    assert(av.take(arguments.len() as int) =~= av);
    (id, partial)
}

/// The id a `delete` mutation names: the first argument named `id_key`, read as an id.
pub open spec fn delete_id_of(args: Seq<(Seq<char>, JsonView)>, id_key: Seq<char>) -> Option<Seq<char>> {
    match field_value(args, id_key) {
        Some(v) => id_of_value(v),
        None => None,
    }
}

/// The id a `delete` mutation names.
pub fn delete_id(arguments: &Vec<(String, Json)>, id_key: &str) -> (r: Option<String>)
    ensures
        match r {
            Some(id) => delete_id_of(args_view(arguments@), id_key@) == Some(id@),
            None => delete_id_of(args_view(arguments@), id_key@) is None,
        },
{
    match find_field(arguments, id_key) {
        Some(i) => json_value_to_id(&arguments[i].1),
        None => None,
    }
}

// ----------------------------------------------------------------------------
// How a query field reads its collection
// ----------------------------------------------------------------------------

/// How a query field reads its collection.
#[derive(Debug)]
pub enum FetchPlan {
    /// Every item.
    All,
    /// The item with this id.
    ById(String),
    /// The items that a query with arguments finds.
    Where {
        /// The query, with one `?` per argument.
        sql: String,
        /// The arguments, in order.
        args: Vec<Json>,
    },
}

/// `name = ?` for each argument, joined with ` AND `.
pub open spec fn where_clauses(args: Seq<(Seq<char>, JsonView)>) -> Seq<char>
    decreases args.len(),
{
    if args.len() == 0 {
        Seq::empty()
    } else if args.len() == 1 {
        args[0].0 + " = ?"@
    } else {
        where_clauses(args.drop_last()) + " AND "@ + args.last().0 + " = ?"@
    }
}

/// The query of a field with arguments.
pub open spec fn where_query(field_name: Seq<char>, args: Seq<(Seq<char>, JsonView)>) -> Seq<char> {
    "SELECT * FROM "@ + field_name + " WHERE "@ + where_clauses(args)
}

/// How a query field with these arguments reads its collection: every item
/// without arguments; by id with the single argument `id_key` (its text, or
/// `""` when it is not a string); otherwise by a query on all arguments.
pub fn fetch_plan(field_name: &str, arguments: &Vec<(String, Json)>, id_key: &str) -> (p: FetchPlan)
    ensures
        arguments.len() == 0 ==> p is All,
        arguments.len() == 1 && arguments@[0].0@ == id_key@ ==> (p matches FetchPlan::ById(id) && id@
            == match arguments@[0].1@ {
            JsonView::Str(s) => s,
            _ => Seq::empty(),
        }),
        arguments.len() > 1 || (arguments.len() == 1 && arguments@[0].0@ != id_key@) ==> (
        p matches FetchPlan::Where { sql, args } && sql@ == where_query(
            field_name@,
            args_view(arguments@),
        ) && args@.map_values(|j: Json| j@) == args_view(arguments@).map_values(
            |a: (Seq<char>, JsonView)| a.1,
        )),
{
    if arguments.len() == 0 {
        return FetchPlan::All;
    }
    if arguments.len() == 1 && crate::text::chars_eq_str(&chars_of(arguments[0].0.as_str()), id_key) {
        let id = match &arguments[0].1 {
            Json::Str(s) => s.clone(),
            _ => String::new(),
        };
        return FetchPlan::ById(id);
    }
    let ghost av = args_view(arguments@);
    let mut clauses: Vec<char> = Vec::new();
    let mut args: Vec<Json> = Vec::new();
    let mut i: usize = 0;
    while i < arguments.len()
        invariant
            i <= arguments.len(),
            av == args_view(arguments@),
            clauses@ == where_clauses(av.take(i as int)),
            args@.map_values(|j: Json| j@) == av.take(i as int).map_values(|a: (Seq<char>, JsonView)| a.1),
        decreases arguments.len() - i,
    {
        assert(av.take(i + 1).drop_last() =~= av.take(i as int));
        assert(av.take(i + 1).last() == av[i as int]);
        if i > 0 {
            push_str(&mut clauses, " AND ");
        }
        push_str(&mut clauses, arguments[i].0.as_str());
        push_str(&mut clauses, " = ?");
        let ghost prev = args@.map_values(|j: Json| j@);
        let value = arguments[i].1.duplicate();
        assert(value@ == av[i as int].1);
        args.push(value);
        assert(args@.map_values(|j: Json| j@) =~= prev.push(av[i as int].1));
        assert(av.take(i + 1).map_values(|a: (Seq<char>, JsonView)| a.1) =~= av.take(
            i as int,
        ).map_values(|a: (Seq<char>, JsonView)| a.1).push(av[i as int].1));
        i += 1;
    }
    assert(av.take(arguments.len() as int) =~= av);
    let mut sql = chars_of("SELECT * FROM ");
    push_str(&mut sql, field_name);
    push_str(&mut sql, " WHERE ");
    push_all(&mut sql, &clauses);
    FetchPlan::Where { sql: string_of(&sql), args }
}

// ----------------------------------------------------------------------------
// The schema that introspection describes
// ----------------------------------------------------------------------------

/// The type of a collection field, as the collection's schema infers it.
#[derive(Debug, Clone, Copy, PartialEq, Eq, Structural)]
pub enum Primitive {
    /// Strings.
    Str,
    /// Integers.
    Int,
    /// Non-integer numbers.
    Real,
    /// Booleans.
    Bool,
    /// Anything else.
    Other,
}

/// What the schema knows of one collection.
#[derive(Debug)]
pub struct CollectionSchema {
    /// Name of the collection.
    pub raw: String,
    /// Its fields and their types, in order.
    pub fields: Vec<(String, Primitive)>,
    /// Collections its items refer to.
    pub outbound: Vec<String>,
    /// Collections whose items refer to it.
    pub inbound: Vec<String>,
    /// Name of its id field.
    pub id_key: String,
    /// How its ids are made.
    pub id_type: crate::id_manager::IdType,
}

/// A field of a GraphQL type: name, type (in GraphQL notation) and arguments
/// (name and type).
#[derive(Debug)]
pub struct FieldPlan {
    /// Field name.
    pub name: String,
    /// Field type, such as `String!` or `[User!]!`.
    pub type_ref: String,
    /// Arguments and their types.
    pub arguments: Vec<(String, String)>,
}

/// An object type: its name and fields.
#[derive(Debug)]
pub struct ObjectPlan {
    /// Type name.
    pub name: String,
    /// Fields, in order.
    pub fields: Vec<FieldPlan>,
}

/// The schema: a `JSON` scalar, one object type per collection, the `Query`
/// type and the `Mutation` type.
#[derive(Debug)]
pub struct SchemaPlan {
    /// Object types of the collections.
    pub objects: Vec<ObjectPlan>,
    /// Fields of `Query`.
    pub query: Vec<FieldPlan>,
    /// Fields of `Mutation`.
    pub mutation: Vec<FieldPlan>,
}

/// A field as plain values.
pub type FieldView = (Seq<char>, Seq<char>, Seq<(Seq<char>, Seq<char>)>);

/// The plain value of a field.
pub open spec fn field_plan_view(f: FieldPlan) -> FieldView {
    (f.name@, f.type_ref@, f.arguments@.map_values(|a: (String, String)| (a.0@, a.1@)))
}

/// The plain values of fields.
pub open spec fn field_plans_view(fs: Seq<FieldPlan>) -> Seq<FieldView> {
    fs.map_values(|f: FieldPlan| field_plan_view(f))
}

/// A name with every character that is not alphanumeric replaced by `_`.
pub open spec fn sanitized(name: Seq<char>) -> Seq<char> {
    name.map_values(|c: char| if crate::text::unicode_alphanumeric(c) { c } else { '_' })
}

/// A non-empty part with its first character in uppercase.
pub open spec fn capitalized(part: Seq<char>) -> Seq<char> {
    crate::text::unicode_upper(seq![part[0]]) + part.drop_first()
}

/// The non-empty parts, capitalized and joined.
pub open spec fn pascal_parts(parts: Seq<Seq<char>>) -> Seq<char>
    decreases parts.len(),
{
    if parts.len() == 0 {
        Seq::empty()
    } else {
        pascal_parts(parts.drop_last()) + if parts.last().len() > 0 {
            capitalized(parts.last())
        } else {
            Seq::empty()
        }
    }
}

/// A name in PascalCase: sanitized, split at `_`, each part capitalized.
pub open spec fn pascal_case_of(name: Seq<char>) -> Seq<char> {
    pascal_parts(crate::text::split_on(sanitized(name), '_'))
}

/// Replaces every character that is not alphanumeric by `_`.
pub fn sanitize(name: &str) -> (s: String)
    ensures
        s@ == sanitized(name@),
{
    let chars = chars_of(name);
    let mut out: Vec<char> = Vec::new();
    let mut i: usize = 0;
    while i < chars.len()
        invariant
            i <= chars.len(),
            chars@ == name@,
            out@ == sanitized(name@.take(i as int)),
        decreases chars.len() - i,
    {
        let c = chars[i];
        out.push(if crate::text::is_alphanumeric(c) { c } else { '_' });
        i += 1;
        assert(out@ =~= sanitized(name@.take(i as int)));
    }
    assert(name@.take(chars.len() as int) =~= name@);
    string_of(&out)
}

/// The name in PascalCase.
pub fn pascal_case(name: &str) -> (s: String)
    ensures
        s@ == pascal_case_of(name@),
{
    let clean = sanitize(name);
    let parts = crate::text::split_chars(&chars_of(clean.as_str()), '_');
    let ghost pv = crate::text::seqs_view(parts@);
    let mut out: Vec<char> = Vec::new();
    let mut i: usize = 0;
    while i < parts.len()
        invariant
            i <= parts.len(),
            pv == crate::text::seqs_view(parts@),
            out@ == pascal_parts(pv.take(i as int)),
        decreases parts.len() - i,
    {
        assert(pv.take(i + 1).drop_last() =~= pv.take(i as int));
        assert(pv.take(i + 1).last() == parts@[i as int]@);
        let part = &parts[i];
        if part.len() > 0 {
            let mut first: Vec<char> = Vec::new();
            first.push(part[0]);
            let upper = crate::text::to_uppercase(string_of(&first).as_str());
            push_str(&mut out, upper.as_str());
            let rest = crate::text::sub_chars(part, 1, part.len());
            push_all(&mut out, &rest);
            assert(first@ =~= seq![part@[0]]);
            assert(rest@ =~= part@.drop_first());
        }
        assert(out@ =~= pascal_parts(pv.take(i + 1)));
        i += 1;
    }
    assert(pv.take(parts.len() as int) =~= pv);
    string_of(&out)
}

/// The output type of a field type.
pub open spec fn output_type_of(p: Primitive) -> Seq<char> {
    match p {
        Primitive::Str => "String!"@,
        Primitive::Int => "Int!"@,
        Primitive::Real => "Float!"@,
        Primitive::Bool => "Boolean!"@,
        Primitive::Other => "JSON!"@,
    }
}

/// The argument type of a field type.
pub open spec fn input_type_of(p: Primitive) -> Seq<char> {
    match p {
        Primitive::Str => "String"@,
        Primitive::Int => "Int"@,
        Primitive::Real => "Float"@,
        Primitive::Bool => "Boolean"@,
        Primitive::Other => "JSON"@,
    }
}

/// The output type of a field type.
pub fn output_field_type(p: Primitive) -> (s: String)
    ensures
        s@ == output_type_of(p),
{
    match p {
        Primitive::Str => "String!".to_string(),
        Primitive::Int => "Int!".to_string(),
        Primitive::Real => "Float!".to_string(),
        Primitive::Bool => "Boolean!".to_string(),
        Primitive::Other => "JSON!".to_string(),
    }
}

/// The argument type of a field type.
pub fn input_field_type(p: Primitive) -> (s: String)
    ensures
        s@ == input_type_of(p),
{
    match p {
        Primitive::Str => "String".to_string(),
        Primitive::Int => "Int".to_string(),
        Primitive::Real => "Float".to_string(),
        Primitive::Bool => "Boolean".to_string(),
        Primitive::Other => "JSON".to_string(),
    }
}

/// `[T!]!`: a non-null list of non-null `T`.
pub open spec fn list_of(type_label: Seq<char>) -> Seq<char> {
    "["@ + type_label + "!]!"@
}

/// `[T!]!`.
fn list_type(type_label: &str) -> (s: String)
    ensures
        s@ == list_of(type_label@),
{
    let mut out = chars_of("[");
    push_str(&mut out, type_label);
    push_str(&mut out, "!]!");
    string_of(&out)
}

/// The plain values of typed fields.
pub open spec fn typed_fields_view(fields: Seq<(String, Primitive)>) -> Seq<(Seq<char>, Primitive)> {
    fields.map_values(|f: (String, Primitive)| (f.0@, f.1))
}

/// Whether some pair has `name` as its first component.
pub open spec fn has_name<T>(pairs: Seq<(Seq<char>, T)>, name: Seq<char>) -> bool {
    exists|i: int| 0 <= i < pairs.len() && pairs[i].0 == name
}

/// Relations added for `refs`: each collection other than `raw`, under its
/// sanitized name and PascalCase type, the first one of a name kept.
pub open spec fn add_relations(acc: Seq<(Seq<char>, Seq<char>)>, refs: Seq<Seq<char>>, raw: Seq<char>) -> Seq<(Seq<char>, Seq<char>)>
    decreases refs.len(),
{
    if refs.len() == 0 {
        acc
    } else {
        let prev = add_relations(acc, refs.drop_last(), raw);
        let r = refs.last();
        if r == raw || has_name(prev, sanitized(r)) {
            prev
        } else {
            prev.push((sanitized(r), pascal_case_of(r)))
        }
    }
}

/// The relations of a collection: the collections it refers to, then those
/// that refer to it.
pub open spec fn relations_of(raw: Seq<char>, outbound: Seq<Seq<char>>, inbound: Seq<Seq<char>>) -> Seq<(Seq<char>, Seq<char>)> {
    add_relations(add_relations(Seq::empty(), outbound, raw), inbound, raw)
}

/// Adds to `acc` the relations for `refs`.
fn push_relations(acc: &mut Vec<(String, String)>, refs: &Vec<String>, raw: &str)
    ensures
        final(acc)@.map_values(|a: (String, String)| (a.0@, a.1@)) == add_relations(
            old(acc)@.map_values(|a: (String, String)| (a.0@, a.1@)),
            views_of(refs@),
            raw@,
        ),
{
    let ghost start = acc@.map_values(|a: (String, String)| (a.0@, a.1@));
    let ghost rv = views_of(refs@);
    let mut i: usize = 0;
    while i < refs.len()
        invariant
            i <= refs.len(),
            rv == views_of(refs@),
            acc@.map_values(|a: (String, String)| (a.0@, a.1@)) == add_relations(start, rv.take(i as int), raw@),
        decreases refs.len() - i,
    {
        let ghost prev = acc@.map_values(|a: (String, String)| (a.0@, a.1@));
        assert(rv.take(i + 1).drop_last() =~= rv.take(i as int));
        assert(rv.take(i + 1).last() == refs@[i as int]@);
        let r = refs[i].as_str();
        if !crate::text::chars_eq_str(&chars_of(r), raw) {
            let name = sanitize(r);
            let mut found = false;
            let mut k: usize = 0;
            while k < acc.len()
                invariant
                    k <= acc.len(),
                    prev == acc@.map_values(|a: (String, String)| (a.0@, a.1@)),
                    !found ==> forall|j: int| 0 <= j < k ==> prev[j].0 != name@,
                    found ==> has_name(prev, name@),
                decreases acc.len() - k,
            {
                if crate::text::chars_eq_str(&chars_of(acc[k].0.as_str()), name.as_str()) {
                    assert(prev[k as int].0 == name@);
                    found = true;
                }
                k += 1;
            }
            if !found {
                let type_label = pascal_case(r);
                acc.push((name, type_label));
                assert(acc@.map_values(|a: (String, String)| (a.0@, a.1@)) =~= prev.push(
                    (sanitized(r@), pascal_case_of(r@)),
                ));
            }
        }
        i += 1;
    }
    assert(rv.take(refs.len() as int) =~= rv);
}

/// A field of the collection as a field of its object type.
pub open spec fn to_output_field() -> spec_fn((Seq<char>, Primitive)) -> FieldView {
    |f: (Seq<char>, Primitive)| (f.0, output_type_of(f.1), Seq::<(Seq<char>, Seq<char>)>::empty())
}

/// A relation as a field of the object type: a list of the related type.
pub open spec fn to_relation_field() -> spec_fn((Seq<char>, Seq<char>)) -> FieldView {
    |r: (Seq<char>, Seq<char>)| (r.0, list_of(r.1), Seq::<(Seq<char>, Seq<char>)>::empty())
}

/// Whether a relation is not shadowed by a field of the collection.
pub open spec fn not_a_field(own: Seq<(Seq<char>, Primitive)>) -> spec_fn((Seq<char>, Seq<char>)) -> bool {
    |r: (Seq<char>, Seq<char>)| !has_name(own, r.0)
}

/// The fields of a collection's object type: its own fields with their
/// output types, then each relation whose name is not a field, as a list of
/// the related type.
pub open spec fn object_fields_of(c: CollectionSchema) -> Seq<FieldView> {
    let own = typed_fields_view(c.fields@);
    let rels = relations_of(c.raw@, views_of(c.outbound@), views_of(c.inbound@));
    own.map_values(to_output_field()) + rels.filter(not_a_field(own)).map_values(to_relation_field())
}

/// A field without arguments.
fn plain_field(name: String, type_ref: String) -> (f: FieldPlan)
    ensures
        field_plan_view(f) == (name@, type_ref@, Seq::<(Seq<char>, Seq<char>)>::empty()),
{
    let f = FieldPlan { name, type_ref, arguments: Vec::new() };
    assert(f.arguments@.map_values(|a: (String, String)| (a.0@, a.1@)) =~= Seq::<(Seq<char>, Seq<char>)>::empty());
    f
}

/// Whether the collection has a field named `name`.
fn has_field(fields: &Vec<(String, Primitive)>, name: &str) -> (r: bool)
    ensures
        r == has_name(typed_fields_view(fields@), name@),
{
    let ghost fv = typed_fields_view(fields@);
    let mut k: usize = 0;
    while k < fields.len()
        invariant
            k <= fields.len(),
            fv == typed_fields_view(fields@),
            forall|j: int| 0 <= j < k ==> fv[j].0 != name@,
        decreases fields.len() - k,
    {
        if crate::text::chars_eq_str(&chars_of(fields[k].0.as_str()), name) {
            assert(fv[k as int].0 == name@);
            return true;
        }
        k += 1;
    }
    false
}

/// The object type of a collection.
pub fn build_object(c: &CollectionSchema) -> (o: ObjectPlan)
    ensures
        o.name@ == pascal_case_of(c.raw@),
        field_plans_view(o.fields@) == object_fields_of(*c),
{
    let ghost own = typed_fields_view(c.fields@);
    let mut fields: Vec<FieldPlan> = Vec::new();
    let mut i: usize = 0;
    assert(field_plans_view(fields@) =~= own.take(0).map_values(to_output_field()));
    while i < c.fields.len()
        invariant
            i <= c.fields.len(),
            own == typed_fields_view(c.fields@),
            field_plans_view(fields@) == own.take(i as int).map_values(to_output_field()),
        decreases c.fields.len() - i,
    {
        let ghost prev = field_plans_view(fields@);
        let f = plain_field(c.fields[i].0.clone(), output_field_type(c.fields[i].1));
        let ghost fview = field_plan_view(f);
        assert(fview == to_output_field()(own[i as int]));
        fields.push(f);
        assert(field_plans_view(fields@) =~= prev.push(fview));
        assert(own.take(i + 1).map_values(to_output_field()) =~= own.take(i as int).map_values(
            to_output_field(),
        ).push(fview));
        i += 1;
    }
    assert(own.take(c.fields.len() as int) =~= own);
    let ghost head = field_plans_view(fields@);
    let mut rels: Vec<(String, String)> = Vec::new();
    assert(rels@.map_values(|a: (String, String)| (a.0@, a.1@)) =~= Seq::<(Seq<char>, Seq<char>)>::empty());
    push_relations(&mut rels, &c.outbound, c.raw.as_str());
    push_relations(&mut rels, &c.inbound, c.raw.as_str());
    let ghost rv = rels@.map_values(|a: (String, String)| (a.0@, a.1@));
    let ghost keep = not_a_field(own);
    let mut j: usize = 0;
    assert(head + rv.take(0).filter(keep).map_values(to_relation_field()) =~= head);
    while j < rels.len()
        invariant
            j <= rels.len(),
            own == typed_fields_view(c.fields@),
            keep == not_a_field(own),
            rv == rels@.map_values(|a: (String, String)| (a.0@, a.1@)),
            field_plans_view(fields@) == head + rv.take(j as int).filter(keep).map_values(
                to_relation_field(),
            ),
        decreases rels.len() - j,
    {
        let ghost prev = field_plans_view(fields@);
        let ghost x = rv[j as int];
        assert(x.0 == rels@[j as int].0@);
        assert(rv.take(j + 1) =~= rv.take(j as int).push(x));
        proof {
            rv.take(j as int).lemma_filter_push(x, keep);
        }
        if !has_field(&c.fields, rels[j].0.as_str()) {
            let f = plain_field(rels[j].0.clone(), list_type(rels[j].1.as_str()));
            let ghost fview = field_plan_view(f);
            assert(fview == to_relation_field()(x));
            fields.push(f);
            assert(keep(x));
            assert(rv.take(j + 1).filter(keep) == rv.take(j as int).filter(keep).push(x));
            assert(rv.take(j + 1).filter(keep).map_values(to_relation_field()) =~= rv.take(
                j as int,
            ).filter(keep).map_values(to_relation_field()).push(fview));
            assert(field_plans_view(fields@) =~= prev.push(fview));
        } else {
            assert(!keep(x));
            assert(rv.take(j + 1).filter(keep) == rv.take(j as int).filter(keep));
        }
        j += 1;
    }
    assert(rv.take(rels.len() as int) =~= rv);
    ObjectPlan { name: pascal_case(c.raw.as_str()), fields }
}

/// Whether some field is named `name`.
pub open spec fn has_field_named(fs: Seq<FieldView>, name: Seq<char>) -> bool {
    exists|i: int| 0 <= i < fs.len() && fs[i].0 == name
}

/// The fields of `Query`: for each collection, under its sanitized name (the
/// first collection of a name kept), the list of its items.
pub open spec fn query_fields_of(cs: Seq<CollectionSchema>) -> Seq<FieldView>
    decreases cs.len(),
{
    if cs.len() == 0 {
        Seq::empty()
    } else {
        let prev = query_fields_of(cs.drop_last());
        let raw = cs.last().raw@;
        if has_field_named(prev, sanitized(raw)) {
            prev
        } else {
            prev.push((sanitized(raw), list_of(pascal_case_of(raw)), Seq::empty()))
        }
    }
}

/// The type of the first field named `key`, if any.
pub open spec fn type_of_field(fields: Seq<(Seq<char>, Primitive)>, key: Seq<char>) -> Option<Primitive>
    decreases fields.len(),
{
    if fields.len() == 0 {
        None
    } else if fields[0].0 == key {
        Some(fields[0].1)
    } else {
        type_of_field(fields.drop_first(), key)
    }
}

/// The type of the id argument: `Int!` for an integer id field, `String!` otherwise.
pub open spec fn id_input_of(fields: Seq<(Seq<char>, Primitive)>, id_key: Seq<char>) -> Seq<char> {
    match type_of_field(fields, id_key) {
        Some(Primitive::Int) => "Int!"@,
        _ => "String!"@,
    }
}

/// The arguments of the fields other than the id, with their argument types.
pub open spec fn data_args(fields: Seq<(Seq<char>, Primitive)>, id_key: Seq<char>) -> Seq<(Seq<char>, Seq<char>)>
    decreases fields.len(),
{
    if fields.len() == 0 {
        Seq::empty()
    } else {
        let prev = data_args(fields.drop_last(), id_key);
        if fields.last().0 == id_key {
            prev
        } else {
            prev.push((fields.last().0, input_type_of(fields.last().1)))
        }
    }
}

/// The three mutations of a collection: `create`, whose id argument is
/// only there when ids are not generated; `update`, with the id and the
/// other fields; `delete`, with the id, answering a boolean.
pub open spec fn mutations_of(c: CollectionSchema) -> Seq<FieldView> {
    let fields = typed_fields_view(c.fields@);
    let type_label = pascal_case_of(c.raw@);
    let id_arg = (c.id_key@, id_input_of(fields, c.id_key@));
    let data = data_args(fields, c.id_key@);
    seq![
        ("create"@ + type_label, type_label + "!"@, if c.id_type == crate::id_manager::IdType::NoId {
            seq![id_arg] + data
        } else {
            data
        }),
        ("update"@ + type_label, type_label + "!"@, seq![id_arg] + data),
        ("delete"@ + type_label, "Boolean!"@, seq![id_arg]),
    ]
}

/// The fields of `Mutation`: the mutations of each collection, in order.
pub open spec fn mutation_fields_of(cs: Seq<CollectionSchema>) -> Seq<FieldView>
    decreases cs.len(),
{
    if cs.len() == 0 {
        Seq::empty()
    } else {
        mutation_fields_of(cs.drop_last()) + mutations_of(cs.last())
    }
}

/// The plain value of arguments.
pub open spec fn args_plan_view(a: Seq<(String, String)>) -> Seq<(Seq<char>, Seq<char>)> {
    a.map_values(|x: (String, String)| (x.0@, x.1@))
}

/// The type of the id argument.
fn id_input_type(fields: &Vec<(String, Primitive)>, id_key: &str) -> (s: String)
    ensures
        s@ == id_input_of(typed_fields_view(fields@), id_key@),
{
    let ghost fv = typed_fields_view(fields@);
    let mut k: usize = 0;
    assert(fv.skip(0) =~= fv);
    while k < fields.len()
        invariant
            k <= fields.len(),
            fv == typed_fields_view(fields@),
            type_of_field(fv, id_key@) == type_of_field(fv.skip(k as int), id_key@),
        decreases fields.len() - k,
    {
        let ghost rest = fv.skip(k as int);
        assert(rest[0] == fv[k as int]);
        assert(rest.drop_first() =~= fv.skip(k + 1));
        if crate::text::chars_eq_str(&chars_of(fields[k].0.as_str()), id_key) {
            return match fields[k].1 {
                Primitive::Int => "Int!".to_string(),
                _ => "String!".to_string(),
            };
        }
        k += 1;
    }
    assert(fv.skip(k as int) =~= Seq::<(Seq<char>, Primitive)>::empty());
    "String!".to_string()
}

/// The arguments of the fields other than the id.
fn data_arguments(fields: &Vec<(String, Primitive)>, id_key: &str) -> (a: Vec<(String, String)>)
    ensures
        args_plan_view(a@) == data_args(typed_fields_view(fields@), id_key@),
{
    let ghost fv = typed_fields_view(fields@);
    let mut out: Vec<(String, String)> = Vec::new();
    let mut i: usize = 0;
    assert(args_plan_view(out@) =~= data_args(fv.take(0), id_key@));
    while i < fields.len()
        invariant
            i <= fields.len(),
            fv == typed_fields_view(fields@),
            args_plan_view(out@) == data_args(fv.take(i as int), id_key@),
        decreases fields.len() - i,
    {
        let ghost prev = args_plan_view(out@);
        assert(fv.take(i + 1).drop_last() =~= fv.take(i as int));
        assert(fv.take(i + 1).last() == fv[i as int]);
        if !crate::text::chars_eq_str(&chars_of(fields[i].0.as_str()), id_key) {
            out.push((fields[i].0.clone(), input_field_type(fields[i].1)));
            assert(args_plan_view(out@) =~= prev.push((fv[i as int].0, input_type_of(fv[i as int].1))));
        }
        i += 1;
    }
    assert(fv.take(fields.len() as int) =~= fv);
    out
}

/// A copy of arguments.
fn copy_args(a: &Vec<(String, String)>) -> (r: Vec<(String, String)>)
    ensures
        args_plan_view(r@) == args_plan_view(a@),
{
    let mut out: Vec<(String, String)> = Vec::new();
    let mut i: usize = 0;
    while i < a.len()
        invariant
            i <= a.len(),
            args_plan_view(out@) == args_plan_view(a@).take(i as int),
        decreases a.len() - i,
    {
        let ghost prev = args_plan_view(out@);
        out.push((a[i].0.clone(), a[i].1.clone()));
        assert(args_plan_view(out@) =~= prev.push(args_plan_view(a@)[i as int]));
        assert(args_plan_view(a@).take(i + 1) =~= args_plan_view(a@).take(i as int).push(
            args_plan_view(a@)[i as int],
        ));
        i += 1;
    }
    assert(args_plan_view(a@).take(a.len() as int) =~= args_plan_view(a@));
    out
}

/// `prefix` then `text`, as a string.
fn prefixed(prefix: &str, text: &str) -> (s: String)
    ensures
        s@ == prefix@ + text@,
{
    let mut out = chars_of(prefix);
    push_str(&mut out, text);
    string_of(&out)
}

/// The three mutations of a collection, appended to `out`.
fn push_mutations(out: &mut Vec<FieldPlan>, c: &CollectionSchema)
    ensures
        field_plans_view(final(out)@) == field_plans_view(old(out)@) + mutations_of(*c),
{
    let ghost start = field_plans_view(out@);
    let ghost fv = typed_fields_view(c.fields@);
    let type_label = pascal_case(c.raw.as_str());
    let id_type_ref = id_input_type(&c.fields, c.id_key.as_str());
    let data = data_arguments(&c.fields, c.id_key.as_str());
    let ghost id_arg = (c.id_key@, id_input_of(fv, c.id_key@));
    let mut create_args: Vec<(String, String)> = Vec::new();
    if c.id_type == crate::id_manager::IdType::NoId {
        create_args.push((c.id_key.clone(), id_type_ref.clone()));
    }
    let ghost head = args_plan_view(create_args@);
    let mut k: usize = 0;
    while k < data.len()
        invariant
            k <= data.len(),
            args_plan_view(create_args@) == head + args_plan_view(data@).take(k as int),
        decreases data.len() - k,
    {
        let ghost prev = args_plan_view(create_args@);
        create_args.push((data[k].0.clone(), data[k].1.clone()));
        assert(args_plan_view(create_args@) =~= prev.push(args_plan_view(data@)[k as int]));
        assert(args_plan_view(data@).take(k + 1) =~= args_plan_view(data@).take(k as int).push(
            args_plan_view(data@)[k as int],
        ));
        assert(args_plan_view(create_args@) =~= head + args_plan_view(data@).take(k + 1));
        k += 1;
    }
    assert(args_plan_view(data@).take(data.len() as int) =~= args_plan_view(data@));
    assert(args_plan_view(create_args@) =~= if c.id_type == crate::id_manager::IdType::NoId {
        seq![id_arg] + args_plan_view(data@)
    } else {
        args_plan_view(data@)
    });
    let mut update_args: Vec<(String, String)> = Vec::new();
    update_args.push((c.id_key.clone(), id_type_ref.clone()));
    let rest = copy_args(&data);
    let ghost update_head = args_plan_view(update_args@);
    let mut k2: usize = 0;
    while k2 < rest.len()
        invariant
            k2 <= rest.len(),
            args_plan_view(update_args@) == update_head + args_plan_view(rest@).take(k2 as int),
        decreases rest.len() - k2,
    {
        let ghost prev = args_plan_view(update_args@);
        update_args.push((rest[k2].0.clone(), rest[k2].1.clone()));
        assert(args_plan_view(update_args@) =~= prev.push(args_plan_view(rest@)[k2 as int]));
        assert(args_plan_view(rest@).take(k2 + 1) =~= args_plan_view(rest@).take(k2 as int).push(
            args_plan_view(rest@)[k2 as int],
        ));
        assert(args_plan_view(update_args@) =~= update_head + args_plan_view(rest@).take(k2 + 1));
        k2 += 1;
    }
    assert(args_plan_view(rest@).take(rest.len() as int) =~= args_plan_view(rest@));
    assert(args_plan_view(update_args@) =~= seq![id_arg] + args_plan_view(data@));
    let mut delete_args: Vec<(String, String)> = Vec::new();
    delete_args.push((c.id_key.clone(), id_type_ref));
    assert(args_plan_view(delete_args@) =~= seq![id_arg]);
    let create = FieldPlan {
        name: prefixed("create", type_label.as_str()),
        type_ref: prefixed(type_label.as_str(), "!"),
        arguments: create_args,
    };
    let update = FieldPlan {
        name: prefixed("update", type_label.as_str()),
        type_ref: prefixed(type_label.as_str(), "!"),
        arguments: update_args,
    };
    let delete = FieldPlan {
        name: prefixed("delete", type_label.as_str()),
        type_ref: "Boolean!".to_string(),
        arguments: delete_args,
    };
    let ghost views = seq![field_plan_view(create), field_plan_view(update), field_plan_view(delete)];
    assert(views =~= mutations_of(*c));
    out.push(create);
    out.push(update);
    out.push(delete);
    assert(field_plans_view(out@) =~= start + views);
}

/// The schema of a list of collections: their object types, the `Query`
/// fields and the `Mutation` fields.
pub fn build_schema_plan(collections: &Vec<CollectionSchema>) -> (p: SchemaPlan)
    ensures
        p.objects.len() == collections.len(),
        forall|i: int| 0 <= i < collections.len() ==> (#[trigger] p.objects@[i]).name@ == pascal_case_of(
            collections@[i].raw@,
        ) && field_plans_view(p.objects@[i].fields@) == object_fields_of(collections@[i]),
        field_plans_view(p.query@) == query_fields_of(collections@),
        field_plans_view(p.mutation@) == mutation_fields_of(collections@),
{
    let mut objects: Vec<ObjectPlan> = Vec::new();
    let mut query: Vec<FieldPlan> = Vec::new();
    let mut mutation: Vec<FieldPlan> = Vec::new();
    let mut i: usize = 0;
    assert(field_plans_view(query@) =~= query_fields_of(collections@.take(0)));
    assert(field_plans_view(mutation@) =~= mutation_fields_of(collections@.take(0)));
    while i < collections.len()
        invariant
            i <= collections.len(),
            objects.len() == i,
            forall|k: int| 0 <= k < i ==> (#[trigger] objects@[k]).name@ == pascal_case_of(
                collections@[k].raw@,
            ) && field_plans_view(objects@[k].fields@) == object_fields_of(collections@[k]),
            field_plans_view(query@) == query_fields_of(collections@.take(i as int)),
            field_plans_view(mutation@) == mutation_fields_of(collections@.take(i as int)),
        decreases collections.len() - i,
    {
        let c = &collections[i];
        assert(collections@.take(i + 1).drop_last() =~= collections@.take(i as int));
        assert(collections@.take(i + 1).last() == collections@[i as int]);
        objects.push(build_object(c));
        let ghost qprev = field_plans_view(query@);
        let name = sanitize(c.raw.as_str());
        let mut seen = false;
        let mut k: usize = 0;
        while k < query.len()
            invariant
                k <= query.len(),
                qprev == field_plans_view(query@),
                !seen ==> forall|j: int| 0 <= j < k ==> qprev[j].0 != name@,
                seen ==> has_field_named(qprev, name@),
            decreases query.len() - k,
        {
            if crate::text::chars_eq_str(&chars_of(query[k].name.as_str()), name.as_str()) {
                assert(qprev[k as int].0 == name@);
                seen = true;
            }
            k += 1;
        }
        if !seen {
            let f = plain_field(name, list_type(pascal_case(c.raw.as_str()).as_str()));
            let ghost fview = field_plan_view(f);
            query.push(f);
            assert(field_plans_view(query@) =~= qprev.push(fview));
        }
        push_mutations(&mut mutation, c);
        i += 1;
    }
    assert(collections@.take(collections.len() as int) =~= collections@);
    SchemaPlan { objects, query, mutation }
}

// ----------------------------------------------------------------------------
// The request sequence of the endpoint
// ----------------------------------------------------------------------------

/// What the endpoint does first with a request.
#[derive(Debug, PartialEq, Eq)]
pub enum GqlRouteStart {
    /// An introspection query (`__schema` or `__type`): answered by the
    /// collections' schema.
    Introspect,
    /// The request does not parse: answered with this error.
    SyntaxError(String),
    /// Look for static data under the first named operation, if any, then go on.
    Continue(Option<String>),
}

/// What the endpoint does once the static data has been looked up.
#[derive(Debug, PartialEq, Eq)]
pub enum GqlRouteFinish {
    /// Answer with the static data of the operation.
    StaticData,
    /// Answer with this error.
    Error(String),
    /// Run the operations on the collections.
    Execute,
}

/// The first operation name in document order.
pub open spec fn first_named(names: Seq<Option<String>>) -> Option<Seq<char>>
    decreases names.len(),
{
    if names.len() == 0 {
        None
    } else {
        match names[0] {
            Some(n) => Some(n@),
            None => first_named(names.drop_first()),
        }
    }
}

/// The first step of a request: introspection when the query mentions
/// `__schema` or `__type`; else the syntax error `GraphQL syntax error: <e>`
/// when it does not parse (`parse_error` is the parser's message); else go on
/// with the first named operation.
pub open spec fn route_start(
    query: Seq<char>,
    parse_error: Option<Seq<char>>,
    names: Seq<Option<String>>,
) -> GqlRouteStartView {
    if contains_sub(query, "__schema"@) || contains_sub(query, "__type"@) {
        GqlRouteStartView::Introspect
    } else {
        match parse_error {
            Some(e) => GqlRouteStartView::SyntaxError("GraphQL syntax error: "@ + e),
            None => GqlRouteStartView::Continue(first_named(names)),
        }
    }
}

/// [`GqlRouteStart`] as plain values.
pub enum GqlRouteStartView {
    /// See [`GqlRouteStart::Introspect`].
    Introspect,
    /// See [`GqlRouteStart::SyntaxError`].
    SyntaxError(Seq<char>),
    /// See [`GqlRouteStart::Continue`].
    Continue(Option<Seq<char>>),
}

impl View for GqlRouteStart {
    type V = GqlRouteStartView;

    open spec fn view(&self) -> GqlRouteStartView {
        match self {
            GqlRouteStart::Introspect => GqlRouteStartView::Introspect,
            GqlRouteStart::SyntaxError(m) => GqlRouteStartView::SyntaxError(m@),
            GqlRouteStart::Continue(n) => GqlRouteStartView::Continue(
                match n {
                    Some(x) => Some(x@),
                    None => None,
                },
            ),
        }
    }
}

/// The first step of a request (see [`route_start`]). `operation_names`
/// holds, in document order, the name of each query or mutation definition
/// (`None` for an unnamed one or another definition).
pub fn graphql_route_start(
    query: &str,
    parse_error: Option<&str>,
    operation_names: &Vec<Option<String>>,
) -> (r: GqlRouteStart)
    ensures
        r@ == route_start(
            query@,
            match parse_error {
                Some(e) => Some(e@),
                None => None,
            },
            operation_names@,
        ),
{
    proof {
        reveal_strlit("__schema");
        reveal_strlit("__type");
        reveal_strlit("GraphQL syntax error: ");
    }
    if crate::text::str_contains(query, "__schema") || crate::text::str_contains(query, "__type") {
        return GqlRouteStart::Introspect;
    }
    if let Some(e) = parse_error {
        let mut out = chars_of("GraphQL syntax error: ");
        push_str(&mut out, e);
        return GqlRouteStart::SyntaxError(string_of(&out));
    }
    let mut i: usize = 0;
    assert(operation_names@.skip(0) =~= operation_names@);
    while i < operation_names.len()
        invariant
            i <= operation_names.len(),
            first_named(operation_names@) == first_named(operation_names@.skip(i as int)),
            !contains_sub(query@, "__schema"@) && !contains_sub(query@, "__type"@),
            parse_error is None,
        decreases operation_names.len() - i,
    {
        assert(operation_names@.skip(i as int).drop_first() =~= operation_names@.skip(i + 1));
        assert(operation_names@.skip(i as int)[0] == operation_names@[i as int]);
        if let Some(n) = &operation_names[i] {
            return GqlRouteStart::Continue(Some(n.clone()));
        }
        i += 1;
    }
    GqlRouteStart::Continue(None)
}

/// The last step of a request that went on: static data when some was found
/// for the operation; else the error of the first unknown collection (see
/// [`validate_request`]); else run the operations.
pub fn graphql_route_finish(
    static_found: bool,
    defs: &Vec<GqlDefinition>,
    known: &Vec<String>,
) -> (r: GqlRouteFinish)
    ensures
        static_found ==> r == GqlRouteFinish::StaticData,
        !static_found ==> match first_unknown(defs@, views_of(known@)) {
            None => r == GqlRouteFinish::Execute,
            Some(c) => r matches GqlRouteFinish::Error(m) && m@ == unknown_collection_message(c),
        },
{
    if static_found {
        return GqlRouteFinish::StaticData;
    }
    match validate_request(defs, known) {
        Ok(()) => GqlRouteFinish::Execute,
        Err(m) => GqlRouteFinish::Error(m),
    }
}

} // verus!
