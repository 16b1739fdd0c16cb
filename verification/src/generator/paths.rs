//! Mapping from a route selection to the files and folders that implement it.
//!
//! A route such as `/api/users/{id}` maps to a directory made of its literal
//! segments (`api/users`) and a file name that carries its first dynamic
//! segment (`get{id}.json`). Paths are joined the way `Path::join` joins
//! relative components: with one `/` between them.

use vstd::prelude::*;

use crate::generator::content::{
    auth_json_text, json_array_text, json_object_text, jgd_text, render_auth_json, render_json_array,
    render_json_object, render_jgd, render_sql, render_text, sql_text, text_content,
};
use crate::generator::domain::{
    dir_op, file_op, GeneratedFileType, RouteKind, RouteSelection, WriteOpView, WriteOperation,
    WritePlan,
};
use crate::id_manager::IdType;
use crate::text::{
    chars_eq_str, chars_of, contains_chars, contains_sub, copy_chars, lemma_split_nonempty, lower_chars,
    ascii_lower, push_all, push_str, seqs_view, split_chars, split_on, string_of,
};

verus! {

// ----------------------------------------------------------------------------
// Route segments
// ----------------------------------------------------------------------------

/// A dynamic segment: `{...}`.
pub open spec fn is_param(seg: Seq<char>) -> bool {
    seg.len() > 0 && seg[0] == '{' && seg.last() == '}'
}

/// A segment that names a directory: not empty and not dynamic.
pub open spec fn is_dir_segment(seg: Seq<char>) -> bool {
    seg.len() > 0 && !is_param(seg)
}

/// The directory segments among `segs`, in order.
pub open spec fn dir_filter(segs: Seq<Seq<char>>) -> Seq<Seq<char>>
    decreases segs.len(),
{
    if segs.len() == 0 {
        Seq::empty()
    } else if is_dir_segment(segs.last()) {
        dir_filter(segs.drop_last()).push(segs.last())
    } else {
        dir_filter(segs.drop_last())
    }
}

/// The dynamic segments among `segs`, in order.
pub open spec fn param_filter(segs: Seq<Seq<char>>) -> Seq<Seq<char>>
    decreases segs.len(),
{
    if segs.len() == 0 {
        Seq::empty()
    } else if is_param(segs.last()) {
        param_filter(segs.drop_last()).push(segs.last())
    } else {
        param_filter(segs.drop_last())
    }
}

/// The directory of a route: its literal segments.
pub open spec fn route_dir(route: Seq<char>) -> Seq<Seq<char>> {
    dir_filter(split_on(route, '/'))
}

/// The parent directory of a route: its literal segments but the last.
pub open spec fn route_parent_dir(route: Seq<char>) -> Seq<Seq<char>> {
    if route_dir(route).len() == 0 {
        route_dir(route)
    } else {
        route_dir(route).drop_last()
    }
}

/// The last literal segment of a route, if any.
pub open spec fn route_leaf(route: Seq<char>) -> Option<Seq<char>> {
    if route_dir(route).len() == 0 {
        None
    } else {
        Some(route_dir(route).last())
    }
}

/// The first dynamic segment of a route, if any.
pub open spec fn route_param_descriptor(route: Seq<char>) -> Option<Seq<char>> {
    let params = param_filter(split_on(route, '/'));
    if params.len() == 0 {
        None
    } else {
        Some(params[0])
    }
}

/// The value of an option, or a default.
pub open spec fn or_default(o: Option<Seq<char>>, d: Seq<char>) -> Seq<char> {
    match o {
        Some(v) => v,
        None => d,
    }
}

/// `Path::join` of one relative, separator-free component.
pub open spec fn join_segment(base: Seq<char>, seg: Seq<char>) -> Seq<char> {
    if base.len() == 0 {
        seg
    } else if base.last() == '/' {
        base + seg
    } else {
        base + seq!['/'] + seg
    }
}

/// `base` joined with every component of `segs`, in order.
pub open spec fn join_all(base: Seq<char>, segs: Seq<Seq<char>>) -> Seq<char>
    decreases segs.len(),
{
    if segs.len() == 0 {
        base
    } else {
        join_segment(join_all(base, segs.drop_last()), segs.last())
    }
}

// ----------------------------------------------------------------------------
// File and folder names
// ----------------------------------------------------------------------------

/// `$` for protected routes.
pub open spec fn protection_prefix(protected: bool) -> Seq<char> {
    if protected {
        "$"@
    } else {
        Seq::empty()
    }
}

/// Extension of a method file.
pub open spec fn method_extension(file_type: GeneratedFileType) -> Seq<char> {
    match file_type {
        GeneratedFileType::Jgd => "jgd"@,
        GeneratedFileType::Text => "txt"@,
        GeneratedFileType::Sql => "sql"@,
        _ => "json"@,
    }
}

/// Extension of a data file.
pub open spec fn data_extension(file_type: GeneratedFileType) -> Seq<char> {
    match file_type {
        GeneratedFileType::Jgd => "jgd"@,
        _ => "json"@,
    }
}

/// `[$]method[{param}].ext`.
pub open spec fn basic_file_name(sel: RouteSelection) -> Seq<char> {
    protection_prefix(sel.protected) + ascii_lower(sel.method@) + or_default(
        route_param_descriptor(sel.route@),
        Seq::empty(),
    ) + "."@ + method_extension(sel.file_type)
}

/// The `{...}` descriptor of a REST file for an id key and type.
pub open spec fn rest_descriptor(id_key: Seq<char>, id_type: IdType) -> Seq<char> {
    if id_key == "id"@ {
        match id_type {
            IdType::Uuid => Seq::empty(),
            IdType::Int => "{int}"@,
            IdType::NoId => "{none}"@,
        }
    } else {
        match id_type {
            IdType::Uuid => "{"@ + id_key + "}"@,
            IdType::Int => "{"@ + id_key + "-int}"@,
            IdType::NoId => "{"@ + id_key + "-none}"@,
        }
    }
}

/// `[$]rest[{descriptor}].ext`.
pub open spec fn rest_file_name(sel: RouteSelection) -> Seq<char> {
    protection_prefix(sel.protected) + "rest"@ + rest_descriptor(sel.id_key@, sel.id_type) + "."@
        + data_extension(sel.file_type)
}

/// `[$]{upload}[{temp}][-leaf]`, the leaf defaulting to `upload`, which is left out.
pub open spec fn upload_directory_name(sel: RouteSelection) -> Seq<char> {
    let leaf = or_default(route_leaf(sel.route@), "upload"@);
    let temp = if sel.temporary_upload {
        "{temp}"@
    } else {
        Seq::empty()
    };
    if leaf == "upload"@ {
        protection_prefix(sel.protected) + "{upload}"@ + temp
    } else {
        protection_prefix(sel.protected) + "{upload}"@ + temp + "-"@ + leaf
    }
}

/// `[$]leaf[{param}].sql`, the leaf defaulting to `query`.
pub open spec fn sql_file_name(sel: RouteSelection) -> Seq<char> {
    protection_prefix(sel.protected) + or_default(route_leaf(sel.route@), "query"@) + or_default(
        route_param_descriptor(sel.route@),
        Seq::empty(),
    ) + ".sql"@
}

/// `public` for the `public` route, else `public-leaf`.
pub open spec fn public_directory_name(route: Seq<char>) -> Seq<char> {
    let leaf = or_default(route_leaf(route), "public"@);
    if leaf == "public"@ {
        "public"@
    } else {
        "public-"@ + leaf
    }
}

/// `$graphql` when protected, else `graphql`.
pub open spec fn graphql_folder(protected: bool) -> Seq<char> {
    if protected {
        "$graphql"@
    } else {
        "graphql"@
    }
}

/// `leaf.ext`, the leaf defaulting to `items`.
pub open spec fn graphql_collection_file(sel: RouteSelection) -> Seq<char> {
    or_default(route_leaf(sel.route@), "items"@) + "."@ + data_extension(sel.file_type)
}

/// The part of a segment before its first `{`.
pub open spec fn strip_descriptor(leaf: Seq<char>) -> Seq<char> {
    split_on(leaf, '{')[0]
}

/// Collection of a SQL route: the override, else the stripped leaf, else `items`.
pub open spec fn sql_collection(sel: RouteSelection) -> Seq<char> {
    match sel.collection_name {
        Some(name) => name@,
        None => match route_leaf(sel.route@) {
            Some(leaf) => strip_descriptor(leaf),
            None => "items"@,
        },
    }
}

/// Whether the route holds the `{id}` segment text.
pub open spec fn has_id_param(route: Seq<char>) -> bool {
    contains_sub(route, "{id}"@)
}

/// SQL content of a selection.
pub open spec fn sql_content(sel: RouteSelection) -> Seq<char> {
    sql_text(sql_collection(sel), has_id_param(sel.route@))
}

/// Content of a route file, by file type.
pub open spec fn route_content(sel: RouteSelection) -> Seq<char> {
    match sel.file_type {
        GeneratedFileType::Json => match sel.kind {
            RouteKind::Rest | RouteKind::Graphql => json_array_text(sel.fields@),
            _ => json_object_text(sel.fields@),
        },
        GeneratedFileType::Jgd => jgd_text(sel.fields@, sel.id_key@, sel.id_type),
        GeneratedFileType::Text => text_content(sel.route@),
        GeneratedFileType::Sql => sql_content(sel),
        GeneratedFileType::Directory => Seq::empty(),
    }
}

/// The route directory under `root`.
pub open spec fn route_dir_path(root: Seq<char>, route: Seq<char>) -> Seq<char> {
    join_all(root, route_dir(route))
}

/// The route's parent directory under `root`.
pub open spec fn route_parent_path(root: Seq<char>, route: Seq<char>) -> Seq<char> {
    join_all(root, route_parent_dir(route))
}

/// The GraphQL service folder under `root`.
pub open spec fn graphql_dir_path(root: Seq<char>, protected: bool) -> Seq<char> {
    join_segment(root, graphql_folder(protected))
}

/// The GraphQL collections folder under `root`.
pub open spec fn graphql_collections_path(root: Seq<char>, protected: bool) -> Seq<char> {
    join_segment(graphql_dir_path(root, protected), "collections"@)
}

/// The operations that generate a route under `root`.
pub open spec fn route_plan(root: Seq<char>, sel: RouteSelection) -> Seq<WriteOpView> {
    match sel.kind {
        RouteKind::Basic => seq![
            file_op(
                join_segment(route_dir_path(root, sel.route@), basic_file_name(sel)),
                route_content(sel),
            ),
        ],
        RouteKind::Rest => seq![
            file_op(
                join_segment(route_dir_path(root, sel.route@), rest_file_name(sel)),
                route_content(sel),
            ),
        ],
        RouteKind::Auth => seq![
            file_op(
                join_segment(route_dir_path(root, sel.route@), "{auth}.json"@),
                auth_json_text(sel.fields@),
            ),
        ],
        RouteKind::Upload => seq![
            dir_op(join_segment(route_parent_path(root, sel.route@), upload_directory_name(sel))),
        ],
        RouteKind::Public => seq![dir_op(join_segment(root, public_directory_name(sel.route@)))],
        RouteKind::Graphql => seq![
            dir_op(graphql_dir_path(root, sel.protected)),
            dir_op(graphql_collections_path(root, sel.protected)),
            file_op(
                join_segment(
                    graphql_collections_path(root, sel.protected),
                    graphql_collection_file(sel),
                ),
                route_content(sel),
            ),
        ],
        RouteKind::Sql => seq![
            file_op(
                join_segment(route_parent_path(root, sel.route@), sql_file_name(sel)),
                sql_content(sel),
            ),
        ],
    }
}

// ----------------------------------------------------------------------------
// Executable mapping
// ----------------------------------------------------------------------------

fn is_param_segment(seg: &Vec<char>) -> (b: bool)
    ensures
        b == is_param(seg@),
{
    seg.len() > 0 && seg[0] == '{' && seg[seg.len() - 1] == '}'
}

fn dir_segments(segs: &Vec<Vec<char>>) -> (out: Vec<Vec<char>>)
    ensures
        seqs_view(out@) == dir_filter(seqs_view(segs@)),
{
    let mut out: Vec<Vec<char>> = Vec::new();
    let mut i: usize = 0;
    while i < segs.len()
        invariant
            i <= segs.len(),
            seqs_view(out@) == dir_filter(seqs_view(segs@).take(i as int)),
        decreases segs.len() - i,
    {
        let ghost prev = out@;
        assert(seqs_view(segs@).take(i + 1).drop_last() =~= seqs_view(segs@).take(i as int));
        if segs[i].len() > 0 && !is_param_segment(&segs[i]) {
            out.push(copy_chars(&segs[i]));
            assert(seqs_view(out@) =~= seqs_view(prev).push(segs@[i as int]@));
        }
        i += 1;
    }
    assert(seqs_view(segs@).take(segs.len() as int) =~= seqs_view(segs@));
    out
}

fn params_of(segs: &Vec<Vec<char>>) -> (out: Vec<Vec<char>>)
    ensures
        seqs_view(out@) == param_filter(seqs_view(segs@)),
{
    let mut out: Vec<Vec<char>> = Vec::new();
    let mut i: usize = 0;
    while i < segs.len()
        invariant
            i <= segs.len(),
            seqs_view(out@) == param_filter(seqs_view(segs@).take(i as int)),
        decreases segs.len() - i,
    {
        let ghost prev = out@;
        assert(seqs_view(segs@).take(i + 1).drop_last() =~= seqs_view(segs@).take(i as int));
        if is_param_segment(&segs[i]) {
            out.push(copy_chars(&segs[i]));
            assert(seqs_view(out@) =~= seqs_view(prev).push(segs@[i as int]@));
        }
        i += 1;
    }
    assert(seqs_view(segs@).take(segs.len() as int) =~= seqs_view(segs@));
    out
}

fn route_dir_segments(route: &Vec<char>) -> (out: Vec<Vec<char>>)
    ensures
        seqs_view(out@) == route_dir(route@),
{
    let pieces = split_chars(route, '/');
    dir_segments(&pieces)
}

fn route_parent_segments(route: &Vec<char>) -> (out: Vec<Vec<char>>)
    ensures
        seqs_view(out@) == route_parent_dir(route@),
{
    let mut segs = route_dir_segments(route);
    if segs.len() > 0 {
        let ghost before = segs@;
        let _ = segs.pop();
        assert(seqs_view(segs@) =~= seqs_view(before).drop_last());
    }
    segs
}

fn leaf_of(route: &Vec<char>) -> (out: Option<Vec<char>>)
    ensures
        match out {
            Some(v) => route_leaf(route@) == Some(v@),
            None => route_leaf(route@).is_none(),
        },
{
    let segs = route_dir_segments(route);
    if segs.len() == 0 {
        None
    } else {
        Some(copy_chars(&segs[segs.len() - 1]))
    }
}

fn leaf_or(route: &Vec<char>, default: &str) -> (out: Vec<char>)
    ensures
        out@ == or_default(route_leaf(route@), default@),
{
    match leaf_of(route) {
        Some(leaf) => leaf,
        None => chars_of(default),
    }
}

fn param_descriptor_or_empty(route: &Vec<char>) -> (out: Vec<char>)
    ensures
        out@ == or_default(route_param_descriptor(route@), Seq::empty()),
{
    let pieces = split_chars(route, '/');
    let params = params_of(&pieces);
    if params.len() == 0 {
        Vec::new()
    } else {
        copy_chars(&params[0])
    }
}

/// Joins one relative component onto `base`, as `Path::push` does.
pub fn join_segment_into(base: &mut Vec<char>, seg: &Vec<char>)
    ensures
        final(base)@ == join_segment(old(base)@, seg@),
{
    if base.len() == 0 {
        push_all(base, seg);
        assert(base@ =~= seg@);
    } else if base[base.len() - 1] == '/' {
        push_all(base, seg);
    } else {
        base.push('/');
        push_all(base, seg);
    }
}

fn join_all_exec(base: &Vec<char>, segs: &Vec<Vec<char>>) -> (out: Vec<char>)
    ensures
        out@ == join_all(base@, seqs_view(segs@)),
{
    let mut out = copy_chars(base);
    let mut i: usize = 0;
    while i < segs.len()
        invariant
            i <= segs.len(),
            out@ == join_all(base@, seqs_view(segs@).take(i as int)),
        decreases segs.len() - i,
    {
        assert(seqs_view(segs@).take(i + 1).drop_last() =~= seqs_view(segs@).take(i as int));
        join_segment_into(&mut out, &segs[i]);
        i += 1;
    }
    assert(seqs_view(segs@).take(segs.len() as int) =~= seqs_view(segs@));
    out
}

fn prefix_chars(protected: bool) -> (out: Vec<char>)
    ensures
        out@ == protection_prefix(protected),
{
    if protected {
        chars_of("$")
    } else {
        Vec::new()
    }
}

fn method_extension_str(file_type: GeneratedFileType) -> (s: &'static str)
    ensures
        s@ == method_extension(file_type),
{
    match file_type {
        GeneratedFileType::Jgd => "jgd",
        GeneratedFileType::Text => "txt",
        GeneratedFileType::Sql => "sql",
        _ => "json",
    }
}

fn data_extension_str(file_type: GeneratedFileType) -> (s: &'static str)
    ensures
        s@ == data_extension(file_type),
{
    match file_type {
        GeneratedFileType::Jgd => "jgd",
        _ => "json",
    }
}

fn basic_name(sel: &RouteSelection, route: &Vec<char>) -> (out: Vec<char>)
    requires
        route@ == sel.route@,
    ensures
        out@ == basic_file_name(*sel),
{
    let mut out = prefix_chars(sel.protected);
    let method = chars_of(sel.method.as_str());
    let lower = lower_chars(&method);
    push_all(&mut out, &lower);
    let desc = param_descriptor_or_empty(route);
    push_all(&mut out, &desc);
    push_str(&mut out, ".");
    push_str(&mut out, method_extension_str(sel.file_type));
    out
}

fn rest_descriptor_chars(id_key: &String, id_type: IdType) -> (out: Vec<char>)
    ensures
        out@ == rest_descriptor(id_key@, id_type),
{
    let key = chars_of(id_key.as_str());
    if chars_eq_str(&key, "id") {
        match id_type {
            IdType::Uuid => Vec::new(),
            IdType::Int => chars_of("{int}"),
            IdType::NoId => chars_of("{none}"),
        }
    } else {
        let mut out = chars_of("{");
        push_all(&mut out, &key);
        match id_type {
            IdType::Uuid => push_str(&mut out, "}"),
            IdType::Int => push_str(&mut out, "-int}"),
            IdType::NoId => push_str(&mut out, "-none}"),
        }
        out
    }
}

fn rest_name(sel: &RouteSelection) -> (out: Vec<char>)
    ensures
        out@ == rest_file_name(*sel),
{
    let mut out = prefix_chars(sel.protected);
    push_str(&mut out, "rest");
    let desc = rest_descriptor_chars(&sel.id_key, sel.id_type);
    push_all(&mut out, &desc);
    push_str(&mut out, ".");
    push_str(&mut out, data_extension_str(sel.file_type));
    out
}

fn upload_name(sel: &RouteSelection, route: &Vec<char>) -> (out: Vec<char>)
    requires
        route@ == sel.route@,
    ensures
        out@ == upload_directory_name(*sel),
{
    let leaf = leaf_or(route, "upload");
    let mut out = prefix_chars(sel.protected);
    push_str(&mut out, "{upload}");
    if sel.temporary_upload {
        push_str(&mut out, "{temp}");
    }
    if !chars_eq_str(&leaf, "upload") {
        push_str(&mut out, "-");
        push_all(&mut out, &leaf);
    }
    out
}

fn sql_name(sel: &RouteSelection, route: &Vec<char>) -> (out: Vec<char>)
    requires
        route@ == sel.route@,
    ensures
        out@ == sql_file_name(*sel),
{
    let mut out = prefix_chars(sel.protected);
    let leaf = leaf_or(route, "query");
    push_all(&mut out, &leaf);
    let desc = param_descriptor_or_empty(route);
    push_all(&mut out, &desc);
    push_str(&mut out, ".sql");
    out
}

fn public_name(route: &Vec<char>) -> (out: Vec<char>)
    ensures
        out@ == public_directory_name(route@),
{
    let leaf = leaf_or(route, "public");
    if chars_eq_str(&leaf, "public") {
        chars_of("public")
    } else {
        let mut out = chars_of("public-");
        push_all(&mut out, &leaf);
        out
    }
}

fn graphql_file_name(sel: &RouteSelection, route: &Vec<char>) -> (out: Vec<char>)
    requires
        route@ == sel.route@,
    ensures
        out@ == graphql_collection_file(*sel),
{
    let mut out = leaf_or(route, "items");
    push_str(&mut out, ".");
    push_str(&mut out, data_extension_str(sel.file_type));
    out
}

fn strip_descriptor_exec(leaf: &Vec<char>) -> (out: Vec<char>)
    ensures
        out@ == strip_descriptor(leaf@),
{
    let pieces = split_chars(leaf, '{');
    proof {
        lemma_split_nonempty(leaf@, '{');
    }
    copy_chars(&pieces[0])
}

/// Collection of a SQL route; `route` holds the characters of the selection's route.
pub fn sql_collection_exec(sel: &RouteSelection, route: &Vec<char>) -> (out: Vec<char>)
    requires
        route@ == sel.route@,
    ensures
        out@ == sql_collection(*sel),
{
    match &sel.collection_name {
        Some(name) => chars_of(name.as_str()),
        None => match leaf_of(route) {
            Some(leaf) => strip_descriptor_exec(&leaf),
            None => chars_of("items"),
        },
    }
}

fn sql_content_exec(sel: &RouteSelection, route: &Vec<char>) -> (s: String)
    requires
        route@ == sel.route@,
    ensures
        s@ == sql_content(*sel),
{
    let collection = sql_collection_exec(sel, route);
    let id_marker = chars_of("{id}");
    let has_id = contains_chars(route, &id_marker);
    let name = string_of(&collection);
    render_sql(name.as_str(), has_id)
}

fn route_content_exec(sel: &RouteSelection, route: &Vec<char>) -> (s: String)
    requires
        route@ == sel.route@,
    ensures
        s@ == route_content(*sel),
{
    match sel.file_type {
        GeneratedFileType::Json => match sel.kind {
            RouteKind::Rest | RouteKind::Graphql => render_json_array(sel.fields.as_slice()),
            _ => render_json_object(sel.fields.as_slice()),
        },
        GeneratedFileType::Jgd => render_jgd(sel),
        GeneratedFileType::Text => render_text(sel.route.as_str()),
        GeneratedFileType::Sql => sql_content_exec(sel, route),
        GeneratedFileType::Directory => String::new(),
    }
}

/// Builds the write plan that generates `selection` under `root`.
pub fn build_route_plan(root: &str, selection: &RouteSelection) -> (plan: WritePlan)
    ensures
        plan@ == route_plan(root@, *selection),
{
    let root_chars = chars_of(root);
    let route = chars_of(selection.route.as_str());
    let mut plan = WritePlan::default();
    match selection.kind {
        RouteKind::Basic => {
            let dir = route_dir_segments(&route);
            let mut path = join_all_exec(&root_chars, &dir);
            let name = basic_name(selection, &route);
            join_segment_into(&mut path, &name);
            let content = route_content_exec(selection, &route);
            plan.push(WriteOperation::file(string_of(&path), content));
        },
        RouteKind::Rest => {
            let dir = route_dir_segments(&route);
            let mut path = join_all_exec(&root_chars, &dir);
            let name = rest_name(selection);
            join_segment_into(&mut path, &name);
            let content = route_content_exec(selection, &route);
            plan.push(WriteOperation::file(string_of(&path), content));
        },
        RouteKind::Auth => {
            let dir = route_dir_segments(&route);
            let mut path = join_all_exec(&root_chars, &dir);
            let name = chars_of("{auth}.json");
            join_segment_into(&mut path, &name);
            let content = render_auth_json(selection.fields.as_slice());
            plan.push(WriteOperation::file(string_of(&path), content));
        },
        RouteKind::Upload => {
            let parent = route_parent_segments(&route);
            let mut path = join_all_exec(&root_chars, &parent);
            let name = upload_name(selection, &route);
            join_segment_into(&mut path, &name);
            plan.push(WriteOperation::directory(string_of(&path)));
        },
        RouteKind::Public => {
            let mut path = copy_chars(&root_chars);
            let name = public_name(&route);
            join_segment_into(&mut path, &name);
            plan.push(WriteOperation::directory(string_of(&path)));
        },
        RouteKind::Graphql => {
            let mut graphql_dir = copy_chars(&root_chars);
            let folder = if selection.protected {
                chars_of("$graphql")
            } else {
                chars_of("graphql")
            };
            join_segment_into(&mut graphql_dir, &folder);
            plan.push(WriteOperation::directory(string_of(&graphql_dir)));
            let mut collections_dir = copy_chars(&graphql_dir);
            let collections = chars_of("collections");
            join_segment_into(&mut collections_dir, &collections);
            plan.push(WriteOperation::directory(string_of(&collections_dir)));
            let mut seed = copy_chars(&collections_dir);
            let name = graphql_file_name(selection, &route);
            join_segment_into(&mut seed, &name);
            let content = route_content_exec(selection, &route);
            plan.push(WriteOperation::file(string_of(&seed), content));
        },
        RouteKind::Sql => {
            let parent = route_parent_segments(&route);
            let mut path = join_all_exec(&root_chars, &parent);
            let name = sql_name(selection, &route);
            join_segment_into(&mut path, &name);
            let content = sql_content_exec(selection, &route);
            plan.push(WriteOperation::file(string_of(&path), content));
        },
    }
    assert(plan@ =~= route_plan(root@, *selection));
    plan
}

} // verus!
