//! The route path input. GraphQL, upload and public routes are asked for by
//! name, the other kinds by full path.

use vstd::prelude::*;

use crate::generator::domain::{GeneratedFileType, RouteKind, RouteSelection};
use crate::generator::tui::app::{
    next_route_screen, next_route_screen_of, normalized_route, transitioned, WizardApp, Key,
};
use crate::generator::tui::components::common::{edit_input_or_go_back, input_or_back, quit_on_escape};
use crate::text::{
    chars_of, copy_chars, push_all, split_chars, split_on, string_of, trim, trim_char,
    trim_char_exec, trimmed,
};

verus! {

/// The route path input component.
pub struct RoutePathInput;

/// The non-empty pieces among `segs`, in order.
pub open spec fn nonempty_filter(segs: Seq<Seq<char>>) -> Seq<Seq<char>>
    decreases segs.len(),
{
    if segs.len() == 0 {
        Seq::empty()
    } else if segs.last().len() > 0 {
        nonempty_filter(segs.drop_last()).push(segs.last())
    } else {
        nonempty_filter(segs.drop_last())
    }
}

/// The last non-empty segment of a route, or `default`.
pub open spec fn last_segment_or(route: Seq<char>, default: Seq<char>) -> Seq<char> {
    let segs = nonempty_filter(split_on(route, '/'));
    if segs.len() == 0 {
        default
    } else {
        segs.last()
    }
}

/// What the input shows on entry: the route's name for named kinds, else the route.
pub open spec fn route_path_value(sel: RouteSelection) -> Seq<char> {
    match sel.kind {
        RouteKind::Graphql => last_segment_or(sel.route@, "users"@),
        RouteKind::Upload => last_segment_or(sel.route@, "upload"@),
        RouteKind::Public => last_segment_or(sel.route@, "public"@),
        _ => sel.route@,
    }
}

/// Prompt of the route path input.
pub open spec fn route_path_status(kind: RouteKind) -> Seq<char> {
    match kind {
        RouteKind::Graphql => "Enter collection/service name, for example users"@,
        RouteKind::Upload => "Enter upload route name, for example upload or documents"@,
        RouteKind::Public => "Enter public route alias, for example public or assets"@,
        RouteKind::Sql => "Enter SQL route path, then press Enter"@,
        RouteKind::Auth => "Enter auth base route, for example /auth"@,
        RouteKind::Rest => "Enter REST resource route, for example /api/users"@,
        RouteKind::Basic => "Enter file-backed route path, then press Enter"@,
    }
}

/// Title of the route path input.
pub open spec fn route_path_title(kind: RouteKind) -> Seq<char> {
    match kind {
        RouteKind::Graphql => "GraphQL service name"@,
        RouteKind::Upload => "Upload route name"@,
        RouteKind::Public => "Public route alias"@,
        RouteKind::Sql => "SQL GET route"@,
        RouteKind::Auth => "Auth base route"@,
        RouteKind::Rest => "REST resource route"@,
        RouteKind::Basic => "Route path"@,
    }
}

/// The route of a named kind: `/` and the trimmed name (or `default` when it is
/// blank) without surrounding slashes.
pub open spec fn named_route(input: Seq<char>, default: Seq<char>) -> Seq<char> {
    let name = if trim(input).len() == 0 {
        default
    } else {
        trim(input)
    };
    "/"@ + trim_char(name, '/')
}

/// The file type and route after the route input is submitted: named kinds take
/// their name, SQL routes also switch to SQL content, and the other kinds take a
/// normalized path (a blank input keeps the route).
pub open spec fn submitted_route(sel: RouteSelection, input: Seq<char>) -> (GeneratedFileType, Seq<char>) {
    let path = if trim(input).len() == 0 {
        sel.route@
    } else {
        normalized_route(input)
    };
    match sel.kind {
        RouteKind::Graphql => (sel.file_type, named_route(input, "users"@)),
        RouteKind::Upload => (sel.file_type, named_route(input, "upload"@)),
        RouteKind::Public => (sel.file_type, named_route(input, "public"@)),
        RouteKind::Sql => (GeneratedFileType::Sql, path),
        _ => (sel.file_type, path),
    }
}

/// `b` is `a` after entering the route path input.
pub open spec fn route_path_entered(a: WizardApp, b: WizardApp) -> bool {
    &&& b == (WizardApp { input: b.input, status: b.status, ..a })
    &&& b.input@ == route_path_value(a.route_selection)
    &&& b.status@ == route_path_status(a.route_selection.kind)
}

/// `b` is `a` once the route input is submitted: the route (and, for SQL, the
/// file type) set, and the next screen of the kind entered.
pub open spec fn route_path_submitted(a: WizardApp, b: WizardApp) -> bool {
    let sel = b.route_selection;
    &&& (sel.file_type, sel.route@) == submitted_route(a.route_selection, a.input@)
    &&& sel == (RouteSelection { file_type: sel.file_type, route: sel.route, ..a.route_selection })
    &&& transitioned(
        WizardApp { route_selection: sel, ..a },
        b,
        next_route_screen_of(a.route_selection.kind),
    )
}

/// `b` is `a` after a key press on the route path input.
pub open spec fn route_path_key(a: WizardApp, b: WizardApp, key: Key) -> bool {
    if key == Key::Esc {
        b == (WizardApp { done: true, ..a })
    } else if key == Key::Left || key == Key::Backspace || key is Char {
        input_or_back(a, b, key, true)
    } else if key == Key::Enter {
        route_path_submitted(a, b)
    } else {
        b == a
    }
}

/// The last non-empty segment of `route`, or `default`.
pub fn last_segment(route: &Vec<char>, default: &str) -> (out: Vec<char>)
    ensures
        out@ == last_segment_or(route@, default@),
{
    let pieces = split_chars(route, '/');
    let ghost segs = split_on(route@, '/');
    let mut found: Option<usize> = None;
    let mut i: usize = 0;
    while i < pieces.len()
        invariant
            i <= pieces.len(),
            crate::text::seqs_view(pieces@) == segs,
            pieces.len() == segs.len(),
            found.is_none() <==> nonempty_filter(segs.take(i as int)).len() == 0,
            found matches Some(j) ==> j < i && nonempty_filter(segs.take(i as int)).last()
                == pieces@[j as int]@,
        decreases pieces.len() - i,
    {
        assert(segs.take(i + 1).drop_last() =~= segs.take(i as int));
        assert(segs.take(i + 1).last() == segs[i as int]);
        assert(segs[i as int] == pieces@[i as int]@);
        if pieces[i].len() > 0 {
            found = Some(i);
        }
        i += 1;
    }
    assert(segs.take(segs.len() as int) =~= segs);
    match found {
        Some(j) => copy_chars(&pieces[j]),
        None => chars_of(default),
    }
}

fn route_value(sel: &RouteSelection) -> (out: String)
    ensures
        out@ == route_path_value(*sel),
{
    match sel.kind {
        RouteKind::Graphql => string_of(&last_segment(&chars_of(sel.route.as_str()), "users")),
        RouteKind::Upload => string_of(&last_segment(&chars_of(sel.route.as_str()), "upload")),
        RouteKind::Public => string_of(&last_segment(&chars_of(sel.route.as_str()), "public")),
        _ => sel.route.clone(),
    }
}

/// Prompt of the route path input.
pub fn route_status(kind: RouteKind) -> (s: &'static str)
    ensures
        s@ == route_path_status(kind),
{
    match kind {
        RouteKind::Graphql => "Enter collection/service name, for example users",
        RouteKind::Upload => "Enter upload route name, for example upload or documents",
        RouteKind::Public => "Enter public route alias, for example public or assets",
        RouteKind::Sql => "Enter SQL route path, then press Enter",
        RouteKind::Auth => "Enter auth base route, for example /auth",
        RouteKind::Rest => "Enter REST resource route, for example /api/users",
        RouteKind::Basic => "Enter file-backed route path, then press Enter",
    }
}

/// Title of the route path input.
pub fn route_title(kind: RouteKind) -> (s: &'static str)
    ensures
        s@ == route_path_title(kind),
{
    match kind {
        RouteKind::Graphql => "GraphQL service name",
        RouteKind::Upload => "Upload route name",
        RouteKind::Public => "Public route alias",
        RouteKind::Sql => "SQL GET route",
        RouteKind::Auth => "Auth base route",
        RouteKind::Rest => "REST resource route",
        RouteKind::Basic => "Route path",
    }
}

/// `/` and the trimmed name (or `default`) without surrounding slashes.
pub fn named_route_of(input: &str, default: &str) -> (s: String)
    ensures
        s@ == named_route(input@, default@),
{
    let t = trimmed(input);
    let name = if t.len() == 0 {
        chars_of(default)
    } else {
        t
    };
    let mut out = chars_of("/");
    push_all(&mut out, &trim_char_exec(&name, '/'));
    string_of(&out)
}

impl RoutePathInput {
    /// Loads the route (or its name) into the input and shows the kind's prompt.
    pub fn enter(&self, app: &mut WizardApp)
        ensures
            route_path_entered(*old(app), *final(app)),
    {
        app.input = route_value(&app.route_selection);
        app.status = route_status(app.route_selection.kind).to_string();
    }

    /// Escape quits, Left (or Backspace on an empty input) returns, typing edits,
    /// Enter stores the route and opens the kind's next screen.
    pub fn handle_key(&self, app: &mut WizardApp, key: Key)
        ensures
            route_path_key(*old(app), *final(app), key),
    {
        if quit_on_escape(app, key) || edit_input_or_go_back(app, key) {
            return;
        }
        if key == Key::Enter {
            submit(app);
        }
    }
}

fn submit(app: &mut WizardApp)
    ensures
        route_path_submitted(*old(app), *final(app)),
{
    let ghost a = *app;
    match app.route_selection.kind {
        RouteKind::Graphql => {
            app.route_selection.route = named_route_of(app.input.as_str(), "users");
        },
        RouteKind::Upload => {
            app.route_selection.route = named_route_of(app.input.as_str(), "upload");
        },
        RouteKind::Public => {
            app.route_selection.route = named_route_of(app.input.as_str(), "public");
        },
        RouteKind::Sql => {
            app.route_selection.file_type = GeneratedFileType::Sql;
            app.update_route_from_input();
        },
        _ => {
            app.update_route_from_input();
        },
    }
    let ghost sel = app.route_selection;
    let screen = next_route_screen(app.route_selection.kind);
    app.transition_to(screen);
    assert((sel.file_type, sel.route@) == submitted_route(a.route_selection, a.input@));
}

} // verus!
