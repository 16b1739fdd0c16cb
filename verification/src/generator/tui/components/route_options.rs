//! Options of the chosen route kind: method, id strategy, storage, protection.

use vstd::prelude::*;

use crate::generator::domain::{RouteKind, RouteSelection};
use crate::generator::tui::app::{
    next_options_screen, next_options_screen_of, transitioned, went_back, Key, WizardApp,
};
use crate::generator::tui::components::common::{
    go_back, is_back_key, is_move_key, move_menu, moved_index, quit_on_escape,
};
use crate::id_manager::IdType;
use crate::text::{ascii_upper, chars_eq_str, chars_of, push_all, push_str, string_of, upper_chars};

verus! {

/// The route options component.
pub struct RouteOptions;

/// The method after `method` in the cycle get, post, put, patch, delete; an
/// unknown method counts as `get`.
pub open spec fn cycled_method(method: Seq<char>) -> Seq<char> {
    if method == "post"@ {
        "put"@
    } else if method == "put"@ {
        "patch"@
    } else if method == "patch"@ {
        "delete"@
    } else if method == "delete"@ {
        "get"@
    } else {
        "post"@
    }
}

/// The id strategy after `id_type` in the cycle uuid, int, none.
pub open spec fn cycled_id_type(id_type: IdType) -> IdType {
    match id_type {
        IdType::Uuid => IdType::Int,
        IdType::Int => IdType::NoId,
        IdType::NoId => IdType::Uuid,
    }
}

/// Index of the last option row of a route kind.
pub open spec fn options_last_index(kind: RouteKind) -> usize {
    match kind {
        RouteKind::Basic | RouteKind::Rest | RouteKind::Upload => 1,
        _ => 0,
    }
}

/// `new` is `sel` with the option of row `index` changed: the method (basic),
/// the id strategy (REST) or the storage (upload) on the first row, the
/// protection otherwise.
pub open spec fn option_cycled(sel: RouteSelection, new: RouteSelection, index: usize) -> bool {
    if sel.kind == RouteKind::Basic && index == 0 {
        new == (RouteSelection { method: new.method, ..sel }) && new.method@ == cycled_method(
            sel.method@,
        )
    } else if sel.kind == RouteKind::Rest && index == 0 {
        new == (RouteSelection { id_type: cycled_id_type(sel.id_type), ..sel })
    } else if sel.kind == RouteKind::Upload && index == 0 {
        new == (RouteSelection { temporary_upload: !sel.temporary_upload, ..sel })
    } else {
        new == (RouteSelection { protected: !sel.protected, ..sel })
    }
}

/// Prompt of the route options.
pub open spec fn route_options_status(kind: RouteKind) -> Seq<char> {
    match kind {
        RouteKind::Rest => "Space: cycle ID/protection | Enter: data source"@,
        RouteKind::Upload => "Space: toggle storage/protection | Enter: review"@,
        RouteKind::Sql => "Space: toggle protection | Enter: review"@,
        _ => "Space: change selected option | Enter: next"@,
    }
}

/// Title of the route options.
pub open spec fn route_options_title(kind: RouteKind) -> Seq<char> {
    match kind {
        RouteKind::Basic => "Basic route options"@,
        RouteKind::Rest => "REST collection options"@,
        RouteKind::Upload => "Upload route options"@,
        RouteKind::Graphql => "GraphQL service options"@,
        RouteKind::Sql => "SQL route options"@,
        _ => "Route options"@,
    }
}

/// `public` or `protected`.
pub open spec fn access_label(protected: bool) -> Seq<char> {
    if protected {
        "protected"@
    } else {
        "public"@
    }
}

/// Label of an id strategy.
pub open spec fn id_type_label(id_type: IdType) -> Seq<char> {
    match id_type {
        IdType::Uuid => "uuid id"@,
        IdType::Int => "integer id"@,
        IdType::NoId => "no generated id"@,
    }
}

/// The option rows shown for a selection.
pub open spec fn option_rows(sel: RouteSelection) -> Seq<Seq<char>> {
    let access = "Access: "@ + access_label(sel.protected);
    match sel.kind {
        RouteKind::Basic => seq!["Method: "@ + ascii_upper(sel.method@), access],
        RouteKind::Rest => seq!["ID strategy: "@ + id_type_label(sel.id_type), access],
        RouteKind::Upload => seq![
            "Storage: "@ + (if sel.temporary_upload {
                "temporary"@
            } else {
                "persistent"@
            }),
            access,
        ],
        RouteKind::Graphql => seq!["GraphQL access: "@ + access_label(sel.protected)],
        RouteKind::Sql => seq!["SQL file access: "@ + access_label(sel.protected)],
        _ => seq!["Route access: "@ + access_label(sel.protected)],
    }
}

/// `b` is `a` after entering the route options.
pub open spec fn route_options_entered(a: WizardApp, b: WizardApp) -> bool {
    &&& b == (WizardApp { menu_index: 0, status: b.status, ..a })
    &&& b.status@ == route_options_status(a.route_selection.kind)
}

/// `b` is `a` after a key press on the route options.
pub open spec fn route_options_key(a: WizardApp, b: WizardApp, key: Key) -> bool {
    if key == Key::Esc {
        b == (WizardApp { done: true, ..a })
    } else if is_back_key(key) {
        went_back(a, b)
    } else if is_move_key(key) {
        b == (WizardApp {
            menu_index: moved_index(a.menu_index, key, options_last_index(a.route_selection.kind)),
            ..a
        })
    } else if key == Key::Char(' ') {
        b == (WizardApp { route_selection: b.route_selection, ..a }) && option_cycled(
            a.route_selection,
            b.route_selection,
            a.menu_index,
        )
    } else if key == Key::Enter {
        transitioned(a, b, next_options_screen_of(a.route_selection.kind))
    } else {
        b == a
    }
}

/// The method after `method` in the cycle.
pub fn cycle_method(method: &str) -> (s: String)
    ensures
        s@ == cycled_method(method@),
{
    let m = chars_of(method);
    let next = if chars_eq_str(&m, "post") {
        "put"
    } else if chars_eq_str(&m, "put") {
        "patch"
    } else if chars_eq_str(&m, "patch") {
        "delete"
    } else if chars_eq_str(&m, "delete") {
        "get"
    } else {
        "post"
    };
    next.to_string()
}

/// The id strategy after `id_type` in the cycle.
pub fn cycle_id_type(id_type: IdType) -> (t: IdType)
    ensures
        t == cycled_id_type(id_type),
{
    match id_type {
        IdType::Uuid => IdType::Int,
        IdType::Int => IdType::NoId,
        IdType::NoId => IdType::Uuid,
    }
}

/// Index of the last option row.
pub fn last_index(kind: RouteKind) -> (i: usize)
    ensures
        i == options_last_index(kind),
{
    match kind {
        RouteKind::Basic | RouteKind::Rest | RouteKind::Upload => 1,
        _ => 0,
    }
}

/// Changes the option of the selected row.
pub fn cycle_selected(sel: &mut RouteSelection, index: usize)
    ensures
        option_cycled(*old(sel), *final(sel), index),
{
    if sel.kind == RouteKind::Basic && index == 0 {
        sel.method = cycle_method(sel.method.as_str());
    } else if sel.kind == RouteKind::Rest && index == 0 {
        sel.id_type = cycle_id_type(sel.id_type);
    } else if sel.kind == RouteKind::Upload && index == 0 {
        sel.temporary_upload = !sel.temporary_upload;
    } else {
        sel.protected = !sel.protected;
    }
}

/// Prompt of the route options.
pub fn status(kind: RouteKind) -> (s: &'static str)
    ensures
        s@ == route_options_status(kind),
{
    match kind {
        RouteKind::Rest => "Space: cycle ID/protection | Enter: data source",
        RouteKind::Upload => "Space: toggle storage/protection | Enter: review",
        RouteKind::Sql => "Space: toggle protection | Enter: review",
        _ => "Space: change selected option | Enter: next",
    }
}

/// Title of the route options.
pub fn title(kind: RouteKind) -> (s: &'static str)
    ensures
        s@ == route_options_title(kind),
{
    match kind {
        RouteKind::Basic => "Basic route options",
        RouteKind::Rest => "REST collection options",
        RouteKind::Upload => "Upload route options",
        RouteKind::Graphql => "GraphQL service options",
        RouteKind::Sql => "SQL route options",
        _ => "Route options",
    }
}

fn access_str(protected: bool) -> (s: &'static str)
    ensures
        s@ == access_label(protected),
{
    if protected {
        "protected"
    } else {
        "public"
    }
}

fn id_type_str(id_type: IdType) -> (s: &'static str)
    ensures
        s@ == id_type_label(id_type),
{
    match id_type {
        IdType::Uuid => "uuid id",
        IdType::Int => "integer id",
        IdType::NoId => "no generated id",
    }
}

fn labelled(label: &str, value: &str) -> (s: String)
    ensures
        s@ == label@ + value@,
{
    let mut out = chars_of(label);
    push_str(&mut out, value);
    string_of(&out)
}

/// The option rows shown for a selection.
pub fn rows(sel: &RouteSelection) -> (out: Vec<String>)
    ensures
        crate::text::string_views(out@) == option_rows(*sel),
{
    let access = labelled("Access: ", access_str(sel.protected));
    let mut out: Vec<String> = Vec::new();
    match sel.kind {
        RouteKind::Basic => {
            let mut m = chars_of("Method: ");
            push_all(&mut m, &upper_chars(&chars_of(sel.method.as_str())));
            out.push(string_of(&m));
            out.push(access);
        },
        RouteKind::Rest => {
            out.push(labelled("ID strategy: ", id_type_str(sel.id_type)));
            out.push(access);
        },
        RouteKind::Upload => {
            let storage = if sel.temporary_upload {
                "temporary"
            } else {
                "persistent"
            };
            out.push(labelled("Storage: ", storage));
            out.push(access);
        },
        RouteKind::Graphql => {
            out.push(labelled("GraphQL access: ", access_str(sel.protected)));
        },
        RouteKind::Sql => {
            out.push(labelled("SQL file access: ", access_str(sel.protected)));
        },
        _ => {
            out.push(labelled("Route access: ", access_str(sel.protected)));
        },
    }
    assert(crate::text::string_views(out@) =~= option_rows(*sel));
    out
}

impl RouteOptions {
    /// Selects the first row and shows the kind's prompt.
    pub fn enter(&self, app: &mut WizardApp)
        ensures
            route_options_entered(*old(app), *final(app)),
    {
        app.menu_index = 0;
        app.status = status(app.route_selection.kind).to_string();
    }

    /// Escape quits, a back key returns, Up/Down move, Space changes the selected
    /// option, Enter goes on to the file type or the review.
    pub fn handle_key(&self, app: &mut WizardApp, key: Key)
        requires
            old(app).menu_index < usize::MAX,
        ensures
            route_options_key(*old(app), *final(app), key),
    {
        if quit_on_escape(app, key) || go_back(app, key) {
            return;
        }
        let max = last_index(app.route_selection.kind);
        if move_menu(app, key, max) {
            return;
        }
        if key == Key::Char(' ') {
            let index = app.menu_index;
            cycle_selected(&mut app.route_selection, index);
        } else if key == Key::Enter {
            let screen = next_options_screen(app.route_selection.kind);
            app.transition_to(screen);
        }
    }
}

} // verus!
