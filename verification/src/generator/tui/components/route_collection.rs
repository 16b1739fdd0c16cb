//! The SQL collection input.

use vstd::prelude::*;

use crate::generator::domain::RouteSelection;
use crate::generator::paths::{sql_collection, sql_collection_exec};
use crate::generator::tui::app::{transitioned, Key, Screen, WizardApp};
use crate::generator::tui::components::common::{edit_input_or_go_back, input_or_back, quit_on_escape};
use crate::text::{chars_of, string_of, trim, trimmed};

verus! {

/// The SQL collection input component.
pub struct RouteCollectionInput;

/// `b` is `a` after entering the SQL collection input: the input shows the
/// collection the route would use.
pub open spec fn route_collection_entered(a: WizardApp, b: WizardApp) -> bool {
    &&& b == (WizardApp { input: b.input, status: b.status, ..a })
    &&& b.input@ == sql_collection(a.route_selection)
    &&& b.status@ == "Enter SQL collection/table name, then press Enter"@
}

/// `b` is `a` once the collection is submitted: a non-blank input becomes the
/// trimmed collection override, and the route options open.
pub open spec fn route_collection_submitted(a: WizardApp, b: WizardApp) -> bool {
    let sel = b.route_selection;
    &&& if trim(a.input@).len() == 0 {
        sel == a.route_selection
    } else {
        &&& sel == (RouteSelection { collection_name: sel.collection_name, ..a.route_selection })
        &&& sel.collection_name matches Some(name) && name@ == trim(a.input@)
    }
    &&& transitioned(WizardApp { route_selection: sel, ..a }, b, Screen::RouteOptions)
}

/// `b` is `a` after a key press on the SQL collection input.
pub open spec fn route_collection_key(a: WizardApp, b: WizardApp, key: Key) -> bool {
    if key == Key::Esc {
        b == (WizardApp { done: true, ..a })
    } else if key == Key::Left || key == Key::Backspace || key is Char {
        input_or_back(a, b, key, true)
    } else if key == Key::Enter {
        route_collection_submitted(a, b)
    } else {
        b == a
    }
}

impl RouteCollectionInput {
    /// Loads the collection override, or the route's stripped leaf, or `items`.
    pub fn enter(&self, app: &mut WizardApp)
        ensures
            route_collection_entered(*old(app), *final(app)),
    {
        let route = chars_of(app.route_selection.route.as_str());
        app.input = string_of(&sql_collection_exec(&app.route_selection, &route));
        app.status = "Enter SQL collection/table name, then press Enter".to_string();
    }

    /// Escape quits, Left (or Backspace on an empty input) returns, typing edits,
    /// Enter stores the collection and opens the route options.
    pub fn handle_key(&self, app: &mut WizardApp, key: Key)
        ensures
            route_collection_key(*old(app), *final(app), key),
    {
        if quit_on_escape(app, key) || edit_input_or_go_back(app, key) {
            return;
        }
        if key == Key::Enter {
            submit(app);
        }
    }
}

/// Stores a non-blank input, trimmed, as the collection and opens the route options.
pub fn submit(app: &mut WizardApp)
    ensures
        route_collection_submitted(*old(app), *final(app)),
{
    let t = trimmed(app.input.as_str());
    if t.len() > 0 {
        app.route_selection.collection_name = Some(string_of(&t));
    }
    app.transition_to(Screen::RouteOptions);
}

} // verus!
