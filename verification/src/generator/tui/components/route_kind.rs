//! The route kind menu.

use vstd::prelude::*;

use crate::generator::domain::RouteSelection;
use crate::generator::tui::app::{
    route_kind_from_index, route_kind_of_index, transitioned, went_back, Key, Screen, WizardApp,
};
use crate::generator::tui::components::common::{
    go_back, is_back_key, is_move_key, move_menu, moved_index, quit_on_escape,
};

verus! {

/// The route kind menu component.
pub struct RouteKindMenu;

/// Rows of the route kind menu, in the order of [`route_kind_of_index`].
pub open spec fn route_kind_labels() -> Seq<Seq<char>> {
    seq!["Basic"@, "REST"@, "Auth"@, "Upload"@, "Public"@, "GraphQL"@, "SQL"@]
}

/// `b` is `a` after a key press on the route kind menu.
pub open spec fn route_kind_key(a: WizardApp, b: WizardApp, key: Key) -> bool {
    if key == Key::Esc {
        b == (WizardApp { done: true, ..a })
    } else if is_back_key(key) {
        went_back(a, b)
    } else if is_move_key(key) {
        b == (WizardApp { menu_index: moved_index(a.menu_index, key, 6), ..a })
    } else if key == Key::Enter {
        transitioned(
            WizardApp {
                route_selection: RouteSelection {
                    kind: route_kind_of_index(a.menu_index),
                    ..a.route_selection
                },
                ..a
            },
            b,
            Screen::RoutePath,
        )
    } else {
        b == a
    }
}

impl RouteKindMenu {
    /// Selects the first row.
    pub fn enter(&self, app: &mut WizardApp)
        ensures
            *final(app) == (WizardApp { menu_index: 0, ..*old(app) }),
    {
        app.menu_index = 0;
    }

    /// Escape quits, a back key returns, Up/Down move, Enter picks the kind and
    /// asks for the route path.
    pub fn handle_key(&self, app: &mut WizardApp, key: Key)
        requires
            old(app).menu_index < usize::MAX,
        ensures
            route_kind_key(*old(app), *final(app), key),
    {
        if quit_on_escape(app, key) || go_back(app, key) || move_menu(app, key, 6) {
            return;
        }
        if key == Key::Enter {
            app.route_selection.kind = route_kind_from_index(app.menu_index);
            app.transition_to(Screen::RoutePath);
        }
    }
}


/// Rows of the route kind menu.
pub fn labels() -> (labels: Vec<&'static str>)
    ensures
        labels@.map_values(|s: &str| s@) == route_kind_labels(),
{
    let mut labels: Vec<&'static str> = Vec::new();
    labels.push("Basic");
    labels.push("REST");
    labels.push("Auth");
    labels.push("Upload");
    labels.push("Public");
    labels.push("GraphQL");
    labels.push("SQL");
    assert(labels@.map_values(|s: &str| s@) =~= route_kind_labels());
    labels
}

} // verus!
