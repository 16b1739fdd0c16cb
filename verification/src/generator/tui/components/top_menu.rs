//! The top menu: generate a route, generate the main configuration, or exit.

use vstd::prelude::*;

use crate::generator::domain::GeneratorFlow;
use crate::generator::tui::app::{transitioned, Key, Screen, WizardApp};
use crate::generator::tui::components::common::{is_move_key, move_menu, moved_index, quit_on_escape};

verus! {

/// The top menu component.
pub struct TopMenu;

/// Rows of the top menu.
pub open spec fn top_menu_labels() -> Seq<Seq<char>> {
    seq!["Generate Route"@, "Generate Main Configuration"@, "Exit"@]
}

/// Status shown on the top menu: the pending status, else the prompt.
pub open spec fn top_menu_status(last_status: Option<String>) -> Seq<char> {
    match last_status {
        Some(s) => s@,
        None => "Select what to generate"@,
    }
}

/// `b` is `a` after entering the top menu: the first row is selected and the
/// pending status, if any, is shown once.
pub open spec fn top_menu_entered(a: WizardApp, b: WizardApp) -> bool {
    &&& b == (WizardApp { menu_index: 0, status: b.status, last_status: None, ..a })
    &&& b.status@ == top_menu_status(a.last_status)
}

/// `b` is `a` after a key press on the top menu.
pub open spec fn top_menu_key(a: WizardApp, b: WizardApp, key: Key) -> bool {
    if key == Key::Esc {
        b == (WizardApp { done: true, ..a })
    } else if is_move_key(key) {
        b == (WizardApp { menu_index: moved_index(a.menu_index, key, 2), ..a })
    } else if key == Key::Enter {
        if a.menu_index == 0 {
            transitioned(
                WizardApp { selected_flow: Some(GeneratorFlow::Route), ..a },
                b,
                Screen::RouteKind,
            )
        } else if a.menu_index == 1 {
            transitioned(
                WizardApp { selected_flow: Some(GeneratorFlow::MainConfig), ..a },
                b,
                Screen::MainConfig,
            )
        } else {
            b == (WizardApp { done: true, ..a })
        }
    } else {
        b == a
    }
}

impl TopMenu {
    /// Selects the first row and shows the pending status once, or the prompt.
    pub fn enter(&self, app: &mut WizardApp)
        ensures
            top_menu_entered(*old(app), *final(app)),
    {
        app.menu_index = 0;
        app.status = match app.last_status.take() {
            Some(s) => s,
            None => "Select what to generate".to_string(),
        };
    }

    /// Escape quits, Up/Down move, Enter starts the selected flow or exits.
    pub fn handle_key(&self, app: &mut WizardApp, key: Key)
        requires
            old(app).menu_index < usize::MAX,
        ensures
            top_menu_key(*old(app), *final(app), key),
    {
        if quit_on_escape(app, key) || move_menu(app, key, 2) {
            return;
        }
        if key == Key::Enter {
            if app.menu_index == 0 {
                app.selected_flow = Some(GeneratorFlow::Route);
                app.transition_to(Screen::RouteKind);
            } else if app.menu_index == 1 {
                app.selected_flow = Some(GeneratorFlow::MainConfig);
                app.transition_to(Screen::MainConfig);
            } else {
                app.finish();
            }
        }
    }

}


/// Rows of the top menu.
pub fn labels() -> (labels: Vec<&'static str>)
    ensures
        labels@.map_values(|s: &str| s@) == top_menu_labels(),
{
    let mut labels: Vec<&'static str> = Vec::new();
    labels.push("Generate Route");
    labels.push("Generate Main Configuration");
    labels.push("Exit");
    assert(labels@.map_values(|s: &str| s@) =~= top_menu_labels());
    labels
}

} // verus!
