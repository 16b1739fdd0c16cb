//! The mock folder input of the main configuration.

use vstd::prelude::*;

use crate::generator::domain::MainConfigSelection;
use crate::generator::tui::app::{transitioned, Key, Screen, WizardApp};
use crate::generator::tui::components::common::{edit_input_or_go_back, input_or_back, quit_on_escape};
use crate::text::trim;

verus! {

/// The mock folder input component.
pub struct MainConfigInput;

/// `b` is `a` after entering the mock folder input: the input shows the folder.
pub open spec fn main_config_entered(a: WizardApp, b: WizardApp) -> bool {
    &&& b == (WizardApp { input: b.input, status: b.status, ..a })
    &&& b.input@ == a.main_config_selection.folder@
    &&& b.status@ == "Edit mock folder, then press Enter"@
}

/// `b` is `a` once the folder is submitted: a non-blank input becomes the
/// trimmed folder, and the review opens.
pub open spec fn main_config_submitted(a: WizardApp, b: WizardApp) -> bool {
    let blank = trim(a.input@).len() == 0;
    let sel = if blank {
        a.main_config_selection
    } else {
        MainConfigSelection { folder: b.main_config_selection.folder, ..a.main_config_selection }
    };
    &&& !blank ==> b.main_config_selection.folder@ == trim(a.input@)
    &&& transitioned(WizardApp { main_config_selection: sel, ..a }, b, Screen::Review)
}

/// `b` is `a` after a key press on the mock folder input.
pub open spec fn main_config_key(a: WizardApp, b: WizardApp, key: Key) -> bool {
    if key == Key::Esc {
        b == (WizardApp { done: true, ..a })
    } else if key == Key::Left || key == Key::Backspace || key is Char {
        input_or_back(a, b, key, true)
    } else if key == Key::Enter {
        main_config_submitted(a, b)
    } else {
        b == a
    }
}

impl MainConfigInput {
    /// Loads the current folder into the input.
    pub fn enter(&self, app: &mut WizardApp)
        ensures
            main_config_entered(*old(app), *final(app)),
    {
        app.input = app.main_config_selection.folder.clone();
        app.status = "Edit mock folder, then press Enter".to_string();
    }

    /// Escape quits, Left (or Backspace on an empty input) returns, typing edits,
    /// Enter stores the folder and opens the review.
    pub fn handle_key(&self, app: &mut WizardApp, key: Key)
        ensures
            main_config_key(*old(app), *final(app), key),
    {
        if quit_on_escape(app, key) || edit_input_or_go_back(app, key) {
            return;
        }
        if key == Key::Enter {
            app.update_config_folder();
            app.transition_to(Screen::Review);
        }
    }
}

} // verus!
