//! The wizard screens: what entering each one does, and how each one handles a key.

pub mod common;
pub mod field_edit;
pub mod field_editor;
pub mod file_type;
pub mod main_config;
pub mod review;
pub mod route_collection;
pub mod route_kind;
pub mod route_options;
pub mod route_path;
pub mod top_menu;

use vstd::prelude::*;

use crate::generator::domain::{GeneratedFileType, GeneratorFlow, RouteKind};
use crate::generator::tui::app::{
    needs_file_type_of, previous_screen_of, wizard_wf, Key, Screen, WizardAction, WizardApp,
};
use crate::generator::tui::components::field_edit::{field_edit_entered, field_edit_key, FieldEdit};
use crate::generator::tui::components::field_editor::{
    field_editor_entered, field_editor_key, FieldEditor,
};
use crate::generator::tui::components::file_type::{file_type_key, FileTypeMenu};
use crate::generator::tui::components::main_config::{
    main_config_entered, main_config_key, MainConfigInput,
};
use crate::generator::tui::components::review::{review_entered, review_key, Review};
use crate::generator::tui::components::route_collection::{
    route_collection_entered, route_collection_key, RouteCollectionInput,
};
use crate::generator::tui::components::route_kind::{route_kind_key, RouteKindMenu};
use crate::generator::tui::components::route_options::{
    route_options_entered, route_options_key, RouteOptions,
};
use crate::generator::tui::components::route_path::{
    route_path_entered, route_path_key, RoutePathInput,
};
use crate::generator::tui::components::top_menu::{top_menu_entered, top_menu_key, TopMenu};

verus! {

/// `b` is `a` after entering `screen`.
pub open spec fn entered(a: WizardApp, b: WizardApp, screen: Screen) -> bool {
    match screen {
        Screen::TopMenu => top_menu_entered(a, b),
        Screen::RouteKind => b == (WizardApp { menu_index: 0, ..a }),
        Screen::RoutePath => route_path_entered(a, b),
        Screen::RouteOptions => route_options_entered(a, b),
        Screen::RouteCollection => route_collection_entered(a, b),
        Screen::RouteFileType => b == (WizardApp { menu_index: 0, ..a }),
        Screen::FieldEditor => field_editor_entered(a, b),
        Screen::FieldEdit => field_edit_entered(a, b),
        Screen::MainConfig => main_config_entered(a, b),
        Screen::Review => review_entered(a, b),
    }
}

/// `b` and `action` follow from `a` and a key press on the current screen.
pub open spec fn key_handled(a: WizardApp, b: WizardApp, key: Key, action: WizardAction) -> bool {
    match a.screen {
        Screen::TopMenu => top_menu_key(a, b, key) && action == WizardAction::Continue,
        Screen::RouteKind => route_kind_key(a, b, key) && action == WizardAction::Continue,
        Screen::RoutePath => route_path_key(a, b, key) && action == WizardAction::Continue,
        Screen::RouteOptions => route_options_key(a, b, key) && action == WizardAction::Continue,
        Screen::RouteCollection => route_collection_key(a, b, key) && action
            == WizardAction::Continue,
        Screen::RouteFileType => file_type_key(a, b, key) && action == WizardAction::Continue,
        Screen::FieldEditor => field_editor_key(a, b, key) && action == WizardAction::Continue,
        Screen::FieldEdit => field_edit_key(a, b, key) && action == WizardAction::Continue,
        Screen::MainConfig => main_config_key(a, b, key) && action == WizardAction::Continue,
        Screen::Review => review_key(a, b, key, action),
    }
}

/// Enters `screen` with the component that owns it.
pub fn enter_screen(app: &mut WizardApp, screen: Screen)
    ensures
        entered(*old(app), *final(app), screen),
{
    match screen {
        Screen::TopMenu => TopMenu.enter(app),
        Screen::RouteKind => RouteKindMenu.enter(app),
        Screen::RoutePath => RoutePathInput.enter(app),
        Screen::RouteOptions => RouteOptions.enter(app),
        Screen::RouteCollection => RouteCollectionInput.enter(app),
        Screen::RouteFileType => FileTypeMenu.enter(app),
        Screen::FieldEditor => FieldEditor.enter(app),
        Screen::FieldEdit => FieldEdit.enter(app),
        Screen::MainConfig => MainConfigInput.enter(app),
        Screen::Review => Review.enter(app),
    }
}

/// Hands a key press to the component of the current screen. The result tells
/// the caller whether the reviewed plan is to be written now.
pub fn handle_key(app: &mut WizardApp, key: Key) -> (action: WizardAction)
    requires
        wizard_wf(*old(app)),
        old(app).route_selection.fields.len() < usize::MAX,
    ensures
        key_handled(*old(app), *final(app), key, action),
        wizard_wf(*final(app)),
        flow_consistent(*old(app)) ==> flow_consistent(*final(app)),
{
    let ghost a = *app;
    let action = match app.screen {
        Screen::TopMenu => {
            TopMenu.handle_key(app, key);
            WizardAction::Continue
        },
        Screen::RouteKind => {
            RouteKindMenu.handle_key(app, key);
            WizardAction::Continue
        },
        Screen::RoutePath => {
            RoutePathInput.handle_key(app, key);
            WizardAction::Continue
        },
        Screen::RouteOptions => {
            RouteOptions.handle_key(app, key);
            WizardAction::Continue
        },
        Screen::RouteCollection => {
            RouteCollectionInput.handle_key(app, key);
            WizardAction::Continue
        },
        Screen::RouteFileType => {
            FileTypeMenu.handle_key(app, key);
            WizardAction::Continue
        },
        Screen::FieldEditor => {
            FieldEditor.handle_key(app, key);
            WizardAction::Continue
        },
        Screen::FieldEdit => {
            FieldEdit.handle_key(app, key);
            WizardAction::Continue
        },
        Screen::MainConfig => {
            MainConfigInput.handle_key(app, key);
            WizardAction::Continue
        },
        Screen::Review => Review.handle_key(app, key),
    };
    proof {
        lemma_key_keeps_wf(a, *app, key, action);
        if flow_consistent(a) {
            lemma_key_keeps_flow(a, *app, key, action);
        }
    }
    action
}

/// Every key press keeps the wizard state well formed: there are fields, the
/// selected field exists, the menu selection can move, and the field dialog
/// edits an existing field.
pub proof fn lemma_key_keeps_wf(a: WizardApp, b: WizardApp, key: Key, action: WizardAction)
    requires
        wizard_wf(a),
        a.route_selection.fields.len() < usize::MAX,
        key_handled(a, b, key, action),
    ensures
        wizard_wf(b),
{
    if a.screen == Screen::FieldEditor {
        crate::generator::tui::components::field_editor::lemma_field_editor_keeps_wf(a, b, key);
    }
}


/// The state agrees with the flow that led to its screen: the route screens
/// belong to the route flow, the SQL collection to SQL routes, the options to
/// kinds that have options, the file format to kinds that have one, and the
/// field editor to auth routes or to data routes with JSON or JGD content.
pub open spec fn flow_consistent(a: WizardApp) -> bool {
    let route_flow = a.selected_flow == Some(GeneratorFlow::Route);
    let kind = a.route_selection.kind;
    let file_type = a.route_selection.file_type;
    match a.screen {
        Screen::TopMenu => true,
        Screen::MainConfig => a.selected_flow == Some(GeneratorFlow::MainConfig),
        Screen::Review => route_flow || a.selected_flow == Some(GeneratorFlow::MainConfig),
        Screen::RouteKind | Screen::RoutePath => route_flow,
        Screen::RouteCollection => route_flow && kind == RouteKind::Sql,
        Screen::RouteOptions => route_flow && kind != RouteKind::Auth && kind != RouteKind::Public,
        Screen::RouteFileType => route_flow && needs_file_type_of(kind),
        Screen::FieldEditor | Screen::FieldEdit => route_flow && (kind == RouteKind::Auth || (
        needs_file_type_of(kind) && file_type != GeneratedFileType::Text && file_type
            != GeneratedFileType::Sql)),
    }
}

/// Every key press keeps the state consistent with its flow.
pub proof fn lemma_key_keeps_flow(a: WizardApp, b: WizardApp, key: Key, action: WizardAction)
    requires
        flow_consistent(a),
        key_handled(a, b, key, action),
    ensures
        flow_consistent(b),
{
    match a.screen {
        Screen::TopMenu => assert(top_menu_key(a, b, key)),
        Screen::RouteKind => assert(route_kind_key(a, b, key)),
        Screen::RoutePath => assert(route_path_key(a, b, key)),
        Screen::RouteOptions => assert(route_options_key(a, b, key)),
        Screen::RouteCollection => assert(route_collection_key(a, b, key)),
        Screen::RouteFileType => assert(file_type_key(a, b, key)),
        Screen::FieldEditor => assert(field_editor_key(a, b, key)),
        Screen::FieldEdit => assert(field_edit_key(a, b, key)),
        Screen::MainConfig => assert(main_config_key(a, b, key)),
        Screen::Review => assert(review_key(a, b, key, action)),
    }
}

/// A step forward (Enter, or `e` on the field list) followed by a step back
/// returns to the screen the step started from.
pub proof fn lemma_back_undoes_forward(a: WizardApp, b: WizardApp, key: Key, action: WizardAction)
    requires
        flow_consistent(a),
        key == Key::Enter || (a.screen == Screen::FieldEditor && key == Key::Char('e')),
        a.screen != Screen::FieldEdit,
        key_handled(a, b, key, action),
        b.screen != a.screen,
    ensures
        previous_screen_of(b) == Some(a.screen),
{
}

} // verus!
