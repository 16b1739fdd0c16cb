use std::path::PathBuf;

use rs_mock_server::generator::domain::{FieldKind, FieldSpec, GeneratorFlow, RouteKind};
use rs_mock_server::generator::tui::app::{
    file_type_from_index, next_options_screen, next_route_screen, normalize_route,
    route_kind_from_index, Key, Screen, WizardAction, WizardApp,
};
use rs_mock_server::generator::tui::components::field_edit::FieldEdit;
use rs_mock_server::generator::tui::components::field_editor::FieldEditor;
use rs_mock_server::generator::tui::components::file_type::FileTypeMenu;
use rs_mock_server::generator::tui::components::main_config::MainConfigInput;
use rs_mock_server::generator::tui::components::review::Review;
use rs_mock_server::generator::tui::components::route_collection::{submit, RouteCollectionInput};
use rs_mock_server::generator::tui::components::route_kind::RouteKindMenu;
use rs_mock_server::generator::tui::components::route_path::RoutePathInput;
use rs_mock_server::generator::tui::components::top_menu::TopMenu;
use rs_mock_server::generator::tui::components::{enter_screen, handle_key};
use rs_mock_server::generator::domain::GeneratedFileType;
use rs_mock_server::id_manager::IdType;

#[test]
fn route_kind_menu_maps_all_options() {
    assert_eq!(route_kind_from_index(0), RouteKind::Basic);
    assert_eq!(route_kind_from_index(6), RouteKind::Sql);
}

#[test]
fn normalize_route_adds_leading_slash() {
    assert_eq!(normalize_route("api/users"), "/api/users");
    assert_eq!(normalize_route("/api/users"), "/api/users");
}

#[test]
fn wizard_builds_route_write_plan() {
    let mut app = WizardApp::new("mocks");
    app.route_selection.route = "/api/users/{id}".to_string();
    app.build_route_review();
    assert_eq!(
        PathBuf::from(&app.plan.operations[0].path),
        PathBuf::from("mocks/api/users/get{id}.json")
    );
}

#[test]
fn review_screen_sets_write_status() {
    let mut app = WizardApp::new("mocks");
    app.selected_flow = Some(GeneratorFlow::MainConfig);
    app.transition_to(Screen::Review);
    assert_eq!(app.status, "Review plan, then press Enter or w to write");
    assert_eq!(app.review_scroll, 0);
}

#[test]
fn route_flow_can_go_back_to_previous_steps() {
    let mut app = WizardApp::new("mocks");
    app.transition_to(Screen::RouteKind);
    app.transition_to(Screen::RoutePath);
    app.go_back();
    assert_eq!(app.screen, Screen::RouteKind);
}

#[test]
fn route_kinds_have_different_first_screens() {
    let cases = [
        (RouteKind::Basic, Screen::RouteOptions),
        (RouteKind::Rest, Screen::RouteOptions),
        (RouteKind::Auth, Screen::FieldEditor),
        (RouteKind::Upload, Screen::RouteOptions),
        (RouteKind::Public, Screen::Review),
        (RouteKind::Graphql, Screen::RouteOptions),
        (RouteKind::Sql, Screen::RouteCollection),
    ];
    for (kind, expected) in cases {
        assert_eq!(next_route_screen(kind), expected);
    }
}

#[test]
fn route_options_open_kind_specific_next_screens() {
    let file_type_kinds = [RouteKind::Basic, RouteKind::Rest, RouteKind::Graphql];
    for kind in file_type_kinds {
        assert_eq!(next_options_screen(kind), Screen::RouteFileType);
    }
    assert_eq!(next_options_screen(RouteKind::Upload), Screen::Review);
    assert_eq!(next_options_screen(RouteKind::Sql), Screen::Review);
}

#[test]
fn review_goes_back_to_route_specific_previous_screen() {
    let cases = [
        (RouteKind::Upload, Screen::RouteOptions),
        (RouteKind::Sql, Screen::RouteOptions),
        (RouteKind::Public, Screen::RoutePath),
        (RouteKind::Auth, Screen::FieldEditor),
    ];
    for (kind, expected) in cases {
        let mut app = WizardApp::new("mocks");
        app.route_selection.kind = kind;
        app.transition_to(Screen::Review);
        app.go_back();
        assert_eq!(app.screen, expected);
    }
}

#[test]
fn review_goes_back_to_main_config_input() {
    let mut app = WizardApp::new("mocks");
    app.selected_flow = Some(GeneratorFlow::MainConfig);
    app.transition_to(Screen::Review);
    app.go_back();
    assert_eq!(app.screen, Screen::MainConfig);
}

#[test]
fn added_field_is_in_generated_review_content() {
    let mut app = WizardApp::new("mocks");
    app.route_selection.route = "/api/users".to_string();
    app.route_selection.fields.push(FieldSpec::new("external_code", FieldKind::String));
    app.build_route_review();
    let content = app.plan.operations[0].content.as_ref().unwrap();
    assert!(content.contains("\"external_code\""));
}

#[test]
fn endpoint_input_uses_left_arrow_to_go_back() {
    let mut app = WizardApp::new("mocks");
    app.transition_to(Screen::RouteKind);
    app.transition_to(Screen::RoutePath);
    app.input = "/api/users".to_string();
    handle_key(&mut app, Key::Left);
    assert_eq!(app.screen, Screen::RouteKind);
    assert_eq!(app.route_selection.route, "/api/example");
}

#[test]
fn endpoint_input_backspace_edits_until_empty_then_goes_back() {
    let mut app = WizardApp::new("mocks");
    app.transition_to(Screen::RouteKind);
    app.transition_to(Screen::RoutePath);
    app.input = "x".to_string();
    handle_key(&mut app, Key::Backspace);
    assert_eq!(app.screen, Screen::RoutePath);
    assert_eq!(app.input, "");
    handle_key(&mut app, Key::Backspace);
    assert_eq!(app.screen, Screen::RouteKind);
}

#[test]
fn field_editor_moves_selection_and_adds_selected_field() {
    let mut app = WizardApp::new("mocks");
    app.transition_to(Screen::FieldEditor);
    handle_key(&mut app, Key::Down);
    assert_eq!(app.field_index, 1);
    handle_key(&mut app, Key::Char('a'));
    assert_eq!(app.field_index, app.route_selection.fields.len() - 1);
    assert_eq!(app.route_selection.fields[5].name, "custom_field_6");
}

#[test]
fn field_editor_cycles_selected_id_field_type() {
    let mut app = WizardApp::new("mocks");
    app.transition_to(Screen::FieldEditor);
    handle_key(&mut app, Key::Char('i'));
    assert_eq!(app.route_selection.fields[0].kind, FieldKind::String);
    assert_eq!(app.route_selection.id_type, IdType::NoId);
}

#[test]
fn field_edit_saves_name_and_type() {
    let mut app = WizardApp::new("mocks");
    app.transition_to(Screen::FieldEditor);
    handle_key(&mut app, Key::Char('e'));
    app.input.clear();
    for c in "user_id".chars() {
        handle_key(&mut app, Key::Char(c));
    }
    handle_key(&mut app, Key::Tab);
    handle_key(&mut app, Key::Enter);
    assert_eq!(app.screen, Screen::FieldEditor);
    assert_eq!(app.route_selection.fields[0].name, "user_id");
    assert_eq!(app.route_selection.id_key, "user_id");
    assert_eq!(app.route_selection.fields[0].kind, FieldKind::String);
}

#[test]
fn review_screen_supports_scrolling() {
    let mut app = WizardApp::new("mocks");
    app.selected_flow = Some(GeneratorFlow::MainConfig);
    app.transition_to(Screen::Review);
    handle_key(&mut app, Key::Down);
    handle_key(&mut app, Key::Down);
    assert_eq!(app.review_scroll, 2);
    handle_key(&mut app, Key::Up);
    assert_eq!(app.review_scroll, 1);
}

#[test]
fn review_enter_asks_for_the_write() {
    let mut app = WizardApp::new("mocks");
    app.transition_to(Screen::Review);
    assert_eq!(handle_key(&mut app, Key::Enter), WizardAction::Write);
    assert_eq!(handle_key(&mut app, Key::Char('w')), WizardAction::Write);
    assert_eq!(handle_key(&mut app, Key::Down), WizardAction::Continue);
    app.complete_write();
    assert_eq!(app.screen, Screen::TopMenu);
    assert_eq!(app.status, "Files generated");
}

#[test]
fn enter_screen_dispatches_to_component_enter() {
    let mut app = WizardApp::new("mocks");
    app.menu_index = 3;
    enter_screen(&mut app, Screen::RouteKind);
    assert_eq!(app.menu_index, 0);
}

#[test]
fn handle_key_dispatches_to_current_component() {
    let mut app = WizardApp::new("mocks");
    app.screen = Screen::TopMenu;
    handle_key(&mut app, Key::Down);
    assert_eq!(app.menu_index, 1);
}

#[test]
fn enter_loads_field_name_into_input() {
    let mut app = WizardApp::new("mocks");
    app.editing_field_name = "description".to_string();
    FieldEdit.enter(&mut app);
    assert_eq!(app.input, "description");
    assert!(app.status.contains("Edit field name"));
}

#[test]
fn enter_sets_field_editor_status() {
    let mut app = WizardApp::new("mocks");
    FieldEditor.enter(&mut app);
    assert_eq!(app.status, "Edit fields or press Enter to review");
}

#[test]
fn file_type_enter_resets_menu_index() {
    let mut app = WizardApp::new("mocks");
    app.menu_index = 3;
    FileTypeMenu.enter(&mut app);
    assert_eq!(app.menu_index, 0);
}

#[test]
fn enter_loads_current_folder() {
    let mut app = WizardApp::new("mocks");
    app.main_config_selection.folder = "fixtures".to_string();
    MainConfigInput.enter(&mut app);
    assert_eq!(app.input, "fixtures");
}

#[test]
fn enter_builds_config_plan_and_resets_scroll() {
    let mut app = WizardApp::new("mocks");
    app.selected_flow = Some(GeneratorFlow::MainConfig);
    app.review_scroll = 5;
    Review.enter(&mut app);
    assert_eq!(app.review_scroll, 0);
    assert!(PathBuf::from(&app.plan.operations[0].path).ends_with("rs-mock-server.toml"));
}

#[test]
fn enter_uses_collection_override() {
    let mut app = WizardApp::new("mocks");
    app.route_selection.collection_name = Some("orders".to_string());
    RouteCollectionInput.enter(&mut app);
    assert_eq!(app.input, "orders");
}

#[test]
fn enter_falls_back_to_route_leaf() {
    let mut app = WizardApp::new("mocks");
    app.route_selection.route = "/reports/companies{id}".to_string();
    RouteCollectionInput.enter(&mut app);
    assert_eq!(app.input, "companies");
}

#[test]
fn submit_stores_collection_and_opens_options() {
    let mut app = WizardApp::new("mocks");
    app.input = "archived_orders".to_string();
    submit(&mut app);
    assert_eq!(app.route_selection.collection_name, Some("archived_orders".to_string()));
    assert_eq!(app.screen, Screen::RouteOptions);
}

#[test]
fn route_kind_enter_resets_menu_index() {
    let mut app = WizardApp::new("mocks");
    app.menu_index = 5;
    RouteKindMenu.enter(&mut app);
    assert_eq!(app.menu_index, 0);
}

#[test]
fn enter_loads_route_into_input() {
    let mut app = WizardApp::new("mocks");
    app.route_selection.route = "/api/orders".to_string();
    RoutePathInput.enter(&mut app);
    assert_eq!(app.input, "/api/orders");
}

#[test]
fn enter_consumes_last_status_once() {
    let mut app = WizardApp::new("mocks");
    app.last_status = Some("Files generated".to_string());
    TopMenu.enter(&mut app);
    assert_eq!(app.status, "Files generated");
    TopMenu.enter(&mut app);
    assert_eq!(app.status, "Select what to generate");
}

#[test]
fn selecting_graphql_opens_route_path_with_its_name() {
    let mut app = WizardApp::new("mocks");
    app.transition_to(Screen::RouteKind);
    app.menu_index = 5;
    handle_key(&mut app, Key::Enter);
    assert_eq!(app.route_selection.kind, RouteKind::Graphql);
    assert_eq!(app.screen, Screen::RoutePath);
    assert_eq!(app.input, "example");
    app.input = " /people/ ".to_string();
    handle_key(&mut app, Key::Enter);
    assert_eq!(app.route_selection.route, "/people");
    assert_eq!(app.screen, Screen::RouteOptions);
}

#[test]
fn basic_space_cycles_method_and_rows_show_it() {
    let mut app = WizardApp::new("mocks");
    app.transition_to(Screen::RouteOptions);
    handle_key(&mut app, Key::Char(' '));
    assert_eq!(app.route_selection.method, "post");
    let rows = rs_mock_server::generator::tui::components::route_options::rows(&app.route_selection);
    assert_eq!(rows, vec!["Method: POST".to_string(), "Access: public".to_string()]);
    handle_key(&mut app, Key::Down);
    handle_key(&mut app, Key::Char(' '));
    assert!(app.route_selection.protected);
}

#[test]
fn file_type_menu_picks_text_for_basic_routes() {
    let mut app = WizardApp::new("mocks");
    app.transition_to(Screen::RouteFileType);
    handle_key(&mut app, Key::Down);
    handle_key(&mut app, Key::Down);
    handle_key(&mut app, Key::Down);
    assert_eq!(app.menu_index, 2);
    handle_key(&mut app, Key::Enter);
    assert_eq!(app.route_selection.file_type, GeneratedFileType::Text);
    assert_eq!(app.screen, Screen::Review);
    assert_eq!(file_type_from_index(3), GeneratedFileType::Sql);
}

#[test]
fn removing_the_id_field_moves_the_id_to_the_selected_field() {
    let mut app = WizardApp::new("mocks");
    app.transition_to(Screen::FieldEditor);
    handle_key(&mut app, Key::Char('r'));
    assert_eq!(app.route_selection.fields.len(), 4);
    assert_eq!(app.route_selection.id_key, "description");
    assert_eq!(app.route_selection.id_type, IdType::NoId);
}

#[test]
fn escape_finishes_the_wizard() {
    let mut app = WizardApp::new("mocks");
    handle_key(&mut app, Key::Esc);
    assert!(app.done);
}
