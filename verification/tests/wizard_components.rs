use rs_mock_server::generator::domain::{
    FieldKind, GeneratedFileType, GeneratorFlow, RouteKind, WriteOperation, WritePlan,
};
use rs_mock_server::generator::tui::app::{Key, Screen, WizardApp};
use rs_mock_server::generator::tui::components::common::{
    edit_input, edit_input_or_go_back, move_menu, quit_on_escape,
};
use rs_mock_server::generator::tui::components::field_edit::{dialog_lines, FieldEdit};
use rs_mock_server::generator::tui::components::field_editor::{field_items, FieldEditor};
use rs_mock_server::generator::tui::components::file_type::FileTypeMenu;
use rs_mock_server::generator::tui::components::main_config::MainConfigInput;
use rs_mock_server::generator::tui::components::review::{review_lines, Review};
use rs_mock_server::generator::tui::components::route_collection::RouteCollectionInput;
use rs_mock_server::generator::tui::components::route_kind::RouteKindMenu;
use rs_mock_server::generator::tui::components::route_options::RouteOptions;
use rs_mock_server::generator::tui::components::route_path::RoutePathInput;
use rs_mock_server::generator::tui::components::top_menu::TopMenu;
use rs_mock_server::id_manager::IdType;

// ---- common ----

#[test]
fn move_menu_bounds_selection() {
    let mut app = WizardApp::new("mocks");
    app.menu_index = 1;
    assert!(move_menu(&mut app, Key::Up, 2));
    assert_eq!(app.menu_index, 0);
    assert!(move_menu(&mut app, Key::Up, 2));
    assert_eq!(app.menu_index, 0);
    assert!(move_menu(&mut app, Key::Down, 1));
    assert_eq!(app.menu_index, 1);
    assert!(move_menu(&mut app, Key::Down, 1));
    assert_eq!(app.menu_index, 1);
}

#[test]
fn edit_input_keeps_printable_back_key_as_text() {
    let mut app = WizardApp::new("mocks");
    assert!(edit_input(&mut app, Key::Char('b')));
    assert_eq!(app.input, "b");
}

#[test]
fn edit_input_or_go_back_uses_left_as_back() {
    let mut app = WizardApp::new("mocks");
    app.transition_to(Screen::RouteKind);
    app.transition_to(Screen::RoutePath);
    app.input = "/api/users".to_string();
    assert!(edit_input_or_go_back(&mut app, Key::Left));
    assert_eq!(app.screen, Screen::RouteKind);
}

#[test]
fn escape_marks_app_done() {
    let mut app = WizardApp::new("mocks");
    assert!(quit_on_escape(&mut app, Key::Esc));
    assert!(app.done);
}

// ---- field edit ----

#[test]
fn tab_cycles_field_kind_without_editing_name() {
    let mut app = WizardApp::new("mocks");
    app.editing_field_kind = FieldKind::String;
    app.input = "name".to_string();
    FieldEdit.handle_key(&mut app, Key::Tab);
    assert_eq!(app.input, "name");
    assert_eq!(app.editing_field_kind, FieldKind::Integer);
}

#[test]
fn printable_char_updates_editing_name() {
    let mut app = WizardApp::new("mocks");
    app.input = "name".to_string();
    FieldEdit.handle_key(&mut app, Key::Char('2'));
    assert_eq!(app.editing_field_name, "name2");
}

#[test]
fn escape_cancels_to_field_editor() {
    let mut app = WizardApp::new("mocks");
    app.transition_to(Screen::FieldEdit);
    FieldEdit.handle_key(&mut app, Key::Esc);
    assert_eq!(app.screen, Screen::FieldEditor);
}

#[test]
fn lines_marks_current_id_field() {
    let mut app = WizardApp::new("mocks");
    app.editing_field_index = Some(0);
    app.input = "id".to_string();
    let text = dialog_lines(&app);
    assert!(text.contains(&"ID field: true".to_string()));
}

// ---- field editor ----

#[test]
fn down_moves_selected_field() {
    let mut app = WizardApp::new("mocks");
    FieldEditor.handle_key(&mut app, Key::Down);
    assert_eq!(app.field_index, 1);
}

#[test]
fn add_field_selects_new_field() {
    let mut app = WizardApp::new("mocks");
    let original_len = app.route_selection.fields.len();
    FieldEditor.handle_key(&mut app, Key::Char('a'));
    assert_eq!(app.route_selection.fields.len(), original_len + 1);
    assert_eq!(app.field_index, original_len);
}

#[test]
fn remove_selected_id_field_repairs_id_metadata() {
    let mut app = WizardApp::new("mocks");
    FieldEditor.handle_key(&mut app, Key::Char('r'));
    assert_ne!(app.route_selection.id_key, "id");
    assert_eq!(app.route_selection.id_type, IdType::NoId);
}

#[test]
fn cycle_selected_field_type_updates_id_metadata() {
    let mut app = WizardApp::new("mocks");
    FieldEditor.handle_key(&mut app, Key::Char('i'));
    assert_eq!(app.route_selection.fields[0].kind, FieldKind::String);
    assert_eq!(app.route_selection.id_type, IdType::NoId);
}

#[test]
fn edit_key_opens_field_edit_screen() {
    let mut app = WizardApp::new("mocks");
    FieldEditor.handle_key(&mut app, Key::Char('e'));
    assert_eq!(app.screen, Screen::FieldEdit);
}

#[test]
fn enter_opens_review_screen() {
    let mut app = WizardApp::new("mocks");
    FieldEditor.handle_key(&mut app, Key::Enter);
    assert_eq!(app.screen, Screen::Review);
}

#[test]
fn field_items_marks_selected_row() {
    let mut app = WizardApp::new("mocks");
    app.field_index = 1;
    let items = field_items(&app);
    assert!(items[1].contains("> description"));
}

// ---- file type ----

#[test]
fn selecting_jgd_opens_field_editor() {
    let mut app = WizardApp::new("mocks");
    app.menu_index = 1;
    FileTypeMenu.handle_key(&mut app, Key::Enter);
    assert_eq!(app.route_selection.file_type, GeneratedFileType::Jgd);
    assert_eq!(app.screen, Screen::FieldEditor);
}

#[test]
fn selecting_text_opens_review() {
    let mut app = WizardApp::new("mocks");
    app.menu_index = 2;
    FileTypeMenu.handle_key(&mut app, Key::Enter);
    assert_eq!(app.route_selection.file_type, GeneratedFileType::Text);
    assert_eq!(app.screen, Screen::Review);
}

#[test]
fn left_goes_back_to_route_options() {
    let mut app = WizardApp::new("mocks");
    app.transition_to(Screen::RoutePath);
    app.transition_to(Screen::RouteOptions);
    app.transition_to(Screen::RouteFileType);
    FileTypeMenu.handle_key(&mut app, Key::Left);
    assert_eq!(app.screen, Screen::RouteOptions);
}

// ---- main configuration ----

#[test]
fn printable_key_edits_folder_input() {
    let mut app = WizardApp::new("mocks");
    app.input = "mock".to_string();
    MainConfigInput.handle_key(&mut app, Key::Char('s'));
    assert_eq!(app.input, "mocks");
}

#[test]
fn submit_updates_folder_and_opens_review() {
    let mut app = WizardApp::new("mocks");
    app.input = "fixtures".to_string();
    MainConfigInput.handle_key(&mut app, Key::Enter);
    assert_eq!(app.main_config_selection.folder, "fixtures");
    assert_eq!(app.screen, Screen::Review);
}

#[test]
fn main_config_left_returns_to_top_menu() {
    let mut app = WizardApp::new("mocks");
    app.transition_to(Screen::MainConfig);
    MainConfigInput.handle_key(&mut app, Key::Left);
    assert_eq!(app.screen, Screen::TopMenu);
}

// ---- review ----

#[test]
fn review_lines_include_full_file_content() {
    let mut app = WizardApp::new("mocks");
    app.plan = WritePlan {
        operations: vec![WriteOperation::file(
            "file.json".to_string(),
            "one\ntwo\nthree".to_string(),
        )],
    };
    let text = review_lines(app.force, &app.plan);
    assert!(text.contains(&"  one".to_string()));
    assert!(text.contains(&"  two".to_string()));
    assert!(text.contains(&"  three".to_string()));
}

#[test]
fn down_and_up_adjust_review_scroll() {
    let mut app = WizardApp::new("mocks");
    Review.handle_key(&mut app, Key::Down);
    Review.handle_key(&mut app, Key::Down);
    assert_eq!(app.review_scroll, 2);
    Review.handle_key(&mut app, Key::Up);
    assert_eq!(app.review_scroll, 1);
}

#[test]
fn force_key_toggles_force_status() {
    let mut app = WizardApp::new("mocks");
    Review.handle_key(&mut app, Key::Char('f'));
    assert!(app.force);
    assert_eq!(app.status, "Force overwrite: true");
}

// ---- route collection ----

#[test]
fn left_returns_to_route_path() {
    let mut app = WizardApp::new("mocks");
    app.transition_to(Screen::RoutePath);
    app.transition_to(Screen::RouteCollection);
    RouteCollectionInput.handle_key(&mut app, Key::Left);
    assert_eq!(app.screen, Screen::RoutePath);
}

// ---- route kind ----

#[test]
fn down_moves_until_last_route_kind() {
    let mut app = WizardApp::new("mocks");
    for _ in 0..10 {
        RouteKindMenu.handle_key(&mut app, Key::Down);
    }
    assert_eq!(app.menu_index, 6);
}

#[test]
fn selecting_graphql_opens_route_path() {
    let mut app = WizardApp::new("mocks");
    app.menu_index = 5;
    RouteKindMenu.handle_key(&mut app, Key::Enter);
    assert_eq!(app.route_selection.kind, RouteKind::Graphql);
    assert_eq!(app.screen, Screen::RoutePath);
}

#[test]
fn route_kind_left_returns_to_top_menu() {
    let mut app = WizardApp::new("mocks");
    app.transition_to(Screen::RouteKind);
    RouteKindMenu.handle_key(&mut app, Key::Left);
    assert_eq!(app.screen, Screen::TopMenu);
}

// ---- route options ----

#[test]
fn basic_space_cycles_method_before_protection() {
    let mut app = WizardApp::new("mocks");
    app.route_selection.kind = RouteKind::Basic;
    RouteOptions.enter(&mut app);
    RouteOptions.handle_key(&mut app, Key::Char(' '));
    assert_eq!(app.route_selection.method, "post");
}

#[test]
fn basic_second_row_toggles_protection() {
    let mut app = WizardApp::new("mocks");
    app.route_selection.kind = RouteKind::Basic;
    app.menu_index = 1;
    RouteOptions.handle_key(&mut app, Key::Char(' '));
    assert!(app.route_selection.protected);
}

#[test]
fn rest_space_cycles_id_type() {
    let mut app = WizardApp::new("mocks");
    app.route_selection.kind = RouteKind::Rest;
    RouteOptions.handle_key(&mut app, Key::Char(' '));
    assert_eq!(app.route_selection.id_type, IdType::Int);
}

#[test]
fn upload_first_row_toggles_temporary_only() {
    let mut app = WizardApp::new("mocks");
    app.route_selection.kind = RouteKind::Upload;
    RouteOptions.handle_key(&mut app, Key::Char(' '));
    assert!(app.route_selection.temporary_upload);
    assert!(!app.route_selection.protected);
}

#[test]
fn upload_second_row_toggles_protection() {
    let mut app = WizardApp::new("mocks");
    app.route_selection.kind = RouteKind::Upload;
    app.menu_index = 1;
    RouteOptions.handle_key(&mut app, Key::Char(' '));
    assert!(app.route_selection.protected);
}

#[test]
fn graphql_enter_opens_file_type() {
    let mut app = WizardApp::new("mocks");
    app.route_selection.kind = RouteKind::Graphql;
    RouteOptions.handle_key(&mut app, Key::Enter);
    assert_eq!(app.screen, Screen::RouteFileType);
}

#[test]
fn sql_enter_opens_review() {
    let mut app = WizardApp::new("mocks");
    app.route_selection.kind = RouteKind::Sql;
    RouteOptions.handle_key(&mut app, Key::Enter);
    assert_eq!(app.screen, Screen::Review);
}

#[test]
fn left_returns_to_previous_screen() {
    let mut app = WizardApp::new("mocks");
    app.route_selection.kind = RouteKind::Sql;
    app.transition_to(Screen::RouteCollection);
    app.transition_to(Screen::RouteOptions);
    RouteOptions.handle_key(&mut app, Key::Left);
    assert_eq!(app.screen, Screen::RouteCollection);
}

// ---- route path ----

#[test]
fn printable_key_edits_route_input() {
    let mut app = WizardApp::new("mocks");
    app.input = "/api/user".to_string();
    RoutePathInput.handle_key(&mut app, Key::Char('s'));
    assert_eq!(app.input, "/api/users");
}

#[test]
fn submit_basic_route_goes_to_options() {
    let mut app = WizardApp::new("mocks");
    app.route_selection.kind = RouteKind::Basic;
    app.input = "api/users".to_string();
    RoutePathInput.handle_key(&mut app, Key::Enter);
    assert_eq!(app.route_selection.route, "/api/users");
    assert_eq!(app.screen, Screen::RouteOptions);
}

#[test]
fn submit_upload_route_goes_to_options() {
    let mut app = WizardApp::new("mocks");
    app.route_selection.kind = RouteKind::Upload;
    RoutePathInput.handle_key(&mut app, Key::Enter);
    assert_eq!(app.screen, Screen::RouteOptions);
}

// ---- top menu ----

#[test]
fn selecting_route_starts_route_flow() {
    let mut app = WizardApp::new("mocks");
    TopMenu.handle_key(&mut app, Key::Enter);
    assert_eq!(app.selected_flow, Some(GeneratorFlow::Route));
    assert_eq!(app.screen, Screen::RouteKind);
}

#[test]
fn selecting_main_config_starts_config_flow() {
    let mut app = WizardApp::new("mocks");
    app.menu_index = 1;
    TopMenu.handle_key(&mut app, Key::Enter);
    assert_eq!(app.selected_flow, Some(GeneratorFlow::MainConfig));
    assert_eq!(app.screen, Screen::MainConfig);
}

#[test]
fn selecting_exit_finishes_app() {
    let mut app = WizardApp::new("mocks");
    app.menu_index = 2;
    TopMenu.handle_key(&mut app, Key::Enter);
    assert!(app.done);
}
