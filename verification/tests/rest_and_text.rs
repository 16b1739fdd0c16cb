use rs_mock_server::collection_files::collection_name_from_path;
use rs_mock_server::file_types::{file_stem, get_file_extension, is_jgd, is_json, is_sql, is_text_file, is_toml};
use rs_mock_server::generator::domain::{WriteOperation, WritePlan};
use rs_mock_server::generator::tui::app::WizardApp;
use rs_mock_server::generator::tui::components::common::menu_rows;
use rs_mock_server::generator::tui::components::field_edit::dialog_lines;
use rs_mock_server::generator::tui::components::review::review_lines;
use rs_mock_server::generator::tui::components::{file_type, route_kind, top_menu};
use rs_mock_server::generator::domain::RouteKind;
use rs_mock_server::id_manager::IdType;
use rs_mock_server::in_memory_collection::InMemoryCollection;
use rs_mock_server::json_value::{Json, JsonNumber};
use rs_mock_server::rest::{build_item_route, handle_rest, RestRequest};
use rs_mock_server::text::{lines_of, replace_str};

fn json_of_value(v: serde_json::Value) -> Json {
    match v {
        serde_json::Value::Null => Json::Null,
        serde_json::Value::Bool(b) => Json::Bool(b),
        serde_json::Value::Number(n) => Json::Number(JsonNumber { text: n.to_string(), unsigned: n.as_u64() }),
        serde_json::Value::String(s) => Json::Str(s),
        serde_json::Value::Array(items) => Json::Array(items.into_iter().map(json_of_value).collect()),
        serde_json::Value::Object(map) => Json::Object(map.into_iter().map(|(k, v)| (k, json_of_value(v))).collect()),
    }
}

fn text_of(j: &Json, key: &str) -> Option<String> {
    match j {
        Json::Object(fields) => fields.iter().find(|(k, _)| k == key).and_then(|(_, v)| match v {
            Json::Str(s) => Some(s.clone()),
            Json::Number(n) => Some(n.text.clone()),
            _ => None,
        }),
        _ => None,
    }
}

#[test]
fn extensions_follow_path_rules() {
    assert_eq!(get_file_extension("mocks/api/get.json"), "json");
    assert_eq!(get_file_extension("mocks/.gitignore"), "");
    assert_eq!(get_file_extension("archive.tar.gz"), "gz");
    assert_eq!(get_file_extension("mocks/dir/"), "");
    assert_eq!(get_file_extension("mocks/file."), "");
    assert_eq!(get_file_extension(".."), "");
    assert!(is_text_file("a/b.md"));
    assert!(is_text_file("a/b.sql"));
    assert!(!is_text_file("a/b.png"));
    assert!(is_json("x.json") && is_jgd("x.jgd") && is_sql("x.sql") && is_toml("x.toml"));
    assert!(!is_json("x.jsonl"));
    assert_eq!(file_stem("seeds/users.json"), Some("users".to_string()));
    assert_eq!(file_stem("seeds/.hidden"), Some(".hidden".to_string()));
    assert_eq!(file_stem("/"), None);
}

#[test]
fn extensions_match_std_paths() {
    for path in ["a/b.c", "a/.b", "a/b.", "b", "", "a/./b.x", "a/b/..", "./x.y", "a//b.z", "a.b/c"] {
        let expected = std::path::Path::new(path)
            .extension()
            .and_then(|e| e.to_str())
            .unwrap_or_default()
            .to_string();
        assert_eq!(get_file_extension(path), expected, "{path}");
        let stem = std::path::Path::new(path).file_stem().and_then(|s| s.to_str()).map(|s| s.to_string());
        assert_eq!(file_stem(path), stem, "{path}");
    }
}

#[test]
fn collection_names_come_from_file_stems() {
    assert_eq!(collection_name_from_path("mocks/{collections}/users.json"), Ok("users".to_string()));
    assert_eq!(
        collection_name_from_path("mocks/ .json"),
        Err("Invalid collection file name: mocks/ .json".to_string())
    );
}

#[test]
fn rest_routes_answer_like_the_collection() {
    let mut collection = InMemoryCollection::new(IdType::Int, "id".to_string(), None);
    let created = handle_rest(
        &mut collection,
        RestRequest::Create(json_of_value(serde_json::from_str(r#"{"name": "a"}"#).unwrap())),
    );
    assert_eq!(created.status, 201);
    assert_eq!(text_of(created.body.as_ref().unwrap(), "id"), Some("1".to_string()));
    let read = handle_rest(&mut collection, RestRequest::Get("1".to_string()));
    assert_eq!(read.status, 200);
    assert_eq!(text_of(read.body.as_ref().unwrap(), "name"), Some("a".to_string()));
    let list = handle_rest(&mut collection, RestRequest::List);
    assert_eq!(list.status, 200);
    assert!(matches!(list.body, Some(Json::Array(ref items)) if items.len() == 1));
    let patched = handle_rest(
        &mut collection,
        RestRequest::Patch("1".to_string(), json_of_value(serde_json::from_str(r#"{"name": "b"}"#).unwrap())),
    );
    assert_eq!(patched.status, 200);
    assert_eq!(text_of(patched.body.as_ref().unwrap(), "name"), Some("b".to_string()));
    let missing = handle_rest(&mut collection, RestRequest::Replace("9".to_string(), Json::Null));
    assert_eq!(missing.status, 404);
    assert!(missing.body.is_none());
    let deleted = handle_rest(&mut collection, RestRequest::Delete("1".to_string()));
    assert_eq!(deleted.status, 200);
    assert_eq!(handle_rest(&mut collection, RestRequest::Get("1".to_string())).status, 404);
    let mut plain = InMemoryCollection::new(IdType::NoId, "id".to_string(), None);
    let refused = handle_rest(&mut plain, RestRequest::Create(Json::Object(vec![])));
    assert_eq!(refused.status, 400);
    assert_eq!(build_item_route("/api/users", "id"), "/api/users/{id}");
}

#[test]
fn text_helpers_follow_std() {
    for text in ["", "a", "a\n", "a\r\nb", "a\n\nb\n", "x\r", "\n"] {
        let expected: Vec<Vec<char>> = text.lines().map(|l| l.chars().collect()).collect();
        assert_eq!(lines_of(&text.chars().collect()), expected, "{text:?}");
    }
    assert_eq!(replace_str("aaa", "aa", "b"), "aaa".replace("aa", "b"));
    assert_eq!(replace_str("xyx", "x", ""), "y");
}

#[test]
fn review_lines_show_plan_and_content() {
    let plan = WritePlan {
        operations: vec![
            WriteOperation::file("file.json".to_string(), "one\ntwo\nthree".to_string()),
            WriteOperation::directory("dir".to_string()),
        ],
    };
    let lines = review_lines(false, &plan);
    assert_eq!(
        lines,
        vec![
            "Force overwrite: false".to_string(),
            "file file.json".to_string(),
            "  one".to_string(),
            "  two".to_string(),
            "  three".to_string(),
            "dir dir".to_string(),
        ]
    );
}

#[test]
fn menus_mark_the_selected_row() {
    assert_eq!(menu_rows(&top_menu::labels(), 1)[1], "> Generate Main Configuration");
    assert_eq!(menu_rows(&route_kind::labels(), 0)[6], "  SQL");
    assert_eq!(file_type::labels(RouteKind::Basic).len(), 3);
    assert_eq!(file_type::labels(RouteKind::Rest).len(), 2);
}

#[test]
fn field_dialog_lines_mark_the_id_field() {
    let mut app = WizardApp::new("mocks");
    app.editing_field_index = Some(0);
    app.input = "id".to_string();
    let lines = dialog_lines(&app);
    assert!(lines.contains(&"ID field: true".to_string()));
    assert_eq!(lines[0], "Name: id");
    assert_eq!(lines[1], "Type: String");
}
