use rs_mock_server::file_types::{get_file_extension, is_jgd, is_json, is_sql, is_text_file, is_toml};
use std::path::PathBuf;

use rs_mock_server::build_dyn_routes::{
    get_rest_options, is_upload_folder, parse_i32, plan_entry, plan_file_route, EntryPlan,
    FileRoute,
};
use rs_mock_server::collection_files::resolve_collections_config;
use rs_mock_server::config::{
    apply_cli_ssl_config, CollectionsConfig, Config, ServerConfig,
};
use rs_mock_server::criteria::Comparer;
use rs_mock_server::id_manager::IdType;
use rs_mock_server::link::Link;
use rs_mock_server::pages::{render_page, Pages};

#[test]
fn resolves_collection_defaults_under_mock_root() {
    let config = Config {
        server: Some(ServerConfig { folder: Some("mock-root".to_string()), ..Default::default() }),
        ..Default::default()
    };
    let resolved = resolve_collections_config(&config);
    assert_eq!(PathBuf::from(resolved.folder), PathBuf::from("mock-root").join("{collections}"));
}

#[test]
fn resolves_configured_collection_folder_under_mock_root() {
    let config = Config {
        server: Some(ServerConfig { folder: Some("mock-root".to_string()), ..Default::default() }),
        collections: Some(CollectionsConfig { folder: Some("seed-data".to_string()) }),
    };
    let resolved = resolve_collections_config(&config);
    assert_eq!(PathBuf::from(resolved.folder), PathBuf::from("mock-root").join("seed-data"));
}

#[test]
fn absolute_collection_folder_is_kept() {
    let config = Config {
        server: None,
        collections: Some(CollectionsConfig { folder: Some("/srv/seed".to_string()) }),
    };
    assert_eq!(resolve_collections_config(&config).folder, "/srv/seed");
    assert_eq!(resolve_collections_config(&Config::default()).folder, "mocks/{collections}");
}

#[test]
fn cli_ssl_options_overlay_file_config() {
    let config = Config {
        server: Some(ServerConfig { port: Some(9876), ..Default::default() }),
        ..Default::default()
    };
    let config = apply_cli_ssl_config(
        config,
        false,
        Some("localhost.pem".to_string()),
        Some("localhost-key.pem".to_string()),
    );
    let server = config.server.unwrap();
    assert_eq!(server.port, Some(9876));
    assert_eq!(server.ssl_cert, Some("localhost.pem".into()));
    assert_eq!(server.ssl_key, Some("localhost-key.pem".into()));
    assert_eq!(server.ssl, None);
}

#[test]
fn config_defaults_to_mocks_on_4520() {
    let config = Config::default();
    assert_eq!(config.get_folder(), "mocks");
    assert_eq!(config.get_port(), 4520);
}

#[test]
fn test_comparer_default() {
    assert_eq!(Comparer::default(), Comparer::Equal);
}

#[test]
fn test_comparer_try_from_valid_operators() {
    assert_eq!(Comparer::try_from("=").unwrap(), Comparer::Equal);
    assert_eq!(Comparer::try_from("!=").unwrap(), Comparer::Different);
    assert_eq!(Comparer::try_from("<>").unwrap(), Comparer::Different);
    assert_eq!(Comparer::try_from(">").unwrap(), Comparer::GreaterThan);
    assert_eq!(Comparer::try_from(">=").unwrap(), Comparer::GreaterThanOrEqual);
    assert_eq!(Comparer::try_from("<").unwrap(), Comparer::LessThan);
    assert_eq!(Comparer::try_from("<=").unwrap(), Comparer::LessThanOrEqual);
    assert_eq!(Comparer::try_from("LIKE").unwrap(), Comparer::Like);
    assert_eq!(Comparer::try_from("like").unwrap(), Comparer::Like);
    assert_eq!(Comparer::try_from("IS NULL").unwrap(), Comparer::IsNull);
    assert_eq!(Comparer::try_from("is null").unwrap(), Comparer::IsNull);
    assert_eq!(Comparer::try_from("IS NOT NULL").unwrap(), Comparer::IsNotNull);
    assert_eq!(Comparer::try_from("is not null").unwrap(), Comparer::IsNotNull);
}

#[test]
fn test_comparer_try_from_invalid_operator() {
    assert!(Comparer::try_from("invalid").is_err());
    assert!(Comparer::try_from("==").is_err());
    assert!(Comparer::try_from("").is_err());
    assert!(Comparer::try_from("null").is_err());
    assert_eq!(
        Comparer::try_from("Like"),
        Err("Invalid comparer operator: 'Like'".to_string())
    );
}

#[test]
fn new_copies_options_and_display_uses_uppercase_method() {
    let options = vec!["upload".to_string(), "download".to_string()];
    let link = Link::new("get".to_string(), "/api/users".to_string(), &options);
    assert_eq!(link.method, "get");
    assert_eq!(link.route, "/api/users");
    assert_eq!(link.options, options);
    assert_eq!(
        link.to_string(),
        r#"<li>GET <a href="/api/users" target="api_mocks">/api/users</a></li>"#
    );
}

#[test]
fn upload_folder_detection_matches_upload_marker() {
    assert!(is_upload_folder("mocks/{upload}"));
    assert!(is_upload_folder("mocks/${upload}{temp}"));
    assert!(!is_upload_folder("mocks/uploads"));
}

#[test]
fn pages_inline_routes_and_assets() {
    let mut pages = Pages::with_templates(
        "<html><script src=\"/mock-routes.js\"></script><script src=\"/scripts.js\"></script><link rel=\"stylesheet\" href=\"/styles.css\" /></html>",
        "run();",
        "body {}",
    );
    pages.push_link("POST".to_string(), "/api/users".to_string(), &["upload".to_string()]);
    assert_eq!(pages.link_list().len(), 1);
    let html = pages.render_index();
    assert!(html.contains(r#"let mock_routes = [{"method":"POST","options":["upload"],"route":"/api/users"}];"#));
    assert!(html.contains("let mock_routes ="));
    assert!(html.contains("/api/users"));
    assert!(html.contains("POST"));
    assert!(html.contains("<script type=\"text/javascript\">"));
    assert!(html.contains("<style>"));
    assert!(html.contains("run();"));
    assert!(!html.contains("<script src=\"/mock-routes.js\"></script>"));
    assert_eq!(render_page("a-x-a", "", "", ""), "a-x-a");
}

fn routes_of(route: FileRoute) -> (String, bool, Vec<String>) {
    match route {
        FileRoute::Method { method, protected, routes } => (method, protected, routes),
        other => panic!("expected a method route, got {:?}", other),
    }
}

#[test]
fn method_files_map_to_routes() {
    assert_eq!(
        routes_of(plan_file_route("/api/users", "get.json", false)),
        ("get".to_string(), false, vec!["/api/users".to_string()])
    );
    assert_eq!(
        routes_of(plan_file_route("", "get.json", false)),
        ("get".to_string(), false, vec!["/".to_string()])
    );
    assert_eq!(
        routes_of(plan_file_route("/api/users", "get{id}.json", false)),
        ("get".to_string(), false, vec!["/api/users/{id}".to_string()])
    );
    assert_eq!(
        routes_of(plan_file_route("/api/users", "get{admin}.json", false)),
        ("get".to_string(), false, vec!["/api/users/admin".to_string()])
    );
    assert_eq!(
        routes_of(plan_file_route("/api/users", "get{1-3}.json", false)).2,
        vec!["/api/users/1".to_string(), "/api/users/2".to_string(), "/api/users/3".to_string()]
    );
    assert_eq!(routes_of(plan_file_route("/a", "get{-2--1}.json", false)).2, vec!["/a/-2--1".to_string()]);
    assert_eq!(routes_of(plan_file_route("/a", "get{3-1}.json", false)).2, Vec::<String>::new());
    assert_eq!(
        routes_of(plan_file_route("/a", "$delete{x}.json", false)),
        ("delete".to_string(), true, vec!["/a/x".to_string()])
    );
    assert_eq!(routes_of(plan_file_route("/a", "options.txt", true)).1, true);
}

#[test]
fn rest_auth_and_static_files_map_to_routes() {
    match plan_file_route("/api/products", "rest{_id:int}.json", false) {
        FileRoute::Rest { route, id_key, id_type, protected } => {
            assert_eq!(route, "/api/products");
            assert_eq!(id_key, "_id");
            assert_eq!(id_type, IdType::Int);
            assert!(!protected);
        },
        other => panic!("unexpected {:?}", other),
    }
    match plan_file_route("", "$rest.json", false) {
        FileRoute::Rest { route, id_key, id_type, protected } => {
            assert_eq!(route, "/");
            assert_eq!(id_key, "id");
            assert_eq!(id_type, IdType::Uuid);
            assert!(protected);
        },
        other => panic!("unexpected {:?}", other),
    }
    match plan_file_route("/account", "{auth}.json", false) {
        FileRoute::Auth { route } => assert_eq!(route, "/account"),
        other => panic!("unexpected {:?}", other),
    }
    match plan_file_route("/api/users", "avatar.png", false) {
        FileRoute::Stream { route } => assert_eq!(route, "/api/users/avatar"),
        other => panic!("unexpected {:?}", other),
    }
    match plan_file_route("", "getter.json", false) {
        FileRoute::Stream { route } => assert_eq!(route, "/getter"),
        other => panic!("unexpected {:?}", other),
    }
}

#[test]
fn rest_descriptors_name_key_and_strategy() {
    assert_eq!(get_rest_options("uuid"), ("id".to_string(), IdType::Uuid));
    assert_eq!(get_rest_options("int"), ("id".to_string(), IdType::Int));
    assert_eq!(get_rest_options("_id"), ("_id".to_string(), IdType::Uuid));
    assert_eq!(get_rest_options("_id:uuid"), ("_id".to_string(), IdType::Uuid));
    assert_eq!(get_rest_options("_id:int"), ("_id".to_string(), IdType::Int));
    assert_eq!(get_rest_options("_id:other"), ("_id".to_string(), IdType::Uuid));
    assert_eq!(get_rest_options("a:b:c"), ("id".to_string(), IdType::Uuid));
}

#[test]
fn directory_entries_map_to_plans() {
    match plan_entry("", "$admin", true, false, false) {
        EntryPlan::Directory { route, protected } => {
            assert_eq!(route, "/admin");
            assert!(protected);
        },
        other => panic!("unexpected {:?}", other),
    }
    match plan_entry("/api", "public-assets", true, false, false) {
        EntryPlan::Public { name } => assert_eq!(name, "public-assets"),
        other => panic!("unexpected {:?}", other),
    }
    match plan_entry("/api", "${upload}{temp}-files", true, false, false) {
        EntryPlan::Upload { temporary, route } => {
            assert!(temporary);
            assert_eq!(route, "files");
        },
        other => panic!("unexpected {:?}", other),
    }
    match plan_entry("/api", "{upload}", true, false, false) {
        EntryPlan::Upload { temporary, route } => {
            assert!(!temporary);
            assert_eq!(route, "upload");
        },
        other => panic!("unexpected {:?}", other),
    }
    assert!(matches!(plan_entry("/api", ".hidden", false, true, false), EntryPlan::Skip));
    assert!(matches!(plan_entry("/api", "get.json", false, true, false), EntryPlan::File(_)));
    assert!(matches!(plan_entry("/api", "x", false, false, false), EntryPlan::Skip));
}

#[test]
fn integers_parse_like_std() {
    let chars = |s: &str| s.chars().collect::<Vec<char>>();
    for text in ["0", "42", "-7", "+5", "2147483647", "-2147483648", "2147483648", "", "-", "+", "1a", "007", "99999999999"] {
        assert_eq!(parse_i32(&chars(text)), text.parse::<i32>().ok(), "{text}");
    }
}

#[test]
fn file_type_helpers_detect_supported_extensions() {
    assert_eq!(get_file_extension("data.json"), "json");
    assert_eq!(get_file_extension("README"), "");
    assert!(is_text_file("data.json"));
    assert!(is_text_file("data.jgd"));
    assert!(is_text_file("query.sql"));
    assert!(is_json("data.json"));
    assert!(is_jgd("data.jgd"));
    assert!(is_sql("query.sql"));
    assert!(is_toml("config.toml"));
    assert!(!is_text_file("image.png"));
}

#[test]
fn pages_list_pushed_links_in_order() {
    let mut pages = Pages::with_templates("<script src=\"/scripts.js\"></script>", "", "");
    assert!(pages.render_index().contains("let mock_routes = [];"));
    pages.push_link("get".to_string(), "/a".to_string(), &[]);
    pages.push_link("post".to_string(), "/b".to_string(), &["upload".to_string(), "x\"y".to_string()]);
    let html = pages.render_index();
    assert!(html.contains(
        r#"let mock_routes = [{"method":"get","options":[],"route":"/a"},{"method":"post","options":["upload","x\"y"],"route":"/b"}];"#
    ));
}

#[test]
fn root_files_and_public_lookalikes_follow_the_folder_rule() {
    match plan_entry("", "logo.svg", false, true, false) {
        EntryPlan::File(FileRoute::Stream { route }) => assert_eq!(route, "/logo"),
        other => panic!("unexpected {:?}", other),
    }
    match plan_entry("", "publications", true, false, false) {
        EntryPlan::Directory { route, protected } => {
            assert_eq!(route, "/publications");
            assert!(!protected);
        },
        other => panic!("unexpected {:?}", other),
    }
    match plan_entry("", "public", true, false, false) {
        EntryPlan::Public { name } => assert_eq!(name, "public"),
        other => panic!("unexpected {:?}", other),
    }
    match plan_entry("", "$public-static", true, false, false) {
        EntryPlan::Public { name } => assert_eq!(name, "public-static"),
        other => panic!("unexpected {:?}", other),
    }
}
