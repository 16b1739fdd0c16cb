use std::path::PathBuf;

use rs_mock_server::generator::domain::{GeneratedFileType, RouteKind, RouteSelection};
use rs_mock_server::generator::paths::build_route_plan;
use rs_mock_server::id_manager::IdType;

fn path_of(plan: &rs_mock_server::generator::domain::WritePlan, index: usize) -> PathBuf {
    PathBuf::from(&plan.operations[index].path)
}

#[test]
fn basic_dynamic_route_maps_to_method_descriptor_file() {
    let selection = RouteSelection {
        route: "/api/users/{id}".to_string(),
        method: "get".to_string(),
        ..Default::default()
    };
    let plan = build_route_plan("mocks", &selection);
    assert_eq!(path_of(&plan, 0), PathBuf::from("mocks/api/users/get{id}.json"));
}

#[test]
fn rest_int_route_uses_rest_descriptor() {
    let selection = RouteSelection {
        kind: RouteKind::Rest,
        route: "/api/products".to_string(),
        id_key: "_id".to_string(),
        id_type: IdType::Int,
        ..Default::default()
    };
    let plan = build_route_plan("mocks", &selection);
    assert_eq!(path_of(&plan, 0), PathBuf::from("mocks/api/products/rest{_id-int}.json"));
}

#[test]
fn protected_upload_uses_existing_directory_convention() {
    let selection = RouteSelection {
        kind: RouteKind::Upload,
        route: "/api/files".to_string(),
        protected: true,
        temporary_upload: true,
        ..Default::default()
    };
    let plan = build_route_plan("mocks", &selection);
    assert_eq!(path_of(&plan, 0), PathBuf::from("mocks/api/${upload}{temp}-files"));
}

#[test]
fn sql_route_uses_leaf_as_filename() {
    let selection = RouteSelection {
        kind: RouteKind::Sql,
        route: "/reports/companies/{id}".to_string(),
        protected: true,
        ..Default::default()
    };
    let plan = build_route_plan("mocks", &selection);
    assert_eq!(path_of(&plan, 0), PathBuf::from("mocks/reports/$companies{id}.sql"));
}

#[test]
fn graphql_plan_creates_folder_collection_and_seed() {
    let selection = RouteSelection {
        kind: RouteKind::Graphql,
        route: "/users".to_string(),
        file_type: GeneratedFileType::Jgd,
        protected: true,
        ..Default::default()
    };
    let plan = build_route_plan("mocks", &selection);
    assert_eq!(path_of(&plan, 0), PathBuf::from("mocks/$graphql"));
    assert_eq!(path_of(&plan, 2), PathBuf::from("mocks/$graphql/collections/users.jgd"));
}

#[test]
fn basic_protected_post_text_route_uses_method_prefix_and_txt_extension() {
    let selection = RouteSelection {
        route: "/api/messages/{slug}".to_string(),
        method: "POST".to_string(),
        file_type: GeneratedFileType::Text,
        protected: true,
        ..Default::default()
    };
    let plan = build_route_plan("mocks", &selection);
    assert_eq!(path_of(&plan, 0), PathBuf::from("mocks/api/messages/$post{slug}.txt"));
}

#[test]
fn rest_descriptor_covers_default_int_none_and_custom_uuid_conflicts() {
    let cases = [
        (IdType::Uuid, "id", "rest.json"),
        (IdType::Int, "id", "rest{int}.json"),
        (IdType::NoId, "id", "rest{none}.json"),
        (IdType::Uuid, "user_id", "rest{user_id}.json"),
        (IdType::Int, "user_id", "rest{user_id-int}.json"),
        (IdType::NoId, "user_id", "rest{user_id-none}.json"),
    ];
    for (id_type, id_key, file_name) in cases {
        let selection = RouteSelection {
            kind: RouteKind::Rest,
            route: "/api/users".to_string(),
            id_key: id_key.to_string(),
            id_type,
            ..Default::default()
        };
        let plan = build_route_plan("mocks", &selection);
        assert_eq!(path_of(&plan, 0), PathBuf::from(format!("mocks/api/users/{file_name}")));
    }
}

#[test]
fn upload_directory_names_cover_plain_custom_temp_and_protected_conflicts() {
    let cases = [
        ("/upload", false, false, "mocks/{upload}"),
        ("/api/files", false, false, "mocks/api/{upload}-files"),
        ("/api/files", false, true, "mocks/api/{upload}{temp}-files"),
        ("/api/files", true, true, "mocks/api/${upload}{temp}-files"),
    ];
    for (route, protected, temporary_upload, expected) in cases {
        let selection = RouteSelection {
            kind: RouteKind::Upload,
            route: route.to_string(),
            protected,
            temporary_upload,
            ..Default::default()
        };
        let plan = build_route_plan("mocks", &selection);
        assert_eq!(path_of(&plan, 0), PathBuf::from(expected));
    }
}

#[test]
fn public_directory_names_cover_root_and_custom_routes() {
    let cases = [
        ("/public", "mocks/public"),
        ("/assets", "mocks/public-assets"),
        ("/static/images", "mocks/public-images"),
    ];
    for (route, expected) in cases {
        let selection = RouteSelection {
            kind: RouteKind::Public,
            route: route.to_string(),
            ..Default::default()
        };
        let plan = build_route_plan("mocks", &selection);
        assert_eq!(path_of(&plan, 0), PathBuf::from(expected));
    }
}

#[test]
fn graphql_json_uses_array_content_and_default_folder() {
    let selection = RouteSelection {
        kind: RouteKind::Graphql,
        route: "/inventory/items/{id}".to_string(),
        file_type: GeneratedFileType::Json,
        protected: false,
        ..Default::default()
    };
    let plan = build_route_plan("mocks", &selection);
    assert_eq!(path_of(&plan, 0), PathBuf::from("mocks/graphql"));
    assert_eq!(path_of(&plan, 2), PathBuf::from("mocks/graphql/collections/items.json"));
    assert!(plan.operations[2].content.as_ref().unwrap().starts_with('['));
}

#[test]
fn sql_route_uses_collection_override_and_id_binding() {
    let selection = RouteSelection {
        kind: RouteKind::Sql,
        route: "/reports/orders/{id}".to_string(),
        collection_name: Some("archived_orders".to_string()),
        ..Default::default()
    };
    let plan = build_route_plan("mocks", &selection);
    assert_eq!(path_of(&plan, 0), PathBuf::from("mocks/reports/orders{id}.sql"));
    assert_eq!(
        plan.operations[0].content.as_deref(),
        Some("select * from archived_orders where id = ?;")
    );
}

#[test]
fn sql_route_strips_filename_descriptor_from_default_collection() {
    let selection = RouteSelection {
        kind: RouteKind::Sql,
        route: "/reports/companies{id}".to_string(),
        ..RouteSelection::default()
    };
    let plan = build_route_plan("mocks", &selection);
    assert_eq!(
        plan.operations[0].content.as_deref(),
        Some("select * from companies where id = ?;")
    );
}

#[test]
fn auth_route_ignores_dynamic_param_for_directory_and_uses_auth_file() {
    let selection = RouteSelection {
        kind: RouteKind::Auth,
        route: "/api/login/{id}".to_string(),
        ..Default::default()
    };
    let plan = build_route_plan("mocks", &selection);
    assert_eq!(path_of(&plan, 0), PathBuf::from("mocks/api/login/{auth}.json"));
    assert!(plan.operations[0].content.as_ref().unwrap().contains("\"username\""));
}

#[test]
fn directory_file_type_is_never_used_as_file_extension_for_basic_route() {
    let selection = RouteSelection {
        file_type: GeneratedFileType::Directory,
        ..Default::default()
    };
    let plan = build_route_plan("mocks", &selection);
    assert_eq!(path_of(&plan, 0), PathBuf::from("mocks/api/example/get.json"));
    assert_eq!(plan.operations[0].content.as_deref(), Some(""));
}
