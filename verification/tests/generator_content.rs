use std::path::PathBuf;

use rs_mock_server::generator::content::{
    render_auth_json, render_json_array, render_json_object, render_jgd, render_sql, render_text,
};
use rs_mock_server::generator::domain::{
    default_fields, FieldKind, FieldSpec, MainConfigSelection, RouteKind, RouteSelection,
};
use rs_mock_server::generator::main_config::{build_main_config_plan, render_main_config};
use rs_mock_server::id_manager::IdType;

#[test]
fn sql_template_can_bind_id() {
    assert_eq!(render_sql("users", true), "select * from users where id = ?;");
}

#[test]
fn text_content_preserves_route_context() {
    assert_eq!(render_text("/api/users/{id}"), "Mock response for /api/users/{id}");
}

#[test]
fn sql_template_without_id_uses_collection_only() {
    assert_eq!(render_sql("orders", false), "select * from orders;");
}

#[test]
fn config_plan_targets_root_config_file() {
    let plan = build_main_config_plan(&MainConfigSelection::default()).unwrap();
    assert_eq!(plan.operations.len(), 1);
    assert_eq!(PathBuf::from(&plan.operations[0].path), PathBuf::from("rs-mock-server.toml"));
    assert!(plan.operations[0].content.as_ref().unwrap().contains("[server]"));
}

#[test]
fn json_object_contains_default_fields() {
    let content = render_json_object(&default_fields());
    assert!(content.contains("\"description\""));
    assert!(content.contains("\"created_at\""));
}

#[test]
fn rest_json_is_array() {
    let value: serde_json::Value =
        serde_json::from_str(&render_json_array(&default_fields())).unwrap();
    assert!(value.as_array().unwrap()[0].get("updated_by").is_some());
}

#[test]
fn auth_json_contains_required_auth_fields() {
    let content = render_auth_json(&default_fields());
    assert!(content.contains("\"username\""));
    assert!(content.contains("\"password\""));
    assert!(content.contains("\"roles\""));
}

#[test]
fn jgd_uses_selected_id_type() {
    let selection = RouteSelection {
        kind: RouteKind::Rest,
        file_type: rs_mock_server::generator::domain::GeneratedFileType::Jgd,
        id_type: IdType::Int,
        ..Default::default()
    };
    let content = render_jgd(&selection);
    assert!(content.contains("\"$format\""));
    assert!(content.contains("\"${index}\""));
}

#[test]
fn json_object_renders_all_field_kinds() {
    let content = render_json_object(&[
        FieldSpec::new("name", FieldKind::String),
        FieldSpec::new("age", FieldKind::Integer),
        FieldSpec::new("active", FieldKind::Boolean),
        FieldSpec::new("created_at", FieldKind::DateTime),
        FieldSpec::new("external_id", FieldKind::Uuid),
    ]);
    let value: serde_json::Value = serde_json::from_str(&content).unwrap();
    assert_eq!(value["name"], serde_json::Value::from("sample value"));
    assert_eq!(value["age"], serde_json::Value::from(1));
    assert_eq!(value["active"], serde_json::Value::from(true));
    assert_eq!(value["created_at"], serde_json::Value::from("2026-01-01T00:00:00Z"));
    assert_eq!(
        value["external_id"],
        serde_json::Value::from("550e8400-e29b-41d4-a716-446655440000")
    );
}

#[test]
fn json_object_duplicate_field_names_use_last_field_kind() {
    let content = render_json_object(&[
        FieldSpec::new("value", FieldKind::String),
        FieldSpec::new("value", FieldKind::Integer),
    ]);
    let value: serde_json::Value = serde_json::from_str(&content).unwrap();
    assert_eq!(value["value"], serde_json::Value::from(1));
}

#[test]
fn auth_json_overrides_conflicting_user_fields() {
    let content = render_auth_json(&[
        FieldSpec::new("username", FieldKind::Integer),
        FieldSpec::new("password", FieldKind::Boolean),
        FieldSpec::new("roles", FieldKind::String),
    ]);
    let value: serde_json::Value = serde_json::from_str(&content).unwrap();
    let user = &value.as_array().unwrap()[0];
    assert_eq!(user["username"], serde_json::Value::from("admin"));
    assert_eq!(user["password"], serde_json::Value::from("admin123"));
    assert_eq!(user["roles"], serde_json::Value::from(vec!["admin"]));
}

#[test]
fn jgd_renders_custom_id_key_and_non_id_field_generators() {
    let selection = RouteSelection {
        id_key: "user_id".to_string(),
        id_type: IdType::Uuid,
        fields: vec![
            FieldSpec::new("user_id", FieldKind::Uuid),
            FieldSpec::new("enabled", FieldKind::Boolean),
            FieldSpec::new("score", FieldKind::Integer),
        ],
        ..Default::default()
    };
    let value: serde_json::Value = serde_json::from_str(&render_jgd(&selection)).unwrap();
    let fields = &value["root"]["fields"];
    assert_eq!(fields["user_id"], serde_json::Value::from("${uuid.v4}"));
    assert_eq!(fields["enabled"], serde_json::Value::from("${boolean.boolean}"));
    assert!(fields["score"]["number"]["integer"].as_bool().unwrap());
}

#[test]
fn jgd_none_id_type_uses_index_generator() {
    let selection = RouteSelection { id_type: IdType::NoId, ..Default::default() };
    let value: serde_json::Value = serde_json::from_str(&render_jgd(&selection)).unwrap();
    assert_eq!(value["root"]["fields"]["id"], serde_json::Value::from("${index}"));
}

#[test]
fn renders_server_config() {
    let content = render_main_config(&MainConfigSelection::default()).unwrap();
    assert!(content.contains("[server]"));
    assert!(content.contains("port = 4520"));
    assert!(content.contains("folder = \"mocks\""));
}

#[test]
fn renders_optional_route_defaults() {
    let content = render_main_config(&MainConfigSelection {
        include_route_defaults: true,
        delay: Some(50),
        remap: Some("/api".to_string()),
        protect: Some(true),
        ..Default::default()
    })
    .unwrap();
    assert!(content.contains("[route]"));
    assert!(content.contains("delay = 50"));
    assert!(content.contains("protect = true"));
}

#[test]
fn omits_route_table_when_route_defaults_are_disabled() {
    let content = render_main_config(&MainConfigSelection {
        delay: Some(50),
        remap: Some("/api".to_string()),
        protect: Some(true),
        ..Default::default()
    })
    .unwrap();
    assert!(!content.contains("[route]"));
    assert!(!content.contains("delay = 50"));
    assert!(!content.contains("remap ="));
}

#[test]
fn renders_cors_and_allowed_origin_conflict_explicitly() {
    let content = render_main_config(&MainConfigSelection {
        enable_cors: false,
        allowed_origin: Some("https://example.test".to_string()),
        ..Default::default()
    })
    .unwrap();
    assert!(content.contains("enable_cors = false"));
    assert!(content.contains("allowed_origin = \"https://example.test\""));
}

#[test]
fn renders_partial_route_defaults_without_empty_options() {
    let content = render_main_config(&MainConfigSelection {
        include_route_defaults: true,
        protect: Some(false),
        ..Default::default()
    })
    .unwrap();
    assert!(content.contains("[route]"));
    assert!(content.contains("protect = false"));
    assert!(!content.contains("delay ="));
    assert!(!content.contains("remap ="));
}
