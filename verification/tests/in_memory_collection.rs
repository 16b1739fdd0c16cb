use rs_mock_server::id_manager::IdType;
use rs_mock_server::in_memory_collection::{FileContent, InMemoryCollection};
use rs_mock_server::json_value::{Json, JsonNumber};
use serde_json::Value;

fn to_json(v: Value) -> Json {
    match v {
        Value::Null => Json::Null,
        Value::Bool(b) => Json::Bool(b),
        Value::Number(n) => Json::Number(JsonNumber { text: n.to_string(), unsigned: n.as_u64() }),
        Value::String(s) => Json::Str(s),
        Value::Array(items) => Json::Array(items.into_iter().map(to_json).collect()),
        Value::Object(map) => Json::Object(map.into_iter().map(|(k, v)| (k, to_json(v))).collect()),
    }
}

fn to_value(j: &Json) -> Value {
    match j {
        Json::Null => Value::Null,
        Json::Bool(b) => Value::Bool(*b),
        Json::Number(n) => serde_json::from_str(&n.text).unwrap(),
        Json::Str(s) => Value::String(s.clone()),
        Json::Array(items) => Value::Array(items.iter().map(to_value).collect()),
        Json::Object(fields) => {
            Value::Object(fields.iter().map(|(k, v)| (k.clone(), to_value(v))).collect())
        },
    }
}

fn json(text: &str) -> Json {
    to_json(serde_json::from_str(text).unwrap())
}

fn value(text: &str) -> Value {
    serde_json::from_str(text).unwrap()
}

fn create_test_collection() -> InMemoryCollection {
    InMemoryCollection::new(IdType::Int, "id".to_string(), Some("test_collection".to_string()))
}

fn create_uuid_collection() -> InMemoryCollection {
    InMemoryCollection::new(IdType::Uuid, "id".to_string(), Some("uuid_collection".to_string()))
}

fn create_none_collection() -> InMemoryCollection {
    InMemoryCollection::new(IdType::NoId, "id".to_string(), Some("none_collection".to_string()))
}

fn id_of(item: &Json) -> String {
    to_value(item).get("id").unwrap().as_str().unwrap().to_string()
}

#[test]
fn in_memory_collection_test_new_collection() {
    let collection = create_test_collection();
    assert_eq!(collection.count(), 0);
    assert_eq!(collection.id_key(), "id");
    assert_eq!(collection.name(), &Some("test_collection".to_string()));
}

#[test]
fn in_memory_collection_test_get_all_empty() {
    let collection = create_test_collection();
    assert!(collection.get_all().is_empty());
}

#[test]
fn in_memory_collection_test_get_all_with_items() {
    let mut collection = create_test_collection();
    collection.add(json(r#"{"name": "Item 1"}"#));
    collection.add(json(r#"{"name": "Item 2"}"#));
    collection.add(json(r#"{"name": "Item 3"}"#));
    let all_items = collection.get_all();
    assert_eq!(all_items.len(), 3);
    for item in &all_items {
        let item = to_value(item);
        assert!(item.get("id").is_some());
        assert!(item.get("name").is_some());
    }
}

#[test]
fn in_memory_collection_test_get_existing_item() {
    let mut collection = create_test_collection();
    let item = collection.add(json(r#"{"name": "Test Item"}"#)).unwrap();
    let id = id_of(&item);
    let retrieved = collection.get(&id);
    assert!(retrieved.is_some());
    assert_eq!(to_value(&retrieved.unwrap()).get("name").unwrap(), "Test Item");
}

#[test]
fn in_memory_collection_test_get_nonexistent_item() {
    let collection = create_test_collection();
    assert!(collection.get("999").is_none());
}

#[test]
fn in_memory_collection_test_get_paginated_empty() {
    let collection = create_test_collection();
    assert!(collection.get_paginated(0, 10).is_empty());
}

#[test]
fn in_memory_collection_test_get_paginated_with_items() {
    let mut collection = create_test_collection();
    for i in 1..=10 {
        collection.add(json(&format!(r#"{{"name": "Item {}"}}"#, i)));
    }
    assert_eq!(collection.get_paginated(0, 3).len(), 3);
    assert_eq!(collection.get_paginated(3, 3).len(), 3);
    assert_eq!(collection.get_paginated(9, 5).len(), 1);
    assert!(collection.get_paginated(15, 5).is_empty());
}

#[test]
fn in_memory_collection_test_exists() {
    let mut collection = create_test_collection();
    let item = collection.add(json(r#"{"name": "Test Item"}"#)).unwrap();
    let id = id_of(&item);
    assert!(collection.contains_id(&id));
    assert!(!collection.contains_id("999"));
}

#[test]
fn in_memory_collection_test_count() {
    let mut collection = create_test_collection();
    assert_eq!(collection.count(), 0);
    collection.add(json(r#"{"name": "Item 1"}"#));
    assert_eq!(collection.count(), 1);
    collection.add(json(r#"{"name": "Item 2"}"#));
    assert_eq!(collection.count(), 2);
    let all_items = collection.get_all();
    let id = id_of(&all_items[0]);
    collection.delete(&id);
    assert_eq!(collection.count(), 1);
}

#[test]
fn in_memory_collection_test_add_with_int_id() {
    let mut collection = create_test_collection();
    let item = collection.add(json(r#"{"name": "Test Item"}"#));
    assert!(item.is_some());
    let item = to_value(&item.unwrap());
    assert_eq!(item.get("name").unwrap(), "Test Item");
    assert_eq!(item.get("id").unwrap(), "1");
    let item2 = to_value(&collection.add(json(r#"{"name": "Test Item 2"}"#)).unwrap());
    assert_eq!(item2.get("id").unwrap(), "2");
}

#[test]
fn in_memory_collection_test_add_with_uuid_id() {
    let mut collection = create_uuid_collection();
    let item = collection.add(json(r#"{"name": "Test Item"}"#));
    assert!(item.is_some());
    let item = to_value(&item.unwrap());
    assert_eq!(item.get("name").unwrap(), "Test Item");
    let id = item.get("id").unwrap().as_str().unwrap();
    assert!(!id.is_empty());
    assert!(id.len() > 10);
}

#[test]
fn in_memory_collection_test_add_with_none_id_existing() {
    let mut collection = create_none_collection();
    let item = collection.add(json(r#"{"id": "custom-id", "name": "Test Item"}"#));
    assert!(item.is_some());
    let item = to_value(&item.unwrap());
    assert_eq!(item.get("name").unwrap(), "Test Item");
    assert_eq!(item.get("id").unwrap(), "custom-id");
}

#[test]
fn in_memory_collection_test_add_with_none_id_number_existing() {
    let mut collection = create_none_collection();
    let item = collection.add(json(r#"{"id": 1, "name": "Test Item"}"#));
    assert!(item.is_some());
    let item = to_value(&item.unwrap());
    assert_eq!(item.get("name").unwrap(), "Test Item");
    assert_eq!(item.get("id").unwrap(), 1);
    assert!(collection.contains_id("1"));
}

#[test]
fn in_memory_collection_test_add_with_none_id_missing() {
    let mut collection = create_none_collection();
    let item = collection.add(json(r#"{"name": "Test Item"}"#));
    assert!(item.is_none());
    assert_eq!(collection.count(), 0);
}

#[test]
fn in_memory_collection_test_add_batch_int() {
    let mut collection = create_test_collection();
    let batch = json(
        r#"[{"name": "Item 1"}, {"id": 5, "name": "Item 2"}, {"id": 3, "name": "Item 3"}, {"id": 10, "name": "Item 4"}]"#,
    );
    let added_items = collection.add_batch(batch);
    assert_eq!(added_items.len(), 3);
    assert_eq!(collection.count(), 3);
    let new_item = to_value(&collection.add(json(r#"{"name": "New Item"}"#)).unwrap());
    assert_eq!(new_item.get("id").unwrap(), "11");
}

#[test]
fn in_memory_collection_test_add_batch_uuid() {
    let mut collection = create_uuid_collection();
    let batch = json(
        r#"[{"id": "uuid-1", "name": "Item 1"}, {"id": "uuid-2", "name": "Item 2"}, {"name": "Item 3"}]"#,
    );
    let added_items = collection.add_batch(batch);
    assert_eq!(added_items.len(), 2);
    assert_eq!(collection.count(), 2);
}

#[test]
fn in_memory_collection_test_add_batch_none() {
    let mut collection = create_none_collection();
    let batch = json(
        r#"[{"id": "custom-1", "name": "Item 1"}, {"id": "custom-2", "name": "Item 2"}, {"name": "Item 3"}, {"id": 3, "name": "Item 4"}]"#,
    );
    let added_items = collection.add_batch(batch);
    assert_eq!(added_items.len(), 3);
    assert_eq!(collection.count(), 3);
}

#[test]
fn in_memory_collection_test_add_batch_non_array() {
    let mut collection = create_test_collection();
    let added_items = collection.add_batch(json(r#"{"name": "Single Item"}"#));
    assert!(added_items.is_empty());
    assert_eq!(collection.count(), 0);
}

#[test]
fn in_memory_collection_test_update_existing_item() {
    let mut collection = create_test_collection();
    let item = collection.add(json(r#"{"name": "Original Name"}"#)).unwrap();
    let id = id_of(&item);
    let updated = collection.update(&id, json(r#"{"name": "Updated Name", "description": "New field"}"#));
    assert!(updated.is_some());
    let updated_item = to_value(&updated.unwrap());
    assert_eq!(updated_item.get("name").unwrap(), "Updated Name");
    assert_eq!(updated_item.get("description").unwrap(), "New field");
    assert_eq!(updated_item.get("id").unwrap(), id.as_str());
    let retrieved = to_value(&collection.get(&id).unwrap());
    assert_eq!(retrieved.get("name").unwrap(), "Updated Name");
}

#[test]
fn in_memory_collection_test_update_nonexistent_item() {
    let mut collection = create_test_collection();
    assert!(collection.update("999", json(r#"{"name": "Updated Name"}"#)).is_none());
}

#[test]
fn in_memory_collection_test_update_partial_existing_item() {
    let mut collection = create_test_collection();
    let item = collection
        .add(json(r#"{"name": "Original Name", "description": "Original Description", "count": 42}"#))
        .unwrap();
    let id = id_of(&item);
    let updated = collection.update_partial(&id, json(r#"{"name": "Updated Name"}"#));
    assert!(updated.is_some());
    let updated_item = to_value(&updated.unwrap());
    assert_eq!(updated_item.get("name").unwrap(), "Updated Name");
    assert_eq!(updated_item.get("description").unwrap(), "Original Description");
    assert_eq!(updated_item.get("count").unwrap(), 42);
    assert_eq!(updated_item.get("id").unwrap(), id.as_str());
}

#[test]
fn in_memory_collection_test_update_partial_nested_objects() {
    let mut collection = create_test_collection();
    let item = collection
        .add(json(
            r#"{"name": "Test Item", "config": {"enabled": true, "timeout": 30, "nested": {"value": "original"}}}"#,
        ))
        .unwrap();
    let id = id_of(&item);
    let updated = collection.update_partial(
        &id,
        json(r#"{"config": {"timeout": 60, "nested": {"value": "updated", "new_field": "added"}}}"#),
    );
    assert!(updated.is_some());
    let updated_item = to_value(&updated.unwrap());
    let config = updated_item.get("config").unwrap();
    assert_eq!(config.get("enabled").unwrap(), true);
    assert_eq!(config.get("timeout").unwrap(), 60);
    let nested = config.get("nested").unwrap();
    assert_eq!(nested.get("value").unwrap(), "updated");
    assert_eq!(nested.get("new_field").unwrap(), "added");
}

#[test]
fn in_memory_collection_test_update_partial_nonexistent_item() {
    let mut collection = create_test_collection();
    assert!(collection.update_partial("999", json(r#"{"name": "Updated Name"}"#)).is_none());
}

#[test]
fn in_memory_collection_test_delete_existing_item() {
    let mut collection = create_test_collection();
    let item = collection.add(json(r#"{"name": "Test Item"}"#)).unwrap();
    let id = id_of(&item);
    assert_eq!(collection.count(), 1);
    let deleted = collection.delete(&id);
    assert!(deleted.is_some());
    assert_eq!(to_value(&deleted.unwrap()).get("name").unwrap(), "Test Item");
    assert_eq!(collection.count(), 0);
    assert!(!collection.contains_id(&id));
}

#[test]
fn in_memory_collection_test_delete_nonexistent_item() {
    let mut collection = create_test_collection();
    assert!(collection.delete("999").is_none());
}

#[test]
fn in_memory_collection_test_clear_empty_collection() {
    let mut collection = create_test_collection();
    assert_eq!(collection.clear(), 0);
    assert_eq!(collection.count(), 0);
}

#[test]
fn in_memory_collection_test_clear_with_items() {
    let mut collection = create_test_collection();
    collection.add(json(r#"{"name": "Item 1"}"#));
    collection.add(json(r#"{"name": "Item 2"}"#));
    collection.add(json(r#"{"name": "Item 3"}"#));
    assert_eq!(collection.count(), 3);
    assert_eq!(collection.clear(), 3);
    assert_eq!(collection.count(), 0);
    assert!(collection.get_all().is_empty());
}

#[test]
fn in_memory_collection_test_merge_json_values_objects() {
    let base = json(
        r#"{"name": "Original", "config": {"enabled": true, "timeout": 30}, "tags": ["tag1", "tag2"]}"#,
    );
    let update = json(
        r#"{"name": "Updated", "config": {"timeout": 60, "new_setting": "value"}, "description": "New field"}"#,
    );
    let merged = to_value(&InMemoryCollection::merge_json_values(base, update));
    assert_eq!(merged.get("name").unwrap(), "Updated");
    assert_eq!(merged.get("description").unwrap(), "New field");
    assert_eq!(merged.get("tags").unwrap(), &value(r#"["tag1", "tag2"]"#));
    let config = merged.get("config").unwrap();
    assert_eq!(config.get("enabled").unwrap(), true);
    assert_eq!(config.get("timeout").unwrap(), 60);
    assert_eq!(config.get("new_setting").unwrap(), "value");
}

#[test]
fn in_memory_collection_test_merge_json_values_non_objects() {
    let merged = InMemoryCollection::merge_json_values(json(r#""original""#), json(r#""updated""#));
    assert_eq!(to_value(&merged), value(r#""updated""#));
    let merged = InMemoryCollection::merge_json_values(json("42"), json("100"));
    assert_eq!(to_value(&merged), value("100"));
}

#[test]
fn in_memory_collection_test_id_manager_integration() {
    let mut collection = create_test_collection();
    let item1 = to_value(&collection.add(json(r#"{"name": "Item 1"}"#)).unwrap());
    assert_eq!(item1.get("id").unwrap(), "1");
    let item2 = to_value(&collection.add(json(r#"{"name": "Item 2"}"#)).unwrap());
    assert_eq!(item2.get("id").unwrap(), "2");
    let item3 = to_value(&collection.add(json(r#"{"name": "Item 3"}"#)).unwrap());
    assert_eq!(item3.get("id").unwrap(), "3");
}

#[test]
fn in_memory_collection_test_custom_id_key() {
    let mut collection =
        InMemoryCollection::new(IdType::Int, "customId".to_string(), Some("custom_collection".to_string()));
    let item = to_value(&collection.add(json(r#"{"name": "Test Item"}"#)).unwrap());
    assert_eq!(item.get("customId").unwrap(), "1");
    assert!(item.get("id").is_none());
    let retrieved = to_value(&collection.get("1").unwrap());
    assert_eq!(retrieved.get("customId").unwrap(), "1");
}

#[test]
fn adding_twice_under_one_id_replaces_the_item() {
    let mut collection = create_none_collection();
    collection.add(json(r#"{"id": "a", "v": 1}"#));
    collection.add(json(r#"{"id": "a", "v": 2}"#));
    assert_eq!(collection.count(), 1);
    assert_eq!(to_value(&collection.get("a").unwrap()).get("v").unwrap(), 2);
}

#[test]
fn initial_data_loads_report_what_happened() {
    let mut collection = create_test_collection();
    assert_eq!(
        collection.load_initial_data_content("rest.json", FileContent::Unreadable).unwrap_err(),
        "⚠️ Could not read file rest.json, skipping initial data load"
    );
    assert_eq!(
        collection.load_initial_data_content("rest.json", FileContent::InvalidJson).unwrap_err(),
        "⚠️ File rest.json does not contain valid JSON, skipping initial data load"
    );
    assert_eq!(
        collection.load_initial_data_content("rest.json", FileContent::Parsed(json(r#"{"id": 1}"#))).unwrap_err(),
        "⚠️ File rest.json does not contain a JSON array, skipping initial data load"
    );
    assert_eq!(collection.count(), 0);
    let parsed = json(r#"[{"id": 7, "name": "a"}, {"name": "b"}]"#);
    assert_eq!(
        collection.load_initial_data_content("rest.json", FileContent::Parsed(parsed)).unwrap(),
        "✔️ Loaded 1 initial items from rest.json"
    );
    let next = to_value(&collection.add(json(r#"{"name": "c"}"#)).unwrap());
    assert_eq!(next.get("id").unwrap(), "8");
}

#[test]
fn initial_data_is_read_from_the_file_text() {
    let mut collection = create_test_collection();
    assert_eq!(
        collection.load_initial_data("rest.json", Some("{ not json")).unwrap().unwrap_err(),
        "⚠️ File rest.json does not contain valid JSON, skipping initial data load"
    );
    assert_eq!(
        collection.load_initial_data("rest.json", None).unwrap().unwrap_err(),
        "⚠️ Could not read file rest.json, skipping initial data load"
    );
    assert_eq!(
        collection
            .load_initial_data("rest.json", Some(r#"[{"id": 3, "name": "a"}, {"id": 9}]"#))
            .unwrap()
            .unwrap(),
        "✔️ Loaded 2 initial items from rest.json"
    );
    assert_eq!(to_value(&collection.get("3").unwrap()).get("name").unwrap(), "a");
    let next = to_value(&collection.add(json(r#"{"name": "c"}"#)).unwrap());
    assert_eq!(next.get("id").unwrap(), "10");
}

#[test]
fn unreadable_integer_ids_stop_the_load() {
    let mut collection = create_test_collection();
    assert!(collection.load_initial_data("rest.json", Some(r#"[{"id": 1}, {"id": -2}]"#)).is_none());
    assert_eq!(collection.count(), 0);
    // A first id that is not a u64 is kept, as the store does.
    assert!(collection.load_initial_data("rest.json", Some(r#"[{"id": -2}, {"id": 1}]"#)).is_some());
}
