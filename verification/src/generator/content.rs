//! Content of generated mock files.

use vstd::prelude::*;

use crate::generator::domain::{field_names, FieldKind, FieldSpec, RouteSelection};
use crate::generator::json::{
    json_array, json_bool, json_int, json_object, json_pretty, json_string, serde_json_array,
    serde_json_bool, serde_json_int, serde_json_object, serde_json_pretty, serde_json_string,
};
use crate::id_manager::IdType;
use crate::text::string_views;

verus! {

// ----------------------------------------------------------------------------
// Specifications
// ----------------------------------------------------------------------------

/// The sample value of a field kind.
pub open spec fn sample_value_spec(kind: FieldKind) -> serde_json::Value {
    match kind {
        FieldKind::String => serde_json_string("sample value"@),
        FieldKind::Integer => serde_json_int(1),
        FieldKind::Boolean => serde_json_bool(true),
        FieldKind::DateTime => serde_json_string("2026-01-01T00:00:00Z"@),
        FieldKind::Uuid => serde_json_string("550e8400-e29b-41d4-a716-446655440000"@),
    }
}

/// Sample values of the fields, in order.
pub open spec fn sample_values(fields: Seq<FieldSpec>) -> Seq<serde_json::Value> {
    fields.map_values(|f: FieldSpec| sample_value_spec(f.kind))
}

/// The sample object: each field name mapped to its kind's sample value.
pub open spec fn sample_object_spec(fields: Seq<FieldSpec>) -> serde_json::Value {
    serde_json_object(field_names(fields), sample_values(fields))
}

/// Pretty JSON of the sample object.
pub open spec fn json_object_text(fields: Seq<FieldSpec>) -> Seq<char> {
    serde_json_pretty(sample_object_spec(fields))
}

/// Pretty JSON of an array holding the sample object.
pub open spec fn json_array_text(fields: Seq<FieldSpec>) -> Seq<char> {
    serde_json_pretty(serde_json_array(seq![sample_object_spec(fields)]))
}

/// The auth user: the sample object, then `username`, `password` and `roles`.
pub open spec fn auth_user_spec(fields: Seq<FieldSpec>) -> serde_json::Value {
    serde_json_object(
        field_names(fields) + seq!["username"@, "password"@, "roles"@],
        sample_values(fields) + seq![
            serde_json_string("admin"@),
            serde_json_string("admin123"@),
            serde_json_array(seq![serde_json_string("admin"@)]),
        ],
    )
}

/// Pretty JSON of the auth user seed array.
pub open spec fn auth_json_text(fields: Seq<FieldSpec>) -> Seq<char> {
    serde_json_pretty(serde_json_array(seq![auth_user_spec(fields)]))
}

/// JGD generator of an identifier field.
pub open spec fn jgd_id_spec(id_type: IdType) -> serde_json::Value {
    match id_type {
        IdType::Uuid => serde_json_string("${uuid.v4}"@),
        _ => serde_json_string("${index}"@),
    }
}

/// JGD generator of an integer field.
pub open spec fn jgd_number_spec() -> serde_json::Value {
    serde_json_object(
        seq!["number"@],
        seq![
            serde_json_object(
                seq!["min"@, "max"@, "integer"@],
                seq![serde_json_int(1), serde_json_int(100), serde_json_bool(true)],
            ),
        ],
    )
}

/// JGD generator of one field: the id generator for the id field, else by kind.
pub open spec fn jgd_field_spec(field: FieldSpec, id_key: Seq<char>, id_type: IdType) -> serde_json::Value {
    if field.name@ == id_key {
        jgd_id_spec(id_type)
    } else {
        match field.kind {
            FieldKind::String => serde_json_string("${lorem.words(2,4)}"@),
            FieldKind::Integer => jgd_number_spec(),
            FieldKind::Boolean => serde_json_string("${boolean.boolean}"@),
            FieldKind::DateTime => serde_json_string("${chrono.dateTime}"@),
            FieldKind::Uuid => serde_json_string("${uuid.v4}"@),
        }
    }
}

/// The JGD document of a selection: ten generated items with one generator per field.
pub open spec fn jgd_document_spec(fields: Seq<FieldSpec>, id_key: Seq<char>, id_type: IdType) -> serde_json::Value {
    serde_json_object(
        seq!["$format"@, "version"@, "root"@],
        seq![
            serde_json_string("jgd/v1"@),
            serde_json_string("1.0.0"@),
            serde_json_object(
                seq!["count"@, "fields"@],
                seq![
                    serde_json_int(10),
                    serde_json_object(
                        field_names(fields),
                        fields.map_values(|f: FieldSpec| jgd_field_spec(f, id_key, id_type)),
                    ),
                ],
            ),
        ],
    )
}

/// Pretty JSON of the JGD document.
pub open spec fn jgd_text(fields: Seq<FieldSpec>, id_key: Seq<char>, id_type: IdType) -> Seq<char> {
    serde_json_pretty(jgd_document_spec(fields, id_key, id_type))
}

/// The SQL query of a collection, binding `id` when asked to.
pub open spec fn sql_text(collection: Seq<char>, has_id_param: bool) -> Seq<char> {
    if has_id_param {
        "select * from "@ + collection + " where id = ?;"@
    } else {
        "select * from "@ + collection + ";"@
    }
}

/// The plain-text sample of a route.
pub open spec fn text_content(route: Seq<char>) -> Seq<char> {
    "Mock response for "@ + route
}

// ----------------------------------------------------------------------------
// Rendering
// ----------------------------------------------------------------------------

fn sample_value(kind: FieldKind) -> (v: serde_json::Value)
    ensures
        v == sample_value_spec(kind),
{
    match kind {
        FieldKind::String => json_string("sample value"),
        FieldKind::Integer => json_int(1),
        FieldKind::Boolean => json_bool(true),
        FieldKind::DateTime => json_string("2026-01-01T00:00:00Z"),
        FieldKind::Uuid => json_string("550e8400-e29b-41d4-a716-446655440000"),
    }
}

/// Names and sample values of the fields, in order.
fn sample_pairs(fields: &[FieldSpec]) -> (r: (Vec<String>, Vec<serde_json::Value>))
    ensures
        r.0.len() == r.1.len(),
        string_views(r.0@) == field_names(fields@),
        r.1@ == sample_values(fields@),
{
    let mut keys: Vec<String> = Vec::new();
    let mut values: Vec<serde_json::Value> = Vec::new();
    let mut i: usize = 0;
    while i < fields.len()
        invariant
            i <= fields.len(),
            keys.len() == i,
            values.len() == i,
            string_views(keys@) == field_names(fields@.take(i as int)),
            values@ == sample_values(fields@.take(i as int)),
        decreases fields.len() - i,
    {
        let ghost old_keys = keys@;
        keys.push(fields[i].name.clone());
        values.push(sample_value(fields[i].kind));
        i += 1;
        assert forall|j: int| 0 <= j < i implies #[trigger] string_views(keys@)[j] == field_names(fields@.take(i as int))[j] by {
            if j < i - 1 {
                assert(string_views(old_keys)[j] == field_names(fields@.take(i - 1))[j]);
            }
        }
        assert(string_views(keys@) =~= field_names(fields@.take(i as int)));
        assert(values@ =~= sample_values(fields@.take(i as int)));
    }
    assert(fields@.take(fields.len() as int) =~= fields@);
    (keys, values)
}

fn sample_object(fields: &[FieldSpec]) -> (v: serde_json::Value)
    ensures
        v == sample_object_spec(fields@),
{
    let (keys, values) = sample_pairs(fields);
    json_object(keys, values)
}

/// Renders sample JSON object content.
pub fn render_json_object(fields: &[FieldSpec]) -> (s: String)
    ensures
        s@ == json_object_text(fields@),
{
    let v = sample_object(fields);
    json_pretty(&v)
}

/// Renders sample REST JSON array content.
pub fn render_json_array(fields: &[FieldSpec]) -> (s: String)
    ensures
        s@ == json_array_text(fields@),
{
    let mut items: Vec<serde_json::Value> = Vec::new();
    items.push(sample_object(fields));
    assert(items@ =~= seq![sample_object_spec(fields@)]);
    let v = json_array(items);
    json_pretty(&v)
}

/// Renders an auth user seed array.
pub fn render_auth_json(fields: &[FieldSpec]) -> (s: String)
    ensures
        s@ == auth_json_text(fields@),
{
    let (mut keys, mut values) = sample_pairs(fields);
    let ghost k0 = keys@;
    let ghost v0 = values@;
    keys.push("username".to_string());
    keys.push("password".to_string());
    keys.push("roles".to_string());
    values.push(json_string("admin"));
    values.push(json_string("admin123"));
    let mut roles: Vec<serde_json::Value> = Vec::new();
    roles.push(json_string("admin"));
    assert(roles@ =~= seq![serde_json_string("admin"@)]);
    values.push(json_array(roles));
    assert(string_views(keys@) =~= field_names(fields@) + seq![
        "username"@,
        "password"@,
        "roles"@,
    ]);
    assert(values@ =~= v0 + seq![
        serde_json_string("admin"@),
        serde_json_string("admin123"@),
        serde_json_array(seq![serde_json_string("admin"@)]),
    ]);
    let user = json_object(keys, values);
    let mut items: Vec<serde_json::Value> = Vec::new();
    items.push(user);
    assert(items@ =~= seq![auth_user_spec(fields@)]);
    let v = json_array(items);
    json_pretty(&v)
}

fn jgd_id_value(id_type: IdType) -> (v: serde_json::Value)
    ensures
        v == jgd_id_spec(id_type),
{
    match id_type {
        IdType::Uuid => json_string("${uuid.v4}"),
        _ => json_string("${index}"),
    }
}

fn jgd_number() -> (v: serde_json::Value)
    ensures
        v == jgd_number_spec(),
{
    let mut keys: Vec<String> = Vec::new();
    keys.push("min".to_string());
    keys.push("max".to_string());
    keys.push("integer".to_string());
    let mut values: Vec<serde_json::Value> = Vec::new();
    values.push(json_int(1));
    values.push(json_int(100));
    values.push(json_bool(true));
    assert(string_views(keys@) =~= seq!["min"@, "max"@, "integer"@]);
    assert(values@ =~= seq![serde_json_int(1), serde_json_int(100), serde_json_bool(true)]);
    let inner = json_object(keys, values);
    let mut outer_keys: Vec<String> = Vec::new();
    outer_keys.push("number".to_string());
    let mut outer_values: Vec<serde_json::Value> = Vec::new();
    outer_values.push(inner);
    assert(string_views(outer_keys@) =~= seq!["number"@]);
    assert(outer_values@ =~= seq![
        serde_json_object(
            seq!["min"@, "max"@, "integer"@],
            seq![serde_json_int(1), serde_json_int(100), serde_json_bool(true)],
        ),
    ]);
    json_object(outer_keys, outer_values)
}

fn jgd_field_value(field: &FieldSpec, id_key: &String, id_type: IdType) -> (v: serde_json::Value)
    ensures
        v == jgd_field_spec(*field, id_key@, id_type),
{
    if field.name == *id_key {
        return jgd_id_value(id_type);
    }
    match field.kind {
        FieldKind::String => json_string("${lorem.words(2,4)}"),
        FieldKind::Integer => jgd_number(),
        FieldKind::Boolean => json_string("${boolean.boolean}"),
        FieldKind::DateTime => json_string("${chrono.dateTime}"),
        FieldKind::Uuid => json_string("${uuid.v4}"),
    }
}

/// Renders a JGD document for the selected fields.
pub fn render_jgd(selection: &RouteSelection) -> (s: String)
    ensures
        s@ == jgd_text(selection.fields@, selection.id_key@, selection.id_type),
{
    let fields = &selection.fields;
    let mut keys: Vec<String> = Vec::new();
    let mut values: Vec<serde_json::Value> = Vec::new();
    let mut i: usize = 0;
    while i < fields.len()
        invariant
            i <= fields.len(),
            keys.len() == i,
            values.len() == i,
            fields == &selection.fields,
            string_views(keys@) == field_names(fields@.take(i as int)),
            values@ == fields@.take(i as int).map_values(
                |f: FieldSpec| jgd_field_spec(f, selection.id_key@, selection.id_type),
            ),
        decreases fields.len() - i,
    {
        let ghost old_keys = keys@;
        keys.push(fields[i].name.clone());
        values.push(jgd_field_value(&fields[i], &selection.id_key, selection.id_type));
        i += 1;
        assert forall|j: int| 0 <= j < i implies #[trigger] string_views(keys@)[j] == field_names(fields@.take(i as int))[j] by {
            if j < i - 1 {
                assert(string_views(old_keys)[j] == field_names(fields@.take(i - 1))[j]);
            }
        }
        assert(string_views(keys@) =~= field_names(fields@.take(i as int)));
        assert(values@ =~= fields@.take(i as int).map_values(
            |f: FieldSpec| jgd_field_spec(f, selection.id_key@, selection.id_type),
        ));
    }
    assert(fields@.take(fields.len() as int) =~= fields@);
    let field_map = json_object(keys, values);
    let mut root_keys: Vec<String> = Vec::new();
    root_keys.push("count".to_string());
    root_keys.push("fields".to_string());
    let mut root_values: Vec<serde_json::Value> = Vec::new();
    root_values.push(json_int(10));
    root_values.push(field_map);
    assert(root_values@ =~= seq![
        serde_json_int(10),
        serde_json_object(
            field_names(selection.fields@),
            selection.fields@.map_values(
                |f: FieldSpec| jgd_field_spec(f, selection.id_key@, selection.id_type),
            ),
        ),
    ]);
    assert(string_views(root_keys@) =~= seq!["count"@, "fields"@]);
    let root = json_object(root_keys, root_values);
    let mut doc_keys: Vec<String> = Vec::new();
    doc_keys.push("$format".to_string());
    doc_keys.push("version".to_string());
    doc_keys.push("root".to_string());
    let mut doc_values: Vec<serde_json::Value> = Vec::new();
    doc_values.push(json_string("jgd/v1"));
    doc_values.push(json_string("1.0.0"));
    doc_values.push(root);
    assert(doc_values@ =~= seq![
        serde_json_string("jgd/v1"@),
        serde_json_string("1.0.0"@),
        serde_json_object(
            seq!["count"@, "fields"@],
            seq![
                serde_json_int(10),
                serde_json_object(
                    field_names(selection.fields@),
                    selection.fields@.map_values(
                        |f: FieldSpec| jgd_field_spec(f, selection.id_key@, selection.id_type),
                    ),
                ),
            ],
        ),
    ]);
    assert(string_views(doc_keys@) =~= seq!["$format"@, "version"@, "root"@]);
    let doc = json_object(doc_keys, doc_values);
    proof {
        assert(doc == jgd_document_spec(selection.fields@, selection.id_key@, selection.id_type));
    }
    json_pretty(&doc)
}

/// Renders a SQL query template for a collection.
pub fn render_sql(collection_name: &str, has_id_param: bool) -> (s: String)
    ensures
        s@ == sql_text(collection_name@, has_id_param),
{
    let mut s = String::from_str("select * from ");
    s.append(collection_name);
    if has_id_param {
        s.append(" where id = ?;");
    } else {
        s.append(";");
    }
    s
}

/// Renders editable plain text sample content.
pub fn render_text(route: &str) -> (s: String)
    ensures
        s@ == text_content(route@),
{
    let mut s = String::from_str("Mock response for ");
    s.append(route);
    s
}

} // verus!
