//! The JSON descriptions of collection schemas served by the collection
//! information routes.

use vstd::prelude::*;

use crate::json_map::{as_map, keys_sorted, map_insert};
use crate::json_value::{fields_view, lemma_object_view, Json, JsonView};

verus! {

/// The kind of values a field holds.
#[derive(Debug, Clone, Copy, PartialEq, Eq, Structural)]
pub enum JsonPrimitive {
    /// `null`
    Null,
    /// booleans
    Bool,
    /// integers
    Int,
    /// floating-point numbers
    Float,
    /// strings
    String,
    /// objects
    Object,
    /// arrays
    Array,
}

/// What a schema knows of a field.
#[derive(Debug, Clone, Copy, PartialEq, Eq, Structural)]
pub struct FieldInfo {
    /// The kind of its values.
    pub ty: JsonPrimitive,
    /// Whether it may be `null`.
    pub nullable: bool,
}

/// A column of one collection that refers to a column of another.
#[derive(Debug, Clone)]
pub struct ReferenceColumn {
    /// The referring collection.
    pub collection: String,
    /// The referring column.
    pub column: String,
    /// The referred collection.
    pub ref_collection: String,
    /// The referred column.
    pub ref_column: String,
}

/// A collection schema: its fields and the references into and out of it.
#[derive(Debug, Clone)]
pub struct SchemaWithRefs {
    /// The fields by name, in the schema's order.
    pub fields: Vec<(String, FieldInfo)>,
    /// References from other collections to this one.
    pub inbound_refs: Vec<ReferenceColumn>,
    /// References from this collection to others.
    pub outbound_refs: Vec<ReferenceColumn>,
}

/// The name of a kind of values.
pub open spec fn primitive_name(p: JsonPrimitive) -> Seq<char> {
    match p {
        JsonPrimitive::Null => "Null"@,
        JsonPrimitive::Bool => "Bool"@,
        JsonPrimitive::Int => "Int"@,
        JsonPrimitive::Float => "Float"@,
        JsonPrimitive::String => "String"@,
        JsonPrimitive::Object => "Object"@,
        JsonPrimitive::Array => "Array"@,
    }
}

/// `{"nullable": .., "type": ..}`.
pub open spec fn field_info_view(f: FieldInfo) -> JsonView {
    JsonView::Object(
        seq![
            ("nullable"@, JsonView::Bool(f.nullable)),
            ("type"@, JsonView::Str(primitive_name(f.ty))),
        ],
    )
}

/// `{"collection": .., "column": .., "ref_collection": .., "ref_column": ..}`.
pub open spec fn reference_view(r: ReferenceColumn) -> JsonView {
    JsonView::Object(
        seq![
            ("collection"@, JsonView::Str(r.collection@)),
            ("column"@, JsonView::Str(r.column@)),
            ("ref_collection"@, JsonView::Str(r.ref_collection@)),
            ("ref_column"@, JsonView::Str(r.ref_column@)),
        ],
    )
}

/// The field descriptions in the schema's order, keyed by field name.
pub open spec fn field_entries(fields: Seq<(String, FieldInfo)>) -> Seq<(Seq<char>, JsonView)> {
    Seq::new(fields.len(), |i: int| (fields[i].0@, field_info_view(fields[i].1)))
}

/// Reference descriptions keyed by the referred column.
pub open spec fn inbound_entries(refs: Seq<ReferenceColumn>) -> Seq<(Seq<char>, JsonView)> {
    Seq::new(refs.len(), |i: int| (refs[i].ref_column@, reference_view(refs[i])))
}

/// Reference descriptions keyed by the referring column.
pub open spec fn outbound_entries(refs: Seq<ReferenceColumn>) -> Seq<(Seq<char>, JsonView)> {
    Seq::new(refs.len(), |i: int| (refs[i].column@, reference_view(refs[i])))
}

/// An object whose fields are sorted by key and hold, for each key, the
/// value of its last entry.
pub open spec fn object_of(v: JsonView, entries: Seq<(Seq<char>, JsonView)>) -> bool {
    v matches JsonView::Object(f) && keys_sorted(f) && as_map(f) == as_map(entries)
}

/// The name of a kind of values.
pub fn primitive_label(p: JsonPrimitive) -> (s: &'static str)
    ensures
        s@ == primitive_name(p),
{
    proof {
        reveal_strlit("Null");
        reveal_strlit("Bool");
        reveal_strlit("Int");
        reveal_strlit("Float");
        reveal_strlit("String");
        reveal_strlit("Object");
        reveal_strlit("Array");
    }
    match p {
        JsonPrimitive::Null => "Null",
        JsonPrimitive::Bool => "Bool",
        JsonPrimitive::Int => "Int",
        JsonPrimitive::Float => "Float",
        JsonPrimitive::String => "String",
        JsonPrimitive::Object => "Object",
        JsonPrimitive::Array => "Array",
    }
}

/// The description of a field.
pub fn field_info_to_json(field_info: &FieldInfo) -> (j: Json)
    ensures
        j@ == field_info_view(*field_info),
{
    let mut fields: Vec<(String, Json)> = Vec::new();
    fields.push(("nullable".to_string(), Json::Bool(field_info.nullable)));
    fields.push(("type".to_string(), Json::Str(primitive_label(field_info.ty).to_string())));
    proof {
        lemma_object_view(fields);
        assert(fields_view(fields@) =~= seq![
            ("nullable"@, JsonView::Bool(field_info.nullable)),
            ("type"@, JsonView::Str(primitive_name(field_info.ty))),
        ]);
    }
    Json::Object(fields)
}

/// The description of a reference.
pub fn reference_to_json(s_ref: ReferenceColumn) -> (j: Json)
    ensures
        j@ == reference_view(s_ref),
{
    let ghost r = s_ref;
    let mut fields: Vec<(String, Json)> = Vec::new();
    fields.push(("collection".to_string(), Json::Str(s_ref.collection)));
    fields.push(("column".to_string(), Json::Str(s_ref.column)));
    fields.push(("ref_collection".to_string(), Json::Str(s_ref.ref_collection)));
    fields.push(("ref_column".to_string(), Json::Str(s_ref.ref_column)));
    proof {
        lemma_object_view(fields);
        assert(fields_view(fields@) =~= seq![
            ("collection"@, JsonView::Str(r.collection@)),
            ("column"@, JsonView::Str(r.column@)),
            ("ref_collection"@, JsonView::Str(r.ref_collection@)),
            ("ref_column"@, JsonView::Str(r.ref_column@)),
        ]);
    }
    Json::Object(fields)
}

/// A copy of a reference.
fn copy_reference(r: &ReferenceColumn) -> (c: ReferenceColumn)
    ensures
        c.collection@ == r.collection@,
        c.column@ == r.column@,
        c.ref_collection@ == r.ref_collection@,
        c.ref_column@ == r.ref_column@,
{
    ReferenceColumn {
        collection: r.collection.clone(),
        column: r.column.clone(),
        ref_collection: r.ref_collection.clone(),
        ref_column: r.ref_column.clone(),
    }
}

/// The reference descriptions, keyed by the referred column (`inbound`) or
/// by the referring column.
fn references_to_json(refs: &Vec<ReferenceColumn>, inbound: bool) -> (j: Json)
    ensures
        object_of(
            j@,
            if inbound {
                inbound_entries(refs@)
            } else {
                outbound_entries(refs@)
            },
        ),
{
    let ghost entries = if inbound {
        inbound_entries(refs@)
    } else {
        outbound_entries(refs@)
    };
    let mut out: Vec<(String, Json)> = Vec::new();
    let mut k: usize = 0;
    while k < refs.len()
        invariant
            k <= refs.len(),
            entries.len() == refs.len(),
            entries == if inbound {
                inbound_entries(refs@)
            } else {
                outbound_entries(refs@)
            },
            keys_sorted(fields_view(out@)),
            as_map(fields_view(out@)) == as_map(entries.take(k as int)),
        decreases refs.len() - k,
    {
        let r = copy_reference(&refs[k]);
        let key = if inbound {
            refs[k].ref_column.clone()
        } else {
            refs[k].column.clone()
        };
        assert(reference_view(r) == reference_view(refs@[k as int]));
        map_insert(&mut out, key, reference_to_json(r));
        assert(entries.take(k + 1).drop_last() =~= entries.take(k as int));
        k += 1;
    }
    assert(entries.take(refs.len() as int) =~= entries);
    proof {
        lemma_object_view(out);
    }
    Json::Object(out)
}

/// Whether `v` describes `schema`: `{"fields": .., "inbound_refs": ..,
/// "outbound_refs": ..}`, each an object in key order; fields by name,
/// inbound references by the referred column, outbound ones by the referring
/// column, a later entry under the same key replacing an earlier one.
pub open spec fn schema_described(v: JsonView, schema: SchemaWithRefs) -> bool {
    v matches JsonView::Object(top) && top.len() == 3 && top[0].0 == "fields"@ && object_of(
        top[0].1,
        field_entries(schema.fields@),
    ) && top[1].0 == "inbound_refs"@ && object_of(top[1].1, inbound_entries(schema.inbound_refs@))
        && top[2].0 == "outbound_refs"@ && object_of(
        top[2].1,
        outbound_entries(schema.outbound_refs@),
    )
}

/// The schemas by collection name, a later one replacing an earlier one;
/// collections without a schema are left out.
pub open spec fn schemas_by_name(c: Seq<(String, Option<SchemaWithRefs>)>) -> Map<
    Seq<char>,
    SchemaWithRefs,
>
    decreases c.len(),
{
    if c.len() == 0 {
        Map::empty()
    } else {
        let prev = schemas_by_name(c.drop_last());
        match c.last().1 {
            Some(s) => prev.insert(c.last().0@, s),
            None => prev,
        }
    }
}

/// The description of a schema.
pub fn schema_to_json(schema: &SchemaWithRefs) -> (j: Json)
    ensures
        schema_described(j@, *schema),
{
    let ghost entries = field_entries(schema.fields@);
    let mut fields: Vec<(String, Json)> = Vec::new();
    let mut k: usize = 0;
    while k < schema.fields.len()
        invariant
            k <= schema.fields.len(),
            entries == field_entries(schema.fields@),
            keys_sorted(fields_view(fields@)),
            as_map(fields_view(fields@)) == as_map(entries.take(k as int)),
        decreases schema.fields.len() - k,
    {
        let name = schema.fields[k].0.clone();
        let info = field_info_to_json(&schema.fields[k].1);
        map_insert(&mut fields, name, info);
        assert(entries.take(k + 1).drop_last() =~= entries.take(k as int));
        k += 1;
    }
    assert(entries.take(schema.fields.len() as int) =~= entries);
    proof {
        lemma_object_view(fields);
    }
    let inbound = references_to_json(&schema.inbound_refs, true);
    let outbound = references_to_json(&schema.outbound_refs, false);
    let ghost (fv, iv, ov) = (Json::Object(fields)@, inbound@, outbound@);
    let mut top: Vec<(String, Json)> = Vec::new();
    top.push(("fields".to_string(), Json::Object(fields)));
    top.push(("inbound_refs".to_string(), inbound));
    top.push(("outbound_refs".to_string(), outbound));
    proof {
        lemma_object_view(top);
        assert(fields_view(top@) =~= seq![
            ("fields"@, fv),
            ("inbound_refs"@, iv),
            ("outbound_refs"@, ov),
        ]);
    }
    Json::Object(top)
}

/// The descriptions of the collections that have a schema, keyed by
/// collection name in key order.
pub fn collections_to_json(collections: &Vec<(String, Option<SchemaWithRefs>)>) -> (j: Json)
    ensures
        j@ matches JsonView::Object(f) && keys_sorted(f) && as_map(f).dom() == schemas_by_name(
            collections@,
        ).dom() && forall|name: Seq<char>| #[trigger]
            as_map(f).contains_key(name) ==> schema_described(
                as_map(f)[name],
                schemas_by_name(collections@)[name],
            ),
{
    let mut out: Vec<(String, Json)> = Vec::new();
    let mut k: usize = 0;
    while k < collections.len()
        invariant
            k <= collections.len(),
            keys_sorted(fields_view(out@)),
            as_map(fields_view(out@)).dom() == schemas_by_name(collections@.take(k as int)).dom(),
            forall|name: Seq<char>| #[trigger]
                as_map(fields_view(out@)).contains_key(name) ==> schema_described(
                    as_map(fields_view(out@))[name],
                    schemas_by_name(collections@.take(k as int))[name],
                ),
        decreases collections.len() - k,
    {
        assert(collections@.take(k + 1).drop_last() =~= collections@.take(k as int));
        match &collections[k].1 {
            Some(schema) => {
                let d = schema_to_json(schema);
                map_insert(&mut out, collections[k].0.clone(), d);
            },
            None => {},
        }
        assert(as_map(fields_view(out@)).dom() =~= schemas_by_name(collections@.take(k + 1)).dom());
        k += 1;
    }
    assert(collections@.take(collections.len() as int) =~= collections@);
    proof {
        lemma_object_view(out);
    }
    Json::Object(out)
}

} // verus!
