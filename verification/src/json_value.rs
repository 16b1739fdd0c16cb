//! JSON values as the in-memory collections hold them.

use vstd::prelude::*;

use serde_json::Value;

use crate::in_memory_collection::{content_view, opt_text, text_content, FileContent};

verus! {

/// A JSON number: its text (as serde_json displays it) and its value when it
/// is an unsigned 64-bit integer.
#[derive(Debug, Clone, PartialEq)]
pub struct JsonNumber {
    /// Decimal text of the number.
    pub text: String,
    /// The number, when it is a `u64`.
    pub unsigned: Option<u64>,
}

/// A JSON value. Object keys are unique.
#[derive(Debug)]
pub enum Json {
    /// `null`
    Null,
    /// `true` or `false`
    Bool(bool),
    /// A number.
    Number(JsonNumber),
    /// A string.
    Str(String),
    /// An array.
    Array(Vec<Json>),
    /// An object, as its fields in order.
    Object(Vec<(String, Json)>),
}

/// [`Json`] as plain values.
pub enum JsonView {
    /// `null`
    Null,
    /// `true` or `false`
    Bool(bool),
    /// A number: its text and its value when it is a `u64`.
    Number(Seq<char>, Option<u64>),
    /// A string.
    Str(Seq<char>),
    /// An array.
    Array(Seq<JsonView>),
    /// An object, as its fields in order.
    Object(Seq<(Seq<char>, JsonView)>),
}

/// The plain value of a JSON value.
pub open spec fn json_view(j: Json) -> JsonView
    decreases j,
{
    match j {
        Json::Null => JsonView::Null,
        Json::Bool(b) => JsonView::Bool(b),
        Json::Number(n) => JsonView::Number(n.text@, n.unsigned),
        Json::Str(s) => JsonView::Str(s@),
        Json::Array(items) => JsonView::Array(
            Seq::new(
                items.len() as nat,
                |i: int|
                    if 0 <= i < items.len() {
                        json_view(items@[i])
                    } else {
                        JsonView::Null
                    },
            ),
        ),
        Json::Object(fields) => JsonView::Object(
            Seq::new(
                fields.len() as nat,
                |i: int|
                    if 0 <= i < fields.len() {
                        (fields@[i].0@, json_view(fields@[i].1))
                    } else {
                        (Seq::empty(), JsonView::Null)
                    },
            ),
        ),
    }
}

impl View for Json {
    type V = JsonView;

    open spec fn view(&self) -> JsonView {
        json_view(*self)
    }
}

/// Position of the first field named `key`, if any.
pub open spec fn field_index(fields: Seq<(Seq<char>, JsonView)>, key: Seq<char>) -> Option<int>
    decreases fields.len(),
{
    if fields.len() == 0 {
        None
    } else {
        match field_index(fields.drop_last(), key) {
            Some(i) => Some(i),
            None => if fields.last().0 == key {
                Some(fields.len() - 1)
            } else {
                None
            },
        }
    }
}

/// The value of the field named `key`, if any.
pub open spec fn field_value(fields: Seq<(Seq<char>, JsonView)>, key: Seq<char>) -> Option<JsonView> {
    match field_index(fields, key) {
        Some(i) => Some(fields[i].1),
        None => None,
    }
}

/// `fields` with the field `key` set to `value`: replaced in place when it
/// exists, appended otherwise.
pub open spec fn fields_with(
    fields: Seq<(Seq<char>, JsonView)>,
    key: Seq<char>,
    value: JsonView,
) -> Seq<(Seq<char>, JsonView)> {
    match field_index(fields, key) {
        Some(i) => fields.update(i, (key, value)),
        None => fields.push((key, value)),
    }
}

/// A value with the field `key` set to `value` when it is an object;
/// any other value is left as it is.
pub open spec fn with_field(v: JsonView, key: Seq<char>, value: JsonView) -> JsonView {
    match v {
        JsonView::Object(fields) => JsonView::Object(fields_with(fields, key, value)),
        _ => v,
    }
}

/// What the field `key` of a value holds, as an identifier: text for a
/// string, the number's text and value for a number, nothing otherwise
/// (another type, a missing field, or a value that is not an object).
pub enum IdField {
    /// A string field.
    Text(Seq<char>),
    /// A number field: its text and its value when it is a `u64`.
    Number(Seq<char>, Option<u64>),
    /// No usable field.
    Absent,
}

/// The field `key` of a value, read as an identifier.
pub open spec fn id_field(v: JsonView, key: Seq<char>) -> IdField {
    match v {
        JsonView::Object(fields) => match field_value(fields, key) {
            Some(JsonView::Str(s)) => IdField::Text(s),
            Some(JsonView::Number(t, u)) => IdField::Number(t, u),
            _ => IdField::Absent,
        },
        _ => IdField::Absent,
    }
}


/// The plain fields of an object.
pub open spec fn fields_view(fields: Seq<(String, Json)>) -> Seq<(Seq<char>, JsonView)> {
    Seq::new(fields.len(), |i: int| (fields[i].0@, json_view(fields[i].1)))
}

/// An object's plain value is the plain value of its fields.
pub proof fn lemma_object_view(fields: Vec<(String, Json)>)
    ensures
        json_view(Json::Object(fields)) == JsonView::Object(fields_view(fields@)),
{
    if let JsonView::Object(a) = json_view(Json::Object(fields)) {
        assert(a =~= fields_view(fields@));
    }
}

/// An array's plain value is the plain value of its items.
pub proof fn lemma_array_view(items: Vec<Json>)
    ensures
        json_view(Json::Array(items)) == JsonView::Array(items@.map_values(|j: Json| j@)),
{
    if let JsonView::Array(a) = json_view(Json::Array(items)) {
        assert(a =~= items@.map_values(|j: Json| j@));
    }
}

/// `update` merged into `base`: two objects merge field by field (fields of
/// both merge recursively, new fields are added); otherwise `update` wins.
pub open spec fn merged(base: JsonView, update: JsonView) -> JsonView
    decreases update,
{
    match (base, update) {
        (JsonView::Object(b), JsonView::Object(u)) => JsonView::Object(merged_fields(b, u)),
        _ => update,
    }
}

/// The fields of `u`, in order, merged into the fields `b`.
pub open spec fn merged_fields(
    b: Seq<(Seq<char>, JsonView)>,
    u: Seq<(Seq<char>, JsonView)>,
) -> Seq<(Seq<char>, JsonView)>
    decreases u,
{
    if u.len() == 0 {
        b
    } else {
        let rest = merged_fields(b, u.drop_last());
        let key = u.last().0;
        let value = u.last().1;
        match field_index(rest, key) {
            Some(i) => if 0 <= i < rest.len() {
                rest.update(i, (key, merged(rest[i].1, value)))
            } else {
                rest
            },
            None => rest.push((key, value)),
        }
    }
}

/// Facts about [`field_index`]: the position holds the key, and no earlier one does.
pub proof fn lemma_field_index(fields: Seq<(Seq<char>, JsonView)>, key: Seq<char>)
    ensures
        match field_index(fields, key) {
            Some(i) => 0 <= i < fields.len() && fields[i].0 == key && forall|j: int|
                0 <= j < i ==> fields[j].0 != key,
            None => forall|j: int| 0 <= j < fields.len() ==> fields[j].0 != key,
        },
    decreases fields.len(),
{
    if fields.len() > 0 {
        lemma_field_index(fields.drop_last(), key);
        match field_index(fields.drop_last(), key) {
            Some(i) => {
                assert forall|j: int| 0 <= j < i implies fields[j].0 != key by {
                    assert(fields[j] == fields.drop_last()[j]);
                }
            },
            None => {
                assert forall|j: int| 0 <= j < fields.len() - 1 implies fields[j].0 != key by {
                    assert(fields[j] == fields.drop_last()[j]);
                }
            },
        }
    }
}

impl Json {
    /// A copy of the value.
    pub fn duplicate(&self) -> (r: Json)
        ensures
            r@ == self@,
        decreases self,
    {
        match self {
            Json::Null => Json::Null,
            Json::Bool(b) => Json::Bool(*b),
            Json::Number(n) => Json::Number(JsonNumber { text: n.text.clone(), unsigned: n.unsigned }),
            Json::Str(s) => Json::Str(s.clone()),
            Json::Array(items) => {
                let mut out: Vec<Json> = Vec::new();
                let mut k: usize = 0;
                while k < items.len()
                    invariant
                        *self == Json::Array(*items),
                        k <= items.len(),
                        out.len() == k,
                        forall|j: int| 0 <= j < k ==> #[trigger] json_view(out@[j]) == json_view(items@[j]),
                    decreases items.len() - k,
                {
                    proof {
                        assert(decreases_to!(*self => self->Array_0));
                        assert(decreases_to!(self->Array_0 => self->Array_0@));
                        assert(decreases_to!(self->Array_0@ => self->Array_0@[k as int]));
                    }
                    out.push(items[k].duplicate());
                    k += 1;
                }
                let r = Json::Array(out);
                let ghost va = Seq::new(
                    out.len() as nat,
                    |i: int|
                        if 0 <= i < out.len() {
                            json_view(out@[i])
                        } else {
                            JsonView::Null
                        },
                );
                let ghost vb = Seq::new(
                    items.len() as nat,
                    |i: int|
                        if 0 <= i < items.len() {
                            json_view(items@[i])
                        } else {
                            JsonView::Null
                        },
                );
                proof {
                    assert(va =~= vb);
                    if let JsonView::Array(a) = r@ {
                        assert(a =~= va);
                    }
                    if let JsonView::Array(b) = self@ {
                        assert(b =~= vb);
                    }
                }
                r
            },
            Json::Object(fields) => {
                let mut out: Vec<(String, Json)> = Vec::new();
                let mut k: usize = 0;
                while k < fields.len()
                    invariant
                        *self == Json::Object(*fields),
                        k <= fields.len(),
                        out.len() == k,
                        forall|j: int|
                            0 <= j < k ==> (#[trigger] out@[j]).0@ == fields@[j].0@ && out@[j].1@
                                == fields@[j].1@,
                    decreases fields.len() - k,
                {
                    proof {
                        assert(decreases_to!(*self => self->Object_0));
                        assert(decreases_to!(self->Object_0 => self->Object_0@));
                        assert(decreases_to!(self->Object_0@ => self->Object_0@[k as int]));
                        assert(decreases_to!(self->Object_0@[k as int] => self->Object_0@[k as int].1));
                    }
                    out.push((fields[k].0.clone(), fields[k].1.duplicate()));
                    k += 1;
                }
                let r = Json::Object(out);
                let ghost va = Seq::new(
                    out.len() as nat,
                    |i: int|
                        if 0 <= i < out.len() {
                            (out@[i].0@, json_view(out@[i].1))
                        } else {
                            (Seq::empty(), JsonView::Null)
                        },
                );
                let ghost vb = Seq::new(
                    fields.len() as nat,
                    |i: int|
                        if 0 <= i < fields.len() {
                            (fields@[i].0@, json_view(fields@[i].1))
                        } else {
                            (Seq::empty(), JsonView::Null)
                        },
                );
                proof {
                    assert(va =~= vb);
                    if let JsonView::Object(a) = r@ {
                        assert(a =~= va);
                    }
                    if let JsonView::Object(b) = self@ {
                        assert(b =~= vb);
                    }
                }
                r
            },
        }
    }
}


/// What the field of a value holds, read as an identifier.
#[derive(Debug)]
pub enum IdFieldValue {
    /// A string field.
    Text(String),
    /// A number field: its text and its value when it is a `u64`.
    Number(String, Option<u64>),
    /// No usable field.
    Absent,
}

/// [`IdFieldValue`] as plain values.
pub open spec fn id_field_view(f: IdFieldValue) -> IdField {
    match f {
        IdFieldValue::Text(s) => IdField::Text(s@),
        IdFieldValue::Number(t, u) => IdField::Number(t@, u),
        IdFieldValue::Absent => IdField::Absent,
    }
}

/// Position of the first field named `key`, if any.
pub fn find_field(fields: &Vec<(String, Json)>, key: &str) -> (r: Option<usize>)
    ensures
        match r {
            Some(i) => i < fields.len() && field_index(fields_view(fields@), key@) == Some(i as int),
            None => field_index(fields_view(fields@), key@) is None,
        },
{
    let ghost fv = fields_view(fields@);
    proof {
        lemma_field_index(fv, key@);
    }
    let mut i: usize = 0;
    while i < fields.len()
        invariant
            i <= fields.len(),
            fv == fields_view(fields@),
            forall|j: int| 0 <= j < i ==> fv[j].0 != key@,
            match field_index(fv, key@) {
                Some(x) => 0 <= x < fv.len() && fv[x].0 == key@ && forall|j: int|
                    0 <= j < x ==> fv[j].0 != key@,
                None => forall|j: int| 0 <= j < fv.len() ==> fv[j].0 != key@,
            },
        decreases fields.len() - i,
    {
        if crate::text::chars_eq_str(&crate::text::chars_of(fields[i].0.as_str()), key) {
            assert(fv[i as int].0 == key@);
            return Some(i);
        }
        i += 1;
    }
    None
}

/// `fields` with the field `key` set to `value`.
fn set_in_fields(fields: &mut Vec<(String, Json)>, key: &str, value: Json)
    ensures
        fields_view(final(fields)@) == fields_with(fields_view(old(fields)@), key@, value@),
{
    let ghost before = fields_view(fields@);
    match find_field(fields, key) {
        Some(i) => {
            fields.set(i, (key.to_string(), value));
            assert(fields_view(fields@) =~= before.update(i as int, (key@, value@)));
        },
        None => {
            fields.push((key.to_string(), value));
            assert(fields_view(fields@) =~= before.push((key@, value@)));
        },
    }
}

/// The value with the field `key` set to `value` when it is an object.
pub fn set_field(item: Json, key: &str, value: Json) -> (r: Json)
    ensures
        r@ == with_field(item@, key@, value@),
{
    match item {
        Json::Object(mut fields) => {
            proof {
                lemma_object_view(fields);
            }
            set_in_fields(&mut fields, key, value);
            proof {
                lemma_object_view(fields);
            }
            Json::Object(fields)
        },
        other => other,
    }
}

/// The field `key` of a value, read as an identifier.
pub fn get_id_field(item: &Json, key: &str) -> (r: IdFieldValue)
    ensures
        id_field_view(r) == id_field(item@, key@),
{
    match item {
        Json::Object(fields) => {
            proof {
                lemma_object_view(*fields);
            }
            match find_field(fields, key) {
                Some(i) => match &fields[i].1 {
                    Json::Str(s) => IdFieldValue::Text(s.clone()),
                    Json::Number(n) => IdFieldValue::Number(n.text.clone(), n.unsigned),
                    _ => IdFieldValue::Absent,
                },
                None => IdFieldValue::Absent,
            }
        },
        _ => IdFieldValue::Absent,
    }
}

/// Merges `update` into `base`: two objects merge field by field, anything
/// else is replaced by `update`.
pub fn merge_json_values(base: Json, update: Json) -> (r: Json)
    ensures
        r@ == merged(base@, update@),
    decreases update@,
{
    let ghost update_view = update@;
    let ghost base_view = base@;
    match base {
        Json::Object(mut b) => match &update {
            Json::Object(u) => {
                proof {
                    lemma_object_view(b);
                    lemma_object_view(*u);
                }
                let ghost bv = fields_view(b@);
                let ghost uv = fields_view(u@);
                let mut k: usize = 0;
                while k < u.len()
                    invariant
                        k <= u.len(),
                        uv == fields_view(u@),
                        update_view == JsonView::Object(uv),
                        update_view == update@,
                        fields_view(b@) == merged_fields(bv, uv.take(k as int)),
                    decreases u.len() - k,
                {
                    let ghost rest = fields_view(b@);
                    assert(uv.take(k + 1).drop_last() =~= uv.take(k as int));
                    assert(uv.take(k + 1).last() == uv[k as int]);
                    let key = u[k].0.as_str();
                    match find_field(&b, key) {
                        Some(i) => {
                            proof {
                                assert(decreases_to!(update_view => update_view->Object_0));
                                assert(decreases_to!(update_view->Object_0 => update_view->Object_0[k as int]));
                                assert(decreases_to!(update_view->Object_0[k as int] => update_view->Object_0[k as int].1));
                            }
                            let existing = b[i].1.duplicate();
                            let incoming = u[k].1.duplicate();
                            proof {
                                assert(incoming@ == update_view->Object_0[k as int].1);
                                assert(decreases_to!(update_view => incoming@));
                            }
                            let m = merge_json_values(existing, incoming);
                            b.set(i, (key.to_string(), m));
                            assert(fields_view(b@) =~= rest.update(
                                i as int,
                                (uv[k as int].0, merged(rest[i as int].1, uv[k as int].1)),
                            ));
                        },
                        None => {
                            b.push((key.to_string(), u[k].1.duplicate()));
                            assert(fields_view(b@) =~= rest.push(uv[k as int]));
                        },
                    }
                    k += 1;
                }
                assert(uv.take(u.len() as int) =~= uv);
                proof {
                    lemma_object_view(b);
                }
                Json::Object(b)
            },
            _ => update,
        },
        _ => update,
    }
}


/// The field `key` of a value: `Value::get` with a string key, which finds
/// nothing in a value that is not an object.
pub open spec fn json_field(v: JsonView, key: Seq<char>) -> Option<JsonView> {
    match v {
        JsonView::Object(fields) => field_value(fields, key),
        _ => None,
    }
}

/// The text of the field `key` when it is a string.
pub open spec fn str_field(v: JsonView, key: Seq<char>) -> Option<Seq<char>> {
    match json_field(v, key) {
        Some(JsonView::Str(s)) => Some(s),
        _ => None,
    }
}

/// The plain value of an optional reference to a JSON value.
pub open spec fn opt_view(r: Option<&Json>) -> Option<JsonView> {
    match r {
        Some(j) => Some(j@),
        None => None,
    }
}

/// `Value::get` with a string key.
pub fn json_get<'a>(v: &'a Json, key: &str) -> (r: Option<&'a Json>)
    ensures
        opt_view(r) == json_field(v@, key@),
{
    match v {
        Json::Object(fields) => {
            proof {
                lemma_object_view(*fields);
            }
            match find_field(fields, key) {
                Some(i) => Some(&fields[i].1),
                None => None,
            }
        },
        _ => None,
    }
}

/// The text of the field `key` when it is a string.
pub fn get_str_field(v: &Json, key: &str) -> (r: Option<String>)
    ensures
        match r {
            Some(s) => str_field(v@, key@) == Some(s@),
            None => str_field(v@, key@) is None,
        },
{
    match json_get(v, key) {
        Some(Json::Str(s)) => Some(s.clone()),
        _ => None,
    }
}

/// The fields without those named `key`.
pub open spec fn fields_without(fields: Seq<(Seq<char>, JsonView)>, key: Seq<char>) -> Seq<(Seq<char>, JsonView)> {
    fields.filter(key_differs(key))
}

/// Whether a field is not named `key`.
pub open spec fn key_differs(key: Seq<char>) -> spec_fn((Seq<char>, JsonView)) -> bool {
    |f: (Seq<char>, JsonView)| f.0 != key
}

/// A value without its field `key` when it is an object; any other value is
/// left as it is.
pub open spec fn without_field(v: JsonView, key: Seq<char>) -> JsonView {
    match v {
        JsonView::Object(fields) => JsonView::Object(fields_without(fields, key)),
        _ => v,
    }
}

/// Removes the field `key` of an object (`Map::remove`); any other value is
/// returned as it is.
pub fn remove_field(item: Json, key: &str) -> (r: Json)
    ensures
        r@ == without_field(item@, key@),
{
    match item {
        Json::Object(fields) => {
            proof {
                lemma_object_view(fields);
            }
            let ghost fv = fields_view(fields@);
            let mut kept: Vec<(String, Json)> = Vec::new();
            let n = fields.len();
            let mut i: usize = 0;
            while i < n
                invariant
                    n == fields.len(),
                    i <= n,
                    fv == fields_view(fields@),
                    fields_view(kept@) == fields_without(fv.take(i as int), key@),
                decreases n - i,
            {
                let ghost before = fields_view(kept@);
                assert(fv.take(i + 1) =~= fv.take(i as int).push(fv[i as int]));
                proof {
                    fv.take(i as int).lemma_filter_push(fv[i as int], key_differs(key@));
                }
                if !crate::text::chars_eq_str(&crate::text::chars_of(fields[i].0.as_str()), key) {
                    kept.push((fields[i].0.clone(), fields[i].1.duplicate()));
                    assert(fv[i as int].0 != key@);
                    assert(fields_without(fv.take(i + 1), key@) == fields_without(
                        fv.take(i as int),
                        key@,
                    ).push(fv[i as int]));
                    assert(fields_view(kept@) =~= before.push(fv[i as int]));
                } else {
                    assert(fv[i as int].0 == key@);
                    assert(fields_without(fv.take(i + 1), key@) == fields_without(
                        fv.take(i as int),
                        key@,
                    ));
                    assert(fields_view(kept@) =~= before);
                }
                i += 1;
            }
            assert(fv.take(n as int) =~= fv);
            proof {
                lemma_object_view(kept);
            }
            Json::Object(kept)
        },
        other => other,
    }
}

/// What `serde_json::from_str::<serde_json::Value>` reads from a text, as a
/// plain value; `None` where it refuses the text.
pub uninterp spec fn parsed_json(text: Seq<char>) -> Option<JsonView>;

/// Parses JSON text with `serde_json::from_str::<serde_json::Value>` and turns
/// the value into a [`Json`] one for one (each nested value through the text
/// serde_json writes for it): objects keep serde_json's key order, a number
/// keeps its text and its `u64` value. The contract names the result; what
/// serde_json accepts and the key order it gives are not stated.
#[verifier::external_body]
pub fn parse_json(text: &str) -> (r: Option<Json>)
    ensures
        match r {
            Some(j) => parsed_json(text@) == Some(j@),
            None => parsed_json(text@) is None,
        },
{
    let node = |v: &Value| parse_json(&v.to_string()).unwrap_or(Json::Null);
    Some(match serde_json::from_str::<Value>(text).ok()? {
        Value::Null => Json::Null,
        Value::Bool(b) => Json::Bool(b),
        Value::Number(n) => Json::Number(JsonNumber { text: n.to_string(), unsigned: n.as_u64() }),
        Value::String(t) => Json::Str(t),
        Value::Array(a) => Json::Array(a.iter().map(node).collect()),
        Value::Object(m) => Json::Object(m.iter().map(|(k, v)| (k.clone(), node(v))).collect()),
    })
}

/// What came of a data file: its text, when it could be read, parsed as JSON.
pub fn file_content_of(text: Option<&str>) -> (c: FileContent)
    ensures
        match text {
            None => c is Unreadable,
            Some(t) => match parsed_json(t@) {
                None => c is InvalidJson,
                Some(v) => c matches FileContent::Parsed(j) && j@ == v,
            },
        },
        content_view(c) == text_content(opt_text(text)),
{
    match text {
        None => FileContent::Unreadable,
        Some(t) => match parse_json(t) {
            Some(j) => FileContent::Parsed(j),
            None => FileContent::InvalidJson,
        },
    }
}

} // verus!
