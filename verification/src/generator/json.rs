//! JSON documents built with `serde_json` for generated sample content.
//!
//! `serde_json::Value` is opaque here. Each builder below names what it returns
//! as a function of its arguments, so contracts elsewhere can say exactly which
//! document is rendered without restating `serde_json`'s serializer.

use vstd::prelude::*;

use crate::text::string_views;

verus! {

#[verifier::external_type_specification]
#[verifier::external_body]
pub struct ExJsonValue(serde_json::Value);

/// `serde_json::Value::String` of the given text.
pub uninterp spec fn serde_json_string(s: Seq<char>) -> serde_json::Value;

/// `serde_json::Value::from(i64)` of the given integer.
pub uninterp spec fn serde_json_int(n: int) -> serde_json::Value;

/// `serde_json::Value::Bool` of the given flag.
pub uninterp spec fn serde_json_bool(b: bool) -> serde_json::Value;

/// `serde_json::Value::Array` of the given items.
pub uninterp spec fn serde_json_array(items: Seq<serde_json::Value>) -> serde_json::Value;

/// `serde_json::Value::Object` built by inserting the key/value pairs in order
/// (a later key replaces an earlier equal one).
pub uninterp spec fn serde_json_object(keys: Seq<Seq<char>>, values: Seq<serde_json::Value>) -> serde_json::Value;

/// The pretty-printed text of a value (`serde_json::to_string_pretty`, two-space indent).
pub uninterp spec fn serde_json_pretty(v: serde_json::Value) -> Seq<char>;

/// The compact text of a value (`serde_json::to_string`).
pub uninterp spec fn serde_json_compact(v: serde_json::Value) -> Seq<char>;

/// Builds `Value::String`; the result is named by [`serde_json_string`].
#[verifier::external_body]
pub(crate) fn json_string(s: &str) -> (v: serde_json::Value)
    ensures
        v == serde_json_string(s@),
{
    serde_json::Value::String(s.to_string())
}

/// Builds a JSON number with `Value::from(i64)`; named by [`serde_json_int`].
#[verifier::external_body]
pub(crate) fn json_int(n: i64) -> (v: serde_json::Value)
    ensures
        v == serde_json_int(n as int),
{
    serde_json::Value::from(n)
}

/// Builds `Value::Bool`; named by [`serde_json_bool`].
#[verifier::external_body]
pub(crate) fn json_bool(b: bool) -> (v: serde_json::Value)
    ensures
        v == serde_json_bool(b),
{
    serde_json::Value::Bool(b)
}

/// Builds `Value::Array` of the items; named by [`serde_json_array`].
#[verifier::external_body]
pub(crate) fn json_array(items: Vec<serde_json::Value>) -> (v: serde_json::Value)
    ensures
        v == serde_json_array(items@),
{
    serde_json::Value::Array(items)
}

/// Builds `Value::Object` by collecting the pairs into a `serde_json::Map`;
/// named by [`serde_json_object`].
#[verifier::external_body]
pub(crate) fn json_object(keys: Vec<String>, values: Vec<serde_json::Value>) -> (v: serde_json::Value)
    requires
        keys.len() == values.len(),
    ensures
        v == serde_json_object(string_views(keys@), values@),
{
    serde_json::Value::Object(keys.into_iter().zip(values).collect())
}

/// Pretty-prints a value through its alternate `Display` (the same output as
/// `serde_json::to_string_pretty`); named by [`serde_json_pretty`].
#[verifier::external_body]
pub(crate) fn json_pretty(v: &serde_json::Value) -> (s: String)
    ensures
        s@ == serde_json_pretty(*v),
{
    format!("{:#}", v)
}

/// Writes a value compactly through its `Display` (the same output as
/// `serde_json::to_string`); named by [`serde_json_compact`].
#[verifier::external_body]
pub(crate) fn json_compact(v: &serde_json::Value) -> (s: String)
    ensures
        s@ == serde_json_compact(*v),
{
    v.to_string()
}

} // verus!
