//! TOML documents built with the `toml` crate for the generated main configuration.
//!
//! `toml::Value` is opaque here; each builder names what it returns as a function
//! of its arguments.

use vstd::prelude::*;

use crate::text::string_views;

verus! {

#[verifier::external_type_specification]
#[verifier::external_body]
pub struct ExTomlValue(toml::Value);

/// `toml::Value::Integer` of the given integer.
pub uninterp spec fn toml_integer(n: int) -> toml::Value;

/// `toml::Value::String` of the given text.
pub uninterp spec fn toml_string(s: Seq<char>) -> toml::Value;

/// `toml::Value::Boolean` of the given flag.
pub uninterp spec fn toml_boolean(b: bool) -> toml::Value;

/// `toml::Value::Table` built by inserting the key/value pairs in order.
pub uninterp spec fn toml_table(keys: Seq<Seq<char>>, values: Seq<toml::Value>) -> toml::Value;

/// What `toml::to_string_pretty` gives for a value: the document text, or `None`
/// where it reports a serialization error.
pub uninterp spec fn toml_pretty(v: toml::Value) -> Option<Seq<char>>;

/// Builds `Value::Integer`; named by [`toml_integer`].
#[verifier::external_body]
pub(crate) fn toml_int(n: i64) -> (v: toml::Value)
    ensures
        v == toml_integer(n as int),
{
    toml::Value::Integer(n)
}

/// Builds `Value::String`; named by [`toml_string`].
#[verifier::external_body]
pub(crate) fn toml_str(s: &str) -> (v: toml::Value)
    ensures
        v == toml_string(s@),
{
    toml::Value::String(s.to_string())
}

/// Builds `Value::Boolean`; named by [`toml_boolean`].
#[verifier::external_body]
pub(crate) fn toml_bool(b: bool) -> (v: toml::Value)
    ensures
        v == toml_boolean(b),
{
    toml::Value::Boolean(b)
}

/// Builds `Value::Table` by collecting the pairs into a `toml::map::Map`;
/// named by [`toml_table`].
#[verifier::external_body]
pub(crate) fn toml_tbl(keys: Vec<String>, values: Vec<toml::Value>) -> (v: toml::Value)
    requires
        keys.len() == values.len(),
    ensures
        v == toml_table(string_views(keys@), values@),
{
    toml::Value::Table(keys.into_iter().zip(values).collect())
}

/// Serializes a value with `toml::to_string_pretty`, its error turned into `None`;
/// named by [`toml_pretty`].
#[verifier::external_body]
pub(crate) fn toml_to_string_pretty(v: &toml::Value) -> (r: Option<String>)
    ensures
        match r {
            Some(s) => toml_pretty(*v) == Some(s@),
            None => toml_pretty(*v).is_none(),
        },
{
    toml::to_string_pretty(v).ok()
}

} // verus!
