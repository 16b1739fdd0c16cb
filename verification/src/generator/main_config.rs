//! The generated main configuration file, `rs-mock-server.toml`.

use vstd::prelude::*;

use crate::generator::domain::{file_op, MainConfigSelection, WriteOpView, WriteOperation, WritePlan};
use crate::generator::toml_doc::{
    toml_bool, toml_boolean, toml_int, toml_integer, toml_pretty, toml_str, toml_string, toml_table,
    toml_tbl, toml_to_string_pretty,
};
use crate::text::string_views;

verus! {

/// Keys of the `[server]` table: `port`, `folder`, `enable_cors`, then `allowed_origin` when set.
pub open spec fn server_keys(sel: MainConfigSelection) -> Seq<Seq<char>> {
    let base = seq!["port"@, "folder"@, "enable_cors"@];
    match sel.allowed_origin {
        Some(_) => base.push("allowed_origin"@),
        None => base,
    }
}

/// Values of the `[server]` table, matching [`server_keys`].
pub open spec fn server_values(sel: MainConfigSelection) -> Seq<toml::Value> {
    let base = seq![
        toml_integer(sel.port as int),
        toml_string(sel.folder@),
        toml_boolean(sel.enable_cors),
    ];
    match sel.allowed_origin {
        Some(origin) => base.push(toml_string(origin@)),
        None => base,
    }
}

/// Keys of the `[route]` table: `delay`, `remap`, `protect`, each only when set.
pub open spec fn route_keys(sel: MainConfigSelection) -> Seq<Seq<char>> {
    let a: Seq<Seq<char>> = if sel.delay.is_some() { seq!["delay"@] } else { Seq::empty() };
    let b: Seq<Seq<char>> = if sel.remap.is_some() { seq!["remap"@] } else { Seq::empty() };
    let c: Seq<Seq<char>> = if sel.protect.is_some() { seq!["protect"@] } else { Seq::empty() };
    a + b + c
}

/// Values of the `[route]` table, matching [`route_keys`].
pub open spec fn route_values(sel: MainConfigSelection) -> Seq<toml::Value> {
    let a: Seq<toml::Value> = match sel.delay {
        Some(d) => seq![toml_integer(d as int)],
        None => Seq::empty(),
    };
    let b: Seq<toml::Value> = match sel.remap {
        Some(r) => seq![toml_string(r@)],
        None => Seq::empty(),
    };
    let c: Seq<toml::Value> = match sel.protect {
        Some(p) => seq![toml_boolean(p)],
        None => Seq::empty(),
    };
    a + b + c
}

/// The configuration document: `[server]`, then `[route]` when route defaults are included.
pub open spec fn main_config_document(sel: MainConfigSelection) -> toml::Value {
    if sel.include_route_defaults {
        toml_table(
            seq!["server"@, "route"@],
            seq![
                toml_table(server_keys(sel), server_values(sel)),
                toml_table(route_keys(sel), route_values(sel)),
            ],
        )
    } else {
        toml_table(seq!["server"@], seq![toml_table(server_keys(sel), server_values(sel))])
    }
}

fn server_table(selection: &MainConfigSelection) -> (v: toml::Value)
    ensures
        v == toml_table(server_keys(*selection), server_values(*selection)),
{
    let mut keys: Vec<String> = Vec::new();
    let mut values: Vec<toml::Value> = Vec::new();
    keys.push("port".to_string());
    values.push(toml_int(selection.port as i64));
    keys.push("folder".to_string());
    values.push(toml_str(selection.folder.as_str()));
    keys.push("enable_cors".to_string());
    values.push(toml_bool(selection.enable_cors));
    if let Some(origin) = &selection.allowed_origin {
        keys.push("allowed_origin".to_string());
        values.push(toml_str(origin.as_str()));
    }
    assert(string_views(keys@) =~= server_keys(*selection));
    assert(values@ =~= server_values(*selection));
    toml_tbl(keys, values)
}

fn route_table(selection: &MainConfigSelection) -> (v: toml::Value)
    ensures
        v == toml_table(route_keys(*selection), route_values(*selection)),
{
    let mut keys: Vec<String> = Vec::new();
    let mut values: Vec<toml::Value> = Vec::new();
    if let Some(delay) = selection.delay {
        keys.push("delay".to_string());
        values.push(toml_int(delay as i64));
    }
    if let Some(remap) = &selection.remap {
        keys.push("remap".to_string());
        values.push(toml_str(remap.as_str()));
    }
    if let Some(protect) = selection.protect {
        keys.push("protect".to_string());
        values.push(toml_bool(protect));
    }
    assert(string_views(keys@) =~= route_keys(*selection));
    assert(values@ =~= route_values(*selection));
    toml_tbl(keys, values)
}

/// Renders `rs-mock-server.toml`: the document text, or `None` where the TOML
/// serializer reports an error.
pub fn render_main_config(selection: &MainConfigSelection) -> (r: Option<String>)
    ensures
        match r {
            Some(s) => toml_pretty(main_config_document(*selection)) == Some(s@),
            None => toml_pretty(main_config_document(*selection)).is_none(),
        },
{
    let mut keys: Vec<String> = Vec::new();
    let mut values: Vec<toml::Value> = Vec::new();
    keys.push("server".to_string());
    values.push(server_table(selection));
    if selection.include_route_defaults {
        keys.push("route".to_string());
        values.push(route_table(selection));
    }
    assert(string_views(keys@) =~= (if selection.include_route_defaults {
        seq!["server"@, "route"@]
    } else {
        seq!["server"@]
    }));
    assert(values@ =~= (if selection.include_route_defaults {
        seq![
            toml_table(server_keys(*selection), server_values(*selection)),
            toml_table(route_keys(*selection), route_values(*selection)),
        ]
    } else {
        seq![toml_table(server_keys(*selection), server_values(*selection))]
    }));
    let root = toml_tbl(keys, values);
    assert(root == main_config_document(*selection));
    toml_to_string_pretty(&root)
}

/// The plan of a rendered configuration: one file, `rs-mock-server.toml`.
pub open spec fn main_config_plan(text: Seq<char>) -> Seq<WriteOpView> {
    seq![file_op("rs-mock-server.toml"@, text)]
}

/// Builds a write plan for `rs-mock-server.toml`, when the configuration renders.
pub fn build_main_config_plan(selection: &MainConfigSelection) -> (plan: Option<WritePlan>)
    ensures
        match plan {
            Some(p) => exists|text: Seq<char>|
                toml_pretty(main_config_document(*selection)) == Some(text) && p@ == main_config_plan(text),
            None => toml_pretty(main_config_document(*selection)).is_none(),
        },
{
    match render_main_config(selection) {
        Some(content) => {
            let ghost text = content@;
            let mut plan = WritePlan::default();
            plan.push(WriteOperation::file("rs-mock-server.toml".to_string(), content));
            assert(plan@ =~= main_config_plan(text));
            Some(plan)
        },
        None => None,
    }
}

} // verus!
