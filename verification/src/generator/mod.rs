//! Interactive mock file and configuration generator.

pub mod content;
pub mod domain;
pub mod json;
pub mod main_config;
pub mod paths;
pub mod toml_doc;
pub mod tui;
pub mod writer;
