//! File-backed mock API server: route planning, generator wizard and in-memory helpers.

pub mod text;
pub mod config;
pub mod collection_files;
pub mod criteria;
pub mod id_manager;
pub mod generator;
pub mod memory_db;
pub mod build_dyn_routes;
pub mod link;
pub mod pages;
pub mod json_value;
pub mod json_map;
pub mod in_memory_collection;
pub mod file_types;
pub mod app;
pub mod rest;
pub mod handlers;
pub mod session;
