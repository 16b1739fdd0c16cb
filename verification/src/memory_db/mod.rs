//! Pieces of the in-memory collection store: collection settings, the boolean
//! operators of criteria, the criteria splitter, a character scanner and the
//! collection that answers criteria queries.

pub mod collection_config;
pub mod criteria;
pub mod criteria_builder;
pub mod memory_collection;
pub mod string_pointer;
