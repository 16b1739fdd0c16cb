//! Settings of an in-memory collection: its name and how its ids are made.

use vstd::prelude::*;

use crate::id_manager::IdType;

verus! {

/// Settings of an in-memory collection.
#[derive(Debug, Clone)]
pub struct CollectionConfig {
    /// Identifier strategy.
    pub id_type: IdType,
    /// Name of the identifier field.
    pub id_key: String,
    /// Collection name.
    pub name: String,
}

impl CollectionConfig {
    /// An unnamed collection (`{unknown}`) with UUID ids under `id`.
    pub fn new() -> (c: Self)
        ensures
            c.id_type == IdType::Uuid,
            c.id_key@ == "id"@,
            c.name@ == "{unknown}"@,
    {
        CollectionConfig {
            id_type: IdType::Uuid,
            id_key: "id".to_string(),
            name: "{unknown}".to_string(),
        }
    }

    /// A collection with the given id strategy, id field and name.
    pub fn from(id_type: IdType, id_key: &str, name: &str) -> (c: Self)
        ensures
            c.id_type == id_type,
            c.id_key@ == id_key@,
            c.name@ == name@,
    {
        CollectionConfig { id_type, id_key: id_key.to_string(), name: name.to_string() }
    }

    /// A collection with integer ids.
    pub fn integer(id_key: &str, name: &str) -> (c: Self)
        ensures
            c.id_type == IdType::Int,
            c.id_key@ == id_key@,
            c.name@ == name@,
    {
        Self::from(IdType::Int, id_key, name)
    }

    /// A collection with UUID ids.
    pub fn uuid(id_key: &str, name: &str) -> (c: Self)
        ensures
            c.id_type == IdType::Uuid,
            c.id_key@ == id_key@,
            c.name@ == name@,
    {
        Self::from(IdType::Uuid, id_key, name)
    }

    /// A collection without generated ids.
    pub fn none(id_key: &str, name: &str) -> (c: Self)
        ensures
            c.id_type == IdType::NoId,
            c.id_key@ == id_key@,
            c.name@ == name@,
    {
        Self::from(IdType::NoId, id_key, name)
    }
}

} // verus!
