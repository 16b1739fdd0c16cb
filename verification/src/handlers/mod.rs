//! The decisions of the HTTP handlers: error answers, authentication,
//! collection schema descriptions, the GraphQL endpoint and uploads, over
//! plain values.

pub mod error_response;
pub mod auth_handlers;
pub mod collections_handlers;
pub mod graphql_handlers;
pub mod upload_handlers;
pub mod utils;
