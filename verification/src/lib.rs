//! Verified core of a notes service: identifier codec, schema mapping, query
//! construction and the decisions of the persistence gateway.

pub mod clock;
pub mod config;
pub mod db;
pub mod document;
pub mod email;
pub mod errors;
pub mod handlers;
pub mod laws;
pub mod mapper;
pub mod model;
pub mod oid;
pub mod query;
pub mod response;
pub mod schema;
pub mod store;
