//! The requests that the crate describes and the responses that it shapes.

pub mod authentication;
pub mod client;
pub mod file;
pub mod table;
pub mod table_operations;
