//! Compiler front end for a restricted subset of OpenAPI 3.
//!
//! The crate turns an already-parsed OpenAPI document model into a
//! normalized intermediate representation: resources with their
//! operations, and the named record types their bodies reference.

pub mod api;
pub mod diag;
pub mod document;
pub mod field_type;
pub mod operation;
pub mod schema;
pub mod strutil;
pub mod types;
