//! Domain layer of a directory service: validated value objects, the error
//! taxonomy every layer reports through, credentials and the aggregates
//! built from them.

pub mod common;
pub mod domain;
pub mod infrastructure;
pub mod presentation;
pub mod repositories;
pub mod text;
