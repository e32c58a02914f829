//! The rows in which aggregates are stored, and how a row becomes an
//! aggregate and an aggregate a row. Reading and writing rows is the work
//! of a repository outside of this crate.

pub mod customer_service;
pub mod user;
