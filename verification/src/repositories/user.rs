//! The rows of users.

pub mod model;
