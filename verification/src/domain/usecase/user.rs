//! The use cases on users.

pub mod delete_user;
pub mod update_user;
