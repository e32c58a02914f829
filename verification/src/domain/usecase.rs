//! What the use cases decide. Reading and writing users is the work of a
//! repository outside of this crate; a use case says what to ask of it
//! next and what to make of its answer.

pub mod user;
