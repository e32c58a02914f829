//! What the domain hands to the layer that talks to clients: the shape of
//! requests and responses, and how a failure is reported.

pub mod auth;
pub mod error_handler;
pub mod user;
