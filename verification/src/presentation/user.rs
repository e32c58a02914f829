//! Requests and responses about users.

pub mod dto;
