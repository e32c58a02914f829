//! Aggregates: records made of value objects and of nothing else.

pub mod customer_service;
pub mod person;
pub mod user;
