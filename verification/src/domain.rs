//! The domain: value objects, the aggregates made of them, and the
//! decisions of the use cases.

pub mod entity;
pub mod usecase;
pub mod vo;
