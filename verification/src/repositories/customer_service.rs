//! The rows of listings.

pub mod model;
