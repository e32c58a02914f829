//! What the domain knows of the machinery around it.

pub mod postgres;
