//! Signing in.

pub mod dto;
