//! What every layer shares: the error taxonomy and the result type.

pub mod error;
pub mod result;
