//! The result of every fallible operation of the domain.

use vstd::prelude::*;
use crate::common::error::AppError;

verus! {

/// A value, or the domain error that explains why there is none.
pub type ResultApp<T> = Result<T, AppError>;

} // verus!
