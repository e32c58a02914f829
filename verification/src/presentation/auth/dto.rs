//! The request to sign in and its answer.

use vstd::prelude::*;

verus! {

/// A request to sign in.
#[derive(Debug, Clone)]
pub struct LoginRequest {
    email: String,
    password: String,
}

/// The answer to a request to sign in.
#[derive(Debug, Clone)]
pub struct LoginResponse {
    token: String,
}

} // verus!
