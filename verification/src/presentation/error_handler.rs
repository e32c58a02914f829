//! How a failure is reported to a client: one status for each kind of
//! failure, and a body with the code, the message and the arguments.

use vstd::prelude::*;
use crate::common::error::{AppError, ErrorArgs, ErrorData};

verus! {

/// The body of the report of a failure.
#[derive(Debug, Clone)]
pub struct ErrorJsonResponse {
    pub status_code: u16,
    pub code: String,
    pub description: String,
    pub arguments: Option<ErrorArgs>,
}

/// The status under which a failure of each kind is reported.
pub open spec fn status_of(error: AppError) -> u16 {
    match error {
        AppError::NotFound(_) => 404,
        AppError::IllegalArgument(_) => 400,
        AppError::Unauthorized(_) => 401,
        AppError::UnprocessableEntity(_) => 422,
        AppError::Database(_) => 500,
        AppError::Validation(_) => 400,
        AppError::Service(_) => 500,
        AppError::Internal(_) => 500,
    }
}

/// The status under which `error` is reported.
pub fn status_code(error: &AppError) -> (status: u16)
    ensures
        status == status_of(*error),
{
    match error {
        AppError::NotFound(_) => 404,
        AppError::IllegalArgument(_) => 400,
        AppError::Unauthorized(_) => 401,
        AppError::UnprocessableEntity(_) => 422,
        AppError::Database(_) => 500,
        AppError::Validation(_) => 400,
        AppError::Service(_) => 500,
        AppError::Internal(_) => 500,
    }
}

/// The body that reports a failure under a status: its code, its message
/// as the description, and its arguments. The cause stays behind.
pub fn get_error_json_response(status_code: u16, error_data: ErrorData) -> (body: ErrorJsonResponse)
    ensures
        body.status_code == status_code,
        body.code == error_data.code,
        body.description == error_data.message,
        body.arguments == error_data.args,
{
    ErrorJsonResponse {
        status_code,
        code: error_data.code,
        description: error_data.message,
        arguments: error_data.args,
    }
}

/// The report of a failure: the status of its kind, and the body for it.
pub fn error_response(value: AppError) -> (body: ErrorJsonResponse)
    ensures
        body.status_code == status_of(value),
        body.code == value.spec_data().code,
        body.description == value.spec_data().message,
        body.arguments == value.spec_data().args,
{
    let status = status_code(&value);
    match value {
        AppError::NotFound(ed) => get_error_json_response(status, ed),
        AppError::IllegalArgument(ed) => get_error_json_response(status, ed),
        AppError::Unauthorized(ed) => get_error_json_response(status, ed),
        AppError::UnprocessableEntity(ed) => get_error_json_response(status, ed),
        AppError::Database(ed) => get_error_json_response(status, ed),
        AppError::Validation(ed) => get_error_json_response(status, ed),
        AppError::Service(ed) => get_error_json_response(status, ed),
        AppError::Internal(ed) => get_error_json_response(status, ed),
    }
}

} // verus!
