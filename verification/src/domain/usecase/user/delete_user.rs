//! Deleting a user: what to make of the repository's answer.

use vstd::prelude::*;
use crate::common::error::{AppError, ErrorCause, ErrorData};
use crate::common::result::ResultApp;
use crate::domain::entity::user::User;

verus! {

/// The failure for a user that is not there.
pub open spec fn is_user_not_found(e: AppError) -> bool {
    &&& e matches AppError::NotFound(d)
    &&& d.code@ == "user-not-found"@
    &&& d.message@ == "user not found"@
    &&& d.args is None
}

/// The failure for a user that is not there, with what led to it.
pub fn user_not_found(cause: Option<ErrorCause>) -> (e: AppError)
    ensures
        is_user_not_found(e),
        match cause {
            Some(c) => e->NotFound_0.cause == Some(Box::new(c)),
            None => e->NotFound_0.cause is None,
        },
{
    proof {
        reveal_strlit("user-not-found");
    }
    AppError::NotFound(ErrorData::new("user-not-found", "user not found").with_cause(cause))
}

/// What deleting a user comes to, given the repository's answer: the user
/// it marked as deleted; a failure that none was found, where it marked
/// none; its own failure, where it failed.
pub fn delete_user(answer: ResultApp<Option<User>>) -> (r: ResultApp<User>)
    ensures
        match answer {
            Ok(Some(user)) => r == Ok::<User, AppError>(user),
            Ok(None) => {
                &&& r matches Err(e)
                &&& is_user_not_found(e)
                &&& e->NotFound_0.cause matches Some(c)
                &&& *c matches ErrorCause::Opaque(text)
                &&& text@ == "User not found"@
            },
            Err(error) => r == Err::<User, AppError>(error),
        },
{
    match answer {
        Ok(Some(user)) => Ok(user),
        Ok(None) => Err(user_not_found(Some(ErrorCause::Opaque("User not found".to_owned())))),
        Err(error) => Err(error),
    }
}

} // verus!
