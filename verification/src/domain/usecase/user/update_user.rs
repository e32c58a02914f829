//! Updating a user, as a machine of two steps: find the stored user, then
//! store the merged one.
//!
//! The machine never touches a repository. It says what to ask next; the
//! caller asks, and hands the answer back as an event.

use vstd::prelude::*;
use crate::common::result::ResultApp;
use crate::domain::entity::user::{merged, User, UserPartial};
use crate::domain::usecase::user::delete_user::{is_user_not_found, user_not_found};
use crate::domain::vo::id::Id;

verus! {

/// Where an update stands.
#[derive(Debug, Clone, Copy, PartialEq, Eq, Structural)]
pub enum UpdateUserState {
    /// The stored user was asked for.
    Finding,
    /// The merged user was handed over to be stored.
    Updating,
    /// The update has come to its result.
    Done,
}

/// What the repository answered.
#[derive(Debug)]
pub enum UpdateUserEvent {
    /// The answer to `Find`: the stored user, or none.
    Found(ResultApp<Option<User>>),
    /// The answer to `Update`: the user as stored, or none.
    Updated(ResultApp<Option<User>>),
}

/// What to do next.
#[derive(Debug)]
pub enum UpdateUserAction {
    /// Ask the repository for the user with this identifier.
    Find(Id),
    /// Ask the repository to store this user.
    Update(User),
    /// Stop, with this result.
    Return(ResultApp<User>),
}

/// Whether an event answers what was asked in a state.
pub open spec fn answers(state: UpdateUserState, event: UpdateUserEvent) -> bool {
    match (state, event) {
        (UpdateUserState::Finding, UpdateUserEvent::Found(_)) => true,
        (UpdateUserState::Updating, UpdateUserEvent::Updated(_)) => true,
        _ => false,
    }
}

/// The step that an update takes on an event.
pub open spec fn step_is(
    state: UpdateUserState,
    patch: UserPartial,
    event: UpdateUserEvent,
    next: (UpdateUserState, UpdateUserAction),
) -> bool {
    match event {
        UpdateUserEvent::Found(Ok(Some(persisted))) => {
            &&& next.0 == UpdateUserState::Updating
            &&& next.1 matches UpdateUserAction::Update(user)
            &&& user@ == merged(persisted@, patch@)
        },
        UpdateUserEvent::Updated(Ok(Some(stored))) => {
            &&& next.0 == UpdateUserState::Done
            &&& next.1 == UpdateUserAction::Return(Ok(stored))
        },
        UpdateUserEvent::Found(Ok(None)) | UpdateUserEvent::Updated(Ok(None)) => {
            &&& next.0 == UpdateUserState::Done
            &&& next.1 matches UpdateUserAction::Return(Err(e))
            &&& is_user_not_found(e)
            &&& e->NotFound_0.cause is None
        },
        UpdateUserEvent::Found(Err(error)) | UpdateUserEvent::Updated(Err(error)) => {
            &&& next.0 == UpdateUserState::Done
            &&& next.1 == UpdateUserAction::Return(Err(error))
        },
    }
}

/// Starts an update: the stored user is asked for, by the identifier that
/// the update names.
pub fn begin(patch: &UserPartial) -> (next: (UpdateUserState, UpdateUserAction))
    requires
        patch.id is Some,
    ensures
        next.0 == UpdateUserState::Finding,
        next.1 == UpdateUserAction::Find(patch.id->0),
{
    (UpdateUserState::Finding, UpdateUserAction::Find(patch.id.unwrap()))
}

/// Takes the next step of an update. A stored user that was found is
/// merged with the update and handed over to be stored; the user as stored
/// is the result. Where the repository has no such user the update ends
/// with a failure that says so, and where the repository fails, with the
/// repository's failure.
pub fn advance(state: UpdateUserState, patch: &UserPartial, event: UpdateUserEvent) -> (next: (
    UpdateUserState,
    UpdateUserAction,
))
    requires
        patch.id is Some,
        answers(state, event),
    ensures
        step_is(state, *patch, event, next),
{
    match event {
        UpdateUserEvent::Found(Ok(Some(persisted))) => (
            UpdateUserState::Updating,
            UpdateUserAction::Update(User::merge(&persisted, patch)),
        ),
        UpdateUserEvent::Updated(Ok(Some(stored))) => (
            UpdateUserState::Done,
            UpdateUserAction::Return(Ok(stored)),
        ),
        UpdateUserEvent::Found(Ok(None)) | UpdateUserEvent::Updated(Ok(None)) => (
            UpdateUserState::Done,
            UpdateUserAction::Return(Err(user_not_found(None))),
        ),
        UpdateUserEvent::Found(Err(error)) | UpdateUserEvent::Updated(Err(error)) => (
            UpdateUserState::Done,
            UpdateUserAction::Return(Err(error)),
        ),
    }
}

} // verus!
