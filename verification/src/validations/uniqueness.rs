//! Whether the username of a new account is free.

use crate::database::{has_username, AppState};
use crate::errors::api_error::ApiError;
use vstd::prelude::*;

verus! {

/// What a probe for a username answers: `AlreadyExists` if a row came back.
pub fn uniqueness_verdict(found: bool) -> (verdict: Result<(), ApiError>)
    ensures
        !found ==> verdict is Ok,
        found ==> verdict matches Err(ApiError::AlreadyExists),
{
    if found {
        Err(ApiError::AlreadyExists)
    } else {
        Ok(())
    }
}

/// Passes if no account has this username.
pub fn is_user_unique(state: &AppState, username: &str) -> (verdict: Result<(), ApiError>)
    ensures
        !has_username(state.db@.users, username@) ==> verdict is Ok,
        has_username(state.db@.users, username@) ==> verdict matches Err(ApiError::AlreadyExists),
{
    uniqueness_verdict(state.db.username_exists(username))
}

} // verus!
