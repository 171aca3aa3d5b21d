//! Whether the record that a request names is there.

use crate::database::{has_ticket, has_user, AppState};
use crate::errors::api_error::ApiError;
use crate::models::Id;
use vstd::prelude::*;

verus! {

/// What a probe for a record answers: `NotFound` unless a row came back.
pub fn existence_verdict(found: bool) -> (verdict: Result<(), ApiError>)
    ensures
        found ==> verdict is Ok,
        !found ==> verdict matches Err(ApiError::NotFound),
{
    if !found {
        Err(ApiError::NotFound)
    } else {
        Ok(())
    }
}

/// Passes if an account has this identifier.
pub fn user_exists(state: &AppState, user_id: Id) -> (verdict: Result<(), ApiError>)
    ensures
        has_user(state.db@.users, user_id) ==> verdict is Ok,
        !has_user(state.db@.users, user_id) ==> verdict matches Err(ApiError::NotFound),
{
    existence_verdict(state.db.user_exists(user_id))
}

/// Passes if a ticket has this identifier.
pub fn ticket_exists(state: &AppState, ticket_id: Id) -> (verdict: Result<(), ApiError>)
    ensures
        has_ticket(state.db@.tickets, ticket_id) ==> verdict is Ok,
        !has_ticket(state.db@.tickets, ticket_id) ==> verdict matches Err(ApiError::NotFound),
{
    existence_verdict(state.db.ticket_exists(ticket_id))
}

} // verus!
