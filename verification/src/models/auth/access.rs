//! What a signed-in caller may do.

use crate::errors::api_error::ApiError;
use crate::models::user::{privileged, Role, Status, User};
use vstd::prelude::*;

verus! {

/// A caller who is signed in and whose account is active. The checks of the
/// caller's role are made through this type.
#[derive(Clone, Debug, PartialEq, Eq)]
pub struct AccessControl(pub User);

/// Whether a role is among the given ones.
pub open spec fn among(roles: Seq<Role>, role: Role) -> bool {
    exists|i: int| 0 <= i < roles.len() && #[trigger] roles[i] == role
}

impl AccessControl {
    /// Admits the account that the bearer token resolved to. A request
    /// without such an account is refused, and so is one whose account is
    /// not active.
    pub fn from_identity(identity: Option<User>) -> (access: Result<AccessControl, ApiError>)
        ensures
            match identity {
                Some(user) => if user.status == Status::Active {
                    access matches Ok(admitted) && admitted.0 == user
                } else {
                    access matches Err(ApiError::Unauthorized)
                },
                None => access matches Err(ApiError::Unauthorized),
            },
    {
        match identity {
            Some(user) => {
                if user.status != Status::Active {
                    return Err(ApiError::Unauthorized);
                }
                Ok(AccessControl(user))
            },
            None => Err(ApiError::Unauthorized),
        }
    }

    /// The account of the caller.
    pub fn user(&self) -> (user: &User)
        ensures
            *user == self.0,
    {
        &self.0
    }

    /// Passes a caller who has exactly this role.
    pub fn require_role(&self, role: Role) -> (verdict: Result<(), ApiError>)
        ensures
            self.0.role == role ==> verdict is Ok,
            self.0.role != role ==> verdict matches Err(ApiError::Unauthorized),
    {
        if self.0.role == role {
            Ok(())
        } else {
            Err(ApiError::Unauthorized)
        }
    }

    /// Passes a caller whose role is one of these.
    pub fn require_any_role(&self, roles: &[Role]) -> (verdict: Result<(), ApiError>)
        ensures
            among(roles@, self.0.role) ==> verdict is Ok,
            !among(roles@, self.0.role) ==> verdict matches Err(ApiError::Unauthorized),
    {
        let mut i: usize = 0;
        while i < roles.len()
            invariant
                i <= roles.len(),
                forall|j: int| 0 <= j < i ==> #[trigger] roles@[j] != self.0.role,
            decreases roles.len() - i,
        {
            if roles[i] == self.0.role {
                return Ok(());
            }
            i += 1;
        }
        Err(ApiError::Unauthorized)
    }

    /// Passes a caller who may act on other accounts' resources: an `Admin`
    /// or a `Moderator`.
    pub fn require_privileged(&self) -> (verdict: Result<(), ApiError>)
        ensures
            privileged(self.0.role) ==> verdict is Ok,
            !privileged(self.0.role) ==> verdict matches Err(ApiError::Unauthorized),
    {
        if self.0.role.is_privileged() {
            Ok(())
        } else {
            Err(ApiError::Unauthorized)
        }
    }
}

/// Passes an account that is active.
pub fn require_active(user: &User) -> (verdict: Result<(), ApiError>)
    ensures
        user.status == Status::Active ==> verdict is Ok,
        user.status != Status::Active ==> verdict matches Err(ApiError::Unauthorized),
{
    if user.status != Status::Active {
        Err(ApiError::Unauthorized)
    } else {
        Ok(())
    }
}

/// Passes an account that is privileged.
pub fn require_privileged(user: &User) -> (verdict: Result<(), ApiError>)
    ensures
        privileged(user.role) ==> verdict is Ok,
        !privileged(user.role) ==> verdict matches Err(ApiError::Unauthorized),
{
    if user.role != Role::Admin && user.role != Role::Moderator {
        Err(ApiError::Unauthorized)
    } else {
        Ok(())
    }
}

/// Whether a caller may use the endpoints that are kept for privileged
/// roles: the account is active, and an `Admin` or a `Moderator`.
pub open spec fn may_manage(current_user: User) -> bool {
    current_user.status == Status::Active && privileged(current_user.role)
}

/// Passes a caller who may use the endpoints kept for privileged roles.
pub fn require_manager(current_user: &User) -> (verdict: Result<(), ApiError>)
    ensures
        may_manage(*current_user) ==> verdict is Ok,
        !may_manage(*current_user) ==> verdict matches Err(ApiError::Unauthorized),
{
    match require_active(current_user) {
        Ok(()) => require_privileged(current_user),
        Err(error) => Err(error),
    }
}

} // verus!
