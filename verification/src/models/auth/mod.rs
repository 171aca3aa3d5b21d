//! Signing in, and what a signed-in caller may do.

use crate::validations::{broken, ValidationErrors};
use crate::validations::rules::{has_length_between, length_between};
use vstd::prelude::*;

pub mod access;
pub mod token;

verus! {

/// What a caller sends to sign in.
#[derive(Clone, Debug, PartialEq, Eq)]
pub struct LoginPayload {
    pub username: String,
    pub password: String,
}

/// A bound that no text exceeds: a length rule without an upper bound.
pub open spec fn unbounded() -> nat {
    usize::MAX as nat
}

impl LoginPayload {
    /// The rules that this request breaks, in order: username of at least 3
    /// characters, password of 8 to 100 characters.
    pub open spec fn broken_rules(&self) -> Seq<(Seq<char>, Seq<char>)> {
        broken(
            length_between(self.username@, 3, unbounded()),
            "username"@,
            "Password must be between 3 and 20 characters long"@,
        ) + broken(
            length_between(self.password@, 8, 100),
            "password"@,
            "Password must be between 8 and 100 chars."@,
        )
    }

    /// Accepts the request if it breaks no rule, and lists the broken rules
    /// otherwise.
    pub fn validate(&self) -> (verdict: Result<(), ValidationErrors>)
        ensures
            verdict is Ok <==> self.broken_rules().len() == 0,
            verdict matches Err(errors) ==> errors@ == self.broken_rules(),
    {
        let mut errors = ValidationErrors::new();
        errors.check(
            has_length_between(self.username.as_str(), 3, usize::MAX),
            "username",
            "Password must be between 3 and 20 characters long",
        );
        errors.check(
            has_length_between(self.password.as_str(), 8, 100),
            "password",
            "Password must be between 8 and 100 chars.",
        );
        if errors.is_empty() {
            Ok(())
        } else {
            Err(errors)
        }
    }
}

} // verus!
