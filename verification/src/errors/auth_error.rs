//! Failures of reading a bearer token from a request.

use vstd::prelude::*;
use vstd::string::*;

verus! {

/// Why the `Authorization` header of a request could not be used.
#[derive(Clone, Copy, Debug, PartialEq, Eq, Structural)]
pub enum AuthError {
    MissingToken,
    EmptyHeader,
    InvalidToken,
}

/// The message of each failure.
pub open spec fn auth_error_text(error: AuthError) -> Seq<char> {
    match error {
        AuthError::MissingToken =>
            "Authorization token is missing in the request. Please provide a valid JWT token."@,
        AuthError::EmptyHeader =>
            "Authorization header cannot be empty. Please provide a valid JWT token."@,
        AuthError::InvalidToken => "Invalid JWT token. Please provide a valid token."@,
    }
}

impl AuthError {
    /// The message shown for this failure.
    pub fn to_string(&self) -> (text: String)
        ensures
            text@ == auth_error_text(*self),
    {
        match self {
            AuthError::MissingToken => String::from_str(
                "Authorization token is missing in the request. Please provide a valid JWT token.",
            ),
            AuthError::EmptyHeader => String::from_str(
                "Authorization header cannot be empty. Please provide a valid JWT token.",
            ),
            AuthError::InvalidToken => String::from_str(
                "Invalid JWT token. Please provide a valid token.",
            ),
        }
    }
}

} // verus!
