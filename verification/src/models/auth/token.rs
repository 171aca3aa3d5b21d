//! What a bearer token carries.

use vstd::prelude::*;

verus! {

/// The claims of a token: who it was issued to, with which role, when, and
/// until when it is valid. Times are seconds since the Unix epoch.
#[derive(Clone, Debug, PartialEq, Eq)]
pub struct Claims {
    pub iat: usize,
    pub sub: String,
    pub exp: usize,
    pub role: String,
}

/// What the claims of a token hold.
pub struct ClaimsData {
    pub iat: int,
    pub sub: Seq<char>,
    pub exp: int,
    pub role: Seq<char>,
}

impl View for Claims {
    type V = ClaimsData;

    open spec fn view(&self) -> ClaimsData {
        ClaimsData { iat: self.iat as int, sub: self.sub@, exp: self.exp as int, role: self.role@ }
    }
}

/// What a caller sends to have a token checked.
#[derive(Clone, Debug, PartialEq, Eq)]
pub struct VerifyTokenPayload {
    pub token: String,
}

} // verus!
