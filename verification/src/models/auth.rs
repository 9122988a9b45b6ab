//! The authenticated caller and the claims of the session token.

use vstd::prelude::*;

verus! {

/// The caller that the session token identifies.
#[derive(Debug, Clone, PartialEq, Eq)]
pub struct AuthUser {
    pub user_id: i32,
}

/// The claims of a session token: subject (the user id in decimal), e-mail,
/// expiry and issue instants in seconds since the Unix epoch.
#[derive(Debug, Clone, PartialEq, Eq)]
pub struct Claims {
    pub sub: String,
    pub email: String,
    pub exp: usize,
    pub iat: usize,
}

} // verus!
