//! The logged-in user behind a request.

use vstd::prelude::*;

use crate::numbers::{decimal_digits, lemma_parse_decimal_roundtrip, parse_u64, spec_parse_u64, u64_to_decimal};
use crate::response::ResponseError;

verus! {

/// A request whose session carries a valid user id.
#[derive(Debug, Clone, Copy)]
pub struct AuthenticatedUser {
    pub id: u64,
}

/// The identity recorded for a user at login: the user id in decimal.
pub fn login_identity(user_id: u64) -> (s: String)
    ensures
        s@ == decimal_digits(user_id as nat),
{
    u64_to_decimal(user_id)
}

/// A logged-in user is recognised as the same user on later requests: the
/// recorded identity parses back to the user id.
pub proof fn lemma_login_identity_recognised(user_id: u64)
    ensures
        spec_parse_u64(decimal_digits(user_id as nat)) == Some(user_id),
{
    lemma_parse_decimal_roundtrip(user_id);
}

impl AuthenticatedUser {
    /// Accepts the request when its session identity is a decimal user id;
    /// a missing or malformed identity means the client is not logged in.
    pub fn from_identity(identity: Option<&str>) -> (r: Result<AuthenticatedUser, ResponseError>)
        ensures
            identity is None ==> r matches Err(ResponseError::ErrorUnauthenticated),
            identity matches Some(s) ==> match spec_parse_u64(s@) {
                Some(id) => r matches Ok(u) && u.id == id,
                None => r matches Err(ResponseError::ErrorUnauthenticated),
            },
    {
        match identity {
            Some(s) => match parse_u64(s) {
                Some(id) => Ok(AuthenticatedUser { id }),
                None => Err(ResponseError::ErrorUnauthenticated),
            },
            None => Err(ResponseError::ErrorUnauthenticated),
        }
    }
}

} // verus!
