//! The decisions of the request handlers that do not touch storage.

use vstd::prelude::*;
use vstd::utf8::encode_utf8;

use crate::identity::AuthenticatedUser;
use crate::model::requests::RegisterUserV1;
use crate::model::user::{Password, User, UserWithPassword};
use crate::response::ResponseError;

verus! {

/// The shortest password accepted at registration, in bytes.
pub const MIN_PASSWORD_LEN: usize = 8;

/// Checks a registration request: the password must have at least eight
/// bytes and the name must not be taken; both failures are bad requests.
pub fn validate_registration(request: &RegisterUserV1, name_taken: bool) -> (r: Result<
    (),
    ResponseError,
>)
    ensures
        encode_utf8(request.password@).len() < MIN_PASSWORD_LEN ==> r matches Err(
            ResponseError::ErrorBadRequest,
        ),
        encode_utf8(request.password@).len() >= MIN_PASSWORD_LEN && name_taken ==> r matches Err(
            ResponseError::ErrorBadRequest,
        ),
        encode_utf8(request.password@).len() >= MIN_PASSWORD_LEN && !name_taken ==> r is Ok,
{
    if request.password.as_str().as_bytes().len() < MIN_PASSWORD_LEN {
        return Err(ResponseError::ErrorBadRequest);
    }
    if name_taken {
        return Err(ResponseError::ErrorBadRequest);
    }
    Ok(())
}

/// The record stored for a newly registered user: no profile picture yet.
pub fn new_user_record(id: u64, request: &RegisterUserV1, password: Password) -> (u:
    UserWithPassword)
    ensures
        u.user.id == id,
        u.user.name@ == request.name@,
        u.user.profile_picture_id is None,
        u.password == password,
{
    UserWithPassword {
        user: User { id, name: request.name.clone(), profile_picture_id: None },
        password,
    }
}

/// The user whose profile is requested: the one named in the path, or the
/// logged-in user.
pub fn requested_user_id(requested: Option<u64>, user: AuthenticatedUser) -> (id: u64)
    ensures
        requested matches Some(r) ==> id == r,
        requested is None ==> id == user.id,
{
    match requested {
        Some(id) => id,
        None => user.id,
    }
}

} // verus!
