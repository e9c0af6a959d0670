//! Shorthands that turn a failure into the response error it is reported as.

use vstd::prelude::*;

use crate::response::ResponseError;

verus! {

/// An unexpected failure: reported as an internal server error that keeps
/// the failure's message.
pub fn error(message: String) -> (r: ResponseError)
    ensures
        r matches ResponseError::ErrorInternalServerError(m) && m@ == message@,
{
    ResponseError::ErrorInternalServerError(message)
}

/// A request the client got wrong; the reason is not passed on.
pub fn bad_request<T>(e: T) -> (r: ResponseError)
    ensures
        r is ErrorBadRequest,
{
    ResponseError::ErrorBadRequest
}

/// A requested object that does not exist; the reason is not passed on.
pub fn not_found<T>(e: T) -> (r: ResponseError)
    ensures
        r is ErrorNotFound,
{
    ResponseError::ErrorNotFound
}

} // verus!
