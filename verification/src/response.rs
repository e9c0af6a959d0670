//! Responses of the API: the errors a request can end in, their HTTP status
//! codes and messages, and the conversions from lower-level errors.

use vstd::prelude::*;
use vstd::std_specs::convert::FromSpecImpl;
use vstd::string::*;

use crate::db::DbError;
use crate::ApiObject;

verus! {

/// The ways a request can fail, as reported to the client.
#[derive(Debug)]
pub enum ResponseError {
    ErrorBadRequest,
    ErrorUnauthenticated,
    ErrorUnauthorized,
    ErrorNotFound,
    /// Carries the message of the underlying failure.
    ErrorInternalServerError(String),
}

/// The HTTP status a response error is answered with.
pub open spec fn spec_status_code(e: ResponseError) -> u16 {
    match e {
        ResponseError::ErrorBadRequest => 400,
        ResponseError::ErrorUnauthenticated => 401,
        ResponseError::ErrorUnauthorized => 401,
        ResponseError::ErrorNotFound => 404,
        ResponseError::ErrorInternalServerError(_) => 500,
    }
}

/// The HTTP status of the framework error a response error converts into.
pub open spec fn spec_framework_status_code(e: ResponseError) -> u16 {
    match e {
        ResponseError::ErrorBadRequest => 400,
        ResponseError::ErrorUnauthenticated => 401,
        ResponseError::ErrorUnauthorized => 403,
        ResponseError::ErrorNotFound => 404,
        ResponseError::ErrorInternalServerError(_) => 500,
    }
}

impl ResponseError {
    /// The status code a failed response is sent with.
    pub fn status_code(&self) -> (c: u16)
        ensures
            c == spec_status_code(*self),
    {
        match self {
            ResponseError::ErrorBadRequest => 400,
            ResponseError::ErrorUnauthenticated => 401,
            ResponseError::ErrorUnauthorized => 401,
            ResponseError::ErrorNotFound => 404,
            ResponseError::ErrorInternalServerError(_) => 500,
        }
    }

    /// The status code of the framework error this converts into: an
    /// unauthorized access becomes "forbidden", a missing login
    /// "unauthorized".
    pub fn framework_status_code(&self) -> (c: u16)
        ensures
            c == spec_framework_status_code(*self),
    {
        match self {
            ResponseError::ErrorBadRequest => 400,
            ResponseError::ErrorUnauthenticated => 401,
            ResponseError::ErrorUnauthorized => 403,
            ResponseError::ErrorNotFound => 404,
            ResponseError::ErrorInternalServerError(_) => 500,
        }
    }

    /// The message shown to the client; internal details are not revealed.
    pub fn message(&self) -> (m: String)
        ensures
            *self is ErrorUnauthorized ==> m@
                == "You are not authorized to access the requested Ressource"@,
            *self is ErrorInternalServerError ==> m@ == "An unknown internal Server error occurred"@,
            *self is ErrorNotFound ==> m@ == "Requested resource can not be found."@,
            *self is ErrorUnauthenticated ==> m@
                == "You are not authenticated. You must authenticate yourself to use this endpoint."@,
            *self is ErrorBadRequest ==> m@ == "Bad request: Submitted data was malformed."@,
    {
        match self {
            ResponseError::ErrorUnauthorized => String::from_str(
                "You are not authorized to access the requested Ressource",
            ),
            ResponseError::ErrorInternalServerError(_) => String::from_str(
                "An unknown internal Server error occurred",
            ),
            ResponseError::ErrorNotFound => String::from_str("Requested resource can not be found."),
            ResponseError::ErrorUnauthenticated => String::from_str(
                "You are not authenticated. You must authenticate yourself to use this endpoint.",
            ),
            ResponseError::ErrorBadRequest => String::from_str(
                "Bad request: Submitted data was malformed.",
            ),
        }
    }
}

impl ResponseError {
    /// How a database error is reported: storage and encoding failures are
    /// internal errors carrying the database message, a missing object is
    /// "not found" and a mismatch is a bad request.
    pub fn from_db_error(value: DbError) -> (r: Self)
        ensures
            (value is IO || value is Encoding) ==> (r matches ResponseError::ErrorInternalServerError(
                m,
            ) && m@ == spec_db_message(value)),
            value is NotFound ==> r is ErrorNotFound,
            value is Mismatch ==> r is ErrorBadRequest,
    {
        match value {
            DbError::IO(_) | DbError::Encoding(_) => ResponseError::ErrorInternalServerError(
                value.message(),
            ),
            DbError::NotFound => ResponseError::ErrorNotFound,
            DbError::Mismatch => ResponseError::ErrorBadRequest,
        }
    }

    /// How a failed password validation is reported: database and decoding
    /// failures are internal errors carrying the validation message, an
    /// unknown user or a wrong password is a bad request.
    pub fn from_password_validation_error(e: PasswordValidationError) -> (r: Self)
        ensures
            (e is DbAccessError || e is RkyvValidationError) ==> (r matches ResponseError::ErrorInternalServerError(
                m,
            ) && m@ == spec_password_validation_message(e)),
            (e is InvalidPassword || e is NoSuchUserError) ==> r is ErrorBadRequest,
    {
        match e {
            PasswordValidationError::DbAccessError(_)
            | PasswordValidationError::RkyvValidationError => ResponseError::ErrorInternalServerError(
                e.message(),
            ),
            PasswordValidationError::InvalidPassword
            | PasswordValidationError::NoSuchUserError => ResponseError::ErrorBadRequest,
        }
    }

    /// How a failure while reading the request body is reported: truncated,
    /// corrupted, oversized or unsized bodies and HTTP/2 stream failures are
    /// bad requests, anything else is an internal error with its message.
    pub fn from_payload_error(e: PayloadErrorKind) -> (r: Self)
        ensures
            e matches PayloadErrorKind::Other(m) ==> r matches ResponseError::ErrorInternalServerError(
                n,
            ) && n@ == m@,
            !(e is Other) ==> r is ErrorBadRequest,
    {
        match e {
            PayloadErrorKind::Incomplete => ResponseError::ErrorBadRequest,
            PayloadErrorKind::EncodingCorrupted => ResponseError::ErrorBadRequest,
            PayloadErrorKind::Overflow => ResponseError::ErrorBadRequest,
            PayloadErrorKind::UnknownLength => ResponseError::ErrorBadRequest,
            PayloadErrorKind::Http2Payload => ResponseError::ErrorBadRequest,
            PayloadErrorKind::Other(m) => ResponseError::ErrorInternalServerError(m),
        }
    }
}

/// The failures that can occur while the request body is read.
#[derive(Debug)]
pub enum PayloadErrorKind {
    Incomplete,
    EncodingCorrupted,
    Overflow,
    UnknownLength,
    Http2Payload,
    /// Any other failure, with its message.
    Other(String),
}

/// The message of a database error.
pub open spec fn spec_db_message(e: DbError) -> Seq<char> {
    match e {
        DbError::IO(m) => "IO error while accessing database: "@ + m@,
        DbError::Encoding(m) => "Unexpected encoding error while accessing database "@ + m@,
        DbError::NotFound => "Object not found in database"@,
        DbError::Mismatch => "Mismatch between user request and database state"@,
    }
}

/// Why a login could not be validated.
#[derive(Debug)]
pub enum PasswordValidationError {
    /// The user data could not be read; carries the storage message.
    DbAccessError(String),
    NoSuchUserError,
    RkyvValidationError,
    InvalidPassword,
}

/// The message of a password validation error.
pub open spec fn spec_password_validation_message(e: PasswordValidationError) -> Seq<char> {
    match e {
        PasswordValidationError::DbAccessError(m) => "Error accessing user data: "@ + m@,
        PasswordValidationError::NoSuchUserError => "There exists no user for this id"@,
        PasswordValidationError::RkyvValidationError =>
            "An unexpected error occured when deserialising from db."@,
        PasswordValidationError::InvalidPassword => "Invalid password"@,
    }
}

impl PasswordValidationError {
    /// The human-readable description of the error.
    pub fn message(&self) -> (m: String)
        ensures
            m@ == spec_password_validation_message(*self),
    {
        match self {
            PasswordValidationError::DbAccessError(e) => crate::text::join2(
                "Error accessing user data: ",
                e.as_str(),
            ),
            PasswordValidationError::NoSuchUserError => String::from_str(
                "There exists no user for this id",
            ),
            PasswordValidationError::RkyvValidationError => String::from_str(
                "An unexpected error occured when deserialising from db.",
            ),
            PasswordValidationError::InvalidPassword => String::from_str("Invalid password"),
        }
    }
}

/// The outcome of a request handler: a value to encode, or an error.
pub struct Response<T: ApiObject>(pub Result<T, ResponseError>);

impl Response<()> {
    /// A successful response without content.
    pub fn empty() -> (r: Self)
        ensures
            r.0 is Ok,
    {
        Response(Ok(()))
    }
}

impl<T: ApiObject> Response<T> {
    /// A successful response carrying `value`.
    pub fn from_output(value: T) -> (r: Self)
        ensures
            r.0 == Ok::<T, ResponseError>(value),
    {
        Response(Ok(value))
    }

    /// A failed response.
    pub fn from_error(e: ResponseError) -> (r: Self)
        ensures
            r.0 == Err::<T, ResponseError>(e),
    {
        Response(Err(e))
    }

    /// Continue with the value or stop with the error.
    pub fn branch(self) -> (r: Result<T, ResponseError>)
        ensures
            r == self.0,
    {
        self.0
    }

    /// The status code the response is sent with: 200 on success.
    pub fn status_code(&self) -> (c: u16)
        ensures
            self.0 is Ok ==> c == 200,
            self.0 matches Err(e) ==> c == spec_status_code(e),
    {
        match &self.0 {
            Ok(_) => 200,
            Err(e) => e.status_code(),
        }
    }
}

} // verus!
