//! Database-facing decisions: errors, access checks and the keys under
//! which objects are stored.

use vstd::prelude::*;
use vstd::string::*;

use crate::model::acl::AccessControlList;

verus! {

/// What can go wrong when reading or writing the database.
#[derive(Debug)]
pub enum DbError {
    /// Storage failure; carries the underlying message.
    IO(String),
    /// An object could not be encoded or decoded; carries the message.
    Encoding(String),
    /// No object is stored under the requested key.
    NotFound,
    /// The request does not match the stored data: a wrong login, or a user
    /// missing from an access-control list.
    Mismatch,
}

impl DbError {
    /// The human-readable description of the error.
    pub fn message(&self) -> (m: String)
        ensures
            m@ == crate::response::spec_db_message(*self),
    {
        match self {
            DbError::IO(e) => crate::text::join2("IO error while accessing database: ", e.as_str()),
            DbError::Encoding(e) => crate::text::join2(
                "Unexpected encoding error while accessing database ",
                e.as_str(),
            ),
            DbError::NotFound => String::from_str("Object not found in database"),
            DbError::Mismatch => String::from_str("Mismatch between user request and database state"),
        }
    }
}

/// Decides whether `user_id` may access an object whose access-control list
/// is `acl` (`None` when no list is stored for it).
pub fn verify_access(acl: Option<&AccessControlList>, user_id: u64) -> (r: Result<(), DbError>)
    ensures
        acl is None ==> r matches Err(DbError::NotFound),
        acl matches Some(a) ==> (a.spec_grants(user_id) <==> r is Ok),
        acl matches Some(a) ==> (!a.spec_grants(user_id) <==> r matches Err(DbError::Mismatch)),
{
    match acl {
        None => Err(DbError::NotFound),
        Some(a) => if a.grants(user_id) {
            Ok(())
        } else {
            Err(DbError::Mismatch)
        },
    }
}

} // verus!
