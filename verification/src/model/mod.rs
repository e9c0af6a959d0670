//! Data objects exchanged between client, server and database.

use vstd::prelude::*;

pub mod acl;
pub mod article;
pub mod item;
pub mod list;
pub mod requests;
pub mod session;
pub mod shop;
pub mod user;

verus! {

/// Types whose objects are kept in per-user object lists. Each type has a
/// distinct denominator that tags its list.
pub trait HasTypeDenominator {
    /// The tag of this type's object lists.
    fn denominator() -> (d: u64)
        ensures
            d == Self::spec_denominator(),
    ;

    spec fn spec_denominator() -> u64;
}

/// Declares the identifier type of a model object.
pub trait Identifiable {
    type Id;
}

} // verus!
