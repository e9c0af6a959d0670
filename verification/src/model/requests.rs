//! Request parameters sent by clients.

use vstd::prelude::*;

use super::item::Item;

verus! {

/// Stores a new item and attaches it to a list.
#[derive(Debug, Clone)]
pub struct StoreItemAttached {
    pub item: Item,
    pub list_id: u64,
}

/// Registers a new user.
#[derive(Debug, Clone)]
pub struct RegisterUserV1 {
    pub name: String,
    pub password: String,
}

/// Logs a user in.
#[derive(Debug, Clone)]
pub struct LoginUserV1 {
    pub name: String,
    pub password: String,
}

/// Removes an item from a list.
#[derive(Debug, Clone)]
pub struct DeleteItem {
    pub list_id: u64,
    pub item_id: u64,
}

impl crate::ApiObject for StoreItemAttached {

}

impl crate::ApiObject for RegisterUserV1 {

}

impl crate::ApiObject for LoginUserV1 {

}

impl crate::ApiObject for DeleteItem {

}

} // verus!
