//! Shops a list can be planned for.

use vstd::prelude::*;

use super::Identifiable;

verus! {

/// A shop with its name and an optional picture.
#[derive(Debug, Clone)]
pub struct Shop {
    pub id: u64,
    pub name: String,
    pub image_id: Option<u32>,
}

impl Identifiable for Shop {
    type Id = u64;
}

impl crate::ApiObject for Shop {

}

} // verus!
