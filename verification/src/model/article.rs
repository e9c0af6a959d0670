//! Articles: products that items of a list may refer to.

use vstd::prelude::*;

use super::Identifiable;

verus! {

/// A product with optional description, picture and the shops selling it.
#[derive(Debug, Clone)]
pub struct Article {
    pub id: u64,
    pub name: String,
    pub description: Option<String>,
    pub image_id: Option<u32>,
    pub shops: Option<Vec<u64>>,
}

impl Identifiable for Article {
    type Id = u64;
}

impl crate::ApiObject for Article {

}

} // verus!
