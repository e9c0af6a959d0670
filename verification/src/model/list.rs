//! Lists: named collections of item ids, and their flattened form that
//! carries the items themselves.

use vstd::prelude::*;

use super::item::{Item, ItemView};
use super::{HasTypeDenominator, Identifiable};

verus! {

/// A shopping list: its metadata and the ids of its items, in order.
#[derive(Debug, Clone)]
pub struct List {
    pub id: u64,
    pub name: String,
    pub shop: Option<u64>,
    pub image_id: Option<u64>,
    pub items: Vec<u64>,
}

/// The mathematical value of a [`List`].
pub struct ListView {
    pub id: u64,
    pub name: Seq<char>,
    pub shop: Option<u64>,
    pub image_id: Option<u64>,
    pub items: Seq<u64>,
}

impl View for List {
    type V = ListView;

    open spec fn view(&self) -> ListView {
        ListView {
            id: self.id,
            name: self.name@,
            shop: self.shop,
            image_id: self.image_id,
            items: self.items@,
        }
    }
}

/// A list together with its items instead of their ids.
#[derive(Debug, Clone)]
pub struct FlatItemsList {
    pub id: u64,
    pub name: String,
    pub shop: Option<u64>,
    pub image_id: Option<u64>,
    pub items: Vec<Item>,
}

/// The views of a sequence of items.
pub open spec fn item_views(items: Seq<Item>) -> Seq<ItemView> {
    items.map_values(|i: Item| i@)
}

/// The ids of a sequence of items.
pub open spec fn item_ids(items: Seq<Item>) -> Seq<u64> {
    items.map_values(|i: Item| i.id)
}

impl Identifiable for List {
    type Id = u64;
}

impl HasTypeDenominator for List {
    open spec fn spec_denominator() -> u64 {
        0
    }

    fn denominator() -> (d: u64) {
        0
    }
}

impl List {
    /// An unnamed list without shop, picture or items.
    pub fn empty() -> (l: Self)
        ensures
            l.id == 0,
            l@.name == Seq::<char>::empty(),
            l.shop is None,
            l.image_id is None,
            l@.items == Seq::<u64>::empty(),
    {
        List { id: 0, name: String::new(), shop: None, image_id: None, items: Vec::new() }
    }

    /// The metadata of a flattened list, with its items replaced by their ids.
    pub fn from_flat(value: &FlatItemsList) -> (l: Self)
        ensures
            l.id == value.id,
            l@.name == value.name@,
            l.shop == value.shop,
            l.image_id == value.image_id,
            l@.items == item_ids(value.items@),
    {
        let mut ids: Vec<u64> = Vec::new();
        let mut i: usize = 0;
        while i < value.items.len()
            invariant
                0 <= i <= value.items@.len(),
                ids@ == item_ids(value.items@.take(i as int)),
            decreases value.items@.len() - i,
        {
            ids.push(value.items[i].id);
            assert(item_ids(value.items@.take(i + 1)) =~= item_ids(value.items@.take(i as int)).push(
                value.items@[i as int].id,
            ));
            i = i + 1;
        }
        assert(value.items@.take(value.items@.len() as int) =~= value.items@);
        List {
            id: value.id,
            name: value.name.clone(),
            shop: value.shop,
            image_id: value.image_id,
            items: ids,
        }
    }

    /// Appends an item id at the end of the list.
    pub fn attach_item(&mut self, item_id: u64)
        ensures
            final(self)@.items == old(self)@.items.push(item_id),
            final(self).id == old(self).id,
            final(self)@.name == old(self)@.name,
            final(self).shop == old(self).shop,
            final(self).image_id == old(self).image_id,
    {
        self.items.push(item_id);
    }
}

impl FlatItemsList {
    /// Joins a list's metadata with the given items; the list's own item ids
    /// are dropped.
    pub fn from_list_and_items(list: List, vec: Vec<Item>) -> (f: Self)
        ensures
            f.id == list.id,
            f.name@ == list@.name,
            f.shop == list.shop,
            f.image_id == list.image_id,
            item_views(f.items@) == item_views(vec@),
            f.items@ == vec@,
    {
        FlatItemsList {
            id: list.id,
            name: list.name,
            shop: list.shop,
            image_id: list.image_id,
            items: vec,
        }
    }

    /// Splits into the list's metadata, whose item ids are those of the
    /// items, and the items themselves.
    pub fn into_list_and_items(self) -> (r: (List, Vec<Item>))
        ensures
            r.0.id == self.id,
            r.0@.name == self.name@,
            r.0.shop == self.shop,
            r.0.image_id == self.image_id,
            r.0@.items == item_ids(self.items@),
            r.1@ == self.items@,
    {
        let list = List::from_flat(&self);
        (list, self.items)
    }

    /// Builds the flattened list from the result of looking up each of the
    /// list's item ids: ids whose item could not be found are skipped, the
    /// others keep their order.
    pub fn from_lookups(list: List, found: Vec<Option<Item>>) -> (f: Self)
        ensures
            f.id == list.id,
            f.name@ == list@.name,
            f.shop == list.shop,
            f.image_id == list.image_id,
            f.items@ == found_items(found@),
    {
        let mut rest = found;
        let ghost all = rest@;
        // pop the lookups from the back, keeping the found items on a stack ...
        let mut stack: Vec<Item> = Vec::new();
        while rest.len() > 0
            invariant
                found_items(all) == found_items(rest@) + stack@.reverse(),
            decreases rest@.len(),
        {
            let ghost before = rest@;
            let ghost old_stack = stack@;
            let last = rest.pop().unwrap();
            assert(before.drop_last() =~= rest@);
            match last {
                Some(item) => {
                    stack.push(item);
                    assert(stack@.reverse() =~= seq![item] + old_stack.reverse());
                    assert(found_items(before) == found_items(rest@).push(item));
                    assert(found_items(all) =~= found_items(rest@) + stack@.reverse());
                },
                None => {
                    assert(found_items(before) == found_items(rest@));
                },
            }
        }
        assert(found_items(rest@) =~= Seq::<Item>::empty());
        // ... and unstack them to restore their order
        let mut items: Vec<Item> = Vec::new();
        while stack.len() > 0
            invariant
                found_items(all) == items@ + stack@.reverse(),
            decreases stack@.len(),
        {
            let ghost old_stack = stack@;
            let item = stack.pop().unwrap();
            assert(old_stack.reverse() =~= seq![item] + stack@.reverse());
            items.push(item);
            assert(found_items(all) =~= items@ + stack@.reverse());
        }
        assert(stack@.reverse() =~= Seq::<Item>::empty());
        assert(items@ =~= found_items(all));
        FlatItemsList::from_list_and_items(list, items)
    }
}

/// The items that were found, in order.
pub open spec fn found_items(found: Seq<Option<Item>>) -> Seq<Item>
    decreases found.len(),
{
    if found.len() == 0 {
        Seq::empty()
    } else {
        let rest = found_items(found.drop_last());
        match found.last() {
            Some(i) => rest.push(i),
            None => rest,
        }
    }
}

impl super::super::ApiObject for List {

}

impl super::super::ApiObject for FlatItemsList {

}

} // verus!
