//! Keeping an open list in step with the server: the list's metadata and
//! items, and the item changes not sent yet. Writes are batched: of each
//! changed item only its latest version is sent.

use std::collections::HashMap;

use vstd::prelude::*;

use crate::model::item::Item;
use crate::model::list::{item_ids, item_views, FlatItemsList, List, ListView};
use crate::ui::list_page::first_position;

verus! {

broadcast use vstd::std_specs::hash::group_hash_axioms;

/// What is synchronised with the server.
#[derive(Debug, Clone, Copy, PartialEq, Eq, Structural)]
pub enum SyncType {
    /// The list's metadata.
    Meta,
    /// The changed items.
    Items,
}

/// The items after a change to the item `changed`: the first item with its
/// id is replaced; without such an item nothing changes.
pub open spec fn items_after_change(items: Seq<Item>, changed: Item) -> Seq<Item> {
    let k = first_position(items, changed.id, 0);
    if k < items.len() {
        items.update(k, changed)
    } else {
        items
    }
}

/// An open list: its metadata, its items and the item changes not yet sent.
#[derive(Debug)]
pub struct ListService {
    meta: List,
    items: Vec<Item>,
    /// The latest version of each changed item, by its id.
    changed_items: HashMap<u64, Item>,
}

impl ListService {
    /// Each changed item is held under its own id.
    #[verifier::type_invariant]
    spec fn keyed_by_id(self) -> bool {
        forall|k: u64| #[trigger] self.changed_items@.contains_key(k) ==> self.changed_items@[k].id == k
    }

    pub closed spec fn spec_meta(&self) -> ListView {
        self.meta@
    }

    pub closed spec fn spec_items(&self) -> Seq<Item> {
        self.items@
    }

    /// The latest version of each item changed since the last sync, by id.
    pub closed spec fn spec_changed(&self) -> Map<u64, Item> {
        self.changed_items@
    }

    /// The service for a list fetched with its items; nothing has changed yet.
    pub fn new(initial: FlatItemsList) -> (s: Self)
        ensures
            s.spec_meta().id == initial.id,
            s.spec_meta().name == initial.name@,
            s.spec_meta().shop == initial.shop,
            s.spec_meta().image_id == initial.image_id,
            s.spec_meta().items == item_ids(initial.items@),
            s.spec_items() == initial.items@,
            s.spec_changed() == Map::<u64, Item>::empty(),
    {
        let (meta, items) = initial.into_list_and_items();
        ListService { meta, items, changed_items: HashMap::new() }
    }

    /// The list's metadata.
    pub fn meta(&self) -> (m: &List)
        ensures
            m@ == self.spec_meta(),
    {
        &self.meta
    }

    /// The list's items, with all changes applied.
    pub fn items(&self) -> (i: &Vec<Item>)
        ensures
            i@ == self.spec_items(),
    {
        &self.items
    }

    /// Records a change to an item: the list's copy of the item takes the
    /// new version, which is also the one sent at the next sync.
    pub fn item_changed(&mut self, item: Item)
        ensures
            final(self).spec_changed() == old(self).spec_changed().insert(item.id, item),
            item_views(final(self).spec_items()) == item_views(
                items_after_change(old(self).spec_items(), item),
            ),
            final(self).spec_meta() == old(self).spec_meta(),
    {
        proof {
            use_type_invariant(&*self);
        }
        // the list's own copy of the item
        let ghost old_items = self.items@;
        let mut items: Vec<Item> = Vec::new();
        std::mem::swap(&mut items, &mut self.items);
        let mut k: usize = 0;
        while k < items.len() && items[k].id != item.id
            invariant
                0 <= k <= items@.len(),
                items@ == old_items,
                first_position(old_items, item.id, 0) == first_position(old_items, item.id, k as int),
            decreases items@.len() - k,
        {
            k = k + 1;
        }
        if k < items.len() {
            let copy = item.duplicate();
            items[k] = copy;
            assert(item_views(items@) =~= item_views(old_items.update(k as int, item)));
        }
        self.items = items;

        // the pending change
        let mut changes: HashMap<u64, Item> = HashMap::new();
        std::mem::swap(&mut changes, &mut self.changed_items);
        changes.insert(item.id, item);
        self.changed_items = changes;
    }

    /// Takes the changes to send: the list's id and the latest version of
    /// each changed item, by id. Afterwards nothing is pending.
    pub fn sync_items(&mut self) -> (r: (u64, HashMap<u64, Item>))
        ensures
            r.0 == old(self).spec_meta().id,
            r.1@ == old(self).spec_changed(),
            forall|k: u64| #[trigger] r.1@.contains_key(k) ==> r.1@[k].id == k,
            final(self).spec_changed() == Map::<u64, Item>::empty(),
            final(self).spec_items() == old(self).spec_items(),
            final(self).spec_meta() == old(self).spec_meta(),
    {
        proof {
            use_type_invariant(&*self);
        }
        let mut changes: HashMap<u64, Item> = HashMap::new();
        std::mem::swap(&mut changes, &mut self.changed_items);
        (self.meta.id, changes)
    }
}

/// Of two changes to the same item before a sync, only the later one is
/// sent; changes to other items are kept.
pub proof fn lemma_latest_change_wins(pending: Map<u64, Item>, first: Item, second: Item)
    requires
        first.id == second.id,
    ensures
        pending.insert(first.id, first).insert(second.id, second) == pending.insert(second.id, second),
{
    assert(pending.insert(first.id, first).insert(second.id, second) =~= pending.insert(second.id, second));
}

} // verus!
