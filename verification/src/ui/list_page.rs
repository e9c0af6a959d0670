//! Editing the items of an open list: reordering by drag and drop,
//! deleting, and adding.

use vstd::prelude::*;

use crate::client::APIError;
use crate::model::item::{Item, ItemView};
use crate::model::list::{item_ids, FlatItemsList, List};
use crate::model::requests::{DeleteItem, StoreItemAttached};

verus! {

/// The ids of the items.
pub open spec fn ids(items: Seq<Item>) -> Seq<u64> {
    items.map_values(|i: Item| i.id)
}

/// The last position among the first `n` items whose id is `id`, or -1.
pub open spec fn last_position(items: Seq<Item>, id: u64, n: int) -> int
    decreases n,
{
    if n <= 0 {
        -1
    } else if items[n - 1].id == id {
        n - 1
    } else {
        last_position(items, id, n - 1)
    }
}

/// The first position among the items from `from` on whose id is `id`, or
/// the length.
pub open spec fn first_position(items: Seq<Item>, id: u64, from: int) -> int
    decreases items.len() - from,
{
    if from >= items.len() {
        items.len() as int
    } else if items[from].id == id {
        from
    } else {
        first_position(items, id, from + 1)
    }
}

/// Where a drop moves a row: from the last position of the dragged id to the
/// last position of the target id. Nothing moves unless both are present
/// and the ids differ.
pub open spec fn drop_positions(items: Seq<Item>, dragged_id: u64, target_id: u64) -> Option<(int, int)> {
    let d = last_position(items, dragged_id, items.len() as int);
    let t = if dragged_id == target_id {
        -1
    } else {
        last_position(items, target_id, items.len() as int)
    };
    if d >= 0 && t >= 0 {
        Some((d, t))
    } else {
        None
    }
}

/// The rows after moving the row at `d` to position `t`.
pub open spec fn moved<T>(s: Seq<T>, pos: Option<(int, int)>) -> Seq<T> {
    match pos {
        Some((d, t)) => s.remove(d).insert(t, s[d]),
        None => s,
    }
}

/// The items after dropping the dragged item on the target item: the last
/// item with the dragged id is taken out and put at the position the last
/// item with the target id had. Nothing moves unless both are present and
/// the ids differ.
pub open spec fn reordered(items: Seq<Item>, dragged_id: u64, target_id: u64) -> Seq<Item> {
    moved(items, drop_positions(items, dragged_id, target_id))
}

/// Where the row at `i` stands after the row at `d` moved to `t`.
pub open spec fn moved_position(i: int, d: int, t: int) -> int {
    if i == d {
        t
    } else {
        let j = if i > d {
            i - 1
        } else {
            i
        };
        if j >= t {
            j + 1
        } else {
            j
        }
    }
}

/// A row keeps its identity when another row is moved: after moving the row
/// at `d` to `t`, the row that stood at `i` stands at `moved_position(i, d, t)`.
pub proof fn lemma_row_follows_move<T>(s: Seq<T>, d: int, t: int, i: int)
    requires
        0 <= d < s.len(),
        0 <= t < s.len(),
        0 <= i < s.len(),
    ensures
        0 <= moved_position(i, d, t) < s.len(),
        moved(s, Some((d, t)))[moved_position(i, d, t)] == s[i],
{
    let r = s.remove(d);
    let m = r.insert(t, s[d]);
    assert(m.len() == s.len());
    if i != d {
        let j = if i > d {
            i - 1
        } else {
            i
        };
        assert(r[j] == s[i]);
    }
}

/// Where the row at `p` stands after the row at `k` was removed; `None`
/// when it was that row.
pub open spec fn removed_position(p: int, k: int) -> Option<int> {
    if p == k {
        None
    } else if p > k {
        Some(p - 1)
    } else {
        Some(p)
    }
}

proof fn lemma_last_position(items: Seq<Item>, id: u64, n: int)
    requires
        0 <= n <= items.len(),
    ensures
        -1 <= last_position(items, id, n) < n,
        last_position(items, id, n) >= 0 ==> items[last_position(items, id, n)].id == id,
        forall|j: int| last_position(items, id, n) < j < n ==> items[j].id != id,
    decreases n,
{
    if n > 0 && items[n - 1].id != id {
        lemma_last_position(items, id, n - 1);
    }
}

proof fn lemma_first_position(items: Seq<Item>, id: u64, from: int)
    requires
        0 <= from <= items.len(),
    ensures
        from <= first_position(items, id, from) <= items.len(),
        first_position(items, id, from) < items.len() ==> items[first_position(items, id, from)].id
            == id,
        forall|j: int| from <= j < first_position(items, id, from) ==> items[j].id != id,
    decreases items.len() - from,
{
    if from < items.len() && items[from].id != id {
        lemma_first_position(items, id, from + 1);
    }
}

/// The positions a drop moves a row between, found by scanning the items.
fn find_drop_positions(items: &Vec<Item>, dragged_id: u64, target_id: u64) -> (r: Option<(usize, usize)>)
    ensures
        r matches Some((d, t)) ==> d < items@.len() && t < items@.len() && drop_positions(
            items@,
            dragged_id,
            target_id,
        ) == Some((d as int, t as int)),
        r is None ==> drop_positions(items@, dragged_id, target_id) is None,
{
    let ghost orig = items@;
    let mut idx_dragged: Option<usize> = None;
    let mut idx_drop_target: Option<usize> = None;
    let mut i: usize = 0;
    while i < items.len()
        invariant
            items@ == orig,
            0 <= i <= orig.len(),
            match idx_dragged {
                Some(d) => d as int == last_position(orig, dragged_id, i as int),
                None => last_position(orig, dragged_id, i as int) == -1,
            },
            match idx_drop_target {
                Some(t) => dragged_id != target_id && t as int == last_position(
                    orig,
                    target_id,
                    i as int,
                ),
                None => dragged_id == target_id || last_position(orig, target_id, i as int) == -1,
            },
        decreases orig.len() - i,
    {
        let id = items[i].id;
        if id == dragged_id {
            idx_dragged = Some(i);
        } else if id == target_id {
            idx_drop_target = Some(i);
        }
        i = i + 1;
    }
    proof {
        lemma_last_position(orig, dragged_id, orig.len() as int);
        lemma_last_position(orig, target_id, orig.len() as int);
    }
    match (idx_dragged, idx_drop_target) {
        (Some(d), Some(t)) => Some((d, t)),
        _ => None,
    }
}

/// Moves the row at `d` to position `t`.
fn move_row(items: &mut Vec<Item>, d: usize, t: usize)
    requires
        d < old(items)@.len(),
        t < old(items)@.len(),
    ensures
        final(items)@ == moved(old(items)@, Some((d as int, t as int))),
{
    let item = items.remove(d);
    items.insert(t, item);
}

/// Moves the dragged item to where the drop target is.
pub fn reorder_items(items: &mut Vec<Item>, dragged_id: u64, target_id: u64)
    ensures
        final(items)@ == reordered(old(items)@, dragged_id, target_id),
{
    if let Some((d, t)) = find_drop_positions(items, dragged_id, target_id) {
        move_row(items, d, t);
    }
}

/// Dropping one item on another only changes the order of the items.
pub proof fn lemma_reordered_is_permutation(items: Seq<Item>, dragged_id: u64, target_id: u64)
    ensures
        reordered(items, dragged_id, target_id).to_multiset() == items.to_multiset(),
        reordered(items, dragged_id, target_id).len() == items.len(),
{
    broadcast use vstd::seq_lib::group_to_multiset_ensures;

    let d = last_position(items, dragged_id, items.len() as int);
    let t = if dragged_id == target_id {
        -1
    } else {
        last_position(items, target_id, items.len() as int)
    };
    lemma_last_position(items, dragged_id, items.len() as int);
    lemma_last_position(items, target_id, items.len() as int);
    if d >= 0 && t >= 0 {
        let r = items.remove(d);
        assert(r.to_multiset() == items.to_multiset().remove(items[d]));
        assert(r.insert(t, items[d]).to_multiset() == r.to_multiset().insert(items[d]));
        assert(items.to_multiset().remove(items[d]).insert(items[d]) =~= items.to_multiset());
    }
}

/// Removes the first item with id `item_id` and hands it back.
pub fn remove_item_by_id(items: &mut Vec<Item>, item_id: u64) -> (removed: Item)
    requires
        exists|j: int| 0 <= j < old(items)@.len() && old(items)@[j].id == item_id,
    ensures
        removed == old(items)@[first_position(old(items)@, item_id, 0)],
        final(items)@ == old(items)@.remove(first_position(old(items)@, item_id, 0)),
        removed.id == item_id,
{
    proof {
        lemma_first_position(items@, item_id, 0);
    }
    let ghost first = first_position(items@, item_id, 0);
    let mut i: usize = 0;
    while i < items.len() && items[i].id != item_id
        invariant
            0 <= i <= first < items@.len(),
            items@ == old(items)@,
            items@[first].id == item_id,
        decreases items@.len() - i,
    {
        i = i + 1;
    }
    items.remove(i)
}

/// The items of an open list page, and the new item waiting for the id the
/// server assigns it. New items are stored one after the other, so at most
/// one waits at a time; it is followed through reordering and deletion.
#[derive(Debug)]
pub struct ListPageItems {
    items: Vec<Item>,
    pending: Option<usize>,
}

/// Where the waiting row stands after a drop.
pub open spec fn pending_after_move(pending: Option<usize>, pos: Option<(int, int)>) -> Option<usize> {
    match (pending, pos) {
        (Some(p), Some((d, t))) => Some(moved_position(p as int, d, t) as usize),
        _ => pending,
    }
}

/// Where the waiting row stands after the row at `k` was deleted.
pub open spec fn pending_after_removal(pending: Option<usize>, k: int) -> Option<usize> {
    match pending {
        Some(p) => match removed_position(p as int, k) {
            Some(q) => Some(q as usize),
            None => None,
        },
        None => None,
    }
}

/// A new, unchecked item with only a name.
pub open spec fn named_view(name: Seq<char>) -> ItemView {
    ItemView {
        id: 0,
        checked: false,
        name: name,
        amount: None,
        unit: None,
        article_id: None,
        alternative_article_ids: None,
    }
}

impl ListPageItems {
    /// The waiting row is one of the items.
    #[verifier::type_invariant]
    spec fn pending_in_list(self) -> bool {
        self.pending matches Some(p) ==> p < self.items@.len()
    }

    pub closed spec fn spec_items(&self) -> Seq<Item> {
        self.items@
    }

    pub closed spec fn spec_pending(&self) -> Option<usize> {
        self.pending
    }

    /// The page's items as loaded; nothing waits for an id.
    pub fn new(items: Vec<Item>) -> (p: Self)
        ensures
            p.spec_items() == items@,
            p.spec_pending() is None,
    {
        ListPageItems { items, pending: None }
    }

    /// The items, in the order shown.
    pub fn items(&self) -> (i: &Vec<Item>)
        ensures
            i@ == self.spec_items(),
    {
        &self.items
    }

    /// The position of the new item waiting for its id, if any.
    pub fn pending(&self) -> (p: Option<usize>)
        ensures
            p == self.spec_pending(),
    {
        self.pending
    }

    /// Moves the dragged item to where the drop target is; the waiting row,
    /// if any, is followed to where it ends up.
    pub fn reorder(&mut self, dragged_id: u64, target_id: u64)
        ensures
            final(self).spec_items() == reordered(old(self).spec_items(), dragged_id, target_id),
            final(self).spec_pending() == pending_after_move(
                old(self).spec_pending(),
                drop_positions(old(self).spec_items(), dragged_id, target_id),
            ),
    {
        proof {
            use_type_invariant(&*self);
        }
        let pending = self.pending;
        self.pending = None;
        let mut items: Vec<Item> = Vec::new();
        std::mem::swap(&mut items, &mut self.items);
        let ghost old_items = items@;
        match find_drop_positions(&items, dragged_id, target_id) {
            Some((d, t)) => {
                move_row(&mut items, d, t);
                let new_pending = match pending {
                    Some(p) => {
                        proof {
                            lemma_row_follows_move(old_items, d as int, t as int, p as int);
                        }
                        let q = if p == d {
                            t
                        } else {
                            let j = if p > d {
                                p - 1
                            } else {
                                p
                            };
                            if j >= t {
                                j + 1
                            } else {
                                j
                            }
                        };
                        Some(q)
                    },
                    None => None,
                };
                self.items = items;
                self.pending = new_pending;
            },
            None => {
                self.items = items;
                self.pending = pending;
            },
        }
    }

    /// Adds an item with the typed name at the end of the list and builds the
    /// request that stores it with the server, which assigns its id. The new
    /// item then waits for that id; only one waits at a time.
    pub fn add_new_item(&mut self, list_id: u64, name: String) -> (r: StoreItemAttached)
        requires
            old(self).spec_pending() is None,
        ensures
            final(self).spec_items().len() == old(self).spec_items().len() + 1,
            final(self).spec_items().take(old(self).spec_items().len() as int)
                == old(self).spec_items(),
            final(self).spec_items().last()@ == named_view(name@),
            final(self).spec_pending() == Some(old(self).spec_items().len() as usize),
            r.list_id == list_id,
            r.item@ == named_view(name@),
    {
        let item = Item::named(name);
        let request = StoreItemAttached { item: item.duplicate(), list_id };
        let mut items: Vec<Item> = Vec::new();
        std::mem::swap(&mut items, &mut self.items);
        let index = items.len();
        items.push(item);
        assert(items@.take(index as int) =~= old(self).items@);
        self.items = items;
        self.pending = Some(index);
        request
    }

    /// Takes the server's answer to storing the new item: the waiting item
    /// gets the id the server assigned, wherever it stands now. A failure is
    /// handed on to be shown. Afterwards nothing waits.
    pub fn new_item_stored(&mut self, result: Result<u64, APIError>) -> (r: Option<APIError>)
        ensures
            final(self).spec_pending() is None,
            result matches Ok(id) ==> (old(self).spec_pending() matches Some(p)
                ==> final(self).spec_items() == old(self).spec_items().update(
                p as int,
                Item { id: id, ..old(self).spec_items()[p as int] },
            )),
            old(self).spec_pending() is None ==> final(self).spec_items() == old(self).spec_items(),
            result is Ok ==> r is None,
            result matches Err(e) ==> final(self).spec_items() == old(self).spec_items() && r
                == Some(e),
    {
        proof {
            use_type_invariant(&*self);
        }
        let pending = self.pending;
        self.pending = None;
        match result {
            Ok(id) => {
                if let Some(p) = pending {
                    let mut items: Vec<Item> = Vec::new();
                    std::mem::swap(&mut items, &mut self.items);
                    let mut item = items.remove(p);
                    item.id = id;
                    items.insert(p, item);
                    self.items = items;
                }
                None
            },
            Err(e) => Some(e),
        }
    }

    /// Deletes an item and builds the request that deletes it on the
    /// server; the waiting row, if any, is followed.
    pub fn delete_item(&mut self, list_id: u64, item_id: u64) -> (r: DeleteItem)
        requires
            exists|j: int|
                0 <= j < old(self).spec_items().len() && old(self).spec_items()[j].id == item_id,
        ensures
            final(self).spec_items() == old(self).spec_items().remove(
                first_position(old(self).spec_items(), item_id, 0),
            ),
            final(self).spec_pending() == pending_after_removal(
                old(self).spec_pending(),
                first_position(old(self).spec_items(), item_id, 0),
            ),
            r.list_id == list_id,
            r.item_id == item_id,
    {
        proof {
            use_type_invariant(&*self);
            lemma_first_position(self.items@, item_id, 0);
        }
        let ghost k = first_position(self.items@, item_id, 0);
        let pending = self.pending;
        self.pending = None;
        let mut items: Vec<Item> = Vec::new();
        std::mem::swap(&mut items, &mut self.items);
        let mut i: usize = 0;
        while i < items.len() && items[i].id != item_id
            invariant
                0 <= i <= k < items@.len(),
                items[k].id == item_id,
            decreases items@.len() - i,
        {
            i = i + 1;
        }
        proof {
            if (i as int) < k {
                assert(items@[i as int].id != item_id);
            }
        }
        let _removed = items.remove(i);
        let new_pending = match pending {
            Some(p) => if p == i {
                None
            } else if p > i {
                Some(p - 1)
            } else {
                Some(p)
            },
            None => None,
        };
        self.items = items;
        self.pending = new_pending;
        DeleteItem { list_id, item_id }
    }
}

/// Where the page goes when a list could not be loaded.
#[derive(Debug, Clone, Copy, PartialEq, Eq, Structural)]
pub enum LoaderNavigation {
    /// Back to the page shown before.
    GoBack,
    /// To the overview, replacing the current page.
    ReplaceWithHome,
}

/// What the page does once a list has been fetched.
#[derive(Debug)]
pub enum LoaderAction {
    /// Show the list: its metadata and its items.
    Show(List, Vec<Item>),
    /// Report the failure and leave the page: nothing can be done on it.
    Report(APIError, LoaderNavigation),
}

/// The outcome of fetching a list for its page: a fetched list is shown;
/// after a failure the error is reported and the user goes back, or to the
/// overview when there is no page to go back to.
pub fn after_list_load(res: Result<FlatItemsList, APIError>, can_go_back: bool) -> (a: LoaderAction)
    ensures
        res matches Ok(l) ==> (a matches LoaderAction::Show(meta, items) && meta.id == l.id
            && meta@.name == l.name@ && meta.shop == l.shop && meta.image_id == l.image_id
            && meta@.items == item_ids(l.items@) && items@ == l.items@),
        res matches Err(e) ==> (a matches LoaderAction::Report(f, nav) && f == e && (can_go_back
            ==> nav == LoaderNavigation::GoBack) && (!can_go_back ==> nav
            == LoaderNavigation::ReplaceWithHome)),
{
    match res {
        Ok(list) => {
            let (meta, items) = list.into_list_and_items();
            LoaderAction::Show(meta, items)
        },
        Err(e) => {
            if can_go_back {
                LoaderAction::Report(e, LoaderNavigation::GoBack)
            } else {
                LoaderAction::Report(e, LoaderNavigation::ReplaceWithHome)
            }
        },
    }
}

} // verus!
