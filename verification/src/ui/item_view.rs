//! One item of an open list: checking it off, renaming it, deleting it and
//! dragging it onto another item.

use vstd::prelude::*;

use crate::model::item::{Item, ItemView};

verus! {

/// The state of an item's row.
#[derive(Debug)]
pub struct ItemViewState {
    /// The item shown.
    pub item: Item,
    /// The row has not been shown yet; the first time it is, nothing is sent.
    pub first_render: bool,
    /// This row is being dragged.
    pub is_getting_dragged: bool,
    /// Another row is dragged over this one.
    pub is_dragged_over: bool,
}

/// What can happen to an item's row.
#[derive(Debug)]
pub enum ItemEvent {
    /// The row is shown for the first time.
    Mounted,
    /// The check box was clicked.
    ToggleChecked,
    /// The name was edited.
    Rename(String),
    /// The delete button was clicked.
    Delete,
    /// Dragging this row started.
    DragStart,
    /// Another row was dragged over this one.
    DragEnter,
    /// A dragged row left this one.
    DragLeave,
    /// A dragged row was dropped on this one.
    Drop,
    /// Dragging this row ended.
    DragEnd,
}

/// What the list page is asked to do after an event of a row.
#[derive(Debug)]
pub enum ItemAction {
    Nothing,
    /// Send the changed item to the server.
    SendUpdate(Item),
    /// Delete the item with this id.
    SendDelete(u64),
    /// Dragging the item with this id started.
    DragStarted(u64),
    /// An item was dropped on the item with this id.
    Dropped(u64),
}

/// A changed item is sent unless the row has not been shown yet.
pub open spec fn change_sent(first_render: bool, item: ItemView, a: ItemAction) -> bool {
    if first_render {
        a is Nothing
    } else {
        a matches ItemAction::SendUpdate(i) && i@ == item
    }
}

impl ItemViewState {
    /// A row for `item` that has not been shown yet.
    pub fn new(item: Item) -> (s: Self)
        ensures
            s.item == item,
            s.first_render,
            !s.is_getting_dragged,
            !s.is_dragged_over,
    {
        ItemViewState { item, first_render: true, is_getting_dragged: false, is_dragged_over: false }
    }
}

/// After a change of the item: the first run of the row's effect only marks
/// the row as shown; every later one sends the item.
fn after_change(s: ItemViewState) -> (r: (ItemViewState, ItemAction))
    ensures
        r.0.item == s.item,
        !r.0.first_render,
        r.0.is_getting_dragged == s.is_getting_dragged,
        r.0.is_dragged_over == s.is_dragged_over,
        change_sent(s.first_render, s.item@, r.1),
{
    if s.first_render {
        (ItemViewState { first_render: false, ..s }, ItemAction::Nothing)
    } else {
        let copy = s.item.duplicate();
        (s, ItemAction::SendUpdate(copy))
    }
}

/// Handles an event of an item's row: the new state and the action asked of
/// the list page.
pub fn item_view_step(s: ItemViewState, ev: ItemEvent) -> (r: (ItemViewState, ItemAction))
    ensures
        ev is Mounted ==> r.0.item == s.item && !r.0.first_render && r.1 is Nothing
            && r.0.is_getting_dragged == s.is_getting_dragged && r.0.is_dragged_over
            == s.is_dragged_over,
        ev is ToggleChecked ==> r.0.item@ == (ItemView { checked: !s.item.checked, ..s.item@ })
            && !r.0.first_render && change_sent(s.first_render, r.0.item@, r.1)
            && r.0.is_getting_dragged == s.is_getting_dragged && r.0.is_dragged_over
            == s.is_dragged_over,
        ev matches ItemEvent::Rename(n) ==> r.0.item@ == (ItemView { name: n@, ..s.item@ })
            && !r.0.first_render && change_sent(s.first_render, r.0.item@, r.1)
            && r.0.is_getting_dragged == s.is_getting_dragged && r.0.is_dragged_over
            == s.is_dragged_over,
        ev is Delete ==> r.0 == s && r.1 == ItemAction::SendDelete(s.item.id),
        ev is DragStart ==> r.0.item == s.item && r.0.first_render == s.first_render
            && r.0.is_getting_dragged && r.0.is_dragged_over == s.is_dragged_over && r.1
            == ItemAction::DragStarted(s.item.id),
        ev is DragEnter ==> r.0.item == s.item && r.0.first_render == s.first_render
            && r.0.is_getting_dragged == s.is_getting_dragged && r.0.is_dragged_over == (
            s.is_dragged_over || !s.is_getting_dragged) && r.1 is Nothing,
        ev is DragLeave ==> r.0.item == s.item && r.0.first_render == s.first_render
            && r.0.is_getting_dragged == s.is_getting_dragged && !r.0.is_dragged_over
            && r.1 is Nothing,
        ev is Drop ==> r.0.item == s.item && r.0.first_render == s.first_render
            && r.0.is_getting_dragged == s.is_getting_dragged && !r.0.is_dragged_over && r.1
            == ItemAction::Dropped(s.item.id),
        ev is DragEnd ==> r.0.item == s.item && r.0.first_render == s.first_render
            && !r.0.is_getting_dragged && r.0.is_dragged_over == s.is_dragged_over
            && r.1 is Nothing,
{
    match ev {
        ItemEvent::Mounted => (ItemViewState { first_render: false, ..s }, ItemAction::Nothing),
        ItemEvent::ToggleChecked => {
            let mut s = s;
            s.item.checked = !s.item.checked;
            after_change(s)
        },
        ItemEvent::Rename(name) => {
            let mut s = s;
            s.item.name = name;
            after_change(s)
        },
        ItemEvent::Delete => {
            let id = s.item.id;
            (s, ItemAction::SendDelete(id))
        },
        ItemEvent::DragStart => {
            let id = s.item.id;
            (ItemViewState { is_getting_dragged: true, ..s }, ItemAction::DragStarted(id))
        },
        ItemEvent::DragEnter => {
            if !s.is_getting_dragged {
                (ItemViewState { is_dragged_over: true, ..s }, ItemAction::Nothing)
            } else {
                (s, ItemAction::Nothing)
            }
        },
        ItemEvent::DragLeave => (ItemViewState { is_dragged_over: false, ..s }, ItemAction::Nothing),
        ItemEvent::Drop => {
            let id = s.item.id;
            (ItemViewState { is_dragged_over: false, ..s }, ItemAction::Dropped(id))
        },
        ItemEvent::DragEnd => (ItemViewState { is_getting_dragged: false, ..s }, ItemAction::Nothing),
    }
}

/// The space left above a row while another row is dragged over it.
pub fn drop_padding(is_dragged_over: bool) -> (p: &'static str)
    ensures
        is_dragged_over ==> p@ == "pt-8"@,
        !is_dragged_over ==> p@ == ""@,
{
    if is_dragged_over {
        "pt-8"
    } else {
        ""
    }
}

} // verus!
