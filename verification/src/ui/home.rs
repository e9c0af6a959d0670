//! The overview page: creating lists and selecting lists.

use vstd::prelude::*;

verus! {

/// What the user can do on the overview page.
#[derive(Debug, Clone)]
pub enum HomeMessage {
    NewList,
    ToggleSelectionMode,
    SelectList(u64),
    DeselectList(u64),
    DeleteSelection,
}

/// What the overview page asks the application to do next.
#[derive(Debug, Clone, Copy, PartialEq, Eq, Structural)]
pub enum HomeCommand {
    Nothing,
    /// Create a new, empty list on the server.
    CreateList,
}

/// The ids other than `id`, in order.
pub open spec fn without(ids: Seq<u64>, id: u64) -> Seq<u64> {
    ids.filter(|x: u64| x != id)
}

/// The selection mode and the selected lists after a message: a new list
/// changes neither, the selection mode can be toggled, and lists are
/// selected at the end and deselected everywhere.
pub open spec fn home_after(selection_mode: bool, selected: Seq<u64>, m: HomeMessage) -> (bool, Seq<u64>) {
    match m {
        HomeMessage::NewList => (selection_mode, selected),
        HomeMessage::ToggleSelectionMode => (!selection_mode, selected),
        HomeMessage::SelectList(id) => (selection_mode, selected.push(id)),
        HomeMessage::DeselectList(id) => (selection_mode, without(selected, id)),
        HomeMessage::DeleteSelection => (selection_mode, selected),
    }
}

/// The state of the overview page.
#[derive(Debug, Clone)]
pub struct HomeView {
    pub selection_mode: bool,
    pub selected_lists: Vec<u64>,
}

impl HomeView {
    /// Selection mode off, nothing selected.
    pub fn new() -> (h: Self)
        ensures
            !h.selection_mode,
            h.selected_lists@ == Seq::<u64>::empty(),
    {
        HomeView { selection_mode: false, selected_lists: Vec::new() }
    }

    /// Handles a message of the page. Deleting a selection is not supported.
    pub fn update(&mut self, message: HomeMessage) -> (c: HomeCommand)
        requires
            !(message is DeleteSelection),
        ensures
            (final(self).selection_mode, final(self).selected_lists@) == home_after(
                old(self).selection_mode,
                old(self).selected_lists@,
                message,
            ),
            message is NewList ==> c == HomeCommand::CreateList,
            !(message is NewList) ==> c == HomeCommand::Nothing,
    {
        match message {
            HomeMessage::NewList => HomeCommand::CreateList,
            HomeMessage::ToggleSelectionMode => {
                self.selection_mode = !self.selection_mode;
                HomeCommand::Nothing
            },
            HomeMessage::SelectList(id) => {
                self.selected_lists.push(id);
                HomeCommand::Nothing
            },
            HomeMessage::DeselectList(id) => {
                let kept = retain_other(&self.selected_lists, id);
                self.selected_lists = kept;
                HomeCommand::Nothing
            },
            HomeMessage::DeleteSelection => HomeCommand::Nothing,
        }
    }
}

/// The ids other than `id`, in order.
fn retain_other(ids: &Vec<u64>, id: u64) -> (r: Vec<u64>)
    ensures
        r@ == without(ids@, id),
{
    let mut r: Vec<u64> = Vec::new();
    let mut i: usize = 0;
    while i < ids.len()
        invariant
            0 <= i <= ids@.len(),
            r@ == without(ids@.take(i as int), id),
        decreases ids@.len() - i,
    {
        reveal_with_fuel(Seq::filter, 1);
        assert(ids@.take(i + 1).drop_last() =~= ids@.take(i as int));
        if ids[i] != id {
            r.push(ids[i]);
        }
        i = i + 1;
    }
    assert(ids@.take(ids@.len() as int) =~= ids@);
    r
}

proof fn lemma_filter_within(ids: Seq<u64>, id: u64, v: u64)
    requires
        without(ids, id).contains(v),
    ensures
        ids.contains(v),
    decreases ids.len(),
{
    reveal_with_fuel(Seq::filter, 1);
    if ids.len() > 0 {
        let rest = without(ids.drop_last(), id);
        if rest.contains(v) {
            lemma_filter_within(ids.drop_last(), id, v);
            let k = choose|k: int| 0 <= k < ids.drop_last().len() && ids.drop_last()[k] == v;
            assert(ids[k] == v);
        } else {
            assert(ids.last() == v);
        }
    }
}

/// After deselecting a list it is no longer selected, and every other
/// selected list still is.
pub proof fn lemma_deselect_removes_only(ids: Seq<u64>, id: u64, other: u64)
    requires
        other != id,
    ensures
        !without(ids, id).contains(id),
        ids.contains(other) <==> without(ids, id).contains(other),
{
    broadcast use vstd::seq_lib::group_filter_ensures;

    let f = without(ids, id);
    if ids.contains(other) {
        let k = choose|k: int| 0 <= k < ids.len() && ids[k] == other;
        assert(f.contains(ids[k]));
    }
    if f.contains(other) {
        lemma_filter_within(ids, id, other);
    }
}

} // verus!
