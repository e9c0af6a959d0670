//! Completion of item names while typing.

use vstd::prelude::*;

use crate::model::item::Item;
use crate::text::{spec_starts_with, starts_with};

verus! {

/// The positions, in order, among the first `n` items, of checked items
/// whose names start with `beginning`.
pub open spec fn completion_positions(items: Seq<Item>, beginning: Seq<char>, n: int) -> Seq<usize>
    decreases n,
{
    if n <= 0 {
        Seq::empty()
    } else {
        let rest = completion_positions(items, beginning, n - 1);
        let item = items[n - 1];
        if item.checked && spec_starts_with(item.name@, beginning) {
            rest.push((n - 1) as usize)
        } else {
            rest
        }
    }
}

/// Every suggestion is a previously bought item whose name starts with the
/// typed text, and suggestions come in list order.
pub proof fn lemma_completions_sound(items: Seq<Item>, beginning: Seq<char>, n: int)
    requires
        0 <= n <= items.len(),
        n <= usize::MAX,
    ensures
        forall|k: int|
            0 <= k < completion_positions(items, beginning, n).len() ==> {
                let p = #[trigger] completion_positions(items, beginning, n)[k] as int;
                0 <= p < n && items[p].checked && spec_starts_with(items[p].name@, beginning)
            },
        forall|k: int, l: int|
            0 <= k < l < completion_positions(items, beginning, n).len() ==> #[trigger] completion_positions(
                items,
                beginning,
                n,
            )[k] < #[trigger] completion_positions(items, beginning, n)[l],
    decreases n,
{
    if n > 0 {
        lemma_completions_sound(items, beginning, n - 1);
        let rest = completion_positions(items, beginning, n - 1);
        let cur = completion_positions(items, beginning, n);
        assert forall|k: int| 0 <= k < rest.len() implies cur[k] == rest[k] by {}
        if cur.len() > rest.len() {
            assert(cur[rest.len() as int] as int == n - 1);
        }
    }
}

/// Suggests items for a name being typed: previously bought (checked) items
/// whose names start with what was typed, in list order. Nothing is
/// suggested for an empty input.
pub fn complete(items: &Vec<Item>, beginning: &str) -> (r: Vec<usize>)
    ensures
        beginning@.len() == 0 ==> r@ == Seq::<usize>::empty(),
        beginning@.len() > 0 ==> r@ == completion_positions(items@, beginning@, items@.len() as int),
{
    let mut r: Vec<usize> = Vec::new();
    if beginning.is_empty() {
        return r;
    }
    let mut i: usize = 0;
    while i < items.len()
        invariant
            0 <= i <= items@.len(),
            r@ == completion_positions(items@, beginning@, i as int),
        decreases items@.len() - i,
    {
        let item = &items[i];
        if item.checked && starts_with(item.name.as_str(), beginning) {
            r.push(i);
        }
        i = i + 1;
    }
    r
}

} // verus!
