//! Items: the entries of a shopping list.

use vstd::prelude::*;
use vstd::std_specs::cmp::PartialEqSpecImpl;

use super::Identifiable;

verus! {

/// The unit an item's amount is given in.
#[derive(Debug, Clone)]
pub enum Unit {
    Gram,
    KiloGram,
    Pieces,
    FreeForm(String),
}

/// The mathematical value of a [`Unit`].
pub enum UnitView {
    Gram,
    KiloGram,
    Pieces,
    FreeForm(Seq<char>),
}

impl View for Unit {
    type V = UnitView;

    open spec fn view(&self) -> UnitView {
        match self {
            Unit::Gram => UnitView::Gram,
            Unit::KiloGram => UnitView::KiloGram,
            Unit::Pieces => UnitView::Pieces,
            Unit::FreeForm(s) => UnitView::FreeForm(s@),
        }
    }
}

impl PartialEq for Unit {
    fn eq(&self, other: &Self) -> (r: bool) {
        match (self, other) {
            (Unit::Gram, Unit::Gram) => true,
            (Unit::KiloGram, Unit::KiloGram) => true,
            (Unit::Pieces, Unit::Pieces) => true,
            (Unit::FreeForm(a), Unit::FreeForm(b)) => String::eq(a, b),
            _ => false,
        }
    }
}

impl PartialEqSpecImpl for Unit {
    open spec fn obeys_eq_spec() -> bool {
        true
    }

    open spec fn eq_spec(&self, other: &Self) -> bool {
        self@ == other@
    }
}

impl Eq for Unit {}

/// An entry of a shopping list.
#[derive(Debug, Clone)]
pub struct Item {
    pub id: u64,
    pub checked: bool,
    pub name: String,
    pub amount: Option<u64>,
    pub unit: Option<Unit>,
    pub article_id: Option<u64>,
    pub alternative_article_ids: Option<Vec<u64>>,
}

/// The mathematical value of an [`Item`].
pub struct ItemView {
    pub id: u64,
    pub checked: bool,
    pub name: Seq<char>,
    pub amount: Option<u64>,
    pub unit: Option<UnitView>,
    pub article_id: Option<u64>,
    pub alternative_article_ids: Option<Seq<u64>>,
}

impl View for Item {
    type V = ItemView;

    open spec fn view(&self) -> ItemView {
        ItemView {
            id: self.id,
            checked: self.checked,
            name: self.name@,
            amount: self.amount,
            unit: match self.unit {
                Some(u) => Some(u@),
                None => None,
            },
            article_id: self.article_id,
            alternative_article_ids: match self.alternative_article_ids {
                Some(v) => Some(v@),
                None => None,
            },
        }
    }
}

/// Two items are the same entry when everything but their names agrees.
pub open spec fn same_item(a: ItemView, b: ItemView) -> bool {
    &&& a.id == b.id
    &&& a.checked == b.checked
    &&& a.amount == b.amount
    &&& a.unit == b.unit
    &&& a.article_id == b.article_id
    &&& a.alternative_article_ids == b.alternative_article_ids
}

/// Comparing items while ignoring their names is an equivalence: every item
/// equals itself, the comparison is symmetric, and it is transitive.
pub proof fn lemma_same_item_equivalence(a: ItemView, b: ItemView, c: ItemView)
    ensures
        same_item(a, a),
        same_item(a, b) ==> same_item(b, a),
        same_item(a, b) && same_item(b, c) ==> same_item(a, c),
{
}

fn same_ids(a: &Vec<u64>, b: &Vec<u64>) -> (r: bool)
    ensures
        r == (a@ == b@),
{
    if a.len() != b.len() {
        return false;
    }
    let mut i: usize = 0;
    while i < a.len()
        invariant
            a@.len() == b@.len(),
            0 <= i <= a@.len(),
            forall|j: int| 0 <= j < i ==> a@[j] == b@[j],
        decreases a@.len() - i,
    {
        if a[i] != b[i] {
            return false;
        }
        i = i + 1;
    }
    assert(a@ =~= b@);
    true
}

fn same_unit(a: &Option<Unit>, b: &Option<Unit>) -> (r: bool)
    ensures
        r == ((match *a {
            Some(u) => Some(u@),
            None => None,
        }) == (match *b {
            Some(u) => Some(u@),
            None => None,
        })),
{
    match (a, b) {
        (Some(x), Some(y)) => x.eq(y),
        (None, None) => true,
        _ => false,
    }
}

impl PartialEq for Item {
    /// Compares everything but the names.
    fn eq(&self, other: &Self) -> (r: bool) {
        let ids_match = match (&self.alternative_article_ids, &other.alternative_article_ids) {
            (Some(x), Some(y)) => same_ids(x, y),
            (None, None) => true,
            _ => false,
        };
        self.id == other.id && self.checked == other.checked && self.amount == other.amount
            && same_unit(&self.unit, &other.unit) && self.article_id == other.article_id
            && ids_match
    }
}

impl PartialEqSpecImpl for Item {
    open spec fn obeys_eq_spec() -> bool {
        true
    }

    open spec fn eq_spec(&self, other: &Self) -> bool {
        same_item(self@, other@)
    }
}

impl Identifiable for Item {
    type Id = u64;
}

impl Unit {
    /// A copy of the unit.
    pub fn duplicate(&self) -> (u: Self)
        ensures
            u@ == self@,
    {
        match self {
            Unit::Gram => Unit::Gram,
            Unit::KiloGram => Unit::KiloGram,
            Unit::Pieces => Unit::Pieces,
            Unit::FreeForm(s) => Unit::FreeForm(s.clone()),
        }
    }
}

fn copy_ids(ids: &Vec<u64>) -> (r: Vec<u64>)
    ensures
        r@ == ids@,
{
    let mut r: Vec<u64> = Vec::new();
    let mut i: usize = 0;
    while i < ids.len()
        invariant
            0 <= i <= ids@.len(),
            r@ == ids@.take(i as int),
        decreases ids@.len() - i,
    {
        r.push(ids[i]);
        assert(ids@.take(i + 1) =~= ids@.take(i as int).push(ids@[i as int]));
        i = i + 1;
    }
    assert(ids@.take(ids@.len() as int) =~= ids@);
    r
}

impl Item {
    /// A copy of the item.
    pub fn duplicate(&self) -> (i: Self)
        ensures
            i@ == self@,
    {
        Item {
            id: self.id,
            checked: self.checked,
            name: self.name.clone(),
            amount: self.amount,
            unit: match &self.unit {
                Some(u) => Some(u.duplicate()),
                None => None,
            },
            article_id: self.article_id,
            alternative_article_ids: match &self.alternative_article_ids {
                Some(ids) => Some(copy_ids(ids)),
                None => None,
            },
        }
    }

    /// A fresh, unchecked item with only a name; the server assigns its id.
    pub fn named(name: String) -> (item: Self)
        ensures
            item@.name == name@,
            item.id == 0,
            !item.checked,
            item.amount is None,
            item.unit is None,
            item.article_id is None,
            item.alternative_article_ids is None,
    {
        Item {
            id: 0,
            checked: false,
            name,
            amount: None,
            unit: None,
            article_id: None,
            alternative_article_ids: None,
        }
    }
}

impl crate::ApiObject for Item {

}

} // verus!
