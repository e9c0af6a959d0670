//! Users, their credentials and the per-user lists of owned objects.

use vstd::prelude::*;

use super::Identifiable;

verus! {

/// A registered user.
#[derive(Debug, Clone)]
pub struct User {
    pub id: u64,
    pub name: String,
    pub profile_picture_id: Option<u64>,
}

impl Identifiable for User {
    type Id = u64;
}

/// A user together with the stored password hash.
#[derive(Debug, Clone)]
pub struct UserWithPassword {
    pub user: User,
    pub password: Password,
}

/// A salted password hash.
#[derive(Debug, Clone)]
pub struct Password {
    pub hash: Vec<u8>,
    pub salt: Vec<u8>,
}

/// The ids of the objects of one type that a user created.
#[derive(Debug, Clone)]
pub struct ObjectList {
    pub typ: u64,
    pub list: Vec<u64>,
}

/// The mathematical value of an [`ObjectList`].
pub struct ObjectListView {
    pub typ: u64,
    pub list: Seq<u64>,
}

impl View for ObjectList {
    type V = ObjectListView;

    open spec fn view(&self) -> ObjectListView {
        ObjectListView { typ: self.typ, list: self.list@ }
    }
}

impl ObjectList {
    /// An empty object list for the type tagged `typ`.
    pub fn new(typ: u64) -> (ol: Self)
        ensures
            ol.typ == typ,
            ol@.list == Seq::<u64>::empty(),
    {
        Self { typ, list: Vec::new() }
    }
}

/// All object lists of a user, at most one per type in practice.
#[derive(Debug, Clone, Default)]
pub struct UsersObjectLists {
    pub lists: Vec<ObjectList>,
}

impl View for UsersObjectLists {
    type V = Seq<ObjectListView>;

    open spec fn view(&self) -> Seq<ObjectListView> {
        self.lists@.map_values(|o: ObjectList| o@)
    }
}

/// The position of the first list tagged `typ`, or the length when there is none.
pub open spec fn first_of_type(s: Seq<ObjectListView>, typ: u64) -> int
    decreases s.len(),
{
    if s.len() == 0 {
        0
    } else if s[0].typ == typ {
        0
    } else {
        1 + first_of_type(s.drop_first(), typ)
    }
}

/// The ids recorded for type `typ`: those of its first list, if any.
pub open spec fn ids_of_type(s: Seq<ObjectListView>, typ: u64) -> Seq<u64> {
    let i = first_of_type(s, typ);
    if i < s.len() {
        s[i].list
    } else {
        Seq::empty()
    }
}

/// The object lists after recording `id` for type `typ`: appended to the
/// first list of that type, or in a new list at the end when there is none.
pub open spec fn with_object(s: Seq<ObjectListView>, typ: u64, id: u64) -> Seq<ObjectListView> {
    let i = first_of_type(s, typ);
    if i < s.len() {
        s.update(i, ObjectListView { typ, list: s[i].list.push(id) })
    } else {
        s.push(ObjectListView { typ, list: seq![id] })
    }
}

/// No two lists share a type.
pub open spec fn types_unique(s: Seq<ObjectListView>) -> bool {
    forall|i: int, j: int| 0 <= i < j < s.len() ==> s[i].typ != s[j].typ
}

/// `first_of_type` is the first position holding `typ`.
pub proof fn lemma_first_of_type(s: Seq<ObjectListView>, typ: u64)
    ensures
        0 <= first_of_type(s, typ) <= s.len(),
        first_of_type(s, typ) < s.len() ==> s[first_of_type(s, typ)].typ == typ,
        forall|j: int| 0 <= j < first_of_type(s, typ) ==> s[j].typ != typ,
    decreases s.len(),
{
    if s.len() > 0 && s[0].typ != typ {
        lemma_first_of_type(s.drop_first(), typ);
        assert forall|j: int| 0 <= j < first_of_type(s, typ) implies s[j].typ != typ by {
            if j > 0 {
                assert(s[j] == s.drop_first()[j - 1]);
            }
        }
    }
}

/// A position with `typ` and none before it is the first of its type.
pub proof fn lemma_first_of_type_at(s: Seq<ObjectListView>, typ: u64, i: int)
    requires
        0 <= i <= s.len(),
        i < s.len() ==> s[i].typ == typ,
        forall|j: int| 0 <= j < i ==> s[j].typ != typ,
    ensures
        first_of_type(s, typ) == i,
    decreases s.len(),
{
    if s.len() > 0 && i > 0 {
        assert(s[0].typ != typ);
        lemma_first_of_type_at(s.drop_first(), typ, i - 1);
    }
}

/// Lists with the same types at the same positions have the same first positions.
proof fn lemma_first_of_type_same_types(s: Seq<ObjectListView>, t: Seq<ObjectListView>, typ: u64)
    requires
        s.len() == t.len(),
        forall|j: int| 0 <= j < s.len() ==> s[j].typ == t[j].typ,
    ensures
        first_of_type(s, typ) == first_of_type(t, typ),
{
    lemma_first_of_type(s, typ);
    lemma_first_of_type_at(t, typ, first_of_type(s, typ));
}

/// Recording an object and then reading the ids of its type gives the
/// previous ids followed by the new one; the ids of every other type stay as
/// they were.
pub proof fn lemma_with_object_then_ids(s: Seq<ObjectListView>, typ: u64, id: u64, other: u64)
    requires
        other != typ,
    ensures
        ids_of_type(with_object(s, typ, id), typ) == ids_of_type(s, typ).push(id),
        ids_of_type(with_object(s, typ, id), other) == ids_of_type(s, other),
{
    let i = first_of_type(s, typ);
    let n = with_object(s, typ, id);
    lemma_first_of_type(s, typ);
    lemma_first_of_type(s, other);
    if i < s.len() {
        lemma_first_of_type_same_types(s, n, typ);
        lemma_first_of_type_same_types(s, n, other);
        let k = first_of_type(s, other);
        if k < s.len() {
            assert(k != i);
        }
    } else {
        lemma_first_of_type_at(n, typ, s.len() as int);
        let k = first_of_type(s, other);
        if k < s.len() {
            lemma_first_of_type_at(n, other, k);
        } else {
            lemma_first_of_type_at(n, other, s.len() as int + 1);
        }
    }
}

/// Recording an object keeps lists of distinct types distinct.
pub proof fn lemma_with_object_keeps_types_unique(s: Seq<ObjectListView>, typ: u64, id: u64)
    requires
        types_unique(s),
    ensures
        types_unique(with_object(s, typ, id)),
{
    lemma_first_of_type(s, typ);
    let n = with_object(s, typ, id);
    if first_of_type(s, typ) < s.len() {
        assert forall|i: int, j: int| 0 <= i < j < n.len() implies n[i].typ != n[j].typ by {
            assert(n[i].typ == s[i].typ && n[j].typ == s[j].typ);
        }
    } else {
        assert forall|i: int, j: int| 0 <= i < j < n.len() implies n[i].typ != n[j].typ by {
            if j == s.len() {
                assert(s[i].typ != typ);
            } else {
                assert(n[i] == s[i] && n[j] == s[j]);
            }
        }
    }
}

impl UsersObjectLists {
    /// Searches the position of the first list tagged `typ`.
    fn position_of(&self, typ: u64) -> (i: usize)
        ensures
            i == first_of_type(self@, typ),
    {
        let mut i: usize = 0;
        while i < self.lists.len()
            invariant
                0 <= i <= self.lists@.len(),
                forall|j: int| 0 <= j < i ==> self@[j].typ != typ,
            decreases self.lists@.len() - i,
        {
            if self.lists[i].typ == typ {
                proof {
                    lemma_first_of_type_at(self@, typ, i as int);
                }
                return i;
            }
            i = i + 1;
        }
        proof {
            lemma_first_of_type_at(self@, typ, i as int);
        }
        i
    }

    /// The object list for type `typ`: the first one so tagged, or an empty
    /// one when the user has none.
    pub fn find_list(&self, typ: u64) -> (ol: ObjectList)
        ensures
            ol.typ == typ,
            ol@.list == ids_of_type(self@, typ),
    {
        let i = self.position_of(typ);
        proof {
            lemma_first_of_type(self@, typ);
        }
        if i < self.lists.len() {
            let list = self.lists[i].list.clone();
            assert(list@ =~= self.lists@[i as int].list@);
            ObjectList { typ, list }
        } else {
            ObjectList::new(typ)
        }
    }

    /// Records that the user created object `object_id` of type `typ`: it is
    /// appended to the first list of that type, or a new list is added.
    pub fn add_object(&mut self, typ: u64, object_id: u64)
        ensures
            final(self)@ == with_object(old(self)@, typ, object_id),
    {
        let i = self.position_of(typ);
        proof {
            lemma_first_of_type(self@, typ);
        }
        if i < self.lists.len() {
            let mut ol = self.lists.remove(i);
            ol.list.push(object_id);
            self.lists.insert(i, ol);
            assert(self@ =~= with_object(old(self)@, typ, object_id));
        } else {
            let mut ol = ObjectList::new(typ);
            ol.list.push(object_id);
            self.lists.push(ol);
            assert(self@ =~= with_object(old(self)@, typ, object_id));
        }
    }
}

impl crate::ApiObject for User {

}

impl crate::ApiObject for UserWithPassword {

}

impl crate::ApiObject for ObjectList {

}

} // verus!
