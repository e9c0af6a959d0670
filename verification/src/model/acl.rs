//! Access-control lists guarding every stored object.

use vstd::prelude::*;

verus! {

/// Who may access an object: its owner and the users explicitly allowed.
#[derive(Debug, Clone)]
pub struct AccessControlList {
    pub object_id: u64,
    pub owner: u64,
    pub allowed_user_ids: Vec<u64>,
}

impl AccessControlList {
    /// `user_id` is the owner or one of the allowed users.
    pub open spec fn spec_grants(&self, user_id: u64) -> bool {
        self.owner == user_id || self.allowed_user_ids@.contains(user_id)
    }

    /// The list created for a new object: owned by its creator, nobody else allowed.
    pub fn new(object_id: u64, owner: u64) -> (acl: Self)
        ensures
            acl.object_id == object_id,
            acl.owner == owner,
            acl.allowed_user_ids@ == Seq::<u64>::empty(),
    {
        AccessControlList { object_id, owner, allowed_user_ids: Vec::new() }
    }

    /// Decides whether `user_id` may access the object.
    pub fn grants(&self, user_id: u64) -> (b: bool)
        ensures
            b == self.spec_grants(user_id),
    {
        if self.owner == user_id {
            return true;
        }
        let mut i: usize = 0;
        while i < self.allowed_user_ids.len()
            invariant
                0 <= i <= self.allowed_user_ids@.len(),
                forall|j: int| 0 <= j < i ==> self.allowed_user_ids@[j] != user_id,
            decreases self.allowed_user_ids@.len() - i,
        {
            if self.allowed_user_ids[i] == user_id {
                return true;
            }
            i = i + 1;
        }
        false
    }
}

/// The list created for a new object lets in its creator and nobody else.
pub proof fn lemma_new_acl_grants_only_owner(acl: AccessControlList, user_id: u64)
    requires
        acl.allowed_user_ids@ == Seq::<u64>::empty(),
    ensures
        acl.spec_grants(user_id) <==> user_id == acl.owner,
{
}

/// The owner of an object may always access it.
pub proof fn lemma_owner_granted(acl: AccessControlList)
    ensures
        acl.spec_grants(acl.owner),
{
}


/// A user is granted access exactly when they own the object or stand
/// anywhere among the allowed users.
pub proof fn lemma_grants_exactly(acl: AccessControlList, user_id: u64)
    ensures
        acl.spec_grants(user_id) <==> (user_id == acl.owner || exists|j: int|
            0 <= j < acl.allowed_user_ids@.len() && acl.allowed_user_ids@[j] == user_id),
{
}

/// Every allowed user is granted access, wherever they stand in the list.
pub proof fn lemma_allowed_users_granted(acl: AccessControlList, j: int)
    requires
        0 <= j < acl.allowed_user_ids@.len(),
    ensures
        acl.spec_grants(acl.allowed_user_ids@[j]),
{
    assert(acl.allowed_user_ids@.contains(acl.allowed_user_ids@[j]));
}

} // verus!
