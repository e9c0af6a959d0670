//! The error messages shown to the user: each failed request adds its
//! message for a while; a request that failed for want of a login also
//! sends the user to the login page.

use vstd::prelude::*;

use crate::client::APIError;
use crate::text::str_equals;

verus! {

broadcast use vstd::seq_lib::group_seq_properties;

/// An error that sends the user to the login page.
pub fn needs_authentication(e: &APIError) -> (b: bool)
    ensures
        b == (*e is Unauthenticated),
{
    match e {
        APIError::Unauthenticated => true,
        _ => false,
    }
}

/// The texts of messages.
pub open spec fn texts(s: Seq<String>) -> Seq<Seq<char>> {
    s.map_values(|m: String| m@)
}

/// No message is held twice.
pub open spec fn texts_unique(s: Seq<String>) -> bool {
    forall|i: int, j: int| 0 <= i < j < s.len() ==> s[i]@ != s[j]@
}

/// The messages currently shown, each once, in the order they came in.
#[derive(Debug)]
pub struct ErrorHandler {
    errors: Vec<String>,
}

impl ErrorHandler {
    #[verifier::type_invariant]
    spec fn each_once(self) -> bool {
        texts_unique(self.errors@)
    }

    /// The set of messages shown.
    pub closed spec fn spec_errors(&self) -> Set<Seq<char>> {
        texts(self.errors@).to_set()
    }

    /// No message shown.
    pub fn new() -> (h: Self)
        ensures
            h.spec_errors() == Set::<Seq<char>>::empty(),
    {
        let h = ErrorHandler { errors: Vec::new() };
        assert(texts(h.errors@).to_set() =~= Set::<Seq<char>>::empty());
        h
    }

    /// The position of the message with text `error`, or the number of messages.
    fn position(&self, error: &str) -> (k: usize)
        ensures
            k <= self.errors@.len(),
            k < self.errors@.len() ==> self.errors@[k as int]@ == error@,
            k == self.errors@.len() ==> !texts(self.errors@).contains(error@),
    {
        let mut k: usize = 0;
        while k < self.errors.len()
            invariant
                0 <= k <= self.errors@.len(),
                forall|j: int| 0 <= j < k ==> self.errors@[j]@ != error@,
            decreases self.errors@.len() - k,
        {
            if str_equals(self.errors[k].as_str(), error) {
                return k;
            }
            k = k + 1;
        }
        assert forall|j: int| 0 <= j < texts(self.errors@).len() implies texts(self.errors@)[j]
            != error@ by {
            assert(texts(self.errors@)[j] == self.errors@[j]@);
        }
        k
    }

    /// Shows a message; one already shown is not shown twice.
    pub fn add_error(&mut self, error: String)
        ensures
            final(self).spec_errors() == old(self).spec_errors().insert(error@),
    {
        proof {
            use_type_invariant(&*self);
        }
        let k = self.position(error.as_str());
        if k < self.errors.len() {
            assert(texts(self.errors@)[k as int] == error@);
            assert(self.spec_errors().insert(error@) =~= self.spec_errors());
        } else {
            let ghost before = self.errors@;
            let ghost text = error@;
            let mut errors: Vec<String> = Vec::new();
            std::mem::swap(&mut errors, &mut self.errors);
            errors.push(error);
            assert(texts(errors@) =~= texts(before).push(text));
            assert(texts(errors@).to_set() =~= texts(before).to_set().insert(text));
            assert forall|i: int, j: int| 0 <= i < j < errors@.len() implies errors@[i]@
                != errors@[j]@ by {
                if j == before.len() {
                    assert(texts(before)[i] == before[i]@);
                }
            }
            self.errors = errors;
        }
    }

    /// Takes a message off the screen.
    pub fn remove_error(&mut self, error: &str)
        ensures
            final(self).spec_errors() == old(self).spec_errors().remove(error@),
    {
        proof {
            use_type_invariant(&*self);
        }
        let k = self.position(error);
        if k < self.errors.len() {
            let ghost before = self.errors@;
            let mut errors: Vec<String> = Vec::new();
            std::mem::swap(&mut errors, &mut self.errors);
            let _removed = errors.remove(k);
            assert(texts(errors@) =~= texts(before).remove(k as int));
            assert forall|x: Seq<char>| #[trigger] texts(errors@).to_set().contains(x)
                == texts(before).to_set().remove(error@).contains(x) by {
                if texts(before).to_set().remove(error@).contains(x) {
                    let i = choose|i: int| 0 <= i < texts(before).len() && texts(before)[i] == x;
                    if i < k {
                        assert(texts(errors@)[i] == x);
                    } else {
                        assert(i != k);
                        assert(texts(errors@)[i - 1] == x);
                    }
                }
                if texts(errors@).to_set().contains(x) {
                    let i = choose|i: int| 0 <= i < texts(errors@).len() && texts(errors@)[i] == x;
                    if i < k {
                        assert(texts(before)[i] == x);
                        assert(before[i]@ != before[k as int]@);
                    } else {
                        assert(texts(before)[i + 1] == x);
                        assert(before[i + 1]@ != before[k as int]@);
                    }
                }
            }
            assert(texts(errors@).to_set() =~= texts(before).to_set().remove(error@));
            self.errors = errors;
        } else {
            assert(self.spec_errors().remove(error@) =~= self.spec_errors());
        }
    }

    /// The messages shown, in the order they came in.
    pub fn errors(&self) -> (e: &Vec<String>)
        ensures
            texts(e@).to_set() == self.spec_errors(),
    {
        &self.errors
    }
}

} // verus!
