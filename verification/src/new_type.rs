//! Newtype: a user identifier that cannot be confused with other numbers and
//! is never zero.

use vstd::prelude::*;

verus! {

/// The identifier of a user.  It is always greater than zero.
pub struct UserId(u32);

impl View for UserId {
    type V = int;

    closed spec fn view(&self) -> int {
        self.0 as int
    }
}

impl UserId {
    #[verifier::type_invariant]
    spec fn positive(self) -> bool {
        self.0 > 0
    }

    /// Wraps `id`.  Zero is no identifier.
    pub fn new(id: u32) -> (user: UserId)
        requires
            id > 0,
        ensures
            user@ == id,
    {
        UserId(id)
    }

    /// The number inside.
    pub fn get(&self) -> (id: u32)
        ensures
            id == self@,
            id > 0,
    {
        proof {
            use_type_invariant(self);
        }
        self.0
    }
}

} // verus!
