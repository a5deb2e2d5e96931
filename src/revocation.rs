//! The set of users whose tokens are refused whatever they say.
use std::collections::HashSet;
use vstd::prelude::*;

verus! {

broadcast use vstd::std_specs::hash::group_hash_axioms;

/// The user ids that an administrator has banned.
pub struct RevocationRegistry {
    banned: HashSet<i32>,
}

impl View for RevocationRegistry {
    type V = Set<i32>;

    closed spec fn view(&self) -> Set<i32> {
        self.banned@
    }
}

impl RevocationRegistry {
    /// A registry in which nobody is banned.
    pub fn new() -> (r: RevocationRegistry)
        ensures
            r@ == Set::<i32>::empty(),
    {
        RevocationRegistry { banned: HashSet::new() }
    }

    /// Bans `user_id`; banning twice is the same as banning once.
    pub fn ban(&mut self, user_id: i32)
        ensures
            final(self)@ == old(self)@.insert(user_id),
    {
        self.banned.insert(user_id);
    }

    /// Lifts the ban on `user_id`, if there is one.
    pub fn unban(&mut self, user_id: i32)
        ensures
            final(self)@ == old(self)@.remove(user_id),
    {
        self.banned.remove(&user_id);
    }

    /// Whether `user_id` is banned.
    pub fn is_banned(&self, user_id: i32) -> (r: bool)
        ensures
            r == self@.contains(user_id),
    {
        self.banned.contains(&user_id)
    }
}

} // verus!
