//! Roles that a token grants, held as a set.
use vstd::prelude::*;

verus! {

/// A capability that a user may hold and that a route may require.
#[derive(Clone, Copy, Debug, PartialEq, Eq, Structural)]
pub enum UserRole {
    Unprivileged,
    Moderator,
    Admin,
}

/// Why a verified token was refused by the role check.
#[derive(Clone, Copy, Debug, PartialEq, Eq, Structural)]
pub enum RoleError {
    InsufficientRights,
}

/// A set of roles: one flag per role.
#[derive(Clone, Copy, Debug, PartialEq, Eq, Structural)]
pub struct RoleSet {
    pub unprivileged: bool,
    pub moderator: bool,
    pub admin: bool,
}

impl RoleSet {
    /// Whether `role`'s flag is set.
    pub open spec fn has(self, role: UserRole) -> bool {
        match role {
            UserRole::Unprivileged => self.unprivileged,
            UserRole::Moderator => self.moderator,
            UserRole::Admin => self.admin,
        }
    }

    /// The set that holds no role.
    pub fn empty() -> (r: RoleSet)
        ensures
            r@ == Set::<UserRole>::empty(),
    {
        let r = RoleSet { unprivileged: false, moderator: false, admin: false };
        assert(r@ =~= Set::<UserRole>::empty());
        r
    }

    /// This set with `role` added.
    pub fn with(self, role: UserRole) -> (r: RoleSet)
        ensures
            r@ == self@.insert(role),
    {
        let mut r = self;
        match role {
            UserRole::Unprivileged => r.unprivileged = true,
            UserRole::Moderator => r.moderator = true,
            UserRole::Admin => r.admin = true,
        }
        assert(r@ =~= self@.insert(role));
        r
    }

    /// The set that holds `role` alone.
    pub fn single(role: UserRole) -> (r: RoleSet)
        ensures
            r@ == Set::<UserRole>::empty().insert(role),
    {
        RoleSet::empty().with(role)
    }

    /// The set of the roles listed in `roles`.
    pub fn from_roles(roles: &Vec<UserRole>) -> (r: RoleSet)
        ensures
            r@ == roles@.to_set(),
    {
        let mut r = RoleSet::empty();
        let mut i: usize = 0;
        while i < roles.len()
            invariant
                i <= roles@.len(),
                r@ == roles@.subrange(0, i as int).to_set(),
            decreases roles@.len() - i,
        {
            proof {
                let s = roles@.subrange(0, i as int + 1);
                assert(s =~= roles@.subrange(0, i as int).push(roles@[i as int]));
                roles@.subrange(0, i as int).lemma_push_to_set_commute(roles@[i as int]);
            }
            r = r.with(roles[i]);
            i += 1;
        }
        assert(roles@.subrange(0, i as int) =~= roles@);
        r
    }

    /// Whether `role` is in the set.
    pub fn contains(&self, role: UserRole) -> (r: bool)
        ensures
            r == self@.contains(role),
    {
        match role {
            UserRole::Unprivileged => self.unprivileged,
            UserRole::Moderator => self.moderator,
            UserRole::Admin => self.admin,
        }
    }

    /// Whether the set holds no role.
    pub fn is_empty(&self) -> (r: bool)
        ensures
            r == (self@ == Set::<UserRole>::empty()),
    {
        let r = !self.unprivileged && !self.moderator && !self.admin;
        if r {
            assert(self@ =~= Set::<UserRole>::empty());
        } else {
            if self.unprivileged {
                assert(self@.contains(UserRole::Unprivileged));
            } else if self.moderator {
                assert(self@.contains(UserRole::Moderator));
            } else {
                assert(self@.contains(UserRole::Admin));
            }
        }
        r
    }
}

impl View for RoleSet {
    type V = Set<UserRole>;

    open spec fn view(&self) -> Set<UserRole> {
        Set::new(|role: UserRole| self.has(role))
    }
}

} // verus!
