//! The role check, and the typed identities that routes ask for.
use crate::claims::{ClaimsModel, TokenClaims};
use crate::roles::{RoleError, UserRole};
use vstd::prelude::*;

verus! {

/// Who made a request: the part of the claims that routes may rely on.
#[derive(Debug)]
pub struct Identity {
    pub user_id: i32,
    pub user_name: String,
}

impl View for Identity {
    type V = (i32, Seq<char>);

    open spec fn view(&self) -> (i32, Seq<char>) {
        (self.user_id, self.user_name@)
    }
}

/// The identity that a set of claims names.
pub open spec fn identity_of(c: ClaimsModel) -> (i32, Seq<char>) {
    (c.user_id, c.user_name)
}

/// The role check: the claims must hold `required` itself; no role stands
/// in for another.
pub open spec fn authorized(c: ClaimsModel, required: UserRole) -> Result<(i32, Seq<char>), RoleError> {
    if c.roles.contains(required) {
        Ok(identity_of(c))
    } else {
        Err(RoleError::InsufficientRights)
    }
}

/// The view of a role check's outcome.
pub open spec fn role_outcome(r: Result<Identity, RoleError>) -> Result<(i32, Seq<char>), RoleError> {
    match r {
        Ok(id) => Ok(id@),
        Err(e) => Err(e),
    }
}

/// Lets the holder of `claims` through where they hold `required`, keeping only
/// who they are.
pub fn authorize(claims: &TokenClaims, required: UserRole) -> (r: Result<Identity, RoleError>)
    ensures
        role_outcome(r) == authorized(claims@, required),
{
    if claims.user_roles.contains(required) {
        Ok(Identity { user_id: claims.user_id, user_name: claims.user_name.clone() })
    } else {
        Err(RoleError::InsufficientRights)
    }
}

/// A user who holds the `Unprivileged` role.
#[derive(Debug)]
pub struct NormalUser {
    pub user_name: String,
    pub user_id: i32,
}

/// A user who holds the `Admin` role.
#[derive(Debug)]
pub struct AdminUser {
    pub user_name: String,
    pub user_id: i32,
}

/// A user who holds the `Moderator` role.
#[derive(Debug)]
pub struct ModeratorUser {
    pub user_name: String,
    pub user_id: i32,
}

impl View for NormalUser {
    type V = (i32, Seq<char>);

    open spec fn view(&self) -> (i32, Seq<char>) {
        (self.user_id, self.user_name@)
    }
}

impl View for AdminUser {
    type V = (i32, Seq<char>);

    open spec fn view(&self) -> (i32, Seq<char>) {
        (self.user_id, self.user_name@)
    }
}

impl View for ModeratorUser {
    type V = (i32, Seq<char>);

    open spec fn view(&self) -> (i32, Seq<char>) {
        (self.user_id, self.user_name@)
    }
}

impl NormalUser {
    /// The user `id` names, as a holder of `Unprivileged`.
    pub fn from_identity(id: Identity) -> (r: NormalUser)
        ensures
            r@ == id@,
    {
        NormalUser { user_name: id.user_name, user_id: id.user_id }
    }

    /// The user that `jwt` names, where it grants `Unprivileged`.
    pub fn from_jwt(jwt: &TokenClaims) -> (r: Result<NormalUser, RoleError>)
        ensures
            match authorized(jwt@, UserRole::Unprivileged) {
                Ok(id) => r is Ok && r->Ok_0@ == id,
                Err(e) => r == Err::<NormalUser, RoleError>(e),
            },
    {
        match authorize(jwt, UserRole::Unprivileged) {
            Ok(id) => Ok(NormalUser::from_identity(id)),
            Err(e) => Err(e),
        }
    }

    pub fn get_id(&self) -> (r: i32)
        ensures
            r == self.user_id,
    {
        self.user_id
    }
}

impl AdminUser {
    /// The user `id` names, as a holder of `Admin`.
    pub fn from_identity(id: Identity) -> (r: AdminUser)
        ensures
            r@ == id@,
    {
        AdminUser { user_name: id.user_name, user_id: id.user_id }
    }

    /// The user that `jwt` names, where it grants `Admin`.
    pub fn from_jwt(jwt: &TokenClaims) -> (r: Result<AdminUser, RoleError>)
        ensures
            match authorized(jwt@, UserRole::Admin) {
                Ok(id) => r is Ok && r->Ok_0@ == id,
                Err(e) => r == Err::<AdminUser, RoleError>(e),
            },
    {
        match authorize(jwt, UserRole::Admin) {
            Ok(id) => Ok(AdminUser::from_identity(id)),
            Err(e) => Err(e),
        }
    }

    pub fn get_id(&self) -> (r: i32)
        ensures
            r == self.user_id,
    {
        self.user_id
    }
}

impl ModeratorUser {
    /// The user `id` names, as a holder of `Moderator`.
    pub fn from_identity(id: Identity) -> (r: ModeratorUser)
        ensures
            r@ == id@,
    {
        ModeratorUser { user_name: id.user_name, user_id: id.user_id }
    }

    /// The user that `jwt` names, where it grants `Moderator`.
    pub fn from_jwt(jwt: &TokenClaims) -> (r: Result<ModeratorUser, RoleError>)
        ensures
            match authorized(jwt@, UserRole::Moderator) {
                Ok(id) => r is Ok && r->Ok_0@ == id,
                Err(e) => r == Err::<ModeratorUser, RoleError>(e),
            },
    {
        match authorize(jwt, UserRole::Moderator) {
            Ok(id) => Ok(ModeratorUser::from_identity(id)),
            Err(e) => Err(e),
        }
    }

    pub fn get_id(&self) -> (r: i32)
        ensures
            r == self.user_id,
    {
        self.user_id
    }
}

} // verus!
