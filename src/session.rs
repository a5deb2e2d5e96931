//! Issuing tokens: at login, and in exchange for a token that is still good.
//!
//! A login token is stamped with the time of the login and expires a fixed
//! lifetime later. A renewal first runs the request guard on the token it is
//! handed; the new token's stamp is the clock's, unless that would not be
//! later than both the last renewal and the token it replaces. So no renewal
//! gives back the token it was handed, and two renewals never coincide.
use crate::claims::{ClaimsModel, TokenClaims};
use crate::codec::{issue, token_text, wire, Secret};
use crate::middleware::{authenticate, authentication, header_values, AuthError};
use crate::primitives::{bcrypt_check, bcrypt_verdict, now_millis};
use crate::revocation::RevocationRegistry;
use crate::roles::{RoleError, RoleSet, UserRole};
use vstd::prelude::*;

verus! {

/// Two weeks, in milliseconds.
pub const DEFAULT_TOKEN_TTL_MS: i64 = 1209600000;

/// A user as the user store knows them.
pub struct UserRecord {
    pub user_id: i32,
    pub user_name: String,
    /// The bcrypt hash of the user's password.
    pub password_hash: String,
    pub roles: RoleSet,
}

/// Why no token was issued. The credential failures are told apart here for
/// the server's own use; callers see them through `outward` alone.
#[derive(Clone, Copy, Debug, PartialEq, Eq, Structural)]
pub enum SessionError {
    /// The user store has no such user.
    UnknownUser,
    /// The password does not match the stored hash.
    WrongPassword,
    /// The stored hash cannot be read.
    UnreadableHash,
    /// The user holds no role, and a token must grant one.
    NoRoles,
    /// The issue stamp or the expiry does not fit in an `i64`.
    ClockExhausted,
}

/// What a caller learns of a refused session: every credential failure is
/// the same `NotAuthorized`, so that the answer never tells an unknown user
/// from a wrong password.
pub open spec fn outward_error(e: SessionError) -> AuthError {
    match e {
        SessionError::ClockExhausted => AuthError::InternalServerError,
        _ => AuthError::NotAuthorized { reason: RoleError::InsufficientRights },
    }
}

impl SessionError {
    /// What a caller learns of this refusal.
    pub fn outward(&self) -> (r: AuthError)
        ensures
            r == outward_error(*self),
    {
        match self {
            SessionError::ClockExhausted => AuthError::InternalServerError,
            _ => AuthError::NotAuthorized { reason: RoleError::InsufficientRights },
        }
    }
}

/// The wire bytes of an issued token, or why none was issued.
pub open spec fn token_outcome<E>(r: Result<String, E>) -> Result<Seq<u8>, E> {
    match r {
        Ok(t) => Ok(wire(t@)),
        Err(e) => Err(e),
    }
}

/// A session outcome as a caller sees it.
pub open spec fn outward_outcome(r: Result<Seq<u8>, SessionError>) -> Result<Seq<u8>, AuthError> {
    match r {
        Ok(t) => Ok(t),
        Err(e) => Err(outward_error(e)),
    }
}

/// Claims for a token stamped `stamp` that lives `ttl` milliseconds.
pub open spec fn fresh_claims(
    user_id: i32,
    user_name: Seq<char>,
    roles: Set<UserRole>,
    stamp: int,
    ttl: i64,
) -> ClaimsModel {
    ClaimsModel {
        user_id,
        user_name,
        roles,
        issued_at: stamp as i64,
        expires_at: (stamp + ttl) as i64,
    }
}

/// The token signed with `key` for a user, stamped `stamp` and living `ttl`
/// milliseconds: refused where the user holds no role or the expiry
/// overflows.
pub open spec fn signed_session(
    key: Seq<u8>,
    ttl: i64,
    user_id: i32,
    user_name: Seq<char>,
    roles: Set<UserRole>,
    stamp: int,
) -> Result<Seq<u8>, SessionError> {
    if roles == Set::<UserRole>::empty() {
        Err(SessionError::NoRoles)
    } else if stamp + ttl > i64::MAX {
        Err(SessionError::ClockExhausted)
    } else {
        Ok(token_text(key, fresh_claims(user_id, user_name, roles, stamp, ttl)))
    }
}

/// What logging in at `now` with `password` gives, for the user the store
/// found (`None` where it found none).
pub open spec fn login_result(
    key: Seq<u8>,
    ttl: i64,
    user: Option<&UserRecord>,
    password: Seq<char>,
    now: i64,
) -> Result<Seq<u8>, SessionError> {
    match user {
        None => Err(SessionError::UnknownUser),
        Some(u) => match bcrypt_verdict(password, u.password_hash@) {
            None => Err(SessionError::UnreadableHash),
            Some(false) => Err(SessionError::WrongPassword),
            Some(true) => signed_session(key, ttl, u.user_id, u.user_name@, u.roles@, now as int),
        },
    }
}

/// The issue stamp of a renewal at `now` by an issuer whose last renewal was
/// stamped `last`, of a token stamped `floor`: the clock, unless that would
/// not be later than both.
pub open spec fn stamp_after(now: i64, last: i64, floor: i64) -> int {
    let a = if now > last + 1 {
        now as int
    } else {
        last + 1
    };
    if a > floor + 1 {
        a
    } else {
        floor + 1
    }
}

/// The claims of `c` renewed with stamp `stamp`.
pub open spec fn renewed(c: ClaimsModel, stamp: int, ttl: i64) -> ClaimsModel {
    fresh_claims(c.user_id, c.user_name, c.roles, stamp, ttl)
}

/// What renewing at `now` the token that `headers` carry gives, with the
/// issuer's last renewal stamp after it: the guard's refusal, or the claims
/// signed again with a later stamp.
pub open spec fn reauth_outcome(
    key: Seq<u8>,
    ttl: i64,
    last: i64,
    headers: Seq<Seq<char>>,
    banned: Set<i32>,
    now: i64,
) -> (Result<Seq<u8>, AuthError>, i64) {
    match authentication(headers, key, banned, now) {
        Err(e) => (Err(e), last),
        Ok(c) => {
            let s = stamp_after(now, last, c.issued_at);
            let r = signed_session(key, ttl, c.user_id, c.user_name, c.roles, s);
            if r is Ok {
                (outward_outcome(r), s as i64)
            } else {
                (outward_outcome(r), last)
            }
        },
    }
}

/// Signs session tokens with one key and one lifetime, and remembers the
/// stamp of its last renewal.
pub struct SessionIssuer {
    secret: Secret,
    ttl: i64,
    last_issued_at: i64,
}

impl SessionIssuer {
    #[verifier::type_invariant]
    spec fn well_formed(self) -> bool {
        self.ttl >= 0
    }

    /// The signing key.
    pub closed spec fn key(&self) -> Seq<u8> {
        self.secret@
    }

    /// How long a token lives, in milliseconds.
    pub closed spec fn lifetime(&self) -> i64 {
        self.ttl
    }

    /// The issue stamp of the last renewal.
    pub closed spec fn last_stamp(&self) -> i64 {
        self.last_issued_at
    }

    /// An issuer that signs with `secret` tokens that live `ttl`
    /// milliseconds.
    pub fn new(secret: Secret, ttl: i64) -> (r: SessionIssuer)
        requires
            ttl >= 0,
        ensures
            r.key() == secret@,
            r.lifetime() == ttl,
            r.last_stamp() == i64::MIN,
    {
        SessionIssuer { secret, ttl, last_issued_at: i64::MIN }
    }

    /// The signing key.
    pub fn secret(&self) -> (r: &Secret)
        ensures
            r@ == self.key(),
    {
        &self.secret
    }

    /// How long a token lives, in milliseconds.
    pub fn lifetime_ms(&self) -> (r: i64)
        ensures
            r == self.lifetime(),
            r >= 0,
    {
        proof {
            use_type_invariant(self);
        }
        self.ttl
    }

    /// Signs a token for a user, stamped `stamp`.
    fn sign(&self, user_id: i32, user_name: &String, roles: RoleSet, stamp: i64) -> (r: Result<
        String,
        SessionError,
    >)
        ensures
            token_outcome(r) == signed_session(
                self.key(),
                self.lifetime(),
                user_id,
                user_name@,
                roles@,
                stamp as int,
            ),
    {
        proof {
            use_type_invariant(self);
        }
        if roles.is_empty() {
            return Err(SessionError::NoRoles);
        }
        if stamp > i64::MAX - self.ttl {
            return Err(SessionError::ClockExhausted);
        }
        let claims = TokenClaims {
            user_id,
            user_name: user_name.clone(),
            user_roles: roles,
            issued_at: stamp,
            expires_at: stamp + self.ttl,
        };
        Ok(issue(&claims, &self.secret))
    }

    /// Opens a session for `user`, whose credentials have been checked, at
    /// time `now`: the token is stamped `now` and expires a lifetime later.
    pub fn open_session(&self, user: &UserRecord, now: i64) -> (r: Result<String, SessionError>)
        ensures
            token_outcome(r) == signed_session(
                self.key(),
                self.lifetime(),
                user.user_id,
                user.user_name@,
                user.roles@,
                now as int,
            ),
    {
        self.sign(user.user_id, &user.user_name, user.roles, now)
    }

    /// Logs in with `password` the user that the store found (`None` where it
    /// found none), at time `now`.
    pub fn login_at(&self, user: Option<&UserRecord>, password: &str, now: i64) -> (r: Result<
        String,
        SessionError,
    >)
        ensures
            token_outcome(r) == login_result(self.key(), self.lifetime(), user, password@, now),
    {
        let user = match user {
            Some(u) => u,
            None => {
                return Err(SessionError::UnknownUser);
            },
        };
        match bcrypt_check(password, user.password_hash.as_str()) {
            Ok(true) => self.open_session(user, now),
            Ok(false) => Err(SessionError::WrongPassword),
            Err(_) => Err(SessionError::UnreadableHash),
        }
    }

    /// Logs in at the current time, answering as a caller may see it;
    /// `InternalServerError` where the clock cannot be read.
    pub fn login(&self, user: Option<&UserRecord>, password: &str) -> (r: Result<String, AuthError>)
        ensures
            r == Err::<String, AuthError>(AuthError::InternalServerError) || exists|now: i64|
                token_outcome(r) == outward_outcome(
                    #[trigger] login_result(self.key(), self.lifetime(), user, password@, now),
                ),
    {
        let now = match now_millis() {
            Some(t) => t,
            None => {
                return Err(AuthError::InternalServerError);
            },
        };
        match self.login_at(user, password, now) {
            Ok(t) => Ok(t),
            Err(e) => Err(e.outward()),
        }
    }

    /// Renews at time `now` the session of the token that the
    /// `Authorization` header values `headers` carry. The request guard runs
    /// first, against `registry`; a token it lets through is signed again
    /// with a later stamp and a new expiry.
    pub fn reauth_at(&mut self, headers: &Vec<String>, registry: &RevocationRegistry, now: i64) -> (r:
        Result<String, AuthError>)
        ensures
            final(self).key() == old(self).key(),
            final(self).lifetime() == old(self).lifetime(),
            (token_outcome(r), final(self).last_stamp()) == reauth_outcome(
                old(self).key(),
                old(self).lifetime(),
                old(self).last_stamp(),
                header_values(headers@),
                registry@,
                now,
            ),
    {
        proof {
            use_type_invariant(&*self);
        }
        let claims = match authenticate(headers, &self.secret, registry, now) {
            Ok(c) => c,
            Err(e) => {
                return Err(e);
            },
        };
        if claims.user_roles.is_empty() {
            return Err(SessionError::NoRoles.outward());
        }
        let mut stamp = now;
        if self.last_issued_at >= stamp {
            if self.last_issued_at == i64::MAX {
                return Err(SessionError::ClockExhausted.outward());
            }
            stamp = self.last_issued_at + 1;
        }
        if claims.issued_at >= stamp {
            if claims.issued_at == i64::MAX {
                return Err(SessionError::ClockExhausted.outward());
            }
            stamp = claims.issued_at + 1;
        }
        match self.sign(claims.user_id, &claims.user_name, claims.user_roles, stamp) {
            Ok(t) => {
                self.last_issued_at = stamp;
                Ok(t)
            },
            Err(e) => Err(e.outward()),
        }
    }

    /// Renews a session at the current time; `InternalServerError` where the
    /// clock cannot be read.
    pub fn reauth(&mut self, headers: &Vec<String>, registry: &RevocationRegistry) -> (r: Result<
        String,
        AuthError,
    >)
        ensures
            final(self).key() == old(self).key(),
            final(self).lifetime() == old(self).lifetime(),
            (r == Err::<String, AuthError>(AuthError::InternalServerError) && final(self).last_stamp()
                == old(self).last_stamp()) || exists|now: i64|
                (token_outcome(r), final(self).last_stamp()) == #[trigger] reauth_outcome(
                    old(self).key(),
                    old(self).lifetime(),
                    old(self).last_stamp(),
                    header_values(headers@),
                    registry@,
                    now,
                ),
    {
        match now_millis() {
            Some(now) => self.reauth_at(headers, registry, now),
            None => Err(AuthError::InternalServerError),
        }
    }
}

} // verus!
