//! The request guard: from the `Authorization` headers of a request to the
//! identity behind it, or the reason it is refused.
//!
//! The checks run in a fixed order: a usable bearer token, its signature,
//! its expiry, its subject's ban, and last the route's required role.
use crate::claims::{ClaimsModel, TokenClaims};
use crate::codec::{verify_bytes, verify_token, wire, Secret};
use crate::guards::{authorize, authorized, AdminUser, Identity, ModeratorUser, NormalUser};
use crate::primitives::now_millis;
use crate::revocation::RevocationRegistry;
use crate::roles::{RoleError, UserRole};
use vstd::prelude::*;
use vstd::slice::{slice_subrange, slice_to_vec};

verus! {

/// The scheme word that precedes a token in an `Authorization` header.
pub const BEARER: &'static str = "Bearer";

/// Why a request was refused.
#[derive(Clone, Copy, Debug, PartialEq, Eq, Structural)]
pub enum AuthError {
    /// No single `Authorization` header with a bearer token.
    MissingToken,
    /// The token is malformed or not signed with the server's key.
    IllegalToken,
    /// The token's expiry has passed.
    ExpiredToken,
    /// The request cannot be served; this also answers for a banned user, so
    /// that a ban is never confirmed to the caller.
    BadRequest,
    /// The token is good but lacks the role the route requires.
    NotAuthorized { reason: RoleError },
    /// A dependency of the guard was unavailable.
    InternalServerError,
}

/// The HTTP status that answers each refusal.
pub open spec fn status_of(e: AuthError) -> u16 {
    match e {
        AuthError::NotAuthorized { .. } => 403,
        AuthError::InternalServerError => 500,
        _ => 401,
    }
}

impl AuthError {
    /// The HTTP status that answers this refusal.
    pub fn status(&self) -> (r: u16)
        ensures
            r == status_of(*self),
    {
        match self {
            AuthError::NotAuthorized { .. } => 403,
            AuthError::InternalServerError => 500,
            _ => 401,
        }
    }
}

/// `"Bearer "` in ASCII.
pub open spec fn bearer_prefix() -> Seq<u8> {
    seq![66u8, 101u8, 97u8, 114u8, 101u8, 114u8, 32u8]
}

/// The characters of each header value.
pub open spec fn header_values(headers: Seq<String>) -> Seq<Seq<char>> {
    headers.map_values(|h: String| h@)
}

/// The token a request carries: there must be exactly one `Authorization`
/// header, and it must read `Bearer <token>`.
pub open spec fn bearer_token_of(headers: Seq<Seq<char>>) -> Option<Seq<u8>> {
    if headers.len() != 1 {
        None
    } else {
        let h = wire(headers[0]);
        if h.len() >= 7 && h.subrange(0, 7) == bearer_prefix() {
            Some(h.subrange(7, h.len() as int))
        } else {
            None
        }
    }
}

/// The checks on verified claims: expiry first, then the ban.
pub open spec fn checked_claims(c: ClaimsModel, banned: Set<i32>, now: i64) -> Result<
    ClaimsModel,
    AuthError,
> {
    if c.expires_at < now {
        Err(AuthError::ExpiredToken)
    } else if banned.contains(c.user_id) {
        Err(AuthError::BadRequest)
    } else {
        Ok(c)
    }
}

/// Authentication of a request at time `now`: a usable token, a good
/// signature, then the checks on its claims.
pub open spec fn authentication(headers: Seq<Seq<char>>, key: Seq<u8>, banned: Set<i32>, now: i64) -> Result<
    ClaimsModel,
    AuthError,
> {
    match bearer_token_of(headers) {
        None => Err(AuthError::MissingToken),
        Some(t) => match verify_token(key, t) {
            Err(_) => Err(AuthError::IllegalToken),
            Ok(c) => checked_claims(c, banned, now),
        },
    }
}

/// The whole guard for a route that requires `role`: authentication, then the
/// role check.
pub open spec fn guarded(
    headers: Seq<Seq<char>>,
    key: Seq<u8>,
    banned: Set<i32>,
    now: i64,
    role: UserRole,
) -> Result<(i32, Seq<char>), AuthError> {
    match authentication(headers, key, banned, now) {
        Err(e) => Err(e),
        Ok(c) => match authorized(c, role) {
            Ok(id) => Ok(id),
            Err(reason) => Err(AuthError::NotAuthorized { reason }),
        },
    }
}

/// The guard for a route that may or may not require a role; without one,
/// every request passes anonymously.
pub open spec fn admission(
    headers: Seq<Seq<char>>,
    key: Seq<u8>,
    banned: Set<i32>,
    now: i64,
    required: Option<UserRole>,
) -> Result<Option<(i32, Seq<char>)>, AuthError> {
    match required {
        None => Ok(None),
        Some(role) => match guarded(headers, key, banned, now, role) {
            Ok(id) => Ok(Some(id)),
            Err(e) => Err(e),
        },
    }
}

pub open spec fn claims_outcome(r: Result<TokenClaims, AuthError>) -> Result<ClaimsModel, AuthError> {
    match r {
        Ok(c) => Ok(c@),
        Err(e) => Err(e),
    }
}

pub open spec fn identity_outcome(r: Result<Identity, AuthError>) -> Result<(i32, Seq<char>), AuthError> {
    match r {
        Ok(id) => Ok(id@),
        Err(e) => Err(e),
    }
}

pub open spec fn admission_outcome(r: Result<Option<Identity>, AuthError>) -> Result<
    Option<(i32, Seq<char>)>,
    AuthError,
> {
    match r {
        Ok(Some(id)) => Ok(Some(id@)),
        Ok(None) => Ok(None),
        Err(e) => Err(e),
    }
}

fn has_bearer_prefix(h: &[u8]) -> (r: bool)
    ensures
        r == (h@.len() >= 7 && h@.subrange(0, 7) == bearer_prefix()),
{
    if h.len() < 7 {
        return false;
    }
    let r = h[0] == 66 && h[1] == 101 && h[2] == 97 && h[3] == 114 && h[4] == 101 && h[5] == 114
        && h[6] == 32;
    proof {
        if r {
            assert(h@.subrange(0, 7) =~= bearer_prefix());
        } else {
            if h@.subrange(0, 7) == bearer_prefix() {
                assert(h@.subrange(0, 7)[0] == 66);
                assert(h@.subrange(0, 7)[1] == 101);
                assert(h@.subrange(0, 7)[2] == 97);
                assert(h@.subrange(0, 7)[3] == 114);
                assert(h@.subrange(0, 7)[4] == 101);
                assert(h@.subrange(0, 7)[5] == 114);
                assert(h@.subrange(0, 7)[6] == 32);
            }
        }
    }
    r
}

/// The bytes of the bearer token that the `Authorization` header values
/// `headers` carry, if they carry a usable one.
pub fn bearer_token(headers: &Vec<String>) -> (r: Option<Vec<u8>>)
    ensures
        match bearer_token_of(header_values(headers@)) {
            Some(t) => r is Some && r->0@ == t,
            None => r is None,
        },
{
    if headers.len() != 1 {
        return None;
    }
    let h = headers[0].as_str().as_bytes();
    assert(header_values(headers@)[0] == headers@[0]@);
    if has_bearer_prefix(h) {
        Some(slice_to_vec(slice_subrange(h, 7, h.len())))
    } else {
        None
    }
}

/// The checks on verified claims at time `now`: the token must not have
/// expired, and its subject must not be banned.
pub fn check_claims(claims: TokenClaims, registry: &RevocationRegistry, now: i64) -> (r: Result<
    TokenClaims,
    AuthError,
>)
    ensures
        claims_outcome(r) == checked_claims(claims@, registry@, now),
{
    if claims.expires_at < now {
        Err(AuthError::ExpiredToken)
    } else if registry.is_banned(claims.user_id) {
        Err(AuthError::BadRequest)
    } else {
        Ok(claims)
    }
}

/// Authenticates a request with `Authorization` header values `headers` at
/// time `now`, giving the claims of its token.
pub fn authenticate(
    headers: &Vec<String>,
    secret: &Secret,
    registry: &RevocationRegistry,
    now: i64,
) -> (r: Result<TokenClaims, AuthError>)
    ensures
        claims_outcome(r) == authentication(header_values(headers@), secret@, registry@, now),
{
    let token = match bearer_token(headers) {
        Some(t) => t,
        None => {
            return Err(AuthError::MissingToken);
        },
    };
    match verify_bytes(token.as_slice(), secret) {
        Ok(claims) => check_claims(claims, registry, now),
        Err(_) => Err(AuthError::IllegalToken),
    }
}

/// Authenticates a request at the current time, giving the claims of its
/// token; `InternalServerError` where the clock cannot be read.
pub fn authenticate_request(headers: &Vec<String>, secret: &Secret, registry: &RevocationRegistry) -> (r:
    Result<TokenClaims, AuthError>)
    ensures
        r == Err::<TokenClaims, AuthError>(AuthError::InternalServerError) || exists|now: i64|
            claims_outcome(r) == #[trigger] authentication(
                header_values(headers@),
                secret@,
                registry@,
                now,
            ),
{
    match now_millis() {
        Some(now) => authenticate(headers, secret, registry, now),
        None => Err(AuthError::InternalServerError),
    }
}

/// Runs the whole guard for a route that requires `role`, at time `now`.
pub fn extract_identity(
    headers: &Vec<String>,
    secret: &Secret,
    registry: &RevocationRegistry,
    now: i64,
    role: UserRole,
) -> (r: Result<Identity, AuthError>)
    ensures
        identity_outcome(r) == guarded(header_values(headers@), secret@, registry@, now, role),
{
    let claims = match authenticate(headers, secret, registry, now) {
        Ok(c) => c,
        Err(e) => {
            return Err(e);
        },
    };
    match authorize(&claims, role) {
        Ok(id) => Ok(id),
        Err(reason) => Err(AuthError::NotAuthorized { reason }),
    }
}

/// Runs the whole guard for a route that requires `role`, at the current
/// time; `InternalServerError` where the clock cannot be read.
fn extract_identity_now(
    headers: &Vec<String>,
    secret: &Secret,
    registry: &RevocationRegistry,
    role: UserRole,
) -> (r: Result<Identity, AuthError>)
    ensures
        identity_outcome(r) == Err::<(i32, Seq<char>), AuthError>(AuthError::InternalServerError)
            || exists|now: i64|
            identity_outcome(r) == #[trigger] guarded(
                header_values(headers@),
                secret@,
                registry@,
                now,
                role,
            ),
{
    match now_millis() {
        Some(now) => extract_identity(headers, secret, registry, now, role),
        None => Err(AuthError::InternalServerError),
    }
}

/// The guard of one route: the signing key, the ban registry, and the role
/// the route requires, if any.
pub struct Middleware<'a> {
    pub secret: &'a Secret,
    pub registry: &'a RevocationRegistry,
    pub required: Option<UserRole>,
}

impl<'a> Middleware<'a> {
    pub fn new(secret: &'a Secret, registry: &'a RevocationRegistry, required: Option<UserRole>) -> (r: Middleware<'a>)
        ensures
            r.secret == secret,
            r.registry == registry,
            r.required == required,
    {
        Middleware { secret, registry, required }
    }

    /// Lets through or refuses a request with `Authorization` header values
    /// `headers` at time `now`; `Ok(None)` lets it through anonymously.
    pub fn check_at(&self, headers: &Vec<String>, now: i64) -> (r: Result<Option<Identity>, AuthError>)
        ensures
            admission_outcome(r) == admission(
                header_values(headers@),
                self.secret@,
                self.registry@,
                now,
                self.required,
            ),
    {
        match self.required {
            None => Ok(None),
            Some(role) => match extract_identity(headers, self.secret, self.registry, now, role) {
                Ok(id) => Ok(Some(id)),
                Err(e) => Err(e),
            },
        }
    }

    /// Lets through or refuses a request at the current time;
    /// `InternalServerError` where the clock cannot be read.
    pub fn check(&self, headers: &Vec<String>) -> (r: Result<Option<Identity>, AuthError>)
        ensures
            r matches Err(AuthError::InternalServerError) || exists|now: i64|
                admission_outcome(r) == #[trigger] admission(
                    header_values(headers@),
                    self.secret@,
                    self.registry@,
                    now,
                    self.required,
                ),
    {
        match now_millis() {
            Some(now) => self.check_at(headers, now),
            None => Err(AuthError::InternalServerError),
        }
    }
}

impl NormalUser {
    /// The request guard for routes open to every user.
    pub fn from_request(headers: &Vec<String>, secret: &Secret, registry: &RevocationRegistry) -> (r: Result<
        NormalUser,
        AuthError,
    >)
        ensures
            r matches Err(AuthError::InternalServerError) || exists|now: i64|
                #[trigger] guarded(
                    header_values(headers@),
                    secret@,
                    registry@,
                    now,
                    UserRole::Unprivileged,
                ) == match r {
                    Ok(u) => Ok(u@),
                    Err(e) => Err(e),
                },
    {
        match extract_identity_now(headers, secret, registry, UserRole::Unprivileged) {
            Ok(id) => Ok(NormalUser::from_identity(id)),
            Err(e) => Err(e),
        }
    }
}

impl AdminUser {
    /// The request guard for administrators' routes.
    pub fn from_request(headers: &Vec<String>, secret: &Secret, registry: &RevocationRegistry) -> (r: Result<
        AdminUser,
        AuthError,
    >)
        ensures
            r matches Err(AuthError::InternalServerError) || exists|now: i64|
                #[trigger] guarded(header_values(headers@), secret@, registry@, now, UserRole::Admin)
                    == match r {
                    Ok(u) => Ok(u@),
                    Err(e) => Err(e),
                },
    {
        match extract_identity_now(headers, secret, registry, UserRole::Admin) {
            Ok(id) => Ok(AdminUser::from_identity(id)),
            Err(e) => Err(e),
        }
    }
}

impl ModeratorUser {
    /// The request guard for moderators' routes.
    pub fn from_request(headers: &Vec<String>, secret: &Secret, registry: &RevocationRegistry) -> (r: Result<
        ModeratorUser,
        AuthError,
    >)
        ensures
            r matches Err(AuthError::InternalServerError) || exists|now: i64|
                #[trigger] guarded(
                    header_values(headers@),
                    secret@,
                    registry@,
                    now,
                    UserRole::Moderator,
                ) == match r {
                    Ok(u) => Ok(u@),
                    Err(e) => Err(e),
                },
    {
        match extract_identity_now(headers, secret, registry, UserRole::Moderator) {
            Ok(id) => Ok(ModeratorUser::from_identity(id)),
            Err(e) => Err(e),
        }
    }
}

} // verus!
