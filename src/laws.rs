//! What holds across the operations of the library.
use crate::claims::{
    claims_valid, decode_claims, encode_claims, lemma_claims_round_trip, roles_of_bits, ClaimsModel,
};
use crate::codec::{
    payload_text, sealed, token_claims, token_parts, token_text, verify_token, wire,
    VerificationError, SEPARATOR,
};
use crate::hex::{hex_decode, hex_encode, lemma_hex_decode_update, lemma_hex_round_trip};
use crate::guards::identity_of;
use crate::middleware::{
    admission, authentication, bearer_prefix, bearer_token_of, guarded, AuthError,
};
use crate::primitives::hmac_sha256;
use crate::roles::UserRole;
use crate::primitives::bcrypt_verdict;
use crate::roles::RoleError;
use crate::session::{fresh_claims, login_result, reauth_outcome, renewed, stamp_after, UserRecord};
use vstd::prelude::*;

verus! {

proof fn lemma_hex_has_no_separator(b: Seq<u8>)
    ensures
        forall|i: int| 0 <= i < hex_encode(b).len() ==> #[trigger] hex_encode(b)[i] != SEPARATOR,
{
}

/// The first separator of a sealed token is the one after its payload text.
proof fn lemma_sealed_split(text: Seq<u8>, tag: Seq<u8>)
    requires
        forall|i: int| 0 <= i < text.len() ==> #[trigger] text[i] != SEPARATOR,
    ensures
        sealed(text, tag).index_of_first(SEPARATOR) == Some(text.len() as int),
        sealed(text, tag).subrange(0, text.len() as int) == text,
        sealed(text, tag).subrange(text.len() as int + 1, sealed(text, tag).len() as int) == hex_encode(
            tag,
        ),
{
    let t = sealed(text, tag);
    t.index_of_first_ensures(SEPARATOR);
    assert(t[text.len() as int] == SEPARATOR);
    assert(t.contains(SEPARATOR));
    assert(t.subrange(0, text.len() as int) =~= text);
    assert(t.subrange(text.len() as int + 1, t.len() as int) =~= hex_encode(tag));
}

/// A token issued for valid claims verifies, under the same key, to exactly
/// those claims.
pub proof fn verify_inverts_issue(key: Seq<u8>, c: ClaimsModel)
    requires
        claims_valid(c),
    ensures
        verify_token(key, token_text(key, c)) == Ok::<ClaimsModel, VerificationError>(c),
{
    let text = payload_text(c);
    let tag = hmac_sha256(key, text);
    lemma_hex_has_no_separator(encode_claims(c));
    lemma_sealed_split(text, tag);
    lemma_hex_round_trip(tag);
    lemma_hex_round_trip(encode_claims(c));
    lemma_claims_round_trip(c);
    assert(token_parts(token_text(key, c)) == Some((text, tag)));
    assert(token_claims(token_text(key, c)) == Some(c));
}

/// Changing any single byte of the signature segment of a token that
/// verifies (the bytes after its first separator) makes it fail verification.
pub proof fn tampered_signature_rejected(key: Seq<u8>, t: Seq<u8>, k: int, i: int, b: u8)
    requires
        verify_token(key, t) is Ok,
        t.index_of_first(SEPARATOR) == Some(k),
        k < i < t.len(),
        b != t[i],
    ensures
        verify_token(key, t.update(i, b)) is Err,
{
    let u = t.update(i, b);
    t.index_of_first_ensures(SEPARATOR);
    u.index_of_first_ensures(SEPARATOR);
    assert(u[k] == SEPARATOR);
    assert(u.contains(SEPARATOR));
    assert(u.index_of_first(SEPARATOR) == Some(k)) by {
        let j = u.index_of_first(SEPARATOR)->0;
        if j < k {
            assert(t[j] == u[j]);
        }
    }
    let sig = t.subrange(k + 1, t.len() as int);
    let sig2 = u.subrange(k + 1, u.len() as int);
    assert(sig2 =~= sig.update(i - k - 1, b));
    assert(u.subrange(0, k) =~= t.subrange(0, k));
    if hex_decode(sig2) is Some {
        lemma_hex_decode_update(sig, i - k - 1, b);
    }
}

/// A request bearing a verifying token with one byte of its signature
/// segment changed is refused as an illegal token, whatever the route
/// requires, the bans and the time.
pub proof fn tampered_token_illegal(
    key: Seq<u8>,
    t: Seq<u8>,
    k: int,
    i: int,
    b: u8,
    headers: Seq<Seq<char>>,
    banned: Set<i32>,
    now: i64,
    role: UserRole,
)
    requires
        verify_token(key, t) is Ok,
        t.index_of_first(SEPARATOR) == Some(k),
        k < i < t.len(),
        b != t[i],
        headers.len() == 1,
        wire(headers[0]) == bearer_prefix() + t.update(i, b),
    ensures
        authentication(headers, key, banned, now) == Err::<ClaimsModel, AuthError>(
            AuthError::IllegalToken,
        ),
        guarded(headers, key, banned, now, role) == Err::<(i32, Seq<char>), AuthError>(
            AuthError::IllegalToken,
        ),
{
    tampered_signature_rejected(key, t, k, i, b);
    lemma_bearer_header(headers, t.update(i, b));
}

/// Whatever verifies carries valid claims.
proof fn lemma_verified_claims_valid(key: Seq<u8>, t: Seq<u8>)
    requires
        verify_token(key, t) is Ok,
    ensures
        claims_valid(verify_token(key, t)->Ok_0),
{
    let c = verify_token(key, t)->Ok_0;
    let payload = hex_decode(token_parts(t)->Some_0.0)->Some_0;
    assert(decode_claims(payload) == Some(c));
    let bits = payload[20];
    assert(1 <= bits < 8);
    if bits % 2 == 1 {
        assert(roles_of_bits(bits).contains(UserRole::Unprivileged));
    } else if (bits / 2) % 2 == 1 {
        assert(roles_of_bits(bits).contains(UserRole::Moderator));
    } else {
        assert(roles_of_bits(bits).contains(UserRole::Admin));
    }
}

/// The single header `Bearer <t>` carries the token `t`.
proof fn lemma_bearer_header(headers: Seq<Seq<char>>, t: Seq<u8>)
    requires
        headers.len() == 1,
        wire(headers[0]) == bearer_prefix() + t,
    ensures
        bearer_token_of(headers) == Some(t),
{
    let h = wire(headers[0]);
    assert(h.subrange(0, 7) =~= bearer_prefix());
    assert(h.subrange(7, h.len() as int) =~= t);
}

/// A request bearing a correctly signed token whose expiry has passed is
/// refused as expired, on every route that requires a role.
pub proof fn expired_token_refused(
    key: Seq<u8>,
    c: ClaimsModel,
    headers: Seq<Seq<char>>,
    banned: Set<i32>,
    now: i64,
    role: UserRole,
)
    requires
        claims_valid(c),
        c.expires_at < now,
        headers.len() == 1,
        wire(headers[0]) == bearer_prefix() + token_text(key, c),
    ensures
        guarded(headers, key, banned, now, role) == Err::<(i32, Seq<char>), AuthError>(
            AuthError::ExpiredToken,
        ),
        admission(headers, key, banned, now, Some(role)) == Err::<
            Option<(i32, Seq<char>)>,
            AuthError,
        >(AuthError::ExpiredToken),
{
    verify_inverts_issue(key, c);
    lemma_bearer_header(headers, token_text(key, c));
}

/// A request bearing a token issued for valid claims that have not expired,
/// name a user who is not banned, and hold the route's role, passes the guard
/// as exactly the user the claims name.
pub proof fn issued_token_accepted(
    key: Seq<u8>,
    c: ClaimsModel,
    headers: Seq<Seq<char>>,
    banned: Set<i32>,
    now: i64,
    role: UserRole,
)
    requires
        claims_valid(c),
        c.expires_at >= now,
        !banned.contains(c.user_id),
        c.roles.contains(role),
        headers.len() == 1,
        wire(headers[0]) == bearer_prefix() + token_text(key, c),
    ensures
        guarded(headers, key, banned, now, role) == Ok::<(i32, Seq<char>), AuthError>(
            identity_of(c),
        ),
{
    verify_inverts_issue(key, c);
    lemma_bearer_header(headers, token_text(key, c));
}

/// Once `user_id` is banned, a request bearing a correctly signed, unexpired
/// token for that user is answered `BadRequest`, whatever role the route
/// requires.
pub proof fn ban_refuses_subject(
    headers: Seq<Seq<char>>,
    key: Seq<u8>,
    banned: Set<i32>,
    now: i64,
    role: UserRole,
    user_id: i32,
)
    requires
        bearer_token_of(headers) is Some,
        verify_token(key, bearer_token_of(headers)->0) is Ok,
        verify_token(key, bearer_token_of(headers)->0)->Ok_0.user_id == user_id,
        verify_token(key, bearer_token_of(headers)->0)->Ok_0.expires_at >= now,
    ensures
        authentication(headers, key, banned.insert(user_id), now) == Err::<ClaimsModel, AuthError>(
            AuthError::BadRequest,
        ),
        guarded(headers, key, banned.insert(user_id), now, role) == Err::<
            (i32, Seq<char>),
            AuthError,
        >(AuthError::BadRequest),
{
}

/// Banning `user_id` changes nothing for a request whose token names
/// another user, or that no token of any user backs.
pub proof fn ban_spares_others(
    headers: Seq<Seq<char>>,
    key: Seq<u8>,
    banned: Set<i32>,
    now: i64,
    role: UserRole,
    user_id: i32,
)
    requires
        bearer_token_of(headers) is Some && verify_token(key, bearer_token_of(headers)->0) is Ok
            ==> verify_token(key, bearer_token_of(headers)->0)->Ok_0.user_id != user_id,
    ensures
        authentication(headers, key, banned.insert(user_id), now) == authentication(
            headers,
            key,
            banned,
            now,
        ),
        guarded(headers, key, banned.insert(user_id), now, role) == guarded(
            headers,
            key,
            banned,
            now,
            role,
        ),
{
}

/// Renewing twice in a row, with one issuer (whose last renewal was stamped
/// `last`), the token that `headers` carry gives two different tokens,
/// whenever both renewals succeed. Each verifies to claims that name the same
/// user with the same roles as the token handed in, and neither is that
/// token.
pub proof fn renewals_are_distinct(
    key: Seq<u8>,
    ttl: i64,
    last: i64,
    headers: Seq<Seq<char>>,
    banned: Set<i32>,
    now1: i64,
    now2: i64,
)
    requires
        ttl >= 0,
        reauth_outcome(key, ttl, last, headers, banned, now1).0 is Ok,
        reauth_outcome(
            key,
            ttl,
            reauth_outcome(key, ttl, last, headers, banned, now1).1,
            headers,
            banned,
            now2,
        ).0 is Ok,
    ensures
        ({
            let first = reauth_outcome(key, ttl, last, headers, banned, now1);
            let second = reauth_outcome(key, ttl, first.1, headers, banned, now2);
            let t1 = first.0->Ok_0;
            let t2 = second.0->Ok_0;
            let t = bearer_token_of(headers)->0;
            let c = verify_token(key, t)->Ok_0;
            &&& t1 != t2
            &&& t1 != t && t2 != t
            &&& verify_token(key, t1) is Ok && verify_token(key, t2) is Ok
            &&& verify_token(key, t1)->Ok_0.user_id == c.user_id
            &&& verify_token(key, t1)->Ok_0.user_name == c.user_name
            &&& verify_token(key, t1)->Ok_0.roles == c.roles
            &&& verify_token(key, t2)->Ok_0.user_id == c.user_id
            &&& verify_token(key, t2)->Ok_0.user_name == c.user_name
            &&& verify_token(key, t2)->Ok_0.roles == c.roles
        }),
{
    let t = bearer_token_of(headers)->0;
    let c = verify_token(key, t)->Ok_0;
    let s1 = stamp_after(now1, last, c.issued_at);
    let s2 = stamp_after(now2, s1 as i64, c.issued_at);
    lemma_verified_claims_valid(key, t);
    let c1 = renewed(c, s1, ttl);
    let c2 = renewed(c, s2, ttl);
    verify_inverts_issue(key, c1);
    verify_inverts_issue(key, c2);
    assert(c1.issued_at == s1 && c2.issued_at == s2);
    assert(c1 != c2);
    assert(c1 != c && c2 != c);
}

/// A user who holds `Unprivileged` alone and logs in with the right password
/// gets a token that, until it expires and while the user is not banned, is
/// refused on a route that requires `Moderator` for want of that role, and
/// passes a route that requires `Unprivileged` as exactly that user.
pub proof fn login_grants_only_held_roles(
    key: Seq<u8>,
    ttl: i64,
    user: UserRecord,
    password: Seq<char>,
    now: i64,
    later: i64,
    banned: Set<i32>,
    headers: Seq<Seq<char>>,
)
    requires
        ttl >= 0,
        bcrypt_verdict(password, user.password_hash@) == Some(true),
        user.roles@ == Set::<UserRole>::empty().insert(UserRole::Unprivileged),
        now + ttl <= i64::MAX,
        later <= now + ttl,
        !banned.contains(user.user_id),
        headers.len() == 1,
        wire(headers[0]) == bearer_prefix() + login_result(key, ttl, Some(&user), password, now)->Ok_0,
    ensures
        login_result(key, ttl, Some(&user), password, now) is Ok,
        guarded(headers, key, banned, later, UserRole::Moderator) == Err::<
            (i32, Seq<char>),
            AuthError,
        >(AuthError::NotAuthorized { reason: RoleError::InsufficientRights }),
        guarded(headers, key, banned, later, UserRole::Unprivileged) == Ok::<
            (i32, Seq<char>),
            AuthError,
        >((user.user_id, user.user_name@)),
{
    let c = fresh_claims(user.user_id, user.user_name@, user.roles@, now as int, ttl);
    assert(c.roles.contains(UserRole::Unprivileged));
    assert(!c.roles.contains(UserRole::Moderator));
    assert(claims_valid(c));
    issued_token_accepted(key, c, headers, banned, later, UserRole::Unprivileged);
    verify_inverts_issue(key, c);
    lemma_bearer_header(headers, token_text(key, c));
}

} // verus!
