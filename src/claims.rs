//! The claims a token carries, and their binary payload.
//!
//! Payload layout: the user id (4 bytes), the issue and expiry stamps (8 bytes
//! each, milliseconds since the Unix epoch), all little-endian in two's
//! complement; one byte of role flags; then the user name in UTF-8.
use crate::primitives::string_from_utf8;
use crate::roles::{RoleSet, UserRole};
use vstd::bytes::*;
use vstd::prelude::*;
use vstd::slice::{slice_subrange, slice_to_vec};
use vstd::utf8::*;

verus! {

/// The number of payload bytes before the user name.
pub const PAYLOAD_HEADER_LEN: usize = 21;

/// The decoded payload of a token.
#[derive(Debug)]
pub struct TokenClaims {
    pub user_id: i32,
    pub user_name: String,
    pub user_roles: RoleSet,
    /// Milliseconds since the Unix epoch.
    pub issued_at: i64,
    /// Milliseconds since the Unix epoch; the token is expired once the clock
    /// has passed this stamp.
    pub expires_at: i64,
}

/// The mathematical value of a set of claims.
pub struct ClaimsModel {
    pub user_id: i32,
    pub user_name: Seq<char>,
    pub roles: Set<UserRole>,
    pub issued_at: i64,
    pub expires_at: i64,
}

impl View for TokenClaims {
    type V = ClaimsModel;

    open spec fn view(&self) -> ClaimsModel {
        ClaimsModel {
            user_id: self.user_id,
            user_name: self.user_name@,
            roles: self.user_roles@,
            issued_at: self.issued_at,
            expires_at: self.expires_at,
        }
    }
}

/// Claims that may be issued: they grant at least one role.
pub open spec fn claims_valid(c: ClaimsModel) -> bool {
    c.roles != Set::<UserRole>::empty()
}

/// One flag per role: 1 for `Unprivileged`, 2 for `Moderator`, 4 for `Admin`.
pub open spec fn role_bits(roles: Set<UserRole>) -> u8 {
    ((if roles.contains(UserRole::Unprivileged) {
        1int
    } else {
        0int
    }) + (if roles.contains(UserRole::Moderator) {
        2int
    } else {
        0int
    }) + (if roles.contains(UserRole::Admin) {
        4int
    } else {
        0int
    })) as u8
}

/// The roles whose flags are set in `bits`.
pub open spec fn roles_of_bits(bits: u8) -> Set<UserRole> {
    Set::new(
        |role: UserRole|
            match role {
                UserRole::Unprivileged => bits % 2 == 1,
                UserRole::Moderator => (bits / 2) % 2 == 1,
                UserRole::Admin => (bits / 4) % 2 == 1,
            },
    )
}

/// The payload bytes of a set of claims.
pub open spec fn encode_claims(c: ClaimsModel) -> Seq<u8> {
    spec_u32_to_le_bytes(c.user_id as u32) + spec_u64_to_le_bytes(c.issued_at as u64)
        + spec_u64_to_le_bytes(c.expires_at as u64) + seq![role_bits(c.roles)] + encode_utf8(
        c.user_name,
    )
}

/// The claims a payload spells, or `None` where it is too short, grants no
/// role, sets an unknown flag, or ends in a name that is not UTF-8.
pub open spec fn decode_claims(b: Seq<u8>) -> Option<ClaimsModel> {
    if b.len() < 21 || b[20] == 0 || b[20] >= 8 || !valid_utf8(b.subrange(21, b.len() as int)) {
        None
    } else {
        Some(
            ClaimsModel {
                user_id: spec_u32_from_le_bytes(b.subrange(0, 4)) as i32,
                issued_at: spec_u64_from_le_bytes(b.subrange(4, 12)) as i64,
                expires_at: spec_u64_from_le_bytes(b.subrange(12, 20)) as i64,
                roles: roles_of_bits(b[20]),
                user_name: decode_utf8(b.subrange(21, b.len() as int)),
            },
        )
    }
}

proof fn lemma_role_bits_round_trip(roles: Set<UserRole>)
    requires
        roles != Set::<UserRole>::empty(),
    ensures
        1 <= role_bits(roles) < 8,
        roles_of_bits(role_bits(roles)) == roles,
{
    if !roles.contains(UserRole::Unprivileged) && !roles.contains(UserRole::Moderator)
        && !roles.contains(UserRole::Admin) {
        assert(roles =~= Set::<UserRole>::empty()) by {
            assert forall|r: UserRole| !roles.contains(r) by {
                match r {
                    UserRole::Unprivileged => {},
                    UserRole::Moderator => {},
                    UserRole::Admin => {},
                }
            }
        }
    }
    assert(roles_of_bits(role_bits(roles)) =~= roles) by {
        assert forall|r: UserRole| #[trigger]
            roles_of_bits(role_bits(roles)).contains(r) == roles.contains(r) by {
            match r {
                UserRole::Unprivileged => {},
                UserRole::Moderator => {},
                UserRole::Admin => {},
            }
        }
    }
}

/// Decoding the payload of valid claims gives the claims back.
pub proof fn lemma_claims_round_trip(c: ClaimsModel)
    requires
        claims_valid(c),
    ensures
        decode_claims(encode_claims(c)) == Some(c),
{
    lemma_auto_spec_u32_to_from_le_bytes();
    lemma_auto_spec_u64_to_from_le_bytes();
    lemma_role_bits_round_trip(c.roles);
    encode_utf8_valid_utf8(c.user_name);
    encode_utf8_decode_utf8(c.user_name);
    let b = encode_claims(c);
    let id = c.user_id;
    let iat = c.issued_at;
    let exp = c.expires_at;
    assert(b.subrange(0, 4) =~= spec_u32_to_le_bytes(id as u32));
    assert(b.subrange(4, 12) =~= spec_u64_to_le_bytes(iat as u64));
    assert(b.subrange(12, 20) =~= spec_u64_to_le_bytes(exp as u64));
    assert(b.subrange(21, b.len() as int) =~= encode_utf8(c.user_name));
    assert(b[20] == role_bits(c.roles));
    assert((id as u32) as i32 == id) by (bit_vector);
    assert((iat as u64) as i64 == iat) by (bit_vector);
    assert((exp as u64) as i64 == exp) by (bit_vector);
}

fn role_flags(roles: &RoleSet) -> (r: u8)
    ensures
        r == role_bits(roles@),
{
    let mut r: u8 = 0;
    if roles.unprivileged {
        r = r + 1;
    }
    if roles.moderator {
        r = r + 2;
    }
    if roles.admin {
        r = r + 4;
    }
    r
}

fn roles_from_flags(bits: u8) -> (r: RoleSet)
    requires
        bits < 8,
    ensures
        r@ == roles_of_bits(bits),
{
    let r = RoleSet {
        unprivileged: bits % 2 == 1,
        moderator: (bits / 2) % 2 == 1,
        admin: (bits / 4) % 2 == 1,
    };
    assert(r@ =~= roles_of_bits(bits)) by {
        assert forall|role: UserRole| #[trigger]
            r@.contains(role) == roles_of_bits(bits).contains(role) by {
            match role {
                UserRole::Unprivileged => {},
                UserRole::Moderator => {},
                UserRole::Admin => {},
            }
        }
    }
    r
}

/// The payload bytes of `claims`.
pub fn encode_payload(claims: &TokenClaims) -> (r: Vec<u8>)
    ensures
        r@ == encode_claims(claims@),
{
    let mut out = u32_to_le_bytes(claims.user_id as u32);
    let mut issued = u64_to_le_bytes(claims.issued_at as u64);
    out.append(&mut issued);
    let mut expires = u64_to_le_bytes(claims.expires_at as u64);
    out.append(&mut expires);
    out.push(role_flags(&claims.user_roles));
    let mut name = slice_to_vec(claims.user_name.as_str().as_bytes());
    out.append(&mut name);
    assert(out@ =~= encode_claims(claims@));
    out
}

/// The claims that payload bytes spell, if they spell any.
pub fn decode_payload(b: &[u8]) -> (r: Option<TokenClaims>)
    ensures
        match decode_claims(b@) {
            Some(c) => r is Some && r->0@ == c,
            None => r is None,
        },
{
    if b.len() < PAYLOAD_HEADER_LEN {
        return None;
    }
    let bits = b[20];
    if bits == 0 || bits >= 8 {
        return None;
    }
    let name_bytes = slice_to_vec(slice_subrange(b, PAYLOAD_HEADER_LEN, b.len()));
    let user_name = match string_from_utf8(name_bytes) {
        Some(s) => s,
        None => {
            return None;
        },
    };
    let user_id = u32_from_le_bytes(slice_subrange(b, 0, 4)) as i32;
    let issued_at = u64_from_le_bytes(slice_subrange(b, 4, 12)) as i64;
    let expires_at = u64_from_le_bytes(slice_subrange(b, 12, 20)) as i64;
    Some(
        TokenClaims {
            user_id,
            user_name,
            user_roles: roles_from_flags(bits),
            issued_at,
            expires_at,
        },
    )
}

} // verus!
