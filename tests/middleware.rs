use weekend_auth::claims::TokenClaims;
use weekend_auth::codec::{issue, Secret};
use weekend_auth::guards::{authorize, AdminUser, ModeratorUser, NormalUser};
use weekend_auth::middleware::{
    authenticate, bearer_token, check_claims, extract_identity, AuthError, Middleware, BEARER,
};
use weekend_auth::revocation::RevocationRegistry;
use weekend_auth::roles::{RoleError, RoleSet, UserRole};

const NOW: i64 = 1_700_000_000_000;

fn claims(user_id: i32, roles: RoleSet, expires_at: i64) -> TokenClaims {
    TokenClaims {
        user_id,
        user_name: format!("user{}", user_id),
        user_roles: roles,
        issued_at: NOW - 1_000,
        expires_at,
    }
}

fn headers_for(token: &str) -> Vec<String> {
    vec![format!("{} {}", BEARER, token)]
}

#[test]
fn bearer_token_needs_one_header_with_the_scheme() {
    assert_eq!(bearer_token(&vec!["Bearer abc".to_string()]), Some(b"abc".to_vec()));
    assert_eq!(bearer_token(&vec!["Bearer ".to_string()]), Some(vec![]));
    assert_eq!(bearer_token(&vec![]), None);
    assert_eq!(bearer_token(&vec!["Bearer a".to_string(), "Bearer a".to_string()]), None);
    assert_eq!(bearer_token(&vec!["Basic abc".to_string()]), None);
    assert_eq!(bearer_token(&vec!["bearer abc".to_string()]), None);
    assert_eq!(bearer_token(&vec!["Bearer".to_string()]), None);
    assert_eq!(bearer_token(&vec!["abc".to_string()]), None);
}

#[test]
fn missing_and_illegal_tokens_are_refused() {
    let secret = Secret::new("s");
    let registry = RevocationRegistry::new();
    let r = authenticate(&vec![], &secret, &registry, NOW);
    assert_eq!(r.unwrap_err(), AuthError::MissingToken);
    let r = authenticate(&vec!["Token x".to_string()], &secret, &registry, NOW);
    assert_eq!(r.unwrap_err(), AuthError::MissingToken);
    let r = authenticate(&headers_for("not a token"), &secret, &registry, NOW);
    assert_eq!(r.unwrap_err(), AuthError::IllegalToken);
    let forged = issue(&claims(1, RoleSet::single(UserRole::Admin), NOW + 1), &Secret::new("other"));
    let r = authenticate(&headers_for(&forged), &secret, &registry, NOW);
    assert_eq!(r.unwrap_err(), AuthError::IllegalToken);
    assert_eq!(AuthError::MissingToken.status(), 401);
    assert_eq!(AuthError::IllegalToken.status(), 401);
}

#[test]
fn tampered_token_gives_illegal_token() {
    let secret = Secret::new("s");
    let registry = RevocationRegistry::new();
    let token = issue(&claims(1, RoleSet::single(UserRole::Admin), NOW + 1), &secret);
    let mut bytes = token.into_bytes();
    let last = bytes.len() - 1;
    bytes[last] = if bytes[last] == b'0' { b'1' } else { b'0' };
    let tampered = String::from_utf8(bytes).unwrap();
    let r = extract_identity(&headers_for(&tampered), &secret, &registry, NOW, UserRole::Admin);
    assert_eq!(r.unwrap_err(), AuthError::IllegalToken);
}

#[test]
fn expired_tokens_are_refused_even_when_signed() {
    let secret = Secret::new("s");
    let registry = RevocationRegistry::new();
    let token = issue(&claims(1, RoleSet::single(UserRole::Admin), NOW - 1), &secret);
    let r = extract_identity(&headers_for(&token), &secret, &registry, NOW, UserRole::Admin);
    assert_eq!(r.unwrap_err(), AuthError::ExpiredToken);
    assert_eq!(AuthError::ExpiredToken.status(), 401);
    let r = extract_identity(&headers_for(&token), &secret, &registry, NOW, UserRole::Moderator);
    assert_eq!(r.unwrap_err(), AuthError::ExpiredToken);
    let at_expiry = issue(&claims(1, RoleSet::single(UserRole::Admin), NOW), &secret);
    assert!(extract_identity(&headers_for(&at_expiry), &secret, &registry, NOW, UserRole::Admin).is_ok());
}

#[test]
fn banned_subjects_get_bad_request() {
    let secret = Secret::new("s");
    let mut registry = RevocationRegistry::new();
    let mine = issue(&claims(1, RoleSet::single(UserRole::Admin), NOW + 10), &secret);
    let theirs = issue(&claims(2, RoleSet::single(UserRole::Admin), NOW + 10), &secret);
    assert!(extract_identity(&headers_for(&mine), &secret, &registry, NOW, UserRole::Admin).is_ok());

    registry.ban(1);
    assert!(registry.is_banned(1));
    let r = extract_identity(&headers_for(&mine), &secret, &registry, NOW, UserRole::Admin);
    assert_eq!(r.unwrap_err(), AuthError::BadRequest);
    let r = extract_identity(&headers_for(&mine), &secret, &registry, NOW, UserRole::Moderator);
    assert_eq!(r.unwrap_err(), AuthError::BadRequest);
    assert_eq!(AuthError::BadRequest.status(), 401);
    assert!(extract_identity(&headers_for(&theirs), &secret, &registry, NOW, UserRole::Admin).is_ok());

    registry.ban(1);
    assert!(registry.is_banned(1));
    registry.unban(1);
    assert!(!registry.is_banned(1));
    assert!(extract_identity(&headers_for(&mine), &secret, &registry, NOW, UserRole::Admin).is_ok());
}

#[test]
fn checks_run_in_order() {
    let secret = Secret::new("s");
    let mut registry = RevocationRegistry::new();
    registry.ban(3);
    let expired_banned = issue(&claims(3, RoleSet::single(UserRole::Unprivileged), NOW - 1), &secret);
    let r = extract_identity(&headers_for(&expired_banned), &secret, &registry, NOW, UserRole::Admin);
    assert_eq!(r.unwrap_err(), AuthError::ExpiredToken);
    let live_banned = issue(&claims(3, RoleSet::single(UserRole::Unprivileged), NOW + 1), &secret);
    let r = extract_identity(&headers_for(&live_banned), &secret, &registry, NOW, UserRole::Admin);
    assert_eq!(r.unwrap_err(), AuthError::BadRequest);
}

#[test]
fn check_claims_looks_at_expiry_then_ban() {
    let mut registry = RevocationRegistry::new();
    registry.ban(4);
    let r = check_claims(claims(4, RoleSet::single(UserRole::Admin), NOW - 1), &registry, NOW);
    assert_eq!(r.unwrap_err(), AuthError::ExpiredToken);
    let r = check_claims(claims(4, RoleSet::single(UserRole::Admin), NOW), &registry, NOW);
    assert_eq!(r.unwrap_err(), AuthError::BadRequest);
    let r = check_claims(claims(5, RoleSet::single(UserRole::Admin), NOW), &registry, NOW);
    assert_eq!(r.unwrap().user_id, 5);
}

#[test]
fn roles_are_checked_by_membership() {
    let moderator = claims(6, RoleSet::single(UserRole::Moderator), NOW);
    assert_eq!(authorize(&moderator, UserRole::Admin).unwrap_err(), RoleError::InsufficientRights);
    assert_eq!(authorize(&moderator, UserRole::Unprivileged).unwrap_err(), RoleError::InsufficientRights);
    let id = authorize(&moderator, UserRole::Moderator).unwrap();
    assert_eq!(id.user_id, 6);
    assert_eq!(id.user_name, "user6");

    let admin = claims(7, RoleSet::single(UserRole::Admin), NOW);
    assert!(authorize(&admin, UserRole::Moderator).is_err());
    assert!(authorize(&admin, UserRole::Admin).is_ok());
}

#[test]
fn insufficient_rights_is_forbidden() {
    let secret = Secret::new("s");
    let registry = RevocationRegistry::new();
    let token = issue(&claims(8, RoleSet::single(UserRole::Moderator), NOW + 1), &secret);
    let r = extract_identity(&headers_for(&token), &secret, &registry, NOW, UserRole::Admin);
    let e = r.unwrap_err();
    assert_eq!(e, AuthError::NotAuthorized { reason: RoleError::InsufficientRights });
    assert_eq!(e.status(), 403);
    assert_eq!(AuthError::InternalServerError.status(), 500);
}

#[test]
fn typed_guards_follow_their_role() {
    let both = claims(9, RoleSet::single(UserRole::Unprivileged).with(UserRole::Moderator), NOW);
    let normal = NormalUser::from_jwt(&both).unwrap();
    assert_eq!(normal.get_id(), 9);
    assert_eq!(normal.user_name, "user9");
    assert_eq!(ModeratorUser::from_jwt(&both).unwrap().get_id(), 9);
    assert!(AdminUser::from_jwt(&both).is_err());
    let admin = claims(10, RoleSet::single(UserRole::Admin), NOW);
    assert_eq!(AdminUser::from_jwt(&admin).unwrap().get_id(), 10);
    assert!(NormalUser::from_jwt(&admin).is_err());
}

#[test]
fn typed_request_guards_use_the_clock() {
    let secret = Secret::new("s");
    let registry = RevocationRegistry::new();
    let far_future = i64::MAX;
    let token = issue(&claims(11, RoleSet::single(UserRole::Admin), far_future), &secret);
    let headers = headers_for(&token);
    assert_eq!(AdminUser::from_request(&headers, &secret, &registry).unwrap().get_id(), 11);
    assert!(NormalUser::from_request(&headers, &secret, &registry).is_err());
    assert!(ModeratorUser::from_request(&headers, &secret, &registry).is_err());
    let past = issue(&claims(11, RoleSet::single(UserRole::Admin), 0), &secret);
    let r = AdminUser::from_request(&headers_for(&past), &secret, &registry);
    assert_eq!(r.unwrap_err(), AuthError::ExpiredToken);
}

#[test]
fn routes_without_a_role_let_everyone_through() {
    let secret = Secret::new("s");
    let registry = RevocationRegistry::new();
    let open = Middleware::new(&secret, &registry, None);
    assert!(open.check_at(&vec![], NOW).unwrap().is_none());
    assert!(open.check(&vec!["garbage".to_string()]).unwrap().is_none());
    let closed = Middleware::new(&secret, &registry, Some(UserRole::Unprivileged));
    assert_eq!(closed.check_at(&vec![], NOW).unwrap_err(), AuthError::MissingToken);
    let token = issue(&claims(12, RoleSet::single(UserRole::Unprivileged), i64::MAX), &secret);
    let id = closed.check(&headers_for(&token)).unwrap().unwrap();
    assert_eq!(id.user_id, 12);
}
