use weekend_auth::codec::{verify, Secret};
use weekend_auth::middleware::{extract_identity, AuthError, Middleware, BEARER};
use weekend_auth::revocation::RevocationRegistry;
use weekend_auth::roles::{RoleError, RoleSet, UserRole};
use weekend_auth::session::{SessionError, SessionIssuer, UserRecord, DEFAULT_TOKEN_TTL_MS};

const PASSWORD: &str = "correct horse battery staple";

fn user(user_id: i32, user_name: &str, roles: RoleSet) -> UserRecord {
    UserRecord {
        user_id,
        user_name: user_name.to_string(),
        password_hash: bcrypt::hash(PASSWORD, 4).unwrap(),
        roles,
    }
}

fn bearer(token: &str) -> Vec<String> {
    vec![format!("{} {}", BEARER, token)]
}

fn status(r: &Result<String, AuthError>) -> u16 {
    match r {
        Ok(_) => 200,
        Err(e) => e.status(),
    }
}

#[test]
fn end_to_end_auth() {
    let mut issuer = SessionIssuer::new(Secret::new("fixture secret"), DEFAULT_TOKEN_TTL_MS);
    let registry = RevocationRegistry::new();
    let admin_user = user(1, "Admin", RoleSet::single(UserRole::Admin).with(UserRole::Unprivileged));

    let response = issuer.login(Some(&admin_user), PASSWORD);
    assert_eq!(status(&response), 200);
    let jwt_string: String = response.unwrap();

    let headers = bearer(&jwt_string);
    let response = issuer.reauth(&headers, &registry);
    assert_eq!(status(&response), 200);
    let new_jwt_string: String = response.unwrap();

    assert_ne!(new_jwt_string, jwt_string);
}

#[test]
fn login_then_role_guarded_endpoints() {
    let issuer = SessionIssuer::new(Secret::new("scenario secret"), DEFAULT_TOKEN_TTL_MS);
    let registry = RevocationRegistry::new();
    let record = user(42, "joe", RoleSet::single(UserRole::Unprivileged));
    let now: i64 = 1_700_000_000_000;

    let token = issuer.login_at(Some(&record), PASSWORD, now).unwrap();
    let headers = bearer(&token);

    let moderator_route = Middleware::new(issuer.secret(), &registry, Some(UserRole::Moderator));
    match moderator_route.check_at(&headers, now + 1000) {
        Err(e) => {
            assert_eq!(e, AuthError::NotAuthorized { reason: RoleError::InsufficientRights });
            assert_eq!(e.status(), 403);
        }
        Ok(_) => panic!("a user without the moderator role reached a moderator route"),
    }

    let normal_route = Middleware::new(issuer.secret(), &registry, Some(UserRole::Unprivileged));
    let identity = normal_route.check_at(&headers, now + 1000).unwrap().unwrap();
    assert_eq!(identity.user_id, 42);
    assert_eq!(identity.user_name, "joe");
}

#[test]
fn login_tokens_carry_the_user_and_a_fresh_lifetime() {
    let secret = Secret::new("login secret");
    let issuer = SessionIssuer::new(secret, 60_000);
    let record = user(7, "ann", RoleSet::single(UserRole::Moderator));
    let token = issuer.login_at(Some(&record), PASSWORD, 5_000).unwrap();
    let claims = verify(&token, issuer.secret()).unwrap();
    assert_eq!(claims.user_id, 7);
    assert_eq!(claims.user_name, "ann");
    assert_eq!(claims.user_roles, RoleSet::single(UserRole::Moderator));
    assert_eq!(claims.issued_at, 5_000);
    assert_eq!(claims.expires_at, 65_000);
}

#[test]
fn reauthentication_twice_gives_distinct_valid_tokens() {
    let mut issuer = SessionIssuer::new(Secret::new("renewal secret"), 60_000);
    let registry = RevocationRegistry::new();
    let record = user(9, "kim", RoleSet::single(UserRole::Admin).with(UserRole::Moderator));
    let now: i64 = 1_000_000;
    let start = issuer.login_at(Some(&record), PASSWORD, now).unwrap();
    let claims = verify(&start, issuer.secret()).unwrap();

    let first = issuer.reauth_at(&bearer(&start), &registry, now).unwrap();
    let second = issuer.reauth_at(&bearer(&start), &registry, now).unwrap();
    assert_ne!(first, second);
    assert_ne!(first, start);
    assert_ne!(second, start);

    let a = verify(&first, issuer.secret()).unwrap();
    let b = verify(&second, issuer.secret()).unwrap();
    for renewed in [&a, &b] {
        assert_eq!(renewed.user_id, 9);
        assert_eq!(renewed.user_name, "kim");
        assert_eq!(renewed.user_roles, claims.user_roles);
        assert_eq!(renewed.expires_at - renewed.issued_at, 60_000);
        assert!(renewed.issued_at > claims.issued_at);
    }
    assert!(b.issued_at > a.issued_at);
    assert!(extract_identity(&bearer(&first), issuer.secret(), &registry, now, UserRole::Admin).is_ok());
    assert!(extract_identity(&bearer(&second), issuer.secret(), &registry, now, UserRole::Admin).is_ok());
}

#[test]
fn renewal_stamp_follows_the_clock_when_it_has_moved_on() {
    let mut issuer = SessionIssuer::new(Secret::new("clock secret"), 1_000);
    let registry = RevocationRegistry::new();
    let record = user(3, "lee", RoleSet::single(UserRole::Unprivileged));
    let token = issuer.login_at(Some(&record), PASSWORD, 100).unwrap();
    let renewed = issuer.reauth_at(&bearer(&token), &registry, 500).unwrap();
    let renewed_claims = verify(&renewed, issuer.secret()).unwrap();
    assert_eq!(renewed_claims.issued_at, 500);
    assert_eq!(renewed_claims.expires_at, 1_500);
}

#[test]
fn logins_at_one_instant_give_one_token() {
    let issuer = SessionIssuer::new(Secret::new("same instant"), 60_000);
    let record = user(4, "max", RoleSet::single(UserRole::Admin));
    let a = issuer.login_at(Some(&record), PASSWORD, 7_000).unwrap();
    let b = issuer.login_at(Some(&record), PASSWORD, 7_000).unwrap();
    assert_eq!(a, b);
    let claims = verify(&a, issuer.secret()).unwrap();
    assert_eq!(claims.issued_at, 7_000);
    assert_eq!(claims.expires_at, 67_000);
}

#[test]
fn renewal_runs_the_guard_first() {
    let mut issuer = SessionIssuer::new(Secret::new("guarded renewal"), 1_000);
    let mut registry = RevocationRegistry::new();
    let record = user(5, "ida", RoleSet::single(UserRole::Unprivileged));
    let token = issuer.login_at(Some(&record), PASSWORD, 100).unwrap();

    let r = issuer.reauth_at(&bearer(&token), &registry, 2_000);
    assert_eq!(r.unwrap_err(), AuthError::ExpiredToken);
    let r = issuer.reauth_at(&vec![], &registry, 200);
    assert_eq!(r.unwrap_err(), AuthError::MissingToken);
    let r = issuer.reauth_at(&bearer("forged"), &registry, 200);
    assert_eq!(r.unwrap_err(), AuthError::IllegalToken);
    registry.ban(5);
    let r = issuer.reauth_at(&bearer(&token), &registry, 200);
    assert_eq!(r.unwrap_err(), AuthError::BadRequest);
    registry.unban(5);
    assert!(issuer.reauth_at(&bearer(&token), &registry, 200).is_ok());
}

#[test]
fn login_refusals_look_alike_outside() {
    let issuer = SessionIssuer::new(Secret::new("outward"), 1_000);
    let record = user(6, "ola", RoleSet::single(UserRole::Unprivileged));
    let unknown = issuer.login_at(None, PASSWORD, 0).unwrap_err();
    let wrong = issuer.login_at(Some(&record), "nope", 0).unwrap_err();
    assert_eq!(unknown, SessionError::UnknownUser);
    assert_eq!(wrong, SessionError::WrongPassword);
    assert_eq!(unknown.outward(), wrong.outward());
    assert_eq!(unknown.outward(), AuthError::NotAuthorized { reason: RoleError::InsufficientRights });
    assert_eq!(issuer.login(None, PASSWORD).unwrap_err(), issuer.login(Some(&record), "nope").unwrap_err());
    assert_eq!(SessionError::ClockExhausted.outward(), AuthError::InternalServerError);
}

#[test]
fn renewal_reports_an_exhausted_clock() {
    let mut issuer = SessionIssuer::new(Secret::new("late"), 10);
    let registry = RevocationRegistry::new();
    let record = user(8, "end", RoleSet::single(UserRole::Admin));
    let token = issuer.login_at(Some(&record), PASSWORD, i64::MAX - 10).unwrap();
    let r = issuer.reauth_at(&bearer(&token), &registry, i64::MAX - 10);
    assert_eq!(r.unwrap_err(), AuthError::InternalServerError);
}
