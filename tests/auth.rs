use task_tracker::credentials::{hash_password, verify_password};
use task_tracker::errors::AppError;
use task_tracker::guard::{bearer_header, bearer_token, extract_user, extract_user_at, require_admin, AuthenticatedUser};
use task_tracker::models::Role;
use task_tracker::tokens::{create_token, create_token_at, verify_token, verify_token_at, TOKEN_LIFETIME_SECONDS};

const SECRET: &str = "test-secret";

#[test]
fn hashed_password_verifies_and_others_do_not() {
    let hash = hash_password("pw123").unwrap();
    assert!(hash.starts_with("$argon2id$"));
    assert_ne!(hash, "pw123");
    assert_eq!(verify_password("pw123", &hash).unwrap(), true);
    assert_eq!(verify_password("pw124", &hash).unwrap(), false);
    assert_eq!(verify_password("", &hash).unwrap(), false);
}

#[test]
fn same_password_hashes_differently_each_time() {
    let a = hash_password("secret").unwrap();
    let b = hash_password("secret").unwrap();
    assert_ne!(a, b);
    assert!(verify_password("secret", &b).unwrap());
}

#[test]
fn malformed_hash_is_an_internal_error() {
    match verify_password("pw123", "not a phc string") {
        Err(AppError::Internal(_)) => {}
        other => panic!("unexpected {:?}", other),
    }
}

#[test]
fn token_round_trip_carries_claims() {
    let token = create_token(42, Role::Member, SECRET).unwrap();
    assert_eq!(token.split('.').count(), 3);
    let claims = verify_token(&token, SECRET).unwrap();
    assert_eq!(claims.sub, 42);
    assert_eq!(claims.role, "member");
}

#[test]
fn token_expires_a_day_after_issuance() {
    let now: i64 = 1_700_000_000;
    let token = create_token_at(7, Role::Admin, SECRET, now).unwrap();
    let claims = verify_token_at(&token, SECRET, now).unwrap();
    assert_eq!(claims.sub, 7);
    assert_eq!(claims.role, "admin");
    assert_eq!(claims.exp, now + 86400);
    assert_eq!(TOKEN_LIFETIME_SECONDS, 86400);
    assert!(verify_token_at(&token, SECRET, now + 86399).is_ok());
    assert!(matches!(verify_token_at(&token, SECRET, now + 86400), Err(AppError::Unauthorized)));
    assert!(matches!(verify_token_at(&token, SECRET, now + 90000), Err(AppError::Unauthorized)));
}

#[test]
fn tampered_token_is_rejected() {
    let now: i64 = 1_700_000_000;
    let token = create_token_at(7, Role::Member, SECRET, now).unwrap();
    let bytes = token.as_bytes();
    for i in [0, bytes.len() / 2, bytes.len() - 1] {
        let mut changed = bytes.to_vec();
        changed[i] = if changed[i] == b'A' { b'B' } else { b'A' };
        let changed = String::from_utf8(changed).unwrap();
        assert!(matches!(verify_token_at(&changed, SECRET, now), Err(AppError::Unauthorized)));
    }
}

#[test]
fn token_under_another_secret_is_rejected() {
    let token = create_token(1, Role::Admin, SECRET).unwrap();
    assert!(matches!(verify_token(&token, "other-secret"), Err(AppError::Unauthorized)));
    assert!(matches!(verify_token("garbage", SECRET), Err(AppError::Unauthorized)));
}

#[test]
fn expiry_overflow_is_an_internal_error() {
    assert!(matches!(create_token_at(1, Role::Admin, SECRET, i64::MAX - 10), Err(AppError::Internal(_))));
}

#[test]
fn missing_header_is_unauthorized() {
    assert!(matches!(extract_user(None, SECRET), Err(AppError::Unauthorized)));
}

#[test]
fn header_without_bearer_prefix_is_unauthorized() {
    let token = create_token(3, Role::Member, SECRET).unwrap();
    assert!(matches!(extract_user(Some(&token), SECRET), Err(AppError::Unauthorized)));
    let lower = format!("bearer {}", token);
    assert!(matches!(extract_user(Some(&lower), SECRET), Err(AppError::Unauthorized)));
    let basic = format!("Basic {}", token);
    assert!(matches!(extract_user(Some(&basic), SECRET), Err(AppError::Unauthorized)));
}

#[test]
fn bearer_header_identifies_caller() {
    let token = create_token(3, Role::Member, SECRET).unwrap();
    let header = format!("Bearer {}", token);
    let user = extract_user(Some(&header), SECRET).unwrap();
    assert_eq!(user, AuthenticatedUser { id: 3, role: Role::Member });
}

#[test]
fn expired_bearer_token_is_unauthorized() {
    let now: i64 = 1_000_000;
    let token = create_token_at(5, Role::Admin, SECRET, now).unwrap();
    let header = format!("Bearer {}", token);
    assert_eq!(
        extract_user_at(Some(&header), SECRET, now + 10).unwrap(),
        AuthenticatedUser { id: 5, role: Role::Admin }
    );
    assert!(matches!(extract_user_at(Some(&header), SECRET, now + 86400), Err(AppError::Unauthorized)));
}

#[test]
fn bearer_token_strips_prefix() {
    assert_eq!(bearer_token("Bearer abc.def"), Some("abc.def"));
    assert_eq!(bearer_token("Bearer "), Some(""));
    assert_eq!(bearer_token("Bearer"), None);
    assert_eq!(bearer_token("Token abc"), None);
}

#[test]
fn member_is_forbidden_admin_passes() {
    let member = AuthenticatedUser { id: 1, role: Role::Member };
    let admin = AuthenticatedUser { id: 2, role: Role::Admin };
    let err = require_admin(&member).unwrap_err();
    assert!(matches!(err, AppError::Forbidden));
    assert_eq!(err.status_code(), 403);
    assert!(require_admin(&admin).is_ok());
}

#[test]
fn member_creating_user_is_forbidden_not_unauthorized() {
    let token = create_token(9, Role::Member, SECRET).unwrap();
    let header = format!("Bearer {}", token);
    let caller = extract_user(Some(&header), SECRET).unwrap();
    assert_eq!(require_admin(&caller).unwrap_err().status_code(), 403);
    assert_eq!(extract_user(Some("Bearer nope"), SECRET).unwrap_err().status_code(), 401);
}

#[test]
fn bearer_header_round_trips() {
    assert_eq!(bearer_header("abc.def.ghi"), "Bearer abc.def.ghi");
    let header = bearer_header("abc.def.ghi");
    assert_eq!(bearer_token(&header), Some("abc.def.ghi"));
    let token = create_token(12, Role::Admin, SECRET).unwrap();
    let user = extract_user(Some(&bearer_header(&token)), SECRET).unwrap();
    assert_eq!(user, AuthenticatedUser { id: 12, role: Role::Admin });
}
