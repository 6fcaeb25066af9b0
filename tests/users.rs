use task_tracker::credentials::{hash_password, verify_password};
use task_tracker::errors::{AppError, ErrorKind};
use task_tracker::models::{default_role, ChangePasswordRequest, CreateUserRequest, LoginRequest, Role, TaskStatus, User};
use task_tracker::text::{contains, same_text, starts_with};
use task_tracker::tokens::verify_token;
use task_tracker::users::{
    change_password, create_user, delete_user, get_user_by_id, init_admin, login, update_password,
    user_insert_error,
};

const SECRET: &str = "users-secret";

fn stored_user(id: i64, email: &str, password: &str, role: Role) -> User {
    User {
        id,
        email: email.to_string(),
        password_hash: hash_password(password).unwrap(),
        name: "Alice".to_string(),
        role,
        created_at: 100,
    }
}

#[test]
fn create_user_hashes_password_and_parses_role() {
    let req = CreateUserRequest {
        email: "alice@x.com".to_string(),
        password: "pw123".to_string(),
        name: "Alice".to_string(),
        role: "member".to_string(),
    };
    let u = create_user(req).unwrap();
    assert_eq!(u.email, "alice@x.com");
    assert_eq!(u.name, "Alice");
    assert_eq!(u.role, Role::Member);
    assert_ne!(u.password_hash, "pw123");
    assert!(verify_password("pw123", &u.password_hash).unwrap());
}

#[test]
fn create_user_rejects_unknown_role() {
    let req = CreateUserRequest {
        email: "bob@x.com".to_string(),
        password: "pw".to_string(),
        name: "Bob".to_string(),
        role: "superuser".to_string(),
    };
    match create_user(req) {
        Err(AppError::BadRequest(m)) => assert_eq!(m, "Role must be: admin, member"),
        other => panic!("unexpected {:?}", other),
    }
}

#[test]
fn duplicate_email_is_bad_request() {
    let e = user_insert_error("error returned from database: (code: 2067) UNIQUE constraint failed: users.email");
    assert_eq!(e.status_code(), 400);
    assert_eq!(e.client_message(), "Email already exists");
    let e = user_insert_error("database is locked");
    assert!(matches!(&e, AppError::Internal(m) if m == "database is locked"));
    assert_eq!(e.status_code(), 500);
    assert_eq!(e.client_message(), "Internal server error");
}

#[test]
fn login_gives_token_for_right_password() {
    let user = stored_user(5, "alice@x.com", "pw123", Role::Member);
    let req = LoginRequest { email: "alice@x.com".to_string(), password: "pw123".to_string() };
    let before = std::time::SystemTime::now().duration_since(std::time::UNIX_EPOCH).unwrap().as_secs() as i64;
    let resp = login(Some(user), req, SECRET).unwrap();
    let after = std::time::SystemTime::now().duration_since(std::time::UNIX_EPOCH).unwrap().as_secs() as i64;
    assert_eq!(resp.user.id, 5);
    let claims = verify_token(&resp.token, SECRET).unwrap();
    assert_eq!(claims.sub, 5);
    assert_eq!(claims.role, "member");
    assert!(before + 86400 <= claims.exp && claims.exp <= after + 86400);
}

#[test]
fn login_with_wrong_password_or_unknown_email_is_unauthorized() {
    let user = stored_user(5, "alice@x.com", "pw123", Role::Member);
    let req = LoginRequest { email: "alice@x.com".to_string(), password: "nope".to_string() };
    assert!(matches!(login(Some(user), req, SECRET), Err(AppError::Unauthorized)));
    let req = LoginRequest { email: "nobody@x.com".to_string(), password: "pw123".to_string() };
    assert!(matches!(login(None, req, SECRET), Err(AppError::Unauthorized)));
}

#[test]
fn change_password_checks_current_one() {
    let user = stored_user(5, "alice@x.com", "pw123", Role::Member);
    let wrong = ChangePasswordRequest { current_password: "bad".to_string(), new_password: "new".to_string() };
    match change_password(&user, wrong) {
        Err(AppError::BadRequest(m)) => assert_eq!(m, "Current password is incorrect"),
        other => panic!("unexpected {:?}", other),
    }
    let right = ChangePasswordRequest { current_password: "pw123".to_string(), new_password: "new".to_string() };
    let h = change_password(&user, right).unwrap();
    assert!(verify_password("new", &h).unwrap());
    assert!(!verify_password("pw123", &h).unwrap());
}

#[test]
fn init_admin_twice_seeds_one_admin() {
    let mut users: i64 = 0;
    let mut seeded = Vec::new();
    for _ in 0..2 {
        if let Some(u) = init_admin(users, "admin@example.com", "adminpass123").unwrap() {
            seeded.push(u);
            users += 1;
        }
    }
    assert_eq!(seeded.len(), 1);
    assert_eq!(seeded[0].role, Role::Admin);
    assert_eq!(seeded[0].email, "admin@example.com");
    assert_eq!(seeded[0].name, "Admin");
    assert!(verify_password("adminpass123", &seeded[0].password_hash).unwrap());
}

#[test]
fn init_admin_on_populated_store_does_nothing() {
    assert!(init_admin(3, "admin@example.com", "x").unwrap().is_none());
}

#[test]
fn user_lookups_report_missing_rows() {
    assert!(matches!(get_user_by_id(None), Err(AppError::NotFound(m)) if m == "User not found"));
    assert!(delete_user(1).is_ok());
    assert!(matches!(delete_user(0), Err(AppError::NotFound(_))));
    assert!(update_password(2).is_ok());
    assert!(matches!(update_password(0), Err(AppError::NotFound(_))));
}

#[test]
fn names_parse_and_print() {
    assert_eq!(default_role(), "member");
    assert_eq!(Role::parse("admin"), Some(Role::Admin));
    assert_eq!(Role::parse("member"), Some(Role::Member));
    assert_eq!(Role::parse("Admin"), None);
    assert_eq!(Role::Admin.as_str(), "admin");
    assert_eq!(TaskStatus::parse("in_progress"), Some(TaskStatus::InProgress));
    assert_eq!(TaskStatus::parse("archived"), None);
    assert_eq!(TaskStatus::Done.as_str(), "done");
}

#[test]
fn error_outcomes_map_to_statuses_and_messages() {
    let cases = [
        (AppError::NotFound("Task not found".to_string()), 404, "Task not found", "Not found: Task not found", ErrorKind::NotFound),
        (AppError::BadRequest("bad".to_string()), 400, "bad", "Bad request: bad", ErrorKind::BadRequest),
        (AppError::Unauthorized, 401, "Unauthorized", "Unauthorized", ErrorKind::Unauthorized),
        (AppError::Forbidden, 403, "Forbidden", "Forbidden", ErrorKind::Forbidden),
        (AppError::Internal("disk full".to_string()), 500, "Internal server error", "Internal error: disk full", ErrorKind::Internal),
    ];
    for (e, code, client, described, kind) in cases {
        assert_eq!(e.status_code(), code);
        assert_eq!(e.client_message(), client);
        assert_eq!(e.describe(), described);
        assert_eq!(e.kind(), kind);
    }
}

#[test]
fn text_helpers() {
    assert!(contains("xx UNIQUE yy", "UNIQUE"));
    assert!(!contains("unique", "UNIQUE"));
    assert!(contains("abc", ""));
    assert!(starts_with("Bearer x", "Bearer "));
    assert!(!starts_with("Bear", "Bearer "));
    assert!(same_text("héllo", "héllo"));
    assert!(!same_text("héllo", "hello"));
}

/// A stand-in for the users table with its unique email constraint.
fn insert_into(table: &mut Vec<task_tracker::models::NewUser>, u: task_tracker::models::NewUser) -> Result<(), AppError> {
    if table.iter().any(|x| x.email == u.email) {
        return Err(user_insert_error("UNIQUE constraint failed: users.email"));
    }
    table.push(u);
    Ok(())
}

#[test]
fn second_user_with_same_email_is_rejected() {
    let mut table = Vec::new();
    let req = |name: &str| CreateUserRequest {
        email: "alice@x.com".to_string(),
        password: "pw123".to_string(),
        name: name.to_string(),
        role: "member".to_string(),
    };
    insert_into(&mut table, create_user(req("Alice")).unwrap()).unwrap();
    let err = insert_into(&mut table, create_user(req("Other")).unwrap()).unwrap_err();
    assert_eq!(err.status_code(), 400);
    assert_eq!(err.client_message(), "Email already exists");
    assert_eq!(table.len(), 1);
}
