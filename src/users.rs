use vstd::prelude::*;

use crate::credentials::{hash_password, hashable, hashes_password, password_verdict, verify_password};
use crate::errors::{AppError, ErrorKind};
use crate::models::{
    AuthResponse, ChangePasswordRequest, CreateUserRequest, LoginRequest, NewUser, Role, User,
};
use crate::text::{contains, contains_text};
use crate::tokens::{create_token, token_issued_at};

verus! {

/// The store refused an insert because a unique constraint failed.
pub open spec fn is_unique_violation(store_message: Seq<char>) -> bool {
    contains_text(store_message, "UNIQUE"@)
}

/// Maps a store failure on user insertion: a unique-constraint violation (the
/// email is taken) is the client's `BadRequest`, anything else is internal.
pub fn user_insert_error(store_message: &str) -> (r: AppError)
    ensures
        is_unique_violation(store_message@) ==> r is BadRequest && r.spec_message()
            == "Email already exists"@,
        !is_unique_violation(store_message@) ==> r is Internal && r.spec_message()
            == store_message@,
{
    if contains(store_message, "UNIQUE") {
        AppError::BadRequest(String::from_str("Email already exists"))
    } else {
        AppError::Internal(String::from_str(store_message))
    }
}

/// Builds the user to insert for a registration: the role must name one of the two
/// roles, and the password is stored only as its hash.
pub fn create_user(req: CreateUserRequest) -> (r: Result<NewUser, AppError>)
    ensures
        Role::spec_parse(req.role@) is None ==> (r matches Err(e) && e is BadRequest
            && e.spec_message() == "Role must be: admin, member"@),
        r matches Ok(u) ==> Role::spec_parse(req.role@) == Some(u.role) && u.email == req.email
            && u.name == req.name && hashes_password(req.password@, u.password_hash@),
        r matches Err(e) ==> (Role::spec_parse(req.role@) is Some ==> e is Internal),
        Role::spec_parse(req.role@) is Some && hashable(req.password@) ==> r is Ok,
{
    let role = match Role::parse(req.role.as_str()) {
        Some(role) => role,
        None => return Err(AppError::BadRequest(String::from_str("Role must be: admin, member"))),
    };
    let password_hash = match hash_password(req.password.as_str()) {
        Ok(h) => h,
        Err(e) => return Err(e),
    };
    let CreateUserRequest { email, password: _, name, role: _ } = req;
    Ok(NewUser { email, password_hash, name, role })
}

/// Logs in the user that the store found under the request's email (`None`: no such
/// user). An unknown email and a wrong password give the same `Unauthorized`.
pub fn login(user: Option<User>, req: LoginRequest, secret: &str) -> (r: Result<AuthResponse, AppError>)
    ensures
        user is None ==> (r matches Err(e) && e is Unauthorized),
        user matches Some(u) ==> (password_verdict(req.password@, u.password_hash@) == Some(false)
            ==> r matches Err(AppError::Unauthorized)),
        user matches Some(u) ==> (password_verdict(req.password@, u.password_hash@) is None
            ==> r matches Err(AppError::Internal(_))),
        user matches Some(u) ==> (password_verdict(req.password@, u.password_hash@) == Some(true)
            ==> r is Ok),
        r matches Ok(resp) ==> user == Some(resp.user) && password_verdict(
            req.password@,
            resp.user.password_hash@,
        ) == Some(true) && exists|issued: int|
            #[trigger] token_issued_at(
                resp.token@,
                resp.user.id as int,
                resp.user.role,
                secret@,
                issued,
            ),
        r matches Err(e) ==> (e is Unauthorized || e is Internal),
{
    let u = match user {
        Some(u) => u,
        None => return Err(AppError::Unauthorized),
    };
    match verify_password(req.password.as_str(), u.password_hash.as_str()) {
        Ok(true) => {},
        Ok(false) => return Err(AppError::Unauthorized),
        Err(e) => return Err(e),
    }
    let token = match create_token(u.id, u.role, secret) {
        Ok(t) => t,
        Err(e) => return Err(e),
    };
    let resp = AuthResponse { token, user: u };
    proof {
        let issued = choose|issued: int|
            token_issued_at(resp.token@, resp.user.id as int, resp.user.role, secret@, issued);
        assert(token_issued_at(resp.token@, resp.user.id as int, resp.user.role, secret@, issued));
    }
    Ok(resp)
}

/// The new password hash to store for `user`, once the current password checks out.
pub fn change_password(user: &User, req: ChangePasswordRequest) -> (r: Result<String, AppError>)
    ensures
        password_verdict(req.current_password@, user.password_hash@) == Some(false) ==> (r matches Err(
            e,
        ) && e is BadRequest && e.spec_message() == "Current password is incorrect"@),
        password_verdict(req.current_password@, user.password_hash@) is None ==> (r matches Err(e)
            && e is Internal),
        r matches Ok(h) ==> password_verdict(req.current_password@, user.password_hash@) == Some(
            true,
        ) && hashes_password(req.new_password@, h@),
        password_verdict(req.current_password@, user.password_hash@) == Some(true) && hashable(
            req.new_password@,
        ) ==> r is Ok,
{
    match verify_password(req.current_password.as_str(), user.password_hash.as_str()) {
        Ok(true) => {},
        Ok(false) => {
            return Err(AppError::BadRequest(String::from_str("Current password is incorrect")));
        },
        Err(e) => return Err(e),
    }
    hash_password(req.new_password.as_str())
}

/// The user read by id, or `NotFound` when the store had no such row.
pub fn get_user_by_id(row: Option<User>) -> (r: Result<User, AppError>)
    ensures
        match row {
            Some(u) => r matches Ok(x) && x == u,
            None => r matches Err(e) && e is NotFound && e.spec_message() == "User not found"@,
        },
{
    match row {
        Some(u) => Ok(u),
        None => Err(AppError::NotFound(String::from_str("User not found"))),
    }
}

/// Outcome of a user delete that removed `rows_affected` rows.
pub fn delete_user(rows_affected: u64) -> (r: Result<(), AppError>)
    ensures
        rows_affected > 0 ==> r is Ok,
        rows_affected == 0 ==> (r matches Err(e) && e is NotFound && e.spec_message()
            == "User not found"@),
{
    if rows_affected == 0 {
        Err(AppError::NotFound(String::from_str("User not found")))
    } else {
        Ok(())
    }
}

/// Outcome of a password update that changed `rows_affected` rows.
pub fn update_password(rows_affected: u64) -> (r: Result<(), AppError>)
    ensures
        rows_affected > 0 ==> r is Ok,
        rows_affected == 0 ==> (r matches Err(e) && e is NotFound && e.spec_message()
            == "User not found"@),
{
    if rows_affected == 0 {
        Err(AppError::NotFound(String::from_str("User not found")))
    } else {
        Ok(())
    }
}

/// How many accounts a bootstrap seeds on a store that holds `user_count` users.
pub open spec fn seeded_accounts(user_count: int) -> int {
    if user_count > 0 {
        0
    } else {
        1
    }
}

/// First-run bootstrap on a store that holds `user_count` users: on an empty store,
/// the administrator account to insert; otherwise nothing, which is no error. The
/// store is to insert it only while it still holds no user, in one atomic step.
pub fn init_admin(user_count: i64, email: &str, password: &str) -> (r: Result<
    Option<NewUser>,
    AppError,
>)
    ensures
        user_count > 0 ==> r matches Ok(None),
        r matches Ok(Some(u)) ==> u.email@ == email@ && u.name@ == "Admin"@ && u.role
            == Role::Admin && hashes_password(password@, u.password_hash@),
        r matches Ok(x) ==> (x is Some <==> seeded_accounts(user_count as int) == 1),
        r matches Err(e) ==> e is Internal && user_count <= 0,
        user_count <= 0 && hashable(password@) ==> r matches Ok(Some(_)),
{
    if user_count > 0 {
        return Ok(None);
    }
    let password_hash = match hash_password(password) {
        Ok(h) => h,
        Err(e) => return Err(e),
    };
    Ok(
        Some(
            NewUser {
                email: String::from_str(email),
                password_hash,
                name: String::from_str("Admin"),
                role: Role::Admin,
            },
        ),
    )
}

/// Two bootstraps in sequence, the second on the count that the first left, seed
/// exactly one account on an empty store and none on a store that has users.
pub proof fn lemma_bootstrap_twice_seeds_once(user_count: int)
    requires
        user_count >= 0,
    ensures
        seeded_accounts(user_count) + seeded_accounts(user_count + seeded_accounts(user_count)) == (
        if user_count == 0 {
            1int
        } else {
            0int
        }),
{
}

} // verus!
