use vstd::prelude::*;

use crate::errors::AppError;
use crate::models::Role;
use crate::text::{occurs_at, starts_with};
use crate::tokens::{jwt_claims, now_seconds, verified_claims, verify_token_at};

verus! {

/// The caller of a request, as its verified token names it.
#[derive(Debug, Clone, Copy, PartialEq, Eq, Structural)]
pub struct AuthenticatedUser {
    pub id: i64,
    pub role: Role,
}

/// The token in an `Authorization` header value: what follows the literal `Bearer `.
pub open spec fn bearer_token_of(header: Seq<char>) -> Option<Seq<char>> {
    if occurs_at(header, "Bearer "@, 0) {
        Some(header.subrange("Bearer "@.len() as int, header.len() as int))
    } else {
        None
    }
}

/// The caller that a request with `header` identifies at `now`: `(user id, role)`.
pub open spec fn authenticated_at(header: Option<Seq<char>>, secret: Seq<char>, now: int) -> Option<
    (int, Role),
> {
    match header {
        None => None,
        Some(h) => match bearer_token_of(h) {
            None => None,
            Some(t) => match verified_claims(t, secret, now) {
                None => None,
                Some(c) => match Role::spec_parse(c.1) {
                    None => None,
                    Some(role) => Some((c.0, role)),
                },
            },
        },
    }
}

/// The `Authorization` header value that presents `token`.
pub fn bearer_header(token: &str) -> (r: String)
    ensures
        r@ == "Bearer "@ + token@,
{
    String::from_str("Bearer ").concat(token)
}

/// The token part of a header built for a token is that token.
pub proof fn lemma_bearer_round_trip(token: Seq<char>)
    ensures
        bearer_token_of("Bearer "@ + token) == Some(token),
{
    let h = "Bearer "@ + token;
    assert(h.subrange(0, "Bearer "@.len() as int) =~= "Bearer "@);
    assert(h.subrange("Bearer "@.len() as int, h.len() as int) =~= token);
}

/// The token part of an `Authorization` header value.
pub fn bearer_token(header: &str) -> (r: Option<&str>)
    ensures
        match bearer_token_of(header@) {
            Some(t) => r matches Some(x) && x@ == t,
            None => r is None,
        },
{
    let prefix = "Bearer ";
    if starts_with(header, prefix) {
        let n = header.unicode_len();
        let m = prefix.unicode_len();
        Some(header.substring_char(m, n))
    } else {
        None
    }
}

/// The header value as characters.
pub open spec fn header_view(header: Option<&str>) -> Option<Seq<char>> {
    match header {
        Some(h) => Some(h@),
        None => None,
    }
}

/// `r` is what authenticating a request with `header` at `now` must give: the caller
/// the token names, or `Unauthorized`.
pub open spec fn authenticates_as(
    header: Option<Seq<char>>,
    secret: Seq<char>,
    now: int,
    r: Result<AuthenticatedUser, AppError>,
) -> bool {
    match authenticated_at(header, secret, now) {
        Some((id, role)) => r matches Ok(u) && u.id == id && u.role == role,
        None => r matches Err(AppError::Unauthorized),
    }
}

/// Identifies the caller from the `Authorization` header value (`None` when the
/// request has none) at `now`. A missing header, a missing `Bearer ` prefix, a bad
/// or expired token, or an unknown role are all `Unauthorized`.
pub fn extract_user_at(header: Option<&str>, secret: &str, now: i64) -> (r: Result<
    AuthenticatedUser,
    AppError,
>)
    ensures
        authenticates_as(header_view(header), secret@, now as int, r),
{
    let h = match header {
        Some(h) => h,
        None => return Err(AppError::Unauthorized),
    };
    let token = match bearer_token(h) {
        Some(t) => t,
        None => return Err(AppError::Unauthorized),
    };
    let claims = match verify_token_at(token, secret, now) {
        Ok(c) => c,
        Err(e) => return Err(e),
    };
    match Role::parse(claims.role.as_str()) {
        Some(role) => Ok(AuthenticatedUser { id: claims.sub, role }),
        None => Err(AppError::Unauthorized),
    }
}

/// Identifies the caller from the `Authorization` header value at the current time.
pub fn extract_user(header: Option<&str>, secret: &str) -> (r: Result<AuthenticatedUser, AppError>)
    ensures
        exists|now: int| 0 <= now && #[trigger] authenticates_as(header_view(header), secret@, now, r),
        r is Err ==> r matches Err(AppError::Unauthorized),
        header is None ==> r is Err,
        header matches Some(h) ==> (bearer_token_of(h@) is None ==> r is Err),
        header matches Some(h) ==> (bearer_token_of(h@) matches Some(t) ==> (jwt_claims(t, secret@)
            is None ==> r is Err)),
        header matches Some(h) ==> (bearer_token_of(h@) matches Some(t) ==> (jwt_claims(t, secret@)
            matches Some(c) ==> (Role::spec_parse(c.1) is None ==> r is Err))),
        r matches Ok(u) ==> header matches Some(h) && bearer_token_of(h@) matches Some(t)
            && jwt_claims(t, secret@) matches Some(c) && c.0 == u.id && c.1 == u.role.spec_name(),
{
    let now = now_seconds();
    let r = extract_user_at(header, secret, now);
    assert(authenticates_as(header_view(header), secret@, now as int, r));
    r
}

/// A request whose `Authorization` header is `Bearer ` followed by a token issued for
/// `(user_id, role)` identifies that user with that role at every instant before the
/// token's expiry.
pub proof fn lemma_issued_token_authenticates(
    token: Seq<char>,
    secret: Seq<char>,
    user_id: int,
    role: Role,
    exp: int,
    at: int,
)
    requires
        jwt_claims(token, secret) == Some((user_id, role.spec_name(), exp)),
        at < exp,
    ensures
        authenticated_at(Some("Bearer "@ + token), secret, at) == Some((user_id, role)),
{
    lemma_bearer_round_trip(token);
    crate::models::lemma_role_name_parses(role);
}

/// Lets only administrators through; a valid identity of another role is `Forbidden`.
pub fn require_admin(user: &AuthenticatedUser) -> (r: Result<(), AppError>)
    ensures
        user.role == Role::Admin ==> r is Ok,
        user.role != Role::Admin ==> r matches Err(AppError::Forbidden),
{
    match user.role {
        Role::Admin => Ok(()),
        Role::Member => Err(AppError::Forbidden),
    }
}

} // verus!
