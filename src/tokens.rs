use vstd::prelude::*;

use crate::errors::AppError;
use crate::models::Role;

verus! {

/// How long an issued token stays valid, in seconds (24 hours).
pub const TOKEN_LIFETIME_SECONDS: i64 = 86400;

/// The signed payload of a token: subject user id, role name and expiry (Unix seconds).
#[derive(Debug)]
pub struct Claims {
    pub sub: i64,
    pub role: String,
    pub exp: i64,
}

/// The token that HS256 signing under `secret` gives for the claims `(sub, role, exp)`.
pub uninterp spec fn jwt_encoding(sub: int, role: Seq<char>, exp: int, secret: Seq<char>) -> Seq<char>;

/// The claims `(sub, role, exp)` that `token` carries under a valid HS256 signature by
/// `secret`, or `None` when the token is malformed, badly signed or lacks one of them.
pub uninterp spec fn jwt_claims(token: Seq<char>, secret: Seq<char>) -> Option<(int, Seq<char>, int)>;

/// Relies on chrono::Utc::now and DateTime::timestamp: the current Unix time in
/// seconds. `Utc::now` does not return a time before the epoch, and a `DateTime` ends
/// in the year 262142, so the value is non-negative and below 10^13. Nothing more is
/// promised of it.
#[verifier::external_body]
pub(crate) fn now_seconds() -> (r: i64)
    ensures
        0 <= r < 10_000_000_000_000,
{
    chrono::Utc::now().timestamp()
}

/// Relies on jsonwebtoken::encode, with the default header (HS256) and an HMAC key
/// made from the bytes of `secret`, over the JSON object `{sub, role, exp}`. The token
/// depends on those values alone, and jsonwebtoken::decode under the same secret
/// gives them back; `exp` must be non-negative there, as decoding reads it unsigned.
/// Encoding cannot fail here: the HMAC key matches the HS256 header, the HMAC signer
/// takes a key of any length, and the header and a string-keyed map always serialize.
#[verifier::external_body]
fn jwt_encode(sub: i64, role: &str, exp: i64, secret: &str) -> (r: Option<String>)
    ensures
        r is Some,
        r matches Some(t) ==> t@ == jwt_encoding(sub as int, role@, exp as int, secret@),
        r matches Some(t) ==> (exp >= 0 ==> jwt_claims(t@, secret@) == Some(
            (sub as int, role@, exp as int),
        )),
{
    let mut claims = serde_json::Map::new();
    claims.insert("sub".to_string(), sub.into());
    claims.insert("role".to_string(), role.into());
    claims.insert("exp".to_string(), exp.into());
    let key = jsonwebtoken::EncodingKey::from_secret(secret.as_bytes());
    jsonwebtoken::encode(&jsonwebtoken::Header::default(), &claims, &key).ok()
}

/// Relies on jsonwebtoken::decode with HS256, an HMAC key made from the bytes of
/// `secret`, and expiry not checked (the caller compares `exp` itself); the claims
/// object is read for `sub` and `exp` as i64 and `role` as a string.
#[verifier::external_body]
fn jwt_decode(token: &str, secret: &str) -> (r: Option<(i64, String, i64)>)
    ensures
        match r {
            Some(c) => jwt_claims(token@, secret@) == Some((c.0 as int, c.1@, c.2 as int)),
            None => jwt_claims(token@, secret@) is None,
        },
{
    let mut validation = jsonwebtoken::Validation::default();
    validation.validate_exp = false;
    let key = jsonwebtoken::DecodingKey::from_secret(secret.as_bytes());
    let data = jsonwebtoken::decode::<serde_json::Map<String, serde_json::Value>>(
        token, &key, &validation).ok()?;
    let c = data.claims;
    Some((c.get("sub")?.as_i64()?, c.get("role")?.as_str()?.to_string(), c.get("exp")?.as_i64()?))
}

/// Claims that a token carries and that are still valid at `now`: a token is
/// accepted strictly before its expiry instant.
pub open spec fn verified_claims(token: Seq<char>, secret: Seq<char>, now: int) -> Option<
    (int, Seq<char>, int),
> {
    match jwt_claims(token, secret) {
        Some(c) => if now < c.2 {
            Some(c)
        } else {
            None
        },
        None => None,
    }
}

/// Issues a token for `user_id` with `role`, expiring a day after `now`.
pub fn create_token_at(user_id: i64, role: Role, secret: &str, now: i64) -> (r: Result<
    String,
    AppError,
>)
    ensures
        r is Err ==> r matches Err(AppError::Internal(_)),
        now > i64::MAX - TOKEN_LIFETIME_SECONDS ==> r is Err,
        now <= i64::MAX - TOKEN_LIFETIME_SECONDS ==> r is Ok,
        r matches Ok(t) ==> t@ == jwt_encoding(
            user_id as int,
            role.spec_name(),
            now + TOKEN_LIFETIME_SECONDS,
            secret@,
        ),
        r matches Ok(t) ==> (now + TOKEN_LIFETIME_SECONDS >= 0 ==> jwt_claims(t@, secret@)
            == Some((user_id as int, role.spec_name(), now + TOKEN_LIFETIME_SECONDS))),
{
    if now > i64::MAX - TOKEN_LIFETIME_SECONDS {
        return Err(AppError::Internal(String::from_str("token expiry out of range")));
    }
    let exp = now + TOKEN_LIFETIME_SECONDS;
    match jwt_encode(user_id, role.as_str(), exp, secret) {
        Some(t) => Ok(t),
        None => Err(AppError::Internal(String::from_str("failed to create token"))),
    }
}

/// `token` is the token issued for `(user_id, role)` at the non-negative instant
/// `issued`: it carries those claims and expires a day later.
pub open spec fn token_issued_at(
    token: Seq<char>,
    user_id: int,
    role: Role,
    secret: Seq<char>,
    issued: int,
) -> bool {
    &&& 0 <= issued
    &&& token == jwt_encoding(user_id, role.spec_name(), issued + TOKEN_LIFETIME_SECONDS, secret)
    &&& jwt_claims(token, secret) == Some(
        (user_id, role.spec_name(), issued + TOKEN_LIFETIME_SECONDS),
    )
}

/// Issues a token for `user_id` with `role`, expiring a day from the current time.
pub fn create_token(user_id: i64, role: Role, secret: &str) -> (r: Result<String, AppError>)
    ensures
        r matches Ok(t) && exists|issued: int|
            #[trigger] token_issued_at(t@, user_id as int, role, secret@, issued),
{
    let now = now_seconds();
    let r = create_token_at(user_id, role, secret, now);
    assert(r matches Ok(t) && token_issued_at(t@, user_id as int, role, secret@, now as int));
    r
}

/// Checks a token's signature and expiry at `now`. Every failure gives the same
/// `Unauthorized`, whatever its cause.
pub fn verify_token_at(token: &str, secret: &str, now: i64) -> (r: Result<Claims, AppError>)
    ensures
        match verified_claims(token@, secret@, now as int) {
            Some(c) => r matches Ok(claims) && claims.sub == c.0 && claims.role@ == c.1
                && claims.exp == c.2,
            None => r matches Err(AppError::Unauthorized),
        },
{
    match jwt_decode(token, secret) {
        Some((sub, role, exp)) => {
            if now < exp {
                Ok(Claims { sub, role, exp })
            } else {
                Err(AppError::Unauthorized)
            }
        },
        None => Err(AppError::Unauthorized),
    }
}

/// Checks a token's signature and expiry at the current time.
pub fn verify_token(token: &str, secret: &str) -> (r: Result<Claims, AppError>)
    ensures
        r is Err ==> r matches Err(AppError::Unauthorized),
        jwt_claims(token@, secret@) is None ==> r is Err,
        r matches Ok(claims) ==> jwt_claims(token@, secret@) == Some(
            (claims.sub as int, claims.role@, claims.exp as int),
        ),
{
    let now = now_seconds();
    verify_token_at(token, secret, now)
}

/// A token issued at `issued` verifies, with the claims it was issued with, at every
/// instant before its expiry (from the instant of issuance on), and fails at and
/// after the expiry instant.
pub proof fn lemma_token_valid_until_expiry(
    token: Seq<char>,
    secret: Seq<char>,
    user_id: int,
    role: Role,
    issued: int,
    at: int,
)
    requires
        jwt_claims(token, secret) == Some(
            (user_id, role.spec_name(), issued + TOKEN_LIFETIME_SECONDS),
        ),
    ensures
        at < issued + TOKEN_LIFETIME_SECONDS ==> verified_claims(token, secret, at) == Some(
            (user_id, role.spec_name(), issued + TOKEN_LIFETIME_SECONDS),
        ),
        issued <= at < issued + TOKEN_LIFETIME_SECONDS ==> verified_claims(token, secret, at) is Some,
        at >= issued + TOKEN_LIFETIME_SECONDS ==> verified_claims(token, secret, at) is None,
        Role::spec_parse(role.spec_name()) == Some(role),
{
    crate::models::lemma_role_name_parses(role);
}

} // verus!
