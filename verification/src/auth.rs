//! Registration and login: password hashing with bcrypt, the login
//! decision and the token claims.

use vstd::prelude::*;

use crate::errors::ApiError;
use crate::text::str_eq;

verus! {

/// The verdict of `bcrypt::verify` on a password and a stored hash (`None`
/// when the hash cannot be read).
pub uninterp spec fn bcrypt_verify(password: Seq<char>, hash: Seq<char>) -> Option<bool>;

/// Hashes a password with `bcrypt::hash` at the default cost.
/// Claimed: the salt is random, so only that the hash, when produced,
/// verifies the password.
#[verifier::external_body]
fn bcrypt_hash(password: &str) -> (res: Option<String>)
    ensures
        res matches Some(h) ==> bcrypt_verify(password@, h@) == Some(true),
{
    bcrypt::hash(password, bcrypt::DEFAULT_COST).ok()
}

/// Checks a password against a stored hash with `bcrypt::verify`.
/// Claimed: the result is the named verdict.
#[verifier::external_body]
fn bcrypt_check(password: &str, hash: &str) -> (res: Option<bool>)
    ensures
        res == bcrypt_verify(password@, hash@),
{
    bcrypt::verify(password, hash).ok()
}

/// The hash stored for a new user's password; the hashing failing is an
/// internal error. A stored hash always verifies the password it came from.
pub fn hash_password(password: &str) -> (res: Result<String, ApiError>)
    ensures
        res matches Err(e) ==> e == ApiError::Internal,
        res matches Ok(h) ==> bcrypt_verify(password@, h@) == Some(true),
{
    match bcrypt_hash(password) {
        Some(h) => Ok(h),
        None => Err(ApiError::Internal),
    }
}

/// The error for a failed user insertion: the email is taken when the
/// unique constraint on emails was violated, otherwise it is internal.
pub fn registration_error(violated_constraint: Option<&str>) -> (res: ApiError)
    ensures
        res == if violated_constraint matches Some(c) && c@ == "users_email_key"@ {
            ApiError::EmailAlreadyExists
        } else {
            ApiError::Internal
        },
{
    match violated_constraint {
        Some(c) => if str_eq(c, "users_email_key") {
            ApiError::EmailAlreadyExists
        } else {
            ApiError::Internal
        },
        None => ApiError::Internal,
    }
}

/// A stored user, as far as logging in reads it.
#[derive(Debug, Clone)]
pub struct LoginUser {
    pub id: i32,
    pub password_hash: String,
}

/// The claims of a session token: the user and the expiry (seconds since
/// the epoch).
#[derive(Debug, Clone, Copy, PartialEq, Eq)]
pub struct Claims {
    pub sub: i32,
    pub exp: i64,
}

/// How long a session token lasts, in seconds (24 hours).
pub const TOKEN_LIFETIME_SECS: i64 = 86_400;

/// The outcome of a login attempt with the user found by email (if any), a
/// password and the current time.
pub open spec fn login_outcome(user: Option<LoginUser>, password: Seq<char>, now: i64) -> Result<Claims, ApiError> {
    match user {
        None => Err(ApiError::InvalidCredentials),
        Some(u) => match bcrypt_verify(password, u.password_hash@) {
            None => Err(ApiError::Internal),
            Some(false) => Err(ApiError::InvalidCredentials),
            Some(true) => Ok(Claims { sub: u.id, exp: (now + TOKEN_LIFETIME_SECS) as i64 }),
        },
    }
}

/// Decides a login attempt: an unknown email or a wrong password are invalid
/// credentials, an unreadable stored hash is an internal error, and a match
/// gives the claims of a token for the user expiring in 24 hours.
pub fn check_login(user: Option<LoginUser>, password: &str, now: i64) -> (res: Result<Claims, ApiError>)
    requires
        now <= i64::MAX - TOKEN_LIFETIME_SECS,
    ensures
        res == login_outcome(user, password@, now),
{
    match user {
        None => Err(ApiError::InvalidCredentials),
        Some(u) => match bcrypt_check(password, u.password_hash.as_str()) {
            None => Err(ApiError::Internal),
            Some(false) => Err(ApiError::InvalidCredentials),
            Some(true) => Ok(Claims { sub: u.id, exp: now + TOKEN_LIFETIME_SECS }),
        },
    }
}

/// A user whose stored hash came from registering with a password logs in
/// with that password, and gets a token for themself that expires 24 hours
/// later.
pub proof fn registered_password_logs_in(user: LoginUser, password: Seq<char>, now: i64)
    requires
        bcrypt_verify(password, user.password_hash@) == Some(true),
        now <= i64::MAX - TOKEN_LIFETIME_SECS,
    ensures
        login_outcome(Some(user), password, now) == Ok::<Claims, ApiError>(
            Claims { sub: user.id, exp: (now + TOKEN_LIFETIME_SECS) as i64 },
        ),
{
}

} // verus!
