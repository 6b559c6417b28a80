//! The login stub. No credentials are validated: the endpoint issues a
//! fixed development identity whose claims are computed here; signing the
//! token is the boundary's job. This is a placeholder, not a security
//! feature.

use vstd::prelude::*;

verus! {

/// Hours a development token stays valid.
pub const DEV_TOKEN_EXPIRY_HOURS: i64 = 24;

/// The claims carried by an issued token.
#[derive(Debug)]
pub struct Claims {
    pub sub: String,
    pub exp: i64,
    pub iat: i64,
}

/// The body of a login request; currently ignored beyond its shape.
#[derive(Debug)]
pub struct LoginRequest {
    pub username: String,
    pub password: String,
}

/// The body of a login response: the signed token and its validity in
/// seconds.
#[derive(Debug)]
pub struct LoginResponse {
    pub token: String,
    pub expires_in: i64,
}

/// The claims of the fixed development identity, issued at the given
/// instant and expiring the given number of hours later. Absent only when
/// the expiry would overflow the timestamp range.
pub fn make_claims(now: i64, expiry_hours: i64) -> (r: Option<Claims>)
    ensures
        (r is Some) == (i64::MIN <= expiry_hours * 3600 <= i64::MAX && i64::MIN <= now
            + expiry_hours * 3600 <= i64::MAX),
        r matches Some(c) ==> c.sub@ == "dev-user"@ && c.iat == now && c.exp == now + expiry_hours
            * 3600,
{
    match expiry_hours.checked_mul(3600) {
        Some(secs) => match now.checked_add(secs) {
            Some(exp) => Some(Claims { sub: "dev-user".to_owned(), exp, iat: now }),
            None => None,
        },
        None => None,
    }
}

/// Seconds a token issued with the given expiry stays valid; absent only on
/// overflow.
pub fn token_lifetime_seconds(expiry_hours: i64) -> (r: Option<i64>)
    ensures
        (r is Some) == (i64::MIN <= expiry_hours * 3600 <= i64::MAX),
        r matches Some(s) ==> s == expiry_hours * 3600,
{
    expiry_hours.checked_mul(3600)
}

/// Assembles the login response around the signed token.
pub fn make_login_response(token: String, expires_in: i64) -> (r: LoginResponse)
    ensures
        r.token@ == token@,
        r.expires_in == expires_in,
{
    LoginResponse { token, expires_in }
}

} // verus!
