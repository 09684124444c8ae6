//! Token claims and the request and response shapes of the
//! authentication boundary. Hashing and token signing live with the
//! surrounding application; the claims arithmetic is verified here.

use vstd::prelude::*;

verus! {

/// Seconds a freshly issued token stays valid: 24 hours.
pub const TOKEN_LIFETIME_SECS: i64 = 86_400;

/// Claims carried inside an access token.
#[derive(Debug)]
pub struct Claims {
    pub sub: String,
    pub user_id: i64,
    pub exp: i64,
}

impl Claims {
    /// Claims for a token issued at `issued_at` (seconds since the
    /// epoch): it expires one lifetime later.
    pub fn new(sub: String, user_id: i64, issued_at: i64) -> (r: Claims)
        requires
            issued_at + TOKEN_LIFETIME_SECS <= i64::MAX,
        ensures
            r.sub == sub,
            r.user_id == user_id,
            r.exp == issued_at + TOKEN_LIFETIME_SECS,
    {
        Claims { sub, user_id, exp: issued_at + TOKEN_LIFETIME_SECS }
    }

    /// Whether the claims have expired at time `now`.
    pub fn is_expired(&self, now: i64) -> (r: bool)
        ensures
            r == (self.exp <= now),
    {
        self.exp <= now
    }
}

/// Sign-up request.
#[derive(Debug)]
pub struct RegisterRequest {
    pub username: String,
    pub email: String,
    pub password: String,
}

/// Sign-in request.
#[derive(Debug)]
pub struct LoginRequest {
    pub email: String,
    pub password: String,
}

/// Issued token together with the account it belongs to.
#[derive(Debug)]
pub struct AuthResponse {
    pub token: String,
    pub user_id: i64,
    pub username: String,
}

/// Request to record a message.
#[derive(Debug)]
pub struct CreateMessageRequest {
    pub title: String,
    pub content: String,
    pub message_type: String,
    pub user_id: i64,
}

} // verus!
