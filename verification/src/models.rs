//! Data model of the login subsystem: the durable user record, the
//! ephemeral provider profile, and the wire-level request and response
//! shapes of the four boundary operations.

use vstd::prelude::*;

verus! {

/// A durably stored end user. Created exactly once per provider subject
/// and immutable thereafter; `id` is the internal identifier, `google_sub`
/// the stable identity the provider assigned.
#[derive(Debug)]
pub struct User {
    pub id: u64,
    pub google_sub: String,
    pub email: String,
    pub created_at: u64,
}

impl Clone for User {
    /// A field-for-field copy.
    fn clone(&self) -> (r: Self)
        ensures
            r == *self,
    {
        User {
            id: self.id,
            google_sub: self.google_sub.clone(),
            email: self.email.clone(),
            created_at: self.created_at,
        }
    }
}

/// The fields of a user record that the caller supplies on creation.
#[derive(Debug, Clone)]
pub struct NewUser {
    pub google_sub: String,
    pub email: String,
}

/// The ephemeral profile fetched from the provider per callback; used only
/// to resolve or create a [`User`], never persisted.
#[derive(Debug)]
pub struct GoogleUserInfo {
    pub sub: String,
    pub email: String,
}

impl Clone for GoogleUserInfo {
    /// A field-for-field copy.
    fn clone(&self) -> (r: Self)
        ensures
            r == *self,
    {
        GoogleUserInfo { sub: self.sub.clone(), email: self.email.clone() }
    }
}

/// Response of the login-start operation.
#[derive(Debug)]
pub struct AuthUrlResponse {
    pub auth_url: String,
}

/// Query parameters the provider sends back on the callback. The
/// anti-forgery `state` is accepted but not validated against the value
/// issued at login-start; see the design notes on CSRF state.
#[derive(Debug)]
pub struct OAuthCallbackQuery {
    pub code: String,
    pub state: Option<String>,
}

/// Successful callback result: a signed bearer credential and a
/// server-side session handle, two independent proofs of authentication.
#[derive(Debug)]
pub struct AuthTokens {
    pub access_token: String,
    pub session_id: String,
}

/// Successful session-restore result.
#[derive(Debug)]
pub struct SessionRestoreResponse {
    pub user: User,
}

/// Successful token-verify result.
#[derive(Debug)]
pub struct VerifyTokenResponse {
    pub user_id: String,
}

/// Query parameter of the verify operation.
#[derive(Debug)]
pub struct VerifyTokenQuery {
    pub token: String,
}

/// Query parameter of the session-restore operation.
#[derive(Debug)]
pub struct RestoreSessionQuery {
    pub session_id: String,
}

/// The claims carried by a bearer credential: the subject (a user id in
/// string form) and the expiry as seconds since the epoch.
#[derive(Debug, Clone)]
pub struct Claims {
    pub sub: String,
    pub exp: u64,
}

} // verus!
