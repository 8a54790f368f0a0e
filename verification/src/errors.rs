//! The failure taxonomy of the login subsystem.
//!
//! Every step of the callback pipeline and of the read-only flows reports
//! exactly one of these kinds; none is retried by the core, and each maps
//! to one stable wire code.

use vstd::prelude::*;

verus! {

/// One failure kind per pipeline step or lookup path.
#[derive(Debug, Clone, Copy, PartialEq, Eq, Structural)]
pub enum AuthError {
    /// The identity-provider client configuration is not well-formed.
    ProviderConfigError,
    /// The authorization-code-for-token exchange failed.
    TokenExchangeError,
    /// The provider's profile endpoint could not be reached.
    ProfileFetchError,
    /// The provider's profile payload did not match the expected schema.
    ProfileParseError,
    /// A repository point lookup failed below the storage boundary.
    RepositoryLookupError,
    /// A repository insert failed below the storage boundary.
    RepositoryCreateError,
    /// The session store could not be reached.
    SessionStoreConnectError,
    /// Writing a new session failed.
    SessionCreateError,
    /// Reading a session failed.
    SessionRestoreError,
    /// Signing a bearer credential failed.
    TokenIssueError,
    /// A bearer credential failed signature or expiry validation.
    InvalidTokenError,
    /// The session handle is expired or was never issued.
    SessionNotFound,
    /// A point lookup found no user record for an internal id. The
    /// restore flow reports such a miss uniformly as `SessionNotFound`;
    /// this kind stands for embedders' direct lookups.
    UserNotFound,
}

impl AuthError {
    /// The stable code under which this kind appears in an error payload.
    pub fn code(&self) -> (r: &'static str)
        ensures
            r@ == self.code_spec(),
    {
        match self {
            AuthError::ProviderConfigError => "oauth_client_error",
            AuthError::TokenExchangeError => "oauth_token_exchange_failed",
            AuthError::ProfileFetchError => "user_info_fetch_failed",
            AuthError::ProfileParseError => "user_info_parse_failed",
            AuthError::RepositoryLookupError => "user_lookup_failed",
            AuthError::RepositoryCreateError => "user_create_failed",
            AuthError::SessionStoreConnectError => "redis_connection_failed",
            AuthError::SessionCreateError => "session_creation_failed",
            AuthError::SessionRestoreError => "session_restore_failed",
            AuthError::TokenIssueError => "jwt_issue_failed",
            AuthError::InvalidTokenError => "invalid_token",
            AuthError::SessionNotFound => "session_not_found",
            AuthError::UserNotFound => "user_not_found",
        }
    }

    pub open spec fn code_spec(self) -> Seq<char> {
        match self {
            AuthError::ProviderConfigError => "oauth_client_error"@,
            AuthError::TokenExchangeError => "oauth_token_exchange_failed"@,
            AuthError::ProfileFetchError => "user_info_fetch_failed"@,
            AuthError::ProfileParseError => "user_info_parse_failed"@,
            AuthError::RepositoryLookupError => "user_lookup_failed"@,
            AuthError::RepositoryCreateError => "user_create_failed"@,
            AuthError::SessionStoreConnectError => "redis_connection_failed"@,
            AuthError::SessionCreateError => "session_creation_failed"@,
            AuthError::SessionRestoreError => "session_restore_failed"@,
            AuthError::TokenIssueError => "jwt_issue_failed"@,
            AuthError::InvalidTokenError => "invalid_token"@,
            AuthError::SessionNotFound => "session_not_found"@,
            AuthError::UserNotFound => "user_not_found"@,
        }
    }
}

} // verus!
