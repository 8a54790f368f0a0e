//! The four boundary operations: login-start, callback, verify, and
//! session-restore.
//!
//! The callback here is the full pipeline run against the in-memory
//! backends, taking the two provider-network outcomes as arguments; a
//! networked embedding drives the same sequence through the state machine
//! in the pipeline module, performing each outside call itself.

use vstd::prelude::*;

use crate::config::Settings;
use crate::errors::AuthError;
use crate::jwt::{
    hs256_claims_of, hs256_sig_valid, hs256_token_of, issue_at, verify_jwt, TOKEN_TTL_SECONDS,
};
use crate::models::{
    AuthTokens, AuthUrlResponse, GoogleUserInfo, RestoreSessionQuery, SessionRestoreResponse,
    User, VerifyTokenQuery, VerifyTokenResponse,
};
use crate::oauth::{
    form_encoded_of, fresh_csrf_state, google_auth_url_of, google_authorize_url, parses_as_url,
    plain_uri, simple_https_url, url_safe,
};
use crate::pipeline::ProfileFailure;
use crate::repository::{resolve_transition, resolve_user, RepoError, UserRepository};
use crate::sessions::{restore_of, MemorySessionStore, SESSION_TTL_SECONDS};
use crate::strutil::{contains_seq, dec_of};

verus! {

/// Login-start: builds the provider authorization URL for the configured
/// client, under a fresh random anti-forgery state. Succeeds exactly when
/// the configured redirect URI is a well-formed URL — a simple
/// letter-led `https://host/path` redirect always is — and the one
/// failure kind is the configuration error. The URL starts at the provider's fixed
/// authorization endpoint, requests the code response type and the scopes
/// `openid email profile`, and carries the configured client id and the
/// encoded redirect URI; the client secret never appears in it.
pub fn google_login(settings: &Settings) -> (r: Result<AuthUrlResponse, AuthError>)
    ensures
        r is Ok <==> parses_as_url(settings.google_redirect_url@),
        simple_https_url(settings.google_redirect_url@) ==> r is Ok,
        r matches Ok(resp) ==> exists|st: Seq<char>|
            resp.auth_url@ == #[trigger] google_auth_url_of(
                settings.google_client_id@,
                settings.google_redirect_url@,
                st,
            ),
        r matches Ok(resp)
            ==> "https://accounts.google.com/o/oauth2/v2/auth?response_type=code&"@.is_prefix_of(
            resp.auth_url@,
        ),
        r matches Ok(resp) ==> contains_seq(resp.auth_url@, "&scope=openid+email+profile"@),
        r matches Ok(resp) ==> url_safe(settings.google_client_id@) ==> contains_seq(
            resp.auth_url@,
            "&client_id="@ + settings.google_client_id@ + "&"@,
        ),
        r matches Ok(resp) ==> plain_uri(settings.google_redirect_url@) ==> contains_seq(
            resp.auth_url@,
            "&redirect_uri="@ + form_encoded_of(settings.google_redirect_url@) + "&"@,
        ),
        r matches Err(e) ==> e == AuthError::ProviderConfigError,
{
    let state = fresh_csrf_state();
    let ghost st = state@;
    match google_authorize_url(
        settings.google_client_id.as_str(),
        settings.google_client_secret.as_str(),
        settings.google_redirect_url.as_str(),
        state,
    ) {
        Ok(url) => {
            proof {
                assert(url@ == google_auth_url_of(
                    settings.google_client_id@,
                    settings.google_redirect_url@,
                    st,
                ));
            }
            Ok(AuthUrlResponse { auth_url: url })
        },
        Err(_) => Err(AuthError::ProviderConfigError),
    }
}

/// Callback: exchanges the code, fetches the profile, resolves or creates
/// the user, opens a session and issues the bearer credential — both the
/// session and the credential expire one day past the instant `now` —
/// stopping at the first failing step with that step's one error kind.
/// The two provider-network outcomes arrive as arguments; the repository
/// and session store are the injected backends. No rollback: a user that
/// was written before a later step failed stays written.
pub fn google_callback<R: UserRepository>(
    repo: &mut R,
    sessions: &mut MemorySessionStore,
    exchange: Result<String, ()>,
    profile: Result<GoogleUserInfo, ProfileFailure>,
    jwt_secret: &str,
    now: u64,
) -> (r: Result<AuthTokens, AuthError>)
    requires
        old(repo).inv(),
        now <= u64::MAX - SESSION_TTL_SECONDS,
    ensures
        final(repo).inv(),
        exchange is Err ==> r == Err::<AuthTokens, AuthError>(AuthError::TokenExchangeError)
            && final(repo).model() == old(repo).model() && final(sessions).model() == old(
            sessions,
        ).model(),
        exchange is Ok ==> (profile matches Err(f) ==> r == Err::<AuthTokens, AuthError>(
            if f is Fetch {
                AuthError::ProfileFetchError
            } else {
                AuthError::ProfileParseError
            },
        ) && final(repo).model() == old(repo).model() && final(sessions).model() == old(
            sessions,
        ).model()),
        exchange is Ok ==> (profile matches Ok(p) ==> match r {
            Ok(t) => exists|u: User|
                {
                    &&& #[trigger] resolve_transition(
                        old(repo).model(),
                        final(repo).model(),
                        p.sub@,
                        p.email@,
                        now,
                        Ok(u),
                    )
                    &&& final(sessions).model() == old(sessions).model().insert(
                        t.session_id@,
                        (u.id, (now + SESSION_TTL_SECONDS) as u64),
                    )
                    &&& t.access_token@ == hs256_token_of(
                        dec_of(u.id as nat),
                        (now + TOKEN_TTL_SECONDS) as u64,
                        jwt_secret@,
                    )
                    &&& hs256_sig_valid(t.access_token@, jwt_secret@)
                },
            Err(e) => (e == AuthError::RepositoryLookupError || e
                == AuthError::RepositoryCreateError) && resolve_transition(
                old(repo).model(),
                final(repo).model(),
                p.sub@,
                p.email@,
                now,
                Err(e),
            ) && final(sessions).model() == old(sessions).model(),
        }),
{
    let provider_token = match exchange {
        Ok(tok) => tok,
        Err(_) => {
            return Err(AuthError::TokenExchangeError);
        },
    };
    let info = match profile {
        Ok(p) => p,
        Err(ProfileFailure::Fetch) => {
            return Err(AuthError::ProfileFetchError);
        },
        Err(ProfileFailure::Parse) => {
            return Err(AuthError::ProfileParseError);
        },
    };
    let user = match resolve_user(repo, info, now) {
        Ok(u) => u,
        Err(e) => {
            return Err(e);
        },
    };
    let session_id = sessions.create_session(user.id, now);
    let access_token = issue_at(user.id, now, jwt_secret);
    Ok(AuthTokens { access_token, session_id })
}

/// Verify: validates a bearer credential and returns the subject it
/// carries; every rejection is the single kind `InvalidTokenError`, and
/// acceptance entails a signature valid under the configured secret.
/// Every accepted token, whoever issued it, answers with exactly the
/// subject claim its payload spells; for a token the codec issued for
/// user id `u` that is `u`'s decimal subject. Stateless: no repository or
/// session-store call is involved.
pub fn verify_token(query: &VerifyTokenQuery, jwt_secret: &str) -> (r: Result<
    VerifyTokenResponse,
    AuthError,
>)
    ensures
        r matches Err(e) ==> e == AuthError::InvalidTokenError,
        r is Ok ==> hs256_sig_valid(query.token@, jwt_secret@),
        r matches Ok(resp) ==> resp.user_id@ == hs256_claims_of(query.token@).0,
        forall|sub: Seq<char>, exp: u64|
            r matches Ok(resp) ==> query.token@ == #[trigger] hs256_token_of(
                sub,
                exp,
                jwt_secret@,
            ) ==> resp.user_id@ == sub,
{
    match verify_jwt(query.token.as_str(), jwt_secret) {
        Ok(claims) => Ok(VerifyTokenResponse { user_id: claims.sub }),
        Err(_) => Err(AuthError::InvalidTokenError),
    }
}

/// The restore decision over the user-lookup outcome: a found record is
/// the response, a successful lookup that finds no record is the uniform
/// not-found, and only a failed lookup is the lookup error.
pub open spec fn restore_decision_spec(user: Result<Option<User>, RepoError>) -> Result<
    SessionRestoreResponse,
    AuthError,
> {
    match user {
        Ok(Some(u)) => Ok(SessionRestoreResponse { user: u }),
        Ok(None) => Err(AuthError::SessionNotFound),
        Err(_) => Err(AuthError::RepositoryLookupError),
    }
}

/// Decides the restore outcome from the user lookup's result, whatever
/// the backing store answered.
pub fn restore_decision(user: Result<Option<User>, RepoError>) -> (r: Result<
    SessionRestoreResponse,
    AuthError,
>)
    ensures
        r == restore_decision_spec(user),
{
    match user {
        Ok(Some(u)) => Ok(SessionRestoreResponse { user: u }),
        Ok(None) => Err(AuthError::SessionNotFound),
        Err(_) => Err(AuthError::RepositoryLookupError),
    }
}

/// Session-restore: resolves a handle to its live session and loads the
/// owning user record. Every miss is the single kind `SessionNotFound`,
/// uniformly: a handle that expired, one that was never issued, and a
/// live session whose user record is gone are indistinguishable to the
/// caller. The per-outcome decision over the user lookup is
/// [`restore_decision`].
pub fn restore_session<R: UserRepository>(
    repo: &R,
    sessions: &MemorySessionStore,
    query: &RestoreSessionQuery,
    now: u64,
) -> (r: Result<SessionRestoreResponse, AuthError>)
    requires
        repo.inv(),
    ensures
        match restore_of(sessions.model(), query.session_id@, now) {
            None => r == Err::<SessionRestoreResponse, AuthError>(AuthError::SessionNotFound),
            Some(uid) => match r {
                Ok(resp) => resp.user.id == uid && repo.model().contains_key(resp.user.google_sub@)
                    && repo.model()[resp.user.google_sub@] == resp.user,
                Err(e) => (e == AuthError::SessionNotFound || e
                    == AuthError::RepositoryLookupError) && (e == AuthError::SessionNotFound
                    ==> forall|s: Seq<char>|
                    #[trigger] repo.model().contains_key(s) ==> repo.model()[s].id != uid),
            },
        },
{
    let user_id = match sessions.restore_session(query.session_id.as_str(), now) {
        Some(uid) => uid,
        None => {
            return Err(AuthError::SessionNotFound);
        },
    };
    restore_decision(repo.get_user(user_id))
}

} // verus!

