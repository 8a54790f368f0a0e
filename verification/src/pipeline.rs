//! The callback pipeline: `Initiated → CodeExchanged → ProfileFetched →
//! UserResolved → SessionOpened → TokenIssued`, with an early-failure exit
//! at every transition. User resolution owns the duplicate fallback: an
//! absent subject is created, and an insert that reports a conflict —
//! another caller got there first — falls back to one more lookup.
//!
//! The machine owns the sequencing and the failure taxonomy; the outside
//! work itself — the network calls, the repository write, the store write,
//! the signing — is performed by a driver, which feeds each outcome back
//! as an event and receives the next action to perform. Exactly one
//! failure kind belongs to each step.

use vstd::prelude::*;

use crate::errors::AuthError;
use crate::models::{AuthTokens, GoogleUserInfo, OAuthCallbackQuery, User};

verus! {

/// How fetching the provider profile fails: transport or schema.
#[derive(Debug, Clone, Copy, PartialEq, Eq, Structural)]
pub enum ProfileFailure {
    Fetch,
    Parse,
}

/// How the repository insert fails below the storage boundary.
#[derive(Debug, Clone, Copy, PartialEq, Eq, Structural)]
pub enum CreateFailure {
    /// The uniqueness constraint on the provider subject fired.
    Duplicate,
    /// The backing store itself failed.
    Backend,
}

/// How opening a session fails: reaching the store, or writing to it.
#[derive(Debug, Clone, Copy, PartialEq, Eq, Structural)]
pub enum SessionFailure {
    Connect,
    Create,
}

/// What the pipeline has established so far.
#[derive(Debug)]
pub enum CallbackStage {
    Initiated,
    CodeExchanged { provider_token: String },
    ProfileFetched { profile: GoogleUserInfo },
    UserUnmatched { profile: GoogleUserInfo },
    CreateConflicted { profile: GoogleUserInfo },
    UserResolved { user: User },
    SessionOpened { user: User, session_id: String },
    TokenIssued { tokens: AuthTokens },
}

/// The one piece of outside work the driver must perform next.
#[derive(Debug)]
pub enum CallbackAction {
    ExchangeCode { code: String },
    FetchProfile { provider_token: String },
    FindUser { profile: GoogleUserInfo },
    CreateUser { profile: GoogleUserInfo },
    RefindUser { profile: GoogleUserInfo },
    OpenSession { user_id: u64 },
    IssueToken { user_id: u64 },
    Finish { tokens: AuthTokens },
}

/// The outcome of the action the driver just performed.
#[derive(Debug)]
pub enum CallbackEvent {
    CodeExchangeOutcome { result: Result<String, ()> },
    ProfileOutcome { result: Result<GoogleUserInfo, ProfileFailure> },
    FindOutcome { result: Result<Option<User>, ()> },
    CreateOutcome { result: Result<User, CreateFailure> },
    RefindOutcome { result: Result<Option<User>, ()> },
    SessionOutcome { result: Result<String, SessionFailure> },
    TokenOutcome { result: Result<String, ()> },
}

/// The event kinds each stage is prepared to receive.
pub open spec fn compatible(stage: CallbackStage, event: CallbackEvent) -> bool {
    match (stage, event) {
        (CallbackStage::Initiated, CallbackEvent::CodeExchangeOutcome { .. }) => true,
        (CallbackStage::CodeExchanged { .. }, CallbackEvent::ProfileOutcome { .. }) => true,
        (CallbackStage::ProfileFetched { .. }, CallbackEvent::FindOutcome { .. }) => true,
        (CallbackStage::UserUnmatched { .. }, CallbackEvent::CreateOutcome { .. }) => true,
        (CallbackStage::CreateConflicted { .. }, CallbackEvent::RefindOutcome { .. }) => true,
        (CallbackStage::UserResolved { .. }, CallbackEvent::SessionOutcome { .. }) => true,
        (CallbackStage::SessionOpened { .. }, CallbackEvent::TokenOutcome { .. }) => true,
        _ => false,
    }
}

/// The transition relation of the pipeline: each success carries its data
/// into the next stage and names the next action; each failure
/// short-circuits with the one error kind of that step.
pub open spec fn step_spec(stage: CallbackStage, event: CallbackEvent) -> Result<
    (CallbackStage, CallbackAction),
    AuthError,
> {
    match (stage, event) {
        (CallbackStage::Initiated, CallbackEvent::CodeExchangeOutcome { result }) => match result {
            Ok(tok) => Ok(
                (
                    CallbackStage::CodeExchanged { provider_token: tok },
                    CallbackAction::FetchProfile { provider_token: tok },
                ),
            ),
            Err(_) => Err(AuthError::TokenExchangeError),
        },
        (CallbackStage::CodeExchanged { .. }, CallbackEvent::ProfileOutcome { result }) => match result {
            Ok(p) => Ok(
                (
                    CallbackStage::ProfileFetched { profile: p },
                    CallbackAction::FindUser { profile: p },
                ),
            ),
            Err(ProfileFailure::Fetch) => Err(AuthError::ProfileFetchError),
            Err(ProfileFailure::Parse) => Err(AuthError::ProfileParseError),
        },
        (CallbackStage::ProfileFetched { profile }, CallbackEvent::FindOutcome { result }) => match result {
            Ok(Some(u)) => Ok(
                (
                    CallbackStage::UserResolved { user: u },
                    CallbackAction::OpenSession { user_id: u.id },
                ),
            ),
            Ok(None) => Ok(
                (
                    CallbackStage::UserUnmatched { profile },
                    CallbackAction::CreateUser { profile },
                ),
            ),
            Err(_) => Err(AuthError::RepositoryLookupError),
        },
        (CallbackStage::UserUnmatched { profile }, CallbackEvent::CreateOutcome { result }) => match result {
            Ok(u) => Ok(
                (
                    CallbackStage::UserResolved { user: u },
                    CallbackAction::OpenSession { user_id: u.id },
                ),
            ),
            Err(CreateFailure::Duplicate) => Ok(
                (
                    CallbackStage::CreateConflicted { profile },
                    CallbackAction::RefindUser { profile },
                ),
            ),
            Err(CreateFailure::Backend) => Err(AuthError::RepositoryCreateError),
        },
        (CallbackStage::CreateConflicted { .. }, CallbackEvent::RefindOutcome { result }) => match result {
            Ok(Some(u)) => Ok(
                (
                    CallbackStage::UserResolved { user: u },
                    CallbackAction::OpenSession { user_id: u.id },
                ),
            ),
            Ok(None) => Err(AuthError::RepositoryLookupError),
            Err(_) => Err(AuthError::RepositoryLookupError),
        },
        (CallbackStage::UserResolved { user }, CallbackEvent::SessionOutcome { result }) => match result {
            Ok(sid) => Ok(
                (
                    CallbackStage::SessionOpened { user, session_id: sid },
                    CallbackAction::IssueToken { user_id: user.id },
                ),
            ),
            Err(SessionFailure::Connect) => Err(AuthError::SessionStoreConnectError),
            Err(SessionFailure::Create) => Err(AuthError::SessionCreateError),
        },
        (
            CallbackStage::SessionOpened { user, session_id },
            CallbackEvent::TokenOutcome { result },
        ) => match result {
            Ok(tok) => Ok(
                (
                    CallbackStage::TokenIssued {
                        tokens: AuthTokens { access_token: tok, session_id },
                    },
                    CallbackAction::Finish {
                        tokens: AuthTokens { access_token: tok, session_id },
                    },
                ),
            ),
            Err(_) => Err(AuthError::TokenIssueError),
        },
        _ => arbitrary(),
    }
}

/// Enters the pipeline: the provider has redirected back with a one-time
/// code, and the first piece of outside work is to exchange it. The
/// anti-forgery `state` the query may carry is accepted unvalidated.
pub fn begin_callback(query: OAuthCallbackQuery) -> (r: (CallbackStage, CallbackAction))
    ensures
        r.0 == CallbackStage::Initiated,
        r.1 == (CallbackAction::ExchangeCode { code: query.code }),
{
    (CallbackStage::Initiated, CallbackAction::ExchangeCode { code: query.code })
}

/// Performs one transition of the pipeline.
pub fn callback_step(stage: CallbackStage, event: CallbackEvent) -> (r: Result<
    (CallbackStage, CallbackAction),
    AuthError,
>)
    requires
        compatible(stage, event),
    ensures
        r == step_spec(stage, event),
{
    match (stage, event) {
        (CallbackStage::Initiated, CallbackEvent::CodeExchangeOutcome { result }) => match result {
            Ok(tok) => Ok(
                (
                    CallbackStage::CodeExchanged { provider_token: tok.clone() },
                    CallbackAction::FetchProfile { provider_token: tok },
                ),
            ),
            Err(_) => Err(AuthError::TokenExchangeError),
        },
        (CallbackStage::CodeExchanged { .. }, CallbackEvent::ProfileOutcome { result }) => match result {
            Ok(p) => Ok(
                (
                    CallbackStage::ProfileFetched { profile: p.clone() },
                    CallbackAction::FindUser { profile: p },
                ),
            ),
            Err(ProfileFailure::Fetch) => Err(AuthError::ProfileFetchError),
            Err(ProfileFailure::Parse) => Err(AuthError::ProfileParseError),
        },
        (CallbackStage::ProfileFetched { profile }, CallbackEvent::FindOutcome { result }) => match result {
            Ok(Some(u)) => {
                let user_id = u.id;
                Ok(
                    (
                        CallbackStage::UserResolved { user: u },
                        CallbackAction::OpenSession { user_id },
                    ),
                )
            },
            Ok(None) => Ok(
                (
                    CallbackStage::UserUnmatched { profile: profile.clone() },
                    CallbackAction::CreateUser { profile },
                ),
            ),
            Err(_) => Err(AuthError::RepositoryLookupError),
        },
        (CallbackStage::UserUnmatched { profile }, CallbackEvent::CreateOutcome { result }) => match result {
            Ok(u) => {
                let user_id = u.id;
                Ok(
                    (
                        CallbackStage::UserResolved { user: u },
                        CallbackAction::OpenSession { user_id },
                    ),
                )
            },
            Err(CreateFailure::Duplicate) => Ok(
                (
                    CallbackStage::CreateConflicted { profile: profile.clone() },
                    CallbackAction::RefindUser { profile },
                ),
            ),
            Err(CreateFailure::Backend) => Err(AuthError::RepositoryCreateError),
        },
        (CallbackStage::CreateConflicted { .. }, CallbackEvent::RefindOutcome { result }) => match result {
            Ok(Some(u)) => {
                let user_id = u.id;
                Ok(
                    (
                        CallbackStage::UserResolved { user: u },
                        CallbackAction::OpenSession { user_id },
                    ),
                )
            },
            Ok(None) => Err(AuthError::RepositoryLookupError),
            Err(_) => Err(AuthError::RepositoryLookupError),
        },
        (CallbackStage::UserResolved { user }, CallbackEvent::SessionOutcome { result }) => match result {
            Ok(sid) => {
                let user_id = user.id;
                Ok(
                    (
                        CallbackStage::SessionOpened { user, session_id: sid },
                        CallbackAction::IssueToken { user_id },
                    ),
                )
            },
            Err(SessionFailure::Connect) => Err(AuthError::SessionStoreConnectError),
            Err(SessionFailure::Create) => Err(AuthError::SessionCreateError),
        },
        (
            CallbackStage::SessionOpened { user: _, session_id },
            CallbackEvent::TokenOutcome { result },
        ) => match result {
            Ok(tok) => Ok(
                (
                    CallbackStage::TokenIssued {
                        tokens: AuthTokens {
                            access_token: tok.clone(),
                            session_id: session_id.clone(),
                        },
                    },
                    CallbackAction::Finish {
                        tokens: AuthTokens { access_token: tok, session_id },
                    },
                ),
            ),
            Err(_) => Err(AuthError::TokenIssueError),
        },
        _ => {
            proof {
                assert(false);
            }
            Err(AuthError::ProviderConfigError)
        },
    }
}

} // verus!
