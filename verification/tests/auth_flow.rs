use auth_core::config::Settings;
use auth_core::errors::AuthError;
use auth_core::handlers;
use auth_core::jwt::{create_jwt, issue_at, verify_jwt};
use auth_core::models::{GoogleUserInfo, NewUser, RestoreSessionQuery, User, VerifyTokenQuery};
use auth_core::pipeline::{
    begin_callback, callback_step, CallbackAction, CallbackEvent, CallbackStage, ProfileFailure,
};
use auth_core::handlers::restore_decision;
use auth_core::repository::{resolve_user, MemoryUserRepository, RepoError, UserRepository};
use auth_core::serialize::user_to_json;
use auth_core::sessions::MemorySessionStore;
use auth_core::models::OAuthCallbackQuery;

fn settings() -> Settings {
    Settings {
        server_addr: "127.0.0.1:0".to_string(),
        database_url: "postgres://localhost/auth".to_string(),
        google_client_id: "abc".to_string(),
        google_client_secret: "s3cr3t".to_string(),
        google_redirect_url: "https://app/cb".to_string(),
        jwt_secret: "test-signing-secret".to_string(),
        redis_url: "redis://localhost".to_string(),
    }
}

fn profile(sub: &str, email: &str) -> GoogleUserInfo {
    GoogleUserInfo {
        sub: sub.to_string(),
        email: email.to_string(),
    }
}

#[test]
fn in_memory_repository_round_trip() {
    let mut repo = MemoryUserRepository::new();
    let user = repo
        .create_user(
            NewUser {
                google_sub: "sub".to_string(),
                email: "user@example.com".to_string(),
            },
            1_700_000_000,
        )
        .expect("create user");

    let fetched = repo
        .find_by_google_sub("sub")
        .expect("find user")
        .expect("user exists");

    assert_eq!(user.id, fetched.id);
}

#[test]
fn duplicate_create_reports_conflict_and_changes_nothing() {
    let mut repo = MemoryUserRepository::new();
    let first = repo
        .create_user(
            NewUser {
                google_sub: "sub".to_string(),
                email: "a@example.com".to_string(),
            },
            1_700_000_000,
        )
        .expect("create user");
    let second = repo.create_user(
        NewUser {
            google_sub: "sub".to_string(),
            email: "b@example.com".to_string(),
        },
        1_700_000_001,
    );
    assert!(matches!(second, Err(RepoError::Duplicate)));
    let fetched = repo
        .find_by_google_sub("sub")
        .expect("find user")
        .expect("user exists");
    assert_eq!(fetched.id, first.id);
    assert_eq!(fetched.email, "a@example.com");
}

#[test]
fn repeated_resolution_converges_to_one_user() {
    let mut repo = MemoryUserRepository::new();
    let now = 1_700_000_000;
    let first = resolve_user(&mut repo, profile("sub-1", "u@example.com"), now).expect("resolve");
    let second =
        resolve_user(&mut repo, profile("sub-1", "u@example.com"), now + 1).expect("resolve");
    let third =
        resolve_user(&mut repo, profile("sub-1", "other@example.com"), now + 2).expect("resolve");
    assert_eq!(first.id, second.id);
    assert_eq!(first.id, third.id);
    assert_eq!(third.email, "u@example.com");
    assert_eq!(first.created_at, now);
}

#[test]
fn distinct_subjects_get_distinct_ids() {
    let mut repo = MemoryUserRepository::new();
    let mut ids = Vec::new();
    for i in 0..20 {
        let sub = format!("subject-{}", i);
        let u = resolve_user(&mut repo, profile(&sub, "u@example.com"), 1_700_000_000)
            .expect("resolve");
        assert!(!ids.contains(&u.id), "internal id repeated");
        ids.push(u.id);
    }
}

#[test]
fn session_round_trip_within_ttl() {
    let mut sessions = MemorySessionStore::new();
    let now = 1_700_000_000;
    let handle = sessions.create_session(42, now);
    assert_eq!(handle.len(), 36);
    assert_eq!(sessions.restore_session(&handle, now), Some(42));
    assert_eq!(sessions.restore_session(&handle, now + 86399), Some(42));
}

#[test]
fn session_miss_is_uniform_for_expired_and_never_issued() {
    let mut repo = MemoryUserRepository::new();
    let user =
        resolve_user(&mut repo, profile("sub-1", "u@example.com"), 1_700_000_000).expect("resolve");
    let mut sessions = MemorySessionStore::new();
    let now = 1_700_000_000;
    let handle = sessions.create_session(user.id, now);

    let expired = handlers::restore_session(
        &repo,
        &sessions,
        &RestoreSessionQuery {
            session_id: handle.clone(),
        },
        now + 86400,
    );
    let never_issued = handlers::restore_session(
        &repo,
        &sessions,
        &RestoreSessionQuery {
            session_id: "never-issued-handle".to_string(),
        },
        now,
    );
    assert!(matches!(expired, Err(AuthError::SessionNotFound)));
    assert!(matches!(never_issued, Err(AuthError::SessionNotFound)));
}

#[test]
fn restore_is_uniform_when_user_record_is_missing() {
    let repo = MemoryUserRepository::new();
    let mut sessions = MemorySessionStore::new();
    let now = 1_700_000_000;
    let handle = sessions.create_session(999, now);
    let r = handlers::restore_session(
        &repo,
        &sessions,
        &RestoreSessionQuery { session_id: handle },
        now,
    );
    assert!(matches!(r, Err(AuthError::SessionNotFound)));
}

#[test]
fn restore_decision_is_uniform_and_total() {
    let user = User {
        id: 4,
        google_sub: "sub-4".to_string(),
        email: "four@example.com".to_string(),
        created_at: 1_700_000_000,
    };
    let found = restore_decision(Ok(Some(user))).expect("found record");
    assert_eq!(found.user.id, 4);
    assert!(matches!(
        restore_decision(Ok(None)),
        Err(AuthError::SessionNotFound)
    ));
    assert!(matches!(
        restore_decision(Err(RepoError::Backend)),
        Err(AuthError::RepositoryLookupError)
    ));
}

#[test]
fn restore_returns_full_user_record() {
    let mut repo = MemoryUserRepository::new();
    let user = resolve_user(&mut repo, profile("sub-9", "nine@example.com"), 1_700_000_000)
        .expect("resolve");
    let mut sessions = MemorySessionStore::new();
    let now = 1_700_000_000;
    let handle = sessions.create_session(user.id, now);
    let r = handlers::restore_session(
        &repo,
        &sessions,
        &RestoreSessionQuery { session_id: handle },
        now + 10,
    )
    .expect("restore");
    assert_eq!(r.user.id, user.id);
    assert_eq!(r.user.google_sub, "sub-9");
    assert_eq!(r.user.email, "nine@example.com");
}

#[test]
fn token_round_trip_immediately_after_issuance() {
    let secret = "test-signing-secret";
    let token = create_jwt(7, secret).expect("issue");
    let claims = verify_jwt(&token, secret).expect("verify");
    assert_eq!(claims.sub, "7");
}

#[test]
fn expired_token_is_rejected() {
    let secret = "test-signing-secret";
    // expiry lands a day after this long-gone instant, far past any leeway
    let token = issue_at(7, 1_000, secret);
    let r = verify_jwt(&token, secret);
    assert!(matches!(r, Err(AuthError::InvalidTokenError)));
}

#[test]
fn tampered_token_is_rejected() {
    let secret = "test-signing-secret";
    let token = create_jwt(7, secret).expect("issue");
    let r = verify_jwt(&token, "another-secret");
    assert!(matches!(r, Err(AuthError::InvalidTokenError)));
    let mut broken = token.clone();
    broken.push('x');
    assert!(matches!(
        verify_jwt(&broken, secret),
        Err(AuthError::InvalidTokenError)
    ));
}

#[test]
fn login_start_builds_provider_url() {
    let r = handlers::google_login(&settings()).expect("login url");
    assert!(r.auth_url.starts_with("https://accounts.google.com/o/oauth2/v2/auth?"));
    assert!(r.auth_url.contains("response_type=code"));
    assert!(r.auth_url.contains("client_id=abc"));
    assert!(r.auth_url.contains("redirect_uri=https%3A%2F%2Fapp%2Fcb"));
    assert!(r.auth_url.contains("scope=openid+email+profile"));
    assert!(!r.auth_url.contains("s3cr3t"));
}

#[test]
fn login_start_rejects_malformed_redirect() {
    let mut s = settings();
    s.google_redirect_url = "not a url".to_string();
    let r = handlers::google_login(&s);
    assert!(matches!(r, Err(AuthError::ProviderConfigError)));
}

#[test]
fn end_to_end_callback_then_verify_and_restore() {
    let s = settings();
    let mut repo = MemoryUserRepository::new();
    let mut sessions = MemorySessionStore::new();
    // the issued credential embeds `now + 24h`, so verifying it live needs
    // the real clock
    let now = auth_core::clock::current_timestamp();

    let tokens = handlers::google_callback(
        &mut repo,
        &mut sessions,
        Ok("provider-token".to_string()),
        Ok(profile("sub-1", "one@example.com")),
        &s.jwt_secret,
        now,
    )
    .expect("callback");

    let verified = handlers::verify_token(
        &VerifyTokenQuery {
            token: tokens.access_token.clone(),
        },
        &s.jwt_secret,
    )
    .expect("verify");
    let restored = handlers::restore_session(
        &repo,
        &sessions,
        &RestoreSessionQuery {
            session_id: tokens.session_id.clone(),
        },
        now + 60,
    )
    .expect("restore");
    assert_eq!(verified.user_id, restored.user.id.to_string());

    // a repeated login for the same subject converges to the same user
    let again = handlers::google_callback(
        &mut repo,
        &mut sessions,
        Ok("provider-token-2".to_string()),
        Ok(profile("sub-1", "one@example.com")),
        &s.jwt_secret,
        now + 5,
    )
    .expect("second callback");
    let verified_again = handlers::verify_token(
        &VerifyTokenQuery {
            token: again.access_token,
        },
        &s.jwt_secret,
    )
    .expect("verify again");
    assert_eq!(verified_again.user_id, verified.user_id);
    assert_ne!(again.session_id, tokens.session_id);
}

#[test]
fn each_callback_failure_maps_to_its_step() {
    let s = settings();
    let mut repo = MemoryUserRepository::new();
    let mut sessions = MemorySessionStore::new();
    let now = 1_700_000_000;

    let exchange_failed = handlers::google_callback(
        &mut repo,
        &mut sessions,
        Err(()),
        Ok(profile("sub-1", "one@example.com")),
        &s.jwt_secret,
        now,
    );
    assert!(matches!(
        exchange_failed,
        Err(AuthError::TokenExchangeError)
    ));

    let fetch_failed = handlers::google_callback(
        &mut repo,
        &mut sessions,
        Ok("t".to_string()),
        Err(ProfileFailure::Fetch),
        &s.jwt_secret,
        now,
    );
    assert!(matches!(fetch_failed, Err(AuthError::ProfileFetchError)));

    let parse_failed = handlers::google_callback(
        &mut repo,
        &mut sessions,
        Ok("t".to_string()),
        Err(ProfileFailure::Parse),
        &s.jwt_secret,
        now,
    );
    assert!(matches!(parse_failed, Err(AuthError::ProfileParseError)));

    let bad_token = handlers::verify_token(
        &VerifyTokenQuery {
            token: "not-a-jwt".to_string(),
        },
        &s.jwt_secret,
    );
    assert!(matches!(bad_token, Err(AuthError::InvalidTokenError)));
}

#[test]
fn pipeline_steps_thread_data_and_errors() {
    let (stage, action) = begin_callback(OAuthCallbackQuery {
        code: "one-time-code".to_string(),
        state: Some("opaque".to_string()),
    });
    assert!(matches!(stage, CallbackStage::Initiated));
    match action {
        CallbackAction::ExchangeCode { code } => assert_eq!(code, "one-time-code"),
        _ => panic!("expected an exchange action"),
    }

    let (stage, action) = callback_step(
        stage,
        CallbackEvent::CodeExchangeOutcome {
            result: Ok("ptoken".to_string()),
        },
    )
    .expect("step");
    assert!(matches!(stage, CallbackStage::CodeExchanged { .. }));
    match &action {
        CallbackAction::FetchProfile { provider_token } => assert_eq!(provider_token, "ptoken"),
        _ => panic!("expected a profile fetch action"),
    }

    let failed = callback_step(
        CallbackStage::Initiated,
        CallbackEvent::CodeExchangeOutcome { result: Err(()) },
    );
    assert!(matches!(failed, Err(AuthError::TokenExchangeError)));
}

#[test]
fn pipeline_machine_runs_the_whole_callback() {
    let s = settings();
    let mut repo = MemoryUserRepository::new();
    let mut sessions = MemorySessionStore::new();
    let now = 1_700_000_000;

    let (stage, action) = begin_callback(OAuthCallbackQuery {
        code: "one-time-code".to_string(),
        state: None,
    });
    let code = match action {
        CallbackAction::ExchangeCode { code } => code,
        _ => panic!("expected an exchange action"),
    };
    assert_eq!(code, "one-time-code");

    // the driver performs each piece of outside work and feeds back the outcome
    let (stage, _action) = callback_step(
        stage,
        CallbackEvent::CodeExchangeOutcome {
            result: Ok("provider-token".to_string()),
        },
    )
    .expect("exchange step");
    let (stage, action) = callback_step(
        stage,
        CallbackEvent::ProfileOutcome {
            result: Ok(profile("sub-42", "xs@example.com")),
        },
    )
    .expect("profile step");
    let info = match action {
        CallbackAction::FindUser { profile } => profile,
        _ => panic!("expected a find action"),
    };
    // a fresh repository: the find misses, the machine orders a create
    let found = repo.find_by_google_sub(&info.sub).expect("find user");
    let (stage, action) = callback_step(
        stage,
        CallbackEvent::FindOutcome { result: Ok(found) },
    )
    .expect("find step");
    let info = match action {
        CallbackAction::CreateUser { profile } => profile,
        _ => panic!("expected a create action"),
    };
    let created = repo
        .create_user(
            NewUser {
                google_sub: info.sub,
                email: info.email,
            },
            now,
        )
        .expect("create user");
    let (stage, action) = callback_step(
        stage,
        CallbackEvent::CreateOutcome { result: Ok(created) },
    )
    .expect("create step");
    let user_id = match action {
        CallbackAction::OpenSession { user_id } => user_id,
        _ => panic!("expected a session action"),
    };
    let handle = sessions.create_session(user_id, now);
    let (stage, action) = callback_step(
        stage,
        CallbackEvent::SessionOutcome {
            result: Ok(handle.clone()),
        },
    )
    .expect("session step");
    let user_id = match action {
        CallbackAction::IssueToken { user_id } => user_id,
        _ => panic!("expected a signing action"),
    };
    let token = create_jwt(user_id, &s.jwt_secret).expect("sign");
    let (_stage, action) = callback_step(
        stage,
        CallbackEvent::TokenOutcome {
            result: Ok(token.clone()),
        },
    )
    .expect("token step");
    let tokens = match action {
        CallbackAction::Finish { tokens } => tokens,
        _ => panic!("expected the terminal action"),
    };
    assert_eq!(tokens.access_token, token);
    assert_eq!(tokens.session_id, handle);

    let verified = handlers::verify_token(
        &VerifyTokenQuery {
            token: tokens.access_token,
        },
        &s.jwt_secret,
    )
    .expect("verify");
    assert_eq!(verified.user_id, user_id.to_string());
    assert_eq!(sessions.restore_session(&tokens.session_id, now + 1), Some(user_id));
}

#[test]
fn error_codes_are_stable() {
    assert_eq!(AuthError::ProviderConfigError.code(), "oauth_client_error");
    assert_eq!(
        AuthError::TokenExchangeError.code(),
        "oauth_token_exchange_failed"
    );
    assert_eq!(AuthError::ProfileFetchError.code(), "user_info_fetch_failed");
    assert_eq!(AuthError::ProfileParseError.code(), "user_info_parse_failed");
    assert_eq!(
        AuthError::RepositoryLookupError.code(),
        "user_lookup_failed"
    );
    assert_eq!(AuthError::RepositoryCreateError.code(), "user_create_failed");
    assert_eq!(
        AuthError::SessionStoreConnectError.code(),
        "redis_connection_failed"
    );
    assert_eq!(AuthError::SessionCreateError.code(), "session_creation_failed");
    assert_eq!(
        AuthError::SessionRestoreError.code(),
        "session_restore_failed"
    );
    assert_eq!(AuthError::TokenIssueError.code(), "jwt_issue_failed");
    assert_eq!(AuthError::InvalidTokenError.code(), "invalid_token");
    assert_eq!(AuthError::SessionNotFound.code(), "session_not_found");
    assert_eq!(AuthError::UserNotFound.code(), "user_not_found");
}

#[test]
fn serialized_user_holds_no_credential_substrings() {
    let user = User {
        id: 7,
        google_sub: "google-sub-123".to_string(),
        email: "person@example.com".to_string(),
        created_at: 1_700_000_000,
    };
    let json = user_to_json(&user).expect("render");
    assert_eq!(
        json,
        "{\"id\":\"7\",\"google_sub\":\"google-sub-123\",\"email\":\"person@example.com\",\"created_at\":1700000000}"
    );
    assert!(!json.contains("access_token"));
    assert!(!json.contains("refresh_token"));
}

#[test]
fn zero_and_large_ids_render_exactly() {
    let user = User {
        id: 0,
        google_sub: "s".to_string(),
        email: "e@x.io".to_string(),
        created_at: u64::MAX,
    };
    let json = user_to_json(&user).expect("render");
    assert_eq!(
        json,
        format!(
            "{{\"id\":\"0\",\"google_sub\":\"s\",\"email\":\"e@x.io\",\"created_at\":{}}}",
            u64::MAX
        )
    );
}

#[test]
fn unescapable_fields_are_refused() {
    let user = User {
        id: 7,
        google_sub: "has\"quote".to_string(),
        email: "person@example.com".to_string(),
        created_at: 0,
    };
    assert!(user_to_json(&user).is_none());
}
