use zoohelp_backend::account::AuthError;
use zoohelp_backend::auth::{ConfirmPasswordResetRequest, UpdateProfileRequest};
use zoohelp_backend::flows::{
    password_reset_step, profile_update_begin, profile_update_step, PasswordResetAction,
    PasswordResetEvent, PasswordResetState, ProfileUpdateAction, ProfileUpdateEvent,
    ProfileUpdateState,
};

fn profile(state: Option<&str>, city: Option<&str>, cep: Option<&str>) -> UpdateProfileRequest {
    UpdateProfileRequest {
        name: " Maria ".to_string(),
        cep: cep.map(|c| c.to_string()),
        street: Some("Rua B".to_string()),
        number: None,
        complement: None,
        neighborhood: None,
        city: city.map(|c| c.to_string()),
        state: state.map(|c| c.to_string()),
    }
}

fn answer_text(a: ProfileUpdateAction) -> String {
    match a {
        ProfileUpdateAction::Answer(Err(AuthError::Validation(m))) => m,
        _ => panic!("not a validation answer"),
    }
}

#[test]
fn bad_uf_is_refused_before_the_caller_is_known() {
    let (state, action) = profile_update_begin(&profile(Some(" spx "), Some("Recife"), None));
    assert!(matches!(state, ProfileUpdateState::Finished));
    assert_eq!(answer_text(action), "state must be a 2-letter UF");
}

#[test]
fn profile_update_runs_caller_then_limit_then_store() {
    let p = profile(Some(" pe "), Some(" Recife "), Some("50000000"));
    let (state, action) = profile_update_begin(&p);
    assert!(matches!(action, ProfileUpdateAction::Authenticate));
    let (state, action) = profile_update_step(&p, state, ProfileUpdateEvent::Caller(Ok("u1".to_string())));
    match &action {
        ProfileUpdateAction::CheckLimit(k) => assert_eq!(k, "u1"),
        _ => panic!("expected the rate limit"),
    }
    let (state, action) = profile_update_step(&p, state, ProfileUpdateEvent::Limit(Ok(())));
    match &action {
        ProfileUpdateAction::Store(id, u) => {
            assert_eq!(id, "u1");
            assert_eq!(u.name, "Maria");
            assert_eq!(u.state.as_deref(), Some("PE"));
            assert_eq!(u.city.as_deref(), Some("Recife"));
        }
        _ => panic!("expected the store"),
    }
    let (_, action) = profile_update_step(&p, state, ProfileUpdateEvent::Stored(1));
    assert!(matches!(action, ProfileUpdateAction::Answer(Ok(()))));
}

#[test]
fn profile_update_refusals_end_the_flow() {
    let p = profile(None, None, None);
    let (state, _) = profile_update_begin(&p);
    let (state, action) = profile_update_step(&p, state, ProfileUpdateEvent::Caller(Err(AuthError::Unauthorized)));
    assert!(matches!(state, ProfileUpdateState::Finished));
    assert!(matches!(action, ProfileUpdateAction::Answer(Err(AuthError::Unauthorized))));

    let state = ProfileUpdateState::AwaitingLimit("u1".to_string(), None);
    let (_, action) = profile_update_step(&p, state, ProfileUpdateEvent::Limit(Err(AuthError::ServiceUnavailable)));
    assert!(matches!(action, ProfileUpdateAction::Answer(Err(AuthError::ServiceUnavailable))));

    let q = profile(None, Some("Recife"), None);
    let state = ProfileUpdateState::AwaitingLimit("u1".to_string(), None);
    let (_, action) = profile_update_step(&q, state, ProfileUpdateEvent::Limit(Ok(())));
    assert_eq!(answer_text(action), "city and state must be sent together");

    let q = profile(None, None, Some("123"));
    let state = ProfileUpdateState::AwaitingLimit("u1".to_string(), None);
    let (_, action) = profile_update_step(&q, state, ProfileUpdateEvent::Limit(Ok(())));
    assert_eq!(answer_text(action), "cep must contain 8 digits");

    let (_, action) = profile_update_step(&p, ProfileUpdateState::AwaitingStore, ProfileUpdateEvent::Stored(0));
    assert!(matches!(action, ProfileUpdateAction::Answer(Err(AuthError::NotFound))));

    let (_, action) = profile_update_step(&p, ProfileUpdateState::Finished, ProfileUpdateEvent::Stored(1));
    assert!(matches!(action, ProfileUpdateAction::Answer(Err(AuthError::Internal))));
}

fn reset() -> ConfirmPasswordResetRequest {
    ConfirmPasswordResetRequest { token: "  tok-123 \n".to_string(), password: "new-password-1".to_string() }
}

#[test]
fn password_reset_claims_the_trimmed_token_then_stores() {
    let p = reset();
    let (state, action) = password_reset_step(&p, PasswordResetState::AwaitingLimits, PasswordResetEvent::Limits(Ok(())));
    assert!(matches!(action, PasswordResetAction::HashPassword));
    let (state, action) = password_reset_step(&p, state, PasswordResetEvent::Hashed(Some("$argon2id$h".to_string())));
    match &action {
        PasswordResetAction::ClaimToken(t) => assert_eq!(t, "tok-123"),
        _ => panic!("expected the claim"),
    }
    let (state, action) = password_reset_step(&p, state, PasswordResetEvent::Claimed(Some("u7".to_string())));
    match &action {
        PasswordResetAction::StorePassword(id, h) => {
            assert_eq!(id, "u7");
            assert_eq!(h, "$argon2id$h");
        }
        _ => panic!("expected the store"),
    }
    let (state, action) = password_reset_step(&p, state, PasswordResetEvent::Written(Ok(())));
    assert!(matches!(state, PasswordResetState::Finished));
    assert!(matches!(action, PasswordResetAction::Answer(Ok(()))));
}

#[test]
fn unmatched_reset_token_is_unauthorized() {
    let p = reset();
    let state = PasswordResetState::AwaitingClaim("$argon2id$h".to_string());
    let (state, action) = password_reset_step(&p, state, PasswordResetEvent::Claimed(None));
    assert!(matches!(state, PasswordResetState::Finished));
    assert!(matches!(action, PasswordResetAction::Answer(Err(AuthError::Unauthorized))));

    let (_, action) = password_reset_step(&p, PasswordResetState::AwaitingHash, PasswordResetEvent::Hashed(None));
    assert!(matches!(action, PasswordResetAction::Answer(Err(AuthError::Internal))));

    let (_, action) = password_reset_step(&p, PasswordResetState::AwaitingLimits, PasswordResetEvent::Limits(Err(AuthError::ServiceUnavailable)));
    assert!(matches!(action, PasswordResetAction::Answer(Err(AuthError::ServiceUnavailable))));

    let (_, action) = password_reset_step(&p, PasswordResetState::AwaitingLimits, PasswordResetEvent::Claimed(Some("u".to_string())));
    assert!(matches!(action, PasswordResetAction::Answer(Err(AuthError::Internal))));
}
