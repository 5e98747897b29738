//! The order of the steps of two identity requests that wait on storage
//! between decisions: a profile update and the confirmation of a password
//! reset. Each flow is a function from its state and the outcome of the
//! last step to its next state and the next step; the process around the
//! library performs the steps and hands their outcomes back. Both flows
//! start once the payload has passed its length rules.

use vstd::prelude::*;
use crate::account::{AuthError, is_validation_error};
use crate::auth::{ConfirmPasswordResetRequest, UpdateProfileRequest, opt_as_str};
use crate::config::opt_view;
use crate::profile::{
    ProfileUpdate, checked_state_code, profile_update_fields, spec_profile_problem,
    spec_state_code,
};
use crate::text::{owned, trim, trim_str};

verus! {

/// Where a profile update stands.
pub enum ProfileUpdateState {
    /// The UF has passed its check; the caller is still to be identified.
    AwaitingCaller(Option<String>),
    /// The caller (by id) is known; the rate limit is still to be checked.
    AwaitingLimit(String, Option<String>),
    /// The update has been handed to storage.
    AwaitingStore,
    /// The request has been answered.
    Finished,
}

/// The outcome of a step of a profile update.
pub enum ProfileUpdateEvent {
    /// The caller's user id, or why the caller was refused.
    Caller(Result<String, AuthError>),
    /// Whether the rate limit let the request through.
    Limit(Result<(), AuthError>),
    /// How many accounts the stored update touched.
    Stored(u64),
}

/// The next step of a profile update.
pub enum ProfileUpdateAction {
    /// Identify the caller from the request's bearer token.
    Authenticate,
    /// Check the profile-update limit keyed by this user id.
    CheckLimit(String),
    /// Store this update for this user id.
    Store(String, ProfileUpdate),
    /// Answer the request: `Ok` with the caller's current profile.
    Answer(Result<(), AuthError>),
}

/// The first step of a profile update: the UF is checked before the
/// caller is identified, so a bad UF is refused whoever sends it.
pub fn profile_update_begin(payload: &UpdateProfileRequest) -> (r: (
    ProfileUpdateState,
    ProfileUpdateAction,
))
    ensures
        match spec_state_code(opt_view(payload.state)) {
            Some(c) => if c.len() == 2 {
                &&& r.0 matches ProfileUpdateState::AwaitingCaller(Some(s))
                &&& s@ == c
                &&& r.1 is Authenticate
            } else {
                &&& r.0 is Finished
                &&& r.1 matches ProfileUpdateAction::Answer(Err(e))
                &&& is_validation_error(e, "state must be a 2-letter UF"@)
            },
            None => r.0 matches ProfileUpdateState::AwaitingCaller(None) && r.1 is Authenticate,
        },
{
    match checked_state_code(opt_as_str(&payload.state)) {
        Ok(code) => (ProfileUpdateState::AwaitingCaller(code), ProfileUpdateAction::Authenticate),
        Err(e) => (ProfileUpdateState::Finished, ProfileUpdateAction::Answer(Err(e))),
    }
}

/// The step of a profile update that follows an outcome:
/// - a refused caller or a refused rate limit answers with that refusal;
/// - a known caller leads to the rate limit keyed by the caller's id;
/// - a passed rate limit leads to the CEP and city/UF rules, and then to
///   storing the update;
/// - an update that touched no account answers `NotFound`, one that
///   touched an account answers with the profile;
/// - an outcome out of turn ends the request as an internal failure.
pub fn profile_update_step(
    payload: &UpdateProfileRequest,
    state: ProfileUpdateState,
    event: ProfileUpdateEvent,
) -> (r: (ProfileUpdateState, ProfileUpdateAction))
    ensures
        match (state, event) {
            (ProfileUpdateState::AwaitingCaller(code), ProfileUpdateEvent::Caller(caller)) => match caller {
                Ok(id) => {
                    &&& r.0 == ProfileUpdateState::AwaitingLimit(id, code)
                    &&& r.1 matches ProfileUpdateAction::CheckLimit(k)
                    &&& k@ == id@
                },
                Err(e) => r.0 is Finished && r.1 == ProfileUpdateAction::Answer(Err(e)),
            },
            (ProfileUpdateState::AwaitingLimit(id, code), ProfileUpdateEvent::Limit(limit)) => match limit {
                Err(e) => r.0 is Finished && r.1 == ProfileUpdateAction::Answer(Err(e)),
                Ok(()) => match spec_profile_problem(*payload, code) {
                    Some(msg) => {
                        &&& r.0 is Finished
                        &&& r.1 matches ProfileUpdateAction::Answer(Err(e))
                        &&& is_validation_error(e, msg)
                    },
                    None => {
                        &&& r.0 is AwaitingStore
                        &&& r.1 matches ProfileUpdateAction::Store(k, u)
                        &&& k == id
                        &&& u.stores(*payload, code)
                    },
                },
            },
            (ProfileUpdateState::AwaitingStore, ProfileUpdateEvent::Stored(n)) => r.0 is Finished
                && r.1 == ProfileUpdateAction::Answer(
                if n == 0 {
                    Err(AuthError::NotFound)
                } else {
                    Ok(())
                },
            ),
            _ => r.0 is Finished && r.1 == ProfileUpdateAction::Answer(Err(AuthError::Internal)),
        },
{
    match (state, event) {
        (ProfileUpdateState::AwaitingCaller(code), ProfileUpdateEvent::Caller(caller)) => {
            match caller {
                Ok(id) => {
                    let key = owned(id.as_str());
                    (ProfileUpdateState::AwaitingLimit(id, code), ProfileUpdateAction::CheckLimit(key))
                },
                Err(e) => (ProfileUpdateState::Finished, ProfileUpdateAction::Answer(Err(e))),
            }
        },
        (ProfileUpdateState::AwaitingLimit(id, code), ProfileUpdateEvent::Limit(limit)) => {
            match limit {
                Err(e) => (ProfileUpdateState::Finished, ProfileUpdateAction::Answer(Err(e))),
                Ok(()) => match profile_update_fields(payload, code) {
                    Ok(u) => (ProfileUpdateState::AwaitingStore, ProfileUpdateAction::Store(id, u)),
                    Err(e) => (ProfileUpdateState::Finished, ProfileUpdateAction::Answer(Err(e))),
                },
            }
        },
        (ProfileUpdateState::AwaitingStore, ProfileUpdateEvent::Stored(n)) => {
            if n == 0 {
                (ProfileUpdateState::Finished, ProfileUpdateAction::Answer(Err(AuthError::NotFound)))
            } else {
                (ProfileUpdateState::Finished, ProfileUpdateAction::Answer(Ok(())))
            }
        },
        _ => (ProfileUpdateState::Finished, ProfileUpdateAction::Answer(Err(AuthError::Internal))),
    }
}

/// Where the confirmation of a password reset stands. It starts at
/// `AwaitingLimits`, with `CheckLimits` as its first step.
pub enum PasswordResetState {
    /// The IP and global limits are still to be checked.
    AwaitingLimits,
    /// The new password is still to be hashed.
    AwaitingHash,
    /// The token is still to be claimed; the new password's hash is kept.
    AwaitingClaim(String),
    /// The new password has been handed to storage.
    AwaitingWrite,
    /// The request has been answered.
    Finished,
}

/// The outcome of a step of a password reset.
pub enum PasswordResetEvent {
    /// Whether the rate limits let the request through.
    Limits(Result<(), AuthError>),
    /// The new password's hash; none where hashing failed.
    Hashed(Option<String>),
    /// The owner of the token that was claimed (unused, unexpired, now
    /// marked used); none where no such token matched.
    Claimed(Option<String>),
    /// Whether storing the password, revoking the refresh tokens and
    /// committing succeeded.
    Written(Result<(), AuthError>),
}

/// The next step of a password reset.
pub enum PasswordResetAction {
    /// Check `confirm_password_reset_limits`.
    CheckLimits,
    /// Hash the payload's new password.
    HashPassword,
    /// Claim the token with this text (the payload's, trimmed).
    ClaimToken(String),
    /// Store this hash as this user's password and revoke the user's
    /// refresh tokens, then commit.
    StorePassword(String, String),
    /// Answer the request.
    Answer(Result<(), AuthError>),
}

/// The step of a password reset that follows an outcome:
/// - refused limits answer with that refusal;
/// - passed limits lead to hashing the new password, and a failed hash
///   answers as an internal failure;
/// - a hash leads to claiming the trimmed token, and a token that matches
///   nothing answers `Unauthorized`, so no password changes;
/// - a claimed token leads to storing the hash for the token's owner, and
///   the outcome of that write is the answer;
/// - an outcome out of turn ends the request as an internal failure.
pub fn password_reset_step(
    payload: &ConfirmPasswordResetRequest,
    state: PasswordResetState,
    event: PasswordResetEvent,
) -> (r: (PasswordResetState, PasswordResetAction))
    ensures
        match (state, event) {
            (PasswordResetState::AwaitingLimits, PasswordResetEvent::Limits(limits)) => match limits {
                Ok(()) => r.0 is AwaitingHash && r.1 is HashPassword,
                Err(e) => r.0 is Finished && r.1 == PasswordResetAction::Answer(Err(e)),
            },
            (PasswordResetState::AwaitingHash, PasswordResetEvent::Hashed(hash)) => match hash {
                Some(h) => {
                    &&& r.0 == PasswordResetState::AwaitingClaim(h)
                    &&& r.1 matches PasswordResetAction::ClaimToken(t)
                    &&& t@ == trim(payload.token@)
                },
                None => r.0 is Finished && r.1 == PasswordResetAction::Answer(
                    Err(AuthError::Internal),
                ),
            },
            (PasswordResetState::AwaitingClaim(h), PasswordResetEvent::Claimed(owner)) => match owner {
                Some(id) => r.0 is AwaitingWrite && r.1 == PasswordResetAction::StorePassword(id, h),
                None => r.0 is Finished && r.1 == PasswordResetAction::Answer(
                    Err(AuthError::Unauthorized),
                ),
            },
            (PasswordResetState::AwaitingWrite, PasswordResetEvent::Written(w)) => r.0 is Finished
                && r.1 == PasswordResetAction::Answer(w),
            _ => r.0 is Finished && r.1 == PasswordResetAction::Answer(Err(AuthError::Internal)),
        },
{
    match (state, event) {
        (PasswordResetState::AwaitingLimits, PasswordResetEvent::Limits(limits)) => match limits {
            Ok(()) => (PasswordResetState::AwaitingHash, PasswordResetAction::HashPassword),
            Err(e) => (PasswordResetState::Finished, PasswordResetAction::Answer(Err(e))),
        },
        (PasswordResetState::AwaitingHash, PasswordResetEvent::Hashed(hash)) => match hash {
            Some(h) => {
                let token = owned(trim_str(payload.token.as_str()));
                (PasswordResetState::AwaitingClaim(h), PasswordResetAction::ClaimToken(token))
            },
            None => (PasswordResetState::Finished, PasswordResetAction::Answer(Err(AuthError::Internal))),
        },
        (PasswordResetState::AwaitingClaim(h), PasswordResetEvent::Claimed(owner)) => match owner {
            Some(id) => (PasswordResetState::AwaitingWrite, PasswordResetAction::StorePassword(id, h)),
            None => (
                PasswordResetState::Finished,
                PasswordResetAction::Answer(Err(AuthError::Unauthorized)),
            ),
        },
        (PasswordResetState::AwaitingWrite, PasswordResetEvent::Written(w)) => (
            PasswordResetState::Finished,
            PasswordResetAction::Answer(w),
        ),
        _ => (PasswordResetState::Finished, PasswordResetAction::Answer(Err(AuthError::Internal))),
    }
}

} // verus!
