//! Decisions of the sign-in, registration and account endpoints that do
//! not depend on storage: how a request is answered once the outcome of
//! each storage step is known.

use vstd::prelude::*;
use crate::account::{AccountType, AuthError, is_validation_error, validation_error};
use crate::auth::{
    AuthResponse, RegisterRequest, bio_text, fallback_ong_record, issue_fallback_response,
    normalize_gender, opt_as_str, opt_str_view, pending_review, shows_ong, spec_normalize,
    spec_normalize_gender,
    spec_user_verified,
};
use crate::config::opt_view;
use crate::text::{find_char, first_index_of, is_prefix, owned, starts_with_str, trim, trim_str};

verus! {

/// What looking a user up by e-mail gave.
#[derive(Clone, Copy, Debug, PartialEq, Eq, Structural)]
pub enum UserLookup {
    Found,
    Missing,
    StorageUnavailable,
}

/// How a sign-in is answered.
#[derive(Clone, Copy, Debug, PartialEq, Eq, Structural)]
pub enum LoginDecision {
    /// Issue tokens for the stored user.
    IssueTokens,
    /// Answer `Unauthorized`.
    Refuse,
    /// Storage is unreachable in development: answer with a provisional account.
    DevelopmentFallback,
    /// Storage is unreachable: answer `ServiceUnavailable`.
    ServiceUnavailable,
}

pub open spec fn spec_login_decision(
    lookup: UserLookup,
    password_matches: bool,
    is_development: bool,
) -> LoginDecision {
    match lookup {
        UserLookup::Found => if password_matches {
            LoginDecision::IssueTokens
        } else {
            LoginDecision::Refuse
        },
        UserLookup::Missing => LoginDecision::Refuse,
        UserLookup::StorageUnavailable => if is_development {
            LoginDecision::DevelopmentFallback
        } else {
            LoginDecision::ServiceUnavailable
        },
    }
}

/// Decides a sign-in from the lookup of the e-mail address and, for a
/// stored user, whether the password matches.
pub fn login_decision(lookup: UserLookup, password_matches: bool, is_development: bool) -> (r:
    LoginDecision)
    ensures
        r == spec_login_decision(lookup, password_matches, is_development),
{
    match lookup {
        UserLookup::Found => {
            if password_matches {
                LoginDecision::IssueTokens
            } else {
                LoginDecision::Refuse
            }
        },
        UserLookup::Missing => LoginDecision::Refuse,
        UserLookup::StorageUnavailable => {
            if is_development {
                LoginDecision::DevelopmentFallback
            } else {
                LoginDecision::ServiceUnavailable
            }
        },
    }
}

/// Law: a sign-in is refused exactly when the account is unknown or the
/// password is wrong, and the two refusals are the same answer, so that
/// it does not tell whether an address is registered.
pub proof fn lemma_refusal_does_not_reveal_registration(password_matches: bool, is_development: bool)
    ensures
        spec_login_decision(UserLookup::Missing, password_matches, is_development)
            == spec_login_decision(UserLookup::Found, false, is_development),
        spec_login_decision(UserLookup::Found, password_matches, is_development)
            == LoginDecision::IssueTokens <==> password_matches,
{
}

/// Law: when storage answered the lookup, the sign-in does not depend on
/// the environment: an unknown address and a wrong password are refused,
/// in development and in production alike. Only unreachable storage is
/// answered differently: with a provisional account in development and as
/// unavailable elsewhere, and never otherwise.
pub proof fn lemma_login_answer_when_storage_answers(
    lookup: UserLookup,
    password_matches: bool,
    is_development: bool,
)
    ensures
        lookup != UserLookup::StorageUnavailable ==> spec_login_decision(
            lookup,
            password_matches,
            true,
        ) == spec_login_decision(lookup, password_matches, false),
        lookup == UserLookup::Missing ==> spec_login_decision(
            lookup,
            password_matches,
            is_development,
        ) == LoginDecision::Refuse,
        lookup == UserLookup::Found && !password_matches ==> spec_login_decision(
            lookup,
            password_matches,
            is_development,
        ) == LoginDecision::Refuse,
        (spec_login_decision(lookup, password_matches, is_development)
            == LoginDecision::ServiceUnavailable) <==> (lookup == UserLookup::StorageUnavailable
            && !is_development),
        (spec_login_decision(lookup, password_matches, is_development)
            == LoginDecision::DevelopmentFallback) <==> (lookup == UserLookup::StorageUnavailable
            && is_development),
{
}

/// The name of a provisional account: the e-mail address up to its first `@`.
pub open spec fn spec_fallback_login_name(email: Seq<char>) -> Seq<char> {
    match first_index_of(email, '@') {
        Some(k) => email.subrange(0, k),
        None => email,
    }
}

/// The name shown for a provisional account signed in by e-mail address.
pub fn fallback_login_name(email: &str) -> (r: String)
    ensures
        r@ == spec_fallback_login_name(email@),
{
    match find_char(email, '@') {
        Some(k) => owned(email.substring_char(0, k)),
        None => owned(email),
    }
}

/// The kind of account that a registration asks for: a person where none
/// is named; administrators cannot register themselves.
pub fn register_account_type(requested: Option<AccountType>) -> (r: Result<AccountType, AuthError>)
    ensures
        match requested {
            None => r == Ok::<AccountType, AuthError>(AccountType::Person),
            Some(AccountType::Admin) => r matches Err(e) && is_validation_error(
                e,
                "administrator accounts can only be provisioned by server bootstrap"@,
            ),
            Some(t) => r == Ok::<AccountType, AuthError>(t),
        },
        r matches Ok(t) ==> t != AccountType::Admin,
{
    let account_type = match requested {
        Some(t) => t,
        None => AccountType::Person,
    };
    match account_type {
        AccountType::Admin => Err(
            validation_error("administrator accounts can only be provisioned by server bootstrap"),
        ),
        _ => Ok(account_type),
    }
}

/// How a registration that storage could not complete is answered.
#[derive(Clone, Copy, Debug, PartialEq, Eq, Structural)]
pub enum RegisterFailure {
    /// The e-mail address is taken: answer `Conflict`.
    EmailTaken,
    /// Storage is unreachable in development: answer with a provisional account.
    DevelopmentFallback,
    /// Answer `ServiceUnavailable`.
    ServiceUnavailable,
}

/// Decides the answer to a failed registration: a clash on the unique
/// e-mail address comes first, then the development fallback.
pub fn register_failure(unique_violation: bool, is_development: bool) -> (r: RegisterFailure)
    ensures
        r == if unique_violation {
            RegisterFailure::EmailTaken
        } else if is_development {
            RegisterFailure::DevelopmentFallback
        } else {
            RegisterFailure::ServiceUnavailable
        },
{
    if unique_violation {
        RegisterFailure::EmailTaken
    } else if is_development {
        RegisterFailure::DevelopmentFallback
    } else {
        RegisterFailure::ServiceUnavailable
    }
}

/// The refusal of a registration whose e-mail address is taken.
pub fn email_taken_error() -> (e: AuthError)
    ensures
        e matches AuthError::Conflict(m) && m@ == "email already registered"@,
{
    AuthError::Conflict(String::from_str("email already registered"))
}

/// The token of an `Authorization` header: what follows `Bearer ` (or
/// `bearer `).
pub open spec fn spec_bearer_token(h: Seq<char>) -> Option<Seq<char>> {
    if is_prefix("Bearer "@, h) {
        Some(h.subrange(7, h.len() as int))
    } else if is_prefix("bearer "@, h) {
        Some(h.subrange(7, h.len() as int))
    } else {
        None
    }
}

/// Law: the header that `Bearer ` and a token make carries that token.
pub proof fn lemma_bearer_header_carries_its_token(token: Seq<char>)
    ensures
        spec_bearer_token("Bearer "@ + token) == Some(token),
{
    reveal_strlit("Bearer ");
    let h = "Bearer "@ + token;
    assert(h.subrange(0, 7) =~= "Bearer "@);
    assert(h.subrange(7, h.len() as int) =~= token);
}

/// The token that an `Authorization` header carries, if it has the bearer form.
pub fn bearer_token(header: &str) -> (r: Option<&str>)
    ensures
        match r {
            Some(t) => spec_bearer_token(header@) == Some(t@),
            None => spec_bearer_token(header@) is None,
        },
{
    proof {
        reveal_strlit("Bearer ");
        reveal_strlit("bearer ");
    }
    if starts_with_str(header, "Bearer ") || starts_with_str(header, "bearer ") {
        let n = header.unicode_len();
        Some(header.substring_char(7, n))
    } else {
        None
    }
}

/// Checks the token of an e-mail verification link: it must hold more
/// than white space.
pub fn check_verification_token(token: &str) -> (r: Result<(), AuthError>)
    ensures
        trim(token@).len() > 0 ==> r is Ok,
        trim(token@).len() == 0 ==> (r matches Err(e) && is_validation_error(
            e,
            "token is required"@,
        )),
{
    if trim_str(token).unicode_len() == 0 {
        Err(validation_error("token is required"))
    } else {
        Ok(())
    }
}

/// The e-mail address that replaces a deleted account's address.
pub fn anonymized_email(user_id: &str) -> (r: String)
    ensures
        r@ == "deleted+"@ + user_id@ + "@zoohelp.local"@,
{
    String::from_str("deleted+").concat(user_id).concat("@zoohelp.local")
}

/// The provisional answer to a sign-in while storage is unreachable in
/// development: a person account `me`, named after the address's local
/// part, unverified and without avatar, gender or NGO profile.
pub fn login_fallback_response(email: &str, access_token: String, refresh_token: String) -> (r:
    AuthResponse)
    ensures
        r.user.id@ == "me"@,
        r.user.name@ == spec_fallback_login_name(email@),
        r.user.email@ == email@,
        r.user.avatar is None,
        r.user.bio@ == bio_text(),
        r.user.account_type == AccountType::Person,
        !r.user.verified,
        r.user.gender is None,
        r.user.posts_count == 0 && r.user.helped_count == 0 && r.user.adoptions_count == 0,
        r.user.profile_address is None,
        r.ong_profile is None,
        r.access_token == access_token,
        r.refresh_token == refresh_token,
        r.token_type@ == "Bearer"@,
{
    let name = fallback_login_name(email);
    issue_fallback_response(
        "me",
        name.as_str(),
        email,
        None,
        AccountType::Person,
        None,
        None,
        access_token,
        refresh_token,
    )
}

/// The provisional answer to a registration while storage is unreachable
/// in development: account `me` with the payload's name, address and
/// avatar, its gender kept only where valid, an NGO profile for NGO
/// accounts, and unverified.
pub fn register_fallback_response(
    payload: &RegisterRequest,
    account_type: AccountType,
    access_token: String,
    refresh_token: String,
) -> (r: AuthResponse)
    ensures
        r.user.id@ == "me"@,
        r.user.name@ == payload.name@,
        r.user.email@ == payload.email@,
        opt_view(r.user.avatar) == opt_view(payload.avatar),
        r.user.bio@ == bio_text(),
        r.user.account_type == account_type,
        !r.user.verified,
        opt_view(r.user.gender) == spec_normalize_gender(opt_view(payload.gender)),
        r.user.posts_count == 0 && r.user.helped_count == 0 && r.user.adoptions_count == 0,
        r.user.profile_address is None,
        r.ong_profile is Some <==> account_type == AccountType::Ong,
        r.ong_profile matches Some(o) ==> {
            &&& o.legal_name == payload.name
            &&& o.ong_type == payload.ong_type
            &&& opt_view(o.cnpj) == spec_normalize(opt_view(payload.cnpj))
            &&& o.phone == payload.phone
            &&& o.cep == payload.cep
            &&& o.street == payload.street
            &&& o.number == payload.number
            &&& o.complement == payload.complement
            &&& o.neighborhood == payload.neighborhood
            &&& o.city == payload.city
            &&& o.state == payload.state
            &&& o.foundation_year == payload.foundation_year
            &&& o.verification_status@ == "PENDING_MANUAL_REVIEW"@
        },
        r.access_token == access_token,
        r.refresh_token == refresh_token,
        r.token_type@ == "Bearer"@,
{
    let gender = normalize_gender(opt_as_str(&payload.gender));
    let ong = fallback_ong_record(payload, account_type);
    proof {
        reveal_strlit("PENDING_MANUAL_REVIEW");
        reveal_strlit("APPROVED");
        assert(pending_review().len() != "APPROVED"@.len());
    }
    issue_fallback_response(
        "me",
        payload.name.as_str(),
        payload.email.as_str(),
        opt_as_str(&payload.avatar),
        account_type,
        gender,
        ong,
        access_token,
        refresh_token,
    )
}

} // verus!
