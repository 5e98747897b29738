use zoohelp_backend::account::{AccountType, AuthError};
use zoohelp_backend::auth::{
    ConfirmPasswordResetRequest, LoginRequest, PasswordResetRequest, RegisterRequest,
    UpdateAvatarRequest, UpdateProfileRequest,
};
use zoohelp_backend::bootstrap::{
    hash_admin_password, hash_admin_password_with_salt, plan_admin_bootstrap, BootstrapError,
};
use zoohelp_backend::profile::{check_avatar_url, check_state_code, checked_state_code, profile_state_code, profile_update_fields};
use zoohelp_backend::session::{
    anonymized_email, bearer_token, check_verification_token, email_taken_error,
    fallback_login_name, login_decision, login_fallback_response, register_fallback_response, register_account_type, register_failure, LoginDecision,
    RegisterFailure, UserLookup,
};
use zoohelp_backend::validation::{Rule, Violation};

fn s(v: &str) -> Option<String> {
    Some(v.to_string())
}

fn fields(v: Vec<Violation>) -> Vec<(String, Rule)> {
    v.into_iter().map(|x| (x.field, x.rule)).collect()
}

fn text(e: AuthError) -> String {
    match e {
        AuthError::Validation(m) => m,
        AuthError::Conflict(m) => m,
        _ => panic!("no text"),
    }
}

fn profile(name: &str) -> UpdateProfileRequest {
    UpdateProfileRequest {
        name: name.to_string(),
        cep: None,
        street: None,
        number: None,
        complement: None,
        neighborhood: None,
        city: None,
        state: None,
    }
}

#[test]
fn login_payload_rules() {
    let ok = LoginRequest { email: "ana@example.com".to_string(), password: "123456".to_string() };
    assert!(ok.validate().is_ok());
    let bad = LoginRequest { email: "not-an-email".to_string(), password: "12345".to_string() };
    assert_eq!(
        fields(bad.validate().unwrap_err()),
        vec![
            ("email".to_string(), Rule::Email),
            ("password".to_string(), Rule::Length { min: Some(6), max: None }),
        ]
    );
}

#[test]
fn registration_payload_rules() {
    let mut r = RegisterRequest {
        name: "A".to_string(),
        email: "ana@example.com".to_string(),
        password: "1234567".to_string(),
        account_type: None,
        gender: None,
        avatar: None,
        ong_type: None,
        cnpj: None,
        phone: None,
        cep: None,
        street: None,
        number: None,
        complement: None,
        neighborhood: None,
        city: None,
        state: None,
        foundation_year: None,
    };
    assert_eq!(
        fields(r.validate().unwrap_err()),
        vec![
            ("name".to_string(), Rule::Length { min: Some(2), max: Some(120) }),
            ("password".to_string(), Rule::Length { min: Some(8), max: None }),
        ]
    );
    r.name = "Ãna".to_string();
    r.password = "12345678".to_string();
    assert!(r.validate().is_ok());
    assert_eq!(fields(r.violations_given(false)), vec![("email".to_string(), Rule::Email)]);
}

#[test]
fn password_reset_payload_rules() {
    assert!(PasswordResetRequest { email: "a@b.co".to_string() }.validate().is_ok());
    assert!(PasswordResetRequest { email: "a@".to_string() }.validate().is_err());
    let c = ConfirmPasswordResetRequest { token: "x".repeat(19), password: "p".repeat(257) };
    assert_eq!(
        fields(c.validate().unwrap_err()),
        vec![
            ("token".to_string(), Rule::Length { min: Some(20), max: Some(120) }),
            ("password".to_string(), Rule::Length { min: Some(8), max: Some(256) }),
        ]
    );
    let c = ConfirmPasswordResetRequest { token: "x".repeat(20), password: "p".repeat(8) };
    assert!(c.validate().is_ok());
}

#[test]
fn avatar_and_profile_payload_rules() {
    assert!(UpdateAvatarRequest { avatar_url: "https://res.cloudinary.com/x/a.png".to_string() }.validate().is_ok());
    assert_eq!(
        fields(UpdateAvatarRequest { avatar_url: "not a url".to_string() }.validate().unwrap_err()),
        vec![("avatar_url".to_string(), Rule::Url)]
    );
    let mut p = profile("Ana");
    p.cep = s("123456789");
    p.state = s("SPX");
    assert_eq!(
        fields(p.validate().unwrap_err()),
        vec![
            ("cep".to_string(), Rule::Length { min: Some(0), max: Some(8) }),
            ("state".to_string(), Rule::Length { min: Some(0), max: Some(2) }),
        ]
    );
    assert!(profile("Ana").validate().is_ok());
}

#[test]
fn login_decisions() {
    assert_eq!(login_decision(UserLookup::Found, true, false), LoginDecision::IssueTokens);
    assert_eq!(login_decision(UserLookup::Found, false, true), LoginDecision::Refuse);
    assert_eq!(login_decision(UserLookup::Missing, true, true), LoginDecision::Refuse);
    assert_eq!(login_decision(UserLookup::StorageUnavailable, true, true), LoginDecision::DevelopmentFallback);
    assert_eq!(login_decision(UserLookup::StorageUnavailable, true, false), LoginDecision::ServiceUnavailable);
}

#[test]
fn provisional_login_name_is_the_local_part() {
    assert_eq!(fallback_login_name("ana.silva@example.com"), "ana.silva");
    assert_eq!(fallback_login_name("no-at-sign"), "no-at-sign");
    assert_eq!(fallback_login_name("@example.com"), "");
    assert_eq!(fallback_login_name("a@b@c"), "a");
}

#[test]
fn registration_account_kinds() {
    assert_eq!(register_account_type(None).ok(), Some(AccountType::Person));
    assert_eq!(register_account_type(Some(AccountType::Ong)).ok(), Some(AccountType::Ong));
    assert_eq!(register_account_type(Some(AccountType::Vet)).ok(), Some(AccountType::Vet));
    assert_eq!(
        text(register_account_type(Some(AccountType::Admin)).unwrap_err()),
        "administrator accounts can only be provisioned by server bootstrap"
    );
}

#[test]
fn registration_storage_failures() {
    assert_eq!(register_failure(true, true), RegisterFailure::EmailTaken);
    assert_eq!(register_failure(false, true), RegisterFailure::DevelopmentFallback);
    assert_eq!(register_failure(false, false), RegisterFailure::ServiceUnavailable);
    assert_eq!(text(email_taken_error()), "email already registered");
}

#[test]
fn bearer_tokens() {
    assert_eq!(bearer_token("Bearer abc.def"), Some("abc.def"));
    assert_eq!(bearer_token("bearer xyz"), Some("xyz"));
    assert_eq!(bearer_token("Bearer "), Some(""));
    assert_eq!(bearer_token("BEARER abc"), None);
    assert_eq!(bearer_token("Basic abc"), None);
    assert_eq!(bearer_token("Bearerabc"), None);
}

#[test]
fn verification_tokens_and_anonymized_addresses() {
    assert!(check_verification_token(" abc ").is_ok());
    assert_eq!(text(check_verification_token("  ").unwrap_err()), "token is required");
    assert_eq!(
        anonymized_email("0190b2a4-7c1e-7000-8000-000000000001"),
        "deleted+0190b2a4-7c1e-7000-8000-000000000001@zoohelp.local"
    );
}

#[test]
fn state_codes_are_upper_cased_and_two_characters() {
    assert_eq!(profile_state_code(Some(" pe ")).as_deref(), Some("PE"));
    assert_eq!(profile_state_code(Some("  ")), None);
    assert_eq!(checked_state_code(Some("sp")).ok().unwrap().as_deref(), Some("SP"));
    // Upper-casing comes before the count: "ß" becomes "SS".
    assert_eq!(checked_state_code(Some("ß")).ok().unwrap().as_deref(), Some("SS"));
    assert_eq!(text(checked_state_code(Some("pe.")).unwrap_err()).as_str(), "state must be a 2-letter UF");
    assert_eq!(text(check_state_code(Some("SPX".to_string())).unwrap_err()), "state must be a 2-letter UF");
    assert!(check_state_code(None).ok().unwrap().is_none());
}

#[test]
fn profile_updates_are_normalized() {
    let mut p = profile("  Ana  ");
    p.cep = s(" 50000000 ");
    p.street = s("  ");
    p.city = s(" Recife ");
    let u = profile_update_fields(&p, s("PE")).ok().unwrap();
    assert_eq!(u.name, "Ana");
    assert_eq!(u.cep.as_deref(), Some("50000000"));
    assert!(u.street.is_none());
    assert_eq!(u.city.as_deref(), Some("Recife"));
    assert_eq!(u.state.as_deref(), Some("PE"));

    let mut p = profile("Ana");
    p.cep = s("5000-000");
    assert_eq!(text(profile_update_fields(&p, None).err().unwrap()), "cep must contain 8 digits");

    let mut p = profile("Ana");
    p.city = s("Recife");
    assert_eq!(text(profile_update_fields(&p, None).err().unwrap()), "city and state must be sent together");
    let p = profile("Ana");
    assert_eq!(text(profile_update_fields(&p, s("PE")).err().unwrap()), "city and state must be sent together");
}

#[test]
fn avatar_urls_must_be_profile_pictures_of_the_account() {
    let good = "https://res.cloudinary.com/zoohelp-dev/image/upload/v1/zoohelp/profile-avatars/image/u1.png";
    assert!(check_avatar_url("zoohelp-dev", good).is_ok());
    let logo = "https://res.cloudinary.com/zoohelp-dev/image/upload/zoohelp/ong-logos/image/l.png";
    assert!(check_avatar_url("zoohelp-dev", logo).is_ok());
    assert_eq!(text(check_avatar_url("other", good).unwrap_err()), "avatarUrl must be a Helpin Cloudinary image");
    let post = "https://res.cloudinary.com/zoohelp-dev/image/upload/zoohelp/posts/image/p.png";
    assert_eq!(text(check_avatar_url("zoohelp-dev", post).unwrap_err()), "avatarUrl purpose is not allowed");
}

#[test]
fn admin_bootstrap_plans() {
    assert!(plan_admin_bootstrap(None, None, None).unwrap().is_none());
    let a = plan_admin_bootstrap(s("  Admin@ZooHelp.App "), s("0123456789ab"), None).unwrap().unwrap();
    assert_eq!(a.email, "admin@zoohelp.app");
    assert_eq!(a.password, "0123456789ab");
    assert_eq!(a.name, "Paulo Admin");
    let a = plan_admin_bootstrap(s("a@b.c"), s("0123456789ab"), s("  Root ")).unwrap().unwrap();
    assert_eq!(a.name, "Root");
    assert_eq!(plan_admin_bootstrap(s("   "), s("0123456789ab"), None).err(), Some(BootstrapError::EmptyEmail));
    assert_eq!(plan_admin_bootstrap(s("a@b.c"), s("short"), None).err(), Some(BootstrapError::ShortPassword));
    assert_eq!(plan_admin_bootstrap(s("a@b.c"), None, None).err(), Some(BootstrapError::IncompleteCredentials));
    assert_eq!(plan_admin_bootstrap(None, s("0123456789ab"), None).err(), Some(BootstrapError::IncompleteCredentials));
    assert_eq!(BootstrapError::ShortPassword.message(), "BOOTSTRAP_ADMIN_PASSWORD must have at least 12 characters");
}

#[test]
fn admin_password_is_hashed_with_argon2() {
    let h = hash_admin_password("0123456789ab").unwrap();
    assert!(h.starts_with("$argon2id$v=19$"));
    assert_ne!(h, hash_admin_password("0123456789ab").unwrap());
}

#[test]
fn provisional_answers_in_development() {
    let r = login_fallback_response("maria@zoo.help", "acc".to_string(), "ref".to_string());
    assert_eq!(r.user.id, "me");
    assert_eq!(r.user.name, "maria");
    assert_eq!(r.user.email, "maria@zoo.help");
    assert_eq!(r.user.account_type, AccountType::Person);
    assert!(!r.user.verified);
    assert!(r.ong_profile.is_none());
    assert_eq!(r.access_token, "acc");

    let payload = RegisterRequest {
        name: "Patas".to_string(),
        email: "p@x.org".to_string(),
        password: "12345678".to_string(),
        account_type: Some(AccountType::Ong),
        gender: s("Female"),
        avatar: s("https://img/p.png"),
        ong_type: s("welfare"),
        cnpj: None,
        phone: s("1"),
        cep: s("1"),
        street: s("1"),
        number: s("1"),
        complement: None,
        neighborhood: None,
        city: s("Natal"),
        state: s("RN"),
        foundation_year: None,
    };
    let r = register_fallback_response(&payload, AccountType::Ong, "a".to_string(), "b".to_string());
    assert_eq!(r.user.name, "Patas");
    assert_eq!(r.user.avatar.as_deref(), Some("https://img/p.png"));
    assert!(r.user.gender.is_none());
    assert!(!r.user.verified);
    let ong = r.ong_profile.unwrap();
    assert_eq!(ong.verification_status, "PENDING_MANUAL_REVIEW");
    assert_eq!(ong.city.as_deref(), Some("Natal"));
    let r = register_fallback_response(&payload, AccountType::Person, "a".to_string(), "b".to_string());
    assert!(r.ong_profile.is_none());
}

#[test]
fn admin_password_hash_is_fixed_by_password_and_salt() {
    let salt = [7u8; 16];
    let a = hash_admin_password_with_salt("0123456789ab", &salt).unwrap();
    let b = hash_admin_password_with_salt("0123456789ab", &salt).unwrap();
    assert_eq!(a, b);
    assert!(a.starts_with("$argon2id$v=19$"));
    assert!(a.contains("$BwcHBwcHBwcHBwcHBwcHBw$"));
    assert_ne!(a, hash_admin_password_with_salt("0123456789ac", &salt).unwrap());
    assert_ne!(a, hash_admin_password_with_salt("0123456789ab", &[8u8; 16]).unwrap());
}

#[test]
fn admin_password_hashing_refuses_a_short_salt() {
    match hash_admin_password_with_salt("0123456789ab", &[1u8; 4]) {
        Err(BootstrapError::HashingFailed(text)) => {
            let e = BootstrapError::HashingFailed(text.clone());
            assert_eq!(e.message(), format!("administrator password hashing failed: {}", text));
            assert!(!text.is_empty());
        }
        other => panic!("unexpected {:?}", other),
    }
    assert_eq!(
        BootstrapError::SaltUnavailable.message(),
        "administrator password salt could not be drawn from the operating system"
    );
}
