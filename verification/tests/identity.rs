use zoohelp_backend::account::{AccountType, AuthError};
use zoohelp_backend::auth::{
    auth_response, current_user_response, current_year, default_mission, fallback_ong_record,
    issue_fallback_response, looks_up_ong_profile, normalize_gender, normalize_optional,
    profile_address_from_record, registration_ong_profile, registration_ong_record, registration_user_row, starts_verified, user_stats_from_counts, validate_ong_payload,
    validate_ong_payload_in_year, validate_ong_payload_with_clock, OngRecord, RegisterRequest, UserRecord, UserStats,
};

fn s(v: &str) -> Option<String> {
    Some(v.to_string())
}

fn validation_text(r: Result<(), AuthError>) -> String {
    match r {
        Err(AuthError::Validation(m)) => m,
        Err(_) => panic!("not a validation error"),
        Ok(()) => panic!("accepted"),
    }
}

fn ong_payload() -> RegisterRequest {
    RegisterRequest {
        name: "  Patas Unidas ".to_string(),
        email: "contato@patas.org".to_string(),
        password: "supersecret".to_string(),
        account_type: Some(AccountType::Ong),
        gender: None,
        avatar: None,
        ong_type: s("rescue"),
        cnpj: s(" 12.345.678/0001-90 "),
        phone: s("11999999999"),
        cep: s("01001000"),
        street: s("Rua A"),
        number: s("10"),
        complement: None,
        neighborhood: s("Centro"),
        city: s("São Paulo"),
        state: s(" SP "),
        foundation_year: Some(2010),
    }
}

fn ong_record(status: &str) -> OngRecord {
    OngRecord {
        legal_name: "Patas".to_string(),
        ong_type: s("rescue"),
        cnpj: None,
        phone: s("1"),
        cep: None,
        street: None,
        number: None,
        complement: None,
        neighborhood: None,
        city: s("Recife"),
        state: s("PE"),
        foundation_year: Some(2001),
        verification_status: status.to_string(),
    }
}

fn user_record(account_type: AccountType, verified: bool) -> UserRecord {
    UserRecord {
        id: "0190-abc".to_string(),
        name: "Ana".to_string(),
        email: "ana@example.com".to_string(),
        avatar: s("https://img/a.png"),
        password_hash: "$argon2id$x".to_string(),
        account_type,
        verified,
        gender: s("female"),
        cep: None,
        street: None,
        number: None,
        complement: None,
        neighborhood: None,
        city: None,
        state: None,
    }
}

#[test]
fn optional_values_are_trimmed_and_blank_ones_dropped() {
    assert_eq!(normalize_optional(Some("  Rua B  ")).as_deref(), Some("Rua B"));
    assert_eq!(normalize_optional(Some("   ")), None);
    assert_eq!(normalize_optional(None), None);
}

#[test]
fn gender_is_kept_only_when_male_or_female() {
    assert_eq!(normalize_gender(Some(" female ")).as_deref(), Some("female"));
    assert_eq!(normalize_gender(Some("male")).as_deref(), Some("male"));
    assert_eq!(normalize_gender(Some("Female")), None);
    assert_eq!(normalize_gender(Some("other")), None);
    assert_eq!(normalize_gender(None), None);
}

#[test]
fn default_missions_by_ngo_kind() {
    assert_eq!(default_mission(Some("rescue")), "Resgate e atendimento de animais em situação de risco.");
    assert_eq!(default_mission(Some("adoption")), "Adoção responsável e acompanhamento pós-adoção.");
    assert_eq!(default_mission(Some("vet")), "Atendimento veterinário e suporte clínico.");
    assert_eq!(default_mission(Some("hospital")), "Atendimento veterinário e suporte clínico.");
    assert_eq!(default_mission(Some("welfare")), "Bem-estar animal e proteção comunitária.");
    assert_eq!(default_mission(Some("Rescue")), "Proteção animal e apoio à comunidade.");
    assert_eq!(default_mission(None), "Proteção animal e apoio à comunidade.");
}

#[test]
fn complete_ngo_registration_is_accepted() {
    assert!(validate_ong_payload_in_year(&ong_payload(), AccountType::Ong, 2025).is_ok());
    assert!(validate_ong_payload(&ong_payload(), AccountType::Ong).is_ok());
}

#[test]
fn ngo_registration_rules_in_order() {
    let mut p = ong_payload();
    p.gender = s("robot");
    assert_eq!(validation_text(validate_ong_payload_in_year(&p, AccountType::Person, 2025)), "gender must be male or female");

    let mut p = ong_payload();
    p.ong_type = s("  ");
    assert_eq!(validation_text(validate_ong_payload_in_year(&p, AccountType::Ong, 2025)), "ongType is required for ONG accounts");

    let mut p = ong_payload();
    p.phone = None;
    assert_eq!(validation_text(validate_ong_payload_in_year(&p, AccountType::Ong, 2025)), "phone is required for ONG accounts");

    let mut p = ong_payload();
    p.city = None;
    assert_eq!(validation_text(validate_ong_payload_in_year(&p, AccountType::Ong, 2025)), "city is required for ONG accounts");

    let mut p = ong_payload();
    p.cep = s("");
    assert_eq!(validation_text(validate_ong_payload_in_year(&p, AccountType::Ong, 2025)), "cep is required for ONG accounts");

    let mut p = ong_payload();
    p.street = None;
    assert_eq!(validation_text(validate_ong_payload_in_year(&p, AccountType::Ong, 2025)), "street is required for ONG accounts");

    let mut p = ong_payload();
    p.number = None;
    assert_eq!(validation_text(validate_ong_payload_in_year(&p, AccountType::Ong, 2025)), "number is required for ONG accounts");

    let mut p = ong_payload();
    p.state = s("São Paulo");
    assert_eq!(validation_text(validate_ong_payload_in_year(&p, AccountType::Ong, 2025)), "state must be a 2-letter UF");

    // The UF length is counted in bytes: one two-byte letter passes.
    let mut p = ong_payload();
    p.state = s("Ã");
    assert!(validate_ong_payload_in_year(&p, AccountType::Ong, 2025).is_ok());

    let mut p = ong_payload();
    p.foundation_year = Some(1899);
    assert_eq!(validation_text(validate_ong_payload_in_year(&p, AccountType::Ong, 2025)), "foundationYear is invalid");

    let mut p = ong_payload();
    p.foundation_year = Some(2026);
    assert_eq!(validation_text(validate_ong_payload_in_year(&p, AccountType::Ong, 2025)), "foundationYear is invalid");

    let mut p = ong_payload();
    p.cnpj = s("123");
    assert_eq!(validation_text(validate_ong_payload_in_year(&p, AccountType::Ong, 2025)), "cnpj must contain 14 digits when provided");
}

#[test]
fn person_registration_skips_ngo_rules() {
    let mut p = ong_payload();
    p.phone = None;
    p.cnpj = s("1");
    assert!(validate_ong_payload_in_year(&p, AccountType::Person, 2025).is_ok());
    assert!(validate_ong_payload_in_year(&p, AccountType::Vet, 2025).is_ok());
}

#[test]
fn new_accounts_start_verified_except_ngos() {
    assert!(starts_verified(AccountType::Person));
    assert!(starts_verified(AccountType::Vet));
    assert!(starts_verified(AccountType::Admin));
    assert!(!starts_verified(AccountType::Ong));
}

#[test]
fn ngo_records_from_a_registration() {
    let p = ong_payload();
    let stored = registration_ong_record(&p);
    assert_eq!(stored.legal_name, "Patas Unidas");
    assert_eq!(stored.cnpj.as_deref(), Some("12.345.678/0001-90"));
    assert_eq!(stored.verification_status, "PENDING_MANUAL_REVIEW");
    assert_eq!(stored.state.as_deref(), Some(" SP "));
    let fallback = fallback_ong_record(&p, AccountType::Ong).unwrap();
    assert_eq!(fallback.legal_name, "  Patas Unidas ");
    assert_eq!(fallback.city.as_deref(), Some("São Paulo"));
    assert!(fallback_ong_record(&p, AccountType::Person).is_none());
}

#[test]
fn ngo_profile_is_stored_only_for_ngo_registrations() {
    let p = ong_payload();
    let (record, mission) = registration_ong_profile(&p, AccountType::Ong).unwrap();
    assert_eq!(record.legal_name, "Patas Unidas");
    assert_eq!(record.verification_status, "PENDING_MANUAL_REVIEW");
    assert_eq!(mission, "Resgate e atendimento de animais em situação de risco.");
    assert!(registration_ong_profile(&p, AccountType::Person).is_none());
    assert!(registration_ong_profile(&p, AccountType::Vet).is_none());
    assert!(registration_ong_profile(&p, AccountType::Admin).is_none());

    let mut q = ong_payload();
    q.ong_type = None;
    let (_, mission) = registration_ong_profile(&q, AccountType::Ong).unwrap();
    assert_eq!(mission, "Proteção animal e apoio à comunidade.");
}

#[test]
fn ngo_profile_is_looked_up_only_for_ngo_accounts() {
    assert!(looks_up_ong_profile(AccountType::Ong));
    assert!(!looks_up_ong_profile(AccountType::Person));
    assert!(!looks_up_ong_profile(AccountType::Vet));
    assert!(!looks_up_ong_profile(AccountType::Admin));
}

#[test]
fn ngo_shows_verified_only_once_approved() {
    let r = auth_response("id", "Patas", "p@x.org", None, AccountType::Ong, true, None, None,
        Some(ong_record("PENDING_MANUAL_REVIEW")), UserStats::zero(), "a".to_string(), "r".to_string());
    assert!(!r.user.verified);
    let r = auth_response("id", "Patas", "p@x.org", None, AccountType::Ong, false, None, None,
        Some(ong_record("APPROVED")), UserStats::zero(), "a".to_string(), "r".to_string());
    assert!(r.user.verified);
    let r = auth_response("id", "Patas", "p@x.org", None, AccountType::Ong, true, None, None,
        None, UserStats::zero(), "a".to_string(), "r".to_string());
    assert!(!r.user.verified);
}

#[test]
fn auth_response_carries_user_tokens_and_ngo_profile() {
    let stats = user_stats_from_counts(3, -1, 2);
    let r = auth_response("u1", "Ana", "ana@x.com", Some("https://img"), AccountType::Person, true,
        Some("female".to_string()), None, None, stats, "access".to_string(), "refresh".to_string());
    assert_eq!(r.user.id, "u1");
    assert_eq!(r.user.name, "Ana");
    assert_eq!(r.user.email, "ana@x.com");
    assert_eq!(r.user.avatar.as_deref(), Some("https://img"));
    assert_eq!(r.user.bio, "Apaixonada por animais");
    assert!(r.user.verified);
    assert_eq!(r.user.posts_count, 3);
    assert_eq!(r.user.helped_count, 0);
    assert_eq!(r.user.adoptions_count, 2);
    assert_eq!(r.access_token, "access");
    assert_eq!(r.refresh_token, "refresh");
    assert_eq!(r.token_type, "Bearer");
    assert!(r.ong_profile.is_none());

    let r = auth_response("u2", "Patas", "p@x.org", None, AccountType::Ong, false, None, None,
        Some(ong_record("APPROVED")), UserStats::zero(), "a".to_string(), "b".to_string());
    let ong = r.ong_profile.unwrap();
    assert_eq!(ong.legal_name, "Patas");
    assert_eq!(ong.foundation_year, Some(2001));
    assert_eq!(ong.verification_status, "APPROVED");
}

#[test]
fn fallback_response_is_unverified_and_empty() {
    let r = issue_fallback_response("me", "ana", "ana@x.com", None, AccountType::Person, None, None,
        "tok".to_string(), "ref".to_string());
    assert_eq!(r.user.id, "me");
    assert!(!r.user.verified);
    assert_eq!(r.user.posts_count, 0);
    assert!(r.user.profile_address.is_none());
    assert_eq!(r.token_type, "Bearer");
}

#[test]
fn profile_address_only_when_some_part_is_known() {
    let mut rec = user_record(AccountType::Person, true);
    assert!(profile_address_from_record(&rec).is_none());
    rec.city = s("Recife");
    let a = profile_address_from_record(&rec).unwrap();
    assert_eq!(a.city.as_deref(), Some("Recife"));
    assert!(a.cep.is_none());
}

#[test]
fn current_user_response_describes_the_stored_user() {
    let mut rec = user_record(AccountType::Vet, true);
    rec.state = s("PE");
    let r = current_user_response(rec, None, user_stats_from_counts(1, 2, 3));
    assert_eq!(r.user.id, "0190-abc");
    assert_eq!(r.user.gender.as_deref(), Some("female"));
    assert!(r.user.verified);
    assert_eq!(r.user.helped_count, 2);
    assert_eq!(r.user.profile_address.unwrap().state.as_deref(), Some("PE"));

    let rec = user_record(AccountType::Ong, true);
    let r = current_user_response(rec, Some(ong_record("REJECTED")), UserStats::zero());
    assert!(!r.user.verified);
    assert_eq!(r.ong_profile.unwrap().verification_status, "REJECTED");
}

#[test]
fn normalizing_twice_changes_nothing() {
    for v in ["  a  ", "b", "   ", "\u{3000}c d\u{a0}"] {
        let once = normalize_optional(Some(v));
        let twice = normalize_optional(once.as_deref());
        assert_eq!(once, twice);
    }
}

#[test]
fn registration_user_row_keeps_payload_fields() {
    let mut p = ong_payload();
    p.gender = s(" male ");
    p.avatar = s("https://img/x.png");
    let row = registration_user_row(&p, AccountType::Ong, "$argon2id$v=19$h".to_string());
    assert_eq!(row.name, "  Patas Unidas ");
    assert_eq!(row.email, "contato@patas.org");
    assert_eq!(row.avatar.as_deref(), Some("https://img/x.png"));
    assert_eq!(row.password_hash, "$argon2id$v=19$h");
    assert!(!row.verified);
    assert_eq!(row.gender.as_deref(), Some("male"));
    assert_eq!(row.state.as_deref(), Some(" SP "));
    let row = registration_user_row(&p, AccountType::Vet, String::new());
    assert!(row.verified);
    p.gender = s("unknown");
    assert!(registration_user_row(&p, AccountType::Person, String::new()).gender.is_none());
}

#[test]
fn current_year_comes_from_the_clock() {
    let y = current_year().unwrap();
    assert!(y >= 2024 && y <= 262142);
    assert_ne!(y, 2100);
}

#[test]
fn without_a_clock_only_the_foundation_year_check_fails() {
    let p = ong_payload();
    assert!(matches!(
        validate_ong_payload_with_clock(&p, AccountType::Ong, None),
        Err(AuthError::Internal)
    ));

    let mut q = ong_payload();
    q.foundation_year = None;
    assert!(validate_ong_payload_with_clock(&q, AccountType::Ong, None).is_ok());

    assert!(validate_ong_payload_with_clock(&p, AccountType::Person, None).is_ok());

    let mut q = ong_payload();
    q.phone = s(" ");
    assert_eq!(
        validation_text(validate_ong_payload_with_clock(&q, AccountType::Ong, None)),
        "phone is required for ONG accounts"
    );

    let mut q = ong_payload();
    q.foundation_year = Some(2030);
    assert_eq!(
        validation_text(validate_ong_payload_with_clock(&q, AccountType::Ong, Some(2025))),
        "foundationYear is invalid"
    );
    assert!(validate_ong_payload_with_clock(&q, AccountType::Ong, Some(2031)).is_ok());
}
