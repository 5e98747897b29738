//! Identity payloads and responses: registration and profile rules, and
//! how the user and NGO profiles in a response are put together.

use vstd::prelude::*;
use crate::account::{AccountType, AuthError, is_validation_error, validation_error};
use crate::config::{clone_opt, opt_view};
use crate::number::{parse_i32, parse_i64_spec};
use crate::text::{
    count_ascii_digits, ascii_digit_count, lemma_trim_idempotent, owned, str_eq, trim, trim_str,
    utf8_len,
};

verus! {

/// Login payload.
pub struct LoginRequest {
    pub email: String,
    pub password: String,
}

/// Registration payload.
pub struct RegisterRequest {
    pub name: String,
    pub email: String,
    pub password: String,
    pub account_type: Option<AccountType>,
    pub gender: Option<String>,
    pub avatar: Option<String>,
    pub ong_type: Option<String>,
    pub cnpj: Option<String>,
    pub phone: Option<String>,
    pub cep: Option<String>,
    pub street: Option<String>,
    pub number: Option<String>,
    pub complement: Option<String>,
    pub neighborhood: Option<String>,
    pub city: Option<String>,
    pub state: Option<String>,
    pub foundation_year: Option<i32>,
}

/// Request for a password-reset message.
pub struct PasswordResetRequest {
    pub email: String,
}

/// New password with the token that a reset message carried.
pub struct ConfirmPasswordResetRequest {
    pub token: String,
    pub password: String,
}

/// Query of the e-mail verification link.
pub struct VerifyEmailQuery {
    pub token: String,
}

/// New avatar picture.
pub struct UpdateAvatarRequest {
    pub avatar_url: String,
}

/// New name and address of a profile.
pub struct UpdateProfileRequest {
    pub name: String,
    pub cep: Option<String>,
    pub street: Option<String>,
    pub number: Option<String>,
    pub complement: Option<String>,
    pub neighborhood: Option<String>,
    pub city: Option<String>,
    pub state: Option<String>,
}

/// Postal address shown on a profile.
pub struct ProfileAddress {
    pub cep: Option<String>,
    pub street: Option<String>,
    pub number: Option<String>,
    pub complement: Option<String>,
    pub neighborhood: Option<String>,
    pub city: Option<String>,
    pub state: Option<String>,
}

/// A user as the client sees it.
pub struct UserProfile {
    pub id: String,
    pub name: String,
    pub email: String,
    pub avatar: Option<String>,
    pub bio: String,
    pub account_type: AccountType,
    pub verified: bool,
    pub gender: Option<String>,
    pub posts_count: u32,
    pub helped_count: u32,
    pub adoptions_count: u32,
    pub profile_address: Option<ProfileAddress>,
}

/// An NGO's registration details as the client sees them.
pub struct OngRegistrationProfile {
    pub legal_name: String,
    pub ong_type: Option<String>,
    pub cnpj: Option<String>,
    pub phone: Option<String>,
    pub cep: Option<String>,
    pub street: Option<String>,
    pub number: Option<String>,
    pub complement: Option<String>,
    pub neighborhood: Option<String>,
    pub city: Option<String>,
    pub state: Option<String>,
    pub foundation_year: Option<i32>,
    pub verification_status: String,
}

/// Answer to a successful login or registration.
pub struct AuthResponse {
    pub user: UserProfile,
    pub ong_profile: Option<OngRegistrationProfile>,
    pub access_token: String,
    pub refresh_token: String,
    pub token_type: String,
}

/// Answer describing the signed-in user.
pub struct CurrentUserResponse {
    pub user: UserProfile,
    pub ong_profile: Option<OngRegistrationProfile>,
}

/// Answer to an action that was accepted.
pub struct ActionQueuedResponse {
    pub status: String,
}

/// Answer to an avatar change.
pub struct UpdateAvatarResponse {
    pub avatar_url: String,
}

/// Activity counters of a user.
pub struct UserStats {
    pub posts_count: u32,
    pub helped_count: u32,
    pub adoptions_count: u32,
}

/// A stored user.
pub struct UserRecord {
    pub id: String,
    pub name: String,
    pub email: String,
    pub avatar: Option<String>,
    pub password_hash: String,
    pub account_type: AccountType,
    pub verified: bool,
    pub gender: Option<String>,
    pub cep: Option<String>,
    pub street: Option<String>,
    pub number: Option<String>,
    pub complement: Option<String>,
    pub neighborhood: Option<String>,
    pub city: Option<String>,
    pub state: Option<String>,
}

/// A stored NGO profile.
pub struct OngRecord {
    pub legal_name: String,
    pub ong_type: Option<String>,
    pub cnpj: Option<String>,
    pub phone: Option<String>,
    pub cep: Option<String>,
    pub street: Option<String>,
    pub number: Option<String>,
    pub complement: Option<String>,
    pub neighborhood: Option<String>,
    pub city: Option<String>,
    pub state: Option<String>,
    pub foundation_year: Option<i32>,
    pub verification_status: String,
}

/// The view of an optional string slice.
pub open spec fn opt_str_view(o: Option<&str>) -> Option<Seq<char>> {
    match o {
        Some(s) => Some(s@),
        None => None,
    }
}

/// Trimmed, and absent where nothing but white space is left.
pub open spec fn spec_normalize(o: Option<Seq<char>>) -> Option<Seq<char>> {
    match o {
        Some(s) => if trim(s).len() > 0 {
            Some(trim(s))
        } else {
            None
        },
        None => None,
    }
}

/// Law: normalizing a value that is already normalized leaves it as it is.
pub proof fn lemma_normalize_is_idempotent(o: Option<Seq<char>>)
    ensures
        spec_normalize(spec_normalize(o)) == spec_normalize(o),
{
    if let Some(s) = o {
        lemma_trim_idempotent(s);
    }
}

/// Trims an optional value; what is blank becomes absent.
pub fn normalize_optional(value: Option<&str>) -> (r: Option<String>)
    ensures
        opt_view(r) == spec_normalize(opt_str_view(value)),
{
    match value {
        Some(v) => {
            let t = trim_str(v);
            if t.unicode_len() > 0 {
                Some(owned(t))
            } else {
                None
            }
        },
        None => None,
    }
}

/// The gender kept on an account: the trimmed value where it is `male`
/// or `female`, otherwise none.
pub open spec fn spec_normalize_gender(o: Option<Seq<char>>) -> Option<Seq<char>> {
    match o {
        Some(s) => if trim(s) == "male"@ || trim(s) == "female"@ {
            Some(trim(s))
        } else {
            None
        },
        None => None,
    }
}

/// Keeps a gender only where it is `male` or `female` once trimmed.
pub fn normalize_gender(value: Option<&str>) -> (r: Option<String>)
    ensures
        opt_view(r) == spec_normalize_gender(opt_str_view(value)),
        r matches Some(g) ==> g@ == "male"@ || g@ == "female"@,
{
    match value {
        Some(v) => {
            let t = trim_str(v);
            if str_eq(t, "male") || str_eq(t, "female") {
                Some(owned(t))
            } else {
                None
            }
        },
        None => None,
    }
}

/// The mission statement stored for a new NGO of the given kind.
pub open spec fn spec_default_mission(ong_type: Option<Seq<char>>) -> Seq<char> {
    match ong_type {
        Some(t) => if t == "rescue"@ {
            "Resgate e atendimento de animais em situação de risco."@
        } else if t == "adoption"@ {
            "Adoção responsável e acompanhamento pós-adoção."@
        } else if t == "vet"@ || t == "hospital"@ {
            "Atendimento veterinário e suporte clínico."@
        } else if t == "welfare"@ {
            "Bem-estar animal e proteção comunitária."@
        } else {
            "Proteção animal e apoio à comunidade."@
        },
        None => "Proteção animal e apoio à comunidade."@,
    }
}

/// Law: each NGO kind gets its own mission statement: rescue, adoption,
/// clinical care for `vet` and `hospital` alike, and welfare; any other
/// kind, and no kind at all, get the general one.
pub proof fn lemma_missions_by_kind(t: Seq<char>)
    ensures
        spec_default_mission(Some("rescue"@)) == "Resgate e atendimento de animais em situação de risco."@,
        spec_default_mission(Some("adoption"@)) == "Adoção responsável e acompanhamento pós-adoção."@,
        spec_default_mission(Some("vet"@)) == "Atendimento veterinário e suporte clínico."@,
        spec_default_mission(Some("hospital"@)) == "Atendimento veterinário e suporte clínico."@,
        spec_default_mission(Some("welfare"@)) == "Bem-estar animal e proteção comunitária."@,
        spec_default_mission(None) == "Proteção animal e apoio à comunidade."@,
        t != "rescue"@ && t != "adoption"@ && t != "vet"@ && t != "hospital"@ && t != "welfare"@
            ==> spec_default_mission(Some(t)) == "Proteção animal e apoio à comunidade."@,
{
    reveal_strlit("rescue");
    reveal_strlit("adoption");
    reveal_strlit("vet");
    reveal_strlit("hospital");
    reveal_strlit("welfare");
    assert("rescue"@.len() == 6 && "adoption"@.len() == 8 && "vet"@.len() == 3);
    assert("hospital"@.len() == 8 && "welfare"@.len() == 7);
    assert("adoption"@[0] == 'a' && "hospital"@[0] == 'h');
    assert("adoption"@ != "rescue"@);
    assert("vet"@ != "rescue"@ && "vet"@ != "adoption"@);
    assert("hospital"@ != "rescue"@ && "hospital"@ != "adoption"@ && "hospital"@ != "vet"@);
    assert("welfare"@ != "rescue"@ && "welfare"@ != "adoption"@ && "welfare"@ != "vet"@
        && "welfare"@ != "hospital"@);
}

/// The mission statement stored for a new NGO of the given kind.
pub fn default_mission(ong_type: Option<&str>) -> (r: &'static str)
    ensures
        r@ == spec_default_mission(opt_str_view(ong_type)),
{
    match ong_type {
        Some(t) => {
            if str_eq(t, "rescue") {
                "Resgate e atendimento de animais em situação de risco."
            } else if str_eq(t, "adoption") {
                "Adoção responsável e acompanhamento pós-adoção."
            } else if str_eq(t, "vet") || str_eq(t, "hospital") {
                "Atendimento veterinário e suporte clínico."
            } else if str_eq(t, "welfare") {
                "Bem-estar animal e proteção comunitária."
            } else {
                "Proteção animal e apoio à comunidade."
            }
        },
        None => "Proteção animal e apoio à comunidade.",
    }
}

/// The optional value as a slice.
pub(crate) fn opt_as_str(o: &Option<String>) -> (r: Option<&str>)
    ensures
        opt_str_view(r) == opt_view(*o),
{
    match o {
        Some(s) => Some(s.as_str()),
        None => None,
    }
}

impl ProfileAddress {
    pub open spec fn is_copy_of_record(self, r: UserRecord) -> bool {
        &&& self.cep == r.cep
        &&& self.street == r.street
        &&& self.number == r.number
        &&& self.complement == r.complement
        &&& self.neighborhood == r.neighborhood
        &&& self.city == r.city
        &&& self.state == r.state
    }
}

impl UserRecord {
    pub open spec fn has_no_address(self) -> bool {
        &&& self.cep is None
        &&& self.street is None
        &&& self.number is None
        &&& self.complement is None
        &&& self.neighborhood is None
        &&& self.city is None
        &&& self.state is None
    }
}

/// The address on a stored user, absent where every part of it is absent.
pub fn profile_address_from_record(record: &UserRecord) -> (r: Option<ProfileAddress>)
    ensures
        r is None <==> record.has_no_address(),
        r matches Some(a) ==> a.is_copy_of_record(*record),
{
    if record.cep.is_none() && record.street.is_none() && record.number.is_none()
        && record.complement.is_none() && record.neighborhood.is_none() && record.city.is_none()
        && record.state.is_none() {
        return None;
    }
    Some(
        ProfileAddress {
            cep: clone_opt(&record.cep),
            street: clone_opt(&record.street),
            number: clone_opt(&record.number),
            complement: clone_opt(&record.complement),
            neighborhood: clone_opt(&record.neighborhood),
            city: clone_opt(&record.city),
            state: clone_opt(&record.state),
        },
    )
}

impl UserStats {
    /// No activity.
    pub fn zero() -> (r: UserStats)
        ensures
            r.posts_count == 0 && r.helped_count == 0 && r.adoptions_count == 0,
    {
        UserStats { posts_count: 0, helped_count: 0, adoptions_count: 0 }
    }
}

/// Counter read from storage, negative values taken as zero.
pub open spec fn clamp_count(n: i32) -> u32 {
    if n < 0 {
        0
    } else {
        n as u32
    }
}

/// Activity counters from the counts that storage returned.
pub fn user_stats_from_counts(posts: i32, helped: i32, adoptions: i32) -> (r: UserStats)
    ensures
        r.posts_count == clamp_count(posts),
        r.helped_count == clamp_count(helped),
        r.adoptions_count == clamp_count(adoptions),
{
    UserStats {
        posts_count: if posts < 0 { 0 } else { posts as u32 },
        helped_count: if helped < 0 { 0 } else { helped as u32 },
        adoptions_count: if adoptions < 0 { 0 } else { adoptions as u32 },
    }
}

impl OngRegistrationProfile {
    /// The profile shows the record's fields unchanged.
    pub open spec fn shows(self, r: OngRecord) -> bool {
        &&& self.legal_name == r.legal_name
        &&& self.ong_type == r.ong_type
        &&& self.cnpj == r.cnpj
        &&& self.phone == r.phone
        &&& self.cep == r.cep
        &&& self.street == r.street
        &&& self.number == r.number
        &&& self.complement == r.complement
        &&& self.neighborhood == r.neighborhood
        &&& self.city == r.city
        &&& self.state == r.state
        &&& self.foundation_year == r.foundation_year
        &&& self.verification_status == r.verification_status
    }
}

pub open spec fn shows_ong(p: Option<OngRegistrationProfile>, r: Option<OngRecord>) -> bool {
    match (p, r) {
        (Some(p), Some(r)) => p.shows(r),
        (None, None) => true,
        _ => false,
    }
}

/// The NGO profile that shows a stored NGO.
fn ong_profile_of(record: OngRecord) -> (r: OngRegistrationProfile)
    ensures
        r.shows(record),
{
    OngRegistrationProfile {
        legal_name: record.legal_name,
        ong_type: record.ong_type,
        cnpj: record.cnpj,
        phone: record.phone,
        cep: record.cep,
        street: record.street,
        number: record.number,
        complement: record.complement,
        neighborhood: record.neighborhood,
        city: record.city,
        state: record.state,
        foundation_year: record.foundation_year,
        verification_status: record.verification_status,
    }
}

/// Whether an NGO's registration was approved by manual review.
pub open spec fn is_approved(r: Option<OngRecord>) -> bool {
    match r {
        Some(o) => o.verification_status@ == "APPROVED"@,
        None => false,
    }
}

/// Whether a profile shows as verified: an NGO only once its registration
/// is approved, any other account as stored.
pub open spec fn spec_user_verified(
    account_type: AccountType,
    verified: bool,
    ong: Option<OngRecord>,
) -> bool {
    if account_type == AccountType::Ong {
        is_approved(ong)
    } else {
        verified
    }
}

fn user_verified(account_type: AccountType, verified: bool, ong: &Option<OngRecord>) -> (r: bool)
    ensures
        r == spec_user_verified(account_type, verified, *ong),
{
    match account_type {
        AccountType::Ong => match ong {
            Some(o) => str_eq(o.verification_status.as_str(), "APPROVED"),
            None => false,
        },
        _ => verified,
    }
}

pub open spec fn bio_text() -> Seq<char> {
    "Apaixonada por animais"@
}

/// Assembles the answer to a login or registration.
pub fn auth_response(
    id: &str,
    name: &str,
    email: &str,
    avatar: Option<&str>,
    account_type: AccountType,
    verified: bool,
    gender: Option<String>,
    profile_address: Option<ProfileAddress>,
    ong_record: Option<OngRecord>,
    stats: UserStats,
    access_token: String,
    refresh_token: String,
) -> (r: AuthResponse)
    ensures
        r.user.id@ == id@,
        r.user.name@ == name@,
        r.user.email@ == email@,
        opt_view(r.user.avatar) == opt_str_view(avatar),
        r.user.bio@ == bio_text(),
        r.user.account_type == account_type,
        r.user.verified == spec_user_verified(account_type, verified, ong_record),
        r.user.gender == gender,
        r.user.posts_count == stats.posts_count,
        r.user.helped_count == stats.helped_count,
        r.user.adoptions_count == stats.adoptions_count,
        r.user.profile_address == profile_address,
        shows_ong(r.ong_profile, ong_record),
        r.access_token == access_token,
        r.refresh_token == refresh_token,
        r.token_type@ == "Bearer"@,
{
    let user_verified = user_verified(account_type, verified, &ong_record);
    let ong_profile = match ong_record {
        Some(record) => Some(ong_profile_of(record)),
        None => None,
    };
    let avatar = match avatar {
        Some(a) => Some(owned(a)),
        None => None,
    };
    AuthResponse {
        user: UserProfile {
            id: owned(id),
            name: owned(name),
            email: owned(email),
            avatar,
            bio: String::from_str("Apaixonada por animais"),
            account_type,
            verified: user_verified,
            gender,
            posts_count: stats.posts_count,
            helped_count: stats.helped_count,
            adoptions_count: stats.adoptions_count,
            profile_address,
        },
        ong_profile,
        access_token,
        refresh_token,
        token_type: String::from_str("Bearer"),
    }
}

/// Answer for a sign-in or registration made while storage is unreachable
/// in development: the account shows as unverified, without address or
/// activity.
pub fn issue_fallback_response(
    id: &str,
    name: &str,
    email: &str,
    avatar: Option<&str>,
    account_type: AccountType,
    gender: Option<String>,
    ong_record: Option<OngRecord>,
    access_token: String,
    refresh_token: String,
) -> (r: AuthResponse)
    ensures
        r.user.id@ == id@,
        r.user.name@ == name@,
        r.user.email@ == email@,
        opt_view(r.user.avatar) == opt_str_view(avatar),
        r.user.bio@ == bio_text(),
        r.user.account_type == account_type,
        r.user.verified == spec_user_verified(account_type, false, ong_record),
        r.user.gender == gender,
        r.user.posts_count == 0,
        r.user.helped_count == 0,
        r.user.adoptions_count == 0,
        r.user.profile_address is None,
        shows_ong(r.ong_profile, ong_record),
        r.access_token == access_token,
        r.refresh_token == refresh_token,
        r.token_type@ == "Bearer"@,
{
    auth_response(
        id,
        name,
        email,
        avatar,
        account_type,
        false,
        gender,
        None,
        ong_record,
        UserStats::zero(),
        access_token,
        refresh_token,
    )
}

/// Assembles the answer describing a stored user.
pub fn current_user_response(
    record: UserRecord,
    ong_record: Option<OngRecord>,
    stats: UserStats,
) -> (r: CurrentUserResponse)
    ensures
        r.user.id == record.id,
        r.user.name == record.name,
        r.user.email == record.email,
        r.user.avatar == record.avatar,
        r.user.bio@ == bio_text(),
        r.user.account_type == record.account_type,
        r.user.verified == spec_user_verified(record.account_type, record.verified, ong_record),
        r.user.gender == record.gender,
        r.user.posts_count == stats.posts_count,
        r.user.helped_count == stats.helped_count,
        r.user.adoptions_count == stats.adoptions_count,
        r.user.profile_address is None <==> record.has_no_address(),
        r.user.profile_address matches Some(a) ==> a.is_copy_of_record(record),
        shows_ong(r.ong_profile, ong_record),
{
    let user_verified = user_verified(record.account_type, record.verified, &ong_record);
    let profile_address = profile_address_from_record(&record);
    let ong_profile = match ong_record {
        Some(o) => Some(ong_profile_of(o)),
        None => None,
    };
    CurrentUserResponse {
        user: UserProfile {
            id: record.id,
            name: record.name,
            email: record.email,
            avatar: record.avatar,
            bio: String::from_str("Apaixonada por animais"),
            account_type: record.account_type,
            verified: user_verified,
            gender: record.gender,
            posts_count: stats.posts_count,
            helped_count: stats.helped_count,
            adoptions_count: stats.adoptions_count,
            profile_address,
        },
        ong_profile,
    }
}

/// Whether an optional field is absent or holds nothing but white space.
pub open spec fn is_blank(o: Option<String>) -> bool {
    match o {
        Some(s) => trim(s@).len() == 0,
        None => true,
    }
}

fn blank(o: &Option<String>) -> (r: bool)
    ensures
        r == is_blank(*o),
{
    match o {
        Some(s) => trim_str(s.as_str()).unicode_len() == 0,
        None => true,
    }
}

/// The rule of a registration payload that is broken first among those
/// checked before the foundation year: the gender, then, for an NGO, the
/// required fields and the UF; none where all of these hold.
pub open spec fn spec_field_problem(p: RegisterRequest, account_type: AccountType) -> Option<
    Seq<char>,
> {
    if (p.gender matches Some(g) && trim(g@).len() > 0 && trim(g@) != "male"@ && trim(g@)
        != "female"@) {
        Some("gender must be male or female"@)
    } else if account_type != AccountType::Ong {
        None
    } else if is_blank(p.ong_type) {
        Some("ongType is required for ONG accounts"@)
    } else if is_blank(p.phone) {
        Some("phone is required for ONG accounts"@)
    } else if is_blank(p.city) {
        Some("city is required for ONG accounts"@)
    } else if is_blank(p.cep) {
        Some("cep is required for ONG accounts"@)
    } else if is_blank(p.street) {
        Some("street is required for ONG accounts"@)
    } else if is_blank(p.number) {
        Some("number is required for ONG accounts"@)
    } else if (match p.state {
        Some(s) => utf8_len(trim(s@)) != 2,
        None => true,
    }) {
        Some("state must be a 2-letter UF"@)
    } else {
        None
    }
}

/// The rule of a registration payload that is broken first, as its text,
/// given the current year; none where the payload is acceptable.
pub open spec fn spec_registration_problem(
    p: RegisterRequest,
    account_type: AccountType,
    current_year: int,
) -> Option<Seq<char>> {
    if spec_field_problem(p, account_type) is Some {
        spec_field_problem(p, account_type)
    } else if account_type != AccountType::Ong {
        None
    } else if (p.foundation_year matches Some(y) && (y < 1900 || y > current_year)) {
        Some("foundationYear is invalid"@)
    } else if (p.cnpj matches Some(c) && trim(c@).len() > 0 && count_ascii_digits(trim(c@))
        != 14) {
        Some("cnpj must contain 14 digits when provided"@)
    } else {
        None
    }
}

/// Whether checking the payload comes to its foundation year, the one
/// check that needs the current year.
pub open spec fn reaches_year_check(p: RegisterRequest, account_type: AccountType) -> bool {
    &&& spec_field_problem(p, account_type) is None
    &&& account_type == AccountType::Ong
    &&& p.foundation_year is Some
}

/// Whether an outcome answers a problem: no problem gives `Ok`, a problem
/// gives the validation refusal with its text.
pub open spec fn answers(r: Result<(), AuthError>, problem: Option<Seq<char>>) -> bool {
    match problem {
        None => r is Ok,
        Some(msg) => r matches Err(e) && is_validation_error(e, msg),
    }
}

/// The answer to a registration payload given what the clock gave: with
/// a current year, the answer for that year; without one, an internal
/// failure where the foundation year must be checked, and otherwise the
/// answer, which then does not depend on the year.
pub open spec fn answers_with_clock(
    r: Result<(), AuthError>,
    p: RegisterRequest,
    account_type: AccountType,
    current_year: Option<i32>,
) -> bool {
    match current_year {
        Some(y) => answers(r, spec_registration_problem(p, account_type, y as int)),
        None => if reaches_year_check(p, account_type) {
            r matches Err(AuthError::Internal)
        } else {
            answers(r, spec_registration_problem(p, account_type, 0))
        },
    }
}

/// Law: the gender rule refuses exactly a gender that, once trimmed, is
/// neither empty nor `male` nor `female`: `male`, `female`, a blank gender
/// and no gender never draw the gender refusal, for any kind of account
/// and any current year. For an account that is not an NGO nothing else is
/// checked, so such a registration is accepted exactly when its gender is.
pub proof fn lemma_gender_rule(p: RegisterRequest, account_type: AccountType, current_year: int)
    ensures
        (spec_registration_problem(p, account_type, current_year) == Some(
            "gender must be male or female"@,
        )) <==> (p.gender matches Some(g) && trim(g@).len() > 0 && trim(g@) != "male"@ && trim(
            g@,
        ) != "female"@),
        (spec_field_problem(p, account_type) == Some("gender must be male or female"@)) <==> (
        p.gender matches Some(g) && trim(g@).len() > 0 && trim(g@) != "male"@ && trim(g@)
            != "female"@),
        account_type != AccountType::Ong ==> ((spec_registration_problem(
            p,
            account_type,
            current_year,
        ) is None) <==> !(p.gender matches Some(g) && trim(g@).len() > 0 && trim(g@) != "male"@
            && trim(g@) != "female"@)),
{
    reveal_strlit("gender must be male or female");
    reveal_strlit("ongType is required for ONG accounts");
    reveal_strlit("phone is required for ONG accounts");
    reveal_strlit("city is required for ONG accounts");
    reveal_strlit("cep is required for ONG accounts");
    reveal_strlit("street is required for ONG accounts");
    reveal_strlit("number is required for ONG accounts");
    reveal_strlit("state must be a 2-letter UF");
    reveal_strlit("foundationYear is invalid");
    reveal_strlit("cnpj must contain 14 digits when provided");
    let gender_msg = "gender must be male or female"@;
    assert(gender_msg.len() == 29);
    assert("ongType is required for ONG accounts"@.len() == 36);
    assert("ongType is required for ONG accounts"@ != gender_msg);
    assert("phone is required for ONG accounts"@.len() == 34);
    assert("phone is required for ONG accounts"@ != gender_msg);
    assert("city is required for ONG accounts"@.len() == 33);
    assert("city is required for ONG accounts"@ != gender_msg);
    assert("cep is required for ONG accounts"@.len() == 32);
    assert("cep is required for ONG accounts"@ != gender_msg);
    assert("street is required for ONG accounts"@.len() == 35);
    assert("street is required for ONG accounts"@ != gender_msg);
    assert("number is required for ONG accounts"@.len() == 35);
    assert("number is required for ONG accounts"@ != gender_msg);
    assert("state must be a 2-letter UF"@.len() == 27);
    assert("state must be a 2-letter UF"@ != gender_msg);
    assert("foundationYear is invalid"@.len() == 25);
    assert("foundationYear is invalid"@ != gender_msg);
    assert("cnpj must contain 14 digits when provided"@.len() == 41);
    assert("cnpj must contain 14 digits when provided"@ != gender_msg);
}

/// Law: an NGO registration is accepted when its gender is absent, blank,
/// `male` or `female`; its NGO kind, phone, city, CEP, street and number are
/// present and not blank; its UF has two bytes once trimmed; its foundation
/// year, where given, lies between 1900 and the current year; and its CNPJ,
/// where given and not blank, has 14 digits. A foundation year outside
/// that span is refused as invalid, whatever the CNPJ.
pub proof fn lemma_complete_ngo_registration_is_accepted(p: RegisterRequest, current_year: int)
    requires
        p.gender matches Some(g) ==> (trim(g@).len() == 0 || trim(g@) == "male"@ || trim(g@)
            == "female"@),
        p.ong_type matches Some(s) && trim(s@).len() > 0,
        p.phone matches Some(s) && trim(s@).len() > 0,
        p.city matches Some(s) && trim(s@).len() > 0,
        p.cep matches Some(s) && trim(s@).len() > 0,
        p.street matches Some(s) && trim(s@).len() > 0,
        p.number matches Some(s) && trim(s@).len() > 0,
        p.state matches Some(s) && utf8_len(trim(s@)) == 2,
    ensures
        (p.foundation_year matches Some(f) && (f < 1900 || f > current_year)) ==> spec_registration_problem(
            p,
            AccountType::Ong,
            current_year,
        ) == Some("foundationYear is invalid"@),
        (p.foundation_year matches Some(f) ==> 1900 <= f <= current_year) && (p.cnpj matches Some(
            c,
        ) ==> (trim(c@).len() == 0 || count_ascii_digits(trim(c@)) == 14))
            ==> spec_registration_problem(p, AccountType::Ong, current_year) is None,
{
}

/// Checks the gender of a registration and, for an NGO, its required
/// fields and UF.
pub fn check_registration_fields(payload: &RegisterRequest, account_type: AccountType) -> (r:
    Result<(), AuthError>)
    ensures
        answers(r, spec_field_problem(*payload, account_type)),
{
    match &payload.gender {
        Some(g) => {
            let t = trim_str(g.as_str());
            if t.unicode_len() > 0 && !(str_eq(t, "male") || str_eq(t, "female")) {
                return Err(validation_error("gender must be male or female"));
            }
        },
        None => {},
    }
    match account_type {
        AccountType::Ong => {},
        _ => return Ok(()),
    }
    if blank(&payload.ong_type) {
        return Err(validation_error("ongType is required for ONG accounts"));
    }
    if blank(&payload.phone) {
        return Err(validation_error("phone is required for ONG accounts"));
    }
    if blank(&payload.city) {
        return Err(validation_error("city is required for ONG accounts"));
    }
    if blank(&payload.cep) {
        return Err(validation_error("cep is required for ONG accounts"));
    }
    if blank(&payload.street) {
        return Err(validation_error("street is required for ONG accounts"));
    }
    if blank(&payload.number) {
        return Err(validation_error("number is required for ONG accounts"));
    }
    let state_ok = match &payload.state {
        Some(s) => trim_str(s.as_str()).len() == 2,
        None => false,
    };
    if !state_ok {
        return Err(validation_error("state must be a 2-letter UF"));
    }
    Ok(())
}

/// Checks the gender of a registration and, for an NGO, its required
/// fields, UF, foundation year (against `current_year`) and CNPJ.
pub fn validate_ong_payload_in_year(
    payload: &RegisterRequest,
    account_type: AccountType,
    current_year: i32,
) -> (r: Result<(), AuthError>)
    ensures
        answers(r, spec_registration_problem(*payload, account_type, current_year as int)),
{
    match check_registration_fields(payload, account_type) {
        Err(e) => return Err(e),
        Ok(()) => {},
    }
    match account_type {
        AccountType::Ong => {},
        _ => return Ok(()),
    }
    match payload.foundation_year {
        Some(year) => {
            if year < 1900 || year > current_year {
                return Err(validation_error("foundationYear is invalid"));
            }
        },
        None => {},
    }
    match &payload.cnpj {
        Some(c) => {
            let t = trim_str(c.as_str());
            if t.unicode_len() > 0 && ascii_digit_count(t) != 14 {
                return Err(validation_error("cnpj must contain 14 digits when provided"));
            }
        },
        None => {},
    }
    Ok(())
}

/// Oldest year of a `chrono` date (`MIN_YEAR`, `(i32::MIN >> 13) + 1`).
pub open spec fn chrono_min_year() -> int {
    -262143
}

/// Latest year of a `chrono` date (`MAX_YEAR`, `(i32::MAX >> 13) - 1`).
pub open spec fn chrono_max_year() -> int {
    262142
}

/// `SystemTime::now().duration_since(UNIX_EPOCH)` in whole seconds;
/// `None` where the clock reads before 1970. Nothing is stated: what the
/// clock reads is the machine's affair.
#[verifier::external_body]
fn seconds_since_unix_epoch() -> Option<u64> {
    match std::time::SystemTime::now().duration_since(std::time::UNIX_EPOCH) {
        Ok(elapsed) => Some(elapsed.as_secs()),
        Err(_) => None,
    }
}

/// The year of the UTC date at a Unix timestamp, as `chrono` writes it with
/// `%Y`. Named, not written out.
pub uninterp spec fn chrono_year_text(secs: i64) -> Seq<char>;

/// `DateTime::<Utc>::from_timestamp(secs, 0)`, its date's year written with
/// `format("%Y")`. Claimed, from chrono's source and documentation:
/// - a text that comes back is the one for this timestamp;
/// - `%Y` writes the year in decimal (zero-padded, with a sign outside
///   0..=9999), so it parses as an integer, and chrono's dates lie in the
///   years -262143 to 262142;
/// - every timestamp from 1970 up to the end of the year 9999 is in range,
///   so it gives a text.
#[verifier::external_body]
fn utc_year_text_at(secs: i64) -> (r: Option<String>)
    ensures
        r matches Some(t) ==> t@ == chrono_year_text(secs),
        r matches Some(t) ==> parse_i64_spec(t@) is Some,
        r matches Some(t) ==> chrono_min_year() <= parse_i64_spec(t@)->0 <= chrono_max_year(),
        0 <= secs <= 253402300799 ==> r is Some,
{
    match chrono::DateTime::<chrono::Utc>::from_timestamp(secs, 0) {
        Some(at) => Some(at.date_naive().format("%Y").to_string()),
        None => None,
    }
}

/// The current UTC year, read from the clock as chrono writes it (2100
/// where the text does not parse). `None` where the clock reads before
/// 1970 or past the dates that chrono holds.
pub fn current_year() -> (r: Option<i32>)
    ensures
        r matches Some(y) ==> chrono_min_year() <= y <= chrono_max_year(),
{
    let secs = match seconds_since_unix_epoch() {
        Some(s) => s,
        None => return None,
    };
    if secs > 9223372036854775807u64 {
        return None;
    }
    match utc_year_text_at(secs as i64) {
        Some(text) => match parse_i32(text.as_str()) {
            Some(y) => Some(y),
            None => Some(2100),
        },
        None => None,
    }
}

/// Checks a registration payload against what the clock gave: see
/// `answers_with_clock`.
pub fn validate_ong_payload_with_clock(
    payload: &RegisterRequest,
    account_type: AccountType,
    current_year: Option<i32>,
) -> (r: Result<(), AuthError>)
    ensures
        answers_with_clock(r, *payload, account_type, current_year),
{
    match current_year {
        Some(y) => validate_ong_payload_in_year(payload, account_type, y),
        None => {
            match check_registration_fields(payload, account_type) {
                Err(e) => return Err(e),
                Ok(()) => {},
            }
            match account_type {
                AccountType::Ong => {},
                _ => return Ok(()),
            }
            if payload.foundation_year.is_some() {
                return Err(AuthError::Internal);
            }
            validate_ong_payload_in_year(payload, account_type, 0)
        },
    }
}

/// Checks a registration payload against the current year as the clock
/// gives it: the answer is the one that some reading of the clock gives.
pub fn validate_ong_payload(payload: &RegisterRequest, account_type: AccountType) -> (r: Result<
    (),
    AuthError,
>)
    ensures
        exists|y: Option<i32>| #[trigger] answers_with_clock(r, *payload, account_type, y),
{
    let year = current_year();
    validate_ong_payload_with_clock(payload, account_type, year)
}

/// Whether a new account starts verified: people, vets and administrators
/// do, NGOs wait for manual review.
pub fn starts_verified(account_type: AccountType) -> (r: bool)
    ensures
        r == (account_type != AccountType::Ong),
{
    match account_type {
        AccountType::Ong => false,
        _ => true,
    }
}

pub open spec fn pending_review() -> Seq<char> {
    "PENDING_MANUAL_REVIEW"@
}

impl OngRecord {
    /// The record repeats the payload's NGO fields, with the CNPJ trimmed
    /// (and dropped where blank), and waits for manual review.
    pub open spec fn repeats_payload(self, p: RegisterRequest) -> bool {
        &&& self.ong_type == p.ong_type
        &&& opt_view(self.cnpj) == spec_normalize(opt_view(p.cnpj))
        &&& self.phone == p.phone
        &&& self.cep == p.cep
        &&& self.street == p.street
        &&& self.number == p.number
        &&& self.complement == p.complement
        &&& self.neighborhood == p.neighborhood
        &&& self.city == p.city
        &&& self.state == p.state
        &&& self.foundation_year == p.foundation_year
        &&& self.verification_status@ == pending_review()
    }
}

fn ong_record_with_name(payload: &RegisterRequest, legal_name: String) -> (r: OngRecord)
    ensures
        r.repeats_payload(*payload),
        r.legal_name == legal_name,
{
    OngRecord {
        legal_name,
        ong_type: clone_opt(&payload.ong_type),
        cnpj: normalize_optional(opt_as_str(&payload.cnpj)),
        phone: clone_opt(&payload.phone),
        cep: clone_opt(&payload.cep),
        street: clone_opt(&payload.street),
        number: clone_opt(&payload.number),
        complement: clone_opt(&payload.complement),
        neighborhood: clone_opt(&payload.neighborhood),
        city: clone_opt(&payload.city),
        state: clone_opt(&payload.state),
        foundation_year: payload.foundation_year,
        verification_status: String::from_str("PENDING_MANUAL_REVIEW"),
    }
}

/// The NGO profile that a registration stores: its legal name is the
/// trimmed account name.
pub fn registration_ong_record(payload: &RegisterRequest) -> (r: OngRecord)
    ensures
        r.repeats_payload(*payload),
        r.legal_name@ == trim(payload.name@),
{
    let legal_name = owned(trim_str(payload.name.as_str()));
    ong_record_with_name(payload, legal_name)
}

/// The NGO profile that a registration stores, with the mission written
/// for it: present exactly for NGO accounts; the legal name is the trimmed
/// account name and the mission is the default one for the NGO's kind.
pub fn registration_ong_profile(payload: &RegisterRequest, account_type: AccountType) -> (r: Option<
    (OngRecord, &'static str),
>)
    ensures
        r is Some <==> account_type == AccountType::Ong,
        r matches Some(p) ==> p.0.repeats_payload(*payload) && p.0.legal_name@ == trim(
            payload.name@,
        ) && p.1@ == spec_default_mission(opt_view(payload.ong_type)),
{
    match account_type {
        AccountType::Ong => {
            let record = registration_ong_record(payload);
            let mission = default_mission(opt_as_str(&payload.ong_type));
            Some((record, mission))
        },
        _ => None,
    }
}

/// Whether signing in or describing an account looks its NGO profile up:
/// only for NGO accounts.
pub fn looks_up_ong_profile(account_type: AccountType) -> (r: bool)
    ensures
        r == (account_type == AccountType::Ong),
{
    match account_type {
        AccountType::Ong => true,
        _ => false,
    }
}

/// The NGO profile shown when a registration is answered without storage
/// (development only): present for NGO accounts, with the account name
/// as given.
pub fn fallback_ong_record(payload: &RegisterRequest, account_type: AccountType) -> (r: Option<
    OngRecord,
>)
    ensures
        r is Some <==> account_type == AccountType::Ong,
        r matches Some(o) ==> o.repeats_payload(*payload) && o.legal_name == payload.name,
{
    match account_type {
        AccountType::Ong => Some(ong_record_with_name(payload, payload.name.clone())),
        _ => None,
    }
}

/// A user row that a registration stores.
pub struct NewUser {
    pub name: String,
    pub email: String,
    pub avatar: Option<String>,
    pub password_hash: String,
    pub account_type: AccountType,
    pub verified: bool,
    pub gender: Option<String>,
    pub cep: Option<String>,
    pub street: Option<String>,
    pub number: Option<String>,
    pub complement: Option<String>,
    pub neighborhood: Option<String>,
    pub city: Option<String>,
    pub state: Option<String>,
}

/// The user row that a registration stores: the payload's fields as given,
/// the gender kept only where valid, and verified unless it is an NGO.
pub fn registration_user_row(
    payload: &RegisterRequest,
    account_type: AccountType,
    password_hash: String,
) -> (r: NewUser)
    ensures
        r.name == payload.name,
        r.email == payload.email,
        r.avatar == payload.avatar,
        r.password_hash == password_hash,
        r.account_type == account_type,
        r.verified == (account_type != AccountType::Ong),
        opt_view(r.gender) == spec_normalize_gender(opt_view(payload.gender)),
        r.cep == payload.cep,
        r.street == payload.street,
        r.number == payload.number,
        r.complement == payload.complement,
        r.neighborhood == payload.neighborhood,
        r.city == payload.city,
        r.state == payload.state,
{
    NewUser {
        name: payload.name.clone(),
        email: payload.email.clone(),
        avatar: clone_opt(&payload.avatar),
        password_hash,
        account_type,
        verified: starts_verified(account_type),
        gender: normalize_gender(opt_as_str(&payload.gender)),
        cep: clone_opt(&payload.cep),
        street: clone_opt(&payload.street),
        number: clone_opt(&payload.number),
        complement: clone_opt(&payload.complement),
        neighborhood: clone_opt(&payload.neighborhood),
        city: clone_opt(&payload.city),
        state: clone_opt(&payload.state),
    }
}

} // verus!
