//! Profile changes: the address update rules and which avatar pictures a
//! profile may point to.

use vstd::prelude::*;
use crate::account::{AuthError, is_validation_error, validation_error};
use crate::auth::{UpdateProfileRequest, normalize_optional, opt_as_str, opt_str_view, spec_normalize};
use crate::config::opt_view;
use crate::text::{
    all_ascii_digits, contains_seq, contains_str, is_all_ascii_digits, is_prefix, owned,
    starts_with_str, trim, trim_str, utf8_len,
};

verus! {

/// Unicode upper-casing as `str::to_uppercase` does it.
pub uninterp spec fn unicode_uppercase(s: Seq<char>) -> Seq<char>;

/// `str::to_uppercase`; the contract names its result.
#[verifier::external_body]
fn to_uppercase(s: &str) -> (r: String)
    ensures
        r@ == unicode_uppercase(s@),
{
    s.to_uppercase()
}

/// The UF of a profile update as it is compared and stored: trimmed,
/// upper-cased, absent where blank.
pub open spec fn spec_state_code(state: Option<Seq<char>>) -> Option<Seq<char>> {
    match spec_normalize(state) {
        Some(t) => Some(unicode_uppercase(t)),
        None => None,
    }
}

/// The UF of a profile update: trimmed, upper-cased, absent where blank.
pub fn profile_state_code(state: Option<&str>) -> (r: Option<String>)
    ensures
        opt_view(r) == spec_state_code(opt_str_view(state)),
{
    match normalize_optional(state) {
        Some(t) => Some(to_uppercase(t.as_str())),
        None => None,
    }
}

/// Checks an upper-cased UF: where present it has exactly two characters.
pub fn check_state_code(code: Option<String>) -> (r: Result<Option<String>, AuthError>)
    ensures
        match code {
            Some(c) => if c@.len() == 2 {
                r == Ok::<Option<String>, AuthError>(Some(c))
            } else {
                r matches Err(e) && is_validation_error(e, "state must be a 2-letter UF"@)
            },
            None => r == Ok::<Option<String>, AuthError>(None),
        },
{
    match code {
        Some(c) => {
            if c.as_str().unicode_len() == 2 {
                Ok(Some(c))
            } else {
                Err(validation_error("state must be a 2-letter UF"))
            }
        },
        None => Ok(None),
    }
}

/// The UF of a profile update, checked: trimmed, upper-cased, two
/// characters where present.
pub fn checked_state_code(state: Option<&str>) -> (r: Result<Option<String>, AuthError>)
    ensures
        match spec_state_code(opt_str_view(state)) {
            Some(c) => if c.len() == 2 {
                r matches Ok(Some(s)) && s@ == c
            } else {
                r matches Err(e) && is_validation_error(e, "state must be a 2-letter UF"@)
            },
            None => r matches Ok(None),
        },
{
    check_state_code(profile_state_code(state))
}

/// A profile update as it is stored.
pub struct ProfileUpdate {
    pub name: String,
    pub cep: Option<String>,
    pub street: Option<String>,
    pub number: Option<String>,
    pub complement: Option<String>,
    pub neighborhood: Option<String>,
    pub city: Option<String>,
    pub state: Option<String>,
}

/// Whether a CEP is acceptable: 8 bytes, all ASCII digits.
pub open spec fn valid_cep(c: Seq<char>) -> bool {
    utf8_len(c) == 8 && all_ascii_digits(c)
}

impl ProfileUpdate {
    /// The update stores the trimmed name, each address part trimmed (absent
    /// where blank), and the given UF.
    pub open spec fn stores(self, p: UpdateProfileRequest, state_code: Option<String>) -> bool {
        &&& self.name@ == trim(p.name@)
        &&& opt_view(self.cep) == spec_normalize(opt_view(p.cep))
        &&& opt_view(self.street) == spec_normalize(opt_view(p.street))
        &&& opt_view(self.number) == spec_normalize(opt_view(p.number))
        &&& opt_view(self.complement) == spec_normalize(opt_view(p.complement))
        &&& opt_view(self.neighborhood) == spec_normalize(opt_view(p.neighborhood))
        &&& opt_view(self.city) == spec_normalize(opt_view(p.city))
        &&& self.state == state_code
    }
}

/// A stored address part as the request's part of the same name gives it:
/// the sent text trimmed, and nothing where nothing or only white space was
/// sent.
pub open spec fn kept_from(stored: Option<String>, sent: Option<String>) -> bool {
    match sent {
        Some(s) => if trim(s@).len() > 0 {
            stored matches Some(t) && t@ == trim(s@)
        } else {
            stored is None
        },
        None => stored is None,
    }
}

/// Law: a stored profile update takes each part from the request's part of
/// the same name (the name trimmed; CEP, street, number, complement,
/// neighbourhood and city trimmed, blank ones dropped) and the checked UF;
/// no part is taken from another.
pub proof fn lemma_update_keeps_each_part_in_place(
    u: ProfileUpdate,
    p: UpdateProfileRequest,
    state_code: Option<String>,
)
    requires
        u.stores(p, state_code),
    ensures
        u.name@ == trim(p.name@),
        kept_from(u.cep, p.cep),
        kept_from(u.street, p.street),
        kept_from(u.number, p.number),
        kept_from(u.complement, p.complement),
        kept_from(u.neighborhood, p.neighborhood),
        kept_from(u.city, p.city),
        u.state == state_code,
{
}

/// The problem of a profile update, given its checked UF: a CEP that is not
/// 8 digits, then a city without a UF or a UF without a city.
pub open spec fn spec_profile_problem(p: UpdateProfileRequest, state_code: Option<String>) -> Option<
    Seq<char>,
> {
    if (spec_normalize(opt_view(p.cep)) matches Some(c) && !valid_cep(c)) {
        Some("cep must contain 8 digits"@)
    } else if (spec_normalize(opt_view(p.city)) is Some) != (state_code is Some) {
        Some("city and state must be sent together"@)
    } else {
        None
    }
}

/// The stored form of a profile update, given its checked UF.
pub fn profile_update_fields(payload: &UpdateProfileRequest, state_code: Option<String>) -> (r:
    Result<ProfileUpdate, AuthError>)
    ensures
        match spec_profile_problem(*payload, state_code) {
            Some(msg) => r matches Err(e) && is_validation_error(e, msg),
            None => r matches Ok(u) && u.stores(*payload, state_code),
        },
{
    let name = owned(trim_str(payload.name.as_str()));
    let cep = normalize_optional(opt_as_str(&payload.cep));
    match &cep {
        Some(c) => {
            if c.as_str().len() != 8 || !is_all_ascii_digits(c.as_str()) {
                return Err(validation_error("cep must contain 8 digits"));
            }
        },
        None => {},
    }
    let street = normalize_optional(opt_as_str(&payload.street));
    let number = normalize_optional(opt_as_str(&payload.number));
    let complement = normalize_optional(opt_as_str(&payload.complement));
    let neighborhood = normalize_optional(opt_as_str(&payload.neighborhood));
    let city = normalize_optional(opt_as_str(&payload.city));
    if city.is_some() != state_code.is_some() {
        return Err(validation_error("city and state must be sent together"));
    }
    Ok(
        ProfileUpdate {
            name,
            cep,
            street,
            number,
            complement,
            neighborhood,
            city,
            state: state_code,
        },
    )
}

/// The address that avatar pictures of a Cloudinary account start with.
pub open spec fn avatar_prefix(cloud_name: Seq<char>) -> Seq<char> {
    "https://res.cloudinary.com/"@ + cloud_name + "/image/upload/"@
}

/// The problem of an avatar URL: not a picture of the configured Cloudinary
/// account, or not in a folder meant for profile pictures.
pub open spec fn spec_avatar_url_problem(cloud_name: Seq<char>, url: Seq<char>) -> Option<
    Seq<char>,
> {
    if !is_prefix(avatar_prefix(cloud_name), url) {
        Some("avatarUrl must be a Helpin Cloudinary image"@)
    } else if !(contains_seq(url, "/zoohelp/profile-avatars/image/"@) || contains_seq(
        url,
        "/zoohelp/ong-logos/image/"@,
    )) {
        Some("avatarUrl purpose is not allowed"@)
    } else {
        None
    }
}

/// Checks that an avatar URL points to a profile picture of the configured
/// Cloudinary account (whether the user uploaded it is checked in storage).
pub fn check_avatar_url(cloud_name: &str, avatar_url: &str) -> (r: Result<(), AuthError>)
    ensures
        match spec_avatar_url_problem(cloud_name@, avatar_url@) {
            Some(msg) => r matches Err(e) && is_validation_error(e, msg),
            None => r is Ok,
        },
{
    let prefix = String::from_str("https://res.cloudinary.com/").concat(cloud_name).concat(
        "/image/upload/",
    );
    if !starts_with_str(avatar_url, prefix.as_str()) {
        return Err(validation_error("avatarUrl must be a Helpin Cloudinary image"));
    }
    if !(contains_str(avatar_url, "/zoohelp/profile-avatars/image/") || contains_str(
        avatar_url,
        "/zoohelp/ong-logos/image/",
    )) {
        return Err(validation_error("avatarUrl purpose is not allowed"));
    }
    Ok(())
}

} // verus!
