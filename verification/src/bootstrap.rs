//! Provisioning of the single administrator account from the
//! `BOOTSTRAP_ADMIN_*` settings.

use vstd::prelude::*;
use argon2::password_hash::rand_core::{OsRng, RngCore};
use argon2::password_hash::{PasswordHasher, Salt, SaltString};
use argon2::Argon2;
use crate::text::{ascii_lower, ascii_lowercase, is_prefix, owned, trim, trim_str, utf8_len};
use vstd::string::StringExecFns;

verus! {

#[verifier::external_type_specification]
#[verifier::external_body]
pub struct ExPasswordHashError(argon2::password_hash::Error);

/// The administrator to create or update.
pub struct AdminBootstrap {
    pub email: String,
    pub password: String,
    pub name: String,
}

/// Why the administrator settings are refused, or the administrator's
/// password could not be hashed.
#[derive(Debug, PartialEq, Eq)]
pub enum BootstrapError {
    EmptyEmail,
    ShortPassword,
    /// Only one of the e-mail address and the password is set.
    IncompleteCredentials,
    /// The hasher refused the password or the salt; the text is the
    /// hasher's own account of why.
    HashingFailed(String),
    /// The operating system's random source gave no salt.
    SaltUnavailable,
}

impl BootstrapError {
    pub open spec fn spec_message(self) -> Seq<char> {
        match self {
            BootstrapError::EmptyEmail => "BOOTSTRAP_ADMIN_EMAIL must not be empty"@,
            BootstrapError::ShortPassword => "BOOTSTRAP_ADMIN_PASSWORD must have at least 12 characters"@,
            BootstrapError::IncompleteCredentials => "BOOTSTRAP_ADMIN_EMAIL and BOOTSTRAP_ADMIN_PASSWORD must be configured together"@,
            BootstrapError::HashingFailed(t) => "administrator password hashing failed: "@ + t@,
            BootstrapError::SaltUnavailable => "administrator password salt could not be drawn from the operating system"@,
        }
    }

    /// The text that explains the refusal.
    pub fn message(&self) -> (r: String)
        ensures
            r@ == self.spec_message(),
    {
        match self {
            BootstrapError::EmptyEmail => String::from_str(
                "BOOTSTRAP_ADMIN_EMAIL must not be empty",
            ),
            BootstrapError::ShortPassword => String::from_str(
                "BOOTSTRAP_ADMIN_PASSWORD must have at least 12 characters",
            ),
            BootstrapError::IncompleteCredentials => String::from_str(
                "BOOTSTRAP_ADMIN_EMAIL and BOOTSTRAP_ADMIN_PASSWORD must be configured together",
            ),
            BootstrapError::HashingFailed(t) => String::from_str(
                "administrator password hashing failed: ",
            ).concat(t.as_str()),
            BootstrapError::SaltUnavailable => String::from_str(
                "administrator password salt could not be drawn from the operating system",
            ),
        }
    }
}

/// The administrator's e-mail address as it is stored: trimmed and ASCII lower-cased.
pub open spec fn admin_email(e: Seq<char>) -> Seq<char> {
    ascii_lower(trim(e))
}

/// The administrator's display name: the given one (or `Paulo Admin`), trimmed.
pub open spec fn admin_name(n: Option<String>) -> Seq<char> {
    match n {
        Some(s) => trim(s@),
        None => trim("Paulo Admin"@),
    }
}

/// What the settings ask for: nothing where neither the e-mail address
/// nor the password is set; an administrator where both are set, the
/// address is not blank and the password has at least 12 bytes.
pub fn plan_admin_bootstrap(
    email: Option<String>,
    password: Option<String>,
    name: Option<String>,
) -> (r: Result<Option<AdminBootstrap>, BootstrapError>)
    ensures
        match (email, password) {
            (None, None) => r matches Ok(None),
            (Some(e), Some(p)) => if admin_email(e@).len() == 0 {
                r == Err::<Option<AdminBootstrap>, BootstrapError>(BootstrapError::EmptyEmail)
            } else if utf8_len(p@) < 12 {
                r == Err::<Option<AdminBootstrap>, BootstrapError>(BootstrapError::ShortPassword)
            } else {
                r matches Ok(Some(a)) && a.email@ == admin_email(e@) && a.password == p && a.name@
                    == admin_name(name)
            },
            _ => r == Err::<Option<AdminBootstrap>, BootstrapError>(
                BootstrapError::IncompleteCredentials,
            ),
        },
{
    match (email, password) {
        (None, None) => Ok(None),
        (Some(e), Some(p)) => {
            let email = ascii_lowercase(trim_str(e.as_str()));
            if email.as_str().unicode_len() == 0 {
                return Err(BootstrapError::EmptyEmail);
            }
            if p.as_str().len() < 12 {
                return Err(BootstrapError::ShortPassword);
            }
            let name = match &name {
                Some(n) => owned(trim_str(n.as_str())),
                None => owned(trim_str("Paulo Admin")),
            };
            Ok(Some(AdminBootstrap { email, password: p, name }))
        },
        _ => Err(BootstrapError::IncompleteCredentials),
    }
}

/// The PHC string that `Argon2::default().hash_password` renders for a
/// password and a Base64 salt: Argon2id, version 19, the crate's default
/// cost parameters. The hash takes pages to state and depends on these
/// two inputs alone, so it is named here and not written out.
pub uninterp spec fn argon2_default_phc(password: Seq<char>, salt: Seq<char>) -> Seq<char>;

/// The salt text that `SaltString::encode_b64` gives for some bytes: their
/// unpadded Base64 encoding. Named, not written out.
pub uninterp spec fn b64_salt_text(bytes: Seq<u8>) -> Seq<char>;

/// The largest password, in bytes, that Argon2 takes (`MAX_PWD_LEN`).
pub open spec fn argon2_max_password_len() -> int {
    0xFFFF_FFFF
}

/// `OsRng::try_fill_bytes` on a buffer of `Salt::RECOMMENDED_LENGTH` (16)
/// bytes. Claimed: what comes back has 16 bytes. Which bytes they are is
/// chance, and whether the operating system's random source answers is the
/// machine's affair; `None` stands for its failure.
#[verifier::external_body]
fn random_salt_bytes() -> (r: Option<Vec<u8>>)
    ensures
        r matches Some(b) ==> b@.len() == 16,
{
    let mut bytes = vec![0u8; Salt::RECOMMENDED_LENGTH];
    match OsRng.try_fill_bytes(&mut bytes) {
        Ok(()) => Some(bytes),
        Err(_) => None,
    }
}

/// `SaltString::encode_b64`, handed out as its text. Claimed: a text that
/// comes back is the encoding of exactly these bytes, and 16 bytes always
/// encode (into 22 characters, within the 64 that a salt may hold).
#[verifier::external_body]
fn encode_salt(bytes: &[u8]) -> (r: Result<String, argon2::password_hash::Error>)
    ensures
        r matches Ok(s) ==> s@ == b64_salt_text(bytes@),
        bytes@.len() == 16 ==> r is Ok,
{
    match SaltString::encode_b64(bytes) {
        Ok(salt) => Ok(salt.as_str().to_string()),
        Err(e) => Err(e),
    }
}

/// `Salt::from_b64` on the salt, then `Argon2::default().hash_password` on
/// the password's bytes, rendered with `PasswordHash::to_string`. Claimed:
/// - a string that comes back is the PHC string of exactly this password
///   and this salt, and begins `$argon2id$v=19$` (the default hasher is
///   Argon2id version 19);
/// - a password over `MAX_PWD_LEN` bytes is refused (`verify_inputs`);
/// - with the encoding of 16 bytes as the salt (22 Base64 characters, which
///   `Salt::from_b64` accepts and which decode to 16 bytes, at least
///   `MIN_SALT_LEN`) and a password within `MAX_PWD_LEN`, hashing succeeds.
/// When other salts fail is left unsaid.
#[verifier::external_body]
fn argon2_hash(password: &str, salt: &str) -> (r: Result<String, argon2::password_hash::Error>)
    ensures
        r matches Ok(h) ==> h@ == argon2_default_phc(password@, salt@),
        r matches Ok(h) ==> is_prefix("$argon2id$v=19$"@, h@),
        utf8_len(password@) > argon2_max_password_len() ==> r is Err,
        (exists|b: Seq<u8>| b.len() == 16 && #[trigger] b64_salt_text(b) == salt@) && utf8_len(
            password@,
        ) <= argon2_max_password_len() ==> r is Ok,
{
    let salt = Salt::from_b64(salt)?;
    match Argon2::default().hash_password(password.as_bytes(), salt) {
        Ok(hash) => Ok(hash.to_string()),
        Err(e) => Err(e),
    }
}

/// The hasher's error, written with its `Display` impl. Nothing is stated
/// of the text.
#[verifier::external_body]
fn hash_error_text(e: &argon2::password_hash::Error) -> String {
    e.to_string()
}

/// Hashes the administrator's password with Argon2id under the given salt
/// bytes, as a PHC string. With 16 salt bytes (the size that
/// `hash_admin_password` draws) it succeeds exactly when the password fits
/// Argon2's limit; a refusal of the hasher is `HashingFailed` with the
/// hasher's text.
pub fn hash_admin_password_with_salt(password: &str, salt: &[u8]) -> (r: Result<String, BootstrapError>)
    ensures
        r matches Ok(h) ==> h@ == argon2_default_phc(password@, b64_salt_text(salt@)),
        r matches Ok(h) ==> is_prefix("$argon2id$v=19$"@, h@),
        salt@.len() == 16 ==> (r is Ok <==> utf8_len(password@) <= argon2_max_password_len()),
        utf8_len(password@) > argon2_max_password_len() ==> r is Err,
        r matches Err(e) ==> e is HashingFailed,
{
    let text = match encode_salt(salt) {
        Ok(t) => t,
        Err(e) => return Err(BootstrapError::HashingFailed(hash_error_text(&e))),
    };
    proof {
        if salt@.len() == 16 {
            assert(b64_salt_text(salt@) == text@);
        }
    }
    match argon2_hash(password, text.as_str()) {
        Ok(hash) => Ok(hash),
        Err(e) => Err(BootstrapError::HashingFailed(hash_error_text(&e))),
    }
}

/// Hashes the administrator's password with Argon2id and a fresh random
/// 16-byte salt, as a PHC string. Where the operating system gives no
/// salt the answer is `SaltUnavailable`; otherwise it is what
/// `hash_admin_password_with_salt` gives for that salt, so it succeeds
/// exactly when the password fits Argon2's limit.
pub fn hash_admin_password(password: &str) -> (r: Result<String, BootstrapError>)
    ensures
        r matches Ok(h) ==> exists|b: Seq<u8>|
            b.len() == 16 && #[trigger] argon2_default_phc(password@, b64_salt_text(b)) == h@,
        r matches Ok(h) ==> is_prefix("$argon2id$v=19$"@, h@),
        utf8_len(password@) <= argon2_max_password_len() ==> (r is Ok || r is Err && r->Err_0
            is SaltUnavailable),
        utf8_len(password@) > argon2_max_password_len() ==> r is Err,
{
    let salt = match random_salt_bytes() {
        Some(b) => b,
        None => return Err(BootstrapError::SaltUnavailable),
    };
    hash_admin_password_with_salt(password, salt.as_slice())
}

} // verus!
