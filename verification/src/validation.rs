//! Field rules of the identity payloads: e-mail and URL syntax (checked by
//! the `validator` crate) and length limits counted in characters.

use vstd::prelude::*;
use crate::auth::{
    LoginRequest, RegisterRequest, PasswordResetRequest, ConfirmPasswordResetRequest,
    UpdateAvatarRequest, UpdateProfileRequest,
};
use crate::text::owned;

verus! {

/// Whether `validator` accepts the text as an e-mail address.
pub uninterp spec fn is_valid_email(s: Seq<char>) -> bool;

/// Whether `validator` accepts the text as a URL (one that `url::Url::parse` parses).
pub uninterp spec fn is_valid_url(s: Seq<char>) -> bool;

/// `validator::ValidateEmail::validate_email` on a string slice. The
/// contract names its answer; the source also shows that an accepted
/// address is not empty and holds an `@`.
#[verifier::external_body]
fn check_email(s: &str) -> (r: bool)
    ensures
        r == is_valid_email(s@),
        r ==> s@.len() > 0 && s@.contains('@'),
{
    validator::ValidateEmail::validate_email(&s)
}

/// `validator::ValidateUrl::validate_url` on a string slice; the contract
/// names its answer.
#[verifier::external_body]
fn check_url(s: &str) -> (r: bool)
    ensures
        r == is_valid_url(s@),
{
    validator::ValidateUrl::validate_url(s)
}

/// A field rule.
#[derive(Clone, Copy, Debug, PartialEq, Eq, Structural)]
pub enum Rule {
    Email,
    Url,
    /// Number of characters between the bounds, both included.
    Length { min: Option<u64>, max: Option<u64> },
}

/// A field that breaks a rule.
pub struct Violation {
    pub field: String,
    pub rule: Rule,
}

pub open spec fn violation_view(v: Violation) -> (Seq<char>, Rule) {
    (v.field@, v.rule)
}

pub open spec fn violations_view(v: Seq<Violation>) -> Seq<(Seq<char>, Rule)> {
    Seq::new(v.len(), |i: int| violation_view(v[i]))
}

/// Whether a character count meets length bounds.
pub open spec fn length_within(n: nat, min: Option<u64>, max: Option<u64>) -> bool {
    &&& (min matches Some(lo) ==> n >= lo)
    &&& (max matches Some(hi) ==> n <= hi)
}

/// The violation, where the condition holds.
pub open spec fn when(broken: bool, field: Seq<char>, rule: Rule) -> Seq<(Seq<char>, Rule)> {
    if broken {
        seq![(field, rule)]
    } else {
        Seq::empty()
    }
}

/// The violation of a length rule by a value, if any.
pub open spec fn length_violation(field: Seq<char>, value: Seq<char>, min: Option<u64>, max: Option<
    u64,
>) -> Seq<(Seq<char>, Rule)> {
    when(!length_within(value.len(), min, max), field, Rule::Length { min, max })
}

/// The violation of a length rule by an optional value; an absent value breaks none.
pub open spec fn optional_length_violation(
    field: Seq<char>,
    value: Option<String>,
    min: Option<u64>,
    max: Option<u64>,
) -> Seq<(Seq<char>, Rule)> {
    match value {
        Some(s) => length_violation(field, s@, min, max),
        None => Seq::empty(),
    }
}

fn push_when(out: &mut Vec<Violation>, broken: bool, field: &str, rule: Rule)
    ensures
        violations_view(final(out)@) == violations_view(old(out)@) + when(broken, field@, rule),
{
    let ghost before = violations_view(out@);
    if broken {
        out.push(Violation { field: owned(field), rule });
        assert(violations_view(out@) =~= before + when(broken, field@, rule));
    } else {
        assert(violations_view(out@) =~= before + when(broken, field@, rule));
    }
}

fn within(n: usize, min: Option<u64>, max: Option<u64>) -> (r: bool)
    ensures
        r == length_within(n as nat, min, max),
{
    let n = n as u64;
    let low_ok = match min {
        Some(lo) => n >= lo,
        None => true,
    };
    let high_ok = match max {
        Some(hi) => n <= hi,
        None => true,
    };
    low_ok && high_ok
}

fn push_length(out: &mut Vec<Violation>, field: &str, value: &str, min: Option<u64>, max: Option<u64>)
    ensures
        violations_view(final(out)@) == violations_view(old(out)@) + length_violation(
            field@,
            value@,
            min,
            max,
        ),
{
    let ok = within(value.unicode_len(), min, max);
    push_when(out, !ok, field, Rule::Length { min, max });
}

fn push_optional_length(
    out: &mut Vec<Violation>,
    field: &str,
    value: &Option<String>,
    min: Option<u64>,
    max: Option<u64>,
)
    ensures
        violations_view(final(out)@) == violations_view(old(out)@) + optional_length_violation(
            field@,
            *value,
            min,
            max,
        ),
{
    match value {
        Some(v) => push_length(out, field, v.as_str(), min, max),
        None => {
            assert(violations_view(out@) =~= violations_view(out@) + Seq::<
                (Seq<char>, Rule),
            >::empty());
        },
    }
}

/// The outcome of a check: `Ok` where nothing is broken.
fn outcome(v: Vec<Violation>) -> (r: Result<(), Vec<Violation>>)
    ensures
        match r {
            Ok(()) => v@.len() == 0,
            Err(e) => e == v && v@.len() > 0,
        },
{
    if v.len() == 0 {
        Ok(())
    } else {
        Err(v)
    }
}

impl LoginRequest {
    pub open spec fn spec_violations(self, email_ok: bool) -> Seq<(Seq<char>, Rule)> {
        when(!email_ok, "email"@, Rule::Email) + length_violation(
            "password"@,
            self.password@,
            Some(6),
            None,
        )
    }

    /// The fields that break a rule, given whether the e-mail address is valid.
    pub fn violations_given(&self, email_ok: bool) -> (r: Vec<Violation>)
        ensures
            violations_view(r@) == self.spec_violations(email_ok),
    {
        let mut out: Vec<Violation> = Vec::new();
        assert(violations_view(out@) =~= Seq::empty());
        push_when(&mut out, !email_ok, "email", Rule::Email);
        push_length(&mut out, "password", self.password.as_str(), Some(6), None);
        assert(violations_view(out@) =~= self.spec_violations(email_ok));
        out
    }

    /// Checks the payload: a valid e-mail address and a password of at
    /// least 6 characters.
    pub fn validate(&self) -> (r: Result<(), Vec<Violation>>)
        ensures
            match r {
                Ok(()) => self.spec_violations(is_valid_email(self.email@)).len() == 0,
                Err(v) => violations_view(v@) == self.spec_violations(is_valid_email(self.email@))
                    && v@.len() > 0,
            },
    {
        let email_ok = check_email(self.email.as_str());
        outcome(self.violations_given(email_ok))
    }
}

impl RegisterRequest {
    pub open spec fn spec_violations(self, email_ok: bool) -> Seq<(Seq<char>, Rule)> {
        length_violation("name"@, self.name@, Some(2), Some(120)) + when(
            !email_ok,
            "email"@,
            Rule::Email,
        ) + length_violation("password"@, self.password@, Some(8), None)
    }

    /// The fields that break a rule, given whether the e-mail address is valid.
    pub fn violations_given(&self, email_ok: bool) -> (r: Vec<Violation>)
        ensures
            violations_view(r@) == self.spec_violations(email_ok),
    {
        let mut out: Vec<Violation> = Vec::new();
        assert(violations_view(out@) =~= Seq::empty());
        push_length(&mut out, "name", self.name.as_str(), Some(2), Some(120));
        push_when(&mut out, !email_ok, "email", Rule::Email);
        push_length(&mut out, "password", self.password.as_str(), Some(8), None);
        assert(violations_view(out@) =~= self.spec_violations(email_ok));
        out
    }

    /// Checks the payload: a name of 2 to 120 characters, a valid e-mail
    /// address and a password of at least 8 characters.
    pub fn validate(&self) -> (r: Result<(), Vec<Violation>>)
        ensures
            match r {
                Ok(()) => self.spec_violations(is_valid_email(self.email@)).len() == 0,
                Err(v) => violations_view(v@) == self.spec_violations(is_valid_email(self.email@))
                    && v@.len() > 0,
            },
    {
        let email_ok = check_email(self.email.as_str());
        outcome(self.violations_given(email_ok))
    }
}

impl PasswordResetRequest {
    pub open spec fn spec_violations(self, email_ok: bool) -> Seq<(Seq<char>, Rule)> {
        when(!email_ok, "email"@, Rule::Email)
    }

    /// The fields that break a rule, given whether the e-mail address is valid.
    pub fn violations_given(&self, email_ok: bool) -> (r: Vec<Violation>)
        ensures
            violations_view(r@) == self.spec_violations(email_ok),
    {
        let mut out: Vec<Violation> = Vec::new();
        assert(violations_view(out@) =~= Seq::empty());
        push_when(&mut out, !email_ok, "email", Rule::Email);
        assert(violations_view(out@) =~= self.spec_violations(email_ok));
        out
    }

    /// Checks the payload: a valid e-mail address.
    pub fn validate(&self) -> (r: Result<(), Vec<Violation>>)
        ensures
            match r {
                Ok(()) => self.spec_violations(is_valid_email(self.email@)).len() == 0,
                Err(v) => violations_view(v@) == self.spec_violations(is_valid_email(self.email@))
                    && v@.len() > 0,
            },
    {
        let email_ok = check_email(self.email.as_str());
        outcome(self.violations_given(email_ok))
    }
}

impl ConfirmPasswordResetRequest {
    pub open spec fn spec_violations(self) -> Seq<(Seq<char>, Rule)> {
        length_violation("token"@, self.token@, Some(20), Some(120)) + length_violation(
            "password"@,
            self.password@,
            Some(8),
            Some(256),
        )
    }

    /// Checks the payload: a token of 20 to 120 characters and a password of
    /// 8 to 256 characters.
    pub fn validate(&self) -> (r: Result<(), Vec<Violation>>)
        ensures
            match r {
                Ok(()) => self.spec_violations().len() == 0,
                Err(v) => violations_view(v@) == self.spec_violations() && v@.len() > 0,
            },
    {
        let mut out: Vec<Violation> = Vec::new();
        assert(violations_view(out@) =~= Seq::empty());
        push_length(&mut out, "token", self.token.as_str(), Some(20), Some(120));
        push_length(&mut out, "password", self.password.as_str(), Some(8), Some(256));
        assert(violations_view(out@) =~= self.spec_violations());
        outcome(out)
    }
}

impl UpdateAvatarRequest {
    pub open spec fn spec_violations(self, url_ok: bool) -> Seq<(Seq<char>, Rule)> {
        when(!url_ok, "avatar_url"@, Rule::Url)
    }

    /// The fields that break a rule, given whether the avatar URL is valid.
    pub fn violations_given(&self, url_ok: bool) -> (r: Vec<Violation>)
        ensures
            violations_view(r@) == self.spec_violations(url_ok),
    {
        let mut out: Vec<Violation> = Vec::new();
        assert(violations_view(out@) =~= Seq::empty());
        push_when(&mut out, !url_ok, "avatar_url", Rule::Url);
        assert(violations_view(out@) =~= self.spec_violations(url_ok));
        out
    }

    /// Checks the payload: a valid URL.
    pub fn validate(&self) -> (r: Result<(), Vec<Violation>>)
        ensures
            match r {
                Ok(()) => self.spec_violations(is_valid_url(self.avatar_url@)).len() == 0,
                Err(v) => violations_view(v@) == self.spec_violations(
                    is_valid_url(self.avatar_url@),
                ) && v@.len() > 0,
            },
    {
        let url_ok = check_url(self.avatar_url.as_str());
        outcome(self.violations_given(url_ok))
    }
}

impl UpdateProfileRequest {
    pub open spec fn spec_violations(self) -> Seq<(Seq<char>, Rule)> {
        length_violation("name"@, self.name@, Some(2), Some(120)) + optional_length_violation(
            "cep"@,
            self.cep,
            Some(0),
            Some(8),
        ) + optional_length_violation("street"@, self.street, Some(0), Some(160))
            + optional_length_violation("number"@, self.number, Some(0), Some(20))
            + optional_length_violation("complement"@, self.complement, Some(0), Some(80))
            + optional_length_violation("neighborhood"@, self.neighborhood, Some(0), Some(120))
            + optional_length_violation("city"@, self.city, Some(0), Some(120))
            + optional_length_violation("state"@, self.state, Some(0), Some(2))
    }

    /// Checks the payload: a name of 2 to 120 characters, and address parts,
    /// where present, within their limits (CEP 8, street 160, number 20,
    /// complement 80, neighborhood and city 120, state 2 characters).
    pub fn validate(&self) -> (r: Result<(), Vec<Violation>>)
        ensures
            match r {
                Ok(()) => self.spec_violations().len() == 0,
                Err(v) => violations_view(v@) == self.spec_violations() && v@.len() > 0,
            },
    {
        let mut out: Vec<Violation> = Vec::new();
        assert(violations_view(out@) =~= Seq::empty());
        push_length(&mut out, "name", self.name.as_str(), Some(2), Some(120));
        push_optional_length(&mut out, "cep", &self.cep, Some(0), Some(8));
        push_optional_length(&mut out, "street", &self.street, Some(0), Some(160));
        push_optional_length(&mut out, "number", &self.number, Some(0), Some(20));
        push_optional_length(&mut out, "complement", &self.complement, Some(0), Some(80));
        push_optional_length(&mut out, "neighborhood", &self.neighborhood, Some(0), Some(120));
        push_optional_length(&mut out, "city", &self.city, Some(0), Some(120));
        push_optional_length(&mut out, "state", &self.state, Some(0), Some(2));
        assert(violations_view(out@) =~= self.spec_violations());
        outcome(out)
    }
}

} // verus!
