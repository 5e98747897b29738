//! The request limits that each identity endpoint applies, per client
//! address and per account or e-mail address.

use vstd::prelude::*;
use crate::config::Config;
use crate::text::owned;

verus! {

/// At most `limit` requests per `window_seconds` under one key (for a
/// per-address limit, the key is a scope that the client's address is
/// added to).
pub struct RateRule {
    pub key: String,
    pub limit: usize,
    pub window_seconds: u64,
}

/// Unicode lower-casing as `str::to_lowercase` does it.
pub uninterp spec fn unicode_lowercase(s: Seq<char>) -> Seq<char>;

/// `str::to_lowercase`; the contract names its result.
#[verifier::external_body]
fn to_lowercase(s: &str) -> (r: String)
    ensures
        r@ == unicode_lowercase(s@),
{
    s.to_lowercase()
}

pub open spec fn rule_is(r: RateRule, key: Seq<char>, limit: int, window: int) -> bool {
    r.key@ == key && r.limit == limit && r.window_seconds == window
}

fn rule(key: String, limit: usize, window_seconds: u64) -> (r: RateRule)
    ensures
        r.key == key && r.limit == limit && r.window_seconds == window_seconds,
{
    RateRule { key, limit, window_seconds }
}

fn keyed(prefix: &str, value: &str) -> (r: String)
    ensures
        r@ == prefix@ + value@,
{
    String::from_str(prefix).concat(value)
}

/// Sign-in: 5 per minute per address, and the configured limit per e-mail address.
pub fn login_limits(config: &Config, email: &str) -> (r: (RateRule, RateRule))
    ensures
        rule_is(r.0, "auth:login"@, 5, 60),
        rule_is(
            r.1,
            "auth:login:"@ + email@,
            config.throttle_limit as int,
            config.throttle_ttl_seconds as int,
        ),
{
    (
        rule(owned("auth:login"), 5, 60),
        rule(keyed("auth:login:", email), config.throttle_limit, config.throttle_ttl_seconds),
    )
}

/// Registration limit per e-mail address: half the configured limit (at
/// least 1).
pub open spec fn register_key_limit(throttle_limit: usize) -> int {
    (if throttle_limit < 2 {
        2
    } else {
        throttle_limit as int
    }) / 2
}

/// Registration: 3 per hour per address; per e-mail address half the
/// configured limit, over five times the configured window.
pub fn register_limits(config: &Config, email: &str) -> (r: (RateRule, RateRule))
    requires
        config.throttle_ttl_seconds * 5 <= u64::MAX,
    ensures
        rule_is(r.0, "auth:register"@, 3, 3600),
        rule_is(
            r.1,
            "auth:register:"@ + email@,
            register_key_limit(config.throttle_limit),
            config.throttle_ttl_seconds * 5,
        ),
{
    let limit = if config.throttle_limit < 2 {
        2
    } else {
        config.throttle_limit
    };
    (
        rule(owned("auth:register"), 3, 3600),
        rule(keyed("auth:register:", email), limit / 2, config.throttle_ttl_seconds * 5),
    )
}

/// Password-reset requests, given the lower-cased e-mail address: 6 per
/// hour per address, and 3 per hour per pair of e-mail address and client
/// address.
pub fn password_reset_limits_for(lowered_email: &str, client_ip: &str) -> (r: (RateRule, RateRule))
    ensures
        rule_is(r.0, "auth:password-reset"@, 6, 3600),
        rule_is(r.1, "auth:password-reset:"@ + lowered_email@ + ":"@ + client_ip@, 3, 3600),
{
    let key = keyed("auth:password-reset:", lowered_email).concat(":").concat(client_ip);
    (rule(owned("auth:password-reset"), 6, 3600), rule(key, 3, 3600))
}

/// Password-reset requests: 6 per hour per address, and 3 per hour per
/// pair of lower-cased e-mail address and client address.
pub fn password_reset_limits(email: &str, client_ip: &str) -> (r: (RateRule, RateRule))
    ensures
        rule_is(r.0, "auth:password-reset"@, 6, 3600),
        rule_is(
            r.1,
            "auth:password-reset:"@ + unicode_lowercase(email@) + ":"@ + client_ip@,
            3,
            3600,
        ),
{
    let lowered = to_lowercase(email);
    password_reset_limits_for(lowered.as_str(), client_ip)
}

/// Password-reset confirmations: 10 per minute per address, and the
/// configured limit overall.
pub fn confirm_password_reset_limits(config: &Config) -> (r: (RateRule, RateRule))
    ensures
        rule_is(r.0, "auth:password-reset-confirm"@, 10, 60),
        rule_is(
            r.1,
            "auth:password-reset-confirm"@,
            config.throttle_limit as int,
            config.throttle_ttl_seconds as int,
        ),
{
    (
        rule(owned("auth:password-reset-confirm"), 10, 60),
        rule(
            owned("auth:password-reset-confirm"),
            config.throttle_limit,
            config.throttle_ttl_seconds,
        ),
    )
}

/// Avatar changes: the configured limit per account.
pub fn avatar_update_limit(config: &Config, user_id: &str) -> (r: RateRule)
    ensures
        rule_is(
            r,
            "profile:avatar:"@ + user_id@,
            config.throttle_limit as int,
            config.throttle_ttl_seconds as int,
        ),
{
    rule(keyed("profile:avatar:", user_id), config.throttle_limit, config.throttle_ttl_seconds)
}

/// Profile changes: the configured limit per account.
pub fn profile_update_limit(config: &Config, user_id: &str) -> (r: RateRule)
    ensures
        rule_is(
            r,
            "profile:update:"@ + user_id@,
            config.throttle_limit as int,
            config.throttle_ttl_seconds as int,
        ),
{
    rule(keyed("profile:update:", user_id), config.throttle_limit, config.throttle_ttl_seconds)
}

} // verus!
