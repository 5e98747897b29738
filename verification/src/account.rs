//! Kinds of account and the errors that identity requests are answered with.

use vstd::prelude::*;

verus! {

/// The kind of an account.
#[derive(Clone, Copy, Debug, PartialEq, Eq, Structural)]
pub enum AccountType {
    Person,
    Ong,
    Vet,
    Admin,
}

/// How an identity request is refused.
pub enum AuthError {
    /// The payload breaks a rule; the text says which.
    Validation(String),
    Unauthorized,
    NotFound,
    /// The request clashes with stored data; the text says how.
    Conflict(String),
    ServiceUnavailable,
    Internal,
}

/// A refusal for a broken payload rule, with its text.
pub open spec fn is_validation_error(r: AuthError, msg: Seq<char>) -> bool {
    r matches AuthError::Validation(m) && m@ == msg
}

/// Builds a validation refusal from its text.
pub fn validation_error(msg: &str) -> (e: AuthError)
    ensures
        is_validation_error(e, msg@),
{
    AuthError::Validation(String::from_str(msg))
}

} // verus!
