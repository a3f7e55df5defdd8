//! A user's e-mail address, accepted only when `validator` judges it valid.

use crate::errors::Errors;
use vstd::prelude::*;

verus! {

/// Whether `validator::validate_email` accepts the address.
pub uninterp spec fn email_is_valid(s: Seq<char>) -> bool;

/// `s` holds exactly one `@`, and not as its first character.
pub open spec fn has_single_at_after_local_part(s: Seq<char>) -> bool {
    exists|i: int|
        0 < i < s.len() && #[trigger] s[i] == '@' && forall|j: int| 0 <= j < s.len() && j != i ==> s[j] != '@'
}

/// Calls `validator::validate_email`, whose verdict is named `email_is_valid`.
/// Its source refuses an address without `@`, splits at the last `@` and asks
/// of the part before it a regular expression that takes one or more
/// characters, none of them `@`: so an accepted address holds exactly one `@`,
/// not at its start.
#[verifier::external_body]
fn validate_email(s: &str) -> (res: bool)
    ensures
        res == email_is_valid(s@),
        res ==> has_single_at_after_local_part(s@),
{
    validator::validate_email(s)
}

/// An e-mail address that `validator` accepted.
#[derive(Debug)]
pub struct UserEmail(String);

impl UserEmail {
    /// The address.
    pub closed spec fn view(&self) -> Seq<char> {
        self.0@
    }

    /// The address `s`, given the verdict on it: accepted when `is_valid`,
    /// otherwise refused with `EmailNotValid` carrying `s`.
    pub fn from_validation(s: &str, is_valid: bool) -> (res: Result<UserEmail, Errors>)
        ensures
            match res {
                Ok(e) => is_valid && e@ == s@,
                Err(e) => !is_valid && (e matches Errors::EmailNotValid(t) && t@ == s@),
            },
    {
        if is_valid {
            return Ok(UserEmail(s.to_owned()));
        }
        Err(Errors::EmailNotValid(s.to_owned()))
    }

    /// Accepts `s` as an e-mail address when `validator` judges it valid;
    /// otherwise refuses it with `EmailNotValid` carrying `s`. An accepted
    /// address holds exactly one `@`, not at its start.
    pub fn parse(s: &str) -> (res: Result<UserEmail, Errors>)
        ensures
            match res {
                Ok(e) => email_is_valid(s@) && e@ == s@ && has_single_at_after_local_part(e@),
                Err(e) => !email_is_valid(s@) && (e matches Errors::EmailNotValid(t) && t@ == s@),
            },
    {
        let is_valid = validate_email(s);
        Self::from_validation(s, is_valid)
    }

    /// The address as text.
    pub fn as_str(&self) -> (res: &str)
        ensures
            res@ == self@,
    {
        self.0.as_str()
    }
}

impl AsRef<str> for UserEmail {
    fn as_ref(&self) -> (res: &str)
        ensures
            res@ == self@,
    {
        self.0.as_str()
    }
}

} // verus!
