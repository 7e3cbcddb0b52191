//! A subscriber's email address, held to a standards-conformant
//! email-address grammar.

use crate::domain::RejectionReason;
use vstd::prelude::*;
use vstd::string::*;

verus! {

/// Whether a string conforms to the email-address grammar (subject, `@`,
/// and domain all present and well-formed).
pub uninterp spec fn email_valid(s: Seq<char>) -> bool;

/// Relies on validator's `validate_email` (the HTML5 email grammar): the
/// verdict depends on the characters alone, and its source rejects the
/// empty string, a string without `@`, and a string whose only `@` is its
/// first character (an empty subject part) outright.
#[verifier::external_body]
pub(crate) fn email_is_valid(s: &str) -> (r: bool)
    ensures
        r == email_valid(s@),
        s@.len() == 0 ==> !r,
        !s@.contains('@') ==> !r,
        (s@.len() > 0 && s@[0] == '@' && (forall|i: int|
            1 <= i < s@.len() ==> s@[i] != '@')) ==> !r,
{
    validator::validate_email(s)
}

/// A validated email address: constructed once by `parse`, immutable after.
#[derive(Debug)]
pub struct SubscriberEmail(String);

impl View for SubscriberEmail {
    type V = Seq<char>;

    closed spec fn view(&self) -> Seq<char> {
        self.0@
    }
}

impl SubscriberEmail {
    /// Validates a raw email address against the email grammar. A string
    /// that is empty, has no `@`, or has no subject part before its only
    /// `@` is rejected in particular.
    pub fn parse(value: String) -> (r: Result<SubscriberEmail, RejectionReason>)
        ensures
            match r {
                Ok(e) => email_valid(value@) && e@ == value@,
                Err(reason) => !email_valid(value@) && reason == RejectionReason::InvalidEmail,
            },
            value@.len() == 0 ==> r is Err,
            !value@.contains('@') ==> r is Err,
            (value@.len() > 0 && value@[0] == '@' && (forall|i: int|
                1 <= i < value@.len() ==> value@[i] != '@')) ==> r is Err,
    {
        if email_is_valid(value.as_str()) {
            Ok(SubscriberEmail(value))
        } else {
            Err(RejectionReason::InvalidEmail)
        }
    }

    /// The validated address, unchanged from the accepted input.
    pub fn as_str(&self) -> (r: &str)
        ensures
            r@ == self@,
    {
        self.0.as_str()
    }
}

} // verus!
