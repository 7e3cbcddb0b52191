//! Validated domain values: a subscriber's display name and email address,
//! each constructed once from raw input or rejected with a structured reason.

pub mod subscriber_email;
pub mod subscriber_name;

pub use subscriber_email::SubscriberEmail;
pub use subscriber_name::SubscriberName;

use vstd::prelude::*;

verus! {

/// Why a submitted value was turned away. Rejections are expected traffic,
/// recovered locally and answered with a client error.
#[derive(Clone, Copy, PartialEq, Eq, Structural, Debug)]
pub enum RejectionReason {
    /// The name field was absent from the submission.
    MissingName,
    /// The email field was absent from the submission.
    MissingEmail,
    /// The name trims to the empty string.
    EmptyName,
    /// The name holds more than the permitted number of grapheme clusters.
    NameTooLong,
    /// The name holds a forbidden character.
    NameForbiddenCharacter,
    /// The email does not conform to the email-address grammar.
    InvalidEmail,
}

} // verus!
