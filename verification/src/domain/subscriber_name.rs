//! A subscriber's display name: non-blank, at most 256 grapheme clusters,
//! free of characters that could break out of markup or query contexts.

use crate::domain::RejectionReason;
use crate::text::{is_blank, trims_to_empty};
use unicode_segmentation::UnicodeSegmentation;
use vstd::prelude::*;
use vstd::string::*;

verus! {

/// The largest number of grapheme clusters a display name may hold.
pub const MAX_NAME_GRAPHEMES: usize = 256;

/// The characters a display name must not contain.
pub open spec fn is_forbidden_character(c: char) -> bool {
    ||| c == '/'
    ||| c == '('
    ||| c == ')'
    ||| c == '"'
    ||| c == '<'
    ||| c == '>'
    ||| c == '\\'
    ||| c == '{'
    ||| c == '}'
}

/// Whether some character of the string is forbidden in a display name.
pub open spec fn contains_forbidden_character(s: Seq<char>) -> bool {
    exists|i: int| 0 <= i < s.len() && is_forbidden_character(s[i])
}

/// The number of extended grapheme clusters of a string: user-perceived
/// characters, where a multi-code-point cluster counts once.
pub uninterp spec fn grapheme_clusters(s: Seq<char>) -> nat;

/// Relies on unicode_segmentation's `UnicodeSegmentation::graphemes`: the
/// extended grapheme clusters of a string depend on its characters alone.
#[verifier::external_body]
pub(crate) fn grapheme_count(s: &str) -> (r: usize)
    ensures
        r == grapheme_clusters(s@),
{
    s.graphemes(true).count()
}

/// The rejection a raw name earns, if any: the checks run in order and the
/// first failure wins.
pub open spec fn name_rejection(s: Seq<char>) -> Option<RejectionReason> {
    if trims_to_empty(s) {
        Some(RejectionReason::EmptyName)
    } else if grapheme_clusters(s) > MAX_NAME_GRAPHEMES as nat {
        Some(RejectionReason::NameTooLong)
    } else if contains_forbidden_character(s) {
        Some(RejectionReason::NameForbiddenCharacter)
    } else {
        None
    }
}

/// Whether a raw string is acceptable as a display name.
pub open spec fn name_valid(s: Seq<char>) -> bool {
    name_rejection(s) is None
}

/// Decides `is_forbidden_character` for a single character.
pub fn char_is_forbidden(c: char) -> (r: bool)
    ensures
        r == is_forbidden_character(c),
{
    c == '/' || c == '(' || c == ')' || c == '"' || c == '<' || c == '>' || c == '\\' || c == '{'
        || c == '}'
}

/// Scans the string for a forbidden character.
fn has_forbidden_character(s: &str) -> (r: bool)
    ensures
        r == contains_forbidden_character(s@),
{
    let n = s.unicode_len();
    let mut i: usize = 0;
    while i < n
        invariant
            n == s@.len(),
            i <= n,
            forall|j: int| 0 <= j < i ==> !is_forbidden_character(s@[j]),
        decreases n - i,
    {
        let c = s.get_char(i);
        if char_is_forbidden(c) {
            return true;
        }
        i += 1;
    }
    false
}

/// A validated display name: constructed once by `parse`, immutable after.
#[derive(Debug)]
pub struct SubscriberName(String);

impl View for SubscriberName {
    type V = Seq<char>;

    closed spec fn view(&self) -> Seq<char> {
        self.0@
    }
}

impl SubscriberName {
    /// Validates a raw display name: it must not trim to empty, must hold at
    /// most 256 grapheme clusters, and must not contain a forbidden
    /// character. The checks run in that order and the first failure wins.
    pub fn parse(value: String) -> (r: Result<SubscriberName, RejectionReason>)
        ensures
            match r {
                Ok(n) => name_valid(value@) && n@ == value@,
                Err(e) => name_rejection(value@) == Some(e),
            },
    {
        if is_blank(value.as_str()) {
            return Err(RejectionReason::EmptyName);
        }
        if grapheme_count(value.as_str()) > MAX_NAME_GRAPHEMES {
            return Err(RejectionReason::NameTooLong);
        }
        if has_forbidden_character(value.as_str()) {
            return Err(RejectionReason::NameForbiddenCharacter);
        }
        Ok(SubscriberName(value))
    }

    /// The validated name, unchanged from the accepted input.
    pub fn as_str(&self) -> (r: &str)
        ensures
            r@ == self@,
    {
        self.0.as_str()
    }
}

/// Law: a string that trims to empty is never an acceptable name.
pub proof fn blank_name_always_rejected(s: Seq<char>)
    requires
        trims_to_empty(s),
    ensures
        !name_valid(s),
        name_rejection(s) == Some(RejectionReason::EmptyName),
{
}

/// Law: a string of exactly 256 grapheme clusters is accepted, provided it
/// does not trim to empty and holds no forbidden character.
pub proof fn boundary_length_name_accepted(s: Seq<char>)
    requires
        grapheme_clusters(s) == 256,
        !trims_to_empty(s),
        !contains_forbidden_character(s),
    ensures
        name_valid(s),
{
}

/// Law: a string of 257 grapheme clusters is always rejected, whatever else
/// it holds.
pub proof fn overlong_name_always_rejected(s: Seq<char>)
    requires
        grapheme_clusters(s) == 257,
    ensures
        !name_valid(s),
{
}

/// Law: a string containing any forbidden character is always rejected,
/// even if otherwise valid.
pub proof fn forbidden_character_name_rejected(s: Seq<char>)
    requires
        contains_forbidden_character(s),
    ensures
        !name_valid(s),
{
}

} // verus!
