use zero2prod::domain::{RejectionReason, SubscriberEmail, SubscriberName};

#[test]
fn name_of_exactly_256_graphemes_is_valid() {
    let name = "a".repeat(256);
    assert!(SubscriberName::parse(name).is_ok());
}

#[test]
fn name_longer_than_256_graphemes_is_invalid() {
    let name = "a".repeat(257);
    assert!(SubscriberName::parse(name).is_err());
}

#[test]
fn whitespace_only_string_is_invalid() {
    let name = " ".to_string();
    assert!(SubscriberName::parse(name).is_err());
}

#[test]
fn subscriber_name_empty_string_is_invalid() {
    assert!(SubscriberName::parse("".to_string()).is_err());
}

#[test]
fn names_containing_forbidden_characters_are_invalid() {
    for name in ['/', '(', ')', '"', '<', '>', '\\', '{', '}'] {
        assert!(SubscriberName::parse(name.to_string()).is_err());
    }
}

#[test]
fn a_normal_name_is_valid() {
    assert!(SubscriberName::parse("John Doe".to_string()).is_ok());
}

#[test]
fn subscriber_email_empty_string_is_invalid() {
    let email = "".to_string();
    assert!(SubscriberEmail::parse(email).is_err());
}

#[test]
fn email_missing_at_symbol_is_invalid() {
    let email = "somedomain.com".to_string();
    assert!(SubscriberEmail::parse(email).is_err());
}

#[test]
fn email_missing_subject_is_invalid() {
    let email = "@somedomain.com".to_string();
    assert!(SubscriberEmail::parse(email).is_err());
}

#[test]
fn name_rejections_carry_the_exact_reason() {
    assert!(matches!(
        SubscriberName::parse("   ".to_string()),
        Err(RejectionReason::EmptyName)
    ));
    assert!(matches!(
        SubscriberName::parse("x".repeat(300)),
        Err(RejectionReason::NameTooLong)
    ));
    assert!(matches!(
        SubscriberName::parse("John/Doe".to_string()),
        Err(RejectionReason::NameForbiddenCharacter)
    ));
}

#[test]
fn name_length_counts_grapheme_clusters_not_code_points() {
    // Each cluster is two code points: 'e' followed by a combining accent.
    // 256 clusters span 512 code points and must still be accepted.
    let name = "e\u{301}".repeat(256);
    assert!(SubscriberName::parse(name).is_ok());
    let name = "e\u{301}".repeat(257);
    assert!(matches!(
        SubscriberName::parse(name),
        Err(RejectionReason::NameTooLong)
    ));
}

#[test]
fn accepted_name_is_kept_unchanged() {
    let parsed = SubscriberName::parse("Ursula K. Le Guin".to_string()).unwrap();
    assert_eq!(parsed.as_str(), "Ursula K. Le Guin");
}

#[test]
fn a_well_formed_email_is_valid_and_kept_unchanged() {
    let parsed = SubscriberEmail::parse("testname@gmail.com".to_string()).unwrap();
    assert_eq!(parsed.as_str(), "testname@gmail.com");
}

#[test]
fn email_rejections_carry_the_exact_reason() {
    assert!(matches!(
        SubscriberEmail::parse("not-an-email".to_string()),
        Err(RejectionReason::InvalidEmail)
    ));
}
