use zero2prod::domain::RejectionReason;
use zero2prod::routes::subscriptions::{
    make_record, prepare_record, response_status, validate_submission, IntakeOutcome,
};

#[test]
fn a_valid_submission_is_accepted_with_its_fields_kept() {
    let r = validate_submission(
        Some("test name".to_string()),
        Some("testname@gmail.com".to_string()),
    );
    let subscriber = r.unwrap();
    assert_eq!(subscriber.name.as_str(), "test name");
    assert_eq!(subscriber.email.as_str(), "testname@gmail.com");
}

#[test]
fn a_missing_field_is_rejected() {
    assert!(matches!(
        validate_submission(None, Some("testname@gmail.com".to_string())),
        Err(RejectionReason::MissingName)
    ));
    assert!(matches!(
        validate_submission(Some("test name".to_string()), None),
        Err(RejectionReason::MissingEmail)
    ));
    assert!(matches!(
        validate_submission(None, None),
        Err(RejectionReason::MissingName)
    ));
}

#[test]
fn an_empty_field_is_rejected() {
    assert!(matches!(
        validate_submission(Some("".to_string()), Some("testname@gmail.com".to_string())),
        Err(RejectionReason::EmptyName)
    ));
    assert!(matches!(
        validate_submission(Some("test name".to_string()), Some("".to_string())),
        Err(RejectionReason::InvalidEmail)
    ));
}

#[test]
fn the_record_carries_the_validated_fields_unchanged() {
    let subscriber = validate_submission(
        Some("test name".to_string()),
        Some("testname@gmail.com".to_string()),
    )
    .unwrap();
    let record = make_record(subscriber, 7, 1_700_000_000_000_000);
    assert_eq!(record.id, 7);
    assert_eq!(record.subscribed_at_micros, 1_700_000_000_000_000);
    assert_eq!(record.name, "test name");
    assert_eq!(record.email, "testname@gmail.com");
}

#[test]
fn duplicate_submissions_yield_distinct_records() {
    let first = validate_submission(
        Some("test name".to_string()),
        Some("testname@gmail.com".to_string()),
    )
    .unwrap();
    let second = validate_submission(
        Some("test name".to_string()),
        Some("testname@gmail.com".to_string()),
    )
    .unwrap();
    let first = prepare_record(first);
    let second = prepare_record(second);
    assert_eq!(first.name, second.name);
    assert_eq!(first.email, second.email);
    assert_ne!(first.id, second.id);
    assert_ne!(first, second);
}

#[test]
fn each_outcome_maps_to_its_status() {
    assert_eq!(
        response_status(&IntakeOutcome::Rejected(RejectionReason::InvalidEmail)),
        400
    );
    assert_eq!(response_status(&IntakeOutcome::Persisted), 200);
    assert_eq!(response_status(&IntakeOutcome::PersistFailed), 500);
}
