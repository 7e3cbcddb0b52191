//! The intake decision flow for one subscription request: decode the form
//! fields, validate them into domain values, prepare the record to persist,
//! and map the outcome to a response status. Each request passes through
//! this flow once; nothing is shared between requests.

use crate::domain::subscriber_email::email_valid;
use crate::domain::subscriber_name::name_rejection;
use crate::domain::{RejectionReason, SubscriberEmail, SubscriberName};
use vstd::prelude::*;
use vstd::string::*;

verus! {

/// A structurally decoded submission: both fields present as text, not yet
/// validated.
pub struct FormData {
    pub email: String,
    pub name: String,
}

/// A submission that passed validation, ready to be persisted.
pub struct NewSubscriber {
    pub name: SubscriberName,
    pub email: SubscriberEmail,
}

/// The row appended to the subscriptions table: identifier, the validated
/// fields in string form, and the subscription instant in UTC microseconds
/// since the Unix epoch.
#[derive(Debug, Clone, PartialEq, Eq)]
pub struct SubscriptionRecord {
    pub id: u128,
    pub email: String,
    pub name: String,
    pub subscribed_at_micros: i64,
}

/// How one request ended: turned away at validation, persisted, or failed
/// at the store.
#[derive(Clone, Copy, PartialEq, Eq, Structural, Debug)]
pub enum IntakeOutcome {
    Rejected(RejectionReason),
    Persisted,
    PersistFailed,
}

/// The rejection a decoded form earns, if any: the name is judged first,
/// then the email.
pub open spec fn form_rejection(name: Seq<char>, email: Seq<char>) -> Option<RejectionReason> {
    if name_rejection(name) is Some {
        name_rejection(name)
    } else if !email_valid(email) {
        Some(RejectionReason::InvalidEmail)
    } else {
        None
    }
}

/// The rejection a raw submission earns, if any: absent fields are judged
/// before the field contents, the name before the email.
pub open spec fn submission_rejection(
    name: Option<Seq<char>>,
    email: Option<Seq<char>>,
) -> Option<RejectionReason> {
    if name is None {
        Some(RejectionReason::MissingName)
    } else if email is None {
        Some(RejectionReason::MissingEmail)
    } else {
        form_rejection(name->0, email->0)
    }
}

/// Requires both form fields to be present, in the order name then email.
pub fn decode_fields(name: Option<String>, email: Option<String>) -> (r: Result<
    FormData,
    RejectionReason,
>)
    ensures
        name is None ==> r == Err::<FormData, RejectionReason>(RejectionReason::MissingName),
        name is Some && email is None ==> r == Err::<FormData, RejectionReason>(
            RejectionReason::MissingEmail,
        ),
        name matches Some(n) ==> email matches Some(e) ==> (r matches Ok(f) && f.name == n
            && f.email == e),
{
    let name = match name {
        Some(n) => n,
        None => {
            return Err(RejectionReason::MissingName);
        },
    };
    let email = match email {
        Some(e) => e,
        None => {
            return Err(RejectionReason::MissingEmail);
        },
    };
    Ok(FormData { email, name })
}

/// Validates a decoded form into domain values: the name rules first, the
/// email grammar second, the first failure winning. An empty name or an
/// empty email is rejected in particular.
pub fn validate_form(form: FormData) -> (r: Result<NewSubscriber, RejectionReason>)
    ensures
        r is Ok <==> form_rejection(form.name@, form.email@) is None,
        r matches Err(e) ==> form_rejection(form.name@, form.email@) == Some(e),
        r matches Ok(ns) ==> ns.name@ == form.name@ && ns.email@ == form.email@,
        form.name@.len() == 0 ==> r is Err,
        form.email@.len() == 0 ==> r is Err,
{
    let FormData { email, name } = form;
    let name = match SubscriberName::parse(name) {
        Ok(n) => n,
        Err(reason) => {
            return Err(reason);
        },
    };
    let email = match SubscriberEmail::parse(email) {
        Ok(e) => e,
        Err(reason) => {
            return Err(reason);
        },
    };
    Ok(NewSubscriber { name, email })
}

/// The whole validation pass, from raw optional fields to a subscriber or
/// a rejection: missing fields first, then the domain rules.
pub fn validate_submission(name: Option<String>, email: Option<String>) -> (r: Result<
    NewSubscriber,
    RejectionReason,
>)
    ensures
        r is Ok <==> submission_rejection(name.deep_view(), email.deep_view()) is None,
        r matches Err(e) ==> submission_rejection(name.deep_view(), email.deep_view()) == Some(e),
        r matches Ok(ns) ==> ns.name@ == name->0@ && ns.email@ == email->0@,
        name matches Some(n) ==> n@.len() == 0 ==> r is Err,
        email matches Some(e) ==> e@.len() == 0 ==> r is Err,
{
    let form = match decode_fields(name, email) {
        Ok(f) => f,
        Err(reason) => {
            return Err(reason);
        },
    };
    validate_form(form)
}

/// Relies on uuid's `Uuid::new_v4`: a freshly generated random identifier.
/// Nothing is promised of its value.
#[verifier::external_body]
pub(crate) fn fresh_subscription_id() -> u128 {
    uuid::Uuid::new_v4().as_u128()
}

/// Relies on chrono's `Utc::now`: the current UTC instant, converted to
/// microseconds since the Unix epoch. Nothing is promised of its value.
#[verifier::external_body]
pub(crate) fn now_utc_micros() -> i64 {
    chrono::Utc::now().timestamp_micros()
}

/// Builds the record to persist from a validated subscriber and a given
/// identifier and instant: the validated fields are carried over unchanged.
pub fn make_record(sub: NewSubscriber, id: u128, subscribed_at_micros: i64) -> (r:
    SubscriptionRecord)
    ensures
        r.id == id,
        r.subscribed_at_micros == subscribed_at_micros,
        r.name@ == sub.name@,
        r.email@ == sub.email@,
{
    let name = String::from_str(sub.name.as_str());
    let email = String::from_str(sub.email.as_str());
    SubscriptionRecord { id, email, name, subscribed_at_micros }
}

/// Builds the record to persist, generating a fresh identifier and taking
/// the current instant: the validated fields are carried over unchanged,
/// and the identifier owes nothing to any earlier request.
pub fn prepare_record(sub: NewSubscriber) -> (r: SubscriptionRecord)
    ensures
        r.name@ == sub.name@,
        r.email@ == sub.email@,
{
    let id = fresh_subscription_id();
    let subscribed_at_micros = now_utc_micros();
    make_record(sub, id, subscribed_at_micros)
}

/// The response status each outcome earns: success for a persisted
/// subscriber, a client error for a rejection, a server error when the
/// store failed. Nothing of the store failure reaches the caller.
pub fn response_status(outcome: &IntakeOutcome) -> (r: u16)
    ensures
        outcome matches IntakeOutcome::Rejected(_) ==> r == 400,
        outcome is Persisted ==> r == 200,
        outcome is PersistFailed ==> r == 500,
{
    match outcome {
        IntakeOutcome::Rejected(_) => 400,
        IntakeOutcome::Persisted => 200,
        IntakeOutcome::PersistFailed => 500,
    }
}

/// Law: no deduplication — two records with distinct identifiers are
/// distinct, whatever their other fields hold; the same name and email
/// submitted twice therefore yields two distinct records.
pub proof fn distinct_identifiers_distinct_records(a: SubscriptionRecord, b: SubscriptionRecord)
    requires
        a.id != b.id,
    ensures
        a != b,
{
}

} // verus!
