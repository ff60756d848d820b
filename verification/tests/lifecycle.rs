use newsletter::domain::NewSubscriber;
use newsletter::store::{StoreError, SubscriberStatus, SubscriberStore};
use newsletter::subscriptions::{
    confirm_by_token, confirm_status, outcome_of, submit, submit_now, submit_status,
    submit_with_token, ConfirmOutcome, FormData, Outcome, Submission,
};
use newsletter::token::{confirmation_link, generate};

const BASE_URL: &str = "https://newsletter.example.com";

fn form(name: &str, email: &str) -> FormData {
    FormData { email: email.to_string(), name: name.to_string() }
}

fn pending_fields(s: Submission) -> (usize, String, String, String) {
    match s {
        Submission::Pending { id, recipient, token, link } => {
            (id, recipient.as_str().to_string(), token, link)
        }
        _ => panic!("expected a pending submission"),
    }
}

#[test]
fn submit_persists_the_new_subscriber() {
    let mut store = SubscriberStore::new();
    let sub = submit(&mut store, form("le guin", "ursula_le_guin@gmail.com"), BASE_URL, 11);
    let (id, recipient, token, link) = pending_fields(sub);
    assert_eq!(id, 0);
    assert_eq!(recipient, "ursula_le_guin@gmail.com");
    assert_eq!(store.len(), 1);
    let row = store.get(0);
    assert_eq!(row.email.as_str(), "ursula_le_guin@gmail.com");
    assert_eq!(row.name.as_str(), "le guin");
    assert_eq!(row.subscribed_at, 11);
    assert_eq!(row.status, SubscriberStatus::PendingConfirmation);
    assert_eq!(row.token.as_ref().unwrap(), &token);
    assert_eq!(link, format!("{}/subscriptions/confirm?token={}", BASE_URL, token));
}

#[test]
fn submit_then_confirm_yields_a_confirmed_subscriber() {
    let mut store = SubscriberStore::new();
    let sub = submit(&mut store, form("le guin", "ursula_le_guin@gmail.com"), BASE_URL, 11);
    let (id, _, token, _) = pending_fields(sub);
    let outcome = confirm_by_token(&mut store, &token);
    assert_eq!(outcome, ConfirmOutcome::Confirmed);
    assert_eq!(store.get(id).status, SubscriberStatus::Confirmed);
}

#[test]
fn confirming_twice_is_idempotent() {
    let mut store = SubscriberStore::new();
    let sub = submit(&mut store, form("le guin", "ursula_le_guin@gmail.com"), BASE_URL, 11);
    let (id, _, token, _) = pending_fields(sub);
    assert_eq!(confirm_by_token(&mut store, &token), ConfirmOutcome::Confirmed);
    assert_eq!(confirm_by_token(&mut store, &token), ConfirmOutcome::Confirmed);
    assert_eq!(store.get(id).status, SubscriberStatus::Confirmed);
    assert_eq!(store.len(), 1);
}

#[test]
fn an_empty_email_is_rejected_and_stores_nothing() {
    let mut store = SubscriberStore::new();
    let sub = submit(&mut store, form("Ursula", ""), BASE_URL, 11);
    assert!(matches!(sub, Submission::Rejected));
    assert_eq!(outcome_of(&sub, true), Outcome::RejectedInput);
    assert_eq!(store.len(), 0);
}

#[test]
fn an_empty_name_is_rejected_and_stores_nothing() {
    let mut store = SubscriberStore::new();
    let sub = submit(&mut store, form("", "ursula_le_guin@gmail.com"), BASE_URL, 11);
    assert!(matches!(sub, Submission::Rejected));
    assert_eq!(outcome_of(&sub, true), Outcome::RejectedInput);
    assert_eq!(store.len(), 0);
}

#[test]
fn a_garbage_token_is_invalid_and_changes_nothing() {
    let mut store = SubscriberStore::new();
    let sub = submit(&mut store, form("le guin", "ursula_le_guin@gmail.com"), BASE_URL, 11);
    let (id, _, _, _) = pending_fields(sub);
    let outcome = confirm_by_token(&mut store, &"definitely-not-a-token".to_string());
    assert_eq!(outcome, ConfirmOutcome::InvalidToken);
    assert_eq!(store.get(id).status, SubscriberStatus::PendingConfirmation);
    assert_eq!(store.len(), 1);
}

#[test]
fn a_duplicate_email_conflicts_and_adds_no_row() {
    let mut store = SubscriberStore::new();
    let first = submit(&mut store, form("le guin", "ursula_le_guin@gmail.com"), BASE_URL, 11);
    assert!(matches!(first, Submission::Pending { .. }));
    assert_eq!(outcome_of(&first, true), Outcome::Accepted);
    let second = submit(&mut store, form("Ursula", "ursula_le_guin@gmail.com"), BASE_URL, 12);
    assert!(matches!(second, Submission::Duplicate));
    assert_eq!(outcome_of(&second, true), Outcome::Conflict);
    assert_eq!(store.len(), 1);
}

#[test]
fn racing_submissions_with_one_email_get_one_acceptance_and_one_conflict() {
    // The store serialises racing submissions; whichever lands second
    // observes the duplicate.
    let mut store = SubscriberStore::new();
    let a = submit(&mut store, form("first", "shared@example.com"), BASE_URL, 11);
    let b = submit(&mut store, form("second", "shared@example.com"), BASE_URL, 11);
    let outcomes = [outcome_of(&a, true), outcome_of(&b, true)];
    assert_eq!(outcomes.iter().filter(|o| **o == Outcome::Accepted).count(), 1);
    assert_eq!(outcomes.iter().filter(|o| **o == Outcome::Conflict).count(), 1);
    assert_eq!(store.len(), 1);
}

#[test]
fn a_failed_notification_leaves_the_subscriber_pending() {
    let mut store = SubscriberStore::new();
    let sub = submit(&mut store, form("le guin", "ursula_le_guin@gmail.com"), BASE_URL, 11);
    assert_eq!(outcome_of(&sub, false), Outcome::NotificationFailed);
    assert_eq!(store.len(), 1);
    assert_eq!(store.get(0).status, SubscriberStatus::PendingConfirmation);
}

#[test]
fn store_operations_report_their_errors() {
    let mut store = SubscriberStore::new();
    assert_eq!(store.record_token(0, "t".to_string()), Err(StoreError::NotFound));
    assert_eq!(store.confirm(0), Err(StoreError::NotFound));
    assert_eq!(store.find_subscriber_by_token(&"t".to_string()), None);
}

#[test]
fn submit_now_stamps_a_plausible_time() {
    let mut store = SubscriberStore::new();
    let sub = submit_now(&mut store, form("le guin", "ursula_le_guin@gmail.com"), BASE_URL);
    assert!(matches!(sub, Submission::Pending { .. }));
    // 2020-01-01T00:00:00Z, long before this library existed.
    assert!(store.get(0).subscribed_at > 1_577_836_800);
}

#[test]
fn submit_with_token_records_the_given_token() {
    let mut store = SubscriberStore::new();
    let sub = submit_with_token(
        &mut store,
        form("le guin", "ursula_le_guin@gmail.com"),
        BASE_URL,
        5,
        "tok123".to_string(),
    );
    let (_, _, token, link) = pending_fields(sub);
    assert_eq!(token, "tok123");
    assert_eq!(store.get(0).token.as_deref(), Some("tok123"));
    assert!(link.ends_with("?token=tok123"));
    assert_eq!(confirm_by_token(&mut store, &"tok123".to_string()), ConfirmOutcome::Confirmed);
}

#[test]
fn try_from_reports_the_offending_field() {
    let bad_name = NewSubscriber::try_from(FormData {
        email: "ursula_le_guin@gmail.com".to_string(),
        name: "{}".to_string(),
    });
    assert_eq!(bad_name.unwrap_err(), "{}");
    let bad_email = NewSubscriber::try_from(FormData {
        email: "not-an-email".to_string(),
        name: "le guin".to_string(),
    });
    assert_eq!(bad_email.unwrap_err(), "not-an-email");
    let good = NewSubscriber::try_from(FormData {
        email: "ursula_le_guin@gmail.com".to_string(),
        name: "le guin".to_string(),
    });
    let good = good.unwrap();
    assert_eq!(good.email.as_str(), "ursula_le_guin@gmail.com");
    assert_eq!(good.name.as_str(), "le guin");
}

#[test]
fn tokens_are_long_and_fresh() {
    let a = generate();
    let b = generate();
    assert_eq!(a.len(), 32);
    assert_eq!(b.len(), 32);
    assert_ne!(a, b);
}

#[test]
fn the_confirmation_link_embeds_the_token_as_query_parameter() {
    let link = confirmation_link("https://example.com", "abc123");
    assert_eq!(link, "https://example.com/subscriptions/confirm?token=abc123");
}

#[test]
fn outcomes_map_to_the_documented_statuses() {
    assert_eq!(submit_status(Outcome::Accepted), 200);
    assert_eq!(submit_status(Outcome::RejectedInput), 400);
    assert_eq!(submit_status(Outcome::Conflict), 500);
    assert_eq!(submit_status(Outcome::NotificationFailed), 500);
    assert_eq!(confirm_status(ConfirmOutcome::Confirmed), 200);
    assert_eq!(confirm_status(ConfirmOutcome::InvalidToken), 401);
}
