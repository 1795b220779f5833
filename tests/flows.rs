use newsletter::domain::{NewSubscriber, SubscriberEmail, ValidationError};
use newsletter::newsletters::{
    confirmed_recipients, delivery_failure, PublishError, PublishRun, PublishStep,
};
use newsletter::store::{StorageError, SubscriptionStatus, SubscriptionStore};
use newsletter::subscriptions::{
    confirmation_email, confirmation_link_for, subscribe, subscribe_with, FormData,
    SubscribeError,
};
use newsletter::subscriptions_confirm::{
    confirm, confirmation_target, ConfirmationError, Parameters,
};

const BASE_URL: &str = "http://127.0.0.1";

fn form(name: &str, email: &str) -> FormData {
    FormData {
        name: name.to_string(),
        email: email.to_string(),
    }
}

fn params(token: &str) -> Parameters {
    Parameters {
        subscription_token: token.to_string(),
    }
}

#[test]
fn signup_stores_one_pending_subscriber_and_one_token() {
    let mut store = SubscriptionStore::new();
    let mail = subscribe(
        &mut store,
        form("le guin", "ursula_le_guin@gmail.com"),
        BASE_URL,
    )
    .expect("signup should succeed");
    assert_eq!(store.subscribers().len(), 1);
    assert_eq!(store.tokens().len(), 1);
    let row = &store.subscribers()[0];
    assert_eq!(row.email, "ursula_le_guin@gmail.com");
    assert_eq!(row.name, "le guin");
    assert_eq!(row.status, SubscriptionStatus::PendingConfirmation);
    let token = &store.tokens()[0];
    assert_eq!(token.subscriber_id, row.id);
    assert_eq!(token.token.len(), 25);
    assert_eq!(mail.recipient.as_ref(), "ursula_le_guin@gmail.com");
    let link = format!(
        "{}/subscriptions/confirm?subscription_token={}",
        BASE_URL, token.token
    );
    assert_eq!(mail.text_body.matches(link.as_str()).count(), 1);
    assert_eq!(mail.html_body.matches(link.as_str()).count(), 1);
}

#[test]
fn invalid_signups_are_validation_errors_and_store_nothing() {
    let mut store = SubscriptionStore::new();
    for (name, email, message) in [
        ("", "ursula_le_guin@gmail.com", "Name cannot be empty or whitespace"),
        ("Ursula", "", "Invalid email format"),
        ("Ursula", "definitely-not-an-email", "Invalid email format"),
    ] {
        let err = subscribe(&mut store, form(name, email), BASE_URL).unwrap_err();
        assert_eq!(err, SubscribeError::ValidationError(message.to_string()));
        assert_eq!(err.status_code(), 400);
    }
    assert_eq!(store.subscribers().len(), 0);
    assert_eq!(store.tokens().len(), 0);
}

#[test]
fn failed_token_write_leaves_no_subscriber() {
    let mut store = SubscriptionStore::new();
    subscribe_with(&mut store, form("Ursula", "ursula@example.com"), BASE_URL, 1, "tok", 10)
        .unwrap();
    let err = subscribe_with(&mut store, form("Le Guin", "leguin@example.com"), BASE_URL, 2, "tok", 11)
        .unwrap_err();
    assert_eq!(
        err,
        SubscribeError::UnexpectedError("Failed to store subscription token".to_string())
    );
    assert_eq!(err.status_code(), 500);
    assert_eq!(store.subscribers().len(), 1);
    assert_eq!(store.subscribers()[0].id, 1);
    assert_eq!(store.tokens().len(), 1);
}

#[test]
fn taken_id_is_an_unexpected_error() {
    let mut store = SubscriptionStore::new();
    subscribe_with(&mut store, form("Ursula", "ursula@example.com"), BASE_URL, 7, "a", 10)
        .unwrap();
    let err = subscribe_with(&mut store, form("Le Guin", "leguin@example.com"), BASE_URL, 7, "b", 11)
        .unwrap_err();
    assert_eq!(
        err,
        SubscribeError::UnexpectedError("Failed to insert new subscriber".to_string())
    );
    assert_eq!(store.subscribers().len(), 1);
}

#[test]
fn confirming_twice_succeeds_both_times() {
    let mut store = SubscriptionStore::new();
    subscribe_with(&mut store, form("Ursula", "ursula@example.com"), BASE_URL, 3, "abc", 10)
        .unwrap();
    assert_eq!(confirm(&mut store, &params("abc")), Ok(()));
    assert_eq!(store.subscribers()[0].status, SubscriptionStatus::Confirmed);
    assert_eq!(confirm(&mut store, &params("abc")), Ok(()));
    assert_eq!(store.subscribers()[0].status, SubscriptionStatus::Confirmed);
}

#[test]
fn unknown_token_is_distinct_from_storage_failure() {
    let mut store = SubscriptionStore::new();
    subscribe_with(&mut store, form("Ursula", "ursula@example.com"), BASE_URL, 3, "abc", 10)
        .unwrap();
    let err = confirm(&mut store, &params("does-not-exist")).unwrap_err();
    assert_eq!(err, ConfirmationError::UnknownToken);
    assert_eq!(err.status_code(), 401);
    assert_eq!(
        store.subscribers()[0].status,
        SubscriptionStatus::PendingConfirmation
    );
    let outage = confirmation_target(Err(StorageError::Unavailable)).unwrap_err();
    assert!(matches!(outage, ConfirmationError::UnexpectedError(_)));
    assert_eq!(outage.status_code(), 500);
    assert_eq!(confirmation_target(Ok(None)), Err(ConfirmationError::UnknownToken));
    assert_eq!(confirmation_target(Ok(Some(9))), Ok(9));
}

#[test]
fn confirmation_link_confirms_the_subscriber() {
    let mut store = SubscriptionStore::new();
    let mail = subscribe_with(
        &mut store,
        form("le guin", "ursula_le_guin@gmail.com"),
        BASE_URL,
        42,
        "validtoken",
        10,
    )
    .unwrap();
    assert!(mail
        .text_body
        .contains("http://127.0.0.1/subscriptions/confirm?subscription_token=validtoken"));
    assert_eq!(confirm(&mut store, &params("validtoken")), Ok(()));
    assert_eq!(store.subscribers()[0].status, SubscriptionStatus::Confirmed);
}

#[test]
fn confirmation_email_bodies() {
    let recipient = SubscriberEmail::parse("a@example.com".to_string()).unwrap();
    let mail = confirmation_email(recipient, "https://news.example", "XyZ");
    assert_eq!(mail.subject, "Welcome!");
    assert_eq!(
        mail.text_body,
        "Welcome to our newsletter!\nVisit https://news.example/subscriptions/confirm?subscription_token=XyZ to confirm your subscription."
    );
    assert_eq!(
        mail.html_body,
        "Welcome to our newsletter!<br />Click <a href=\"https://news.example/subscriptions/confirm?subscription_token=XyZ\">here</a> to confirm your subscription."
    );
    assert_eq!(
        confirmation_link_for("b", "t"),
        "b/subscriptions/confirm?subscription_token=t"
    );
}

#[test]
fn broadcast_skips_a_corrupted_recipient() {
    let first = SubscriberEmail::parse("first@example.com".to_string()).unwrap();
    let third = SubscriberEmail::parse("third@example.com".to_string()).unwrap();
    let recipients = vec![Ok(first), Err(ValidationError::InvalidEmail), Ok(third)];
    let mut run = PublishRun::new(recipients);
    let mut sent = Vec::new();
    let mut skipped = Vec::new();
    loop {
        match run.next_step() {
            PublishStep::Send(email) => sent.push(email.as_ref().to_string()),
            PublishStep::Skip(i, e) => skipped.push((i, e)),
            PublishStep::Done => break,
        }
    }
    assert_eq!(sent, vec!["first@example.com", "third@example.com"]);
    assert_eq!(skipped, vec![(1, ValidationError::InvalidEmail)]);
}

#[test]
fn stored_addresses_are_parsed_again() {
    let stored = vec![
        "first@example.com".to_string(),
        "not-an-address".to_string(),
        "third@example.com".to_string(),
    ];
    let parsed = confirmed_recipients(&stored);
    assert_eq!(parsed.len(), 3);
    assert_eq!(parsed[0].as_ref().unwrap().as_ref(), "first@example.com");
    assert_eq!(*parsed[1].as_ref().unwrap_err(), ValidationError::InvalidEmail);
    assert_eq!(parsed[2].as_ref().unwrap().as_ref(), "third@example.com");
}

#[test]
fn broadcast_reaches_confirmed_subscribers_only() {
    let mut store = SubscriptionStore::new();
    subscribe_with(&mut store, form("One", "one@example.com"), BASE_URL, 1, "t1", 10).unwrap();
    subscribe_with(&mut store, form("Two", "two@example.com"), BASE_URL, 2, "t2", 11).unwrap();
    subscribe_with(&mut store, form("Three", "three@example.com"), BASE_URL, 3, "t3", 12).unwrap();
    confirm(&mut store, &params("t3")).unwrap();
    confirm(&mut store, &params("t1")).unwrap();
    let mut run = PublishRun::new(store.list_confirmed());
    let mut sent = Vec::new();
    while let PublishStep::Send(email) = run.next_step() {
        sent.push(email.as_ref().to_string());
    }
    assert_eq!(sent, vec!["one@example.com", "three@example.com"]);
}

#[test]
fn broadcast_with_no_confirmed_subscribers_sends_nothing() {
    let mut store = SubscriptionStore::new();
    subscribe_with(&mut store, form("One", "one@example.com"), BASE_URL, 1, "t1", 10).unwrap();
    let mut run = PublishRun::new(store.list_confirmed());
    assert!(matches!(run.next_step(), PublishStep::Done));
    assert!(matches!(run.next_step(), PublishStep::Done));
}

#[test]
fn delivery_failure_names_the_recipient() {
    let email = SubscriberEmail::parse("x@example.com".to_string()).unwrap();
    let err = delivery_failure(&email);
    assert_eq!(
        err,
        PublishError::UnexpectedError("Failed to send newsletter issue to x@example.com".to_string())
    );
    assert_eq!(err.status_code(), 500);
}

#[test]
fn transaction_rollback_writes_nothing() {
    let store = SubscriptionStore::new();
    let mut tx = store.begin();
    let new = NewSubscriber::new("a@example.com".to_string(), "A".to_string()).unwrap();
    assert_eq!(tx.insert_subscriber(&store, &new, 5, 0), Ok(5));
    assert_eq!(tx.store_token(&store, 5, "tok"), Ok(()));
    tx.rollback();
    assert_eq!(store.subscribers().len(), 0);
    assert_eq!(store.tokens().len(), 0);
}

#[test]
fn token_for_unknown_subscriber_is_refused() {
    let store = SubscriptionStore::new();
    let mut tx = store.begin();
    assert_eq!(
        tx.store_token(&store, 99, "tok"),
        Err(StorageError::ForeignKeyViolation)
    );
}

#[test]
fn conflicting_commits_keep_the_first() {
    let mut store = SubscriptionStore::new();
    let a = NewSubscriber::new("a@example.com".to_string(), "A".to_string()).unwrap();
    let b = NewSubscriber::new("b@example.com".to_string(), "B".to_string()).unwrap();
    let mut first = store.begin();
    let mut second = store.begin();
    first.insert_subscriber(&store, &a, 1, 0).unwrap();
    second.insert_subscriber(&store, &b, 1, 0).unwrap();
    assert_eq!(store.commit(first), Ok(()));
    assert_eq!(store.commit(second), Err(StorageError::UniqueViolation));
    assert_eq!(store.subscribers().len(), 1);
    assert_eq!(store.subscribers()[0].email, "a@example.com");
    assert_eq!(store.resolve_token("missing"), None);
}

#[test]
fn status_labels() {
    assert_eq!(SubscriptionStatus::Confirmed.as_str(), "confirmed");
    assert_eq!(
        SubscriptionStatus::PendingConfirmation.as_str(),
        "pending_confirmation"
    );
}
