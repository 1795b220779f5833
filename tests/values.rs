use newsletter::config::AppConfig;
use newsletter::domain::{SubscriberEmail, SubscriberName, ValidationError};
use newsletter::token::generate_subscription_token;
use std::collections::HashSet;

#[test]
fn email_round_trips_unchanged() {
    let email = SubscriberEmail::parse("ursula_le_guin@gmail.com".to_string()).unwrap();
    assert_eq!(email.as_ref(), "ursula_le_guin@gmail.com");
}

#[test]
fn malformed_emails_are_refused() {
    for raw in ["", "ursula.com", "ursula@", "@gmail.com", "a@@b.com", "definitely-not-an-email"] {
        assert_eq!(
            SubscriberEmail::parse(raw.to_string()).unwrap_err(),
            ValidationError::InvalidEmail,
            "{} should be refused",
            raw
        );
    }
}

#[test]
fn whitespace_only_name_is_refused() {
    for raw in ["", " ", "   ", "\t\n", "\u{3000}"] {
        assert_eq!(
            SubscriberName::parse(raw.to_string()).unwrap_err(),
            ValidationError::EmptyName
        );
    }
}

#[test]
fn name_length_counts_grapheme_clusters() {
    // 256 clusters of a letter and a combining accent: 512 chars.
    let name = "e\u{301}".repeat(256);
    assert_eq!(name.chars().count(), 512);
    let parsed = SubscriberName::parse(name.clone()).unwrap();
    assert_eq!(parsed.as_ref(), name);
    let longer = "e\u{301}".repeat(257);
    assert_eq!(
        SubscriberName::parse(longer).unwrap_err(),
        ValidationError::NameTooLong
    );
}

#[test]
fn multibyte_names_at_the_limit_pass() {
    assert!(SubscriberName::parse("李".repeat(256)).is_ok());
    assert_eq!(
        SubscriberName::parse("李".repeat(257)).unwrap_err(),
        ValidationError::NameTooLong
    );
}

#[test]
fn forbidden_character_is_reported() {
    assert_eq!(
        SubscriberName::parse("Ursula <admin>".to_string()).unwrap_err(),
        ValidationError::ForbiddenCharacters
    );
}

#[test]
fn blank_is_reported_before_length() {
    assert_eq!(
        SubscriberName::parse(" ".repeat(300)).unwrap_err(),
        ValidationError::EmptyName
    );
}

#[test]
fn validation_messages() {
    assert_eq!(ValidationError::InvalidEmail.message(), "Invalid email format");
    assert_eq!(
        ValidationError::EmptyName.message(),
        "Name cannot be empty or whitespace"
    );
    assert_eq!(
        ValidationError::NameTooLong.message(),
        "Name cannot be longer than 256 characters"
    );
    assert_eq!(
        ValidationError::ForbiddenCharacters.message(),
        "Name contains forbidden characters"
    );
}

#[test]
fn tokens_are_distinct_and_alphanumeric() {
    let mut seen = HashSet::new();
    for _ in 0..1000 {
        let token = generate_subscription_token();
        assert_eq!(token.len(), 25);
        assert!(token.chars().all(|c| c.is_ascii_alphanumeric()));
        seen.insert(token);
    }
    assert_eq!(seen.len(), 1000);
}

#[test]
fn address_joins_host_and_port() {
    let config = AppConfig {
        port: 8000,
        host: "127.0.0.1".to_string(),
    };
    assert_eq!(config.address(), "127.0.0.1:8000");
    let config = AppConfig {
        port: 0,
        host: "localhost".to_string(),
    };
    assert_eq!(config.address(), "localhost:0");
}
