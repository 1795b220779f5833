use newsletter::domain::NewSubscriber;

#[test]
fn create_invalid_subscriber() {
    NewSubscriber::new("John".to_string(), "john@example.com".to_string())
        .expect_err("Should fail to create subscriber with invalid email");
}

#[test]
fn create_valid_subscriber() {
    let subscriber = NewSubscriber::new("john@example.com".to_string(), "John".to_string())
        .expect("Failed to create subscriber");
    assert_eq!(subscriber.email.as_ref(), "john@example.com");
    assert_eq!(subscriber.name.as_ref(), "John");
}

#[test]
fn valid_subscriber_passes_validation() {
    let result = NewSubscriber::new("test@example.com".to_string(), "John Doe".to_string());
    assert!(result.is_ok());
}

#[test]
fn invalid_email_fails_validation() {
    let result = NewSubscriber::new("invalid-email".to_string(), "John Doe".to_string());
    assert!(result.is_err());
}

#[test]
fn empty_email_fails_validation() {
    let result = NewSubscriber::new("".to_string(), "John Doe".to_string());
    assert!(result.is_err());
}

#[test]
fn empty_name_fails_validation() {
    let result = NewSubscriber::new("test@example.com".to_string(), "".to_string());
    assert!(result.is_err());
}

#[test]
fn name_too_long_fails_validation() {
    let result = NewSubscriber::new("test@example.com".to_string(), "a".repeat(257));
    assert!(result.is_err());
}

#[test]
fn name_with_forbidden_characters_fails_validation() {
    let forbidden_chars = vec!['/', '(', ')', '"', '<', '>', '\\', '{', '}'];

    for char in forbidden_chars {
        let result =
            NewSubscriber::new("test@example.com".to_string(), format!("John{}Doe", char));
        assert!(
            result.is_err(),
            "Name with '{}' should fail validation",
            char
        );
    }
}

#[test]
fn name_with_allowed_characters_passes_validation() {
    let allowed_names = vec![
        "John Doe",
        "Mary-Jane",
        "José María",
        "O'Connor",
        "李小明",
        "123",
        "user@domain",
        "Name with spaces and numbers 123",
    ];

    for name in allowed_names {
        let result = NewSubscriber::new("test@example.com".to_string(), name.to_string());
        assert!(result.is_ok(), "Name '{}' should pass validation", name);
    }
}

#[test]
fn name_at_max_length_passes_validation() {
    let result = NewSubscriber::new("test@example.com".to_string(), "a".repeat(256));
    assert!(result.is_ok());
}
