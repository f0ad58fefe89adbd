use newsletter::configuration::EmailClientSettings;
use newsletter::subscriber_email::SubscriberEmail;

#[test]
fn subscriber_email_empty_string_is_rejected() {
    let email = "".to_string();
    assert!(SubscriberEmail::parse(email).is_err());
}

#[test]
fn email_missing_at_symbol_is_rejected() {
    let email = "nadon.io".to_string();
    assert!(SubscriberEmail::parse(email).is_err());
}

#[test]
fn email_missing_subject_is_rejected() {
    let email = "@nadon.io".to_string();
    assert!(SubscriberEmail::parse(email).is_err());
}

#[test]
fn a_standard_address_is_accepted() {
    let email = SubscriberEmail::parse("phil@nadon.io".to_string()).unwrap();
    assert_eq!(email.as_ref(), "phil@nadon.io");
}

#[test]
fn a_rejected_address_is_named_in_the_message() {
    let message = SubscriberEmail::parse("not-an-email".to_string()).unwrap_err();
    assert_eq!(message, "not-an-email is not a valid subscriber email");
}

#[test]
fn a_clone_keeps_the_address() {
    let email = SubscriberEmail::parse("ursula_le_guin@gmail.com".to_string()).unwrap();
    assert_eq!(email.clone().as_ref(), "ursula_le_guin@gmail.com");
}

#[test]
fn the_sender_must_be_a_valid_address() {
    let mut settings = EmailClientSettings {
        base_url: "http://127.0.0.1".to_string(),
        sender_email: "newsletter@nadon.io".to_string(),
        authorization_token: "not-a-real-secret".to_string(),
        default_timeout: std::time::Duration::from_secs(10),
    };
    assert_eq!(settings.sender().unwrap().as_ref(), "newsletter@nadon.io");
    settings.sender_email = "newsletter".to_string();
    assert_eq!(
        settings.sender().unwrap_err(),
        "newsletter is not a valid subscriber email"
    );
}
