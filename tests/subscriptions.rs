use newsletter::errors::SubscribeError;
use newsletter::new_subscriber::{NewSubscriber, SubscribeFormData};
use newsletter::subscriptions::{
    confirmation_email, generate_subscription_token, subscribe, token_from_draws, SubscribeAction, SubscribeStage,
    SubscriptionStatus,
};

fn form(name: &str, email: &str) -> SubscribeFormData {
    SubscribeFormData {
        name: name.to_string(),
        email: email.to_string(),
    }
}

#[test]
fn subscribe_returns_badrequest_when_fields_are_present_but_invalid() {
    let test_cases = vec![
        (form("phil nadon", ""), "empty email address"),
        (form("", "phil@nadon.io"), "empty name"),
        (form("phil nadon", "not-an-email"), "invalid email"),
    ];
    for (data, description) in test_cases {
        match subscribe(data, "http://127.0.0.1".to_string()) {
            Err(e) => assert_eq!(e.status_code(), 400, "expected a 400, with {}", description),
            Ok(_) => panic!("expected a 400, with {}", description),
        }
    }
}

#[test]
fn an_empty_name_and_an_invalid_email_are_both_reported() {
    match NewSubscriber::try_from(form("", "nadon.io")) {
        Err(message) => assert_eq!(
            message,
            "name cannot be empty!, nadon.io is not a valid subscriber email"
        ),
        Ok(_) => panic!("expected a validation failure"),
    }
}

#[test]
fn a_valid_form_becomes_a_new_subscriber() {
    let s = NewSubscriber::try_from(form("phil nadon", "phil@nadon.io")).unwrap();
    assert_eq!(s.name.as_ref(), "phil nadon");
    assert_eq!(s.email.as_ref(), "phil@nadon.io");
}

#[test]
fn tokens_are_25_ascii_letters_or_digits() {
    let a = generate_subscription_token();
    let b = generate_subscription_token();
    assert_eq!(a.chars().count(), 25);
    assert!(a.chars().all(|c| c.is_ascii_alphanumeric()));
    assert!(b.chars().all(|c| c.is_ascii_alphanumeric()));
    assert_ne!(a, b);
}

#[test]
fn the_confirmation_email_carries_the_link_in_both_bodies() {
    let s = NewSubscriber::try_from(form("phil nadon", "phil@nadon.io")).unwrap();
    let m = confirmation_email(&s, "http://127.0.0.1:8000", "abc123");
    let link = "http://127.0.0.1:8000/subscriptions/confirm?subscription_token=abc123";
    assert_eq!(m.recipient.as_ref(), "phil@nadon.io");
    assert_eq!(m.subject, "Welcome phil nadon!");
    assert_eq!(
        m.text_body,
        format!("Welcome to our newsletter!\nVisit {} to confirm your subscription.", link)
    );
    assert_eq!(
        m.html_body,
        format!(
            "Welcome to our newsletter!<br />Click <a href=\"{}\">here</a> to confirm your subscription.",
            link
        )
    );
}

#[test]
fn statuses_are_stored_by_name() {
    assert_eq!(SubscriptionStatus::PendingConfirmation.as_str(), "pending_confirmation");
    assert_eq!(SubscriptionStatus::Confirmed.as_str(), "confirmed");
}

#[test]
fn a_valid_subscription_stores_one_pending_row_one_token_and_sends_one_link() {
    let mut s = match subscribe(form("phil nadon", "phil@nadon.io"), "http://127.0.0.1".to_string())
    {
        Ok(s) => s,
        Err(_) => panic!("the form is valid"),
    };
    assert_eq!(s.stage(), SubscribeStage::AwaitingTransaction);
    let mut inserted = Vec::new();
    let mut tokens = Vec::new();
    let mut emails = Vec::new();
    let mut commits = 0;
    let mut committed_before_email = false;
    let result = loop {
        match s.resume(Ok(())) {
            SubscribeAction::InsertSubscriber(record) => inserted.push(record),
            SubscribeAction::StoreToken { subscriber_id, token } => {
                tokens.push((subscriber_id, token))
            }
            SubscribeAction::Commit => commits += 1,
            SubscribeAction::SendEmail(m) => {
                committed_before_email = commits == 1;
                emails.push(m)
            }
            SubscribeAction::Finish(r) => break r,
        }
    };
    assert!(result.is_ok());
    assert_eq!(s.stage(), SubscribeStage::Done);
    assert_eq!(inserted.len(), 1);
    assert_eq!(inserted[0].email, "phil@nadon.io");
    assert_eq!(inserted[0].name, "phil nadon");
    assert_eq!(inserted[0].status, SubscriptionStatus::PendingConfirmation);
    assert_eq!(tokens.len(), 1);
    assert_eq!(tokens[0].0, inserted[0].id);
    assert_eq!(commits, 1);
    assert!(committed_before_email);
    assert_eq!(emails.len(), 1);
    let link = format!(
        "http://127.0.0.1/subscriptions/confirm?subscription_token={}",
        tokens[0].1
    );
    assert!(emails[0].html_body.contains(&link));
    assert!(emails[0].text_body.contains(&link));
}

#[test]
fn subscribe_fails_if_there_is_a_fatal_database_error() {
    let mut s = match subscribe(
        form("le guin", "ursula_le_guin@gmail.com"),
        "http://127.0.0.1".to_string(),
    ) {
        Ok(s) => s,
        Err(_) => panic!("the form is valid"),
    };
    assert!(matches!(s.resume(Ok(())), SubscribeAction::InsertSubscriber(_)));
    assert!(matches!(s.resume(Ok(())), SubscribeAction::StoreToken { .. }));
    match s.resume(Err("column \"subscription_token\" does not exist".to_string())) {
        SubscribeAction::Finish(Err(e)) => {
            assert_eq!(e.status_code(), 500);
            match e {
                SubscribeError::UnexpectedError(c) => {
                    assert_eq!(
                        c.message,
                        "Failed to store the confirmation token for a new subscriber."
                    );
                    assert_eq!(
                        c.causes,
                        vec!["column \"subscription_token\" does not exist".to_string()]
                    );
                }
                SubscribeError::ValidationError(_) => panic!("not a validation failure"),
            }
        }
        _ => panic!("a failure ends the request"),
    }
    assert_eq!(s.stage(), SubscribeStage::Done);
}

#[test]
fn a_failed_confirmation_email_fails_the_request_after_commit() {
    let mut s = match subscribe(form("phil nadon", "phil@nadon.io"), "http://x".to_string()) {
        Ok(s) => s,
        Err(_) => panic!("the form is valid"),
    };
    for _ in 0..3 {
        s.resume(Ok(()));
    }
    assert!(matches!(s.resume(Ok(())), SubscribeAction::SendEmail(_)));
    match s.resume(Err("timed out".to_string())) {
        SubscribeAction::Finish(Err(SubscribeError::UnexpectedError(c))) => {
            assert_eq!(c.message, "Failed to send a confirmation email.")
        }
        _ => panic!("expected an unexpected error"),
    }
}

#[test]
fn a_token_spells_its_draws_in_order() {
    let draws: Vec<u8> = b"Abc0123456789xyzXYZqrstuv".to_vec();
    assert_eq!(draws.len(), 25);
    assert_eq!(token_from_draws(&draws), "Abc0123456789xyzXYZqrstuv");
}

#[test]
fn different_draws_give_different_tokens() {
    let a: Vec<u8> = vec![b'a'; 25];
    let mut b = a.clone();
    b[24] = b'Z';
    assert_ne!(token_from_draws(&a), token_from_draws(&b));
}
