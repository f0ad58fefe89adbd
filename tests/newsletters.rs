use newsletter::newsletters::{get_confirmed_subscribers, BodyData, Broadcast, Content, DeliveryStep};

fn issue() -> BodyData {
    BodyData {
        title: "Newsletter title".to_string(),
        content: Content {
            html: "<p>Newsletter body as HTML</p>".to_string(),
            text: "Newsletter body as plain text".to_string(),
        },
    }
}

#[test]
fn stored_addresses_are_validated_again() {
    let subscribers =
        get_confirmed_subscribers(vec!["phil@nadon.io".to_string(), "nadon.io".to_string()]);
    assert_eq!(subscribers.len(), 2);
    assert_eq!(subscribers[0].as_ref().unwrap().email.as_ref(), "phil@nadon.io");
    assert_eq!(
        subscribers[1].as_ref().err().unwrap(),
        "nadon.io is not a valid subscriber email"
    );
}

#[test]
fn newsletters_are_delivered_to_confirmed_subscribers() {
    // Only the confirmed subscriber's address is loaded for a broadcast.
    let confirmed = get_confirmed_subscribers(vec!["phil@nadon.io".to_string()]);
    let mut b = Broadcast::new(issue(), confirmed);
    let mut sent = Vec::new();
    loop {
        match b.next_step() {
            DeliveryStep::Send(m) => sent.push(m),
            DeliveryStep::Skip(_) => {}
            DeliveryStep::Finished => break,
        }
    }
    assert_eq!(sent.len(), 1);
    assert_eq!(sent[0].recipient.as_ref(), "phil@nadon.io");
    assert_eq!(sent[0].subject, "Newsletter title");
    assert_eq!(sent[0].html_body, "<p>Newsletter body as HTML</p>");
    assert_eq!(sent[0].text_body, "Newsletter body as plain text");
}

#[test]
fn newsletters_are_not_delivered_to_unconfirmed_subscribers() {
    let mut b = Broadcast::new(issue(), get_confirmed_subscribers(Vec::new()));
    assert!(matches!(b.next_step(), DeliveryStep::Finished));
}

#[test]
fn a_failed_delivery_does_not_stop_the_broadcast() {
    let stored = vec![
        "a@nadon.io".to_string(),
        "invalid".to_string(),
        "b@nadon.io".to_string(),
    ];
    let mut b = Broadcast::new(issue(), get_confirmed_subscribers(stored));
    let mut attempted = Vec::new();
    let mut skipped = 0;
    let mut logged = Vec::new();
    loop {
        match b.next_step() {
            DeliveryStep::Send(m) => {
                attempted.push(m.recipient.as_ref().to_string());
                if let Some(chain) = b.record_delivery(Err("HTTP status 500".to_string())) {
                    logged.push(chain.report());
                }
            }
            DeliveryStep::Skip(_) => skipped += 1,
            DeliveryStep::Finished => break,
        }
    }
    assert_eq!(attempted, vec!["a@nadon.io".to_string(), "b@nadon.io".to_string()]);
    assert_eq!(skipped, 1);
    assert_eq!(
        logged[0],
        "Failed to send newsletter issue to a@nadon.io\n\nCaused by:\n\tHTTP status 500\n"
    );
    assert_eq!(logged.len(), 2);
}

#[test]
fn a_successful_delivery_logs_nothing() {
    let mut b = Broadcast::new(issue(), get_confirmed_subscribers(vec!["a@nadon.io".to_string()]));
    assert!(matches!(b.next_step(), DeliveryStep::Send(_)));
    assert!(b.record_delivery(Ok(())).is_none());
    assert!(matches!(b.next_step(), DeliveryStep::Finished));
}
