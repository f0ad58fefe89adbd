//! One outgoing email, as handed to the delivery service.

use vstd::prelude::*;

use crate::subscriber_email::SubscriberEmail;

verus! {

/// An email to one recipient, with an HTML and a plain-text body.
#[derive(Debug)]
pub struct EmailMessage {
    pub recipient: SubscriberEmail,
    pub subject: String,
    pub html_body: String,
    pub text_body: String,
}

/// The text of an email: recipient, subject, HTML body, plain-text body.
pub struct EmailContent {
    pub recipient: Seq<char>,
    pub subject: Seq<char>,
    pub html_body: Seq<char>,
    pub text_body: Seq<char>,
}

impl View for EmailMessage {
    type V = EmailContent;

    open spec fn view(&self) -> EmailContent {
        EmailContent {
            recipient: self.recipient@,
            subject: self.subject@,
            html_body: self.html_body@,
            text_body: self.text_body@,
        }
    }
}

} // verus!
