//! Publishing an issue to every confirmed subscriber.

use vstd::prelude::*;

use crate::email::{EmailContent, EmailMessage};
use crate::errors::ErrorChain;
use crate::subscriber_email::{invalid_email_message, is_valid_email, SubscriberEmail};
use crate::text::concat;

verus! {

/// The body of a publishing request. The title is the email's subject.
#[derive(Debug)]
pub struct BodyData {
    pub title: String,
    pub content: Content,
}

/// An issue's content, as HTML and as plain text.
#[derive(Debug)]
pub struct Content {
    pub html: String,
    pub text: String,
}

/// A confirmed subscriber whose stored address is still valid.
#[derive(Debug)]
pub struct ConfirmedSubscriber {
    pub email: SubscriberEmail,
}

/// Validates each stored address of a confirmed subscriber again; one that
/// no longer passes is kept as an error, in its place.
pub fn get_confirmed_subscribers(stored_emails: Vec<String>) -> (r: Vec<
    Result<ConfirmedSubscriber, String>,
>)
    ensures
        r@.len() == stored_emails@.len(),
        forall|i: int|
            0 <= i < r@.len() ==> match #[trigger] r@[i] {
                Ok(s) => is_valid_email(stored_emails@[i]@) && s.email@ == stored_emails@[i]@,
                Err(m) => !is_valid_email(stored_emails@[i]@) && m@ == invalid_email_message(
                    stored_emails@[i]@,
                ),
            },
{
    let mut r: Vec<Result<ConfirmedSubscriber, String>> = Vec::new();
    let mut i: usize = 0;
    while i < stored_emails.len()
        invariant
            i <= stored_emails@.len(),
            r@.len() == i,
            forall|j: int|
                0 <= j < i ==> match #[trigger] r@[j] {
                    Ok(s) => is_valid_email(stored_emails@[j]@) && s.email@ == stored_emails@[j]@,
                    Err(m) => !is_valid_email(stored_emails@[j]@) && m@ == invalid_email_message(
                        stored_emails@[j]@,
                    ),
                },
        decreases stored_emails@.len() - i,
    {
        let entry = match SubscriberEmail::parse(stored_emails[i].clone()) {
            Ok(email) => Ok(ConfirmedSubscriber { email }),
            Err(m) => Err(m),
        };
        r.push(entry);
        i = i + 1;
    }
    r
}

/// The issue as sent to one recipient.
pub open spec fn issue_content(issue: BodyData, recipient: Seq<char>) -> EmailContent {
    EmailContent {
        recipient,
        subject: issue.title@,
        html_body: issue.content.html@,
        text_body: issue.content.text@,
    }
}

/// What the caller is to do next in a broadcast.
#[derive(Debug)]
pub enum DeliveryStep {
    /// Send this email.
    Send(EmailMessage),
    /// Skip a subscriber whose stored address is invalid, logging why.
    Skip(String),
    /// Every subscriber has been attempted: the request succeeded.
    Finished,
}

/// A broadcast under way: the issue, every confirmed subscriber, and the
/// position of the next one to attempt.
#[derive(Debug)]
pub struct Broadcast {
    issue: BodyData,
    recipients: Vec<Result<ConfirmedSubscriber, String>>,
    next: usize,
}

impl Broadcast {
    /// The issue being sent.
    pub closed spec fn spec_issue(&self) -> BodyData {
        self.issue
    }

    /// Every confirmed subscriber, in the order they are attempted.
    pub closed spec fn spec_recipients(&self) -> Seq<Result<ConfirmedSubscriber, String>> {
        self.recipients@
    }

    /// How many subscribers have been attempted or skipped so far.
    pub closed spec fn spec_next(&self) -> int {
        self.next as int
    }

    pub fn new(issue: BodyData, recipients: Vec<Result<ConfirmedSubscriber, String>>) -> (r:
        Broadcast)
        ensures
            r.spec_issue() == issue,
            r.spec_recipients() == recipients@,
            r.spec_next() == 0,
    {
        Broadcast { issue, recipients, next: 0 }
    }

    /// Moves to the next subscriber: one email per valid address, in order,
    /// then the end.
    pub fn next_step(&mut self) -> (r: DeliveryStep)
        ensures
            final(self).spec_issue() == old(self).spec_issue(),
            final(self).spec_recipients() == old(self).spec_recipients(),
            old(self).spec_next() < old(self).spec_recipients().len() ==> {
                &&& final(self).spec_next() == old(self).spec_next() + 1
                &&& match old(self).spec_recipients()[old(self).spec_next()] {
                    Ok(s) => r matches DeliveryStep::Send(m) && m@ == issue_content(
                        old(self).spec_issue(),
                        s.email@,
                    ),
                    Err(w) => r matches DeliveryStep::Skip(x) && x@ == w@,
                }
            },
            old(self).spec_next() >= old(self).spec_recipients().len() ==> final(self).spec_next()
                == old(self).spec_next() && r is Finished,
    {
        if self.next >= self.recipients.len() {
            return DeliveryStep::Finished;
        }
        let i = self.next;
        self.next = i + 1;
        match &self.recipients[i] {
            Ok(s) => DeliveryStep::Send(
                EmailMessage {
                    recipient: s.email.clone(),
                    subject: self.issue.title.clone(),
                    html_body: self.issue.content.html.clone(),
                    text_body: self.issue.content.text.clone(),
                },
            ),
            Err(w) => DeliveryStep::Skip(w.clone()),
        }
    }

    /// Takes the outcome of the last email sent. A failure is returned for
    /// the logs and changes nothing else: the broadcast goes on with the
    /// next subscriber, and still ends in success.
    pub fn record_delivery(&self, outcome: Result<(), String>) -> (r: Option<ErrorChain>)
        requires
            0 < self.spec_next() <= self.spec_recipients().len(),
            self.spec_recipients()[self.spec_next() - 1] is Ok,
        ensures
            r is None <==> outcome is Ok,
            outcome matches Err(cause) ==> r matches Some(c) && c.messages() == seq![
                "Failed to send newsletter issue to "@ + self.spec_recipients()[self.spec_next()
                    - 1]->Ok_0.email@,
                cause@,
            ],
    {
        match outcome {
            Ok(()) => None,
            Err(cause) => {
                let recipient = match &self.recipients[self.next - 1] {
                    Ok(s) => s.email.as_ref(),
                    Err(w) => w.as_str(),
                };
                let context = concat("Failed to send newsletter issue to ", recipient);
                Some(ErrorChain::new(cause.as_str()).context(context.as_str()))
            },
        }
    }
}

} // verus!
