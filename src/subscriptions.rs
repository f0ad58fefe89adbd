//! Subscribing: validate the form, store a pending subscriber and its
//! confirmation token in one transaction, then send the confirmation link.

use rand::Rng;
use vstd::prelude::*;

use crate::email::{EmailContent, EmailMessage};
use crate::errors::{ErrorChain, SubscribeError};
use crate::new_subscriber::{
    subscriber_error_message, NewSubscriber, SubscribeFormData,
};
use crate::subscriber_email::is_valid_email;
use crate::subscriber_name::is_valid_name;
use crate::text::{concat, push_char};

verus! {

/// A subscriber's id.
#[derive(Clone, Copy, Debug, PartialEq, Eq, Structural)]
pub struct SubscriberId(pub u128);

/// Relies on `uuid::Uuid::new_v4`: a random version-4 UUID, as an integer.
#[verifier::external_body]
fn new_subscriber_id() -> (r: SubscriberId) {
    SubscriberId(uuid::Uuid::new_v4().as_u128())
}

/// Relies on `chrono::Utc::now`: the current time, in microseconds since
/// the Unix epoch.
#[verifier::external_body]
fn now_micros() -> (r: i64) {
    chrono::Utc::now().timestamp_micros()
}

/// Where a subscriber stands.
#[derive(Clone, Copy, Debug, PartialEq, Eq, Structural)]
pub enum SubscriptionStatus {
    PendingConfirmation,
    Confirmed,
}

pub open spec fn status_name(s: SubscriptionStatus) -> Seq<char> {
    match s {
        SubscriptionStatus::PendingConfirmation => "pending_confirmation"@,
        SubscriptionStatus::Confirmed => "confirmed"@,
    }
}

impl SubscriptionStatus {
    /// The status as the store writes it.
    pub fn as_str(&self) -> (r: &'static str)
        ensures
            r@ == status_name(*self),
    {
        match self {
            SubscriptionStatus::PendingConfirmation => "pending_confirmation",
            SubscriptionStatus::Confirmed => "confirmed",
        }
    }
}

/// A subscriber as the store holds it.
#[derive(Debug)]
pub struct SubscriberRecord {
    pub id: SubscriberId,
    pub email: String,
    pub name: String,
    pub subscribed_at_micros: i64,
    pub status: SubscriptionStatus,
}

/// Number of characters in a confirmation token.
pub const TOKEN_LENGTH: usize = 25;

pub open spec fn is_ascii_alphanumeric(c: char) -> bool {
    ('a' <= c && c <= 'z') || ('A' <= c && c <= 'Z') || ('0' <= c && c <= '9')
}

pub open spec fn is_token(t: Seq<char>) -> bool {
    t.len() == TOKEN_LENGTH && forall|i: int| 0 <= i < t.len() ==> is_ascii_alphanumeric(
        #[trigger] t[i],
    )
}

/// Relies on `rand::distributions::Alphanumeric` sampled from
/// `rand::thread_rng`: a byte drawn uniformly from ASCII letters and digits.
#[verifier::external_body]
fn random_alphanumeric() -> (r: u8)
    ensures
        is_ascii_alphanumeric(r as char),
{
    rand::thread_rng().sample(rand::distributions::Alphanumeric)
}

/// The token spelled by 25 drawn letters and digits, one character per draw,
/// in order.
pub fn token_from_draws(draws: &Vec<u8>) -> (r: String)
    requires
        draws@.len() == TOKEN_LENGTH,
        forall|i: int| 0 <= i < draws@.len() ==> is_ascii_alphanumeric(#[trigger] draws@[i] as char),
    ensures
        r@ == draws@.map_values(|b: u8| b as char),
        is_token(r@),
{
    let mut token = String::new();
    let mut i: usize = 0;
    while i < draws.len()
        invariant
            i <= draws@.len(),
            token@ == draws@.take(i as int).map_values(|b: u8| b as char),
        decreases draws@.len() - i,
    {
        push_char(&mut token, draws[i] as char);
        assert(draws@.take(i + 1).map_values(|b: u8| b as char) =~= draws@.take(i as int).map_values(
            |b: u8| b as char,
        ).push(draws@[i as int] as char));
        i = i + 1;
    }
    assert(draws@.take(i as int) =~= draws@);
    assert forall|j: int| 0 <= j < token@.len() implies is_ascii_alphanumeric(#[trigger] token@[j]) by {
        assert(token@[j] == draws@[j] as char);
        assert(is_ascii_alphanumeric(draws@[j] as char));
    }
    token
}

/// A fresh random token: 25 independent draws of an ASCII letter or digit.
pub fn generate_subscription_token() -> (r: String)
    ensures
        is_token(r@),
{
    let mut draws: Vec<u8> = Vec::new();
    while draws.len() < TOKEN_LENGTH
        invariant
            draws@.len() <= TOKEN_LENGTH,
            forall|i: int| 0 <= i < draws@.len() ==> is_ascii_alphanumeric(#[trigger] draws@[i] as char),
        decreases TOKEN_LENGTH - draws@.len(),
    {
        draws.push(random_alphanumeric());
    }
    token_from_draws(&draws)
}

pub open spec fn confirmation_link(base_url: Seq<char>, token: Seq<char>) -> Seq<char> {
    base_url + "/subscriptions/confirm?subscription_token="@ + token
}

pub open spec fn confirmation_text_body(link: Seq<char>) -> Seq<char> {
    "Welcome to our newsletter!\nVisit "@ + link + " to confirm your subscription."@
}

pub open spec fn confirmation_html_body(link: Seq<char>) -> Seq<char> {
    "Welcome to our newsletter!<br />Click <a href=\""@ + link
        + "\">here</a> to confirm your subscription."@
}

pub open spec fn welcome_subject(name: Seq<char>) -> Seq<char> {
    "Welcome "@ + name + "!"@
}

/// The confirmation email for a subscriber: both bodies carry the same link.
pub open spec fn confirmation_content(
    email: Seq<char>,
    name: Seq<char>,
    base_url: Seq<char>,
    token: Seq<char>,
) -> EmailContent {
    EmailContent {
        recipient: email,
        subject: welcome_subject(name),
        html_body: confirmation_html_body(confirmation_link(base_url, token)),
        text_body: confirmation_text_body(confirmation_link(base_url, token)),
    }
}

/// Builds the confirmation email, whose link carries the token.
pub fn confirmation_email(new_subscriber: &NewSubscriber, base_url: &str, token: &str) -> (r:
    EmailMessage)
    ensures
        r@ == confirmation_content(
            new_subscriber.email@,
            new_subscriber.name@,
            base_url@,
            token@,
        ),
{
    let mut link = concat(base_url, "/subscriptions/confirm?subscription_token=");
    link.append(token);
    let mut text_body = concat("Welcome to our newsletter!\nVisit ", link.as_str());
    text_body.append(" to confirm your subscription.");
    let mut html_body = concat(
        "Welcome to our newsletter!<br />Click <a href=\"",
        link.as_str(),
    );
    html_body.append("\">here</a> to confirm your subscription.");
    let mut subject = concat("Welcome ", new_subscriber.name.as_ref());
    subject.append("!");
    EmailMessage {
        recipient: new_subscriber.email.clone(),
        subject,
        html_body,
        text_body,
    }
}

/// How far a subscription request has come. Each stage waits for the
/// outcome of the action that led to it.
#[derive(Clone, Copy, Debug, PartialEq, Eq, Structural)]
pub enum SubscribeStage {
    AwaitingTransaction,
    AwaitingInsert,
    AwaitingToken,
    AwaitingCommit,
    AwaitingEmail,
    Done,
}

/// What the caller is to do next for a subscription request.
#[derive(Debug)]
pub enum SubscribeAction {
    /// Insert the pending subscriber inside the open transaction.
    InsertSubscriber(SubscriberRecord),
    /// Insert the token of the subscriber inside the open transaction.
    StoreToken { subscriber_id: SubscriberId, token: String },
    /// Commit the transaction.
    Commit,
    /// Send the confirmation email.
    SendEmail(EmailMessage),
    /// Answer the request; an open transaction is dropped, which rolls it
    /// back.
    Finish(Result<(), SubscribeError>),
}

/// A subscription request under way.
#[derive(Debug)]
pub struct Subscription {
    new_subscriber: NewSubscriber,
    base_url: String,
    stage: SubscribeStage,
    subscriber_id: SubscriberId,
    token: String,
}

/// The description of a failure at each stage.
pub open spec fn failure_context(stage: SubscribeStage) -> Seq<char> {
    match stage {
        SubscribeStage::AwaitingTransaction => "Failed to acquire a Postgres connection from the pool"@,
        SubscribeStage::AwaitingInsert => "Failed to insert new subscriber in the database."@,
        SubscribeStage::AwaitingToken => "Failed to store the confirmation token for a new subscriber."@,
        SubscribeStage::AwaitingCommit => "Failed to commit SQL transaction to store a new subscriber."@,
        _ => "Failed to send a confirmation email."@,
    }
}

/// Validates the form. On success the caller opens a transaction and hands
/// its outcome to `resume`.
pub fn subscribe(form: SubscribeFormData, base_url: String) -> (r: Result<
    Subscription,
    SubscribeError,
>)
    ensures
        r is Ok <==> is_valid_name(form.name@) && is_valid_email(form.email@),
        r matches Ok(s) ==> {
            &&& s.spec_stage() == SubscribeStage::AwaitingTransaction
            &&& s.spec_new_subscriber().name@ == form.name@
            &&& s.spec_new_subscriber().email@ == form.email@
            &&& s.spec_base_url() == base_url@
        },
        r matches Err(e) ==> e matches SubscribeError::ValidationError(m) && m@
            == subscriber_error_message(form.name@, form.email@),
{
    match NewSubscriber::try_from(form) {
        Err(m) => Err(SubscribeError::ValidationError(m)),
        Ok(new_subscriber) => Ok(
            Subscription {
                new_subscriber,
                base_url,
                stage: SubscribeStage::AwaitingTransaction,
                subscriber_id: SubscriberId(0),
                token: String::new(),
            },
        ),
    }
}

impl Subscription {
    /// The validated subscriber.
    pub closed spec fn spec_new_subscriber(&self) -> NewSubscriber {
        self.new_subscriber
    }

    /// The address that confirmation links start with.
    pub closed spec fn spec_base_url(&self) -> Seq<char> {
        self.base_url@
    }

    pub closed spec fn spec_stage(&self) -> SubscribeStage {
        self.stage
    }

    /// The id drawn for the subscriber, once the insert has been asked for.
    pub closed spec fn spec_subscriber_id(&self) -> SubscriberId {
        self.subscriber_id
    }

    /// The token drawn for the subscriber, once its storage has been asked
    /// for.
    pub closed spec fn spec_token(&self) -> Seq<char> {
        self.token@
    }

    /// The stage the request has reached.
    pub fn stage(&self) -> (r: SubscribeStage)
        ensures
            r == self.spec_stage(),
    {
        self.stage
    }

    /// Takes the outcome of the last action and says what to do next. Any
    /// failure ends the request. The token is drawn only once the subscriber
    /// row is in the transaction, and the email is sent only once the
    /// transaction has committed. The record's time is a reading of the
    /// clock, of which nothing is promised.
    pub fn resume(&mut self, outcome: Result<(), String>) -> (r: SubscribeAction)
        requires
            old(self).spec_stage() != SubscribeStage::Done,
        ensures
            final(self).spec_new_subscriber() == old(self).spec_new_subscriber(),
            final(self).spec_base_url() == old(self).spec_base_url(),
            r is SendEmail ==> old(self).spec_stage() == SubscribeStage::AwaitingCommit && outcome is Ok,
            r is StoreToken ==> old(self).spec_stage() == SubscribeStage::AwaitingInsert && outcome is Ok,
            match outcome {
                Err(cause) => {
                    &&& final(self).spec_stage() == SubscribeStage::Done
                    &&& r matches SubscribeAction::Finish(Err(e))
                    &&& e matches SubscribeError::UnexpectedError(c)
                    &&& c.messages() == seq![failure_context(old(self).spec_stage()), cause@]
                },
                Ok(()) => match old(self).spec_stage() {
                    SubscribeStage::AwaitingTransaction => {
                        &&& final(self).spec_stage() == SubscribeStage::AwaitingInsert
                        &&& final(self).spec_token() == old(self).spec_token()
                        &&& r matches SubscribeAction::InsertSubscriber(rec)
                        &&& rec.id == final(self).spec_subscriber_id()
                        &&& rec.email@ == old(self).spec_new_subscriber().email@
                        &&& rec.name@ == old(self).spec_new_subscriber().name@
                        &&& rec.status == SubscriptionStatus::PendingConfirmation
                    },
                    SubscribeStage::AwaitingInsert => {
                        &&& final(self).spec_stage() == SubscribeStage::AwaitingToken
                        &&& final(self).spec_subscriber_id() == old(self).spec_subscriber_id()
                        &&& is_token(final(self).spec_token())
                        &&& r matches SubscribeAction::StoreToken { subscriber_id, token }
                        &&& subscriber_id == old(self).spec_subscriber_id()
                        &&& token@ == final(self).spec_token()
                    },
                    SubscribeStage::AwaitingToken => {
                        &&& final(self).spec_stage() == SubscribeStage::AwaitingCommit
                        &&& final(self).spec_subscriber_id() == old(self).spec_subscriber_id()
                        &&& final(self).spec_token() == old(self).spec_token()
                        &&& r is Commit
                    },
                    SubscribeStage::AwaitingCommit => {
                        &&& final(self).spec_stage() == SubscribeStage::AwaitingEmail
                        &&& final(self).spec_subscriber_id() == old(self).spec_subscriber_id()
                        &&& final(self).spec_token() == old(self).spec_token()
                        &&& r matches SubscribeAction::SendEmail(m)
                        &&& m@ == confirmation_content(
                            old(self).spec_new_subscriber().email@,
                            old(self).spec_new_subscriber().name@,
                            old(self).spec_base_url(),
                            old(self).spec_token(),
                        )
                    },
                    _ => {
                        &&& final(self).spec_stage() == SubscribeStage::Done
                        &&& r matches SubscribeAction::Finish(Ok(()))
                    },
                },
            },
    {
        let stage = self.stage;
        if let Err(cause) = outcome {
            let context = match stage {
                SubscribeStage::AwaitingTransaction => "Failed to acquire a Postgres connection from the pool",
                SubscribeStage::AwaitingInsert => "Failed to insert new subscriber in the database.",
                SubscribeStage::AwaitingToken => "Failed to store the confirmation token for a new subscriber.",
                SubscribeStage::AwaitingCommit => "Failed to commit SQL transaction to store a new subscriber.",
                _ => "Failed to send a confirmation email.",
            };
            self.stage = SubscribeStage::Done;
            let chain = ErrorChain::new(cause.as_str()).context(context);
            return SubscribeAction::Finish(Err(SubscribeError::UnexpectedError(chain)));
        }
        match stage {
            SubscribeStage::AwaitingTransaction => {
                self.subscriber_id = new_subscriber_id();
                self.stage = SubscribeStage::AwaitingInsert;
                SubscribeAction::InsertSubscriber(
                    SubscriberRecord {
                        id: self.subscriber_id,
                        email: String::from_str(self.new_subscriber.email.as_ref()),
                        name: String::from_str(self.new_subscriber.name.as_ref()),
                        subscribed_at_micros: now_micros(),
                        status: SubscriptionStatus::PendingConfirmation,
                    },
                )
            },
            SubscribeStage::AwaitingInsert => {
                self.token = generate_subscription_token();
                self.stage = SubscribeStage::AwaitingToken;
                SubscribeAction::StoreToken {
                    subscriber_id: self.subscriber_id,
                    token: self.token.clone(),
                }
            },
            SubscribeStage::AwaitingToken => {
                self.stage = SubscribeStage::AwaitingCommit;
                SubscribeAction::Commit
            },
            SubscribeStage::AwaitingCommit => {
                self.stage = SubscribeStage::AwaitingEmail;
                SubscribeAction::SendEmail(
                    confirmation_email(&self.new_subscriber, self.base_url.as_str(), self.token.as_str()),
                )
            },
            _ => {
                self.stage = SubscribeStage::Done;
                SubscribeAction::Finish(Ok(()))
            },
        }
    }
}

} // verus!
