//! The failures of the two request workflows, their causes, and how they are
//! reported.

use vstd::prelude::*;

use crate::text::{concat, views_of};

verus! {

/// Each cause on a line of its own, after a heading, innermost last.
pub open spec fn caused_by_lines(causes: Seq<Seq<char>>) -> Seq<char>
    decreases causes.len(),
{
    if causes.len() == 0 {
        Seq::empty()
    } else {
        caused_by_lines(causes.drop_last()) + "Caused by:\n\t"@ + causes.last() + "\n"@
    }
}

/// An error's message, a blank line, then one entry per cause.
pub open spec fn error_chain_text(message: Seq<char>, causes: Seq<Seq<char>>) -> Seq<char> {
    message + "\n\n"@ + caused_by_lines(causes)
}

/// Writes an error's message and then walks its chain of causes, outermost
/// first.
pub fn error_chain_fmt(message: &str, causes: &Vec<String>) -> (r: String)
    ensures
        r@ == error_chain_text(message@, views_of(causes@)),
{
    let mut r = concat(message, "\n\n");
    let mut i: usize = 0;
    while i < causes.len()
        invariant
            i <= causes.len(),
            r@ == error_chain_text(message@, views_of(causes@).take(i as int)),
        decreases causes.len() - i,
    {
        r.append("Caused by:\n\t");
        r.append(causes[i].as_str());
        r.append("\n");
        assert(views_of(causes@).take(i + 1).drop_last() =~= views_of(causes@).take(i as int));
        i = i + 1;
    }
    assert(views_of(causes@).take(i as int) =~= views_of(causes@));
    r
}

/// A failure described by its outermost message and the chain of causes
/// beneath it.
#[derive(Debug)]
pub struct ErrorChain {
    pub message: String,
    pub causes: Vec<String>,
}

impl ErrorChain {
    pub open spec fn messages(&self) -> Seq<Seq<char>> {
        seq![self.message@] + views_of(self.causes@)
    }

    /// A failure with no deeper cause.
    pub fn new(message: &str) -> (r: ErrorChain)
        ensures
            r.messages() == seq![message@],
    {
        let r = ErrorChain { message: String::from_str(message), causes: Vec::new() };
        assert(r.messages() =~= seq![message@]);
        r
    }

    /// Wraps the failure in an outer message, which becomes its description.
    pub fn context(self, message: &str) -> (r: ErrorChain)
        ensures
            r.messages() == seq![message@] + self.messages(),
    {
        let ErrorChain { message: inner, causes } = self;
        let ghost before = seq![inner@] + views_of(causes@);
        let mut causes = causes;
        causes.insert(0, inner);
        let r = ErrorChain { message: String::from_str(message), causes };
        assert(views_of(r.causes@) =~= before);
        assert(r.messages() =~= seq![message@] + before);
        r
    }

    /// The message followed by every cause.
    pub fn report(&self) -> (r: String)
        ensures
            r@ == error_chain_text(self.message@, views_of(self.causes@)),
    {
        error_chain_fmt(self.message.as_str(), &self.causes)
    }
}

/// How a subscription request fails.
#[derive(Debug)]
pub enum SubscribeError {
    /// The submitted data breaks a rule; the message lists every broken rule.
    ValidationError(String),
    /// Storage or delivery failed.
    UnexpectedError(ErrorChain),
}

pub open spec fn subscribe_error_status(e: SubscribeError) -> u16 {
    match e {
        SubscribeError::ValidationError(_) => 400,
        SubscribeError::UnexpectedError(_) => 500,
    }
}

impl SubscribeError {
    /// The status code of the response: 400 for invalid data, 500 otherwise.
    pub fn status_code(&self) -> (r: u16)
        ensures
            r == subscribe_error_status(*self),
    {
        match self {
            SubscribeError::ValidationError(_) => 400,
            SubscribeError::UnexpectedError(_) => 500,
        }
    }

    /// The error's own description.
    pub fn message(&self) -> (r: String)
        ensures
            r@ == match *self {
                SubscribeError::ValidationError(m) => m@,
                SubscribeError::UnexpectedError(c) => c.message@,
            },
    {
        match self {
            SubscribeError::ValidationError(m) => m.clone(),
            SubscribeError::UnexpectedError(c) => c.message.clone(),
        }
    }

    /// The description followed by the chain of causes, for the logs.
    pub fn report(&self) -> (r: String)
        ensures
            r@ == match *self {
                SubscribeError::ValidationError(m) => error_chain_text(m@, Seq::empty()),
                SubscribeError::UnexpectedError(c) => error_chain_text(
                    c.message@,
                    views_of(c.causes@),
                ),
            },
    {
        match self {
            SubscribeError::ValidationError(m) => {
                let none: Vec<String> = Vec::new();
                assert(views_of(none@) =~= Seq::empty());
                error_chain_fmt(m.as_str(), &none)
            },
            SubscribeError::UnexpectedError(c) => c.report(),
        }
    }
}

/// The challenge sent with every authentication failure.
pub open spec fn publish_challenge() -> Seq<char> {
    "Basic realm=\"publish\""@
}

pub open spec fn auth_failed_message() -> Seq<char> {
    "Authentication failed."@
}

/// How a publishing request fails.
#[derive(Debug)]
pub enum PublishError {
    /// The credentials are missing, malformed or wrong; the cause is logged,
    /// never shown.
    AuthError(ErrorChain),
    /// Storage or a worker failed.
    UnexpectedError(ErrorChain),
}

/// What the caller sees of a failed publishing request: a status code and,
/// maybe, a `WWW-Authenticate` challenge.
#[derive(Debug)]
pub struct ErrorResponse {
    pub status: u16,
    pub www_authenticate: Option<String>,
}

impl ErrorResponse {
    pub open spec fn shape(&self) -> (u16, Option<Seq<char>>) {
        (
            self.status,
            match self.www_authenticate {
                Some(h) => Some(h@),
                None => None,
            },
        )
    }
}

pub open spec fn publish_error_status(e: PublishError) -> u16 {
    match e {
        PublishError::AuthError(_) => 401,
        PublishError::UnexpectedError(_) => 500,
    }
}

/// The response shape of a publishing failure: it depends on the kind of
/// failure alone.
pub open spec fn publish_error_shape(e: PublishError) -> (u16, Option<Seq<char>>) {
    match e {
        PublishError::AuthError(_) => (401, Some(publish_challenge())),
        PublishError::UnexpectedError(_) => (500, None),
    }
}

impl PublishError {
    /// The status code of the response: 401 for failed authentication, 500
    /// otherwise.
    pub fn status_code(&self) -> (r: u16)
        ensures
            r == publish_error_status(*self),
    {
        match self {
            PublishError::AuthError(_) => 401,
            PublishError::UnexpectedError(_) => 500,
        }
    }

    /// The response: an authentication failure carries a challenge naming
    /// the scheme and realm to retry with, and nothing of its cause.
    pub fn error_response(&self) -> (r: ErrorResponse)
        ensures
            r.shape() == publish_error_shape(*self),
            r.status == publish_error_status(*self),
    {
        let status = self.status_code();
        match self {
            PublishError::AuthError(_) => ErrorResponse {
                status,
                www_authenticate: Some(String::from_str("Basic realm=\"publish\"")),
            },
            PublishError::UnexpectedError(_) => ErrorResponse { status, www_authenticate: None },
        }
    }

    /// The error's own description.
    pub fn message(&self) -> (r: String)
        ensures
            r@ == match *self {
                PublishError::AuthError(_) => auth_failed_message(),
                PublishError::UnexpectedError(c) => c.message@,
            },
    {
        match self {
            PublishError::AuthError(_) => String::from_str("Authentication failed."),
            PublishError::UnexpectedError(c) => c.message.clone(),
        }
    }

    /// The description followed by the chain of causes, for the logs.
    pub fn report(&self) -> (r: String)
        ensures
            r@ == match *self {
                PublishError::AuthError(c) => error_chain_text(auth_failed_message(), c.messages()),
                PublishError::UnexpectedError(c) => error_chain_text(
                    c.message@,
                    views_of(c.causes@),
                ),
            },
    {
        match self {
            PublishError::AuthError(c) => {
                let mut all: Vec<String> = Vec::new();
                all.push(c.message.clone());
                let mut i: usize = 0;
                while i < c.causes.len()
                    invariant
                        i <= c.causes.len(),
                        views_of(all@) == seq![c.message@] + views_of(c.causes@).take(i as int),
                    decreases c.causes.len() - i,
                {
                    let m = c.causes[i].clone();
                    assert(m@ == views_of(c.causes@)[i as int]);
                    let ghost before = all@;
                    all.push(m);
                    assert(views_of(all@) =~= views_of(before).push(m@));
                    assert(views_of(all@) =~= seq![c.message@] + views_of(c.causes@).take(
                        i + 1,
                    ));
                    i = i + 1;
                }
                assert(views_of(c.causes@).take(i as int) =~= views_of(c.causes@));
                error_chain_fmt("Authentication failed.", &all)
            },
            PublishError::UnexpectedError(c) => c.report(),
        }
    }
}

/// Two authentication failures cannot be told apart by their response,
/// whatever caused them.
pub proof fn lemma_auth_failures_look_alike(a: PublishError, b: PublishError)
    requires
        a is AuthError,
        b is AuthError,
    ensures
        publish_error_shape(a) == publish_error_shape(b),
{
}

} // verus!
