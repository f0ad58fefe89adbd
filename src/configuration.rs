//! The service's settings, and the environment it runs in.

use vstd::prelude::*;

use crate::subscriber_email::{invalid_email_message, is_valid_email, SubscriberEmail};
use crate::text::{concat, str_eq};

verus! {

/// All the settings of the service.
#[derive(Debug)]
pub struct Settings {
    pub database: DatabaseSettings,
    pub application: ApplicationSettings,
    pub email_client: EmailClientSettings,
}

/// Where and how to reach the database.
#[derive(Debug)]
pub struct DatabaseSettings {
    pub username: String,
    pub password: String,
    pub host: String,
    pub port: u16,
    pub database_name: String,
    pub require_ssl: bool,
}

/// How a database connection negotiates encryption.
#[derive(Clone, Copy, Debug, PartialEq, Eq, Structural)]
pub enum SslMode {
    /// Refuse to connect without encryption.
    Require,
    /// Encrypt when the server offers it.
    Prefer,
}

impl DatabaseSettings {
    /// Encryption is demanded exactly when the settings require it.
    pub fn ssl_mode(&self) -> (r: SslMode)
        ensures
            r == (if self.require_ssl {
                SslMode::Require
            } else {
                SslMode::Prefer
            }),
    {
        if self.require_ssl {
            SslMode::Require
        } else {
            SslMode::Prefer
        }
    }
}

/// Where the service listens, and the address under which it is reached.
#[derive(Debug)]
pub struct ApplicationSettings {
    pub host: String,
    pub port: u16,
    pub base_url: String,
}

/// How to reach the email delivery service.
#[derive(Debug)]
pub struct EmailClientSettings {
    pub base_url: String,
    pub sender_email: String,
    pub authorization_token: String,
    pub default_timeout: std::time::Duration,
}

impl EmailClientSettings {
    /// The sender address, which must itself be a valid email address.
    pub fn sender(&self) -> (r: Result<SubscriberEmail, String>)
        ensures
            r is Ok <==> is_valid_email(self.sender_email@),
            r matches Ok(e) ==> e@ == self.sender_email@,
            r matches Err(m) ==> m@ == invalid_email_message(self.sender_email@),
    {
        SubscriberEmail::parse(self.sender_email.clone())
    }
}

/// The environment the service runs in, which picks a settings file.
#[derive(Clone, Copy, Debug, PartialEq, Eq, Structural)]
pub enum Environment {
    Local,
    Production,
}

pub open spec fn environment_name(e: Environment) -> Seq<char> {
    match e {
        Environment::Local => "local"@,
        Environment::Production => "production"@,
    }
}

pub open spec fn unsupported_environment_message(s: Seq<char>) -> Seq<char> {
    s + " is not a supported environment. Use `local` or `production`"@
}

/// A string in lower case, by Unicode's case mapping.
pub uninterp spec fn lowercase_of(s: Seq<char>) -> Seq<char>;

/// Relies on `str::to_lowercase`: the lower-case mapping of each character;
/// the result depends on the characters alone.
#[verifier::external_body]
fn to_lowercase(s: &str) -> (r: String)
    ensures
        r@ == lowercase_of(s@),
{
    s.to_lowercase()
}

impl Environment {
    /// The environment's name, which is also the name of its settings file.
    pub fn as_str(&self) -> (r: &'static str)
        ensures
            r@ == environment_name(*self),
    {
        match self {
            Environment::Local => "local",
            Environment::Production => "production",
        }
    }

    /// Reads an environment from a name already in lower case.
    pub fn from_lowercase(s: String) -> (r: Result<Environment, String>)
        ensures
            r matches Ok(e) ==> environment_name(e) == s@,
            r is Err <==> (s@ != "local"@ && s@ != "production"@),
            r matches Err(m) ==> m@ == unsupported_environment_message(s@),
    {
        proof {
            reveal_strlit("local");
            reveal_strlit("production");
        }
        if str_eq(s.as_str(), "local") {
            Ok(Environment::Local)
        } else if str_eq(s.as_str(), "production") {
            Ok(Environment::Production)
        } else {
            Err(concat(s.as_str(), " is not a supported environment. Use `local` or `production`"))
        }
    }

    /// Reads an environment from its name, in any case.
    pub fn try_from(s: String) -> (r: Result<Environment, String>)
        ensures
            r matches Ok(e) ==> environment_name(e) == lowercase_of(s@),
            r is Err <==> (lowercase_of(s@) != "local"@ && lowercase_of(s@) != "production"@),
            r matches Err(m) ==> m@ == unsupported_environment_message(lowercase_of(s@)),
    {
        Self::from_lowercase(to_lowercase(s.as_str()))
    }
}

} // verus!
