//! HTTP Basic credentials, and their verification against a stored
//! password hash.

use argon2::{PasswordHash, PasswordVerifier};
use vstd::prelude::*;
use vstd::utf8::{decode_utf8, encode_utf8, valid_utf8};

use crate::errors::{ErrorChain, PublishError};
use crate::text::strip_prefix;

verus! {

/// A username and password taken from an `Authorization` header.
pub struct Credentials {
    pub username: String,
    pub password: String,
}

/// Why an `Authorization` header yields no credentials.
#[derive(Clone, Copy, Debug, PartialEq, Eq, Structural)]
pub enum CredentialsError {
    MissingHeader,
    NotBasicScheme,
    NotBase64,
    NotUtf8,
    MissingPassword,
}

pub open spec fn credentials_error_text(e: CredentialsError) -> Seq<char> {
    match e {
        CredentialsError::MissingHeader => "'Authorization' header is missing"@,
        CredentialsError::NotBasicScheme => "Authorization scheme is not Basic."@,
        CredentialsError::NotBase64 => "Failed to decode Credentials using base64."@,
        CredentialsError::NotUtf8 => "Decoded credential data is not a valid UTF8 encoded string."@,
        CredentialsError::MissingPassword => "A password must be provided in 'Basic' auth."@,
    }
}

impl CredentialsError {
    /// A description of the failure, for the logs.
    pub fn message(&self) -> (r: &'static str)
        ensures
            r@ == credentials_error_text(*self),
    {
        match self {
            CredentialsError::MissingHeader => "'Authorization' header is missing",
            CredentialsError::NotBasicScheme => "Authorization scheme is not Basic.",
            CredentialsError::NotBase64 => "Failed to decode Credentials using base64.",
            CredentialsError::NotUtf8 => "Decoded credential data is not a valid UTF8 encoded string.",
            CredentialsError::MissingPassword => "A password must be provided in 'Basic' auth.",
        }
    }
}

/// The bytes that standard base64 (with padding) decodes `encoded` to, or
/// nothing when `encoded` is not such an encoding.
pub uninterp spec fn base64_standard_decoding(encoded: Seq<u8>) -> Option<Seq<u8>>;

#[verifier::external_type_specification]
#[verifier::external_body]
pub struct ExDecodeError(base64::DecodeError);

/// Relies on `base64::decode_config` with `base64::STANDARD`; it panics only
/// when its size computations overflow, the first of which adds 7 to the
/// input length.
#[verifier::external_body]
fn decode_base64(encoded: &[u8]) -> (r: Result<Vec<u8>, base64::DecodeError>)
    requires
        encoded@.len() + 7 <= usize::MAX,
    ensures
        match r {
            Ok(bytes) => base64_standard_decoding(encoded@) == Some(bytes@),
            Err(_) => base64_standard_decoding(encoded@) is None,
        },
{
    base64::decode_config(encoded, base64::STANDARD)
}

#[verifier::external_type_specification]
#[verifier::external_body]
pub struct ExFromUtf8Error(std::string::FromUtf8Error);

/// Relies on `String::from_utf8`: succeeds exactly on well-formed UTF-8, and
/// then holds the characters that the bytes encode.
#[verifier::external_body]
fn string_from_utf8(bytes: Vec<u8>) -> (r: Result<String, std::string::FromUtf8Error>)
    ensures
        r is Ok <==> valid_utf8(bytes@),
        r matches Ok(s) ==> s@ == decode_utf8(bytes@),
{
    String::from_utf8(bytes)
}

pub open spec fn basic_scheme() -> Seq<char> {
    "Basic "@
}

pub open spec fn optional_view(header: Option<&str>) -> Option<Seq<char>> {
    match header {
        Some(h) => Some(h@),
        None => None,
    }
}

/// The text that a header's Basic credentials decode to, or why there is
/// none. An encoding too long for the decoder to size its output counts as
/// undecodable.
pub open spec fn decoded_credentials(header: Option<Seq<char>>) -> Result<
    Seq<char>,
    CredentialsError,
> {
    match header {
        None => Err(CredentialsError::MissingHeader),
        Some(h) => if h.len() < basic_scheme().len() || h.take(basic_scheme().len() as int)
            != basic_scheme() {
            Err(CredentialsError::NotBasicScheme)
        } else if encode_utf8(h.skip(basic_scheme().len() as int)).len() + 7 > usize::MAX {
            Err(CredentialsError::NotBase64)
        } else {
            match base64_standard_decoding(encode_utf8(h.skip(basic_scheme().len() as int))) {
                None => Err(CredentialsError::NotBase64),
                Some(raw) => if valid_utf8(raw) {
                    Ok(decode_utf8(raw))
                } else {
                    Err(CredentialsError::NotUtf8)
                },
            }
        },
    }
}

/// `text` is the username, a colon, then the password; the username holds
/// no colon.
pub open spec fn splits_into(text: Seq<char>, username: Seq<char>, password: Seq<char>) -> bool {
    text == username + seq![':'] + password && !username.contains(':')
}

/// Reads `Basic <base64 of username:password>`; the text is split at its
/// first colon.
pub fn basic_authentication(header: Option<&str>) -> (r: Result<Credentials, CredentialsError>)
    ensures
        match decoded_credentials(optional_view(header)) {
            Err(e) => r == Err::<Credentials, CredentialsError>(e),
            Ok(text) => if text.contains(':') {
                r matches Ok(c) && splits_into(text, c.username@, c.password@)
            } else {
                r == Err::<Credentials, CredentialsError>(CredentialsError::MissingPassword)
            },
        },
{
    proof {
        reveal_strlit("Basic ");
    }
    let header_value = match header {
        None => return Err(CredentialsError::MissingHeader),
        Some(h) => h,
    };
    let encoded_segment = match strip_prefix(header_value, "Basic ") {
        None => return Err(CredentialsError::NotBasicScheme),
        Some(rest) => rest,
    };
    let encoded_bytes = encoded_segment.as_bytes();
    if encoded_bytes.len() > usize::MAX - 7 {
        return Err(CredentialsError::NotBase64);
    }
    let decoded_bytes = match decode_base64(encoded_bytes) {
        Err(_) => return Err(CredentialsError::NotBase64),
        Ok(bytes) => bytes,
    };
    let decoded_credentials = match string_from_utf8(decoded_bytes) {
        Err(_) => return Err(CredentialsError::NotUtf8),
        Ok(s) => s,
    };
    split_at_first_colon(decoded_credentials.as_str())
}

/// Whether a header carries Basic credentials with a password.
pub open spec fn has_basic_credentials(header: Option<Seq<char>>) -> bool {
    decoded_credentials(header) matches Ok(text) && text.contains(':')
}

/// The credentials of a publishing request; whatever is wrong with the
/// header is an authentication failure, with the reason as its cause.
pub fn credentials_from_header(header: Option<&str>) -> (r: Result<Credentials, PublishError>)
    ensures
        r is Ok <==> has_basic_credentials(optional_view(header)),
        r matches Ok(c) ==> decoded_credentials(optional_view(header)) matches Ok(text)
            && splits_into(text, c.username@, c.password@),
        r matches Err(e) ==> e is AuthError,
{
    match basic_authentication(header) {
        Ok(c) => Ok(c),
        Err(e) => Err(PublishError::AuthError(ErrorChain::new(e.message()))),
    }
}

fn split_at_first_colon(text: &str) -> (r: Result<Credentials, CredentialsError>)
    ensures
        if text@.contains(':') {
            r matches Ok(c) && splits_into(text@, c.username@, c.password@)
        } else {
            r == Err::<Credentials, CredentialsError>(CredentialsError::MissingPassword)
        },
{
    let n = text.unicode_len();
    let mut i: usize = 0;
    while i < n
        invariant
            n == text@.len(),
            i <= n,
            forall|j: int| 0 <= j < i ==> text@[j] != ':',
        decreases n - i,
    {
        if text.get_char(i) == ':' {
            let username = String::from_str(text.substring_char(0, i));
            let password = String::from_str(text.substring_char(i + 1, n));
            assert(text@ =~= username@ + seq![':'] + password@);
            assert(!username@.contains(':')) by {
                if username@.contains(':') {
                    let k = choose|k: int| 0 <= k < username@.len() && username@[k] == ':';
                    assert(text@[k] == ':');
                }
            }
            return Ok(Credentials { username, password });
        }
        i = i + 1;
    }
    Err(CredentialsError::MissingPassword)
}

/// A user's id.
#[derive(Clone, Copy, Debug, PartialEq, Eq, Structural)]
pub struct UserId(pub u128);

/// What the credential store holds for one username.
#[derive(Debug)]
pub struct StoredCredentials {
    pub user_id: UserId,
    pub password_hash: String,
}

/// Whether a string is a password hash in PHC string format.
pub uninterp spec fn phc_parses(hash: Seq<char>) -> bool;

/// Whether Argon2 verification of `password` against a PHC hash succeeds.
pub uninterp spec fn argon2_accepts(hash: Seq<char>, password: Seq<char>) -> bool;

/// Relies on `password_hash::PasswordHash::new`, which parses the PHC
/// string, and on argon2's `PasswordVerifier::verify_password`, which
/// recomputes the hash with the parameters and salt that the string holds:
/// nothing when the string does not parse, else whether verification passed.
#[verifier::external_body]
fn argon2_verify(expected_hash: &str, password: &str) -> (r: Option<bool>)
    ensures
        r is None <==> !phc_parses(expected_hash@),
        r matches Some(ok) ==> ok == argon2_accepts(expected_hash@, password@),
{
    match PasswordHash::new(expected_hash) {
        Err(_) => None,
        Ok(hash) => Some(
            argon2::Argon2::default().verify_password(password.as_bytes(), &hash).is_ok(),
        ),
    }
}

/// A valid Argon2id hash of a password that nobody knows; it is verified
/// against when the username is unknown, so that both failures take as long.
pub const DUMMY_PASSWORD_HASH: &'static str = "$argon2id$v=19$m=15000,t=2,p=1$gZiV/M1gPc22ElAH/Jh1Hw$CWOrkoo7oJBQ/iyh7uJ0LO2aLEfrHwTWllSAxT0zRno";

pub open spec fn dummy_password_hash() -> Seq<char> {
    DUMMY_PASSWORD_HASH@
}

/// The outcome of checking a password.
#[derive(Clone, Copy, Debug, PartialEq, Eq, Structural)]
pub enum Verdict {
    /// A known user gave the right password.
    Accepted,
    /// The username is unknown, or the password is wrong.
    Rejected,
    /// The hash that was checked against is not in PHC format.
    Broken,
}

/// The hash that a password is checked against: the stored one, or the
/// dummy when the username is unknown.
pub open spec fn checked_hash(stored_hash: Option<Seq<char>>) -> Seq<char> {
    match stored_hash {
        Some(h) => h,
        None => dummy_password_hash(),
    }
}

/// An unknown user is rejected even where the dummy hash would verify.
pub open spec fn verdict(stored_hash: Option<Seq<char>>, password: Seq<char>) -> Verdict {
    if !phc_parses(checked_hash(stored_hash)) {
        Verdict::Broken
    } else if stored_hash is Some && argon2_accepts(checked_hash(stored_hash), password) {
        Verdict::Accepted
    } else {
        Verdict::Rejected
    }
}

pub open spec fn stored_hash_of(stored: Option<StoredCredentials>) -> Option<Seq<char>> {
    match stored {
        Some(s) => Some(s.password_hash@),
        None => None,
    }
}

/// Checks a candidate password against a PHC hash.
pub fn verify_password_hash(expected_password_hash: String, password_candidate: String) -> (r:
    Result<(), PublishError>)
    ensures
        r is Ok <==> phc_parses(expected_password_hash@) && argon2_accepts(
            expected_password_hash@,
            password_candidate@,
        ),
        r matches Err(e) ==> (e is UnexpectedError <==> !phc_parses(expected_password_hash@)),
{
    match argon2_verify(expected_password_hash.as_str(), password_candidate.as_str()) {
        None => Err(
            PublishError::UnexpectedError(
                ErrorChain::new("Failed to parse hash in PHC string format."),
            ),
        ),
        Some(true) => Ok(()),
        Some(false) => Err(PublishError::AuthError(ErrorChain::new("Invalid password."))),
    }
}

/// Verifies the password against what the store holds for the username.
/// The hash computation runs whether or not the user exists; the two
/// failures are then reported alike.
pub fn validate_credentials(
    credentials: Credentials,
    stored: Result<Option<StoredCredentials>, ErrorChain>,
) -> (r: Result<UserId, PublishError>)
    ensures
        match stored {
            Err(_) => r matches Err(e) && e is UnexpectedError,
            Ok(s) => match verdict(stored_hash_of(s), credentials.password@) {
                Verdict::Accepted => r == Ok::<UserId, PublishError>(s->0.user_id),
                Verdict::Rejected => r matches Err(e) && e is AuthError,
                Verdict::Broken => r matches Err(e) && e is UnexpectedError,
            },
        },
{
    let stored = match stored {
        Err(e) => {
            return Err(
                PublishError::UnexpectedError(
                    e.context("Failed to perform a query to validate auth credentials."),
                ),
            );
        },
        Ok(s) => s,
    };
    let (user_id, expected_password_hash) = match stored {
        Some(s) => (Some(s.user_id), s.password_hash),
        None => (None, String::from_str(DUMMY_PASSWORD_HASH)),
    };
    match verify_password_hash(expected_password_hash, credentials.password) {
        Err(e) => Err(e),
        Ok(()) => match user_id {
            Some(id) => Ok(id),
            None => Err(PublishError::AuthError(ErrorChain::new("Unknown username."))),
        },
    }
}

/// An unknown username and a wrong password for a known one end the same
/// way, provided the dummy hash parses as it should.
pub proof fn lemma_unknown_user_like_wrong_password(
    hash: Seq<char>,
    password: Seq<char>,
    other_password: Seq<char>,
)
    requires
        phc_parses(dummy_password_hash()),
        phc_parses(hash),
        !argon2_accepts(hash, password),
    ensures
        verdict(None, other_password) == Verdict::Rejected,
        verdict(Some(hash), password) == Verdict::Rejected,
{
}

} // verus!
