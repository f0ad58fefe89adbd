//! A subscriber's email address, validated on construction.

use vstd::prelude::*;

verus! {

/// Whether a string is an email address by the grammar that `validator`
/// checks.
pub uninterp spec fn is_valid_email(s: Seq<char>) -> bool;

/// Relies on `validator::validate_email`: an empty string, or one without an
/// `@`, is refused at once; so is one that starts with `@`, since the part
/// before the last `@` must be one or more characters, none of them `@`.
#[verifier::external_body]
fn validate_email(s: &str) -> (r: bool)
    ensures
        r == is_valid_email(s@),
        !s@.contains('@') ==> !r,
        s@.len() > 0 && s@[0] == '@' ==> !r,
{
    validator::validate_email(s)
}

pub open spec fn invalid_email_message(s: Seq<char>) -> Seq<char> {
    s + " is not a valid subscriber email"@
}

/// An address accepted by the email grammar.
#[derive(Debug)]
pub struct SubscriberEmail(String);

impl View for SubscriberEmail {
    type V = Seq<char>;

    closed spec fn view(&self) -> Seq<char> {
        self.0@
    }
}

impl SubscriberEmail {
    #[verifier::type_invariant]
    spec fn inv(&self) -> bool {
        is_valid_email(self.0@)
    }

    pub fn parse(s: String) -> (r: Result<Self, String>)
        ensures
            r is Ok <==> is_valid_email(s@),
            !s@.contains('@') ==> r is Err,
            s@.len() > 0 && s@[0] == '@' ==> r is Err,
            r matches Ok(e) ==> e@ == s@,
            r matches Err(m) ==> m@ == invalid_email_message(s@),
    {
        if validate_email(s.as_str()) {
            Ok(SubscriberEmail(s))
        } else {
            let mut m = s.clone();
            m.append(" is not a valid subscriber email");
            Err(m)
        }
    }
}

impl AsRef<str> for SubscriberEmail {
    fn as_ref(&self) -> (r: &str)
        ensures
            r@ == self@,
            is_valid_email(r@),
    {
        proof {
            use_type_invariant(self);
        }
        self.0.as_str()
    }
}

impl Clone for SubscriberEmail {
    fn clone(&self) -> (r: Self)
        ensures
            r@ == self@,
    {
        proof {
            use_type_invariant(self);
        }
        SubscriberEmail(self.0.clone())
    }
}

} // verus!
