//! A prospective subscriber, built from the two raw form fields.

use vstd::prelude::*;

use crate::subscriber_email::{invalid_email_message, is_valid_email, SubscriberEmail};
use crate::subscriber_name::{
    empty_name_message, is_blank, is_valid_name, name_violations, violation_if, SubscriberName,
};
use crate::text::{join, joined, views_of};

verus! {

/// The raw fields of a subscription form.
#[derive(Debug)]
pub struct SubscribeFormData {
    pub email: String,
    pub name: String,
}

/// A valid name together with a valid email address.
#[derive(Debug)]
pub struct NewSubscriber {
    pub email: SubscriberEmail,
    pub name: SubscriberName,
}

/// Every complaint about a pair of raw fields: the name's, then the email's.
pub open spec fn subscriber_violations(name: Seq<char>, email: Seq<char>) -> Seq<Seq<char>> {
    name_violations(name) + violation_if(!is_valid_email(email), invalid_email_message(email))
}

/// The complaints as one message, separated by a comma and a space.
pub open spec fn subscriber_error_message(name: Seq<char>, email: Seq<char>) -> Seq<char> {
    joined(subscriber_violations(name, email), ", "@)
}

impl NewSubscriber {
    /// Parses both fields independently; fails with every complaint of
    /// either side when one of them is invalid.
    pub fn try_from(form: SubscribeFormData) -> (r: Result<NewSubscriber, String>)
        ensures
            r is Ok <==> is_valid_name(form.name@) && is_valid_email(form.email@),
            r matches Ok(s) ==> s.name@ == form.name@ && s.email@ == form.email@,
            r matches Err(m) ==> m@ == subscriber_error_message(form.name@, form.email@),
    {
        let ghost name_view = form.name@;
        let ghost email_view = form.email@;
        let name = SubscriberName::parse(form.name);
        let email = SubscriberEmail::parse(form.email);
        match (name, email) {
            (Ok(name), Ok(email)) => Ok(NewSubscriber { name, email }),
            (Err(es), Ok(_)) => {
                assert(views_of(es@) =~= subscriber_violations(name_view, email_view));
                Err(join(&es, ", "))
            },
            (Ok(_), Err(e)) => {
                let es = vec![e];
                assert(views_of(es@) =~= subscriber_violations(name_view, email_view));
                Err(join(&es, ", "))
            },
            (Err(mut name_es), Err(e)) => {
                name_es.push(e);
                assert(views_of(name_es@) =~= subscriber_violations(name_view, email_view));
                Err(join(&name_es, ", "))
            },
        }
    }
}

/// A blank name and an invalid email address in one submission are both
/// reported: the complaints hold the name's and the email's.
pub proof fn lemma_both_fields_reported(name: Seq<char>, email: Seq<char>)
    requires
        is_blank(name),
        !is_valid_email(email),
    ensures
        subscriber_violations(name, email).contains(empty_name_message()),
        subscriber_violations(name, email).contains(invalid_email_message(email)),
{
    let v = subscriber_violations(name, email);
    assert(v[0] == empty_name_message());
    assert(v[v.len() - 1] == invalid_email_message(email));
}

} // verus!
