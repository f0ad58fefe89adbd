//! Confirming a subscription through the token sent by email.

use vstd::prelude::*;

use crate::subscriptions::{SubscriberId, SubscriptionStatus};

verus! {

/// The query of a confirmation link.
#[derive(Debug)]
pub struct Parameters {
    pub subscription_token: String,
}

/// The answer to a confirmation request.
#[derive(Clone, Copy, Debug, PartialEq, Eq, Structural)]
pub enum ConfirmOutcome {
    /// The subscriber is now confirmed.
    Confirmed,
    /// The token was never issued.
    Unauthorized,
    /// Storage failed; which step failed is not told.
    InternalError,
}

pub open spec fn confirm_status(o: ConfirmOutcome) -> u16 {
    match o {
        ConfirmOutcome::Confirmed => 200,
        ConfirmOutcome::Unauthorized => 401,
        ConfirmOutcome::InternalError => 500,
    }
}

impl ConfirmOutcome {
    pub fn status_code(&self) -> (r: u16)
        ensures
            r == confirm_status(*self),
    {
        match self {
            ConfirmOutcome::Confirmed => 200,
            ConfirmOutcome::Unauthorized => 401,
            ConfirmOutcome::InternalError => 500,
        }
    }
}

/// What to do once the token has been looked up.
#[derive(Clone, Copy, Debug, PartialEq, Eq, Structural)]
pub enum ConfirmAction {
    /// Set the subscriber's status to confirmed, whatever it was.
    MarkConfirmed(SubscriberId),
    /// Answer at once.
    Respond(ConfirmOutcome),
}

pub open spec fn confirm_decision(lookup: Result<Option<SubscriberId>, String>) -> ConfirmAction {
    match lookup {
        Ok(Some(id)) => ConfirmAction::MarkConfirmed(id),
        Ok(None) => ConfirmAction::Respond(ConfirmOutcome::Unauthorized),
        Err(_) => ConfirmAction::Respond(ConfirmOutcome::InternalError),
    }
}

/// Decides on the result of looking the token up: an unknown token is
/// unauthorized, a storage failure an internal error.
pub fn confirm(lookup: Result<Option<SubscriberId>, String>) -> (r: ConfirmAction)
    ensures
        r == confirm_decision(lookup),
{
    match lookup {
        Ok(Some(id)) => ConfirmAction::MarkConfirmed(id),
        Ok(None) => ConfirmAction::Respond(ConfirmOutcome::Unauthorized),
        Err(_) => ConfirmAction::Respond(ConfirmOutcome::InternalError),
    }
}

pub open spec fn update_outcome(update: Result<(), String>) -> ConfirmOutcome {
    match update {
        Ok(()) => ConfirmOutcome::Confirmed,
        Err(_) => ConfirmOutcome::InternalError,
    }
}

/// The answer once the status update has run.
pub fn confirm_subscriber(update: Result<(), String>) -> (r: ConfirmOutcome)
    ensures
        r == update_outcome(update),
{
    match update {
        Ok(()) => ConfirmOutcome::Confirmed,
        Err(_) => ConfirmOutcome::InternalError,
    }
}

/// The status of subscriber `id` after an action, from `status` before it.
pub open spec fn status_after(
    action: ConfirmAction,
    id: SubscriberId,
    status: SubscriptionStatus,
) -> SubscriptionStatus {
    match action {
        ConfirmAction::MarkConfirmed(target) => if target == id {
            SubscriptionStatus::Confirmed
        } else {
            status
        },
        ConfirmAction::Respond(_) => status,
    }
}

/// Visiting the link of an issued token confirms its subscriber; visiting it
/// again takes the same step, leaves the status confirmed, and answers
/// Confirmed again when storage works.
pub proof fn lemma_confirming_twice(id: SubscriberId, status: SubscriptionStatus)
    ensures
        status_after(confirm_decision(Ok(Some(id))), id, status) == SubscriptionStatus::Confirmed,
        status_after(
            confirm_decision(Ok(Some(id))),
            id,
            status_after(confirm_decision(Ok(Some(id))), id, status),
        ) == SubscriptionStatus::Confirmed,
        update_outcome(Ok(())) == ConfirmOutcome::Confirmed,
{
}

/// A token that was never issued is unauthorized, not an internal error,
/// and changes no status.
pub proof fn lemma_unknown_token(id: SubscriberId, status: SubscriptionStatus)
    ensures
        confirm_decision(Ok(None)) == ConfirmAction::Respond(ConfirmOutcome::Unauthorized),
        status_after(confirm_decision(Ok(None)), id, status) == status,
{
}

} // verus!
