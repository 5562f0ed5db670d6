//! The request dispatcher: how many waiting requests go out together, and
//! how a call that did not produce a response is described to whoever
//! asked for it.

use crate::models::{LolApiError, LolApiErrorView};
use crate::rate_limit::RateBudget;
use crate::text::{append_decimal, decimal};
use vstd::prelude::*;
use vstd::string::*;

verus! {

/// Declares `tokio::sync::mpsc::Receiver`, the receiving end of the queue
/// of waiting requests. Nothing is known of what it holds.
#[verifier::external_type_specification]
#[verifier::external_body]
#[verifier::reject_recursive_types(T)]
pub struct ExReceiver<T>(tokio::sync::mpsc::Receiver<T>);

/// Takes the next waiting request off the queue, if one waits.
///
/// Trusted: stands for `tokio::sync::mpsc::Receiver::try_recv`. What waits
/// in the queue is up to the tasks that fill it, so the contract claims
/// nothing of the result.
#[verifier::external_body]
fn try_receive<T>(queue: &mut tokio::sync::mpsc::Receiver<T>) -> (next: Option<T>) {
    queue.try_recv().ok()
}

/// Puts the next batch together: the request `first`, which the control
/// loop has already accepted, and after it the requests that wait in the
/// queue, in the queue's order, for as long as the budget has room for
/// them. Draining never waits: it stops at the first moment at which
/// nothing waits.
pub fn drain_batch<T>(
    queue: &mut tokio::sync::mpsc::Receiver<T>,
    first: T,
    budget: &RateBudget,
) -> (batch: Vec<T>)
    ensures
        1 <= batch@.len() <= budget@.batch_capacity(),
        batch@[0] == first,
{
    let capacity = budget.batch_capacity();
    let mut batch: Vec<T> = Vec::new();
    batch.push(first);
    while (batch.len() as u64) < capacity
        invariant
            1 <= batch@.len() <= capacity,
            batch@[0] == first,
        decreases capacity - batch@.len(),
    {
        match try_receive(queue) {
            Some(next) => {
                batch.push(next);
            },
            None => {
                break;
            },
        }
    }
    batch
}

/// The failure of a call that could not be handed to the dispatcher.
pub open spec fn spec_send_failure(reason: Seq<char>) -> LolApiErrorView {
    LolApiErrorView {
        description: "Could not send HTTP request, err: "@ + reason + "."@,
        http_code: LolApiError::internal_code(),
    }
}

/// Describes a call that could not be handed to the dispatcher.
pub fn send_failure(reason: &str) -> (error: LolApiError)
    ensures
        error@ == spec_send_failure(reason@),
{
    let mut description = String::from_str("Could not send HTTP request, err: ");
    description.append(reason);
    description.append(".");
    LolApiError::internal(description)
}

/// The failure of a call whose answer never came back from the
/// dispatcher.
pub open spec fn spec_await_failure(reason: Seq<char>) -> LolApiErrorView {
    LolApiErrorView {
        description: "Could not await HTTP response, err: "@ + reason + "."@,
        http_code: LolApiError::internal_code(),
    }
}

/// Describes a call whose answer never came back from the dispatcher.
pub fn await_failure(reason: &str) -> (error: LolApiError)
    ensures
        error@ == spec_await_failure(reason@),
{
    let mut description = String::from_str("Could not await HTTP response, err: ");
    description.append(reason);
    description.append(".");
    LolApiError::internal(description)
}

/// The failure of a call that ended without a usable response, with the
/// status that the transport reported, if it reported one.
pub open spec fn spec_response_failure(status: Option<u16>, reason: Seq<char>) -> LolApiErrorView {
    LolApiErrorView {
        description: "HTTP response error, status: "@ + (match status {
            Some(code) => decimal(code as nat),
            None => "None"@,
        }) + ", error"@ + reason,
        http_code: LolApiError::internal_code(),
    }
}

/// Describes a call that ended without a usable response.
pub fn response_failure(status: Option<u16>, reason: &str) -> (error: LolApiError)
    ensures
        error@ == spec_response_failure(status, reason@),
{
    let mut description = String::from_str("HTTP response error, status: ");
    match status {
        Some(code) => {
            append_decimal(&mut description, code as u64);
        },
        None => {
            description.append("None");
        },
    }
    description.append(", error");
    description.append(reason);
    LolApiError::internal(description)
}

} // verus!
