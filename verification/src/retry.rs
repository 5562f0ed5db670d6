//! The retry policy: how one call reacts to a throttling response.

use crate::text::{parse_u64, spec_parse_u64};
use vstd::prelude::*;

verus! {

/// The status with which the upstream API throttles a caller.
pub const THROTTLED_STATUS: u16 = 429;

/// How often one call is attempted at most, the first attempt included.
pub const MAX_ATTEMPTS: u64 = 5;

/// What one attempt at a call produced.
#[derive(Debug, PartialEq, Eq)]
pub enum AttemptOutcome {
    /// No response arrived: the connection failed or timed out.
    TransportFailure,
    /// A response arrived. `retry_after` is the text of its retry-after
    /// header, where it has one that is readable as text.
    Response { status: u16, retry_after: Option<String> },
}

/// The mathematical content of an [`AttemptOutcome`].
pub enum AttemptOutcomeView {
    TransportFailure,
    Response { status: u16, retry_after: Option<Seq<char>> },
}

impl View for AttemptOutcome {
    type V = AttemptOutcomeView;

    open spec fn view(&self) -> AttemptOutcomeView {
        match self {
            AttemptOutcome::TransportFailure => AttemptOutcomeView::TransportFailure,
            AttemptOutcome::Response { status, retry_after } => AttemptOutcomeView::Response {
                status: *status,
                retry_after: match retry_after {
                    Some(text) => Some(text@),
                    None => None,
                },
            },
        }
    }
}

/// What the caller of the policy does next.
#[derive(Clone, Copy, Debug, PartialEq, Eq)]
pub enum RetryDecision {
    /// Hand the outcome just seen to whoever asked for the call.
    Surface,
    /// Wait this many seconds, then attempt the same call again.
    RetryAfter { seconds: u64 },
}

/// The number of seconds a throttling response asks the caller to wait:
/// present exactly for a response with the throttling status whose
/// retry-after header is an unsigned number.
pub open spec fn throttle_wait(outcome: AttemptOutcomeView) -> Option<u64> {
    match outcome {
        AttemptOutcomeView::Response { status, retry_after: Some(text) } => {
            if status == THROTTLED_STATUS {
                spec_parse_u64(text)
            } else {
                None
            }
        },
        _ => None,
    }
}

/// One step of the policy: with `remaining` attempts left before the
/// outcome was seen, the attempts left after it and what to do.
///
/// An outcome is retried only if it is a throttling response that names a
/// wait and another attempt is left after this one. Every other outcome is
/// surfaced and ends the call.
pub open spec fn retry_step(remaining: nat, outcome: AttemptOutcomeView) -> (nat, RetryDecision) {
    match throttle_wait(outcome) {
        Some(seconds) if remaining > 1 => ((remaining - 1) as nat, RetryDecision::RetryAfter {
            seconds,
        }),
        _ => (0, RetryDecision::Surface),
    }
}

/// The number of attempts that the policy makes when the attempts, as far
/// as they are made, produce `outcomes` in this order.
pub open spec fn attempts_made(remaining: nat, outcomes: Seq<AttemptOutcomeView>) -> nat
    decreases outcomes.len(),
{
    if outcomes.len() == 0 {
        0
    } else {
        let (left, decision) = retry_step(remaining, outcomes[0]);
        match decision {
            RetryDecision::Surface => 1,
            RetryDecision::RetryAfter { .. } => 1 + attempts_made(left, outcomes.drop_first()),
        }
    }
}

/// The outcome that the policy surfaces when the attempts produce
/// `outcomes` in this order, if it gets that far.
pub open spec fn surfaced(remaining: nat, outcomes: Seq<AttemptOutcomeView>) -> Option<
    AttemptOutcomeView,
>
    decreases outcomes.len(),
{
    if outcomes.len() == 0 {
        None
    } else {
        let (left, decision) = retry_step(remaining, outcomes[0]);
        match decision {
            RetryDecision::Surface => Some(outcomes[0]),
            RetryDecision::RetryAfter { .. } => surfaced(left, outcomes.drop_first()),
        }
    }
}

/// The state of one call under the retry policy.
#[derive(Debug)]
pub struct RetryPolicy {
    attempts_remaining: u64,
}

impl RetryPolicy {
    /// The attempts that are left to this call.
    pub closed spec fn remaining(&self) -> nat {
        self.attempts_remaining as nat
    }

    /// The policy of a call that has not been attempted yet.
    pub fn new() -> (policy: RetryPolicy)
        ensures
            policy.remaining() == MAX_ATTEMPTS,
    {
        RetryPolicy { attempts_remaining: MAX_ATTEMPTS }
    }

    /// The attempts that are left to this call.
    pub fn attempts_remaining(&self) -> (left: u64)
        ensures
            left == self.remaining(),
    {
        self.attempts_remaining
    }

    /// Takes the outcome of the attempt just made and decides what follows.
    pub fn on_outcome(&mut self, outcome: &AttemptOutcome) -> (decision: RetryDecision)
        ensures
            (final(self).remaining(), decision) == retry_step(old(self).remaining(), outcome@),
    {
        let wait = match outcome {
            AttemptOutcome::Response { status, retry_after: Some(text) } => {
                if *status == THROTTLED_STATUS {
                    parse_u64(text.as_str())
                } else {
                    None
                }
            },
            _ => None,
        };
        match wait {
            Some(seconds) => {
                if self.attempts_remaining > 1 {
                    self.attempts_remaining = self.attempts_remaining - 1;
                    RetryDecision::RetryAfter { seconds }
                } else {
                    self.attempts_remaining = 0;
                    RetryDecision::Surface
                }
            },
            None => {
                self.attempts_remaining = 0;
                RetryDecision::Surface
            },
        }
    }
}

/// A call is never attempted more often than the attempts it has left,
/// whatever the attempts produce.
pub proof fn lemma_attempts_bounded(remaining: nat, outcomes: Seq<AttemptOutcomeView>)
    requires
        remaining >= 1,
    ensures
        attempts_made(remaining, outcomes) <= remaining,
    decreases outcomes.len(),
{
    if outcomes.len() > 0 {
        let (left, decision) = retry_step(remaining, outcomes[0]);
        if decision is RetryAfter {
            lemma_attempts_bounded(left, outcomes.drop_first());
        }
    }
}

/// A call that is throttled with a readable wait every time is attempted
/// exactly as often as it has attempts, and then surfaces the last of those
/// throttling responses.
pub proof fn lemma_persistent_throttling(remaining: nat, outcomes: Seq<AttemptOutcomeView>)
    requires
        remaining >= 1,
        outcomes.len() >= remaining,
        forall|i: int| 0 <= i < remaining ==> throttle_wait(#[trigger] outcomes[i]) is Some,
    ensures
        attempts_made(remaining, outcomes) == remaining,
        surfaced(remaining, outcomes) == Some(outcomes[remaining - 1]),
    decreases remaining,
{
    assert(throttle_wait(outcomes[0]) is Some);
    if remaining > 1 {
        let rest = outcomes.drop_first();
        assert forall|i: int| 0 <= i < remaining - 1 implies throttle_wait(
            #[trigger] rest[i],
        ) is Some by {
            assert(rest[i] == outcomes[i + 1]);
        }
        lemma_persistent_throttling((remaining - 1) as nat, rest);
        assert(rest[remaining - 2] == outcomes[remaining - 1]);
    }
}

/// A fresh call makes at most [`MAX_ATTEMPTS`] attempts; one that is
/// throttled with a readable wait every time makes exactly that many and
/// surfaces the last throttling response.
pub proof fn lemma_retry_bound(outcomes: Seq<AttemptOutcomeView>)
    ensures
        attempts_made(MAX_ATTEMPTS as nat, outcomes) <= MAX_ATTEMPTS,
        outcomes.len() >= MAX_ATTEMPTS && (forall|i: int|
            0 <= i < MAX_ATTEMPTS ==> throttle_wait(#[trigger] outcomes[i]) is Some)
            ==> attempts_made(MAX_ATTEMPTS as nat, outcomes) == MAX_ATTEMPTS && surfaced(
            MAX_ATTEMPTS as nat,
            outcomes,
        ) == Some(outcomes[MAX_ATTEMPTS - 1]),
{
    lemma_attempts_bounded(MAX_ATTEMPTS as nat, outcomes);
    if outcomes.len() >= MAX_ATTEMPTS && (forall|i: int|
        0 <= i < MAX_ATTEMPTS ==> throttle_wait(#[trigger] outcomes[i]) is Some) {
        lemma_persistent_throttling(MAX_ATTEMPTS as nat, outcomes);
    }
}

/// Whatever is not a throttling response with a readable wait is surfaced
/// at once: the attempt that produced it is the last one.
pub proof fn lemma_no_retry_without_wait(remaining: nat, outcomes: Seq<AttemptOutcomeView>)
    requires
        outcomes.len() >= 1,
        throttle_wait(outcomes[0]) is None,
    ensures
        retry_step(remaining, outcomes[0]) == (0nat, RetryDecision::Surface),
        attempts_made(remaining, outcomes) == 1,
        surfaced(remaining, outcomes) == Some(outcomes[0]),
{
}

} // verus!
