//! The one-off announcement of the farm rollback in every group chat:
//! retried every minute until it is out, then never again.

use vstd::prelude::*;

verus! {

/// How long the announcer waits before its first try, in seconds.
pub const ANNOUNCER_START_DELAY_SECS: u64 = 5;

/// How long the announcer waits between tries, in seconds.
pub const ANNOUNCER_RETRY_SECS: u64 = 60;

/// Whether there is anything to announce: a rollback not yet announced.
pub fn announcement_pending(pending: &Vec<i32>) -> (res: bool)
    ensures
        res == (pending@.len() > 0),
{
    pending.len() > 0
}

/// Whether the announcement went out: it did once any delivery succeeded.
pub open spec fn spec_delivered(deliveries: Seq<bool>) -> bool {
    exists|i: int| 0 <= i < deliveries.len() && deliveries[i]
}

/// Whether the announcement went out, given the outcome of each delivery.
pub fn announcement_delivered(deliveries: &Vec<bool>) -> (res: bool)
    ensures
        res == spec_delivered(deliveries@),
{
    let mut delivered = false;
    let mut i: usize = 0;
    while i < deliveries.len()
        invariant
            0 <= i <= deliveries.len(),
            delivered == (exists|j: int| 0 <= j < i && deliveries@[j]),
        decreases deliveries.len() - i,
    {
        if deliveries[i] {
            delivered = true;
        }
        i = i + 1;
    }
    delivered
}

/// The outcome of one try of the announcer.
#[derive(Debug, Clone, Copy, PartialEq, Eq, Structural)]
pub enum AnnounceOutcome {
    /// Nothing was pending.
    NothingPending,
    /// The announcement reached at least one chat and is marked as done.
    Delivered,
    /// No chat got the announcement.
    NotDelivered,
    /// The database or the network failed.
    Failed,
}

/// The outcome of a try that did not fail: nothing pending, or whether the
/// announcement was delivered (and is then to be marked as done).
pub fn announce_outcome(pending: bool, delivered: bool) -> (res: AnnounceOutcome)
    ensures
        !pending ==> res == AnnounceOutcome::NothingPending,
        pending && delivered ==> res == AnnounceOutcome::Delivered,
        pending && !delivered ==> res == AnnounceOutcome::NotDelivered,
{
    if !pending {
        AnnounceOutcome::NothingPending
    } else if delivered {
        AnnounceOutcome::Delivered
    } else {
        AnnounceOutcome::NotDelivered
    }
}

/// What the announcer does after a try.
#[derive(Debug, Clone, Copy, PartialEq, Eq, Structural)]
pub enum AnnouncerStep {
    /// Nothing is left to announce: stop for good.
    Stop,
    /// Try again after this many seconds.
    RetryAfter { secs: u64 },
}

/// The announcer stops once nothing is left to announce, and otherwise
/// tries again a minute later.
pub fn announcer_step(outcome: AnnounceOutcome) -> (res: AnnouncerStep)
    ensures
        res == (match outcome {
            AnnounceOutcome::NothingPending | AnnounceOutcome::Delivered => AnnouncerStep::Stop,
            _ => AnnouncerStep::RetryAfter { secs: ANNOUNCER_RETRY_SECS },
        }),
{
    match outcome {
        AnnounceOutcome::NothingPending | AnnounceOutcome::Delivered => AnnouncerStep::Stop,
        _ => AnnouncerStep::RetryAfter { secs: ANNOUNCER_RETRY_SECS },
    }
}

/// The announcer stops exactly when a try leaves nothing to announce:
/// nothing was pending, or some chat got the message.
pub proof fn lemma_announcer_stops_when_done(pending: bool, deliveries: Seq<bool>)
    ensures
        ({
            let outcome = if !pending {
                AnnounceOutcome::NothingPending
            } else if spec_delivered(deliveries) {
                AnnounceOutcome::Delivered
            } else {
                AnnounceOutcome::NotDelivered
            };
            let step = match outcome {
                AnnounceOutcome::NothingPending | AnnounceOutcome::Delivered => AnnouncerStep::Stop,
                _ => AnnouncerStep::RetryAfter { secs: ANNOUNCER_RETRY_SECS },
            };
            (step == AnnouncerStep::Stop) <==> (!pending || spec_delivered(deliveries))
        }),
{
}

} // verus!
