use vstd::prelude::*;
use crate::errors::MinerError;

verus! {

/// The submission protocol's phases. A transaction is built and sent, then
/// polled until the requested commitment level is reached, the blockhash
/// leaves its validity window, or the ledger returns a definitive verdict.
#[derive(Clone, Copy, Debug, PartialEq, Eq, Structural)]
pub enum SubmitState {
    /// A transaction for the round's intent is being built against a fresh
    /// blockhash and dispatched.
    Building { retries_used: u64 },
    /// The transaction is on the wire; its status is polled by signature.
    Sent { retries_used: u64 },
    /// The requested commitment level was reached.
    Confirmed,
    /// The submission ended without confirmation, for the recorded reason.
    Failed { reason: MinerError },
}

/// What the outside world reports back to the protocol.
#[derive(Clone, Copy, Debug, PartialEq, Eq, Structural)]
pub enum SubmitEvent {
    /// The send endpoint accepted the transaction.
    SendAccepted,
    /// The send endpoint returned a definitive rejection, such as a
    /// simulation failure.
    SendRejected,
    /// A status poll found the transaction not yet at the commitment level.
    PollPending,
    /// A status poll found the transaction at the commitment level.
    PollConfirmed,
    /// The blockhash left its validity window without confirmation.
    PollExpired,
    /// A status poll returned a definitive ledger rejection.
    PollRejected,
    /// The endpoint was unreachable or timed out.
    NetworkFailure,
}

/// What the caller must do next: the protocol itself performs no I/O.
#[derive(Clone, Copy, Debug, PartialEq, Eq, Structural)]
pub enum SubmitAction {
    /// Dispatch the built transaction.
    Send,
    /// Wait the poll interval, then query the status by signature.
    Poll,
    /// Rebuild the same intent against a fresh blockhash, then dispatch.
    Rebuild,
    /// The submission is over; stop.
    Stop,
}

/// The transition relation of the protocol. Expiry and network failures
/// consume one retry each and lead back into the protocol while the budget
/// lasts; a definitive rejection ends it at once, with no retry; an event
/// that does not belong to the current phase leaves the state unchanged and
/// repeats the phase's action. Every retry rebuilds against a fresh
/// blockhash — a stale blockhash is never reused.
pub open spec fn spec_step(s: SubmitState, e: SubmitEvent, max_retries: u64) -> (
    SubmitState,
    SubmitAction,
) {
    match s {
        SubmitState::Building { retries_used } => match e {
            SubmitEvent::SendAccepted => (SubmitState::Sent { retries_used }, SubmitAction::Poll),
            SubmitEvent::SendRejected => (
                (SubmitState::Failed { reason: MinerError::Rejected }),
                SubmitAction::Stop,
            ),
            SubmitEvent::NetworkFailure => if retries_used < max_retries {
                (
                    (SubmitState::Building { retries_used: (retries_used + 1) as u64 }),
                    SubmitAction::Rebuild,
                )
            } else {
                ((SubmitState::Failed { reason: MinerError::NetworkError }), SubmitAction::Stop)
            },
            _ => (s, SubmitAction::Send),
        },
        SubmitState::Sent { retries_used } => match e {
            SubmitEvent::PollPending => (s, SubmitAction::Poll),
            SubmitEvent::PollConfirmed => (SubmitState::Confirmed, SubmitAction::Stop),
            SubmitEvent::PollExpired => if retries_used < max_retries {
                (
                    (SubmitState::Building { retries_used: (retries_used + 1) as u64 }),
                    SubmitAction::Rebuild,
                )
            } else {
                ((SubmitState::Failed { reason: MinerError::Expired }), SubmitAction::Stop)
            },
            SubmitEvent::PollRejected => (
                (SubmitState::Failed { reason: MinerError::Rejected }),
                SubmitAction::Stop,
            ),
            SubmitEvent::NetworkFailure => if retries_used < max_retries {
                (
                    (SubmitState::Sent { retries_used: (retries_used + 1) as u64 }),
                    SubmitAction::Poll,
                )
            } else {
                ((SubmitState::Failed { reason: MinerError::NetworkError }), SubmitAction::Stop)
            },
            _ => (s, SubmitAction::Poll),
        },
        SubmitState::Confirmed => (s, SubmitAction::Stop),
        SubmitState::Failed { reason } => (s, SubmitAction::Stop),
    }
}

/// Advances the submission protocol by one observed event and says what to
/// do next; the step is exactly the transition relation.
pub fn step(s: SubmitState, e: SubmitEvent, max_retries: u64) -> (r: (SubmitState, SubmitAction))
    ensures
        r == spec_step(s, e, max_retries),
{
    match s {
        SubmitState::Building { retries_used } => match e {
            SubmitEvent::SendAccepted => (SubmitState::Sent { retries_used }, SubmitAction::Poll),
            SubmitEvent::SendRejected => (
                SubmitState::Failed { reason: MinerError::Rejected },
                SubmitAction::Stop,
            ),
            SubmitEvent::NetworkFailure => {
                if retries_used < max_retries {
                    (
                        SubmitState::Building { retries_used: retries_used + 1 },
                        SubmitAction::Rebuild,
                    )
                } else {
                    (SubmitState::Failed { reason: MinerError::NetworkError }, SubmitAction::Stop)
                }
            },
            _ => (s, SubmitAction::Send),
        },
        SubmitState::Sent { retries_used } => match e {
            SubmitEvent::PollPending => (s, SubmitAction::Poll),
            SubmitEvent::PollConfirmed => (SubmitState::Confirmed, SubmitAction::Stop),
            SubmitEvent::PollExpired => {
                if retries_used < max_retries {
                    (
                        SubmitState::Building { retries_used: retries_used + 1 },
                        SubmitAction::Rebuild,
                    )
                } else {
                    (SubmitState::Failed { reason: MinerError::Expired }, SubmitAction::Stop)
                }
            },
            SubmitEvent::PollRejected => (
                SubmitState::Failed { reason: MinerError::Rejected },
                SubmitAction::Stop,
            ),
            SubmitEvent::NetworkFailure => {
                if retries_used < max_retries {
                    (SubmitState::Sent { retries_used: retries_used + 1 }, SubmitAction::Poll)
                } else {
                    (SubmitState::Failed { reason: MinerError::NetworkError }, SubmitAction::Stop)
                }
            },
            _ => (s, SubmitAction::Poll),
        },
        SubmitState::Confirmed => (s, SubmitAction::Stop),
        SubmitState::Failed { reason: _ } => (s, SubmitAction::Stop),
    }
}

/// A definitive rejection is never retried: from either live phase, a
/// rejection event ends the protocol at once as Failed(Rejected), whatever
/// retry budget remains.
pub proof fn lemma_rejected_is_final(r: u64, max_retries: u64)
    ensures
        spec_step(SubmitState::Sent { retries_used: r }, SubmitEvent::PollRejected, max_retries)
            == ((SubmitState::Failed { reason: MinerError::Rejected }), SubmitAction::Stop),
        spec_step(
            SubmitState::Building { retries_used: r },
            SubmitEvent::SendRejected,
            max_retries,
        ) == ((SubmitState::Failed { reason: MinerError::Rejected }), SubmitAction::Stop),
{
}

/// An expired blockhash is retried by rebuilding against a fresh one while
/// the retry budget lasts, and ends the protocol as Failed(Expired) exactly
/// when the budget is spent.
pub proof fn lemma_expired_retries(r: u64, max_retries: u64)
    ensures
        r < max_retries ==> spec_step(
            SubmitState::Sent { retries_used: r },
            SubmitEvent::PollExpired,
            max_retries,
        ) == ((SubmitState::Building { retries_used: (r + 1) as u64 }), SubmitAction::Rebuild),
        r >= max_retries ==> spec_step(
            SubmitState::Sent { retries_used: r },
            SubmitEvent::PollExpired,
            max_retries,
        ) == ((SubmitState::Failed { reason: MinerError::Expired }), SubmitAction::Stop),
{
}

/// The retries a live state has consumed never pass the budget.
pub open spec fn retries_within(s: SubmitState, max_retries: u64) -> bool {
    match s {
        SubmitState::Building { retries_used } => retries_used <= max_retries,
        SubmitState::Sent { retries_used } => retries_used <= max_retries,
        SubmitState::Confirmed => true,
        SubmitState::Failed { reason } => true,
    }
}

/// Stepping preserves the retry bound: from any state within the budget,
/// every event leads to a state within the budget.
pub proof fn lemma_retries_bounded(s: SubmitState, e: SubmitEvent, max_retries: u64)
    requires
        retries_within(s, max_retries),
    ensures
        retries_within(spec_step(s, e, max_retries).0, max_retries),
{
}

} // verus!
