//! The ledger gateway protocol: one grant attempt's remote-call sequence.
//!
//! A `Proceed` from the coordinator starts one [`GrantAttempt`].  The
//! attempt first asks the ledger whether the account already has the tier
//! (the idempotency guard that substitutes for exactly-once delivery), then
//! prepares the transaction, then submits it under a bounded retry loop:
//! at most [`APTOS_TX_MAX_RETRIES`] rounds with a fixed delay of
//! [`APTOS_TX_RETRY_DELAY_MS`] between rounds, the sequence number
//! re-fetched every round.  The caller performs each remote call and feeds
//! the observed result back; the machine here decides, and its decisions
//! are exact for every possible observation.

use vstd::prelude::*;
use crate::coordinator::AttemptOutcome;

verus! {

/// Upper bound on submission rounds for one grant.
pub const APTOS_TX_MAX_RETRIES: u32 = 3;

/// Fixed delay between two submission rounds, in milliseconds.
pub const APTOS_TX_RETRY_DELAY_MS: u64 = 5000;

/// What one submission round reported.  Everything short of acceptance is
/// retryable: an on-chain rejection may stem from a stale sequence number,
/// and transport errors and anomalous response shapes are transient.
#[derive(Clone, Copy, Debug, PartialEq, Eq, Structural)]
pub enum SubmitRound {
    /// The transaction was included and reported success.
    Accepted,
    /// The transaction was included but reported failure.
    RejectedOnChain,
    /// The response was not a user transaction: anomalous, retryable.
    UnexpectedResponse,
    /// Submitting or awaiting finality failed in transport.
    TransportError,
    /// This round's sequence-number fetch failed; no submission was made.
    SequenceFetchFailed,
}

/// Where one grant attempt stands.
#[derive(Clone, Copy, Debug, PartialEq, Eq, Structural)]
pub enum GrantStep {
    /// Querying the ledger whether the account already has the tier.
    CheckingChain,
    /// Building and signing the transaction, including the initial
    /// sequence-number fetch.
    Preparing,
    /// Submission round `attempt`, counted from zero.
    Submitting { attempt: u32 },
    /// The attempt ended with this outcome.
    Finished { outcome: AttemptOutcome },
}

/// Decision on the "has tier" view result.  The first value of the
/// response must be a boolean; its absence — a failed call, an empty
/// result, or a non-boolean value — is surfaced at once, never retried.
pub open spec fn spec_after_check(first_value: Option<bool>) -> GrantStep {
    match first_value {
        Some(true) => GrantStep::Finished { outcome: AttemptOutcome::AlreadyOnChain },
        Some(false) => GrantStep::Preparing,
        None => GrantStep::Finished { outcome: AttemptOutcome::CheckFailed },
    }
}

/// Decision on transaction preparation: ready to submit, or fail the
/// attempt without consuming a submission round.
pub open spec fn spec_after_prepare(ok: bool) -> GrantStep {
    if ok {
        GrantStep::Submitting { attempt: 0 }
    } else {
        GrantStep::Finished { outcome: AttemptOutcome::SubmitFailed }
    }
}

/// Decision on one submission round: acceptance is terminal success, any
/// other report retries until the bound is reached and then fails.
pub open spec fn spec_after_submit(attempt: u32, round: SubmitRound) -> GrantStep {
    if round is Accepted {
        GrantStep::Finished { outcome: AttemptOutcome::GrantedNow }
    } else if attempt + 1 < APTOS_TX_MAX_RETRIES {
        GrantStep::Submitting { attempt: (attempt + 1) as u32 }
    } else {
        GrantStep::Finished { outcome: AttemptOutcome::SubmitFailed }
    }
}

/// The delay the protocol prescribes after one submission round: the fixed
/// inter-round delay when another round follows, nothing on a terminal
/// report.
pub open spec fn spec_submit_delay(attempt: u32, round: SubmitRound) -> Option<u64> {
    if !(round is Accepted) && attempt + 1 < APTOS_TX_MAX_RETRIES {
        Some(APTOS_TX_RETRY_DELAY_MS)
    } else {
        None
    }
}

/// The state machine of one grant attempt.
pub struct GrantAttempt {
    step: GrantStep,
}

impl GrantAttempt {
    pub closed spec fn step(self) -> GrantStep {
        self.step
    }

    /// A submission round is never counted past the bound.
    pub open spec fn wf(self) -> bool {
        self.step() matches GrantStep::Submitting { attempt } ==> attempt < APTOS_TX_MAX_RETRIES
    }

    /// A fresh attempt, about to run the on-chain idempotency check.
    pub fn new() -> (r: GrantAttempt)
        ensures
            r.wf(),
            r.step() == GrantStep::CheckingChain,
    {
        GrantAttempt { step: GrantStep::CheckingChain }
    }

    /// The current step, for the caller driving the remote calls.
    pub fn current_step(&self) -> (s: GrantStep)
        ensures
            s == self.step(),
    {
        self.step
    }

    /// Feeds back the "has tier" view result: the first value of the
    /// response when it was a boolean, `None` otherwise.
    pub fn on_check_response(&mut self, first_value: Option<bool>)
        requires
            old(self).step() is CheckingChain,
        ensures
            final(self).wf(),
            final(self).step() == spec_after_check(first_value),
    {
        self.step = match first_value {
            Some(true) => GrantStep::Finished { outcome: AttemptOutcome::AlreadyOnChain },
            Some(false) => GrantStep::Preparing,
            None => GrantStep::Finished { outcome: AttemptOutcome::CheckFailed },
        };
    }

    /// Feeds back whether the transaction could be built and signed.
    pub fn on_prepared(&mut self, ok: bool)
        requires
            old(self).step() is Preparing,
        ensures
            final(self).wf(),
            final(self).step() == spec_after_prepare(ok),
    {
        self.step = if ok {
            GrantStep::Submitting { attempt: 0 }
        } else {
            GrantStep::Finished { outcome: AttemptOutcome::SubmitFailed }
        };
    }

    /// Feeds back one submission round's report and returns the delay to
    /// wait before the next round, if one follows.
    pub fn on_submit_result(&mut self, round: SubmitRound) -> (delay: Option<u64>)
        requires
            old(self).step() is Submitting,
            old(self).wf(),
        ensures
            final(self).wf(),
            final(self).step() == spec_after_submit(old(self).step()->Submitting_attempt, round),
            delay == spec_submit_delay(old(self).step()->Submitting_attempt, round),
    {
        let attempt = match self.step {
            GrantStep::Submitting { attempt } => attempt,
            _ => 0,
        };
        if matches!(round, SubmitRound::Accepted) {
            self.step = GrantStep::Finished { outcome: AttemptOutcome::GrantedNow };
            None
        } else if attempt + 1 < APTOS_TX_MAX_RETRIES {
            self.step = GrantStep::Submitting { attempt: attempt + 1 };
            Some(APTOS_TX_RETRY_DELAY_MS)
        } else {
            self.step = GrantStep::Finished { outcome: AttemptOutcome::SubmitFailed };
            None
        }
    }
}

/// A submission that fails on chain every round is attempted exactly
/// [`APTOS_TX_MAX_RETRIES`] times, with the configured delay prescribed
/// after each non-final round and none after the last, and then reports
/// terminal failure — never earlier, never later.
pub proof fn lemma_retry_bound(r1: SubmitRound, r2: SubmitRound, r3: SubmitRound)
    requires
        !(r1 is Accepted),
        !(r2 is Accepted),
        !(r3 is Accepted),
    ensures
        spec_after_submit(0, r1) == (GrantStep::Submitting { attempt: 1u32 }),
        spec_submit_delay(0, r1) == Some(APTOS_TX_RETRY_DELAY_MS),
        spec_after_submit(1, r2) == (GrantStep::Submitting { attempt: 2u32 }),
        spec_submit_delay(1, r2) == Some(APTOS_TX_RETRY_DELAY_MS),
        spec_after_submit(2, r3) == (GrantStep::Finished { outcome: AttemptOutcome::SubmitFailed }),
        spec_submit_delay(2, r3) is None,
{
}

/// A failing round never ends the attempt before the bound is reached:
/// below the last round it always schedules another submission.
pub proof fn lemma_no_early_give_up(attempt: u32, round: SubmitRound)
    requires
        attempt + 1 < APTOS_TX_MAX_RETRIES,
        !(round is Accepted),
    ensures
        spec_after_submit(attempt, round) == (GrantStep::Submitting {
            attempt: (attempt + 1) as u32,
        }),
{
}

} // verus!
