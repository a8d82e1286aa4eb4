//! The readiness poll: after spawning the sidecar, the host probes its
//! health endpoint once per interval until a probe succeeds or a fixed
//! wall-clock budget is spent. This module decides, after each probe, whether
//! the poll is done, has timed out, or waits and probes again; the host does
//! the sleeping and the network call.

use vstd::prelude::*;

verus! {

/// Milliseconds between readiness probes.
pub const POLL_INTERVAL_MS: u64 = 300;

/// Wall-clock readiness budget in milliseconds.
pub const READY_TIMEOUT_MS: u64 = 15000;

/// Number of probes the budget admits.
pub const MAX_POLL_ATTEMPTS: u64 = READY_TIMEOUT_MS / POLL_INTERVAL_MS;

/// What one health probe observed. A connection failure and a response with
/// a non-success status both count as not ready.
#[derive(Clone, Copy, PartialEq, Eq, Structural, Debug)]
pub enum ProbeOutcome {
    Success,
    NotReady,
}

/// What the poll does after a probe: report the sidecar ready, give up, or
/// wait one interval and probe again.
#[derive(Clone, Copy, PartialEq, Eq, Structural, Debug)]
pub enum PollVerdict {
    Ready,
    Retry,
    TimedOut,
}

/// Verdict after one probe, given how many probes came before it: a
/// successful probe is final at once; a failed probe retries until the
/// budget is spent.
pub open spec fn step_verdict(attempts_before: u64, probe: ProbeOutcome) -> PollVerdict {
    if probe is Success {
        PollVerdict::Ready
    } else if attempts_before + 1 >= MAX_POLL_ATTEMPTS {
        PollVerdict::TimedOut
    } else {
        PollVerdict::Retry
    }
}

/// Deadline-based readiness poll: counts probes against the fixed budget.
pub struct ReadinessPoll {
    /// Probes made so far.
    pub attempts: u64,
}

impl ReadinessPoll {
    /// The budget is never overspent.
    pub open spec fn wf(&self) -> bool {
        self.attempts <= MAX_POLL_ATTEMPTS
    }

    /// Wall-clock time the poll has spent waiting, one interval per probe.
    pub open spec fn elapsed_ms(&self) -> int {
        self.attempts * POLL_INTERVAL_MS
    }

    /// A fresh poll: no probe made yet.
    pub fn new() -> (r: Self)
        ensures
            r.wf(),
            r.attempts == 0,
    {
        ReadinessPoll { attempts: 0 }
    }

    /// Account one probe and decide what to do next. A `Retry` verdict
    /// leaves budget for at least one more probe.
    pub fn step(&mut self, probe: ProbeOutcome) -> (r: PollVerdict)
        requires
            old(self).wf(),
            old(self).attempts < MAX_POLL_ATTEMPTS,
        ensures
            final(self).wf(),
            final(self).attempts == old(self).attempts + 1,
            r == step_verdict(old(self).attempts, probe),
            r is Retry ==> final(self).attempts < MAX_POLL_ATTEMPTS,
    {
        self.attempts = self.attempts + 1;
        match probe {
            ProbeOutcome::Success => PollVerdict::Ready,
            ProbeOutcome::NotReady => if self.attempts >= MAX_POLL_ATTEMPTS {
                PollVerdict::TimedOut
            } else {
                PollVerdict::Retry
            },
        }
    }
}

/// A probe that succeeds ends the poll at once, however many probes came
/// before it: on an endpoint that is healthy immediately, the very first
/// probe already yields the `Ready` verdict, one interval in.
pub proof fn lemma_success_is_final(attempts_before: u64)
    ensures
        step_verdict(attempts_before, ProbeOutcome::Success) == PollVerdict::Ready,
{
}

/// If no probe ever succeeds, the poll gives up exactly when the budget is
/// spent and never hangs: every failing probe but the last retries, the
/// last one times out, and the total wait then equals the readiness budget.
pub proof fn lemma_never_ready_times_out(attempts_before: u64)
    requires
        attempts_before < MAX_POLL_ATTEMPTS,
    ensures
        attempts_before + 1 < MAX_POLL_ATTEMPTS ==> step_verdict(
            attempts_before,
            ProbeOutcome::NotReady,
        ) == PollVerdict::Retry,
        attempts_before + 1 == MAX_POLL_ATTEMPTS ==> step_verdict(
            attempts_before,
            ProbeOutcome::NotReady,
        ) == PollVerdict::TimedOut,
        MAX_POLL_ATTEMPTS * POLL_INTERVAL_MS == READY_TIMEOUT_MS,
{
}

/// The poll never waits past the budget: a well-formed poll has spent at
/// most the readiness budget on waiting.
pub proof fn lemma_poll_bounded(p: ReadinessPoll)
    requires
        p.wf(),
    ensures
        p.elapsed_ms() <= READY_TIMEOUT_MS,
{
    assert(p.attempts * POLL_INTERVAL_MS <= MAX_POLL_ATTEMPTS * POLL_INTERVAL_MS)
        by (nonlinear_arith)
        requires
            p.attempts <= MAX_POLL_ATTEMPTS,
    ;
}

} // verus!
