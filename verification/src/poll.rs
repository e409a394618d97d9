//! The scan marker of the cyclic executor. Every evaluation of a suspending
//! primitive records a signal here; after each pass through a task body the
//! driver asks the marker whether the pass touched any primitive, and from
//! the answer decides between an immediate same-scan re-run and a pause
//! until the clock is advanced for the next scan.

use vstd::prelude::*;

verus! {

/// Per-task-loop suspension bookkeeping: records whether a suspending
/// primitive was evaluated since the last check.
pub struct PollMarker {
    poll_called: bool,
}

impl PollMarker {
    /// Whether a suspending primitive was evaluated since the last check.
    pub closed spec fn touched(&self) -> bool {
        self.poll_called
    }

    /// A fresh marker, with no evaluation recorded.
    pub fn new() -> (m: PollMarker)
        ensures
            !m.touched(),
    {
        PollMarker { poll_called: false }
    }

    /// Records that a suspending primitive was evaluated. Every polled
    /// operation calls this on each evaluation, whether or not it resolved.
    pub fn poll_called(&mut self)
        ensures
            final(self).touched(),
            *final(self) == after_pass(*old(self), true),
    {
        self.poll_called = true;
    }

    /// The check-and-reset step of the executor: reports that a full-scan
    /// wait is required exactly when no suspending primitive was evaluated
    /// since the last check, in which case the marker is left untouched;
    /// otherwise the recorded signal is cleared and the pass may be re-run
    /// within the same scan.
    pub fn await_next_cycle_needed(&mut self) -> (r: bool)
        ensures
            r == !old(self).touched(),
            *final(self) == after_check(*old(self)),
            !final(self).touched(),
    {
        if !self.poll_called {
            return true;
        }
        self.poll_called = false;
        false
    }
}

/// The marker state after a pass through a task body that evaluated at
/// least one suspending primitive exactly when `touches` holds. Every
/// evaluation records its signal and nothing else writes the marker, so a
/// pass can only raise it.
pub closed spec fn after_pass(m: PollMarker, touches: bool) -> PollMarker {
    PollMarker { poll_called: m.poll_called || touches }
}

/// The marker state after the executor's check-and-reset step.
pub closed spec fn after_check(m: PollMarker) -> PollMarker {
    PollMarker { poll_called: false }
}

/// Executor liveness, per pass. Each pass starts from a checked (clear)
/// marker. A pass that evaluated no suspending primitive is followed by a
/// demanded scan-aligned pause; a pass that evaluated at least one is
/// re-run at once, with no pause in between. Either way the check hands
/// the next pass a clear marker again, so the same dichotomy governs every
/// following pass: the immediate re-runs continue exactly until a pass
/// touches no primitive.
pub proof fn lemma_executor_regimes(m: PollMarker, touches: bool)
    requires
        !m.touched(),
    ensures
        after_pass(m, touches).touched() == touches,
        !after_check(after_pass(m, touches)).touched(),
{
}

} // verus!
