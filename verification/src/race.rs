//! Race-style composition of suspending operations. A polled operation
//! exposes, as specification, when it is ready and what it yields; one
//! evaluation records the suspension signal and reports readiness. The
//! combinators evaluate two operations in order and report the first that
//! is ready; the loser is simply left behind, with no cancellation signal.

use vstd::prelude::*;

use crate::poll::PollMarker;
use crate::time::Clock;

verus! {

/// A suspending operation driven by repeated evaluation: ready or not at a
/// given clock reading, with an output once ready.
pub trait PollOp {
    /// What the operation yields when it resolves.
    type Output;

    /// Whether an evaluation at clock reading `clock` resolves.
    spec fn ready(&self, clock: &Clock) -> bool;

    /// The output of an evaluation at clock reading `clock`, meaningful
    /// when the operation is ready.
    spec fn value(&self, clock: &Clock) -> Self::Output;

    /// One evaluation: records the suspension signal, whether or not the
    /// operation resolved, and yields the output exactly when it did.
    fn poll(&self, clock: &Clock, marker: &mut PollMarker) -> (r: Option<Self::Output>)
        ensures
            final(marker).touched(),
            r == (if self.ready(clock) {
                Some(self.value(clock))
            } else {
                None::<Self::Output>
            }),
    ;
}

/// What one evaluation of the race of `wait_for` against `err` reports at
/// clock reading `clock`: the first operation's output tagged `Ok` as soon
/// as it is ready, the second's tagged `Err` when only the second is
/// ready, and nothing while neither is.
pub open spec fn race_result<A: PollOp, B: PollOp>(wait_for: &A, err: &B, clock: &Clock) -> Option<
    Result<A::Output, B::Output>,
> {
    if wait_for.ready(clock) {
        Some(Ok(wait_for.value(clock)))
    } else if err.ready(clock) {
        Some(Err(err.value(clock)))
    } else {
        None
    }
}

/// One evaluation of the composition that becomes ready as soon as one of
/// the two given operations is ready.
pub fn either<A: PollOp, B: PollOp>(
    fut1: &A,
    fut2: &B,
    clock: &Clock,
    marker: &mut PollMarker,
) -> (done: bool)
    ensures
        final(marker).touched(),
        done == (fut1.ready(clock) || fut2.ready(clock)),
{
    if fut1.poll(clock, marker).is_some() {
        true
    } else {
        fut2.poll(clock, marker).is_some()
    }
}

/// One evaluation of the race of two operations: if `wait_for` resolves
/// first its output is reported as `Ok`, if only `err` resolves its output
/// is reported as `Err`. Can be used for timeouts, racing a wanted
/// operation against a deadline.
pub fn wait_or<A: PollOp, B: PollOp>(
    wait_for: &A,
    err: &B,
    clock: &Clock,
    marker: &mut PollMarker,
) -> (r: Option<Result<A::Output, B::Output>>)
    ensures
        final(marker).touched(),
        r == race_result(wait_for, err, clock),
{
    match wait_for.poll(clock, marker) {
        Some(a) => Some(Ok(a)),
        None => match err.poll(clock, marker) {
            Some(b) => Some(Err(b)),
            None => None,
        },
    }
}

/// The race reports the operation that resolves first, tagged for its
/// side: at a clock reading where exactly one of the two is ready, the
/// result carries that operation's output under its tag, and the other
/// operation's lack of progress is discarded without any cancellation.
pub proof fn lemma_race_first_wins<A: PollOp, B: PollOp>(wait_for: &A, err: &B, clock: &Clock)
    ensures
        wait_for.ready(clock) && !err.ready(clock) ==> race_result(wait_for, err, clock) == Some(
            Result::<A::Output, B::Output>::Ok(wait_for.value(clock)),
        ),
        !wait_for.ready(clock) && err.ready(clock) ==> race_result(wait_for, err, clock) == Some(
            Result::<A::Output, B::Output>::Err(err.value(clock)),
        ),
        !wait_for.ready(clock) && !err.ready(clock) ==> race_result(wait_for, err, clock) is None,
{
}

} // verus!
