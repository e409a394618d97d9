//! The process clock and the time-based suspension points. The clock is a
//! single microsecond counter, advanced exactly once per scan by the host
//! driver through `set_system_time`; nothing in the core advances it. The
//! wait constructors compute an absolute deadline; the resulting operation
//! resolves, on evaluation, once the counter has crossed the deadline, and
//! records a suspension signal on every evaluation.

use vstd::prelude::*;

use crate::poll::PollMarker;
use crate::race::PollOp;

verus! {

/// Number of microseconds in a second.
pub const SECOND: u64 = 1_000_000;

/// The process-wide time base: a microsecond counter set once per scan by
/// the host driver.
pub struct Clock {
    now: u64,
}

impl View for Clock {
    type V = u64;

    closed spec fn view(&self) -> u64 {
        self.now
    }
}

impl Clock {
    /// A clock that has not yet been advanced.
    pub fn new() -> (c: Clock)
        ensures
            c@ == 0,
    {
        Clock { now: 0 }
    }

    /// Returns the current system time in microseconds: the value of the
    /// most recent `set_system_time` call.
    pub fn current_time(&self) -> (t: u64)
        ensures
            t == self@,
    {
        self.now
    }

    /// Sets the system time to the given timestamp. This is the sole
    /// time-advancing operation, called exactly once per scan by the host
    /// driver, never by core logic.
    pub fn set_system_time(&mut self, us: u64)
        ensures
            final(self)@ == us,
    {
        self.now = us;
    }
}

/// A suspension point on the clock: resolves once the system time has
/// reached its deadline.
pub struct WaitUntil {
    deadline: u64,
}

impl View for WaitUntil {
    type V = u64;

    closed spec fn view(&self) -> u64 {
        self.deadline
    }
}

impl PollOp for WaitUntil {
    type Output = ();

    open spec fn ready(&self, clock: &Clock) -> bool {
        clock@ >= self@
    }

    open spec fn value(&self, clock: &Clock) -> () {
        ()
    }

    fn poll(&self, clock: &Clock, marker: &mut PollMarker) -> (r: Option<()>) {
        marker.poll_called();
        if clock.current_time() >= self.deadline {
            Some(())
        } else {
            None
        }
    }
}

/// The suspension point that waits until the system time passes the given
/// timestamp in microseconds.
pub fn wait_until(time: u64) -> (w: WaitUntil)
    ensures
        w@ == time,
{
    WaitUntil { deadline: time }
}

/// The suspension point that waits for the given number of microseconds
/// from the current time.
pub fn wait_us(clock: &Clock, duration_us: u64) -> (w: WaitUntil)
    requires
        clock@ + duration_us <= u64::MAX,
    ensures
        w@ == clock@ + duration_us,
{
    WaitUntil { deadline: clock.current_time() + duration_us }
}

/// The canonical one-scan pause: a deadline one microsecond away, which
/// cannot resolve before the host driver advances the clock for the next
/// scan.
pub fn wait_next_cycle(clock: &Clock) -> (w: WaitUntil)
    requires
        clock@ < u64::MAX,
    ensures
        w@ == clock@ + 1,
{
    WaitUntil { deadline: clock.current_time() + 1 }
}

} // verus!
