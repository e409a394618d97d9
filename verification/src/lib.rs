//! Runtime core of a cyclic, scan-synchronized control environment:
//! a process-variable state machine with forced override, hysteresis-based
//! edge detection and subscription capture, a type-erased byte codec over
//! the variable slots, a microsecond clock with polled suspension points,
//! a scan marker that decides between same-scan re-runs and next-scan
//! pauses, and a race combinator over polled operations.

pub mod codec;
pub mod model;
pub mod poll;
pub mod race;
pub mod scalar;
pub mod time;
pub mod var;
