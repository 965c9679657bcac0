//! An interrupt-driven stopwatch core.
//!
//! Two edge-triggered buttons start and stop a high-resolution measurement
//! timer, a fixed-period tick source blinks a status indicator, and the
//! accumulated tick count is reported when the measurement stops. The heart
//! of the crate is the coordination layer: a fixed-priority preemptive
//! dispatcher delivers hardware events to handler tasks, and every access to
//! the shared counter and timer handle happens inside a priority-ceiling
//! critical section, so the handlers never race.

pub mod priority;
pub mod section;
pub mod timer;
pub mod shared;
pub mod tasks;
pub mod model;
pub mod dispatch;
pub mod laws;
