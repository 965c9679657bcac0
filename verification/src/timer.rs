//! Model of the high-resolution measurement timer.
//!
//! The hardware countdown timer carries a configurable period, a running
//! flag, an enable bit for its expiry interrupt (listening), and a pending
//! flag that the hardware raises on expiry and the handler must clear.
//! A measurement is in progress exactly while the timer is armed, that is,
//! while its expiry interrupt is enabled.

use vstd::prelude::*;

verus! {

/// Length of one measurement tick, in microseconds.
pub const MEASUREMENT_PERIOD_US: u32 = 2;

/// State of the measurement timer as the stopwatch sees it.
#[derive(Clone, Copy, PartialEq, Eq, Structural, Debug)]
pub struct MeasurementTimer {
    /// Configured countdown period in microseconds; zero until first started.
    pub period_us: u32,
    /// Whether the counter has been started and is running.
    pub started: bool,
    /// Whether the expiry interrupt is enabled.
    pub listening: bool,
    /// Whether an expiry is pending and not yet acknowledged.
    pub pending: bool,
}

impl MeasurementTimer {
    /// A measurement is in progress exactly while the expiry interrupt is
    /// enabled.
    pub open spec fn armed(self) -> bool {
        self.listening
    }

    /// The timer as it comes out of reset: stopped, silent, nothing pending.
    pub fn new() -> (t: MeasurementTimer)
        ensures
            t == (MeasurementTimer { period_us: 0, started: false, listening: false, pending: false }),
    {
        MeasurementTimer { period_us: 0, started: false, listening: false, pending: false }
    }

    /// (Re)starts the countdown with the given period. Restarting resets
    /// the period and phase; it does not touch the interrupt enable or the
    /// pending flag.
    pub fn start(&mut self, period_us: u32)
        ensures
            *final(self) == (MeasurementTimer { period_us, started: true, ..*old(self) }),
    {
        self.period_us = period_us;
        self.started = true;
    }

    /// Enables the expiry interrupt: the timer is armed from here on.
    pub fn listen(&mut self)
        ensures
            *final(self) == (MeasurementTimer { listening: true, ..*old(self) }),
            final(self).armed(),
    {
        self.listening = true;
    }

    /// Disables the expiry interrupt, leaving the timer otherwise in its
    /// last state; arming again resets the period.
    pub fn unlisten(&mut self)
        ensures
            *final(self) == (MeasurementTimer { listening: false, ..*old(self) }),
            !final(self).armed(),
    {
        self.listening = false;
    }

    /// Acknowledges an expiry: clears the pending flag.
    pub fn clear_pending(&mut self)
        ensures
            *final(self) == (MeasurementTimer { pending: false, ..*old(self) }),
    {
        self.pending = false;
    }

    /// The hardware raises the pending flag on expiry. The peripheral is
    /// not subject to the software locking discipline; only handlers are.
    pub fn expire(&mut self)
        ensures
            *final(self) == (MeasurementTimer { pending: true, ..*old(self) }),
    {
        self.pending = true;
    }
}

/// Converts a tick count to elapsed microseconds, exactly: each tick is
/// [`MEASUREMENT_PERIOD_US`] microseconds long. Dividing by one million
/// gives seconds; keeping the value integral keeps it exact.
pub fn ticks_to_micros(ticks: u32) -> (us: u64)
    ensures
        us == ticks * MEASUREMENT_PERIOD_US,
{
    proof {
        assert((ticks as u64) * (MEASUREMENT_PERIOD_US as u64) <= u32::MAX as u64 * 2) by (nonlinear_arith)
            requires MEASUREMENT_PERIOD_US == 2;
    }
    (ticks as u64) * (MEASUREMENT_PERIOD_US as u64)
}

} // verus!
