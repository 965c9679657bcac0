//! The shared state store: the elapsed-tick counter and the measurement
//! timer handle.
//!
//! These two items are the only state touched by more than one task. Their
//! fields are private, and every mutating accessor demands a
//! [`SectionGuard`](crate::section::SectionGuard) for the right item, so
//! the store structurally rejects unmediated access: a handler can only
//! reach them inside a priority-ceiling critical section.

use vstd::prelude::*;
use crate::priority::SharedItem;
use crate::section::SectionGuard;
use crate::timer::{MeasurementTimer, MEASUREMENT_PERIOD_US};

verus! {

/// The store holding both shared items.
pub struct SharedStore {
    measurement_timer: MeasurementTimer,
    elapsed_ticks: u32,
}

impl SharedStore {
    /// The measurement timer as held by the store.
    pub closed spec fn timer(self) -> MeasurementTimer {
        self.measurement_timer
    }

    /// The elapsed-tick counter as held by the store.
    pub closed spec fn counter(self) -> u32 {
        self.elapsed_ticks
    }

    /// The store at power-up: timer out of reset, counter at zero — the
    /// idle state.
    pub fn new() -> (s: SharedStore)
        ensures
            s.timer() == (MeasurementTimer { period_us: 0, started: false, listening: false, pending: false }),
            s.counter() == 0,
    {
        SharedStore { measurement_timer: MeasurementTimer::new(), elapsed_ticks: 0 }
    }

    /// Arms the measurement timer: restarts it with the measurement period
    /// and enables its expiry interrupt. Idempotent when already armed,
    /// apart from resetting the period and phase.
    pub fn arm_timer(&mut self, g: &SectionGuard)
        requires
            g.item() == SharedItem::MeasurementTimer,
        ensures
            final(self).timer() == (MeasurementTimer {
                period_us: MEASUREMENT_PERIOD_US,
                started: true,
                listening: true,
                ..old(self).timer()
            }),
            final(self).timer().armed(),
            final(self).counter() == old(self).counter(),
    {
        self.measurement_timer.start(MEASUREMENT_PERIOD_US);
        self.measurement_timer.listen();
    }

    /// Disarms the measurement timer: disables its expiry interrupt,
    /// leaving it otherwise in its last state.
    pub fn disarm_timer(&mut self, g: &SectionGuard)
        requires
            g.item() == SharedItem::MeasurementTimer,
        ensures
            final(self).timer() == (MeasurementTimer { listening: false, ..old(self).timer() }),
            !final(self).timer().armed(),
            final(self).counter() == old(self).counter(),
    {
        self.measurement_timer.unlisten();
    }

    /// Acknowledges a measurement-timer expiry: clears its pending flag.
    pub fn acknowledge_timer(&mut self, g: &SectionGuard)
        requires
            g.item() == SharedItem::MeasurementTimer,
        ensures
            final(self).timer() == (MeasurementTimer { pending: false, ..old(self).timer() }),
            final(self).counter() == old(self).counter(),
    {
        self.measurement_timer.clear_pending();
    }

    /// Counts one elapsed tick.
    pub fn increment_counter(&mut self, g: &SectionGuard)
        requires
            g.item() == SharedItem::ElapsedTicks,
            old(self).counter() < u32::MAX,
        ensures
            final(self).counter() == old(self).counter() + 1,
            final(self).timer() == old(self).timer(),
    {
        self.elapsed_ticks = self.elapsed_ticks + 1;
    }

    /// Reads the counter out for reporting and resets it to zero, in one
    /// critical section.
    pub fn read_and_reset_counter(&mut self, g: &SectionGuard) -> (ticks: u32)
        requires
            g.item() == SharedItem::ElapsedTicks,
        ensures
            ticks == old(self).counter(),
            final(self).counter() == 0,
            final(self).timer() == old(self).timer(),
    {
        let ticks = self.elapsed_ticks;
        self.elapsed_ticks = 0;
        ticks
    }

    /// The hardware raises the timer's expiry flag; the peripheral is not
    /// subject to the software locking discipline.
    pub fn expire_timer(&mut self)
        ensures
            final(self).timer() == (MeasurementTimer { pending: true, ..old(self).timer() }),
            final(self).counter() == old(self).counter(),
    {
        self.measurement_timer.expire();
    }

    /// A coherent read-only view for inspection between dispatches. On the
    /// single core every handler runs to completion, so no torn state is
    /// visible here; mutation still only passes through the guarded
    /// accessors above.
    pub fn inspect(&self) -> (view_pair: (MeasurementTimer, u32))
        ensures
            view_pair.0 == self.timer(),
            view_pair.1 == self.counter(),
    {
        (self.measurement_timer, self.elapsed_ticks)
    }
}

} // verus!
