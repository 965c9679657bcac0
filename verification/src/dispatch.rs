//! The executable system and its fixed-priority dispatcher.
//!
//! A [`System`] owns the button lines, the tick source with its indicator,
//! and the shared store. Hardware raises events; the dispatcher then runs
//! the highest-priority runnable task to completion, over and over, until
//! nothing is runnable and the core can go back to its low-power wait.
//! Every function here is proved to follow the ghost model in
//! [`model`](crate::model) exactly.

use vstd::prelude::*;
use crate::priority::{Task, BUTTON_PRIORITY, ACCUMULATOR_PRIORITY};
use crate::section::Core;
use crate::shared::SharedStore;
use crate::tasks::{ButtonLines, TickSource, button_click, tick, increase_counter};
use crate::timer::MeasurementTimer;
use crate::model::{
    Event, SystemView, spec_raise, spec_runnable, spec_next_task, spec_service, spec_drain,
    spec_step, report_seq, edges_pending, accumulator_runnable_count, drained, quiescent,
};

verus! {

/// The whole stopwatch: task-local peripherals and the shared store.
pub struct System {
    /// The two button lines, local to the button handler.
    pub buttons: ButtonLines,
    /// The tick source and indicator, local to the tick handler.
    pub tick_source: TickSource,
    /// The shared store, reachable only through critical sections.
    pub store: SharedStore,
}

impl System {
    /// The ghost snapshot of the system that the model speaks about.
    pub open spec fn model(self) -> SystemView {
        SystemView {
            buttons: self.buttons,
            tick: self.tick_source,
            timer: self.store.timer(),
            counter: self.store.counter(),
        }
    }

    /// The system as initialization leaves it: nothing pending, timer out
    /// of reset, counter at zero, indicator dark — the idle state.
    pub fn new() -> (s: System)
        ensures
            s.model() == (SystemView {
                buttons: ButtonLines { start_pending: false, stop_pending: false },
                tick: TickSource { pending: false, indicator_on: false },
                timer: MeasurementTimer {
                    period_us: 0,
                    started: false,
                    listening: false,
                    pending: false,
                },
                counter: 0,
            }),
            quiescent(s.model()),
            drained(s.model()),
    {
        System {
            buttons: ButtonLines::new(),
            tick_source: TickSource::new(),
            store: SharedStore::new(),
        }
    }

    /// A hardware event arrives: the matching pending flag latches. The
    /// measurement timer's expiry line only fires while the timer is
    /// armed.
    pub fn raise(&mut self, ev: Event)
        requires
            ev is MeasurementExpiry ==> old(self).model().timer.armed(),
        ensures
            final(self).model() == spec_raise(old(self).model(), ev),
    {
        match ev {
            Event::StartEdge => {
                self.buttons.start_pending = true;
            },
            Event::StopEdge => {
                self.buttons.stop_pending = true;
            },
            Event::TickExpiry => {
                self.tick_source.pending = true;
            },
            Event::MeasurementExpiry => {
                self.store.expire_timer();
            },
        }
        proof {
            assert(final(self).model() =~= spec_raise(old(self).model(), ev));
        }
    }

    /// The dispatcher's choice: the highest-priority runnable task, if any.
    pub fn next_task(&self) -> (t: Option<Task>)
        ensures
            t == spec_next_task(self.model()),
    {
        if self.buttons.start_pending || self.buttons.stop_pending {
            Some(Task::Button)
        } else if self.tick_source.pending {
            Some(Task::Tick)
        } else {
            let (timer, _ticks) = self.store.inspect();
            if timer.pending && timer.listening {
                Some(Task::Accumulator)
            } else {
                None
            }
        }
    }

    /// Dispatches one runnable task and runs it to completion at its
    /// static priority. Returns the tick count read out for reporting if
    /// the task serviced a stop edge.
    pub fn dispatch_task(&mut self, t: Task) -> (report: Option<u32>)
        requires
            spec_runnable(old(self).model(), t),
            t is Accumulator ==> old(self).model().counter < u32::MAX,
        ensures
            final(self).model() == spec_service(old(self).model(), t).0,
            report == spec_service(old(self).model(), t).1,
    {
        match t {
            Task::Button => {
                let mut core = Core::at_priority(BUTTON_PRIORITY);
                let report = button_click(&mut core, &mut self.buttons, &mut self.store);
                proof {
                    assert(final(self).model() =~= spec_service(old(self).model(), t).0);
                }
                report
            },
            Task::Tick => {
                tick(&mut self.tick_source);
                proof {
                    assert(final(self).model() =~= spec_service(old(self).model(), t).0);
                }
                None
            },
            Task::Accumulator => {
                let mut core = Core::at_priority(ACCUMULATOR_PRIORITY);
                increase_counter(&mut core, &mut self.store);
                proof {
                    assert(final(self).model() =~= spec_service(old(self).model(), t).0);
                }
                None
            },
        }
    }

    /// Drains all pending work: while any task is runnable, the
    /// highest-priority one runs to completion. Returns the readings
    /// handed out along the way, in order.
    pub fn drain(&mut self) -> (reports: Vec<u32>)
        requires
            old(self).model().timer.pending ==> old(self).model().counter < u32::MAX,
        ensures
            final(self).model() == spec_drain(old(self).model()).0,
            reports@ == spec_drain(old(self).model()).1,
            drained(final(self).model()),
    {
        let ghost orig = self.model();
        let mut reports: Vec<u32> = Vec::new();
        let mut next = self.next_task();
        while next.is_some()
            invariant
                next == spec_next_task(self.model()),
                spec_drain(orig).0 == spec_drain(self.model()).0,
                spec_drain(orig).1 == reports@ + spec_drain(self.model()).1,
                self.model().timer.pending ==> self.model().counter < u32::MAX,
            decreases edges_pending(self.model()), accumulator_runnable_count(self.model()),
        {
            let ghost before = self.model();
            let t = next.unwrap();
            let report = self.dispatch_task(t);
            if let Some(ticks) = report {
                reports.push(ticks);
            }
            proof {
                let serviced = spec_service(before, t);
                assert(spec_drain(before).0 == spec_drain(serviced.0).0);
                assert(spec_drain(before).1 == report_seq(serviced.1) + spec_drain(serviced.0).1);
                assert(reports@ + spec_drain(self.model()).1
                    =~= (reports@ + spec_drain(self.model()).1));
                assert(spec_drain(orig).1 =~= reports@ + spec_drain(self.model()).1);
            }
            next = self.next_task();
        }
        proof {
            assert(spec_drain(self.model()).0 == self.model());
            assert(spec_drain(self.model()).1 =~= Seq::<u32>::empty());
            assert(spec_drain(orig).1 =~= reports@);
        }
        reports
    }

    /// One full step of the system: an event arrives and everything it
    /// made runnable is drained before the core sleeps again.
    pub fn step(&mut self, ev: Event) -> (reports: Vec<u32>)
        requires
            old(self).model().counter < u32::MAX,
            ev is MeasurementExpiry ==> old(self).model().timer.armed(),
        ensures
            final(self).model() == spec_step(old(self).model(), ev).0,
            reports@ == spec_step(old(self).model(), ev).1,
            drained(final(self).model()),
    {
        self.raise(ev);
        self.drain()
    }

    /// The elapsed-tick counter as a debugger would read it between
    /// dispatches.
    pub fn elapsed_ticks(&self) -> (n: u32)
        ensures
            n == self.model().counter,
    {
        let (_timer, ticks) = self.store.inspect();
        ticks
    }

    /// Whether a measurement is in progress.
    pub fn measuring(&self) -> (b: bool)
        ensures
            b == self.model().timer.armed(),
    {
        let (timer, _ticks) = self.store.inspect();
        timer.listening
    }

    /// The measurement timer as a debugger would read it.
    pub fn timer_state(&self) -> (t: MeasurementTimer)
        ensures
            t == self.model().timer,
    {
        let (timer, _ticks) = self.store.inspect();
        timer
    }

    /// Current level of the status indicator.
    pub fn indicator_on(&self) -> (b: bool)
        ensures
            b == self.model().tick.indicator_on,
    {
        self.tick_source.indicator_on
    }
}

} // verus!
