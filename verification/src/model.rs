//! Ghost model of the whole system and of the dispatcher's semantics.
//!
//! A [`SystemView`] is a snapshot of every flag and counter the stopwatch
//! owns. The functions here say, purely at the specification level, what
//! each hardware event does to the pending flags, what servicing each task
//! does to the state, and what the fixed-priority dispatcher does when it
//! drains the pending work: run the highest-priority runnable task to
//! completion, again and again, until nothing is runnable. The executable
//! dispatcher in [`dispatch`](crate::dispatch) is proved to follow this
//! model step for step, and the laws in [`laws`](crate::laws) are proved
//! over it.

use vstd::prelude::*;
use crate::priority::{Task, spec_task_priority};
use crate::tasks::{ButtonLines, TickSource};
use crate::timer::{MeasurementTimer, MEASUREMENT_PERIOD_US};

verus! {

/// A hardware event: a rising edge on a button line or the expiry of one
/// of the two timers.
#[derive(Clone, Copy, PartialEq, Eq, Structural, Debug)]
pub enum Event {
    /// Rising edge on the start button.
    StartEdge,
    /// Rising edge on the stop button.
    StopEdge,
    /// Expiry of the one-second tick source.
    TickExpiry,
    /// Expiry of the measurement timer; the hardware raises it only while
    /// the timer is armed.
    MeasurementExpiry,
}

/// Snapshot of the full system state: button lines, tick source with its
/// indicator, measurement timer, and the elapsed-tick counter.
#[verifier::ext_equal]
pub struct SystemView {
    /// The two button lines.
    pub buttons: ButtonLines,
    /// The tick source and the indicator it drives.
    pub tick: TickSource,
    /// The measurement timer.
    pub timer: MeasurementTimer,
    /// The elapsed-tick counter.
    pub counter: u32,
}

/// What raising a hardware event does: it sets the matching pending flag
/// and touches nothing else.
pub open spec fn spec_raise(v: SystemView, ev: Event) -> SystemView {
    match ev {
        Event::StartEdge => SystemView {
            buttons: ButtonLines { start_pending: true, ..v.buttons },
            ..v
        },
        Event::StopEdge => SystemView {
            buttons: ButtonLines { stop_pending: true, ..v.buttons },
            ..v
        },
        Event::TickExpiry => SystemView {
            tick: TickSource { pending: true, ..v.tick },
            ..v
        },
        Event::MeasurementExpiry => SystemView {
            timer: MeasurementTimer { pending: true, ..v.timer },
            ..v
        },
    }
}

/// Whether a task has a pending, enabled interrupt cause. The accumulator
/// is wired to the measurement timer's expiry interrupt, so it can only be
/// dispatched while that interrupt is enabled.
pub open spec fn spec_runnable(v: SystemView, t: Task) -> bool {
    match t {
        Task::Button => v.buttons.start_pending || v.buttons.stop_pending,
        Task::Tick => v.tick.pending,
        Task::Accumulator => v.timer.pending && v.timer.listening,
    }
}

/// The dispatcher's choice: the runnable task of highest priority, or
/// nothing when no task is runnable.
pub open spec fn spec_next_task(v: SystemView) -> Option<Task> {
    if spec_runnable(v, Task::Button) {
        Some(Task::Button)
    } else if spec_runnable(v, Task::Tick) {
        Some(Task::Tick)
    } else if spec_runnable(v, Task::Accumulator) {
        Some(Task::Accumulator)
    } else {
        None
    }
}

/// The choice really is the highest-priority runnable task, and it is made
/// only when something is runnable.
pub proof fn lemma_next_task_highest(v: SystemView)
    ensures
        match spec_next_task(v) {
            Some(t) => spec_runnable(v, t)
                && forall|u: Task| spec_runnable(v, u) ==> spec_task_priority(u) <= spec_task_priority(t),
            None => forall|u: Task| !spec_runnable(v, u),
        },
{
    match spec_next_task(v) {
        Some(t) => {
            assert forall|u: Task| spec_runnable(v, u)
                implies spec_task_priority(u) <= spec_task_priority(t) by {
                match u {
                    Task::Button => {},
                    Task::Tick => {},
                    Task::Accumulator => {},
                }
            }
        },
        None => {
            assert forall|u: Task| !spec_runnable(v, u) by {
                match u {
                    Task::Button => {},
                    Task::Tick => {},
                    Task::Accumulator => {},
                }
            }
        },
    }
}

/// What one complete run of the button handler does: service the start
/// line if it is pending (start takes precedence), else the stop line if
/// that is pending, else nothing. The second component is the tick count
/// read out for reporting on a stop.
pub open spec fn spec_service_button(v: SystemView) -> (SystemView, Option<u32>) {
    if v.buttons.start_pending {
        (SystemView {
            buttons: ButtonLines { start_pending: false, ..v.buttons },
            timer: MeasurementTimer {
                period_us: MEASUREMENT_PERIOD_US,
                started: true,
                listening: true,
                ..v.timer
            },
            ..v
        }, None)
    } else if v.buttons.stop_pending {
        (SystemView {
            buttons: ButtonLines { stop_pending: false, ..v.buttons },
            timer: MeasurementTimer { listening: false, ..v.timer },
            counter: 0,
            ..v
        }, Some(v.counter))
    } else {
        (v, None)
    }
}

/// What one run of the tick handler does: acknowledge the tick source and
/// toggle the indicator.
pub open spec fn spec_service_tick(v: SystemView) -> SystemView {
    SystemView {
        tick: TickSource { pending: false, indicator_on: !v.tick.indicator_on },
        ..v
    }
}

/// What one run of the accumulator does: acknowledge the measurement timer
/// and count one elapsed tick.
pub open spec fn spec_service_accumulator(v: SystemView) -> SystemView {
    SystemView {
        timer: MeasurementTimer { pending: false, ..v.timer },
        counter: (v.counter + 1) as u32,
        ..v
    }
}

/// One run-to-completion of the given task, with the reading it hands out,
/// if any.
pub open spec fn spec_service(v: SystemView, t: Task) -> (SystemView, Option<u32>) {
    match t {
        Task::Button => spec_service_button(v),
        Task::Tick => (spec_service_tick(v), None),
        Task::Accumulator => (spec_service_accumulator(v), None),
    }
}

/// A report as a sequence: empty, or the one reading handed out.
pub open spec fn report_seq(r: Option<u32>) -> Seq<u32> {
    match r {
        Some(x) => seq![x],
        None => Seq::empty(),
    }
}

/// How many edge-latched causes are still pending: the two button lines
/// and the tick source. Servicing any of them clears one and raises none,
/// which is what bounds the dispatcher's draining.
pub open spec fn edges_pending(v: SystemView) -> int {
    (if v.buttons.start_pending { 1int } else { 0int })
        + (if v.buttons.stop_pending { 1int } else { 0int })
        + (if v.tick.pending { 1int } else { 0int })
}

/// Whether the accumulator is runnable, as a summand of the draining
/// measure: servicing an edge may arm the timer and so wake a stale
/// expiry, but servicing the accumulator itself always clears it.
pub open spec fn accumulator_runnable_count(v: SystemView) -> int {
    if spec_runnable(v, Task::Accumulator) { 1int } else { 0int }
}

/// The dispatcher's drain: while any task is runnable, run the
/// highest-priority one to completion, and collect the readings handed
/// out. The measure is lexicographic: every service either clears an
/// edge-latched cause, or is the accumulator clearing its own.
pub open spec fn spec_drain(v: SystemView) -> (SystemView, Seq<u32>)
    decreases edges_pending(v), accumulator_runnable_count(v),
{
    match spec_next_task(v) {
        None => (v, Seq::empty()),
        Some(t) => {
            let serviced = spec_service(v, t);
            let rest = spec_drain(serviced.0);
            (rest.0, report_seq(serviced.1) + rest.1)
        },
    }
}

/// One step of the system: a hardware event arrives, and the dispatcher
/// drains all pending work before the core goes back to sleep.
pub open spec fn spec_step(v: SystemView, ev: Event) -> (SystemView, Seq<u32>) {
    spec_drain(spec_raise(v, ev))
}

/// A whole run: the events arrive one at a time, each fully drained before
/// the next.
pub open spec fn spec_run(v: SystemView, evs: Seq<Event>) -> (SystemView, Seq<u32>)
    decreases evs.len(),
{
    if evs.len() == 0 {
        (v, Seq::empty())
    } else {
        let first = spec_step(v, evs[0]);
        let rest = spec_run(first.0, evs.skip(1));
        (rest.0, first.1 + rest.1)
    }
}

/// No task is runnable: the state the dispatcher leaves behind, in which
/// the core waits for the next interrupt.
pub open spec fn drained(v: SystemView) -> bool {
    spec_next_task(v) is None
}

/// Nothing pending at all: a drained state with no stale measurement
/// expiry either.
pub open spec fn quiescent(v: SystemView) -> bool {
    &&& !v.buttons.start_pending
    &&& !v.buttons.stop_pending
    &&& !v.tick.pending
    &&& !v.timer.pending
}

} // verus!
