//! System-level laws, proved over the ghost model.
//!
//! Each proof function here states one guarantee of the stopwatch as a
//! whole: how the counter accumulates, what a stop edge reports and
//! resets, that a spurious stop is harmless, that restarting does not
//! lose ticks, that the indicator is independent of the measurement, and
//! that the idle/measuring state machine never leaves its two states.

use vstd::prelude::*;
use crate::priority::Task;
use crate::tasks::TickSource;
use crate::timer::{MeasurementTimer, MEASUREMENT_PERIOD_US};
use crate::model::{
    Event, SystemView, spec_raise, spec_runnable, spec_next_task, spec_service,
    spec_service_accumulator, spec_service_tick, spec_drain, spec_step, spec_run,
    edges_pending, accumulator_runnable_count, drained, quiescent,
};

verus! {

/// Monotone accumulation: while a measurement is in progress and nothing
/// else is pending, a run of measurement-expiry events increases the
/// counter by exactly one per serviced event — in particular the counter
/// never decreases — and nothing is reported.
pub proof fn lemma_ticks_accumulate(v: SystemView, evs: Seq<Event>)
    requires
        quiescent(v),
        v.timer.armed(),
        forall|i: int| 0 <= i < evs.len() ==> evs[i] is MeasurementExpiry,
        v.counter + evs.len() <= u32::MAX,
    ensures
        spec_run(v, evs).0 == (SystemView { counter: (v.counter + evs.len()) as u32, ..v }),
        spec_run(v, evs).0.counter >= v.counter,
        spec_run(v, evs).1 == Seq::<u32>::empty(),
    decreases evs.len(),
{
    if evs.len() == 0 {
        assert(spec_run(v, evs).0 =~= (SystemView { counter: (v.counter + evs.len()) as u32, ..v }));
    } else {
        let ev = evs[0];
        assert(ev is MeasurementExpiry);
        let raised = spec_raise(v, ev);
        let after = spec_service_accumulator(raised);
        assert(spec_next_task(raised) == Some(Task::Accumulator));
        assert(spec_next_task(after) is None);
        assert(spec_drain(after).0 == after);
        assert(spec_drain(raised).0 == after);
        assert(spec_drain(raised).1 =~= Seq::<u32>::empty());
        assert(quiescent(after) && after.timer.armed());
        assert(after.counter == v.counter + 1);
        assert forall|i: int| 0 <= i < evs.skip(1).len() implies evs.skip(1)[i] is MeasurementExpiry by {
            assert(evs.skip(1)[i] == evs[i + 1]);
        }
        lemma_ticks_accumulate(after, evs.skip(1));
        assert(spec_run(v, evs).0 == spec_run(after, evs.skip(1)).0);
        assert((SystemView { counter: (after.counter + evs.skip(1).len()) as u32, ..after })
            =~= (SystemView { counter: (v.counter + evs.len()) as u32, ..v }));
        assert(spec_run(v, evs).1 =~= Seq::<u32>::empty());
    }
}

/// Reset on stop: a stop edge reports exactly the ticks accumulated at
/// the moment of the stop, resets the counter to zero, disarms the timer,
/// and touches nothing else.
pub proof fn lemma_stop_reports_and_resets(v: SystemView)
    requires
        drained(v),
    ensures
        spec_step(v, Event::StopEdge).1 == seq![v.counter],
        spec_step(v, Event::StopEdge).0 == (SystemView {
            timer: (MeasurementTimer { listening: false, ..v.timer }),
            counter: 0,
            ..v
        }),
        !spec_step(v, Event::StopEdge).0.timer.armed(),
{
    let raised = spec_raise(v, Event::StopEdge);
    assert(spec_next_task(raised) == Some(Task::Button));
    let serviced = spec_service(raised, Task::Button);
    assert(spec_next_task(serviced.0) is None);
    assert(spec_drain(serviced.0).0 == serviced.0);
    assert(spec_drain(raised).1 =~= seq![v.counter]);
    assert(spec_step(v, Event::StopEdge).0 =~= (SystemView {
        timer: (MeasurementTimer { listening: false, ..v.timer }),
        counter: 0,
        ..v
    }));
}

/// Idle no-op: a stop edge while the timer is already disarmed and the
/// counter already zero reports zero ticks and leaves the state exactly
/// as it was.
pub proof fn lemma_idle_stop_noop(v: SystemView)
    requires
        drained(v),
        !v.timer.armed(),
        v.counter == 0,
    ensures
        spec_step(v, Event::StopEdge).0 == v,
        spec_step(v, Event::StopEdge).1 == seq![0u32],
{
    lemma_stop_reports_and_resets(v);
    assert(spec_step(v, Event::StopEdge).0 =~= v);
}

/// Start idempotence: a second start edge with no intervening stop
/// re-arms the timer with the same period — restarting its phase — and
/// the system stands exactly where the first start left it; in particular
/// the counter is never reset by a start.
pub proof fn lemma_start_idempotent(v: SystemView)
    requires
        quiescent(v),
    ensures
        ({
            let once = spec_step(v, Event::StartEdge);
            let twice = spec_step(once.0, Event::StartEdge);
            &&& twice.0 == once.0
            &&& once.0.counter == v.counter
            &&& once.0.timer.armed()
            &&& once.0.timer.period_us == MEASUREMENT_PERIOD_US
            &&& once.1 == Seq::<u32>::empty()
            &&& twice.1 == Seq::<u32>::empty()
        }),
{
    let raised = spec_raise(v, Event::StartEdge);
    assert(spec_next_task(raised) == Some(Task::Button));
    let serviced = spec_service(raised, Task::Button);
    assert(spec_next_task(serviced.0) is None);
    assert(spec_drain(serviced.0).0 == serviced.0);
    assert(spec_step(v, Event::StartEdge).1 =~= Seq::<u32>::empty());
    let once = spec_step(v, Event::StartEdge).0;
    let raised2 = spec_raise(once, Event::StartEdge);
    assert(spec_next_task(raised2) == Some(Task::Button));
    let serviced2 = spec_service(raised2, Task::Button);
    assert(spec_next_task(serviced2.0) is None);
    assert(spec_drain(serviced2.0).0 == serviced2.0);
    assert(spec_step(once, Event::StartEdge).1 =~= Seq::<u32>::empty());
    assert(spec_step(once, Event::StartEdge).0 =~= once);
}

/// Indicator independence: a run of tick-source expiries toggles the
/// indicator exactly once per serviced event — whether or not a
/// measurement is in progress — and leaves the buttons, the measurement
/// timer and the counter untouched, reporting nothing.
pub proof fn lemma_indicator_independent(v: SystemView, evs: Seq<Event>)
    requires
        quiescent(v),
        forall|i: int| 0 <= i < evs.len() ==> evs[i] is TickExpiry,
    ensures
        spec_run(v, evs).0 == (SystemView {
            tick: (TickSource {
                pending: false,
                indicator_on: if evs.len() % 2 == 0 { v.tick.indicator_on } else { !v.tick.indicator_on },
            }),
            ..v
        }),
        spec_run(v, evs).1 == Seq::<u32>::empty(),
    decreases evs.len(),
{
    if evs.len() == 0 {
        assert(spec_run(v, evs).0 =~= (SystemView {
            tick: (TickSource { pending: false, indicator_on: v.tick.indicator_on }),
            ..v
        }));
    } else {
        let ev = evs[0];
        assert(ev is TickExpiry);
        let raised = spec_raise(v, ev);
        let after = spec_service_tick(raised);
        assert(spec_next_task(raised) == Some(Task::Tick));
        assert(spec_next_task(after) is None);
        assert(spec_drain(after).0 == after);
        assert(spec_drain(raised).0 == after);
        assert(spec_drain(raised).1 =~= Seq::<u32>::empty());
        assert(quiescent(after));
        assert(after.tick.indicator_on == !v.tick.indicator_on);
        assert forall|i: int| 0 <= i < evs.skip(1).len() implies evs.skip(1)[i] is TickExpiry by {
            assert(evs.skip(1)[i] == evs[i + 1]);
        }
        lemma_indicator_independent(after, evs.skip(1));
        assert(spec_run(v, evs).0 == spec_run(after, evs.skip(1)).0);
        assert((SystemView {
            tick: (TickSource {
                pending: false,
                indicator_on: if evs.skip(1).len() % 2 == 0 { after.tick.indicator_on } else { !after.tick.indicator_on },
            }),
            ..after
        }) =~= (SystemView {
            tick: (TickSource {
                pending: false,
                indicator_on: if evs.len() % 2 == 0 { v.tick.indicator_on } else { !v.tick.indicator_on },
            }),
            ..v
        }));
        assert(spec_run(v, evs).1 =~= Seq::<u32>::empty());
    }
}

/// Start precedence: when both lines are pending, one invocation of the
/// button handler services the start line only, arming the timer; the
/// stop line stays pending for a second invocation, and nothing is
/// reported yet.
pub proof fn lemma_start_precedence(v: SystemView)
    requires
        v.buttons.start_pending,
        v.buttons.stop_pending,
    ensures
        !spec_service(v, Task::Button).0.buttons.start_pending,
        spec_service(v, Task::Button).0.buttons.stop_pending,
        spec_service(v, Task::Button).0.timer.armed(),
        spec_service(v, Task::Button).0.counter == v.counter,
        spec_service(v, Task::Button).1 is None,
{
}

/// Simultaneous edges: when a start and a stop edge are both pending, the
/// dispatcher services the start first and schedules a second invocation
/// for the stop, so one drain arms the timer and then stops it again,
/// reporting the counter as it stood and leaving the system idle.
pub proof fn lemma_simultaneous_edges(v: SystemView)
    requires
        quiescent(v),
    ensures
        ({
            let both = spec_raise(spec_raise(v, Event::StartEdge), Event::StopEdge);
            &&& spec_drain(both).1 == seq![v.counter]
            &&& spec_drain(both).0.counter == 0
            &&& !spec_drain(both).0.timer.armed()
            &&& spec_drain(both).0.timer.started
        }),
{
    let both = spec_raise(spec_raise(v, Event::StartEdge), Event::StopEdge);
    assert(spec_next_task(both) == Some(Task::Button));
    let first = spec_service(both, Task::Button);
    assert(first.1 is None);
    assert(spec_next_task(first.0) == Some(Task::Button));
    let second = spec_service(first.0, Task::Button);
    assert(second.1 == Some(v.counter));
    assert(spec_next_task(second.0) is None);
    assert(spec_drain(second.0).0 == second.0);
    assert(spec_drain(first.0).1 =~= seq![v.counter]);
    assert(spec_drain(both).1 =~= seq![v.counter]);
}

/// The two-state machine: the system is either idle — timer disarmed and
/// counter zero — or measuring, with the timer armed. Put otherwise, a
/// disarmed system always shows a zero counter.
pub open spec fn state_machine_inv(v: SystemView) -> bool {
    !v.timer.armed() ==> v.counter == 0
}

/// Every single service of a runnable task preserves the two-state
/// machine. Runnability matters: the accumulator is only ever dispatched
/// while the timer is armed, which is the measuring state.
pub proof fn lemma_service_preserves_state_machine(v: SystemView, t: Task)
    requires
        state_machine_inv(v),
        spec_runnable(v, t),
    ensures
        state_machine_inv(spec_service(v, t).0),
{
}

/// Draining the pending work preserves the two-state machine.
pub proof fn lemma_drain_preserves_state_machine(v: SystemView)
    requires
        state_machine_inv(v),
    ensures
        state_machine_inv(spec_drain(v).0),
    decreases edges_pending(v), accumulator_runnable_count(v),
{
    match spec_next_task(v) {
        None => {},
        Some(t) => {
            lemma_service_preserves_state_machine(v, t);
            lemma_drain_preserves_state_machine(spec_service(v, t).0);
        },
    }
}

/// No step of the system — any event, fully drained — ever leaves the two
/// states.
pub proof fn lemma_step_preserves_state_machine(v: SystemView, ev: Event)
    requires
        state_machine_inv(v),
    ensures
        state_machine_inv(spec_step(v, ev).0),
{
    lemma_drain_preserves_state_machine(spec_raise(v, ev));
}

/// A whole run of events — whatever they are and in whatever order — keeps
/// the system inside the two states of the machine.
pub proof fn lemma_run_preserves_state_machine(v: SystemView, evs: Seq<Event>)
    requires
        state_machine_inv(v),
    ensures
        state_machine_inv(spec_run(v, evs).0),
    decreases evs.len(),
{
    if evs.len() > 0 {
        lemma_step_preserves_state_machine(v, evs[0]);
        lemma_run_preserves_state_machine(spec_step(v, evs[0]).0, evs.skip(1));
    }
}

} // verus!
