//! Static priorities of the handler tasks and priority ceilings of the
//! shared items.
//!
//! Each task is bound to one interrupt source and carries an immutable
//! priority fixed at build time. Button handling preempts everything so a
//! press is never delayed; the indicator tick sits in the middle so visual
//! feedback is never starved by the high-frequency accumulator; the
//! accumulator runs lowest. The ceiling of a shared item is the highest
//! priority among the tasks that may touch it, which is what the critical
//! sections in `section` raise the core to.

use vstd::prelude::*;

verus! {

/// The three interrupt-driven handler tasks.
#[derive(Clone, Copy, PartialEq, Eq, Structural, Debug)]
pub enum Task {
    /// Services the start and stop button edges.
    Button,
    /// Toggles the status indicator on the fixed one-second cadence.
    Tick,
    /// Counts one elapsed tick per measurement-timer expiry.
    Accumulator,
}

/// The two items of shared state, each protected by its own ceiling.
#[derive(Clone, Copy, PartialEq, Eq, Structural, Debug)]
pub enum SharedItem {
    /// The handle that arms and disarms the measurement timer.
    MeasurementTimer,
    /// The elapsed-tick counter.
    ElapsedTicks,
}

/// Priority of the button handler: the highest of the three.
pub const BUTTON_PRIORITY: u8 = 3;
/// Priority of the indicator tick handler.
pub const TICK_PRIORITY: u8 = 2;
/// Priority of the measurement accumulator: the lowest of the three.
pub const ACCUMULATOR_PRIORITY: u8 = 1;

/// The static priority bound to each task; higher numbers preempt lower.
pub open spec fn spec_task_priority(t: Task) -> u8 {
    match t {
        Task::Button => BUTTON_PRIORITY,
        Task::Tick => TICK_PRIORITY,
        Task::Accumulator => ACCUMULATOR_PRIORITY,
    }
}

/// Looks up the static priority of a task.
pub fn task_priority(t: Task) -> (p: u8)
    ensures
        p == spec_task_priority(t),
{
    match t {
        Task::Button => BUTTON_PRIORITY,
        Task::Tick => TICK_PRIORITY,
        Task::Accumulator => ACCUMULATOR_PRIORITY,
    }
}

/// Which tasks may enter a critical section on which shared item. The
/// button handler arms, disarms and reads out; the accumulator clears the
/// timer's pending flag and increments the counter; the tick handler
/// touches no shared state at all.
pub open spec fn may_access(t: Task, item: SharedItem) -> bool {
    match t {
        Task::Button => true,
        Task::Tick => false,
        Task::Accumulator => true,
    }
}

/// The priority ceiling of a shared item: the highest priority of any task
/// that may access it. Both items are accessed by the button handler, so
/// both ceilings sit at its priority.
pub open spec fn spec_ceiling(item: SharedItem) -> u8 {
    match item {
        SharedItem::MeasurementTimer => BUTTON_PRIORITY,
        SharedItem::ElapsedTicks => BUTTON_PRIORITY,
    }
}

/// Looks up the priority ceiling of a shared item.
pub fn ceiling(item: SharedItem) -> (c: u8)
    ensures
        c == spec_ceiling(item),
{
    match item {
        SharedItem::MeasurementTimer => BUTTON_PRIORITY,
        SharedItem::ElapsedTicks => BUTTON_PRIORITY,
    }
}

/// The ceiling of a shared item bounds the priority of every task that may
/// access it; raising the core to the ceiling therefore shuts out every
/// competing accessor.
pub proof fn lemma_ceiling_bounds_accessors(t: Task, item: SharedItem)
    requires
        may_access(t, item),
    ensures
        spec_task_priority(t) <= spec_ceiling(item),
{
}

/// Distinct tasks carry distinct priorities, so the choice of the
/// highest-priority pending task is always unambiguous.
pub proof fn lemma_priorities_distinct(t1: Task, t2: Task)
    requires
        t1 != t2,
    ensures
        spec_task_priority(t1) != spec_task_priority(t2),
{
}

} // verus!
