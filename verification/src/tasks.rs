//! The three handler tasks: button servicing, indicator tick, and
//! measurement accumulation.
//!
//! Each handler is dispatched at its static priority and runs to
//! completion. Every access to the shared store happens inside a
//! priority-ceiling critical section, opened and closed around the single
//! operation it protects, and each handler restores the core to the level
//! it was dispatched at on every path.

use vstd::prelude::*;
use crate::priority::{SharedItem, BUTTON_PRIORITY, ACCUMULATOR_PRIORITY};
use crate::section::{Core, enter_section, exit_section};
use crate::shared::SharedStore;
use crate::timer::{MeasurementTimer, MEASUREMENT_PERIOD_US};

verus! {

/// The two edge-triggered button lines, local to the button handler. Each
/// line latches a pending flag on a rising edge, which the handler must
/// clear when it services the line.
#[derive(Clone, Copy, PartialEq, Eq, Structural, Debug)]
pub struct ButtonLines {
    /// Pending flag of the start line.
    pub start_pending: bool,
    /// Pending flag of the stop line.
    pub stop_pending: bool,
}

impl ButtonLines {
    /// Both lines quiet, as at power-up.
    pub fn new() -> (b: ButtonLines)
        ensures
            b == (ButtonLines { start_pending: false, stop_pending: false }),
    {
        ButtonLines { start_pending: false, stop_pending: false }
    }
}

/// The fixed one-second tick source and the status indicator it drives,
/// both local to the tick handler. The indicator is toggled, never set, so
/// its phase is independent of everything else.
#[derive(Clone, Copy, PartialEq, Eq, Structural, Debug)]
pub struct TickSource {
    /// Pending flag of the tick source's expiry interrupt.
    pub pending: bool,
    /// Current level of the status indicator.
    pub indicator_on: bool,
}

impl TickSource {
    /// Tick source quiet, indicator dark, as at power-up.
    pub fn new() -> (t: TickSource)
        ensures
            t == (TickSource { pending: false, indicator_on: false }),
    {
        TickSource { pending: false, indicator_on: false }
    }
}

/// Services one button edge. Start takes precedence: when both lines are
/// pending, one invocation services only the start line, and the stop line
/// stays pending for the next invocation.
///
/// On a start edge the handler arms the measurement timer — restarting the
/// period even if it was already armed — and leaves the counter alone. On
/// a stop edge it disarms the timer, then in a second critical section
/// reads the counter out, resets it to zero, and returns the reading so the
/// elapsed time can be reported. A spurious invocation with neither line
/// pending changes nothing.
pub fn button_click(core: &mut Core, buttons: &mut ButtonLines, store: &mut SharedStore)
    -> (report: Option<u32>)
    requires
        old(core).base == BUTTON_PRIORITY,
        old(core).effective == BUTTON_PRIORITY,
    ensures
        *final(core) == *old(core),
        old(buttons).start_pending ==> {
            &&& *final(buttons) == (ButtonLines { start_pending: false, ..*old(buttons) })
            &&& final(store).timer() == (MeasurementTimer {
                period_us: MEASUREMENT_PERIOD_US,
                started: true,
                listening: true,
                ..old(store).timer()
            })
            &&& final(store).counter() == old(store).counter()
            &&& report is None
        },
        !old(buttons).start_pending && old(buttons).stop_pending ==> {
            &&& *final(buttons) == (ButtonLines { stop_pending: false, ..*old(buttons) })
            &&& final(store).timer() == (MeasurementTimer {
                listening: false,
                ..old(store).timer()
            })
            &&& final(store).counter() == 0
            &&& report == Some(old(store).counter())
        },
        !old(buttons).start_pending && !old(buttons).stop_pending ==> {
            &&& *final(buttons) == *old(buttons)
            &&& *final(store) == *old(store)
            &&& report is None
        },
{
    if buttons.start_pending {
        buttons.start_pending = false;
        let g = enter_section(core, SharedItem::MeasurementTimer);
        store.arm_timer(&g);
        exit_section(core, g);
        None
    } else if buttons.stop_pending {
        buttons.stop_pending = false;
        let g = enter_section(core, SharedItem::MeasurementTimer);
        store.disarm_timer(&g);
        exit_section(core, g);
        let g = enter_section(core, SharedItem::ElapsedTicks);
        let ticks = store.read_and_reset_counter(&g);
        exit_section(core, g);
        Some(ticks)
    } else {
        None
    }
}

/// Services one tick-source expiry: acknowledges it and toggles the status
/// indicator. Touches no shared state, so it can never be held up by a
/// critical section of the other tasks.
pub fn tick(source: &mut TickSource)
    ensures
        *final(source) == (TickSource { pending: false, indicator_on: !old(source).indicator_on }),
{
    source.pending = false;
    source.indicator_on = !source.indicator_on;
}

/// Services one measurement-timer expiry: acknowledges it, then counts one
/// elapsed tick. Each access sits in its own critical section kept as
/// short as a single operation, so the time this lowest-priority handler
/// can delay the others stays bounded.
pub fn increase_counter(core: &mut Core, store: &mut SharedStore)
    requires
        old(core).base == ACCUMULATOR_PRIORITY,
        old(core).effective == ACCUMULATOR_PRIORITY,
        old(store).counter() < u32::MAX,
    ensures
        *final(core) == *old(core),
        final(store).timer() == (MeasurementTimer { pending: false, ..old(store).timer() }),
        final(store).counter() == old(store).counter() + 1,
{
    let g = enter_section(core, SharedItem::MeasurementTimer);
    store.acknowledge_timer(&g);
    exit_section(core, g);
    let g = enter_section(core, SharedItem::ElapsedTicks);
    store.increment_counter(&g);
    exit_section(core, g);
}

} // verus!
