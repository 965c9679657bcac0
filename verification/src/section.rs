//! The priority-ceiling critical-section primitive.
//!
//! On the single core, a task never blocks to acquire a shared item: it
//! raises the effective priority of the core to the item's ceiling instead.
//! No task that may access the same item has a priority above that ceiling,
//! so none of them can preempt while the section is open, and the access is
//! exclusive by construction. The guard returned on entry is the only way
//! out of a section, and restores the priority that was in force before, on
//! every exit path.

use vstd::prelude::*;
use crate::priority::{Task, SharedItem, spec_ceiling, spec_task_priority, ceiling, may_access};

verus! {

/// The execution level of the single core: the static priority of the task
/// it is running, and the effective priority, which a critical section
/// raises to the ceiling of the item it protects.
#[derive(Clone, Copy, PartialEq, Eq, Structural, Debug)]
pub struct Core {
    /// Priority of the task currently dispatched.
    pub base: u8,
    /// Priority the core acts at; equals `base` outside critical sections.
    pub effective: u8,
}

impl Core {
    /// The effective priority never drops below the running task's own.
    pub open spec fn wf(self) -> bool {
        self.base <= self.effective
    }

    /// Whether a newly pending task would preempt the core as it stands:
    /// only a strictly higher priority gets in.
    pub open spec fn can_preempt(self, t: Task) -> bool {
        spec_task_priority(t) > self.effective
    }

    /// The level of the core at the moment a task of priority `p` is
    /// dispatched: no section is open, so the effective priority is `p`.
    pub fn at_priority(p: u8) -> (core: Core)
        ensures
            core.base == p,
            core.effective == p,
            core.wf(),
    {
        Core { base: p, effective: p }
    }
}

/// Proof of an open critical section on one shared item. Constructed only
/// by [`enter_section`], consumed only by [`exit_section`], so a shared
/// access that demands a guard can only happen between the two.
pub struct SectionGuard {
    item: SharedItem,
    saved: u8,
}

impl SectionGuard {
    /// The shared item this section protects.
    pub closed spec fn item(self) -> SharedItem {
        self.item
    }

    /// The effective priority in force when the section was entered, to be
    /// restored on exit.
    pub closed spec fn saved(self) -> u8 {
        self.saved
    }
}

/// Opens a critical section on a shared item: raises the effective priority
/// of the core to the item's ceiling and hands back the guard that will
/// restore it. Entry never blocks and never waits.
pub fn enter_section(core: &mut Core, item: SharedItem) -> (g: SectionGuard)
    requires
        old(core).wf(),
        old(core).effective <= spec_ceiling(item),
    ensures
        final(core).base == old(core).base,
        final(core).effective == spec_ceiling(item),
        final(core).wf(),
        g.item() == item,
        g.saved() == old(core).effective,
{
    let c = ceiling(item);
    let g = SectionGuard { item, saved: core.effective };
    core.effective = c;
    g
}

/// Closes a critical section: restores the effective priority that was in
/// force when the matching [`enter_section`] ran.
pub fn exit_section(core: &mut Core, g: SectionGuard)
    requires
        old(core).base <= g.saved(),
    ensures
        final(core).base == old(core).base,
        final(core).effective == g.saved(),
        final(core).wf(),
{
    core.effective = g.saved;
}

/// Mutual exclusion by priority ceiling: while the core holds a section on
/// a shared item (its effective priority is at or above the item's
/// ceiling), no task that may access that item can preempt, so the access
/// inside the section is exclusive.
pub proof fn lemma_ceiling_excludes_accessors(core: Core, t: Task, item: SharedItem)
    requires
        may_access(t, item),
        spec_ceiling(item) <= core.effective,
    ensures
        !core.can_preempt(t),
{
    crate::priority::lemma_ceiling_bounds_accessors(t, item);
}

} // verus!
