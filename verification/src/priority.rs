//! Priority/group engine: decides which slots are eligible for presentation
//! to the guest under the virtual machine control shadow, selects the
//! highest-priority eligible slot, and maintains the active-priority word
//! that records which preemption levels currently hold an active interrupt.

use vstd::prelude::*;
use crate::interrupt::{is_active_state, is_pending_state, InterruptGroup, VirtualInterrupt};
use crate::regs::{vmcr_group0_enabled, vmcr_group1_enabled, vmcr_priority_mask};

verus! {

/// Sets the bit of one preemption level in the active-priority word. The
/// five implemented priority bits give 32 levels, which one accumulator
/// word holds; only the first active-priority register is implemented.
pub open spec fn apr_record(apr: u32, p: u8) -> u32 {
    apr | (1u32 << (p as u32))
}

/// Clears the bit of one preemption level in the active-priority word.
pub open spec fn apr_release(apr: u32, p: u8) -> u32 {
    apr & !(1u32 << (p as u32))
}

/// The active-priority word after a slot changes: leaving an active state
/// releases the old priority level, entering one records the new level.
pub open spec fn apr_transition(apr: u32, old_vi: VirtualInterrupt, new_vi: VirtualInterrupt) -> u32 {
    let released = if is_active_state(old_vi.state) {
        apr_release(apr, old_vi.priority)
    } else {
        apr
    };
    if is_active_state(new_vi.state) {
        apr_record(released, new_vi.priority)
    } else {
        released
    }
}

/// Applies a slot transition to the active-priority word.
pub fn apply_apr_transition(apr: u32, old_vi: &VirtualInterrupt, new_vi: &VirtualInterrupt) -> (r:
    u32)
    requires
        old_vi.wf(),
        new_vi.wf(),
    ensures
        r == apr_transition(apr, *old_vi, *new_vi),
{
    let released: u32 = if matches!(old_vi.state, crate::interrupt::InterruptState::Active
        | crate::interrupt::InterruptState::ActiveAndPending) {
        apr & !(1u32 << (old_vi.priority as u32))
    } else {
        apr
    };
    if matches!(new_vi.state, crate::interrupt::InterruptState::Active
        | crate::interrupt::InterruptState::ActiveAndPending) {
        released | (1u32 << (new_vi.priority as u32))
    } else {
        released
    }
}

/// Whether presentation of a slot's group is enabled by the virtual machine
/// control shadow.
pub open spec fn group_enabled(vmcr: u32, g: InterruptGroup) -> bool {
    match g {
        InterruptGroup::Group0 => vmcr_group0_enabled(vmcr),
        InterruptGroup::Group1 => vmcr_group1_enabled(vmcr),
    }
}

/// A slot is eligible for presentation when its group is enabled, its
/// priority is higher (numerically lower) than the priority mask, and it is
/// in a pending state. The five implemented priority bits occupy the top of
/// the eight-bit priority space the mask lives in.
pub open spec fn eligible(vmcr: u32, vi: VirtualInterrupt) -> bool {
    group_enabled(vmcr, vi.group) && ((vi.priority as u32) << 3) < vmcr_priority_mask(vmcr)
        && is_pending_state(vi.state)
}

/// `r` is the slot the engine presents first: eligible, of the lowest
/// numeric priority value, and of the lowest index among equal priorities.
pub open spec fn is_best_eligible(vmcr: u32, s: Seq<VirtualInterrupt>, r: int) -> bool {
    &&& 0 <= r < s.len()
    &&& eligible(vmcr, s[r])
    &&& forall|i: int|
        0 <= i < s.len() && eligible(vmcr, s[i]) ==> (s[r].priority < s[i].priority || (
        s[r].priority == s[i].priority && r <= i))
}

/// Whether a slot's group presentation is enabled.
pub fn group_enabled_exec(vmcr: u32, g: InterruptGroup) -> (r: bool)
    ensures
        r == group_enabled(vmcr, g),
{
    match g {
        InterruptGroup::Group0 => (vmcr >> 0u32) & 1 == 1,
        InterruptGroup::Group1 => (vmcr >> 1u32) & 1 == 1,
    }
}

/// Whether a slot is eligible for presentation.
pub fn eligible_exec(vmcr: u32, vi: &VirtualInterrupt) -> (r: bool)
    requires
        vi.wf(),
    ensures
        r == eligible(vmcr, *vi),
{
    group_enabled_exec(vmcr, vi.group) && ((vi.priority as u32) << 3u32) < (vmcr >> 24u32)
        && matches!(vi.state, crate::interrupt::InterruptState::Pending
        | crate::interrupt::InterruptState::ActiveAndPending)
}

/// Finds the highest-priority eligible slot, if any: the lowest numeric
/// priority value wins and ties break towards the lowest slot index.
pub fn find_highest_eligible(vmcr: u32, lrs: &Vec<VirtualInterrupt>) -> (r: Option<usize>)
    requires
        forall|i: int| 0 <= i < lrs@.len() ==> lrs@[i].wf(),
    ensures
        r matches Some(idx) ==> is_best_eligible(vmcr, lrs@, idx as int),
        r is None ==> forall|i: int| 0 <= i < lrs@.len() ==> !eligible(vmcr, lrs@[i]),
{
    let mut best: Option<usize> = None;
    let mut i: usize = 0;
    while i < lrs.len()
        invariant
            0 <= i <= lrs@.len(),
            forall|k: int| 0 <= k < lrs@.len() ==> lrs@[k].wf(),
            best matches Some(b) ==> 0 <= b < i && eligible(vmcr, lrs@[b as int]),
            best matches Some(b) ==> forall|k: int|
                0 <= k < i && eligible(vmcr, lrs@[k]) ==> (lrs@[b as int].priority
                    < lrs@[k].priority || (lrs@[b as int].priority == lrs@[k].priority && b <= k)),
            best is None ==> forall|k: int| 0 <= k < i ==> !eligible(vmcr, lrs@[k]),
        decreases lrs@.len() - i,
    {
        if eligible_exec(vmcr, &lrs[i]) {
            match best {
                None => {
                    best = Some(i);
                },
                Some(b) => {
                    if lrs[i].priority < lrs[b].priority {
                        best = Some(i);
                    }
                },
            }
        }
        i = i + 1;
    }
    best
}

} // verus!
