//! Maintenance status engine: derives the empty-list bitmap, the slot
//! counts and the maintenance interrupt summary from the list-register
//! file, the stored end-of-interrupt status bits and the enable bits of the
//! hypervisor control register. All results are recomputed on demand from
//! the current state; nothing here is cached.

use vstd::prelude::*;
use crate::interrupt::{is_active_state, is_pending_state, InterruptState, VirtualInterrupt};
use crate::regs::{
    hcr_lrenpie, hcr_npie, hcr_uie, hcr_vgrp0die, hcr_vgrp0eie, hcr_vgrp1die, hcr_vgrp1eie,
    vmcr_group0_enabled, vmcr_group1_enabled,
};

verus! {

/// How many of the first `n` slots hold a valid (non-inactive) interrupt.
pub open spec fn count_valid_up_to(s: Seq<VirtualInterrupt>, n: int) -> int
    decreases n,
{
    if n <= 0 {
        0
    } else {
        count_valid_up_to(s, n - 1) + (if s[n - 1].state != InterruptState::Inactive {
            1int
        } else {
            0int
        })
    }
}

/// How many slots hold a valid (non-inactive) interrupt.
pub open spec fn count_valid(s: Seq<VirtualInterrupt>) -> int {
    count_valid_up_to(s, s.len() as int)
}

/// How many of the first `n` slots are in an active state.
pub open spec fn count_active_up_to(s: Seq<VirtualInterrupt>, n: int) -> int
    decreases n,
{
    if n <= 0 {
        0
    } else {
        count_active_up_to(s, n - 1) + (if is_active_state(s[n - 1].state) {
            1int
        } else {
            0int
        })
    }
}

/// How many slots are in an active state.
pub open spec fn count_active(s: Seq<VirtualInterrupt>) -> int {
    count_active_up_to(s, s.len() as int)
}

/// Whether some slot is in a pending state.
pub open spec fn has_pending(s: Seq<VirtualInterrupt>) -> bool {
    exists|i: int| 0 <= i < s.len() && is_pending_state(s[i].state)
}

/// The empty-list bitmap over the first `n` slots: bit `i` is set when
/// slot `i` is inactive.
pub open spec fn elrsr_up_to(s: Seq<VirtualInterrupt>, n: int) -> u32
    decreases n,
{
    if n <= 0 {
        0
    } else {
        elrsr_up_to(s, n - 1) | (if s[n - 1].state == InterruptState::Inactive {
            1u32 << ((n - 1) as u32)
        } else {
            0u32
        })
    }
}

/// The empty-list status value: one bit per implemented slot not holding a
/// valid interrupt; bits of unimplemented slots read as zero.
pub open spec fn spec_elrsr(s: Seq<VirtualInterrupt>) -> u32 {
    elrsr_up_to(s, s.len() as int)
}

/// The maintenance interrupt status value. Each condition is gated by its
/// enable bit in the hypervisor control register:
/// bit 0: some end-of-interrupt status bit is outstanding (no gate);
/// bit 1: underflow, at most one slot still holds a valid interrupt;
/// bit 2: an interrupt awaits presentation but no free slot exists;
/// bit 3: no slot is in a pending state;
/// bits 4 and 5: group 0 presentation is enabled resp. disabled;
/// bits 6 and 7: group 1 presentation is enabled resp. disabled.
pub open spec fn spec_misr(
    hcr: u32,
    vmcr: u32,
    eisr: u32,
    pending_without_slot: bool,
    s: Seq<VirtualInterrupt>,
) -> u32 {
    (if eisr != 0 {
        0x01u32
    } else {
        0u32
    }) | (if hcr_uie(hcr) && count_valid(s) <= 1 {
        0x02u32
    } else {
        0u32
    }) | (if hcr_lrenpie(hcr) && pending_without_slot {
        0x04u32
    } else {
        0u32
    }) | (if hcr_npie(hcr) && !has_pending(s) {
        0x08u32
    } else {
        0u32
    }) | (if hcr_vgrp0eie(hcr) && vmcr_group0_enabled(vmcr) {
        0x10u32
    } else {
        0u32
    }) | (if hcr_vgrp0die(hcr) && !vmcr_group0_enabled(vmcr) {
        0x20u32
    } else {
        0u32
    }) | (if hcr_vgrp1eie(hcr) && vmcr_group1_enabled(vmcr) {
        0x40u32
    } else {
        0u32
    }) | (if hcr_vgrp1die(hcr) && !vmcr_group1_enabled(vmcr) {
        0x80u32
    } else {
        0u32
    })
}

/// Counts the slots holding a valid (non-inactive) interrupt.
pub fn count_valid_slots(lrs: &Vec<VirtualInterrupt>) -> (n: usize)
    ensures
        n == count_valid(lrs@),
        n <= lrs@.len(),
{
    let mut n: usize = 0;
    let mut i: usize = 0;
    while i < lrs.len()
        invariant
            0 <= i <= lrs@.len(),
            n == count_valid_up_to(lrs@, i as int),
            n <= i,
        decreases lrs@.len() - i,
    {
        if !matches!(lrs[i].state, InterruptState::Inactive) {
            n = n + 1;
        }
        i = i + 1;
    }
    n
}

/// Whether some slot is in a pending state.
pub fn any_pending(lrs: &Vec<VirtualInterrupt>) -> (r: bool)
    ensures
        r == has_pending(lrs@),
{
    let mut i: usize = 0;
    while i < lrs.len()
        invariant
            0 <= i <= lrs@.len(),
            forall|j: int| 0 <= j < i ==> !is_pending_state(lrs@[j].state),
        decreases lrs@.len() - i,
    {
        if matches!(lrs[i].state, InterruptState::Pending | InterruptState::ActiveAndPending) {
            assert(is_pending_state(lrs@[i as int].state));
            return true;
        }
        i = i + 1;
    }
    false
}

/// Computes the empty-list status value.
pub fn compute_elrsr(lrs: &Vec<VirtualInterrupt>) -> (r: u32)
    requires
        lrs@.len() <= 16,
    ensures
        r == spec_elrsr(lrs@),
{
    let mut r: u32 = 0;
    let mut i: usize = 0;
    while i < lrs.len()
        invariant
            0 <= i <= lrs@.len() <= 16,
            r == elrsr_up_to(lrs@, i as int),
        decreases lrs@.len() - i,
    {
        if matches!(lrs[i].state, InterruptState::Inactive) {
            r = r | (1u32 << (i as u32));
        } else {
            proof {
                assert(r | 0u32 == r) by (bit_vector);
            }
        }
        i = i + 1;
    }
    r
}

/// Computes the maintenance interrupt status value.
pub fn compute_misr(
    hcr: u32,
    vmcr: u32,
    eisr: u32,
    pending_without_slot: bool,
    lrs: &Vec<VirtualInterrupt>,
) -> (r: u32)
    ensures
        r == spec_misr(hcr, vmcr, eisr, pending_without_slot, lrs@),
{
    let valid: usize = count_valid_slots(lrs);
    let pending: bool = any_pending(lrs);
    let grp0: bool = (vmcr >> 0u32) & 1 == 1;
    let grp1: bool = (vmcr >> 1u32) & 1 == 1;
    let t0: u32 = if eisr != 0 {
        0x01
    } else {
        0
    };
    let t1: u32 = if (hcr >> 1u32) & 1 == 1 && valid <= 1 {
        0x02
    } else {
        0
    };
    let t2: u32 = if (hcr >> 2u32) & 1 == 1 && pending_without_slot {
        0x04
    } else {
        0
    };
    let t3: u32 = if (hcr >> 3u32) & 1 == 1 && !pending {
        0x08
    } else {
        0
    };
    let t4: u32 = if (hcr >> 4u32) & 1 == 1 && grp0 {
        0x10
    } else {
        0
    };
    let t5: u32 = if (hcr >> 5u32) & 1 == 1 && !grp0 {
        0x20
    } else {
        0
    };
    let t6: u32 = if (hcr >> 6u32) & 1 == 1 && grp1 {
        0x40
    } else {
        0
    };
    let t7: u32 = if (hcr >> 7u32) & 1 == 1 && !grp1 {
        0x80
    } else {
        0
    };
    t0 | t1 | t2 | t3 | t4 | t5 | t6 | t7
}

/// The count of valid slots never exceeds the slot count; likewise for the
/// count of active slots.
pub proof fn lemma_counts_bounded(s: Seq<VirtualInterrupt>, n: int)
    requires
        0 <= n <= s.len(),
    ensures
        0 <= count_valid_up_to(s, n) <= n,
        0 <= count_active_up_to(s, n) <= n,
    decreases n,
{
    if n > 0 {
        lemma_counts_bounded(s, n - 1);
    }
}

/// An active slot is a valid slot, so the active count never exceeds the
/// valid count.
pub proof fn lemma_active_le_valid(s: Seq<VirtualInterrupt>, n: int)
    requires
        0 <= n <= s.len(),
    ensures
        count_active_up_to(s, n) <= count_valid_up_to(s, n),
    decreases n,
{
    if n > 0 {
        lemma_active_le_valid(s, n - 1);
    }
}

/// Slot sequences whose states agree slot by slot have the same derived
/// maintenance values.
pub proof fn lemma_status_depends_on_states(s1: Seq<VirtualInterrupt>, s2: Seq<VirtualInterrupt>, n: int)
    requires
        s1.len() == s2.len(),
        forall|k: int| 0 <= k < s1.len() ==> s1[k].state == s2[k].state,
        0 <= n <= s1.len(),
    ensures
        count_valid_up_to(s1, n) == count_valid_up_to(s2, n),
        count_active_up_to(s1, n) == count_active_up_to(s2, n),
        elrsr_up_to(s1, n) == elrsr_up_to(s2, n),
        has_pending(s1) == has_pending(s2),
    decreases n,
{
    if n > 0 {
        lemma_status_depends_on_states(s1, s2, n - 1);
    }
    assert(has_pending(s1) == has_pending(s2)) by {
        if has_pending(s1) {
            let i = choose|i: int| 0 <= i < s1.len() && is_pending_state(s1[i].state);
            assert(is_pending_state(s2[i].state));
        }
        if has_pending(s2) {
            let i = choose|i: int| 0 <= i < s2.len() && is_pending_state(s2[i].state);
            assert(is_pending_state(s1[i].state));
        }
    }
}

} // verus!
