//! The block-wide guarantees of the register file, stated and proved over
//! the state model: read-as-zero / write-ignored behaviour of unimplemented
//! slots, the write/read round trip of a slot, the bound on active slots,
//! and the idempotence of an inactive write on the derived maintenance
//! status.

use vstd::prelude::*;
use crate::interrupt::{lemma_encode_decode, InterruptState, VirtualInterrupt, LR_RES0_MASK};
use crate::maintenance::{
    count_active, lemma_counts_bounded, lemma_status_depends_on_states, spec_elrsr, spec_misr,
};
use crate::regs::{APR_OFFSET, LR_OFFSET};
use crate::vgicv3::VgicState;

verus! {

/// Everything the maintenance-status engine derives from one state
/// snapshot: the maintenance interrupt summary, the end-of-interrupt
/// status bits and the empty-list status bits.
pub open spec fn spec_maintenance_status(s: VgicState) -> (u32, u32, u32) {
    (
        spec_misr(s.hcr, s.vmcr, s.eisr, s.pending_without_slot, s.lrs),
        s.eisr,
        spec_elrsr(s.lrs),
    )
}

/// A slot index at or beyond the implemented capacity reads as zero, both
/// as a slot value and through its list-register offset, and a write to it
/// changes nothing.
pub proof fn lemma_unimplemented_slot_raz_wi(s: VgicState, i: int, v: u32)
    requires
        s.wf(),
        s.capacity <= i < 16,
    ensures
        s.lr_value(i) == 0,
        s.read_word((LR_OFFSET + 4 * i) as usize) == 0,
        s.spec_lr_write(i, v) == s,
        s.write_word((LR_OFFSET + 4 * i) as usize, v) == s,
{
    let off = (LR_OFFSET + 4 * i) as usize;
    assert((off - LR_OFFSET) / 4 == i);
}

/// The active-priority words beyond the first are unimplemented (five
/// implemented priority bits need one accumulator word): they read as zero
/// and a write to them changes nothing.
pub proof fn lemma_unimplemented_apr_raz_wi(s: VgicState, j: int, v: u32)
    requires
        s.wf(),
        1 <= j < 4,
    ensures
        s.read_word((APR_OFFSET + 4 * j) as usize) == 0,
        s.write_word((APR_OFFSET + 4 * j) as usize, v) == s,
{
}

/// Round trip: writing a slot encoding whose reserved bits are zero to an
/// implemented slot and reading the same slot back returns exactly that
/// encoding.
pub proof fn lemma_lr_write_read_roundtrip(s: VgicState, i: int, v: u32)
    requires
        s.wf(),
        0 <= i < s.capacity,
        v & LR_RES0_MASK == 0,
    ensures
        s.spec_lr_write(i, v).lr_value(i) == v,
        s.spec_lr_write(i, v).read_word((LR_OFFSET + 4 * i) as usize) == v,
{
    let s2 = s.spec_lr_write(i, v);
    assert(s2.lrs[i] == VirtualInterrupt::spec_decode(v));
    lemma_encode_decode(v);
    let off = (LR_OFFSET + 4 * i) as usize;
    assert((off - LR_OFFSET) / 4 == i);
}

/// At any time the count of slots in an active state is bounded by the
/// implemented capacity.
pub proof fn lemma_active_count_bounded(s: VgicState)
    requires
        s.wf(),
    ensures
        count_active(s.lrs) <= s.capacity,
{
    lemma_counts_bounded(s.lrs, s.lrs.len() as int);
}

/// Idempotence: writing an inactive encoding to a slot that is already
/// inactive (or unimplemented) leaves the whole derived maintenance status
/// unchanged.
pub proof fn lemma_inactive_write_preserves_status(s: VgicState, i: int, v: u32)
    requires
        s.wf(),
        VirtualInterrupt::spec_decode(v).state == InterruptState::Inactive,
        0 <= i < s.capacity ==> s.lrs[i].state == InterruptState::Inactive,
    ensures
        spec_maintenance_status(s.spec_lr_write(i, v)) == spec_maintenance_status(s),
{
    if 0 <= i < s.capacity {
        let s2 = s.spec_lr_write(i, v);
        assert(s2.lrs.len() == s.lrs.len());
        assert(forall|k: int| 0 <= k < s.lrs.len() ==> s2.lrs[k].state == s.lrs[k].state);
        lemma_status_depends_on_states(s2.lrs, s.lrs, s.lrs.len() as int);
    }
}

} // verus!
