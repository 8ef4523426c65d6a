//! The virtual interrupt controller register block of one virtual CPU: the
//! list-register file, the hypervisor and virtual machine control registers,
//! the active-priority word, the stored end-of-interrupt status bits, and
//! the MMIO decoder over them. Every register operation is specified as a
//! pure function over a snapshot of this state.

use vstd::prelude::*;
use axerrno::AxResult;
use crate::interrupt::{
    is_active_state, is_pending_state, InterruptState, VirtualInterrupt,
};
use crate::maintenance::{compute_elrsr, compute_misr, spec_elrsr, spec_misr};
use crate::priority::{apr_transition, apply_apr_transition, find_highest_eligible, is_best_eligible, eligible};
use crate::regs::{
    hcr_bump_eoicount, hcr_canonical, hcr_en, hcr_write, spec_hcr_bump_eoicount, spec_hcr_write,
    spec_vtr_value, vmcr_canonical, vtr_value, APR_OFFSET, EISR_OFFSET, ELRSR_OFFSET, HCR_OFFSET,
    LR_OFFSET, MISR_OFFSET, VMCR_MASK, VMCR_OFFSET, VTR_OFFSET,
};

verus! {

/// The result-error type of the MMIO handlers.
///
/// Relies on axerrno's `AxError` only as an opaque error value; no reads of
/// the block ever produce one, since every addressing anomaly is absorbed
/// by the read-as-zero / write-ignored policy.
#[verifier::external_type_specification]
#[verifier::external_body]
pub struct ExAxError(axerrno::AxError);

/// Snapshot of the whole register block, the model every contract speaks
/// of.
#[verifier::ext_equal]
pub ghost struct VgicState {
    /// Number of implemented list registers (1 to 16).
    pub capacity: int,
    /// Hypervisor control register (enables and end-of-interrupt counter).
    pub hcr: u32,
    /// Virtual machine control shadow (mask, binary points, group enables).
    pub vmcr: u32,
    /// The implemented active-priority word (with five implemented
    /// priority bits, one accumulator word; the other three
    /// active-priority offsets are unimplemented).
    pub apr: u32,
    /// The implemented list-register slots.
    pub lrs: Seq<VirtualInterrupt>,
    /// End-of-interrupt status bits, one per implemented slot.
    pub eisr: u32,
    /// Whether an interrupt awaits presentation but no free slot exists;
    /// fed each cycle by the external arbitration.
    pub pending_without_slot: bool,
}

impl VgicState {
    /// Well-formedness of a register-block snapshot.
    pub open spec fn wf(self) -> bool {
        &&& 1 <= self.capacity <= 16
        &&& self.lrs.len() == self.capacity
        &&& forall|i: int| 0 <= i < self.lrs.len() ==> self.lrs[i].wf()
        &&& hcr_canonical(self.hcr)
        &&& vmcr_canonical(self.vmcr)
        &&& self.eisr >> (self.capacity as u32) == 0
    }

    /// The state of a freshly initialised register block: every register
    /// zero and every slot inactive.
    pub open spec fn spec_init(capacity: int) -> VgicState {
        VgicState {
            capacity,
            hcr: 0,
            vmcr: 0,
            apr: 0,
            lrs: Seq::new(capacity as nat, |i: int| VirtualInterrupt::spec_inactive()),
            eisr: 0,
            pending_without_slot: false,
        }
    }

    /// The value a list-register slot reads as: its encoding when
    /// implemented, zero otherwise.
    pub open spec fn lr_value(self, i: int) -> u32 {
        if 0 <= i < self.capacity {
            self.lrs[i].spec_encode()
        } else {
            0
        }
    }

    /// The state after a write to one list-register slot: an unimplemented
    /// index is ignored; an implemented slot is replaced by the decoded
    /// value, the active-priority word records the state transition, and a
    /// slot leaving a valid state for the inactive one drops its
    /// end-of-interrupt status bit (a withdrawal cancels the maintenance
    /// need).
    pub open spec fn spec_lr_write(self, i: int, v: u32) -> VgicState {
        if 0 <= i < self.capacity {
            let old_vi = self.lrs[i];
            let new_vi = VirtualInterrupt::spec_decode(v);
            VgicState {
                lrs: self.lrs.update(i, new_vi),
                apr: apr_transition(self.apr, old_vi, new_vi),
                eisr: if new_vi.state == InterruptState::Inactive && old_vi.state
                    != InterruptState::Inactive {
                    self.eisr & !(1u32 << (i as u32))
                } else {
                    self.eisr
                },
                ..self
            }
        } else {
            self
        }
    }

    /// The state after a write to one word-aligned offset. The read-only
    /// registers and offsets backed by no register ignore the write.
    pub open spec fn write_word(self, off: usize, v: u32) -> VgicState {
        if off == HCR_OFFSET {
            VgicState { hcr: spec_hcr_write(self.hcr, v), ..self }
        } else if off == VMCR_OFFSET {
            VgicState { vmcr: v & VMCR_MASK, ..self }
        } else if APR_OFFSET <= off < APR_OFFSET + 16 {
            if off == APR_OFFSET {
                VgicState { apr: v, ..self }
            } else {
                self
            }
        } else if LR_OFFSET <= off < LR_OFFSET + 64 {
            self.spec_lr_write(((off - LR_OFFSET) / 4) as int, v)
        } else {
            self
        }
    }

    /// The state after the guest acknowledges the interrupt in one slot:
    /// a pending slot becomes active and its priority level is recorded;
    /// any other slot is left unchanged.
    pub open spec fn spec_acknowledge(self, slot: int) -> VgicState {
        if 0 <= slot < self.capacity && is_pending_state(self.lrs[slot].state) {
            let old_vi = self.lrs[slot];
            let new_vi = VirtualInterrupt { state: InterruptState::Active, ..old_vi };
            VgicState {
                lrs: self.lrs.update(slot, new_vi),
                apr: apr_transition(self.apr, old_vi, new_vi),
                ..self
            }
        } else {
            self
        }
    }

    /// The state after the guest signals an end of interrupt for one
    /// virtual interrupt identifier. The lowest-index slot holding that
    /// identifier in an active state leaves it (an active slot becomes
    /// inactive, an active-and-pending one goes back to pending), its
    /// priority level is released, and a hardware-backed slot records that
    /// the physical deactivation is still owed. With no matching slot the
    /// end-of-interrupt counter is bumped instead.
    pub open spec fn spec_end_of_interrupt(self, vid: u16) -> VgicState {
        match find_active_match(self.lrs, vid, 0) {
            Some(i) => {
                let old_vi = self.lrs[i];
                let new_vi = VirtualInterrupt {
                    state: if old_vi.state == InterruptState::Active {
                        InterruptState::Inactive
                    } else {
                        InterruptState::Pending
                    },
                    ..old_vi
                };
                VgicState {
                    lrs: self.lrs.update(i, new_vi),
                    apr: apr_transition(self.apr, old_vi, new_vi),
                    eisr: if old_vi.hardware_backed {
                        self.eisr | (1u32 << (i as u32))
                    } else {
                        self.eisr
                    },
                    ..self
                }
            },
            None => VgicState { hcr: spec_hcr_bump_eoicount(self.hcr), ..self },
        }
    }

    /// The state after the hypervisor reports one physical deactivation as
    /// completed: the slot's end-of-interrupt status bit is dropped.
    pub open spec fn spec_complete_deactivation(self, slot: int) -> VgicState {
        if 0 <= slot < 16 {
            VgicState { eisr: self.eisr & !(1u32 << (slot as u32)), ..self }
        } else {
            self
        }
    }

    /// The value one word-aligned offset of the register block reads as.
    /// The three status registers are derived from the current state; an
    /// offset backed by no register reads as zero.
    pub open spec fn read_word(self, off: usize) -> u32 {
        if off == HCR_OFFSET {
            self.hcr
        } else if off == VTR_OFFSET {
            spec_vtr_value(self.capacity)
        } else if off == VMCR_OFFSET {
            self.vmcr
        } else if off == MISR_OFFSET {
            spec_misr(self.hcr, self.vmcr, self.eisr, self.pending_without_slot, self.lrs)
        } else if off == EISR_OFFSET {
            self.eisr
        } else if off == ELRSR_OFFSET {
            spec_elrsr(self.lrs)
        } else if APR_OFFSET <= off < APR_OFFSET + 16 {
            if off == APR_OFFSET {
                self.apr
            } else {
                0
            }
        } else if LR_OFFSET <= off < LR_OFFSET + 64 {
            self.lr_value(((off - LR_OFFSET) / 4) as int)
        } else {
            0
        }
    }
}

/// The word-aligned offset within the register block that an address
/// selects: the low twelve bits of the address, rounded down to a word.
pub open spec fn spec_word_off(addr: usize) -> usize {
    addr & 0xFFC
}

/// The lowest-index slot at or after `i` holding virtual interrupt `vid`
/// in an active state, if any.
pub open spec fn find_active_match(s: Seq<VirtualInterrupt>, vid: u16, i: int) -> Option<int>
    decreases s.len() - i,
{
    if i < 0 || i >= s.len() {
        None
    } else if s[i].virtual_id == vid && is_active_state(s[i].state) {
        Some(i)
    } else {
        find_active_match(s, vid, i + 1)
    }
}

/// A found match lies in range, matches the identifier and is in an active
/// state.
pub proof fn lemma_find_active_match_sound(s: Seq<VirtualInterrupt>, vid: u16, i: int)
    ensures
        find_active_match(s, vid, i) matches Some(j) ==> i <= j < s.len() && s[j].virtual_id == vid
            && is_active_state(s[j].state),
    decreases s.len() - i,
{
    if !(i < 0 || i >= s.len()) && !(s[i].virtual_id == vid && is_active_state(s[i].state)) {
        lemma_find_active_match_sound(s, vid, i + 1);
    }
}

/// Finds the lowest-index slot holding `vid` in an active state.
fn find_active_slot(lrs: &Vec<VirtualInterrupt>, vid: u16) -> (r: Option<usize>)
    ensures
        r matches Some(i) ==> find_active_match(lrs@, vid, 0) == Some(i as int),
        r is None ==> find_active_match(lrs@, vid, 0) is None,
{
    let mut i: usize = 0;
    while i < lrs.len()
        invariant
            0 <= i <= lrs@.len(),
            find_active_match(lrs@, vid, 0) == find_active_match(lrs@, vid, i as int),
        decreases lrs@.len() - i,
    {
        if lrs[i].virtual_id == vid && matches!(lrs[i].state, InterruptState::Active
            | InterruptState::ActiveAndPending) {
            return Some(i);
        }
        i = i + 1;
    }
    None
}

/// The register block of one virtual CPU.
pub struct Vgicv3 {
    /// Number of implemented list registers (1 to 16).
    pub capacity: usize,
    /// Hypervisor control register.
    pub hcr: u32,
    /// Virtual machine control shadow.
    pub vmcr: u32,
    /// The implemented active-priority word.
    pub apr: u32,
    /// The implemented list-register slots.
    pub lrs: Vec<VirtualInterrupt>,
    /// End-of-interrupt status bits.
    pub eisr: u32,
    /// Whether an interrupt awaits presentation but no free slot exists.
    pub pending_without_slot: bool,
}

impl View for Vgicv3 {
    type V = VgicState;

    open spec fn view(&self) -> VgicState {
        VgicState {
            capacity: self.capacity as int,
            hcr: self.hcr,
            vmcr: self.vmcr,
            apr: self.apr,
            lrs: self.lrs@,
            eisr: self.eisr,
            pending_without_slot: self.pending_without_slot,
        }
    }
}

impl Vgicv3 {
    /// Creates a register block with the given number of implemented list
    /// registers.
    pub fn with_capacity(capacity: usize) -> (r: Vgicv3)
        requires
            1 <= capacity <= 16,
        ensures
            r@ == VgicState::spec_init(capacity as int),
            r@.wf(),
    {
        let mut lrs: Vec<VirtualInterrupt> = Vec::new();
        let mut i: usize = 0;
        while i < capacity
            invariant
                0 <= i <= capacity,
                lrs@.len() == i,
                forall|k: int|
                    0 <= k < i ==> lrs@[k] == VirtualInterrupt::spec_inactive(),
            decreases capacity - i,
        {
            lrs.push(VirtualInterrupt::inactive());
            i = i + 1;
        }
        let r = Vgicv3 {
            capacity,
            hcr: 0,
            vmcr: 0,
            apr: 0,
            lrs,
            eisr: 0,
            pending_without_slot: false,
        };
        proof {
            assert(r@.lrs =~= Seq::new(capacity as nat, |k: int| VirtualInterrupt::spec_inactive()));
            assert(r@ =~= VgicState::spec_init(capacity as int));
            assert(0u32 & 0xF800_00FF == 0) by (bit_vector);
            assert(0u32 & 0xFFFC_021F == 0) by (bit_vector);
            let c = capacity as u32;
            assert(0u32 >> c == 0) by (bit_vector);
        }
        r
    }

    /// Creates a register block with all sixteen list registers
    /// implemented.
    pub fn new() -> (r: Vgicv3)
        ensures
            r@ == VgicState::spec_init(16),
            r@.wf(),
    {
        Vgicv3::with_capacity(16)
    }

    /// Handles a 32-bit read. The address is reduced to the 4 KiB register
    /// block and rounded down to a word boundary; reads never fail, and an
    /// offset backed by no register reads as zero.
    pub fn handle_read32(&self, addr: usize) -> (r: AxResult<usize>)
        requires
            self@.wf(),
        ensures
            r matches Ok(v) && v == self@.read_word(spec_word_off(addr)) as usize,
    {
        let off: usize = addr & 0xFFC;
        proof {
            assert(addr & 0xFFC < 0x1000) by (bit_vector);
        }
        let v: u32 = if off == HCR_OFFSET {
            self.hcr
        } else if off == VTR_OFFSET {
            vtr_value(self.capacity)
        } else if off == VMCR_OFFSET {
            self.vmcr
        } else if off == MISR_OFFSET {
            compute_misr(self.hcr, self.vmcr, self.eisr, self.pending_without_slot, &self.lrs)
        } else if off == EISR_OFFSET {
            self.eisr
        } else if off == ELRSR_OFFSET {
            compute_elrsr(&self.lrs)
        } else if off >= APR_OFFSET && off < APR_OFFSET + 16 {
            if off == APR_OFFSET {
                self.apr
            } else {
                0
            }
        } else if off >= LR_OFFSET && off < LR_OFFSET + 64 {
            let i: usize = (off - LR_OFFSET) / 4;
            if i < self.capacity {
                self.lrs[i].encode()
            } else {
                0
            }
        } else {
            0
        };
        Ok(v as usize)
    }

    /// Handles an 8-bit read: the containing word is read and the selected
    /// byte is shifted down and masked.
    pub fn handle_read8(&self, addr: usize) -> (r: AxResult<usize>)
        requires
            self@.wf(),
        ensures
            r matches Ok(v) && v == (self@.read_word(spec_word_off(addr)) as usize >> ((8 * (addr
                & 0x3)) as usize)) & 0xFF,
    {
        proof {
            assert(addr & 0x3 < 4) by (bit_vector);
        }
        let value = self.handle_read32(addr)?;
        Ok((value >> (8 * (addr & 0x3))) & 0xFF)
    }

    /// Handles a 16-bit read: the containing word is read and the selected
    /// half-word is shifted down and masked.
    pub fn handle_read16(&self, addr: usize) -> (r: AxResult<usize>)
        requires
            self@.wf(),
        ensures
            r matches Ok(v) && v == (self@.read_word(spec_word_off(addr)) as usize >> ((8 * (addr
                & 0x3)) as usize)) & 0xFFFF,
    {
        proof {
            assert(addr & 0x3 < 4) by (bit_vector);
        }
        let value = self.handle_read32(addr)?;
        Ok((value >> (8 * (addr & 0x3))) & 0xFFFF)
    }

    /// Reads one list-register slot: an unimplemented index reads as zero.
    pub fn lr_read(&self, index: usize) -> (r: u32)
        requires
            self@.wf(),
        ensures
            r == self@.lr_value(index as int),
    {
        if index < self.capacity {
            self.lrs[index].encode()
        } else {
            0
        }
    }

    /// Writes one list-register slot: an unimplemented index ignores the
    /// write; an implemented slot is replaced by the decoded value, with
    /// the transition effects of `spec_lr_write`.
    pub fn lr_write(&mut self, index: usize, v: u32)
        requires
            old(self)@.wf(),
        ensures
            final(self)@ == old(self)@.spec_lr_write(index as int, v),
            final(self)@.wf(),
    {
        if index < self.capacity {
            let old_vi = self.lrs[index];
            let new_vi = VirtualInterrupt::decode(v);
            self.apr = apply_apr_transition(self.apr, &old_vi, &new_vi);
            if matches!(new_vi.state, InterruptState::Inactive) && !matches!(
                old_vi.state,
                InterruptState::Inactive,
            ) {
                self.eisr = self.eisr & !(1u32 << (index as u32));
            }
            self.lrs[index] = new_vi;
            proof {
                let e = old(self).eisr;
                let c = self.capacity as u32;
                let i = index as u32;
                assert(e >> c == 0 ==> (e & !(1u32 << i)) >> c == 0) by (bit_vector);
                assert(self@ =~= old(self)@.spec_lr_write(index as int, v));
            }
        }
    }

    /// Handles a 32-bit write. The address is reduced to the 4 KiB
    /// register block and rounded down to a word boundary; writes to
    /// read-only registers and to offsets backed by no register are
    /// ignored.
    pub fn handle_write32(&mut self, addr: usize, value: usize)
        requires
            old(self)@.wf(),
        ensures
            final(self)@ == old(self)@.write_word(spec_word_off(addr), (value & 0xFFFF_FFFF) as u32),
            final(self)@.wf(),
    {
        let off: usize = addr & 0xFFC;
        proof {
            assert(value & 0xFFFF_FFFF <= 0xFFFF_FFFF) by (bit_vector);
        }
        let v: u32 = (value & 0xFFFF_FFFF) as u32;
        if off == HCR_OFFSET {
            self.hcr = hcr_write(self.hcr, v);
        } else if off == VMCR_OFFSET {
            self.vmcr = v & VMCR_MASK;
            proof {
                assert((v & 0xFFFC_021F) & 0xFFFC_021F == v & 0xFFFC_021F) by (bit_vector);
            }
        } else if off >= APR_OFFSET && off < APR_OFFSET + 16 {
            if off == APR_OFFSET {
                self.apr = v;
            }
        } else if off >= LR_OFFSET && off < LR_OFFSET + 64 {
            let i: usize = (off - LR_OFFSET) / 4;
            self.lr_write(i, v);
        }
        proof {
            assert(self@ =~= old(self)@.write_word(spec_word_off(addr), (value
                & 0xFFFF_FFFF) as u32));
        }
    }

    /// Handles an 8-bit write. The raw value is forwarded as a full-word
    /// write of the containing word: the device does not merge the
    /// untouched bytes.
    pub fn handle_write8(&mut self, addr: usize, value: usize)
        requires
            old(self)@.wf(),
        ensures
            final(self)@ == old(self)@.write_word(spec_word_off(addr), (value & 0xFFFF_FFFF) as u32),
            final(self)@.wf(),
    {
        self.handle_write32(addr, value);
    }

    /// Handles a 16-bit write. The raw value is forwarded as a full-word
    /// write of the containing word: the device does not merge the
    /// untouched half-word.
    pub fn handle_write16(&mut self, addr: usize, value: usize)
        requires
            old(self)@.wf(),
        ensures
            final(self)@ == old(self)@.write_word(spec_word_off(addr), (value & 0xFFFF_FFFF) as u32),
            final(self)@.wf(),
    {
        self.handle_write32(addr, value);
    }

    /// Records the guest's acknowledgement of the interrupt in one slot.
    pub fn acknowledge(&mut self, slot: usize)
        requires
            old(self)@.wf(),
        ensures
            final(self)@ == old(self)@.spec_acknowledge(slot as int),
            final(self)@.wf(),
    {
        if slot < self.capacity && matches!(self.lrs[slot].state, InterruptState::Pending
            | InterruptState::ActiveAndPending) {
            let old_vi = self.lrs[slot];
            let new_vi = VirtualInterrupt { state: InterruptState::Active, ..old_vi };
            self.apr = apply_apr_transition(self.apr, &old_vi, &new_vi);
            self.lrs[slot] = new_vi;
            proof {
                assert(self@ =~= old(self)@.spec_acknowledge(slot as int));
            }
        }
    }

    /// Records the guest's end of interrupt for one virtual interrupt
    /// identifier, as `spec_end_of_interrupt` describes.
    pub fn end_of_interrupt(&mut self, virtual_id: u16)
        requires
            old(self)@.wf(),
        ensures
            final(self)@ == old(self)@.spec_end_of_interrupt(virtual_id),
            final(self)@.wf(),
    {
        match find_active_slot(&self.lrs, virtual_id) {
            Some(i) => {
                proof {
                    lemma_find_active_match_sound(self.lrs@, virtual_id, 0);
                }
                let old_vi = self.lrs[i];
                let new_vi = VirtualInterrupt {
                    state: if matches!(old_vi.state, InterruptState::Active) {
                        InterruptState::Inactive
                    } else {
                        InterruptState::Pending
                    },
                    ..old_vi
                };
                self.apr = apply_apr_transition(self.apr, &old_vi, &new_vi);
                if old_vi.hardware_backed {
                    self.eisr = self.eisr | (1u32 << (i as u32));
                }
                self.lrs[i] = new_vi;
                proof {
                    let e = old(self).eisr;
                    let c = self.capacity as u32;
                    let j = i as u32;
                    assert(e >> c == 0 && j < c && c <= 16 ==> (e | (1u32 << j)) >> c == 0)
                        by (bit_vector);
                    assert(self@ =~= old(self)@.spec_end_of_interrupt(virtual_id));
                }
            },
            None => {
                self.hcr = hcr_bump_eoicount(self.hcr);
                proof {
                    assert(self@ =~= old(self)@.spec_end_of_interrupt(virtual_id));
                }
            },
        }
    }

    /// Reports one physical deactivation as completed, dropping the slot's
    /// end-of-interrupt status bit.
    pub fn complete_deactivation(&mut self, slot: usize)
        requires
            old(self)@.wf(),
        ensures
            final(self)@ == old(self)@.spec_complete_deactivation(slot as int),
            final(self)@.wf(),
    {
        if slot < 16 {
            self.eisr = self.eisr & !(1u32 << (slot as u32));
            proof {
                let e = old(self).eisr;
                let c = self.capacity as u32;
                let i = slot as u32;
                assert(e >> c == 0 ==> (e & !(1u32 << i)) >> c == 0) by (bit_vector);
            }
        }
    }

    /// Feeds the external arbitration's signal that an interrupt awaits
    /// presentation but no free slot exists.
    pub fn set_pending_without_slot(&mut self, pending: bool)
        requires
            old(self)@.wf(),
        ensures
            final(self)@ == (VgicState { pending_without_slot: pending, ..old(self)@ }),
            final(self)@.wf(),
    {
        self.pending_without_slot = pending;
    }

    /// The slot the engine would present to the guest first, if any:
    /// eligible under the virtual machine control shadow, of the lowest
    /// numeric priority value, ties broken towards the lowest index.
    pub fn highest_priority_eligible(&self) -> (r: Option<usize>)
        requires
            self@.wf(),
        ensures
            r matches Some(i) ==> is_best_eligible(self@.vmcr, self@.lrs, i as int),
            r is None ==> forall|i: int|
                0 <= i < self@.lrs.len() ==> !eligible(self@.vmcr, self@.lrs[i]),
    {
        find_highest_eligible(self.vmcr, &self.lrs)
    }

    /// Whether the maintenance interrupt line is asserted: the interface is
    /// globally enabled and some maintenance condition holds.
    pub fn maintenance_interrupt_asserted(&self) -> (r: bool)
        requires
            self@.wf(),
        ensures
            r == (hcr_en(self@.hcr) && spec_misr(
                self@.hcr,
                self@.vmcr,
                self@.eisr,
                self@.pending_without_slot,
                self@.lrs,
            ) != 0),
    {
        let misr = compute_misr(self.hcr, self.vmcr, self.eisr, self.pending_without_slot, &self.lrs);
        (self.hcr >> 0u32) & 1 == 1 && misr != 0
    }

    /// Handles a memory-mapped read of 1, 2 or 4 bytes. The address is
    /// first reduced to the 4 KiB register block; an unsupported width
    /// reads as zero rather than faulting.
    pub fn handle_read(&self, addr: usize, width: usize) -> (r: AxResult<usize>)
        requires
            self@.wf(),
        ensures
            r matches Ok(v) && v == spec_handle_read(self@, addr, width),
    {
        let addr: usize = addr & 0xFFF;
        match width {
            1 => self.handle_read8(addr),
            2 => self.handle_read16(addr),
            4 => self.handle_read32(addr),
            _ => Ok(0),
        }
    }

    /// Handles a memory-mapped write of 1, 2 or 4 bytes. The address is
    /// first reduced to the 4 KiB register block; an unsupported width is
    /// ignored.
    pub fn handle_write(&mut self, addr: usize, width: usize, val: usize)
        requires
            old(self)@.wf(),
        ensures
            final(self)@ == spec_handle_write(old(self)@, addr, width, val),
            final(self)@.wf(),
    {
        let addr: usize = addr & 0xFFF;
        match width {
            1 => self.handle_write8(addr, val),
            2 => self.handle_write16(addr, val),
            4 => self.handle_write32(addr, val),
            _ => {},
        }
    }
}

/// The value a memory-mapped read returns: the containing word of the
/// reduced address, sliced by the shift-and-mask rule for widths 1 and 2,
/// whole for width 4, and zero for any other width.
pub open spec fn spec_handle_read(s: VgicState, addr: usize, width: usize) -> usize {
    let a = addr & 0xFFF;
    if width == 1 {
        (s.read_word(spec_word_off(a)) as usize >> ((8 * (a & 0x3)) as usize)) & 0xFF
    } else if width == 2 {
        (s.read_word(spec_word_off(a)) as usize >> ((8 * (a & 0x3)) as usize)) & 0xFFFF
    } else if width == 4 {
        s.read_word(spec_word_off(a)) as usize
    } else {
        0
    }
}

/// The state after a memory-mapped write: for the three supported widths
/// the raw value is forwarded as a write of the containing word of the
/// reduced address; any other width leaves the state unchanged.
pub open spec fn spec_handle_write(s: VgicState, addr: usize, width: usize, val: usize) -> VgicState {
    let a = addr & 0xFFF;
    if width == 1 || width == 2 || width == 4 {
        s.write_word(spec_word_off(a), (val & 0xFFFF_FFFF) as u32)
    } else {
        s
    }
}

} // verus!
