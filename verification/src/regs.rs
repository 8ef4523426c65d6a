//! Register access policy: the offsets of the register block, which bits of
//! each read-write register a write may set, and the fixed read-only values.
//!
//! Offsets are within the 4 KiB populated part of the 64 KiB window. The
//! block holds the hypervisor control register, the read-only virtual type
//! register, the virtual machine control shadow, the three derived
//! maintenance-status registers, the active-priority words and up to
//! sixteen list registers.

use vstd::prelude::*;

verus! {

/// Offset of the hypervisor control register (read-write).
pub const HCR_OFFSET: usize = 0x000;

/// Offset of the virtual type register (read-only).
pub const VTR_OFFSET: usize = 0x004;

/// Offset of the virtual machine control register (read-write).
pub const VMCR_OFFSET: usize = 0x008;

/// Offset of the maintenance interrupt status register (read-only).
pub const MISR_OFFSET: usize = 0x010;

/// Offset of the end-of-interrupt status register (read-only).
pub const EISR_OFFSET: usize = 0x020;

/// Offset of the empty-list status register (read-only).
pub const ELRSR_OFFSET: usize = 0x030;

/// Offset of the first of the four active-priority words. With five
/// implemented priority bits a single accumulator word suffices, so only
/// this first word is implemented (read-write); the three offsets after it
/// are unimplemented words, read-as-zero / write-ignored.
pub const APR_OFFSET: usize = 0x0F0;

/// Offset of the first list register (read-write).
pub const LR_OFFSET: usize = 0x100;

/// Writable bits of the hypervisor control register: the five-bit
/// end-of-interrupt counter in bits 31:27 and the eight enable bits in
/// bits 7:0; bits 26:8 are reserved.
pub const HCR_MASK: u32 = 0xF800_00FF;

/// Writable bits of the virtual machine control register: priority mask in
/// bits 31:24, the two binary points in bits 23:18, the end-of-interrupt
/// mode in bit 9 and the five flag bits 4:0; the rest is reserved.
pub const VMCR_MASK: u32 = 0xFFFC_021F;

/// Whether bit `i` of `v` is set.
pub open spec fn bit32(v: u32, i: u32) -> bool {
    (v >> i) & 1 == 1
}

/// Global enable of the virtual CPU interface (hypervisor control bit 0).
pub open spec fn hcr_en(hcr: u32) -> bool {
    bit32(hcr, 0)
}

/// Underflow maintenance-interrupt enable (hypervisor control bit 1).
pub open spec fn hcr_uie(hcr: u32) -> bool {
    bit32(hcr, 1)
}

/// List-register-entry-not-present enable (hypervisor control bit 2).
pub open spec fn hcr_lrenpie(hcr: u32) -> bool {
    bit32(hcr, 2)
}

/// No-pending maintenance-interrupt enable (hypervisor control bit 3).
pub open spec fn hcr_npie(hcr: u32) -> bool {
    bit32(hcr, 3)
}

/// Group 0 enabled maintenance-interrupt enable (hypervisor control bit 4).
pub open spec fn hcr_vgrp0eie(hcr: u32) -> bool {
    bit32(hcr, 4)
}

/// Group 0 disabled maintenance-interrupt enable (hypervisor control bit 5).
pub open spec fn hcr_vgrp0die(hcr: u32) -> bool {
    bit32(hcr, 5)
}

/// Group 1 enabled maintenance-interrupt enable (hypervisor control bit 6).
pub open spec fn hcr_vgrp1eie(hcr: u32) -> bool {
    bit32(hcr, 6)
}

/// Group 1 disabled maintenance-interrupt enable (hypervisor control bit 7).
pub open spec fn hcr_vgrp1die(hcr: u32) -> bool {
    bit32(hcr, 7)
}

/// The saturating end-of-interrupt counter held in hypervisor control
/// bits 31:27: incremented on an end-of-interrupt with no matching slot.
pub open spec fn hcr_eoicount(hcr: u32) -> u32 {
    hcr >> 27
}

/// Group 0 presentation enable in the virtual machine control shadow.
pub open spec fn vmcr_group0_enabled(vmcr: u32) -> bool {
    bit32(vmcr, 0)
}

/// Group 1 presentation enable in the virtual machine control shadow.
pub open spec fn vmcr_group1_enabled(vmcr: u32) -> bool {
    bit32(vmcr, 1)
}

/// The eight-bit priority mask in virtual machine control bits 31:24.
pub open spec fn vmcr_priority_mask(vmcr: u32) -> u32 {
    vmcr >> 24
}

/// The value of a hypervisor control write: reserved bits are dropped, and
/// the end-of-interrupt counter is never decreased by a software write
/// (the written counter field is taken only when it is at least the
/// current one).
pub open spec fn spec_hcr_write(old_hcr: u32, v: u32) -> u32 {
    let written = v & HCR_MASK;
    let old_count = hcr_eoicount(old_hcr);
    let new_count = if hcr_eoicount(written) >= old_count {
        hcr_eoicount(written)
    } else {
        old_count
    };
    (new_count << 27) | (written & 0xFF)
}

/// The hypervisor control value after one more unmatched end-of-interrupt:
/// the counter saturates at its five-bit maximum.
pub open spec fn spec_hcr_bump_eoicount(hcr: u32) -> u32 {
    let count = hcr_eoicount(hcr);
    let new_count: u32 = if count >= 31 {
        31
    } else {
        (count + 1) as u32
    };
    (new_count << 27) | (hcr & 0xFF)
}

/// The read-only virtual type value for a given slot capacity: five
/// priority bits and five preemption bits are implemented (both fields
/// hold the count minus one), and bits 4:0 hold the number of implemented
/// list registers minus one.
pub open spec fn spec_vtr_value(capacity: int) -> u32 {
    (4u32 << 29) | (4u32 << 26) | ((capacity - 1) as u32)
}

/// A hypervisor control value is canonical when all its reserved bits are
/// zero.
pub open spec fn hcr_canonical(hcr: u32) -> bool {
    hcr & HCR_MASK == hcr
}

/// A virtual machine control value is canonical when all its reserved bits
/// are zero.
pub open spec fn vmcr_canonical(vmcr: u32) -> bool {
    vmcr & VMCR_MASK == vmcr
}

/// Applies a software write to the hypervisor control register.
pub fn hcr_write(old_hcr: u32, v: u32) -> (r: u32)
    ensures
        r == spec_hcr_write(old_hcr, v),
        hcr_canonical(r),
{
    let written: u32 = v & HCR_MASK;
    let old_count: u32 = old_hcr >> 27;
    let written_count: u32 = written >> 27;
    let new_count: u32 = if written_count >= old_count {
        written_count
    } else {
        old_count
    };
    proof {
        assert(old_hcr >> 27 < 32) by (bit_vector);
        assert((v & 0xF800_00FF) >> 27 < 32) by (bit_vector);
        let c = new_count;
        let w = written;
        assert(c < 32 ==> ((c << 27) | (w & 0xFF)) & 0xF800_00FF == ((c << 27) | (w & 0xFF)))
            by (bit_vector);
    }
    (new_count << 27) | (written & 0xFF)
}

/// Counts one more unmatched end-of-interrupt in the hypervisor control
/// register, saturating at the counter's five-bit maximum.
pub fn hcr_bump_eoicount(hcr: u32) -> (r: u32)
    requires
        hcr_canonical(hcr),
    ensures
        r == spec_hcr_bump_eoicount(hcr),
        hcr_canonical(r),
{
    let count: u32 = hcr >> 27;
    proof {
        assert(hcr >> 27 < 32) by (bit_vector);
    }
    let new_count: u32 = if count >= 31 {
        31
    } else {
        count + 1
    };
    proof {
        let c = new_count;
        assert(c < 32 ==> ((c << 27) | (hcr & 0xFF)) & 0xF800_00FF == ((c << 27) | (hcr & 0xFF)))
            by (bit_vector);
    }
    (new_count << 27) | (hcr & 0xFF)
}

/// Reads the virtual type register for a given slot capacity.
pub fn vtr_value(capacity: usize) -> (r: u32)
    requires
        1 <= capacity <= 16,
    ensures
        r == spec_vtr_value(capacity as int),
{
    (4u32 << 29) | (4u32 << 26) | ((capacity - 1) as u32)
}

} // verus!
