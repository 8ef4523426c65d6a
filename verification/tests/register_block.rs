use vgicv3::interrupt::{InterruptGroup, InterruptState, VirtualInterrupt};
use vgicv3::vgicv3::Vgicv3;

const HCR: usize = 0x000;
const VTR: usize = 0x004;
const VMCR: usize = 0x008;
const MISR: usize = 0x010;
const EISR: usize = 0x020;
const ELRSR: usize = 0x030;
const APR0: usize = 0x0F0;
const LR0: usize = 0x100;

fn read32(g: &Vgicv3, addr: usize) -> usize {
    g.handle_read32(addr).unwrap()
}

#[test]
fn fresh_block_reads_zero() {
    let g = Vgicv3::with_capacity(4);
    assert_eq!(read32(&g, HCR), 0);
    assert_eq!(read32(&g, VMCR), 0);
    assert_eq!(read32(&g, MISR), 0);
    assert_eq!(read32(&g, EISR), 0);
    assert_eq!(read32(&g, APR0), 0);
    assert_eq!(read32(&g, LR0), 0);
    // every implemented slot is empty
    assert_eq!(read32(&g, ELRSR), 0xF);
}

#[test]
fn vtr_advertises_capacity_minus_one() {
    let g = Vgicv3::with_capacity(4);
    assert_eq!(read32(&g, VTR), 0x9000_0003);
    let g16 = Vgicv3::new();
    assert_eq!(read32(&g16, VTR), 0x9000_000F);
}

#[test]
fn vtr_is_read_only() {
    let mut g = Vgicv3::with_capacity(4);
    g.handle_write32(VTR, 0xFFFF_FFFF);
    assert_eq!(read32(&g, VTR), 0x9000_0003);
}

#[test]
fn unmapped_offset_reads_zero_and_ignores_writes() {
    let mut g = Vgicv3::with_capacity(4);
    g.handle_write32(0x040, 0xDEAD_BEEF);
    assert_eq!(read32(&g, 0x040), 0);
    assert_eq!(read32(&g, MISR), 0);
}

#[test]
fn unimplemented_slot_reads_zero_and_ignores_writes() {
    let mut g = Vgicv3::with_capacity(4);
    let slot7 = LR0 + 7 * 4;
    assert_eq!(read32(&g, slot7), 0);
    g.handle_write32(slot7, 0x5800_0005);
    assert_eq!(read32(&g, slot7), 0);
    assert_eq!(read32(&g, ELRSR), 0xF);
    assert_eq!(read32(&g, MISR), 0);
}

#[test]
fn lr_write_read_round_trip() {
    let mut g = Vgicv3::with_capacity(4);
    let v = 0x5800_0005; // group 1, pending, priority 0x10, virtual id 5
    g.handle_write32(LR0, v);
    assert_eq!(read32(&g, LR0), v);
}

#[test]
fn lr_write_drops_reserved_bits() {
    let mut g = Vgicv3::with_capacity(4);
    g.handle_write32(LR0, 0x5870_0005);
    assert_eq!(read32(&g, LR0), 0x5800_0005);
}

#[test]
fn decode_extracts_every_field() {
    let vi = VirtualInterrupt::decode(0xA000_2407);
    assert_eq!(vi.virtual_id, 7);
    assert_eq!(vi.physical_id, 9);
    assert!(vi.hardware_backed);
    assert_eq!(vi.group, InterruptGroup::Group0);
    assert_eq!(vi.priority, 0);
    assert_eq!(vi.state, InterruptState::Active);
}

#[test]
fn encode_decode_round_trip() {
    let vi = VirtualInterrupt {
        virtual_id: 1023,
        physical_id: 512,
        hardware_backed: true,
        group: InterruptGroup::Group1,
        priority: 31,
        state: InterruptState::ActiveAndPending,
    };
    assert_eq!(VirtualInterrupt::decode(vi.encode()), vi);
    assert_eq!(vi.encode(), 0xFF88_03FF);
}

#[test]
fn inactive_slot_value_is_zero() {
    let vi = VirtualInterrupt::inactive();
    assert_eq!(vi.encode(), 0);
}

#[test]
fn pending_slot_clears_empty_bit_and_no_pending_condition() {
    // write slot 0 = {virtual_id 5, priority 0x10, group 1, pending,
    // software-backed} on a four-slot block
    let mut g = Vgicv3::with_capacity(4);
    g.handle_write32(LR0, 0x5800_0005);
    let elrsr = read32(&g, ELRSR);
    assert_eq!(elrsr & 1, 0);
    assert_eq!(elrsr, 0xE);
    // enable the no-pending maintenance interrupt: a pending slot exists,
    // so the summary bit stays clear
    g.handle_write32(HCR, 0x8);
    let misr = read32(&g, MISR);
    assert_eq!(misr & 0x8, 0);
}

#[test]
fn no_pending_bit_asserts_on_empty_list() {
    let mut g = Vgicv3::with_capacity(4);
    g.handle_write32(HCR, 0x8);
    assert_eq!(read32(&g, MISR) & 0x8, 0x8);
}

#[test]
fn eoi_on_hardware_slot_raises_eoi_status_until_cleared() {
    // mark slot 0 active with a hardware-backed interrupt, then signal its
    // end of interrupt: the physical deactivation is still owed
    let mut g = Vgicv3::with_capacity(4);
    g.handle_write32(LR0, 0xA000_2407); // hardware, active, vid 7, pid 9
    g.end_of_interrupt(7);
    assert_eq!(read32(&g, LR0) >> 28 & 0x3, 0); // slot left inactive
    assert_eq!(read32(&g, EISR), 1);
    // the bit survives reads until the deactivation is reported done
    assert_eq!(read32(&g, EISR), 1);
    assert_eq!(read32(&g, MISR) & 1, 1);
    g.complete_deactivation(0);
    assert_eq!(read32(&g, EISR), 0);
}

#[test]
fn eoi_on_software_slot_raises_no_eoi_status() {
    let mut g = Vgicv3::with_capacity(4);
    g.handle_write32(LR0, 0x2000_0005); // software, active, vid 5
    g.end_of_interrupt(5);
    assert_eq!(read32(&g, LR0), 0x0000_0005);
    assert_eq!(read32(&g, EISR), 0);
}

#[test]
fn eoi_on_active_and_pending_slot_goes_back_to_pending() {
    let mut g = Vgicv3::with_capacity(4);
    g.handle_write32(LR0, 0x3000_0005); // software, active and pending, vid 5
    g.end_of_interrupt(5);
    assert_eq!(read32(&g, LR0), 0x1000_0005);
}

#[test]
fn unmatched_eoi_bumps_the_counter() {
    let mut g = Vgicv3::with_capacity(4);
    g.end_of_interrupt(42);
    g.end_of_interrupt(42);
    assert_eq!(read32(&g, HCR) >> 27, 2);
}

#[test]
fn eoi_counter_saturates_at_31() {
    let mut g = Vgicv3::with_capacity(4);
    for _ in 0..40 {
        g.end_of_interrupt(42);
    }
    assert_eq!(read32(&g, HCR) >> 27, 31);
}

#[test]
fn hcr_write_cannot_decrease_the_counter() {
    let mut g = Vgicv3::with_capacity(4);
    g.handle_write32(HCR, 2 << 27);
    assert_eq!(read32(&g, HCR) >> 27, 2);
    g.handle_write32(HCR, 1 << 27);
    assert_eq!(read32(&g, HCR) >> 27, 2);
    g.handle_write32(HCR, 3 << 27);
    assert_eq!(read32(&g, HCR) >> 27, 3);
}

#[test]
fn hcr_and_vmcr_writes_drop_reserved_bits() {
    let mut g = Vgicv3::with_capacity(4);
    g.handle_write32(HCR, 0x07FF_FF00);
    assert_eq!(read32(&g, HCR), 0);
    g.handle_write32(VMCR, 0xFFFF_FFFF);
    assert_eq!(read32(&g, VMCR), 0xFFFC_021F);
}

#[test]
fn sub_word_reads_slice_the_containing_word() {
    // a word of value 0x11223344 read at offset 1 with width 2 yields the
    // middle bytes
    let mut g = Vgicv3::with_capacity(4);
    g.handle_write32(APR0, 0x1122_3344);
    assert_eq!(g.handle_read(APR0 + 1, 2).unwrap(), 0x2233);
    assert_eq!(g.handle_read(APR0 + 3, 1).unwrap(), 0x11);
    assert_eq!(g.handle_read16(APR0 + 2).unwrap(), 0x1122);
    assert_eq!(g.handle_read8(APR0).unwrap(), 0x44);
}

#[test]
fn sub_word_writes_forward_the_raw_value() {
    // the device forwards narrow writes as full-word writes of the raw
    // value; the untouched bytes are not merged back
    let mut g = Vgicv3::with_capacity(4);
    g.handle_write32(APR0, 0x1122_3344);
    g.handle_write8(APR0, 0xAB);
    assert_eq!(read32(&g, APR0), 0xAB);
    g.handle_write32(APR0, 0x1122_3344);
    g.handle_write16(APR0, 0xCDEF);
    assert_eq!(read32(&g, APR0), 0xCDEF);
}

#[test]
fn unsupported_widths_read_zero_and_ignore_writes() {
    let mut g = Vgicv3::with_capacity(4);
    g.handle_write32(APR0, 0x1122_3344);
    assert_eq!(g.handle_read(APR0, 3).unwrap(), 0);
    assert_eq!(g.handle_read(APR0, 8).unwrap(), 0);
    g.handle_write(APR0, 3, 0xFFFF_FFFF);
    g.handle_write(APR0, 0, 0xFFFF_FFFF);
    assert_eq!(read32(&g, APR0), 0x1122_3344);
}

#[test]
fn dispatch_reduces_the_address_to_the_window() {
    let mut g = Vgicv3::with_capacity(4);
    g.handle_write(0xF000 + APR0, 4, 0x55);
    assert_eq!(g.handle_read(0x3000 + APR0, 4).unwrap(), 0x55);
}

#[test]
fn priority_engine_selects_the_lowest_priority_value() {
    // two pending group 1 slots of priorities 0x08 and 0x04 with the mask
    // fully open: the slot of priority 0x04 wins
    let mut g = Vgicv3::with_capacity(4);
    g.handle_write32(VMCR, 0xFF00_0002); // mask 0xFF, group 1 enabled
    g.handle_write32(LR0, 0x5400_0005); // pending, group 1, priority 0x08
    g.handle_write32(LR0 + 4, 0x5200_0006); // pending, group 1, priority 0x04
    assert_eq!(g.highest_priority_eligible(), Some(1));
}

#[test]
fn priority_ties_break_towards_the_lowest_index() {
    let mut g = Vgicv3::with_capacity(4);
    g.handle_write32(VMCR, 0xFF00_0002);
    g.handle_write32(LR0 + 4, 0x5200_0006);
    g.handle_write32(LR0 + 8, 0x5200_0007);
    assert_eq!(g.highest_priority_eligible(), Some(1));
}

#[test]
fn disabled_group_and_masked_priority_are_not_eligible() {
    let mut g = Vgicv3::with_capacity(4);
    g.handle_write32(VMCR, 0xFF00_0001); // only group 0 enabled
    g.handle_write32(LR0, 0x5400_0005); // pending, group 1
    assert_eq!(g.highest_priority_eligible(), None);
    g.handle_write32(VMCR, 0x0000_0002); // group 1 enabled, mask 0: all masked
    assert_eq!(g.highest_priority_eligible(), None);
}

#[test]
fn acknowledge_activates_a_pending_slot_and_records_its_priority() {
    let mut g = Vgicv3::with_capacity(4);
    g.handle_write32(LR0, 0x5400_0005); // pending, priority 0x08
    g.acknowledge(0);
    assert_eq!(read32(&g, LR0), 0x6400_0005); // now active
    assert_eq!(read32(&g, APR0), 1 << 0x08);
}

#[test]
fn eoi_releases_the_recorded_priority_level() {
    let mut g = Vgicv3::with_capacity(4);
    g.handle_write32(LR0, 0x5400_0005);
    g.acknowledge(0);
    assert_eq!(read32(&g, APR0), 1 << 0x08);
    g.end_of_interrupt(5);
    assert_eq!(read32(&g, APR0), 0);
    assert_eq!(read32(&g, ELRSR), 0xF);
}

#[test]
fn writing_inactive_to_an_inactive_slot_changes_no_status() {
    let mut g = Vgicv3::with_capacity(4);
    g.handle_write32(LR0 + 4, 0x5800_0005); // keep one pending slot around
    g.handle_write32(HCR, 0xA); // underflow and no-pending enables
    let misr = read32(&g, MISR);
    let eisr = read32(&g, EISR);
    let elrsr = read32(&g, ELRSR);
    g.handle_write32(LR0, 0x0000_0009); // inactive encoding onto an inactive slot
    assert_eq!(read32(&g, MISR), misr);
    assert_eq!(read32(&g, EISR), eisr);
    assert_eq!(read32(&g, ELRSR), elrsr);
}

#[test]
fn underflow_asserts_when_at_most_one_slot_is_valid() {
    let mut g = Vgicv3::with_capacity(4);
    g.handle_write32(HCR, 0x2); // underflow enable
    assert_eq!(read32(&g, MISR) & 0x2, 0x2);
    g.handle_write32(LR0, 0x5800_0005);
    assert_eq!(read32(&g, MISR) & 0x2, 0x2);
    g.handle_write32(LR0 + 4, 0x5800_0006);
    assert_eq!(read32(&g, MISR) & 0x2, 0);
}

#[test]
fn pending_without_slot_drives_the_lrenp_bit() {
    let mut g = Vgicv3::with_capacity(4);
    g.handle_write32(HCR, 0x4); // list-register-entry-not-present enable
    assert_eq!(read32(&g, MISR) & 0x4, 0);
    g.set_pending_without_slot(true);
    assert_eq!(read32(&g, MISR) & 0x4, 0x4);
    g.set_pending_without_slot(false);
    assert_eq!(read32(&g, MISR) & 0x4, 0);
}

#[test]
fn group_enable_bits_follow_the_vm_control_shadow() {
    let mut g = Vgicv3::with_capacity(4);
    g.handle_write32(HCR, 0xF0); // all four group maintenance enables
    // both groups disabled: only the two "disabled" bits assert
    assert_eq!(read32(&g, MISR) & 0xF0, 0xA0);
    g.handle_write32(VMCR, 0x3); // both groups enabled
    assert_eq!(read32(&g, MISR) & 0xF0, 0x50);
}

#[test]
fn maintenance_line_needs_the_global_enable() {
    let mut g = Vgicv3::with_capacity(4);
    g.handle_write32(HCR, 0x2); // underflow condition holds, but no global enable
    assert!(!g.maintenance_interrupt_asserted());
    g.handle_write32(HCR, 0x3);
    assert!(g.maintenance_interrupt_asserted());
}

#[test]
fn only_the_first_apr_word_is_implemented() {
    // five implemented priority bits need one accumulator word: the first
    // active-priority register is plain read-write storage, the other
    // three offsets read as zero and ignore writes
    let mut g = Vgicv3::with_capacity(4);
    g.handle_write32(APR0, 0x1234_5678);
    assert_eq!(read32(&g, APR0), 0x1234_5678);
    for j in 1..4 {
        g.handle_write32(APR0 + 4 * j, 5);
        assert_eq!(read32(&g, APR0 + 4 * j), 0);
    }
    assert_eq!(read32(&g, APR0), 0x1234_5678);
}

#[test]
fn lr_read_and_write_apply_the_slot_rules_directly() {
    let mut g = Vgicv3::with_capacity(2);
    g.lr_write(0, 0x5800_0005);
    assert_eq!(g.lr_read(0), 0x5800_0005);
    g.lr_write(5, 0x5800_0005);
    assert_eq!(g.lr_read(5), 0);
}

#[test]
fn eoi_picks_the_lowest_index_match() {
    let mut g = Vgicv3::with_capacity(4);
    g.handle_write32(LR0, 0x2000_0005); // active, vid 5
    g.handle_write32(LR0 + 4, 0x2000_0005); // active, vid 5
    g.end_of_interrupt(5);
    assert_eq!(read32(&g, LR0), 0x0000_0005);
    assert_eq!(read32(&g, LR0 + 4), 0x2000_0005);
}

#[test]
fn eoi_ignores_slots_not_in_an_active_state() {
    let mut g = Vgicv3::with_capacity(4);
    g.handle_write32(LR0, 0x1000_0005); // pending, vid 5
    g.end_of_interrupt(5);
    assert_eq!(read32(&g, LR0), 0x1000_0005);
    assert_eq!(read32(&g, HCR) >> 27, 1); // counted as unmatched
}

#[test]
fn acknowledge_ignores_non_pending_and_out_of_range_slots() {
    let mut g = Vgicv3::with_capacity(4);
    g.handle_write32(LR0, 0x2000_0005); // already active
    g.acknowledge(0);
    assert_eq!(read32(&g, LR0), 0x2000_0005);
    g.acknowledge(9);
    assert_eq!(read32(&g, ELRSR), 0xE);
}

#[test]
fn acknowledge_on_active_and_pending_drops_the_pending_half() {
    let mut g = Vgicv3::with_capacity(4);
    g.handle_write32(LR0, 0x3000_0005);
    g.acknowledge(0);
    assert_eq!(read32(&g, LR0), 0x2000_0005);
}

#[test]
fn complete_deactivation_out_of_range_is_ignored() {
    let mut g = Vgicv3::with_capacity(4);
    g.handle_write32(LR0, 0xA000_2407);
    g.end_of_interrupt(7);
    g.complete_deactivation(20);
    assert_eq!(read32(&g, EISR), 1);
}

#[test]
fn single_slot_block_behaves() {
    let mut g = Vgicv3::with_capacity(1);
    assert_eq!(read32(&g, VTR) & 0x1F, 0);
    assert_eq!(read32(&g, ELRSR), 1);
    g.handle_write32(LR0, 0x5800_0005);
    assert_eq!(read32(&g, ELRSR), 0);
    assert_eq!(read32(&g, LR0 + 4), 0);
}

#[test]
fn full_block_advertises_all_sixteen_slots() {
    let g = Vgicv3::new();
    assert_eq!(read32(&g, ELRSR), 0xFFFF);
    assert_eq!(read32(&g, VTR) & 0x1F, 15);
}

#[test]
fn eisr_bit_follows_the_slot_index() {
    let mut g = Vgicv3::with_capacity(4);
    g.handle_write32(LR0 + 8, 0xA000_2407); // hardware, active, vid 7, slot 2
    g.end_of_interrupt(7);
    assert_eq!(read32(&g, EISR), 0x4);
}

#[test]
fn withdrawing_a_slot_cancels_its_eoi_status() {
    let mut g = Vgicv3::with_capacity(4);
    g.handle_write32(LR0, 0xA000_2407);
    g.end_of_interrupt(7);
    assert_eq!(read32(&g, EISR), 1);
    // hypervisor reloads the now-inactive slot with a fresh interrupt and
    // withdraws it: the transition to inactive drops the stale bit
    g.handle_write32(LR0, 0x1000_0008);
    g.handle_write32(LR0, 0);
    assert_eq!(read32(&g, EISR), 0);
}
