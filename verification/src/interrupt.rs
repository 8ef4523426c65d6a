//! The contents of one list-register slot: a virtual interrupt with its
//! identity, priority, group and lifecycle state, and the 32-bit register
//! encoding it is read and written through.

use vstd::prelude::*;

verus! {

/// Interrupt group of a list-register slot.
#[derive(Clone, Copy, Debug, PartialEq, Eq, Structural)]
pub enum InterruptGroup {
    Group0,
    Group1,
}

/// Lifecycle state of a virtual interrupt held in a list-register slot.
#[derive(Clone, Copy, Debug, PartialEq, Eq, Structural)]
pub enum InterruptState {
    Inactive,
    Pending,
    Active,
    ActiveAndPending,
}

/// One list-register slot.
#[derive(Clone, Copy, Debug, PartialEq, Eq, Structural)]
pub struct VirtualInterrupt {
    /// Virtual interrupt identifier (10 bits).
    pub virtual_id: u16,
    /// Physical interrupt identifier (10 bits); meaningful only when
    /// `hardware_backed` is true.
    pub physical_id: u16,
    /// Whether this virtual interrupt mirrors a physical one whose
    /// deactivation must be forwarded to hardware.
    pub hardware_backed: bool,
    /// Interrupt group.
    pub group: InterruptGroup,
    /// Priority level (5 bits; a lower value is a higher priority).
    pub priority: u8,
    /// Lifecycle state.
    pub state: InterruptState,
}

/// A state counts as active while an instance of the interrupt is being
/// handled by the guest.
pub open spec fn is_active_state(st: InterruptState) -> bool {
    st == InterruptState::Active || st == InterruptState::ActiveAndPending
}

/// A state counts as pending while an instance awaits presentation.
pub open spec fn is_pending_state(st: InterruptState) -> bool {
    st == InterruptState::Pending || st == InterruptState::ActiveAndPending
}

/// Encoding of the two state bits in a list register.
pub open spec fn state_bits(st: InterruptState) -> u32 {
    match st {
        InterruptState::Inactive => 0,
        InterruptState::Pending => 1,
        InterruptState::Active => 2,
        InterruptState::ActiveAndPending => 3,
    }
}

/// Decoding of the two state bits of a list register.
pub open spec fn state_of_bits(b: u32) -> InterruptState {
    if b == 0 {
        InterruptState::Inactive
    } else if b == 1 {
        InterruptState::Pending
    } else if b == 2 {
        InterruptState::Active
    } else {
        InterruptState::ActiveAndPending
    }
}

/// Encoding of the group bit in a list register.
pub open spec fn group_bit(g: InterruptGroup) -> u32 {
    match g {
        InterruptGroup::Group0 => 0,
        InterruptGroup::Group1 => 1,
    }
}

/// Reserved bits of the list-register encoding (read as zero).
pub const LR_RES0_MASK: u32 = 0x0070_0000;

impl VirtualInterrupt {
    /// Field-width validity: each field fits the bits the register gives it.
    pub open spec fn wf(self) -> bool {
        self.virtual_id < 1024 && self.physical_id < 1024 && self.priority < 32
    }

    /// The all-zero slot value: an inactive slot with every field zero.
    pub open spec fn spec_inactive() -> VirtualInterrupt {
        VirtualInterrupt {
            virtual_id: 0,
            physical_id: 0,
            hardware_backed: false,
            group: InterruptGroup::Group0,
            priority: 0,
            state: InterruptState::Inactive,
        }
    }

    /// The 32-bit list-register encoding of this slot:
    /// hardware bit 31, group bit 30, state bits 29:28, priority bits 27:23,
    /// physical id bits 19:10, virtual id bits 9:0; bits 22:20 reserved.
    pub open spec fn spec_encode(self) -> u32 {
        (if self.hardware_backed {
            0x8000_0000u32
        } else {
            0u32
        }) | (group_bit(self.group) << 30) | (state_bits(self.state) << 28) | ((
        self.priority as u32) << 23) | ((self.physical_id as u32) << 10) | (
        self.virtual_id as u32)
    }

    /// The slot value a 32-bit register write decodes to; reserved bits and
    /// anything beyond each field's width are dropped.
    pub open spec fn spec_decode(v: u32) -> VirtualInterrupt {
        VirtualInterrupt {
            virtual_id: (v & 0x3FF) as u16,
            physical_id: ((v >> 10) & 0x3FF) as u16,
            hardware_backed: v & 0x8000_0000 != 0,
            group: if v & 0x4000_0000 != 0 {
                InterruptGroup::Group1
            } else {
                InterruptGroup::Group0
            },
            priority: ((v >> 23) & 0x1F) as u8,
            state: state_of_bits((v >> 28) & 0x3),
        }
    }

    /// Builds the all-zero inactive slot value.
    pub fn inactive() -> (r: VirtualInterrupt)
        ensures
            r == VirtualInterrupt::spec_inactive(),
            r.wf(),
    {
        VirtualInterrupt {
            virtual_id: 0,
            physical_id: 0,
            hardware_backed: false,
            group: InterruptGroup::Group0,
            priority: 0,
            state: InterruptState::Inactive,
        }
    }

    /// Encodes this slot as its 32-bit register value.
    pub fn encode(&self) -> (r: u32)
        requires
            self.wf(),
        ensures
            r == self.spec_encode(),
    {
        let hw: u32 = if self.hardware_backed {
            0x8000_0000
        } else {
            0
        };
        let grp: u32 = match self.group {
            InterruptGroup::Group0 => 0,
            InterruptGroup::Group1 => 1,
        };
        let st: u32 = match self.state {
            InterruptState::Inactive => 0,
            InterruptState::Pending => 1,
            InterruptState::Active => 2,
            InterruptState::ActiveAndPending => 3,
        };
        hw | (grp << 30) | (st << 28) | ((self.priority as u32) << 23) | ((
        self.physical_id as u32) << 10) | (self.virtual_id as u32)
    }

    /// Decodes a 32-bit register value into a slot.
    pub fn decode(v: u32) -> (r: VirtualInterrupt)
        ensures
            r == VirtualInterrupt::spec_decode(v),
            r.wf(),
    {
        proof {
            assert(v & 0x3FF < 1024) by (bit_vector);
            assert((v >> 10) & 0x3FF < 1024) by (bit_vector);
            assert((v >> 23) & 0x1F < 32) by (bit_vector);
        }
        let st_bits: u32 = (v >> 28) & 0x3;
        VirtualInterrupt {
            virtual_id: (v & 0x3FF) as u16,
            physical_id: ((v >> 10) & 0x3FF) as u16,
            hardware_backed: v & 0x8000_0000 != 0,
            group: if v & 0x4000_0000 != 0 {
                InterruptGroup::Group1
            } else {
                InterruptGroup::Group0
            },
            priority: ((v >> 23) & 0x1F) as u8,
            state: if st_bits == 0 {
                InterruptState::Inactive
            } else if st_bits == 1 {
                InterruptState::Pending
            } else if st_bits == 2 {
                InterruptState::Active
            } else {
                InterruptState::ActiveAndPending
            },
        }
    }
}

/// Round trip: a register value whose reserved bits are zero is returned
/// unchanged by a decode followed by an encode.
pub proof fn lemma_encode_decode(v: u32)
    requires
        v & LR_RES0_MASK == 0,
    ensures
        VirtualInterrupt::spec_decode(v).spec_encode() == v,
{
    let d = VirtualInterrupt::spec_decode(v);
    assert((v >> 28) & 0x3 < 4) by (bit_vector);
    assert(state_bits(d.state) == (v >> 28) & 0x3);
    assert(group_bit(d.group) == (if v & 0x4000_0000 != 0 {
        1u32
    } else {
        0u32
    }));
    assert(((v & 0x3FF) as u16) as u32 == v & 0x3FF) by (bit_vector);
    assert((((v >> 10) & 0x3FF) as u16) as u32 == (v >> 10) & 0x3FF) by (bit_vector);
    assert((((v >> 23) & 0x1F) as u8) as u32 == (v >> 23) & 0x1F) by (bit_vector);
    assert((if v & 0x8000_0000 != 0 {
        0x8000_0000u32
    } else {
        0u32
    }) | ((if v & 0x4000_0000 != 0 {
        1u32
    } else {
        0u32
    }) << 30) | (((v >> 28) & 0x3) << 28) | (((v >> 23) & 0x1F) << 23) | (((v >> 10) & 0x3FF)
        << 10) | (v & 0x3FF) == v) by (bit_vector)
        requires
            v & 0x0070_0000 == 0,
    ;
}

/// Round trip the other way: a field-width-valid slot is returned unchanged
/// by an encode followed by a decode.
pub proof fn lemma_decode_encode(vi: VirtualInterrupt)
    requires
        vi.wf(),
    ensures
        VirtualInterrupt::spec_decode(vi.spec_encode()) == vi,
{
    let hw: u32 = if vi.hardware_backed {
        0x8000_0000u32
    } else {
        0u32
    };
    let grp: u32 = group_bit(vi.group);
    let st: u32 = state_bits(vi.state);
    let pri: u32 = vi.priority as u32;
    let pid: u32 = vi.physical_id as u32;
    let vid: u32 = vi.virtual_id as u32;
    let e: u32 = hw | (grp << 30) | (st << 28) | (pri << 23) | (pid << 10) | vid;
    assert(e & 0x3FF == vid && (e >> 10) & 0x3FF == pid && (e >> 23) & 0x1F == pri && (e >> 28)
        & 0x3 == st && e & 0x8000_0000 == hw && (e & 0x4000_0000 != 0 <==> grp == 1)) by (bit_vector)
        requires
            e == hw | (grp << 30) | (st << 28) | (pri << 23) | (pid << 10) | vid,
            hw == 0 || hw == 0x8000_0000,
            grp < 2,
            st < 4,
            pri < 32,
            pid < 1024,
            vid < 1024,
    ;
    assert(vid as u16 == vi.virtual_id);
    assert(pid as u16 == vi.physical_id);
    assert(pri as u8 == vi.priority);
    let d = VirtualInterrupt::spec_decode(e);
    assert(d.virtual_id == vi.virtual_id);
    assert(d.physical_id == vi.physical_id);
    assert(d.priority == vi.priority);
    assert(d.hardware_backed == vi.hardware_backed);
    assert(d.group == vi.group);
    assert(d.state == vi.state);
}

} // verus!
