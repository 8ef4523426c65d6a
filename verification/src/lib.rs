//! Emulation of the hypervisor-facing virtual CPU interface of an
//! ARM-compatible Generic Interrupt Controller: the list-register file and
//! its state machine, the derived maintenance-status registers, the
//! priority/group presentation engine, and the MMIO decoder that maps
//! byte/half-word/word accesses onto the register block.

pub mod interrupt;
pub mod laws;
pub mod maintenance;
pub mod priority;
pub mod regs;
pub mod vgicv3;
