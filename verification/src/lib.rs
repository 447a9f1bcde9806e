//! Architectural core of a Game Boy Advance emulator: the ARM7TDMI processor
//! state model (banked registers, status flags, condition evaluation) and the
//! segmented, width-heterogeneous memory subsystem it addresses.

pub mod gba_cpu;
pub mod gba_mem;

pub use gba_cpu::arm_cpu::ARM7;
pub use gba_mem::Memory;
