//! ARM7TDMI processor state: registers, status words, and instruction decode.

use vstd::prelude::*;

pub mod arm_cpu;
pub mod arm_instr;
pub mod register;

pub use self::arm_cpu::ARM7;
pub use crate::gba_mem::Memory;

verus! {

/// Width of a general-purpose or status register.
pub type RType = u32;

/// Width of an ARM-state instruction word.
pub type IType = u32;

/// Signed counterpart of an instruction word, for offsets.
pub type SIType = i32;

/// Width of a Thumb-state instruction word.
pub type TIType = u16;

/// Common interface for decoding and executing instructions.
///
/// Decoding is a pure function of the instruction word; `decode_ok` names the
/// words this instruction kind accepts and `decode_spec` the decoded value.
/// Execution mutates the processor and memory it is handed; its semantics are
/// supplied by each concrete instruction.
pub trait Instruction: Sized {
    type CPU;
    type Instr;

    /// Which instruction words this kind can decode.
    spec fn decode_ok(instr: Self::Instr) -> bool;

    /// The decoded form of an acceptable instruction word.
    spec fn decode_spec(instr: Self::Instr) -> Self;

    fn decode(instr: Self::Instr) -> (r: Self)
        requires
            Self::decode_ok(instr),
        ensures
            r == Self::decode_spec(instr),
    ;

    fn execute(&self, cpu: &mut Self::CPU, mem: &mut Memory);
}

} // verus!
