//! ARM-state instruction decode: condition codes and the branch instruction.

use vstd::prelude::*;

use crate::gba_cpu::{IType, Instruction, SIType};
use crate::gba_cpu::arm_cpu::ARM7;
use crate::gba_cpu::arm_cpu::{spec_is_carry, spec_is_neg, spec_is_overflow, spec_is_zero};
use crate::gba_mem::Memory;

verus! {

/// Every ARM-state instruction is gated by its top four bits.
const COND_SHIFT: IType = 28;

/// The fifteen named conditions selected by the top four bits of an
/// instruction word. The sixteenth encoding is unused and must never be
/// produced.
#[derive(Clone, Copy, PartialEq, Eq, Debug, Structural)]
pub enum Cond {
    EQ,
    NE,
    CS,
    CC,
    MI,
    PL,
    VS,
    VC,
    HI,
    LS,
    GE,
    LT,
    GT,
    LE,
    AL,
}

/// Decode of the condition field of an instruction word.
pub open spec fn spec_cond_decode(instr: IType) -> Cond
    recommends
        instr >> 28 != 15,
{
    let c = instr >> 28;
    if c == 0 {
        Cond::EQ
    } else if c == 1 {
        Cond::NE
    } else if c == 2 {
        Cond::CS
    } else if c == 3 {
        Cond::CC
    } else if c == 4 {
        Cond::MI
    } else if c == 5 {
        Cond::PL
    } else if c == 6 {
        Cond::VS
    } else if c == 7 {
        Cond::VC
    } else if c == 8 {
        Cond::HI
    } else if c == 9 {
        Cond::LS
    } else if c == 10 {
        Cond::GE
    } else if c == 11 {
        Cond::LT
    } else if c == 12 {
        Cond::GT
    } else if c == 13 {
        Cond::LE
    } else {
        Cond::AL
    }
}

/// The canonical condition truth table of the ARM architecture manual,
/// section A3.2: each condition as a function of the four flags of the given
/// status word.
pub open spec fn spec_cond_satisfied(c: Cond, psr: u32) -> bool {
    match c {
        Cond::EQ => spec_is_zero(psr),
        Cond::NE => !spec_is_zero(psr),
        Cond::CS => spec_is_carry(psr),
        Cond::CC => !spec_is_carry(psr),
        Cond::MI => spec_is_neg(psr),
        Cond::PL => !spec_is_neg(psr),
        Cond::VS => spec_is_overflow(psr),
        Cond::VC => !spec_is_overflow(psr),
        Cond::HI => spec_is_carry(psr) && !spec_is_zero(psr),
        Cond::LS => !spec_is_carry(psr) || spec_is_zero(psr),
        Cond::GE => spec_is_neg(psr) == spec_is_overflow(psr),
        Cond::LT => spec_is_neg(psr) != spec_is_overflow(psr),
        Cond::GT => !spec_is_zero(psr) && spec_is_neg(psr) == spec_is_overflow(psr),
        Cond::LE => spec_is_zero(psr) || spec_is_neg(psr) != spec_is_overflow(psr),
        Cond::AL => true,
    }
}

impl Cond {
    /// Decodes the condition field. The sixteenth encoding is unreachable,
    /// excluded by precondition.
    pub fn decode(instr: IType) -> (r: Cond)
        requires
            instr >> 28 != 15,
        ensures
            r == spec_cond_decode(instr),
    {
        proof {
            assert(instr >> 28 < 16) by (bit_vector);
        }
        let c = instr >> COND_SHIFT;
        if c == 0 {
            Cond::EQ
        } else if c == 1 {
            Cond::NE
        } else if c == 2 {
            Cond::CS
        } else if c == 3 {
            Cond::CC
        } else if c == 4 {
            Cond::MI
        } else if c == 5 {
            Cond::PL
        } else if c == 6 {
            Cond::VS
        } else if c == 7 {
            Cond::VC
        } else if c == 8 {
            Cond::HI
        } else if c == 9 {
            Cond::LS
        } else if c == 10 {
            Cond::GE
        } else if c == 11 {
            Cond::LT
        } else if c == 12 {
            Cond::GT
        } else if c == 13 {
            Cond::LE
        } else if c == 14 {
            Cond::AL
        } else {
            unreached()
        }
    }

    /// Evaluates this condition against the current flags of the given
    /// processor, following the canonical truth table.
    pub fn is_satisfied(&self, cpu: &ARM7) -> (r: bool)
        ensures
            r == spec_cond_satisfied(*self, cpu.cpsr@),
    {
        match *self {
            Cond::EQ => cpu.is_zero(),
            Cond::NE => !cpu.is_zero(),
            Cond::CS => cpu.is_carry(),
            Cond::CC => !cpu.is_carry(),
            Cond::MI => cpu.is_neg_lt(),
            Cond::PL => !cpu.is_neg_lt(),
            Cond::VS => cpu.is_overflow(),
            Cond::VC => !cpu.is_overflow(),
            Cond::HI => cpu.is_carry() && !cpu.is_zero(),
            Cond::LS => !cpu.is_carry() || cpu.is_zero(),
            Cond::GE => cpu.is_neg_lt() == cpu.is_overflow(),
            Cond::LT => cpu.is_neg_lt() != cpu.is_overflow(),
            Cond::GT => !cpu.is_zero() && cpu.is_neg_lt() == cpu.is_overflow(),
            Cond::LE => cpu.is_zero() || cpu.is_neg_lt() != cpu.is_overflow(),
            Cond::AL => true,
        }
    }
}

// The branch instruction, ARM architecture manual section A4.1.5: bits 25-27
// are 0b101, bit 24 selects branch-with-link, bits 0-23 hold a signed word
// offset.
pub const BRANCH_MASK: IType = 0x0E000000;
pub const BRANCH_IDENT: IType = 0x0A000000;
pub const BRANCH_LINK: IType = 0x01000000;
pub const BRANCH_SIGN: IType = 0x00800000;
pub const BRANCH_EXTEND: IType = 0xFF000000;

/// A decoded branch instruction.
pub struct Branch {
    pub cond: Cond,
    pub link: bool,
    pub off: SIType,
}

/// The branch target offset: the 24-bit field sign-extended and shifted left
/// twice, as a two's-complement byte offset.
pub open spec fn spec_branch_offset(instr: IType) -> SIType {
    let ext = if instr & BRANCH_SIGN != 0 {
        instr | BRANCH_EXTEND
    } else {
        instr & !BRANCH_EXTEND
    };
    (ext << 2u32) as SIType
}

impl Instruction for Branch {
    type CPU = ARM7;

    type Instr = IType;

    open spec fn decode_ok(instr: IType) -> bool {
        instr >> 28 != 15
    }

    open spec fn decode_spec(instr: IType) -> Branch {
        Branch {
            cond: spec_cond_decode(instr),
            link: instr & BRANCH_LINK == BRANCH_LINK,
            off: spec_branch_offset(instr),
        }
    }

    fn decode(instr: IType) -> (r: Branch) {
        let ext = if instr & BRANCH_SIGN != 0 {
            instr | BRANCH_EXTEND
        } else {
            instr & !BRANCH_EXTEND
        };
        Branch {
            cond: Cond::decode(instr),
            link: instr & BRANCH_LINK == BRANCH_LINK,
            off: #[verifier::truncate] ((ext << 2u32) as SIType),
        }
    }

    /// Branch execution is not implemented yet; the instruction set atop this
    /// core is an external collaborator.
    fn execute(&self, cpu: &mut ARM7, mem: &mut Memory) {
    }
}

/// Decodes an instruction word already identified as a branch by its pattern
/// bits; any other word is a programming error, excluded by precondition.
pub fn decode(instr: IType) -> (r: Branch)
    requires
        instr & BRANCH_MASK == BRANCH_IDENT,
        instr >> 28 != 15,
    ensures
        r == Branch::decode_spec(instr),
{
    if instr & BRANCH_MASK == BRANCH_IDENT {
        Branch::decode(instr)
    } else {
        unreached()
    }
}

} // verus!
