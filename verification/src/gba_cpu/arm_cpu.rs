//! The ARM7TDMI register bank and mode model.
//!
//! The processor owns 31 physical general-purpose cells, a current status
//! word, and one saved status word per privileged mode. Logical register
//! numbers 0-15 are relabeled onto physical cells depending on the execution
//! mode ("banking"); the mapping is a pure lookup, never a value copy.

use vstd::prelude::*;

use crate::gba_cpu::RType;
use crate::gba_cpu::register::Register;

verus! {

// Status word layout.
// Condition code flag bits (28-31).
pub const COND_MASK: RType = 0xF0000000;
/// Negative or less than (bit 31).
pub const N_MASK: RType = 0x80000000;
/// Zero (bit 30).
pub const Z_MASK: RType = 0x40000000;
/// Carry, borrow, or extend (bit 29).
pub const C_MASK: RType = 0x20000000;
/// Overflow (bit 28).
pub const V_MASK: RType = 0x10000000;
// Control bits (5-7).
/// IRQ disable (bit 7).
pub const I_MASK: RType = 0x80;
/// FIQ disable (bit 6).
pub const F_MASK: RType = 0x40;
/// Thumb state (bit 5).
pub const T_MASK: RType = 0x20;
/// Mode state (bits 0-4).
pub const M_MASK: RType = 0x1F;

// The seven valid encodings of the mode field.
pub const USER_MODE: RType = 0b10000;
pub const FIQ_MODE: RType = 0b10001;
pub const IRQ_MODE: RType = 0b10010;
/// Supervisor mode.
pub const SV_MODE: RType = 0b10011;
/// Abort mode.
pub const ABRT_MODE: RType = 0b10111;
/// Undefined instruction mode.
pub const UDEF_MODE: RType = 0b11011;
/// System mode.
pub const SYS_MODE: RType = 0b11111;

// Physical register indices.
pub const R0: i8 = 0;
pub const R1: i8 = 1;
pub const R2: i8 = 2;
pub const R3: i8 = 3;
pub const R4: i8 = 4;
pub const R5: i8 = 5;
pub const R6: i8 = 6;
pub const R7: i8 = 7;
pub const R8: i8 = 8;
pub const R9: i8 = 9;
pub const R10: i8 = 10;
pub const R11: i8 = 11;
pub const R12: i8 = 12;
pub const R13: i8 = 13;
pub const R14: i8 = 14;
pub const R15: i8 = 15;
pub const R8_FIQ: i8 = 16;
pub const R9_FIQ: i8 = 17;
pub const R10_FIQ: i8 = 18;
pub const R11_FIQ: i8 = 19;
pub const R12_FIQ: i8 = 20;
pub const R13_FIQ: i8 = 21;
pub const R14_FIQ: i8 = 22;
pub const R13_SV: i8 = 23;
pub const R14_SV: i8 = 24;
pub const R13_ABT: i8 = 25;
pub const R14_ABT: i8 = 26;
pub const R13_IRQ: i8 = 27;
pub const R14_IRQ: i8 = 28;
pub const R13_UND: i8 = 29;
pub const R14_UND: i8 = 30;
pub const NUM_REGS: usize = 31;

// Saved status register indices (User and System have no saved status).
pub const SPSR_FIQ: i8 = 0;
pub const SPSR_SV: i8 = 1;
pub const SPSR_ABT: i8 = 2;
pub const SPSR_IRQ: i8 = 3;
pub const SPSR_UND: i8 = 4;
pub const NUM_STATUS_REGS: usize = 5;

// Register aliases.
pub const SP: i8 = R13;
pub const LINK: i8 = R14;
pub const PC: i8 = R15;

/// Modes of execution for the ARM7TDMI.
#[derive(Copy, Clone, Debug, PartialEq, Eq, Structural)]
pub enum ARM7Mode {
    User,
    FIQ,
    IRQ,
    Supervisor,
    Abort,
    Undefined,
    System,
}

/// The 5-bit encoding of a mode inside the status word.
pub open spec fn spec_mode_bits(m: ARM7Mode) -> RType {
    match m {
        ARM7Mode::User => USER_MODE,
        ARM7Mode::FIQ => FIQ_MODE,
        ARM7Mode::IRQ => IRQ_MODE,
        ARM7Mode::Supervisor => SV_MODE,
        ARM7Mode::Abort => ABRT_MODE,
        ARM7Mode::Undefined => UDEF_MODE,
        ARM7Mode::System => SYS_MODE,
    }
}

/// Whether a 5-bit pattern is one of the seven valid mode encodings.
/// Any other pattern is unreachable on real hardware and treated as fatal.
pub open spec fn is_valid_mode_bits(b: RType) -> bool {
    ||| b == USER_MODE
    ||| b == FIQ_MODE
    ||| b == IRQ_MODE
    ||| b == SV_MODE
    ||| b == ABRT_MODE
    ||| b == UDEF_MODE
    ||| b == SYS_MODE
}

/// Decode of the mode field; `None` on the 25 invalid patterns.
pub open spec fn spec_mode_of_bits(b: RType) -> Option<ARM7Mode> {
    if b == USER_MODE {
        Some(ARM7Mode::User)
    } else if b == FIQ_MODE {
        Some(ARM7Mode::FIQ)
    } else if b == IRQ_MODE {
        Some(ARM7Mode::IRQ)
    } else if b == SV_MODE {
        Some(ARM7Mode::Supervisor)
    } else if b == ABRT_MODE {
        Some(ARM7Mode::Abort)
    } else if b == UDEF_MODE {
        Some(ARM7Mode::Undefined)
    } else if b == SYS_MODE {
        Some(ARM7Mode::System)
    } else {
        None
    }
}

impl ARM7Mode {
    /// The 5-bit encoding of this mode.
    pub fn bits(&self) -> (r: RType)
        ensures
            r == spec_mode_bits(*self),
    {
        match self {
            ARM7Mode::User => USER_MODE,
            ARM7Mode::FIQ => FIQ_MODE,
            ARM7Mode::IRQ => IRQ_MODE,
            ARM7Mode::Supervisor => SV_MODE,
            ARM7Mode::Abort => ABRT_MODE,
            ARM7Mode::Undefined => UDEF_MODE,
            ARM7Mode::System => SYS_MODE,
        }
    }
}

// Status word predicates, shared with the condition evaluator.

/// Negative-or-less-than flag.
pub open spec fn spec_is_neg(psr: RType) -> bool {
    psr & N_MASK != 0
}

/// Zero flag.
pub open spec fn spec_is_zero(psr: RType) -> bool {
    psr & Z_MASK != 0
}

/// Carry flag.
pub open spec fn spec_is_carry(psr: RType) -> bool {
    psr & C_MASK != 0
}

/// Overflow flag.
pub open spec fn spec_is_overflow(psr: RType) -> bool {
    psr & V_MASK != 0
}

/// IRQ disable bit.
pub open spec fn spec_is_irq_disable(psr: RType) -> bool {
    psr & I_MASK != 0
}

/// FIQ disable bit.
pub open spec fn spec_is_fiq_disable(psr: RType) -> bool {
    psr & F_MASK != 0
}

/// Thumb state bit.
pub open spec fn spec_is_thumb(psr: RType) -> bool {
    psr & T_MASK != 0
}

/// The single-bit masks of the status word: the four condition flags, the two
/// interrupt-disable bits, and the Thumb bit.
pub open spec fn is_flag_mask(m: RType) -> bool {
    ||| m == N_MASK
    ||| m == Z_MASK
    ||| m == C_MASK
    ||| m == V_MASK
    ||| m == I_MASK
    ||| m == F_MASK
    ||| m == T_MASK
}

/// The logical-to-physical register mapping of section 2.6 of the ARM7TDMI
/// reference: in Thumb state only R0-R7 are directly addressable; in ARM
/// state R0-R7 and the program counter map identity in every mode, R8-R12
/// alias a private bank only in FIQ mode, and R13-R14 alias a mode-private
/// pair in each exception mode.
pub open spec fn spec_reg_map_index(thumb: bool, mode: ARM7Mode, reg_num: int) -> Option<int>
    recommends
        0 <= reg_num <= 15,
{
    if thumb {
        if reg_num <= 7 {
            Some(reg_num)
        } else {
            None
        }
    } else if reg_num <= 7 || reg_num == 15 {
        Some(reg_num)
    } else if reg_num <= 12 {
        if mode == ARM7Mode::FIQ {
            Some(reg_num + 8)
        } else {
            Some(reg_num)
        }
    } else {
        // reg_num is 13 or 14: the banked stack-pointer / link pair.
        match mode {
            ARM7Mode::User => Some(reg_num),
            ARM7Mode::System => Some(reg_num),
            ARM7Mode::FIQ => Some(reg_num + 8),
            ARM7Mode::IRQ => Some(reg_num + 14),
            ARM7Mode::Supervisor => Some(reg_num + 10),
            ARM7Mode::Abort => Some(reg_num + 12),
            ARM7Mode::Undefined => Some(reg_num + 16),
        }
    }
}

/// The saved-status cell used by each privileged mode; User and System have
/// none, since no exception entry is possible from them.
pub open spec fn spec_spsr_index(mode: ARM7Mode) -> Option<int> {
    match mode {
        ARM7Mode::User => None,
        ARM7Mode::FIQ => Some(SPSR_FIQ as int),
        ARM7Mode::IRQ => Some(SPSR_IRQ as int),
        ARM7Mode::Supervisor => Some(SPSR_SV as int),
        ARM7Mode::Abort => Some(SPSR_ABT as int),
        ARM7Mode::Undefined => Some(SPSR_UND as int),
        ARM7Mode::System => None,
    }
}

/// The ARM7TDMI register file: 31 physical general-purpose cells, the current
/// status word, and the five saved status words.
pub struct ARM7 {
    pub regs: Vec<Register>,
    pub cpsr: Register,
    pub spsr: Vec<Register>,
}

/// The state after a mode transition: the mode bits are masked-set into the
/// status word; no register value moves.
pub open spec fn spec_set_mode(s: ARM7, m: ARM7Mode) -> ARM7 {
    ARM7 {
        regs: s.regs,
        cpsr: Register(s.cpsr@ | spec_mode_bits(m)),
        spsr: s.spsr,
    }
}

impl ARM7 {
    /// Well-formedness: the physical register file has its fixed size and the
    /// mode field holds one of the seven valid encodings.
    pub open spec fn wf(&self) -> bool {
        &&& self.regs@.len() == NUM_REGS
        &&& self.spsr@.len() == NUM_STATUS_REGS
        &&& is_valid_mode_bits(self.cpsr@ & M_MASK)
    }

    /// The decoded execution mode.
    pub open spec fn spec_mode(&self) -> ARM7Mode
        recommends
            self.wf(),
    {
        spec_mode_of_bits(self.cpsr@ & M_MASK)->Some_0
    }

    /// The value of a logical register under the current banking, or `None`
    /// where the register is unmapped.
    pub open spec fn spec_reg_value(&self, n: int) -> Option<RType>
        recommends
            self.wf(),
            0 <= n <= 15,
    {
        match spec_reg_map_index(spec_is_thumb(self.cpsr@), self.spec_mode(), n) {
            Some(p) => Some(self.regs@[p]@),
            None => None,
        }
    }

    /// Maps a logical register number to its physical index under the current
    /// mode and instruction-set state, or `None` where it is unmapped.
    pub fn reg_map_index(&self, reg_num: i8) -> (r: Option<i8>)
        requires
            R0 <= reg_num <= R15,
            self.wf(),
        ensures
            ({
                let m = spec_reg_map_index(
                    spec_is_thumb(self.cpsr@),
                    self.spec_mode(),
                    reg_num as int,
                );
                &&& (r is Some <==> m is Some)
                &&& (r matches Some(p) ==> m == Some(p as int))
            }),
    {
        if !self.is_thumb() {
            if reg_num <= R7 || reg_num == PC {
                Some(reg_num)
            } else {
                match self.mode() {
                    ARM7Mode::User | ARM7Mode::System => Some(reg_num),
                    ARM7Mode::FIQ => Some(reg_num + R8_FIQ - R8),
                    m => {
                        if reg_num <= R12 {
                            Some(reg_num)
                        } else {
                            match m {
                                ARM7Mode::IRQ => Some(reg_num + R13_IRQ - R13),
                                ARM7Mode::Supervisor => Some(reg_num + R13_SV - R13),
                                ARM7Mode::Abort => Some(reg_num + R13_ABT - R13),
                                ARM7Mode::Undefined => Some(reg_num + R13_UND - R13),
                                _ => unreached(),
                            }
                        }
                    },
                }
            }
        } else {
            if reg_num <= R7 {
                Some(reg_num)
            } else {
                None
            }
        }
    }

    /// Applies `op` to the physical cell at `reg_num`, with no banking.
    fn unmapped_reg_op<F: Fn(Register) -> Register>(&mut self, reg_num: i8, op: F)
        requires
            0 <= reg_num < old(self).regs@.len(),
            call_requires(op, (old(self).regs@[reg_num as int],)),
        ensures
            (exists|c: Register|
                call_ensures(op, (old(self).regs@[reg_num as int],), c) && final(self).regs@
                    == old(self).regs@.update(reg_num as int, c)),
            final(self).cpsr == old(self).cpsr,
            final(self).spsr == old(self).spsr,
    {
        let idx = reg_num as usize;
        let cur = self.regs[idx];
        let newv = op(cur);
        self.regs[idx] = newv;
    }

    /// Applies `op` to the physical cell that `reg_num` denotes under the
    /// current banking. Calling it on an unmapped register is a programming
    /// error, excluded by precondition.
    pub fn reg_op<F: Fn(Register) -> Register>(&mut self, reg_num: i8, op: F)
        requires
            R0 <= reg_num <= R15,
            old(self).wf(),
            ({
                let m = spec_reg_map_index(
                    spec_is_thumb(old(self).cpsr@),
                    old(self).spec_mode(),
                    reg_num as int,
                );
                &&& m is Some
                &&& (m matches Some(p) ==> call_requires(op, (old(self).regs@[p],)))
            }),
        ensures
            ({
                let m = spec_reg_map_index(
                    spec_is_thumb(old(self).cpsr@),
                    old(self).spec_mode(),
                    reg_num as int,
                );
                m matches Some(p) ==> (exists|c: Register|
                    call_ensures(op, (old(self).regs@[p],), c) && final(self).regs@
                        == old(self).regs@.update(p, c))
            }),
            final(self).cpsr == old(self).cpsr,
            final(self).spsr == old(self).spsr,
            final(self).wf(),
    {
        match self.reg_map_index(reg_num) {
            Some(reg) => self.unmapped_reg_op(reg, op),
            None => unreached(),
        }
    }

    /// The physical cell at `reg_num`, with no banking.
    fn reg_raw(&self, reg_num: i8) -> (r: &Register)
        requires
            0 <= reg_num < self.regs@.len(),
        ensures
            *r == self.regs@[reg_num as int],
    {
        &self.regs[reg_num as usize]
    }

    /// Mutable access to the physical cell at `reg_num`, with no banking.
    fn reg_raw_mut(&mut self, reg_num: i8) -> (r: &mut Register)
        requires
            0 <= reg_num < old(self).regs@.len(),
        ensures
            *r == old(self).regs@[reg_num as int],
            final(self).regs@ == old(self).regs@.update(reg_num as int, *final(r)),
            final(self).cpsr == old(self).cpsr,
            final(self).spsr == old(self).spsr,
    {
        &mut self.regs[reg_num as usize]
    }

    /// The cell that logical register `reg_num` denotes under the current
    /// banking, or `None` where it is unmapped.
    pub fn reg(&self, reg_num: i8) -> (r: Option<&Register>)
        requires
            R0 <= reg_num <= R15,
            self.wf(),
        ensures
            (r matches Some(cell) ==> Some(cell@) == self.spec_reg_value(reg_num as int)),
            (r is None <==> self.spec_reg_value(reg_num as int) is None),
    {
        match self.reg_map_index(reg_num) {
            Some(x) => Some(self.reg_raw(x)),
            None => None,
        }
    }

    /// Mutable access to the cell that logical register `reg_num` denotes
    /// under the current banking, or `None` where it is unmapped.
    pub fn reg_mut(&mut self, reg_num: i8) -> (r: Option<&mut Register>)
        requires
            R0 <= reg_num <= R15,
            old(self).wf(),
        ensures
            ({
                let m = spec_reg_map_index(
                    spec_is_thumb(old(self).cpsr@),
                    old(self).spec_mode(),
                    reg_num as int,
                );
                &&& (r is Some <==> m is Some)
                &&& (m matches Some(p) ==> (r matches Some(cell) && *cell == old(self).regs@[p]
                    && final(self).regs@ == old(self).regs@.update(p, *final(cell))))
                &&& (m is None ==> *final(self) == *old(self))
            }),
            final(self).cpsr == old(self).cpsr,
            final(self).spsr == old(self).spsr,
    {
        match self.reg_map_index(reg_num) {
            Some(x) => Some(self.reg_raw_mut(x)),
            None => None,
        }
    }

    /// The program counter. The PC is unbanked: every mode reads the same
    /// physical cell.
    pub fn pc(&self) -> (r: RType)
        requires
            self.wf(),
        ensures
            r == self.regs@[PC as int]@,
    {
        self.reg_raw(PC).read()
    }

    /// Advances the PC by one instruction width: by 2 clearing bit 0 in Thumb
    /// state, by 4 clearing bits 0-1 in ARM state.
    pub fn inc_pc(&mut self)
        requires
            old(self).wf(),
            spec_is_thumb(old(self).cpsr@) ==> old(self).regs@[PC as int]@ + 2 <= u32::MAX,
            !spec_is_thumb(old(self).cpsr@) ==> old(self).regs@[PC as int]@ + 4 <= u32::MAX,
        ensures
            ({
                let pcv = old(self).regs@[PC as int]@;
                let newpc: u32 = if spec_is_thumb(old(self).cpsr@) {
                    ((pcv + 2) as u32) & 0xFFFF_FFFEu32
                } else {
                    ((pcv + 4) as u32) & 0xFFFF_FFFCu32
                };
                final(self).regs@ == old(self).regs@.update(PC as int, Register(newpc))
            }),
            final(self).cpsr == old(self).cpsr,
            final(self).spsr == old(self).spsr,
            final(self).wf(),
    {
        let pc_val = self.reg_raw(PC).read();
        if self.is_thumb() {
            self.reg_raw_mut(PC).write((pc_val + 0b10) & 0xFFFFFFFE);
        } else {
            self.reg_raw_mut(PC).write((pc_val + 0b100) & 0xFFFFFFFC)
        }
    }

    /// Overwrites the program counter.
    pub fn set_pc(&mut self, pc_val: RType)
        requires
            old(self).wf(),
        ensures
            final(self).regs@ == old(self).regs@.update(PC as int, Register(pc_val)),
            final(self).cpsr == old(self).cpsr,
            final(self).spsr == old(self).spsr,
            final(self).wf(),
    {
        self.reg_raw_mut(PC).write(pc_val);
    }

    /// The current status word.
    pub fn cpsr(&self) -> (r: &Register)
        ensures
            *r == self.cpsr,
    {
        &self.cpsr
    }

    /// The saved status word of the active privileged mode, or `None` in User
    /// and System mode, which have none.
    pub fn spsr(&self) -> (r: Option<&Register>)
        requires
            self.wf(),
        ensures
            ({
                let m = spec_spsr_index(self.spec_mode());
                &&& (r is Some <==> m is Some)
                &&& (m matches Some(i) ==> r matches Some(cell) && *cell == self.spsr@[i])
            }),
    {
        match self.mode() {
            ARM7Mode::User => None,
            ARM7Mode::FIQ => Some(&self.spsr[SPSR_FIQ as usize]),
            ARM7Mode::IRQ => Some(&self.spsr[SPSR_IRQ as usize]),
            ARM7Mode::Supervisor => Some(&self.spsr[SPSR_SV as usize]),
            ARM7Mode::Abort => Some(&self.spsr[SPSR_ABT as usize]),
            ARM7Mode::Undefined => Some(&self.spsr[SPSR_UND as usize]),
            ARM7Mode::System => None,
        }
    }

    /// The decoded execution mode. The 25 invalid bit patterns are
    /// unreachable, which well-formedness guarantees.
    pub fn mode(&self) -> (r: ARM7Mode)
        requires
            self.wf(),
        ensures
            Some(r) == spec_mode_of_bits(self.cpsr@ & M_MASK),
            r == self.spec_mode(),
    {
        let bits = self.cpsr.read_masked(M_MASK);
        if bits == USER_MODE {
            ARM7Mode::User
        } else if bits == FIQ_MODE {
            ARM7Mode::FIQ
        } else if bits == IRQ_MODE {
            ARM7Mode::IRQ
        } else if bits == SV_MODE {
            ARM7Mode::Supervisor
        } else if bits == ABRT_MODE {
            ARM7Mode::Abort
        } else if bits == UDEF_MODE {
            ARM7Mode::Undefined
        } else if bits == SYS_MODE {
            ARM7Mode::System
        } else {
            unreached()
        }
    }

    /// Masked-sets the mode field. Banking is a lookup-time relabeling, so no
    /// register value is copied.
    pub fn set_mode(&mut self, new_mode: ARM7Mode)
        ensures
            *final(self) == spec_set_mode(*old(self), new_mode),
            old(self).wf() ==> final(self).wf(),
    {
        proof {
            lemma_mode_bits_low5(old(self).cpsr@, spec_mode_bits(new_mode));
            if old(self).wf() {
                lemma_valid_mode_or(
                    old(self).cpsr@ & M_MASK,
                    spec_mode_bits(new_mode),
                );
            }
        }
        let b = new_mode.bits();
        self.cpsr.set(M_MASK, b)
    }

    // Negative or less than.
    pub fn is_neg_lt(&self) -> (r: bool)
        ensures
            r == spec_is_neg(self.cpsr@),
    {
        self.cpsr.read_masked(N_MASK) != 0
    }

    pub fn set_neg_lt(&mut self)
        ensures
            final(self).cpsr@ == (old(self).cpsr@ | N_MASK),
            final(self).regs == old(self).regs,
            final(self).spsr == old(self).spsr,
            old(self).wf() ==> final(self).wf(),
    {
        proof {
            lemma_mask_absorb();
            lemma_flag_leaves_mode(old(self).cpsr@, N_MASK);
        }
        self.cpsr.set(N_MASK, N_MASK);
    }

    pub fn reset_neg_lt(&mut self)
        ensures
            final(self).cpsr@ == (old(self).cpsr@ & !N_MASK),
            final(self).regs == old(self).regs,
            final(self).spsr == old(self).spsr,
            old(self).wf() ==> final(self).wf(),
    {
        proof {
            lemma_mask_absorb();
            lemma_flag_leaves_mode(old(self).cpsr@, N_MASK);
        }
        self.cpsr.reset(N_MASK, N_MASK);
    }

    // Zero.
    pub fn is_zero(&self) -> (r: bool)
        ensures
            r == spec_is_zero(self.cpsr@),
    {
        self.cpsr.read_masked(Z_MASK) != 0
    }

    pub fn set_zero(&mut self)
        ensures
            final(self).cpsr@ == (old(self).cpsr@ | Z_MASK),
            final(self).regs == old(self).regs,
            final(self).spsr == old(self).spsr,
            old(self).wf() ==> final(self).wf(),
    {
        proof {
            lemma_mask_absorb();
            lemma_flag_leaves_mode(old(self).cpsr@, Z_MASK);
        }
        self.cpsr.set(Z_MASK, Z_MASK);
    }

    pub fn reset_zero(&mut self)
        ensures
            final(self).cpsr@ == (old(self).cpsr@ & !Z_MASK),
            final(self).regs == old(self).regs,
            final(self).spsr == old(self).spsr,
            old(self).wf() ==> final(self).wf(),
    {
        proof {
            lemma_mask_absorb();
            lemma_flag_leaves_mode(old(self).cpsr@, Z_MASK);
        }
        self.cpsr.reset(Z_MASK, Z_MASK);
    }

    // Carry, borrow, or extend.
    pub fn is_carry(&self) -> (r: bool)
        ensures
            r == spec_is_carry(self.cpsr@),
    {
        self.cpsr.read_masked(C_MASK) != 0
    }

    pub fn set_carry(&mut self)
        ensures
            final(self).cpsr@ == (old(self).cpsr@ | C_MASK),
            final(self).regs == old(self).regs,
            final(self).spsr == old(self).spsr,
            old(self).wf() ==> final(self).wf(),
    {
        proof {
            lemma_mask_absorb();
            lemma_flag_leaves_mode(old(self).cpsr@, C_MASK);
        }
        self.cpsr.set(C_MASK, C_MASK);
    }

    pub fn reset_carry(&mut self)
        ensures
            final(self).cpsr@ == (old(self).cpsr@ & !C_MASK),
            final(self).regs == old(self).regs,
            final(self).spsr == old(self).spsr,
            old(self).wf() ==> final(self).wf(),
    {
        proof {
            lemma_mask_absorb();
            lemma_flag_leaves_mode(old(self).cpsr@, C_MASK);
        }
        self.cpsr.reset(C_MASK, C_MASK);
    }

    // Overflow.
    pub fn is_overflow(&self) -> (r: bool)
        ensures
            r == spec_is_overflow(self.cpsr@),
    {
        self.cpsr.read_masked(V_MASK) != 0
    }

    pub fn set_overflow(&mut self)
        ensures
            final(self).cpsr@ == (old(self).cpsr@ | V_MASK),
            final(self).regs == old(self).regs,
            final(self).spsr == old(self).spsr,
            old(self).wf() ==> final(self).wf(),
    {
        proof {
            lemma_mask_absorb();
            lemma_flag_leaves_mode(old(self).cpsr@, V_MASK);
        }
        self.cpsr.set(V_MASK, V_MASK);
    }

    pub fn reset_overflow(&mut self)
        ensures
            final(self).cpsr@ == (old(self).cpsr@ & !V_MASK),
            final(self).regs == old(self).regs,
            final(self).spsr == old(self).spsr,
            old(self).wf() ==> final(self).wf(),
    {
        proof {
            lemma_mask_absorb();
            lemma_flag_leaves_mode(old(self).cpsr@, V_MASK);
        }
        self.cpsr.reset(V_MASK, V_MASK);
    }

    /// Clears all four condition flags at once.
    pub fn reset_cond(&mut self)
        ensures
            final(self).cpsr@ == (old(self).cpsr@ & !COND_MASK),
            final(self).regs == old(self).regs,
            final(self).spsr == old(self).spsr,
            old(self).wf() ==> final(self).wf(),
    {
        proof {
            lemma_mask_absorb();
            lemma_flag_leaves_mode(old(self).cpsr@, COND_MASK);
        }
        self.cpsr.reset(COND_MASK, COND_MASK);
    }

    // IRQ disable.
    pub fn is_irq_disable(&self) -> (r: bool)
        ensures
            r == spec_is_irq_disable(self.cpsr@),
    {
        self.cpsr.read_masked(I_MASK) != 0
    }

    pub fn set_irq_disable(&mut self)
        ensures
            final(self).cpsr@ == (old(self).cpsr@ | I_MASK),
            final(self).regs == old(self).regs,
            final(self).spsr == old(self).spsr,
            old(self).wf() ==> final(self).wf(),
    {
        proof {
            lemma_mask_absorb();
            lemma_flag_leaves_mode(old(self).cpsr@, I_MASK);
        }
        self.cpsr.set(I_MASK, I_MASK);
    }

    pub fn reset_irq_disable(&mut self)
        ensures
            final(self).cpsr@ == (old(self).cpsr@ & !I_MASK),
            final(self).regs == old(self).regs,
            final(self).spsr == old(self).spsr,
            old(self).wf() ==> final(self).wf(),
    {
        proof {
            lemma_mask_absorb();
            lemma_flag_leaves_mode(old(self).cpsr@, I_MASK);
        }
        self.cpsr.reset(I_MASK, I_MASK);
    }

    // FIQ disable.
    pub fn is_fiq_disable(&self) -> (r: bool)
        ensures
            r == spec_is_fiq_disable(self.cpsr@),
    {
        self.cpsr.read_masked(F_MASK) != 0
    }

    pub fn set_fiq_disable(&mut self)
        ensures
            final(self).cpsr@ == (old(self).cpsr@ | F_MASK),
            final(self).regs == old(self).regs,
            final(self).spsr == old(self).spsr,
            old(self).wf() ==> final(self).wf(),
    {
        proof {
            lemma_mask_absorb();
            lemma_flag_leaves_mode(old(self).cpsr@, F_MASK);
        }
        self.cpsr.set(F_MASK, F_MASK);
    }

    pub fn reset_fiq_disable(&mut self)
        ensures
            final(self).cpsr@ == (old(self).cpsr@ & !F_MASK),
            final(self).regs == old(self).regs,
            final(self).spsr == old(self).spsr,
            old(self).wf() ==> final(self).wf(),
    {
        proof {
            lemma_mask_absorb();
            lemma_flag_leaves_mode(old(self).cpsr@, F_MASK);
        }
        self.cpsr.reset(F_MASK, F_MASK);
    }

    // Thumb state.
    pub fn is_thumb(&self) -> (r: bool)
        ensures
            r == spec_is_thumb(self.cpsr@),
    {
        self.cpsr.read_masked(T_MASK) != 0
    }

    pub fn set_thumb(&mut self)
        ensures
            final(self).cpsr@ == (old(self).cpsr@ | T_MASK),
            final(self).regs == old(self).regs,
            final(self).spsr == old(self).spsr,
            old(self).wf() ==> final(self).wf(),
    {
        proof {
            lemma_mask_absorb();
            lemma_flag_leaves_mode(old(self).cpsr@, T_MASK);
        }
        self.cpsr.set(T_MASK, T_MASK);
    }

    pub fn reset_thumb(&mut self)
        ensures
            final(self).cpsr@ == (old(self).cpsr@ & !T_MASK),
            final(self).regs == old(self).regs,
            final(self).spsr == old(self).spsr,
            old(self).wf() ==> final(self).wf(),
    {
        proof {
            lemma_mask_absorb();
            lemma_flag_leaves_mode(old(self).cpsr@, T_MASK);
        }
        self.cpsr.reset(T_MASK, T_MASK);
    }
}

impl Default for ARM7 {
    /// Post-reset state: all cells zero, mode forced to FIQ, IRQ disabled so
    /// that interrupts stay masked before mode-sensitive code runs.
    fn default() -> (cpu: ARM7)
        ensures
            cpu.wf(),
            cpu.regs@.len() == NUM_REGS,
            cpu.spsr@.len() == NUM_STATUS_REGS,
            forall|i: int| 0 <= i < NUM_REGS ==> cpu.regs@[i]@ == 0u32,
            forall|i: int| 0 <= i < NUM_STATUS_REGS ==> cpu.spsr@[i]@ == 0u32,
            cpu.cpsr@ == (FIQ_MODE | I_MASK),
    {
        let mut regs: Vec<Register> = Vec::new();
        let mut i: usize = 0;
        while i < NUM_REGS
            invariant
                i == regs@.len(),
                i <= NUM_REGS,
                forall|j: int| 0 <= j < i ==> regs@[j]@ == 0u32,
            decreases NUM_REGS - i,
        {
            regs.push(Register::default());
            i = i + 1;
        }
        let mut spsr: Vec<Register> = Vec::new();
        let mut k: usize = 0;
        while k < NUM_STATUS_REGS
            invariant
                k == spsr@.len(),
                k <= NUM_STATUS_REGS,
                forall|j: int| 0 <= j < k ==> spsr@[j]@ == 0u32,
            decreases NUM_STATUS_REGS - k,
        {
            spsr.push(Register::default());
            k = k + 1;
        }
        let mut cpu = ARM7 { regs, cpsr: Register::default(), spsr };

        proof {
            lemma_or_of_zero(FIQ_MODE, I_MASK);
        }
        cpu.set_mode(ARM7Mode::FIQ);
        cpu.set_irq_disable();
        proof {
            assert((FIQ_MODE | I_MASK) & M_MASK == FIQ_MODE) by (bit_vector);
        }
        cpu
    }
}

// Bit-level lemmas about the status word.

/// Masking a mask with itself changes nothing.
proof fn lemma_mask_absorb()
    by (bit_vector)
    ensures
        forall|m: u32| #[trigger] (m & m) == m,
{
}

/// Or-ing into the zero word just deposits the bits.
proof fn lemma_or_of_zero(a: u32, b: u32)
    by (bit_vector)
    ensures
        (0u32 | a) | b == a | b,
{
}

/// Setting or clearing a flag bit, or the condition field, leaves the mode
/// field of the status word unchanged.
proof fn lemma_flag_leaves_mode(psr: u32, m: u32)
    requires
        is_flag_mask(m) || m == COND_MASK,
    ensures
        (psr | m) & M_MASK == psr & M_MASK,
        (psr & !m) & M_MASK == psr & M_MASK,
{
    assert((is_flag_mask(m) || m == COND_MASK) ==> ((psr | m) & M_MASK == psr & M_MASK && (psr
        & !m) & M_MASK == psr & M_MASK)) by (bit_vector);
}

/// A 5-bit value or-ed into the status word lands entirely inside the mode
/// field and leaves every other bit alone.
proof fn lemma_mode_bits_low5(psr: u32, b: u32)
    requires
        b <= 0x1F,
    ensures
        b & M_MASK == b,
        (psr | b) & M_MASK == (psr & M_MASK) | b,
        (psr | b) & N_MASK == psr & N_MASK,
        (psr | b) & Z_MASK == psr & Z_MASK,
        (psr | b) & C_MASK == psr & C_MASK,
        (psr | b) & V_MASK == psr & V_MASK,
        (psr | b) & I_MASK == psr & I_MASK,
        (psr | b) & F_MASK == psr & F_MASK,
        (psr | b) & T_MASK == psr & T_MASK,
{
    assert(b <= 0x1F ==> (b & 0x1Fu32 == b && (psr | b) & 0x1Fu32 == (psr & 0x1Fu32) | b && (psr
        | b) & 0x80000000u32 == psr & 0x80000000u32 && (psr | b) & 0x40000000u32 == psr
        & 0x40000000u32 && (psr | b) & 0x20000000u32 == psr & 0x20000000u32 && (psr | b)
        & 0x10000000u32 == psr & 0x10000000u32 && (psr | b) & 0x80u32 == psr & 0x80u32 && (psr | b)
        & 0x40u32 == psr & 0x40u32 && (psr | b) & 0x20u32 == psr & 0x20u32)) by (bit_vector);
}

/// The set of valid mode encodings is closed under bitwise or: masked-setting
/// a valid mode into a well-formed status word can never produce one of the
/// invalid patterns.
proof fn lemma_valid_mode_or(cur: u32, b: u32)
    requires
        is_valid_mode_bits(cur),
        is_valid_mode_bits(b),
    ensures
        is_valid_mode_bits(cur | b),
{
    assert((is_valid_mode_bits(cur) && is_valid_mode_bits(b)) ==> is_valid_mode_bits(cur | b))
        by (bit_vector);
}

/// Setting or clearing any one status flag leaves every other flag, both
/// interrupt masks, and the mode field of the status word unchanged.
pub proof fn lemma_flag_isolation(psr: u32, m1: u32, m2: u32)
    requires
        is_flag_mask(m1),
        is_flag_mask(m2) || m2 == M_MASK,
        m1 != m2,
    ensures
        ((psr | m1) & m2) == (psr & m2),
        ((psr & !m1) & m2) == (psr & m2),
{
    assert((is_flag_mask(m1) && (is_flag_mask(m2) || m2 == 0x1Fu32) && m1 != m2) ==> (((psr | m1)
        & m2) == (psr & m2) && ((psr & !m1) & m2) == (psr & m2))) by (bit_vector);
}

/// Banking is relabeling, never a copy: if two successive mode transitions
/// return the mode field to its original value, then every logical register
/// afterwards denotes the same physical cell, holding the same value, as
/// before. No transition moved any register value in between.
pub proof fn lemma_banking_relabels(s: ARM7, m1: ARM7Mode, m2: ARM7Mode, n: int)
    requires
        s.wf(),
        0 <= n <= 15,
        spec_set_mode(spec_set_mode(s, m1), m2).cpsr@ & M_MASK == s.cpsr@ & M_MASK,
    ensures
        spec_set_mode(spec_set_mode(s, m1), m2).wf(),
        spec_set_mode(spec_set_mode(s, m1), m2).spec_reg_value(n) == s.spec_reg_value(n),
{
    let s2 = spec_set_mode(spec_set_mode(s, m1), m2);
    assert(spec_mode_bits(m1) <= 0x1F && spec_mode_bits(m2) <= 0x1F);
    lemma_mode_bits_low5(s.cpsr@, spec_mode_bits(m1));
    lemma_mode_bits_low5(s.cpsr@ | spec_mode_bits(m1), spec_mode_bits(m2));
    assert(s2.cpsr@ & T_MASK == s.cpsr@ & T_MASK);
    assert(s2.spec_mode() == s.spec_mode());
    assert(s2.regs == s.regs);
}

} // verus!
