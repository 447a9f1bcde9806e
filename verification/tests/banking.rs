//! The logical-to-physical register mapping, mode transitions, and the
//! saved status words.

use gba_core::gba_cpu::arm_cpu::ABRT_MODE;
use gba_core::gba_cpu::arm_cpu::ARM7;
use gba_core::gba_cpu::arm_cpu::ARM7Mode;
use gba_core::gba_cpu::arm_cpu::FIQ_MODE;
use gba_core::gba_cpu::arm_cpu::IRQ_MODE;
use gba_core::gba_cpu::arm_cpu::SV_MODE;
use gba_core::gba_cpu::arm_cpu::SYS_MODE;
use gba_core::gba_cpu::arm_cpu::UDEF_MODE;
use gba_core::gba_cpu::arm_cpu::USER_MODE;
use gba_core::gba_cpu::register::Register;

fn cpu_in_mode(mode_bits: u32) -> ARM7 {
    let mut cpu = ARM7::default();
    cpu.cpsr = Register(mode_bits);
    cpu
}

/// The register availability map of the ARM7TDMI reference, section 2.6.1:
/// for each mode, the physical cell behind each logical register in ARM
/// state.
fn arm_state_table(mode_bits: u32) -> [i8; 16] {
    match mode_bits {
        USER_MODE | SYS_MODE => [0, 1, 2, 3, 4, 5, 6, 7, 8, 9, 10, 11, 12, 13, 14, 15],
        FIQ_MODE => [0, 1, 2, 3, 4, 5, 6, 7, 16, 17, 18, 19, 20, 21, 22, 15],
        IRQ_MODE => [0, 1, 2, 3, 4, 5, 6, 7, 8, 9, 10, 11, 12, 27, 28, 15],
        SV_MODE => [0, 1, 2, 3, 4, 5, 6, 7, 8, 9, 10, 11, 12, 23, 24, 15],
        ABRT_MODE => [0, 1, 2, 3, 4, 5, 6, 7, 8, 9, 10, 11, 12, 25, 26, 15],
        UDEF_MODE => [0, 1, 2, 3, 4, 5, 6, 7, 8, 9, 10, 11, 12, 29, 30, 15],
        _ => panic!("not a mode"),
    }
}

#[test]
fn reg_map_arm_state_all_modes() {
    for &mode_bits in
        [USER_MODE, FIQ_MODE, IRQ_MODE, SV_MODE, ABRT_MODE, UDEF_MODE, SYS_MODE].iter()
    {
        let cpu = cpu_in_mode(mode_bits);
        let table = arm_state_table(mode_bits);
        for reg in 0i8..16 {
            assert_eq!(
                cpu.reg_map_index(reg),
                Some(table[reg as usize]),
                "mode bits {:#x}, register {}",
                mode_bits,
                reg
            );
        }
    }
}

#[test]
fn reg_map_thumb_state() {
    let mut cpu = ARM7::default();
    cpu.set_thumb();
    for reg in 0i8..8 {
        assert_eq!(cpu.reg_map_index(reg), Some(reg));
    }
    // High registers, the PC included, are unavailable on the direct path in
    // Thumb state; callers special-case the PC through pc()/set_pc().
    for reg in 8i8..16 {
        assert_eq!(cpu.reg_map_index(reg), None);
        assert!(cpu.reg(reg).is_none());
    }
}

#[test]
fn banking_is_relabeling_not_copying() {
    let mut cpu = cpu_in_mode(USER_MODE);
    cpu.reg_mut(13).unwrap().write(0x111);
    assert_eq!(cpu.reg(13).unwrap().read(), 0x111);

    // Masked-setting FIQ over User flips to the FIQ bank: R13 now names a
    // different, untouched cell.
    cpu.set_mode(ARM7Mode::FIQ);
    assert_eq!(cpu.mode(), ARM7Mode::FIQ);
    assert_eq!(cpu.reg(13).unwrap().read(), 0);
    cpu.reg_mut(13).unwrap().write(0x222);

    // Returning the mode field to its old value exposes the old value,
    // unmodified: the banked cells held their contents all along.
    cpu.cpsr = Register(USER_MODE);
    assert_eq!(cpu.reg(13).unwrap().read(), 0x111);
    cpu.cpsr = Register(FIQ_MODE);
    assert_eq!(cpu.reg(13).unwrap().read(), 0x222);
}

#[test]
fn unbanked_registers_shared_across_modes() {
    let mut cpu = cpu_in_mode(USER_MODE);
    cpu.reg_mut(3).unwrap().write(0xABCD);
    cpu.set_mode(ARM7Mode::Undefined);
    assert_eq!(cpu.mode(), ARM7Mode::Undefined);
    // R0-R7 map identity in every mode.
    assert_eq!(cpu.reg(3).unwrap().read(), 0xABCD);
}

#[test]
fn reg_op_applies_to_banked_cell() {
    let mut cpu = ARM7::default();
    assert_eq!(cpu.mode(), ARM7Mode::FIQ);
    cpu.reg_op(8, |r: Register| Register(r.read() + 5));
    cpu.reg_op(8, |r: Register| Register(r.read() * 3));
    assert_eq!(cpu.reg(8).unwrap().read(), 15);
    // The base R8 cell was never touched: System mode exposes it as zero.
    cpu.set_mode(ARM7Mode::System);
    assert_eq!(cpu.reg(8).unwrap().read(), 0);
}

#[test]
fn spsr_by_mode() {
    for &mode_bits in [FIQ_MODE, IRQ_MODE, SV_MODE, ABRT_MODE, UDEF_MODE].iter() {
        let cpu = cpu_in_mode(mode_bits);
        assert!(cpu.spsr().is_some(), "mode bits {:#x}", mode_bits);
        assert_eq!(cpu.spsr().unwrap().read(), 0);
    }
    // User and System have no saved status: no exception entry is possible
    // from them.
    for &mode_bits in [USER_MODE, SYS_MODE].iter() {
        let cpu = cpu_in_mode(mode_bits);
        assert!(cpu.spsr().is_none(), "mode bits {:#x}", mode_bits);
    }
}

#[test]
fn mode_decode_round_trip() {
    let modes = [
        (USER_MODE, ARM7Mode::User),
        (FIQ_MODE, ARM7Mode::FIQ),
        (IRQ_MODE, ARM7Mode::IRQ),
        (SV_MODE, ARM7Mode::Supervisor),
        (ABRT_MODE, ARM7Mode::Abort),
        (UDEF_MODE, ARM7Mode::Undefined),
        (SYS_MODE, ARM7Mode::System),
    ];
    for &(bits, mode) in modes.iter() {
        let cpu = cpu_in_mode(bits);
        assert_eq!(cpu.mode(), mode);
        assert_eq!(mode.bits(), bits);
    }
}

#[test]
fn set_mode_leaves_flags_alone() {
    let mut cpu = ARM7::default();
    cpu.set_zero();
    cpu.set_carry();
    cpu.set_thumb();
    cpu.set_mode(ARM7Mode::Undefined);
    assert_eq!(cpu.mode(), ARM7Mode::Undefined);
    assert!(cpu.is_zero());
    assert!(cpu.is_carry());
    assert!(cpu.is_thumb());
    assert!(cpu.is_irq_disable());
    assert!(!cpu.is_neg_lt());
    assert!(!cpu.is_overflow());
    assert!(!cpu.is_fiq_disable());
}
