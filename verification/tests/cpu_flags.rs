//! Status flag accessors, their isolation from one another, the storage
//! cell, and the program counter.

use gba_core::gba_cpu::arm_cpu::ARM7;
use gba_core::gba_cpu::arm_cpu::ARM7Mode;
use gba_core::gba_cpu::arm_cpu::FIQ_MODE;
use gba_core::gba_cpu::arm_cpu::I_MASK;
use gba_core::gba_cpu::register::Register;

/// The readable fields of the status word, for cross-product checks.
fn observe(cpu: &ARM7) -> (bool, bool, bool, bool, bool, bool, bool, ARM7Mode) {
    (
        cpu.is_neg_lt(),
        cpu.is_zero(),
        cpu.is_carry(),
        cpu.is_overflow(),
        cpu.is_irq_disable(),
        cpu.is_fiq_disable(),
        cpu.is_thumb(),
        cpu.mode(),
    )
}

fn apply(cpu: &mut ARM7, which: usize, set: bool) {
    match (which, set) {
        (0, true) => cpu.set_neg_lt(),
        (0, false) => cpu.reset_neg_lt(),
        (1, true) => cpu.set_zero(),
        (1, false) => cpu.reset_zero(),
        (2, true) => cpu.set_carry(),
        (2, false) => cpu.reset_carry(),
        (3, true) => cpu.set_overflow(),
        (3, false) => cpu.reset_overflow(),
        (4, true) => cpu.set_irq_disable(),
        (4, false) => cpu.reset_irq_disable(),
        (5, true) => cpu.set_fiq_disable(),
        (5, false) => cpu.reset_fiq_disable(),
        (6, true) => cpu.set_thumb(),
        (6, false) => cpu.reset_thumb(),
        _ => panic!("no such flag"),
    }
}

#[test]
fn flag_isolation_pairwise() {
    // Setting or clearing any one flag leaves every other flag, the mode
    // bits, and the interrupt masks unchanged, from both all-clear and
    // all-set starting points.
    for which in 0usize..7 {
        for &set in [true, false].iter() {
            for &others_set in [false, true].iter() {
                let mut cpu = ARM7::default();
                if others_set {
                    for w in 0usize..7 {
                        apply(&mut cpu, w, true);
                    }
                }
                let before = observe(&cpu);
                apply(&mut cpu, which, set);
                let after = observe(&cpu);
                let mut b = [before.0, before.1, before.2, before.3, before.4, before.5, before.6];
                let a = [after.0, after.1, after.2, after.3, after.4, after.5, after.6];
                b[which] = set;
                assert_eq!(a, b, "flag {} set={} others_set={}", which, set, others_set);
                assert_eq!(after.7, before.7, "mode changed by flag {}", which);
            }
        }
    }
}

#[test]
fn default_state_is_post_reset() {
    let cpu = ARM7::default();
    // All cells zero, mode forced to FIQ, IRQ disabled.
    assert_eq!(cpu.mode(), ARM7Mode::FIQ);
    assert!(cpu.is_irq_disable());
    assert!(!cpu.is_fiq_disable());
    assert!(!cpu.is_thumb());
    assert!(!cpu.is_neg_lt());
    assert!(!cpu.is_zero());
    assert!(!cpu.is_carry());
    assert!(!cpu.is_overflow());
    assert_eq!(cpu.cpsr().read(), FIQ_MODE | I_MASK);
    assert_eq!(cpu.pc(), 0);
    for reg in 0i8..16 {
        assert_eq!(cpu.reg(reg).unwrap().read(), 0);
    }
}

#[test]
fn reset_cond_clears_all_four_flags() {
    let mut cpu = ARM7::default();
    cpu.set_neg_lt();
    cpu.set_zero();
    cpu.set_carry();
    cpu.set_overflow();
    cpu.set_thumb();
    cpu.reset_cond();
    assert!(!cpu.is_neg_lt());
    assert!(!cpu.is_zero());
    assert!(!cpu.is_carry());
    assert!(!cpu.is_overflow());
    // Control bits and mode are untouched.
    assert!(cpu.is_thumb());
    assert!(cpu.is_irq_disable());
    assert_eq!(cpu.mode(), ARM7Mode::FIQ);
}

#[test]
fn inc_pc_arm_state() {
    let mut cpu = ARM7::default();
    cpu.set_pc(0x00000000);
    cpu.inc_pc();
    assert_eq!(cpu.pc(), 0x00000004);
}

#[test]
fn inc_pc_thumb_state() {
    let mut cpu = ARM7::default();
    cpu.set_thumb();
    cpu.set_pc(0x00000001);
    cpu.inc_pc();
    assert_eq!(cpu.pc(), 0x00000002);
}

#[test]
fn inc_pc_alignment() {
    let mut cpu = ARM7::default();
    cpu.set_pc(0x1003);
    cpu.inc_pc();
    assert_eq!(cpu.pc(), 0x1004);
    cpu.set_thumb();
    cpu.set_pc(0x1003);
    cpu.inc_pc();
    assert_eq!(cpu.pc(), 0x1004);
}

#[test]
fn pc_is_unbanked() {
    let mut cpu = ARM7::default();
    cpu.set_pc(0x0800_0000);
    cpu.set_mode(ARM7Mode::System);
    assert_eq!(cpu.pc(), 0x0800_0000);
    assert_eq!(cpu.reg(15).unwrap().read(), 0x0800_0000);
}

#[test]
fn register_masked_operations() {
    let mut r = Register::default();
    assert_eq!(r.read(), 0);

    // set restricts the value to the mask before or-ing it in.
    r.set(0x0000_00F0, 0xFFFF_FFFF);
    assert_eq!(r.read(), 0x0000_00F0);

    // toggle restricts the value to the mask before xor-ing.
    r.toggle(0x0000_0FF0, 0xFFFF_FFFF);
    assert_eq!(r.read(), 0x0000_0F00);

    // reset restricts the value to the mask before clearing.
    r.reset(0x0000_0F00, 0x0000_0300);
    assert_eq!(r.read(), 0x0000_0C00);

    assert_eq!(r.read_masked(0x0000_0400), 0x0000_0400);
    assert_eq!(r.read_masked(0x0000_0100), 0);

    r.write(0xDEAD_BEEF);
    assert_eq!(r.read(), 0xDEAD_BEEF);
}
