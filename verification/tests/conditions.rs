//! The condition evaluator against the canonical truth table, and
//! instruction decode.

use gba_core::gba_cpu::Instruction;
use gba_core::gba_cpu::arm_cpu::ARM7;
use gba_core::gba_cpu::arm_instr::Branch;
use gba_core::gba_cpu::arm_instr::Cond;
use gba_core::gba_cpu::arm_instr::decode;

fn cpu_with_flags(n: bool, z: bool, c: bool, v: bool) -> ARM7 {
    let mut cpu = ARM7::default();
    if n {
        cpu.set_neg_lt();
    }
    if z {
        cpu.set_zero();
    }
    if c {
        cpu.set_carry();
    }
    if v {
        cpu.set_overflow();
    }
    cpu
}

fn expected(cond: Cond, n: bool, z: bool, c: bool, v: bool) -> bool {
    match cond {
        Cond::EQ => z,
        Cond::NE => !z,
        Cond::CS => c,
        Cond::CC => !c,
        Cond::MI => n,
        Cond::PL => !n,
        Cond::VS => v,
        Cond::VC => !v,
        Cond::HI => c && !z,
        Cond::LS => !c || z,
        Cond::GE => n == v,
        Cond::LT => n != v,
        Cond::GT => !z && n == v,
        Cond::LE => z || n != v,
        Cond::AL => true,
    }
}

const ALL_CONDS: [Cond; 15] = [
    Cond::EQ,
    Cond::NE,
    Cond::CS,
    Cond::CC,
    Cond::MI,
    Cond::PL,
    Cond::VS,
    Cond::VC,
    Cond::HI,
    Cond::LS,
    Cond::GE,
    Cond::LT,
    Cond::GT,
    Cond::LE,
    Cond::AL,
];

#[test]
fn truth_table_exhaustive() {
    for &cond in ALL_CONDS.iter() {
        for bits in 0u32..16 {
            let n = bits & 8 != 0;
            let z = bits & 4 != 0;
            let c = bits & 2 != 0;
            let v = bits & 1 != 0;
            let cpu = cpu_with_flags(n, z, c, v);
            assert_eq!(
                cond.is_satisfied(&cpu),
                expected(cond, n, z, c, v),
                "cond {:?} with n={} z={} c={} v={}",
                cond,
                n,
                z,
                c,
                v
            );
        }
    }
}

#[test]
fn cond_decode_all_encodings() {
    for (code, &cond) in ALL_CONDS.iter().enumerate() {
        let instr: u32 = (code as u32) << 28;
        assert_eq!(Cond::decode(instr), cond);
        // The low bits never matter for the condition field.
        assert_eq!(Cond::decode(instr | 0x00FF_FFFF), cond);
    }
}

#[test]
fn branch_decode_positive_offset() {
    // An always-taken branch forward by one word.
    let b = Branch::decode(0xEA000001);
    assert_eq!(b.cond, Cond::AL);
    assert!(!b.link);
    assert_eq!(b.off, 4);
}

#[test]
fn branch_decode_with_link() {
    let b = Branch::decode(0xEB000001);
    assert_eq!(b.cond, Cond::AL);
    assert!(b.link);
    assert_eq!(b.off, 4);
}

#[test]
fn branch_decode_negative_offset() {
    // The classic branch-to-self: a 24-bit offset of -2 words.
    let b = Branch::decode(0xEAFFFFFE);
    assert_eq!(b.cond, Cond::AL);
    assert!(!b.link);
    assert_eq!(b.off, -8);
}

#[test]
fn branch_decode_condition_field() {
    let b = Branch::decode(0x0A000010);
    assert_eq!(b.cond, Cond::EQ);
    assert!(!b.link);
    assert_eq!(b.off, 64);
}

#[test]
fn free_decode_routes_branches() {
    let b = decode(0x1A000002);
    assert_eq!(b.cond, Cond::NE);
    assert!(!b.link);
    assert_eq!(b.off, 8);
}

#[test]
fn branch_execute_is_a_stub() {
    let b = Branch::decode(0xEA000001);
    let mut cpu = ARM7::default();
    let bios = vec![0u8; 0x20000];
    let pak: Vec<u8> = Vec::new();
    let mut mem = gba_core::Memory::new(&bios, &pak).unwrap();
    b.execute(&mut cpu, &mut mem);
    assert_eq!(cpu.pc(), 0);
}
