use gb_core::bit_functions::{b, half_carry_add, reset, val};
use gb_core::cpu::{Pair, Reg8, Register, Z80};

fn cpu() -> Z80 {
    let mut c = Z80::new();
    c.init(false);
    c
}

#[test]
fn bit_helpers() {
    assert!(gb_core::bit_functions::test(0b1000_0000, 7));
    assert!(!gb_core::bit_functions::test(0b1000_0000, 6));
    assert_eq!(val(0b0000_0100, 2), 1);
    assert_eq!(gb_core::bit_functions::set(0x00, 3), 0x08);
    assert_eq!(reset(0xFF, 0), 0xFE);
    assert!(half_carry_add(0x0F, 0x01));
    assert!(!half_carry_add(0x07, 0x08));
    assert_eq!(b(true), 1);
    assert_eq!(b(false), 0);
}

#[test]
fn register_halves_and_mask() {
    let mut r = Register::new();
    r.set_hi(0x12);
    r.set_lo(0x34);
    assert_eq!(r.full(), 0x1234);
    assert_eq!(r.hi(), 0x12);
    assert_eq!(r.lo(), 0x34);
    let mut af = Register { value: 0, mask: 0xFFF0 };
    af.set_full(0xABCD);
    assert_eq!(af.full(), 0xABC0);
    af.set_lo(0xFF);
    assert_eq!(af.lo(), 0xF0);
}

#[test]
fn init_values() {
    let c = cpu();
    assert_eq!(c.af.full(), 0x01B0);
    assert_eq!(c.de.full(), 0xFF56);
    assert_eq!(c.hl.full(), 0x000D);
    assert_eq!(c.sp.full(), 0xFFFE);
    assert_eq!(c.pc, 0x100);
    let mut cgb = Z80::new();
    cgb.init(true);
    assert_eq!(cgb.af.full(), 0x1180);
}

#[test]
fn add_flags_follow_the_sum() {
    let mut c = cpu();
    c.add(Reg8::A, 0x0F, 0x01, false);
    assert_eq!(c.af.hi(), 0x10);
    assert!(c.h() && !c.c() && !c.z() && !c.n());
    c.add(Reg8::A, 0xF0, 0x10, false);
    assert_eq!(c.af.hi(), 0x00);
    assert!(c.z() && c.c() && !c.h());
    c.add(Reg8::A, 0x3A, 0xC6, false);
    assert!(c.z() && c.c() && c.h());
    c.add(Reg8::B, 0x12, 0x34, false);
    assert_eq!(c.bc.hi(), 0x46);
    assert!(!c.z() && !c.c() && !c.h());
}

#[test]
fn adc_uses_the_carry_only_when_asked() {
    let mut c = cpu();
    c.set_c(true);
    c.add(Reg8::A, 0x01, 0x01, true);
    assert_eq!(c.af.hi(), 0x03);
    c.set_c(true);
    c.add(Reg8::A, 0x01, 0x01, false);
    assert_eq!(c.af.hi(), 0x02);
}

#[test]
fn sub_then_add_restores() {
    for a in [0x00u8, 0x01, 0x7F, 0x80, 0xFF] {
        for v in [0x00u8, 0x01, 0x10, 0xF0, 0xFF] {
            let mut c = cpu();
            c.sub(Reg8::A, a, v, false);
            let r = c.af.hi();
            c.add(Reg8::A, r, v, false);
            assert_eq!(c.af.hi(), a);
        }
    }
}

#[test]
fn sub_flags() {
    let mut c = cpu();
    c.sub(Reg8::A, 0x10, 0x01, false);
    assert_eq!(c.af.hi(), 0x0F);
    assert!(c.n() && c.h() && !c.c() && !c.z());
    c.sub(Reg8::A, 0x01, 0x02, false);
    assert_eq!(c.af.hi(), 0xFF);
    assert!(c.c());
    c.sub(Reg8::A, 0x42, 0x42, false);
    assert!(c.z() && !c.c());
}

#[test]
fn dec_keeps_the_carry() {
    for carry in [false, true] {
        let mut c = cpu();
        c.set_c(carry);
        c.dec(Reg8::D, 0x00);
        assert_eq!(c.de.hi(), 0xFF);
        assert_eq!(c.c(), carry);
        assert!(c.n() && c.h());
        c.dec(Reg8::E, 0x01);
        assert!(c.z());
        assert_eq!(c.c(), carry);
    }
}

#[test]
fn inc_keeps_the_carry() {
    let mut c = cpu();
    c.set_c(true);
    c.inc(Reg8::L, 0x0F);
    assert_eq!(c.hl.lo(), 0x10);
    assert!(c.h() && c.c() && !c.n());
    c.inc(Reg8::L, 0xFF);
    assert!(c.z());
}

#[test]
fn logic_and_compare() {
    let mut c = cpu();
    c.and(Reg8::A, 0xF0, 0x0F);
    assert!(c.z() && c.h() && !c.c());
    c.or(Reg8::A, 0xF0, 0x0F);
    assert_eq!(c.af.hi(), 0xFF);
    assert!(!c.z() && !c.h());
    c.xor(Reg8::A, 0xAA, 0xAA);
    assert!(c.z());
    c.cp(0x10, 0x20);
    assert!(c.c() && c.n() && !c.z());
    c.cp(0x20, 0x20);
    assert!(c.z() && !c.c());
    c.cp(0x21, 0x12);
    assert!(!c.c() && c.h());
}

#[test]
fn sixteen_bit_add() {
    let mut c = cpu();
    c.set_z(true);
    c.add_16(Pair::HL, 0x0FFF, 0x0001);
    assert_eq!(c.hl.full(), 0x1000);
    assert!(c.h() && !c.c() && c.z());
    c.add_16(Pair::HL, 0xFFFF, 0x0001);
    assert_eq!(c.hl.full(), 0x0000);
    assert!(c.c());
    c.add_16_signed(Pair::SP, 0xFFF8, 0x08);
    assert_eq!(c.sp.full(), 0x0000);
    assert!(c.h() && c.c() && !c.z() && !c.n());
    c.add_16_signed(Pair::HL, 0x1000, -1);
    assert_eq!(c.hl.full(), 0x0FFF);
    assert_eq!(c.inc_16(0xFFFF), 0);
    assert_eq!(c.dec_16(0), 0xFFFF);
}

#[test]
fn flag_register_low_nibble_stays_clear() {
    let mut c = cpu();
    c.set_lo(Pair::AF, 0xFF);
    assert_eq!(c.af.lo(), 0xF0);
    c.set(Pair::AF, 0x12FF);
    assert_eq!(c.af.full(), 0x12F0);
    c.set_flags(false, false, false, false);
    assert_eq!(c.af.lo(), 0x00);
    c.set_flags(true, true, true, true);
    assert_eq!(c.af.lo(), 0xF0);
}

#[test]
fn decimal_adjust() {
    let mut c = cpu();
    c.add(Reg8::A, 0x45, 0x38, false);
    c.daa();
    assert_eq!(c.af.hi(), 0x83);
    c.sub(Reg8::A, 0x83, 0x38, false);
    c.daa();
    assert_eq!(c.af.hi(), 0x45);
}
