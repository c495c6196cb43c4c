use gb_cpu::gb::registers::{FlagsRegister, Registers};

fn flags(zero: bool, subtract: bool, half_carry: bool, carry: bool) -> FlagsRegister {
    FlagsRegister { zero, subtract, half_carry, carry }
}

fn registers() -> Registers {
    Registers { a: 0, b: 0, c: 0, d: 0, e: 0, f: flags(false, false, false, false), h: 0, l: 0 }
}

#[test]
fn flags_pack_into_the_high_nibble() {
    assert_eq!(u8::from(flags(true, false, false, false)), 0x80);
    assert_eq!(u8::from(flags(false, true, false, false)), 0x40);
    assert_eq!(u8::from(flags(false, false, true, false)), 0x20);
    assert_eq!(u8::from(flags(false, false, false, true)), 0x10);
    assert_eq!(u8::from(flags(true, true, true, true)), 0xF0);
    assert_eq!(u8::from(flags(false, false, false, false)), 0x00);
    assert_eq!(u8::from(flags(true, false, true, false)), 0xA0);
}

#[test]
fn flags_unpack_from_the_high_nibble() {
    assert_eq!(FlagsRegister::from(0x80), flags(true, false, false, false));
    assert_eq!(FlagsRegister::from(0x40), flags(false, true, false, false));
    assert_eq!(FlagsRegister::from(0x20), flags(false, false, true, false));
    assert_eq!(FlagsRegister::from(0x10), flags(false, false, false, true));
    assert_eq!(FlagsRegister::from(0xF0), flags(true, true, true, true));
    assert_eq!(FlagsRegister::from(0x00), flags(false, false, false, false));
    assert_eq!(FlagsRegister::from(0x50), flags(false, true, false, true));
}

#[test]
fn unpacking_ignores_the_low_nibble() {
    assert_eq!(FlagsRegister::from(0x0F), flags(false, false, false, false));
    assert_eq!(FlagsRegister::from(0x8F), flags(true, false, false, false));
    assert_eq!(FlagsRegister::from(0xFF), flags(true, true, true, true));
    for byte in 0..=255u8 {
        assert_eq!(FlagsRegister::from(byte), FlagsRegister::from(byte & 0xF0));
    }
}

#[test]
fn packing_what_was_unpacked_clears_the_low_nibble() {
    for byte in 0..=255u8 {
        assert_eq!(u8::from(FlagsRegister::from(byte)), byte & 0xF0);
    }
}

#[test]
fn unpacking_what_was_packed_gives_the_flags_back() {
    for bits in 0..16u8 {
        let value = flags(bits & 8 != 0, bits & 4 != 0, bits & 2 != 0, bits & 1 != 0);
        assert_eq!(FlagsRegister::from(u8::from(value)), value);
        assert_eq!(u8::from(value) & 0x0F, 0);
    }
}

#[test]
fn get_dr_puts_the_first_byte_high() {
    assert_eq!(Registers::get_dr(0x12, 0x34), 0x1234);
    assert_eq!(Registers::get_dr(0x00, 0xFF), 0x00FF);
    assert_eq!(Registers::get_dr(0xFF, 0x00), 0xFF00);
    assert_eq!(Registers::get_dr(0xFF, 0xFF), 0xFFFF);
    assert_eq!(Registers::get_dr(0x00, 0x00), 0x0000);
}

#[test]
fn pairs_are_made_of_the_single_registers() {
    let mut regs = registers();
    regs.b = 0x12;
    regs.c = 0x34;
    regs.d = 0x56;
    regs.e = 0x78;
    regs.h = 0x9A;
    regs.l = 0xBC;
    regs.a = 0xDE;
    regs.f = flags(true, false, true, false);
    assert_eq!(regs.get_bc(), 0x1234);
    assert_eq!(regs.get_de(), 0x5678);
    assert_eq!(regs.get_hl(), 0x9ABC);
    assert_eq!(regs.get_af(), 0xDEA0);
}

#[test]
fn setting_a_pair_sets_its_two_registers_only() {
    let mut regs = registers();
    regs.set_bc(0x1234);
    assert_eq!((regs.b, regs.c), (0x12, 0x34));
    assert_eq!((regs.a, regs.d, regs.e, regs.h, regs.l), (0, 0, 0, 0, 0));
    regs.set_de(0x5678);
    assert_eq!((regs.d, regs.e), (0x56, 0x78));
    assert_eq!((regs.b, regs.c), (0x12, 0x34));
    regs.set_hl(0x9ABC);
    assert_eq!((regs.h, regs.l), (0x9A, 0xBC));
    assert_eq!((regs.d, regs.e), (0x56, 0x78));
    regs.set_af(0xDE50);
    assert_eq!(regs.a, 0xDE);
    assert_eq!(regs.f, flags(false, true, false, true));
    assert_eq!((regs.b, regs.c, regs.d, regs.e, regs.h, regs.l), (0x12, 0x34, 0x56, 0x78, 0x9A, 0xBC));
}

#[test]
fn bc_de_hl_round_trip_for_sampled_values() {
    let samples = [0x0000u16, 0x0001, 0x00FF, 0x0100, 0x1234, 0x7FFF, 0x8000, 0xABCD, 0xFF00, 0xFFFF];
    for &value in samples.iter() {
        let mut regs = registers();
        regs.set_bc(value);
        assert_eq!(regs.get_bc(), value);
        regs.set_de(value);
        assert_eq!(regs.get_de(), value);
        regs.set_hl(value);
        assert_eq!(regs.get_hl(), value);
    }
}

#[test]
fn bc_round_trips_for_every_value() {
    let mut regs = registers();
    for value in 0..=0xFFFFu16 {
        regs.set_bc(value);
        assert_eq!(regs.get_bc(), value);
    }
}

#[test]
fn af_round_trips_where_the_low_nibble_is_clear() {
    let mut regs = registers();
    for high in 0..=0xFFFu16 {
        let value = high << 4;
        regs.set_af(value);
        assert_eq!(regs.get_af(), value);
    }
}

#[test]
fn af_reads_back_without_the_low_nibble() {
    let mut regs = registers();
    regs.set_af(0x12FF);
    assert_eq!(regs.get_af(), 0x12F0);
    regs.set_af(0x0001);
    assert_eq!(regs.get_af(), 0x0000);
    regs.set_af(0xFFFF);
    assert_eq!(regs.get_af(), 0xFFF0);
    assert_eq!(regs.f, flags(true, true, true, true));
}

#[test]
fn writing_back_what_was_read_changes_nothing() {
    let mut regs = registers();
    regs.a = 0x01;
    regs.b = 0x23;
    regs.c = 0x45;
    regs.d = 0x67;
    regs.e = 0x89;
    regs.h = 0xAB;
    regs.l = 0xCD;
    regs.f = flags(true, false, false, true);
    let before = regs;
    let af = regs.get_af();
    regs.set_af(af);
    let bc = regs.get_bc();
    regs.set_bc(bc);
    let de = regs.get_de();
    regs.set_de(de);
    let hl = regs.get_hl();
    regs.set_hl(hl);
    assert_eq!(regs, before);
}
