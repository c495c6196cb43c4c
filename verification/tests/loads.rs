use gb_cpu::gb::cpu::Cpu;
use gb_cpu::gb::instructions::{
    Instruction, LoadByteSource, LoadByteTarget, LoadType, LoadWordSource, LoadWordTarget,
};
use gb_cpu::gb::ram::MemoryBus;
use gb_cpu::gb::registers::{FlagsRegister, Registers};

fn flags(zero: bool, subtract: bool, half_carry: bool, carry: bool) -> FlagsRegister {
    FlagsRegister { zero, subtract, half_carry, carry }
}

fn machine() -> Cpu {
    Cpu {
        registers: Registers {
            a: 0xA0,
            b: 0xB0,
            c: 0xC0,
            d: 0xD0,
            e: 0xE0,
            f: flags(false, false, false, false),
            h: 0x80,
            l: 0x10,
        },
        pc: 0x0100,
        sp: 0xFFFE,
        bus: MemoryBus::new(),
    }
}

fn byte_load(target: LoadByteTarget, source: LoadByteSource) -> Instruction {
    Instruction::LD(LoadType::Byte(target, source))
}

fn word_load(target: LoadWordTarget, source: LoadWordSource) -> Instruction {
    Instruction::LD(LoadType::Word(target, source))
}

#[test]
fn register_to_register() {
    let mut cpu = machine();
    let next_pc = cpu.execute(byte_load(LoadByteTarget::B, LoadByteSource::C));
    assert_eq!(cpu.registers.b, 0xC0);
    assert_eq!(cpu.registers.c, 0xC0);
    assert_eq!(next_pc, 0x0101);
    cpu.execute(byte_load(LoadByteTarget::A, LoadByteSource::L));
    assert_eq!(cpu.registers.a, 0x10);
    cpu.execute(byte_load(LoadByteTarget::H, LoadByteSource::D));
    assert_eq!(cpu.registers.h, 0xD0);
    cpu.execute(byte_load(LoadByteTarget::E, LoadByteSource::E));
    assert_eq!(cpu.registers.e, 0xE0);
}

#[test]
fn every_register_source_and_target() {
    let sources = [
        (LoadByteSource::A, 0xA0u8),
        (LoadByteSource::B, 0xB0),
        (LoadByteSource::C, 0xC0),
        (LoadByteSource::D, 0xD0),
        (LoadByteSource::E, 0xE0),
        (LoadByteSource::H, 0x80),
        (LoadByteSource::L, 0x10),
    ];
    for &(source, value) in sources.iter() {
        let mut cpu = machine();
        cpu.execute(byte_load(LoadByteTarget::A, source));
        assert_eq!(cpu.registers.a, value);
        let mut cpu = machine();
        cpu.execute(byte_load(LoadByteTarget::B, source));
        assert_eq!(cpu.registers.b, value);
        let mut cpu = machine();
        cpu.execute(byte_load(LoadByteTarget::C, source));
        assert_eq!(cpu.registers.c, value);
        let mut cpu = machine();
        cpu.execute(byte_load(LoadByteTarget::D, source));
        assert_eq!(cpu.registers.d, value);
        let mut cpu = machine();
        cpu.execute(byte_load(LoadByteTarget::E, source));
        assert_eq!(cpu.registers.e, value);
        let mut cpu = machine();
        cpu.execute(byte_load(LoadByteTarget::H, source));
        assert_eq!(cpu.registers.h, value);
        let mut cpu = machine();
        cpu.execute(byte_load(LoadByteTarget::L, source));
        assert_eq!(cpu.registers.l, value);
    }
}

#[test]
fn a_load_leaves_the_flags() {
    let mut cpu = machine();
    cpu.registers.f = flags(true, false, true, false);
    cpu.execute(byte_load(LoadByteTarget::B, LoadByteSource::C));
    assert_eq!(cpu.registers.f, flags(true, false, true, false));
}

#[test]
fn immediate_byte_into_a_register() {
    let mut cpu = machine();
    cpu.bus.write_byte(0x0101, 0x42);
    let next_pc = cpu.execute(byte_load(LoadByteTarget::B, LoadByteSource::D8));
    assert_eq!(cpu.registers.b, 0x42);
    assert_eq!(next_pc, 0x0102);
}

#[test]
fn immediate_byte_into_memory_at_hl() {
    let mut cpu = machine();
    cpu.bus.write_byte(0x0101, 0x42);
    let next_pc = cpu.execute(byte_load(LoadByteTarget::HL, LoadByteSource::D8));
    assert_eq!(cpu.bus.read_byte(0x8010), 0x42);
    assert_eq!(cpu.registers.get_hl(), 0x8010);
    assert_eq!(next_pc, 0x0102);
}

#[test]
fn through_hl() {
    let mut cpu = machine();
    cpu.bus.write_byte(0x8010, 0x77);
    let next_pc = cpu.execute(byte_load(LoadByteTarget::B, LoadByteSource::HL));
    assert_eq!(cpu.registers.b, 0x77);
    assert_eq!(cpu.registers.get_hl(), 0x8010);
    assert_eq!(next_pc, 0x0101);

    let mut cpu = machine();
    cpu.execute(byte_load(LoadByteTarget::HL, LoadByteSource::A));
    assert_eq!(cpu.bus.read_byte(0x8010), 0xA0);
    assert_eq!(cpu.registers.get_hl(), 0x8010);
}

#[test]
fn through_bc_and_de() {
    let mut cpu = machine();
    cpu.bus.write_byte(0xB0C0, 0x11);
    cpu.bus.write_byte(0xD0E0, 0x22);
    cpu.execute(byte_load(LoadByteTarget::A, LoadByteSource::BC));
    assert_eq!(cpu.registers.a, 0x11);
    cpu.execute(byte_load(LoadByteTarget::A, LoadByteSource::DE));
    assert_eq!(cpu.registers.a, 0x22);

    let mut cpu = machine();
    cpu.execute(byte_load(LoadByteTarget::BC, LoadByteSource::A));
    assert_eq!(cpu.bus.read_byte(0xB0C0), 0xA0);
    let next_pc = cpu.execute(byte_load(LoadByteTarget::DE, LoadByteSource::A));
    assert_eq!(cpu.bus.read_byte(0xD0E0), 0xA0);
    assert_eq!(next_pc, 0x0101);
}

#[test]
fn store_with_increment_raises_hl_by_one() {
    let mut cpu = machine();
    let next_pc = cpu.execute(byte_load(LoadByteTarget::HLI, LoadByteSource::A));
    assert_eq!(cpu.bus.read_byte(0x8010), 0xA0);
    assert_eq!(cpu.registers.get_hl(), 0x8011);
    assert_eq!(next_pc, 0x0101);
}

#[test]
fn store_with_decrement_lowers_hl_by_one() {
    let mut cpu = machine();
    cpu.execute(byte_load(LoadByteTarget::HLD, LoadByteSource::A));
    assert_eq!(cpu.bus.read_byte(0x8010), 0xA0);
    assert_eq!(cpu.registers.get_hl(), 0x800F);
}

#[test]
fn load_with_increment_raises_hl_by_one() {
    let mut cpu = machine();
    cpu.bus.write_byte(0x8010, 0x5A);
    cpu.execute(byte_load(LoadByteTarget::A, LoadByteSource::HLI));
    assert_eq!(cpu.registers.a, 0x5A);
    assert_eq!(cpu.registers.get_hl(), 0x8011);
}

#[test]
fn load_with_decrement_lowers_hl_by_one() {
    let mut cpu = machine();
    cpu.bus.write_byte(0x8010, 0x5A);
    cpu.execute(byte_load(LoadByteTarget::A, LoadByteSource::HLD));
    assert_eq!(cpu.registers.a, 0x5A);
    assert_eq!(cpu.registers.get_hl(), 0x800F);
}

#[test]
fn hl_steps_across_a_byte_boundary_and_wraps() {
    let mut cpu = machine();
    cpu.registers.set_hl(0x80FF);
    cpu.execute(byte_load(LoadByteTarget::HLI, LoadByteSource::A));
    assert_eq!(cpu.registers.get_hl(), 0x8100);

    cpu.registers.set_hl(0x8100);
    cpu.execute(byte_load(LoadByteTarget::HLD, LoadByteSource::A));
    assert_eq!(cpu.registers.get_hl(), 0x80FF);

    cpu.registers.set_hl(0xFFFF);
    cpu.execute(byte_load(LoadByteTarget::HLI, LoadByteSource::A));
    assert_eq!(cpu.bus.read_byte(0xFFFF), 0xA0);
    assert_eq!(cpu.registers.get_hl(), 0x0000);

    cpu.execute(byte_load(LoadByteTarget::HLD, LoadByteSource::A));
    assert_eq!(cpu.bus.read_byte(0x0000), 0xA0);
    assert_eq!(cpu.registers.get_hl(), 0xFFFF);
}

#[test]
fn increment_and_decrement_together_leave_hl() {
    let mut cpu = machine();
    cpu.bus.write_byte(0x8010, 0x5A);
    cpu.execute(byte_load(LoadByteTarget::HLI, LoadByteSource::HLD));
    assert_eq!(cpu.bus.read_byte(0x8010), 0x5A);
    assert_eq!(cpu.registers.get_hl(), 0x8010);
}

#[test]
fn hl_steps_after_the_byte_has_moved() {
    let mut cpu = machine();
    cpu.bus.write_byte(0x8010, 0x20);
    cpu.execute(byte_load(LoadByteTarget::H, LoadByteSource::HLI));
    assert_eq!(cpu.registers.get_hl(), 0x2011);
}

#[test]
fn high_page_by_immediate_offset() {
    let mut cpu = machine();
    cpu.bus.write_byte(0x0101, 0x44);
    let next_pc = cpu.execute(byte_load(LoadByteTarget::A8, LoadByteSource::A));
    assert_eq!(cpu.bus.read_byte(0xFF44), 0xA0);
    assert_eq!(next_pc, 0x0102);

    let mut cpu = machine();
    cpu.bus.write_byte(0x0101, 0x80);
    cpu.bus.write_byte(0xFF80, 0x99);
    let next_pc = cpu.execute(byte_load(LoadByteTarget::A, LoadByteSource::A8));
    assert_eq!(cpu.registers.a, 0x99);
    assert_eq!(next_pc, 0x0102);
}

#[test]
fn high_page_by_register_c() {
    let mut cpu = machine();
    let next_pc = cpu.execute(byte_load(LoadByteTarget::ADRC, LoadByteSource::A));
    assert_eq!(cpu.bus.read_byte(0xFFC0), 0xA0);
    assert_eq!(next_pc, 0x0101);

    let mut cpu = machine();
    cpu.registers.c = 0xFF;
    cpu.bus.write_byte(0xFFFF, 0x1F);
    cpu.execute(byte_load(LoadByteTarget::A, LoadByteSource::ADRC));
    assert_eq!(cpu.registers.a, 0x1F);

    let mut cpu = machine();
    cpu.registers.c = 0x00;
    cpu.bus.write_byte(0xFF00, 0x3F);
    cpu.execute(byte_load(LoadByteTarget::A, LoadByteSource::ADRC));
    assert_eq!(cpu.registers.a, 0x3F);
}

#[test]
fn direct_address() {
    let mut cpu = machine();
    cpu.bus.write_byte(0x0101, 0x34);
    cpu.bus.write_byte(0x0102, 0x12);
    let next_pc = cpu.execute(byte_load(LoadByteTarget::D16, LoadByteSource::A));
    assert_eq!(cpu.bus.read_byte(0x1234), 0xA0);
    assert_eq!(next_pc, 0x0103);

    let mut cpu = machine();
    cpu.bus.write_byte(0x0101, 0x34);
    cpu.bus.write_byte(0x0102, 0x12);
    cpu.bus.write_byte(0x1234, 0x66);
    let next_pc = cpu.execute(byte_load(LoadByteTarget::A, LoadByteSource::D16));
    assert_eq!(cpu.registers.a, 0x66);
    assert_eq!(next_pc, 0x0103);
}

#[test]
fn a_byte_load_goes_on_by_its_longer_side() {
    let mut cpu = machine();
    assert_eq!(cpu.execute(byte_load(LoadByteTarget::A8, LoadByteSource::D16)), 0x0103);
    let mut cpu = machine();
    assert_eq!(cpu.execute(byte_load(LoadByteTarget::D16, LoadByteSource::D8)), 0x0103);
    let mut cpu = machine();
    assert_eq!(cpu.execute(byte_load(LoadByteTarget::A8, LoadByteSource::D8)), 0x0102);
    let mut cpu = machine();
    assert_eq!(cpu.execute(byte_load(LoadByteTarget::A8, LoadByteSource::B)), 0x0102);
}

#[test]
fn immediate_word_into_each_pair() {
    let mut cpu = machine();
    cpu.bus.write_byte(0x0101, 0xCD);
    cpu.bus.write_byte(0x0102, 0xAB);
    let next_pc = cpu.execute(word_load(LoadWordTarget::BC, LoadWordSource::D16));
    assert_eq!(cpu.registers.get_bc(), 0xABCD);
    assert_eq!(next_pc, 0x0103);
    cpu.execute(word_load(LoadWordTarget::DE, LoadWordSource::D16));
    assert_eq!(cpu.registers.get_de(), 0xABCD);
    cpu.execute(word_load(LoadWordTarget::HL, LoadWordSource::D16));
    assert_eq!(cpu.registers.get_hl(), 0xABCD);
    cpu.execute(word_load(LoadWordTarget::SP, LoadWordSource::D16));
    assert_eq!(cpu.sp, 0xABCD);
    assert_eq!(cpu.registers.a, 0xA0);
    assert_eq!(cpu.registers.f, flags(false, false, false, false));
}

#[test]
fn stack_pointer_into_memory() {
    let mut cpu = machine();
    cpu.sp = 0xBEEF;
    cpu.bus.write_byte(0x0101, 0x00);
    cpu.bus.write_byte(0x0102, 0xC0);
    let next_pc = cpu.execute(word_load(LoadWordTarget::A16, LoadWordSource::SP));
    assert_eq!(cpu.bus.read_byte(0xC000), 0xEF);
    assert_eq!(cpu.bus.read_byte(0xC001), 0xBE);
    assert_eq!(cpu.sp, 0xBEEF);
    assert_eq!(next_pc, 0x0103);
}

#[test]
fn stack_pointer_into_the_last_two_bytes_of_memory() {
    let mut cpu = machine();
    cpu.sp = 0x1234;
    cpu.bus.write_byte(0x0101, 0xFE);
    cpu.bus.write_byte(0x0102, 0xFF);
    cpu.execute(word_load(LoadWordTarget::A16, LoadWordSource::SP));
    assert_eq!(cpu.bus.read_byte(0xFFFE), 0x34);
    assert_eq!(cpu.bus.read_byte(0xFFFF), 0x12);
}

#[test]
fn hl_into_the_stack_pointer() {
    let mut cpu = machine();
    let next_pc = cpu.execute(word_load(LoadWordTarget::SP, LoadWordSource::HL));
    assert_eq!(cpu.sp, 0x8010);
    assert_eq!(cpu.registers.get_hl(), 0x8010);
    assert_eq!(next_pc, 0x0101);
}

#[test]
fn stack_pointer_plus_offset_into_hl_leaves_the_stack_pointer() {
    let mut cpu = machine();
    cpu.sp = 0xFFF8;
    cpu.bus.write_byte(0x0101, 0x08);
    cpu.registers.f = flags(true, true, false, false);
    let next_pc = cpu.execute(word_load(LoadWordTarget::HL, LoadWordSource::SP8));
    assert_eq!(cpu.registers.get_hl(), 0x0000);
    assert_eq!(cpu.sp, 0xFFF8);
    assert_eq!(cpu.registers.f, flags(false, false, true, true));
    assert_eq!(next_pc, 0x0102);

    let mut cpu = machine();
    cpu.sp = 0x0100;
    cpu.bus.write_byte(0x0101, 0xFE);
    cpu.execute(word_load(LoadWordTarget::HL, LoadWordSource::SP8));
    assert_eq!(cpu.registers.get_hl(), 0x00FE);
    assert_eq!(cpu.sp, 0x0100);
    assert_eq!(cpu.registers.f, flags(false, false, false, false));
}

#[test]
fn immediates_are_read_around_the_end_of_memory() {
    let mut cpu = machine();
    cpu.pc = 0xFFFF;
    cpu.bus.write_byte(0x0000, 0x42);
    let next_pc = cpu.execute(byte_load(LoadByteTarget::B, LoadByteSource::D8));
    assert_eq!(cpu.registers.b, 0x42);
    assert_eq!(next_pc, 0x0001);

    let mut cpu = machine();
    cpu.pc = 0xFFFE;
    cpu.bus.write_byte(0xFFFF, 0xCD);
    cpu.bus.write_byte(0x0000, 0xAB);
    let next_pc = cpu.execute(word_load(LoadWordTarget::BC, LoadWordSource::D16));
    assert_eq!(cpu.registers.get_bc(), 0xABCD);
    assert_eq!(next_pc, 0x0001);
}

#[test]
fn the_helpers_read_the_bytes_after_the_opcode() {
    let mut cpu = machine();
    cpu.bus.write_byte(0x0101, 0x34);
    cpu.bus.write_byte(0x0102, 0x12);
    assert_eq!(cpu.read_next_byte(), 0x34);
    assert_eq!(cpu.read_next_word(), 0x1234);
    assert_eq!(Cpu::high_page(0x44), 0xFF44);
    assert_eq!(cpu.source_byte(LoadByteSource::D8), 0x34);
    cpu.store_byte(LoadByteTarget::D16, 0x77);
    assert_eq!(cpu.bus.read_byte(0x1234), 0x77);
}
