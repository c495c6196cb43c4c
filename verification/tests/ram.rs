use gb_cpu::gb::ram::MemoryBus;

#[test]
fn a_new_memory_is_all_zero() {
    let bus = MemoryBus::new();
    for address in 0..=0xFFFFu16 {
        assert_eq!(bus.read_byte(address), 0);
    }
}

#[test]
fn a_written_byte_is_read_back() {
    let mut bus = MemoryBus::new();
    bus.write_byte(0x0000, 0x11);
    bus.write_byte(0x8000, 0x22);
    bus.write_byte(0xFFFF, 0x33);
    assert_eq!(bus.read_byte(0x0000), 0x11);
    assert_eq!(bus.read_byte(0x8000), 0x22);
    assert_eq!(bus.read_byte(0xFFFF), 0x33);
}

#[test]
fn a_write_leaves_the_other_bytes() {
    let mut bus = MemoryBus::new();
    bus.write_byte(0x1234, 0xAB);
    for address in 0..=0xFFFFu16 {
        let expected = if address == 0x1234 { 0xAB } else { 0 };
        assert_eq!(bus.read_byte(address), expected);
    }
}

#[test]
fn a_later_write_replaces_an_earlier_one() {
    let mut bus = MemoryBus::new();
    bus.write_byte(0x4000, 0x01);
    bus.write_byte(0x4000, 0x02);
    assert_eq!(bus.read_byte(0x4000), 0x02);
}

#[test]
fn every_address_holds_its_own_byte() {
    let mut bus = MemoryBus::new();
    for address in 0..=0xFFFFu16 {
        bus.write_byte(address, (address as u8) ^ ((address >> 8) as u8));
    }
    for address in 0..=0xFFFFu16 {
        assert_eq!(bus.read_byte(address), (address as u8) ^ ((address >> 8) as u8));
    }
}

#[test]
fn a_word_is_stored_low_byte_first() {
    let mut bus = MemoryBus::new();
    bus.write_word(0xC000, 0x1234);
    assert_eq!(bus.read_byte(0xC000), 0x34);
    assert_eq!(bus.read_byte(0xC001), 0x12);
    assert_eq!(bus.read_byte(0xBFFF), 0x00);
    assert_eq!(bus.read_byte(0xC002), 0x00);
}

#[test]
fn a_word_fits_at_the_last_but_one_address() {
    let mut bus = MemoryBus::new();
    bus.write_word(0xFFFE, 0xBEEF);
    assert_eq!(bus.read_byte(0xFFFE), 0xEF);
    assert_eq!(bus.read_byte(0xFFFF), 0xBE);
}

#[test]
fn a_word_at_address_zero() {
    let mut bus = MemoryBus::new();
    bus.write_word(0x0000, 0x00FF);
    assert_eq!(bus.read_byte(0x0000), 0xFF);
    assert_eq!(bus.read_byte(0x0001), 0x00);
}
