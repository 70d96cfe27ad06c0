use gbcore::memory::MemoryBus;

#[test]
fn new_bus_is_all_zero() {
    let bus = MemoryBus::new();
    assert_eq!(bus.read_byte(0x0000), 0);
    assert_eq!(bus.read_byte(0x8000), 0);
    assert_eq!(bus.read_byte(0xFFFF), 0);
}

#[test]
fn write_then_read_returns_the_value() {
    let mut bus = MemoryBus::new();
    bus.write_byte(0x1234, 0xAB);
    assert_eq!(bus.read_byte(0x1234), 0xAB);
}

#[test]
fn writes_cover_the_whole_address_space() {
    let mut bus = MemoryBus::new();
    bus.write_byte(0x0000, 0x01);
    bus.write_byte(0xFFFF, 0x02);
    assert_eq!(bus.read_byte(0x0000), 0x01);
    assert_eq!(bus.read_byte(0xFFFF), 0x02);
}

#[test]
fn a_write_leaves_other_addresses_alone() {
    let mut bus = MemoryBus::new();
    bus.write_byte(0x1000, 0xFF);
    assert_eq!(bus.read_byte(0x0FFF), 0);
    assert_eq!(bus.read_byte(0x1001), 0);
}
