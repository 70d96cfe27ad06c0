use gbcore::flags::FlagsRegister;

#[test]
fn new_flags_are_all_clear() {
    let f = FlagsRegister::new();
    assert!(!f.zero);
    assert!(!f.subtract);
    assert!(!f.half_carry);
    assert!(!f.carry);
}

#[test]
fn encode_packs_each_flag_at_its_bit() {
    let f = FlagsRegister { zero: true, subtract: false, half_carry: false, carry: false };
    assert_eq!(f.encode(), 0x80);
    let f = FlagsRegister { zero: false, subtract: true, half_carry: false, carry: false };
    assert_eq!(f.encode(), 0x40);
    let f = FlagsRegister { zero: false, subtract: false, half_carry: true, carry: false };
    assert_eq!(f.encode(), 0x20);
    let f = FlagsRegister { zero: false, subtract: false, half_carry: false, carry: true };
    assert_eq!(f.encode(), 0x10);
    let f = FlagsRegister { zero: true, subtract: true, half_carry: true, carry: true };
    assert_eq!(f.encode(), 0xF0);
    let f = FlagsRegister { zero: false, subtract: false, half_carry: false, carry: false };
    assert_eq!(f.encode(), 0x00);
}

#[test]
fn decode_reads_each_flag_from_its_bit() {
    let f = FlagsRegister::decode(0xB5);
    assert!(f.zero);
    assert!(!f.subtract);
    assert!(f.half_carry);
    assert!(f.carry);

    let f = FlagsRegister::decode(0x40);
    assert!(!f.zero);
    assert!(f.subtract);
    assert!(!f.half_carry);
    assert!(!f.carry);
}

#[test]
fn decode_ignores_the_low_nibble() {
    assert_eq!(FlagsRegister::decode(0x0F), FlagsRegister::decode(0x00));
    assert_eq!(FlagsRegister::decode(0x9A), FlagsRegister::decode(0x90));
}

#[test]
fn encode_after_decode_clears_the_low_nibble() {
    for byte in 0..=0xFFu16 {
        let byte = byte as u8;
        assert_eq!(FlagsRegister::decode(byte).encode(), byte & 0xF0);
    }
}
