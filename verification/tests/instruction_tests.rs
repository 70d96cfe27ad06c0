use gbcore::instruction::{ArithmeticTarget, IncDecTarget, Instruction, JumpTest, PrefixTarget};

#[test]
fn unprefixed_0x02_decodes_to_inc_bc() {
    assert_eq!(
        Instruction::from_byte(0x02, false),
        Some(Instruction::Inc(IncDecTarget::BC))
    );
}

#[test]
fn unprefixed_0x13_decodes_to_inc_de() {
    assert_eq!(
        Instruction::from_byte(0x13, false),
        Some(Instruction::Inc(IncDecTarget::DE))
    );
}

#[test]
fn prefixed_0x00_decodes_to_rlc_b() {
    assert_eq!(
        Instruction::from_byte(0x00, true),
        Some(Instruction::Rlc(PrefixTarget::B))
    );
}

#[test]
fn unprefixed_0xff_is_unknown() {
    assert_eq!(Instruction::from_byte(0xFF, false), None);
}

#[test]
fn the_two_opcode_spaces_are_disjoint() {
    // 0x02 is only an instruction without the prefix, 0x00 only with it.
    assert_eq!(Instruction::from_byte(0x02, true), None);
    assert_eq!(Instruction::from_byte(0x00, false), None);
}

#[test]
fn decoding_an_unknown_byte_twice_gives_the_same_outcome() {
    let first = Instruction::from_byte(0xFF, false);
    let second = Instruction::from_byte(0xFF, false);
    assert_eq!(first, second);
    assert_eq!(first, None);

    let first = Instruction::from_byte(0xD3, true);
    let second = Instruction::from_byte(0xD3, true);
    assert_eq!(first, second);
    assert_eq!(first, None);
}

#[test]
fn decoding_a_known_byte_twice_gives_the_same_outcome() {
    let first = Instruction::from_byte(0x13, false);
    let second = Instruction::from_byte(0x13, false);
    assert_eq!(first, second);
}

#[test]
fn instruction_variants_compare_by_tag_and_operand() {
    assert_ne!(
        Instruction::Inc(IncDecTarget::BC),
        Instruction::Inc(IncDecTarget::DE)
    );
    assert_ne!(
        Instruction::Add(ArithmeticTarget::C),
        Instruction::Add(ArithmeticTarget::B)
    );
    assert_eq!(Instruction::Jp(JumpTest::Always), Instruction::Jp(JumpTest::Always));
}
