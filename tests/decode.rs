use gameboy::instruction::{
    ArithmeticTarget, IncTarget, Instruction, LoadByteSource, LoadByteTarget, LoadType, PrefixTarget,
};

#[test]
fn every_byte_decodes_or_reports() {
    let mut unprefixed_some = 0;
    for b in 0..=255u8 {
        assert!(Instruction::from_byte(b, true).is_some());
        if Instruction::from_byte(b, false).is_some() {
            unprefixed_some += 1;
        }
        assert_eq!(Instruction::from_byte(b, false), Instruction::from_byte_not_prefixed(b));
        assert_eq!(Instruction::from_byte(b, true), Instruction::from_byte_prefixed(b));
    }
    assert!(unprefixed_some > 200);
}

#[test]
fn unimplemented_opcodes_decode_to_none() {
    for b in [0x18u8, 0x20, 0x27, 0xC3, 0xCB, 0xCD, 0xD3, 0xFB, 0xFF] {
        assert_eq!(Instruction::from_byte(b, false), None);
    }
}

#[test]
fn regular_unprefixed_rows() {
    assert_eq!(
        Instruction::from_byte(0x41, false),
        Some(Instruction::LD(LoadType::Byte(LoadByteTarget::B, LoadByteSource::C)))
    );
    assert_eq!(
        Instruction::from_byte(0x7E, false),
        Some(Instruction::LD(LoadType::Byte(LoadByteTarget::A, LoadByteSource::HLI)))
    );
    assert_eq!(Instruction::from_byte(0x76, false), Some(Instruction::HALT()));
    assert_eq!(Instruction::from_byte(0x80, false), Some(Instruction::ADD(ArithmeticTarget::B)));
    assert_eq!(Instruction::from_byte(0x9E, false), Some(Instruction::SBC(ArithmeticTarget::HL)));
    assert_eq!(Instruction::from_byte(0xAF, false), Some(Instruction::XOR(ArithmeticTarget::A)));
    assert_eq!(Instruction::from_byte(0xBF, false), Some(Instruction::CP(ArithmeticTarget::A)));
    assert_eq!(Instruction::from_byte(0xFE, false), Some(Instruction::CP(ArithmeticTarget::PC)));
    assert_eq!(Instruction::from_byte(0x3C, false), Some(Instruction::INC(IncTarget::A)));
    assert_eq!(Instruction::from_byte(0x00, false), Some(Instruction::NOP()));
}

#[test]
fn prefixed_space_is_bit_sliced() {
    assert_eq!(Instruction::from_byte(0x00, true), Some(Instruction::RLC(PrefixTarget::B)));
    assert_eq!(Instruction::from_byte(0x0E, true), Some(Instruction::RRC(PrefixTarget::HL)));
    assert_eq!(Instruction::from_byte(0x37, true), Some(Instruction::SWAP(PrefixTarget::A)));
    assert_eq!(Instruction::from_byte(0x3F, true), Some(Instruction::SRL(PrefixTarget::A)));
    assert_eq!(Instruction::from_byte(0x7C, true), Some(Instruction::BIT(PrefixTarget::H, 7)));
    assert_eq!(Instruction::from_byte(0x86, true), Some(Instruction::RESET(PrefixTarget::HL, 0)));
    assert_eq!(Instruction::from_byte(0xFF, true), Some(Instruction::SET(PrefixTarget::A, 7)));
    assert_eq!(Instruction::from_byte(0xD1, true), Some(Instruction::SET(PrefixTarget::C, 2)));
}
