use rb_core::{
    ADDHLTarget, ArithmeticTarget, BitPosition, IncDecTarget, Indirect, Instruction, JumpTest,
    LoadByteSource, LoadByteTarget, LoadType, LoadWordTarget, PreFixTarget, RSTLocation,
    StackTarget,
};

#[test]
fn base_table_samples() {
    assert_eq!(Instruction::from_byte(0x00, false), Some(Instruction::NOP));
    assert_eq!(Instruction::from_byte(0x03, false), Some(Instruction::INC(IncDecTarget::BC)));
    assert_eq!(Instruction::from_byte(0x13, false), Some(Instruction::INC(IncDecTarget::DE)));
    assert_eq!(Instruction::from_byte(0x39, false), Some(Instruction::ADDHL(ADDHLTarget::SP)));
    assert_eq!(
        Instruction::from_byte(0x31, false),
        Some(Instruction::LD(LoadType::Word(LoadWordTarget::SP)))
    );
    assert_eq!(
        Instruction::from_byte(0x22, false),
        Some(Instruction::LD(LoadType::IndirectFromA(Indirect::HLIndirectPlus)))
    );
    assert_eq!(
        Instruction::from_byte(0x7E, false),
        Some(Instruction::LD(LoadType::Byte(LoadByteTarget::A, LoadByteSource::HLI)))
    );
    assert_eq!(Instruction::from_byte(0x76, false), Some(Instruction::HALT));
    assert_eq!(Instruction::from_byte(0x86, false), Some(Instruction::ADD(ArithmeticTarget::HLI)));
    assert_eq!(Instruction::from_byte(0xFE, false), Some(Instruction::CP(ArithmeticTarget::D8)));
    assert_eq!(Instruction::from_byte(0x20, false), Some(Instruction::JR(JumpTest::NotZero)));
    assert_eq!(Instruction::from_byte(0xC3, false), Some(Instruction::JP(JumpTest::Always)));
    assert_eq!(Instruction::from_byte(0xE9, false), Some(Instruction::JPI));
    assert_eq!(Instruction::from_byte(0xF5, false), Some(Instruction::PUSH(StackTarget::AF)));
    assert_eq!(Instruction::from_byte(0xD9, false), Some(Instruction::RETI));
    assert_eq!(Instruction::from_byte(0xEF, false), Some(Instruction::RST(RSTLocation::x28)));
    assert_eq!(Instruction::from_byte(0xF3, false), Some(Instruction::DI));
    assert_eq!(Instruction::from_byte(0xFB, false), Some(Instruction::EI));
}

#[test]
fn unused_opcodes_and_prefix_byte_decode_to_none() {
    for b in [0xCBu8, 0xD3, 0xDB, 0xDD, 0xE3, 0xE4, 0xEB, 0xEC, 0xED, 0xF4, 0xFC, 0xFD] {
        assert_eq!(Instruction::from_byte(b, false), None);
    }
    let defined = (0..=255u8).filter(|b| Instruction::from_byte(*b, false).is_some()).count();
    assert_eq!(defined, 244);
}

#[test]
fn prefixed_table_samples() {
    assert_eq!(Instruction::from_byte(0x00, true), Some(Instruction::RLC(PreFixTarget::B)));
    assert_eq!(Instruction::from_byte(0x37, true), Some(Instruction::SWAP(PreFixTarget::A)));
    assert_eq!(Instruction::from_byte(0x3E, true), Some(Instruction::SRL(PreFixTarget::HLI)));
    assert_eq!(
        Instruction::from_byte(0x7C, true),
        Some(Instruction::BIT(PreFixTarget::H, BitPosition::B7))
    );
    assert_eq!(
        Instruction::from_byte(0x87, true),
        Some(Instruction::RES(PreFixTarget::A, BitPosition::B0))
    );
    assert_eq!(
        Instruction::from_byte(0xFF, true),
        Some(Instruction::SET(PreFixTarget::A, BitPosition::B7))
    );
    for b in 0..=255u8 {
        assert!(Instruction::from_byte(b, true).is_some());
    }
}

#[test]
fn restart_addresses() {
    assert_eq!(RSTLocation::x00.to_hex(), 0x00);
    assert_eq!(RSTLocation::x18.to_hex(), 0x18);
    assert_eq!(RSTLocation::x38.to_hex(), 0x38);
    assert_eq!(BitPosition::B5.index(), 5);
}
