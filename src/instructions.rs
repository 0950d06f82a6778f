use vstd::prelude::*;

verus! {

/// One decoded instruction, with the operand selectors its execution needs.
#[derive(Copy, Clone, Debug, PartialEq, Eq, Structural)]
pub enum Instruction {
    // Arithmetic instructions
    INC(IncDecTarget),
    DEC(IncDecTarget),
    ADD(ArithmeticTarget),
    ADC(ArithmeticTarget),
    ADDHL(ADDHLTarget),
    ADDSP,
    SUB(ArithmeticTarget),
    SBC(ArithmeticTarget),
    AND(ArithmeticTarget),
    OR(ArithmeticTarget),
    XOR(ArithmeticTarget),
    CP(ArithmeticTarget),
    CCF,
    SCF,
    RRA,
    RLA,
    RRCA,
    RLCA,
    CPL,
    DAA,
    // Prefixed instructions
    BIT(PreFixTarget, BitPosition),
    RES(PreFixTarget, BitPosition),
    SET(PreFixTarget, BitPosition),
    SRL(PreFixTarget),
    RR(PreFixTarget),
    RL(PreFixTarget),
    RRC(PreFixTarget),
    RLC(PreFixTarget),
    SRA(PreFixTarget),
    SLA(PreFixTarget),
    SWAP(PreFixTarget),
    // Jump instructions
    JP(JumpTest),
    JR(JumpTest),
    JPI,
    // Load instructions
    LD(LoadType),
    // Stack instructions
    PUSH(StackTarget),
    POP(StackTarget),
    CALL(JumpTest),
    RET(JumpTest),
    RETI,
    RST(RSTLocation),
    // Control instructions
    HALT,
    NOP,
    STOP,
    DI,
    EI,
}

/// An 8-bit operand of the accumulator instructions.
#[derive(Copy, Clone, Debug, PartialEq, Eq, Structural)]
pub enum ArithmeticTarget {
    A,
    B,
    C,
    D,
    E,
    H,
    L,
    HLI,
    D8,
}

/// What INC and DEC act on: a register, the byte at (HL), or a register pair.
#[derive(Copy, Clone, Debug, PartialEq, Eq, Structural)]
pub enum IncDecTarget {
    A,
    B,
    C,
    D,
    E,
    H,
    L,
    HLI,
    BC,
    DE,
    HL,
    SP,
}

/// What a CB-prefixed instruction acts on.
#[derive(Copy, Clone, Debug, PartialEq, Eq, Structural)]
pub enum PreFixTarget {
    A,
    B,
    C,
    D,
    E,
    H,
    L,
    HLI,
}

/// The condition of a jump, call or return.
#[derive(Copy, Clone, Debug, PartialEq, Eq, Structural)]
pub enum JumpTest {
    NotZero,
    Zero,
    NotCarry,
    Carry,
    Always,
}

#[derive(Copy, Clone, Debug, PartialEq, Eq, Structural)]
pub enum LoadByteTarget {
    A,
    B,
    C,
    D,
    E,
    H,
    L,
    HLI,
}

#[derive(Copy, Clone, Debug, PartialEq, Eq, Structural)]
pub enum LoadByteSource {
    A,
    B,
    C,
    D,
    E,
    H,
    L,
    HLI,
    D8,
}

#[derive(Copy, Clone, Debug, PartialEq, Eq, Structural)]
pub enum LoadWordTarget {
    BC,
    DE,
    HL,
    SP,
}

/// A memory operand of `LD A,(..)` and `LD (..),A`.
#[derive(Copy, Clone, Debug, PartialEq, Eq, Structural)]
pub enum Indirect {
    BCIndirect,
    DEIndirect,
    HLIndirectMinus,
    HLIndirectPlus,
    WordIndirect,
    LastByteIndirect,
}

#[derive(Copy, Clone, Debug, PartialEq, Eq, Structural)]
pub enum LoadType {
    Byte(LoadByteTarget, LoadByteSource),
    Word(LoadWordTarget),
    AFromIndirect(Indirect),
    IndirectFromA(Indirect),
    ByteAddressFromA,
    AFromByteAddress,
    SPFromHL,
    IndirectFromSP,
    HLFromSPN,
}

#[derive(Copy, Clone, Debug, PartialEq, Eq, Structural)]
pub enum StackTarget {
    AF,
    BC,
    DE,
    HL,
}

#[derive(Copy, Clone, Debug, PartialEq, Eq, Structural)]
pub enum ADDHLTarget {
    BC,
    DE,
    HL,
    SP,
}

#[derive(Copy, Clone, Debug, PartialEq, Eq, Structural)]
pub enum BitPosition {
    B0,
    B1,
    B2,
    B3,
    B4,
    B5,
    B6,
    B7,
}

/// The target address of a restart instruction.
#[allow(non_camel_case_types)]
#[derive(Copy, Clone, Debug, PartialEq, Eq, Structural)]
pub enum RSTLocation {
    x00,
    x08,
    x10,
    x18,
    x20,
    x28,
    x30,
    x38,
}

/// The number of a bit position, 0 to 7.
pub open spec fn bit_index(b: BitPosition) -> int {
    match b {
        BitPosition::B0 => 0,
        BitPosition::B1 => 1,
        BitPosition::B2 => 2,
        BitPosition::B3 => 3,
        BitPosition::B4 => 4,
        BitPosition::B5 => 5,
        BitPosition::B6 => 6,
        BitPosition::B7 => 7,
    }
}

/// The restart address: eight times the location's number.
pub open spec fn rst_address(r: RSTLocation) -> int {
    match r {
        RSTLocation::x00 => 0x00,
        RSTLocation::x08 => 0x08,
        RSTLocation::x10 => 0x10,
        RSTLocation::x18 => 0x18,
        RSTLocation::x20 => 0x20,
        RSTLocation::x28 => 0x28,
        RSTLocation::x30 => 0x30,
        RSTLocation::x38 => 0x38,
    }
}

impl BitPosition {
    pub fn index(&self) -> (r: u8)
        ensures
            r == bit_index(*self),
    {
        match self {
            BitPosition::B0 => 0,
            BitPosition::B1 => 1,
            BitPosition::B2 => 2,
            BitPosition::B3 => 3,
            BitPosition::B4 => 4,
            BitPosition::B5 => 5,
            BitPosition::B6 => 6,
            BitPosition::B7 => 7,
        }
    }
}

impl RSTLocation {
    pub fn to_hex(&self) -> (r: u16)
        ensures
            r == rst_address(*self),
    {
        match self {
            RSTLocation::x00 => 0x00,
            RSTLocation::x08 => 0x08,
            RSTLocation::x10 => 0x10,
            RSTLocation::x18 => 0x18,
            RSTLocation::x20 => 0x20,
            RSTLocation::x28 => 0x28,
            RSTLocation::x30 => 0x30,
            RSTLocation::x38 => 0x38,
        }
    }
}

// The opcode byte read as fields: x = bits 7..6, y = bits 5..3, z = bits 2..0,
// p = bits 5..4 and q = bit 3. Register operands are numbered in the order
// B, C, D, E, H, L, (HL), A.

pub open spec fn arith_target(i: int) -> ArithmeticTarget {
    if i == 0 { ArithmeticTarget::B }
    else if i == 1 { ArithmeticTarget::C }
    else if i == 2 { ArithmeticTarget::D }
    else if i == 3 { ArithmeticTarget::E }
    else if i == 4 { ArithmeticTarget::H }
    else if i == 5 { ArithmeticTarget::L }
    else if i == 6 { ArithmeticTarget::HLI }
    else { ArithmeticTarget::A }
}

pub open spec fn incdec_target(i: int) -> IncDecTarget {
    if i == 0 { IncDecTarget::B }
    else if i == 1 { IncDecTarget::C }
    else if i == 2 { IncDecTarget::D }
    else if i == 3 { IncDecTarget::E }
    else if i == 4 { IncDecTarget::H }
    else if i == 5 { IncDecTarget::L }
    else if i == 6 { IncDecTarget::HLI }
    else { IncDecTarget::A }
}

pub open spec fn prefix_target(i: int) -> PreFixTarget {
    if i == 0 { PreFixTarget::B }
    else if i == 1 { PreFixTarget::C }
    else if i == 2 { PreFixTarget::D }
    else if i == 3 { PreFixTarget::E }
    else if i == 4 { PreFixTarget::H }
    else if i == 5 { PreFixTarget::L }
    else if i == 6 { PreFixTarget::HLI }
    else { PreFixTarget::A }
}

pub open spec fn load_target(i: int) -> LoadByteTarget {
    if i == 0 { LoadByteTarget::B }
    else if i == 1 { LoadByteTarget::C }
    else if i == 2 { LoadByteTarget::D }
    else if i == 3 { LoadByteTarget::E }
    else if i == 4 { LoadByteTarget::H }
    else if i == 5 { LoadByteTarget::L }
    else if i == 6 { LoadByteTarget::HLI }
    else { LoadByteTarget::A }
}

pub open spec fn load_source(i: int) -> LoadByteSource {
    if i == 0 { LoadByteSource::B }
    else if i == 1 { LoadByteSource::C }
    else if i == 2 { LoadByteSource::D }
    else if i == 3 { LoadByteSource::E }
    else if i == 4 { LoadByteSource::H }
    else if i == 5 { LoadByteSource::L }
    else if i == 6 { LoadByteSource::HLI }
    else { LoadByteSource::A }
}

/// The register pairs BC, DE, HL, SP as INC/DEC targets.
pub open spec fn pair_target(p: int) -> IncDecTarget {
    if p == 0 { IncDecTarget::BC }
    else if p == 1 { IncDecTarget::DE }
    else if p == 2 { IncDecTarget::HL }
    else { IncDecTarget::SP }
}

pub open spec fn word_target(p: int) -> LoadWordTarget {
    if p == 0 { LoadWordTarget::BC }
    else if p == 1 { LoadWordTarget::DE }
    else if p == 2 { LoadWordTarget::HL }
    else { LoadWordTarget::SP }
}

pub open spec fn addhl_target(p: int) -> ADDHLTarget {
    if p == 0 { ADDHLTarget::BC }
    else if p == 1 { ADDHLTarget::DE }
    else if p == 2 { ADDHLTarget::HL }
    else { ADDHLTarget::SP }
}

/// The register pairs BC, DE, HL, AF as PUSH/POP targets.
pub open spec fn stack_target(p: int) -> StackTarget {
    if p == 0 { StackTarget::BC }
    else if p == 1 { StackTarget::DE }
    else if p == 2 { StackTarget::HL }
    else { StackTarget::AF }
}

/// The memory operands (BC), (DE), (HL+), (HL-).
pub open spec fn indirect_target(p: int) -> Indirect {
    if p == 0 { Indirect::BCIndirect }
    else if p == 1 { Indirect::DEIndirect }
    else if p == 2 { Indirect::HLIndirectPlus }
    else { Indirect::HLIndirectMinus }
}

/// The conditions NZ, Z, NC, C.
pub open spec fn condition(i: int) -> JumpTest {
    if i == 0 { JumpTest::NotZero }
    else if i == 1 { JumpTest::Zero }
    else if i == 2 { JumpTest::NotCarry }
    else { JumpTest::Carry }
}

pub open spec fn bit_position(i: int) -> BitPosition {
    if i == 0 { BitPosition::B0 }
    else if i == 1 { BitPosition::B1 }
    else if i == 2 { BitPosition::B2 }
    else if i == 3 { BitPosition::B3 }
    else if i == 4 { BitPosition::B4 }
    else if i == 5 { BitPosition::B5 }
    else if i == 6 { BitPosition::B6 }
    else { BitPosition::B7 }
}

pub open spec fn rst_location(i: int) -> RSTLocation {
    if i == 0 { RSTLocation::x00 }
    else if i == 1 { RSTLocation::x08 }
    else if i == 2 { RSTLocation::x10 }
    else if i == 3 { RSTLocation::x18 }
    else if i == 4 { RSTLocation::x20 }
    else if i == 5 { RSTLocation::x28 }
    else if i == 6 { RSTLocation::x30 }
    else { RSTLocation::x38 }
}

/// The eight accumulator operations, numbered by y.
pub open spec fn alu_op(y: int, t: ArithmeticTarget) -> Instruction {
    if y == 0 { Instruction::ADD(t) }
    else if y == 1 { Instruction::ADC(t) }
    else if y == 2 { Instruction::SUB(t) }
    else if y == 3 { Instruction::SBC(t) }
    else if y == 4 { Instruction::AND(t) }
    else if y == 5 { Instruction::XOR(t) }
    else if y == 6 { Instruction::OR(t) }
    else { Instruction::CP(t) }
}

/// The eight rotate and shift operations of the prefixed table, numbered by y.
pub open spec fn rot_op(y: int, t: PreFixTarget) -> Instruction {
    if y == 0 { Instruction::RLC(t) }
    else if y == 1 { Instruction::RRC(t) }
    else if y == 2 { Instruction::RL(t) }
    else if y == 3 { Instruction::RR(t) }
    else if y == 4 { Instruction::SLA(t) }
    else if y == 5 { Instruction::SRA(t) }
    else if y == 6 { Instruction::SWAP(t) }
    else { Instruction::SRL(t) }
}

/// The accumulator and flag operations of the first block, numbered by y.
pub open spec fn acc_op(y: int) -> Instruction {
    if y == 0 { Instruction::RLCA }
    else if y == 1 { Instruction::RRCA }
    else if y == 2 { Instruction::RLA }
    else if y == 3 { Instruction::RRA }
    else if y == 4 { Instruction::DAA }
    else if y == 5 { Instruction::CPL }
    else if y == 6 { Instruction::SCF }
    else { Instruction::CCF }
}

/// The instruction that an opcode of the prefixed table stands for.
pub open spec fn decode_prefixed(b: int) -> Instruction {
    let x = b / 64;
    let y = (b / 8) % 8;
    let t = prefix_target(b % 8);
    if x == 0 {
        rot_op(y, t)
    } else if x == 1 {
        Instruction::BIT(t, bit_position(y))
    } else if x == 2 {
        Instruction::RES(t, bit_position(y))
    } else {
        Instruction::SET(t, bit_position(y))
    }
}

/// The first block of the base table: opcodes 0x00 to 0x3F.
pub open spec fn decode_block0(y: int, z: int) -> Instruction {
    let p = y / 2;
    let q = y % 2;
    if z == 0 {
        if y == 0 { Instruction::NOP }
        else if y == 1 { Instruction::LD(LoadType::IndirectFromSP) }
        else if y == 2 { Instruction::STOP }
        else if y == 3 { Instruction::JR(JumpTest::Always) }
        else { Instruction::JR(condition(y - 4)) }
    } else if z == 1 {
        if q == 0 { Instruction::LD(LoadType::Word(word_target(p))) }
        else { Instruction::ADDHL(addhl_target(p)) }
    } else if z == 2 {
        if q == 0 { Instruction::LD(LoadType::IndirectFromA(indirect_target(p))) }
        else { Instruction::LD(LoadType::AFromIndirect(indirect_target(p))) }
    } else if z == 3 {
        if q == 0 { Instruction::INC(pair_target(p)) }
        else { Instruction::DEC(pair_target(p)) }
    } else if z == 4 {
        Instruction::INC(incdec_target(y))
    } else if z == 5 {
        Instruction::DEC(incdec_target(y))
    } else if z == 6 {
        Instruction::LD(LoadType::Byte(load_target(y), LoadByteSource::D8))
    } else {
        acc_op(y)
    }
}

/// The last block of the base table: opcodes 0xC0 to 0xFF.
pub open spec fn decode_block3(y: int, z: int) -> Option<Instruction> {
    let p = y / 2;
    let q = y % 2;
    if z == 0 {
        if y < 4 { Some(Instruction::RET(condition(y))) }
        else if y == 4 { Some(Instruction::LD(LoadType::ByteAddressFromA)) }
        else if y == 5 { Some(Instruction::ADDSP) }
        else if y == 6 { Some(Instruction::LD(LoadType::AFromByteAddress)) }
        else { Some(Instruction::LD(LoadType::HLFromSPN)) }
    } else if z == 1 {
        if q == 0 { Some(Instruction::POP(stack_target(p))) }
        else if p == 0 { Some(Instruction::RET(JumpTest::Always)) }
        else if p == 1 { Some(Instruction::RETI) }
        else if p == 2 { Some(Instruction::JPI) }
        else { Some(Instruction::LD(LoadType::SPFromHL)) }
    } else if z == 2 {
        if y < 4 { Some(Instruction::JP(condition(y))) }
        else if y == 4 { Some(Instruction::LD(LoadType::IndirectFromA(Indirect::LastByteIndirect))) }
        else if y == 5 { Some(Instruction::LD(LoadType::IndirectFromA(Indirect::WordIndirect))) }
        else if y == 6 { Some(Instruction::LD(LoadType::AFromIndirect(Indirect::LastByteIndirect))) }
        else { Some(Instruction::LD(LoadType::AFromIndirect(Indirect::WordIndirect))) }
    } else if z == 3 {
        if y == 0 { Some(Instruction::JP(JumpTest::Always)) }
        else if y == 6 { Some(Instruction::DI) }
        else if y == 7 { Some(Instruction::EI) }
        else { None }
    } else if z == 4 {
        if y < 4 { Some(Instruction::CALL(condition(y))) } else { None }
    } else if z == 5 {
        if q == 0 { Some(Instruction::PUSH(stack_target(p))) }
        else if p == 0 { Some(Instruction::CALL(JumpTest::Always)) }
        else { None }
    } else if z == 6 {
        Some(alu_op(y, ArithmeticTarget::D8))
    } else {
        Some(Instruction::RST(rst_location(y)))
    }
}

/// The instruction that an opcode of the base table stands for, if any. The
/// prefix byte 0xCB itself and the unused opcodes stand for none.
pub open spec fn decode_base(b: int) -> Option<Instruction> {
    let x = b / 64;
    let y = (b / 8) % 8;
    let z = b % 8;
    if x == 0 {
        Some(decode_block0(y, z))
    } else if x == 1 {
        if y == 6 && z == 6 {
            Some(Instruction::HALT)
        } else {
            Some(Instruction::LD(LoadType::Byte(load_target(y), load_source(z))))
        }
    } else if x == 2 {
        Some(alu_op(y, arith_target(z)))
    } else {
        decode_block3(y, z)
    }
}

/// Whether an opcode of the base table is unused.
pub open spec fn unused_opcode(b: int) -> bool {
    b == 0xD3 || b == 0xDB || b == 0xDD || b == 0xE3 || b == 0xE4 || b == 0xEB || b == 0xEC
        || b == 0xED || b == 0xF4 || b == 0xFC || b == 0xFD
}

impl Instruction {
    /// Decodes one opcode byte, from the prefixed table when `prefixed`.
    pub fn from_byte(byte: u8, prefixed: bool) -> (r: Option<Instruction>)
        ensures
            prefixed ==> r == Some(decode_prefixed(byte as int)),
            !prefixed ==> r == decode_base(byte as int),
    {
        if prefixed {
            Some(Instruction::from_byte_prefixed(byte))
        } else {
            Instruction::from_byte_not_prefixed(byte)
        }
    }

    /// The prefixed table: rotates and shifts, then BIT, RES and SET.
    fn from_byte_prefixed(byte: u8) -> (r: Instruction)
        ensures
            r == decode_prefixed(byte as int),
    {
        match byte {
            0x00 => Instruction::RLC(PreFixTarget::B),
            0x01 => Instruction::RLC(PreFixTarget::C),
            0x02 => Instruction::RLC(PreFixTarget::D),
            0x03 => Instruction::RLC(PreFixTarget::E),
            0x04 => Instruction::RLC(PreFixTarget::H),
            0x05 => Instruction::RLC(PreFixTarget::L),
            0x06 => Instruction::RLC(PreFixTarget::HLI),
            0x07 => Instruction::RLC(PreFixTarget::A),
            0x08 => Instruction::RRC(PreFixTarget::B),
            0x09 => Instruction::RRC(PreFixTarget::C),
            0x0A => Instruction::RRC(PreFixTarget::D),
            0x0B => Instruction::RRC(PreFixTarget::E),
            0x0C => Instruction::RRC(PreFixTarget::H),
            0x0D => Instruction::RRC(PreFixTarget::L),
            0x0E => Instruction::RRC(PreFixTarget::HLI),
            0x0F => Instruction::RRC(PreFixTarget::A),
            0x10 => Instruction::RL(PreFixTarget::B),
            0x11 => Instruction::RL(PreFixTarget::C),
            0x12 => Instruction::RL(PreFixTarget::D),
            0x13 => Instruction::RL(PreFixTarget::E),
            0x14 => Instruction::RL(PreFixTarget::H),
            0x15 => Instruction::RL(PreFixTarget::L),
            0x16 => Instruction::RL(PreFixTarget::HLI),
            0x17 => Instruction::RL(PreFixTarget::A),
            0x18 => Instruction::RR(PreFixTarget::B),
            0x19 => Instruction::RR(PreFixTarget::C),
            0x1A => Instruction::RR(PreFixTarget::D),
            0x1B => Instruction::RR(PreFixTarget::E),
            0x1C => Instruction::RR(PreFixTarget::H),
            0x1D => Instruction::RR(PreFixTarget::L),
            0x1E => Instruction::RR(PreFixTarget::HLI),
            0x1F => Instruction::RR(PreFixTarget::A),
            0x20 => Instruction::SLA(PreFixTarget::B),
            0x21 => Instruction::SLA(PreFixTarget::C),
            0x22 => Instruction::SLA(PreFixTarget::D),
            0x23 => Instruction::SLA(PreFixTarget::E),
            0x24 => Instruction::SLA(PreFixTarget::H),
            0x25 => Instruction::SLA(PreFixTarget::L),
            0x26 => Instruction::SLA(PreFixTarget::HLI),
            0x27 => Instruction::SLA(PreFixTarget::A),
            0x28 => Instruction::SRA(PreFixTarget::B),
            0x29 => Instruction::SRA(PreFixTarget::C),
            0x2A => Instruction::SRA(PreFixTarget::D),
            0x2B => Instruction::SRA(PreFixTarget::E),
            0x2C => Instruction::SRA(PreFixTarget::H),
            0x2D => Instruction::SRA(PreFixTarget::L),
            0x2E => Instruction::SRA(PreFixTarget::HLI),
            0x2F => Instruction::SRA(PreFixTarget::A),
            0x30 => Instruction::SWAP(PreFixTarget::B),
            0x31 => Instruction::SWAP(PreFixTarget::C),
            0x32 => Instruction::SWAP(PreFixTarget::D),
            0x33 => Instruction::SWAP(PreFixTarget::E),
            0x34 => Instruction::SWAP(PreFixTarget::H),
            0x35 => Instruction::SWAP(PreFixTarget::L),
            0x36 => Instruction::SWAP(PreFixTarget::HLI),
            0x37 => Instruction::SWAP(PreFixTarget::A),
            0x38 => Instruction::SRL(PreFixTarget::B),
            0x39 => Instruction::SRL(PreFixTarget::C),
            0x3A => Instruction::SRL(PreFixTarget::D),
            0x3B => Instruction::SRL(PreFixTarget::E),
            0x3C => Instruction::SRL(PreFixTarget::H),
            0x3D => Instruction::SRL(PreFixTarget::L),
            0x3E => Instruction::SRL(PreFixTarget::HLI),
            0x3F => Instruction::SRL(PreFixTarget::A),
            0x40 => Instruction::BIT(PreFixTarget::B, BitPosition::B0),
            0x41 => Instruction::BIT(PreFixTarget::C, BitPosition::B0),
            0x42 => Instruction::BIT(PreFixTarget::D, BitPosition::B0),
            0x43 => Instruction::BIT(PreFixTarget::E, BitPosition::B0),
            0x44 => Instruction::BIT(PreFixTarget::H, BitPosition::B0),
            0x45 => Instruction::BIT(PreFixTarget::L, BitPosition::B0),
            0x46 => Instruction::BIT(PreFixTarget::HLI, BitPosition::B0),
            0x47 => Instruction::BIT(PreFixTarget::A, BitPosition::B0),
            0x48 => Instruction::BIT(PreFixTarget::B, BitPosition::B1),
            0x49 => Instruction::BIT(PreFixTarget::C, BitPosition::B1),
            0x4A => Instruction::BIT(PreFixTarget::D, BitPosition::B1),
            0x4B => Instruction::BIT(PreFixTarget::E, BitPosition::B1),
            0x4C => Instruction::BIT(PreFixTarget::H, BitPosition::B1),
            0x4D => Instruction::BIT(PreFixTarget::L, BitPosition::B1),
            0x4E => Instruction::BIT(PreFixTarget::HLI, BitPosition::B1),
            0x4F => Instruction::BIT(PreFixTarget::A, BitPosition::B1),
            0x50 => Instruction::BIT(PreFixTarget::B, BitPosition::B2),
            0x51 => Instruction::BIT(PreFixTarget::C, BitPosition::B2),
            0x52 => Instruction::BIT(PreFixTarget::D, BitPosition::B2),
            0x53 => Instruction::BIT(PreFixTarget::E, BitPosition::B2),
            0x54 => Instruction::BIT(PreFixTarget::H, BitPosition::B2),
            0x55 => Instruction::BIT(PreFixTarget::L, BitPosition::B2),
            0x56 => Instruction::BIT(PreFixTarget::HLI, BitPosition::B2),
            0x57 => Instruction::BIT(PreFixTarget::A, BitPosition::B2),
            0x58 => Instruction::BIT(PreFixTarget::B, BitPosition::B3),
            0x59 => Instruction::BIT(PreFixTarget::C, BitPosition::B3),
            0x5A => Instruction::BIT(PreFixTarget::D, BitPosition::B3),
            0x5B => Instruction::BIT(PreFixTarget::E, BitPosition::B3),
            0x5C => Instruction::BIT(PreFixTarget::H, BitPosition::B3),
            0x5D => Instruction::BIT(PreFixTarget::L, BitPosition::B3),
            0x5E => Instruction::BIT(PreFixTarget::HLI, BitPosition::B3),
            0x5F => Instruction::BIT(PreFixTarget::A, BitPosition::B3),
            0x60 => Instruction::BIT(PreFixTarget::B, BitPosition::B4),
            0x61 => Instruction::BIT(PreFixTarget::C, BitPosition::B4),
            0x62 => Instruction::BIT(PreFixTarget::D, BitPosition::B4),
            0x63 => Instruction::BIT(PreFixTarget::E, BitPosition::B4),
            0x64 => Instruction::BIT(PreFixTarget::H, BitPosition::B4),
            0x65 => Instruction::BIT(PreFixTarget::L, BitPosition::B4),
            0x66 => Instruction::BIT(PreFixTarget::HLI, BitPosition::B4),
            0x67 => Instruction::BIT(PreFixTarget::A, BitPosition::B4),
            0x68 => Instruction::BIT(PreFixTarget::B, BitPosition::B5),
            0x69 => Instruction::BIT(PreFixTarget::C, BitPosition::B5),
            0x6A => Instruction::BIT(PreFixTarget::D, BitPosition::B5),
            0x6B => Instruction::BIT(PreFixTarget::E, BitPosition::B5),
            0x6C => Instruction::BIT(PreFixTarget::H, BitPosition::B5),
            0x6D => Instruction::BIT(PreFixTarget::L, BitPosition::B5),
            0x6E => Instruction::BIT(PreFixTarget::HLI, BitPosition::B5),
            0x6F => Instruction::BIT(PreFixTarget::A, BitPosition::B5),
            0x70 => Instruction::BIT(PreFixTarget::B, BitPosition::B6),
            0x71 => Instruction::BIT(PreFixTarget::C, BitPosition::B6),
            0x72 => Instruction::BIT(PreFixTarget::D, BitPosition::B6),
            0x73 => Instruction::BIT(PreFixTarget::E, BitPosition::B6),
            0x74 => Instruction::BIT(PreFixTarget::H, BitPosition::B6),
            0x75 => Instruction::BIT(PreFixTarget::L, BitPosition::B6),
            0x76 => Instruction::BIT(PreFixTarget::HLI, BitPosition::B6),
            0x77 => Instruction::BIT(PreFixTarget::A, BitPosition::B6),
            0x78 => Instruction::BIT(PreFixTarget::B, BitPosition::B7),
            0x79 => Instruction::BIT(PreFixTarget::C, BitPosition::B7),
            0x7A => Instruction::BIT(PreFixTarget::D, BitPosition::B7),
            0x7B => Instruction::BIT(PreFixTarget::E, BitPosition::B7),
            0x7C => Instruction::BIT(PreFixTarget::H, BitPosition::B7),
            0x7D => Instruction::BIT(PreFixTarget::L, BitPosition::B7),
            0x7E => Instruction::BIT(PreFixTarget::HLI, BitPosition::B7),
            0x7F => Instruction::BIT(PreFixTarget::A, BitPosition::B7),
            0x80 => Instruction::RES(PreFixTarget::B, BitPosition::B0),
            0x81 => Instruction::RES(PreFixTarget::C, BitPosition::B0),
            0x82 => Instruction::RES(PreFixTarget::D, BitPosition::B0),
            0x83 => Instruction::RES(PreFixTarget::E, BitPosition::B0),
            0x84 => Instruction::RES(PreFixTarget::H, BitPosition::B0),
            0x85 => Instruction::RES(PreFixTarget::L, BitPosition::B0),
            0x86 => Instruction::RES(PreFixTarget::HLI, BitPosition::B0),
            0x87 => Instruction::RES(PreFixTarget::A, BitPosition::B0),
            0x88 => Instruction::RES(PreFixTarget::B, BitPosition::B1),
            0x89 => Instruction::RES(PreFixTarget::C, BitPosition::B1),
            0x8A => Instruction::RES(PreFixTarget::D, BitPosition::B1),
            0x8B => Instruction::RES(PreFixTarget::E, BitPosition::B1),
            0x8C => Instruction::RES(PreFixTarget::H, BitPosition::B1),
            0x8D => Instruction::RES(PreFixTarget::L, BitPosition::B1),
            0x8E => Instruction::RES(PreFixTarget::HLI, BitPosition::B1),
            0x8F => Instruction::RES(PreFixTarget::A, BitPosition::B1),
            0x90 => Instruction::RES(PreFixTarget::B, BitPosition::B2),
            0x91 => Instruction::RES(PreFixTarget::C, BitPosition::B2),
            0x92 => Instruction::RES(PreFixTarget::D, BitPosition::B2),
            0x93 => Instruction::RES(PreFixTarget::E, BitPosition::B2),
            0x94 => Instruction::RES(PreFixTarget::H, BitPosition::B2),
            0x95 => Instruction::RES(PreFixTarget::L, BitPosition::B2),
            0x96 => Instruction::RES(PreFixTarget::HLI, BitPosition::B2),
            0x97 => Instruction::RES(PreFixTarget::A, BitPosition::B2),
            0x98 => Instruction::RES(PreFixTarget::B, BitPosition::B3),
            0x99 => Instruction::RES(PreFixTarget::C, BitPosition::B3),
            0x9A => Instruction::RES(PreFixTarget::D, BitPosition::B3),
            0x9B => Instruction::RES(PreFixTarget::E, BitPosition::B3),
            0x9C => Instruction::RES(PreFixTarget::H, BitPosition::B3),
            0x9D => Instruction::RES(PreFixTarget::L, BitPosition::B3),
            0x9E => Instruction::RES(PreFixTarget::HLI, BitPosition::B3),
            0x9F => Instruction::RES(PreFixTarget::A, BitPosition::B3),
            0xA0 => Instruction::RES(PreFixTarget::B, BitPosition::B4),
            0xA1 => Instruction::RES(PreFixTarget::C, BitPosition::B4),
            0xA2 => Instruction::RES(PreFixTarget::D, BitPosition::B4),
            0xA3 => Instruction::RES(PreFixTarget::E, BitPosition::B4),
            0xA4 => Instruction::RES(PreFixTarget::H, BitPosition::B4),
            0xA5 => Instruction::RES(PreFixTarget::L, BitPosition::B4),
            0xA6 => Instruction::RES(PreFixTarget::HLI, BitPosition::B4),
            0xA7 => Instruction::RES(PreFixTarget::A, BitPosition::B4),
            0xA8 => Instruction::RES(PreFixTarget::B, BitPosition::B5),
            0xA9 => Instruction::RES(PreFixTarget::C, BitPosition::B5),
            0xAA => Instruction::RES(PreFixTarget::D, BitPosition::B5),
            0xAB => Instruction::RES(PreFixTarget::E, BitPosition::B5),
            0xAC => Instruction::RES(PreFixTarget::H, BitPosition::B5),
            0xAD => Instruction::RES(PreFixTarget::L, BitPosition::B5),
            0xAE => Instruction::RES(PreFixTarget::HLI, BitPosition::B5),
            0xAF => Instruction::RES(PreFixTarget::A, BitPosition::B5),
            0xB0 => Instruction::RES(PreFixTarget::B, BitPosition::B6),
            0xB1 => Instruction::RES(PreFixTarget::C, BitPosition::B6),
            0xB2 => Instruction::RES(PreFixTarget::D, BitPosition::B6),
            0xB3 => Instruction::RES(PreFixTarget::E, BitPosition::B6),
            0xB4 => Instruction::RES(PreFixTarget::H, BitPosition::B6),
            0xB5 => Instruction::RES(PreFixTarget::L, BitPosition::B6),
            0xB6 => Instruction::RES(PreFixTarget::HLI, BitPosition::B6),
            0xB7 => Instruction::RES(PreFixTarget::A, BitPosition::B6),
            0xB8 => Instruction::RES(PreFixTarget::B, BitPosition::B7),
            0xB9 => Instruction::RES(PreFixTarget::C, BitPosition::B7),
            0xBA => Instruction::RES(PreFixTarget::D, BitPosition::B7),
            0xBB => Instruction::RES(PreFixTarget::E, BitPosition::B7),
            0xBC => Instruction::RES(PreFixTarget::H, BitPosition::B7),
            0xBD => Instruction::RES(PreFixTarget::L, BitPosition::B7),
            0xBE => Instruction::RES(PreFixTarget::HLI, BitPosition::B7),
            0xBF => Instruction::RES(PreFixTarget::A, BitPosition::B7),
            0xC0 => Instruction::SET(PreFixTarget::B, BitPosition::B0),
            0xC1 => Instruction::SET(PreFixTarget::C, BitPosition::B0),
            0xC2 => Instruction::SET(PreFixTarget::D, BitPosition::B0),
            0xC3 => Instruction::SET(PreFixTarget::E, BitPosition::B0),
            0xC4 => Instruction::SET(PreFixTarget::H, BitPosition::B0),
            0xC5 => Instruction::SET(PreFixTarget::L, BitPosition::B0),
            0xC6 => Instruction::SET(PreFixTarget::HLI, BitPosition::B0),
            0xC7 => Instruction::SET(PreFixTarget::A, BitPosition::B0),
            0xC8 => Instruction::SET(PreFixTarget::B, BitPosition::B1),
            0xC9 => Instruction::SET(PreFixTarget::C, BitPosition::B1),
            0xCA => Instruction::SET(PreFixTarget::D, BitPosition::B1),
            0xCB => Instruction::SET(PreFixTarget::E, BitPosition::B1),
            0xCC => Instruction::SET(PreFixTarget::H, BitPosition::B1),
            0xCD => Instruction::SET(PreFixTarget::L, BitPosition::B1),
            0xCE => Instruction::SET(PreFixTarget::HLI, BitPosition::B1),
            0xCF => Instruction::SET(PreFixTarget::A, BitPosition::B1),
            0xD0 => Instruction::SET(PreFixTarget::B, BitPosition::B2),
            0xD1 => Instruction::SET(PreFixTarget::C, BitPosition::B2),
            0xD2 => Instruction::SET(PreFixTarget::D, BitPosition::B2),
            0xD3 => Instruction::SET(PreFixTarget::E, BitPosition::B2),
            0xD4 => Instruction::SET(PreFixTarget::H, BitPosition::B2),
            0xD5 => Instruction::SET(PreFixTarget::L, BitPosition::B2),
            0xD6 => Instruction::SET(PreFixTarget::HLI, BitPosition::B2),
            0xD7 => Instruction::SET(PreFixTarget::A, BitPosition::B2),
            0xD8 => Instruction::SET(PreFixTarget::B, BitPosition::B3),
            0xD9 => Instruction::SET(PreFixTarget::C, BitPosition::B3),
            0xDA => Instruction::SET(PreFixTarget::D, BitPosition::B3),
            0xDB => Instruction::SET(PreFixTarget::E, BitPosition::B3),
            0xDC => Instruction::SET(PreFixTarget::H, BitPosition::B3),
            0xDD => Instruction::SET(PreFixTarget::L, BitPosition::B3),
            0xDE => Instruction::SET(PreFixTarget::HLI, BitPosition::B3),
            0xDF => Instruction::SET(PreFixTarget::A, BitPosition::B3),
            0xE0 => Instruction::SET(PreFixTarget::B, BitPosition::B4),
            0xE1 => Instruction::SET(PreFixTarget::C, BitPosition::B4),
            0xE2 => Instruction::SET(PreFixTarget::D, BitPosition::B4),
            0xE3 => Instruction::SET(PreFixTarget::E, BitPosition::B4),
            0xE4 => Instruction::SET(PreFixTarget::H, BitPosition::B4),
            0xE5 => Instruction::SET(PreFixTarget::L, BitPosition::B4),
            0xE6 => Instruction::SET(PreFixTarget::HLI, BitPosition::B4),
            0xE7 => Instruction::SET(PreFixTarget::A, BitPosition::B4),
            0xE8 => Instruction::SET(PreFixTarget::B, BitPosition::B5),
            0xE9 => Instruction::SET(PreFixTarget::C, BitPosition::B5),
            0xEA => Instruction::SET(PreFixTarget::D, BitPosition::B5),
            0xEB => Instruction::SET(PreFixTarget::E, BitPosition::B5),
            0xEC => Instruction::SET(PreFixTarget::H, BitPosition::B5),
            0xED => Instruction::SET(PreFixTarget::L, BitPosition::B5),
            0xEE => Instruction::SET(PreFixTarget::HLI, BitPosition::B5),
            0xEF => Instruction::SET(PreFixTarget::A, BitPosition::B5),
            0xF0 => Instruction::SET(PreFixTarget::B, BitPosition::B6),
            0xF1 => Instruction::SET(PreFixTarget::C, BitPosition::B6),
            0xF2 => Instruction::SET(PreFixTarget::D, BitPosition::B6),
            0xF3 => Instruction::SET(PreFixTarget::E, BitPosition::B6),
            0xF4 => Instruction::SET(PreFixTarget::H, BitPosition::B6),
            0xF5 => Instruction::SET(PreFixTarget::L, BitPosition::B6),
            0xF6 => Instruction::SET(PreFixTarget::HLI, BitPosition::B6),
            0xF7 => Instruction::SET(PreFixTarget::A, BitPosition::B6),
            0xF8 => Instruction::SET(PreFixTarget::B, BitPosition::B7),
            0xF9 => Instruction::SET(PreFixTarget::C, BitPosition::B7),
            0xFA => Instruction::SET(PreFixTarget::D, BitPosition::B7),
            0xFB => Instruction::SET(PreFixTarget::E, BitPosition::B7),
            0xFC => Instruction::SET(PreFixTarget::H, BitPosition::B7),
            0xFD => Instruction::SET(PreFixTarget::L, BitPosition::B7),
            0xFE => Instruction::SET(PreFixTarget::HLI, BitPosition::B7),
            _ => Instruction::SET(PreFixTarget::A, BitPosition::B7),
        }
    }

    /// The base table.
    fn from_byte_not_prefixed(byte: u8) -> (r: Option<Instruction>)
        ensures
            r == decode_base(byte as int),
            r.is_none() <==> (byte == 0xCB || unused_opcode(byte as int)),
    {
        match byte {
            0x00 => Some(Instruction::NOP),
            0x01 => Some(Instruction::LD(LoadType::Word(LoadWordTarget::BC))),
            0x02 => Some(Instruction::LD(LoadType::IndirectFromA(Indirect::BCIndirect))),
            0x03 => Some(Instruction::INC(IncDecTarget::BC)),
            0x04 => Some(Instruction::INC(IncDecTarget::B)),
            0x05 => Some(Instruction::DEC(IncDecTarget::B)),
            0x06 => Some(Instruction::LD(LoadType::Byte(LoadByteTarget::B, LoadByteSource::D8))),
            0x07 => Some(Instruction::RLCA),
            0x08 => Some(Instruction::LD(LoadType::IndirectFromSP)),
            0x09 => Some(Instruction::ADDHL(ADDHLTarget::BC)),
            0x0A => Some(Instruction::LD(LoadType::AFromIndirect(Indirect::BCIndirect))),
            0x0B => Some(Instruction::DEC(IncDecTarget::BC)),
            0x0C => Some(Instruction::INC(IncDecTarget::C)),
            0x0D => Some(Instruction::DEC(IncDecTarget::C)),
            0x0E => Some(Instruction::LD(LoadType::Byte(LoadByteTarget::C, LoadByteSource::D8))),
            0x0F => Some(Instruction::RRCA),
            0x10 => Some(Instruction::STOP),
            0x11 => Some(Instruction::LD(LoadType::Word(LoadWordTarget::DE))),
            0x12 => Some(Instruction::LD(LoadType::IndirectFromA(Indirect::DEIndirect))),
            0x13 => Some(Instruction::INC(IncDecTarget::DE)),
            0x14 => Some(Instruction::INC(IncDecTarget::D)),
            0x15 => Some(Instruction::DEC(IncDecTarget::D)),
            0x16 => Some(Instruction::LD(LoadType::Byte(LoadByteTarget::D, LoadByteSource::D8))),
            0x17 => Some(Instruction::RLA),
            0x18 => Some(Instruction::JR(JumpTest::Always)),
            0x19 => Some(Instruction::ADDHL(ADDHLTarget::DE)),
            0x1A => Some(Instruction::LD(LoadType::AFromIndirect(Indirect::DEIndirect))),
            0x1B => Some(Instruction::DEC(IncDecTarget::DE)),
            0x1C => Some(Instruction::INC(IncDecTarget::E)),
            0x1D => Some(Instruction::DEC(IncDecTarget::E)),
            0x1E => Some(Instruction::LD(LoadType::Byte(LoadByteTarget::E, LoadByteSource::D8))),
            0x1F => Some(Instruction::RRA),
            0x20 => Some(Instruction::JR(JumpTest::NotZero)),
            0x21 => Some(Instruction::LD(LoadType::Word(LoadWordTarget::HL))),
            0x22 => Some(Instruction::LD(LoadType::IndirectFromA(Indirect::HLIndirectPlus))),
            0x23 => Some(Instruction::INC(IncDecTarget::HL)),
            0x24 => Some(Instruction::INC(IncDecTarget::H)),
            0x25 => Some(Instruction::DEC(IncDecTarget::H)),
            0x26 => Some(Instruction::LD(LoadType::Byte(LoadByteTarget::H, LoadByteSource::D8))),
            0x27 => Some(Instruction::DAA),
            0x28 => Some(Instruction::JR(JumpTest::Zero)),
            0x29 => Some(Instruction::ADDHL(ADDHLTarget::HL)),
            0x2A => Some(Instruction::LD(LoadType::AFromIndirect(Indirect::HLIndirectPlus))),
            0x2B => Some(Instruction::DEC(IncDecTarget::HL)),
            0x2C => Some(Instruction::INC(IncDecTarget::L)),
            0x2D => Some(Instruction::DEC(IncDecTarget::L)),
            0x2E => Some(Instruction::LD(LoadType::Byte(LoadByteTarget::L, LoadByteSource::D8))),
            0x2F => Some(Instruction::CPL),
            0x30 => Some(Instruction::JR(JumpTest::NotCarry)),
            0x31 => Some(Instruction::LD(LoadType::Word(LoadWordTarget::SP))),
            0x32 => Some(Instruction::LD(LoadType::IndirectFromA(Indirect::HLIndirectMinus))),
            0x33 => Some(Instruction::INC(IncDecTarget::SP)),
            0x34 => Some(Instruction::INC(IncDecTarget::HLI)),
            0x35 => Some(Instruction::DEC(IncDecTarget::HLI)),
            0x36 => Some(Instruction::LD(LoadType::Byte(LoadByteTarget::HLI, LoadByteSource::D8))),
            0x37 => Some(Instruction::SCF),
            0x38 => Some(Instruction::JR(JumpTest::Carry)),
            0x39 => Some(Instruction::ADDHL(ADDHLTarget::SP)),
            0x3A => Some(Instruction::LD(LoadType::AFromIndirect(Indirect::HLIndirectMinus))),
            0x3B => Some(Instruction::DEC(IncDecTarget::SP)),
            0x3C => Some(Instruction::INC(IncDecTarget::A)),
            0x3D => Some(Instruction::DEC(IncDecTarget::A)),
            0x3E => Some(Instruction::LD(LoadType::Byte(LoadByteTarget::A, LoadByteSource::D8))),
            0x3F => Some(Instruction::CCF),
            0x40 => Some(Instruction::LD(LoadType::Byte(LoadByteTarget::B, LoadByteSource::B))),
            0x41 => Some(Instruction::LD(LoadType::Byte(LoadByteTarget::B, LoadByteSource::C))),
            0x42 => Some(Instruction::LD(LoadType::Byte(LoadByteTarget::B, LoadByteSource::D))),
            0x43 => Some(Instruction::LD(LoadType::Byte(LoadByteTarget::B, LoadByteSource::E))),
            0x44 => Some(Instruction::LD(LoadType::Byte(LoadByteTarget::B, LoadByteSource::H))),
            0x45 => Some(Instruction::LD(LoadType::Byte(LoadByteTarget::B, LoadByteSource::L))),
            0x46 => Some(Instruction::LD(LoadType::Byte(LoadByteTarget::B, LoadByteSource::HLI))),
            0x47 => Some(Instruction::LD(LoadType::Byte(LoadByteTarget::B, LoadByteSource::A))),
            0x48 => Some(Instruction::LD(LoadType::Byte(LoadByteTarget::C, LoadByteSource::B))),
            0x49 => Some(Instruction::LD(LoadType::Byte(LoadByteTarget::C, LoadByteSource::C))),
            0x4A => Some(Instruction::LD(LoadType::Byte(LoadByteTarget::C, LoadByteSource::D))),
            0x4B => Some(Instruction::LD(LoadType::Byte(LoadByteTarget::C, LoadByteSource::E))),
            0x4C => Some(Instruction::LD(LoadType::Byte(LoadByteTarget::C, LoadByteSource::H))),
            0x4D => Some(Instruction::LD(LoadType::Byte(LoadByteTarget::C, LoadByteSource::L))),
            0x4E => Some(Instruction::LD(LoadType::Byte(LoadByteTarget::C, LoadByteSource::HLI))),
            0x4F => Some(Instruction::LD(LoadType::Byte(LoadByteTarget::C, LoadByteSource::A))),
            0x50 => Some(Instruction::LD(LoadType::Byte(LoadByteTarget::D, LoadByteSource::B))),
            0x51 => Some(Instruction::LD(LoadType::Byte(LoadByteTarget::D, LoadByteSource::C))),
            0x52 => Some(Instruction::LD(LoadType::Byte(LoadByteTarget::D, LoadByteSource::D))),
            0x53 => Some(Instruction::LD(LoadType::Byte(LoadByteTarget::D, LoadByteSource::E))),
            0x54 => Some(Instruction::LD(LoadType::Byte(LoadByteTarget::D, LoadByteSource::H))),
            0x55 => Some(Instruction::LD(LoadType::Byte(LoadByteTarget::D, LoadByteSource::L))),
            0x56 => Some(Instruction::LD(LoadType::Byte(LoadByteTarget::D, LoadByteSource::HLI))),
            0x57 => Some(Instruction::LD(LoadType::Byte(LoadByteTarget::D, LoadByteSource::A))),
            0x58 => Some(Instruction::LD(LoadType::Byte(LoadByteTarget::E, LoadByteSource::B))),
            0x59 => Some(Instruction::LD(LoadType::Byte(LoadByteTarget::E, LoadByteSource::C))),
            0x5A => Some(Instruction::LD(LoadType::Byte(LoadByteTarget::E, LoadByteSource::D))),
            0x5B => Some(Instruction::LD(LoadType::Byte(LoadByteTarget::E, LoadByteSource::E))),
            0x5C => Some(Instruction::LD(LoadType::Byte(LoadByteTarget::E, LoadByteSource::H))),
            0x5D => Some(Instruction::LD(LoadType::Byte(LoadByteTarget::E, LoadByteSource::L))),
            0x5E => Some(Instruction::LD(LoadType::Byte(LoadByteTarget::E, LoadByteSource::HLI))),
            0x5F => Some(Instruction::LD(LoadType::Byte(LoadByteTarget::E, LoadByteSource::A))),
            0x60 => Some(Instruction::LD(LoadType::Byte(LoadByteTarget::H, LoadByteSource::B))),
            0x61 => Some(Instruction::LD(LoadType::Byte(LoadByteTarget::H, LoadByteSource::C))),
            0x62 => Some(Instruction::LD(LoadType::Byte(LoadByteTarget::H, LoadByteSource::D))),
            0x63 => Some(Instruction::LD(LoadType::Byte(LoadByteTarget::H, LoadByteSource::E))),
            0x64 => Some(Instruction::LD(LoadType::Byte(LoadByteTarget::H, LoadByteSource::H))),
            0x65 => Some(Instruction::LD(LoadType::Byte(LoadByteTarget::H, LoadByteSource::L))),
            0x66 => Some(Instruction::LD(LoadType::Byte(LoadByteTarget::H, LoadByteSource::HLI))),
            0x67 => Some(Instruction::LD(LoadType::Byte(LoadByteTarget::H, LoadByteSource::A))),
            0x68 => Some(Instruction::LD(LoadType::Byte(LoadByteTarget::L, LoadByteSource::B))),
            0x69 => Some(Instruction::LD(LoadType::Byte(LoadByteTarget::L, LoadByteSource::C))),
            0x6A => Some(Instruction::LD(LoadType::Byte(LoadByteTarget::L, LoadByteSource::D))),
            0x6B => Some(Instruction::LD(LoadType::Byte(LoadByteTarget::L, LoadByteSource::E))),
            0x6C => Some(Instruction::LD(LoadType::Byte(LoadByteTarget::L, LoadByteSource::H))),
            0x6D => Some(Instruction::LD(LoadType::Byte(LoadByteTarget::L, LoadByteSource::L))),
            0x6E => Some(Instruction::LD(LoadType::Byte(LoadByteTarget::L, LoadByteSource::HLI))),
            0x6F => Some(Instruction::LD(LoadType::Byte(LoadByteTarget::L, LoadByteSource::A))),
            0x70 => Some(Instruction::LD(LoadType::Byte(LoadByteTarget::HLI, LoadByteSource::B))),
            0x71 => Some(Instruction::LD(LoadType::Byte(LoadByteTarget::HLI, LoadByteSource::C))),
            0x72 => Some(Instruction::LD(LoadType::Byte(LoadByteTarget::HLI, LoadByteSource::D))),
            0x73 => Some(Instruction::LD(LoadType::Byte(LoadByteTarget::HLI, LoadByteSource::E))),
            0x74 => Some(Instruction::LD(LoadType::Byte(LoadByteTarget::HLI, LoadByteSource::H))),
            0x75 => Some(Instruction::LD(LoadType::Byte(LoadByteTarget::HLI, LoadByteSource::L))),
            0x76 => Some(Instruction::HALT),
            0x77 => Some(Instruction::LD(LoadType::Byte(LoadByteTarget::HLI, LoadByteSource::A))),
            0x78 => Some(Instruction::LD(LoadType::Byte(LoadByteTarget::A, LoadByteSource::B))),
            0x79 => Some(Instruction::LD(LoadType::Byte(LoadByteTarget::A, LoadByteSource::C))),
            0x7A => Some(Instruction::LD(LoadType::Byte(LoadByteTarget::A, LoadByteSource::D))),
            0x7B => Some(Instruction::LD(LoadType::Byte(LoadByteTarget::A, LoadByteSource::E))),
            0x7C => Some(Instruction::LD(LoadType::Byte(LoadByteTarget::A, LoadByteSource::H))),
            0x7D => Some(Instruction::LD(LoadType::Byte(LoadByteTarget::A, LoadByteSource::L))),
            0x7E => Some(Instruction::LD(LoadType::Byte(LoadByteTarget::A, LoadByteSource::HLI))),
            0x7F => Some(Instruction::LD(LoadType::Byte(LoadByteTarget::A, LoadByteSource::A))),
            0x80 => Some(Instruction::ADD(ArithmeticTarget::B)),
            0x81 => Some(Instruction::ADD(ArithmeticTarget::C)),
            0x82 => Some(Instruction::ADD(ArithmeticTarget::D)),
            0x83 => Some(Instruction::ADD(ArithmeticTarget::E)),
            0x84 => Some(Instruction::ADD(ArithmeticTarget::H)),
            0x85 => Some(Instruction::ADD(ArithmeticTarget::L)),
            0x86 => Some(Instruction::ADD(ArithmeticTarget::HLI)),
            0x87 => Some(Instruction::ADD(ArithmeticTarget::A)),
            0x88 => Some(Instruction::ADC(ArithmeticTarget::B)),
            0x89 => Some(Instruction::ADC(ArithmeticTarget::C)),
            0x8A => Some(Instruction::ADC(ArithmeticTarget::D)),
            0x8B => Some(Instruction::ADC(ArithmeticTarget::E)),
            0x8C => Some(Instruction::ADC(ArithmeticTarget::H)),
            0x8D => Some(Instruction::ADC(ArithmeticTarget::L)),
            0x8E => Some(Instruction::ADC(ArithmeticTarget::HLI)),
            0x8F => Some(Instruction::ADC(ArithmeticTarget::A)),
            0x90 => Some(Instruction::SUB(ArithmeticTarget::B)),
            0x91 => Some(Instruction::SUB(ArithmeticTarget::C)),
            0x92 => Some(Instruction::SUB(ArithmeticTarget::D)),
            0x93 => Some(Instruction::SUB(ArithmeticTarget::E)),
            0x94 => Some(Instruction::SUB(ArithmeticTarget::H)),
            0x95 => Some(Instruction::SUB(ArithmeticTarget::L)),
            0x96 => Some(Instruction::SUB(ArithmeticTarget::HLI)),
            0x97 => Some(Instruction::SUB(ArithmeticTarget::A)),
            0x98 => Some(Instruction::SBC(ArithmeticTarget::B)),
            0x99 => Some(Instruction::SBC(ArithmeticTarget::C)),
            0x9A => Some(Instruction::SBC(ArithmeticTarget::D)),
            0x9B => Some(Instruction::SBC(ArithmeticTarget::E)),
            0x9C => Some(Instruction::SBC(ArithmeticTarget::H)),
            0x9D => Some(Instruction::SBC(ArithmeticTarget::L)),
            0x9E => Some(Instruction::SBC(ArithmeticTarget::HLI)),
            0x9F => Some(Instruction::SBC(ArithmeticTarget::A)),
            0xA0 => Some(Instruction::AND(ArithmeticTarget::B)),
            0xA1 => Some(Instruction::AND(ArithmeticTarget::C)),
            0xA2 => Some(Instruction::AND(ArithmeticTarget::D)),
            0xA3 => Some(Instruction::AND(ArithmeticTarget::E)),
            0xA4 => Some(Instruction::AND(ArithmeticTarget::H)),
            0xA5 => Some(Instruction::AND(ArithmeticTarget::L)),
            0xA6 => Some(Instruction::AND(ArithmeticTarget::HLI)),
            0xA7 => Some(Instruction::AND(ArithmeticTarget::A)),
            0xA8 => Some(Instruction::XOR(ArithmeticTarget::B)),
            0xA9 => Some(Instruction::XOR(ArithmeticTarget::C)),
            0xAA => Some(Instruction::XOR(ArithmeticTarget::D)),
            0xAB => Some(Instruction::XOR(ArithmeticTarget::E)),
            0xAC => Some(Instruction::XOR(ArithmeticTarget::H)),
            0xAD => Some(Instruction::XOR(ArithmeticTarget::L)),
            0xAE => Some(Instruction::XOR(ArithmeticTarget::HLI)),
            0xAF => Some(Instruction::XOR(ArithmeticTarget::A)),
            0xB0 => Some(Instruction::OR(ArithmeticTarget::B)),
            0xB1 => Some(Instruction::OR(ArithmeticTarget::C)),
            0xB2 => Some(Instruction::OR(ArithmeticTarget::D)),
            0xB3 => Some(Instruction::OR(ArithmeticTarget::E)),
            0xB4 => Some(Instruction::OR(ArithmeticTarget::H)),
            0xB5 => Some(Instruction::OR(ArithmeticTarget::L)),
            0xB6 => Some(Instruction::OR(ArithmeticTarget::HLI)),
            0xB7 => Some(Instruction::OR(ArithmeticTarget::A)),
            0xB8 => Some(Instruction::CP(ArithmeticTarget::B)),
            0xB9 => Some(Instruction::CP(ArithmeticTarget::C)),
            0xBA => Some(Instruction::CP(ArithmeticTarget::D)),
            0xBB => Some(Instruction::CP(ArithmeticTarget::E)),
            0xBC => Some(Instruction::CP(ArithmeticTarget::H)),
            0xBD => Some(Instruction::CP(ArithmeticTarget::L)),
            0xBE => Some(Instruction::CP(ArithmeticTarget::HLI)),
            0xBF => Some(Instruction::CP(ArithmeticTarget::A)),
            0xC0 => Some(Instruction::RET(JumpTest::NotZero)),
            0xC1 => Some(Instruction::POP(StackTarget::BC)),
            0xC2 => Some(Instruction::JP(JumpTest::NotZero)),
            0xC3 => Some(Instruction::JP(JumpTest::Always)),
            0xC4 => Some(Instruction::CALL(JumpTest::NotZero)),
            0xC5 => Some(Instruction::PUSH(StackTarget::BC)),
            0xC6 => Some(Instruction::ADD(ArithmeticTarget::D8)),
            0xC7 => Some(Instruction::RST(RSTLocation::x00)),
            0xC8 => Some(Instruction::RET(JumpTest::Zero)),
            0xC9 => Some(Instruction::RET(JumpTest::Always)),
            0xCA => Some(Instruction::JP(JumpTest::Zero)),
            0xCB => None,
            0xCC => Some(Instruction::CALL(JumpTest::Zero)),
            0xCD => Some(Instruction::CALL(JumpTest::Always)),
            0xCE => Some(Instruction::ADC(ArithmeticTarget::D8)),
            0xCF => Some(Instruction::RST(RSTLocation::x08)),
            0xD0 => Some(Instruction::RET(JumpTest::NotCarry)),
            0xD1 => Some(Instruction::POP(StackTarget::DE)),
            0xD2 => Some(Instruction::JP(JumpTest::NotCarry)),
            0xD3 => None,
            0xD4 => Some(Instruction::CALL(JumpTest::NotCarry)),
            0xD5 => Some(Instruction::PUSH(StackTarget::DE)),
            0xD6 => Some(Instruction::SUB(ArithmeticTarget::D8)),
            0xD7 => Some(Instruction::RST(RSTLocation::x10)),
            0xD8 => Some(Instruction::RET(JumpTest::Carry)),
            0xD9 => Some(Instruction::RETI),
            0xDA => Some(Instruction::JP(JumpTest::Carry)),
            0xDB => None,
            0xDC => Some(Instruction::CALL(JumpTest::Carry)),
            0xDD => None,
            0xDE => Some(Instruction::SBC(ArithmeticTarget::D8)),
            0xDF => Some(Instruction::RST(RSTLocation::x18)),
            0xE0 => Some(Instruction::LD(LoadType::ByteAddressFromA)),
            0xE1 => Some(Instruction::POP(StackTarget::HL)),
            0xE2 => Some(Instruction::LD(LoadType::IndirectFromA(Indirect::LastByteIndirect))),
            0xE3 => None,
            0xE4 => None,
            0xE5 => Some(Instruction::PUSH(StackTarget::HL)),
            0xE6 => Some(Instruction::AND(ArithmeticTarget::D8)),
            0xE7 => Some(Instruction::RST(RSTLocation::x20)),
            0xE8 => Some(Instruction::ADDSP),
            0xE9 => Some(Instruction::JPI),
            0xEA => Some(Instruction::LD(LoadType::IndirectFromA(Indirect::WordIndirect))),
            0xEB => None,
            0xEC => None,
            0xED => None,
            0xEE => Some(Instruction::XOR(ArithmeticTarget::D8)),
            0xEF => Some(Instruction::RST(RSTLocation::x28)),
            0xF0 => Some(Instruction::LD(LoadType::AFromByteAddress)),
            0xF1 => Some(Instruction::POP(StackTarget::AF)),
            0xF2 => Some(Instruction::LD(LoadType::AFromIndirect(Indirect::LastByteIndirect))),
            0xF3 => Some(Instruction::DI),
            0xF4 => None,
            0xF5 => Some(Instruction::PUSH(StackTarget::AF)),
            0xF6 => Some(Instruction::OR(ArithmeticTarget::D8)),
            0xF7 => Some(Instruction::RST(RSTLocation::x30)),
            0xF8 => Some(Instruction::LD(LoadType::HLFromSPN)),
            0xF9 => Some(Instruction::LD(LoadType::SPFromHL)),
            0xFA => Some(Instruction::LD(LoadType::AFromIndirect(Indirect::WordIndirect))),
            0xFB => Some(Instruction::EI),
            0xFC => None,
            0xFD => None,
            0xFE => Some(Instruction::CP(ArithmeticTarget::D8)),
            _ => Some(Instruction::RST(RSTLocation::x38)),
        }
    }
}

} // verus!
