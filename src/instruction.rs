use vstd::prelude::*;

verus! {

/// One decoded instruction: the operation and its operand selectors.
#[derive(Clone, Copy, Debug, PartialEq, Eq, Structural)]
pub enum Instruction {
    LDSP(),
    ADD(ArithmeticTarget),
    SUB(ArithmeticTarget),
    ADC(ArithmeticTarget),
    SBC(ArithmeticTarget),
    AND(ArithmeticTarget),
    OR(ArithmeticTarget),
    CP(ArithmeticTarget),
    XOR(ArithmeticTarget),
    INC(IncTarget),
    DEC(IncTarget),
    AddHL(ADDHLTarget),
    CCF(),
    SCF(),
    RRA(),
    RLA(),
    RRCA(),
    RRLA(),
    CPL(),
    ADDSP(),
    LDHL(),
    BIT(PrefixTarget, u8),
    RESET(PrefixTarget, u8),
    SET(PrefixTarget, u8),
    SRL(PrefixTarget),
    RR(PrefixTarget),
    RL(PrefixTarget),
    RRC(PrefixTarget),
    RLC(PrefixTarget),
    SRA(PrefixTarget),
    SLA(PrefixTarget),
    SWAP(PrefixTarget),
    JP(JumpTest),
    LD(LoadType),
    POP(StackTarget),
    PUSH(StackTarget),
    NOP(),
    HALT(),
}

#[derive(Clone, Copy, Debug, PartialEq, Eq, Structural)]
pub enum StackTarget {
    AF,
    BC,
    DE,
    Hl,
}

/// The second operand of an 8-bit arithmetic or logic operation; `HL` is
/// the byte that HL points to, `PC` the byte that follows the opcode.
#[derive(Clone, Copy, Debug, PartialEq, Eq, Structural)]
pub enum ArithmeticTarget {
    A,
    B,
    C,
    D,
    E,
    H,
    L,
    HL,
    PC,
}

/// The operand of a prefixed instruction; `HL` is the byte that HL points to.
#[derive(Clone, Copy, Debug, PartialEq, Eq, Structural)]
pub enum PrefixTarget {
    A,
    B,
    C,
    D,
    E,
    H,
    L,
    HL,
}

#[derive(Clone, Copy, Debug, PartialEq, Eq, Structural)]
pub enum IncTarget {
    A,
    B,
    C,
    D,
    E,
    H,
    L,
    HL,
    BC,
    DE,
    SP,
}

#[derive(Clone, Copy, Debug, PartialEq, Eq, Structural)]
pub enum ADDHLTarget {
    HL,
    BC,
    DE,
    SP,
}

#[derive(Clone, Copy, Debug, PartialEq, Eq, Structural)]
pub enum JumpTest {
    NotZero,
    Zero,
    NotCarry,
    Carry,
    Always,
}

/// Destination of a 16-bit load; `U16` is the address that follows the opcode.
#[derive(Clone, Copy, Debug, PartialEq, Eq, Structural)]
pub enum WordByteTarget {
    BC,
    DE,
    HL,
    SP,
    U16,
}

/// Source of a 16-bit load; `U16` is the word that follows the opcode.
#[derive(Clone, Copy, Debug, PartialEq, Eq, Structural)]
pub enum WordByteSource {
    U16,
    SP,
}

/// Load A from the byte that a register pair points to (HL then steps).
#[derive(Clone, Copy, Debug, PartialEq, Eq, Structural)]
pub enum AFromIndirect {
    BC,
    HLPlus,
    HLMinus,
    DE,
}

/// Store A at the byte that a register pair points to (HL then steps).
#[derive(Clone, Copy, Debug, PartialEq, Eq, Structural)]
pub enum IndirectFromA {
    BC,
    HLPlus,
    HLMinus,
    DE,
}

/// Load A from an absolute address, or from 0xFF00 plus a byte or plus C.
#[derive(Clone, Copy, Debug, PartialEq, Eq, Structural)]
pub enum AFromByteAddress {
    U16,
    FF00U8,
    FFOOC,
}

/// Store A at an absolute address, or at 0xFF00 plus a byte or plus C.
#[derive(Clone, Copy, Debug, PartialEq, Eq, Structural)]
pub enum ByteAddressFromA {
    U16,
    FF00U8,
    FFOOC,
}

/// Destination of an 8-bit load; `HLI` is the byte that HL points to.
#[derive(Clone, Copy, Debug, PartialEq, Eq, Structural)]
pub enum LoadByteTarget {
    A,
    B,
    C,
    D,
    E,
    H,
    L,
    HLI,
}

/// Source of an 8-bit load; `D8` is the byte that follows the opcode.
#[derive(Clone, Copy, Debug, PartialEq, Eq, Structural)]
pub enum LoadByteSource {
    A,
    B,
    C,
    D,
    E,
    H,
    L,
    D8,
    HLI,
}

#[derive(Clone, Copy, Debug, PartialEq, Eq, Structural)]
pub enum LoadType {
    Byte(LoadByteTarget, LoadByteSource),
    Word(WordByteTarget, WordByteSource),
    ByteAddressFromA(ByteAddressFromA),
    AFromByteAddress(AFromByteAddress),
    IndirectFromA(IndirectFromA),
    AFromIndirect(AFromIndirect),
}

/// The operand that a three-bit register code selects, in the order
/// B, C, D, E, H, L, (HL), A.
pub open spec fn prefix_target_of(code: u8) -> PrefixTarget {
    if code % 8 == 0 {
        PrefixTarget::B
    } else if code % 8 == 1 {
        PrefixTarget::C
    } else if code % 8 == 2 {
        PrefixTarget::D
    } else if code % 8 == 3 {
        PrefixTarget::E
    } else if code % 8 == 4 {
        PrefixTarget::H
    } else if code % 8 == 5 {
        PrefixTarget::L
    } else if code % 8 == 6 {
        PrefixTarget::HL
    } else {
        PrefixTarget::A
    }
}

pub open spec fn arithmetic_target_of(code: u8) -> ArithmeticTarget {
    match prefix_target_of(code) {
        PrefixTarget::A => ArithmeticTarget::A,
        PrefixTarget::B => ArithmeticTarget::B,
        PrefixTarget::C => ArithmeticTarget::C,
        PrefixTarget::D => ArithmeticTarget::D,
        PrefixTarget::E => ArithmeticTarget::E,
        PrefixTarget::H => ArithmeticTarget::H,
        PrefixTarget::L => ArithmeticTarget::L,
        PrefixTarget::HL => ArithmeticTarget::HL,
    }
}

pub open spec fn load_target_of(code: u8) -> LoadByteTarget {
    match prefix_target_of(code) {
        PrefixTarget::A => LoadByteTarget::A,
        PrefixTarget::B => LoadByteTarget::B,
        PrefixTarget::C => LoadByteTarget::C,
        PrefixTarget::D => LoadByteTarget::D,
        PrefixTarget::E => LoadByteTarget::E,
        PrefixTarget::H => LoadByteTarget::H,
        PrefixTarget::L => LoadByteTarget::L,
        PrefixTarget::HL => LoadByteTarget::HLI,
    }
}

pub open spec fn load_source_of(code: u8) -> LoadByteSource {
    match prefix_target_of(code) {
        PrefixTarget::A => LoadByteSource::A,
        PrefixTarget::B => LoadByteSource::B,
        PrefixTarget::C => LoadByteSource::C,
        PrefixTarget::D => LoadByteSource::D,
        PrefixTarget::E => LoadByteSource::E,
        PrefixTarget::H => LoadByteSource::H,
        PrefixTarget::L => LoadByteSource::L,
        PrefixTarget::HL => LoadByteSource::HLI,
    }
}

/// Opcodes 0x80 to 0xBF: bits 3-5 pick the operation, bits 0-2 the operand.
pub open spec fn arithmetic_of(byte: u8) -> Instruction {
    let t = arithmetic_target_of(byte);
    let op = (byte / 8) % 8;
    if op == 0 {
        Instruction::ADD(t)
    } else if op == 1 {
        Instruction::ADC(t)
    } else if op == 2 {
        Instruction::SUB(t)
    } else if op == 3 {
        Instruction::SBC(t)
    } else if op == 4 {
        Instruction::AND(t)
    } else if op == 5 {
        Instruction::XOR(t)
    } else if op == 6 {
        Instruction::OR(t)
    } else {
        Instruction::CP(t)
    }
}

/// What an opcode means without the 0xCB prefix; `None` marks an opcode
/// that this decoder does not implement.
pub open spec fn decode_unprefixed(byte: u8) -> Option<Instruction> {
    if 0x40 <= byte < 0x80 {
        if byte == 0x76 {
            Some(Instruction::HALT())
        } else {
            Some(Instruction::LD(LoadType::Byte(load_target_of(byte / 8), load_source_of(byte))))
        }
    } else if 0x80 <= byte < 0xC0 {
        Some(arithmetic_of(byte))
    } else {
        match byte {
        0x00 => Some(Instruction::NOP()),
        0x01 => Some(Instruction::LD(LoadType::Word(WordByteTarget::BC, WordByteSource::U16))),
        0x03 => Some(Instruction::INC(IncTarget::BC)),
        0x04 => Some(Instruction::INC(IncTarget::B)),
        0x05 => Some(Instruction::DEC(IncTarget::B)),
        0x06 => Some(Instruction::LD(LoadType::Byte(LoadByteTarget::B, LoadByteSource::D8))),
        0x07 => Some(Instruction::RRLA()),
        0x08 => Some(Instruction::LD(LoadType::Word(WordByteTarget::U16, WordByteSource::SP))),
        0x09 => Some(Instruction::AddHL(ADDHLTarget::BC)),
        0x0A => Some(Instruction::LD(LoadType::AFromIndirect(AFromIndirect::BC))),
        0x0B => Some(Instruction::DEC(IncTarget::BC)),
        0x0C => Some(Instruction::INC(IncTarget::C)),
        0x0D => Some(Instruction::DEC(IncTarget::C)),
        0x0E => Some(Instruction::LD(LoadType::Byte(LoadByteTarget::C, LoadByteSource::D8))),
        0x13 => Some(Instruction::INC(IncTarget::DE)),
        0x14 => Some(Instruction::INC(IncTarget::D)),
        0x15 => Some(Instruction::DEC(IncTarget::D)),
        0x16 => Some(Instruction::LD(LoadType::Byte(LoadByteTarget::D, LoadByteSource::D8))),
        0x17 => Some(Instruction::RLA()),
        0x19 => Some(Instruction::AddHL(ADDHLTarget::DE)),
        0x1A => Some(Instruction::LD(LoadType::AFromIndirect(AFromIndirect::DE))),
        0x1B => Some(Instruction::DEC(IncTarget::DE)),
        0x1C => Some(Instruction::INC(IncTarget::E)),
        0x1D => Some(Instruction::DEC(IncTarget::E)),
        0x1E => Some(Instruction::LD(LoadType::Byte(LoadByteTarget::E, LoadByteSource::D8))),
        0x1F => Some(Instruction::RRA()),
        0x21 => Some(Instruction::LD(LoadType::Word(WordByteTarget::HL, WordByteSource::U16))),
        0x22 => Some(Instruction::LD(LoadType::IndirectFromA(IndirectFromA::HLPlus))),
        0x23 => Some(Instruction::INC(IncTarget::HL)),
        0x24 => Some(Instruction::INC(IncTarget::H)),
        0x25 => Some(Instruction::DEC(IncTarget::H)),
        0x26 => Some(Instruction::LD(LoadType::Byte(LoadByteTarget::H, LoadByteSource::D8))),
        0x29 => Some(Instruction::AddHL(ADDHLTarget::HL)),
        0x2A => Some(Instruction::LD(LoadType::AFromIndirect(AFromIndirect::HLPlus))),
        0x2B => Some(Instruction::DEC(IncTarget::HL)),
        0x2C => Some(Instruction::INC(IncTarget::L)),
        0x2D => Some(Instruction::DEC(IncTarget::L)),
        0x2E => Some(Instruction::LD(LoadType::Byte(LoadByteTarget::L, LoadByteSource::D8))),
        0x2F => Some(Instruction::CPL()),
        0x31 => Some(Instruction::LD(LoadType::Word(WordByteTarget::SP, WordByteSource::U16))),
        0x32 => Some(Instruction::LD(LoadType::IndirectFromA(IndirectFromA::HLMinus))),
        0x33 => Some(Instruction::INC(IncTarget::SP)),
        0x34 => Some(Instruction::INC(IncTarget::HL)),
        0x35 => Some(Instruction::DEC(IncTarget::HL)),
        0x36 => Some(Instruction::LD(LoadType::Byte(LoadByteTarget::HLI, LoadByteSource::D8))),
        0x37 => Some(Instruction::SCF()),
        0x39 => Some(Instruction::AddHL(ADDHLTarget::SP)),
        0x3A => Some(Instruction::LD(LoadType::AFromIndirect(AFromIndirect::HLMinus))),
        0x3B => Some(Instruction::DEC(IncTarget::SP)),
        0x3C => Some(Instruction::INC(IncTarget::A)),
        0x3D => Some(Instruction::DEC(IncTarget::A)),
        0x3E => Some(Instruction::LD(LoadType::Byte(LoadByteTarget::A, LoadByteSource::D8))),
        0x3F => Some(Instruction::CCF()),
        0xC1 => Some(Instruction::POP(StackTarget::BC)),
        0xC5 => Some(Instruction::PUSH(StackTarget::BC)),
        0xC6 => Some(Instruction::ADD(ArithmeticTarget::PC)),
        0xCE => Some(Instruction::ADC(ArithmeticTarget::PC)),
        0xD1 => Some(Instruction::POP(StackTarget::DE)),
        0xD5 => Some(Instruction::PUSH(StackTarget::DE)),
        0xD6 => Some(Instruction::SUB(ArithmeticTarget::PC)),
        0xDE => Some(Instruction::SBC(ArithmeticTarget::PC)),
        0xE0 => Some(Instruction::LD(LoadType::ByteAddressFromA(ByteAddressFromA::FF00U8))),
        0xE1 => Some(Instruction::POP(StackTarget::Hl)),
        0xE2 => Some(Instruction::LD(LoadType::ByteAddressFromA(ByteAddressFromA::FFOOC))),
        0xE5 => Some(Instruction::PUSH(StackTarget::Hl)),
        0xE6 => Some(Instruction::AND(ArithmeticTarget::PC)),
        0xE8 => Some(Instruction::ADDSP()),
        0xEA => Some(Instruction::LD(LoadType::ByteAddressFromA(ByteAddressFromA::U16))),
        0xEE => Some(Instruction::XOR(ArithmeticTarget::PC)),
        0xF0 => Some(Instruction::LD(LoadType::AFromByteAddress(AFromByteAddress::FF00U8))),
        0xF1 => Some(Instruction::POP(StackTarget::AF)),
        0xF2 => Some(Instruction::LD(LoadType::AFromByteAddress(AFromByteAddress::FFOOC))),
        0xF5 => Some(Instruction::PUSH(StackTarget::AF)),
        0xF6 => Some(Instruction::OR(ArithmeticTarget::PC)),
        0xF8 => Some(Instruction::LDHL()),
        0xF9 => Some(Instruction::LDSP()),
        0xFA => Some(Instruction::LD(LoadType::AFromByteAddress(AFromByteAddress::U16))),
        0xFE => Some(Instruction::CP(ArithmeticTarget::PC)),
            _ => None,
        }
    }
}

/// What the byte after a 0xCB prefix means: bits 0-2 pick the operand;
/// below 0x40 bits 3-5 pick a rotation or shift, above it they are the bit
/// index of BIT (0x40-0x7F), RES (0x80-0xBF) or SET (0xC0-0xFF).
pub open spec fn decode_prefixed(byte: u8) -> Instruction {
    let t = prefix_target_of(byte);
    let n = (byte / 8) % 8;
    if byte < 0x40 {
        if n == 0 {
            Instruction::RLC(t)
        } else if n == 1 {
            Instruction::RRC(t)
        } else if n == 2 {
            Instruction::RL(t)
        } else if n == 3 {
            Instruction::RR(t)
        } else if n == 4 {
            Instruction::SLA(t)
        } else if n == 5 {
            Instruction::SRA(t)
        } else if n == 6 {
            Instruction::SWAP(t)
        } else {
            Instruction::SRL(t)
        }
    } else if byte < 0x80 {
        Instruction::BIT(t, n)
    } else if byte < 0xC0 {
        Instruction::RESET(t, n)
    } else {
        Instruction::SET(t, n)
    }
}

pub open spec fn decode(byte: u8, prefixed: bool) -> Option<Instruction> {
    if prefixed {
        Some(decode_prefixed(byte))
    } else {
        decode_unprefixed(byte)
    }
}

/// Every byte after the prefix decodes to an instruction, and the bit index
/// of BIT, RES and SET is below 8.
pub proof fn prefixed_decoding_is_total(byte: u8)
    ensures
        decode(byte, true) is Some,
        match decode_prefixed(byte) {
            Instruction::BIT(_, n) | Instruction::RESET(_, n) | Instruction::SET(_, n) => n < 8,
            _ => true,
        },
{
}

proof fn lemma_code_bits(byte: u8)
    ensures
        byte & 7 == byte % 8,
        (byte >> 3u8) & 7 == (byte / 8) % 8,
{
    assert(byte & 7 == byte % 8 && (byte >> 3u8) & 7 == (byte / 8) % 8) by (bit_vector);
}

impl Instruction {
    pub fn from_byte(byte: u8, prefix: bool) -> (r: Option<Instruction>)
        ensures
            r == decode(byte, prefix),
    {
        if prefix {
            Instruction::from_byte_prefixed(byte)
        } else {
            Instruction::from_byte_not_prefixed(byte)
        }
    }

    pub fn from_byte_not_prefixed(byte: u8) -> (r: Option<Instruction>)
        ensures
            r == decode_unprefixed(byte),
    {
        proof {
            lemma_code_bits(byte);
        }
        if 0x40 <= byte && byte < 0x80 {
            if byte == 0x76 {
                Some(Instruction::HALT())
            } else {
                let target = Self::decode_prefix_target((byte >> 3) & 0b111);
                let source = Self::decode_prefix_target(byte & 0b111);
                let target = match target {
                    PrefixTarget::A => LoadByteTarget::A,
                    PrefixTarget::B => LoadByteTarget::B,
                    PrefixTarget::C => LoadByteTarget::C,
                    PrefixTarget::D => LoadByteTarget::D,
                    PrefixTarget::E => LoadByteTarget::E,
                    PrefixTarget::H => LoadByteTarget::H,
                    PrefixTarget::L => LoadByteTarget::L,
                    PrefixTarget::HL => LoadByteTarget::HLI,
                };
                let source = match source {
                    PrefixTarget::A => LoadByteSource::A,
                    PrefixTarget::B => LoadByteSource::B,
                    PrefixTarget::C => LoadByteSource::C,
                    PrefixTarget::D => LoadByteSource::D,
                    PrefixTarget::E => LoadByteSource::E,
                    PrefixTarget::H => LoadByteSource::H,
                    PrefixTarget::L => LoadByteSource::L,
                    PrefixTarget::HL => LoadByteSource::HLI,
                };
                Some(Instruction::LD(LoadType::Byte(target, source)))
            }
        } else if 0x80 <= byte && byte < 0xC0 {
            let t = match Self::decode_prefix_target(byte & 0b111) {
                PrefixTarget::A => ArithmeticTarget::A,
                PrefixTarget::B => ArithmeticTarget::B,
                PrefixTarget::C => ArithmeticTarget::C,
                PrefixTarget::D => ArithmeticTarget::D,
                PrefixTarget::E => ArithmeticTarget::E,
                PrefixTarget::H => ArithmeticTarget::H,
                PrefixTarget::L => ArithmeticTarget::L,
                PrefixTarget::HL => ArithmeticTarget::HL,
            };
            let op = (byte >> 3) & 0b111;
            Some(
                if op == 0 {
                    Instruction::ADD(t)
                } else if op == 1 {
                    Instruction::ADC(t)
                } else if op == 2 {
                    Instruction::SUB(t)
                } else if op == 3 {
                    Instruction::SBC(t)
                } else if op == 4 {
                    Instruction::AND(t)
                } else if op == 5 {
                    Instruction::XOR(t)
                } else if op == 6 {
                    Instruction::OR(t)
                } else {
                    Instruction::CP(t)
                },
            )
        } else {
            match byte {
            0x00 => Some(Instruction::NOP()),
            0x01 => Some(Instruction::LD(LoadType::Word(WordByteTarget::BC, WordByteSource::U16))),
            0x03 => Some(Instruction::INC(IncTarget::BC)),
            0x04 => Some(Instruction::INC(IncTarget::B)),
            0x05 => Some(Instruction::DEC(IncTarget::B)),
            0x06 => Some(Instruction::LD(LoadType::Byte(LoadByteTarget::B, LoadByteSource::D8))),
            0x07 => Some(Instruction::RRLA()),
            0x08 => Some(Instruction::LD(LoadType::Word(WordByteTarget::U16, WordByteSource::SP))),
            0x09 => Some(Instruction::AddHL(ADDHLTarget::BC)),
            0x0A => Some(Instruction::LD(LoadType::AFromIndirect(AFromIndirect::BC))),
            0x0B => Some(Instruction::DEC(IncTarget::BC)),
            0x0C => Some(Instruction::INC(IncTarget::C)),
            0x0D => Some(Instruction::DEC(IncTarget::C)),
            0x0E => Some(Instruction::LD(LoadType::Byte(LoadByteTarget::C, LoadByteSource::D8))),
            0x13 => Some(Instruction::INC(IncTarget::DE)),
            0x14 => Some(Instruction::INC(IncTarget::D)),
            0x15 => Some(Instruction::DEC(IncTarget::D)),
            0x16 => Some(Instruction::LD(LoadType::Byte(LoadByteTarget::D, LoadByteSource::D8))),
            0x17 => Some(Instruction::RLA()),
            0x19 => Some(Instruction::AddHL(ADDHLTarget::DE)),
            0x1A => Some(Instruction::LD(LoadType::AFromIndirect(AFromIndirect::DE))),
            0x1B => Some(Instruction::DEC(IncTarget::DE)),
            0x1C => Some(Instruction::INC(IncTarget::E)),
            0x1D => Some(Instruction::DEC(IncTarget::E)),
            0x1E => Some(Instruction::LD(LoadType::Byte(LoadByteTarget::E, LoadByteSource::D8))),
            0x1F => Some(Instruction::RRA()),
            0x21 => Some(Instruction::LD(LoadType::Word(WordByteTarget::HL, WordByteSource::U16))),
            0x22 => Some(Instruction::LD(LoadType::IndirectFromA(IndirectFromA::HLPlus))),
            0x23 => Some(Instruction::INC(IncTarget::HL)),
            0x24 => Some(Instruction::INC(IncTarget::H)),
            0x25 => Some(Instruction::DEC(IncTarget::H)),
            0x26 => Some(Instruction::LD(LoadType::Byte(LoadByteTarget::H, LoadByteSource::D8))),
            0x29 => Some(Instruction::AddHL(ADDHLTarget::HL)),
            0x2A => Some(Instruction::LD(LoadType::AFromIndirect(AFromIndirect::HLPlus))),
            0x2B => Some(Instruction::DEC(IncTarget::HL)),
            0x2C => Some(Instruction::INC(IncTarget::L)),
            0x2D => Some(Instruction::DEC(IncTarget::L)),
            0x2E => Some(Instruction::LD(LoadType::Byte(LoadByteTarget::L, LoadByteSource::D8))),
            0x2F => Some(Instruction::CPL()),
            0x31 => Some(Instruction::LD(LoadType::Word(WordByteTarget::SP, WordByteSource::U16))),
            0x32 => Some(Instruction::LD(LoadType::IndirectFromA(IndirectFromA::HLMinus))),
            0x33 => Some(Instruction::INC(IncTarget::SP)),
            0x34 => Some(Instruction::INC(IncTarget::HL)),
            0x35 => Some(Instruction::DEC(IncTarget::HL)),
            0x36 => Some(Instruction::LD(LoadType::Byte(LoadByteTarget::HLI, LoadByteSource::D8))),
            0x37 => Some(Instruction::SCF()),
            0x39 => Some(Instruction::AddHL(ADDHLTarget::SP)),
            0x3A => Some(Instruction::LD(LoadType::AFromIndirect(AFromIndirect::HLMinus))),
            0x3B => Some(Instruction::DEC(IncTarget::SP)),
            0x3C => Some(Instruction::INC(IncTarget::A)),
            0x3D => Some(Instruction::DEC(IncTarget::A)),
            0x3E => Some(Instruction::LD(LoadType::Byte(LoadByteTarget::A, LoadByteSource::D8))),
            0x3F => Some(Instruction::CCF()),
            0xC1 => Some(Instruction::POP(StackTarget::BC)),
            0xC5 => Some(Instruction::PUSH(StackTarget::BC)),
            0xC6 => Some(Instruction::ADD(ArithmeticTarget::PC)),
            0xCE => Some(Instruction::ADC(ArithmeticTarget::PC)),
            0xD1 => Some(Instruction::POP(StackTarget::DE)),
            0xD5 => Some(Instruction::PUSH(StackTarget::DE)),
            0xD6 => Some(Instruction::SUB(ArithmeticTarget::PC)),
            0xDE => Some(Instruction::SBC(ArithmeticTarget::PC)),
            0xE0 => Some(Instruction::LD(LoadType::ByteAddressFromA(ByteAddressFromA::FF00U8))),
            0xE1 => Some(Instruction::POP(StackTarget::Hl)),
            0xE2 => Some(Instruction::LD(LoadType::ByteAddressFromA(ByteAddressFromA::FFOOC))),
            0xE5 => Some(Instruction::PUSH(StackTarget::Hl)),
            0xE6 => Some(Instruction::AND(ArithmeticTarget::PC)),
            0xE8 => Some(Instruction::ADDSP()),
            0xEA => Some(Instruction::LD(LoadType::ByteAddressFromA(ByteAddressFromA::U16))),
            0xEE => Some(Instruction::XOR(ArithmeticTarget::PC)),
            0xF0 => Some(Instruction::LD(LoadType::AFromByteAddress(AFromByteAddress::FF00U8))),
            0xF1 => Some(Instruction::POP(StackTarget::AF)),
            0xF2 => Some(Instruction::LD(LoadType::AFromByteAddress(AFromByteAddress::FFOOC))),
            0xF5 => Some(Instruction::PUSH(StackTarget::AF)),
            0xF6 => Some(Instruction::OR(ArithmeticTarget::PC)),
            0xF8 => Some(Instruction::LDHL()),
            0xF9 => Some(Instruction::LDSP()),
            0xFA => Some(Instruction::LD(LoadType::AFromByteAddress(AFromByteAddress::U16))),
            0xFE => Some(Instruction::CP(ArithmeticTarget::PC)),
                _ => None,
            }
        }
    }

    pub fn from_byte_prefixed(byte: u8) -> (r: Option<Instruction>)
        ensures
            r == Some(decode_prefixed(byte)),
    {
        proof {
            lemma_code_bits(byte);
        }
        let t = Self::decode_prefix_target(byte & 0b111);
        let n = (byte >> 3) & 0b111;
        let i = if byte < 0x40 {
            if n == 0 {
                Instruction::RLC(t)
            } else if n == 1 {
                Instruction::RRC(t)
            } else if n == 2 {
                Instruction::RL(t)
            } else if n == 3 {
                Instruction::RR(t)
            } else if n == 4 {
                Instruction::SLA(t)
            } else if n == 5 {
                Instruction::SRA(t)
            } else if n == 6 {
                Instruction::SWAP(t)
            } else {
                Instruction::SRL(t)
            }
        } else if byte < 0x80 {
            Instruction::BIT(t, n)
        } else if byte < 0xC0 {
            Instruction::RESET(t, n)
        } else {
            Instruction::SET(t, n)
        };
        Some(i)
    }

    fn decode_prefix_target(code: u8) -> (r: PrefixTarget)
        requires
            code < 8,
        ensures
            r == prefix_target_of(code),
    {
        match code {
            0 => PrefixTarget::B,
            1 => PrefixTarget::C,
            2 => PrefixTarget::D,
            3 => PrefixTarget::E,
            4 => PrefixTarget::H,
            5 => PrefixTarget::L,
            6 => PrefixTarget::HL,
            _ => PrefixTarget::A,
        }
    }
}

} // verus!
