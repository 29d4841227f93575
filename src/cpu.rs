use vstd::prelude::*;

use crate::alu::{
    shift_flags,
    alu_add, alu_add_hl, alu_and, alu_bit, alu_dec, alu_inc, alu_or, alu_rl, alu_rlc, alu_rr, alu_rrc,
    alu_sla, alu_sp_offset, alu_sra, alu_srl, alu_sub, alu_swap, alu_xor, with_bit_reset, with_bit_set,
};
use crate::instruction::{
    decode,
    prefixed_decoding_is_total,
    ADDHLTarget,
    AFromByteAddress,
    AFromIndirect,
    ArithmeticTarget,
    ByteAddressFromA,
    IncTarget,
    IndirectFromA,
    Instruction,
    JumpTest,
    LoadByteSource,
    LoadByteTarget,
    LoadType,
    PrefixTarget,
    StackTarget,
    WordByteSource,
    WordByteTarget,
};
use crate::registers::{flags_from_byte, flags_to_byte, pair, FlagsRegister, Register};

verus! {

/// The escape byte that selects the prefixed opcode space.
pub const PREFIX_BYTE: u8 = 0xCB;

/// The processor's view of memory: 64 KiB, one byte per address.
pub struct Memory {
    pub memory: Vec<u8>,
}

impl Memory {
    pub open spec fn wf(&self) -> bool {
        self.memory@.len() == 0x10000
    }

    /// All 65536 bytes zero.
    pub fn new() -> (r: Memory)
        ensures
            r.wf(),
            forall|i: int| 0 <= i < 0x10000 ==> r.memory@[i] == 0,
    {
        Memory { memory: vec![0u8; 0x10000] }
    }

    pub fn read_byte(&self, address: u16) -> (r: u8)
        requires
            self.wf(),
        ensures
            r == self.memory@[address as int],
    {
        self.memory[address as usize]
    }

    pub fn write_byte(&mut self, address: u16, value: u8)
        requires
            old(self).wf(),
        ensures
            final(self).memory@ == old(self).memory@.update(address as int, value),
            final(self).wf(),
    {
        self.memory.set(address as usize, value);
    }
}

/// What the processor is, mathematically: its registers, program counter
/// and memory contents.
pub struct CpuState {
    pub register: Register,
    pub pc: u16,
    pub memory: Seq<u8>,
}

/// An address plus an offset, wrapped to 16 bits.
pub open spec fn wrap16(x: int) -> u16 {
    (x % 65536) as u16
}

impl CpuState {
    pub open spec fn at(self, address: int) -> u8 {
        self.memory[wrap16(address) as int]
    }

    pub open spec fn store(self, address: int, v: u8) -> CpuState {
        CpuState { memory: self.memory.update(wrap16(address) as int, v), ..self }
    }

    pub open spec fn with_register(self, r: Register) -> CpuState {
        CpuState { register: r, ..self }
    }

    pub open spec fn with_flags(self, f: FlagsRegister) -> CpuState {
        self.with_register(Register { f, ..self.register })
    }

    pub open spec fn with_a(self, v: u8) -> CpuState {
        self.with_register(Register { a: v, ..self.register })
    }

    pub open spec fn with_hl(self, v: u16) -> CpuState {
        self.with_register(Register { h: (v / 256) as u8, l: (v % 256) as u8, ..self.register })
    }

    pub open spec fn with_bc(self, v: u16) -> CpuState {
        self.with_register(Register { b: (v / 256) as u8, c: (v % 256) as u8, ..self.register })
    }

    pub open spec fn with_de(self, v: u16) -> CpuState {
        self.with_register(Register { d: (v / 256) as u8, e: (v % 256) as u8, ..self.register })
    }

    pub open spec fn with_sp(self, v: u16) -> CpuState {
        self.with_register(Register { sp: v, ..self.register })
    }

    /// The byte that follows the opcode.
    pub open spec fn d8(self) -> u8 {
        self.at(self.pc + 1)
    }

    /// The little-endian word that follows the opcode.
    pub open spec fn d16(self) -> u16 {
        pair(self.at(self.pc + 2), self.at(self.pc + 1))
    }

    pub open spec fn next(self, n: int) -> u16 {
        wrap16(self.pc + n)
    }

    pub open spec fn read_target(self, t: PrefixTarget) -> u8 {
        match t {
            PrefixTarget::A => self.register.a,
            PrefixTarget::B => self.register.b,
            PrefixTarget::C => self.register.c,
            PrefixTarget::D => self.register.d,
            PrefixTarget::E => self.register.e,
            PrefixTarget::H => self.register.h,
            PrefixTarget::L => self.register.l,
            PrefixTarget::HL => self.at(self.register.hl() as int),
        }
    }

    pub open spec fn write_target(self, t: PrefixTarget, v: u8) -> CpuState {
        let r = self.register;
        match t {
            PrefixTarget::A => self.with_register(Register { a: v, ..r }),
            PrefixTarget::B => self.with_register(Register { b: v, ..r }),
            PrefixTarget::C => self.with_register(Register { c: v, ..r }),
            PrefixTarget::D => self.with_register(Register { d: v, ..r }),
            PrefixTarget::E => self.with_register(Register { e: v, ..r }),
            PrefixTarget::H => self.with_register(Register { h: v, ..r }),
            PrefixTarget::L => self.with_register(Register { l: v, ..r }),
            PrefixTarget::HL => self.store(r.hl() as int, v),
        }
    }

    /// The second operand of an 8-bit arithmetic or logic instruction.
    pub open spec fn operand(self, t: ArithmeticTarget) -> u8 {
        match t {
            ArithmeticTarget::A => self.register.a,
            ArithmeticTarget::B => self.register.b,
            ArithmeticTarget::C => self.register.c,
            ArithmeticTarget::D => self.register.d,
            ArithmeticTarget::E => self.register.e,
            ArithmeticTarget::H => self.register.h,
            ArithmeticTarget::L => self.register.l,
            ArithmeticTarget::HL => self.at(self.register.hl() as int),
            ArithmeticTarget::PC => self.d8(),
        }
    }

    /// Length of an 8-bit arithmetic instruction: two with an immediate byte.
    pub open spec fn operand_len(t: ArithmeticTarget) -> int {
        if t == ArithmeticTarget::PC { 2 } else { 1 }
    }

    /// Apply an accumulator operation: A takes the result, F the flags.
    pub open spec fn accumulate(self, res: (u8, FlagsRegister), t: ArithmeticTarget) -> (CpuState, u16) {
        (self.with_register(Register { a: res.0, f: res.1, ..self.register }), self.next(Self::operand_len(t)))
    }

    /// Apply a prefixed read-modify-write operation to its operand.
    pub open spec fn modify(self, t: PrefixTarget, res: (u8, FlagsRegister)) -> (CpuState, u16) {
        (self.write_target(t, res.0).with_flags(res.1), self.next(2))
    }

    pub open spec fn inc_dec(self, t: IncTarget, inc: bool) -> CpuState {
        let r = self.register;
        let f = |v: u8| if inc { alu_inc(v, r.f) } else { alu_dec(v, r.f) };
        let w = |v: u16| if inc { wrap16(v + 1) } else { wrap16(v + 65535) };
        match t {
            IncTarget::A => self.with_register(Register { a: f(r.a).0, f: f(r.a).1, ..r }),
            IncTarget::B => self.with_register(Register { b: f(r.b).0, f: f(r.b).1, ..r }),
            IncTarget::C => self.with_register(Register { c: f(r.c).0, f: f(r.c).1, ..r }),
            IncTarget::D => self.with_register(Register { d: f(r.d).0, f: f(r.d).1, ..r }),
            IncTarget::E => self.with_register(Register { e: f(r.e).0, f: f(r.e).1, ..r }),
            IncTarget::H => self.with_register(Register { h: f(r.h).0, f: f(r.h).1, ..r }),
            IncTarget::L => self.with_register(Register { l: f(r.l).0, f: f(r.l).1, ..r }),
            IncTarget::HL => self.with_hl(w(r.hl())),
            IncTarget::BC => self.with_bc(w(r.bc())),
            IncTarget::DE => self.with_de(w(r.de())),
            IncTarget::SP => self.with_sp(w(r.sp)),
        }
    }

    pub open spec fn byte_source(self, s: LoadByteSource) -> u8 {
        match s {
            LoadByteSource::A => self.register.a,
            LoadByteSource::B => self.register.b,
            LoadByteSource::C => self.register.c,
            LoadByteSource::D => self.register.d,
            LoadByteSource::E => self.register.e,
            LoadByteSource::H => self.register.h,
            LoadByteSource::L => self.register.l,
            LoadByteSource::D8 => self.d8(),
            LoadByteSource::HLI => self.at(self.register.hl() as int),
        }
    }

    pub open spec fn byte_target(t: LoadByteTarget) -> PrefixTarget {
        match t {
            LoadByteTarget::A => PrefixTarget::A,
            LoadByteTarget::B => PrefixTarget::B,
            LoadByteTarget::C => PrefixTarget::C,
            LoadByteTarget::D => PrefixTarget::D,
            LoadByteTarget::E => PrefixTarget::E,
            LoadByteTarget::H => PrefixTarget::H,
            LoadByteTarget::L => PrefixTarget::L,
            LoadByteTarget::HLI => PrefixTarget::HL,
        }
    }

    /// The effect of a load, and its length in bytes.
    pub open spec fn load(self, lt: LoadType) -> (CpuState, int) {
        let r = self.register;
        match lt {
            LoadType::Byte(t, s) => (
                self.write_target(Self::byte_target(t), self.byte_source(s)),
                if s == LoadByteSource::D8 { 2 } else { 1 },
            ),
            LoadType::Word(t, s) => {
                let v = if s == WordByteSource::U16 { self.d16() } else { r.sp };
                let len = if t == WordByteTarget::U16 || s == WordByteSource::U16 { 3int } else { 1 };
                (match t {
                    WordByteTarget::BC => self.with_bc(v),
                    WordByteTarget::DE => self.with_de(v),
                    WordByteTarget::HL => self.with_hl(v),
                    WordByteTarget::SP => self.with_sp(v),
                    WordByteTarget::U16 => {
                        let addr = self.d16() as int;
                        self.store(addr, (v % 256) as u8).store(addr + 1, (v / 256) as u8)
                    },
                }, len)
            },
            LoadType::ByteAddressFromA(m) => match m {
                ByteAddressFromA::U16 => (self.store(self.d16() as int, r.a), 3),
                ByteAddressFromA::FF00U8 => (self.store(0xFF00 + self.d8(), r.a), 2),
                ByteAddressFromA::FFOOC => (self.store(0xFF00 + r.c, r.a), 1),
            },
            LoadType::AFromByteAddress(m) => match m {
                AFromByteAddress::U16 => (self.with_a(self.at(self.d16() as int)), 3),
                AFromByteAddress::FF00U8 => (self.with_a(self.at(0xFF00 + self.d8())), 2),
                AFromByteAddress::FFOOC => (self.with_a(self.at(0xFF00 + r.c)), 1),
            },
            LoadType::IndirectFromA(m) => (match m {
                IndirectFromA::BC => self.store(r.bc() as int, r.a),
                IndirectFromA::DE => self.store(r.de() as int, r.a),
                IndirectFromA::HLPlus => self.store(r.hl() as int, r.a).with_hl(wrap16(r.hl() + 1)),
                IndirectFromA::HLMinus => self.store(r.hl() as int, r.a).with_hl(wrap16(r.hl() + 65535)),
            }, 1),
            LoadType::AFromIndirect(m) => (match m {
                AFromIndirect::BC => self.with_a(self.at(r.bc() as int)),
                AFromIndirect::DE => self.with_a(self.at(r.de() as int)),
                AFromIndirect::HLPlus => self.with_a(self.at(r.hl() as int)).with_hl(wrap16(r.hl() + 1)),
                AFromIndirect::HLMinus => self.with_a(self.at(r.hl() as int)).with_hl(wrap16(r.hl() + 65535)),
            }, 1),
        }
    }

    /// The 16-bit value that PUSH saves; AF pairs A with the packed flags.
    pub open spec fn stack_value(self, t: StackTarget) -> u16 {
        match t {
            StackTarget::AF => pair(self.register.a, flags_to_byte(self.register.f)),
            StackTarget::BC => self.register.bc(),
            StackTarget::DE => self.register.de(),
            StackTarget::Hl => self.register.hl(),
        }
    }

    pub open spec fn push(self, t: StackTarget) -> CpuState {
        let v = self.stack_value(t);
        let sp = self.register.sp;
        self.store(sp + 65535, (v / 256) as u8).store(sp + 65534, (v % 256) as u8).with_sp(wrap16(sp + 65534))
    }

    pub open spec fn pop(self, t: StackTarget) -> CpuState {
        let sp = self.register.sp;
        let lo = self.at(sp as int);
        let hi = self.at(sp + 1);
        let s = self.with_sp(wrap16(sp + 2));
        match t {
            StackTarget::AF => s.with_register(Register { a: hi, f: flags_from_byte(lo), ..s.register }),
            StackTarget::BC => s.with_bc(pair(hi, lo)),
            StackTarget::DE => s.with_de(pair(hi, lo)),
            StackTarget::Hl => s.with_hl(pair(hi, lo)),
        }
    }

    pub open spec fn jump_taken(self, test: JumpTest) -> bool {
        match test {
            JumpTest::NotZero => !self.register.f.zero,
            JumpTest::Zero => self.register.f.zero,
            JumpTest::NotCarry => !self.register.f.carry,
            JumpTest::Carry => self.register.f.carry,
            JumpTest::Always => true,
        }
    }
}

/// Bit indices of BIT, RES and SET are below 8.
pub open spec fn instruction_wf(i: Instruction) -> bool {
    match i {
        Instruction::BIT(_, n) | Instruction::RESET(_, n) | Instruction::SET(_, n) => n < 8,
        _ => true,
    }
}

/// The state after one instruction (the program counter not yet moved)
/// and the address of the next instruction.
#[verifier::opaque]
pub open spec fn execute_spec(s: CpuState, i: Instruction) -> (CpuState, u16) {
    let r = s.register;
    match i {
        Instruction::ADD(t) => s.accumulate(alu_add(r.a, s.operand(t), false), t),
        Instruction::ADC(t) => s.accumulate(alu_add(r.a, s.operand(t), r.f.carry), t),
        Instruction::SUB(t) => s.accumulate(alu_sub(r.a, s.operand(t), false), t),
        Instruction::SBC(t) => s.accumulate(alu_sub(r.a, s.operand(t), r.f.carry), t),
        Instruction::AND(t) => s.accumulate(alu_and(r.a, s.operand(t)), t),
        Instruction::OR(t) => s.accumulate(alu_or(r.a, s.operand(t)), t),
        Instruction::XOR(t) => s.accumulate(alu_xor(r.a, s.operand(t)), t),
        Instruction::CP(t) => (
            s.with_flags(alu_sub(r.a, s.operand(t), false).1),
            s.next(CpuState::operand_len(t)),
        ),
        Instruction::INC(t) => (s.inc_dec(t, true), s.next(1)),
        Instruction::DEC(t) => (s.inc_dec(t, false), s.next(1)),
        Instruction::AddHL(t) => {
            let v = match t {
                ADDHLTarget::HL => r.hl(),
                ADDHLTarget::BC => r.bc(),
                ADDHLTarget::DE => r.de(),
                ADDHLTarget::SP => r.sp,
            };
            let res = alu_add_hl(r.hl(), v, r.f);
            (s.with_hl(res.0).with_flags(res.1), s.next(1))
        },
        Instruction::CCF() => (s.with_flags(FlagsRegister { carry: !r.f.carry, ..r.f }), s.next(1)),
        Instruction::SCF() => (s.with_flags(FlagsRegister { carry: true, ..r.f }), s.next(1)),
        Instruction::CPL() => (
            s.with_a((255 - r.a) as u8).with_flags(FlagsRegister { subtract: true, half_carry: true, ..r.f }),
            s.next(1),
        ),
        Instruction::RRA() => s.accumulate(alu_rr(r.a, r.f.carry), ArithmeticTarget::A),
        Instruction::RLA() => s.accumulate(alu_rl(r.a, r.f.carry), ArithmeticTarget::A),
        Instruction::RRCA() => s.accumulate(alu_rrc(r.a), ArithmeticTarget::A),
        Instruction::RRLA() => s.accumulate(alu_rlc(r.a), ArithmeticTarget::A),
        Instruction::ADDSP() => {
            let res = alu_sp_offset(r.sp, s.d8());
            (s.with_sp(res.0).with_flags(res.1), s.next(2))
        },
        Instruction::LDHL() => {
            let res = alu_sp_offset(r.sp, s.d8());
            (s.with_hl(res.0).with_flags(res.1), s.next(2))
        },
        Instruction::LDSP() => (s.with_sp(r.hl()), s.next(1)),
        Instruction::BIT(t, n) => (s.with_flags(alu_bit(s.read_target(t), n, r.f)), s.next(2)),
        Instruction::RESET(t, n) => (s.write_target(t, with_bit_reset(s.read_target(t), n)), s.next(2)),
        Instruction::SET(t, n) => (s.write_target(t, with_bit_set(s.read_target(t), n)), s.next(2)),
        Instruction::SRL(t) => s.modify(t, alu_srl(s.read_target(t))),
        Instruction::RR(t) => s.modify(t, alu_rr(s.read_target(t), r.f.carry)),
        Instruction::RL(t) => s.modify(t, alu_rl(s.read_target(t), r.f.carry)),
        Instruction::RRC(t) => s.modify(t, alu_rrc(s.read_target(t))),
        Instruction::RLC(t) => s.modify(t, alu_rlc(s.read_target(t))),
        Instruction::SRA(t) => s.modify(t, alu_sra(s.read_target(t))),
        Instruction::SLA(t) => s.modify(t, alu_sla(s.read_target(t))),
        Instruction::SWAP(t) => s.modify(t, alu_swap(s.read_target(t))),
        Instruction::JP(test) => (s, if s.jump_taken(test) { s.d16() } else { s.next(3) }),
        Instruction::LD(lt) => (s.load(lt).0, s.next(s.load(lt).1)),
        Instruction::POP(t) => (s.pop(t), s.next(1)),
        Instruction::PUSH(t) => (s.push(t), s.next(1)),
        Instruction::NOP() => (s, s.next(1)),
        Instruction::HALT() => (s, s.next(1)),
    }
}

/// The diagnostic for a byte that does not decode: where it stood, the
/// byte, and whether it followed the prefix.
#[derive(Clone, Copy, Debug, PartialEq, Eq, Structural)]
pub struct InvalidOpcode {
    pub pc: u16,
    pub opcode: u8,
    pub prefixed: bool,
}

pub struct CPU {
    pub register: Register,
    pub pc: u16,
    pub bus: Memory,
}

impl View for CPU {
    type V = CpuState;

    open spec fn view(&self) -> CpuState {
        CpuState { register: self.register, pc: self.pc, memory: self.bus.memory@ }
    }
}

/// Every decoded instruction has its bit index in range.
pub proof fn decoded_instructions_are_wf(byte: u8, prefixed: bool)
    ensures
        decode(byte, prefixed) matches Some(i) ==> instruction_wf(i),
{
    if prefixed {
        prefixed_decoding_is_total(byte);
    }
}

/// The state after a whole step: the instruction's effect with the program
/// counter moved to the next instruction.
pub open spec fn after(r: (CpuState, u16)) -> CpuState {
    CpuState { pc: r.1, ..r.0 }
}

/// The opcode byte that a step decodes and whether it follows the prefix.
pub open spec fn fetched(s: CpuState) -> (u8, bool) {
    let first = s.at(s.pc as int);
    if first == PREFIX_BYTE {
        (s.at(s.pc + 1), true)
    } else {
        (first, false)
    }
}

fn wrap_add(a: u16, n: u16) -> (r: u16)
    ensures
        r == wrap16(a + n),
{
    ((a as u32 + n as u32) % 65536) as u16
}

impl CPU {
    pub open spec fn wf(&self) -> bool {
        self.bus.wf()
    }

    /// Registers and memory zero, execution at address 0.
    pub fn new() -> (r: CPU)
        ensures
            r.wf(),
            r.pc == 0,
            r.register == Register::new_spec(),
            forall|i: int| 0 <= i < 0x10000 ==> r.bus.memory@[i] == 0,
    {
        CPU { register: Register::new(), pc: 0, bus: Memory::new() }
    }

    fn at(&self, address: u16) -> (r: u8)
        requires
            self.wf(),
        ensures
            r == self@.at(address as int),
    {
        self.bus.read_byte(address)
    }

    fn store(&mut self, address: u16, value: u8)
        requires
            old(self).wf(),
        ensures
            final(self).wf(),
            final(self)@ == old(self)@.store(address as int, value),
    {
        self.bus.write_byte(address, value);
    }

    fn next_pc(&self, n: u16) -> (r: u16)
        ensures
            r == self@.next(n as int),
    {
        wrap_add(self.pc, n)
    }

    fn d8(&self) -> (r: u8)
        requires
            self.wf(),
        ensures
            r == self@.d8(),
    {
        self.at(wrap_add(self.pc, 1))
    }

    fn d16(&self) -> (r: u16)
        requires
            self.wf(),
        ensures
            r == self@.d16(),
    {
        let lo = self.at(wrap_add(self.pc, 1));
        let hi = self.at(wrap_add(self.pc, 2));
        hi as u16 * 256 + lo as u16
    }

    fn read_prefix_target(&self, t: PrefixTarget) -> (r: u8)
        requires
            self.wf(),
        ensures
            r == self@.read_target(t),
    {
        match t {
            PrefixTarget::A => self.register.a,
            PrefixTarget::B => self.register.b,
            PrefixTarget::C => self.register.c,
            PrefixTarget::D => self.register.d,
            PrefixTarget::E => self.register.e,
            PrefixTarget::H => self.register.h,
            PrefixTarget::L => self.register.l,
            PrefixTarget::HL => self.at(self.register.get_hl()),
        }
    }

    fn write_prefix_target(&mut self, t: PrefixTarget, v: u8)
        requires
            old(self).wf(),
        ensures
            final(self).wf(),
            final(self)@ == old(self)@.write_target(t, v),
    {
        match t {
            PrefixTarget::A => self.register.a = v,
            PrefixTarget::B => self.register.b = v,
            PrefixTarget::C => self.register.c = v,
            PrefixTarget::D => self.register.d = v,
            PrefixTarget::E => self.register.e = v,
            PrefixTarget::H => self.register.h = v,
            PrefixTarget::L => self.register.l = v,
            PrefixTarget::HL => {
                let addr = self.register.get_hl();
                self.store(addr, v);
            },
        }
    }

    fn operand(&self, t: ArithmeticTarget) -> (r: u8)
        requires
            self.wf(),
        ensures
            r == self@.operand(t),
    {
        match t {
            ArithmeticTarget::A => self.register.a,
            ArithmeticTarget::B => self.register.b,
            ArithmeticTarget::C => self.register.c,
            ArithmeticTarget::D => self.register.d,
            ArithmeticTarget::E => self.register.e,
            ArithmeticTarget::H => self.register.h,
            ArithmeticTarget::L => self.register.l,
            ArithmeticTarget::HL => self.at(self.register.get_hl()),
            ArithmeticTarget::PC => self.d8(),
        }
    }

    fn operand_len(t: ArithmeticTarget) -> (r: u16)
        ensures
            r == CpuState::operand_len(t),
    {
        match t {
            ArithmeticTarget::PC => 2,
            _ => 1,
        }
    }

    /// A + value; sets all four flags.
    pub fn add(&mut self, value: u8) -> (r: u8)
        ensures
            r == alu_add(old(self).register.a, value, false).0,
            final(self)@ == old(self)@.with_flags(alu_add(old(self).register.a, value, false).1),
    {
        let a = self.register.a;
        let sum = a as u16 + value as u16;
        let r = (sum % 256) as u8;
        self.register.f = FlagsRegister {
            zero: r == 0,
            subtract: false,
            half_carry: a % 16 + value % 16 > 15,
            carry: sum > 255,
        };
        r
    }

    /// A + value + carry; sets all four flags.
    pub fn adc(&mut self, value: u8) -> (r: u8)
        ensures
            r == alu_add(old(self).register.a, value, old(self).register.f.carry).0,
            final(self)@ == old(self)@.with_flags(
                alu_add(old(self).register.a, value, old(self).register.f.carry).1,
            ),
    {
        let a = self.register.a;
        let carry: u16 = if self.register.f.carry { 1 } else { 0 };
        let sum = a as u16 + value as u16 + carry;
        let r = (sum % 256) as u8;
        self.register.f = FlagsRegister {
            zero: r == 0,
            subtract: false,
            half_carry: (a % 16) as u16 + (value % 16) as u16 + carry > 15,
            carry: sum > 255,
        };
        r
    }

    /// A - value; sets all four flags.
    pub fn sub(&mut self, value: u8) -> (r: u8)
        ensures
            r == alu_sub(old(self).register.a, value, false).0,
            final(self)@ == old(self)@.with_flags(alu_sub(old(self).register.a, value, false).1),
    {
        let a = self.register.a;
        let r = ((a as u16 + 256 - value as u16) % 256) as u8;
        self.register.f = FlagsRegister {
            zero: r == 0,
            subtract: true,
            half_carry: a % 16 < value % 16,
            carry: a < value,
        };
        r
    }

    /// A - value - carry; sets all four flags.
    pub fn sbc(&mut self, value: u8) -> (r: u8)
        ensures
            r == alu_sub(old(self).register.a, value, old(self).register.f.carry).0,
            final(self)@ == old(self)@.with_flags(
                alu_sub(old(self).register.a, value, old(self).register.f.carry).1,
            ),
    {
        let a = self.register.a;
        let carry: u16 = if self.register.f.carry { 1 } else { 0 };
        let taken = value as u16 + carry;
        let r = ((a as u16 + 256 - taken) % 256) as u8;
        self.register.f = FlagsRegister {
            zero: r == 0,
            subtract: true,
            half_carry: ((a % 16) as u16) < (value % 16) as u16 + carry,
            carry: (a as u16) < taken,
        };
        r
    }

    pub fn and(&mut self, value: u8) -> (r: u8)
        ensures
            r == alu_and(old(self).register.a, value).0,
            final(self)@ == old(self)@.with_flags(alu_and(old(self).register.a, value).1),
    {
        let r = self.register.a & value;
        self.register.f = FlagsRegister { zero: r == 0, subtract: false, half_carry: true, carry: false };
        r
    }

    pub fn or(&mut self, value: u8) -> (r: u8)
        ensures
            r == alu_or(old(self).register.a, value).0,
            final(self)@ == old(self)@.with_flags(alu_or(old(self).register.a, value).1),
    {
        let r = self.register.a | value;
        self.register.f = FlagsRegister { zero: r == 0, subtract: false, half_carry: false, carry: false };
        r
    }

    pub fn xor(&mut self, value: u8) -> (r: u8)
        ensures
            r == alu_xor(old(self).register.a, value).0,
            final(self)@ == old(self)@.with_flags(alu_xor(old(self).register.a, value).1),
    {
        let r = self.register.a ^ value;
        self.register.f = FlagsRegister { zero: r == 0, subtract: false, half_carry: false, carry: false };
        r
    }

    /// value + 1; carry is not touched.
    pub fn inc8(&mut self, value: u8) -> (r: u8)
        ensures
            r == alu_inc(value, old(self).register.f).0,
            final(self)@ == old(self)@.with_flags(alu_inc(value, old(self).register.f).1),
    {
        let r = ((value as u16 + 1) % 256) as u8;
        self.register.f.zero = r == 0;
        self.register.f.subtract = false;
        self.register.f.half_carry = value % 16 == 15;
        r
    }

    /// value - 1; carry is not touched.
    pub fn dec8(&mut self, value: u8) -> (r: u8)
        ensures
            r == alu_dec(value, old(self).register.f).0,
            final(self)@ == old(self)@.with_flags(alu_dec(value, old(self).register.f).1),
    {
        let r = ((value as u16 + 255) % 256) as u8;
        self.register.f.zero = r == 0;
        self.register.f.subtract = true;
        self.register.f.half_carry = value % 16 == 0;
        r
    }

    pub fn inc16(&self, value: u16) -> (r: u16)
        ensures
            r == wrap16(value + 1),
    {
        value.wrapping_add(1)
    }

    pub fn dec16(&self, value: u16) -> (r: u16)
        ensures
            r == wrap16(value + 65535),
    {
        value.wrapping_sub(1)
    }

    fn set_shift_flags(&mut self, r: u8, out: bool)
        ensures
            final(self)@ == old(self)@.with_flags(shift_flags(r, out)),
    {
        self.register.f = FlagsRegister { zero: r == 0, subtract: false, half_carry: false, carry: out };
    }

    pub fn rlc(&mut self, value: u8) -> (r: u8)
        ensures
            r == alu_rlc(value).0,
            final(self)@ == old(self)@.with_flags(alu_rlc(value).1),
    {
        let r = (value % 128) * 2 + value / 128;
        self.set_shift_flags(r, value >= 128);
        r
    }

    pub fn rrc(&mut self, value: u8) -> (r: u8)
        ensures
            r == alu_rrc(value).0,
            final(self)@ == old(self)@.with_flags(alu_rrc(value).1),
    {
        let r = value / 2 + (value % 2) * 128;
        self.set_shift_flags(r, value % 2 == 1);
        r
    }

    pub fn rl(&mut self, value: u8) -> (r: u8)
        ensures
            r == alu_rl(value, old(self).register.f.carry).0,
            final(self)@ == old(self)@.with_flags(alu_rl(value, old(self).register.f.carry).1),
    {
        let carry_in: u8 = if self.register.f.carry { 1 } else { 0 };
        let r = (value % 128) * 2 + carry_in;
        self.set_shift_flags(r, value >= 128);
        r
    }

    pub fn rr(&mut self, value: u8) -> (r: u8)
        ensures
            r == alu_rr(value, old(self).register.f.carry).0,
            final(self)@ == old(self)@.with_flags(alu_rr(value, old(self).register.f.carry).1),
    {
        let carry_in: u8 = if self.register.f.carry { 128 } else { 0 };
        let r = value / 2 + carry_in;
        self.set_shift_flags(r, value % 2 == 1);
        r
    }

    pub fn sla(&mut self, value: u8) -> (r: u8)
        ensures
            r == alu_sla(value).0,
            final(self)@ == old(self)@.with_flags(alu_sla(value).1),
    {
        let r = (value % 128) * 2;
        self.set_shift_flags(r, value >= 128);
        r
    }

    pub fn sra(&mut self, value: u8) -> (r: u8)
        ensures
            r == alu_sra(value).0,
            final(self)@ == old(self)@.with_flags(alu_sra(value).1),
    {
        let r = value / 2 + (value / 128) * 128;
        self.set_shift_flags(r, value % 2 == 1);
        r
    }

    pub fn srl(&mut self, value: u8) -> (r: u8)
        ensures
            r == alu_srl(value).0,
            final(self)@ == old(self)@.with_flags(alu_srl(value).1),
    {
        let r = value / 2;
        self.set_shift_flags(r, value % 2 == 1);
        r
    }

    pub fn swap(&mut self, value: u8) -> (r: u8)
        ensures
            r == alu_swap(value).0,
            final(self)@ == old(self)@.with_flags(alu_swap(value).1),
    {
        let r = (value % 16) * 16 + value / 16;
        self.set_shift_flags(r, false);
        r
    }

    /// Test bit `bit` of `value`: only the flags change.
    pub fn bit(&mut self, bit: u8, value: u8)
        requires
            bit < 8,
        ensures
            final(self)@ == old(self)@.with_flags(alu_bit(value, bit, old(self).register.f)),
    {
        self.register.f.zero = value & (1u8 << bit) == 0;
        self.register.f.subtract = false;
        self.register.f.half_carry = true;
    }

    pub fn reset(&self, bit: u8, value: u8) -> (r: u8)
        requires
            bit < 8,
        ensures
            r == with_bit_reset(value, bit),
    {
        value & !(1u8 << bit)
    }

    pub fn set(&self, bit: u8, value: u8) -> (r: u8)
        requires
            bit < 8,
        ensures
            r == with_bit_set(value, bit),
    {
        value | (1u8 << bit)
    }

    /// HL + value into HL; zero is not touched.
    pub fn add_hl(&mut self, value: u16)
        ensures
            ({
                let res = alu_add_hl(old(self).register.hl(), value, old(self).register.f);
                final(self)@ == old(self)@.with_hl(res.0).with_flags(res.1)
            }),
    {
        let hl = self.register.get_hl();
        let sum = hl as u32 + value as u32;
        self.register.f.subtract = false;
        self.register.f.half_carry = hl % 4096 + value % 4096 > 4095;
        self.register.f.carry = sum > 65535;
        self.register.set_hl((sum % 65536) as u16);
    }

    pub fn ccf(&mut self)
        ensures
            final(self)@ == old(self)@.with_flags(
                FlagsRegister { carry: !old(self).register.f.carry, ..old(self).register.f },
            ),
    {
        self.register.f.carry = !self.register.f.carry;
    }

    pub fn scf(&mut self)
        ensures
            final(self)@ == old(self)@.with_flags(FlagsRegister { carry: true, ..old(self).register.f }),
    {
        self.register.f.carry = true;
    }

    /// A becomes its complement; subtract and half-carry are set.
    pub fn cpl(&mut self)
        ensures
            final(self)@ == old(self)@.with_a((255 - old(self).register.a) as u8).with_flags(
                FlagsRegister { subtract: true, half_carry: true, ..old(self).register.f },
            ),
    {
        self.register.a = 255 - self.register.a;
        self.register.f.subtract = true;
        self.register.f.half_carry = true;
    }

    /// RR applied to A.
    pub fn rra(&mut self)
        ensures
            final(self)@ == old(self)@.accumulate(
                alu_rr(old(self).register.a, old(self).register.f.carry),
                ArithmeticTarget::A,
            ).0,
    {
        let r = self.rr(self.register.a);
        self.register.a = r;
    }

    /// RL applied to A.
    pub fn rla(&mut self)
        ensures
            final(self)@ == old(self)@.accumulate(
                alu_rl(old(self).register.a, old(self).register.f.carry),
                ArithmeticTarget::A,
            ).0,
    {
        let r = self.rl(self.register.a);
        self.register.a = r;
    }

    /// RRC applied to A.
    pub fn rrca(&mut self)
        ensures
            final(self)@ == old(self)@.accumulate(alu_rrc(old(self).register.a), ArithmeticTarget::A).0,
    {
        let r = self.rrc(self.register.a);
        self.register.a = r;
    }

    /// RLC applied to A.
    pub fn rrla(&mut self)
        ensures
            final(self)@ == old(self)@.accumulate(alu_rlc(old(self).register.a), ArithmeticTarget::A).0,
    {
        let r = self.rlc(self.register.a);
        self.register.a = r;
    }

    /// The next program counter of a jump: the address after the opcode
    /// when taken, else past the two address bytes.
    pub fn jump(&self, jump: bool) -> (r: u16)
        requires
            self.wf(),
        ensures
            r == (if jump { self@.d16() } else { self@.next(3) }),
    {
        if jump {
            self.d16()
        } else {
            self.next_pc(3)
        }
    }

    fn byte_source(&self, s: LoadByteSource) -> (r: u8)
        requires
            self.wf(),
        ensures
            r == self@.byte_source(s),
    {
        match s {
            LoadByteSource::A => self.register.a,
            LoadByteSource::B => self.register.b,
            LoadByteSource::C => self.register.c,
            LoadByteSource::D => self.register.d,
            LoadByteSource::E => self.register.e,
            LoadByteSource::H => self.register.h,
            LoadByteSource::L => self.register.l,
            LoadByteSource::D8 => self.d8(),
            LoadByteSource::HLI => self.at(self.register.get_hl()),
        }
    }

    fn byte_target(t: LoadByteTarget) -> (r: PrefixTarget)
        ensures
            r == CpuState::byte_target(t),
    {
        match t {
            LoadByteTarget::A => PrefixTarget::A,
            LoadByteTarget::B => PrefixTarget::B,
            LoadByteTarget::C => PrefixTarget::C,
            LoadByteTarget::D => PrefixTarget::D,
            LoadByteTarget::E => PrefixTarget::E,
            LoadByteTarget::H => PrefixTarget::H,
            LoadByteTarget::L => PrefixTarget::L,
            LoadByteTarget::HLI => PrefixTarget::HL,
        }
    }

    /// Perform a load; returns its length in bytes.
    fn load(&mut self, lt: LoadType) -> (r: u16)
        requires
            old(self).wf(),
        ensures
            final(self).wf(),
            final(self)@ == old(self)@.load(lt).0,
            r == old(self)@.load(lt).1,
    {
        match lt {
            LoadType::Byte(t, s) => {
                let v = self.byte_source(s);
                self.write_prefix_target(Self::byte_target(t), v);
                if s == LoadByteSource::D8 {
                    2
                } else {
                    1
                }
            },
            LoadType::Word(t, s) => {
                let v = if s == WordByteSource::U16 {
                    self.d16()
                } else {
                    self.register.sp
                };
                let len: u16 = if t == WordByteTarget::U16 || s == WordByteSource::U16 {
                    3
                } else {
                    1
                };
                match t {
                    WordByteTarget::BC => self.register.set_bc(v),
                    WordByteTarget::DE => self.register.set_de(v),
                    WordByteTarget::HL => self.register.set_hl(v),
                    WordByteTarget::SP => self.register.set_sp(v),
                    WordByteTarget::U16 => {
                        let addr = self.d16();
                        self.store(addr, (v % 256) as u8);
                        self.store(wrap_add(addr, 1), (v / 256) as u8);
                    },
                }
                len
            },
            LoadType::ByteAddressFromA(m) => {
                let a = self.register.a;
                match m {
                    ByteAddressFromA::U16 => {
                        let addr = self.d16();
                        self.store(addr, a);
                        3
                    },
                    ByteAddressFromA::FF00U8 => {
                        let offset = self.d8();
                        self.store(0xFF00 + offset as u16, a);
                        2
                    },
                    ByteAddressFromA::FFOOC => {
                        let c = self.register.c;
                        self.store(0xFF00 + c as u16, a);
                        1
                    },
                }
            },
            LoadType::AFromByteAddress(m) => match m {
                AFromByteAddress::U16 => {
                    let addr = self.d16();
                    self.register.a = self.at(addr);
                    3
                },
                AFromByteAddress::FF00U8 => {
                    let offset = self.d8();
                    self.register.a = self.at(0xFF00 + offset as u16);
                    2
                },
                AFromByteAddress::FFOOC => {
                    self.register.a = self.at(0xFF00 + self.register.c as u16);
                    1
                },
            },
            LoadType::IndirectFromA(m) => {
                let a = self.register.a;
                match m {
                    IndirectFromA::BC => {
                        let addr = self.register.get_bc();
                        self.store(addr, a);
                    },
                    IndirectFromA::DE => {
                        let addr = self.register.get_de();
                        self.store(addr, a);
                    },
                    IndirectFromA::HLPlus => {
                        let addr = self.register.get_hl();
                        self.store(addr, a);
                        self.register.set_hl(self.inc16(addr));
                    },
                    IndirectFromA::HLMinus => {
                        let addr = self.register.get_hl();
                        self.store(addr, a);
                        self.register.set_hl(self.dec16(addr));
                    },
                }
                1
            },
            LoadType::AFromIndirect(m) => {
                match m {
                    AFromIndirect::BC => {
                        self.register.a = self.at(self.register.get_bc());
                    },
                    AFromIndirect::DE => {
                        self.register.a = self.at(self.register.get_de());
                    },
                    AFromIndirect::HLPlus => {
                        let addr = self.register.get_hl();
                        self.register.a = self.at(addr);
                        self.register.set_hl(self.inc16(addr));
                    },
                    AFromIndirect::HLMinus => {
                        let addr = self.register.get_hl();
                        self.register.a = self.at(addr);
                        self.register.set_hl(self.dec16(addr));
                    },
                }
                1
            },
        }
    }

    fn stack_value(&self, t: StackTarget) -> (r: u16)
        ensures
            r == self@.stack_value(t),
    {
        match t {
            StackTarget::AF => {
                let f = u8::from(self.register.f);
                self.register.a as u16 * 256 + f as u16
            },
            StackTarget::BC => self.register.get_bc(),
            StackTarget::DE => self.register.get_de(),
            StackTarget::Hl => self.register.get_hl(),
        }
    }

    fn push(&mut self, t: StackTarget)
        requires
            old(self).wf(),
        ensures
            final(self).wf(),
            final(self)@ == old(self)@.push(t),
    {
        let v = self.stack_value(t);
        let sp = self.register.sp;
        self.store(wrap_add(sp, 65535), (v / 256) as u8);
        self.store(wrap_add(sp, 65534), (v % 256) as u8);
        self.register.sp = wrap_add(sp, 65534);
    }

    fn pop(&mut self, t: StackTarget)
        requires
            old(self).wf(),
        ensures
            final(self).wf(),
            final(self)@ == old(self)@.pop(t),
    {
        let sp = self.register.sp;
        let lo = self.at(sp);
        let hi = self.at(wrap_add(sp, 1));
        self.register.sp = wrap_add(sp, 2);
        let v = hi as u16 * 256 + lo as u16;
        match t {
            StackTarget::AF => {
                self.register.a = hi;
                self.register.f = FlagsRegister::from(lo);
            },
            StackTarget::BC => self.register.set_bc(v),
            StackTarget::DE => self.register.set_de(v),
            StackTarget::Hl => self.register.set_hl(v),
        }
    }

    /// The stack pointer plus the signed byte after the opcode, with flags.
    fn sp_offset(&mut self) -> (r: u16)
        requires
            old(self).wf(),
        ensures
            ({
                let res = alu_sp_offset(old(self).register.sp, old(self)@.d8());
                r == res.0 && final(self)@ == old(self)@.with_flags(res.1)
            }),
    {
        let e = self.d8();
        let sp = self.register.sp;
        let r = if e < 128 {
            wrap_add(sp, e as u16)
        } else {
            wrap_add(sp, 65280 + e as u16)
        };
        self.register.f = FlagsRegister {
            zero: false,
            subtract: false,
            half_carry: sp % 16 + e as u16 % 16 > 15,
            carry: sp % 256 + e as u16 > 255,
        };
        r
    }

    fn inc_dec(&mut self, t: IncTarget, inc: bool)
        requires
            old(self).wf(),
        ensures
            final(self)@ == old(self)@.inc_dec(t, inc),
    {
        match t {
            IncTarget::A => {
                let v = self.register.a;
                self.register.a = if inc { self.inc8(v) } else { self.dec8(v) };
            },
            IncTarget::B => {
                let v = self.register.b;
                self.register.b = if inc { self.inc8(v) } else { self.dec8(v) };
            },
            IncTarget::C => {
                let v = self.register.c;
                self.register.c = if inc { self.inc8(v) } else { self.dec8(v) };
            },
            IncTarget::D => {
                let v = self.register.d;
                self.register.d = if inc { self.inc8(v) } else { self.dec8(v) };
            },
            IncTarget::E => {
                let v = self.register.e;
                self.register.e = if inc { self.inc8(v) } else { self.dec8(v) };
            },
            IncTarget::H => {
                let v = self.register.h;
                self.register.h = if inc { self.inc8(v) } else { self.dec8(v) };
            },
            IncTarget::L => {
                let v = self.register.l;
                self.register.l = if inc { self.inc8(v) } else { self.dec8(v) };
            },
            IncTarget::HL => {
                let v = self.register.get_hl();
                let n = if inc { self.inc16(v) } else { self.dec16(v) };
                self.register.set_hl(n);
            },
            IncTarget::BC => {
                let v = self.register.get_bc();
                let n = if inc { self.inc16(v) } else { self.dec16(v) };
                self.register.set_bc(n);
            },
            IncTarget::DE => {
                let v = self.register.get_de();
                let n = if inc { self.inc16(v) } else { self.dec16(v) };
                self.register.set_de(n);
            },
            IncTarget::SP => {
                let v = self.register.get_sp();
                let n = if inc { self.inc16(v) } else { self.dec16(v) };
                self.register.set_sp(n);
            },
        }
    }

    /// The 8-bit accumulator operations.
    #[verifier::rlimit(100)]
    fn execute_arithmetic(&mut self, instruction: Instruction) -> (r: u16)
        requires
            old(self).wf(),
            instruction_wf(instruction),
            instruction is ADD || instruction is ADC || instruction is SUB || instruction is SBC || instruction is AND || instruction is OR || instruction is XOR || instruction is CP,
        ensures
            final(self).wf(),
            (final(self)@, r) == execute_spec(old(self)@, instruction),
    {
        reveal(execute_spec);
        match instruction {
            Instruction::ADD(t) => {
                let v = self.operand(t);
                self.register.a = self.add(v);
                self.next_pc(Self::operand_len(t))
            },
            Instruction::ADC(t) => {
                let v = self.operand(t);
                self.register.a = self.adc(v);
                self.next_pc(Self::operand_len(t))
            },
            Instruction::SUB(t) => {
                let v = self.operand(t);
                self.register.a = self.sub(v);
                self.next_pc(Self::operand_len(t))
            },
            Instruction::SBC(t) => {
                let v = self.operand(t);
                self.register.a = self.sbc(v);
                self.next_pc(Self::operand_len(t))
            },
            Instruction::AND(t) => {
                let v = self.operand(t);
                self.register.a = self.and(v);
                self.next_pc(Self::operand_len(t))
            },
            Instruction::OR(t) => {
                let v = self.operand(t);
                self.register.a = self.or(v);
                self.next_pc(Self::operand_len(t))
            },
            Instruction::XOR(t) => {
                let v = self.operand(t);
                self.register.a = self.xor(v);
                self.next_pc(Self::operand_len(t))
            },
            Instruction::CP(t) => {
                let v = self.operand(t);
                let _ = self.sub(v);
                self.next_pc(Self::operand_len(t))
            },
            _ => self.next_pc(1),
        }
    }

    /// The operations of the prefixed opcode space.
    #[verifier::rlimit(100)]
    fn execute_prefixed(&mut self, instruction: Instruction) -> (r: u16)
        requires
            old(self).wf(),
            instruction_wf(instruction),
            instruction is BIT || instruction is RESET || instruction is SET || instruction is SRL || instruction is RR || instruction is RL || instruction is RRC || instruction is RLC || instruction is SRA || instruction is SLA || instruction is SWAP,
        ensures
            final(self).wf(),
            (final(self)@, r) == execute_spec(old(self)@, instruction),
    {
        reveal(execute_spec);
        match instruction {
            Instruction::BIT(t, n) => {
                let v = self.read_prefix_target(t);
                self.bit(n, v);
                self.next_pc(2)
            },
            Instruction::RESET(t, n) => {
                let v = self.read_prefix_target(t);
                let r = self.reset(n, v);
                self.write_prefix_target(t, r);
                self.next_pc(2)
            },
            Instruction::SET(t, n) => {
                let v = self.read_prefix_target(t);
                let r = self.set(n, v);
                self.write_prefix_target(t, r);
                self.next_pc(2)
            },
            Instruction::SRL(t) => {
                let v = self.read_prefix_target(t);
                let r = self.srl(v);
                self.write_prefix_target(t, r);
                self.next_pc(2)
            },
            Instruction::RR(t) => {
                let v = self.read_prefix_target(t);
                let r = self.rr(v);
                self.write_prefix_target(t, r);
                self.next_pc(2)
            },
            Instruction::RL(t) => {
                let v = self.read_prefix_target(t);
                let r = self.rl(v);
                self.write_prefix_target(t, r);
                self.next_pc(2)
            },
            Instruction::RRC(t) => {
                let v = self.read_prefix_target(t);
                let r = self.rrc(v);
                self.write_prefix_target(t, r);
                self.next_pc(2)
            },
            Instruction::RLC(t) => {
                let v = self.read_prefix_target(t);
                let r = self.rlc(v);
                self.write_prefix_target(t, r);
                self.next_pc(2)
            },
            Instruction::SRA(t) => {
                let v = self.read_prefix_target(t);
                let r = self.sra(v);
                self.write_prefix_target(t, r);
                self.next_pc(2)
            },
            Instruction::SLA(t) => {
                let v = self.read_prefix_target(t);
                let r = self.sla(v);
                self.write_prefix_target(t, r);
                self.next_pc(2)
            },
            Instruction::SWAP(t) => {
                let v = self.read_prefix_target(t);
                let r = self.swap(v);
                self.write_prefix_target(t, r);
                self.next_pc(2)
            },
            _ => self.next_pc(1),
        }
    }

    /// Loads, stack, jumps, 16-bit and the remaining one-byte operations.
    #[verifier::rlimit(100)]
    fn execute_other(&mut self, instruction: Instruction) -> (r: u16)
        requires
            old(self).wf(),
            instruction_wf(instruction),
            !(instruction is ADD || instruction is ADC || instruction is SUB || instruction is SBC || instruction is AND || instruction is OR || instruction is XOR || instruction is CP) && !(instruction is BIT || instruction is RESET || instruction is SET || instruction is SRL || instruction is RR || instruction is RL || instruction is RRC || instruction is RLC || instruction is SRA || instruction is SLA || instruction is SWAP),
        ensures
            final(self).wf(),
            (final(self)@, r) == execute_spec(old(self)@, instruction),
    {
        reveal(execute_spec);
        match instruction {
            Instruction::INC(t) => {
                self.inc_dec(t, true);
                self.next_pc(1)
            },
            Instruction::DEC(t) => {
                self.inc_dec(t, false);
                self.next_pc(1)
            },
            Instruction::AddHL(t) => {
                let v = match t {
                    ADDHLTarget::HL => self.register.get_hl(),
                    ADDHLTarget::BC => self.register.get_bc(),
                    ADDHLTarget::DE => self.register.get_de(),
                    ADDHLTarget::SP => self.register.get_sp(),
                };
                self.add_hl(v);
                self.next_pc(1)
            },
            Instruction::CCF() => {
                self.ccf();
                self.next_pc(1)
            },
            Instruction::SCF() => {
                self.scf();
                self.next_pc(1)
            },
            Instruction::CPL() => {
                self.cpl();
                self.next_pc(1)
            },
            Instruction::RRA() => {
                self.rra();
                self.next_pc(1)
            },
            Instruction::RLA() => {
                self.rla();
                self.next_pc(1)
            },
            Instruction::RRCA() => {
                self.rrca();
                self.next_pc(1)
            },
            Instruction::RRLA() => {
                self.rrla();
                self.next_pc(1)
            },
            Instruction::ADDSP() => {
                let r = self.sp_offset();
                self.register.sp = r;
                self.next_pc(2)
            },
            Instruction::LDHL() => {
                let r = self.sp_offset();
                self.register.set_hl(r);
                self.next_pc(2)
            },
            Instruction::LDSP() => {
                self.register.sp = self.register.get_hl();
                self.next_pc(1)
            },
            Instruction::JP(test) => {
                let taken = match test {
                    JumpTest::NotZero => !self.register.f.zero,
                    JumpTest::Zero => self.register.f.zero,
                    JumpTest::NotCarry => !self.register.f.carry,
                    JumpTest::Carry => self.register.f.carry,
                    JumpTest::Always => true,
                };
                self.jump(taken)
            },
            Instruction::LD(lt) => {
                let len = self.load(lt);
                self.next_pc(len)
            },
            Instruction::POP(t) => {
                self.pop(t);
                self.next_pc(1)
            },
            Instruction::PUSH(t) => {
                self.push(t);
                self.next_pc(1)
            },
            Instruction::NOP() => self.next_pc(1),
            Instruction::HALT() => self.next_pc(1),
            _ => self.next_pc(1),
        }
    }

    /// Apply one instruction to registers and memory; returns the address of
    /// the next instruction (the program counter itself is not moved).
    #[verifier::rlimit(100)]
    pub fn execute(&mut self, instruction: Instruction) -> (r: u16)
        requires
            old(self).wf(),
            instruction_wf(instruction),
        ensures
            final(self).wf(),
            (final(self)@, r) == execute_spec(old(self)@, instruction),
    {
        match instruction {
            Instruction::ADD(..) | Instruction::ADC(..) | Instruction::SUB(..) | Instruction::SBC(..) | Instruction::AND(..) | Instruction::OR(..) | Instruction::XOR(..) | Instruction::CP(..) => self.execute_arithmetic(instruction),
            Instruction::BIT(..) | Instruction::RESET(..) | Instruction::SET(..) | Instruction::SRL(..) | Instruction::RR(..) | Instruction::RL(..) | Instruction::RRC(..) | Instruction::RLC(..) | Instruction::SRA(..) | Instruction::SLA(..) | Instruction::SWAP(..) => self.execute_prefixed(instruction),
            _ => self.execute_other(instruction),
        }
    }

    /// Fetch, decode and execute one instruction. A byte that does not
    /// decode stops the step: nothing changes and the error names it.
    #[verifier::rlimit(100)]
    pub fn step(&mut self) -> (r: Result<(), InvalidOpcode>)
        requires
            old(self).wf(),
        ensures
            final(self).wf(),
            ({
                let (byte, prefixed) = fetched(old(self)@);
                match decode(byte, prefixed) {
                    Some(i) => r is Ok && final(self)@ == after(execute_spec(old(self)@, i)),
                    None => r == Err::<(), InvalidOpcode>(
                        InvalidOpcode { pc: old(self).pc, opcode: byte, prefixed },
                    ) && final(self)@ == old(self)@,
                }
            }),
    {
        let first = self.at(self.pc);
        let prefixed = first == PREFIX_BYTE;
        let byte = if prefixed {
            self.at(wrap_add(self.pc, 1))
        } else {
            first
        };
        proof {
            decoded_instructions_are_wf(byte, prefixed);
        }
        match Instruction::from_byte(byte, prefixed) {
            Some(instruction) => {
                let next_pc = self.execute(instruction);
                self.pc = next_pc;
                Ok(())
            },
            None => Err(InvalidOpcode { pc: self.pc, opcode: byte, prefixed }),
        }
    }
}

} // verus!
