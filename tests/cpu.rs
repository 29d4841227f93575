use gameboy::cpu::{InvalidOpcode, CPU};
use gameboy::instruction::{
    ADDHLTarget, ArithmeticTarget, IndirectFromA, Instruction, JumpTest, LoadType, StackTarget,
};

fn load(cpu: &mut CPU, at: u16, bytes: &[u8]) {
    for (i, b) in bytes.iter().enumerate() {
        cpu.bus.write_byte(at + i as u16, *b);
    }
}

#[test]
fn add_half_carry_without_carry() {
    let mut cpu = CPU::new();
    cpu.register.a = 0x0F;
    let r = cpu.add(0x01);
    assert_eq!(r, 0x10);
    assert!(cpu.register.f.half_carry);
    assert!(!cpu.register.f.carry);
    assert!(!cpu.register.f.zero);
    assert!(!cpu.register.f.subtract);
}

#[test]
fn add_overflow_to_zero() {
    let mut cpu = CPU::new();
    cpu.register.a = 0xFF;
    let r = cpu.add(0x01);
    assert_eq!(r, 0x00);
    assert!(cpu.register.f.zero);
    assert!(cpu.register.f.carry);
    assert!(cpu.register.f.half_carry);
}

#[test]
fn adc_and_sbc_use_carry() {
    let mut cpu = CPU::new();
    cpu.register.a = 0x0E;
    cpu.register.f.carry = true;
    assert_eq!(cpu.adc(0x01), 0x10);
    assert!(cpu.register.f.half_carry);
    assert!(!cpu.register.f.carry);
    cpu.register.a = 0xFF;
    cpu.register.f.carry = true;
    assert_eq!(cpu.adc(0x00), 0x00);
    assert!(cpu.register.f.carry && cpu.register.f.zero && cpu.register.f.half_carry);
    cpu.register.a = 0x10;
    cpu.register.f.carry = true;
    assert_eq!(cpu.sbc(0x0F), 0x00);
    assert!(cpu.register.f.zero && cpu.register.f.subtract && cpu.register.f.half_carry);
    assert!(!cpu.register.f.carry);
    cpu.register.a = 0x00;
    cpu.register.f.carry = true;
    assert_eq!(cpu.sbc(0xFF), 0x00);
    assert!(cpu.register.f.carry);
}

#[test]
fn sub_borrow_flags() {
    let mut cpu = CPU::new();
    cpu.register.a = 0x10;
    assert_eq!(cpu.sub(0x01), 0x0F);
    assert!(cpu.register.f.half_carry && !cpu.register.f.carry && cpu.register.f.subtract);
    cpu.register.a = 0x01;
    assert_eq!(cpu.sub(0x02), 0xFF);
    assert!(cpu.register.f.carry);
}

#[test]
fn logic_flags() {
    let mut cpu = CPU::new();
    cpu.register.a = 0xF0;
    assert_eq!(cpu.and(0x0F), 0x00);
    assert!(cpu.register.f.zero && cpu.register.f.half_carry && !cpu.register.f.carry);
    assert_eq!(cpu.or(0x0F), 0xFF);
    assert!(!cpu.register.f.zero && !cpu.register.f.half_carry);
    assert_eq!(cpu.xor(0xF0), 0x00);
    assert!(cpu.register.f.zero && !cpu.register.f.half_carry);
}

#[test]
fn inc_dec_leave_carry() {
    let mut cpu = CPU::new();
    cpu.register.f.carry = true;
    assert_eq!(cpu.inc8(0xFF), 0x00);
    assert!(cpu.register.f.zero && cpu.register.f.half_carry && cpu.register.f.carry);
    cpu.register.f.carry = false;
    assert_eq!(cpu.dec8(0x10), 0x0F);
    assert!(cpu.register.f.half_carry && cpu.register.f.subtract && !cpu.register.f.carry);
    assert_eq!(cpu.inc16(0xFFFF), 0);
    assert_eq!(cpu.dec16(0), 0xFFFF);
}

#[test]
fn rotations_and_shifts() {
    let mut cpu = CPU::new();
    assert_eq!(cpu.rlc(0x85), 0x0B);
    assert!(cpu.register.f.carry);
    assert_eq!(cpu.rrc(0x01), 0x80);
    assert!(cpu.register.f.carry);
    cpu.register.f.carry = false;
    assert_eq!(cpu.rl(0x80), 0x00);
    assert!(cpu.register.f.carry && cpu.register.f.zero);
    assert_eq!(cpu.rr(0x00), 0x80);
    assert!(!cpu.register.f.carry);
    assert_eq!(cpu.sla(0xC1), 0x82);
    assert!(cpu.register.f.carry);
    assert_eq!(cpu.sra(0x81), 0xC0);
    assert!(cpu.register.f.carry);
    assert_eq!(cpu.srl(0x81), 0x40);
    assert!(cpu.register.f.carry);
    cpu.register.f.carry = true;
    assert_eq!(cpu.swap(0xAB), 0xBA);
    assert!(!cpu.register.f.carry && !cpu.register.f.half_carry && !cpu.register.f.subtract);
}

#[test]
fn rlc_eight_times_restores_byte() {
    let mut cpu = CPU::new();
    for b in 0..=255u8 {
        let mut v = b;
        for _ in 0..8 {
            v = cpu.rlc(v);
        }
        assert_eq!(v, b);
        assert_eq!(cpu.register.f.carry, b & 1 == 1);
        if (b >> 7) == (b & 1) {
            assert_eq!(cpu.register.f.carry, b & 0x80 != 0);
        }
    }
}

#[test]
fn bit_set_reset() {
    let mut cpu = CPU::new();
    cpu.register.f.carry = true;
    cpu.bit(3, 0x08);
    assert!(!cpu.register.f.zero && cpu.register.f.half_carry && cpu.register.f.carry);
    cpu.bit(2, 0x08);
    assert!(cpu.register.f.zero);
    assert_eq!(cpu.set(0, 0x10), 0x11);
    assert_eq!(cpu.reset(4, 0x11), 0x01);
}

#[test]
fn add_hl_keeps_zero_flag() {
    let mut cpu = CPU::new();
    cpu.register.set_hl(0x0FFF);
    cpu.register.f.zero = true;
    cpu.add_hl(0x0001);
    assert_eq!(cpu.register.get_hl(), 0x1000);
    assert!(cpu.register.f.half_carry && !cpu.register.f.carry && cpu.register.f.zero);
    cpu.register.set_hl(0xFFFF);
    cpu.add_hl(0x0001);
    assert_eq!(cpu.register.get_hl(), 0x0000);
    assert!(cpu.register.f.carry && cpu.register.f.zero);
}

#[test]
fn misc_accumulator_ops() {
    let mut cpu = CPU::new();
    cpu.register.a = 0x35;
    cpu.cpl();
    assert_eq!(cpu.register.a, 0xCA);
    assert!(cpu.register.f.subtract && cpu.register.f.half_carry);
    cpu.scf();
    assert!(cpu.register.f.carry);
    cpu.ccf();
    assert!(!cpu.register.f.carry);
    cpu.register.a = 0x01;
    cpu.rra();
    assert_eq!(cpu.register.a, 0x00);
    assert!(cpu.register.f.carry);
    cpu.rla();
    assert_eq!(cpu.register.a, 0x01);
    cpu.rrca();
    assert_eq!(cpu.register.a, 0x80);
    cpu.rrla();
    assert_eq!(cpu.register.a, 0x01);
}

#[test]
fn step_loads_immediate_and_adds() {
    let mut cpu = CPU::new();
    // LD A,0x0F ; LD B,0x01 ; ADD A,B ; CP 0x10
    load(&mut cpu, 0, &[0x3E, 0x0F, 0x06, 0x01, 0x80, 0xFE, 0x10]);
    assert_eq!(cpu.step(), Ok(()));
    assert_eq!((cpu.register.a, cpu.pc), (0x0F, 2));
    assert_eq!(cpu.step(), Ok(()));
    assert_eq!((cpu.register.b, cpu.pc), (0x01, 4));
    assert_eq!(cpu.step(), Ok(()));
    assert_eq!((cpu.register.a, cpu.pc), (0x10, 5));
    assert!(cpu.register.f.half_carry);
    assert_eq!(cpu.step(), Ok(()));
    assert_eq!((cpu.register.a, cpu.pc), (0x10, 7));
    assert!(cpu.register.f.zero && cpu.register.f.subtract);
}

#[test]
fn step_prefixed_consumes_two_bytes() {
    let mut cpu = CPU::new();
    cpu.register.a = 0xAB;
    load(&mut cpu, 0x100, &[0xCB, 0x37]);
    cpu.pc = 0x100;
    assert_eq!(cpu.step(), Ok(()));
    assert_eq!(cpu.register.a, 0xBA);
    assert_eq!(cpu.pc, 0x102);
}

#[test]
fn step_prefixed_on_memory_operand() {
    let mut cpu = CPU::new();
    cpu.register.set_hl(0xC000);
    cpu.bus.write_byte(0xC000, 0x00);
    load(&mut cpu, 0, &[0xCB, 0xC6]);
    assert_eq!(cpu.step(), Ok(()));
    assert_eq!(cpu.bus.read_byte(0xC000), 0x01);
    assert_eq!(cpu.pc, 2);
}

#[test]
fn step_reports_invalid_opcode() {
    let mut cpu = CPU::new();
    load(&mut cpu, 0x20, &[0xD3]);
    cpu.pc = 0x20;
    cpu.register.a = 7;
    assert_eq!(cpu.step(), Err(InvalidOpcode { pc: 0x20, opcode: 0xD3, prefixed: false }));
    assert_eq!(cpu.pc, 0x20);
    assert_eq!(cpu.register.a, 7);
}

#[test]
fn execute_push_pop() {
    let mut cpu = CPU::new();
    cpu.register.sp = 0xFFFE;
    cpu.register.set_bc(0x1234);
    assert_eq!(cpu.execute(Instruction::PUSH(StackTarget::BC)), 1);
    assert_eq!(cpu.register.sp, 0xFFFC);
    assert_eq!(cpu.bus.read_byte(0xFFFD), 0x12);
    assert_eq!(cpu.bus.read_byte(0xFFFC), 0x34);
    cpu.execute(Instruction::POP(StackTarget::DE));
    assert_eq!(cpu.register.get_de(), 0x1234);
    assert_eq!(cpu.register.sp, 0xFFFE);
}

#[test]
fn execute_jump_taken_and_not() {
    let mut cpu = CPU::new();
    cpu.pc = 0x200;
    load(&mut cpu, 0x200, &[0xC3, 0x34, 0x12]);
    assert_eq!(cpu.execute(Instruction::JP(JumpTest::Always)), 0x1234);
    cpu.register.f.zero = true;
    assert_eq!(cpu.execute(Instruction::JP(JumpTest::NotZero)), 0x203);
    assert_eq!(cpu.execute(Instruction::JP(JumpTest::Zero)), 0x1234);
}

#[test]
fn execute_indirect_store_steps_hl() {
    let mut cpu = CPU::new();
    cpu.register.a = 0x5A;
    cpu.register.set_hl(0xC010);
    assert_eq!(cpu.execute(Instruction::LD(LoadType::IndirectFromA(IndirectFromA::HLMinus))), 1);
    assert_eq!(cpu.bus.read_byte(0xC010), 0x5A);
    assert_eq!(cpu.register.get_hl(), 0xC00F);
}

#[test]
fn execute_arithmetic_on_memory_and_immediate() {
    let mut cpu = CPU::new();
    cpu.register.a = 0x01;
    cpu.register.set_hl(0xC000);
    cpu.bus.write_byte(0xC000, 0x02);
    assert_eq!(cpu.execute(Instruction::ADD(ArithmeticTarget::HL)), 1);
    assert_eq!(cpu.register.a, 0x03);
    cpu.bus.write_byte(1, 0x05);
    assert_eq!(cpu.execute(Instruction::SUB(ArithmeticTarget::PC)), 2);
    assert_eq!(cpu.register.a, 0xFE);
    assert!(cpu.register.f.carry);
}

#[test]
fn execute_add_hl_instruction() {
    let mut cpu = CPU::new();
    cpu.register.set_hl(0x8A23);
    cpu.register.set_bc(0x0605);
    assert_eq!(cpu.execute(Instruction::AddHL(ADDHLTarget::BC)), 1);
    assert_eq!(cpu.register.get_hl(), 0x9028);
    assert!(cpu.register.f.half_carry && !cpu.register.f.carry);
}
