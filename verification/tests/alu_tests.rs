use dmg_cpu::cpu::CPU;
use dmg_cpu::instruction::Instruction;
use dmg_cpu::instruction::Reg8;
use dmg_cpu::instruction::Reg16;

#[test]
fn add_overflow_sets_zero_carry_half_carry() {
    let mut cpu = CPU::new();
    cpu.registers.a = 0xFF;
    cpu.registers.b = 0x01;
    cpu.execute(Instruction::ADD(Reg8::B));
    assert_eq!(cpu.registers.a, 0x00);
    assert!(cpu.registers.f.zero);
    assert!(cpu.registers.f.carry);
    assert!(cpu.registers.f.half_carry);
    assert!(!cpu.registers.f.subtract);
}

#[test]
fn add_half_carry_boundary() {
    let mut cpu = CPU::new();
    cpu.registers.a = 0x0F;
    cpu.registers.c = 0x01;
    cpu.execute(Instruction::ADD(Reg8::C));
    assert_eq!(cpu.registers.a, 0x10);
    assert!(cpu.registers.f.half_carry);
    assert!(!cpu.registers.f.carry);
    assert!(!cpu.registers.f.zero);
}

#[test]
fn add_a_to_itself_doubles() {
    let mut cpu = CPU::new();
    cpu.registers.a = 0x40;
    cpu.execute(Instruction::ADD(Reg8::A));
    assert_eq!(cpu.registers.a, 0x80);
    assert!(!cpu.registers.f.carry);
}

#[test]
fn adc_adds_incoming_carry() {
    let mut cpu = CPU::new();
    cpu.registers.a = 0x10;
    cpu.registers.b = 0x0F;
    cpu.registers.f.carry = true;
    cpu.execute(Instruction::ADC(Reg8::B));
    assert_eq!(cpu.registers.a, 0x20);
    assert!(cpu.registers.f.half_carry);
    assert!(!cpu.registers.f.carry);
}

#[test]
fn subtract_sets_borrow_flags() {
    let mut cpu = CPU::new();
    cpu.registers.a = 0x10;
    cpu.registers.d = 0x20;
    cpu.execute(Instruction::SUBTRACT(Reg8::D));
    assert_eq!(cpu.registers.a, 0xF0);
    assert!(cpu.registers.f.carry);
    assert!(cpu.registers.f.subtract);
    assert!(!cpu.registers.f.half_carry);
    assert!(!cpu.registers.f.zero);
}

#[test]
fn subtract_equal_gives_zero() {
    let mut cpu = CPU::new();
    cpu.registers.a = 0x3C;
    cpu.registers.e = 0x3C;
    cpu.execute(Instruction::SUBTRACT(Reg8::E));
    assert_eq!(cpu.registers.a, 0x00);
    assert!(cpu.registers.f.zero);
    assert!(cpu.registers.f.subtract);
    assert!(!cpu.registers.f.carry);
}

#[test]
fn sbc_subtracts_incoming_carry() {
    let mut cpu = CPU::new();
    cpu.registers.a = 0x10;
    cpu.registers.b = 0x0F;
    cpu.registers.f.carry = true;
    cpu.execute(Instruction::SBC(Reg8::B));
    assert_eq!(cpu.registers.a, 0x00);
    assert!(cpu.registers.f.zero);
    assert!(cpu.registers.f.half_carry);
    assert!(!cpu.registers.f.carry);
}

#[test]
fn cp_sets_flags_without_writing_a() {
    let mut cpu = CPU::new();
    cpu.registers.a = 0x10;
    cpu.registers.h = 0x20;
    cpu.execute(Instruction::CP(Reg8::H));
    assert_eq!(cpu.registers.a, 0x10);
    assert!(cpu.registers.f.carry);
    assert!(cpu.registers.f.subtract);
}

#[test]
fn and_fixes_half_carry_true() {
    let mut cpu = CPU::new();
    cpu.registers.a = 0b1100_1010;
    cpu.registers.l = 0b1010_1010;
    cpu.execute(Instruction::AND(Reg8::L));
    assert_eq!(cpu.registers.a, 0b1000_1010);
    assert!(cpu.registers.f.half_carry);
    assert!(!cpu.registers.f.carry);
    assert!(!cpu.registers.f.zero);
}

#[test]
fn xor_with_itself_zeroes_a() {
    let mut cpu = CPU::new();
    cpu.registers.a = 0x5A;
    cpu.execute(Instruction::XOR(Reg8::A));
    assert_eq!(cpu.registers.a, 0x00);
    assert!(cpu.registers.f.zero);
    assert!(!cpu.registers.f.half_carry);
}

#[test]
fn or_clears_carry_and_half_carry() {
    let mut cpu = CPU::new();
    cpu.registers.a = 0xF0;
    cpu.registers.b = 0x0F;
    cpu.registers.f.carry = true;
    cpu.registers.f.half_carry = true;
    cpu.execute(Instruction::OR(Reg8::B));
    assert_eq!(cpu.registers.a, 0xFF);
    assert!(!cpu.registers.f.carry);
    assert!(!cpu.registers.f.half_carry);
}

#[test]
fn inc_never_touches_carry() {
    let mut cpu = CPU::new();
    cpu.registers.f.carry = true;
    cpu.registers.b = 0x00;
    cpu.execute(Instruction::INC(Reg8::B));
    assert_eq!(cpu.registers.b, 0x01);
    assert!(cpu.registers.f.carry);
    assert!(!cpu.registers.f.zero);
}

#[test]
fn inc_wraps_and_sets_zero_and_half_carry() {
    let mut cpu = CPU::new();
    cpu.registers.c = 0xFF;
    cpu.execute(Instruction::INC(Reg8::C));
    assert_eq!(cpu.registers.c, 0x00);
    assert!(cpu.registers.f.zero);
    assert!(cpu.registers.f.half_carry);
    assert!(!cpu.registers.f.carry);
}

#[test]
fn dec_never_touches_carry() {
    let mut cpu = CPU::new();
    cpu.registers.f.carry = true;
    cpu.registers.d = 0x01;
    cpu.execute(Instruction::DEC(Reg8::D));
    assert_eq!(cpu.registers.d, 0x00);
    assert!(cpu.registers.f.zero);
    assert!(cpu.registers.f.carry);
    assert!(cpu.registers.f.subtract);
}

#[test]
fn dec_wraps_with_half_borrow() {
    let mut cpu = CPU::new();
    cpu.registers.e = 0x00;
    cpu.execute(Instruction::DEC(Reg8::E));
    assert_eq!(cpu.registers.e, 0xFF);
    assert!(cpu.registers.f.half_carry);
    assert!(!cpu.registers.f.zero);
}

#[test]
fn addhl_overflow_wraps_and_sets_carry() {
    let mut cpu = CPU::new();
    cpu.registers.set_hl(0xFFFF);
    cpu.registers.set_bc(0x0001);
    cpu.execute(Instruction::ADDHL(Reg16::BC));
    assert_eq!(cpu.registers.get_hl(), 0x0000);
    assert!(cpu.registers.f.carry);
}

#[test]
fn addhl_half_carry_from_bit_eleven() {
    let mut cpu = CPU::new();
    cpu.registers.set_hl(0x0FFF);
    cpu.registers.set_de(0x0001);
    cpu.execute(Instruction::ADDHL(Reg16::DE));
    assert_eq!(cpu.registers.get_hl(), 0x1000);
    assert!(cpu.registers.f.half_carry);
    assert!(!cpu.registers.f.carry);
}

#[test]
fn addhl_keeps_zero_flag() {
    let mut cpu = CPU::new();
    cpu.registers.f.zero = true;
    cpu.registers.set_hl(0x1234);
    cpu.registers.sp = 0x1111;
    cpu.execute(Instruction::ADDHL(Reg16::SP));
    assert_eq!(cpu.registers.get_hl(), 0x2345);
    assert!(cpu.registers.f.zero);
}

#[test]
fn addhl_doubles_hl() {
    let mut cpu = CPU::new();
    cpu.registers.set_hl(0x2233);
    cpu.execute(Instruction::ADDHL(Reg16::HL));
    assert_eq!(cpu.registers.get_hl(), 0x4466);
}

#[test]
fn cpl_complements_a_and_keeps_zero_carry() {
    let mut cpu = CPU::new();
    cpu.registers.a = 0b0011_0101;
    cpu.registers.f.zero = true;
    cpu.registers.f.carry = true;
    cpu.execute(Instruction::CPL);
    assert_eq!(cpu.registers.a, 0b1100_1010);
    assert!(cpu.registers.f.subtract);
    assert!(cpu.registers.f.half_carry);
    assert!(cpu.registers.f.zero);
    assert!(cpu.registers.f.carry);
}

#[test]
fn ccf_toggles_carry_and_keeps_zero() {
    let mut cpu = CPU::new();
    cpu.registers.f.zero = true;
    cpu.registers.f.carry = true;
    cpu.registers.f.subtract = true;
    cpu.registers.f.half_carry = true;
    cpu.execute(Instruction::CCF);
    assert!(!cpu.registers.f.carry);
    assert!(cpu.registers.f.zero);
    assert!(!cpu.registers.f.subtract);
    assert!(!cpu.registers.f.half_carry);
    cpu.execute(Instruction::CCF);
    assert!(cpu.registers.f.carry);
}

#[test]
fn scf_forces_carry() {
    let mut cpu = CPU::new();
    cpu.registers.f.subtract = true;
    cpu.registers.f.half_carry = true;
    cpu.execute(Instruction::SCF);
    assert!(cpu.registers.f.carry);
    assert!(!cpu.registers.f.subtract);
    assert!(!cpu.registers.f.half_carry);
}
