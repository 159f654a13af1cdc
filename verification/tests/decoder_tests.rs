use dmg_cpu::instruction::decode;
use dmg_cpu::instruction::Instruction;
use dmg_cpu::instruction::Reg8;
use dmg_cpu::instruction::Reg16;

#[test]
fn every_opcode_decodes_or_fails_never_panics() {
    for opcode in 0u16..=0xFF {
        let _ = decode(opcode as u8, false);
        let _ = decode(opcode as u8, true);
    }
}

#[test]
fn cb_table_is_total_outside_the_hl_column() {
    for opcode in 0u16..=0xFF {
        let decoded = decode(opcode as u8, true);
        if opcode % 8 == 6 {
            assert!(decoded.is_none());
        } else {
            assert!(decoded.is_some());
        }
    }
}

#[test]
fn alu_block_decodes_by_group_and_register() {
    assert_eq!(decode(0x80, false), Some(Instruction::ADD(Reg8::B)));
    assert_eq!(decode(0x87, false), Some(Instruction::ADD(Reg8::A)));
    assert_eq!(decode(0x88, false), Some(Instruction::ADC(Reg8::B)));
    assert_eq!(decode(0x90, false), Some(Instruction::SUBTRACT(Reg8::B)));
    assert_eq!(decode(0x9D, false), Some(Instruction::SBC(Reg8::L)));
    assert_eq!(decode(0xA2, false), Some(Instruction::AND(Reg8::D)));
    assert_eq!(decode(0xAB, false), Some(Instruction::XOR(Reg8::E)));
    assert_eq!(decode(0xB4, false), Some(Instruction::OR(Reg8::H)));
    assert_eq!(decode(0xBF, false), Some(Instruction::CP(Reg8::A)));
    // The (HL) column of the block is outside this core.
    assert_eq!(decode(0x86, false), None);
    assert_eq!(decode(0x96, false), None);
    assert_eq!(decode(0xBE, false), None);
}

#[test]
fn inc_dec_rows_decode() {
    assert_eq!(decode(0x04, false), Some(Instruction::INC(Reg8::B)));
    assert_eq!(decode(0x0C, false), Some(Instruction::INC(Reg8::C)));
    assert_eq!(decode(0x3C, false), Some(Instruction::INC(Reg8::A)));
    assert_eq!(decode(0x05, false), Some(Instruction::DEC(Reg8::B)));
    assert_eq!(decode(0x2D, false), Some(Instruction::DEC(Reg8::L)));
    assert_eq!(decode(0x3D, false), Some(Instruction::DEC(Reg8::A)));
    // INC (HL) and DEC (HL) are memory-indirect, outside this core.
    assert_eq!(decode(0x34, false), None);
    assert_eq!(decode(0x35, false), None);
}

#[test]
fn addhl_column_decodes_all_four_pairs() {
    assert_eq!(decode(0x09, false), Some(Instruction::ADDHL(Reg16::BC)));
    assert_eq!(decode(0x19, false), Some(Instruction::ADDHL(Reg16::DE)));
    assert_eq!(decode(0x29, false), Some(Instruction::ADDHL(Reg16::HL)));
    assert_eq!(decode(0x39, false), Some(Instruction::ADDHL(Reg16::SP)));
}

#[test]
fn accumulator_and_flag_opcodes_decode() {
    assert_eq!(decode(0x07, false), Some(Instruction::RLCA));
    assert_eq!(decode(0x0F, false), Some(Instruction::RRCA));
    assert_eq!(decode(0x17, false), Some(Instruction::RLA));
    assert_eq!(decode(0x1F, false), Some(Instruction::RRA));
    assert_eq!(decode(0x2F, false), Some(Instruction::CPL));
    assert_eq!(decode(0x37, false), Some(Instruction::SCF));
    assert_eq!(decode(0x3F, false), Some(Instruction::CCF));
}

#[test]
fn opcodes_outside_the_core_report_failure() {
    // NOP, loads, jumps, immediates: defined on the hardware, but not
    // operations of this core.
    assert_eq!(decode(0x00, false), None);
    assert_eq!(decode(0x41, false), None);
    assert_eq!(decode(0x76, false), None);
    assert_eq!(decode(0xC3, false), None);
    assert_eq!(decode(0xC6, false), None);
    assert_eq!(decode(0xFF, false), None);
    // DAA is not part of the instruction set here.
    assert_eq!(decode(0x27, false), None);
}

#[test]
fn cb_rows_decode_by_operation_and_register() {
    assert_eq!(decode(0x00, true), Some(Instruction::RLC(Reg8::B)));
    assert_eq!(decode(0x0F, true), Some(Instruction::RRC(Reg8::A)));
    assert_eq!(decode(0x11, true), Some(Instruction::RL(Reg8::C)));
    assert_eq!(decode(0x1A, true), Some(Instruction::RR(Reg8::D)));
    assert_eq!(decode(0x23, true), Some(Instruction::SLA(Reg8::E)));
    assert_eq!(decode(0x2C, true), Some(Instruction::SRA(Reg8::H)));
    assert_eq!(decode(0x37, true), Some(Instruction::SWAP(Reg8::A)));
    assert_eq!(decode(0x3D, true), Some(Instruction::SRL(Reg8::L)));
}

#[test]
fn cb_bit_rows_carry_the_bit_number() {
    assert_eq!(decode(0x40, true), Some(Instruction::BIT(0, Reg8::B)));
    assert_eq!(decode(0x7C, true), Some(Instruction::BIT(7, Reg8::H)));
    assert_eq!(decode(0x8F, true), Some(Instruction::RESET(1, Reg8::A)));
    assert_eq!(decode(0xBB, true), Some(Instruction::RESET(7, Reg8::E)));
    assert_eq!(decode(0xC0, true), Some(Instruction::SET(0, Reg8::B)));
    assert_eq!(decode(0xFD, true), Some(Instruction::SET(7, Reg8::L)));
}
