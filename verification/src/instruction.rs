//! The instruction set and the decoder.
//!
//! An `Instruction` is one mnemonic together with the operand it targets:
//! an 8-bit register, a 16-bit register pair, or nothing for the
//! accumulator- and flag-only operations. The decoder maps a raw opcode
//! byte, unprefixed or CB-prefixed, to an instruction following the
//! DMG-01 opcode table; opcodes whose meaning lies outside this core
//! (loads, jumps, immediate and memory-indirect operands, ...) decode to
//! `None`, a recoverable decode failure.

use vstd::prelude::*;

verus! {

/// An 8-bit register operand.
#[derive(Clone, Copy, Debug, PartialEq, Eq, Structural)]
pub enum Reg8 {
    A,
    B,
    C,
    D,
    E,
    H,
    L,
}

/// A 16-bit operand: a register pair or the stack pointer.
#[derive(Clone, Copy, Debug, PartialEq, Eq, Structural)]
pub enum Reg16 {
    BC,
    DE,
    HL,
    SP,
}

/// One decoded operation with its operand.
#[allow(non_camel_case_types)]
#[derive(Clone, Copy, Debug, PartialEq, Eq, Structural)]
pub enum Instruction {
    /// Add the register to `a`.
    ADD(Reg8),
    /// Add the register and the carry flag to `a`.
    ADC(Reg8),
    /// Subtract the register from `a`.
    SUBTRACT(Reg8),
    /// Subtract the register and the carry flag from `a`.
    SBC(Reg8),
    /// Bitwise AND of `a` with the register.
    AND(Reg8),
    /// Bitwise OR of `a` with the register.
    OR(Reg8),
    /// Bitwise XOR of `a` with the register.
    XOR(Reg8),
    /// Compare: subtract the register from `a`, keep only the flags.
    CP(Reg8),
    /// Increment the register by one; the carry flag is untouched.
    INC(Reg8),
    /// Decrement the register by one; the carry flag is untouched.
    DEC(Reg8),
    /// Add the 16-bit operand to the `HL` pair.
    ADDHL(Reg16),
    /// Toggle the carry flag.
    CCF,
    /// Set the carry flag.
    SCF,
    /// Complement every bit of `a`.
    CPL,
    /// Rotate `a` left through the carry flag.
    RLA,
    /// Rotate `a` right through the carry flag.
    RRA,
    /// Rotate `a` left, not through the carry flag.
    RLCA,
    /// Rotate `a` right, not through the carry flag.
    RRCA,
    /// Rotate the register left, not through the carry flag.
    RLC(Reg8),
    /// Rotate the register right, not through the carry flag.
    RRC(Reg8),
    /// Rotate the register left through the carry flag.
    RL(Reg8),
    /// Rotate the register right through the carry flag.
    RR(Reg8),
    /// Shift the register left, filling with zero.
    SLA(Reg8),
    /// Shift the register right, keeping the sign bit.
    SRA(Reg8),
    /// Shift the register right, filling with zero.
    SRL(Reg8),
    /// Exchange the high and low nibble of the register.
    SWAP(Reg8),
    /// Test the given bit of the register; only flags change.
    BIT(u8, Reg8),
    /// Clear the given bit of the register; flags are untouched.
    RESET(u8, Reg8),
    /// Set the given bit of the register; flags are untouched.
    SET(u8, Reg8),
}

impl Instruction {
    /// A bit-numbered instruction names one of the eight bits.
    pub open spec fn wf(self) -> bool {
        match self {
            Instruction::BIT(bit, _) => bit < 8,
            Instruction::RESET(bit, _) => bit < 8,
            Instruction::SET(bit, _) => bit < 8,
            _ => true,
        }
    }

    /// The arithmetic and logic group: the 8-bit ALU operations into
    /// `a`, increment and decrement, and the 16-bit add into `HL`.
    pub open spec fn is_arithmetic(self) -> bool {
        match self {
            Instruction::ADD(_) | Instruction::ADC(_) | Instruction::SUBTRACT(_)
            | Instruction::SBC(_) | Instruction::AND(_) | Instruction::OR(_)
            | Instruction::XOR(_) | Instruction::CP(_) | Instruction::INC(_)
            | Instruction::DEC(_) | Instruction::ADDHL(_) => true,
            _ => false,
        }
    }

    /// The accumulator and flag group: the operations without a named
    /// operand.
    pub open spec fn is_accumulator(self) -> bool {
        match self {
            Instruction::CCF | Instruction::SCF | Instruction::CPL | Instruction::RLA
            | Instruction::RRA | Instruction::RLCA | Instruction::RRCA => true,
            _ => false,
        }
    }

    /// The CB-prefixed group: rotates, shifts, swap, and the bit
    /// operations on a named register.
    pub open spec fn is_prefixed_op(self) -> bool {
        match self {
            Instruction::RLC(_) | Instruction::RRC(_) | Instruction::RL(_) | Instruction::RR(_)
            | Instruction::SLA(_) | Instruction::SRA(_) | Instruction::SRL(_)
            | Instruction::SWAP(_) | Instruction::BIT(_, _) | Instruction::RESET(_, _)
            | Instruction::SET(_, _) => true,
            _ => false,
        }
    }
}

/// The 8-bit register named by a three-bit operand field of an opcode.
/// Field 6 is the memory-indirect `(HL)` operand, which this core does
/// not cover, so it maps to `None`.
pub open spec fn spec_decode_reg8(field: u8) -> Option<Reg8> {
    if field == 0 {
        Some(Reg8::B)
    } else if field == 1 {
        Some(Reg8::C)
    } else if field == 2 {
        Some(Reg8::D)
    } else if field == 3 {
        Some(Reg8::E)
    } else if field == 4 {
        Some(Reg8::H)
    } else if field == 5 {
        Some(Reg8::L)
    } else if field == 7 {
        Some(Reg8::A)
    } else {
        None
    }
}

/// The 16-bit operand named by the two-bit pair field of an opcode.
pub open spec fn spec_decode_reg16(field: u8) -> Reg16 {
    if field == 0 {
        Reg16::BC
    } else if field == 1 {
        Reg16::DE
    } else if field == 2 {
        Reg16::HL
    } else {
        Reg16::SP
    }
}

/// The unprefixed opcode table, restricted to the operations of this
/// core. Opcodes that the DMG-01 table gives to loads, jumps, stack and
/// control operations, immediate operands or the `(HL)` operand are not
/// part of this core and map to `None`.
pub open spec fn spec_decode(opcode: u8) -> Option<Instruction> {
    if opcode == 0x07 {
        Some(Instruction::RLCA)
    } else if opcode == 0x0F {
        Some(Instruction::RRCA)
    } else if opcode == 0x17 {
        Some(Instruction::RLA)
    } else if opcode == 0x1F {
        Some(Instruction::RRA)
    } else if opcode == 0x2F {
        Some(Instruction::CPL)
    } else if opcode == 0x37 {
        Some(Instruction::SCF)
    } else if opcode == 0x3F {
        Some(Instruction::CCF)
    } else if opcode < 0x40 && opcode % 16 == 9 {
        Some(Instruction::ADDHL(spec_decode_reg16(opcode / 16)))
    } else if opcode < 0x40 && opcode % 8 == 4 {
        match spec_decode_reg8(opcode / 8) {
            Some(r) => Some(Instruction::INC(r)),
            None => None,
        }
    } else if opcode < 0x40 && opcode % 8 == 5 {
        match spec_decode_reg8(opcode / 8) {
            Some(r) => Some(Instruction::DEC(r)),
            None => None,
        }
    } else if 0x80 <= opcode && opcode < 0xC0 {
        match spec_decode_reg8(opcode % 8) {
            Some(r) => {
                let group = (opcode / 8) % 8;
                if group == 0 {
                    Some(Instruction::ADD(r))
                } else if group == 1 {
                    Some(Instruction::ADC(r))
                } else if group == 2 {
                    Some(Instruction::SUBTRACT(r))
                } else if group == 3 {
                    Some(Instruction::SBC(r))
                } else if group == 4 {
                    Some(Instruction::AND(r))
                } else if group == 5 {
                    Some(Instruction::XOR(r))
                } else if group == 6 {
                    Some(Instruction::OR(r))
                } else {
                    Some(Instruction::CP(r))
                }
            },
            None => None,
        }
    } else {
        None
    }
}

/// The CB-prefixed opcode table: rotates, shifts, swap, and the
/// bit-test, bit-clear and bit-set rows. Only the `(HL)` operand column
/// lies outside this core and maps to `None`.
pub open spec fn spec_decode_cb(opcode: u8) -> Option<Instruction> {
    match spec_decode_reg8(opcode % 8) {
        Some(r) => {
            let row = opcode / 64;
            let field = (opcode / 8) % 8;
            if row == 1 {
                Some(Instruction::BIT(field, r))
            } else if row == 2 {
                Some(Instruction::RESET(field, r))
            } else if row == 3 {
                Some(Instruction::SET(field, r))
            } else if field == 0 {
                Some(Instruction::RLC(r))
            } else if field == 1 {
                Some(Instruction::RRC(r))
            } else if field == 2 {
                Some(Instruction::RL(r))
            } else if field == 3 {
                Some(Instruction::RR(r))
            } else if field == 4 {
                Some(Instruction::SLA(r))
            } else if field == 5 {
                Some(Instruction::SRA(r))
            } else if field == 6 {
                Some(Instruction::SWAP(r))
            } else {
                Some(Instruction::SRL(r))
            }
        },
        None => None,
    }
}

/// What `decode` returns: the unprefixed table for a plain opcode, the
/// CB-prefixed table after the CB prefix.
pub open spec fn spec_decode_with_prefix(opcode: u8, prefixed: bool) -> Option<Instruction> {
    if prefixed {
        spec_decode_cb(opcode)
    } else {
        spec_decode(opcode)
    }
}

/// The 8-bit register named by a three-bit operand field.
fn decode_reg8(field: u8) -> (r: Option<Reg8>)
    ensures
        r == spec_decode_reg8(field),
{
    if field == 0 {
        Some(Reg8::B)
    } else if field == 1 {
        Some(Reg8::C)
    } else if field == 2 {
        Some(Reg8::D)
    } else if field == 3 {
        Some(Reg8::E)
    } else if field == 4 {
        Some(Reg8::H)
    } else if field == 5 {
        Some(Reg8::L)
    } else if field == 7 {
        Some(Reg8::A)
    } else {
        None
    }
}

/// The 16-bit operand named by the two-bit pair field.
fn decode_reg16(field: u8) -> (r: Reg16)
    ensures
        r == spec_decode_reg16(field),
{
    if field == 0 {
        Reg16::BC
    } else if field == 1 {
        Reg16::DE
    } else if field == 2 {
        Reg16::HL
    } else {
        Reg16::SP
    }
}

/// Decodes one opcode byte. With `prefixed` false the byte is looked up
/// in the unprefixed table, with `prefixed` true in the CB-prefixed
/// table. Returns `None`, never panics, for every byte without a defined
/// meaning in this core; every decoded instruction is well formed.
pub fn decode(opcode: u8, prefixed: bool) -> (r: Option<Instruction>)
    ensures
        r == spec_decode_with_prefix(opcode, prefixed),
        r matches Some(i) ==> i.wf(),
{
    if prefixed {
        decode_cb(opcode)
    } else {
        decode_unprefixed(opcode)
    }
}

/// Decodes one byte of the unprefixed table.
fn decode_unprefixed(opcode: u8) -> (r: Option<Instruction>)
    ensures
        r == spec_decode(opcode),
{
    if opcode == 0x07 {
        Some(Instruction::RLCA)
    } else if opcode == 0x0F {
        Some(Instruction::RRCA)
    } else if opcode == 0x17 {
        Some(Instruction::RLA)
    } else if opcode == 0x1F {
        Some(Instruction::RRA)
    } else if opcode == 0x2F {
        Some(Instruction::CPL)
    } else if opcode == 0x37 {
        Some(Instruction::SCF)
    } else if opcode == 0x3F {
        Some(Instruction::CCF)
    } else if opcode < 0x40 && opcode % 16 == 9 {
        Some(Instruction::ADDHL(decode_reg16(opcode / 16)))
    } else if opcode < 0x40 && opcode % 8 == 4 {
        match decode_reg8(opcode / 8) {
            Some(r) => Some(Instruction::INC(r)),
            None => None,
        }
    } else if opcode < 0x40 && opcode % 8 == 5 {
        match decode_reg8(opcode / 8) {
            Some(r) => Some(Instruction::DEC(r)),
            None => None,
        }
    } else if 0x80 <= opcode && opcode < 0xC0 {
        match decode_reg8(opcode % 8) {
            Some(r) => {
                let group = (opcode / 8) % 8;
                if group == 0 {
                    Some(Instruction::ADD(r))
                } else if group == 1 {
                    Some(Instruction::ADC(r))
                } else if group == 2 {
                    Some(Instruction::SUBTRACT(r))
                } else if group == 3 {
                    Some(Instruction::SBC(r))
                } else if group == 4 {
                    Some(Instruction::AND(r))
                } else if group == 5 {
                    Some(Instruction::XOR(r))
                } else if group == 6 {
                    Some(Instruction::OR(r))
                } else {
                    Some(Instruction::CP(r))
                }
            },
            None => None,
        }
    } else {
        None
    }
}

/// Decodes one byte of the CB-prefixed table.
fn decode_cb(opcode: u8) -> (r: Option<Instruction>)
    ensures
        r == spec_decode_cb(opcode),
{
    match decode_reg8(opcode % 8) {
        Some(r) => {
            let row = opcode / 64;
            let field = (opcode / 8) % 8;
            if row == 1 {
                Some(Instruction::BIT(field, r))
            } else if row == 2 {
                Some(Instruction::RESET(field, r))
            } else if row == 3 {
                Some(Instruction::SET(field, r))
            } else if field == 0 {
                Some(Instruction::RLC(r))
            } else if field == 1 {
                Some(Instruction::RRC(r))
            } else if field == 2 {
                Some(Instruction::RL(r))
            } else if field == 3 {
                Some(Instruction::RR(r))
            } else if field == 4 {
                Some(Instruction::SLA(r))
            } else if field == 5 {
                Some(Instruction::SRA(r))
            } else if field == 6 {
                Some(Instruction::SWAP(r))
            } else {
                Some(Instruction::SRL(r))
            }
        },
        None => None,
    }
}

/// Every CB-prefixed byte decodes to an instruction, except exactly the
/// eight bytes of the `(HL)` operand column, which report a decode
/// failure.
pub proof fn lemma_cb_decoder_total(opcode: u8)
    ensures
        (spec_decode_cb(opcode) is Some) <==> opcode % 8 != 6,
{
}

} // verus!
