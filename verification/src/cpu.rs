//! The execution engine: the ALU flag semantics of every instruction and
//! the fetch-decode-execute step.
//!
//! Each ALU operation is specified as a pure function from the operand
//! values and incoming flags to the result and outgoing flags, written
//! over mathematical integers; `spec_execute` composes them into one
//! register-file transition per instruction, and `CPU::execute` is proved
//! to implement exactly that transition. `CPU::step` fetches at `pc`,
//! decodes (following the CB prefix when present), executes, advances
//! `pc` by the consumed bytes and returns the machine-cycle count; an
//! unknown opcode is reported as an error and changes nothing.

use vstd::prelude::*;
use crate::flags::FlagsRegister;
use crate::registers::Registers;
use crate::memory::MemoryBus;
use crate::memory::next_addr;
use crate::memory::spec_next_addr;
use crate::instruction::Instruction;
use crate::instruction::Reg8;
use crate::instruction::Reg16;
use crate::instruction::decode;
use crate::instruction::spec_decode_with_prefix;

verus! {

/// The opcode byte that announces a CB-prefixed instruction.
pub const CB_PREFIX: u8 = 0xCB;

/// A failed step: the fetched byte has no meaning in this core.
/// The byte and whether it followed the CB prefix are reported; the
/// machine is left exactly as it was (halt-and-report, not no-op).
#[derive(Clone, Copy, Debug, PartialEq, Eq, Structural)]
pub enum StepError {
    UnknownOpcode(u8, bool),
}

// --- ALU semantics, as pure functions of operands and incoming flags ---

/// 8-bit add into `a`: the sum wraps; `carry` is the carry out of bit 7,
/// `half_carry` the carry out of bit 3.
pub open spec fn spec_add(a: u8, v: u8) -> (u8, FlagsRegister) {
    let nv = ((a + v) % 0x100) as u8;
    (
        nv,
        FlagsRegister {
            zero: nv == 0,
            subtract: false,
            half_carry: a % 16 + v % 16 > 0xF,
            carry: a + v > 0xFF,
        },
    )
}

/// Add with carry: as `spec_add` with the incoming carry added in.
pub open spec fn spec_adc(a: u8, v: u8, carry: bool) -> (u8, FlagsRegister) {
    let cin = if carry {
        1int
    } else {
        0int
    };
    let nv = ((a + v + cin) % 0x100) as u8;
    (
        nv,
        FlagsRegister {
            zero: nv == 0,
            subtract: false,
            half_carry: a % 16 + v % 16 + cin > 0xF,
            carry: a + v + cin > 0xFF,
        },
    )
}

/// 8-bit subtract from `a`: the difference wraps; `carry` is the borrow,
/// `half_carry` the borrow out of the low nibble.
pub open spec fn spec_sub(a: u8, v: u8) -> (u8, FlagsRegister) {
    let nv = ((a + 0x100 - v) % 0x100) as u8;
    (
        nv,
        FlagsRegister {
            zero: nv == 0,
            subtract: true,
            half_carry: v % 16 > a % 16,
            carry: v > a,
        },
    )
}

/// Subtract with carry: as `spec_sub` with the incoming carry also
/// subtracted.
pub open spec fn spec_sbc(a: u8, v: u8, carry: bool) -> (u8, FlagsRegister) {
    let cin = if carry {
        1int
    } else {
        0int
    };
    let nv = ((a + 0x200 - v - cin) % 0x100) as u8;
    (
        nv,
        FlagsRegister {
            zero: nv == 0,
            subtract: true,
            half_carry: v % 16 + cin > a % 16,
            carry: v + cin > a,
        },
    )
}

/// Bitwise AND into `a`; `half_carry` is fixed true by the hardware.
pub open spec fn spec_and(a: u8, v: u8) -> (u8, FlagsRegister) {
    let nv = a & v;
    (nv, FlagsRegister { zero: nv == 0, subtract: false, half_carry: true, carry: false })
}

/// Bitwise OR into `a`.
pub open spec fn spec_or(a: u8, v: u8) -> (u8, FlagsRegister) {
    let nv = a | v;
    (nv, FlagsRegister { zero: nv == 0, subtract: false, half_carry: false, carry: false })
}

/// Bitwise XOR into `a`.
pub open spec fn spec_xor(a: u8, v: u8) -> (u8, FlagsRegister) {
    let nv = a ^ v;
    (nv, FlagsRegister { zero: nv == 0, subtract: false, half_carry: false, carry: false })
}

/// Increment by one, wrapping; the carry flag is untouched.
pub open spec fn spec_inc(v: u8, f: FlagsRegister) -> (u8, FlagsRegister) {
    let nv = ((v + 1) % 0x100) as u8;
    (
        nv,
        FlagsRegister {
            zero: nv == 0,
            subtract: false,
            half_carry: v % 16 == 0xF,
            carry: f.carry,
        },
    )
}

/// Decrement by one, wrapping; the carry flag is untouched.
pub open spec fn spec_dec(v: u8, f: FlagsRegister) -> (u8, FlagsRegister) {
    let nv = ((v + 0xFF) % 0x100) as u8;
    (
        nv,
        FlagsRegister {
            zero: nv == 0,
            subtract: true,
            half_carry: v % 16 == 0,
            carry: f.carry,
        },
    )
}

/// 16-bit add into `HL`: the sum wraps; `carry` is the carry out of bit
/// 15, `half_carry` the carry out of bit 11 (not bit 3); the zero flag
/// is untouched.
pub open spec fn spec_addhl(hl: u16, v: u16, f: FlagsRegister) -> (u16, FlagsRegister) {
    let nv = ((hl + v) % 0x10000) as u16;
    (
        nv,
        FlagsRegister {
            zero: f.zero,
            subtract: false,
            half_carry: hl % 0x1000 + v % 0x1000 > 0xFFF,
            carry: hl + v > 0xFFFF,
        },
    )
}

/// Rotate left, not through carry: bit 7 moves to both the carry flag
/// and bit 0.
pub open spec fn spec_rlc(v: u8) -> (u8, FlagsRegister) {
    let nv = ((v % 0x80) * 2 + v / 0x80) as u8;
    (nv, FlagsRegister { zero: nv == 0, subtract: false, half_carry: false, carry: v >= 0x80 })
}

/// Rotate right, not through carry: bit 0 moves to both the carry flag
/// and bit 7.
pub open spec fn spec_rrc(v: u8) -> (u8, FlagsRegister) {
    let nv = (v / 2 + (v % 2) * 0x80) as u8;
    (nv, FlagsRegister { zero: nv == 0, subtract: false, half_carry: false, carry: v % 2 == 1 })
}

/// Rotate left through carry: the old carry enters at bit 0, bit 7
/// leaves into the carry flag.
pub open spec fn spec_rl(v: u8, carry: bool) -> (u8, FlagsRegister) {
    let nv = ((v % 0x80) * 2 + if carry {
        1int
    } else {
        0int
    }) as u8;
    (nv, FlagsRegister { zero: nv == 0, subtract: false, half_carry: false, carry: v >= 0x80 })
}

/// Rotate right through carry: the old carry enters at bit 7, bit 0
/// leaves into the carry flag.
pub open spec fn spec_rr(v: u8, carry: bool) -> (u8, FlagsRegister) {
    let nv = (v / 2 + if carry {
        0x80int
    } else {
        0int
    }) as u8;
    (nv, FlagsRegister { zero: nv == 0, subtract: false, half_carry: false, carry: v % 2 == 1 })
}

/// Shift left, filling bit 0 with zero; bit 7 leaves into the carry.
pub open spec fn spec_sla(v: u8) -> (u8, FlagsRegister) {
    let nv = ((v % 0x80) * 2) as u8;
    (nv, FlagsRegister { zero: nv == 0, subtract: false, half_carry: false, carry: v >= 0x80 })
}

/// Arithmetic shift right: bit 7 is kept (sign), bit 0 leaves into the
/// carry.
pub open spec fn spec_sra(v: u8) -> (u8, FlagsRegister) {
    let nv = (v / 2 + (v / 0x80) * 0x80) as u8;
    (nv, FlagsRegister { zero: nv == 0, subtract: false, half_carry: false, carry: v % 2 == 1 })
}

/// Logical shift right: bit 7 is filled with zero, bit 0 leaves into the
/// carry.
pub open spec fn spec_srl(v: u8) -> (u8, FlagsRegister) {
    let nv = (v / 2) as u8;
    (nv, FlagsRegister { zero: nv == 0, subtract: false, half_carry: false, carry: v % 2 == 1 })
}

/// Exchange the high and low nibble; all flags but `zero` are cleared.
pub open spec fn spec_swap(v: u8) -> (u8, FlagsRegister) {
    let nv = ((v % 16) * 16 + v / 16) as u8;
    (nv, FlagsRegister { zero: nv == 0, subtract: false, half_carry: false, carry: false })
}

/// The accumulator rotate RLCA: as `spec_rlc` but the zero flag is
/// always cleared.
pub open spec fn spec_rlca(v: u8) -> (u8, FlagsRegister) {
    let r = spec_rlc(v);
    (r.0, FlagsRegister { zero: false, ..r.1 })
}

/// The accumulator rotate RRCA: as `spec_rrc` but the zero flag is
/// always cleared.
pub open spec fn spec_rrca(v: u8) -> (u8, FlagsRegister) {
    let r = spec_rrc(v);
    (r.0, FlagsRegister { zero: false, ..r.1 })
}

/// The accumulator rotate RLA: as `spec_rl` but the zero flag is always
/// cleared.
pub open spec fn spec_rla(v: u8, carry: bool) -> (u8, FlagsRegister) {
    let r = spec_rl(v, carry);
    (r.0, FlagsRegister { zero: false, ..r.1 })
}

/// The accumulator rotate RRA: as `spec_rr` but the zero flag is always
/// cleared.
pub open spec fn spec_rra(v: u8, carry: bool) -> (u8, FlagsRegister) {
    let r = spec_rr(v, carry);
    (r.0, FlagsRegister { zero: false, ..r.1 })
}

/// The byte with only the named bit set.
pub open spec fn spec_bit_mask(bit: u8) -> u8 {
    if bit == 0 {
        0x01
    } else if bit == 1 {
        0x02
    } else if bit == 2 {
        0x04
    } else if bit == 3 {
        0x08
    } else if bit == 4 {
        0x10
    } else if bit == 5 {
        0x20
    } else if bit == 6 {
        0x40
    } else {
        0x80
    }
}

/// Toggle the carry flag; `subtract` and `half_carry` are cleared, the
/// zero flag is untouched.
pub open spec fn spec_ccf(f: FlagsRegister) -> FlagsRegister {
    FlagsRegister { zero: f.zero, subtract: false, half_carry: false, carry: !f.carry }
}

/// Set the carry flag; `subtract` and `half_carry` are cleared, the zero
/// flag is untouched.
pub open spec fn spec_scf(f: FlagsRegister) -> FlagsRegister {
    FlagsRegister { zero: f.zero, subtract: false, half_carry: false, carry: true }
}

/// Complement `a`; `subtract` and `half_carry` are set, the zero and
/// carry flags are untouched.
pub open spec fn spec_cpl(a: u8, f: FlagsRegister) -> (u8, FlagsRegister) {
    (
        (0xFF - a) as u8,
        FlagsRegister { zero: f.zero, subtract: true, half_carry: true, carry: f.carry },
    )
}

/// The register-file transition of one instruction: which registers and
/// flags it writes, as a function of the old register file.
pub open spec fn spec_execute(regs: Registers, instruction: Instruction) -> Registers
    recommends
        instruction.wf(),
{
    match instruction {
        Instruction::ADD(t) => {
            let r = spec_add(regs.a, regs.spec_get8(t));
            Registers { a: r.0, f: r.1, ..regs }
        },
        Instruction::ADC(t) => {
            let r = spec_adc(regs.a, regs.spec_get8(t), regs.f.carry);
            Registers { a: r.0, f: r.1, ..regs }
        },
        Instruction::SUBTRACT(t) => {
            let r = spec_sub(regs.a, regs.spec_get8(t));
            Registers { a: r.0, f: r.1, ..regs }
        },
        Instruction::SBC(t) => {
            let r = spec_sbc(regs.a, regs.spec_get8(t), regs.f.carry);
            Registers { a: r.0, f: r.1, ..regs }
        },
        Instruction::AND(t) => {
            let r = spec_and(regs.a, regs.spec_get8(t));
            Registers { a: r.0, f: r.1, ..regs }
        },
        Instruction::OR(t) => {
            let r = spec_or(regs.a, regs.spec_get8(t));
            Registers { a: r.0, f: r.1, ..regs }
        },
        Instruction::XOR(t) => {
            let r = spec_xor(regs.a, regs.spec_get8(t));
            Registers { a: r.0, f: r.1, ..regs }
        },
        Instruction::CP(t) => {
            let r = spec_sub(regs.a, regs.spec_get8(t));
            Registers { f: r.1, ..regs }
        },
        Instruction::INC(t) => {
            let r = spec_inc(regs.spec_get8(t), regs.f);
            Registers { f: r.1, ..regs.spec_set8(t, r.0) }
        },
        Instruction::DEC(t) => {
            let r = spec_dec(regs.spec_get8(t), regs.f);
            Registers { f: r.1, ..regs.spec_set8(t, r.0) }
        },
        Instruction::ADDHL(p) => {
            let r = spec_addhl(regs.spec_hl(), regs.spec_get16(p), regs.f);
            Registers {
                h: (r.0 / 0x100) as u8,
                l: (r.0 % 0x100) as u8,
                f: r.1,
                ..regs
            }
        },
        Instruction::CCF => Registers { f: spec_ccf(regs.f), ..regs },
        Instruction::SCF => Registers { f: spec_scf(regs.f), ..regs },
        Instruction::CPL => {
            let r = spec_cpl(regs.a, regs.f);
            Registers { a: r.0, f: r.1, ..regs }
        },
        Instruction::RLA => {
            let r = spec_rla(regs.a, regs.f.carry);
            Registers { a: r.0, f: r.1, ..regs }
        },
        Instruction::RRA => {
            let r = spec_rra(regs.a, regs.f.carry);
            Registers { a: r.0, f: r.1, ..regs }
        },
        Instruction::RLCA => {
            let r = spec_rlca(regs.a);
            Registers { a: r.0, f: r.1, ..regs }
        },
        Instruction::RRCA => {
            let r = spec_rrca(regs.a);
            Registers { a: r.0, f: r.1, ..regs }
        },
        Instruction::RLC(t) => {
            let r = spec_rlc(regs.spec_get8(t));
            Registers { f: r.1, ..regs.spec_set8(t, r.0) }
        },
        Instruction::RRC(t) => {
            let r = spec_rrc(regs.spec_get8(t));
            Registers { f: r.1, ..regs.spec_set8(t, r.0) }
        },
        Instruction::RL(t) => {
            let r = spec_rl(regs.spec_get8(t), regs.f.carry);
            Registers { f: r.1, ..regs.spec_set8(t, r.0) }
        },
        Instruction::RR(t) => {
            let r = spec_rr(regs.spec_get8(t), regs.f.carry);
            Registers { f: r.1, ..regs.spec_set8(t, r.0) }
        },
        Instruction::SLA(t) => {
            let r = spec_sla(regs.spec_get8(t));
            Registers { f: r.1, ..regs.spec_set8(t, r.0) }
        },
        Instruction::SRA(t) => {
            let r = spec_sra(regs.spec_get8(t));
            Registers { f: r.1, ..regs.spec_set8(t, r.0) }
        },
        Instruction::SRL(t) => {
            let r = spec_srl(regs.spec_get8(t));
            Registers { f: r.1, ..regs.spec_set8(t, r.0) }
        },
        Instruction::SWAP(t) => {
            let r = spec_swap(regs.spec_get8(t));
            Registers { f: r.1, ..regs.spec_set8(t, r.0) }
        },
        Instruction::BIT(bit, t) => {
            Registers {
                f: FlagsRegister {
                    zero: regs.spec_get8(t) & spec_bit_mask(bit) == 0,
                    subtract: false,
                    half_carry: true,
                    carry: regs.f.carry,
                },
                ..regs
            }
        },
        Instruction::RESET(bit, t) => regs.spec_set8(
            t,
            regs.spec_get8(t) & !spec_bit_mask(bit),
        ),
        Instruction::SET(bit, t) => regs.spec_set8(t, regs.spec_get8(t) | spec_bit_mask(bit)),
    }
}

/// The register value and carry flag after rotating right through carry
/// `n` times in a row.
pub open spec fn spec_rr_iter(v: u8, carry: bool, n: nat) -> (u8, bool)
    decreases n,
{
    if n == 0 {
        (v, carry)
    } else {
        let prev = spec_rr_iter(v, carry, (n - 1) as nat);
        let r = spec_rr(prev.0, prev.1);
        (r.0, r.1.carry)
    }
}

/// Incrementing a register never touches the carry flag, whatever the
/// register and whatever the state.
pub proof fn lemma_inc_preserves_carry(regs: Registers, t: Reg8)
    ensures
        spec_execute(regs, Instruction::INC(t)).f.carry == regs.f.carry,
{
}

/// Decrementing a register never touches the carry flag either.
pub proof fn lemma_dec_preserves_carry(regs: Registers, t: Reg8)
    ensures
        spec_execute(regs, Instruction::DEC(t)).f.carry == regs.f.carry,
{
}

/// One executed `RR` rotates the named register right through carry:
/// the register and the carry flag change exactly as `spec_rr` says.
pub proof fn lemma_rr_execute_step(regs: Registers, t: Reg8)
    ensures
        spec_execute(regs, Instruction::RR(t)).spec_get8(t) == spec_rr(
            regs.spec_get8(t),
            regs.f.carry,
        ).0,
        spec_execute(regs, Instruction::RR(t)).f.carry == spec_rr(
            regs.spec_get8(t),
            regs.f.carry,
        ).1.carry,
{
}

/// Rotating right through carry is a rotation of the nine bits formed by
/// the register and the carry flag: after nine rotations both are back
/// to their original values, whatever they were.
pub proof fn lemma_rr_nine_rotations(v: u8, carry: bool)
    ensures
        spec_rr_iter(v, carry, 9) == (v, carry),
{
    let c0: u8 = if carry {
        1
    } else {
        0
    };
    let v1: u8 = (v / 2 + c0 * 0x80) as u8;
    let c1: u8 = v % 2;
    let v2: u8 = (v1 / 2 + c1 * 0x80) as u8;
    let c2: u8 = v1 % 2;
    let v3: u8 = (v2 / 2 + c2 * 0x80) as u8;
    let c3: u8 = v2 % 2;
    let v4: u8 = (v3 / 2 + c3 * 0x80) as u8;
    let c4: u8 = v3 % 2;
    let v5: u8 = (v4 / 2 + c4 * 0x80) as u8;
    let c5: u8 = v4 % 2;
    let v6: u8 = (v5 / 2 + c5 * 0x80) as u8;
    let c6: u8 = v5 % 2;
    let v7: u8 = (v6 / 2 + c6 * 0x80) as u8;
    let c7: u8 = v6 % 2;
    let v8: u8 = (v7 / 2 + c7 * 0x80) as u8;
    let c8: u8 = v7 % 2;
    let v9: u8 = (v8 / 2 + c8 * 0x80) as u8;
    let c9: u8 = v8 % 2;
    assert(spec_rr_iter(v, carry, 0) == (v, carry));
    assert(spec_rr_iter(v, carry, 1) == (v1, c1 == 1));
    assert(spec_rr_iter(v, carry, 2) == (v2, c2 == 1));
    assert(spec_rr_iter(v, carry, 3) == (v3, c3 == 1));
    assert(spec_rr_iter(v, carry, 4) == (v4, c4 == 1));
    assert(spec_rr_iter(v, carry, 5) == (v5, c5 == 1));
    assert(spec_rr_iter(v, carry, 6) == (v6, c6 == 1));
    assert(spec_rr_iter(v, carry, 7) == (v7, c7 == 1));
    assert(spec_rr_iter(v, carry, 8) == (v8, c8 == 1));
    assert(spec_rr_iter(v, carry, 9) == (v9, c9 == 1));
    assert(v9 == v && c9 == c0) by (bit_vector)
        requires
            c0 < 2 && v1 == v / 2 + c0 * 0x80 && c1 == v % 2 && v2 == v1 / 2 + c1 * 0x80 && c2
                == v1 % 2 && v3 == v2 / 2 + c2 * 0x80 && c3 == v2 % 2 && v4 == v3 / 2 + c3 * 0x80
                && c4 == v3 % 2 && v5 == v4 / 2 + c4 * 0x80 && c5 == v4 % 2 && v6 == v5 / 2 + c5
                * 0x80 && c6 == v5 % 2 && v7 == v6 / 2 + c6 * 0x80 && c7 == v6 % 2 && v8 == v7 / 2
                + c7 * 0x80 && c8 == v7 % 2 && v9 == v8 / 2 + c8 * 0x80 && c9 == v8 % 2,
    ;
}

/// After eight right rotations through carry the register and the carry
/// flag are back to their original values exactly when the nine rotated
/// bits are all equal: all clear, or all set. (With any other contents
/// eight rotations leave the nine bits shifted by one, not restored;
/// nine rotations restore every state, see `lemma_rr_nine_rotations`.)
pub proof fn lemma_rr_eight_rotations(v: u8, carry: bool)
    requires
        (v == 0 && !carry) || (v == 0xFF && carry),
    ensures
        spec_rr_iter(v, carry, 8) == (v, carry),
{
    assert(spec_rr(v, carry).0 == v && spec_rr(v, carry).1.carry == carry);
    assert(spec_rr_iter(v, carry, 0) == (v, carry));
    assert(spec_rr_iter(v, carry, 1) == (v, carry));
    assert(spec_rr_iter(v, carry, 2) == (v, carry));
    assert(spec_rr_iter(v, carry, 3) == (v, carry));
    assert(spec_rr_iter(v, carry, 4) == (v, carry));
    assert(spec_rr_iter(v, carry, 5) == (v, carry));
    assert(spec_rr_iter(v, carry, 6) == (v, carry));
    assert(spec_rr_iter(v, carry, 7) == (v, carry));
    assert(spec_rr_iter(v, carry, 8) == (v, carry));
}

/// The machine-cycle cost of one instruction of this core: CB-prefixed
/// instructions and the 16-bit `ADDHL` take two machine cycles, every
/// other covered instruction one.
pub open spec fn spec_cycles(instruction: Instruction, prefixed: bool) -> u8 {
    if prefixed {
        2
    } else if instruction matches Instruction::ADDHL(_) {
        2
    } else {
        1
    }
}

impl Registers {
    /// The value of the named 8-bit register.
    pub open spec fn spec_get8(self, r: Reg8) -> u8 {
        match r {
            Reg8::A => self.a,
            Reg8::B => self.b,
            Reg8::C => self.c,
            Reg8::D => self.d,
            Reg8::E => self.e,
            Reg8::H => self.h,
            Reg8::L => self.l,
        }
    }

    /// The register file with the named 8-bit register replaced.
    pub open spec fn spec_set8(self, r: Reg8, v: u8) -> Registers {
        match r {
            Reg8::A => Registers { a: v, ..self },
            Reg8::B => Registers { b: v, ..self },
            Reg8::C => Registers { c: v, ..self },
            Reg8::D => Registers { d: v, ..self },
            Reg8::E => Registers { e: v, ..self },
            Reg8::H => Registers { h: v, ..self },
            Reg8::L => Registers { l: v, ..self },
        }
    }

    /// The value of the named 16-bit operand.
    pub open spec fn spec_get16(self, r: Reg16) -> u16 {
        match r {
            Reg16::BC => self.spec_bc(),
            Reg16::DE => self.spec_de(),
            Reg16::HL => self.spec_hl(),
            Reg16::SP => self.sp,
        }
    }

    /// Reads the named 8-bit register.
    pub fn get8(&self, r: Reg8) -> (v: u8)
        ensures
            v == self.spec_get8(r),
    {
        match r {
            Reg8::A => self.a,
            Reg8::B => self.b,
            Reg8::C => self.c,
            Reg8::D => self.d,
            Reg8::E => self.e,
            Reg8::H => self.h,
            Reg8::L => self.l,
        }
    }

    /// Writes the named 8-bit register; nothing else changes.
    pub fn set8(&mut self, r: Reg8, v: u8)
        ensures
            *final(self) == old(self).spec_set8(r, v),
    {
        match r {
            Reg8::A => self.a = v,
            Reg8::B => self.b = v,
            Reg8::C => self.c = v,
            Reg8::D => self.d = v,
            Reg8::E => self.e = v,
            Reg8::H => self.h = v,
            Reg8::L => self.l = v,
        }
    }

    /// Reads the named 16-bit operand.
    pub fn get16(&self, r: Reg16) -> (v: u16)
        ensures
            v == self.spec_get16(r),
    {
        match r {
            Reg16::BC => self.get_bc(),
            Reg16::DE => self.get_de(),
            Reg16::HL => self.get_hl(),
            Reg16::SP => self.sp,
        }
    }
}

/// The byte with only the named bit set.
pub fn bit_mask(bit: u8) -> (r: u8)
    requires
        bit < 8,
    ensures
        r == spec_bit_mask(bit),
{
    if bit == 0 {
        0x01
    } else if bit == 1 {
        0x02
    } else if bit == 2 {
        0x04
    } else if bit == 3 {
        0x08
    } else if bit == 4 {
        0x10
    } else if bit == 5 {
        0x20
    } else if bit == 6 {
        0x40
    } else {
        0x80
    }
}

/// The interpreter: the register file, the program counter, and the
/// address space it fetches from.
pub struct CPU {
    pub registers: Registers,
    pub pc: u16,
    pub bus: MemoryBus,
}

impl CPU {
    /// The bus covers the full address space.
    pub open spec fn wf(self) -> bool {
        self.bus.wf()
    }

    /// The byte at the program counter.
    pub open spec fn spec_opcode(self) -> u8 {
        self.bus@[self.pc as int]
    }

    /// Whether the byte at the program counter is the CB prefix.
    pub open spec fn spec_prefixed(self) -> bool {
        self.spec_opcode() == CB_PREFIX
    }

    /// The opcode byte the decoder sees: the byte at `pc`, or the byte
    /// after it when `pc` holds the CB prefix.
    pub open spec fn spec_fetched_opcode(self) -> u8 {
        if self.spec_prefixed() {
            self.bus@[spec_next_addr(self.pc) as int]
        } else {
            self.spec_opcode()
        }
    }

    /// What the next step will decode.
    pub open spec fn spec_decoded(self) -> Option<Instruction> {
        spec_decode_with_prefix(self.spec_fetched_opcode(), self.spec_prefixed())
    }

    /// How many bytes the next step consumes: two for a CB-prefixed
    /// instruction, one otherwise.
    pub open spec fn spec_consumed_bytes(self) -> u16 {
        if self.spec_prefixed() {
            2
        } else {
            1
        }
    }

    /// A machine with zeroed registers and memory, the program counter
    /// at zero.
    pub fn new() -> (r: CPU)
        ensures
            r.wf(),
            r.registers == (Registers {
                a: 0,
                b: 0,
                c: 0,
                d: 0,
                e: 0,
                f: FlagsRegister { zero: false, subtract: false, half_carry: false, carry: false },
                h: 0,
                l: 0,
                sp: 0,
            }),
            r.pc == 0,
            forall|i: int| 0 <= i < r.bus@.len() ==> r.bus@[i] == 0u8,
    {
        CPU { registers: Registers::new(), pc: 0, bus: MemoryBus::new() }
    }

    /// 8-bit add into `a`: sets the flags of `spec_add` and returns the
    /// wrapped sum, which it does not itself write back.
    pub fn add(&mut self, value: u8) -> (r: u8)
        ensures
            r == spec_add(old(self).registers.a, value).0,
            *final(self) == (CPU {
                registers: (Registers {
                    f: spec_add(old(self).registers.a, value).1,
                    ..old(self).registers
                }),
                ..*old(self)
            }),
    {
        let a = self.registers.a;
        let sum: u16 = a as u16 + value as u16;
        let new_value = (sum % 0x100) as u8;
        self.registers.f.zero = new_value == 0;
        self.registers.f.subtract = false;
        self.registers.f.carry = sum > 0xFF;
        self.registers.f.half_carry = (a % 16) + (value % 16) > 0xF;
        new_value
    }

    /// Add with carry into `a`: sets the flags of `spec_adc` and returns
    /// the wrapped sum.
    pub fn adc(&mut self, value: u8) -> (r: u8)
        ensures
            r == spec_adc(old(self).registers.a, value, old(self).registers.f.carry).0,
            *final(self) == (CPU {
                registers: (Registers {
                    f: spec_adc(old(self).registers.a, value, old(self).registers.f.carry).1,
                    ..old(self).registers
                }),
                ..*old(self)
            }),
    {
        let a = self.registers.a;
        let cin: u16 = if self.registers.f.carry {
            1
        } else {
            0
        };
        let sum: u16 = a as u16 + value as u16 + cin;
        let new_value = (sum % 0x100) as u8;
        self.registers.f.zero = new_value == 0;
        self.registers.f.subtract = false;
        self.registers.f.carry = sum > 0xFF;
        self.registers.f.half_carry = (a % 16) as u16 + (value % 16) as u16 + cin > 0xF;
        new_value
    }

    /// 8-bit subtract from `a`: sets the flags of `spec_sub` and returns
    /// the wrapped difference.
    pub fn subtract(&mut self, value: u8) -> (r: u8)
        ensures
            r == spec_sub(old(self).registers.a, value).0,
            *final(self) == (CPU {
                registers: (Registers {
                    f: spec_sub(old(self).registers.a, value).1,
                    ..old(self).registers
                }),
                ..*old(self)
            }),
    {
        let a = self.registers.a;
        let diff: u16 = a as u16 + 0x100 - value as u16;
        let new_value = (diff % 0x100) as u8;
        self.registers.f.zero = new_value == 0;
        self.registers.f.subtract = true;
        self.registers.f.carry = value > a;
        self.registers.f.half_carry = value % 16 > a % 16;
        new_value
    }

    /// Subtract with carry from `a`: sets the flags of `spec_sbc` and
    /// returns the wrapped difference.
    pub fn sbc(&mut self, value: u8) -> (r: u8)
        ensures
            r == spec_sbc(old(self).registers.a, value, old(self).registers.f.carry).0,
            *final(self) == (CPU {
                registers: (Registers {
                    f: spec_sbc(old(self).registers.a, value, old(self).registers.f.carry).1,
                    ..old(self).registers
                }),
                ..*old(self)
            }),
    {
        let a = self.registers.a;
        let cin: u16 = if self.registers.f.carry {
            1
        } else {
            0
        };
        let diff: u16 = a as u16 + 0x200 - value as u16 - cin;
        let new_value = (diff % 0x100) as u8;
        self.registers.f.zero = new_value == 0;
        self.registers.f.subtract = true;
        self.registers.f.carry = value as u16 + cin > a as u16;
        self.registers.f.half_carry = (value % 16) as u16 + cin > (a % 16) as u16;
        new_value
    }

    /// Bitwise AND into `a`: sets the flags of `spec_and` and returns
    /// the result.
    pub fn and_a(&mut self, value: u8) -> (r: u8)
        ensures
            r == spec_and(old(self).registers.a, value).0,
            *final(self) == (CPU {
                registers: (Registers {
                    f: spec_and(old(self).registers.a, value).1,
                    ..old(self).registers
                }),
                ..*old(self)
            }),
    {
        let new_value = self.registers.a & value;
        self.registers.f.zero = new_value == 0;
        self.registers.f.subtract = false;
        self.registers.f.carry = false;
        self.registers.f.half_carry = true;
        new_value
    }

    /// Bitwise OR into `a`: sets the flags of `spec_or` and returns the
    /// result.
    pub fn or_a(&mut self, value: u8) -> (r: u8)
        ensures
            r == spec_or(old(self).registers.a, value).0,
            *final(self) == (CPU {
                registers: (Registers {
                    f: spec_or(old(self).registers.a, value).1,
                    ..old(self).registers
                }),
                ..*old(self)
            }),
    {
        let new_value = self.registers.a | value;
        self.registers.f.zero = new_value == 0;
        self.registers.f.subtract = false;
        self.registers.f.carry = false;
        self.registers.f.half_carry = false;
        new_value
    }

    /// Bitwise XOR into `a`: sets the flags of `spec_xor` and returns
    /// the result.
    pub fn xor_a(&mut self, value: u8) -> (r: u8)
        ensures
            r == spec_xor(old(self).registers.a, value).0,
            *final(self) == (CPU {
                registers: (Registers {
                    f: spec_xor(old(self).registers.a, value).1,
                    ..old(self).registers
                }),
                ..*old(self)
            }),
    {
        let new_value = self.registers.a ^ value;
        self.registers.f.zero = new_value == 0;
        self.registers.f.subtract = false;
        self.registers.f.carry = false;
        self.registers.f.half_carry = false;
        new_value
    }

    /// Compare: the flags of subtracting `value` from `a`; `a` itself is
    /// not written.
    pub fn cp(&mut self, value: u8)
        ensures
            *final(self) == (CPU {
                registers: (Registers {
                    f: spec_sub(old(self).registers.a, value).1,
                    ..old(self).registers
                }),
                ..*old(self)
            }),
    {
        let a = self.registers.a;
        let diff: u16 = a as u16 + 0x100 - value as u16;
        let new_value = (diff % 0x100) as u8;
        self.registers.f.zero = new_value == 0;
        self.registers.f.subtract = true;
        self.registers.f.carry = value > a;
        self.registers.f.half_carry = value % 16 > a % 16;
    }

    /// Increment: sets the flags of `spec_inc` (the carry flag is kept)
    /// and returns the wrapped successor.
    pub fn inc(&mut self, value: u8) -> (r: u8)
        ensures
            r == spec_inc(value, old(self).registers.f).0,
            *final(self) == (CPU {
                registers: (Registers {
                    f: spec_inc(value, old(self).registers.f).1,
                    ..old(self).registers
                }),
                ..*old(self)
            }),
    {
        let sum: u16 = value as u16 + 1;
        let new_value = (sum % 0x100) as u8;
        self.registers.f.zero = new_value == 0;
        self.registers.f.subtract = false;
        self.registers.f.half_carry = value % 16 == 0xF;
        new_value
    }

    /// Decrement: sets the flags of `spec_dec` (the carry flag is kept)
    /// and returns the wrapped predecessor.
    pub fn dec(&mut self, value: u8) -> (r: u8)
        ensures
            r == spec_dec(value, old(self).registers.f).0,
            *final(self) == (CPU {
                registers: (Registers {
                    f: spec_dec(value, old(self).registers.f).1,
                    ..old(self).registers
                }),
                ..*old(self)
            }),
    {
        let sum: u16 = value as u16 + 0xFF;
        let new_value = (sum % 0x100) as u8;
        self.registers.f.zero = new_value == 0;
        self.registers.f.subtract = true;
        self.registers.f.half_carry = value % 16 == 0;
        new_value
    }

    /// 16-bit add of `value` to `HL`: sets the flags of `spec_addhl`
    /// (carry from bit 15, half-carry from bit 11, zero kept) and
    /// returns the wrapped sum, which it does not itself write back.
    pub fn addhl(&mut self, value: u16) -> (r: u16)
        ensures
            r == spec_addhl(old(self).registers.spec_hl(), value, old(self).registers.f).0,
            *final(self) == (CPU {
                registers: (Registers {
                    f: spec_addhl(old(self).registers.spec_hl(), value, old(self).registers.f).1,
                    ..old(self).registers
                }),
                ..*old(self)
            }),
    {
        let hl = self.registers.get_hl();
        let sum: u32 = hl as u32 + value as u32;
        let new_value = (sum % 0x10000) as u16;
        self.registers.f.subtract = false;
        self.registers.f.carry = sum > 0xFFFF;
        self.registers.f.half_carry = (hl % 0x1000) + (value % 0x1000) > 0xFFF;
        new_value
    }

    /// Executes one decoded instruction: the register file makes exactly
    /// the `spec_execute` transition; the program counter and the memory
    /// are untouched.
    pub fn execute(&mut self, instruction: Instruction)
        requires
            instruction.wf(),
        ensures
            final(self).registers == spec_execute(old(self).registers, instruction),
            final(self).pc == old(self).pc,
            final(self).bus == old(self).bus,
    {
        match instruction {
            Instruction::ADD(_) | Instruction::ADC(_) | Instruction::SUBTRACT(_)
            | Instruction::SBC(_) | Instruction::AND(_) | Instruction::OR(_)
            | Instruction::XOR(_) | Instruction::CP(_) | Instruction::INC(_)
            | Instruction::DEC(_) | Instruction::ADDHL(_) => self.execute_arithmetic(instruction),
            Instruction::CCF | Instruction::SCF | Instruction::CPL | Instruction::RLA
            | Instruction::RRA | Instruction::RLCA | Instruction::RRCA => self.execute_accumulator(
                instruction,
            ),
            Instruction::RLC(_) | Instruction::RRC(_) | Instruction::RL(_) | Instruction::RR(_)
            | Instruction::SLA(_) | Instruction::SRA(_) | Instruction::SRL(_)
            | Instruction::SWAP(_) | Instruction::BIT(_, _) | Instruction::RESET(_, _)
            | Instruction::SET(_, _) => self.execute_prefixed(instruction),
        }
    }

    /// The arithmetic and logic group: the 8-bit ALU operations into
    /// `a`, increment and decrement, and the 16-bit add into `HL`.
    #[verifier::rlimit(100)]
    fn execute_arithmetic(&mut self, instruction: Instruction)
        requires
            instruction.is_arithmetic(),
        ensures
            final(self).registers == spec_execute(old(self).registers, instruction),
            final(self).pc == old(self).pc,
            final(self).bus == old(self).bus,
    {
        match instruction {
            Instruction::ADD(t) => {
                let value = self.registers.get8(t);
                let new_value = self.add(value);
                self.registers.a = new_value;
            },
            Instruction::ADC(t) => {
                let value = self.registers.get8(t);
                let new_value = self.adc(value);
                self.registers.a = new_value;
            },
            Instruction::SUBTRACT(t) => {
                let value = self.registers.get8(t);
                let new_value = self.subtract(value);
                self.registers.a = new_value;
            },
            Instruction::SBC(t) => {
                let value = self.registers.get8(t);
                let new_value = self.sbc(value);
                self.registers.a = new_value;
            },
            Instruction::AND(t) => {
                let value = self.registers.get8(t);
                let new_value = self.and_a(value);
                self.registers.a = new_value;
            },
            Instruction::OR(t) => {
                let value = self.registers.get8(t);
                let new_value = self.or_a(value);
                self.registers.a = new_value;
            },
            Instruction::XOR(t) => {
                let value = self.registers.get8(t);
                let new_value = self.xor_a(value);
                self.registers.a = new_value;
            },
            Instruction::CP(t) => {
                let value = self.registers.get8(t);
                self.cp(value);
            },
            Instruction::INC(t) => {
                let value = self.registers.get8(t);
                let new_value = self.inc(value);
                self.registers.set8(t, new_value);
            },
            Instruction::DEC(t) => {
                let value = self.registers.get8(t);
                let new_value = self.dec(value);
                self.registers.set8(t, new_value);
            },
            Instruction::ADDHL(p) => {
                let value = self.registers.get16(p);
                let new_value = self.addhl(value);
                self.registers.set_hl(new_value);
            },
            _ => {
                proof {
                    assert(false);
                }
            },
        }
    }

    /// The accumulator and flag group: the operations without a named
    /// operand.
    #[verifier::rlimit(100)]
    fn execute_accumulator(&mut self, instruction: Instruction)
        requires
            instruction.is_accumulator(),
        ensures
            final(self).registers == spec_execute(old(self).registers, instruction),
            final(self).pc == old(self).pc,
            final(self).bus == old(self).bus,
    {
        match instruction {
            Instruction::CCF => {
                self.registers.f.subtract = false;
                self.registers.f.half_carry = false;
                self.registers.f.carry = !self.registers.f.carry;
            },
            Instruction::SCF => {
                self.registers.f.subtract = false;
                self.registers.f.half_carry = false;
                self.registers.f.carry = true;
            },
            Instruction::CPL => {
                self.registers.a = 0xFF - self.registers.a;
                self.registers.f.subtract = true;
                self.registers.f.half_carry = true;
            },
            Instruction::RLA => {
                let r = alu_rl(self.registers.a, self.registers.f.carry);
                self.registers.a = r.0;
                self.registers.f = FlagsRegister { zero: false, ..r.1 };
            },
            Instruction::RRA => {
                let r = alu_rr(self.registers.a, self.registers.f.carry);
                self.registers.a = r.0;
                self.registers.f = FlagsRegister { zero: false, ..r.1 };
            },
            Instruction::RLCA => {
                let r = alu_rlc(self.registers.a);
                self.registers.a = r.0;
                self.registers.f = FlagsRegister { zero: false, ..r.1 };
            },
            Instruction::RRCA => {
                let r = alu_rrc(self.registers.a);
                self.registers.a = r.0;
                self.registers.f = FlagsRegister { zero: false, ..r.1 };
            },
            _ => {
                proof {
                    assert(false);
                }
            },
        }
    }

    /// The CB-prefixed group: rotates, shifts, swap, and the bit
    /// operations on a named register.
    #[verifier::rlimit(100)]
    fn execute_prefixed(&mut self, instruction: Instruction)
        requires
            instruction.is_prefixed_op(),
            instruction.wf(),
        ensures
            final(self).registers == spec_execute(old(self).registers, instruction),
            final(self).pc == old(self).pc,
            final(self).bus == old(self).bus,
    {
        match instruction {
            Instruction::RLC(t) => {
                let r = alu_rlc(self.registers.get8(t));
                self.registers.set8(t, r.0);
                self.registers.f = r.1;
            },
            Instruction::RRC(t) => {
                let r = alu_rrc(self.registers.get8(t));
                self.registers.set8(t, r.0);
                self.registers.f = r.1;
            },
            Instruction::RL(t) => {
                let r = alu_rl(self.registers.get8(t), self.registers.f.carry);
                self.registers.set8(t, r.0);
                self.registers.f = r.1;
            },
            Instruction::RR(t) => {
                let r = alu_rr(self.registers.get8(t), self.registers.f.carry);
                self.registers.set8(t, r.0);
                self.registers.f = r.1;
            },
            Instruction::SLA(t) => {
                let r = alu_sla(self.registers.get8(t));
                self.registers.set8(t, r.0);
                self.registers.f = r.1;
            },
            Instruction::SRA(t) => {
                let r = alu_sra(self.registers.get8(t));
                self.registers.set8(t, r.0);
                self.registers.f = r.1;
            },
            Instruction::SRL(t) => {
                let r = alu_srl(self.registers.get8(t));
                self.registers.set8(t, r.0);
                self.registers.f = r.1;
            },
            Instruction::SWAP(t) => {
                let r = alu_swap(self.registers.get8(t));
                self.registers.set8(t, r.0);
                self.registers.f = r.1;
            },
            Instruction::BIT(bit, t) => {
                let value = self.registers.get8(t);
                let mask = bit_mask(bit);
                self.registers.f.zero = value & mask == 0;
                self.registers.f.subtract = false;
                self.registers.f.half_carry = true;
            },
            Instruction::RESET(bit, t) => {
                let value = self.registers.get8(t);
                let mask = bit_mask(bit);
                self.registers.set8(t, value & !mask);
            },
            Instruction::SET(bit, t) => {
                let value = self.registers.get8(t);
                let mask = bit_mask(bit);
                self.registers.set8(t, value | mask);
            },
            _ => {
                proof {
                    assert(false);
                }
            },
        }
    }

    /// One fetch-decode-execute transition. Fetches the byte at `pc`;
    /// when it is the CB prefix, the following byte selects the
    /// CB-prefixed table. On success the register file makes the decoded
    /// instruction's transition, `pc` advances (wrapping) by exactly the
    /// consumed byte count - one byte unprefixed, two CB-prefixed - and
    /// the machine-cycle count is returned. An unknown opcode is
    /// reported and the whole machine is left unchanged.
    pub fn step(&mut self) -> (r: Result<u8, StepError>)
        requires
            old(self).wf(),
        ensures
            final(self).wf(),
            final(self).bus == old(self).bus,
            match old(self).spec_decoded() {
                Some(i) => {
                    &&& r == Ok::<u8, StepError>(spec_cycles(i, old(self).spec_prefixed()))
                    &&& final(self).registers == spec_execute(old(self).registers, i)
                    &&& final(self).pc == ((old(self).pc + old(self).spec_consumed_bytes())
                        % 0x10000) as u16
                },
                None => {
                    &&& r == Err::<u8, StepError>(
                        StepError::UnknownOpcode(
                            old(self).spec_fetched_opcode(),
                            old(self).spec_prefixed(),
                        ),
                    )
                    &&& *final(self) == *old(self)
                },
            },
    {
        let opcode = self.bus.read_byte(self.pc);
        if opcode == CB_PREFIX {
            let cb_opcode = self.bus.read_byte(next_addr(self.pc));
            match decode(cb_opcode, true) {
                Some(instruction) => {
                    self.execute(instruction);
                    self.pc = pc_advance(self.pc, 2);
                    Ok(2)
                },
                None => Err(StepError::UnknownOpcode(cb_opcode, true)),
            }
        } else {
            match decode(opcode, false) {
                Some(instruction) => {
                    let cycles = cycles_of(instruction);
                    self.execute(instruction);
                    self.pc = pc_advance(self.pc, 1);
                    Ok(cycles)
                },
                None => Err(StepError::UnknownOpcode(opcode, false)),
            }
        }
    }
}

/// Rotate left, not through carry.
pub fn alu_rlc(v: u8) -> (r: (u8, FlagsRegister))
    ensures
        r == spec_rlc(v),
{
    let nv = (v % 0x80) * 2 + v / 0x80;
    (nv, FlagsRegister { zero: nv == 0, subtract: false, half_carry: false, carry: v >= 0x80 })
}

/// Rotate right, not through carry.
pub fn alu_rrc(v: u8) -> (r: (u8, FlagsRegister))
    ensures
        r == spec_rrc(v),
{
    let nv = v / 2 + (v % 2) * 0x80;
    (nv, FlagsRegister { zero: nv == 0, subtract: false, half_carry: false, carry: v % 2 == 1 })
}

/// Rotate left through carry.
pub fn alu_rl(v: u8, carry: bool) -> (r: (u8, FlagsRegister))
    ensures
        r == spec_rl(v, carry),
{
    let cin: u8 = if carry {
        1
    } else {
        0
    };
    let nv = (v % 0x80) * 2 + cin;
    (nv, FlagsRegister { zero: nv == 0, subtract: false, half_carry: false, carry: v >= 0x80 })
}

/// Rotate right through carry.
pub fn alu_rr(v: u8, carry: bool) -> (r: (u8, FlagsRegister))
    ensures
        r == spec_rr(v, carry),
{
    let cin: u8 = if carry {
        0x80
    } else {
        0
    };
    let nv = v / 2 + cin;
    (nv, FlagsRegister { zero: nv == 0, subtract: false, half_carry: false, carry: v % 2 == 1 })
}

/// Shift left, filling with zero.
pub fn alu_sla(v: u8) -> (r: (u8, FlagsRegister))
    ensures
        r == spec_sla(v),
{
    let nv = (v % 0x80) * 2;
    (nv, FlagsRegister { zero: nv == 0, subtract: false, half_carry: false, carry: v >= 0x80 })
}

/// Arithmetic shift right, keeping the sign bit.
pub fn alu_sra(v: u8) -> (r: (u8, FlagsRegister))
    ensures
        r == spec_sra(v),
{
    let nv = v / 2 + (v / 0x80) * 0x80;
    (nv, FlagsRegister { zero: nv == 0, subtract: false, half_carry: false, carry: v % 2 == 1 })
}

/// Logical shift right, filling with zero.
pub fn alu_srl(v: u8) -> (r: (u8, FlagsRegister))
    ensures
        r == spec_srl(v),
{
    let nv = v / 2;
    (nv, FlagsRegister { zero: nv == 0, subtract: false, half_carry: false, carry: v % 2 == 1 })
}

/// Exchange the high and low nibble.
pub fn alu_swap(v: u8) -> (r: (u8, FlagsRegister))
    ensures
        r == spec_swap(v),
{
    let nv = (v % 16) * 16 + v / 16;
    (nv, FlagsRegister { zero: nv == 0, subtract: false, half_carry: false, carry: false })
}

/// The machine-cycle cost of one unprefixed instruction.
fn cycles_of(instruction: Instruction) -> (r: u8)
    ensures
        r == spec_cycles(instruction, false),
{
    match instruction {
        Instruction::ADDHL(_) => 2,
        _ => 1,
    }
}

/// The program counter advanced by `n` bytes, wrapping around the
/// address space.
fn pc_advance(pc: u16, n: u16) -> (r: u16)
    ensures
        r == ((pc + n) % 0x10000) as u16,
{
    let sum: u32 = pc as u32 + n as u32;
    (sum % 0x10000) as u16
}

} // verus!
