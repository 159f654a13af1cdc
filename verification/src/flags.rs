//! The flags register: four condition flags packed into one byte.
//!
//! Bit 7 is `zero`, bit 6 is `subtract`, bit 5 is `half_carry`, bit 4 is
//! `carry`; bits 0-3 are unused and are packed as zero, so that packing is
//! deterministic and unpacking ignores them.

use vstd::prelude::*;

verus! {

/// Bit position of the `zero` flag inside the packed flags byte.
pub const ZERO_FLAG_BYTE_POSITION: u8 = 7;
/// Bit position of the `subtract` flag inside the packed flags byte.
pub const SUBTRACT_FLAG_BYTE_POSITION: u8 = 6;
/// Bit position of the `half_carry` flag inside the packed flags byte.
pub const HALF_CARRY_FLAG_BYTE_POSITION: u8 = 5;
/// Bit position of the `carry` flag inside the packed flags byte.
pub const CARRY_FLAG_BYTE_POSITION: u8 = 4;

/// The four condition flags of the CPU.
#[derive(Clone, Copy, Debug, PartialEq, Eq, Structural)]
pub struct FlagsRegister {
    /// Set when an ALU result is zero.
    pub zero: bool,
    /// Set when the last ALU operation was a subtraction.
    pub subtract: bool,
    /// Set on a carry or borrow out of the low nibble.
    pub half_carry: bool,
    /// Set on a carry or borrow out of the full width.
    pub carry: bool,
}

/// The byte that packs the four flags: each flag contributes its bit,
/// the unused low nibble is zero.
pub open spec fn spec_to_byte(f: FlagsRegister) -> u8 {
    ((if f.zero { 0x80int } else { 0int }) + (if f.subtract { 0x40int } else { 0int })
        + (if f.half_carry { 0x20int } else { 0int }) + (if f.carry {
        0x10int
    } else {
        0int
    })) as u8
}

/// The flags read back from a byte: each flag is the value of its own bit;
/// all other bits of the byte are ignored.
pub open spec fn spec_from_byte(byte: u8) -> FlagsRegister {
    FlagsRegister {
        zero: byte & 0x80 != 0,
        subtract: byte & 0x40 != 0,
        half_carry: byte & 0x20 != 0,
        carry: byte & 0x10 != 0,
    }
}

impl FlagsRegister {
    /// All four flags cleared.
    pub fn new() -> (r: FlagsRegister)
        ensures
            r == (FlagsRegister { zero: false, subtract: false, half_carry: false, carry: false }),
    {
        FlagsRegister { zero: false, subtract: false, half_carry: false, carry: false }
    }

    /// Packs the four flags into one byte, unused bits zero.
    pub fn to_byte(&self) -> (r: u8)
        ensures
            r == spec_to_byte(*self),
    {
        let z: u8 = if self.zero { 1 } else { 0 };
        let s: u8 = if self.subtract { 1 } else { 0 };
        let h: u8 = if self.half_carry { 1 } else { 0 };
        let c: u8 = if self.carry { 1 } else { 0 };
        let r = (z << ZERO_FLAG_BYTE_POSITION) | (s << SUBTRACT_FLAG_BYTE_POSITION) | (h
            << HALF_CARRY_FLAG_BYTE_POSITION) | (c << CARRY_FLAG_BYTE_POSITION);
        proof {
            assert((z << 7) | (s << 6) | (h << 5) | (c << 4) == z * 0x80 + s * 0x40 + h * 0x20 + c
                * 0x10) by (bit_vector)
                requires
                    z < 2 && s < 2 && h < 2 && c < 2,
            ;
        }
        r
    }

    /// Reads the four flags out of a byte, ignoring the unused bits.
    pub fn from_byte(byte: u8) -> (r: FlagsRegister)
        ensures
            r == spec_from_byte(byte),
    {
        let zero = (byte >> ZERO_FLAG_BYTE_POSITION) & 1 != 0;
        let subtract = (byte >> SUBTRACT_FLAG_BYTE_POSITION) & 1 != 0;
        let half_carry = (byte >> HALF_CARRY_FLAG_BYTE_POSITION) & 1 != 0;
        let carry = (byte >> CARRY_FLAG_BYTE_POSITION) & 1 != 0;
        proof {
            assert(((byte >> 7) & 1 != 0) == (byte & 0x80 != 0) && ((byte >> 6) & 1 != 0) == (byte
                & 0x40 != 0) && ((byte >> 5) & 1 != 0) == (byte & 0x20 != 0) && ((byte >> 4) & 1
                != 0) == (byte & 0x10 != 0)) by (bit_vector);
        }
        FlagsRegister { zero, subtract, half_carry, carry }
    }
}

/// Unpacking the packed byte gives back exactly the flags that were packed,
/// for every combination of the four flags.
pub proof fn lemma_flags_round_trip(f: FlagsRegister)
    ensures
        spec_from_byte(spec_to_byte(f)) == f,
{
    let z: u8 = if f.zero { 1 } else { 0 };
    let s: u8 = if f.subtract { 1 } else { 0 };
    let h: u8 = if f.half_carry { 1 } else { 0 };
    let c: u8 = if f.carry { 1 } else { 0 };
    let b: u8 = (z * 0x80 + s * 0x40 + h * 0x20 + c * 0x10) as u8;
    assert(spec_to_byte(f) == b);
    assert((b & 0x80 != 0) == (z == 1) && (b & 0x40 != 0) == (s == 1) && (b & 0x20 != 0) == (h == 1)
        && (b & 0x10 != 0) == (c == 1)) by (bit_vector)
        requires
            z < 2 && s < 2 && h < 2 && c < 2 && b == z * 0x80 + s * 0x40 + h * 0x20 + c * 0x10,
    ;
}

/// The packed byte never sets the unused low nibble.
pub proof fn lemma_packed_low_nibble_zero(f: FlagsRegister)
    ensures
        spec_to_byte(f) % 16 == 0,
{
}

} // verus!
