//! The register file: eight 8-bit registers, the flags register, and the
//! 16-bit stack pointer, with the virtual big-endian register pairs
//! `AF`, `BC`, `DE` and `HL` as accessor views over the 8-bit cells.

use vstd::prelude::*;
use crate::flags::FlagsRegister;
use crate::flags::spec_to_byte;
use crate::flags::spec_from_byte;

verus! {

/// The eight 8-bit registers, the flags register and the stack pointer.
#[derive(Clone, Copy, Debug, PartialEq, Eq, Structural)]
pub struct Registers {
    pub a: u8,
    pub b: u8,
    pub c: u8,
    pub d: u8,
    pub e: u8,
    pub f: FlagsRegister,
    pub h: u8,
    pub l: u8,
    pub sp: u16,
}

/// The 16-bit value of a big-endian pair of 8-bit cells.
pub open spec fn spec_pair(hi: u8, lo: u8) -> u16 {
    (hi * 0x100 + lo) as u16
}

/// Writing the read `AF` value back restores `a` and the flags exactly:
/// the high byte of `spec_af` is `a`, and its low byte unpacks to the
/// same flags (the unused bits were packed as zero, so nothing is lost).
pub proof fn lemma_af_round_trip(regs: Registers)
    ensures
        regs.spec_af() / 0x100 == regs.a,
        spec_from_byte((regs.spec_af() % 0x100) as u8) == regs.f,
{
    let packed = spec_to_byte(regs.f);
    assert(regs.spec_af() == regs.a * 0x100 + packed);
    assert((regs.a * 0x100 + packed) / 0x100 == regs.a && (regs.a * 0x100 + packed) % 0x100
        == packed) by (nonlinear_arith)
        requires
            packed < 0x100,
    ;
    crate::flags::lemma_flags_round_trip(regs.f);
}

impl Registers {
    /// The value of the virtual `BC` pair.
    pub open spec fn spec_bc(self) -> u16 {
        spec_pair(self.b, self.c)
    }

    /// The value of the virtual `DE` pair.
    pub open spec fn spec_de(self) -> u16 {
        spec_pair(self.d, self.e)
    }

    /// The value of the virtual `HL` pair.
    pub open spec fn spec_hl(self) -> u16 {
        spec_pair(self.h, self.l)
    }

    /// The value of the virtual `AF` pair: `a` above the packed flags byte.
    pub open spec fn spec_af(self) -> u16 {
        spec_pair(self.a, spec_to_byte(self.f))
    }

    /// All registers zero, all flags cleared.
    pub fn new() -> (r: Registers)
        ensures
            r == (Registers {
                a: 0,
                b: 0,
                c: 0,
                d: 0,
                e: 0,
                f: FlagsRegister { zero: false, subtract: false, half_carry: false, carry: false },
                h: 0,
                l: 0,
                sp: 0,
            }),
    {
        Registers {
            a: 0,
            b: 0,
            c: 0,
            d: 0,
            e: 0,
            f: FlagsRegister::new(),
            h: 0,
            l: 0,
            sp: 0,
        }
    }

    /// Reads the virtual `BC` pair, `b` as the high byte.
    pub fn get_bc(&self) -> (r: u16)
        ensures
            r == self.spec_bc(),
    {
        (self.b as u16) * 0x100 + (self.c as u16)
    }

    /// Writes the virtual `BC` pair: the high byte to `b`, the low to `c`.
    pub fn set_bc(&mut self, value: u16)
        ensures
            final(self).b == value / 0x100,
            final(self).c == value % 0x100,
            final(self).spec_bc() == value,
            *final(self) == (Registers {
                b: (value / 0x100) as u8,
                c: (value % 0x100) as u8,
                ..*old(self)
            }),
    {
        self.b = (value / 0x100) as u8;
        self.c = (value % 0x100) as u8;
    }

    /// Reads the virtual `DE` pair, `d` as the high byte.
    pub fn get_de(&self) -> (r: u16)
        ensures
            r == self.spec_de(),
    {
        (self.d as u16) * 0x100 + (self.e as u16)
    }

    /// Writes the virtual `DE` pair: the high byte to `d`, the low to `e`.
    pub fn set_de(&mut self, value: u16)
        ensures
            final(self).d == value / 0x100,
            final(self).e == value % 0x100,
            final(self).spec_de() == value,
            *final(self) == (Registers {
                d: (value / 0x100) as u8,
                e: (value % 0x100) as u8,
                ..*old(self)
            }),
    {
        self.d = (value / 0x100) as u8;
        self.e = (value % 0x100) as u8;
    }

    /// Reads the virtual `HL` pair, `h` as the high byte.
    pub fn get_hl(&self) -> (r: u16)
        ensures
            r == self.spec_hl(),
    {
        (self.h as u16) * 0x100 + (self.l as u16)
    }

    /// Writes the virtual `HL` pair: the high byte to `h`, the low to `l`.
    pub fn set_hl(&mut self, value: u16)
        ensures
            final(self).h == value / 0x100,
            final(self).l == value % 0x100,
            final(self).spec_hl() == value,
            *final(self) == (Registers {
                h: (value / 0x100) as u8,
                l: (value % 0x100) as u8,
                ..*old(self)
            }),
    {
        self.h = (value / 0x100) as u8;
        self.l = (value % 0x100) as u8;
    }

    /// Reads the virtual `AF` pair: `a` as the high byte, the packed flags
    /// byte as the low byte.
    pub fn get_af(&self) -> (r: u16)
        ensures
            r == self.spec_af(),
    {
        (self.a as u16) * 0x100 + (self.f.to_byte() as u16)
    }

    /// Writes the virtual `AF` pair: the high byte to `a`, the low byte
    /// unpacked into the flags register (its unused bits are dropped).
    pub fn set_af(&mut self, value: u16)
        ensures
            final(self).a == value / 0x100,
            final(self).f == spec_from_byte((value % 0x100) as u8),
            *final(self) == (Registers {
                a: (value / 0x100) as u8,
                f: spec_from_byte((value % 0x100) as u8),
                ..*old(self)
            }),
    {
        self.a = (value / 0x100) as u8;
        self.f = FlagsRegister::from_byte((value % 0x100) as u8);
    }
}

} // verus!
