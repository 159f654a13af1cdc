//! The address space: a flat, byte-addressable 64 KiB memory.
//!
//! Every 16-bit address is readable and writable. The two-byte accessors
//! read and write little-endian, with the second address wrapping around
//! the end of the address space as the address counter itself does.

use vstd::prelude::*;

verus! {

/// The number of addressable bytes: one for every 16-bit address.
pub const MEMORY_SIZE: usize = 0x10000;

/// A flat 64 KiB byte-addressable memory.
pub struct MemoryBus {
    memory: Vec<u8>,
}

/// The address after `addr`, wrapping from the top of the address space
/// back to zero.
pub open spec fn spec_next_addr(addr: u16) -> u16 {
    ((addr + 1) % 0x10000) as u16
}

impl View for MemoryBus {
    type V = Seq<u8>;

    /// The bytes of the whole address space, by address.
    closed spec fn view(&self) -> Seq<u8> {
        self.memory@
    }
}

impl MemoryBus {
    /// A bus covers the full address space exactly.
    pub open spec fn wf(self) -> bool {
        self@.len() == MEMORY_SIZE
    }

    /// A fresh bus with every byte zero.
    pub fn new() -> (r: MemoryBus)
        ensures
            r.wf(),
            forall|i: int| 0 <= i < r@.len() ==> r@[i] == 0u8,
    {
        let mut memory: Vec<u8> = Vec::new();
        let mut i: usize = 0;
        while i < MEMORY_SIZE
            invariant
                i <= MEMORY_SIZE,
                memory@.len() == i,
                forall|j: int| 0 <= j < i ==> memory@[j] == 0u8,
            decreases MEMORY_SIZE - i,
        {
            memory.push(0);
            i = i + 1;
        }
        MemoryBus { memory }
    }

    /// Reads the byte stored at `address`; defined for every address.
    pub fn read_byte(&self, address: u16) -> (r: u8)
        requires
            self.wf(),
        ensures
            r == self@[address as int],
    {
        self.memory[address as usize]
    }

    /// Stores `value` at `address`; no other byte changes.
    pub fn write_byte(&mut self, address: u16, value: u8)
        requires
            old(self).wf(),
        ensures
            final(self).wf(),
            final(self)@ == old(self)@.update(address as int, value),
    {
        self.memory[address as usize] = value;
    }

    /// Reads the little-endian 16-bit value at `address`: the low byte at
    /// `address`, the high byte at the (wrapping) next address.
    pub fn read_word(&self, address: u16) -> (r: u16)
        requires
            self.wf(),
        ensures
            r == self@[address as int] + self@[spec_next_addr(address) as int] * 0x100,
    {
        let lo = self.read_byte(address);
        let hi = self.read_byte(next_addr(address));
        (lo as u16) + (hi as u16) * 0x100
    }

    /// Writes the little-endian 16-bit `value` at `address`: the low byte
    /// to `address`, the high byte to the (wrapping) next address.
    pub fn write_word(&mut self, address: u16, value: u16)
        requires
            old(self).wf(),
        ensures
            final(self).wf(),
            final(self)@ == old(self)@.update(address as int, (value % 0x100) as u8).update(
                spec_next_addr(address) as int,
                (value / 0x100) as u8,
            ),
    {
        self.write_byte(address, (value % 0x100) as u8);
        self.write_byte(next_addr(address), (value / 0x100) as u8);
    }
}

/// The address after `addr`, wrapping around the address space.
pub fn next_addr(addr: u16) -> (r: u16)
    ensures
        r == spec_next_addr(addr),
{
    if addr == 0xFFFF {
        0
    } else {
        addr + 1
    }
}

} // verus!
