//! Byte-addressable memory access, with little-endian 16-bit helpers:
//! the low byte of a word always sits at the lower address.

use vstd::prelude::*;

use crate::cpu::{regs_unchanged, CPU};

verus! {

/// The low byte of a 16-bit word.
pub open spec fn lo_byte(w: u16) -> u8 {
    (w % 0x100) as u8
}

/// The high byte of a 16-bit word.
pub open spec fn hi_byte(w: u16) -> u8 {
    (w / 0x100) as u8
}

/// The 16-bit word whose low byte is `lo` and whose high byte is `hi`.
pub open spec fn word_from_bytes(lo: u8, hi: u8) -> u16 {
    (hi * 0x100 + lo) as u16
}

/// The little-endian 16-bit word stored at `addr` and `addr + 1`.
pub open spec fn spec_read16(mem: Seq<u8>, addr: u16) -> u16 {
    word_from_bytes(mem[addr as int], mem[addr as int + 1])
}

/// `mem` after storing `value` little-endian at `addr` and `addr + 1`.
pub open spec fn spec_write16(mem: Seq<u8>, addr: u16, value: u16) -> Seq<u8> {
    mem.update(addr as int, lo_byte(value)).update(addr as int + 1, hi_byte(value))
}

/// Little-endian round trip: a 16-bit store followed by a 16-bit load of
/// the same address yields the stored value, for every address whose pair
/// of cells lies inside memory and for every value.
pub proof fn lemma_write16_read16(mem: Seq<u8>, addr: u16, value: u16)
    requires
        mem.len() == 0x10000,
        addr < 0xFFFF,
    ensures
        spec_read16(spec_write16(mem, addr, value), addr) == value,
{
    assert(0x100 * (value as int / 0x100) + value as int % 0x100 == value as int) by (nonlinear_arith);
}

/// A byte-addressable memory space. `mem` is the stored contents as a
/// sequence of bytes indexed by address; implementations state through
/// `mem_wf` that the full address space is backed.
pub trait Mem {
    spec fn mem(&self) -> Seq<u8>;

    spec fn mem_wf(&self) -> bool;

    /// The byte stored at `addr`.
    fn mem_read(&self, addr: u16) -> (r: u8)
        requires
            self.mem_wf(),
        ensures
            r == self.mem()[addr as int],
    ;

    /// Stores `data` at `addr`.
    fn mem_write(&mut self, addr: u16, data: u8)
        requires
            old(self).mem_wf(),
        ensures
            final (self).mem_wf(),
            final (self).mem() == old(self).mem().update(addr as int, data),
    ;

    /// Reads the little-endian 16-bit word at `pos`. Reading at the very
    /// top address would reach past the address space, so that position
    /// is a caller error and is ruled out.
    fn mem_read_u16(&self, pos: u16) -> (r: u16)
        requires
            self.mem_wf(),
            pos < 0xFFFF,
        ensures
            r == spec_read16(self.mem(), pos),
    ;

    /// Writes `data` little-endian at `pos` and `pos + 1`.
    fn mem_write_u16(&mut self, pos: u16, data: u16)
        requires
            old(self).mem_wf(),
            pos < 0xFFFF,
        ensures
            final (self).mem_wf(),
            final (self).mem() == spec_write16(old(self).mem(), pos, data),
    ;
}

impl Mem for CPU {
    open spec fn mem(&self) -> Seq<u8> {
        self@.mem
    }

    open spec fn mem_wf(&self) -> bool {
        self.wf()
    }

    fn mem_read(&self, addr: u16) -> (r: u8)
        ensures
            r == self.mem()[addr as int],
    {
        self.memory[addr as usize]
    }

    fn mem_write(&mut self, addr: u16, data: u8)
        ensures
            final (self).mem_wf(),
            final (self).mem() == old(self).mem().update(addr as int, data),
            regs_unchanged(old(self)@, final (self)@),
    {
        self.memory[addr as usize] = data;
    }

    fn mem_read_u16(&self, pos: u16) -> (r: u16)
        ensures
            r == spec_read16(self.mem(), pos),
    {
        let lo = self.mem_read(pos);
        let hi = self.mem_read(pos + 1);
        let r = ((hi as u16) << 8) | (lo as u16);
        proof {
            assert(((hi as u16) << 8) | (lo as u16) == hi as u16 * 0x100 + lo as u16)
                by (bit_vector);
        }
        r
    }

    fn mem_write_u16(&mut self, pos: u16, data: u16)
        ensures
            final (self).mem_wf(),
            final (self).mem() == spec_write16(old(self).mem(), pos, data),
            regs_unchanged(old(self)@, final (self)@),
    {
        let hi = (data >> 8) as u8;
        let lo = (data & 0xff) as u8;
        proof {
            assert((data >> 8) as u8 == data / 0x100 && (data & 0xff) as u8 == data % 0x100)
                by (bit_vector);
        }
        self.mem_write(pos, lo);
        self.mem_write(pos + 1, hi);
    }
}

} // verus!
