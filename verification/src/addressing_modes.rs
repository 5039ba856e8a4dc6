//! Addressing modes: the rules by which an instruction derives its
//! operand address from the byte or bytes that follow the opcode.
//!
//! Index arithmetic wraps modulo 256 for the zero-page family and modulo
//! 65536 for the absolute and indirect families; the resolver never
//! overflows.

use vstd::prelude::*;

use crate::cpu::{CpuView, CPU};
use crate::memory::{word_from_bytes, Mem};

verus! {

/// How the processor interprets the bytes after an opcode.
#[derive(Clone, Copy, Debug, PartialEq, Eq, Structural)]
#[allow(non_camel_case_types)]
pub enum AddressingMode {
    /// The operand is the next byte of the instruction stream itself.
    Immediate,
    /// One byte after the opcode, used directly as an address in page zero.
    ZeroPage,
    /// The zero-page byte plus the X register, wrapping within page zero.
    ZeroPage_X,
    /// The zero-page byte plus the Y register, wrapping within page zero.
    ZeroPage_Y,
    /// Two little-endian bytes forming a full 16-bit address.
    Absolute,
    /// The absolute address plus the X register, wrapping at 16 bits.
    Absolute_X,
    /// The absolute address plus the Y register, wrapping at 16 bits.
    Absolute_Y,
    /// A zero-page pointer, pre-indexed by X within page zero, then
    /// dereferenced to a 16-bit address stored in page zero.
    Indirect_X,
    /// A zero-page pointer dereferenced first, with the Y register added
    /// to the fetched address afterwards, wrapping at 16 bits.
    Indirect_Y,
    /// No memory operand: the instruction works on the accumulator or on
    /// no data at all. Resolving this mode is a contract violation.
    NoneAddressing,
}

/// The operand address that `mode` yields for processor value `v`, whose
/// program counter points at the first byte after the opcode.
pub open spec fn spec_operand_addr(mode: AddressingMode, v: CpuView) -> u16 {
    match mode {
        AddressingMode::Immediate => v.pc,
        AddressingMode::ZeroPage => v.mem[v.pc as int] as u16,
        AddressingMode::ZeroPage_X => v.mem[v.pc as int].wrapping_add(v.x) as u16,
        AddressingMode::ZeroPage_Y => v.mem[v.pc as int].wrapping_add(v.y) as u16,
        AddressingMode::Absolute => spec_absolute_operand(v),
        AddressingMode::Absolute_X => spec_absolute_operand(v).wrapping_add(v.x as u16),
        AddressingMode::Absolute_Y => spec_absolute_operand(v).wrapping_add(v.y as u16),
        AddressingMode::Indirect_X => {
            let ptr = v.mem[v.pc as int].wrapping_add(v.x);
            word_from_bytes(v.mem[ptr as int], v.mem[ptr.wrapping_add(1) as int])
        },
        AddressingMode::Indirect_Y => {
            let base = v.mem[v.pc as int];
            let deref = word_from_bytes(v.mem[base as int], v.mem[base.wrapping_add(1) as int]);
            deref.wrapping_add(v.y as u16)
        },
        AddressingMode::NoneAddressing => 0,
    }
}

/// The two little-endian bytes at the program counter, read with 16-bit
/// wraparound so that the resolver is total.
pub open spec fn spec_absolute_operand(v: CpuView) -> u16 {
    word_from_bytes(v.mem[v.pc as int], v.mem[v.pc.wrapping_add(1) as int])
}

impl CPU {
    /// Resolves the operand address of the current instruction: the
    /// program counter must point at the first byte after the opcode.
    /// `NoneAddressing` has no operand address, so resolving it is ruled
    /// out by contract.
    pub fn get_operand_address(&self, mode: &AddressingMode) -> (addr: u16)
        requires
            self.wf(),
            *mode != AddressingMode::NoneAddressing,
        ensures
            addr == spec_operand_addr(*mode, self@),
    {
        match mode {
            AddressingMode::Immediate => self.program_counter,

            AddressingMode::ZeroPage => self.mem_read(self.program_counter) as u16,

            AddressingMode::ZeroPage_X => {
                let zero_page_addr = self.mem_read(self.program_counter);
                zero_page_addr.wrapping_add(self.register_x) as u16
            },

            AddressingMode::ZeroPage_Y => {
                let zero_page_addr = self.mem_read(self.program_counter);
                zero_page_addr.wrapping_add(self.register_y) as u16
            },

            AddressingMode::Absolute => self.read_absolute_operand(),

            AddressingMode::Absolute_X => {
                let abs_addr = self.read_absolute_operand();
                abs_addr.wrapping_add(self.register_x as u16)
            },

            AddressingMode::Absolute_Y => {
                let abs_addr = self.read_absolute_operand();
                abs_addr.wrapping_add(self.register_y as u16)
            },

            AddressingMode::Indirect_X => {
                let base = self.mem_read(self.program_counter);
                let ptr: u8 = base.wrapping_add(self.register_x);
                let lo = self.mem_read(ptr as u16);
                let hi = self.mem_read(ptr.wrapping_add(1) as u16);
                let addr = ((hi as u16) << 8) | (lo as u16);
                proof {
                    assert(((hi as u16) << 8) | (lo as u16) == hi as u16 * 0x100 + lo as u16)
                        by (bit_vector);
                }
                addr
            },

            AddressingMode::Indirect_Y => {
                let base = self.mem_read(self.program_counter);
                let lo = self.mem_read(base as u16);
                let hi = self.mem_read(base.wrapping_add(1) as u16);
                let deref_base = ((hi as u16) << 8) | (lo as u16);
                proof {
                    assert(((hi as u16) << 8) | (lo as u16) == hi as u16 * 0x100 + lo as u16)
                        by (bit_vector);
                }
                deref_base.wrapping_add(self.register_y as u16)
            },

            AddressingMode::NoneAddressing => {
                // ruled out by the contract
                0
            },
        }
    }

    /// Reads the two little-endian operand bytes at the program counter,
    /// wrapping at the top of the address space rather than overflowing.
    fn read_absolute_operand(&self) -> (addr: u16)
        requires
            self.wf(),
        ensures
            addr == spec_absolute_operand(self@),
    {
        let lo = self.mem_read(self.program_counter);
        let hi = self.mem_read(self.program_counter.wrapping_add(1));
        let addr = ((hi as u16) << 8) | (lo as u16);
        proof {
            assert(((hi as u16) << 8) | (lo as u16) == hi as u16 * 0x100 + lo as u16)
                by (bit_vector);
        }
        addr
    }
}

} // verus!
