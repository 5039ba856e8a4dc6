//! The opcode table: an immutable mapping from an opcode byte to its
//! mnemonic, its operand addressing mode, its encoded length in bytes and
//! its nominal cycle count. At most one descriptor exists per code; a
//! code without a descriptor is a fatal condition for the engine.

use vstd::prelude::*;

use crate::addressing_modes::AddressingMode;

verus! {

/// The operation that an opcode performs.
#[derive(Clone, Copy, Debug, PartialEq, Eq, Structural)]
pub enum Mnemonic {
    /// Add with carry.
    ADC,
    /// Bitwise and with the accumulator.
    AND,
    /// Arithmetic shift left.
    ASL,
    /// Branch if carry clear.
    BCC,
    /// Branch if carry set.
    BCS,
    /// Branch if equal (zero flag set).
    BEQ,
    /// Test bits against the accumulator.
    BIT,
    /// Branch if minus (negative flag set).
    BMI,
    /// Branch if not equal (zero flag clear).
    BNE,
    /// Branch if plus (negative flag clear).
    BPL,
    /// Force break: the engine halts.
    BRK,
    /// Branch if overflow clear.
    BVC,
    /// Branch if overflow set.
    BVS,
    /// Clear the carry flag.
    CLC,
    /// Clear the decimal-mode flag.
    CLD,
    /// Clear the interrupt-disable flag.
    CLI,
    /// Clear the overflow flag.
    CLV,
    /// Increment the X register.
    INX,
    /// Load the accumulator from memory.
    LDA,
    /// Store the accumulator to memory.
    STA,
    /// Transfer the accumulator to the X register.
    TAX,
}

/// One immutable entry of the opcode table.
#[derive(Clone, Copy, Debug, PartialEq, Eq, Structural)]
pub struct Opcode {
    /// The opcode byte itself.
    pub code: u8,
    /// The operation the code stands for.
    pub assembly: Mnemonic,
    /// The encoded instruction length in bytes, opcode included.
    pub len: u8,
    /// The nominal cycle count; carried as metadata, never used to pace
    /// execution.
    pub cycles: u8,
    /// How the operand address is derived.
    pub mode: AddressingMode,
}

impl Opcode {
    /// Builds a descriptor from its parts.
    pub fn new(code: u8, assembly: Mnemonic, len: u8, cycles: u8, mode: AddressingMode) -> (r:
        Opcode)
        ensures
            r == (Opcode { code, assembly, len, cycles, mode }),
    {
        Opcode { code, assembly, len, cycles, mode }
    }
}

/// True of the mnemonics that always read their operand through the
/// addressing-mode resolver, and so never carry `NoneAddressing`.
pub open spec fn takes_operand(m: Mnemonic) -> bool {
    ||| m is ADC
    ||| m is AND
    ||| m is BIT
    ||| m is LDA
    ||| m is STA
}

/// The descriptor that the table holds for `code`, or `None` when the
/// code is unrecognized.
pub open spec fn spec_lookup(code: u8) -> Option<Opcode> {
    match code {
        0x00 => Some(Opcode { code, assembly: Mnemonic::BRK, len: 1, cycles: 7, mode: AddressingMode::NoneAddressing }),

        0x69 => Some(Opcode { code, assembly: Mnemonic::ADC, len: 2, cycles: 2, mode: AddressingMode::Immediate }),
        0x65 => Some(Opcode { code, assembly: Mnemonic::ADC, len: 2, cycles: 3, mode: AddressingMode::ZeroPage }),
        0x75 => Some(Opcode { code, assembly: Mnemonic::ADC, len: 2, cycles: 4, mode: AddressingMode::ZeroPage_X }),
        0x6D => Some(Opcode { code, assembly: Mnemonic::ADC, len: 3, cycles: 4, mode: AddressingMode::Absolute }),
        0x7D => Some(Opcode { code, assembly: Mnemonic::ADC, len: 3, cycles: 4, mode: AddressingMode::Absolute_X }),
        0x79 => Some(Opcode { code, assembly: Mnemonic::ADC, len: 3, cycles: 4, mode: AddressingMode::Absolute_Y }),
        0x61 => Some(Opcode { code, assembly: Mnemonic::ADC, len: 2, cycles: 6, mode: AddressingMode::Indirect_X }),
        0x71 => Some(Opcode { code, assembly: Mnemonic::ADC, len: 2, cycles: 5, mode: AddressingMode::Indirect_Y }),

        0x29 => Some(Opcode { code, assembly: Mnemonic::AND, len: 2, cycles: 2, mode: AddressingMode::Immediate }),
        0x25 => Some(Opcode { code, assembly: Mnemonic::AND, len: 2, cycles: 3, mode: AddressingMode::ZeroPage }),
        0x35 => Some(Opcode { code, assembly: Mnemonic::AND, len: 2, cycles: 4, mode: AddressingMode::ZeroPage_X }),
        0x2D => Some(Opcode { code, assembly: Mnemonic::AND, len: 3, cycles: 4, mode: AddressingMode::Absolute }),
        0x3D => Some(Opcode { code, assembly: Mnemonic::AND, len: 3, cycles: 4, mode: AddressingMode::Absolute_X }),
        0x39 => Some(Opcode { code, assembly: Mnemonic::AND, len: 3, cycles: 4, mode: AddressingMode::Absolute_Y }),
        0x21 => Some(Opcode { code, assembly: Mnemonic::AND, len: 2, cycles: 6, mode: AddressingMode::Indirect_X }),
        0x31 => Some(Opcode { code, assembly: Mnemonic::AND, len: 2, cycles: 5, mode: AddressingMode::Indirect_Y }),

        0x0A => Some(Opcode { code, assembly: Mnemonic::ASL, len: 1, cycles: 2, mode: AddressingMode::NoneAddressing }),
        0x06 => Some(Opcode { code, assembly: Mnemonic::ASL, len: 2, cycles: 5, mode: AddressingMode::ZeroPage }),
        0x16 => Some(Opcode { code, assembly: Mnemonic::ASL, len: 2, cycles: 6, mode: AddressingMode::ZeroPage_X }),
        0x0E => Some(Opcode { code, assembly: Mnemonic::ASL, len: 3, cycles: 6, mode: AddressingMode::Absolute }),
        0x1E => Some(Opcode { code, assembly: Mnemonic::ASL, len: 3, cycles: 7, mode: AddressingMode::Absolute_X }),

        0x90 => Some(Opcode { code, assembly: Mnemonic::BCC, len: 2, cycles: 2, mode: AddressingMode::NoneAddressing }),
        0xB0 => Some(Opcode { code, assembly: Mnemonic::BCS, len: 2, cycles: 2, mode: AddressingMode::NoneAddressing }),
        0xF0 => Some(Opcode { code, assembly: Mnemonic::BEQ, len: 2, cycles: 2, mode: AddressingMode::NoneAddressing }),
        0x30 => Some(Opcode { code, assembly: Mnemonic::BMI, len: 2, cycles: 2, mode: AddressingMode::NoneAddressing }),
        0xD0 => Some(Opcode { code, assembly: Mnemonic::BNE, len: 2, cycles: 2, mode: AddressingMode::NoneAddressing }),
        0x10 => Some(Opcode { code, assembly: Mnemonic::BPL, len: 2, cycles: 2, mode: AddressingMode::NoneAddressing }),
        0x50 => Some(Opcode { code, assembly: Mnemonic::BVC, len: 2, cycles: 2, mode: AddressingMode::NoneAddressing }),
        0x70 => Some(Opcode { code, assembly: Mnemonic::BVS, len: 2, cycles: 2, mode: AddressingMode::NoneAddressing }),

        0x24 => Some(Opcode { code, assembly: Mnemonic::BIT, len: 2, cycles: 3, mode: AddressingMode::ZeroPage }),
        0x2C => Some(Opcode { code, assembly: Mnemonic::BIT, len: 3, cycles: 4, mode: AddressingMode::Absolute }),

        0x18 => Some(Opcode { code, assembly: Mnemonic::CLC, len: 1, cycles: 2, mode: AddressingMode::NoneAddressing }),
        0xD8 => Some(Opcode { code, assembly: Mnemonic::CLD, len: 1, cycles: 2, mode: AddressingMode::NoneAddressing }),
        0x58 => Some(Opcode { code, assembly: Mnemonic::CLI, len: 1, cycles: 2, mode: AddressingMode::NoneAddressing }),
        0xB8 => Some(Opcode { code, assembly: Mnemonic::CLV, len: 1, cycles: 2, mode: AddressingMode::NoneAddressing }),

        0xA9 => Some(Opcode { code, assembly: Mnemonic::LDA, len: 2, cycles: 2, mode: AddressingMode::Immediate }),
        0xA5 => Some(Opcode { code, assembly: Mnemonic::LDA, len: 2, cycles: 3, mode: AddressingMode::ZeroPage }),
        0xB5 => Some(Opcode { code, assembly: Mnemonic::LDA, len: 2, cycles: 4, mode: AddressingMode::ZeroPage_X }),
        0xAD => Some(Opcode { code, assembly: Mnemonic::LDA, len: 3, cycles: 4, mode: AddressingMode::Absolute }),
        0xBD => Some(Opcode { code, assembly: Mnemonic::LDA, len: 3, cycles: 4, mode: AddressingMode::Absolute_X }),
        0xB9 => Some(Opcode { code, assembly: Mnemonic::LDA, len: 3, cycles: 4, mode: AddressingMode::Absolute_Y }),
        0xA1 => Some(Opcode { code, assembly: Mnemonic::LDA, len: 2, cycles: 6, mode: AddressingMode::Indirect_X }),
        0xB1 => Some(Opcode { code, assembly: Mnemonic::LDA, len: 2, cycles: 5, mode: AddressingMode::Indirect_Y }),

        0x85 => Some(Opcode { code, assembly: Mnemonic::STA, len: 2, cycles: 3, mode: AddressingMode::ZeroPage }),
        0x95 => Some(Opcode { code, assembly: Mnemonic::STA, len: 2, cycles: 4, mode: AddressingMode::ZeroPage_X }),
        0x8D => Some(Opcode { code, assembly: Mnemonic::STA, len: 3, cycles: 4, mode: AddressingMode::Absolute }),
        0x9D => Some(Opcode { code, assembly: Mnemonic::STA, len: 3, cycles: 5, mode: AddressingMode::Absolute_X }),
        0x99 => Some(Opcode { code, assembly: Mnemonic::STA, len: 3, cycles: 5, mode: AddressingMode::Absolute_Y }),
        0x81 => Some(Opcode { code, assembly: Mnemonic::STA, len: 2, cycles: 6, mode: AddressingMode::Indirect_X }),
        0x91 => Some(Opcode { code, assembly: Mnemonic::STA, len: 2, cycles: 6, mode: AddressingMode::Indirect_Y }),

        0xAA => Some(Opcode { code, assembly: Mnemonic::TAX, len: 1, cycles: 2, mode: AddressingMode::NoneAddressing }),
        0xE8 => Some(Opcode { code, assembly: Mnemonic::INX, len: 1, cycles: 2, mode: AddressingMode::NoneAddressing }),

        _ => None,
    }
}

/// Looks `code` up in the opcode table. The result is exactly what the
/// table holds; for every recognized code the descriptor carries the code
/// itself, an encoded length between 1 and 3, and a resolvable addressing
/// mode wherever the mnemonic reads an operand through the resolver.
pub fn lookup(code: u8) -> (r: Option<Opcode>)
    ensures
        r == spec_lookup(code),
        r matches Some(op) ==> {
            &&& op.code == code
            &&& 1 <= op.len <= 3
            &&& takes_operand(op.assembly) ==> op.mode != AddressingMode::NoneAddressing
        },
{
    match code {
        0x00 => Some(Opcode::new(code, Mnemonic::BRK, 1, 7, AddressingMode::NoneAddressing)),

        0x69 => Some(Opcode::new(code, Mnemonic::ADC, 2, 2, AddressingMode::Immediate)),
        0x65 => Some(Opcode::new(code, Mnemonic::ADC, 2, 3, AddressingMode::ZeroPage)),
        0x75 => Some(Opcode::new(code, Mnemonic::ADC, 2, 4, AddressingMode::ZeroPage_X)),
        0x6D => Some(Opcode::new(code, Mnemonic::ADC, 3, 4, AddressingMode::Absolute)),
        0x7D => Some(Opcode::new(code, Mnemonic::ADC, 3, 4, AddressingMode::Absolute_X)),
        0x79 => Some(Opcode::new(code, Mnemonic::ADC, 3, 4, AddressingMode::Absolute_Y)),
        0x61 => Some(Opcode::new(code, Mnemonic::ADC, 2, 6, AddressingMode::Indirect_X)),
        0x71 => Some(Opcode::new(code, Mnemonic::ADC, 2, 5, AddressingMode::Indirect_Y)),

        0x29 => Some(Opcode::new(code, Mnemonic::AND, 2, 2, AddressingMode::Immediate)),
        0x25 => Some(Opcode::new(code, Mnemonic::AND, 2, 3, AddressingMode::ZeroPage)),
        0x35 => Some(Opcode::new(code, Mnemonic::AND, 2, 4, AddressingMode::ZeroPage_X)),
        0x2D => Some(Opcode::new(code, Mnemonic::AND, 3, 4, AddressingMode::Absolute)),
        0x3D => Some(Opcode::new(code, Mnemonic::AND, 3, 4, AddressingMode::Absolute_X)),
        0x39 => Some(Opcode::new(code, Mnemonic::AND, 3, 4, AddressingMode::Absolute_Y)),
        0x21 => Some(Opcode::new(code, Mnemonic::AND, 2, 6, AddressingMode::Indirect_X)),
        0x31 => Some(Opcode::new(code, Mnemonic::AND, 2, 5, AddressingMode::Indirect_Y)),

        0x0A => Some(Opcode::new(code, Mnemonic::ASL, 1, 2, AddressingMode::NoneAddressing)),
        0x06 => Some(Opcode::new(code, Mnemonic::ASL, 2, 5, AddressingMode::ZeroPage)),
        0x16 => Some(Opcode::new(code, Mnemonic::ASL, 2, 6, AddressingMode::ZeroPage_X)),
        0x0E => Some(Opcode::new(code, Mnemonic::ASL, 3, 6, AddressingMode::Absolute)),
        0x1E => Some(Opcode::new(code, Mnemonic::ASL, 3, 7, AddressingMode::Absolute_X)),

        0x90 => Some(Opcode::new(code, Mnemonic::BCC, 2, 2, AddressingMode::NoneAddressing)),
        0xB0 => Some(Opcode::new(code, Mnemonic::BCS, 2, 2, AddressingMode::NoneAddressing)),
        0xF0 => Some(Opcode::new(code, Mnemonic::BEQ, 2, 2, AddressingMode::NoneAddressing)),
        0x30 => Some(Opcode::new(code, Mnemonic::BMI, 2, 2, AddressingMode::NoneAddressing)),
        0xD0 => Some(Opcode::new(code, Mnemonic::BNE, 2, 2, AddressingMode::NoneAddressing)),
        0x10 => Some(Opcode::new(code, Mnemonic::BPL, 2, 2, AddressingMode::NoneAddressing)),
        0x50 => Some(Opcode::new(code, Mnemonic::BVC, 2, 2, AddressingMode::NoneAddressing)),
        0x70 => Some(Opcode::new(code, Mnemonic::BVS, 2, 2, AddressingMode::NoneAddressing)),

        0x24 => Some(Opcode::new(code, Mnemonic::BIT, 2, 3, AddressingMode::ZeroPage)),
        0x2C => Some(Opcode::new(code, Mnemonic::BIT, 3, 4, AddressingMode::Absolute)),

        0x18 => Some(Opcode::new(code, Mnemonic::CLC, 1, 2, AddressingMode::NoneAddressing)),
        0xD8 => Some(Opcode::new(code, Mnemonic::CLD, 1, 2, AddressingMode::NoneAddressing)),
        0x58 => Some(Opcode::new(code, Mnemonic::CLI, 1, 2, AddressingMode::NoneAddressing)),
        0xB8 => Some(Opcode::new(code, Mnemonic::CLV, 1, 2, AddressingMode::NoneAddressing)),

        0xA9 => Some(Opcode::new(code, Mnemonic::LDA, 2, 2, AddressingMode::Immediate)),
        0xA5 => Some(Opcode::new(code, Mnemonic::LDA, 2, 3, AddressingMode::ZeroPage)),
        0xB5 => Some(Opcode::new(code, Mnemonic::LDA, 2, 4, AddressingMode::ZeroPage_X)),
        0xAD => Some(Opcode::new(code, Mnemonic::LDA, 3, 4, AddressingMode::Absolute)),
        0xBD => Some(Opcode::new(code, Mnemonic::LDA, 3, 4, AddressingMode::Absolute_X)),
        0xB9 => Some(Opcode::new(code, Mnemonic::LDA, 3, 4, AddressingMode::Absolute_Y)),
        0xA1 => Some(Opcode::new(code, Mnemonic::LDA, 2, 6, AddressingMode::Indirect_X)),
        0xB1 => Some(Opcode::new(code, Mnemonic::LDA, 2, 5, AddressingMode::Indirect_Y)),

        0x85 => Some(Opcode::new(code, Mnemonic::STA, 2, 3, AddressingMode::ZeroPage)),
        0x95 => Some(Opcode::new(code, Mnemonic::STA, 2, 4, AddressingMode::ZeroPage_X)),
        0x8D => Some(Opcode::new(code, Mnemonic::STA, 3, 4, AddressingMode::Absolute)),
        0x9D => Some(Opcode::new(code, Mnemonic::STA, 3, 5, AddressingMode::Absolute_X)),
        0x99 => Some(Opcode::new(code, Mnemonic::STA, 3, 5, AddressingMode::Absolute_Y)),
        0x81 => Some(Opcode::new(code, Mnemonic::STA, 2, 6, AddressingMode::Indirect_X)),
        0x91 => Some(Opcode::new(code, Mnemonic::STA, 2, 6, AddressingMode::Indirect_Y)),

        0xAA => Some(Opcode::new(code, Mnemonic::TAX, 1, 2, AddressingMode::NoneAddressing)),
        0xE8 => Some(Opcode::new(code, Mnemonic::INX, 1, 2, AddressingMode::NoneAddressing)),

        _ => None,
    }
}

} // verus!
