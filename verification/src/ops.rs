//! The instruction table: opcode bytes and what each one stands for.

use vstd::prelude::*;

verus! {

/// Jump to subroutine, absolute address.
pub const OP_JSR: u8 = 0x20;

/// Load accumulator, immediate operand.
pub const OP_LDA_IM: u8 = 0xA9;

/// Load accumulator from a zero-page address.
pub const OP_LDA_ZP: u8 = 0xA5;

/// Load accumulator from a zero-page address indexed by X.
pub const OP_LDA_ZPX: u8 = 0xB5;

/// No operation.
pub const OP_NOP: u8 = 0xEA;

/// An operation together with its addressing mode.
#[derive(Clone, Copy, Debug, PartialEq, Eq, Structural, Hash)]
pub enum Instruction {
    /// Jump to subroutine; the target is the absolute address that follows.
    Jsr,
    /// Load the accumulator with the byte that follows.
    LdaImmediate,
    /// Load the accumulator from the zero-page address that follows.
    LdaZeroPage,
    /// Load the accumulator from the zero-page address that follows, plus X.
    LdaZeroPageX,
    /// Do nothing.
    Nop,
}

impl Instruction {
    /// The instruction that an opcode byte stands for; `None` for a byte
    /// that the table does not map.
    pub open spec fn of(opcode: u8) -> Option<Instruction> {
        if opcode == OP_JSR {
            Some(Instruction::Jsr)
        } else if opcode == OP_LDA_IM {
            Some(Instruction::LdaImmediate)
        } else if opcode == OP_LDA_ZP {
            Some(Instruction::LdaZeroPage)
        } else if opcode == OP_LDA_ZPX {
            Some(Instruction::LdaZeroPageX)
        } else if opcode == OP_NOP {
            Some(Instruction::Nop)
        } else {
            None
        }
    }

    /// The bytes that the instruction occupies, its opcode included.
    pub open spec fn length(self) -> int {
        match self {
            Instruction::Jsr => 3,
            Instruction::LdaImmediate => 2,
            Instruction::LdaZeroPage => 2,
            Instruction::LdaZeroPageX => 2,
            Instruction::Nop => 1,
        }
    }

    /// The clock cycles that the instruction takes, its opcode fetch included.
    pub open spec fn cost(self) -> int {
        match self {
            Instruction::Jsr => 6,
            Instruction::LdaImmediate => 2,
            Instruction::LdaZeroPage => 3,
            Instruction::LdaZeroPageX => 4,
            Instruction::Nop => 2,
        }
    }

    /// Looks an opcode byte up in the instruction table.
    pub fn decode(opcode: u8) -> (r: Option<Instruction>)
        ensures
            r == Instruction::of(opcode),
    {
        match opcode {
            OP_JSR => Some(Instruction::Jsr),
            OP_LDA_IM => Some(Instruction::LdaImmediate),
            OP_LDA_ZP => Some(Instruction::LdaZeroPage),
            OP_LDA_ZPX => Some(Instruction::LdaZeroPageX),
            OP_NOP => Some(Instruction::Nop),
            _ => None,
        }
    }
}

} // verus!
