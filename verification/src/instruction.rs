//! Decoded instructions and the opcode decoder for the arithmetic family.
//!
//! Decode is a pure, stateless lookup in the processor's fixed opcode table:
//! each defined byte maps to exactly one operation and operand descriptor,
//! and every byte outside the table decodes to `None` rather than guessing.

use vstd::prelude::*;

verus! {

/// Where an arithmetic instruction's right-hand operand comes from: a named
/// 8-bit register, the byte at the address held in the `hl` pair, or an
/// immediate byte following the opcode in the instruction stream.
#[derive(Clone, Copy, Debug, PartialEq, Eq)]
pub enum ArithmeticTarget {
    A,
    B,
    C,
    D,
    E,
    H,
    L,
    HL,
    D8,
}

/// A decoded instruction: the operation together with its operand descriptor.
#[derive(Clone, Copy, Debug, PartialEq, Eq)]
pub enum Instruction {
    ADD(ArithmeticTarget),
    ADDC(ArithmeticTarget),
    SUB(ArithmeticTarget),
    SBC(ArithmeticTarget),
}

/// The register operand selected by the low three bits of an arithmetic
/// opcode, in the processor's fixed order `B C D E H L (HL) A`.
pub open spec fn register_target(index: u8) -> ArithmeticTarget {
    if index == 0 {
        ArithmeticTarget::B
    } else if index == 1 {
        ArithmeticTarget::C
    } else if index == 2 {
        ArithmeticTarget::D
    } else if index == 3 {
        ArithmeticTarget::E
    } else if index == 4 {
        ArithmeticTarget::H
    } else if index == 5 {
        ArithmeticTarget::L
    } else if index == 6 {
        ArithmeticTarget::HL
    } else {
        ArithmeticTarget::A
    }
}

/// The opcode table of the arithmetic family: `0x80..=0x87` add, `0x88..=0x8F`
/// add-with-carry, `0x90..=0x97` subtract, `0x98..=0x9F` subtract-with-carry,
/// each over the fixed register order, and `0xC6`, `0xCE`, `0xD6`, `0xDE` the
/// immediate forms. Every other byte has no entry.
pub open spec fn spec_decode(opcode: u8) -> Option<Instruction> {
    if 0x80 <= opcode && opcode <= 0x87 {
        Some(Instruction::ADD(register_target((opcode - 0x80) as u8)))
    } else if 0x88 <= opcode && opcode <= 0x8F {
        Some(Instruction::ADDC(register_target((opcode - 0x88) as u8)))
    } else if 0x90 <= opcode && opcode <= 0x97 {
        Some(Instruction::SUB(register_target((opcode - 0x90) as u8)))
    } else if 0x98 <= opcode && opcode <= 0x9F {
        Some(Instruction::SBC(register_target((opcode - 0x98) as u8)))
    } else if opcode == 0xC6 {
        Some(Instruction::ADD(ArithmeticTarget::D8))
    } else if opcode == 0xCE {
        Some(Instruction::ADDC(ArithmeticTarget::D8))
    } else if opcode == 0xD6 {
        Some(Instruction::SUB(ArithmeticTarget::D8))
    } else if opcode == 0xDE {
        Some(Instruction::SBC(ArithmeticTarget::D8))
    } else {
        None
    }
}

impl Instruction {
    /// Decode one opcode byte. Total over all 256 bytes: every byte either
    /// maps to exactly one instruction of the table or to `None`.
    pub fn from_byte(opcode: u8) -> (r: Option<Instruction>)
        ensures
            r == spec_decode(opcode),
    {
        match opcode {
            0x80 => Some(Instruction::ADD(ArithmeticTarget::B)),
            0x81 => Some(Instruction::ADD(ArithmeticTarget::C)),
            0x82 => Some(Instruction::ADD(ArithmeticTarget::D)),
            0x83 => Some(Instruction::ADD(ArithmeticTarget::E)),
            0x84 => Some(Instruction::ADD(ArithmeticTarget::H)),
            0x85 => Some(Instruction::ADD(ArithmeticTarget::L)),
            0x86 => Some(Instruction::ADD(ArithmeticTarget::HL)),
            0x87 => Some(Instruction::ADD(ArithmeticTarget::A)),
            0x88 => Some(Instruction::ADDC(ArithmeticTarget::B)),
            0x89 => Some(Instruction::ADDC(ArithmeticTarget::C)),
            0x8A => Some(Instruction::ADDC(ArithmeticTarget::D)),
            0x8B => Some(Instruction::ADDC(ArithmeticTarget::E)),
            0x8C => Some(Instruction::ADDC(ArithmeticTarget::H)),
            0x8D => Some(Instruction::ADDC(ArithmeticTarget::L)),
            0x8E => Some(Instruction::ADDC(ArithmeticTarget::HL)),
            0x8F => Some(Instruction::ADDC(ArithmeticTarget::A)),
            0x90 => Some(Instruction::SUB(ArithmeticTarget::B)),
            0x91 => Some(Instruction::SUB(ArithmeticTarget::C)),
            0x92 => Some(Instruction::SUB(ArithmeticTarget::D)),
            0x93 => Some(Instruction::SUB(ArithmeticTarget::E)),
            0x94 => Some(Instruction::SUB(ArithmeticTarget::H)),
            0x95 => Some(Instruction::SUB(ArithmeticTarget::L)),
            0x96 => Some(Instruction::SUB(ArithmeticTarget::HL)),
            0x97 => Some(Instruction::SUB(ArithmeticTarget::A)),
            0x98 => Some(Instruction::SBC(ArithmeticTarget::B)),
            0x99 => Some(Instruction::SBC(ArithmeticTarget::C)),
            0x9A => Some(Instruction::SBC(ArithmeticTarget::D)),
            0x9B => Some(Instruction::SBC(ArithmeticTarget::E)),
            0x9C => Some(Instruction::SBC(ArithmeticTarget::H)),
            0x9D => Some(Instruction::SBC(ArithmeticTarget::L)),
            0x9E => Some(Instruction::SBC(ArithmeticTarget::HL)),
            0x9F => Some(Instruction::SBC(ArithmeticTarget::A)),
            0xC6 => Some(Instruction::ADD(ArithmeticTarget::D8)),
            0xCE => Some(Instruction::ADDC(ArithmeticTarget::D8)),
            0xD6 => Some(Instruction::SUB(ArithmeticTarget::D8)),
            0xDE => Some(Instruction::SBC(ArithmeticTarget::D8)),
            _ => None,
        }
    }
}

} // verus!
