//! The instruction set model and the opcode decoder.
//!
//! Instructions form a closed tagged set; each variant carries typed operand
//! selectors.  Two disjoint lookup tables map a full 0-255 opcode byte to an
//! instruction: the base table, and the extended table reached through the
//! 0xCB prefix byte.  Opcodes not yet modeled decode to `None`, which is a
//! distinct outcome from any decoded instruction.

use vstd::prelude::*;

verus! {

/// An operand selector: one of the 8-bit registers, a 16-bit register pair,
/// or the stack pointer.
#[derive(Debug, Clone, Copy, PartialEq, Eq, Structural)]
pub enum Target {
    BC,
    DE,
    HL,
    SP,
    A,
    B,
    C,
    D,
    E,
    H,
    L,
}

/// The condition a conditional jump tests.
#[derive(Debug, Clone, Copy, PartialEq, Eq, Structural)]
pub enum JumpTest {
    NotZero,
    Zero,
    NotCarry,
    Carry,
    Always,
}

/// One decoded instruction, with its typed operands.
#[derive(Debug, Clone, Copy, PartialEq, Eq, Structural)]
pub enum Instruction {
    Nop,
    Inc(Target),
    IncHl,
    Add(Target),
    AddHl,
    Jump(JumpTest),
    JumpHl,
    Halt,
    RotateLeftCircular(Target),
    RotateRightCircular(Target),
    RotateLeft(Target),
    RotateRight(Target),
    DisableInterrupt,
    EnableInterrupts,
    Load(Target),
    LoadIntoMemory,
    LoadN8(Target),
    LoadHC,
    LoadHA,
    Restart(u16),
}

/// Whether the target selects one of the seven 8-bit registers.
pub open spec fn spec_is_reg8(target: Target) -> bool {
    match target {
        Target::A | Target::B | Target::C | Target::D | Target::E | Target::H | Target::L => true,
        _ => false,
    }
}

/// The operand combinations for which the execution engine has a handler.
/// The decoder only ever produces instructions in this set.
pub open spec fn spec_supported(instruction: Instruction) -> bool {
    match instruction {
        Instruction::Nop => true,
        Instruction::Inc(t) => match t {
            Target::BC | Target::DE | Target::HL | Target::SP => true,
            Target::A | Target::B | Target::D | Target::H => true,
            _ => false,
        },
        Instruction::IncHl => true,
        Instruction::Add(t) => spec_is_reg8(t),
        Instruction::AddHl => true,
        Instruction::Jump(_) => true,
        Instruction::JumpHl => true,
        Instruction::Halt => true,
        Instruction::RotateLeftCircular(t) => spec_is_reg8(t),
        Instruction::RotateRightCircular(t) => spec_is_reg8(t),
        Instruction::RotateLeft(t) => spec_is_reg8(t),
        Instruction::RotateRight(t) => spec_is_reg8(t),
        Instruction::DisableInterrupt => true,
        Instruction::EnableInterrupts => true,
        Instruction::Load(t) => t == Target::SP,
        Instruction::LoadIntoMemory => true,
        Instruction::LoadN8(t) => spec_is_reg8(t) || t == Target::HL,
        Instruction::LoadHC => true,
        Instruction::LoadHA => true,
        Instruction::Restart(_) => true,
    }
}

/// The extended opcode table, reached through the 0xCB prefix.
pub open spec fn spec_from_byte_prefixed(byte: u8) -> Option<Instruction> {
    match byte {
        0x00 => Some(Instruction::RotateLeftCircular(Target::B)),
        0x01 => Some(Instruction::RotateLeftCircular(Target::C)),
        0x02 => Some(Instruction::RotateLeftCircular(Target::D)),
        0x03 => Some(Instruction::RotateLeftCircular(Target::E)),
        0x04 => Some(Instruction::RotateLeftCircular(Target::H)),
        0x05 => Some(Instruction::RotateLeftCircular(Target::L)),
        0x07 => Some(Instruction::RotateLeftCircular(Target::A)),
        0x08 => Some(Instruction::RotateRightCircular(Target::B)),
        0x09 => Some(Instruction::RotateRightCircular(Target::C)),
        0x0A => Some(Instruction::RotateRightCircular(Target::D)),
        0x0B => Some(Instruction::RotateRightCircular(Target::E)),
        0x0C => Some(Instruction::RotateRightCircular(Target::H)),
        0x0D => Some(Instruction::RotateRightCircular(Target::L)),
        0x0F => Some(Instruction::RotateRightCircular(Target::A)),
        0x10 => Some(Instruction::RotateLeft(Target::B)),
        0x11 => Some(Instruction::RotateLeft(Target::C)),
        0x12 => Some(Instruction::RotateLeft(Target::D)),
        0x13 => Some(Instruction::RotateLeft(Target::E)),
        0x14 => Some(Instruction::RotateLeft(Target::H)),
        0x15 => Some(Instruction::RotateLeft(Target::L)),
        0x17 => Some(Instruction::RotateLeft(Target::A)),
        0x18 => Some(Instruction::RotateRight(Target::B)),
        0x19 => Some(Instruction::RotateRight(Target::C)),
        0x1A => Some(Instruction::RotateRight(Target::D)),
        0x1B => Some(Instruction::RotateRight(Target::E)),
        0x1C => Some(Instruction::RotateRight(Target::H)),
        0x1D => Some(Instruction::RotateRight(Target::L)),
        0x1F => Some(Instruction::RotateRight(Target::A)),
        _ => None,
    }
}

/// The base opcode table, consulted for unprefixed opcode bytes.
pub open spec fn spec_from_byte_non_prefixed(byte: u8) -> Option<Instruction> {
    match byte {
        0x00 => Some(Instruction::Nop),
        0x03 => Some(Instruction::Inc(Target::BC)),
        0x04 => Some(Instruction::Inc(Target::B)),
        0x06 => Some(Instruction::LoadN8(Target::B)),
        0x07 => Some(Instruction::RotateLeft(Target::A)),
        0x0E => Some(Instruction::LoadN8(Target::C)),
        0x0F => Some(Instruction::RotateRight(Target::A)),
        0x13 => Some(Instruction::Inc(Target::DE)),
        0x14 => Some(Instruction::Inc(Target::D)),
        0x16 => Some(Instruction::LoadN8(Target::D)),
        0x1E => Some(Instruction::LoadN8(Target::E)),
        0x23 => Some(Instruction::Inc(Target::HL)),
        0x24 => Some(Instruction::Inc(Target::H)),
        0x26 => Some(Instruction::LoadN8(Target::H)),
        0x2E => Some(Instruction::LoadN8(Target::L)),
        0x31 => Some(Instruction::Load(Target::SP)),
        0x33 => Some(Instruction::Inc(Target::SP)),
        0x34 => Some(Instruction::IncHl),
        0x36 => Some(Instruction::LoadN8(Target::HL)),
        0x3C => Some(Instruction::Inc(Target::A)),
        0x3E => Some(Instruction::LoadN8(Target::A)),
        0x76 => Some(Instruction::Halt),
        0x80 => Some(Instruction::Add(Target::B)),
        0x81 => Some(Instruction::Add(Target::C)),
        0x82 => Some(Instruction::Add(Target::D)),
        0x83 => Some(Instruction::Add(Target::E)),
        0x84 => Some(Instruction::Add(Target::H)),
        0x85 => Some(Instruction::Add(Target::L)),
        0x86 => Some(Instruction::AddHl),
        0x87 => Some(Instruction::Add(Target::A)),
        0xC2 => Some(Instruction::Jump(JumpTest::NotZero)),
        0xC3 => Some(Instruction::Jump(JumpTest::Always)),
        0xCA => Some(Instruction::Jump(JumpTest::Zero)),
        0xD2 => Some(Instruction::Jump(JumpTest::NotCarry)),
        0xDA => Some(Instruction::Jump(JumpTest::Carry)),
        0xE0 => Some(Instruction::LoadHC),
        0xEA => Some(Instruction::LoadIntoMemory),
        0xE9 => Some(Instruction::JumpHl),
        0xF0 => Some(Instruction::LoadHA),
        0xF3 => Some(Instruction::DisableInterrupt),
        0xFB => Some(Instruction::EnableInterrupts),
        0xFF => Some(Instruction::Restart(0x38)),
        _ => None,
    }
}

/// Which table decodes the byte: the extended table when the byte was fetched
/// after the prefix sentinel, the base table otherwise.
pub open spec fn spec_from_byte(byte: u8, prefixed: bool) -> Option<Instruction> {
    if prefixed {
        spec_from_byte_prefixed(byte)
    } else {
        spec_from_byte_non_prefixed(byte)
    }
}

impl Instruction {
    /// Decodes an opcode byte, consulting the extended table exactly when
    /// `prefixed` is set and the base table otherwise.
    pub fn from_byte(byte: u8, prefixed: bool) -> (instruction: Option<Instruction>)
        ensures
            instruction == spec_from_byte(byte, prefixed),
            prefixed ==> instruction == spec_from_byte_prefixed(byte),
            !prefixed ==> instruction == spec_from_byte_non_prefixed(byte),
            instruction matches Some(i) ==> spec_supported(i),
    {
        if prefixed {
            Self::from_byte_prefixed(byte)
        } else {
            Self::from_byte_non_prefixed(byte)
        }
    }

    /// Looks the byte up in the extended (0xCB-prefixed) opcode table.
    pub fn from_byte_prefixed(byte: u8) -> (instruction: Option<Instruction>)
        ensures
            instruction == spec_from_byte_prefixed(byte),
            instruction matches Some(i) ==> spec_supported(i),
    {
        match byte {
            0x00 => Some(Instruction::RotateLeftCircular(Target::B)),
            0x01 => Some(Instruction::RotateLeftCircular(Target::C)),
            0x02 => Some(Instruction::RotateLeftCircular(Target::D)),
            0x03 => Some(Instruction::RotateLeftCircular(Target::E)),
            0x04 => Some(Instruction::RotateLeftCircular(Target::H)),
            0x05 => Some(Instruction::RotateLeftCircular(Target::L)),
            0x07 => Some(Instruction::RotateLeftCircular(Target::A)),
            0x08 => Some(Instruction::RotateRightCircular(Target::B)),
            0x09 => Some(Instruction::RotateRightCircular(Target::C)),
            0x0A => Some(Instruction::RotateRightCircular(Target::D)),
            0x0B => Some(Instruction::RotateRightCircular(Target::E)),
            0x0C => Some(Instruction::RotateRightCircular(Target::H)),
            0x0D => Some(Instruction::RotateRightCircular(Target::L)),
            0x0F => Some(Instruction::RotateRightCircular(Target::A)),
            0x10 => Some(Instruction::RotateLeft(Target::B)),
            0x11 => Some(Instruction::RotateLeft(Target::C)),
            0x12 => Some(Instruction::RotateLeft(Target::D)),
            0x13 => Some(Instruction::RotateLeft(Target::E)),
            0x14 => Some(Instruction::RotateLeft(Target::H)),
            0x15 => Some(Instruction::RotateLeft(Target::L)),
            0x17 => Some(Instruction::RotateLeft(Target::A)),
            0x18 => Some(Instruction::RotateRight(Target::B)),
            0x19 => Some(Instruction::RotateRight(Target::C)),
            0x1A => Some(Instruction::RotateRight(Target::D)),
            0x1B => Some(Instruction::RotateRight(Target::E)),
            0x1C => Some(Instruction::RotateRight(Target::H)),
            0x1D => Some(Instruction::RotateRight(Target::L)),
            0x1F => Some(Instruction::RotateRight(Target::A)),
            _ => None,
        }
    }

    /// Looks the byte up in the base opcode table.
    pub fn from_byte_non_prefixed(byte: u8) -> (instruction: Option<Instruction>)
        ensures
            instruction == spec_from_byte_non_prefixed(byte),
            instruction matches Some(i) ==> spec_supported(i),
    {
        match byte {
            0x00 => Some(Instruction::Nop),
            0x03 => Some(Instruction::Inc(Target::BC)),
            0x04 => Some(Instruction::Inc(Target::B)),
            0x06 => Some(Instruction::LoadN8(Target::B)),
            0x07 => Some(Instruction::RotateLeft(Target::A)),
            0x0E => Some(Instruction::LoadN8(Target::C)),
            0x0F => Some(Instruction::RotateRight(Target::A)),
            0x13 => Some(Instruction::Inc(Target::DE)),
            0x14 => Some(Instruction::Inc(Target::D)),
            0x16 => Some(Instruction::LoadN8(Target::D)),
            0x1E => Some(Instruction::LoadN8(Target::E)),
            0x23 => Some(Instruction::Inc(Target::HL)),
            0x24 => Some(Instruction::Inc(Target::H)),
            0x26 => Some(Instruction::LoadN8(Target::H)),
            0x2E => Some(Instruction::LoadN8(Target::L)),
            0x31 => Some(Instruction::Load(Target::SP)),
            0x33 => Some(Instruction::Inc(Target::SP)),
            0x34 => Some(Instruction::IncHl),
            0x36 => Some(Instruction::LoadN8(Target::HL)),
            0x3C => Some(Instruction::Inc(Target::A)),
            0x3E => Some(Instruction::LoadN8(Target::A)),
            0x76 => Some(Instruction::Halt),
            0x80 => Some(Instruction::Add(Target::B)),
            0x81 => Some(Instruction::Add(Target::C)),
            0x82 => Some(Instruction::Add(Target::D)),
            0x83 => Some(Instruction::Add(Target::E)),
            0x84 => Some(Instruction::Add(Target::H)),
            0x85 => Some(Instruction::Add(Target::L)),
            0x86 => Some(Instruction::AddHl),
            0x87 => Some(Instruction::Add(Target::A)),
            0xC2 => Some(Instruction::Jump(JumpTest::NotZero)),
            0xC3 => Some(Instruction::Jump(JumpTest::Always)),
            0xCA => Some(Instruction::Jump(JumpTest::Zero)),
            0xD2 => Some(Instruction::Jump(JumpTest::NotCarry)),
            0xDA => Some(Instruction::Jump(JumpTest::Carry)),
            0xE0 => Some(Instruction::LoadHC),
            0xEA => Some(Instruction::LoadIntoMemory),
            0xE9 => Some(Instruction::JumpHl),
            0xF0 => Some(Instruction::LoadHA),
            0xF3 => Some(Instruction::DisableInterrupt),
            0xFB => Some(Instruction::EnableInterrupts),
            0xFF => Some(Instruction::Restart(0x38)),
            _ => None,
        }
    }
}

} // verus!
