//! The register file: seven 8-bit registers, the flags register, and the
//! three 16-bit pair views (BC, DE, HL) composed from two 8-bit halves.

use vstd::prelude::*;

use crate::flags::FlagsRegister;
use crate::instruction::Target;
use crate::instruction::spec_is_reg8;

verus! {

/// The processor's named registers.  The program counter and stack pointer
/// live on the processor itself, not here.
#[derive(Debug, Clone, Copy, PartialEq, Eq, Structural)]
pub struct Registers {
    pub a: u8,
    pub b: u8,
    pub c: u8,
    pub d: u8,
    pub e: u8,
    pub f: FlagsRegister,
    pub h: u8,
    pub l: u8,
}

/// The 16-bit value composed from a high and a low byte.
pub open spec fn spec_pair(high: u8, low: u8) -> u16 {
    ((high as u16) << 8) | (low as u16)
}

/// The high byte (bits 15 to 8) of a 16-bit value.
pub open spec fn spec_high_byte(value: u16) -> u8 {
    ((value & 0xFF00) >> 8) as u8
}

/// The low byte (bits 7 to 0) of a 16-bit value.
pub open spec fn spec_low_byte(value: u16) -> u8 {
    (value & 0xFF) as u8
}

/// The value of the selected 8-bit register.  Only meaningful when the
/// target selects one of the seven 8-bit registers.
pub open spec fn spec_get8(regs: Registers, target: Target) -> u8 {
    match target {
        Target::A => regs.a,
        Target::B => regs.b,
        Target::C => regs.c,
        Target::D => regs.d,
        Target::E => regs.e,
        Target::H => regs.h,
        Target::L => regs.l,
        _ => 0,
    }
}

/// The register file with the selected 8-bit register replaced.  Only
/// meaningful when the target selects one of the seven 8-bit registers.
pub open spec fn spec_set8(regs: Registers, target: Target, value: u8) -> Registers {
    match target {
        Target::A => Registers { a: value, ..regs },
        Target::B => Registers { b: value, ..regs },
        Target::C => Registers { c: value, ..regs },
        Target::D => Registers { d: value, ..regs },
        Target::E => Registers { e: value, ..regs },
        Target::H => Registers { h: value, ..regs },
        Target::L => Registers { l: value, ..regs },
        _ => regs,
    }
}

/// The register file after storing a 16-bit value into the BC pair.
pub open spec fn spec_set_bc(regs: Registers, value: u16) -> Registers {
    Registers { b: spec_high_byte(value), c: spec_low_byte(value), ..regs }
}

/// The register file after storing a 16-bit value into the DE pair.
pub open spec fn spec_set_de(regs: Registers, value: u16) -> Registers {
    Registers { d: spec_high_byte(value), e: spec_low_byte(value), ..regs }
}

/// The register file after storing a 16-bit value into the HL pair.
pub open spec fn spec_set_hl(regs: Registers, value: u16) -> Registers {
    Registers { h: spec_high_byte(value), l: spec_low_byte(value), ..regs }
}

/// The register file at power-on: all registers zero, all flags clear.
pub open spec fn spec_initial_registers() -> Registers {
    Registers {
        a: 0u8,
        b: 0u8,
        c: 0u8,
        d: 0u8,
        e: 0u8,
        f: FlagsRegister { zero: false, subtract: false, half_carry: false, carry: false },
        h: 0u8,
        l: 0u8,
    }
}

impl Registers {
    /// All registers zero, all flags clear.
    pub fn new() -> (regs: Self)
        ensures
            regs == spec_initial_registers(),
    {
        Registers {
            a: 0,
            b: 0,
            c: 0,
            d: 0,
            e: 0,
            f: FlagsRegister::default(),
            h: 0,
            l: 0,
        }
    }

    /// Reads the BC pair: B is the high byte, C the low byte.
    pub fn get_bc(&self) -> (value: u16)
        ensures
            value == spec_pair(self.b, self.c),
    {
        ((self.b as u16) << 8) | (self.c as u16)
    }

    /// Writes the BC pair: B takes bits 15 to 8, C takes bits 7 to 0.
    pub fn set_bc(&mut self, value: u16)
        ensures
            *final(self) == spec_set_bc(*old(self), value),
    {
        self.b = ((value & 0xFF00) >> 8) as u8;
        self.c = (value & 0xFF) as u8;
    }

    /// Reads the DE pair: D is the high byte, E the low byte.
    pub fn get_de(&self) -> (value: u16)
        ensures
            value == spec_pair(self.d, self.e),
    {
        ((self.d as u16) << 8) | (self.e as u16)
    }

    /// Writes the DE pair: D takes bits 15 to 8, E takes bits 7 to 0.
    pub fn set_de(&mut self, value: u16)
        ensures
            *final(self) == spec_set_de(*old(self), value),
    {
        self.d = ((value & 0xFF00) >> 8) as u8;
        self.e = (value & 0xFF) as u8;
    }

    /// Reads the HL pair: H is the high byte, L the low byte.
    pub fn get_hl(&self) -> (value: u16)
        ensures
            value == spec_pair(self.h, self.l),
    {
        ((self.h as u16) << 8) | (self.l as u16)
    }

    /// Writes the HL pair: H takes bits 15 to 8, L takes bits 7 to 0.
    pub fn set_hl(&mut self, value: u16)
        ensures
            *final(self) == spec_set_hl(*old(self), value),
    {
        self.h = ((value & 0xFF00) >> 8) as u8;
        self.l = (value & 0xFF) as u8;
    }

    /// Reads the selected 8-bit register.
    pub fn get8(&self, target: Target) -> (value: u8)
        requires
            spec_is_reg8(target),
        ensures
            value == spec_get8(*self, target),
    {
        match target {
            Target::A => self.a,
            Target::B => self.b,
            Target::C => self.c,
            Target::D => self.d,
            Target::E => self.e,
            Target::H => self.h,
            Target::L => self.l,
            _ => 0,
        }
    }

    /// Writes the selected 8-bit register, leaving every other register and
    /// the flags untouched.
    pub fn set8(&mut self, target: Target, value: u8)
        requires
            spec_is_reg8(target),
        ensures
            *final(self) == spec_set8(*old(self), target, value),
    {
        match target {
            Target::A => self.a = value,
            Target::B => self.b = value,
            Target::C => self.c = value,
            Target::D => self.d = value,
            Target::E => self.e = value,
            Target::H => self.h = value,
            Target::L => self.l = value,
            _ => (),
        }
    }
}

/// Writing a 16-bit value through a pair and reading the pair back returns
/// the same value: the two 8-bit halves compose losslessly.
pub proof fn lemma_pair_round_trip(value: u16)
    ensures
        spec_pair(spec_high_byte(value), spec_low_byte(value)) == value,
{
    assert(((((value & 0xFF00) >> 8) as u8 as u16) << 8) | ((value & 0xFF) as u8 as u16)
        == value) by (bit_vector);
}

/// Reading the halves of a composed pair returns the bytes it was composed
/// from: the high byte is the first half, the low byte the second.
pub proof fn lemma_pair_split(high: u8, low: u8)
    ensures
        spec_high_byte(spec_pair(high, low)) == high,
        spec_low_byte(spec_pair(high, low)) == low,
{
    assert((((((high as u16) << 8) | (low as u16)) & 0xFF00) >> 8) as u8 == high
        && ((((high as u16) << 8) | (low as u16)) & 0xFF) as u8 == low) by (bit_vector);
}

} // verus!
