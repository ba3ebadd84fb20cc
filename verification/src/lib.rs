//! A verified model of the CPU core of an 8-bit handheld game console.
//!
//! The core fetches opcode bytes from a flat 64 KiB memory bus, decodes them
//! through two opcode tables (a base set and a 0xCB-prefixed extended set),
//! and executes them by mutating a small register file and the bus.  Loading
//! a ROM image from disk and driving the run loop belong to the host program,
//! which hands the core plain byte vectors.

use vstd::prelude::*;

pub mod cartridge;
pub mod cpu;
pub mod flags;
pub mod instruction;
pub mod mmu;
pub mod registers;

use crate::cartridge::Cartridge;
use crate::cpu::Cpu;
use crate::cpu::StepOutcome;
use crate::cpu::spec_run;
use crate::cpu::spec_unknown_count;
use crate::mmu::MEMORY_SIZE;
use crate::mmu::Mmu;

verus! {

/// Why a ROM image could not be loaded.
#[derive(Debug, Clone, Copy, PartialEq, Eq, Structural)]
pub enum LoadError {
    /// The image holds more bytes than the 64 KiB address space.
    RomTooLarge,
}

/// The emulator: the processor, the loaded cartridge and the memory bus.
pub struct Emulator {
    pub cpu: Cpu,
    pub cartridge: Cartridge,
    pub mmu: Mmu,
}

impl Emulator {
    /// The bus always spans the whole address space.
    pub open spec fn wf(&self) -> bool {
        self.mmu.wf()
    }

    /// A freshly powered-on emulator: processor at its reset state, empty
    /// cartridge, every byte of the bus zero.
    pub fn new() -> (emulator: Emulator)
        ensures
            emulator.wf(),
            emulator.cpu.registers == crate::registers::spec_initial_registers(),
            emulator.cpu.pc == 0x100u16,
            emulator.cpu.sp == 0xFFFEu16,
            emulator.cpu.ime == false,
            emulator.cartridge.rom@ == Seq::<u8>::empty(),
            forall|address: int| 0 <= address < MEMORY_SIZE ==> emulator.mmu@[address] == 0u8,
    {
        Emulator { cpu: Cpu::new(), cartridge: Cartridge::new(), mmu: Mmu::new() }
    }

    /// Stores a ROM image in the cartridge and copies it to the bottom of
    /// the bus.  An image larger than the 64 KiB address space is rejected
    /// unchanged; anything smaller is accepted.
    pub fn load_rom(&mut self, rom: Vec<u8>) -> (result: Result<(), LoadError>)
        requires
            old(self).wf(),
        ensures
            final(self).wf(),
            result is Ok <==> rom@.len() <= MEMORY_SIZE,
            result is Err ==> result == Result::<(), LoadError>::Err(LoadError::RomTooLarge)
                && *final(self) == *old(self),
            result is Ok ==> final(self).cartridge.rom@ == rom@ && final(self).cpu == old(
                self,
            ).cpu && (forall|address: int|
                0 <= address < rom@.len() ==> final(self).mmu@[address] == rom@[address]) && (
            forall|address: int|
                rom@.len() <= address < MEMORY_SIZE ==> final(self).mmu@[address] == old(
                    self,
                ).mmu@[address]),
    {
        if rom.len() > MEMORY_SIZE {
            return Err(LoadError::RomTooLarge);
        }
        self.cartridge.rom = rom;
        self.mmu.load_cartridge(&self.cartridge);
        Ok(())
    }

    /// Runs the engine for the given number of steps and returns how many of
    /// them fetched an opcode with no table entry.  The step budget is the
    /// host's termination policy: the core itself has no reliable stopping
    /// condition, since programs may jump anywhere in the address space.
    pub fn run(&mut self, max_steps: u64) -> (unknown_steps: u64)
        requires
            old(self).wf(),
        ensures
            final(self).wf(),
            final(self).cpu == spec_run(old(self).cpu, old(self).mmu@, max_steps as nat).0,
            final(self).mmu@ == spec_run(old(self).cpu, old(self).mmu@, max_steps as nat).1,
            final(self).cartridge == old(self).cartridge,
            unknown_steps == spec_unknown_count(old(self).cpu, old(self).mmu@, max_steps as nat),
    {
        let mut steps_taken: u64 = 0;
        let mut unknown_steps: u64 = 0;
        while steps_taken < max_steps
            invariant
                self.mmu.wf(),
                self.cartridge == old(self).cartridge,
                steps_taken <= max_steps,
                unknown_steps <= steps_taken,
                spec_run(self.cpu, self.mmu@, (max_steps - steps_taken) as nat) == spec_run(
                    old(self).cpu,
                    old(self).mmu@,
                    max_steps as nat,
                ),
                unknown_steps + spec_unknown_count(
                    self.cpu,
                    self.mmu@,
                    (max_steps - steps_taken) as nat,
                ) == spec_unknown_count(old(self).cpu, old(self).mmu@, max_steps as nat),
            decreases max_steps - steps_taken,
        {
            let outcome = self.cpu.step(&mut self.mmu);
            match outcome {
                StepOutcome::UnknownOpcode(_) => {
                    unknown_steps += 1;
                },
                StepOutcome::Executed => {},
            }
            steps_taken += 1;
        }
        unknown_steps
    }
}

} // verus!
