//! The memory bus: a flat, fixed-size addressable byte store covering the
//! full 64 KiB address space.  Every address a `u16` can express is always
//! readable and writable; there is no bank switching and no caching.

use vstd::prelude::*;

use crate::cartridge::Cartridge;

verus! {

/// The number of addressable bytes: the full 16-bit address space.
pub const MEMORY_SIZE: usize = 0x10000;

/// The memory bus.  Its view is the sequence of all stored bytes.
pub struct Mmu {
    pub memory: Vec<u8>,
}

impl View for Mmu {
    type V = Seq<u8>;

    open spec fn view(&self) -> Seq<u8> {
        self.memory@
    }
}

impl Mmu {
    /// The store always spans the whole address space, so every `u16`
    /// address is in bounds.
    pub open spec fn wf(&self) -> bool {
        self@.len() == MEMORY_SIZE
    }

    /// A bus with every byte zero.
    pub fn new() -> (mmu: Mmu)
        ensures
            mmu.wf(),
            forall|address: int| 0 <= address < MEMORY_SIZE ==> mmu@[address] == 0u8,
    {
        Mmu { memory: vec![0u8; MEMORY_SIZE] }
    }

    /// Copies the cartridge's ROM image to the bottom of the address space,
    /// overwriting what was there; the rest of the store is untouched.
    /// An image larger than the store cannot be loaded.
    pub fn load_cartridge(&mut self, cartridge: &Cartridge)
        requires
            old(self).wf(),
            cartridge.rom@.len() <= MEMORY_SIZE,
        ensures
            final(self).wf(),
            forall|address: int|
                0 <= address < cartridge.rom@.len() ==> final(self)@[address]
                    == cartridge.rom@[address],
            forall|address: int|
                cartridge.rom@.len() <= address < MEMORY_SIZE ==> final(self)@[address]
                    == old(self)@[address],
    {
        let rom_len = cartridge.rom.len();
        let mut i: usize = 0;
        while i < rom_len
            invariant
                self@.len() == MEMORY_SIZE,
                rom_len == cartridge.rom@.len() <= MEMORY_SIZE,
                i <= rom_len,
                forall|address: int| 0 <= address < i ==> self@[address] == cartridge.rom@[address],
                forall|address: int|
                    i <= address < MEMORY_SIZE ==> self@[address] == old(self)@[address],
            decreases rom_len - i,
        {
            self.memory[i] = cartridge.rom[i];
            i += 1;
        }
    }

    /// Returns the byte at the address.  The store's invariant keeps every
    /// address in bounds, which discharges the bound check statically.
    pub fn read_byte(&self, address: u16) -> (value: u8)
        requires
            self.wf(),
        ensures
            value == self@[address as int],
    {
        self.memory[address as usize]
    }

    /// Stores the byte at the address, leaving every other byte unchanged.
    pub fn set_byte(&mut self, address: u16, value: u8)
        requires
            old(self).wf(),
        ensures
            final(self).wf(),
            final(self)@ == old(self)@.update(address as int, value),
    {
        self.memory[address as usize] = value;
    }
}

} // verus!
