//! The cartridge: the ROM image as a plain byte sequence.
//!
//! Reading the image from storage is the host's job; the host hands the
//! bytes over and the emulator copies them onto the memory bus.

use vstd::prelude::*;

verus! {

/// A ROM image.  The core neither validates a header nor a checksum.
pub struct Cartridge {
    pub rom: Vec<u8>,
}

impl Cartridge {
    /// An empty cartridge, to be filled with a ROM image.
    pub fn new() -> (cartridge: Cartridge)
        ensures
            cartridge.rom@ == Seq::<u8>::empty(),
    {
        Cartridge { rom: Vec::new() }
    }
}

} // verus!
