use gb_core::cartridge::Cartridge;
use gb_core::mmu::Mmu;
use gb_core::registers::Registers;
use gb_core::{Emulator, LoadError};

#[test]
fn register_pairs_compose_and_split() {
    let mut regs = Registers::new();
    regs.set_bc(0x1234);
    assert_eq!(regs.b, 0x12);
    assert_eq!(regs.c, 0x34);
    assert_eq!(regs.get_bc(), 0x1234);

    regs.set_de(0xABCD);
    assert_eq!(regs.d, 0xAB);
    assert_eq!(regs.e, 0xCD);
    assert_eq!(regs.get_de(), 0xABCD);

    regs.set_hl(0x00FF);
    assert_eq!(regs.h, 0x00);
    assert_eq!(regs.l, 0xFF);
    assert_eq!(regs.get_hl(), 0x00FF);

    // Writing one pair leaves the other registers alone.
    assert_eq!(regs.get_bc(), 0x1234);
    assert_eq!(regs.a, 0);
}

#[test]
fn mmu_reads_back_what_was_written() {
    let mut mmu = Mmu::new();
    assert_eq!(mmu.read_byte(0x0000), 0);
    assert_eq!(mmu.read_byte(0xFFFF), 0);
    mmu.set_byte(0x8000, 0xAB);
    assert_eq!(mmu.read_byte(0x8000), 0xAB);
    assert_eq!(mmu.read_byte(0x8001), 0);
}

#[test]
fn mmu_loads_a_cartridge_at_the_bottom() {
    let mut mmu = Mmu::new();
    mmu.set_byte(0x0002, 0x77);
    mmu.set_byte(0x0100, 0x88);
    let mut cartridge = Cartridge::new();
    cartridge.rom = vec![0xDE, 0xAD];
    mmu.load_cartridge(&cartridge);
    assert_eq!(mmu.read_byte(0x0000), 0xDE);
    assert_eq!(mmu.read_byte(0x0001), 0xAD);
    assert_eq!(mmu.read_byte(0x0002), 0x77); // past the image: untouched
    assert_eq!(mmu.read_byte(0x0100), 0x88);
}

#[test]
fn emulator_starts_at_the_reset_state() {
    let emulator = Emulator::new();
    assert_eq!(emulator.cpu.pc, 0x100);
    assert_eq!(emulator.cpu.sp, 0xFFFE);
    assert!(!emulator.cpu.ime);
    assert_eq!(emulator.cpu.registers.a, 0);
    assert!(emulator.cartridge.rom.is_empty());
    assert_eq!(emulator.mmu.read_byte(0x1234), 0);
}

#[test]
fn load_rom_copies_the_image_onto_the_bus() {
    let mut emulator = Emulator::new();
    let result = emulator.load_rom(vec![0x01, 0x02, 0x03]);
    assert_eq!(result, Ok(()));
    assert_eq!(emulator.cartridge.rom, vec![0x01, 0x02, 0x03]);
    assert_eq!(emulator.mmu.read_byte(0x0000), 0x01);
    assert_eq!(emulator.mmu.read_byte(0x0002), 0x03);
    assert_eq!(emulator.mmu.read_byte(0x0003), 0x00);
}

#[test]
fn load_rom_rejects_an_oversized_image() {
    let mut emulator = Emulator::new();
    let result = emulator.load_rom(vec![0u8; 0x10001]);
    assert_eq!(result, Err(LoadError::RomTooLarge));
    assert!(emulator.cartridge.rom.is_empty());

    // Exactly the full address space still fits.
    let result = emulator.load_rom(vec![0x5Au8; 0x10000]);
    assert_eq!(result, Ok(()));
    assert_eq!(emulator.mmu.read_byte(0xFFFF), 0x5A);
}

#[test]
fn run_executes_a_step_budget_and_counts_unknown_opcodes() {
    let mut emulator = Emulator::new();
    // Three 8-bit increments of A, then an unmapped byte: the engine parks
    // on the unknown opcode without modifying anything.
    let mut image = vec![0u8; 0x104];
    image[0x100] = 0x3C;
    image[0x101] = 0x3C;
    image[0x102] = 0x3C;
    image[0x103] = 0xFD;
    emulator.load_rom(image).unwrap();

    let unknown_steps = emulator.run(5);
    assert_eq!(emulator.cpu.registers.a, 3);
    assert_eq!(emulator.cpu.pc, 0x103);
    assert_eq!(unknown_steps, 2); // the fourth and fifth step both stalled
}

#[test]
fn run_with_no_budget_does_nothing() {
    let mut emulator = Emulator::new();
    let unknown_steps = emulator.run(0);
    assert_eq!(unknown_steps, 0);
    assert_eq!(emulator.cpu.pc, 0x100);
}
