//! The UxROM board.

use nes_emulator::cartridge::{CartridgeMemory, CartridgeMetadata, Mirroring, Rom};
use nes_emulator::mapper::uxrom::Uxrom;
use nes_emulator::mapper::Mapper;

fn rom(prg_banks: usize) -> Rom {
    // Fill each 16 KB bank with its own index so reads are identifiable.
    let mut prg_rom = Vec::new();
    for b in 0..prg_banks {
        prg_rom.extend(std::iter::repeat(b as u8).take(0x4000));
    }
    Rom {
        memory: CartridgeMemory::test_defaults(prg_rom.len(), 0),
        prg_rom,
        chr_rom: vec![],
        mapper: 2,
        metadata: CartridgeMetadata::test_defaults(),
        screen_mirroring: Mirroring::Vertical,
    }
}

#[test]
fn selects_low_bank_and_fixes_last() {
    let mut m = Uxrom::from_rom(rom(4));
    // Default low bank is 0, last bank is 3.
    assert_eq!(m.cpu_read(0x8000), 0);
    assert_eq!(m.cpu_read(0xc000), 3);
    // Switch the low window to bank 2; the fixed window is unchanged.
    m.cpu_write(0x8000, 2);
    assert_eq!(m.cpu_read(0x8000), 2);
    assert_eq!(m.cpu_read(0xc000), 3);
}

#[test]
fn bank_select_wraps_to_rom_size() {
    let mut m = Uxrom::from_rom(rom(4));
    m.cpu_write(0xffff, 6); // 6 % 4 == 2
    assert_eq!(m.cpu_read(0x8000), 2);
}

#[test]
fn chr_ram_is_writable() {
    let mut m = Uxrom::from_rom(rom(2));
    m.ppu_write(0x0010, 0xab);
    assert_eq!(m.ppu_read(0x0010), 0xab);
}

#[test]
fn reset_restores_initial_bank_without_clearing_ram() {
    let mut m = Uxrom::from_rom(rom(4));
    m.cpu_write(0x6000, 0x5a);
    m.cpu_write(0x8000, 2);
    m.reset();
    assert_eq!(m.cpu_read(0x8000), 0);
    assert_eq!(m.cpu_read(0x6000), 0x5a);
}
