//! The AxROM board.

use nes_emulator::cartridge::{CartridgeMemory, CartridgeMetadata, Mirroring, Rom};
use nes_emulator::mapper::axrom::Axrom;
use nes_emulator::mapper::Mapper;

fn rom(prg_banks: usize) -> Rom {
    // Fill each 32 KB bank with its own index so reads are identifiable.
    let mut prg_rom = Vec::new();
    for b in 0..prg_banks {
        prg_rom.extend(std::iter::repeat(b as u8).take(0x8000));
    }
    Rom {
        prg_rom,
        chr_rom: vec![],
        mapper: 7,
        metadata: CartridgeMetadata::test_defaults(),
        memory: CartridgeMemory::test_defaults(prg_banks * 0x8000, 0),
        screen_mirroring: Mirroring::Horizontal, // ignored by AxROM
    }
}

#[test]
fn switches_prg_bank() {
    let mut m = Axrom::from_rom(rom(4));
    assert_eq!(m.cpu_read(0x8000), 0);
    m.cpu_write(0x8000, 2);
    assert_eq!(m.cpu_read(0x8000), 2);
    assert_eq!(m.cpu_read(0xffff), 2);
}

#[test]
fn selects_single_screen_page() {
    let mut m = Axrom::from_rom(rom(2));
    m.cpu_write(0x8000, 0x00);
    assert_eq!(m.mirroring(), Mirroring::SingleScreenLower);
    m.cpu_write(0x8000, 0x10);
    assert_eq!(m.mirroring(), Mirroring::SingleScreenUpper);
}
