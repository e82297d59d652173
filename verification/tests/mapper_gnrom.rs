//! The GxROM board.

use nes_emulator::cartridge::{CartridgeMemory, CartridgeMetadata, Mirroring, Rom};
use nes_emulator::mapper::gnrom::Gnrom;
use nes_emulator::mapper::Mapper;

fn rom(prg_banks: usize, chr_banks: usize) -> Rom {
    let mut prg_rom = Vec::new();
    for b in 0..prg_banks {
        prg_rom.extend(std::iter::repeat(b as u8).take(0x8000));
    }
    let mut chr_rom = Vec::new();
    for b in 0..chr_banks {
        chr_rom.extend(std::iter::repeat(0x80 | b as u8).take(0x2000));
    }
    Rom {
        prg_rom,
        chr_rom,
        mapper: 66,
        metadata: CartridgeMetadata::test_defaults(),
        memory: CartridgeMemory::test_defaults(prg_banks * 0x8000, chr_banks * 0x2000),
        screen_mirroring: Mirroring::Vertical,
    }
}

#[test]
fn one_register_switches_both_banks() {
    let mut m = Gnrom::from_rom(rom(4, 4));
    assert_eq!(m.cpu_read(0x8000), 0);
    assert_eq!(m.ppu_read(0x0000), 0x80);
    // PRG bank = bits 4-5 (=2), CHR bank = bits 0-1 (=3).
    m.cpu_write(0x8000, (2 << 4) | 3);
    assert_eq!(m.cpu_read(0x8000), 2);
    assert_eq!(m.ppu_read(0x0000), 0x83);
}
