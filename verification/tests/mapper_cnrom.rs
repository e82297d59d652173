//! The CNROM board.

use nes_emulator::cartridge::{CartridgeMemory, CartridgeMetadata, Mirroring, Rom};
use nes_emulator::mapper::cnrom::Cnrom;
use nes_emulator::mapper::Mapper;

fn rom(chr_banks: usize) -> Rom {
    // Fill each 8 KB CHR bank with its own index so reads are identifiable.
    let mut chr_rom = Vec::new();
    for b in 0..chr_banks {
        chr_rom.extend(std::iter::repeat(b as u8).take(0x2000));
    }
    Rom {
        prg_rom: vec![0; 0x8000],
        chr_rom,
        mapper: 3,
        metadata: CartridgeMetadata::test_defaults(),
        memory: CartridgeMemory::test_defaults(0x8000, chr_banks * 0x2000),
        screen_mirroring: Mirroring::Horizontal,
    }
}

#[test]
fn switches_chr_bank() {
    let mut m = Cnrom::from_rom(rom(4));
    assert_eq!(m.ppu_read(0x0000), 0);
    m.cpu_write(0x8000, 2);
    assert_eq!(m.ppu_read(0x0000), 2);
    assert_eq!(m.ppu_read(0x1fff), 2);
}

#[test]
fn bank_select_wraps() {
    let mut m = Cnrom::from_rom(rom(4));
    m.cpu_write(0x9abc, 5); // 5 % 4 == 1
    assert_eq!(m.ppu_read(0x0000), 1);
}

#[test]
fn chr_rom_is_read_only() {
    let mut m = Cnrom::from_rom(rom(2));
    m.ppu_write(0x0000, 0xff);
    assert_eq!(m.ppu_read(0x0000), 0);
}
