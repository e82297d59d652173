//! The MMC2 board.

use nes_emulator::cartridge::{CartridgeMemory, CartridgeMetadata, Mirroring, Rom};
use nes_emulator::mapper::mmc2::Mmc2;
use nes_emulator::mapper::Mapper;

fn rom() -> Rom {
    let mut prg_rom = Vec::new();
    for bank in 0..16 {
        prg_rom.extend(std::iter::repeat(bank).take(0x2000));
    }
    let mut chr_rom = Vec::new();
    for bank in 0..32 {
        chr_rom.extend(std::iter::repeat(0x80 | bank).take(0x1000));
    }
    Rom {
        memory: CartridgeMemory::test_defaults(prg_rom.len(), chr_rom.len()),
        prg_rom,
        chr_rom,
        mapper: 9,
        metadata: CartridgeMetadata::test_defaults(),
        screen_mirroring: Mirroring::Horizontal,
    }
}

#[test]
fn switches_first_prg_bank_and_fixes_last_three() {
    let mut mapper = Mmc2::from_rom(rom());
    mapper.cpu_write(0xa000, 5);
    assert_eq!(mapper.cpu_read(0x8000), 5);
    assert_eq!(mapper.cpu_read(0xa000), 13);
    assert_eq!(mapper.cpu_read(0xc000), 14);
    assert_eq!(mapper.cpu_read(0xe000), 15);
}

#[test]
fn chr_trigger_byte_uses_old_bank_then_changes_latch() {
    let mut mapper = Mmc2::from_rom(rom());
    mapper.cpu_write(0xb000, 3);
    mapper.cpu_write(0xc000, 4);
    assert_eq!(mapper.ppu_read(0x0000), 0x84); // FE power-on latch
    assert_eq!(mapper.ppu_read(0x0fd8), 0x84); // trigger still old bank
    assert_eq!(mapper.ppu_read(0x0000), 0x83);
    assert_eq!(mapper.ppu_read(0x0fe8), 0x83);
    assert_eq!(mapper.ppu_read(0x0000), 0x84);
}

#[test]
fn upper_latch_responds_to_full_eight_byte_ranges_only() {
    let mut mapper = Mmc2::from_rom(rom());
    mapper.cpu_write(0xd000, 7);
    mapper.cpu_write(0xe000, 9);
    assert_eq!(mapper.ppu_read(0x1fd7), 0x89);
    assert_eq!(mapper.ppu_read(0x1000), 0x89);
    assert_eq!(mapper.ppu_read(0x1fdf), 0x89);
    assert_eq!(mapper.ppu_read(0x1000), 0x87);
    assert_eq!(mapper.ppu_read(0x1fe8), 0x87);
    assert_eq!(mapper.ppu_read(0x1000), 0x89);
}

#[test]
fn mirroring_register_selects_vertical_and_horizontal() {
    let mut mapper = Mmc2::from_rom(rom());
    mapper.cpu_write(0xf000, 0);
    assert_eq!(mapper.mirroring(), Mirroring::Vertical);
    mapper.cpu_write(0xffff, 1);
    assert_eq!(mapper.mirroring(), Mirroring::Horizontal);
}

#[test]
fn front_panel_reset_preserves_mmc2_state() {
    let mut mapper = Mmc2::from_rom(rom());
    mapper.cpu_write(0xa000, 5);
    mapper.cpu_write(0xb000, 3);
    mapper.ppu_read(0x0fd8);
    mapper.cpu_write(0xf000, 0);
    mapper.reset();
    assert_eq!(mapper.cpu_read(0x8000), 5);
    assert_eq!(mapper.ppu_read(0), 0x83);
    assert_eq!(mapper.mirroring(), Mirroring::Vertical);
}
