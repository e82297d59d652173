//! The MMC1 board.

use nes_emulator::cartridge::{CartridgeMemory, CartridgeMetadata, Mirroring, Rom};
use nes_emulator::mapper::mmc1::{Mmc1, SHIFT_RESET};
use nes_emulator::mapper::Mapper;

// A ROM whose every 16 KB PRG bank is filled with its own index, and every
// 4 KB CHR bank likewise, so a read identifies which bank is mapped.
fn rom(prg_banks: usize, chr_4k_banks: usize) -> Rom {
    let mut prg_rom = Vec::new();
    for b in 0..prg_banks {
        prg_rom.extend(std::iter::repeat(b as u8).take(0x4000));
    }
    let mut chr_rom = Vec::new();
    for b in 0..chr_4k_banks {
        chr_rom.extend(std::iter::repeat(b as u8).take(0x1000));
    }
    Rom {
        memory: CartridgeMemory::test_defaults(prg_rom.len(), chr_rom.len()),
        prg_rom,
        chr_rom,
        mapper: 1,
        metadata: CartridgeMetadata::test_defaults(),
        screen_mirroring: Mirroring::Horizontal,
    }
}

// Serially load a 5-bit value into the register selected by `addr`.
fn load(m: &mut Mmc1, addr: u16, value: u8) {
    for i in 0..5 {
        m.cpu_write(addr, (value >> i) & 1);
    }
}

#[test]
fn register_needs_five_writes() {
    let mut m = Mmc1::from_rom(rom(8, 2));
    // Four writes must not commit anything: control stays at its power-on
    // value (PRG mode 3), so the last bank is fixed at $C000.
    for _ in 0..4 {
        m.cpu_write(0xe000, 1);
    }
    assert_eq!(m.prg_bank, 0);
    // The fifth write commits the accumulated value.
    m.cpu_write(0xe000, 1);
    assert_eq!(m.prg_bank, 0b11111);
}

#[test]
fn prg_mode3_switches_low_fixes_last() {
    let mut m = Mmc1::from_rom(rom(8, 2)); // power-on PRG mode 3
    assert_eq!(m.cpu_read(0x8000), 0); // switchable low bank = 0
    assert_eq!(m.cpu_read(0xc000), 7); // fixed last bank
    load(&mut m, 0xe000, 3);
    assert_eq!(m.cpu_read(0x8000), 3);
    assert_eq!(m.cpu_read(0xffff), 7); // last bank unchanged
}

#[test]
fn prg_mode2_fixes_first_switches_high() {
    let mut m = Mmc1::from_rom(rom(8, 2));
    load(&mut m, 0x8000, 0b0_1000); // control: mirroring 0, PRG mode 2
    load(&mut m, 0xe000, 5);
    assert_eq!(m.cpu_read(0x8000), 0); // fixed first bank
    assert_eq!(m.cpu_read(0xc000), 5); // switchable high bank
}

#[test]
fn prg_mode0_switches_full_32k() {
    let mut m = Mmc1::from_rom(rom(8, 2));
    load(&mut m, 0x8000, 0b0_0000); // PRG mode 0 (32 KB)
    load(&mut m, 0xe000, 5); // low bit ignored -> banks 4 and 5
    assert_eq!(m.cpu_read(0x8000), 4);
    assert_eq!(m.cpu_read(0xc000), 5);
}

#[test]
fn chr_4k_mode_two_banks() {
    let mut m = Mmc1::from_rom(rom(8, 4));
    load(&mut m, 0x8000, 0b1_0000); // CHR mode 1 (4 KB), mirroring/PRG 0
    load(&mut m, 0xa000, 2); // CHR bank 0 = 2
    load(&mut m, 0xc000, 3); // CHR bank 1 = 3
    assert_eq!(m.ppu_read(0x0000), 2);
    assert_eq!(m.ppu_read(0x1000), 3);
}

#[test]
fn chr_8k_mode_ignores_low_bit() {
    let mut m = Mmc1::from_rom(rom(8, 4));
    // Power-on CHR mode is 0 (8 KB). Selecting bank 3 rounds down to the
    // 2/3 pair mapped consecutively.
    load(&mut m, 0xa000, 3);
    assert_eq!(m.ppu_read(0x0000), 2);
    assert_eq!(m.ppu_read(0x1000), 3);
}

#[test]
fn mirroring_from_control() {
    let mut m = Mmc1::from_rom(rom(8, 2));
    load(&mut m, 0x8000, 2);
    assert_eq!(m.mirroring(), Mirroring::Vertical);
    load(&mut m, 0x8000, 3);
    assert_eq!(m.mirroring(), Mirroring::Horizontal);
    load(&mut m, 0x8000, 0);
    assert_eq!(m.mirroring(), Mirroring::SingleScreenLower);
}

#[test]
fn reset_bit_restores_prg_mode3() {
    let mut m = Mmc1::from_rom(rom(8, 2));
    load(&mut m, 0x8000, 0b0_0000); // drop to PRG mode 0
    assert_eq!(m.prg_mode(), 0);
    m.cpu_write(0x8000, 0x80); // reset bit
    assert_eq!(m.prg_mode(), 3);
}

#[test]
fn mmc1_chr_ram_is_flat_and_writable() {
    let mut m = Mmc1::from_rom(rom(8, 0)); // no CHR -> 8 KB CHR-RAM
    assert!(m.board.chr_is_ram);
    m.ppu_write(0x0123, 0xab);
    assert_eq!(m.ppu_read(0x0123), 0xab);
}

#[test]
fn adjacent_serial_data_write_is_ignored_but_reset_is_not() {
    let mut m = Mmc1::from_rom(rom(8, 2));
    m.cpu_write_at(0xe000, 1, 10);
    m.cpu_write_at(0xe000, 0, 11); // ignored RMW second write
    for cycle in [13, 15, 17, 19] {
        m.cpu_write_at(0xe000, 1, cycle);
    }
    assert_eq!(m.prg_bank, 0x1f);

    load(&mut m, 0x8000, 0); // leave fixed-bank mode
    m.cpu_write_at(0x8000, 0, 30);
    m.cpu_write_at(0x8000, 0x80, 31); // adjacent, but reset always wins
    assert_eq!(m.prg_mode(), 3);
    assert_eq!(m.shift, SHIFT_RESET);
}

#[test]
fn surom_outer_bit_selects_256k_region_and_its_fixed_bank() {
    let mut m = Mmc1::from_rom(rom(32, 0));
    load(&mut m, 0xa000, 0x10);
    load(&mut m, 0xe000, 3);
    assert_eq!(m.cpu_read(0x8000), 19);
    assert_eq!(m.cpu_read(0xc000), 31);
}

#[test]
fn sxrom_banks_prg_ram_and_prg_register_can_disable_it() {
    let mut image = rom(32, 0);
    image.memory.prg_ram.size = 0x8000;
    let mut m = Mmc1::from_rom(image);
    m.cpu_write(0x6000, 0x11);
    load(&mut m, 0xa000, 0x04); // CHR A15/A14 -> PRG-RAM bank 1
    m.cpu_write(0x6000, 0x22);
    load(&mut m, 0xa000, 0x00);
    assert_eq!(m.cpu_read(0x6000), 0x11);
    load(&mut m, 0xa000, 0x04);
    assert_eq!(m.cpu_read(0x6000), 0x22);
    load(&mut m, 0xe000, 0x10);
    assert_eq!(m.cpu_read(0x6000), 0);
}

#[test]
fn reset_restores_serial_and_fixed_bank_mode_but_preserves_ram() {
    let mut m = Mmc1::from_rom(rom(8, 0));
    m.cpu_write(0x6000, 0x5a);
    load(&mut m, 0x8000, 0);
    m.reset();
    assert_eq!(m.prg_mode(), 3);
    assert_eq!(m.shift, SHIFT_RESET);
    assert_eq!(m.cpu_read(0x6000), 0x5a);
}
