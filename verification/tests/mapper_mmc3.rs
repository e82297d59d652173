//! The MMC3 board and its variants.

use nes_emulator::cartridge::{
    CartridgeMemory, CartridgeMetadata, Mirroring, Rom, RomFormat,
};
use nes_emulator::mapper::mmc3::Mmc3;
use nes_emulator::mapper::Mapper;

// A ROM whose every 8 KB PRG bank is filled with its own index, and every
// 1 KB CHR bank likewise, so a read identifies the mapped bank.
fn rom(prg_8k_banks: usize, chr_1k_banks: usize) -> Rom {
    let mut prg_rom = Vec::new();
    for b in 0..prg_8k_banks {
        prg_rom.extend(std::iter::repeat(b as u8).take(0x2000));
    }
    let mut chr_rom = Vec::new();
    for b in 0..chr_1k_banks {
        chr_rom.extend(std::iter::repeat(b as u8).take(0x400));
    }
    Rom {
        memory: CartridgeMemory::test_defaults(prg_rom.len(), chr_rom.len()),
        prg_rom,
        chr_rom,
        mapper: 4,
        metadata: CartridgeMetadata::test_defaults(),
        screen_mirroring: Mirroring::Vertical,
    }
}

// Select register `reg` then load `value` into it (the $8000/$8001 pair).
fn set_bank(m: &mut Mmc3, reg: u8, value: u8) {
    m.cpu_write(0x8000, reg); // prg_mode/chr_inv clear (reg < 8)
    m.cpu_write(0x8001, value);
}

fn rom_with_submapper(prg_8k_banks: usize, chr_1k_banks: usize, submapper: u8) -> Rom {
    let mut image = rom(prg_8k_banks, chr_1k_banks);
    image.metadata.format = RomFormat::Nes2;
    image.metadata.submapper = submapper;
    image
}

#[test]
fn prg_mode0_fixes_second_last_at_c000_last_at_e000() {
    let mut m = Mmc3::from_rom(rom(8, 8)); // banks 0..7, last=7
    set_bank(&mut m, 6, 3); // R6 -> $8000
    set_bank(&mut m, 7, 5); // R7 -> $A000
    assert_eq!(m.cpu_read(0x8000), 3); // R6
    assert_eq!(m.cpu_read(0xa000), 5); // R7
    assert_eq!(m.cpu_read(0xc000), 6); // second-last fixed
    assert_eq!(m.cpu_read(0xe000), 7); // last fixed
}

#[test]
fn prg_mode1_swaps_8000_and_c000() {
    let mut m = Mmc3::from_rom(rom(8, 8));
    m.cpu_write(0x8000, 0x40 | 6); // PRG mode 1, select R6
    m.cpu_write(0x8001, 3); // R6 = 3
    assert_eq!(m.cpu_read(0x8000), 6); // second-last now fixed at $8000
    assert_eq!(m.cpu_read(0xc000), 3); // R6 now swappable at $C000
    assert_eq!(m.cpu_read(0xe000), 7); // last still fixed
}

#[test]
fn chr_2k_and_1k_banks_no_inversion() {
    let mut m = Mmc3::from_rom(rom(8, 8));
    set_bank(&mut m, 0, 0); // R0 (2 KB) at $0000-$07FF -> banks 0,1
    set_bank(&mut m, 1, 2); // R1 (2 KB) at $0800-$0FFF -> banks 2,3
    set_bank(&mut m, 2, 4); // R2 (1 KB) at $1000
    set_bank(&mut m, 3, 5); // R3 (1 KB) at $1400
    set_bank(&mut m, 4, 6); // R4 (1 KB) at $1800
    set_bank(&mut m, 5, 7); // R5 (1 KB) at $1C00
    assert_eq!(m.ppu_read(0x0000), 0);
    assert_eq!(m.ppu_read(0x0400), 1); // R0 high 1 KB
    assert_eq!(m.ppu_read(0x0800), 2);
    assert_eq!(m.ppu_read(0x0c00), 3);
    assert_eq!(m.ppu_read(0x1000), 4);
    assert_eq!(m.ppu_read(0x1400), 5);
    assert_eq!(m.ppu_read(0x1800), 6);
    assert_eq!(m.ppu_read(0x1c00), 7);
}

#[test]
fn chr_inversion_swaps_halves() {
    let mut m = Mmc3::from_rom(rom(8, 8));
    set_bank(&mut m, 0, 0); // R0 pair
    set_bank(&mut m, 2, 4); // R2
    // Turn on CHR inversion (bit 7); the 1 KB banks move to $0000.
    m.cpu_write(0x8000, 0x80);
    assert_eq!(m.ppu_read(0x0000), 4); // R2 now at $0000
    assert_eq!(m.ppu_read(0x1000), 0); // R0 pair now at $1000
    assert_eq!(m.ppu_read(0x1400), 1);
}

#[test]
fn mirroring_selected_by_a000() {
    let mut m = Mmc3::from_rom(rom(8, 8));
    m.cpu_write(0xa000, 0);
    assert_eq!(m.mirroring(), Mirroring::Vertical);
    m.cpu_write(0xa000, 1);
    assert_eq!(m.mirroring(), Mirroring::Horizontal);
}

#[test]
fn irq_fires_after_latch_plus_one_scanlines() {
    let mut m = Mmc3::from_rom(rom(8, 8));
    m.cpu_write(0xc000, 2); // latch = 2
    m.cpu_write(0xc001, 0); // force reload
    m.cpu_write(0xe001, 0); // enable IRQ
    // First clock reloads to 2 (counter 0 or reload set); then decrements.
    m.clock_irq_counter(); // reload -> 2
    assert!(!m.irq_pending());
    m.clock_irq_counter(); // 2 -> 1
    assert!(!m.irq_pending());
    m.clock_irq_counter(); // 1 -> 0 -> assert
    assert!(m.irq_pending());
}

#[test]
fn irq_line_cleared_by_e000_write() {
    let mut m = Mmc3::from_rom(rom(8, 8));
    m.cpu_write(0xc000, 0); // latch 0: fires as soon as it reloads
    m.cpu_write(0xc001, 0);
    m.cpu_write(0xe001, 0);
    m.clock_irq_counter(); // reload to 0 -> counter 0 & enabled -> assert
    assert!(m.irq_pending());
    m.cpu_write(0xe000, 0); // disable + acknowledge
    assert!(!m.irq_pending());
}

#[test]
fn irq_does_not_fire_while_disabled() {
    let mut m = Mmc3::from_rom(rom(8, 8));
    m.cpu_write(0xc000, 0);
    m.cpu_write(0xc001, 0);
    // IRQ never enabled.
    for _ in 0..4 {
        m.clock_irq_counter();
    }
    assert!(!m.irq_pending());
}

#[test]
fn a12_rise_requires_eight_ppu_cycles_low() {
    let mut m = Mmc3::from_rom(rom(8, 8));
    m.cpu_write(0xc000, 0);
    m.cpu_write(0xc001, 0);
    m.cpu_write(0xe001, 0);

    m.on_ppu_bus_access(0x0000, 10);
    m.on_ppu_bus_access(0x1000, 17);
    assert!(!m.irq_pending());
    m.on_ppu_bus_access(0x0000, 20);
    m.on_ppu_bus_access(0x1000, 28);
    assert!(m.irq_pending());
}

#[test]
fn repeated_low_accesses_do_not_restart_the_a12_filter() {
    let mut m = Mmc3::from_rom(rom(8, 8));
    m.cpu_write(0xc000, 0);
    m.cpu_write(0xc001, 0);
    m.cpu_write(0xe001, 0);

    m.on_ppu_bus_access(0x0000, 10);
    m.on_ppu_bus_access(0x2000, 15);
    m.on_ppu_bus_access(0x1000, 18);

    assert!(m.irq_pending());
}

#[test]
fn high_a12_accesses_clock_only_one_rising_edge() {
    let mut m = Mmc3::from_rom(rom(8, 8));
    m.cpu_write(0xc000, 1);
    m.cpu_write(0xc001, 0);
    m.cpu_write(0xe001, 0);

    m.on_ppu_bus_access(0x0000, 0);
    m.on_ppu_bus_access(0x1000, 8); // reload counter to one
    m.on_ppu_bus_access(0x1008, 20); // still high; must not decrement
    assert!(!m.irq_pending());

    m.on_ppu_bus_access(0x0000, 21);
    m.on_ppu_bus_access(0x1000, 29); // next qualified rise decrements to zero
    assert!(m.irq_pending());
}

#[test]
fn c001_forces_latch_reload_on_the_next_qualified_edge() {
    let mut m = Mmc3::from_rom(rom(8, 8));
    m.cpu_write(0xc000, 3);
    m.clock_irq_counter();
    m.clock_irq_counter();
    assert_eq!(m.irq.counter, 2);

    m.cpu_write(0xc000, 5);
    m.cpu_write(0xc001, 0);
    m.clock_irq_counter();

    assert_eq!(m.irq.counter, 5);
    assert!(!m.irq.reload);
}

#[test]
fn irq_is_level_triggered_until_acknowledged_and_can_be_reenabled() {
    let mut m = Mmc3::from_rom(rom(8, 8));
    m.cpu_write(0xc000, 0);
    m.cpu_write(0xc001, 0);
    m.cpu_write(0xe001, 0);
    m.clock_irq_counter();
    assert!(m.irq_pending());

    m.clock_irq_counter();
    assert!(m.irq_pending());
    m.cpu_write(0xe000, 0);
    assert!(!m.irq_pending());

    m.clock_irq_counter();
    assert!(!m.irq_pending());
    m.cpu_write(0xe001, 0);
    m.clock_irq_counter();
    assert!(m.irq_pending());
}

#[test]
fn prg_ram_read_write() {
    let mut m = Mmc3::from_rom(rom(8, 8));
    m.cpu_write(0x6001, 0xab);
    assert_eq!(m.cpu_read(0x6001), 0xab);
}

#[test]
fn a001_disables_prg_ram_reads_and_writes() {
    let mut m = Mmc3::from_rom(rom(8, 8));
    m.cpu_write(0x6001, 0xab);

    m.cpu_write(0xa001, 0x00);
    assert_eq!(m.cpu_read(0x6001), 0);
    m.cpu_write(0x6001, 0xcd);

    m.cpu_write(0xa001, 0x80);
    assert_eq!(m.cpu_read(0x6001), 0xab);
}

#[test]
fn a001_write_protects_enabled_prg_ram() {
    let mut m = Mmc3::from_rom(rom(8, 8));
    m.cpu_write(0x6001, 0xab);

    m.cpu_write(0xa001, 0xc0);
    assert_eq!(m.cpu_read(0x6001), 0xab);
    m.cpu_write(0x6001, 0xcd);
    assert_eq!(m.cpu_read(0x6001), 0xab);

    m.cpu_write(0xa001, 0x80);
    m.cpu_write(0x6001, 0xef);
    assert_eq!(m.cpu_read(0x6001), 0xef);
}

#[test]
fn mmc3_chr_ram_is_flat_and_writable() {
    let mut m = Mmc3::from_rom(rom(8, 0)); // no CHR -> 8 KB CHR-RAM
    assert!(m.board.chr_is_ram);
    m.ppu_write(0x0123, 0xcd);
    assert_eq!(m.ppu_read(0x0123), 0xcd);
}

#[test]
fn bank_numbers_wrap_to_available_banks() {
    // Only 4 PRG banks: selecting a high R6 must modulo into range.
    let mut m = Mmc3::from_rom(rom(4, 8));
    set_bank(&mut m, 6, 10); // 10 % 4 == 2
    assert_eq!(m.cpu_read(0x8000), 2);
}

#[test]
fn prg_bank_registers_ignore_top_two_bits() {
    let mut m = Mmc3::from_rom(rom(64, 8));
    set_bank(&mut m, 6, 0xff);
    assert_eq!(m.banks.regs[6], 0x3f);
    assert_eq!(m.cpu_read(0x8000), 63);
}

#[test]
fn four_screen_board_ignores_mirroring_register() {
    let mut image = rom(8, 8);
    image.screen_mirroring = Mirroring::FourScreen;
    let mut m = Mmc3::from_rom(image);
    m.cpu_write(0xa000, 1);
    assert_eq!(m.mirroring(), Mirroring::FourScreen);
}

#[test]
fn submapper_two_has_hardwired_mirroring() {
    let mut m = Mmc3::from_rom(rom_with_submapper(8, 8, 2));
    m.cpu_write(0xa000, 1);
    assert_eq!(m.mirroring(), Mirroring::Vertical);
}

#[test]
fn submapper_four_uses_nec_zero_latch_irq_behavior() {
    let mut m = Mmc3::from_rom(rom_with_submapper(8, 8, 4));
    m.cpu_write(0xc000, 0);
    m.cpu_write(0xc001, 0);
    m.cpu_write(0xe001, 0);
    m.clock_irq_counter();
    assert!(m.irq_pending());
    m.cpu_write(0xe000, 0);
    m.cpu_write(0xe001, 0);
    m.clock_irq_counter();
    assert!(!m.irq_pending());

    let mut sharp = Mmc3::from_rom(rom_with_submapper(8, 8, 0));
    sharp.cpu_write(0xc000, 0);
    sharp.cpu_write(0xc001, 0);
    sharp.cpu_write(0xe001, 0);
    sharp.clock_irq_counter();
    sharp.cpu_write(0xe000, 0);
    sharp.cpu_write(0xe001, 0);
    sharp.clock_irq_counter();
    assert!(sharp.irq_pending());
}

#[test]
fn submapper_three_clocks_irq_counter_on_qualified_a12_falls() {
    let mut m = Mmc3::from_rom(rom_with_submapper(8, 8, 3));
    m.cpu_write(0xc000, 5);
    m.cpu_write(0xc001, 0);
    m.on_ppu_bus_access(0x1000, 0);
    m.on_ppu_bus_access(0x1000, 8);
    assert_eq!(m.irq.counter, 0);
    m.on_ppu_bus_access(0x0000, 9);
    assert_eq!(m.irq.counter, 5);
}

#[test]
fn submapper_one_uses_mmc6_split_one_kib_ram_protection() {
    let mut image = rom_with_submapper(8, 8, 1);
    image.memory.prg_ram.size = 0x400;
    let mut m = Mmc3::from_rom(image);
    m.cpu_write(0x8000, 0x20); // global MMC6 RAM enable
    m.cpu_write(0xa001, 0x30); // low 512-byte bank readable+writable
    m.cpu_write(0x7001, 0x5a);
    assert_eq!(m.cpu_read(0x7001), 0x5a);
    assert_eq!(m.cpu_read(0x7401), 0x5a); // 1 KiB mirrors through $7FFF
    m.cpu_write(0x7201, 0xa5);
    assert_eq!(m.cpu_read(0x7201), 0); // high bank remains disabled
}

#[test]
fn reset_restores_bank_irq_and_protection_state_but_preserves_ram() {
    let mut m = Mmc3::from_rom(rom(8, 8));
    m.cpu_write(0x6000, 0x5a);
    m.cpu_write(0x8000, 0xc6);
    m.cpu_write(0x8001, 3);
    m.cpu_write(0xa000, 1);
    m.cpu_write(0xa001, 0xc0);
    m.cpu_write(0xe001, 0);
    m.reset();
    assert_eq!(m.banks.regs, [0; 8]);
    assert!(!m.banks.prg_mode && !m.banks.chr_inversion && !m.irq.enabled);
    assert_eq!(m.mirroring(), Mirroring::Vertical);
    assert_eq!(m.cpu_read(0x6000), 0x5a);
}
