//! Battery-backed memory: what is saved, and what a save restores.

use nes_emulator::cartridge::{
    CartridgeMemory, CartridgeMetadata, MemoryKind, MemoryRegion, Mirroring, Rom,
};
use nes_emulator::mapper::managed::{from_rom, is_supported};
use nes_emulator::mapper::Mapper;

fn battery_ram_rom() -> Rom {
    let mut metadata = CartridgeMetadata::test_defaults();
    metadata.prg_ram_size = 0;
    metadata.prg_nvram_size = 0x2000;
    metadata.chr_ram_size = 0;
    metadata.chr_nvram_size = 0x2000;
    Rom {
        prg_rom: vec![0; 0x8000],
        chr_rom: vec![],
        mapper: 0,
        metadata,
        screen_mirroring: Mirroring::Vertical,
        memory: CartridgeMemory {
            prg_rom: MemoryRegion::new(MemoryKind::Rom, 0x8000),
            prg_ram: MemoryRegion::new(MemoryKind::NonVolatileRam, 0x2000),
            chr: MemoryRegion::new(MemoryKind::NonVolatileRam, 0x2000),
        },
    }
}

fn split_ram_rom() -> Rom {
    let mut rom = battery_ram_rom();
    rom.metadata.prg_ram_size = 0x400;
    rom.metadata.prg_nvram_size = 0x400;
    rom.metadata.chr_ram_size = 0x400;
    rom.metadata.chr_nvram_size = 0x400;
    rom.memory.prg_ram = MemoryRegion::new(MemoryKind::NonVolatileRam, 0x800);
    rom.memory.chr = MemoryRegion::new(MemoryKind::NonVolatileRam, 0x800);
    rom
}

#[test]
fn battery_prg_and_chr_ram_round_trip_through_a_save() {
    let mut mapper = from_rom(battery_ram_rom());
    mapper.cpu_write(0x6123, 0xa5);
    mapper.ppu_write(0x0456, 0x5a);
    let bytes = mapper.save_bytes().unwrap();
    assert_eq!(bytes.len(), 0x4000);
    assert_eq!(bytes[0x0123], 0xa5);
    assert_eq!(bytes[0x2000 + 0x0456], 0x5a);

    let mut loaded = from_rom(battery_ram_rom());
    loaded.load("game.sav", &bytes).unwrap();
    assert_eq!(loaded.cpu_read(0x6123), 0xa5);
    assert_eq!(loaded.ppu_read(0x0456), 0x5a);
    assert_eq!(loaded.save_bytes().unwrap(), bytes);
}

#[test]
fn volatile_ram_is_runtime_visible_but_excluded_from_save_data() {
    let mut mapper = from_rom(split_ram_rom());
    mapper.cpu_write(0x6001, 0x11);
    mapper.cpu_write(0x6402, 0x22);
    mapper.ppu_write(0x0003, 0x33);
    mapper.ppu_write(0x0404, 0x44);
    assert_eq!(mapper.cpu_read(0x6001), 0x11);
    let bytes = mapper.save_bytes().unwrap();
    assert_eq!(bytes.len(), 0x800);
    assert_eq!(bytes[2], 0x22);
    assert_eq!(bytes[0x400 + 4], 0x44);

    let mut loaded = from_rom(split_ram_rom());
    loaded.load("game.sav", &bytes).unwrap();
    assert_eq!(loaded.cpu_read(0x6001), 0);
    assert_eq!(loaded.cpu_read(0x6402), 0x22);
    assert_eq!(loaded.ppu_read(0x0003), 0);
    assert_eq!(loaded.ppu_read(0x0404), 0x44);
}

#[test]
fn a_save_of_the_wrong_length_is_refused() {
    let mut mapper = from_rom(battery_ram_rom());
    mapper.cpu_write(0x6000, 7);
    assert_eq!(
        mapper.load("game.sav", &[1, 2, 3]).unwrap_err(),
        "save game.sav has 3 bytes; cartridge expects 16384"
    );
    assert_eq!(mapper.cpu_read(0x6000), 7);
}

#[test]
fn a_board_without_ram_cannot_be_saved() {
    let mut rom = battery_ram_rom();
    rom.mapper = 7; // no PRG RAM on this board
    rom.metadata.chr_nvram_size = 0;
    let mut mapper = from_rom(rom);
    assert_eq!(mapper.save_bytes().unwrap_err(), "mapper exposes no PRG RAM");
    assert_eq!(
        mapper.load("game.sav", &vec![0; 0x2000]).unwrap_err(),
        "mapper exposes no PRG RAM"
    );

    let mut rom = battery_ram_rom();
    rom.mapper = 7;
    rom.metadata.prg_nvram_size = 0;
    let mapper = from_rom(rom);
    assert_eq!(mapper.save_bytes().unwrap_err(), "mapper exposes no CHR RAM");
}

#[test]
fn declared_sizes_beyond_the_board_are_refused() {
    let mut rom = battery_ram_rom();
    rom.metadata.prg_nvram_size = 0x4000;
    let mapper = from_rom(rom);
    assert_eq!(
        mapper.save_bytes().unwrap_err(),
        "mapper PRG RAM is smaller than cartridge metadata"
    );

    let mut rom = battery_ram_rom();
    rom.metadata.chr_nvram_size = 0x4000;
    let mapper = from_rom(rom);
    assert_eq!(
        mapper.save_bytes().unwrap_err(),
        "mapper CHR RAM is smaller than cartridge metadata"
    );
}

#[test]
fn eight_mappers_are_supported() {
    let supported: Vec<u16> = (0..=255).filter(|&m| is_supported(m)).collect();
    assert_eq!(supported, vec![0, 1, 2, 3, 4, 7, 9, 66]);
}

#[test]
fn a_reset_keeps_the_memories_and_the_image() {
    for mapper in [0, 1, 2, 4, 9] {
        let mut rom = battery_ram_rom();
        rom.mapper = mapper;
        rom.prg_rom = vec![0x5c; 0x8000];
        rom.chr_rom = vec![0x3d; 0x2000];
        let mut board = from_rom(rom);
        board.cpu_write(0x6010, 0x77);
        board.ppu_write(0x0010, 0x99); // CHR ROM: lost
        board.reset();
        assert_eq!(board.cpu_read(0x6010), 0x77, "mapper {mapper}");
        assert_eq!(board.ppu_read(0x0010), 0x3d, "mapper {mapper}");
        assert_eq!(board.cpu_read(0xfff0), 0x5c, "mapper {mapper}");
    }
}
