//! Cartridge images: iNES and NES 2.0 headers and their memories.

use nes_emulator::cartridge::{
    decode_nes2_rom_size, MemoryKind, MemoryRegion, Mirroring, Rom, RomFormat, CHR_ROM_PAGE_SIZE,
    PRG_ROM_PAGE_SIZE,
};

struct TestRom {
    header: Vec<u8>,
    trainer: Option<Vec<u8>>,
    pgp_rom: Vec<u8>,
    chr_rom: Vec<u8>,
}

fn create_rom(rom: TestRom) -> Vec<u8> {
    let mut result = Vec::with_capacity(
        rom.header.len()
            + rom.trainer.as_ref().map_or(0, |t| t.len())
            + rom.pgp_rom.len()
            + rom.chr_rom.len(),
    );

    result.extend(&rom.header);
    if let Some(t) = rom.trainer {
        result.extend(t);
    }
    result.extend(&rom.pgp_rom);
    result.extend(&rom.chr_rom);

    result
}

#[test]
fn test() {
    let test_rom = create_rom(TestRom {
        header: vec![
            0x4E, 0x45, 0x53, 0x1A, 0x02, 0x01, 0x31, 00, 00, 00, 00, 00, 00, 00, 00, 00,
        ],
        trainer: None,
        pgp_rom: vec![1; 2 * PRG_ROM_PAGE_SIZE],
        chr_rom: vec![2; 1 * CHR_ROM_PAGE_SIZE],
    });

    let rom: Rom = Rom::new(&test_rom).unwrap();

    assert_eq!(rom.chr_rom, vec!(2; 1 * CHR_ROM_PAGE_SIZE));
    assert_eq!(rom.prg_rom, vec!(1; 2 * PRG_ROM_PAGE_SIZE));
    assert_eq!(rom.mapper, 3);
    assert_eq!(rom.screen_mirroring, Mirroring::Vertical);
}

#[test]
fn test_with_trainer() {
    let test_rom = create_rom(TestRom {
        header: vec![
            0x4E,
            0x45,
            0x53,
            0x1A,
            0x02,
            0x01,
            0x31 | 0b100,
            00,
            00,
            00,
            00,
            00,
            00,
            00,
            00,
            00,
        ],
        trainer: Some(vec![0; 512]),
        pgp_rom: vec![1; 2 * PRG_ROM_PAGE_SIZE],
        chr_rom: vec![2; 1 * CHR_ROM_PAGE_SIZE],
    });

    let rom: Rom = Rom::new(&test_rom).unwrap();

    assert_eq!(rom.chr_rom, vec!(2; 1 * CHR_ROM_PAGE_SIZE));
    assert_eq!(rom.prg_rom, vec!(1; 2 * PRG_ROM_PAGE_SIZE));
    assert_eq!(rom.mapper, 3);
    assert_eq!(rom.screen_mirroring, Mirroring::Vertical);
}

#[test]
fn parses_nes2_extended_mapper_submapper_and_linear_sizes() {
    let test_rom = create_rom(TestRom {
        header: vec![
            0x4e, 0x45, 0x53, 0x1a, 0x01, // 16 KiB PRG ROM
            0x01, // 8 KiB CHR ROM
            0xc1, // mapper low nibble C, vertical mirroring
            0xb8, // mapper middle nibble B, NES 2.0 marker
            0xda, // submapper D, mapper high nibble A
            0x00, // linear PRG/CHR size MSBs
            0x87, // 8 KiB PRG RAM, 16 KiB PRG NVRAM
            0x56, // 4 KiB CHR RAM, 2 KiB CHR NVRAM
            0x00, 0x00, 0x00, 0x00,
        ],
        trainer: None,
        pgp_rom: vec![1; PRG_ROM_PAGE_SIZE],
        chr_rom: vec![2; CHR_ROM_PAGE_SIZE],
    });
    let rom = Rom::new(&test_rom).unwrap();
    assert_eq!(rom.mapper, 0x0abc);
    assert_eq!(rom.metadata.format, RomFormat::Nes2);
    assert_eq!(rom.metadata.submapper, 0x0d);
    assert_eq!(rom.metadata.prg_ram_size, 0x2000);
    assert_eq!(rom.metadata.prg_nvram_size, 0x4000);
    assert_eq!(rom.metadata.chr_ram_size, 0x1000);
    assert_eq!(rom.metadata.chr_nvram_size, 0x0800);
    assert_eq!(rom.memory.prg_rom.size, PRG_ROM_PAGE_SIZE);
    assert_eq!(rom.memory.prg_ram.size, 0x6000);
    assert_eq!(rom.memory.chr.size, CHR_ROM_PAGE_SIZE);
    assert_eq!(rom.screen_mirroring, Mirroring::Vertical);
}

#[test]
fn parses_nes2_exponent_multiplier_rom_sizes() {
    assert_eq!(
        decode_nes2_rom_size(2, 1, PRG_ROM_PAGE_SIZE, "PRG ROM").unwrap(),
        258 * PRG_ROM_PAGE_SIZE
    );
    // PRG: 2^12 * 3 = 12 KiB. CHR: 2^11 * 5 = 10 KiB.
    let test_rom = create_rom(TestRom {
        header: vec![
            0x4e, 0x45, 0x53, 0x1a, 0x31, 0x2e, 0, 0x08, 0, 0xff, 0, 0, 0, 0, 0, 0,
        ],
        trainer: None,
        pgp_rom: vec![1; 12 * 1024],
        chr_rom: vec![2; 10 * 1024],
    });
    let rom = Rom::new(&test_rom).unwrap();
    assert_eq!(rom.prg_rom.len(), 12 * 1024);
    assert_eq!(rom.chr_rom.len(), 10 * 1024);
}

#[test]
fn nes2_zero_rom_and_ram_shifts_mean_absent_memory() {
    let raw = create_rom(TestRom {
        header: vec![
            0x4e, 0x45, 0x53, 0x1a, 1, 0, 0, 0x08, 0, 0, 0, 0x70, 0, 0, 0, 0,
        ],
        trainer: None,
        pgp_rom: vec![0; PRG_ROM_PAGE_SIZE],
        chr_rom: vec![],
    });
    let rom = Rom::new(&raw).unwrap();
    assert_eq!(rom.metadata.prg_ram_size, 0);
    assert_eq!(rom.metadata.prg_nvram_size, 0);
    assert_eq!(rom.metadata.chr_ram_size, 0);
    assert_eq!(rom.metadata.chr_nvram_size, 0x2000);
    assert_eq!(rom.memory.prg_ram, MemoryRegion::new(MemoryKind::Absent, 0));
    assert_eq!(
        rom.memory.chr,
        MemoryRegion::new(MemoryKind::NonVolatileRam, 0x2000)
    );
}

#[test]
fn rejects_invalid_markers_truncated_payloads_and_size_overflow() {
    assert!(Rom::new(&[0; 15]).unwrap_err().contains("16-byte header"));
    assert!(Rom::new(&[0; 16]).unwrap_err().contains("iNES/NES 2.0"));

    let mut header = [0u8; 16];
    header[..4].copy_from_slice(&[0x4E, 0x45, 0x53, 0x1A]);
    header[7] = 0x04;
    assert!(Rom::new(&header).unwrap_err().contains("format marker"));

    header[7] = 0;
    header[4] = 1;
    assert!(Rom::new(&header).unwrap_err().contains("header requires"));

    header[4] = 0;
    header[6] = 0x04;
    assert!(Rom::new(&header)
        .unwrap_err()
        .contains("requires at least 528"));

    header[7] = 0x08;
    header[6] = 0;
    header[4] = 0xff; // exponent 63, multiplier 7
    header[9] = 0x0f;
    assert!(Rom::new(&header).unwrap_err().contains("too large"));
}

#[test]
fn parses_rom_volatile_and_battery_memory_types() {
    let mut raw = create_rom(TestRom {
        header: vec![
            0x4e, 0x45, 0x53, 0x1a, 0x01, 0x00, 0x00, 0, 0, 0, 0, 0, 0, 0, 0, 0,
        ],
        trainer: None,
        pgp_rom: vec![0; PRG_ROM_PAGE_SIZE],
        chr_rom: vec![],
    });
    let volatile = Rom::new(&raw).unwrap();
    assert_eq!(volatile.metadata.format, RomFormat::INes);
    assert_eq!(volatile.metadata.submapper, 0);
    assert_eq!(volatile.metadata.prg_ram_size, 0x2000);
    assert_eq!(volatile.metadata.prg_nvram_size, 0);
    assert_eq!(
        volatile.memory.prg_rom,
        MemoryRegion::new(MemoryKind::Rom, 0x4000)
    );
    assert_eq!(
        volatile.memory.prg_ram,
        MemoryRegion::new(MemoryKind::VolatileRam, 0x2000)
    );
    assert_eq!(
        volatile.memory.chr,
        MemoryRegion::new(MemoryKind::VolatileRam, 0x2000)
    );

    raw[6] |= 0x02;
    raw[8] = 4;
    let battery = Rom::new(&raw).unwrap();
    assert_eq!(battery.metadata.prg_ram_size, 0);
    assert_eq!(battery.metadata.prg_nvram_size, 0x8000);
    assert_eq!(battery.metadata.chr_ram_size, 0x2000);
    assert_eq!(battery.metadata.chr_nvram_size, 0);
    assert_eq!(
        battery.memory.prg_ram,
        MemoryRegion::new(MemoryKind::NonVolatileRam, 0x8000)
    );
    assert_eq!(
        battery.memory.chr,
        MemoryRegion::new(MemoryKind::VolatileRam, 0x2000)
    );
}

#[test]
fn unofficial_ines_absent_prg_ram_flag_is_not_an_implicit_8k() {
    let raw = create_rom(TestRom {
        header: vec![
            0x4e, 0x45, 0x53, 0x1a, 0x01, 0x01, 0, 0, 0, 0, 0x10, 0, 0, 0, 0, 0,
        ],
        trainer: None,
        pgp_rom: vec![0; PRG_ROM_PAGE_SIZE],
        chr_rom: vec![0; CHR_ROM_PAGE_SIZE],
    });
    let rom = Rom::new(&raw).unwrap();
    assert_eq!(rom.memory.prg_ram, MemoryRegion::new(MemoryKind::Absent, 0));
    assert_eq!(rom.memory.chr, MemoryRegion::new(MemoryKind::Rom, 0x2000));
}
