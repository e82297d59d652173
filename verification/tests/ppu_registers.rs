//! The picture unit as its registers show it.

use nes_emulator::cartridge::Mirroring;
use nes_emulator::mapper::nrom::Nrom;
use nes_emulator::ppu::NesPPU;

fn test_nrom(chr: Vec<u8>, mirroring: Mirroring) -> Nrom {
    Nrom::new(vec![0; 0x8000], chr, true, mirroring)
}

fn new_empty_rom() -> NesPPU<Nrom> {
    NesPPU::new(test_nrom(vec![0; 0x2000], Mirroring::Horizontal))
}

#[test]
fn mod_status_read_just_before_vblank_suppresses_flag_and_nmi() {
    let mut ppu = new_empty_rom();
    ppu.raster.scanline = 241;
    ppu.raster.dot = 0;
    ppu.write_to_ctrl(0x80);

    ppu.read_status();
    ppu.tick(2); // process dots 0 and 1

    assert!(!ppu.regs.status.is_in_vblank());
    assert_eq!(ppu.poll_nmi_interrupt(), None);
}

#[test]
fn mod_odd_rendered_frame_skips_pre_render_dot_340() {
    let mut ppu = new_empty_rom();
    ppu.write_to_mask(0x08);
    ppu.raster.scanline = 261;
    ppu.raster.dot = 0;

    let mut even_dots = 0;
    while !ppu.tick(1) {
        even_dots += 1;
    }
    even_dots += 1;
    assert_eq!(even_dots, 341);

    ppu.raster.scanline = 261;
    ppu.raster.dot = 0;
    let mut odd_dots = 0;
    while !ppu.tick(1) {
        odd_dots += 1;
    }
    odd_dots += 1;
    assert_eq!(odd_dots, 340);
}

#[test]
fn mod_test_ppu_vram_writes() {
    let mut ppu = new_empty_rom();
    ppu.write_to_ppu_addr(0x23);
    ppu.write_to_ppu_addr(0x05);
    ppu.write_to_data(0x66);

    assert_eq!(ppu.mem.vram[0x0305], 0x66);
}

#[test]
fn mod_test_ppu_vram_reads() {
    let mut ppu = new_empty_rom();
    ppu.write_to_ctrl(0);
    ppu.mem.vram[0x0305] = 0x66;

    ppu.write_to_ppu_addr(0x23);
    ppu.write_to_ppu_addr(0x05);

    ppu.read_data(); //load_into_buffer
    assert_eq!(ppu.regs.loopy.current(), 0x2306);
    assert_eq!(ppu.read_data(), 0x66);
}

#[test]
fn mod_test_ppu_vram_reads_cross_page() {
    let mut ppu = new_empty_rom();
    ppu.write_to_ctrl(0);
    ppu.mem.vram[0x01ff] = 0x66;
    ppu.mem.vram[0x0200] = 0x77;

    ppu.write_to_ppu_addr(0x21);
    ppu.write_to_ppu_addr(0xff);

    ppu.read_data(); //load_into_buffer
    assert_eq!(ppu.read_data(), 0x66);
    assert_eq!(ppu.read_data(), 0x77);
}

#[test]
fn mod_test_ppu_vram_reads_step_32() {
    let mut ppu = new_empty_rom();
    ppu.write_to_ctrl(0b100);
    ppu.mem.vram[0x01ff] = 0x66;
    ppu.mem.vram[0x01ff + 32] = 0x77;
    ppu.mem.vram[0x01ff + 64] = 0x88;

    ppu.write_to_ppu_addr(0x21);
    ppu.write_to_ppu_addr(0xff);

    ppu.read_data(); //load_into_buffer
    assert_eq!(ppu.read_data(), 0x66);
    assert_eq!(ppu.read_data(), 0x77);
    assert_eq!(ppu.read_data(), 0x88);
}

// Horizontal:
//   [0x2000 A ] [0x2400 a ]
//   [0x2800 B ] [0x2C00 b ]
#[test]
fn mod_test_vram_horizontal_mirror() {
    let mut ppu = new_empty_rom();
    ppu.write_to_ppu_addr(0x24);
    ppu.write_to_ppu_addr(0x05);

    ppu.write_to_data(0x66); //write to a

    ppu.write_to_ppu_addr(0x28);
    ppu.write_to_ppu_addr(0x05);

    ppu.write_to_data(0x77); //write to B

    ppu.write_to_ppu_addr(0x20);
    ppu.write_to_ppu_addr(0x05);

    ppu.read_data(); //load into buffer
    assert_eq!(ppu.read_data(), 0x66); //read from A

    ppu.write_to_ppu_addr(0x2C);
    ppu.write_to_ppu_addr(0x05);

    ppu.read_data(); //load into buffer
    assert_eq!(ppu.read_data(), 0x77); //read from b
}

// Vertical:
//   [0x2000 A ] [0x2400 B ]
//   [0x2800 a ] [0x2C00 b ]
#[test]
fn mod_test_vram_vertical_mirror() {
    let mut ppu = NesPPU::new(test_nrom(vec![0; 0x2000], Mirroring::Vertical));

    ppu.write_to_ppu_addr(0x20);
    ppu.write_to_ppu_addr(0x05);

    ppu.write_to_data(0x66); //write to A

    ppu.write_to_ppu_addr(0x2C);
    ppu.write_to_ppu_addr(0x05);

    ppu.write_to_data(0x77); //write to b

    ppu.write_to_ppu_addr(0x28);
    ppu.write_to_ppu_addr(0x05);

    ppu.read_data(); //load into buffer
    assert_eq!(ppu.read_data(), 0x66); //read from a

    ppu.write_to_ppu_addr(0x24);
    ppu.write_to_ppu_addr(0x05);

    ppu.read_data(); //load into buffer
    assert_eq!(ppu.read_data(), 0x77); //read from B
}

#[test]
fn mod_test_read_status_resets_latch() {
    let mut ppu = new_empty_rom();
    ppu.mem.vram[0x0305] = 0x66;

    ppu.write_to_ppu_addr(0x21);
    ppu.write_to_ppu_addr(0x23);
    ppu.write_to_ppu_addr(0x05);

    ppu.read_data(); //load_into_buffer
    assert_ne!(ppu.read_data(), 0x66);

    ppu.read_status();

    ppu.write_to_ppu_addr(0x23);
    ppu.write_to_ppu_addr(0x05);

    ppu.read_data(); //load_into_buffer
    assert_eq!(ppu.read_data(), 0x66);
}

#[test]
fn mod_test_ppu_vram_mirroring() {
    let mut ppu = new_empty_rom();
    ppu.write_to_ctrl(0);
    ppu.mem.vram[0x0305] = 0x66;

    ppu.write_to_ppu_addr(0x63); //0x6305 -> 0x2305
    ppu.write_to_ppu_addr(0x05);

    ppu.read_data(); //load into_buffer
    assert_eq!(ppu.read_data(), 0x66);
}

#[test]
fn mod_test_read_status_resets_vblank() {
    let mut ppu = new_empty_rom();
    ppu.regs.status.set_vblank_status(true);

    let status = ppu.read_status();

    assert_eq!(status >> 7, 1);
    assert_eq!(ppu.regs.status.snapshot() >> 7, 0);
}

#[test]
fn mod_test_oam_read_write() {
    let mut ppu = new_empty_rom();
    ppu.write_to_oam_addr(0x10);
    ppu.write_to_oam_data(0x66);
    ppu.write_to_oam_data(0x77);

    ppu.write_to_oam_addr(0x10);
    assert_eq!(ppu.read_oam_data(), 0x66);

    ppu.write_to_oam_addr(0x11);
    assert_eq!(ppu.read_oam_data(), 0x77);
}

#[test]
fn mod_test_oam_dma() {
    let mut ppu = new_empty_rom();

    let mut data = [0x66; 256];
    data[0] = 0x77;
    data[255] = 0x88;

    ppu.write_to_oam_addr(0x10);
    ppu.write_oam_dma(&data);

    ppu.write_to_oam_addr(0xf); //wrap around
    assert_eq!(ppu.read_oam_data(), 0x88);

    ppu.write_to_oam_addr(0x10);
    assert_eq!(ppu.read_oam_data(), 0x77);

    ppu.write_to_oam_addr(0x11);
    assert_eq!(ppu.read_oam_data(), 0x66);
}

