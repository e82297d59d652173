//! The whole-frame renderer.

use nes_emulator::cartridge::Mirroring;
use nes_emulator::mapper::nrom::Nrom;
use nes_emulator::ppu::NesPPU;
use nes_emulator::render::frame::Frame;
use nes_emulator::render::palette::SYSTEM_PALLETE;
use nes_emulator::render::{bg_palette, render};

fn test_nrom(chr: Vec<u8>, mirroring: Mirroring) -> Nrom {
    Nrom::new(vec![0; 0x8000], chr, true, mirroring)
}


#[test]
fn render_draws_background_without_panicking() {
    // 2 CHR banks of a non-zero pattern; point a nametable entry at a tile.
    let mut ppu = NesPPU::new(test_nrom(vec![0x55; 0x2000], Mirroring::Horizontal));
    ppu.mem.vram[0] = 1;
    ppu.mem.vram[959] = 2;

    let mut frame = Frame::new();
    render(&mut ppu, &mut frame);

    assert_eq!(frame.data.len(), 256 * 240 * 3);
    assert!(frame.data.iter().any(|&b| b != 0), "render wrote no pixels");
}

#[test]
fn render_draws_a_sprite_over_the_background() {
    // Tile 1 = fully solid (value 3 everywhere): both bitplanes all-ones.
    let mut chr = vec![0u8; 0x2000];
    for b in 16..32 {
        chr[b] = 0xFF;
    }
    let mut ppu = NesPPU::new(test_nrom(chr, Mirroring::Horizontal));

    // Sprite palette 0, color 3 -> palette_table[0x13].
    ppu.mem.palette_table[0x13] = 0x30;
    // OAM sprite 0: y=50, tile=1, attr=0 (palette 0, no flip), x=60.
    ppu.mem.oam_data[0] = 50;
    ppu.mem.oam_data[1] = 1;
    ppu.mem.oam_data[2] = 0;
    ppu.mem.oam_data[3] = 60;

    let mut frame = Frame::new();
    render(&mut ppu, &mut frame);

    // A pixel inside the 8x8 sprite should carry the sprite's color.
    let (px, py) = (63usize, 53usize);
    let base = py * 3 * 256 + px * 3;
    assert_eq!(
        (frame.data[base], frame.data[base + 1], frame.data[base + 2]),
        SYSTEM_PALLETE[0x30]
    );
}

#[test]
fn bg_palette_selects_quadrant_from_attribute_byte() {
    let mut ppu = NesPPU::new(test_nrom(vec![0; 0x2000], Mirroring::Horizontal));
    // Distinct palette bytes so each palette is identifiable.
    for k in 0..32 {
        ppu.mem.palette_table[k] = k as u8;
    }
    // Block (0,0): TL=0, TR=1, BL=2, BR=3  =>  0b11_10_01_00
    ppu.mem.vram[0x3c0] = 0b11_10_01_00;
    let attr = ppu.mem.vram[0x3c0..0x400].to_vec();

    // top-left quadrant (cols 0-1, rows 0-1) -> palette 0 -> start 1
    assert_eq!(bg_palette(&ppu.mem.palette_table, &attr, 0, 0), [0, 1, 2, 3]);
    assert_eq!(bg_palette(&ppu.mem.palette_table, &attr, 1, 1), [0, 1, 2, 3]);
    // top-right (cols 2-3, rows 0-1) -> palette 1 -> start 5
    assert_eq!(bg_palette(&ppu.mem.palette_table, &attr, 2, 0), [0, 5, 6, 7]);
    assert_eq!(bg_palette(&ppu.mem.palette_table, &attr, 3, 1), [0, 5, 6, 7]);
    // bottom-left (cols 0-1, rows 2-3) -> palette 2 -> start 9
    assert_eq!(bg_palette(&ppu.mem.palette_table, &attr, 0, 2), [0, 9, 10, 11]);
    // bottom-right (cols 2-3, rows 2-3) -> palette 3 -> start 13
    assert_eq!(bg_palette(&ppu.mem.palette_table, &attr, 3, 3), [0, 13, 14, 15]);
}

#[test]
fn palette_entries_that_nothing_shows_may_hold_anything() {
    let mut ppu = NesPPU::new(test_nrom(vec![0x55; 0x2000], Mirroring::Horizontal));
    let mut plain = NesPPU::new(test_nrom(vec![0x55; 0x2000], Mirroring::Horizontal));
    for entry in [4, 8, 12, 16, 20, 24, 28] {
        ppu.mem.palette_table[entry] = 0xff;
    }
    let mut frame = Frame::new();
    render(&mut ppu, &mut frame);
    let mut expected = Frame::new();
    render(&mut plain, &mut expected);
    assert_eq!(frame.data, expected.data);

    // Of a larger entry that is shown, the low six bits count.
    ppu.mem.palette_table[0] = 0x40 | 0x21;
    plain.mem.palette_table[0] = 0x21;
    render(&mut ppu, &mut frame);
    render(&mut plain, &mut expected);
    assert_eq!(frame.data, expected.data);
}
