//! The picture unit: its raster, registers, memories and interrupts.

use nes_emulator::cartridge::{CartridgeMemory, CartridgeMetadata, Mirroring, Rom};
use nes_emulator::mapper::managed::{from_rom, ManagedMapper};
use nes_emulator::mapper::nrom::Nrom;
use nes_emulator::mapper::Mapper;
use nes_emulator::ppu::io::PPU_IO_BUS_DECAY_DOTS;
use nes_emulator::ppu::sprites::SpriteUnit;
use nes_emulator::ppu::{output_color, NesPPU};
use nes_emulator::render::palette::SYSTEM_PALLETE;

fn test_nrom(chr: Vec<u8>, mirroring: Mirroring) -> Nrom {
    Nrom::new(vec![0; 0x8000], chr, true, mirroring)
}

fn new_empty_rom() -> NesPPU<Nrom> {
    NesPPU::new(test_nrom(vec![0; 0x2000], Mirroring::Horizontal))
}

// Most dot-phase tests start the raster at an arbitrary position and are
// concerned with the pipeline once it is already active. Keep those tests
// independent of PPUMASK's transition delay; dedicated tests below cover
// the delay itself.
fn force_mask<M: Mapper>(ppu: &mut NesPPU<M>, value: u8) {
    ppu.write_to_mask(value);
    let rendering = ppu.regs.mask.show_background() || ppu.regs.mask.show_sprites();
    ppu.gate.enabled = rendering;
    ppu.gate.pending = rendering;
    ppu.gate.change_at = None;
}

fn mmc3_ppu() -> NesPPU<ManagedMapper> {
    NesPPU::new(from_rom(Rom {
        // MMC3 fixes its final two 8 KB banks, so give it a conventional
        // 32 KB PRG image even though this timing test never reads it.
        prg_rom: vec![0; 0x8000],
        chr_rom: vec![0; 0x2000],
        mapper: 4,
        metadata: CartridgeMetadata::test_defaults(),
        memory: CartridgeMemory::test_defaults(0x8000, 0x2000),
        screen_mirroring: Mirroring::Vertical,
    }))
}

// The PPU, not the CPU or renderer, is responsible
// for clocking MMC3's scanline IRQ. A disabled screen must not create A12
// edges, while the first visible rendered line must clock the configured
// counter and expose the IRQ through the mapper.
#[test]
fn rendered_scanline_clocks_mmc3_irq_but_blank_scanline_does_not() {
    let mut ppu = mmc3_ppu();
    {
        let mapper = &mut ppu.mapper;
        mapper.cpu_write(0xc000, 0); // latch zero: assert on the first clock
        mapper.cpu_write(0xc001, 0); // request reload
        mapper.cpu_write(0xe001, 0); // enable IRQ
    }

    // Cross scanline 0 with rendering disabled. `tick` accepts a u8, so
    // use two calls to reach its 341 PPU-cycle boundary.
    ppu.tick(255);
    ppu.tick(86);
    assert!(!ppu.mapper.irq_pending());

    // Cross scanline 1 with background rendering enabled: the PPU clocks
    // MMC3 once from the sprite-table A12 edge and holds its IRQ line high.
    ppu.write_to_ctrl(0x08); // sprites at $1000, background at $0000
    ppu.write_to_mask(0b0000_1000);
    ppu.tick(255);
    ppu.tick(86);
    assert!(ppu.mapper.irq_pending());
}

#[test]
fn mmc3_a12_edges_follow_background_and_sprite_pattern_table_selection() {
    for (ctrl, expected_irq) in [(0x00, false), (0x08, true), (0x10, true), (0x18, true)] {
        let mut ppu = mmc3_ppu();
        {
            let mapper = &mut ppu.mapper;
            mapper.cpu_write(0xc000, 0);
            mapper.cpu_write(0xc001, 0);
            mapper.cpu_write(0xe001, 0);
        }
        ppu.write_to_ctrl(ctrl);
        ppu.write_to_mask(0x18);

        // Two lines cover both intra-line table transitions and the
        // qualified edge after the dummy-fetch low period at line end.
        for _ in 0..2 {
            ppu.tick(255);
            ppu.tick(86);
        }

        assert_eq!(
            ppu.mapper.irq_pending(),
            expected_irq,
            "PPUCTRL pattern-table selection {ctrl:#04x}"
        );
    }
}

#[test]
fn ppudata_accesses_are_visible_to_the_mmc3_a12_filter() {
    let mut ppu = mmc3_ppu();
    {
        let mapper = &mut ppu.mapper;
        mapper.cpu_write(0xc000, 0);
        mapper.cpu_write(0xc001, 0);
        mapper.cpu_write(0xe001, 0);
    }

    ppu.write_to_ppu_addr(0x00);
    ppu.write_to_ppu_addr(0x00);
    ppu.write_to_data(0);
    ppu.tick(8);
    ppu.write_to_ppu_addr(0x10);
    ppu.write_to_ppu_addr(0x00);
    ppu.write_to_data(0);

    assert!(ppu.mapper.irq_pending());
}

#[test]
fn ppuaddr_write_can_clock_mmc3_from_a12_low_to_high() {
    let mut ppu = mmc3_ppu();
    {
        let mapper = &mut ppu.mapper;
        mapper.cpu_write(0xc000, 0);
        mapper.cpu_write(0xc001, 0);
        mapper.cpu_write(0xe001, 0);
    }

    ppu.write_to_ppu_addr(0x00);
    ppu.write_to_ppu_addr(0x00);
    ppu.tick(8);
    ppu.write_to_ppu_addr(0x10);
    ppu.write_to_ppu_addr(0x00);

    assert!(ppu.mapper.irq_pending());
}

#[test]
fn ppudata_increment_across_0fff_clocks_mmc3_a12() {
    for read in [false, true] {
        let mut ppu = mmc3_ppu();
        {
            let mapper = &mut ppu.mapper;
            mapper.cpu_write(0xc000, 0);
            mapper.cpu_write(0xc001, 0);
            mapper.cpu_write(0xe001, 0);
        }
        ppu.write_to_ppu_addr(0x0f);
        ppu.write_to_ppu_addr(0xff);
        ppu.tick(8);

        if read {
            ppu.read_data();
        } else {
            ppu.write_to_data(0);
        }

        assert!(ppu.mapper.irq_pending(), "PPUDATA read={read}");
    }
}

#[test]
fn vblank_starts_at_scanline_241_dot_1() {
    let mut ppu = new_empty_rom();
    ppu.raster.scanline = 241;
    ppu.raster.dot = 0;
    ppu.write_to_ctrl(0x80);

    ppu.tick(1); // enter dot 1
    assert!(ppu.regs.status.is_in_vblank());
    assert_eq!(ppu.poll_nmi_interrupt(), None);

    ppu.tick(2); // synchronize the NMI edge into the CPU domain
    assert_eq!(ppu.poll_nmi_interrupt(), Some(1));
}

#[test]
fn status_read_just_before_vblank_suppresses_flag_and_nmi() {
    let mut ppu = new_empty_rom();
    ppu.raster.scanline = 241;
    ppu.raster.dot = 0;
    ppu.write_to_ctrl(0x80);

    ppu.read_status();
    ppu.tick(2); // process dots 0 and 1

    assert!(!ppu.regs.status.is_in_vblank());
    assert_eq!(ppu.poll_nmi_interrupt(), None);
}

#[test]
fn pre_render_dot_one_clears_all_rendering_status_flags() {
    let mut ppu = new_empty_rom();
    ppu.regs.status.set_vblank_status(true);
    ppu.regs.status.set_sprite_zero_hit(true);
    ppu.regs.status.set_sprite_overflow(true);
    ppu.raster.scanline = 261;
    ppu.raster.dot = 0;

    ppu.tick(1);

    assert_eq!(ppu.regs.status.snapshot() & 0xe0, 0);
}

#[test]
fn enabling_nmi_during_vblank_raises_an_edge_after_the_next_instruction() {
    let mut ppu = new_empty_rom();
    ppu.regs.status.set_vblank_status(true);

    ppu.write_to_ctrl(0x80);

    assert_eq!(ppu.poll_nmi_interrupt(), None);
    ppu.tick(6);
    assert_eq!(ppu.poll_nmi_interrupt(), Some(1));
}

#[test]
fn ppumask_rendering_ownership_changes_after_four_complete_dots() {
    let mut ppu = new_empty_rom();

    ppu.write_to_mask(0x08);
    assert!(!ppu.rendering_enabled());
    ppu.tick(1);
    assert!(!ppu.rendering_enabled());
    ppu.tick(1);
    assert!(!ppu.rendering_enabled());
    ppu.tick(1);
    assert!(!ppu.rendering_enabled());
    ppu.tick(1);
    assert!(!ppu.rendering_enabled());
    ppu.tick(1);
    assert!(ppu.rendering_enabled());

    ppu.write_to_mask(0x00);
    ppu.tick(1);
    assert!(ppu.rendering_enabled());
    ppu.tick(1);
    assert!(ppu.rendering_enabled());
    ppu.tick(1);
    assert!(ppu.rendering_enabled());
    ppu.tick(1);
    assert!(ppu.rendering_enabled());
    ppu.tick(1);
    assert!(!ppu.rendering_enabled());
}

#[test]
fn ppumask_transition_can_be_retracted_before_it_reaches_the_renderer() {
    let mut ppu = new_empty_rom();
    ppu.write_to_mask(0x08);
    ppu.tick(1);
    ppu.write_to_mask(0x00);

    ppu.tick(3);

    assert!(!ppu.rendering_enabled());
    assert_eq!(ppu.gate.change_at, None);
}

#[test]
fn left_background_clip_changes_on_the_first_pixel_after_the_write() {
    let mut ppu = new_empty_rom();
    force_mask(&mut ppu, 0x08); // background on, left column clipped
    ppu.mem.palette_table[0] = 0x0f;
    ppu.mem.palette_table[1] = 0x30;

    ppu.bg.pattern_lo = 0x4000;
    ppu.raster.dot = 1;
    ppu.tick(1);

    ppu.write_to_mask(0x0a); // expose background in the left column
    ppu.bg.pattern_lo = 0x4000;
    ppu.tick(1);

    ppu.write_to_mask(0x08); // clip it again on the following pixel
    ppu.bg.pattern_lo = 0x4000;
    ppu.tick(1);

    let backdrop = SYSTEM_PALLETE[0x0f];
    let foreground = SYSTEM_PALLETE[0x30];
    assert_eq!(
        &ppu.frame().data[0..3],
        &[backdrop.0, backdrop.1, backdrop.2]
    );
    assert_eq!(
        &ppu.frame().data[3..6],
        &[foreground.0, foreground.1, foreground.2]
    );
    assert_eq!(
        &ppu.frame().data[6..9],
        &[backdrop.0, backdrop.1, backdrop.2]
    );
}

#[test]
fn blanked_output_uses_palette_address_left_in_v() {
    let mut ppu = new_empty_rom();
    ppu.mem.palette_table[5] = 0x30;
    ppu.write_to_ppu_addr(0x3f);
    ppu.write_to_ppu_addr(0x05);
    ppu.raster.dot = 1;

    ppu.tick(1);

    let expected = SYSTEM_PALLETE[0x30];
    assert_eq!(
        &ppu.frame().data[0..3],
        &[expected.0, expected.1, expected.2]
    );
}

#[test]
fn status_read_on_vblank_set_dot_does_not_poison_the_next_frame() {
    let mut ppu = new_empty_rom();
    ppu.write_to_ctrl(0x80);
    ppu.raster.scanline = 241;
    ppu.raster.dot = 0;
    ppu.tick(1);

    assert_eq!(ppu.read_status() & 0x80, 0x80);
    assert!(!ppu.nmi.suppress_vblank);
    assert_eq!(ppu.poll_nmi_interrupt(), None);

    // Jump to the next frame's set point. The post-set read above must not
    // be mistaken for a pre-set read and suppress this event as well.
    ppu.raster.scanline = 241;
    ppu.raster.dot = 0;
    ppu.tick(1);
    assert!(ppu.regs.status.is_in_vblank());
}

#[test]
fn status_read_suppression_window_ends_two_dots_after_vblank_set() {
    let mut suppressed = new_empty_rom();
    suppressed.write_to_ctrl(0x80);
    suppressed.raster.scanline = 241;
    suppressed.raster.dot = 0;
    suppressed.tick(1); // vblank set
    suppressed.tick(1); // one dot after set
    assert_eq!(suppressed.read_status() & 0x80, 0x80);
    suppressed.tick(2);
    assert_eq!(suppressed.poll_nmi_interrupt(), None);

    let mut recognized = new_empty_rom();
    recognized.write_to_ctrl(0x80);
    recognized.raster.scanline = 241;
    recognized.raster.dot = 0;
    recognized.tick(1); // vblank set
    recognized.tick(2); // two dots after set: CPU has recognized the edge
    assert_eq!(recognized.read_status() & 0x80, 0x80);
    assert_eq!(recognized.poll_nmi_interrupt(), Some(1));
}

#[test]
fn disabling_nmi_only_cancels_an_edge_before_cpu_recognition() {
    let mut cancelled = new_empty_rom();
    cancelled.write_to_ctrl(0x80);
    cancelled.raster.scanline = 241;
    cancelled.raster.dot = 0;
    cancelled.tick(1);
    cancelled.tick(1); // one dot after vblank set
    cancelled.write_to_ctrl(0x00);
    cancelled.tick(2);
    assert_eq!(cancelled.poll_nmi_interrupt(), None);

    let mut recognized = new_empty_rom();
    recognized.write_to_ctrl(0x80);
    recognized.raster.scanline = 241;
    recognized.raster.dot = 0;
    recognized.tick(1);
    recognized.tick(2); // recognition point
    recognized.write_to_ctrl(0x00);
    assert_eq!(recognized.poll_nmi_interrupt(), Some(1));
}

#[test]
fn toggling_ppuctrl_can_generate_multiple_immediate_nmis_in_one_vblank() {
    let mut ppu = new_empty_rom();
    ppu.regs.status.set_vblank_status(true);

    ppu.write_to_ctrl(0x80);
    let first_edge_at = ppu.nmi.due_at;
    ppu.write_to_ctrl(0x80);
    assert_eq!(ppu.nmi.due_at, first_edge_at);
    ppu.tick(6);
    assert_eq!(ppu.poll_nmi_interrupt(), Some(1));

    ppu.write_to_ctrl(0x00);
    ppu.write_to_ctrl(0x80);
    ppu.tick(6);
    assert_eq!(ppu.poll_nmi_interrupt(), Some(1));
}

#[test]
fn sprite_zero_hit_is_asserted_at_the_overlap_dot() {
    let mut ppu = new_empty_rom();
    ppu.write_to_mask(0b0001_1110);
    ppu.mem.vram[0..33].fill(1);
    // Tile 1 is opaque on sprite row zero and background row one.
    ppu.mapper.ppu_write(16, 0xff);
    ppu.mapper.ppu_write(17, 0xff);
    ppu.mem.oam_data[0..4].copy_from_slice(&[0, 1, 0, 8]);
    // Run the pre-render line and scanline zero so the hardware fetch and
    // sprite-evaluation pipelines prepare scanline one.
    ppu.raster.scanline = 261;
    ppu.raster.dot = 0;
    ppu.tick(255);
    ppu.tick(86);
    ppu.tick(255);
    ppu.tick(86);

    ppu.tick(9); // process dots 0..=8 on scanline one
    assert_eq!(ppu.regs.status.snapshot() & 0x40, 0);
    ppu.tick(1); // sprite x=8 becomes visible on PPU dot 9
    assert_eq!(ppu.regs.status.snapshot() & 0x40, 0x40);
}

#[test]
fn sprite_zero_hit_obeys_left_clipping_and_never_fires_at_x255() {
    let mut ppu = new_empty_rom();
    let sprite = SpriteUnit {
        pattern_lo: 0x80,
        pattern_hi: 0,
        attributes: 0,
        x_counter: 0,
        oam_index: 0,
        valid: true,
    };

    force_mask(&mut ppu, 0x18); // rendering on, left eight pixels clipped
    // The background pipeline shifts immediately before composing a dot.
    ppu.bg.pattern_lo = 0x4000;
    ppu.sprites.current[0] = sprite;
    ppu.raster.dot = 1;
    ppu.tick(1);
    assert_eq!(ppu.regs.status.snapshot() & 0x40, 0);

    ppu.write_to_mask(0x1e); // show background and sprites in left edge
    ppu.bg.pattern_lo = 0x4000;
    ppu.sprites.current[0] = sprite;
    ppu.raster.dot = 1;
    ppu.tick(1);
    assert_eq!(ppu.regs.status.snapshot() & 0x40, 0x40);

    ppu.regs.status.set_sprite_zero_hit(false);
    ppu.bg.pattern_lo = 0x4000;
    ppu.sprites.current[0] = sprite;
    ppu.raster.dot = 256;
    ppu.tick(1);
    assert_eq!(ppu.regs.status.snapshot() & 0x40, 0);
}

#[test]
fn background_fetches_follow_the_eight_dot_bus_sequence() {
    let mut ppu = new_empty_rom();
    force_mask(&mut ppu, 0x08);
    ppu.mem.vram[0] = 2;
    ppu.mem.vram[0x03c0] = 0b11;
    ppu.mapper.ppu_write(32, 0xaa);
    ppu.mapper.ppu_write(40, 0x55);
    ppu.raster.dot = 1;

    ppu.tick(1);
    assert_eq!(ppu.bg.next_tile_id, 2);
    ppu.tick(2);
    assert_eq!(ppu.bg.next_tile_attr, 3);
    ppu.tick(2);
    assert_eq!(ppu.bg.next_tile_lo, 0xaa);
    ppu.tick(2);
    assert_eq!(ppu.bg.next_tile_hi, 0x55);
    ppu.tick(1);
    assert_eq!(ppu.regs.loopy.current() & 0x1f, 1);
}

#[test]
fn first_visible_pixel_comes_from_pre_render_fetches() {
    let mut ppu = new_empty_rom();
    ppu.write_to_mask(0x0a);
    ppu.mem.palette_table[1] = 0x30;
    ppu.mem.vram[0] = 1;
    ppu.mapper.ppu_write(16, 0x80);
    ppu.raster.scanline = 261;

    ppu.tick(255);
    ppu.tick(86);
    ppu.tick(2); // scanline zero dots 0 and 1

    let expected = SYSTEM_PALLETE[0x30];
    assert_eq!(&ppu.frame().data[0..3], &[expected.0, expected.1, expected.2]);
}

#[test]
fn sprite_evaluation_selects_eight_and_sets_overflow() {
    let mut ppu = new_empty_rom();
    ppu.write_to_mask(0x10);
    for sprite in 0..9 {
        ppu.mem.oam_data[sprite * 4..sprite * 4 + 4]
            .copy_from_slice(&[0, 1, 0, (sprite * 8) as u8]);
    }
    ppu.raster.dot = 65;
    ppu.tick(192);
    assert_eq!(ppu.eval.count, 8);
    assert_ne!(ppu.regs.status.snapshot() & 0x20, 0);
}

#[test]
fn loopy_scroll_copies_happen_on_their_hardware_dots() {
    let mut ppu = new_empty_rom();
    force_mask(&mut ppu, 0x08);

    // Establish v=0, then change only temporary horizontal scroll.
    ppu.write_to_scroll(0);
    ppu.write_to_scroll(0);
    ppu.sync_scroll_for_test();
    ppu.read_status();
    ppu.write_to_scroll(0x28); // t coarse X = 5
    ppu.raster.scanline = 0;
    ppu.raster.dot = 256;
    ppu.tick(1);
    assert_eq!(ppu.regs.loopy.current() & 0x001f, 1);
    ppu.tick(1);
    assert_eq!(ppu.regs.loopy.current() & 0x001f, 5);

    // Change temporary vertical scroll; it is copied during pre-render
    // dots 280-304, not at the frame boundary.
    ppu.read_status();
    ppu.write_to_scroll(0);
    ppu.write_to_scroll(0x28); // t coarse Y = 5
    ppu.raster.scanline = 261;
    ppu.raster.dot = 279;
    ppu.tick(1);
    assert_ne!((ppu.regs.loopy.current() >> 5) & 0x1f, 5);
    ppu.tick(1);
    assert_eq!((ppu.regs.loopy.current() >> 5) & 0x1f, 5);
}

#[test]
fn odd_rendered_frame_skips_pre_render_dot_340() {
    let mut ppu = new_empty_rom();
    force_mask(&mut ppu, 0x08);
    ppu.raster.scanline = 261;
    ppu.raster.dot = 0;

    let mut even_dots = 0;
    while !ppu.tick(1) {
        even_dots += 1;
    }
    even_dots += 1;
    assert_eq!(even_dots, 341);

    ppu.raster.scanline = 261;
    ppu.raster.dot = 0;
    let mut odd_dots = 0;
    while !ppu.tick(1) {
        odd_dots += 1;
    }
    odd_dots += 1;
    assert_eq!(odd_dots, 340);
}

#[test]
fn odd_blank_frame_keeps_pre_render_dot_340() {
    let mut ppu = new_empty_rom();
    ppu.raster.scanline = 261;
    ppu.raster.dot = 0;
    ppu.raster.odd_frame = true;

    let mut dots = 0;
    while !ppu.tick(1) {
        dots += 1;
    }
    dots += 1;

    assert_eq!(dots, 341);
}

#[test]
fn test_ppu_vram_writes() {
    let mut ppu = new_empty_rom();
    ppu.write_to_ppu_addr(0x23);
    ppu.write_to_ppu_addr(0x05);
    ppu.write_to_data(0x66);

    assert_eq!(ppu.mem.vram[0x0305], 0x66);
}

#[test]
fn nametable_space_3000_through_3eff_mirrors_2000_through_2eff() {
    let mut ppu = new_empty_rom();

    ppu.write_to_ppu_addr(0x30);
    ppu.write_to_ppu_addr(0x05);
    ppu.write_to_data(0x66);
    ppu.write_to_ppu_addr(0x20);
    ppu.write_to_ppu_addr(0x05);
    ppu.read_data();
    assert_eq!(ppu.read_data(), 0x66);

    ppu.write_to_ppu_addr(0x2e);
    ppu.write_to_ppu_addr(0xff);
    ppu.write_to_data(0x77);
    ppu.write_to_ppu_addr(0x3e);
    ppu.write_to_ppu_addr(0xff);
    ppu.read_data();
    ppu.write_to_ppu_addr(0x20);
    ppu.write_to_ppu_addr(0x00);
    assert_eq!(ppu.read_data(), 0x77);
}

#[test]
fn palette_universal_background_entries_alias_on_reads_and_writes() {
    let mut ppu = new_empty_rom();

    for (offset, value) in [(0x00, 0x01), (0x04, 0x12), (0x08, 0x23), (0x0c, 0x34)] {
        ppu.write_to_ppu_addr(0x3f);
        ppu.write_to_ppu_addr(offset);
        ppu.write_to_data(value);

        ppu.write_to_ppu_addr(0x3f);
        ppu.write_to_ppu_addr(0x10 + offset);
        assert_eq!(ppu.read_data(), value);
    }
}

#[test]
fn palette_ram_mirrors_through_3fff() {
    let mut ppu = new_empty_rom();

    ppu.write_to_ppu_addr(0x3f);
    ppu.write_to_ppu_addr(0x20);
    ppu.write_to_data(0x21);
    ppu.write_to_ppu_addr(0x3f);
    ppu.write_to_ppu_addr(0x00);
    assert_eq!(ppu.read_data(), 0x21);

    ppu.write_to_ppu_addr(0x3f);
    ppu.write_to_ppu_addr(0xff);
    ppu.write_to_data(0x32);
    ppu.write_to_ppu_addr(0x3f);
    ppu.write_to_ppu_addr(0x1f);
    assert_eq!(ppu.read_data(), 0x32);
}

#[test]
fn palette_read_refills_buffer_from_underlying_nametable() {
    let mut ppu = new_empty_rom();
    let underlying = ppu.mirror_vram_addr(0x2f05) as usize;
    ppu.mem.vram[underlying] = 0x5a;
    ppu.mem.palette_table[5] = 0x2a;

    ppu.write_to_ppu_addr(0x3f);
    ppu.write_to_ppu_addr(0x05);
    assert_eq!(ppu.read_data(), 0x2a);

    ppu.write_to_ppu_addr(0x20);
    ppu.write_to_ppu_addr(0x00);
    assert_eq!(ppu.read_data(), 0x5a);
}

#[test]
fn palette_read_combines_six_bit_value_with_ppu_io_bus_high_bits() {
    let mut ppu = new_empty_rom();
    ppu.mem.palette_table[0] = 0x2a;

    // The low address write is the last value on the I/O bus. $3FC0
    // mirrors $3F00 and leaves both high bits set for the palette read.
    ppu.write_to_ppu_addr(0x3f);
    ppu.write_to_ppu_addr(0xc0);
    assert_eq!(ppu.read_data(), 0xea);
}

#[test]
fn grayscale_masks_palette_reads_and_pixel_palette_indices() {
    let mut ppu = new_empty_rom();
    ppu.mem.palette_table[1] = 0x2f;
    ppu.write_to_mask(0x01);

    ppu.write_to_ppu_addr(0x3f);
    ppu.write_to_ppu_addr(0x01);
    assert_eq!(ppu.read_data(), 0x20);
    assert_eq!(output_color(ppu.regs.mask, 0x2f), SYSTEM_PALLETE[0x20]);
}

#[test]
fn emphasis_attenuates_the_other_rgb_channels() {
    let mut ppu = new_empty_rom();

    ppu.write_to_mask(0x20);
    assert_eq!(output_color(ppu.regs.mask, 0x30), (0xff, 0xbf, 0xbf));
    ppu.write_to_mask(0x40);
    assert_eq!(output_color(ppu.regs.mask, 0x30), (0xbf, 0xff, 0xbf));
    ppu.write_to_mask(0x80);
    assert_eq!(output_color(ppu.regs.mask, 0x30), (0xbf, 0xbf, 0xff));
}

#[test]
fn ppustatus_preserves_low_bits_from_the_ppu_io_bus() {
    let mut ppu = new_empty_rom();
    ppu.regs.status.set_vblank_status(true);
    ppu.write_to_status(0x1b);

    assert_eq!(ppu.read_status(), 0x9b);
}

#[test]
fn write_only_register_reads_do_not_refresh_the_io_bus() {
    let mut ppu = new_empty_rom();
    ppu.write_to_ctrl(0xa5);

    ppu.raster.total_dots = PPU_IO_BUS_DECAY_DOTS - 1;
    assert_eq!(ppu.read_io_data_bus(), 0xa5);
    ppu.raster.total_dots += 1;
    assert_eq!(ppu.read_io_data_bus(), 0x00);
}

#[test]
fn ppustatus_refreshes_only_the_three_status_bits() {
    let mut ppu = new_empty_rom();
    ppu.write_to_status(0x1f);
    ppu.regs.status.set_vblank_status(true);

    ppu.raster.total_dots = PPU_IO_BUS_DECAY_DOTS - 1;
    assert_eq!(ppu.read_status(), 0x9f);
    ppu.raster.total_dots += 1;
    assert_eq!(ppu.read_io_data_bus(), 0x80);
}

#[test]
fn palette_reads_refresh_only_the_six_palette_bits() {
    let mut ppu = new_empty_rom();
    ppu.mem.palette_table[0] = 0x2a;
    ppu.write_to_ppu_addr(0x3f);
    ppu.write_to_ppu_addr(0x00);
    ppu.write_to_status(0xc0);

    ppu.raster.total_dots = PPU_IO_BUS_DECAY_DOTS - 1;
    assert_eq!(ppu.read_data(), 0xea);

    ppu.raster.total_dots += 1;
    assert_eq!(ppu.read_io_data_bus(), 0x2a);
}

#[test]
fn oam_attribute_reads_clear_unimplemented_bits() {
    let mut ppu = new_empty_rom();
    ppu.write_to_oam_addr(0x02);
    ppu.write_to_oam_data(0xff);
    ppu.write_to_oam_addr(0x02);

    assert_eq!(ppu.read_oam_data(), 0xe3);
    assert_eq!(ppu.read_io_data_bus(), 0xe3);
}

#[test]
fn oamdata_reads_follow_the_internal_bus_during_rendering() {
    let mut ppu = new_empty_rom();
    ppu.mem.oam_data[0] = 0x23;
    ppu.mem.oam_data[1] = 0x45;
    force_mask(&mut ppu, 0x08);

    ppu.raster.dot = 1;
    ppu.tick(1);
    assert_eq!(ppu.read_oam_data(), 0xff);

    ppu.raster.dot = 65;
    ppu.tick(1);
    assert_eq!(ppu.read_oam_data(), 0x23);

    ppu.eval.count = 1;
    ppu.eval.secondary_oam[0..4].copy_from_slice(&[0x12, 0x34, 0x56, 0x78]);
    ppu.raster.dot = 257;
    ppu.tick(1);
    assert_eq!(ppu.read_oam_data(), 0x12);
    ppu.tick(1);
    assert_eq!(ppu.read_oam_data(), 0x34);
}

#[test]
fn oamdata_writes_during_rendering_are_discarded_and_increment_by_four() {
    let mut ppu = new_empty_rom();
    ppu.mem.oam_data[0x10] = 0x55;
    ppu.write_to_oam_addr(0x10);
    force_mask(&mut ppu, 0x10);

    ppu.write_to_oam_data(0xaa);

    assert_eq!(ppu.mem.oam_data[0x10], 0x55);
    assert_eq!(ppu.regs.oam_addr, 0x14);
}

#[test]
fn sprite_fetch_resets_oamaddr_and_evaluation_applies_refresh_corruption() {
    let mut ppu = new_empty_rom();
    ppu.mem.oam_data[0x20..0x28].copy_from_slice(&[1, 2, 3, 4, 5, 6, 7, 8]);
    force_mask(&mut ppu, 0x08);
    ppu.write_to_oam_addr(0x23);
    ppu.raster.dot = 65;

    ppu.tick(1);
    assert_eq!(&ppu.mem.oam_data[0..8], &[1, 2, 3, 4, 5, 6, 7, 8]);

    ppu.write_to_oam_addr(0x80);
    ppu.raster.dot = 257;
    ppu.tick(1);
    assert_eq!(ppu.regs.oam_addr, 0);
}

#[test]
fn ppudata_access_during_rendering_increments_both_scroll_axes() {
    for read in [false, true] {
        let mut ppu = new_empty_rom();
        ppu.write_to_ctrl(0x04); // +32 is ignored while rendering.
        ppu.write_to_ppu_addr(0x00);
        ppu.write_to_ppu_addr(0x00);
        force_mask(&mut ppu, 0x08);
        ppu.raster.scanline = 100;
        ppu.raster.dot = 100;

        if read {
            ppu.read_data();
        } else {
            ppu.write_to_data(0x5a);
        }

        assert_eq!(ppu.regs.loopy.current(), 0x1001, "read={read}");
    }
}

#[test]
fn ppudata_access_during_vblank_keeps_the_linear_increment() {
    let mut ppu = new_empty_rom();
    ppu.write_to_ctrl(0x04);
    ppu.write_to_ppu_addr(0x20);
    ppu.write_to_ppu_addr(0x00);
    ppu.write_to_mask(0x08);
    ppu.raster.scanline = 241;
    ppu.raster.dot = 20;

    ppu.read_data();

    assert_eq!(ppu.regs.loopy.current(), 0x2020);
}

#[test]
fn test_ppu_vram_reads() {
    let mut ppu = new_empty_rom();
    ppu.write_to_ctrl(0);
    ppu.mem.vram[0x0305] = 0x66;

    ppu.write_to_ppu_addr(0x23);
    ppu.write_to_ppu_addr(0x05);

    ppu.read_data(); //load_into_buffer
    assert_eq!(ppu.regs.loopy.current(), 0x2306);
    assert_eq!(ppu.read_data(), 0x66);
}

#[test]
fn test_ppu_vram_reads_cross_page() {
    let mut ppu = new_empty_rom();
    ppu.write_to_ctrl(0);
    ppu.mem.vram[0x01ff] = 0x66;
    ppu.mem.vram[0x0200] = 0x77;

    ppu.write_to_ppu_addr(0x21);
    ppu.write_to_ppu_addr(0xff);

    ppu.read_data(); //load_into_buffer
    assert_eq!(ppu.read_data(), 0x66);
    assert_eq!(ppu.read_data(), 0x77);
}

#[test]
fn test_ppu_vram_reads_step_32() {
    let mut ppu = new_empty_rom();
    ppu.write_to_ctrl(0b100);
    ppu.mem.vram[0x01ff] = 0x66;
    ppu.mem.vram[0x01ff + 32] = 0x77;
    ppu.mem.vram[0x01ff + 64] = 0x88;

    ppu.write_to_ppu_addr(0x21);
    ppu.write_to_ppu_addr(0xff);

    ppu.read_data(); //load_into_buffer
    assert_eq!(ppu.read_data(), 0x66);
    assert_eq!(ppu.read_data(), 0x77);
    assert_eq!(ppu.read_data(), 0x88);
}

// Horizontal:
//   [0x2000 A ] [0x2400 a ]
//   [0x2800 B ] [0x2C00 b ]
#[test]
fn test_vram_horizontal_mirror() {
    let mut ppu = new_empty_rom();
    ppu.write_to_ppu_addr(0x24);
    ppu.write_to_ppu_addr(0x05);

    ppu.write_to_data(0x66); //write to a

    ppu.write_to_ppu_addr(0x28);
    ppu.write_to_ppu_addr(0x05);

    ppu.write_to_data(0x77); //write to B

    ppu.write_to_ppu_addr(0x20);
    ppu.write_to_ppu_addr(0x05);

    ppu.read_data(); //load into buffer
    assert_eq!(ppu.read_data(), 0x66); //read from A

    ppu.write_to_ppu_addr(0x2C);
    ppu.write_to_ppu_addr(0x05);

    ppu.read_data(); //load into buffer
    assert_eq!(ppu.read_data(), 0x77); //read from b
}

// Vertical:
//   [0x2000 A ] [0x2400 B ]
//   [0x2800 a ] [0x2C00 b ]
#[test]
fn test_vram_vertical_mirror() {
    let mut ppu = NesPPU::new(test_nrom(vec![0; 0x2000], Mirroring::Vertical));

    ppu.write_to_ppu_addr(0x20);
    ppu.write_to_ppu_addr(0x05);

    ppu.write_to_data(0x66); //write to A

    ppu.write_to_ppu_addr(0x2C);
    ppu.write_to_ppu_addr(0x05);

    ppu.write_to_data(0x77); //write to b

    ppu.write_to_ppu_addr(0x28);
    ppu.write_to_ppu_addr(0x05);

    ppu.read_data(); //load into buffer
    assert_eq!(ppu.read_data(), 0x66); //read from a

    ppu.write_to_ppu_addr(0x24);
    ppu.write_to_ppu_addr(0x05);

    ppu.read_data(); //load into buffer
    assert_eq!(ppu.read_data(), 0x77); //read from B
}

#[test]
fn test_read_status_resets_latch() {
    let mut ppu = new_empty_rom();
    ppu.mem.vram[0x0305] = 0x66;

    ppu.write_to_ppu_addr(0x21);
    ppu.write_to_ppu_addr(0x23);
    ppu.write_to_ppu_addr(0x05);

    ppu.read_data(); //load_into_buffer
    assert_ne!(ppu.read_data(), 0x66);

    ppu.read_status();

    ppu.write_to_ppu_addr(0x23);
    ppu.write_to_ppu_addr(0x05);

    ppu.read_data(); //load_into_buffer
    assert_eq!(ppu.read_data(), 0x66);
}

#[test]
fn test_ppu_vram_mirroring() {
    let mut ppu = new_empty_rom();
    ppu.write_to_ctrl(0);
    ppu.mem.vram[0x0305] = 0x66;

    ppu.write_to_ppu_addr(0x63); //0x6305 -> 0x2305
    ppu.write_to_ppu_addr(0x05);

    ppu.read_data(); //load into_buffer
    assert_eq!(ppu.read_data(), 0x66);
}

#[test]
fn test_read_status_resets_vblank() {
    let mut ppu = new_empty_rom();
    ppu.regs.status.set_vblank_status(true);

    let status = ppu.read_status();

    assert_eq!(status >> 7, 1);
    assert_eq!(ppu.regs.status.snapshot() >> 7, 0);
}

#[test]
fn test_oam_read_write() {
    let mut ppu = new_empty_rom();
    ppu.write_to_oam_addr(0x10);
    ppu.write_to_oam_data(0x66);
    ppu.write_to_oam_data(0x77);

    ppu.write_to_oam_addr(0x10);
    assert_eq!(ppu.read_oam_data(), 0x66);

    ppu.write_to_oam_addr(0x11);
    assert_eq!(ppu.read_oam_data(), 0x77);
}

#[test]
fn test_oam_dma() {
    let mut ppu = new_empty_rom();

    let mut data = [0x66; 256];
    data[0] = 0x77;
    data[255] = 0x88;

    ppu.write_to_oam_addr(0x10);
    ppu.write_oam_dma(&data);

    ppu.write_to_oam_addr(0xf); //wrap around
    assert_eq!(ppu.read_oam_data(), 0x88);

    ppu.write_to_oam_addr(0x10);
    assert_eq!(ppu.read_oam_data(), 0x77);

    ppu.write_to_oam_addr(0x11);
    assert_eq!(ppu.read_oam_data(), 0x66);
}

#[test]
fn oam_dma_during_rendering_does_not_modify_oam() {
    let mut ppu = new_empty_rom();
    ppu.mem.oam_data.fill(0x55);
    ppu.write_to_oam_addr(0x10);
    force_mask(&mut ppu, 0x10);

    ppu.write_oam_dma(&[0xaa; 256]);

    assert!(ppu.mem.oam_data.iter().all(|&value| value == 0x55));
    assert_eq!(ppu.regs.oam_addr, 0x10);
    assert_eq!(ppu.read_io_data_bus(), 0xaa);
}
