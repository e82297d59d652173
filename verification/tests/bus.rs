//! The machine's bus: its map, its clocking and its transfers.

use nes_emulator::audio::SAMPLE_RATE;
use nes_emulator::bus::model::FrameHook;
use nes_emulator::bus::Bus;
use nes_emulator::cartridge::{Rom, CHR_ROM_PAGE_SIZE, PRG_ROM_PAGE_SIZE};
use nes_emulator::joypad::JoypadButton;
use nes_emulator::mapper::managed::ManagedMapper;
use nes_emulator::ppu::NesPPU;

fn test_rom(program: Vec<u8>) -> Rom {
    let mut raw = vec![
        0x4E, 0x45, 0x53, 0x1A, 0x02, 0x01, 0x01, 00, 00, 00, 00, 00, 00, 00, 00, 00,
    ];
    let mut prg = program;
    prg.resize(2 * PRG_ROM_PAGE_SIZE, 0);
    raw.extend(prg);
    raw.extend(vec![2; CHR_ROM_PAGE_SIZE]);
    Rom::new(&raw).unwrap()
}


fn test_bus() -> Bus<NesPPU<ManagedMapper>> {
    Bus::new(test_rom(vec![]))
}

#[test]
fn apu_registers_reachable_through_bus() {
    let mut bus = test_bus();
    bus.mem_write(0x4015, 0x01); // enable pulse 1
    bus.mem_write(0x4003, 0x08); // load its length counter
    assert_eq!(bus.mem_read(0x4015) & 0x01, 0x01);
}

#[test]
fn joypad2_reads_do_not_fall_through_to_unmapped_io() {
    let mut bus = test_bus();
    assert_eq!(bus.mem_read(0x4017), 0);
}

#[test]
fn frame_irq_reaches_bus_irq_line_and_status_read_clears_it() {
    let mut bus = test_bus();
    // 4-step mode with IRQ enabled is the power-up default; one full
    // sequence is 29830 CPU cycles.
    for _ in 0..(29830 / 10) {
        bus.tick(10);
    }
    assert!(bus.poll_irq_status());
    assert_eq!(bus.mem_read(0x4015) & 0x40, 0x40);
    assert!(!bus.poll_irq_status());
}

#[test]
fn dmc_dma_fetches_sample_bytes_from_prg_rom() {
    let mut bus = test_bus();
    // test_rom PRG is all zeroes; what matters here is that enabling
    // the DMC drains bytes via DMA as the bus ticks.
    bus.mem_write(0x4012, 0x00); // sample address $C000
    bus.mem_write(0x4013, 0x00); // length 1 byte
    bus.mem_write(0x4015, 0x10); // enable DMC
    for _ in 0..4 {
        let _ = bus.tick(1);
    }
    assert_eq!(bus.mem_read(0x4015) & 0x10, 0); // 0 bytes remaining
}

#[test]
fn dmc_dma_during_a_4016_read_steals_exactly_one_shift() {
    // The halt repeats the $4016 read three times, but /OE stays asserted
    // across the repeats so the controller's shift register only clocks
    // once. Together with the CPU's own read that is two clocks, not four:
    // the single-bit loss behind the DMC controller-corruption bug.
    fn read_4016_after_priming(with_dmc: bool) -> u8 {
        let mut bus = test_bus();
        bus.joypad1
            .set_button_pressed_status(JoypadButton::BUTTON_A, true);
        bus.mem_write(0x4016, 1); // strobe: reload the shift register
        bus.mem_write(0x4016, 0);
        if with_dmc {
            bus.mem_write(0x4012, 0x00);
            bus.mem_write(0x4013, 0x00);
            bus.mem_write(0x4015, 0x10); // enable DMC -> fetch pending
            assert!(bus.apu.dmc_dma_request().is_some());
        }
        // The pending fetch is serviced at the preceding read-slot
        // boundary; RDY then holds this $4016 slot for its repeats.
        if with_dmc {
            assert!(bus.dmc_halt_before_next_read().is_some());
            bus.repeat_dmc_halted_read(0x4016);
        }
        let _ = bus.mem_read(0x4016);
        // Count reads until the register runs past button 8 and returns 1s.
        let mut shifts = 1;
        while bus.mem_read(0x4016) != 1 {
            shifts += 1;
        }
        shifts
    }
    // A: pressed, so the 1 comes from running off the end of the register.
    let plain = read_4016_after_priming(false);
    let stolen = read_4016_after_priming(true);
    assert_eq!(stolen, plain - 1, "the halt should steal exactly one shift");
}

#[test]
fn dmc_dma_during_a_2007_read_repeats_the_read() {
    // With a DMC sample fetch pending, a CPU read cycle is halted (RDY low)
    // and the read address is re-read on each halt cycle before the real
    // read. For a side-effecting register like $2007 that means several
    // extra reads, each advancing the PPU address, ahead of the value the
    // CPU finally latches. A read with no DMC pending advances once.
    fn read_2007_after_priming(with_dmc: bool) -> (u8, usize) {
        let mut bus = test_bus();
        // Fill nametable $2000.. with distinct, sequential bytes.
        bus.mem_write(0x2006, 0x20);
        bus.mem_write(0x2006, 0x00);
        for i in 0..8u8 {
            bus.mem_write(0x2007, 0x40 + i);
        }
        if with_dmc {
            bus.mem_write(0x4012, 0x00); // sample address $C000
            bus.mem_write(0x4013, 0x00); // length 1 byte
            bus.mem_write(0x4015, 0x10); // enable DMC -> fetch pending
            assert!(bus.apu.dmc_dma_request().is_some());
        }
        // Point at $2000 and prime the buffered read.
        bus.mem_write(0x2006, 0x20);
        bus.mem_write(0x2006, 0x00);
        let _ = bus.mem_read(0x2007);
        // Service the DMA at the preceding read-slot boundary, then let
        // RDY hold this $2007 slot throughout the halt.
        let cycles_before = bus.cycles;
        if with_dmc {
            assert!(bus.dmc_halt_before_next_read().is_some());
            bus.repeat_dmc_halted_read(0x2007);
        }
        let value = bus.mem_read(0x2007);
        (value, bus.cycles - cycles_before)
    }

    let (plain, plain_cycles) = read_2007_after_priming(false);
    let (stolen, stolen_cycles) = read_2007_after_priming(true);
    assert_eq!(stolen, plain.wrapping_add(3));
    assert_eq!(plain_cycles, 0); // no halt when nothing is pending
    assert_eq!(stolen_cycles, 4);
}

#[test]
fn frame_callback_fires_at_vblank_without_nmi_enabled() {
    let mut bus = test_bus();
    let mut callbacks = 0;

    // The first vblank begins while the raster is still well short of the
    // end-of-frame wrap. PPUCTRL remains at reset with NMI disabled.
    for _ in 0..27_393 {
        bus.tick(1);
        callbacks += bus.take_host_frame_ready() as i32;
    }
    assert_eq!(callbacks, 0);
    bus.tick(1);
    callbacks += bus.take_host_frame_ready() as i32;
    assert_eq!(callbacks, 1);
}

#[test]
fn vblank_callback_input_is_visible_to_the_next_controller_poll() {
    let mut bus = test_bus();
    bus.set_frame_hook(FrameHook { buttons: Some(JoypadButton::BUTTON_A), drains: false });

    for _ in 0..27_394 {
        bus.tick(1);
    }
    bus.mem_write(0x4016, 1);
    bus.mem_write(0x4016, 0);
    assert_eq!(bus.mem_read(0x4016), 1);
}

#[test]
fn audio_chunks_are_delivered_before_a_video_frame_completes() {
    let mut bus = Bus::new_with_audio(test_rom(vec![]), 256);
    bus.apu.set_sample_rate(SAMPLE_RATE);
    let mut delivered = 0usize;

    // 11,000 CPU cycles produce about 271 samples, well before the first
    // vblank at ~27,394 cycles.
    for _ in 0..220 {
        bus.tick(50);
        for samples in bus.take_audio_chunks() {
            assert_eq!(samples.len(), 256);
            delivered += samples.len();
        }
    }
    assert_eq!(delivered, 256);
    assert!(bus.apu.buffered_samples() < 256);
}

#[test]
fn oam_dma_stalls_cpu_while_ppu_and_apu_keep_running() {
    let mut bus = test_bus();
    bus.mem_write(0x4014, 0x00);
    bus.tick(4);

    assert_eq!(bus.cycles, 4 + 513);

    let mut odd_bus = test_bus();
    odd_bus.tick(1);
    odd_bus.mem_write(0x4014, 0x00);
    odd_bus.tick(4);

    assert_eq!(odd_bus.cycles, 1 + 4 + 514);
}

#[test]
fn oam_dma_copies_the_page_into_oam_with_oamaddr_wrapping() {
    let mut bus = test_bus();
    // Fill the source page (zero page) with a recognizable pattern.
    for i in 0..256u16 {
        bus.mem_write(i, (i as u8) ^ 0x5a);
    }
    // Start the transfer at OAMADDR $10 so the destination wraps.
    bus.mem_write(0x2003, 0x10);
    bus.mem_write(0x4014, 0x00);
    bus.tick(1); // runs the deferred, cycle-stepped DMA

    for i in 0..256usize {
        let dst = (0x10 + i) & 0xff;
        assert_eq!(bus.ppu().mem.oam_data[dst], (i as u8) ^ 0x5a);
    }
    // 256 post-incrementing writes wrap OAMADDR back to where it started.
    assert_eq!(bus.ppu().regs.oam_addr, 0x10);
}

#[test]
fn oam_dma_advances_ppu_and_apu_across_the_whole_stall() {
    let mut bus = test_bus();
    let ppu_dots_before = bus.ppu().total_dots();
    let apu_before = bus.apu.cycle_count();

    bus.mem_write(0x4014, 0x02);
    bus.tick(2); // even boundary -> 513-cycle stall on top of the 2 ticks
    let elapsed = bus.cycles; // started at zero

    assert_eq!(elapsed, 2 + 513);
    // Every halted CPU cycle still clocks the PPU three dots and the APU
    // one cycle, so no time is lost during the transfer.
    assert_eq!(bus.ppu().total_dots() - ppu_dots_before, elapsed as u64 * 3);
    assert_eq!(bus.apu.cycle_count() - apu_before, elapsed);
}

#[test]
fn dmc_dma_steals_cycles_during_oam_dma_without_dropping_bytes() {
    let mut bus = test_bus();
    for i in 0..256u16 {
        bus.mem_write(i, i as u8);
    }
    // Arm the DMC so its buffer is empty and a fetch is pending the moment
    // the OAM DMA reaches its first get cycle. The slow default rate means
    // exactly one fetch is stolen during the ~514-cycle transfer.
    bus.mem_write(0x4012, 0x00); // sample address $C000
    bus.mem_write(0x4013, 0x10); // 257-byte sample: stays active
    bus.mem_write(0x4015, 0x10); // enable DMC

    let apu_before = bus.apu.cycle_count();
    let ppu_dots_before = bus.ppu().total_dots();
    bus.mem_write(0x4014, 0x00);
    bus.tick(1); // odd boundary -> 514-cycle base stall

    // One steal adds a halt/alignment cycle plus a DMC get cycle: two CPU
    // cycles on top of the one tick and the 514-cycle OAM transfer.
    assert_eq!(bus.cycles, 1 + 514 + 2);
    // The PPU and APU are clocked through the stolen cycles as well.
    assert_eq!(bus.apu.cycle_count() - apu_before, bus.cycles);
    assert_eq!(
        bus.ppu().total_dots() - ppu_dots_before,
        bus.cycles as u64 * 3
    );
    // The steal delays, but never drops, the OAM data: the page still
    // copies in full.
    for i in 0..256usize {
        assert_eq!(bus.ppu().mem.oam_data[i], i as u8);
    }
    // The DMC actually took its byte and is still playing the sample.
    assert_eq!(bus.mem_read(0x4015) & 0x10, 0x10);
}

#[test]
fn writes_to_read_only_ppustatus_drive_the_ppu_io_bus() {
    let mut bus = test_bus();
    bus.mem_write(0x2002, 0xa5);

    assert_eq!(bus.mem_read(0x2000), 0xa5);
    assert_eq!(bus.mem_read(0x3ff9), 0xa5);
}

#[test]
fn frame_callback_does_not_depend_on_nmi_enable() {
    let mut bus = test_bus();
    let mut callbacks = 0;

    // One NTSC PPU frame is 262 * 341 dots, advanced three dots per CPU
    // cycle. PPUCTRL remains at its reset value, with NMI disabled.
    for _ in 0..29_781 {
        bus.tick(1);
        callbacks += bus.take_host_frame_ready() as i32;
    }
    assert_eq!(callbacks, 1);
}

#[test]
fn a_hook_waits_for_vblank_and_stays() {
    let mut bus = test_bus();
    bus.joypad_mut().set_button_pressed_status(JoypadButton::UP, true);
    bus.set_frame_hook(FrameHook { buttons: Some(JoypadButton::START), drains: false });
    for _ in 0..27_393 {
        bus.tick(1);
    }
    assert!(!bus.has_host_frame_ready());
    assert_eq!(bus.joypad().port.button_status.bits, JoypadButton::UP);
    bus.tick(1);
    assert!(bus.has_host_frame_ready());
    assert_eq!(bus.joypad().port.button_status.bits, JoypadButton::START);

    // Whatever the host presses in between, the next frame sets it back.
    bus.joypad_mut().set_button_pressed_status(JoypadButton::START, false);
    for _ in 0..29_781 {
        bus.tick(1);
    }
    assert_eq!(bus.joypad().port.button_status.bits, JoypadButton::START);
}

#[test]
fn the_mark_keeps_the_figures_of_vblank() {
    let mut bus = test_bus();
    bus.mem_write(0x2006, 0x20); // drawing has begun: a visible write
    bus.mem_write(0x4014, 0x02);
    for _ in 0..27_394 - 513 {
        bus.tick(1);
    }
    let mark = bus.frame_mark();
    assert_eq!(mark.cycles, 27_394);
    assert_eq!(mark.diagnostics.oam_dma_count, 1);
    assert_eq!(mark.diagnostics.visible_register_writes, 1);
    assert_eq!(mark.diagnostics.last_register, 0x2006);

    bus.mem_write(0x4014, 0x02);
    bus.tick(100);
    assert_eq!(bus.frame_mark(), mark);
    assert_eq!(bus.ppu().probe_diagnostics().oam_dma_count, 2);
}

#[test]
fn a_draining_hook_hands_over_the_remainder() {
    let run = |drains: bool, enabled: bool| {
        let mut bus = Bus::new_with_audio(test_rom(vec![]), 256);
        bus.apu.set_sample_rate(SAMPLE_RATE);
        bus.set_audio_delivery_enabled(enabled);
        bus.set_frame_hook(FrameHook { buttons: None, drains });
        for _ in 0..27_394 {
            bus.tick(1);
        }
        let lengths: Vec<usize> = bus.take_audio_chunks().iter().map(|chunk| chunk.len()).collect();
        (lengths, bus.frame_mark().chunks, bus.apu.buffered_samples())
    };

    // 27,394 cycles are 734 samples and a bit.
    assert_eq!(run(true, true), (vec![256, 256, 222], 3, 0));
    assert_eq!(run(false, true), (vec![256, 256], 2, 222));
    assert_eq!(run(true, false), (vec![], 0, 734));
}

#[test]
fn a_snapshot_holds_the_controller_and_the_mark_but_not_the_hook() {
    let mut bus = test_bus();
    bus.set_frame_hook(FrameHook { buttons: Some(JoypadButton::BUTTON_B), drains: false });
    for _ in 0..27_394 {
        bus.tick(1);
    }
    let mark = bus.frame_mark();
    bus.joypad_mut().set_button_pressed_status(JoypadButton::LEFT, true);
    assert!(bus.joypad().last_input_sampled_at.is_some());
    let snapshot = bus.snapshot();

    // A poll ends the measurement that the press began.
    assert_eq!(bus.mem_read(0x4016), 0);
    assert!(bus.joypad().last_input_sampled_at.is_none());
    assert!(bus.joypad().last_input_to_poll_us().is_some());
    bus.set_frame_hook(FrameHook { buttons: None, drains: true });
    for _ in 0..29_781 {
        bus.tick(1);
    }
    assert_ne!(bus.frame_mark(), mark);

    bus.restore(snapshot);
    assert!(bus.joypad().last_input_sampled_at.is_some());
    assert!(bus.joypad().last_input_to_poll_us().is_none());
    assert_eq!(
        bus.joypad().port.button_status.bits,
        JoypadButton::BUTTON_B | JoypadButton::LEFT
    );
    assert_eq!(bus.frame_mark(), mark);
    assert_eq!(bus.hook, FrameHook { buttons: None, drains: true });
}

#[test]
fn traced_register_writes_are_handed_out_once() {
    let mut bus = test_bus();
    bus.mem_write(0x4015, 0x0f);
    assert!(bus.apu.take_register_writes().is_empty());

    bus.apu.trace_writes = true;
    bus.mem_write(0x4000, 0x30);
    bus.mem_write(0x4009, 0x12);
    bus.mem_write(0x4014, 0x02); // not a sound register
    bus.mem_write(0x4016, 0x01); // nor this
    bus.mem_write(0x4017, 0x40);
    let snapshot = bus.snapshot();
    bus.tick(4);
    bus.mem_write(0x4015, 0x1f);
    // What was noted stays noted, whatever is put back.
    bus.restore(snapshot);
    assert_eq!(
        bus.apu.take_register_writes(),
        vec![(0x4000, 0x30), (0x4009, 0x12), (0x4017, 0x40), (0x4015, 0x1f)]
    );
    assert!(bus.apu.take_register_writes().is_empty());
    assert!(bus.apu.trace_writes);
}

#[test]
fn oam_dma_copies_a_page_of_the_cartridge() {
    let program: Vec<u8> = (0..512u16).map(|i| (i as u8).wrapping_mul(7)).collect();
    let mut bus = Bus::new(test_rom(program));
    bus.mem_write(0x2003, 0x20);
    bus.mem_write(0x4014, 0x81);
    bus.tick(1);
    for i in 0..256usize {
        assert_eq!(bus.ppu().mem.oam_data[(0x20 + i) % 256], (i as u8).wrapping_mul(7));
    }
    // Nothing answers between $4100 and $5FFF.
    bus.mem_write(0x4014, 0x41);
    bus.tick(1);
    assert!(bus.ppu().mem.oam_data.iter().all(|&byte| byte == 0));
}

#[test]
fn a_nametable_byte_comes_back_through_the_ports_and_their_mirror() {
    let mut bus = test_bus(); // vertical mirroring
    let point = |bus: &mut Bus<NesPPU<ManagedMapper>>, addr: u16| {
        bus.mem_write(0x2006, (addr >> 8) as u8);
        bus.mem_write(0x2006, addr as u8);
    };
    point(&mut bus, 0x2c05);
    bus.mem_write(0x2007, 0x66);
    assert_eq!(bus.ppu().mem.vram[0x405], 0x66);
    assert_eq!(bus.ppu().mem.vram.iter().filter(|&&byte| byte != 0).count(), 1);
    assert_eq!(bus.ppu().regs.loopy.v, 0x2c06);
    for again in [0x2c05, 0x3c05] {
        point(&mut bus, again);
        bus.mem_read(0x2007);
        assert_eq!(bus.mem_read(0x2007), 0x66, "from {again:04x}");
    }

    // Stepping by 32.
    bus.mem_write(0x2000, 0x04);
    point(&mut bus, 0x2400);
    bus.mem_write(0x2007, 0x77);
    assert_eq!(bus.ppu().regs.loopy.v, 0x2420);
    // From $3EFF on the next read is a palette's, but the byte is buffered.
    bus.mem_write(0x2000, 0x00);
    point(&mut bus, 0x2eff);
    bus.mem_write(0x2007, 0x88);
    point(&mut bus, 0x3eff);
    bus.mem_read(0x2007);
    assert_eq!(bus.ppu().regs.internal_data_buf, 0x88);
    assert_eq!(bus.mem_read(0x2007) & 0x3f, 0x0f);
}

#[test]
fn a_fetch_costs_a_transfer_one_two_or_three_cycles() {
    // The last byte of a sample is asked for at a chosen cycle of a transfer,
    // counted from its halt cycle. The 256 reads and writes begin at cycle 2.
    fn stall(cycle: u16) -> usize {
        let mut bus = test_bus();
        let dmc = &mut bus.apu.channels.dmc;
        dmc.reader.bytes_remaining = 1;
        dmc.reader.sample_buffer = Some(0);
        dmc.unit.bits_remaining = 1;
        dmc.timer = cycle;
        bus.mem_write(0x4014, 0x00);
        bus.tick(1);
        bus.cycles - 1
    }

    for middle in [0, 1, 2, 3, 200, 201, 510] {
        assert_eq!(stall(middle), 514 + 2, "cycle {middle}");
    }
    assert_eq!(stall(511), 514 + 1); // the penultimate write
    assert_eq!(stall(512), 514 + 1); // the read behind it
    assert_eq!(stall(513), 514 + 3); // the final write
    assert_eq!(stall(514), 514); // too late to collide
}
