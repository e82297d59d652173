//! The sound unit: its registers, status, interrupts and sampling.

use nes_emulator::apu::NesAPU;

#[test]
fn status_reflects_length_counters() {
    let mut apu = NesAPU::new();
    assert_eq!(apu.read_status() & 0x1f, 0);
    apu.write_register(0x4015, 0x0f); // enable pulse1/2, triangle, noise
    apu.write_register(0x4003, 0x08); // load pulse1 length
    apu.write_register(0x4007, 0x08); // load pulse2 length
    apu.write_register(0x400b, 0x08); // load triangle length
    apu.write_register(0x400f, 0x08); // load noise length
    assert_eq!(apu.read_status() & 0x1f, 0x0f);
}

#[test]
fn disabling_channel_clears_length_counter() {
    let mut apu = NesAPU::new();
    apu.write_register(0x4015, 0x01);
    apu.write_register(0x4003, 0x08);
    assert_eq!(apu.read_status() & 0x01, 0x01);
    apu.write_register(0x4015, 0x00);
    assert_eq!(apu.read_status() & 0x01, 0);
}

#[test]
fn writes_to_disabled_channel_length_are_ignored() {
    let mut apu = NesAPU::new();
    apu.write_register(0x4003, 0x08); // pulse1 not enabled
    assert_eq!(apu.read_status() & 0x01, 0);
}

#[test]
fn frame_irq_raised_and_cleared_by_status_read() {
    let mut apu = NesAPU::new();
    // 4-step mode is the power-up default; run one full sequence.
    for _ in 0..29830 {
        apu.tick(1);
    }
    assert!(apu.irq_pending());
    let status = apu.read_status();
    assert_eq!(status & 0x40, 0x40);
    assert!(!apu.irq_pending());
    assert_eq!(apu.read_status() & 0x40, 0);
}

#[test]
fn frame_irq_inhibited_by_4017_bit6() {
    let mut apu = NesAPU::new();
    apu.write_register(0x4017, 0x40);
    for _ in 0..30000 {
        apu.tick(1);
    }
    assert!(!apu.irq_pending());
}

#[test]
fn five_step_mode_produces_no_irq() {
    let mut apu = NesAPU::new();
    apu.write_register(0x4017, 0x80);
    for _ in 0..40000 {
        apu.tick(1);
    }
    assert!(!apu.irq_pending());
}

#[test]
fn half_frame_clocks_length_counters() {
    let mut apu = NesAPU::new();
    apu.write_register(0x4015, 0x01);
    apu.write_register(0x4003, 0x18); // length index 3 -> 2
    // The half-frame clocks at CPU cycles 14913 and 29829 empty it.
    for _ in 0..15000 {
        apu.tick(1);
    }
    assert_eq!(apu.read_status() & 0x01, 0x01);
    for _ in 0..15000 {
        apu.tick(1);
    }
    assert_eq!(apu.read_status() & 0x01, 0);
}

#[test]
fn dmc_enable_reflected_in_status() {
    let mut apu = NesAPU::new();
    apu.write_register(0x4013, 0x01); // 17 bytes
    apu.write_register(0x4015, 0x10);
    assert_eq!(apu.read_status() & 0x10, 0x10);
    apu.write_register(0x4015, 0x00);
    assert_eq!(apu.read_status() & 0x10, 0);
}

#[test]
fn sampling_produces_roughly_sample_rate_per_second() {
    let mut apu = NesAPU::new();
    // One NTSC frame is 29780.5 CPU cycles; tick 60 frames' worth.
    for _ in 0..1_786_830usize / 255 {
        apu.tick(255);
    }
    let n = apu.drain_samples().len();
    // ~1 second of emulated time -> ~48000 samples (+-1%).
    assert!((47000..49000).contains(&n), "got {} samples", n);
}

#[test]
fn a_rate_of_zero_stops_samples_but_not_time() {
    let mut apu = NesAPU::new();
    apu.set_sample_rate(0);
    for _ in 0..10 {
        apu.tick(10);
    }
    assert_eq!(apu.buffered_samples(), 0);
    // A hundred cycles are two samples and a bit at 48 kHz, made up for one a
    // cycle.
    apu.set_sample_rate(48_000);
    apu.tick(1);
    assert_eq!(apu.buffered_samples(), 1);
    apu.tick(1);
    assert_eq!(apu.buffered_samples(), 2);
    apu.tick(1);
    assert_eq!(apu.buffered_samples(), 2);
}
