//! The delta modulation channel.

use nes_emulator::apu::dmc::Dmc;

#[test]
fn enable_restarts_finished_sample() {
    let mut d = Dmc::new();
    d.write_sample_address(0x02); // $C080
    d.write_sample_length(0x01); // 17 bytes
    assert_eq!(d.dma_request(), None);
    d.set_enabled(true);
    assert_eq!(d.reader.bytes_remaining, 17);
    assert_eq!(d.dma_request(), Some(0xc080));
}

#[test]
fn enable_does_not_restart_running_sample() {
    let mut d = Dmc::new();
    d.write_sample_length(0x01);
    d.set_enabled(true);
    d.dma_load(0xff);
    assert_eq!(d.reader.bytes_remaining, 16);
    d.set_enabled(true);
    assert_eq!(d.reader.bytes_remaining, 16); // unchanged
}

#[test]
fn disable_stops_fetches() {
    let mut d = Dmc::new();
    d.write_sample_length(0x01);
    d.set_enabled(true);
    d.set_enabled(false);
    assert_eq!(d.reader.bytes_remaining, 0);
    assert_eq!(d.dma_request(), None);
}

#[test]
fn address_wraps_to_8000() {
    let mut d = Dmc::new();
    d.write_sample_address(0xff); // $FFC0
    d.write_sample_length(0x04); // 65 bytes
    d.set_enabled(true);
    for _ in 0..64 {
        assert!(d.dma_request().is_some());
        d.dma_load(0x00);
        d.reader.sample_buffer = None; // consume it, as the output unit would
    }
    assert_eq!(d.dma_request(), Some(0x8000));
}

#[test]
fn irq_set_when_sample_ends_and_irq_enabled() {
    let mut d = Dmc::new();
    d.write_control(0x80); // IRQ enabled, no loop
    d.write_sample_length(0x00); // 1 byte
    d.set_enabled(true);
    d.dma_load(0x00);
    assert!(d.irq_flag);
    assert_eq!(d.reader.bytes_remaining, 0);
    // A $4015 write clears the flag.
    d.set_enabled(false);
    assert!(!d.irq_flag);
}

#[test]
fn loop_restarts_instead_of_irq() {
    let mut d = Dmc::new();
    d.write_control(0xc0); // IRQ enabled + loop
    d.write_sample_address(0x00); // $C000
    d.write_sample_length(0x00); // 1 byte
    d.set_enabled(true);
    d.dma_load(0x00);
    assert!(!d.irq_flag);
    assert_eq!(d.reader.bytes_remaining, 1);
    d.reader.sample_buffer = None;
    assert_eq!(d.dma_request(), Some(0xc000));
}

#[test]
fn clearing_irq_enable_clears_flag() {
    let mut d = Dmc::new();
    d.write_control(0x80);
    d.write_sample_length(0x00);
    d.set_enabled(true);
    d.dma_load(0x00);
    assert!(d.irq_flag);
    d.write_control(0x00);
    assert!(!d.irq_flag);
}

#[test]
fn output_deltas_track_sample_bits() {
    let mut d = Dmc::new();
    d.write_direct_load(64);
    d.write_sample_length(0x00);
    d.set_enabled(true);
    d.dma_load(0b0000_1111); // four +2 steps then four -2 steps
    // The output unit powers up mid-cycle with 8 silent bits; the 8th
    // clock loads the sample byte into the shift register.
    for _ in 0..8 {
        d.clock_output_unit();
    }
    assert_eq!(d.output(), 64);
    let mut levels = vec![];
    for _ in 0..8 {
        d.clock_output_unit();
        levels.push(d.output());
    }
    assert_eq!(levels, vec![66, 68, 70, 72, 70, 68, 66, 64]);
}

#[test]
fn timer_period_spaces_output_clocks() {
    let mut d = Dmc::new();
    d.write_control(0x0f); // fastest rate: 54 CPU cycles per clock
    d.write_direct_load(64);
    d.write_sample_length(0x00);
    d.set_enabled(true);
    d.dma_load(0xff); // all +2
    // The timer starts at 0, so clock k lands on cycle 54*(k-1) + 1.
    // Burn the 8 silent power-up bits (clock 8 loads the sample byte).
    for _ in 0..8 * 54 {
        d.tick_timer();
    }
    assert_eq!(d.output(), 64);
    d.tick_timer(); // clock 9: first sample bit
    assert_eq!(d.output(), 66);
    // The next delta arrives exactly 54 cycles later.
    for _ in 0..53 {
        d.tick_timer();
    }
    assert_eq!(d.output(), 66);
    d.tick_timer();
    assert_eq!(d.output(), 68);
}

#[test]
fn output_clamps_at_bounds() {
    let mut d = Dmc::new();
    d.write_direct_load(126);
    d.write_sample_length(0x00);
    d.set_enabled(true);
    d.dma_load(0xff); // all +2
    for _ in 0..9 {
        d.clock_output_unit();
    }
    assert_eq!(d.output(), 126); // 126 -> stuck (adding would exceed 127)

    let mut d = Dmc::new();
    d.write_direct_load(1);
    d.write_sample_length(0x00);
    d.set_enabled(true);
    d.dma_load(0x00); // all -2
    for _ in 0..9 {
        d.clock_output_unit();
    }
    assert_eq!(d.output(), 1); // 1 -> stuck (subtracting would go below 0)
}

#[test]
fn silence_resumes_when_buffer_runs_dry() {
    let mut d = Dmc::new();
    d.write_direct_load(64);
    d.write_sample_length(0x00);
    d.set_enabled(true);
    d.dma_load(0xff);
    // 8 clocks to burn the initial silent byte's bits? No: buffer is
    // consumed at the first 8-bit boundary, then 8 more clocks play it.
    for _ in 0..16 {
        d.clock_output_unit();
    }
    let level = d.output();
    // Buffer is now empty -> silence flag set; output level holds.
    for _ in 0..8 {
        d.clock_output_unit();
    }
    assert_eq!(d.output(), level);
}
