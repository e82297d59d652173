//! The core: its instructions, interrupts, timing and snapshots.

use nes_emulator::audio::SAMPLE_RATE;
use nes_emulator::bus::Bus;
use nes_emulator::cartridge::{Rom, CHR_ROM_PAGE_SIZE, PRG_ROM_PAGE_SIZE};
use nes_emulator::cpu::registers::{CpuFlags, STACK_RESET};
use nes_emulator::cpu::{Console, CPU};
use nes_emulator::joypad::JoypadButton;
use nes_emulator::mapper::managed::ManagedMapper;

const LIMIT: u64 = 10_000_000;

fn test_rom(program: Vec<u8>) -> Rom {
    let mut raw = vec![
        0x4E, 0x45, 0x53, 0x1A, 0x02, 0x01, 0x01, 00, 00, 00, 00, 00, 00, 00, 00, 00,
    ];
    let mut prg = program;
    prg.resize(2 * PRG_ROM_PAGE_SIZE, 0);
    raw.extend(prg);
    raw.extend(vec![2; CHR_ROM_PAGE_SIZE]);
    Rom::new(&raw).unwrap()
}


#[test]
fn dmc_rdy_repeats_the_following_core_read_slot() {
    fn controller_shifts(with_dmc: bool) -> u8 {
        let bus = Bus::new(test_rom(vec![]));
        let mut cpu = CPU::new(bus);
        cpu.bus
            .joypad_mut()
            .set_button_pressed_status(JoypadButton::BUTTON_A, true);
        cpu.bus.mem_write(0x4016, 1);
        cpu.bus.mem_write(0x4016, 0);
        if with_dmc {
            cpu.bus.mem_write(0x4012, 0);
            cpu.bus.mem_write(0x4013, 0);
            cpu.bus.mem_write(0x4015, 0x10);
        }

        cpu.progress.executing = true;
        let _ = cpu.mem_read(0x0000);
        assert_eq!(cpu.dmc_held_read.is_some(), with_dmc);
        let _ = cpu.mem_read(0x4016);
        assert!(cpu.dmc_held_read.is_none());
        cpu.progress.executing = false;

        let mut shifts = 1;
        while cpu.bus.mem_read(0x4016) != 1 {
            shifts += 1;
        }
        shifts
    }

    assert_eq!(controller_shifts(true), controller_shifts(false) - 1);
}

#[test]
fn irq_samples_advance_through_oam_dma_stall() {
    let bus = Bus::new(test_rom(vec![]));
    let mut cpu = CPU::new(bus);

    // Put the APU one cycle before its frame IRQ, then let the $4014 bus
    // cycle enter OAM DMA. The IRQ asserts at the beginning of the stall;
    // sampling every physical DMA cycle must advance it into both stages
    // of the CPU's interrupt-recognition pipeline.
    for _ in 0..29_827 {
        let _ = cpu.bus.tick(1);
    }
    cpu.progress.executing = true;
    cpu.mem_write(0x4014, 0x00);
    cpu.progress.executing = false;

    assert!(cpu.lines.irq_line);
    assert!(!cpu.lines.irq_line_delayed);

    cpu.progress.executing = true;
    let _ = cpu.mem_read(0x0000);
    cpu.progress.executing = false;
    assert!(cpu.lines.irq_line_delayed);
}

#[test]
fn test_0xa9_lda_immediate_load_data() {
    let bus = Bus::new(test_rom(vec![0xa9, 0x05, 0x00]));
    let mut cpu = CPU::new(bus);

    assert!(cpu.run(LIMIT));

    assert_eq!(cpu.regs.register_a, 5);
    assert!(cpu.regs.status.bits() & 0b0000_0010 == 0b00);
    assert!(cpu.regs.status.bits() & 0b1000_0000 == 0);
}

#[test]
fn test_0xaa_tax_move_a_to_x() {
    let bus = Bus::new(test_rom(vec![0xaa, 0x00]));
    let mut cpu = CPU::new(bus);
    cpu.regs.register_a = 10;

    assert!(cpu.run(LIMIT));

    assert_eq!(cpu.regs.register_x, 10)
}

#[test]
fn test_5_ops_working_together() {
    let bus = Bus::new(test_rom(vec![0xa9, 0xc0, 0xaa, 0xe8, 0x00]));
    let mut cpu = CPU::new(bus);

    assert!(cpu.run(LIMIT));

    assert_eq!(cpu.regs.register_x, 0xc1)
}

#[test]
fn test_inx_overflow() {
    let bus = Bus::new(test_rom(vec![0xe8, 0xe8, 0x00]));
    let mut cpu = CPU::new(bus);
    cpu.regs.register_x = 0xff;

    assert!(cpu.run(LIMIT));

    assert_eq!(cpu.regs.register_x, 1)
}

#[test]
fn test_lda_from_memory() {
    let bus = Bus::new(test_rom(vec![0xa5, 0x10, 0x00]));
    let mut cpu = CPU::new(bus);
    cpu.mem_write(0x10, 0x55);

    assert!(cpu.run(LIMIT));

    assert_eq!(cpu.regs.register_a, 0x55);
}

#[test]
fn test_irq_serviced_after_cli() {
    // CLI enables interrupts; a pending APU IRQ (DMC flag forced here)
    // then fires before the next instruction, vectoring through $FFFE
    // (0x0000 in the zero-filled test ROM, where BRK ends run()).
    let bus = Bus::new(test_rom(vec![0x58, 0xea, 0xea, 0x00]));
    let mut cpu = CPU::new(bus);
    cpu.bus.apu.channels.dmc.irq_flag = true;

    assert!(cpu.run(LIMIT));

    // The IRQ pushed PC and status (3 bytes) and jumped to 0x0000.
    assert_eq!(cpu.regs.stack_pointer, STACK_RESET - 3);
    assert_eq!(cpu.regs.program_counter, 0x0001);
    assert!(cpu.regs.status.contains(CpuFlags::INTERRUPT_DISABLE));
}

#[test]
fn test_irq_masked_by_interrupt_disable() {
    // The power-up status has I set, so the pending IRQ must not fire.
    let bus = Bus::new(test_rom(vec![0xea, 0x00]));
    let mut cpu = CPU::new(bus);
    cpu.bus.apu.channels.dmc.irq_flag = true;

    assert!(cpu.run(LIMIT));

    assert_eq!(cpu.regs.stack_pointer, STACK_RESET);
}

#[test]
fn cli_delays_irq_by_exactly_one_instruction() {
    // CLI, NOP, NOP with a pending IRQ. The interrupt-disable clear is
    // delayed one instruction, so the first NOP executes before the IRQ is
    // taken: the pushed return address is $8002, not $8001.
    let bus = Bus::new(test_rom(vec![0x58, 0xea, 0xea, 0xea]));
    let mut cpu = CPU::new(bus);
    cpu.bus.apu.channels.dmc.irq_flag = true;

    assert!(cpu.run(LIMIT));

    let return_lo = cpu.mem_read(0x01fc) as u16;
    let return_hi = cpu.mem_read(0x01fd) as u16;
    assert_eq!(return_hi << 8 | return_lo, 0x8002);
    assert!(cpu.regs.status.contains(CpuFlags::INTERRUPT_DISABLE));
}

#[test]
fn brk_vectors_through_fffe_when_not_halting() {
    // With halt-on-BRK cleared, BRK is a real software interrupt: it pushes
    // three bytes, sets I, and jumps to the $FFFE vector (0x0000 in the
    // zero-filled test ROM). We stop the run right after it vectors, before
    // the $00 at $0000 would loop back into another BRK.
    let bus = Bus::new(test_rom(vec![0x00]));
    let mut cpu = CPU::new(bus);
    cpu.set_halt_on_brk(false);

    assert!(!cpu.step());
    cpu.progress.executing = false;

    assert_eq!(cpu.regs.program_counter, 0x0000);
    assert_eq!(cpu.regs.stack_pointer, STACK_RESET - 3);
    assert!(cpu.regs.status.contains(CpuFlags::INTERRUPT_DISABLE));
    // BRK pushes the address after its signature byte: $8000 + 2.
    let return_lo = cpu.mem_read(0x01fc) as u16;
    let return_hi = cpu.mem_read(0x01fd) as u16;
    assert_eq!(return_hi << 8 | return_lo, 0x8002);
}

#[test]
fn lax_loads_both_a_and_x() {
    // A7: LAX $10 loads the same value into A and X.
    let bus = Bus::new(test_rom(vec![0xa7, 0x10, 0x00]));
    let mut cpu = CPU::new(bus);
    cpu.mem_write(0x10, 0x55);

    assert!(cpu.run(LIMIT));

    assert_eq!(cpu.regs.register_a, 0x55);
    assert_eq!(cpu.regs.register_x, 0x55);
}

#[test]
fn sax_stores_a_and_x() {
    // 87: SAX $10 stores A & X without touching any flag.
    let bus = Bus::new(test_rom(vec![0x87, 0x10, 0x00]));
    let mut cpu = CPU::new(bus);
    cpu.regs.register_a = 0xf0;
    cpu.regs.register_x = 0x3c;

    assert!(cpu.run(LIMIT));

    assert_eq!(cpu.mem_read(0x10), 0x30);
}

#[test]
fn slo_shifts_memory_then_ors_into_a() {
    // 07: SLO $10 = ASL memory, then ORA into A.
    let bus = Bus::new(test_rom(vec![0x07, 0x10, 0x00]));
    let mut cpu = CPU::new(bus);
    cpu.regs.register_a = 0x01;
    cpu.mem_write(0x10, 0x40);

    assert!(cpu.run(LIMIT));

    assert_eq!(cpu.mem_read(0x10), 0x80); // 0x40 << 1
    assert_eq!(cpu.regs.register_a, 0x81); // 0x01 | 0x80
}

#[test]
fn rol_memory_updates_the_zero_flag() {
    // 26: ROL $10 on 0x80 with carry clear yields 0x00; Z must be set.
    let bus = Bus::new(test_rom(vec![0x26, 0x10, 0x00]));
    let mut cpu = CPU::new(bus);
    cpu.mem_write(0x10, 0x80);

    assert!(cpu.run(LIMIT));

    assert_eq!(cpu.mem_read(0x10), 0x00);
    assert!(cpu.regs.status.contains(CpuFlags::ZERO));
    assert!(cpu.regs.status.contains(CpuFlags::CARRY));
}

#[test]
fn undocumented_nop_consumes_its_operand_and_continues() {
    // 04 (NOP zp) is a two-byte no-op: execution proceeds to the next
    // instruction, which loads A.
    let bus = Bus::new(test_rom(vec![0x04, 0x10, 0xa9, 0x42, 0x00]));
    let mut cpu = CPU::new(bus);

    assert!(cpu.run(LIMIT));

    assert_eq!(cpu.regs.register_a, 0x42);
}

#[test]
fn taken_branch_adds_cycle_and_page_cross_adds_another() {
    let bus = Bus::new(
        test_rom(vec![0xa2, 0x02, 0xca, 0xd0, 0xfd, 0x00]));
    let mut cpu = CPU::new(bus);

    assert!(cpu.run(LIMIT));

    // LDX (2), DEX (2), taken BNE (3), DEX (2), untaken BNE (2).
    assert_eq!(cpu.bus.cpu_cycles(), 11);
}

#[test]
fn indexed_read_adds_cycle_when_effective_address_crosses_page() {
    let bus = Bus::new(
        test_rom(vec![0xa2, 0x01, 0xbd, 0xff, 0x00, 0x00]));
    let mut cpu = CPU::new(bus);
    cpu.mem_write(0x0100, 0x55);

    assert!(cpu.run(LIMIT));

    assert_eq!(cpu.regs.register_a, 0x55);
    assert_eq!(cpu.bus.cpu_cycles(), 7); // LDX (2) + crossing LDA abs,X (5)
}

#[test]
fn snapshot_restore_replays_a_frame_deterministically() {
    // JMP $8000 keeps the CPU alive without changing machine state beyond
    // timing. Interrupts remain masked by the power-on status flags.
    let bus = Bus::new(test_rom(vec![0x4c, 0x00, 0x80]));
    let mut cpu = CPU::new(bus);
    cpu.run_until_frame_ready(LIMIT);
    cpu.mem_write(0x6000, 0x12);
    let snapshot = cpu.snapshot();

    cpu.run_until_frame_ready(LIMIT);
    let expected_frame = cpu.bus.ppu().frame().data.clone();
    let expected_cycles = cpu.bus.cpu_cycles();
    cpu.mem_write(0x6000, 0x34);

    cpu.restore(snapshot);
    assert_eq!(cpu.mem_read(0x6000), 0x12);
    cpu.run_until_frame_ready(LIMIT);
    assert_eq!(cpu.bus.ppu().frame().data, expected_frame);
    assert_eq!(cpu.bus.cpu_cycles(), expected_cycles);
}

#[test]
fn speculative_frames_do_not_reach_the_audio_callback() {
    fn delivered(cpu: &mut Console<ManagedMapper>) -> usize {
        cpu.bus.take_audio_chunks().iter().map(|chunk| chunk.len()).sum()
    }

    let bus = Bus::new_with_audio(test_rom(vec![0x4c, 0x00, 0x80]), 256);
    let mut cpu = CPU::new(bus);
    cpu.bus.apu.set_sample_rate(SAMPLE_RATE);
    cpu.run_until_frame_ready(LIMIT);
    cpu.bus.apu.drain_samples();
    let _ = delivered(&mut cpu);

    let snapshot = cpu.snapshot();
    cpu.bus.set_audio_delivery_enabled(false);
    cpu.run_until_frame_ready(LIMIT);
    cpu.run_until_frame_ready(LIMIT);
    assert_eq!(delivered(&mut cpu), 0);

    cpu.restore(snapshot);
    cpu.run_until_frame_ready(LIMIT);
    assert!(delivered(&mut cpu) >= 512);
}
