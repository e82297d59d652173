//! What instructions do to the stack, the flags and the clock.

use nes_emulator::bus::Bus;
use nes_emulator::cartridge::{Rom, CHR_ROM_PAGE_SIZE, PRG_ROM_PAGE_SIZE};
use nes_emulator::cpu::registers::CpuFlags;
use nes_emulator::cpu::{Console, CPU};
use nes_emulator::mapper::managed::ManagedMapper;
use nes_emulator::opcodes::{opcode, AddressingMode, Operation};

fn console(program: &[u8]) -> Console<ManagedMapper> {
    let mut raw = vec![
        0x4e, 0x45, 0x53, 0x1a, 0x02, 0x01, 0x01, 0, 0, 0, 0, 0, 0, 0, 0, 0,
    ];
    let mut prg = program.to_vec();
    prg.resize(2 * PRG_ROM_PAGE_SIZE, 0xea);
    prg[0x7ffc] = 0x00;
    prg[0x7ffd] = 0x80;
    prg[0x7ffe] = 0x00;
    prg[0x7fff] = 0x90; // interrupts go to $9000
    raw.extend(prg);
    raw.extend(vec![0; CHR_ROM_PAGE_SIZE]);
    let mut cpu = CPU::new(Bus::new(Rom::new(&raw).unwrap()));
    cpu.set_halt_on_brk(false);
    cpu.reset();
    cpu
}

/// The cycles that the next instruction takes.
fn timed(cpu: &mut Console<ManagedMapper>) -> usize {
    let before = cpu.bus.cpu_cycles();
    cpu.step();
    cpu.bus.cpu_cycles() - before
}

#[test]
fn a_pushed_byte_is_popped() {
    // LDA #$5A, PHA, LDA #0, PLA
    let mut cpu = console(&[0xa9, 0x5a, 0x48, 0xa9, 0x00, 0x68]);
    let sp = cpu.regs.stack_pointer;
    for _ in 0..3 {
        cpu.step();
    }
    assert_eq!(cpu.regs.stack_pointer, sp.wrapping_sub(1));
    assert!(cpu.regs.status.contains(CpuFlags::ZERO));
    cpu.step();
    assert_eq!(cpu.regs.register_a, 0x5a);
    assert_eq!(cpu.regs.stack_pointer, sp);
    assert!(!cpu.regs.status.contains(CpuFlags::ZERO));
}

#[test]
fn a_subroutine_returns_behind_its_call() {
    let mut program = vec![0x20, 0x10, 0x80]; // JSR $8010
    program.resize(0x10, 0xea);
    program.push(0x60); // RTS
    let mut cpu = console(&program);
    let sp = cpu.regs.stack_pointer;
    assert_eq!(timed(&mut cpu), 6);
    assert_eq!(cpu.regs.program_counter, 0x8010);
    assert_eq!(timed(&mut cpu), 6);
    assert_eq!(cpu.regs.program_counter, 0x8003);
    assert_eq!(cpu.regs.stack_pointer, sp);
}

#[test]
fn an_interrupt_returns_where_it_struck() {
    let mut program = vec![0x00, 0x77]; // BRK and its signature
    program.resize(0x1000, 0xea);
    program.push(0x40); // RTI
    let mut cpu = console(&program);
    cpu.regs.status.set(CpuFlags::CARRY, true);
    let (sp, status) = (cpu.regs.stack_pointer, cpu.regs.status);
    assert_eq!(timed(&mut cpu), 7);
    assert_eq!(cpu.regs.program_counter, 0x9000);
    assert_eq!(cpu.regs.stack_pointer, sp.wrapping_sub(3));
    assert_eq!(timed(&mut cpu), 6);
    assert_eq!(cpu.regs.program_counter, 0x8002);
    assert_eq!(cpu.regs.stack_pointer, sp);
    assert!(cpu.regs.status.contains(CpuFlags::CARRY));
    assert_eq!(cpu.regs.status.bits | 0x30, status.bits | 0x30);
}

#[test]
fn additions_and_subtractions_carry() {
    // CLC, LDA #$F0, ADC #$20; SEC, LDA #$10, SBC #$20; LDA #$50, CLC, ADC #$50
    let mut cpu = console(&[
        0x18, 0xa9, 0xf0, 0x69, 0x20, 0x38, 0xa9, 0x10, 0xe9, 0x20, 0xa9, 0x50, 0x18, 0x69, 0x50,
    ]);
    for _ in 0..3 {
        cpu.step();
    }
    assert_eq!(cpu.regs.register_a, 0x10);
    assert!(cpu.regs.status.contains(CpuFlags::CARRY));
    for _ in 0..3 {
        cpu.step();
    }
    assert_eq!(cpu.regs.register_a, 0xf0);
    assert!(!cpu.regs.status.contains(CpuFlags::CARRY));
    assert!(cpu.regs.status.contains(CpuFlags::NEGATIV));
    for _ in 0..3 {
        cpu.step();
    }
    assert_eq!(cpu.regs.register_a, 0xa0);
    assert!(cpu.regs.status.contains(CpuFlags::OVERFLOW));
}

#[test]
fn comparisons_order() {
    // LDA #$40, CMP #$40, CMP #$41, CMP #$3F
    let mut cpu = console(&[0xa9, 0x40, 0xc9, 0x40, 0xc9, 0x41, 0xc9, 0x3f]);
    cpu.step();
    let mut seen = vec![];
    for _ in 0..3 {
        cpu.step();
        let status = cpu.regs.status;
        seen.push((status.contains(CpuFlags::CARRY), status.contains(CpuFlags::ZERO)));
    }
    assert_eq!(seen, vec![(true, true), (false, false), (true, false)]);
}

#[test]
fn rotations_undo_each_other() {
    // LDA #$A5, SEC, ROL A, ROR A
    let mut cpu = console(&[0xa9, 0xa5, 0x38, 0x2a, 0x6a]);
    for _ in 0..3 {
        cpu.step();
    }
    assert_eq!(cpu.regs.register_a, 0x4b);
    cpu.step();
    assert_eq!(cpu.regs.register_a, 0xa5);
    assert!(cpu.regs.status.contains(CpuFlags::CARRY));
}

#[test]
fn every_instruction_takes_its_cycles() {
    for byte in 1..=255u8 {
        let code = opcode(byte);
        // Nothing crosses a page: the registers are zero.
        if code.operation == Operation::Jam {
            continue;
        }
        let mut cpu = console(&[byte, 0x10, 0x02]);
        let extra = match byte {
            // Branches on a clear flag are taken after a reset.
            0x10 | 0x50 | 0x90 | 0xd0 => 1,
            _ => 0,
        };
        assert_eq!(timed(&mut cpu), code.cycles as usize + extra, "opcode ${byte:02X}");
    }
}

#[test]
fn the_table_knows_its_instructions() {
    let code = opcode(0xb1);
    assert_eq!(code.operation, Operation::Lda);
    assert_eq!(code.mode, AddressingMode::Indirect_Y);
    assert_eq!((code.len, code.cycles), (2, 5));
    assert_eq!(opcode(0x00).operation, Operation::Brk);
}

#[test]
fn the_halt_sentinel_takes_no_time() {
    let mut cpu = console(&[0x00]);
    cpu.set_halt_on_brk(true);
    let before = cpu.bus.cpu_cycles();
    assert!(cpu.step());
    assert_eq!(cpu.bus.cpu_cycles(), before);
    assert_eq!(cpu.regs.program_counter, 0x8001);
}

#[test]
fn work_ram_repeats_four_times() {
    let mut cpu = console(&[]);
    cpu.mem_write(0x0123, 0x42);
    for mirror in [0x0123, 0x0923, 0x1123, 0x1923] {
        assert_eq!(cpu.mem_read(mirror), 0x42);
    }
    cpu.mem_write_u16(0x07ff, 0xbeef);
    assert_eq!(cpu.mem_read(0x0000), 0xbe);
    assert_eq!(cpu.mem_read_u16(0x07ff), 0xbeef);
}

#[test]
fn stores_leave_the_registers_alone() {
    // STA $10, STX $0300, STY $20,X, SAX $30
    let mut cpu = console(&[0x85, 0x10, 0x8e, 0x00, 0x03, 0x94, 0x20, 0x87, 0x30]);
    cpu.regs.register_a = 0xf1;
    cpu.regs.register_x = 0x03;
    cpu.regs.register_y = 0x80;
    let before = cpu.regs;
    for _ in 0..4 {
        cpu.step();
    }
    let mut after = cpu.regs;
    after.program_counter = before.program_counter;
    assert_eq!(after, before);
    assert_eq!(cpu.mem_read(0x10), 0xf1);
    assert_eq!(cpu.mem_read(0x300), 0x03);
    assert_eq!(cpu.mem_read(0x23), 0x80);
    assert_eq!(cpu.mem_read(0x30), 0x01);
}
