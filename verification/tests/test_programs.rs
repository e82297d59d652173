//! The test program runner.

use nes_emulator::bus::Bus;
use nes_emulator::cartridge::{Rom, CHR_ROM_PAGE_SIZE, PRG_ROM_PAGE_SIZE};
use nes_emulator::cpu::{Console, CPU};
use nes_emulator::mapper::managed::ManagedMapper;
use nes_emulator::test_rom::{
    escape_message, message_bytes, parse_hook, read_message, run, TestResult,
};

fn console(program: &[u8]) -> Console<ManagedMapper> {
    let mut raw = vec![
        0x4e, 0x45, 0x53, 0x1a, 0x02, 0x01, 0x01, 0, 0, 0, 0, 0, 0, 0, 0, 0,
    ];
    let mut prg = program.to_vec();
    prg.resize(2 * PRG_ROM_PAGE_SIZE, 0);
    prg[0x7ffd] = 0x80;
    raw.extend(prg);
    raw.extend(vec![0; CHR_ROM_PAGE_SIZE]);
    let mut cpu = CPU::new(Bus::new(Rom::new(&raw).unwrap()));
    cpu.set_halt_on_brk(false);
    cpu.reset();
    cpu
}

/// Code that stores `value` at `addr`.
fn store(value: u8, addr: u16) -> Vec<u8> {
    vec![0xa9, value, 0x8d, addr as u8, (addr >> 8) as u8]
}

/// Code that waits where it stands, at `at`.
fn park(at: usize) -> Vec<u8> {
    let at = 0x8000 + at as u16;
    vec![0x4c, at as u8, (at >> 8) as u8]
}

/// A program that signs the result area, says `text` and ends with `status`.
fn reporting(text: &str, status: u8) -> Vec<u8> {
    let mut program = store(0x80, 0x6000);
    for (n, byte) in [0xde, 0xb0, 0x61].into_iter().enumerate() {
        program.extend(store(byte, 0x6001 + n as u16));
    }
    for (n, byte) in text.bytes().chain([0]).enumerate() {
        program.extend(store(byte, 0x6004 + n as u16));
    }
    program.extend(store(status, 0x6000));
    program.extend(park(program.len()));
    program
}

#[test]
fn result_messages_are_kept_on_one_machine_readable_line() {
    assert_eq!(escape_message("pass\r\nline\\two"), "pass\\r\\nline\\\\two");
}

#[test]
fn a_program_reports_its_status_and_message() {
    let mut cpu = console(&reporting("OK\n", 0));
    let log = run(&mut cpu, None, 1_000_000).ok().unwrap();
    let result = log.outcome(cpu.regs.program_counter).unwrap();
    assert_eq!(result, TestResult { status: 0, legacy: false });
    assert_eq!(message_bytes(&mut cpu), b"OK\n");
    assert_eq!(read_message(&mut cpu), "OK");
    // Nine stores of two instructions each, then the look that finds the end.
    assert_eq!(log.instructions, 19);
    assert_eq!(result.verdict("OK"), Ok(()));
    assert_eq!(
        result.result_line(19, "OK\n"),
        "TEST_ROM_RESULT protocol=blargg-6000 status=0 instructions=19 message=OK\\n"
    );
}

#[test]
fn a_failing_program_is_quoted() {
    let mut cpu = console(&reporting("no", 3));
    let log = run(&mut cpu, None, 1_000_000).ok().unwrap();
    let result = log.outcome(0).unwrap();
    assert_eq!(result.status, 3);
    assert_eq!(
        result.verdict("no").unwrap_err(),
        "test ROM returned status 3: no"
    );
}

#[test]
fn a_parked_program_without_a_signature_reports_at_f8() {
    let mut program = vec![0xa9, 0x01, 0x85, 0xf8];
    program.extend(park(4));
    let mut cpu = console(&program);
    let log = run(&mut cpu, None, 1_000_000).ok().unwrap();
    let result = log.outcome(0).unwrap();
    assert_eq!(result, TestResult { status: 1, legacy: true });
    // A jump to itself counts only once the program has settled.
    assert_eq!(log.instructions, 1001);
    assert_eq!(result.verdict(""), Ok(()));
    assert_eq!(result.legacy_message(), "legacy result code 1");
    assert_eq!(
        result.result_line(1001, "x"),
        "TEST_ROM_RESULT protocol=legacy-f8 status=1 instructions=1001 message=x"
    );
    let failed = TestResult { status: 2, legacy: true };
    assert_eq!(
        failed.verdict("y").unwrap_err(),
        "test ROM returned status 2: y"
    );
}

#[test]
fn a_run_without_a_result_times_out() {
    let mut cpu = console(&park(0));
    let log = run(&mut cpu, None, 2000).ok().unwrap();
    assert_eq!(
        log.outcome(cpu.regs.program_counter).unwrap_err(),
        "timed out after 2000 instructions without seeing the blargg signature (PC=$8000)"
    );
    let mut cpu = console(&reporting("", 0x80));
    let log = run(&mut cpu, None, 1500).ok().unwrap();
    assert_eq!(
        log.outcome(0xbeef).unwrap_err(),
        "timed out after 1500 instructions while test was running (PC=$BEEF)"
    );
    let mut cpu = console(&park(0));
    assert_eq!(
        run(&mut cpu, None, 0).err().unwrap(),
        "instruction limit must be greater than zero"
    );
}

#[test]
fn the_reset_button_is_pressed_for_a_program_that_asks() {
    // Counts its starts at $10; asks for a reset at the first and ends at the
    // second.
    let mut program = vec![0xe6, 0x10];
    for (n, byte) in [0xde, 0xb0, 0x61].into_iter().enumerate() {
        program.extend(store(byte, 0x6001 + n as u16));
    }
    program.extend([0xa5, 0x10, 0xc9, 0x01, 0xd0, 0x08]);
    program.extend(store(0x81, 0x6000));
    program.extend(park(program.len()));
    program.extend(store(0x00, 0x6000));
    program.extend(park(program.len()));
    let mut cpu = console(&program);
    let log = run(&mut cpu, None, 1_000_000).ok().unwrap();
    assert_eq!(log.resets, 1);
    assert_eq!(log.outcome(0), Ok(TestResult { status: 0, legacy: false }));
}

#[test]
fn a_program_that_keeps_asking_is_given_up() {
    let mut cpu = console(&reporting("", 0x81));
    let log = run(&mut cpu, None, 1_000_000).ok().unwrap();
    assert_eq!(log.resets, 9);
    assert!(log.outcome(0).is_err());
}

#[test]
fn printed_bytes_are_captured_at_the_hook() {
    // LDA #'H', JSR $8010, LDA #'i', JSR $8010, wait; $8010: RTS.
    let mut program = vec![0xa9, b'H', 0x20, 0x10, 0x80, 0xa9, b'i', 0x20, 0x10, 0x80];
    program.extend(park(10));
    program.resize(0x10, 0);
    program.push(0x60);
    let mut cpu = console(&program);
    let log = run(&mut cpu, parse_hook("0x8010"), 100).ok().unwrap();
    assert_eq!(log.captured, b"Hi");
}

#[test]
fn hooks_are_hexadecimal() {
    assert_eq!(parse_hook("0xE123"), Some(0xe123));
    assert_eq!(parse_hook("e123"), Some(0xe123));
    assert_eq!(parse_hook("12345"), None);
    assert_eq!(parse_hook("no"), None);
}

#[test]
fn a_message_that_is_not_utf8_is_still_read() {
    let mut cpu = console(&[]);
    for (n, byte) in [b' ', 0xff, b'a', 0xc3, 0xa9, b'\t', 0].into_iter().enumerate() {
        cpu.mem_write(0x6004 + n as u16, byte);
    }
    assert_eq!(read_message(&mut cpu), "\u{fffd}a\u{e9}");
}
