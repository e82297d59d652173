//! A session: its keys, its frame clock, and playing ahead of the game.

use nes_emulator::audio::SAMPLE_RATE;
use nes_emulator::bus::model::FrameHook;
use nes_emulator::bus::Bus;
use nes_emulator::cartridge::{Rom, CHR_ROM_PAGE_SIZE, PRG_ROM_PAGE_SIZE};
use nes_emulator::cpu::model::FrameRun;
use nes_emulator::cpu::{Console, CPU};
use nes_emulator::joypad::{Joypad, JoypadButton};
use nes_emulator::mapper::managed::ManagedMapper;
use nes_emulator::session::{
    advance, speculate, GameAction, GameEvent, GameOutcome, Key, Session,
};

const LIMIT: u64 = 10_000_000;

fn console() -> Console<ManagedMapper> {
    // Counts in RAM, plays a pulse, and moves the palette along.
    let program = vec![
        0xa9, 0x01, 0x8d, 0x15, 0x40, // LDA #1, STA $4015
        0xa9, 0xbf, 0x8d, 0x00, 0x40, // LDA #$BF, STA $4000
        0xa9, 0xfd, 0x8d, 0x02, 0x40, // LDA #$FD, STA $4002
        0xa9, 0x08, 0x8d, 0x03, 0x40, // LDA #8, STA $4003
        0xe6, 0x10, // INC $10
        0xa9, 0x3f, 0x8d, 0x06, 0x20, // LDA #$3F, STA $2006
        0xa9, 0x00, 0x8d, 0x06, 0x20, // LDA #0, STA $2006
        0xa5, 0x10, 0x8d, 0x07, 0x20, // LDA $10, STA $2007
        0x4c, 0x14, 0x80, // JMP $8014
    ];
    console_of(program)
}

fn console_of(program: Vec<u8>) -> Console<ManagedMapper> {
    let mut raw = vec![
        0x4e, 0x45, 0x53, 0x1a, 0x02, 0x01, 0x01, 0, 0, 0, 0, 0, 0, 0, 0, 0,
    ];
    let mut prg = program;
    prg.resize(2 * PRG_ROM_PAGE_SIZE, 0);
    prg[0x7ffc] = 0x00;
    prg[0x7ffd] = 0x80;
    raw.extend(prg);
    raw.extend(vec![2; CHR_ROM_PAGE_SIZE]);
    let mut cpu = CPU::new(Bus::new_with_audio(Rom::new(&raw).unwrap(), 256));
    cpu.bus.apu.set_sample_rate(SAMPLE_RATE);
    cpu.reset();
    cpu
}

fn assert_same(a: &mut Console<ManagedMapper>, b: &mut Console<ManagedMapper>) {
    assert_eq!(a.regs, b.regs);
    assert_eq!(a.bus.cpu_cycles(), b.bus.cpu_cycles());
    assert_eq!(a.bus.ppu().frame().data, b.bus.ppu().frame().data);
    assert_eq!(a.bus.ppu().total_dots(), b.bus.ppu().total_dots());
    assert_eq!(a.bus.take_audio_chunks(), b.bus.take_audio_chunks());
    assert_eq!(a.mem_read(0x10), b.mem_read(0x10));
}

#[test]
fn playing_ahead_leaves_the_game_alone() {
    let mut plain = console();
    let mut ahead = console();
    for _ in 0..3 {
        let (shown, run) = advance(&mut plain, false, LIMIT);
        assert!(shown.is_none());
        assert_eq!(run, FrameRun::FrameReady);
        let (shown, run) = advance(&mut ahead, true, LIMIT);
        assert!(shown.is_some());
        assert_eq!(run, FrameRun::FrameReady);
        assert_same(&mut plain, &mut ahead);
    }
}

#[test]
fn the_shown_picture_is_that_of_two_frames_on() {
    let mut plain = console();
    let mut ahead = console();
    let shown = speculate(&mut ahead, LIMIT);
    plain.run_until_frame_ready(LIMIT);
    plain.run_until_frame_ready(LIMIT);
    assert_eq!(shown.data, plain.bus.ppu().frame().data);
}

#[test]
fn speculation_is_silent_and_taken_back() {
    let mut cpu = console();
    let mut untouched = console();
    let _ = speculate(&mut cpu, LIMIT);
    assert!(cpu.bus.take_audio_chunks().is_empty());
    assert_same(&mut cpu, &mut untouched);
}

#[test]
fn a_hook_is_seen_by_the_rest_of_the_instruction() {
    let mut seen = 0;
    for delay in 0..7 {
        // Polls with the strobe held, at a different cycle of the frame.
        let mut program = vec![0xa9, 0x01, 0x8d, 0x16, 0x40]; // LDA #1, STA $4016
        program.extend(vec![0xea; delay]); // NOP
        let at = 0x8000 + program.len() as u16;
        program.extend([0xad, 0x16, 0x40, 0x4c, at as u8, (at >> 8) as u8]); // LDA $4016, JMP
        let mut cpu = console_of(program);
        cpu.bus.set_frame_hook(FrameHook {
            buttons: Some(JoypadButton::BUTTON_A),
            drains: false,
        });
        assert_eq!(cpu.run_until_frame_ready(LIMIT), FrameRun::FrameReady);
        seen += (cpu.regs.register_a & 1) as i32;
    }
    // Three of the seven cycles of the loop come before a poll and in its
    // instruction.
    assert_eq!(seen, 3);
}

#[test]
fn a_key_moves_its_button() {
    let keys = [
        (Key::Down, JoypadButton::DOWN),
        (Key::Up, JoypadButton::UP),
        (Key::Right, JoypadButton::RIGHT),
        (Key::Left, JoypadButton::LEFT),
        (Key::Space, JoypadButton::SELECT),
        (Key::Return, JoypadButton::START),
        (Key::A, JoypadButton::BUTTON_A),
        (Key::S, JoypadButton::BUTTON_B),
    ];
    let mut session = Session::new(false, 0, 16_639_267);
    let mut pad = Joypad::new();
    for (key, button) in keys {
        assert_eq!(session.handle(GameEvent::Pressed(key), &mut pad), GameAction::Continue);
        assert_eq!(pad.port.button_status.bits, button);
        assert_eq!(session.handle(GameEvent::Released(key), &mut pad), GameAction::Continue);
        assert_eq!(pad.port.button_status.bits, 0);
    }
}

#[test]
fn f11_toggles_once_per_press() {
    let mut session = Session::new(false, 0, 1);
    let mut pad = Joypad::new();
    let key = GameEvent::FullscreenKey { repeat: false };
    assert_eq!(session.handle(key, &mut pad), GameAction::SetFullscreen(true));
    let held = GameEvent::FullscreenKey { repeat: true };
    assert_eq!(session.handle(held, &mut pad), GameAction::Continue);
    session.toggle_failed();
    assert!(!session.fullscreen);
    assert_eq!(session.handle(key, &mut pad), GameAction::SetFullscreen(true));
    assert_eq!(session.handle(key, &mut pad), GameAction::SetFullscreen(false));
}

#[test]
fn escape_goes_back_and_closing_quits() {
    let mut session = Session::new(true, 0, 1);
    let mut pad = Joypad::new();
    assert_eq!(
        session.handle(GameEvent::Escape, &mut pad),
        GameAction::Leave(GameOutcome::BackToMenu)
    );
    assert_eq!(
        session.handle(GameEvent::Close, &mut pad),
        GameAction::Leave(GameOutcome::Quit)
    );
    assert_eq!(session.handle(GameEvent::Ignored, &mut pad), GameAction::Continue);
}

#[test]
fn silent_frames_are_due_one_frame_time_apart() {
    let mut session = Session::new(false, 1000, 100);
    assert_eq!(session.end_frame(false, 1030), 70);
    assert_eq!(session.end_frame(false, 1110), 90);
    // A late frame restarts the count.
    assert_eq!(session.end_frame(false, 1500), 0);
    assert_eq!(session.end_frame(false, 1510), 90);
    // While a device plays, the frame clock only follows.
    assert_eq!(session.end_frame(true, 1700), 0);
    assert_eq!(session.next_frame, 1700);
    assert_eq!(session.frames, 5);
    assert!(!session.report_due());
    for _ in 0..55 {
        session.end_frame(true, 1700);
    }
    assert!(session.report_due());
}

#[test]
fn a_latency_figure_waits_for_the_game_and_then_stays() {
    // Polls the controller for ever.
    let program = vec![
        0xa9, 0x01, 0x8d, 0x16, 0x40, // LDA #1, STA $4016
        0xa9, 0x00, 0x8d, 0x16, 0x40, // LDA #0, STA $4016
        0xad, 0x16, 0x40, // LDA $4016
        0x4c, 0x00, 0x80, // JMP $8000
    ];
    let mut cpu = console_of(program);
    let mut session = Session::new(false, 0, 1);
    assert_eq!(
        session.handle(GameEvent::Pressed(Key::Up), cpu.bus.joypad_mut()),
        GameAction::Continue
    );
    let begun = cpu.bus.joypad().last_input_sampled_at;
    assert!(begun.is_some());
    // Pressing a held key again changes nothing.
    session.handle(GameEvent::Pressed(Key::Up), cpu.bus.joypad_mut());
    assert_eq!(cpu.bus.joypad().last_input_sampled_at, begun);

    // A poll that is taken back measures nothing.
    let _ = speculate(&mut cpu, LIMIT);
    assert_eq!(cpu.bus.joypad().last_input_sampled_at, begun);
    assert_eq!(cpu.bus.joypad().last_input_to_poll_us(), None);

    advance(&mut cpu, true, LIMIT);
    assert_eq!(cpu.bus.joypad().last_input_sampled_at, None);
    let figure = cpu.bus.joypad().last_input_to_poll_us();
    assert!(figure.is_some());
    advance(&mut cpu, true, LIMIT);
    assert_eq!(cpu.bus.joypad().last_input_to_poll_us(), figure);
}
