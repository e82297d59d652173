//! What is said about input that is not accepted.

use nes_emulator::audio::{AudioConfig, AudioProfile, HOST_SAMPLE_BYTES, SAMPLE_RATE};
use nes_emulator::cartridge::{decode_nes2_rom_size, Rom};
use nes_emulator::options::{command, parse_game_options, Command, Environment};
use nes_emulator::region::Region;
use nes_emulator::text::{decimal, hex, hex_byte, parse_number, trim};

fn environment() -> Environment {
    Environment {
        windows: false,
        wsl: false,
        audio_profile: None,
        audio_latency_ms: None,
        run_ahead_frames: None,
        region: None,
    }
}

fn complaint(args: &[&str]) -> String {
    let args: Vec<String> = args.iter().map(|arg| arg.to_string()).collect();
    match parse_game_options(&environment(), &args) {
        Err(message) => message,
        Ok(_) => panic!("accepted"),
    }
}

#[test]
fn every_option_names_its_complaint() {
    assert_eq!(complaint(&["--audio-profile"]), "--audio-profile needs low or balanced");
    assert_eq!(complaint(&["--audio-latency-ms"]), "--audio-latency-ms needs a value");
    assert_eq!(complaint(&["--audio-latency-ms=x"]), "--audio-latency-ms must be an integer");
    assert_eq!(
        complaint(&["--audio-latency-ms=0"]),
        "--audio-latency-ms must be greater than zero"
    );
    assert_eq!(complaint(&["--region"]), "--region needs ntsc, pal, or dendy");
    assert_eq!(
        complaint(&["--region", "secam"]),
        "unknown region secam; expected ntsc, pal, or dendy"
    );
    assert_eq!(complaint(&["--run-ahead"]), "--run-ahead needs 0 or 1");
    assert_eq!(complaint(&["--run-ahead=x"]), "--run-ahead must be 0 or 1");
    assert_eq!(
        complaint(&["--run-ahead=2"]),
        "run-ahead currently supports only 0 or 1 frame"
    );
    assert_eq!(complaint(&["--turbo"]), "unknown game option --turbo");
}

#[test]
fn an_unknown_profile_is_quoted() {
    assert_eq!(
        AudioProfile::parse("tur\"bo\n").unwrap_err(),
        "unknown audio profile \"tur\\\"bo\\n\"; expected low or balanced"
    );
    assert_eq!(
        complaint(&["--audio-profile=turbo"]),
        "unknown audio profile \"turbo\"; expected low or balanced"
    );
}

#[test]
fn the_environment_is_checked_too() {
    let mut env = environment();
    env.run_ahead_frames = Some("many".to_string());
    assert_eq!(
        parse_game_options(&env, &vec![]).err().unwrap(),
        "NES_RUN_AHEAD_FRAMES must be 0 or 1"
    );
    let mut env = environment();
    env.audio_latency_ms = Some("soon".to_string());
    assert_eq!(
        parse_game_options(&env, &vec![]).err().unwrap(),
        "NES_AUDIO_LATENCY_MS must be an integer"
    );
    env.audio_latency_ms = Some("0".to_string());
    assert_eq!(
        parse_game_options(&env, &vec![]).err().unwrap(),
        "NES_AUDIO_LATENCY_MS must be greater than zero"
    );
    let mut env = environment();
    env.region = Some("PAL".to_string());
    env.run_ahead_frames = Some("1".to_string());
    env.audio_profile = Some("safe".to_string());
    let options = parse_game_options(&env, &vec![]).ok().unwrap();
    assert_eq!(options.region_override, Some(Region::Pal));
    assert_eq!(options.run_ahead_frames, 1);
    assert_eq!(options.config.profile, AudioProfile::Balanced);
}

#[test]
fn the_host_chooses_the_default_profile() {
    let profile = |windows, wsl| AudioConfig::default_for_host(windows, wsl).profile;
    assert_eq!(profile(false, false), AudioProfile::LowLatency);
    assert_eq!(profile(false, true), AudioProfile::Balanced);
    assert_eq!(profile(true, true), AudioProfile::LowLatency);
    assert_eq!((SAMPLE_RATE, HOST_SAMPLE_BYTES), (48_000, 2));
    let config = AudioConfig::from_env(false, true, Some("low"), Some("25")).unwrap();
    assert_eq!(config.profile, AudioProfile::LowLatency);
    assert_eq!(config.target_queued_samples(), 1200);
}

#[test]
fn a_bad_image_says_what_is_wrong_with_it() {
    let complaint = |raw: &[u8]| match Rom::new(raw) {
        Err(message) => message,
        Ok(_) => panic!("accepted"),
    };
    assert_eq!(complaint(&[0; 15]), "iNES image is shorter than its 16-byte header");
    assert_eq!(complaint(&[0; 16]), "image does not have an iNES/NES 2.0 header");
    let mut header = [0u8; 16];
    header[..4].copy_from_slice(&[0x4e, 0x45, 0x53, 0x1a]);
    header[7] = 0x04;
    assert_eq!(complaint(&header), "unsupported iNES format marker $04");
    header[7] = 0;
    header[4] = 1;
    assert_eq!(
        complaint(&header),
        "cartridge image has 16 bytes but its header requires at least 16400"
    );
    header[7] = 0x08;
    header[4] = 0xff;
    header[9] = 0x0f;
    assert_eq!(complaint(&header), "PRG ROM exponent/multiplier size is too large");
    header[4] = 0;
    header[9] = 0xf0;
    header[5] = 0xff;
    assert_eq!(complaint(&header), "CHR ROM exponent/multiplier size is too large");
    assert_eq!(decode_nes2_rom_size(2, 0, 0x4000, "PRG ROM"), Ok(0x8000));
}

#[test]
fn numerals_are_written_and_read() {
    assert_eq!(decimal(0), "0");
    assert_eq!(decimal(18_446_744_073_709_551_615), "18446744073709551615");
    assert_eq!(hex_byte(0xa5), "A5");
    assert_eq!(hex(0xbeef, 4, true), "BEEF");
    assert_eq!(hex(0xbeef, 6, false), "00beef");
    assert_eq!(parse_number("255", 10, 255), Some(255));
    assert_eq!(parse_number("256", 10, 255), None);
    assert_eq!(parse_number("+7", 10, 255), Some(7));
    assert_eq!(parse_number("", 10, 255), None);
    assert_eq!(parse_number("ff", 16, 65535), Some(255));
    assert_eq!(parse_number("99999999999999999999999", 10, 18_446_744_073_709_551_615), None);
}

#[test]
fn the_first_argument_picks_the_command() {
    let of = |args: &[&str]| command(&args.iter().map(|arg| arg.to_string()).collect());
    assert_eq!(of(&["nes"]), Command::Menu);
    assert_eq!(of(&["nes", "game.nes"]), Command::Play);
    assert_eq!(of(&["nes", "nestest"]), Command::Nestest);
    assert_eq!(of(&["nes", "tiles"]), Command::Tiles);
    assert_eq!(of(&["nes", "probe", "a"]), Command::Probe { frames: 1800 });
    assert_eq!(of(&["nes", "probe", "a", "", "12"]), Command::Probe { frames: 12 });
    assert_eq!(of(&["nes", "test-rom", "a"]), Command::TestRom { limit: 50_000_000 });
    assert_eq!(of(&["nes", "test-rom", "a", "x"]), Command::TestRom { limit: 50_000_000 });
}

#[test]
fn texts_are_trimmed_of_white_space() {
    assert_eq!(trim("  a b\t\r\n"), "a b");
    assert_eq!(trim("\u{3000}\u{a0}x\u{2003}"), "x");
    assert_eq!(trim(" \n "), "");
    assert_eq!(trim("\u{200b}"), "\u{200b}");
}
