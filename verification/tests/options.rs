//! Game options.

use nes_emulator::audio::AudioProfile;
use nes_emulator::options::{parse_game_options, Environment, GameOptions, WindowMode};
use nes_emulator::region::Region;

fn environment() -> Environment {
    Environment {
        windows: false,
        wsl: false,
        audio_profile: None,
        audio_latency_ms: None,
        run_ahead_frames: None,
        region: None,
    }
}

fn parse(args: &[String]) -> Result<GameOptions, String> {
    parse_game_options(&environment(), &args.to_vec())
}

#[test]
fn game_options_select_low_latency_and_one_frame_run_ahead() {
    let args = vec![
        "--audio-profile".to_string(),
        "low".to_string(),
        "--audio-latency-ms=25".to_string(),
        "--run-ahead".to_string(),
        "1".to_string(),
        "--latency-debug".to_string(),
    ];
    let options = parse(&args).unwrap();
    assert_eq!(options.config.profile, AudioProfile::LowLatency);
    assert_eq!(options.config.pulse_latency_ms, 25);
    assert!(options.latency_debug);
    assert_eq!(options.run_ahead_frames, 1);
    assert_eq!(options.window_mode, WindowMode::Windowed);
}

#[test]
fn game_options_reject_more_than_one_run_ahead_frame() {
    let args = vec!["--run-ahead=2".to_string()];
    assert!(parse(&args).is_err());
}

#[test]
fn game_options_accept_fullscreen() {
    let args = vec!["--fullscreen".to_string()];
    let options = parse(&args).unwrap();
    assert_eq!(options.window_mode, WindowMode::Fullscreen);
}

#[test]
fn game_options_accept_windowed_fullscreen_and_its_alias() {
    for flag in ["--windowed-fullscreen", "--borderless"] {
        let args = vec![flag.to_string()];
        let options = parse(&args).unwrap();
        assert_eq!(options.window_mode, WindowMode::WindowedFullscreen);
    }
}

#[test]
fn game_options_accept_region_override() {
    let args = vec!["--region=dendy".to_string()];
    let options = parse(&args).unwrap();
    assert_eq!(options.region_override, Some(Region::Dendy));
    assert!(parse(&["--region=secam".to_string()]).is_err());
}

