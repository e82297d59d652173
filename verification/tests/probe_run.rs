//! A probe's settings, its report and its verdict.

use nes_emulator::bus::model::FrameHook;
use nes_emulator::joypad::JoypadButton;
use nes_emulator::ppu::model::ProbeDiagnostics;
use nes_emulator::probe::run::{report_line, FramePlan, FrameReading, ProbeRun, REPORT_HEADING};
use nes_emulator::probe::{
    bmp_bytes, compare_shot, env_flag, frame_hash, held_buttons, judge_baselines, judge_health,
    measured_samples, parse_frames, parse_script, percentile_index, queue_bounds, remember,
    shot_name, AudioHealth, ProbeSettings,
};
use nes_emulator::render::frame::Frame;

fn settings() -> ProbeSettings {
    ProbeSettings {
        has_shot_dir: true,
        has_baselines: false,
        shot_frames: "".to_string(),
        shot_every: None,
        capture_frame: None,
        capture_radius: None,
        drift_complaint: None,
    }
}

fn reading(samples: u64, dmas: u64, writes: u64) -> FrameReading {
    FrameReading {
        samples,
        cpu_cycles: 29_780,
        audio_backlog: 10,
        audio_queued: 6,
        audio_pending: 4,
        diagnostics: ProbeDiagnostics {
            oam_dma_count: dmas,
            visible_register_writes: writes,
            last_register: 0x2006,
            last_scanline: 30,
            last_dot: 256,
        },
    }
}

fn refusal(script: &str, settings: ProbeSettings, frames: u32) -> String {
    match ProbeRun::begin(script, &settings, frames) {
        Err(message) => message,
        Ok(_) => panic!("accepted"),
    }
}

#[test]
fn a_bad_script_says_what_is_wrong() {
    let complaint = |script: &str| parse_script(script).unwrap_err();
    assert_eq!(complaint("start"), "press must be button@from-to: start");
    assert_eq!(complaint("jump@1-2"), "unknown button jump");
    assert_eq!(complaint("a@5"), "range must be from-to: 5");
    assert_eq!(complaint("a@x-2"), "bad frame x");
    assert_eq!(complaint("a@1-y"), "bad frame y");
    assert_eq!(parse_script(",a@1-2,").unwrap().len(), 1);
}

#[test]
fn presses_hold_their_buttons() {
    let presses = parse_script("a@2-3,right@3-").unwrap();
    let held: Vec<u8> = (1..=4).map(|frame| held_buttons(&presses, frame)).collect();
    let (a, right) = (JoypadButton::BUTTON_A, JoypadButton::RIGHT);
    assert_eq!(held, vec![0, a, a | right, right]);
}

#[test]
fn bad_settings_say_what_is_wrong() {
    assert_eq!(refusal("", settings(), 0), "probe frame count must be greater than zero");
    assert_eq!(refusal("x", settings(), 1), "press must be button@from-to: x");
    let every = |text: &str| ProbeSettings {
        shot_every: Some(text.to_string()),
        ..settings()
    };
    assert_eq!(
        refusal("", every("often"), 1),
        "PROBE_SHOT_EVERY must be a positive integer"
    );
    assert_eq!(refusal("", every("0"), 1), "PROBE_SHOT_EVERY must be greater than zero");
    let mut bad = settings();
    bad.shot_frames = "1,two".to_string();
    assert_eq!(refusal("", bad, 1), "PROBE_SHOT_FRAMES contains invalid frame two");
    let mut bad = settings();
    bad.capture_frame = Some("now".to_string());
    assert_eq!(refusal("", bad, 1), "PROBE_CAPTURE_FRAME must be an integer");
    let mut bad = settings();
    bad.capture_radius = Some("wide".to_string());
    assert_eq!(refusal("", bad, 1), "PROBE_CAPTURE_RADIUS must be an integer");
    let mut bad = settings();
    bad.has_shot_dir = false;
    bad.capture_frame = Some("3".to_string());
    assert_eq!(refusal("", bad, 1), "PROBE_CAPTURE_FRAME requires PROBE_SHOTS");
    let mut bad = settings();
    bad.has_shot_dir = false;
    bad.has_baselines = true;
    assert_eq!(refusal("", bad, 1), "PROBE_BASELINES requires PROBE_SHOTS");
    // A bad drift is named before a missing directory, and behind the numbers.
    let mut bad = settings();
    bad.has_shot_dir = false;
    bad.has_baselines = true;
    bad.drift_complaint = Some("PROBE_MAX_SAMPLE_DRIFT must be a nonnegative number".to_string());
    assert_eq!(refusal("", bad, 1), "PROBE_MAX_SAMPLE_DRIFT must be a nonnegative number");
    let mut bad = settings();
    bad.drift_complaint = Some("PROBE_MAX_SAMPLE_DRIFT must be a nonnegative number".to_string());
    bad.capture_radius = Some("wide".to_string());
    assert_eq!(refusal("", bad, 1), "PROBE_CAPTURE_RADIUS must be an integer");
}

#[test]
fn a_run_counts_its_frames_and_captures_its_window() {
    let mut asked = settings();
    asked.shot_frames = "2".to_string();
    asked.capture_frame = Some("3".to_string());
    asked.capture_radius = Some("1".to_string());
    let mut run = ProbeRun::begin("start@2-2", &asked, 4).ok().unwrap();
    let frame = Frame::new();
    let mut plans = vec![];
    let mut held = vec![];
    let mut rows = vec![];
    for n in 1..=4u64 {
        let FrameHook { buttons, drains } = run.next_hook();
        assert!(drains);
        held.push(buttons.unwrap());
        let (row, plan) = run.count_frame(&frame, reading(800, n, 3 * n));
        rows.push((row.frame, row.cumulative_samples, row.oam_dmas, row.visible_writes));
        plans.push(plan);
        run.keep_frame(&frame);
        assert_eq!(run.ring.len(), 1);
    }
    let idle = FramePlan { shot: false, prior: false, capture: false, finished: false };
    assert_eq!(
        plans,
        vec![
            idle,
            FramePlan { shot: true, ..idle },
            FramePlan { prior: true, capture: true, ..idle },
            FramePlan { capture: true, finished: true, ..idle },
        ]
    );
    assert_eq!(held, vec![0, JoypadButton::START, 0, 0]);
    assert_eq!(
        rows,
        vec![(1, 800, 1, 3), (2, 1600, 1, 3), (3, 2400, 1, 3), (4, 3200, 1, 3)]
    );
}

#[test]
fn screenshots_come_every_fifty_frames_unless_listed() {
    let run = ProbeRun::begin("", &settings(), 4).ok().unwrap();
    assert!(run.config.is_shot_due(100));
    assert!(!run.config.is_shot_due(99));
    let mut listed = settings();
    listed.shot_frames = "7".to_string();
    let run = ProbeRun::begin("", &listed, 4).ok().unwrap();
    assert!(run.config.is_shot_due(7));
    assert!(!run.config.is_shot_due(50));
}

#[test]
fn a_report_line_has_the_headings_columns() {
    let mut run = ProbeRun::begin("", &settings(), 1).ok().unwrap();
    let (row, _) = run.count_frame(&Frame::new(), reading(801, 2, 5));
    let line = report_line(&row, "1.250");
    assert_eq!(
        line,
        "1,1.250,801,801,29780,96d63225ea926325,10,6,4,2,5,0x2006,30,256\n"
    );
    assert_eq!(line.matches(',').count(), REPORT_HEADING.matches(',').count());
}

#[test]
fn frames_hash_and_encode_to_known_bytes() {
    let mut frame = Frame::new();
    frame.set_pixel(0, 0, (1, 2, 3));
    assert_eq!(frame_hash(&frame), 0xc094_4456_447e_2501);
    let bytes = bmp_bytes(&frame);
    // The top left pixel begins the last row of the file, blue first.
    let at = 54 + 239 * 768;
    assert_eq!(&bytes[at..at + 4], &[3, 2, 1, 0]);
    assert_eq!(&bytes[2..6], &[0x36, 0xd0, 0x02, 0x00]);
    assert_eq!(shot_name(7), "f00007.bmp");
    assert_eq!(shot_name(123_456), "f123456.bmp");
}

#[test]
fn a_ring_keeps_the_last_frames() {
    let mut ring = vec![];
    for n in 1..=5 {
        remember(&mut ring, n, Frame::new(), 2);
    }
    assert_eq!(ring.iter().map(|entry| entry.0).collect::<Vec<_>>(), vec![4, 5]);
    remember(&mut ring, 6, Frame::new(), 0);
    assert!(ring.is_empty());
}

#[test]
fn flags_and_frame_lists_are_read() {
    assert!(!env_flag(None));
    assert!(!env_flag(Some("0")));
    assert!(env_flag(Some("1")));
    assert_eq!(parse_frames("X", "3,,5"), Ok(vec![3, 5]));
    assert_eq!(
        parse_frames("X", "3,z"),
        Err("X contains invalid frame z".to_string())
    );
}

#[test]
fn an_unhealthy_run_says_why() {
    let healthy = AudioHealth {
        realtime: true,
        queue_end: 100,
        queue_max: 200,
        high_water_bytes: 300,
        dropped: 0,
        underflows: 0,
        reopens: 0,
    };
    assert_eq!(judge_health(healthy), Ok(()));
    assert_eq!(
        judge_health(AudioHealth { realtime: false, ..healthy }).unwrap_err(),
        "PROBE_REQUIRE_HEALTHY_AUDIO requires PROBE_REALTIME=1"
    );
    assert_eq!(
        judge_health(AudioHealth { queue_end: u32::MAX, ..healthy }).unwrap_err(),
        "host audio queue was unavailable during validation"
    );
    assert_eq!(
        judge_health(AudioHealth { queue_max: 301, ..healthy }).unwrap_err(),
        "audio backlog exceeded high-water mark: 301 > 300 bytes"
    );
    assert_eq!(
        judge_health(AudioHealth { underflows: 2, ..healthy }).unwrap_err(),
        "host audio health check failed: dropped=0 underflows=2 reopens=0"
    );
    assert_eq!(judge_baselines(&vec![]), Ok(()));
    assert_eq!(
        judge_baselines(&vec!["f00001".to_string(), "f00002".to_string()]).unwrap_err(),
        "visual regression failed: f00001, f00002"
    );
}

#[test]
fn a_shot_that_differs_from_its_baseline_fails() {
    assert_eq!(compare_shot("f1.bmp", &vec![1, 2], &vec![1, 2]), None);
    let failure = Some("f1.bmp: pixels differ".to_string());
    assert_eq!(compare_shot("f1.bmp", &vec![1, 2], &vec![1, 3]), failure);
    assert_eq!(compare_shot("f1.bmp", &vec![1, 2], &vec![1]), failure);
}

#[test]
fn measurements_are_summed_up() {
    assert_eq!(queue_bounds(&vec![u32::MAX, 7, 3, 9]), (3, 9));
    assert_eq!(queue_bounds(&vec![u32::MAX]), (u32::MAX, u32::MAX));
    assert_eq!(percentile_index(0), 0);
    assert_eq!(percentile_index(1), 0);
    assert_eq!(percentile_index(101), 95);
    assert_eq!(measured_samples(48_000, 800), 47_200);
    assert_eq!(measured_samples(5, 800), 0);
}
