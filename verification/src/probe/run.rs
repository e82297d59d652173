//! A probe run: what one finished frame is measured as, which pictures it
//! causes to be written, and when the run is over.

use crate::bus::model::FrameHook;
use crate::ppu::model::ProbeDiagnostics;
use crate::probe::{
    buttons_held, frame_hash, hash_of, held_buttons, last_of, listed_frames, optional_number,
    parse_script, remember, ring_of, script_of, settings_complaint, shot_interval, Press,
    ProbeConfig, ProbeSettings,
};
use crate::render::frame::Frame;
use crate::text::{decimal, decimal_chars, hex, hex_chars};
use vstd::prelude::*;

verus! {

/// What was measured of one frame. The time it took is the caller's to keep.
#[derive(Clone, Copy, Debug, PartialEq, Eq, Structural)]
pub struct FrameRow {
    pub frame: u32,
    pub samples: u64,
    pub cumulative_samples: u64,
    pub cpu_cycles: u64,
    pub hash: u64,
    pub audio_backlog: u32,
    pub audio_queued: u32,
    pub audio_pending: u32,
    pub oam_dmas: u64,
    pub visible_writes: u64,
    pub last_register: u16,
    pub last_scanline: u16,
    pub last_dot: usize,
}

/// What the machine and the host report at the end of a frame.
#[derive(Clone, Copy, Debug, PartialEq, Eq, Structural)]
pub struct FrameReading {
    pub samples: u64,
    pub cpu_cycles: u64,
    pub audio_backlog: u32,
    pub audio_queued: u32,
    pub audio_pending: u32,
    pub diagnostics: ProbeDiagnostics,
}

/// The report's heading.
pub const REPORT_HEADING: &'static str = "frame,host_ms,samples,cumulative_samples,cpu_cycles,frame_hash,audio_backlog_bytes,audio_queued_bytes,audio_pending_bytes,oam_dmas,visible_ppu_writes,last_register,last_scanline,last_dot\n";

/// The report's columns before the frame's hash.
pub open spec fn leading_columns(row: FrameRow, host_ms: Seq<char>) -> Seq<char> {
    decimal_chars(row.frame as nat) + ","@ + host_ms + ","@ + decimal_chars(row.samples as nat)
        + ","@ + decimal_chars(row.cumulative_samples as nat) + ","@ + decimal_chars(
        row.cpu_cycles as nat,
    ) + ","@
}

/// The report's columns on the host's audio.
pub open spec fn audio_columns(row: FrameRow) -> Seq<char> {
    ","@ + decimal_chars(row.audio_backlog as nat) + ","@ + decimal_chars(row.audio_queued as nat)
        + ","@ + decimal_chars(row.audio_pending as nat) + ","@
}

/// The report's columns on the picture unit.
pub open spec fn picture_columns(row: FrameRow) -> Seq<char> {
    decimal_chars(row.oam_dmas as nat) + ","@ + decimal_chars(row.visible_writes as nat) + ",0x"@
        + hex_chars(row.last_register as nat, 4, false) + ","@ + decimal_chars(
        row.last_scanline as nat,
    ) + ","@ + decimal_chars(row.last_dot as nat) + "\n"@
}

/// A line of the report, given the frame's time as text.
pub open spec fn report_line_of(row: FrameRow, host_ms: Seq<char>) -> Seq<char> {
    leading_columns(row, host_ms) + hex_chars(row.hash as nat, 16, false) + audio_columns(row)
        + picture_columns(row)
}

fn leading_text(row: &FrameRow, host_ms: &str) -> (r: String)
    ensures
        r@ == leading_columns(*row, host_ms@),
{
    let mut line = decimal(row.frame as u64);
    line.append(",");
    line.append(host_ms);
    line.append(",");
    line.append(decimal(row.samples).as_str());
    line.append(",");
    line.append(decimal(row.cumulative_samples).as_str());
    line.append(",");
    line.append(decimal(row.cpu_cycles).as_str());
    line.append(",");
    line
}

fn audio_text(row: &FrameRow) -> (r: String)
    ensures
        r@ == audio_columns(*row),
{
    let mut line = String::from_str(",");
    line.append(decimal(row.audio_backlog as u64).as_str());
    line.append(",");
    line.append(decimal(row.audio_queued as u64).as_str());
    line.append(",");
    line.append(decimal(row.audio_pending as u64).as_str());
    line.append(",");
    line
}

fn picture_text(row: &FrameRow) -> (r: String)
    ensures
        r@ == picture_columns(*row),
{
    let mut line = decimal(row.oam_dmas);
    line.append(",");
    line.append(decimal(row.visible_writes).as_str());
    line.append(",0x");
    line.append(hex(row.last_register as u64, 4, false).as_str());
    line.append(",");
    line.append(decimal(row.last_scanline as u64).as_str());
    line.append(",");
    line.append(decimal(row.last_dot as u64).as_str());
    line.append("\n");
    line
}

/// Writes a line of the report.
pub fn report_line(row: &FrameRow, host_ms: &str) -> (r: String)
    ensures
        r@ == report_line_of(*row, host_ms@),
{
    let mut line = leading_text(row, host_ms);
    line.append(hex(row.hash, 16, false).as_str());
    line.append(audio_text(row).as_str());
    line.append(picture_text(row).as_str());
    line
}

/// What the caller has to write to disk after a frame, and whether the run is
/// over.
#[derive(Clone, Copy, Debug, PartialEq, Eq, Structural)]
pub struct FramePlan {
    /// A screenshot is due, to be compared with its baseline.
    pub shot: bool,
    /// The frames kept before this one are due.
    pub prior: bool,
    /// This frame belongs to the captured window.
    pub capture: bool,
    /// The last frame has been seen.
    pub finished: bool,
}

/// A run in progress.
pub struct ProbeRun {
    pub presses: Vec<Press>,
    pub config: ProbeConfig,
    pub max_frames: u32,
    pub frame_no: u32,
    pub cumulative_samples: u64,
    pub previous: ProbeDiagnostics,
    pub ring: Vec<(u32, Frame)>,
}

/// The first complaint about a run's arguments and settings, if any.
pub open spec fn run_complaint(script: Seq<char>, s: ProbeSettings, max_frames: u32) -> Option<
    Seq<char>,
> {
    if max_frames == 0 {
        Some("probe frame count must be greater than zero"@)
    } else {
        match script_of(script) {
            Err(message) => Some(message),
            Ok(_) => match settings_complaint(s) {
                Some(message) => Some(message),
                None => if !s.has_shot_dir && optional_number(s.capture_frame) != Some(
                    None::<u32>,
                ) {
                    Some("PROBE_CAPTURE_FRAME requires PROBE_SHOTS"@)
                } else if !s.has_shot_dir && s.has_baselines {
                    Some("PROBE_BASELINES requires PROBE_SHOTS"@)
                } else {
                    None
                },
            },
        }
    }
}

/// The measurements of a frame.
pub open spec fn row_of(
    frame_no: u32,
    cumulative: u64,
    previous: ProbeDiagnostics,
    pixels: Seq<u8>,
    reading: FrameReading,
) -> FrameRow {
    FrameRow {
        frame: frame_no,
        samples: reading.samples,
        cumulative_samples: cumulative,
        cpu_cycles: reading.cpu_cycles,
        hash: hash_of(pixels, pixels.len()),
        audio_backlog: reading.audio_backlog,
        audio_queued: reading.audio_queued,
        audio_pending: reading.audio_pending,
        oam_dmas: (reading.diagnostics.oam_dma_count - previous.oam_dma_count) as u64,
        visible_writes: (reading.diagnostics.visible_register_writes
            - previous.visible_register_writes) as u64,
        last_register: reading.diagnostics.last_register,
        last_scanline: reading.diagnostics.last_scanline,
        last_dot: reading.diagnostics.last_dot,
    }
}

impl ProbeRun {
    /// Whether a frame can still be taken: the run is not over, and the
    /// counters only grow.
    pub open spec fn takes(&self, reading: FrameReading) -> bool {
        &&& self.frame_no < self.max_frames
        &&& self.config.shot_every != Some(0u32)
        &&& self.cumulative_samples + reading.samples <= u64::MAX
        &&& self.previous.oam_dma_count <= reading.diagnostics.oam_dma_count
        &&& self.previous.visible_register_writes <= reading.diagnostics.visible_register_writes
    }

    /// Starts a run, or says what is wrong with it.
    pub fn begin(script: &str, settings: &ProbeSettings, max_frames: u32) -> (r: Result<
        Self,
        String,
    >)
        ensures
            match r {
                Err(message) => run_complaint(script@, *settings, max_frames) == Some(message@),
                Ok(run) => {
                    &&& run_complaint(script@, *settings, max_frames) is None
                    &&& script_of(script@) == Ok::<Seq<Press>, Seq<char>>(run.presses@)
                    &&& run.max_frames == max_frames
                    &&& run.frame_no == 0
                    &&& run.cumulative_samples == 0
                    &&& run.previous.oam_dma_count == 0
                    &&& run.previous.visible_register_writes == 0
                    &&& run.previous.last_register == 0
                    &&& run.previous.last_scanline == 0
                    &&& run.previous.last_dot == 0
                    &&& run.ring@.len() == 0
                    &&& run.config.shot_every != Some(0u32)
                    &&& run.config.has_shot_dir == settings.has_shot_dir
                    &&& run.config.has_baselines == settings.has_baselines
                    &&& listed_frames(*settings) == Ok::<Seq<u32>, Seq<char>>(
                        run.config.shot_frames@,
                    )
                    &&& run.config.shot_every == shot_interval(*settings, run.config.shot_frames@)
                    &&& Some(run.config.capture_frame) == optional_number(settings.capture_frame)
                    &&& run.config.capture_radius == match optional_number(
                        settings.capture_radius,
                    )->0 {
                        Some(radius) => radius,
                        None => 2,
                    }
                },
            },
    {
        if max_frames == 0 {
            return Err(String::from_str("probe frame count must be greater than zero"));
        }
        let presses = match parse_script(script) {
            Ok(presses) => presses,
            Err(message) => {
                return Err(message);
            },
        };
        let config = match ProbeConfig::from_settings(settings) {
            Ok(config) => config,
            Err(message) => {
                return Err(message);
            },
        };
        if let Some(message) = config.missing_directory() {
            return Err(String::from_str(message));
        }
        Ok(
            ProbeRun {
                presses,
                config,
                max_frames,
                frame_no: 0,
                cumulative_samples: 0,
                previous: ProbeDiagnostics {
                    oam_dma_count: 0,
                    visible_register_writes: 0,
                    last_register: 0,
                    last_scanline: 0,
                    last_dot: 0,
                },
                ring: Vec::new(),
            },
        )
    }

    /// What to do at the start of the next vblank: hold the script's buttons for
    /// that frame, and hand over the samples that fill no chunk.
    pub fn next_hook(&self) -> (r: FrameHook)
        requires
            self.frame_no < u32::MAX,
        ensures
            r.buttons == Some(
                buttons_held(
                    self.presses@,
                    (self.frame_no + 1) as u32,
                    self.presses@.len(),
                ).bits,
            ),
            r.drains,
    {
        FrameHook {
            buttons: Some(held_buttons(&self.presses, self.frame_no + 1)),
            drains: true,
        }
    }

    /// Counts a finished frame: measures it, and says which pictures are due.
    pub fn count_frame(&mut self, frame: &Frame, reading: FrameReading) -> (r: (
        FrameRow,
        FramePlan,
    ))
        requires
            old(self).takes(reading),
        ensures
            r.0 == row_of(
                final(self).frame_no,
                final(self).cumulative_samples,
                old(self).previous,
                frame@,
                reading,
            ),
            final(self).frame_no == old(self).frame_no + 1,
            final(self).cumulative_samples == old(self).cumulative_samples + reading.samples,
            final(self).previous == reading.diagnostics,
            final(self).presses == old(self).presses,
            final(self).config == old(self).config,
            final(self).max_frames == old(self).max_frames,
            final(self).ring == old(self).ring,
            r.1 == (FramePlan {
                shot: old(self).config.shot_due(final(self).frame_no),
                prior: old(self).config.has_shot_dir && old(self).config.capture_frame == Some(
                    final(self).frame_no,
                ),
                capture: old(self).config.in_window(final(self).frame_no),
                finished: final(self).frame_no >= old(self).max_frames,
            }),
    {
        self.frame_no = self.frame_no + 1;
        self.cumulative_samples = self.cumulative_samples + reading.samples;
        let row = FrameRow {
            frame: self.frame_no,
            samples: reading.samples,
            cumulative_samples: self.cumulative_samples,
            cpu_cycles: reading.cpu_cycles,
            hash: frame_hash(frame),
            audio_backlog: reading.audio_backlog,
            audio_queued: reading.audio_queued,
            audio_pending: reading.audio_pending,
            oam_dmas: reading.diagnostics.oam_dma_count - self.previous.oam_dma_count,
            visible_writes: reading.diagnostics.visible_register_writes
                - self.previous.visible_register_writes,
            last_register: reading.diagnostics.last_register,
            last_scanline: reading.diagnostics.last_scanline,
            last_dot: reading.diagnostics.last_dot,
        };
        self.previous = reading.diagnostics;
        let plan = FramePlan {
            shot: self.config.is_shot_due(self.frame_no),
            prior: self.config.dumps_prior(self.frame_no),
            capture: self.config.captures(self.frame_no),
            finished: self.frame_no >= self.max_frames,
        };
        (row, plan)
    }

    /// Keeps a finished frame for a later capture. The kept frames of before
    /// have been written by then.
    pub fn keep_frame(&mut self, frame: &Frame)
        ensures
            ring_of(final(self).ring@) == if old(self).config.has_shot_dir && old(
                self,
            ).config.capture_frame is Some {
                last_of(
                    ring_of(old(self).ring@).push((old(self).frame_no, frame@)),
                    old(self).config.capture_radius as int,
                )
            } else {
                ring_of(old(self).ring@)
            },
            final(self).presses == old(self).presses,
            final(self).config == old(self).config,
            final(self).max_frames == old(self).max_frames,
            final(self).frame_no == old(self).frame_no,
            final(self).cumulative_samples == old(self).cumulative_samples,
            final(self).previous == old(self).previous,
    {
        if self.config.has_shot_dir && self.config.capture_frame.is_some() {
            remember(
                &mut self.ring,
                self.frame_no,
                frame.duplicate(),
                self.config.capture_radius,
            );
        }
    }
}

/// A run never keeps more frames than the capture radius.
pub proof fn kept_frames_are_bounded(ring: Seq<(u32, Seq<u8>)>, frame: (u32, Seq<u8>), radius: int)
    requires
        0 <= radius,
    ensures
        last_of(ring.push(frame), radius).len() <= radius,
        radius > 0 ==> last_of(ring.push(frame), radius).last() == frame,
{
}

} // verus!
