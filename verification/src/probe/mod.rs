//! The headless probe's decisions: scripted input, screenshots and their
//! encoding, which frames are kept, and whether a run counts as healthy.

use crate::audio::BACKLOG_UNAVAILABLE;
use crate::joypad::JoypadButton;
use crate::render::frame::{Frame, FRAME_BYTES};
use crate::text::{
    decimal, decimal_chars, number_up_to, parse_number, pieces_from, same, split, split_once,
    split_once_at, views,
};
use vstd::prelude::*;

pub mod laws;
pub mod run;

verus! {

// ---- Pictures ----------------------------------------------------------------------------

/// The header of a 256 by 240 bitmap with 24 bits per pixel.
pub open spec fn bmp_header() -> Seq<u8> {
    seq![
        0x42u8, 0x4d,
        // File size, reserved words, offset of the pixels.
        0x36, 0xd0, 0x02, 0x00, 0, 0, 0, 0, 54, 0, 0, 0,
        // Information header: its size, width, height, planes, bits per pixel.
        40, 0, 0, 0, 0x00, 0x01, 0, 0, 240, 0, 0, 0, 1, 0, 24, 0,
        // Compression, sizes, resolutions and palette: all left at zero.
        0, 0, 0, 0, 0, 0, 0, 0, 0, 0, 0, 0, 0, 0, 0, 0, 0, 0, 0, 0, 0, 0, 0, 0
    ]
}

/// Byte `i` of the pixels: rows from the bottom up, each pixel blue, green, red.
pub open spec fn bmp_pixel_byte(data: Seq<u8>, i: int) -> u8 {
    let y = 239 - i / 768;
    let x = i % 768 / 3;
    data[(y * 256 + x) * 3 + 2 - i % 3]
}

/// A frame as a bitmap file.
pub open spec fn bmp_of(data: Seq<u8>) -> Seq<u8> {
    bmp_header() + Seq::new(FRAME_BYTES as nat, |i: int| bmp_pixel_byte(data, i))
}

/// Encodes a frame as a bitmap file.
pub fn bmp_bytes(frame: &Frame) -> (r: Vec<u8>)
    requires
        frame.wf(),
    ensures
        r@ == bmp_of(frame@),
{
    let mut out: Vec<u8> = vec![
        0x42, 0x4d, 0x36, 0xd0, 0x02, 0x00, 0, 0, 0, 0, 54, 0, 0, 0, 40, 0, 0, 0, 0x00, 0x01, 0,
        0, 240, 0, 0, 0, 1, 0, 24, 0, 0, 0, 0, 0, 0, 0, 0, 0, 0, 0, 0, 0, 0, 0, 0, 0, 0, 0, 0, 0,
        0, 0, 0, 0,
    ];
    assert(out@ =~= bmp_header());
    let mut i: usize = 0;
    while i < FRAME_BYTES
        invariant
            frame.wf(),
            i <= FRAME_BYTES,
            out@ == bmp_header() + Seq::new(i as nat, |k: int| bmp_pixel_byte(frame@, k)),
        decreases FRAME_BYTES - i,
    {
        let y: usize = 239 - i / 768;
        let x: usize = i % 768 / 3;
        out.push(frame.data[(y * 256 + x) * 3 + 2 - i % 3]);
        i += 1;
        assert(out@ =~= bmp_header() + Seq::new(i as nat, |k: int| bmp_pixel_byte(frame@, k)));
    }
    out
}

/// FNV-1a of the first `n` bytes. Small and stable: a regression identity, not
/// a security checksum.
pub open spec fn hash_of(data: Seq<u8>, n: nat) -> u64
    decreases n,
{
    if n == 0 {
        0xcbf29ce484222325
    } else {
        (hash_of(data, (n - 1) as nat) ^ (data[n - 1] as u64)).wrapping_mul(0x100000001b3)
    }
}

pub fn frame_hash(frame: &Frame) -> (r: u64)
    ensures
        r == hash_of(frame@, frame@.len()),
{
    let mut hash: u64 = 0xcbf29ce484222325;
    let mut i: usize = 0;
    while i < frame.data.len()
        invariant
            i <= frame@.len(),
            hash == hash_of(frame@, i as nat),
        decreases frame.data.len() - i,
    {
        hash = (hash ^ frame.data[i] as u64).wrapping_mul(0x100000001b3);
        i += 1;
    }
    hash
}

/// The file name of a frame's screenshot: its number in at least five digits.
pub open spec fn shot_name_of(frame: u32) -> Seq<char> {
    let digits = decimal_chars(frame as nat);
    let zeros = if frame < 10 {
        "0000"@
    } else if frame < 100 {
        "000"@
    } else if frame < 1000 {
        "00"@
    } else if frame < 10000 {
        "0"@
    } else {
        ""@
    };
    "f"@ + zeros + digits + ".bmp"@
}

pub fn shot_name(frame: u32) -> (r: String)
    ensures
        r@ == shot_name_of(frame),
{
    let mut name = String::from_str("f");
    name.append(
        if frame < 10 {
            "0000"
        } else if frame < 100 {
            "000"
        } else if frame < 1000 {
            "00"
        } else if frame < 10000 {
            "0"
        } else {
            ""
        },
    );
    name.append(decimal(frame as u64).as_str());
    name.append(".bmp");
    name
}

// ---- Scripted input --------------------------------------------------------------------

/// A button held from one frame to another, both included.
#[derive(Clone, Copy, Debug, PartialEq, Eq, Structural)]
pub struct Press {
    pub button: u8,
    pub from: u32,
    pub to: u32,
}

pub open spec fn button_named(name: Seq<char>) -> Option<u8> {
    if name == "a"@ {
        Some(JoypadButton::BUTTON_A)
    } else if name == "b"@ {
        Some(JoypadButton::BUTTON_B)
    } else if name == "start"@ {
        Some(JoypadButton::START)
    } else if name == "select"@ {
        Some(JoypadButton::SELECT)
    } else if name == "up"@ {
        Some(JoypadButton::UP)
    } else if name == "down"@ {
        Some(JoypadButton::DOWN)
    } else if name == "left"@ {
        Some(JoypadButton::LEFT)
    } else if name == "right"@ {
        Some(JoypadButton::RIGHT)
    } else {
        None
    }
}

fn button_of(name: &str) -> (r: Option<u8>)
    ensures
        r == button_named(name@),
{
    if same(name, "a") {
        Some(JoypadButton::BUTTON_A)
    } else if same(name, "b") {
        Some(JoypadButton::BUTTON_B)
    } else if same(name, "start") {
        Some(JoypadButton::START)
    } else if same(name, "select") {
        Some(JoypadButton::SELECT)
    } else if same(name, "up") {
        Some(JoypadButton::UP)
    } else if same(name, "down") {
        Some(JoypadButton::DOWN)
    } else if same(name, "left") {
        Some(JoypadButton::LEFT)
    } else if same(name, "right") {
        Some(JoypadButton::RIGHT)
    } else {
        None
    }
}

/// One entry of a script, `button@from-to`; without an end it is held for good.
pub open spec fn press_of(entry: Seq<char>) -> Result<Press, Seq<char>> {
    match split_once_at(entry, '@') {
        None => Err("press must be button@from-to: "@ + entry),
        Some((name, range)) => match button_named(name) {
            None => Err("unknown button "@ + name),
            Some(button) => match split_once_at(range, '-') {
                None => Err("range must be from-to: "@ + range),
                Some((from, to)) => match number_up_to(from, 10, u32::MAX as int) {
                    None => Err("bad frame "@ + from),
                    Some(first) => if to.len() == 0 {
                        Ok(Press { button, from: first as u32, to: u32::MAX })
                    } else {
                        match number_up_to(to, 10, u32::MAX as int) {
                            None => Err("bad frame "@ + to),
                            Some(last) => Ok(
                                Press { button, from: first as u32, to: last as u32 },
                            ),
                        }
                    },
                },
            },
        },
    }
}

fn joined(a: &str, b: &str) -> (r: String)
    ensures
        r@ == a@ + b@,
{
    let mut s = String::from_str(a);
    s.append(b);
    s
}

fn parse_press(entry: &str) -> (r: Result<Press, String>)
    ensures
        crate::options::modeled(r) == press_of(entry@),
{
    let (name, range) = match split_once(entry, '@') {
        Some(parts) => parts,
        None => {
            return Err(joined("press must be button@from-to: ", entry));
        },
    };
    let button: u8 = match button_of(name) {
        Some(button) => button,
        None => {
            return Err(joined("unknown button ", name));
        },
    };
    let (from, to) = match split_once(range, '-') {
        Some(parts) => parts,
        None => {
            return Err(joined("range must be from-to: ", range));
        },
    };
    let first: u64 = match parse_number(from, 10, u32::MAX as u64) {
        Some(n) => n,
        None => {
            return Err(joined("bad frame ", from));
        },
    };
    let open_ended = same(to, "");
    proof {
        reveal_strlit("");
        assert(open_ended == (to@.len() == 0)) by {
            if to@.len() == 0 {
                assert(to@ =~= ""@);
            }
        }
    }
    if open_ended {
        return Ok(Press { button, from: first as u32, to: u32::MAX });
    }
    match parse_number(to, 10, u32::MAX as u64) {
        Some(last) => Ok(Press { button, from: first as u32, to: last as u32 }),
        None => Err(joined("bad frame ", to)),
    }
}

/// The presses of a script's first `n` pieces, empty ones skipped, or the first
/// complaint.
pub open spec fn presses_of(pieces: Seq<Seq<char>>, n: nat) -> Result<Seq<Press>, Seq<char>>
    decreases n,
{
    if n == 0 {
        Ok(Seq::empty())
    } else {
        match presses_of(pieces, (n - 1) as nat) {
            Err(message) => Err(message),
            Ok(presses) => if pieces[n - 1].len() == 0 {
                Ok(presses)
            } else {
                match press_of(pieces[n - 1]) {
                    Err(message) => Err(message),
                    Ok(press) => Ok(presses.push(press)),
                }
            },
        }
    }
}

/// What a script says.
pub open spec fn script_of(script: Seq<char>) -> Result<Seq<Press>, Seq<char>> {
    let pieces = pieces_from(script, ',', 0);
    presses_of(pieces, pieces.len())
}

/// A list or the complaint about it, as its model.
pub open spec fn modeled_list<T>(r: Result<Vec<T>, String>) -> Result<Seq<T>, Seq<char>> {
    match r {
        Ok(list) => Ok(list@),
        Err(message) => Err(message@),
    }
}

proof fn lemma_complaint_stands(pieces: Seq<Seq<char>>, n: nat, m: nat)
    requires
        presses_of(pieces, n) is Err,
        n <= m,
    ensures
        presses_of(pieces, m) == presses_of(pieces, n),
    decreases m,
{
    if n < m {
        lemma_complaint_stands(pieces, n, (m - 1) as nat);
    }
}

/// Reads a script of presses, separated by commas.
pub fn parse_script(script: &str) -> (r: Result<Vec<Press>, String>)
    ensures
        modeled_list(r) == script_of(script@),
{
    let entries = split(script, ',');
    let ghost pieces = pieces_from(script@, ',', 0);
    assert(pieces.len() == views(entries@).len());
    let mut presses: Vec<Press> = Vec::new();
    let mut i: usize = 0;
    assert(presses@ =~= Seq::<Press>::empty());
    while i < entries.len()
        invariant
            i <= entries@.len(),
            views(entries@) == pieces,
            entries@.len() == pieces.len(),
            pieces == pieces_from(script@, ',', 0),
            presses_of(pieces, i as nat) == Ok::<Seq<Press>, Seq<char>>(presses@),
        decreases entries.len() - i,
    {
        let entry = entries[i];
        assert(views(entries@)[i as int] == entry@);
        let empty = same(entry, "");
        proof {
            reveal_strlit("");
            assert(empty == (entry@.len() == 0)) by {
                if entry@.len() == 0 {
                    assert(entry@ =~= ""@);
                }
            }
        }
        if !empty {
            match parse_press(entry) {
                Ok(press) => {
                    presses.push(press);
                },
                Err(message) => {
                    proof {
                        lemma_complaint_stands(pieces, (i + 1) as nat, pieces.len());
                    }
                    return Err(message);
                },
            }
        }
        i += 1;
    }
    Ok(presses)
}

/// The buttons that the first `n` presses of a script hold down in a frame.
pub open spec fn buttons_held(presses: Seq<Press>, frame: u32, n: nat) -> JoypadButton
    decreases n,
{
    if n == 0 {
        JoypadButton { bits: 0 }
    } else {
        let before = buttons_held(presses, frame, (n - 1) as nat);
        let press = presses[n - 1];
        if press.from <= frame <= press.to {
            before.with(press.button, true)
        } else {
            before
        }
    }
}

/// The buttons that a script holds down in a frame, as the controller's bits.
pub fn held_buttons(presses: &Vec<Press>, frame: u32) -> (r: u8)
    ensures
        r == buttons_held(presses@, frame, presses@.len()).bits,
{
    let mut held = JoypadButton { bits: 0 };
    let mut i: usize = 0;
    while i < presses.len()
        invariant
            i <= presses@.len(),
            held == buttons_held(presses@, frame, i as nat),
        decreases presses.len() - i,
    {
        if presses[i].from <= frame && frame <= presses[i].to {
            held.set(presses[i].button, true);
        }
        i += 1;
    }
    held.bits
}

// ---- Settings ---------------------------------------------------------------------------

/// Whether a setting switches something on: present, and neither `0` nor
/// `false`.
pub open spec fn flag_set(value: Option<Seq<char>>) -> bool {
    value is Some && value->0 != "0"@ && value->0 != "false"@
}

pub fn env_flag(value: Option<&str>) -> (r: bool)
    ensures
        r == flag_set(crate::audio::viewed(value)),
{
    match value {
        Some(text) => !same(text, "0") && !same(text, "false"),
        None => false,
    }
}

/// The frames that the first `n` pieces list, empty ones skipped, or the first
/// complaint, under the setting's name.
pub open spec fn frames_of(name: Seq<char>, pieces: Seq<Seq<char>>, n: nat) -> Result<
    Seq<u32>,
    Seq<char>,
>
    decreases n,
{
    if n == 0 {
        Ok(Seq::empty())
    } else {
        match frames_of(name, pieces, (n - 1) as nat) {
            Err(message) => Err(message),
            Ok(frames) => if pieces[n - 1].len() == 0 {
                Ok(frames)
            } else {
                match number_up_to(pieces[n - 1], 10, u32::MAX as int) {
                    None => Err(name + " contains invalid frame "@ + pieces[n - 1]),
                    Some(frame) => Ok(frames.push(frame as u32)),
                }
            },
        }
    }
}

proof fn lemma_frame_complaint_stands(name: Seq<char>, pieces: Seq<Seq<char>>, n: nat, m: nat)
    requires
        frames_of(name, pieces, n) is Err,
        n <= m,
    ensures
        frames_of(name, pieces, m) == frames_of(name, pieces, n),
    decreases m,
{
    if n < m {
        lemma_frame_complaint_stands(name, pieces, n, (m - 1) as nat);
    }
}

/// Reads a comma-separated list of frame numbers.
pub fn parse_frames(name: &str, value: &str) -> (r: Result<Vec<u32>, String>)
    ensures
        modeled_list(r) == frames_of(
            name@,
            pieces_from(value@, ',', 0),
            pieces_from(value@, ',', 0).len(),
        ),
{
    let entries = split(value, ',');
    let ghost pieces = pieces_from(value@, ',', 0);
    assert(pieces.len() == views(entries@).len());
    let mut frames: Vec<u32> = Vec::new();
    let mut i: usize = 0;
    assert(frames@ =~= Seq::<u32>::empty());
    while i < entries.len()
        invariant
            i <= entries@.len(),
            views(entries@) == pieces,
            entries@.len() == pieces.len(),
            pieces == pieces_from(value@, ',', 0),
            frames_of(name@, pieces, i as nat) == Ok::<Seq<u32>, Seq<char>>(frames@),
        decreases entries.len() - i,
    {
        let entry = entries[i];
        assert(views(entries@)[i as int] == entry@);
        let empty = same(entry, "");
        proof {
            reveal_strlit("");
            assert(empty == (entry@.len() == 0)) by {
                if entry@.len() == 0 {
                    assert(entry@ =~= ""@);
                }
            }
        }
        if !empty {
            match parse_number(entry, 10, u32::MAX as u64) {
                Some(frame) => {
                    frames.push(frame as u32);
                },
                None => {
                    proof {
                        lemma_frame_complaint_stands(
                            name@,
                            pieces,
                            (i + 1) as nat,
                            pieces.len(),
                        );
                    }
                    let mut message = joined(name, " contains invalid frame ");
                    message.append(entry);
                    return Err(message);
                },
            }
        }
        i += 1;
    }
    Ok(frames)
}

/// The probe's settings as the environment gives them. The drift allowed is a
/// real number, which the caller reads: here stands what is wrong with it.
pub struct ProbeSettings {
    pub has_shot_dir: bool,
    pub has_baselines: bool,
    pub shot_frames: String,
    pub shot_every: Option<String>,
    pub capture_frame: Option<String>,
    pub capture_radius: Option<String>,
    pub drift_complaint: Option<String>,
}

/// What the probe captures.
pub struct ProbeConfig {
    pub has_shot_dir: bool,
    pub has_baselines: bool,
    pub shot_frames: Vec<u32>,
    pub shot_every: Option<u32>,
    pub capture_frame: Option<u32>,
    pub capture_radius: u32,
}

/// A number that may be left out.
pub open spec fn optional_number(value: Option<String>) -> Option<Option<u32>> {
    match value {
        None => Some(None),
        Some(text) => match number_up_to(text@, 10, u32::MAX as int) {
            Some(n) => Some(Some(n as u32)),
            None => None,
        },
    }
}

fn parse_optional(value: &Option<String>) -> (r: Option<Option<u32>>)
    ensures
        r == optional_number(*value),
{
    match value {
        None => Some(None),
        Some(text) => match parse_number(text.as_str(), 10, u32::MAX as u64) {
            Some(n) => Some(Some(n as u32)),
            None => None,
        },
    }
}

/// The frames listed for screenshots.
pub open spec fn listed_frames(s: ProbeSettings) -> Result<Seq<u32>, Seq<char>> {
    let pieces = pieces_from(s.shot_frames@, ',', 0);
    frames_of("PROBE_SHOT_FRAMES"@, pieces, pieces.len())
}

/// The interval between screenshots: as set, or every 50 frames where there is
/// a directory but no list of frames.
pub open spec fn shot_interval(s: ProbeSettings, listed: Seq<u32>) -> Option<u32> {
    match optional_number(s.shot_every)->0 {
        Some(every) => Some(every),
        None => if s.has_shot_dir && listed.len() == 0 {
            Some(50u32)
        } else {
            None
        },
    }
}

/// The first complaint about the settings, if any.
pub open spec fn settings_complaint(s: ProbeSettings) -> Option<Seq<char>> {
    match listed_frames(s) {
        Err(message) => Some(message),
        Ok(listed) => if optional_number(s.shot_every) is None {
            Some("PROBE_SHOT_EVERY must be a positive integer"@)
        } else if shot_interval(s, listed) == Some(0u32) {
            Some("PROBE_SHOT_EVERY must be greater than zero"@)
        } else if optional_number(s.capture_frame) is None {
            Some("PROBE_CAPTURE_FRAME must be an integer"@)
        } else if optional_number(s.capture_radius) is None {
            Some("PROBE_CAPTURE_RADIUS must be an integer"@)
        } else {
            match s.drift_complaint {
                Some(message) => Some(message@),
                None => None,
            }
        },
    }
}

impl ProbeConfig {
    pub fn from_settings(s: &ProbeSettings) -> (r: Result<Self, String>)
        ensures
            match r {
                Err(message) => settings_complaint(*s) == Some(message@),
                Ok(config) => {
                    &&& settings_complaint(*s) is None
                    &&& config.has_shot_dir == s.has_shot_dir
                    &&& config.has_baselines == s.has_baselines
                    &&& listed_frames(*s) == Ok::<Seq<u32>, Seq<char>>(config.shot_frames@)
                    &&& config.shot_every == shot_interval(*s, config.shot_frames@)
                    &&& Some(config.capture_frame) == optional_number(s.capture_frame)
                    &&& config.capture_radius == match optional_number(s.capture_radius)->0 {
                        Some(radius) => radius,
                        None => 2,
                    }
                },
            },
    {
        let shot_frames = match parse_frames("PROBE_SHOT_FRAMES", s.shot_frames.as_str()) {
            Ok(frames) => frames,
            Err(message) => {
                return Err(message);
            },
        };
        let shot_every: Option<u32> = match parse_optional(&s.shot_every) {
            Some(Some(every)) => Some(every),
            Some(None) => if s.has_shot_dir && shot_frames.len() == 0 {
                Some(50)
            } else {
                None
            },
            None => {
                return Err(String::from_str("PROBE_SHOT_EVERY must be a positive integer"));
            },
        };
        if let Some(every) = shot_every {
            if every == 0 {
                return Err(String::from_str("PROBE_SHOT_EVERY must be greater than zero"));
            }
        }
        let capture_frame: Option<u32> = match parse_optional(&s.capture_frame) {
            Some(frame) => frame,
            None => {
                return Err(String::from_str("PROBE_CAPTURE_FRAME must be an integer"));
            },
        };
        let capture_radius: u32 = match parse_optional(&s.capture_radius) {
            Some(Some(radius)) => radius,
            Some(None) => 2,
            None => {
                return Err(String::from_str("PROBE_CAPTURE_RADIUS must be an integer"));
            },
        };
        if let Some(message) = &s.drift_complaint {
            return Err(String::from_str(message.as_str()));
        }
        Ok(
            ProbeConfig {
                has_shot_dir: s.has_shot_dir,
                has_baselines: s.has_baselines,
                shot_frames,
                shot_every,
                capture_frame,
                capture_radius,
            },
        )
    }

    /// The complaint about settings that need a screenshot directory.
    pub fn missing_directory(&self) -> (r: Option<&'static str>)
        ensures
            match r {
                Some(message) => !self.has_shot_dir && message@ == if self.capture_frame is Some {
                    "PROBE_CAPTURE_FRAME requires PROBE_SHOTS"@
                } else {
                    "PROBE_BASELINES requires PROBE_SHOTS"@
                } && (self.capture_frame is Some || self.has_baselines),
                None => self.has_shot_dir || (self.capture_frame is None && !self.has_baselines),
            },
    {
        if self.has_shot_dir {
            None
        } else if self.capture_frame.is_some() {
            Some("PROBE_CAPTURE_FRAME requires PROBE_SHOTS")
        } else if self.has_baselines {
            Some("PROBE_BASELINES requires PROBE_SHOTS")
        } else {
            None
        }
    }

    /// Whether a screenshot of a frame is due: it is listed, or the interval
    /// divides it.
    pub open spec fn shot_due(self, frame: u32) -> bool {
        self.has_shot_dir && (self.shot_frames@.contains(frame) || (self.shot_every is Some
            && frame as int % self.shot_every->0 as int == 0))
    }

    pub fn is_shot_due(&self, frame: u32) -> (r: bool)
        requires
            self.shot_every != Some(0u32),
        ensures
            r == self.shot_due(frame),
    {
        if !self.has_shot_dir {
            return false;
        }
        if let Some(every) = self.shot_every {
            if frame % every == 0 {
                return true;
            }
        }
        let mut i: usize = 0;
        while i < self.shot_frames.len()
            invariant
                self.has_shot_dir,
                i <= self.shot_frames@.len(),
                forall|k: int| 0 <= k < i ==> self.shot_frames@[k] != frame,
            decreases self.shot_frames.len() - i,
        {
            if self.shot_frames[i] == frame {
                return true;
            }
            i += 1;
        }
        assert(!self.shot_frames@.contains(frame));
        false
    }

    /// Whether the frames before this one are dumped now: the captured frame
    /// has come.
    pub fn dumps_prior(&self, frame: u32) -> (r: bool)
        ensures
            r == (self.has_shot_dir && self.capture_frame == Some(frame)),
    {
        match self.capture_frame {
            Some(capture) => self.has_shot_dir && capture == frame,
            None => false,
        }
    }

    /// The captured window: the captured frame and as many after it as the
    /// radius says.
    pub open spec fn in_window(self, frame: u32) -> bool {
        self.has_shot_dir && self.capture_frame is Some && self.capture_frame->0 <= frame
            <= self.capture_frame->0 + self.capture_radius
    }

    /// Whether a frame lies in the captured window.
    pub fn captures(&self, frame: u32) -> (r: bool)
        ensures
            r == self.in_window(frame),
    {
        match self.capture_frame {
            Some(capture) => self.has_shot_dir && frame >= capture && frame
                <= capture.saturating_add(self.capture_radius),
            None => false,
        }
    }
}

/// The ring's frames as their numbers and pixels.
pub open spec fn ring_of(ring: Seq<(u32, Frame)>) -> Seq<(u32, Seq<u8>)> {
    Seq::new(ring.len(), |i: int| (ring[i].0, ring[i].1@))
}

/// The last `radius` entries.
pub open spec fn last_of<T>(s: Seq<T>, radius: int) -> Seq<T> {
    if s.len() <= radius {
        s
    } else {
        s.skip(s.len() - radius)
    }
}

/// Remembers a frame, keeping no more than the last `radius`.
pub fn remember(ring: &mut Vec<(u32, Frame)>, number: u32, frame: Frame, radius: u32)
    ensures
        ring_of(final(ring)@) == last_of(
            ring_of(old(ring)@).push((number, frame@)),
            radius as int,
        ),
{
    let ghost all = ring_of(ring@).push((number, frame@));
    ring.push((number, frame));
    assert(ring_of(ring@) =~= all);
    assert(ring_of(ring@) =~= all.skip(0));
    let ghost mut dropped: int = 0;
    while ring.len() > radius as usize
        invariant
            0 <= dropped <= all.len(),
            ring_of(ring@) == all.skip(dropped),
            dropped > 0 ==> ring@.len() >= radius,
            ring@.len() == all.len() - dropped,
        decreases ring.len(),
    {
        let ghost before = ring@;
        let _ = ring.remove(0);
        proof {
            dropped = dropped + 1;
            assert forall|k: int| 0 <= k < ring@.len() implies ring_of(ring@)[k] == all.skip(
                dropped,
            )[k] by {
                assert(ring_of(before)[k + 1] == all.skip(dropped - 1)[k + 1]);
            }
        }
        assert(ring_of(ring@) =~= all.skip(dropped));
    }
    assert(ring_of(ring@) =~= last_of(all, radius as int));
}

// ---- The verdict -------------------------------------------------------------------------

/// Whether `r` is the smallest available depth, or the mark of none.
pub open spec fn is_smallest(depths: Seq<u32>, r: u32) -> bool {
    if exists|i: int| 0 <= i < depths.len() && depths[i] != BACKLOG_UNAVAILABLE {
        &&& r != BACKLOG_UNAVAILABLE
        &&& depths.contains(r)
        &&& forall|i: int|
            0 <= i < depths.len() && depths[i] != BACKLOG_UNAVAILABLE ==> r <= #[trigger] depths[i]
    } else {
        r == BACKLOG_UNAVAILABLE
    }
}

/// Whether `r` is the largest available depth, or the mark of none.
pub open spec fn is_largest(depths: Seq<u32>, r: u32) -> bool {
    if exists|i: int| 0 <= i < depths.len() && depths[i] != BACKLOG_UNAVAILABLE {
        &&& r != BACKLOG_UNAVAILABLE
        &&& depths.contains(r)
        &&& forall|i: int|
            0 <= i < depths.len() && depths[i] != BACKLOG_UNAVAILABLE ==> #[trigger] depths[i] <= r
    } else {
        r == BACKLOG_UNAVAILABLE
    }
}

/// The smallest and the largest queue depth seen.
pub fn queue_bounds(depths: &Vec<u32>) -> (r: (u32, u32))
    ensures
        is_smallest(depths@, r.0),
        is_largest(depths@, r.1),
{
    let mut min: u32 = BACKLOG_UNAVAILABLE;
    let mut max: u32 = BACKLOG_UNAVAILABLE;
    let mut i: usize = 0;
    while i < depths.len()
        invariant
            i <= depths@.len(),
            (min == BACKLOG_UNAVAILABLE) == (max == BACKLOG_UNAVAILABLE),
            min == BACKLOG_UNAVAILABLE ==> forall|k: int|
                0 <= k < i ==> #[trigger] depths@[k] == BACKLOG_UNAVAILABLE,
            min != BACKLOG_UNAVAILABLE ==> depths@.contains(min) && depths@.contains(max),
            min != BACKLOG_UNAVAILABLE ==> forall|k: int|
                0 <= k < i && depths@[k] != BACKLOG_UNAVAILABLE ==> min <= #[trigger] depths@[k]
                    <= max,
        decreases depths.len() - i,
    {
        let depth: u32 = depths[i];
        assert(depths@.contains(depth));
        if depth != BACKLOG_UNAVAILABLE {
            if min == BACKLOG_UNAVAILABLE {
                min = depth;
                max = depth;
            } else {
                if depth < min {
                    min = depth;
                }
                if depth > max {
                    max = depth;
                }
            }
        }
        i += 1;
    }
    proof {
        if min != BACKLOG_UNAVAILABLE {
            let k = choose|k: int| 0 <= k < depths@.len() && depths@[k] == min;
            assert(depths@[k] != BACKLOG_UNAVAILABLE);
        }
    }
    (min, max)
}

/// Place of the 95th percentile in a sorted list.
pub open spec fn percentile_place(len: int) -> int {
    if len == 0 {
        0
    } else {
        (len - 1) * 95 / 100
    }
}

pub fn percentile_index(len: usize) -> (r: usize)
    requires
        len * 95 <= usize::MAX,
    ensures
        r == percentile_place(len as int),
        len > 0 ==> r < len,
{
    if len == 0 {
        0
    } else {
        (len - 1) * 95 / 100
    }
}

/// What the host's audio went through during a run.
#[derive(Clone, Copy, Debug, PartialEq, Eq, Structural)]
pub struct AudioHealth {
    pub realtime: bool,
    pub queue_end: u32,
    pub queue_max: u32,
    pub high_water_bytes: u32,
    pub dropped: u64,
    pub underflows: u64,
    pub reopens: u64,
}

/// The complaint about a run that was to keep its audio healthy, if any.
pub open spec fn health_complaint(h: AudioHealth) -> Option<Seq<char>> {
    if !h.realtime {
        Some("PROBE_REQUIRE_HEALTHY_AUDIO requires PROBE_REALTIME=1"@)
    } else if h.queue_end == BACKLOG_UNAVAILABLE {
        Some("host audio queue was unavailable during validation"@)
    } else if h.queue_max > h.high_water_bytes {
        Some(
            "audio backlog exceeded high-water mark: "@ + decimal_chars(h.queue_max as nat)
                + " > "@ + decimal_chars(h.high_water_bytes as nat) + " bytes"@,
        )
    } else if h.dropped != 0 || h.underflows != 0 || h.reopens != 0 {
        Some(
            "host audio health check failed: dropped="@ + decimal_chars(h.dropped as nat)
                + " underflows="@ + decimal_chars(h.underflows as nat) + " reopens="@
                + decimal_chars(h.reopens as nat),
        )
    } else {
        None
    }
}

/// Judges a run that was to keep its audio healthy.
pub fn judge_health(h: AudioHealth) -> (r: Result<(), String>)
    ensures
        match r {
            Ok(()) => health_complaint(h) is None,
            Err(message) => health_complaint(h) == Some(message@),
        },
{
    if !h.realtime {
        return Err(String::from_str("PROBE_REQUIRE_HEALTHY_AUDIO requires PROBE_REALTIME=1"));
    }
    if h.queue_end == BACKLOG_UNAVAILABLE {
        return Err(String::from_str("host audio queue was unavailable during validation"));
    }
    if h.queue_max > h.high_water_bytes {
        let mut message = String::from_str("audio backlog exceeded high-water mark: ");
        message.append(decimal(h.queue_max as u64).as_str());
        message.append(" > ");
        message.append(decimal(h.high_water_bytes as u64).as_str());
        message.append(" bytes");
        return Err(message);
    }
    if h.dropped != 0 || h.underflows != 0 || h.reopens != 0 {
        let mut message = String::from_str("host audio health check failed: dropped=");
        message.append(decimal(h.dropped).as_str());
        message.append(" underflows=");
        message.append(decimal(h.underflows).as_str());
        message.append(" reopens=");
        message.append(decimal(h.reopens).as_str());
        return Err(message);
    }
    Ok(())
}

/// The first `n` failures, separated by commas.
pub open spec fn failures_joined(failures: Seq<String>, n: nat) -> Seq<char>
    decreases n,
{
    if n == 0 {
        Seq::empty()
    } else if n == 1 {
        failures[0]@
    } else {
        failures_joined(failures, (n - 1) as nat) + ", "@ + failures[n - 1]@
    }
}

fn same_bytes(a: &Vec<u8>, b: &Vec<u8>) -> (r: bool)
    ensures
        r == (a@ == b@),
{
    if a.len() != b.len() {
        return false;
    }
    let mut i: usize = 0;
    while i < a.len()
        invariant
            i <= a@.len(),
            a@.len() == b@.len(),
            forall|k: int| 0 <= k < i ==> a@[k] == b@[k],
        decreases a.len() - i,
    {
        if a[i] != b[i] {
            return false;
        }
        i += 1;
    }
    assert(a@ =~= b@);
    true
}

/// Compares a screenshot with its baseline: the failure to report, if any.
pub fn compare_shot(name: &str, shot: &Vec<u8>, baseline: &Vec<u8>) -> (r: Option<String>)
    ensures
        match r {
            Some(failure) => shot@ != baseline@ && failure@ == name@ + ": pixels differ"@,
            None => shot@ == baseline@,
        },
{
    if same_bytes(shot, baseline) {
        None
    } else {
        Some(joined(name, ": pixels differ"))
    }
}

/// Judges the comparison with the baselines.
pub fn judge_baselines(failures: &Vec<String>) -> (r: Result<(), String>)
    ensures
        match r {
            Ok(()) => failures@.len() == 0,
            Err(message) => failures@.len() > 0 && message@ == "visual regression failed: "@
                + failures_joined(failures@, failures@.len()),
        },
{
    if failures.len() == 0 {
        return Ok(());
    }
    let mut message = String::from_str("visual regression failed: ");
    let ghost head = message@;
    message.append(failures[0].as_str());
    let mut i: usize = 1;
    while i < failures.len()
        invariant
            1 <= i <= failures@.len(),
            message@ == head + failures_joined(failures@, i as nat),
        decreases failures.len() - i,
    {
        let ghost before = message@;
        message.append(", ");
        message.append(failures[i].as_str());
        assert(message@ =~= head + (failures_joined(failures@, i as nat) + ", "@
            + failures@[i as int]@));
        i += 1;
    }
    Err(message)
}

/// Samples beyond the warm-up, which ends with the first frame.
pub fn measured_samples(total: u64, warmup: u64) -> (r: u64)
    ensures
        r == if total >= warmup {
            total - warmup
        } else {
            0
        },
{
    total.saturating_sub(warmup)
}

} // verus!
