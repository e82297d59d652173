//! The command line: which command it names, and the options of a game.

use crate::audio::{AudioConfig, AudioProfile};
use crate::region::Region;
use crate::text::{number_up_to, parse_number, same, strip_prefix};
use vstd::prelude::*;

verus! {

#[derive(Clone, Copy, Debug, PartialEq, Eq, Structural)]
pub enum WindowMode {
    Windowed,
    /// Fullscreen at desktop resolution.
    Fullscreen,
    /// A plain borderless window covering the desktop: looks fullscreen but
    /// alt-tabs like any window and never owns the display mode.
    WindowedFullscreen,
}

/// What a game is started with.
#[derive(Clone, Copy, Debug, PartialEq, Eq, Structural)]
pub struct GameOptions {
    pub config: AudioConfig,
    pub latency_debug: bool,
    pub run_ahead_frames: u8,
    pub window_mode: WindowMode,
    pub region_override: Option<Region>,
}

/// The host and the environment variables that options are read from.
pub struct Environment {
    pub windows: bool,
    pub wsl: bool,
    pub audio_profile: Option<String>,
    pub audio_latency_ms: Option<String>,
    pub run_ahead_frames: Option<String>,
    pub region: Option<String>,
}

/// The characters of an optional text.
pub open spec fn text_of(s: Option<String>) -> Option<Seq<char>> {
    match s {
        Some(s) => Some(s@),
        None => None,
    }
}

/// The characters of the arguments.
pub open spec fn arg_chars(args: Seq<String>) -> Seq<Seq<char>> {
    Seq::new(args.len(), |i: int| args[i]@)
}

/// What the arguments have asked for so far.
#[derive(Clone, Copy, Debug, PartialEq, Eq, Structural)]
pub struct Requests {
    pub profile: Option<AudioProfile>,
    pub latency_ms: Option<u32>,
    pub latency_debug: bool,
    pub window_mode: WindowMode,
    pub region: Option<Region>,
    pub run_ahead_frames: u8,
}

/// An option that takes a value.
#[derive(Clone, Copy, Debug, PartialEq, Eq, Structural)]
pub enum Setting {
    Profile,
    Latency,
    Region,
    RunAhead,
}

impl Setting {
    pub open spec fn flag(self) -> Seq<char> {
        match self {
            Setting::Profile => "--audio-profile"@,
            Setting::Latency => "--audio-latency-ms"@,
            Setting::Region => "--region"@,
            Setting::RunAhead => "--run-ahead"@,
        }
    }

    /// The flag with its equals sign.
    pub open spec fn prefix(self) -> Seq<char> {
        match self {
            Setting::Profile => "--audio-profile="@,
            Setting::Latency => "--audio-latency-ms="@,
            Setting::Region => "--region="@,
            Setting::RunAhead => "--run-ahead="@,
        }
    }

    /// The complaint about a flag without its value.
    pub open spec fn missing(self) -> Seq<char> {
        match self {
            Setting::Profile => "--audio-profile needs low or balanced"@,
            Setting::Latency => "--audio-latency-ms needs a value"@,
            Setting::Region => "--region needs ntsc, pal, or dendy"@,
            Setting::RunAhead => "--run-ahead needs 0 or 1"@,
        }
    }
}

impl Requests {
    /// The requests with a setting's value taken in, or the complaint about it.
    pub open spec fn with(self, setting: Setting, value: Seq<char>) -> Result<
        Requests,
        Seq<char>,
    > {
        match setting {
            Setting::Profile => match AudioProfile::named(value) {
                Some(profile) => Ok(Requests { profile: Some(profile), ..self }),
                None => Err(AudioProfile::complaint(value)),
            },
            Setting::Latency => match number_up_to(value, 10, u32::MAX as int) {
                Some(ms) => Ok(Requests { latency_ms: Some(ms as u32), ..self }),
                None => Err("--audio-latency-ms must be an integer"@),
            },
            Setting::Region => match Region::named(value) {
                Some(region) => Ok(Requests { region: Some(region), ..self }),
                None => Err(
                    "unknown region "@ + value + "; expected ntsc, pal, or dendy"@,
                ),
            },
            Setting::RunAhead => match number_up_to(value, 10, u8::MAX as int) {
                Some(frames) => Ok(Requests { run_ahead_frames: frames as u8, ..self }),
                None => Err("--run-ahead must be 0 or 1"@),
            },
        }
    }

    /// The requests with an option that takes no value, if the argument is one.
    pub open spec fn with_switch(self, arg: Seq<char>) -> Option<Requests> {
        if arg == "--latency-debug"@ {
            Some(Requests { latency_debug: true, ..self })
        } else if arg == "--fullscreen"@ {
            Some(Requests { window_mode: WindowMode::Fullscreen, ..self })
        } else if arg == "--windowed-fullscreen"@ || arg == "--borderless"@ {
            Some(Requests { window_mode: WindowMode::WindowedFullscreen, ..self })
        } else {
            None
        }
    }
}

/// The setting whose value stands behind an equals sign in the argument.
pub open spec fn inline_setting(arg: Seq<char>) -> Option<Setting> {
    if Setting::Profile.prefix().is_prefix_of(arg) {
        Some(Setting::Profile)
    } else if Setting::Latency.prefix().is_prefix_of(arg) {
        Some(Setting::Latency)
    } else if Setting::Region.prefix().is_prefix_of(arg) {
        Some(Setting::Region)
    } else if Setting::RunAhead.prefix().is_prefix_of(arg) {
        Some(Setting::RunAhead)
    } else {
        None
    }
}

/// The setting whose value is the next argument.
pub open spec fn flag_setting(arg: Seq<char>) -> Option<Setting> {
    if arg == Setting::Profile.flag() {
        Some(Setting::Profile)
    } else if arg == Setting::Latency.flag() {
        Some(Setting::Latency)
    } else if arg == Setting::Region.flag() {
        Some(Setting::Region)
    } else if arg == Setting::RunAhead.flag() {
        Some(Setting::RunAhead)
    } else {
        None
    }
}

/// The requests of all arguments from the `i`th on, taken in order, or the first
/// complaint.
pub open spec fn requested(r: Requests, args: Seq<Seq<char>>, i: int) -> Result<
    Requests,
    Seq<char>,
>
    decreases args.len() - i,
{
    if i >= args.len() {
        Ok(r)
    } else {
        let arg = args[i];
        if inline_setting(arg) is Some {
            let setting = inline_setting(arg)->0;
            match r.with(setting, arg.skip(setting.prefix().len() as int)) {
                Ok(next) => requested(next, args, i + 1),
                Err(message) => Err(message),
            }
        } else if flag_setting(arg) is Some {
            let setting = flag_setting(arg)->0;
            if i + 1 >= args.len() {
                Err(setting.missing())
            } else {
                match r.with(setting, args[i + 1]) {
                    Ok(next) => requested(next, args, i + 2),
                    Err(message) => Err(message),
                }
            }
        } else {
            match r.with_switch(arg) {
                Some(next) => requested(next, args, i + 1),
                None => Err("unknown game option "@ + arg),
            }
        }
    }
}

/// The requests that the environment makes before any argument.
pub open spec fn environment_requests(env: Environment) -> Result<Requests, Seq<char>> {
    if env.region is Some && Region::named(text_of(env.region)->0) is None {
        Err("unknown region "@ + text_of(env.region)->0 + "; expected ntsc, pal, or dendy"@)
    } else if env.run_ahead_frames is Some && number_up_to(
        text_of(env.run_ahead_frames)->0,
        10,
        u8::MAX as int,
    ) is None {
        Err("NES_RUN_AHEAD_FRAMES must be 0 or 1"@)
    } else {
        Ok(
            Requests {
                profile: None,
                latency_ms: None,
                latency_debug: false,
                window_mode: WindowMode::Windowed,
                region: if env.region is Some {
                    Region::named(text_of(env.region)->0)
                } else {
                    None
                },
                run_ahead_frames: if env.run_ahead_frames is Some {
                    number_up_to(text_of(env.run_ahead_frames)->0, 10, u8::MAX as int)->0 as u8
                } else {
                    0
                },
            },
        )
    }
}

/// The options that requests come to, on top of the environment's audio
/// settings.
pub open spec fn settled(env: Environment, r: Requests) -> Result<GameOptions, Seq<char>> {
    let profile = text_of(env.audio_profile);
    let latency = text_of(env.audio_latency_ms);
    if AudioConfig::env_complaint(profile, latency) is Some {
        Err(AudioConfig::env_complaint(profile, latency)->0)
    } else if r.latency_ms == Some(0u32) {
        Err("--audio-latency-ms must be greater than zero"@)
    } else if r.run_ahead_frames > 1 {
        Err("run-ahead currently supports only 0 or 1 frame"@)
    } else {
        let base = match r.profile {
            Some(profile) => AudioConfig::of_profile(profile),
            None => AudioConfig::from_settings(env.windows, env.wsl, profile, latency),
        };
        Ok(
            GameOptions {
                config: match r.latency_ms {
                    Some(ms) => AudioConfig { pulse_latency_ms: ms, ..base },
                    None => base,
                },
                latency_debug: r.latency_debug,
                run_ahead_frames: r.run_ahead_frames,
                window_mode: r.window_mode,
                region_override: r.region,
            },
        )
    }
}

/// The options of a game, or the first complaint: about the environment, then
/// about the arguments in order, then about what they come to.
pub open spec fn options_of(env: Environment, args: Seq<Seq<char>>) -> Result<
    GameOptions,
    Seq<char>,
> {
    match environment_requests(env) {
        Err(message) => Err(message),
        Ok(begun) => match requested(begun, args, 0) {
            Err(message) => Err(message),
            Ok(r) => settled(env, r),
        },
    }
}

/// A result whose complaint is a text, as its model.
pub open spec fn modeled<T>(r: Result<T, String>) -> Result<T, Seq<char>> {
    match r {
        Ok(value) => Ok(value),
        Err(message) => Err(message@),
    }
}

impl Requests {
    fn apply(self, setting: Setting, value: &str) -> (r: Result<Requests, String>)
        ensures
            modeled(r) == self.with(setting, value@),
    {
        match setting {
            Setting::Profile => match AudioProfile::parse(value) {
                Ok(profile) => Ok(Requests { profile: Some(profile), ..self }),
                Err(message) => Err(message),
            },
            Setting::Latency => match parse_number(value, 10, u32::MAX as u64) {
                Some(ms) => Ok(Requests { latency_ms: Some(ms as u32), ..self }),
                None => Err(String::from_str("--audio-latency-ms must be an integer")),
            },
            Setting::Region => match Region::parse(value) {
                Ok(region) => Ok(Requests { region: Some(region), ..self }),
                Err(message) => Err(message),
            },
            Setting::RunAhead => match parse_number(value, 10, u8::MAX as u64) {
                Some(frames) => Ok(Requests { run_ahead_frames: frames as u8, ..self }),
                None => Err(String::from_str("--run-ahead must be 0 or 1")),
            },
        }
    }

    fn apply_switch(self, arg: &str) -> (r: Option<Requests>)
        ensures
            r == self.with_switch(arg@),
    {
        if same(arg, "--latency-debug") {
            Some(Requests { latency_debug: true, ..self })
        } else if same(arg, "--fullscreen") {
            Some(Requests { window_mode: WindowMode::Fullscreen, ..self })
        } else if same(arg, "--windowed-fullscreen") || same(arg, "--borderless") {
            Some(Requests { window_mode: WindowMode::WindowedFullscreen, ..self })
        } else {
            None
        }
    }
}

fn inline_value<'a>(arg: &'a str) -> (r: Option<(Setting, &'a str)>)
    ensures
        match r {
            Some((setting, value)) => inline_setting(arg@) == Some(setting) && value@
                == arg@.skip(setting.prefix().len() as int),
            None => inline_setting(arg@) is None,
        },
{
    if let Some(value) = strip_prefix(arg, "--audio-profile=") {
        assert(value@ =~= arg@.skip(Setting::Profile.prefix().len() as int));
        return Some((Setting::Profile, value));
    }
    if let Some(value) = strip_prefix(arg, "--audio-latency-ms=") {
        assert(value@ =~= arg@.skip(Setting::Latency.prefix().len() as int));
        return Some((Setting::Latency, value));
    }
    if let Some(value) = strip_prefix(arg, "--region=") {
        assert(value@ =~= arg@.skip(Setting::Region.prefix().len() as int));
        return Some((Setting::Region, value));
    }
    if let Some(value) = strip_prefix(arg, "--run-ahead=") {
        assert(value@ =~= arg@.skip(Setting::RunAhead.prefix().len() as int));
        return Some((Setting::RunAhead, value));
    }
    None
}

fn flag_of(arg: &str) -> (r: Option<Setting>)
    ensures
        r == flag_setting(arg@),
{
    if same(arg, "--audio-profile") {
        Some(Setting::Profile)
    } else if same(arg, "--audio-latency-ms") {
        Some(Setting::Latency)
    } else if same(arg, "--region") {
        Some(Setting::Region)
    } else if same(arg, "--run-ahead") {
        Some(Setting::RunAhead)
    } else {
        None
    }
}

fn missing_value(setting: Setting) -> (r: String)
    ensures
        r@ == setting.missing(),
{
    match setting {
        Setting::Profile => String::from_str("--audio-profile needs low or balanced"),
        Setting::Latency => String::from_str("--audio-latency-ms needs a value"),
        Setting::Region => String::from_str("--region needs ntsc, pal, or dendy"),
        Setting::RunAhead => String::from_str("--run-ahead needs 0 or 1"),
    }
}

fn request_all(begun: Requests, args: &Vec<String>) -> (r: Result<Requests, String>)
    ensures
        modeled(r) == requested(begun, arg_chars(args@), 0),
{
    let ghost chars = arg_chars(args@);
    let len: usize = args.len();
    let mut requests = begun;
    let mut i: usize = 0;
    while i < len
        invariant
            i <= len,
            len == args@.len(),
            chars == arg_chars(args@),
            requested(requests, chars, i as int) == requested(begun, chars, 0),
        decreases len - i,
    {
        let arg = args[i].as_str();
        if let Some((setting, value)) = inline_value(arg) {
            match requests.apply(setting, value) {
                Ok(next) => {
                    requests = next;
                },
                Err(message) => {
                    return Err(message);
                },
            }
        } else if let Some(setting) = flag_of(arg) {
            if len - i < 2 {
                return Err(missing_value(setting));
            }
            match requests.apply(setting, args[i + 1].as_str()) {
                Ok(next) => {
                    requests = next;
                },
                Err(message) => {
                    return Err(message);
                },
            }
            i += 1;
        } else {
            match requests.apply_switch(arg) {
                Some(next) => {
                    requests = next;
                },
                None => {
                    let mut message = String::from_str("unknown game option ");
                    message.append(arg);
                    return Err(message);
                },
            }
        }
        i += 1;
    }
    Ok(requests)
}

fn optional(s: &Option<String>) -> (r: Option<&str>)
    ensures
        crate::audio::viewed(r) == text_of(*s),
{
    match s {
        Some(s) => Some(s.as_str()),
        None => None,
    }
}

fn begin_requests(env: &Environment) -> (r: Result<Requests, String>)
    ensures
        modeled(r) == environment_requests(*env),
{
    let region: Option<Region> = match &env.region {
        Some(value) => match Region::parse(value.as_str()) {
            Ok(region) => Some(region),
            Err(message) => {
                return Err(message);
            },
        },
        None => None,
    };
    let run_ahead_frames: u8 = match &env.run_ahead_frames {
        Some(value) => match parse_number(value.as_str(), 10, u8::MAX as u64) {
            Some(frames) => frames as u8,
            None => {
                return Err(String::from_str("NES_RUN_AHEAD_FRAMES must be 0 or 1"));
            },
        },
        None => 0,
    };
    Ok(
        Requests {
            profile: None,
            latency_ms: None,
            latency_debug: false,
            window_mode: WindowMode::Windowed,
            region,
            run_ahead_frames,
        },
    )
}

/// Reads the options of a game.
pub fn parse_game_options(env: &Environment, args: &Vec<String>) -> (r: Result<
    GameOptions,
    String,
>)
    ensures
        modeled(r) == options_of(*env, arg_chars(args@)),
{
    let begun = match begin_requests(env) {
        Ok(begun) => begun,
        Err(message) => {
            return Err(message);
        },
    };
    let requests = match request_all(begun, args) {
        Ok(requests) => requests,
        Err(message) => {
            return Err(message);
        },
    };
    let mut config = match AudioConfig::from_env(
        env.windows,
        env.wsl,
        optional(&env.audio_profile),
        optional(&env.audio_latency_ms),
    ) {
        Ok(config) => config,
        Err(message) => {
            return Err(message);
        },
    };
    if let Some(profile) = requests.profile {
        config = AudioConfig::for_profile(profile);
    }
    if let Some(latency_ms) = requests.latency_ms {
        if latency_ms == 0 {
            return Err(String::from_str("--audio-latency-ms must be greater than zero"));
        }
        config.pulse_latency_ms = latency_ms;
    }
    if requests.run_ahead_frames > 1 {
        return Err(String::from_str("run-ahead currently supports only 0 or 1 frame"));
    }
    Ok(
        GameOptions {
            config,
            latency_debug: requests.latency_debug,
            run_ahead_frames: requests.run_ahead_frames,
            window_mode: requests.window_mode,
            region_override: requests.region,
        },
    )
}

/// Accepted options always ask for at most one frame of run-ahead and for a
/// latency above zero.
pub proof fn accepted_options_are_in_range(env: Environment, args: Seq<Seq<char>>)
    requires
        options_of(env, args) is Ok,
    ensures
        options_of(env, args)->Ok_0.run_ahead_frames <= 1,
        options_of(env, args)->Ok_0.config.pulse_latency_ms > 0,
{
}

// ---- Commands -----------------------------------------------------------------------------

/// What the program is asked to do.
#[derive(Clone, Copy, Debug, PartialEq, Eq, Structural)]
pub enum Command {
    Nestest,
    Probe { frames: u32 },
    TestRom { limit: u64 },
    Tiles,
    Play,
    Menu,
}

pub open spec fn number_or(args: Seq<Seq<char>>, i: int, max: int, default: int) -> int {
    if i < args.len() && number_up_to(args[i], 10, max) is Some {
        number_up_to(args[i], 10, max)->0 as int
    } else {
        default
    }
}

/// The command that a command line names: a known word, or the path of a game,
/// or nothing at all.
pub open spec fn command_of(args: Seq<Seq<char>>) -> Command {
    if args.len() < 2 {
        Command::Menu
    } else if args[1] == "nestest"@ {
        Command::Nestest
    } else if args[1] == "probe"@ {
        Command::Probe { frames: number_or(args, 4, u32::MAX as int, 1800) as u32 }
    } else if args[1] == "test-rom"@ {
        Command::TestRom { limit: number_or(args, 3, u64::MAX as int, 50_000_000) as u64 }
    } else if args[1] == "tiles"@ {
        Command::Tiles
    } else {
        Command::Play
    }
}

fn number_at(args: &Vec<String>, i: usize, max: u64, default: u64) -> (r: u64)
    requires
        default <= max,
    ensures
        r == number_or(arg_chars(args@), i as int, max as int, default as int),
        r <= max,
{
    if i < args.len() {
        if let Some(n) = parse_number(args[i].as_str(), 10, max) {
            return n;
        }
    }
    default
}

pub fn command(args: &Vec<String>) -> (r: Command)
    ensures
        r == command_of(arg_chars(args@)),
{
    if args.len() < 2 {
        return Command::Menu;
    }
    let word = args[1].as_str();
    if same(word, "nestest") {
        Command::Nestest
    } else if same(word, "probe") {
        Command::Probe { frames: number_at(args, 4, u32::MAX as u64, 1800) as u32 }
    } else if same(word, "test-rom") {
        Command::TestRom { limit: number_at(args, 3, u64::MAX, 50_000_000) }
    } else if same(word, "tiles") {
        Command::Tiles
    } else {
        Command::Play
    }
}

proof fn lemma_flags(setting: Setting)
    ensures
        setting.prefix() == setting.flag() + "="@,
        setting.flag().len() >= 8,
        setting is Profile ==> setting.flag().len() == 15 && setting.flag()[2] == 'a'
            && setting.flag()[8] == 'p',
        setting is Latency ==> setting.flag().len() == 18 && setting.flag()[2] == 'a'
            && setting.flag()[8] == 'l',
        setting is Region ==> setting.flag().len() == 8 && setting.flag()[2] == 'r'
            && setting.flag()[3] == 'e',
        setting is RunAhead ==> setting.flag().len() == 11 && setting.flag()[2] == 'r'
            && setting.flag()[3] == 'u',
{
    reveal_strlit("--audio-profile");
    reveal_strlit("--audio-profile=");
    reveal_strlit("--audio-latency-ms");
    reveal_strlit("--audio-latency-ms=");
    reveal_strlit("--region");
    reveal_strlit("--region=");
    reveal_strlit("--run-ahead");
    reveal_strlit("--run-ahead=");
    reveal_strlit("=");
    assert(setting.prefix() =~= setting.flag() + "="@);
}

proof fn lemma_not_a_prefix(setting: Setting, arg: Seq<char>)
    requires
        arg.len() < setting.prefix().len() || (arg.len() > 8 && (arg[2] != setting.flag()[2] || (
        setting is Profile || setting is Latency) && arg[8] != setting.flag()[8] || (
        setting is Region || setting is RunAhead) && arg[3] != setting.flag()[3])),
    ensures
        !setting.prefix().is_prefix_of(arg),
{
    lemma_flags(setting);
    if setting.prefix().is_prefix_of(arg) {
        let p = setting.prefix();
        reveal_strlit("=");
        assert(p =~= arg.subrange(0, p.len() as int));
        assert(p[2] == arg[2] && p[3] == arg[3]);
        assert(p[2] == setting.flag()[2] && p[3] == setting.flag()[3]);
        if setting is Profile || setting is Latency {
            assert(p[8] == arg[8]);
            assert(p[8] == setting.flag()[8]);
        }
    }
}

/// A value may stand behind an equals sign or in the next argument: both say
/// the same.
pub proof fn a_value_may_stand_in_either_place(r: Requests, setting: Setting, value: Seq<char>)
    ensures
        inline_setting(setting.prefix() + value) == Some(setting),
        flag_setting(setting.flag()) == Some(setting),
        inline_setting(setting.flag()) is None,
        requested(r, seq![setting.prefix() + value], 0) == requested(
            r,
            seq![setting.flag(), value],
            0,
        ),
        requested(r, seq![setting.prefix() + value], 0) == r.with(setting, value),
{
    lemma_flags(Setting::Profile);
    lemma_flags(Setting::Latency);
    lemma_flags(Setting::Region);
    lemma_flags(Setting::RunAhead);
    reveal_strlit("=");
    let arg = setting.prefix() + value;
    assert(setting.prefix() =~= arg.subrange(0, setting.prefix().len() as int));
    assert(setting.prefix().is_prefix_of(arg));
    assert(arg[2] == setting.flag()[2] && arg[3] == setting.flag()[3]);
    if !(setting is Profile) {
        lemma_not_a_prefix(Setting::Profile, arg);
        lemma_not_a_prefix(Setting::Profile, setting.flag());
    }
    if !(setting is Latency) {
        lemma_not_a_prefix(Setting::Latency, arg);
        lemma_not_a_prefix(Setting::Latency, setting.flag());
    }
    if !(setting is Region) {
        lemma_not_a_prefix(Setting::Region, arg);
        lemma_not_a_prefix(Setting::Region, setting.flag());
    }
    if !(setting is RunAhead) {
        lemma_not_a_prefix(Setting::RunAhead, arg);
        lemma_not_a_prefix(Setting::RunAhead, setting.flag());
    }
    lemma_not_a_prefix(setting, setting.flag());
    assert(arg.skip(setting.prefix().len() as int) =~= value);
    reveal_with_fuel(requested, 3);
}

/// A request moves its own setting and no other, and a later one takes its
/// place.
pub proof fn a_request_moves_its_own_setting(r: Requests, setting: Setting, one: Seq<char>, two: Seq<char>)
    requires
        r.with(setting, one) is Ok,
    ensures
        ({
            let after = r.with(setting, one)->Ok_0;
            &&& after.latency_debug == r.latency_debug && after.window_mode == r.window_mode
            &&& !(setting is Profile) ==> after.profile == r.profile
            &&& !(setting is Latency) ==> after.latency_ms == r.latency_ms
            &&& !(setting is Region) ==> after.region == r.region
            &&& !(setting is RunAhead) ==> after.run_ahead_frames == r.run_ahead_frames
            &&& setting is Profile ==> after.profile == AudioProfile::named(one)
            &&& setting is Region ==> after.region == Region::named(one)
            &&& setting is Latency ==> number_up_to(one, 10, u32::MAX as int) == Some(
                after.latency_ms->0 as nat,
            ) && after.latency_ms is Some
            &&& setting is RunAhead ==> number_up_to(one, 10, 255) == Some(
                after.run_ahead_frames as nat,
            )
            &&& after.with(setting, two) == r.with(setting, two)
        }),
{
}

/// Arguments go before the environment, and a latency before the one of its
/// profile.
pub proof fn arguments_go_before_the_environment(env: Environment, r: Requests)
    requires
        settled(env, r) is Ok,
    ensures
        ({
            let options = settled(env, r)->Ok_0;
            &&& r.profile is Some ==> Some(options.config.profile) == r.profile
            &&& r.latency_ms is Some ==> Some(options.config.pulse_latency_ms) == r.latency_ms
            &&& r.profile is Some && r.latency_ms is None ==> options.config
                == AudioConfig::of_profile(r.profile->0)
            &&& options.run_ahead_frames == r.run_ahead_frames <= 1
            &&& options.window_mode == r.window_mode && options.region_override == r.region
            &&& options.latency_debug == r.latency_debug
        }),
{
}

/// A command line without arguments opens the menu, one with a word that is no
/// command plays it, and counts that are left out or unreadable take their
/// defaults.
pub proof fn commands_take_their_defaults(args: Seq<Seq<char>>)
    ensures
        command_of(args) is Menu <==> args.len() < 2,
        command_of(args) matches Command::Probe { frames } ==> (args.len() <= 4 ==> frames == 1800)
            && (args.len() > 4 && number_up_to(args[4], 10, u32::MAX as int) is Some ==> frames
            == number_up_to(args[4], 10, u32::MAX as int)->0),
        command_of(args) matches Command::TestRom { limit } ==> (args.len() <= 3 ==> limit
            == 50_000_000) && (args.len() > 3 && number_up_to(args[3], 10, u64::MAX as int) is Some
            ==> limit == number_up_to(args[3], 10, u64::MAX as int)->0),
{
}

/// A switch moves the window's mode or the latency report and nothing else.
pub proof fn a_switch_moves_one_thing(r: Requests, arg: Seq<char>)
    requires
        r.with_switch(arg) is Some,
    ensures
        ({
            let after = r.with_switch(arg)->0;
            &&& after == (Requests {
                latency_debug: after.latency_debug,
                window_mode: after.window_mode,
                ..r
            })
            &&& after.latency_debug == r.latency_debug || after.window_mode == r.window_mode
            &&& arg == "--fullscreen"@ ==> after.window_mode is Fullscreen
            &&& arg == "--borderless"@ ==> after == r.with_switch("--windowed-fullscreen"@)->0
            &&& after.window_mode != r.window_mode ==> !(after.window_mode is Windowed)
        }),
{
    reveal_strlit("--latency-debug");
    reveal_strlit("--fullscreen");
    reveal_strlit("--windowed-fullscreen");
    reveal_strlit("--borderless");
    assert("--fullscreen"@.len() == 12 && "--latency-debug"@.len() == 15);
    assert("--borderless"@.len() == 12 && "--windowed-fullscreen"@.len() == 21);
    assert("--fullscreen"@[2] == 'f' && "--borderless"@[2] == 'b');
}

/// An environment without variables asks for a window, the cartridge's own
/// region and no frame ahead.
pub proof fn a_bare_environment_asks_for_nothing(env: Environment)
    requires
        env.region is None,
        env.run_ahead_frames is None,
    ensures
        environment_requests(env) is Ok,
        ({
            let r = environment_requests(env)->Ok_0;
            &&& r.profile is None && r.latency_ms is None && r.region is None
            &&& !r.latency_debug && r.window_mode is Windowed && r.run_ahead_frames == 0
        }),
{
}

} // verus!
