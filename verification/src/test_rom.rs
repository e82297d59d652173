//! Headless runner for the result conventions of test programs.
//!
//! A compatible test writes the signature DE B0 61 to $6001-$6003, keeps $6000
//! at $80 or above while running, then writes a result below $80. Zero means
//! pass; text beginning at $6004 is a NUL-terminated diagnostic. Older suites
//! end in a jump to itself and leave result code 1 at $00F8 on success; that
//! convention is supported as well.
//!
//! A third class reports no result at all and ends in a timeout. Its output can
//! be read by naming the address of its character printing routine: every byte
//! the accumulator holds there is collected.

use crate::cpu::laws::a_read_leaves_ram_alone;
use crate::cpu::model::{self as cpu_model, CpuModel};
use crate::cpu::program::{ram_byte, ram_word};
use crate::cpu::{fetched, Console};
use crate::joypad::latency_goes_on;
use crate::mapper::Mapper;
use crate::text::{
    chars_of, decimal, decimal_chars, decoded, hex, hex_chars, lossy_text, number_up_to,
    parse_number, strip_prefix, trim, trimmed,
};
use vstd::prelude::*;

verus! {

const STATUS_ADDR: u16 = 0x6000;

const MESSAGE_ADDR: u16 = 0x6004;

/// Resets granted to a program that waits for the reset button.
const MAX_RESETS: u8 = 8;

/// Instructions that pass before a jump to itself counts as an end.
const SETTLED: u64 = 1000;

/// What a program reported, and by which convention.
#[derive(Clone, Copy, Debug, PartialEq, Eq, Structural)]
pub struct TestResult {
    pub status: u8,
    pub legacy: bool,
}

/// What has been seen of a run so far.
pub struct Monitor<C = Vec<u8>> {
    pub instructions: u64,
    pub protocol_started: bool,
    pub resets: u8,
    pub result: Option<TestResult>,
    pub captured: C,
}

impl View for Monitor {
    type V = Monitor<Seq<u8>>;

    open spec fn view(&self) -> Monitor<Seq<u8>> {
        Monitor {
            instructions: self.instructions,
            protocol_started: self.protocol_started,
            resets: self.resets,
            result: self.result,
            captured: self.captured@,
        }
    }
}

// ---- Looking at the machine ----------------------------------------------------------------

/// The result area as one look finds it.
pub struct StatusSeen<V> {
    pub cpu: CpuModel<V>,
    pub status: u8,
    pub signed: bool,
}

#[verifier::opaque]
pub open spec fn status_seen<M: Mapper>(s: CpuModel<M::Model>) -> StatusSeen<M::Model> {
    let status = cpu_model::core_read::<M>(s, 0x6000);
    let first = cpu_model::core_read::<M>(status.cpu, 0x6001);
    let second = cpu_model::core_read::<M>(first.cpu, 0x6002);
    let third = cpu_model::core_read::<M>(second.cpu, 0x6003);
    StatusSeen {
        cpu: third.cpu,
        status: status.value,
        signed: first.value == 0xde && second.value == 0xb0 && third.value == 0x61,
    }
}

/// Whether the next instruction jumps to itself, as one look finds it.
pub struct ParkedSeen<V> {
    pub cpu: CpuModel<V>,
    pub parked: bool,
}

#[verifier::opaque]
pub open spec fn parked_seen<M: Mapper>(s: CpuModel<M::Model>) -> ParkedSeen<M::Model> {
    let pc = s.regs.program_counter;
    let code = cpu_model::core_read::<M>(s, pc);
    if code.value != 0x4c {
        ParkedSeen { cpu: code.cpu, parked: false }
    } else {
        let lo = cpu_model::core_read::<M>(code.cpu, pc.wrapping_add(1));
        let hi = cpu_model::core_read::<M>(lo.cpu, pc.wrapping_add(2));
        ParkedSeen { cpu: hi.cpu, parked: lo.value + hi.value * 256 == pc }
    }
}

fn read_status<M: Mapper>(cpu: &mut Console<M>) -> (r: (u8, bool))
    requires
        cpu_model::wf::<M>(old(cpu)@),
    ensures
        (StatusSeen { cpu: final(cpu)@, status: r.0, signed: r.1 }) == status_seen::<M>(old(cpu)@),
        cpu_model::wf::<M>(final(cpu)@),
        latency_goes_on(old(cpu).bus.joypad1, final(cpu).bus.joypad1),
{
    proof {
        reveal(status_seen);
    }
    let status: u8 = cpu.mem_read(STATUS_ADDR);
    let first: u8 = cpu.mem_read(0x6001);
    let second: u8 = cpu.mem_read(0x6002);
    let third: u8 = cpu.mem_read(0x6003);
    (status, first == 0xde && second == 0xb0 && third == 0x61)
}

fn is_parked<M: Mapper>(cpu: &mut Console<M>) -> (r: bool)
    requires
        cpu_model::wf::<M>(old(cpu)@),
    ensures
        (ParkedSeen { cpu: final(cpu)@, parked: r }) == parked_seen::<M>(old(cpu)@),
        cpu_model::wf::<M>(final(cpu)@),
        latency_goes_on(old(cpu).bus.joypad1, final(cpu).bus.joypad1),
{
    proof {
        reveal(parked_seen);
    }
    let pc: u16 = cpu.regs.program_counter;
    let code: u8 = cpu.mem_read(pc);
    if code != 0x4c {
        return false;
    }
    let lo: u8 = cpu.mem_read(pc.wrapping_add(1));
    let hi: u8 = cpu.mem_read(pc.wrapping_add(2));
    lo as u16 + hi as u16 * 256 == pc
}

// ---- Judging one look ----------------------------------------------------------------------

/// A run as it stands before the next instruction: the machine, what has been
/// seen, and whether the run is over.
pub struct Watched<V> {
    pub cpu: CpuModel<V>,
    pub log: Monitor<Seq<u8>>,
    pub over: bool,
}

/// The log with one more instruction, and the byte that is being printed.
pub open spec fn counted(log: Monitor<Seq<u8>>, pc: u16, a: u8, hook: Option<u16>) -> Monitor<
    Seq<u8>,
> {
    Monitor {
        instructions: if log.instructions == u64::MAX {
            u64::MAX
        } else {
            (log.instructions + 1) as u64
        },
        captured: if hook == Some(pc) {
            log.captured.push(a)
        } else {
            log.captured
        },
        ..log
    }
}

/// A program that waits in a jump to itself: one that published $81 wants the
/// reset button, at most eight times; one without a signature has ended once
/// its result at $00F8 is not zero.
#[verifier::opaque]
pub open spec fn parked_judged<M: Mapper>(
    s: CpuModel<M::Model>,
    log: Monitor<Seq<u8>>,
    status: u8,
    max: u64,
) -> Watched<M::Model> {
    if log.protocol_started && status == 0x81 {
        let resets = if log.resets == 255 {
            255u8
        } else {
            (log.resets + 1) as u8
        };
        let log = Monitor { resets, ..log };
        if resets > 8 {
            Watched { cpu: s, log, over: true }
        } else {
            Watched { cpu: cpu_model::reset_run::<M>(s), log, over: false }
        }
    } else if !log.protocol_started {
        let legacy = cpu_model::core_read::<M>(s, 0x00f8);
        if legacy.value != 0 {
            Watched {
                cpu: legacy.cpu,
                log: Monitor {
                    result: Some(TestResult { status: legacy.value, legacy: true }),
                    ..log
                },
                over: true,
            }
        } else {
            Watched { cpu: legacy.cpu, log, over: log.instructions >= max }
        }
    } else {
        Watched { cpu: s, log, over: log.instructions >= max }
    }
}

/// One look at the machine, before an instruction.
#[verifier::opaque]
pub open spec fn observed<M: Mapper>(
    s: CpuModel<M::Model>,
    before: Monitor<Seq<u8>>,
    hook: Option<u16>,
    max: u64,
) -> Watched<M::Model> {
    let log = counted(before, s.regs.program_counter, s.regs.register_a, hook);
    let seen = status_seen::<M>(cpu_model::with_executing(s, false));
    if seen.signed && seen.status < 0x80 && log.protocol_started {
        Watched {
            cpu: seen.cpu,
            log: Monitor {
                result: Some(TestResult { status: seen.status, legacy: false }),
                ..log
            },
            over: true,
        }
    } else {
        let log = Monitor {
            protocol_started: log.protocol_started || (seen.signed && seen.status >= 0x80),
            ..log
        };
        if log.instructions <= 1000 {
            Watched { cpu: seen.cpu, log, over: log.instructions >= max }
        } else {
            let parked = parked_seen::<M>(seen.cpu);
            if parked.parked {
                parked_judged::<M>(parked.cpu, log, seen.status, max)
            } else {
                Watched { cpu: parked.cpu, log, over: log.instructions >= max }
            }
        }
    }
}

/// Looks that can still follow: one per instruction up to the limit, and one
/// per reset left.
pub open spec fn looks_left(log: Monitor<Seq<u8>>, max: u64) -> nat {
    let steps = if log.instructions < max {
        max - log.instructions
    } else {
        0
    };
    let resets = if log.resets <= 8 {
        9 - log.resets
    } else {
        0
    };
    (steps + resets) as nat
}

/// A look that does not end the run uses up an instruction or a reset.
pub proof fn a_look_makes_progress<M: Mapper>(
    s: CpuModel<M::Model>,
    log: Monitor<Seq<u8>>,
    hook: Option<u16>,
    max: u64,
)
    requires
        !observed::<M>(s, log, hook, max).over,
    ensures
        looks_left(observed::<M>(s, log, hook, max).log, max) < looks_left(log, max),
{
    reveal(observed);
    reveal(parked_judged);
}

/// A run to its end, looking before every instruction.
pub open spec fn watched<M: Mapper>(
    s: CpuModel<M::Model>,
    log: Monitor<Seq<u8>>,
    hook: Option<u16>,
    max: u64,
) -> Watched<M::Model>
    decreases looks_left(log, max),
{
    let look = observed::<M>(s, log, hook, max);
    if look.over {
        look
    } else if cpu_model::halts::<M>(look.cpu) {
        Watched { cpu: cpu_model::stepped::<M>(look.cpu), log: look.log, over: true }
    } else {
        proof {
            a_look_makes_progress::<M>(s, log, hook, max);
        }
        watched::<M>(cpu_model::stepped::<M>(look.cpu), look.log, hook, max)
    }
}

impl Monitor {
    pub open spec fn fresh() -> Monitor<Seq<u8>> {
        Monitor {
            instructions: 0,
            protocol_started: false,
            resets: 0,
            result: None,
            captured: Seq::empty(),
        }
    }

    pub fn new() -> (r: Self)
        ensures
            r@ == Self::fresh(),
    {
        let r = Monitor {
            instructions: 0,
            protocol_started: false,
            resets: 0,
            result: None,
            captured: Vec::new(),
        };
        assert(r.captured@ =~= Seq::<u8>::empty());
        r
    }

    fn count(&mut self, pc: u16, a: u8, hook: Option<u16>)
        ensures
            final(self)@ == counted(old(self)@, pc, a, hook),
    {
        self.instructions = self.instructions.saturating_add(1);
        if let Some(address) = hook {
            if address == pc {
                self.captured.push(a);
            }
        }
    }

    fn judge_parked<M: Mapper>(&mut self, cpu: &mut Console<M>, status: u8, max: u64) -> (r: bool)
        requires
            cpu_model::wf::<M>(old(cpu)@),
        ensures
            (Watched { cpu: final(cpu)@, log: final(self)@, over: r }) == parked_judged::<M>(
                old(cpu)@,
                old(self)@,
                status,
                max,
            ),
            cpu_model::wf::<M>(final(cpu)@),
            latency_goes_on(old(cpu).bus.joypad1, final(cpu).bus.joypad1),
    {
        proof {
            reveal(parked_judged);
        }
        // Reset only once the jump to itself is reached; reacting at once to
        // the status write would cut off the program's remaining setup.
        if self.protocol_started && status == 0x81 {
            self.resets = self.resets.saturating_add(1);
            if self.resets > MAX_RESETS {
                return true;
            }
            cpu.reset();
            return false;
        }
        // Zero is the unset value of the older convention, and many timing
        // programs wait in a jump to itself for an interrupt.
        if !self.protocol_started {
            let legacy: u8 = cpu.mem_read(0x00f8);
            if legacy != 0 {
                self.result = Some(TestResult { status: legacy, legacy: true });
                return true;
            }
        }
        self.instructions >= max
    }

    /// Looks at the machine before an instruction; tells whether the run is
    /// over.
    pub fn observe<M: Mapper>(&mut self, cpu: &mut Console<M>, hook: Option<u16>, max: u64) -> (r:
        bool)
        requires
            cpu_model::wf::<M>(old(cpu)@),
        ensures
            (Watched { cpu: final(cpu)@, log: final(self)@, over: r }) == observed::<M>(
                old(cpu)@,
                old(self)@,
                hook,
                max,
            ),
            cpu_model::wf::<M>(final(cpu)@),
            latency_goes_on(old(cpu).bus.joypad1, final(cpu).bus.joypad1),
    {
        proof {
            reveal(observed);
        }
        cpu.progress.executing = false;
        self.count(cpu.regs.program_counter, cpu.regs.register_a, hook);
        let (status, signed) = read_status(cpu);
        if signed && status < 0x80 && self.protocol_started {
            self.result = Some(TestResult { status, legacy: false });
            return true;
        }
        self.protocol_started = self.protocol_started || (signed && status >= 0x80);
        if self.instructions <= SETTLED || !is_parked(cpu) {
            return self.instructions >= max;
        }
        self.judge_parked(cpu, status, max)
    }
}

/// Runs a test program for at most about `max` instructions.
pub fn run<M: Mapper>(cpu: &mut Console<M>, hook: Option<u16>, max: u64) -> (r: Result<
    Monitor,
    String,
>)
    requires
        cpu_model::wf::<M>(old(cpu)@),
    ensures
        cpu_model::wf::<M>(final(cpu)@),
        latency_goes_on(old(cpu).bus.joypad1, final(cpu).bus.joypad1),
        match r {
            Err(message) => max == 0 && message@ == "instruction limit must be greater than zero"@
                && final(cpu)@ == old(cpu)@,
            Ok(log) => max > 0 && ({
                let end = watched::<M>(old(cpu)@, Monitor::fresh(), hook, max);
                final(cpu)@ == end.cpu && log@ == end.log
            }),
        },
{
    if max == 0 {
        return Err(String::from_str("instruction limit must be greater than zero"));
    }
    let mut log = Monitor::new();
    loop
        invariant
            max > 0,
            cpu_model::wf::<M>(cpu@),
            latency_goes_on(old(cpu).bus.joypad1, cpu.bus.joypad1),
            watched::<M>(cpu@, log@, hook, max) == watched::<M>(
                old(cpu)@,
                Monitor::fresh(),
                hook,
                max,
            ),
        decreases looks_left(log@, max),
    {
        let ghost before = log@;
        let ghost machine = cpu@;
        if log.observe(cpu, hook, max) {
            return Ok(log);
        }
        proof {
            a_look_makes_progress::<M>(machine, before, hook, max);
        }
        if cpu.step() {
            return Ok(log);
        }
    }
}

// ---- The report ----------------------------------------------------------------------------

/// The diagnostic from `addr` on: bytes up to the first zero, at most to $60FF.
pub struct MessageRead<V> {
    pub cpu: CpuModel<V>,
    pub bytes: Seq<u8>,
}

pub open spec fn message_read<M: Mapper>(s: CpuModel<M::Model>, addr: u16) -> MessageRead<M::Model>
    decreases 0x6100 - addr,
{
    if addr > 0x60ff {
        MessageRead { cpu: s, bytes: Seq::empty() }
    } else {
        let byte = cpu_model::core_read::<M>(s, addr);
        if byte.value == 0 {
            MessageRead { cpu: byte.cpu, bytes: Seq::empty() }
        } else {
            let rest = message_read::<M>(byte.cpu, (addr + 1) as u16);
            MessageRead { cpu: rest.cpu, bytes: seq![byte.value] + rest.bytes }
        }
    }
}

/// Reads a program's diagnostic.
pub fn read_message<M: Mapper>(cpu: &mut Console<M>) -> (r: String)
    requires
        cpu_model::wf::<M>(old(cpu)@),
    ensures
        final(cpu)@ == message_read::<M>(old(cpu)@, 0x6004).cpu,
        r@ == trimmed(lossy_text(message_read::<M>(old(cpu)@, 0x6004).bytes)),
        cpu_model::wf::<M>(final(cpu)@),
        latency_goes_on(old(cpu).bus.joypad1, final(cpu).bus.joypad1),
{
    let bytes = message_bytes(cpu);
    trim(decoded(bytes.as_slice()).as_str())
}

/// Reads the bytes of a program's diagnostic.
pub fn message_bytes<M: Mapper>(cpu: &mut Console<M>) -> (r: Vec<u8>)
    requires
        cpu_model::wf::<M>(old(cpu)@),
    ensures
        final(cpu)@ == message_read::<M>(old(cpu)@, 0x6004).cpu,
        r@ == message_read::<M>(old(cpu)@, 0x6004).bytes,
        cpu_model::wf::<M>(final(cpu)@),
        latency_goes_on(old(cpu).bus.joypad1, final(cpu).bus.joypad1),
{
    let ghost whole = message_read::<M>(cpu@, 0x6004);
    let mut bytes: Vec<u8> = Vec::new();
    let mut addr: u16 = MESSAGE_ADDR;
    assert(bytes@ + whole.bytes =~= whole.bytes);
    while addr <= 0x60ff
        invariant
            addr <= 0x6100,
            cpu_model::wf::<M>(cpu@),
            latency_goes_on(old(cpu).bus.joypad1, cpu.bus.joypad1),
            whole == message_read::<M>(old(cpu)@, 0x6004),
            message_read::<M>(cpu@, addr).cpu == whole.cpu,
            bytes@ + message_read::<M>(cpu@, addr).bytes == whole.bytes,
        decreases 0x6100 - addr,
    {
        let ghost before = cpu@;
        let ghost head = bytes@;
        let byte: u8 = cpu.mem_read(addr);
        assert(cpu_model::core_read::<M>(before, addr) == fetched(cpu@, byte));
        if byte == 0 {
            assert(bytes@ + message_read::<M>(before, addr).bytes =~= bytes@);
            return bytes;
        }
        bytes.push(byte);
        addr += 1;
        assert(bytes@ + message_read::<M>(cpu@, addr).bytes =~= head + message_read::<M>(
            before,
            (addr - 1) as u16,
        ).bytes);
    }
    assert(bytes@ + message_read::<M>(cpu@, addr).bytes =~= bytes@);
    bytes
}

/// One character of a message on one machine-readable line.
pub open spec fn escaped_char(c: char) -> Seq<char> {
    if c == '\\' {
        seq!['\\', '\\']
    } else if c == '\n' {
        seq!['\\', 'n']
    } else if c == '\r' {
        seq!['\\', 'r']
    } else {
        seq![c]
    }
}

/// The first `n` characters of a message, escaped.
pub open spec fn escaped(message: Seq<char>, n: nat) -> Seq<char>
    decreases n,
{
    if n == 0 {
        Seq::empty()
    } else {
        escaped(message, (n - 1) as nat) + escaped_char(message[n - 1])
    }
}

/// Keeps a message on one line.
pub fn escape_message(message: &str) -> (r: String)
    ensures
        r@ == escaped(message@, message@.len()),
{
    let chars = chars_of(message);
    let mut out = String::from_str("");
    proof {
        reveal_strlit("");
        reveal_strlit("\\\\");
        reveal_strlit("\\n");
        reveal_strlit("\\r");
    }
    assert(out@ =~= Seq::<char>::empty());
    let mut i: usize = 0;
    while i < chars.len()
        invariant
            chars@ == message@,
            i <= chars@.len(),
            out@ == escaped(message@, i as nat),
        decreases chars.len() - i,
    {
        let c = chars[i];
        let ghost head = out@;
        if c == '\\' {
            out.append("\\\\");
            proof {
                reveal_strlit("\\\\");
            }
            assert("\\\\"@ =~= escaped_char(c));
        } else if c == '\n' {
            out.append("\\n");
            proof {
                reveal_strlit("\\n");
            }
            assert("\\n"@ =~= escaped_char(c));
        } else if c == '\r' {
            out.append("\\r");
            proof {
                reveal_strlit("\\r");
            }
            assert("\\r"@ =~= escaped_char(c));
        } else {
            let piece = message.substring_char(i, i + 1);
            out.append(piece);
            assert(piece@ =~= escaped_char(c));
        }
        i += 1;
    }
    out
}

/// Why a run without a result failed.
pub open spec fn timeout_message(log: Monitor<Seq<u8>>, pc: u16) -> Seq<char> {
    "timed out after "@ + decimal_chars(log.instructions as nat) + (if log.protocol_started {
        " instructions while test was running (PC=$"@
    } else {
        " instructions without seeing the blargg signature (PC=$"@
    }) + hex_chars(pc as nat, 4, true) + ")"@
}

/// The convention a result came by.
pub open spec fn protocol_name(result: TestResult) -> Seq<char> {
    if result.legacy {
        "legacy-f8"@
    } else {
        "blargg-6000"@
    }
}

/// The line that reports a result.
pub open spec fn result_line_of(
    result: TestResult,
    instructions: u64,
    message: Seq<char>,
) -> Seq<char> {
    "TEST_ROM_RESULT protocol="@ + protocol_name(result) + " status="@ + decimal_chars(
        result.status as nat,
    ) + " instructions="@ + decimal_chars(instructions as nat) + " message="@ + escaped(
        message,
        message.len(),
    )
}

impl TestResult {
    /// Whether a result means success: one by the older convention, zero by the
    /// newer.
    pub open spec fn passed(self) -> bool {
        if self.legacy {
            self.status == 1
        } else {
            self.status == 0
        }
    }

    /// The diagnostic of a result by the older convention.
    pub fn legacy_message(&self) -> (r: String)
        ensures
            r@ == "legacy result code "@ + decimal_chars(self.status as nat),
    {
        let mut message = String::from_str("legacy result code ");
        message.append(decimal(self.status as u64).as_str());
        message
    }

    pub fn result_line(&self, instructions: u64, message: &str) -> (r: String)
        ensures
            r@ == result_line_of(*self, instructions, message@),
    {
        let mut line = String::from_str("TEST_ROM_RESULT protocol=");
        line.append(
            if self.legacy {
                "legacy-f8"
            } else {
                "blargg-6000"
            },
        );
        line.append(" status=");
        line.append(decimal(self.status as u64).as_str());
        line.append(" instructions=");
        line.append(decimal(instructions).as_str());
        line.append(" message=");
        line.append(escape_message(message).as_str());
        line
    }

    /// The verdict on a result.
    pub fn verdict(&self, message: &str) -> (r: Result<(), String>)
        ensures
            match r {
                Ok(()) => self.passed(),
                Err(text) => !self.passed() && text@ == "test ROM returned status "@
                    + decimal_chars(self.status as nat) + ": "@ + message@,
            },
    {
        if (self.legacy && self.status == 1) || (!self.legacy && self.status == 0) {
            return Ok(());
        }
        let mut text = String::from_str("test ROM returned status ");
        text.append(decimal(self.status as u64).as_str());
        text.append(": ");
        text.append(message);
        Err(text)
    }
}

impl Monitor {
    /// The result of a finished run, or why there is none.
    pub fn outcome(&self, pc: u16) -> (r: Result<TestResult, String>)
        ensures
            match r {
                Ok(result) => self.result == Some(result),
                Err(message) => self.result is None && message@ == timeout_message(self@, pc),
            },
    {
        if let Some(result) = self.result {
            return Ok(result);
        }
        let mut message = String::from_str("timed out after ");
        message.append(decimal(self.instructions).as_str());
        message.append(
            if self.protocol_started {
                " instructions while test was running (PC=$"
            } else {
                " instructions without seeing the blargg signature (PC=$"
            },
        );
        message.append(hex(pc as u64, 4, true).as_str());
        message.append(")");
        Err(message)
    }
}

/// A text without the `0x` prefixes it starts with.
pub open spec fn unprefixed(s: Seq<char>) -> Seq<char>
    decreases s.len(),
{
    if s.len() >= 2 && s[0] == '0' && s[1] == 'x' {
        unprefixed(s.skip(2))
    } else {
        s
    }
}

/// Reads the address of a printing routine: hexadecimal, with or without `0x`.
pub fn parse_hook(text: &str) -> (r: Option<u16>)
    ensures
        r == match number_up_to(unprefixed(text@), 16, u16::MAX as int) {
            Some(address) => Some(address as u16),
            None => None,
        },
    decreases text@.len(),
{
    proof {
        reveal_strlit("0x");
    }
    match strip_prefix(text, "0x") {
        Some(rest) => {
            assert(rest@ =~= text@.skip(2));
            parse_hook(rest)
        },
        None => match parse_number(text, 16, u16::MAX as u64) {
            Some(address) => Some(address as u16),
            None => None,
        },
    }
}

// ---- Laws ----------------------------------------------------------------------------------

/// A result below $80 counts only after the program was seen running, and only
/// under the signature.
pub proof fn a_result_needs_the_protocol<M: Mapper>(
    s: CpuModel<M::Model>,
    log: Monitor<Seq<u8>>,
    hook: Option<u16>,
    max: u64,
)
    requires
        log.result is None,
        observed::<M>(s, log, hook, max).log.result is Some,
        !observed::<M>(s, log, hook, max).log.result->0.legacy,
    ensures
        log.protocol_started,
        status_seen::<M>(cpu_model::with_executing(s, false)).signed,
        observed::<M>(s, log, hook, max).log.result->0.status < 0x80,
        observed::<M>(s, log, hook, max).over,
{
    reveal(observed);
    reveal(parked_judged);
}

/// A result by the older convention is never zero, and never comes from a
/// program that showed the signature.
pub proof fn a_legacy_result_is_not_zero<M: Mapper>(
    s: CpuModel<M::Model>,
    log: Monitor<Seq<u8>>,
    hook: Option<u16>,
    max: u64,
)
    requires
        log.result is None,
        observed::<M>(s, log, hook, max).log.result is Some,
        observed::<M>(s, log, hook, max).log.result->0.legacy,
    ensures
        observed::<M>(s, log, hook, max).log.result->0.status != 0,
        !observed::<M>(s, log, hook, max).log.protocol_started,
{
    reveal(observed);
    reveal(parked_judged);
}

/// An escaped message holds no line breaks.
pub proof fn an_escaped_message_is_one_line(message: Seq<char>, n: nat, i: int)
    requires
        n <= message.len(),
        0 <= i < escaped(message, n).len(),
    ensures
        escaped(message, n)[i] != '\n',
        escaped(message, n)[i] != '\r',
    decreases n,
{
    if n > 0 {
        let head = escaped(message, (n - 1) as nat);
        if i < head.len() {
            an_escaped_message_is_one_line(message, (n - 1) as nat, i);
        } else {
            assert(escaped(message, n)[i] == escaped_char(message[n - 1])[i - head.len()]);
        }
    }
}

/// A message with its escapes taken back.
pub open spec fn unescaped(text: Seq<char>) -> Seq<char>
    decreases text.len(),
{
    if text.len() == 0 {
        Seq::empty()
    } else if text[0] == '\\' && text.len() >= 2 {
        let c = if text[1] == 'n' {
            '\n'
        } else if text[1] == 'r' {
            '\r'
        } else {
            text[1]
        };
        seq![c] + unescaped(text.skip(2))
    } else {
        seq![text[0]] + unescaped(text.skip(1))
    }
}

proof fn lemma_unescaped_joins(message: Seq<char>, n: nat, rest: Seq<char>)
    requires
        n <= message.len(),
    ensures
        unescaped(escaped(message, n) + rest) == message.take(n as int) + unescaped(rest),
    decreases n,
{
    if n == 0 {
        assert(escaped(message, n) + rest =~= rest);
        assert(message.take(0) + unescaped(rest) =~= unescaped(rest));
    } else {
        let c = message[n - 1];
        let tail = escaped_char(c) + rest;
        assert(escaped(message, n) + rest =~= escaped(message, (n - 1) as nat) + tail);
        lemma_unescaped_joins(message, (n - 1) as nat, tail);
        assert(tail.skip(escaped_char(c).len() as int) =~= rest);
        assert(unescaped(tail) == seq![c] + unescaped(rest));
        assert(message.take(n as int) =~= message.take(n - 1) + seq![c]);
        assert(message.take(n - 1) + (seq![c] + unescaped(rest)) =~= message.take(n as int)
            + unescaped(rest));
    }
}

/// An escaped message reads back as it was.
pub proof fn an_escaped_message_reads_back(message: Seq<char>)
    ensures
        unescaped(escaped(message, message.len())) == message,
{
    lemma_unescaped_joins(message, message.len(), Seq::empty());
    assert(escaped(message, message.len()) + Seq::<char>::empty() =~= escaped(
        message,
        message.len(),
    ));
    assert(message.take(message.len() as int) + Seq::<char>::empty() =~= message);
}

/// A diagnostic ends before its first zero byte and with its page.
pub proof fn a_message_ends_at_its_zero<M: Mapper>(s: CpuModel<M::Model>, addr: u16)
    requires
        addr <= 0x6100,
    ensures
        ({
            let bytes = message_read::<M>(s, addr).bytes;
            &&& bytes.len() <= 0x6100 - addr
            &&& forall|i: int| 0 <= i < bytes.len() ==> #[trigger] bytes[i] != 0
            &&& addr < 0x6100 && cpu_model::core_read::<M>(s, addr).value != 0 ==> bytes.len() > 0
                && bytes[0] == cpu_model::core_read::<M>(s, addr).value
            &&& addr < 0x6100 && cpu_model::core_read::<M>(s, addr).value == 0 ==> bytes.len() == 0
        }),
    decreases 0x6100 - addr,
{
    if addr <= 0x60ff {
        let byte = cpu_model::core_read::<M>(s, addr);
        if byte.value != 0 {
            a_message_ends_at_its_zero::<M>(byte.cpu, (addr + 1) as u16);
        }
    }
}

/// A program in work RAM is parked when the next instruction is a jump to
/// itself.
pub proof fn a_parked_program_jumps_to_itself<M: Mapper>(s: CpuModel<M::Model>)
    requires
        s.regs.program_counter < 0x1ffe,
    ensures
        ({
            let pc = s.regs.program_counter as int;
            parked_seen::<M>(s).parked <==> ram_byte(s, pc) == 0x4c && ram_word(s, pc + 1) == pc
        }),
{
    reveal(parked_seen);
    let pc = s.regs.program_counter;
    let code = cpu_model::core_read::<M>(s, pc);
    a_read_leaves_ram_alone::<M>(s, pc);
    let lo = cpu_model::core_read::<M>(code.cpu, pc.wrapping_add(1));
    a_read_leaves_ram_alone::<M>(code.cpu, pc.wrapping_add(1));
    a_read_leaves_ram_alone::<M>(lo.cpu, pc.wrapping_add(2));
}

/// A parked program without a signature has ended once the byte at $F8 of work
/// RAM is not zero, which is then its result.
pub proof fn an_older_result_stands_in_work_ram<M: Mapper>(
    s: CpuModel<M::Model>,
    log: Monitor<Seq<u8>>,
    status: u8,
    max: u64,
)
    requires
        !log.protocol_started,
    ensures
        ({
            let judged = parked_judged::<M>(s, log, status, max);
            let code = ram_byte(s, 0xf8);
            &&& code != 0 ==> judged.over && judged.log.result == Some(
                TestResult { status: code as u8, legacy: true },
            )
            &&& code == 0 ==> judged.log == log && judged.over == (log.instructions >= max)
        }),
{
    reveal(parked_judged);
    a_read_leaves_ram_alone::<M>(s, 0x00f8);
}

/// A parked program that published $81 gets the reset button, eight times and
/// no more.
pub proof fn a_waiting_program_is_reset_eight_times<M: Mapper>(
    s: CpuModel<M::Model>,
    log: Monitor<Seq<u8>>,
    status: u8,
    max: u64,
)
    requires
        log.protocol_started,
    ensures
        ({
            let judged = parked_judged::<M>(s, log, status, max);
            &&& status == 0x81 && log.resets < 8 ==> !judged.over && judged.log.resets
                == log.resets + 1 && judged.cpu == cpu_model::reset_run::<M>(s)
            &&& status == 0x81 && log.resets >= 8 ==> judged.over && judged.log.result
                == log.result && judged.cpu == s
            &&& status != 0x81 ==> judged.log == log && judged.cpu == s
        }),
{
    reveal(parked_judged);
}

/// Zero is a pass by the newer convention, one by the older, and nothing else.
pub proof fn a_pass_is_zero_or_an_older_one(result: TestResult)
    ensures
        result.passed() <==> result.status == if result.legacy {
            1u8
        } else {
            0
        },
{
}

/// A hook's address may have its prefix or not.
pub proof fn a_prefix_makes_no_difference(s: Seq<char>)
    ensures
        unprefixed(seq!['0', 'x'] + s) == unprefixed(s),
        !(s.len() >= 2 && s[0] == '0' && s[1] == 'x') ==> unprefixed(s) == s,
{
    assert((seq!['0', 'x'] + s).skip(2) =~= s);
}

} // verus!
