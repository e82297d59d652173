//! Mapper 4 (MMC3 / TxROM). Two things set it apart from the simpler mappers:
//!
//! 1. Fine-grained banking. PRG is switched in 8 KB windows and CHR in 1 KB
//!    windows, selected through a two-step protocol: a write to $8000 (even)
//!    picks which of eight bank registers R0-R7 the next write to $8001 (odd)
//!    will load, along with the PRG mode and CHR-inversion bits.
//! 2. A scanline IRQ. A counter reloads from a latch and decrements once per
//!    qualified PPU A12 rising edge; when it hits zero with IRQs enabled it
//!    asserts the CPU IRQ line. Games use it to split the screen.
//!
//! Register map (address decoded as `addr & 0xE001`):
//!   $8000 even  bank select   (low 3 bits R0-R7; bit6 PRG mode; bit7 CHR inv)
//!   $8001 odd   bank data      (value loaded into the selected register)
//!   $A000 even  mirroring      (bit0: 0=vertical, 1=horizontal)
//!   $A001 odd   PRG RAM protect (bit7 enable; bit6 write protect)
//!   $C000 even  IRQ latch       (reload value for the counter)
//!   $C001 odd   IRQ reload      (force a reload on the next clock)
//!   $E000 even  IRQ disable + acknowledge (clears the pending line)
//!   $E001 odd   IRQ enable

use super::board::{
    bank_count, count_banks, lemma_banks_fit, ram_after, ram_value, zeroed, zeroes, Board,
};
use super::Mapper;
use crate::cartridge::{Mirroring, Rom};
use vstd::prelude::*;

verus! {

#[derive(Clone, Copy, Debug, PartialEq, Eq, Structural)]
pub enum Mmc3Variant {
    Sharp,
    Mmc6,
    HardwiredMirroring,
    McAcc,
    Nec,
}

/// Access control of PRG RAM: one enable and one write-protect bit, or on the
/// MMC6 a global enable and permissions per half.
#[derive(Clone, Copy, Debug, PartialEq, Eq, Structural)]
pub struct RamGate {
    pub enabled: bool,
    pub write_protected: bool,
    pub mmc6_enabled: bool,
    pub mmc6_protect: u8,
}

/// RAM stays accessible until software writes $A001.
pub open spec fn open_gate() -> RamGate {
    RamGate { enabled: true, write_protected: false, mmc6_enabled: false, mmc6_protect: 0 }
}

/// A bank-select write: on the MMC6, bit 5 is the global RAM enable, and
/// clearing it drops the permissions.
pub open spec fn ram_selected(gate: RamGate, variant: Mmc3Variant, data: u8) -> RamGate {
    if variant != Mmc3Variant::Mmc6 {
        gate
    } else if data & 0x20 != 0 {
        RamGate { mmc6_enabled: true, ..gate }
    } else {
        RamGate { mmc6_enabled: false, mmc6_protect: 0, ..gate }
    }
}

/// A write to the RAM protect register.
pub open spec fn ram_protected(gate: RamGate, variant: Mmc3Variant, data: u8) -> RamGate {
    if variant != Mmc3Variant::Mmc6 {
        RamGate { enabled: data & 0x80 != 0, write_protected: data & 0x40 != 0, ..gate }
    } else if gate.mmc6_enabled {
        RamGate { mmc6_protect: data & 0xf0, ..gate }
    } else {
        gate
    }
}

impl RamGate {
    pub fn new() -> (r: Self)
        ensures
            r == open_gate(),
    {
        RamGate { enabled: true, write_protected: false, mmc6_enabled: false, mmc6_protect: 0 }
    }

    pub fn select_mmc6(&mut self, variant: Mmc3Variant, data: u8)
        ensures
            *final(self) == ram_selected(*old(self), variant, data),
    {
        if variant == Mmc3Variant::Mmc6 {
            self.mmc6_enabled = data & 0x20 != 0;
            if !self.mmc6_enabled {
                self.mmc6_protect = 0;
            }
        }
    }

    pub fn protect(&mut self, variant: Mmc3Variant, data: u8)
        ensures
            *final(self) == ram_protected(*old(self), variant, data),
    {
        if variant == Mmc3Variant::Mmc6 {
            if self.mmc6_enabled {
                self.mmc6_protect = data & 0xf0;
            }
        } else {
            self.enabled = data & 0x80 != 0;
            self.write_protected = data & 0x40 != 0;
        }
    }
}

/// R0-R7 and their addressing modes. R0/R1 are 2 KB CHR banks (their low bit
/// is ignored); R2-R5 are 1 KB CHR banks; R6/R7 are 8 KB PRG banks.
pub struct BankRegisters<R = [u8; 8]> {
    pub regs: R,
    // which register the next $8001 write targets (0-7)
    pub select: usize,
    // false: $8000 swappable; true: $C000 swappable
    pub prg_mode: bool,
    pub chr_inversion: bool,
}

pub open spec fn cleared_banks() -> BankRegisters<Seq<u8>> {
    BankRegisters { regs: zeroes(8), select: 0, prg_mode: false, chr_inversion: false }
}

/// A write to the bank-select register.
pub open spec fn banks_selected(banks: BankRegisters<Seq<u8>>, data: u8) -> BankRegisters<Seq<u8>> {
    BankRegisters {
        select: (data % 8) as usize,
        prg_mode: data & 0x40 != 0,
        chr_inversion: data & 0x80 != 0,
        ..banks
    }
}

/// A write to the bank-data register; only six PRG bank address bits exist.
pub open spec fn banks_loaded(banks: BankRegisters<Seq<u8>>, data: u8) -> BankRegisters<Seq<u8>> {
    let value = if banks.select >= 6 {
        data & 0x3f
    } else {
        data
    };
    BankRegisters { regs: banks.regs.update(banks.select as int, value), ..banks }
}

impl View for BankRegisters<[u8; 8]> {
    type V = BankRegisters<Seq<u8>>;

    open spec fn view(&self) -> BankRegisters<Seq<u8>> {
        BankRegisters {
            regs: self.regs@,
            select: self.select,
            prg_mode: self.prg_mode,
            chr_inversion: self.chr_inversion,
        }
    }
}

impl BankRegisters<[u8; 8]> {
    pub fn new() -> (r: Self)
        ensures
            r@ == cleared_banks(),
    {
        let regs: [u8; 8] = [0, 0, 0, 0, 0, 0, 0, 0];
        assert(regs@ =~= zeroes(8));
        BankRegisters { regs, select: 0, prg_mode: false, chr_inversion: false }
    }

    pub fn select_register(&mut self, data: u8)
        ensures
            final(self)@ == banks_selected(old(self)@, data),
    {
        self.select = (data % 8) as usize;
        self.prg_mode = data & 0x40 != 0;
        self.chr_inversion = data & 0x80 != 0;
    }

    pub fn load(&mut self, data: u8)
        requires
            old(self).select < 8,
        ensures
            final(self)@ == banks_loaded(old(self)@, data),
    {
        let value: u8 = if self.select >= 6 {
            data & 0x3f
        } else {
            data
        };
        self.regs[self.select] = value;
    }

    pub fn duplicate(&self) -> (r: Self)
        ensures
            r@ == self@,
    {
        BankRegisters {
            regs: self.regs,
            select: self.select,
            prg_mode: self.prg_mode,
            chr_inversion: self.chr_inversion,
        }
    }
}

/// The scanline counter and the A12 edge filter that clocks it.
#[derive(Clone, Copy, Debug, PartialEq, Eq, Structural)]
pub struct ScanlineIrq {
    pub latch: u8,
    pub counter: u8,
    // force reload from latch on the next qualified A12 edge
    pub reload: bool,
    pub enabled: bool,
    // asserted; held until acknowledged by a write to $E000
    pub line: bool,
    pub a12_high: bool,
    pub a12_low_since: Option<u64>,
    pub a12_high_since: Option<u64>,
}

pub open spec fn idle_irq() -> ScanlineIrq {
    ScanlineIrq {
        latch: 0,
        counter: 0,
        reload: false,
        enabled: false,
        line: false,
        a12_high: false,
        a12_low_since: None,
        a12_high_since: None,
    }
}

/// One clock of the scanline counter: it reloads from the latch on a forced
/// reload or when it has run down to zero, otherwise decrements, and raises
/// the line at zero. The NEC chip does not fire again from a standing zero.
pub open spec fn irq_clocked(irq: ScanlineIrq, variant: Mmc3Variant) -> ScanlineIrq {
    let counter = if irq.reload || irq.counter == 0 {
        irq.latch
    } else {
        (irq.counter - 1) as u8
    };
    let fires = counter == 0 && (variant != Mmc3Variant::Nec || irq.counter != 0 || irq.reload);
    ScanlineIrq { counter, reload: false, line: irq.line || (fires && irq.enabled), ..irq }
}

/// A write to one of the four interrupt registers.
pub open spec fn irq_written(irq: ScanlineIrq, register: u16, data: u8) -> ScanlineIrq {
    if register == 0xc000 {
        ScanlineIrq { latch: data, ..irq }
    } else if register == 0xc001 {
        ScanlineIrq { counter: 0, reload: true, ..irq }
    } else if register == 0xe000 {
        // Disable and acknowledge: drop the pending line.
        ScanlineIrq { enabled: false, line: false, ..irq }
    } else {
        ScanlineIrq { enabled: true, ..irq }
    }
}

/// Whether at least eight dots have passed since `start`.
pub open spec fn qualified(start: Option<u64>, now: u64) -> bool {
    start is Some && now - start->0 >= 8
}

/// The line A12 driven low or high at dot `now`. A rise counts after at least
/// eight dots low; on the MC-ACC a fall counts after at least eight dots high.
pub open spec fn a12_driven(
    irq: ScanlineIrq,
    variant: Mmc3Variant,
    high: bool,
    now: u64,
) -> ScanlineIrq {
    if variant == Mmc3Variant::McAcc {
        if high {
            let since = if irq.a12_high {
                irq.a12_high_since
            } else {
                Some(now)
            };
            ScanlineIrq { a12_high: true, a12_high_since: since, ..irq }
        } else {
            let clocked = if irq.a12_high && qualified(irq.a12_high_since, now) {
                irq_clocked(irq, variant)
            } else {
                irq
            };
            ScanlineIrq { a12_high: false, a12_high_since: None, ..clocked }
        }
    } else if high {
        let clocked = if !irq.a12_high && qualified(irq.a12_low_since, now) {
            irq_clocked(irq, variant)
        } else {
            irq
        };
        ScanlineIrq { a12_high: true, a12_high_since: Some(now), ..clocked }
    } else {
        let since = if irq.a12_high || irq.a12_low_since is None {
            Some(now)
        } else {
            irq.a12_low_since
        };
        ScanlineIrq { a12_high: false, a12_low_since: since, ..irq }
    }
}

impl ScanlineIrq {
    pub fn new() -> (r: Self)
        ensures
            r == idle_irq(),
    {
        ScanlineIrq {
            latch: 0,
            counter: 0,
            reload: false,
            enabled: false,
            line: false,
            a12_high: false,
            a12_low_since: None,
            a12_high_since: None,
        }
    }

    pub fn write_register(&mut self, register: u16, data: u8)
        ensures
            *final(self) == irq_written(*old(self), register, data),
    {
        match register {
            0xc000 => {
                self.latch = data;
            },
            0xc001 => {
                self.counter = 0;
                self.reload = true;
            },
            0xe000 => {
                // Disable and acknowledge: drop the pending line.
                self.enabled = false;
                self.line = false;
            },
            _ => {
                self.enabled = true;
            },
        }
    }

    /// Clocked on a qualified PPU A12 edge.
    pub fn clock(&mut self, variant: Mmc3Variant)
        ensures
            *final(self) == irq_clocked(*old(self), variant),
    {
        let was_nonzero = self.counter != 0;
        let forced_reload = self.reload;
        if self.reload || self.counter == 0 {
            self.counter = self.latch;
            self.reload = false;
        } else {
            self.counter = self.counter - 1;
        }
        let fires = if variant == Mmc3Variant::Nec {
            self.counter == 0 && (was_nonzero || forced_reload)
        } else {
            self.counter == 0
        };
        if fires && self.enabled {
            self.line = true;
        }
    }

    /// Drives address line 12 at PPU dot `now`.
    pub fn drive_a12(&mut self, variant: Mmc3Variant, high: bool, now: u64)
        ensures
            *final(self) == a12_driven(*old(self), variant, high, now),
    {
        if variant == Mmc3Variant::McAcc {
            if high {
                if !self.a12_high {
                    self.a12_high_since = Some(now);
                }
                self.a12_high = true;
            } else {
                if self.a12_high && held_for_eight_dots(self.a12_high_since, now) {
                    self.clock(variant);
                }
                self.a12_high = false;
                self.a12_high_since = None;
            }
            return ;
        }
        if !high {
            if self.a12_high || self.a12_low_since.is_none() {
                self.a12_low_since = Some(now);
            }
            self.a12_high = false;
            return ;
        }
        if !self.a12_high && held_for_eight_dots(self.a12_low_since, now) {
            self.clock(variant);
        }
        self.a12_high = true;
        self.a12_high_since = Some(now);
    }
}

fn held_for_eight_dots(start: Option<u64>, now: u64) -> (r: bool)
    ensures
        r == qualified(start, now),
{
    match start {
        Some(since) => now.saturating_sub(since) >= 8,
        None => false,
    }
}

pub struct Mmc3<T = Vec<u8>, R = [u8; 8]> {
    pub board: Board<T>,
    pub variant: Mmc3Variant,
    pub ram: RamGate,
    pub banks: BankRegisters<R>,
    pub mirroring: Mirroring,
    pub initial_mirroring: Mirroring,
    // $A000 mirroring writes are ignored on four-screen carts
    pub four_screen: bool,
    pub irq: ScanlineIrq,
    // in 8 KB units
    pub num_prg_banks: usize,
    // in 1 KB units
    pub num_chr_banks: usize,
}

pub type Mmc3Model = Mmc3<Seq<u8>, Seq<u8>>;

/// The chip a NES 2.0 submapper number stands for.
pub open spec fn variant_of(submapper: u8) -> Mmc3Variant {
    if submapper == 1 {
        Mmc3Variant::Mmc6
    } else if submapper == 2 {
        Mmc3Variant::HardwiredMirroring
    } else if submapper == 3 {
        Mmc3Variant::McAcc
    } else if submapper == 4 {
        Mmc3Variant::Nec
    } else {
        Mmc3Variant::Sharp
    }
}

/// The model of a board fresh from `rom`. PRG RAM stays accessible until
/// software writes $A001.
pub open spec fn mmc3_of(rom: Rom) -> Mmc3Model {
    let chr = if rom.chr_rom@.len() == 0 {
        zeroes(rom.memory.chr.size as nat)
    } else {
        rom.chr_rom@
    };
    Mmc3 {
        board: Board {
            prg_rom: rom.prg_rom@,
            chr,
            chr_is_ram: rom.chr_rom@.len() == 0,
            prg_ram: zeroes(rom.memory.prg_ram.size as nat),
        },
        variant: variant_of(rom.metadata.submapper),
        ram: open_gate(),
        banks: cleared_banks(),
        mirroring: rom.screen_mirroring,
        initial_mirroring: rom.screen_mirroring,
        four_screen: rom.screen_mirroring == Mirroring::FourScreen,
        irq: idle_irq(),
        num_prg_banks: bank_count(rom.prg_rom@.len(), 0x2000) as usize,
        num_chr_banks: bank_count(chr.len(), 0x400) as usize,
    }
}

/// The 8 KB PRG bank behind `addr`: $8000 and $C000 are R6 and the fixed
/// second-last bank, swapped by the PRG mode; $A000 is R7; $E000 is the last.
pub open spec fn prg_bank_of(m: Mmc3Model, addr: u16) -> int {
    let last = m.num_prg_banks - 1;
    let second_last = if last == 0 {
        0
    } else {
        last - 1
    };
    let bank = if addr >= 0xe000 {
        last
    } else if addr >= 0xc000 {
        if m.banks.prg_mode {
            m.banks.regs[6] as int
        } else {
            second_last
        }
    } else if addr >= 0xa000 {
        m.banks.regs[7] as int
    } else if m.banks.prg_mode {
        second_last
    } else {
        m.banks.regs[6] as int
    };
    bank % (m.num_prg_banks as int)
}

/// The 1 KB CHR bank behind `addr`: two 2 KB banks (R0, R1) followed by four
/// 1 KB banks (R2-R5); CHR inversion swaps the two halves.
pub open spec fn chr_bank_of(m: Mmc3Model, addr: u16) -> int {
    let straight = addr as int / 0x400;
    let window = if m.banks.chr_inversion {
        (straight + 4) % 8
    } else {
        straight
    };
    let bank = if window == 0 {
        m.banks.regs[0] as int / 2 * 2
    } else if window == 1 {
        m.banks.regs[0] as int / 2 * 2 + 1
    } else if window == 2 {
        m.banks.regs[1] as int / 2 * 2
    } else if window == 3 {
        m.banks.regs[1] as int / 2 * 2 + 1
    } else if window == 4 {
        m.banks.regs[2] as int
    } else if window == 5 {
        m.banks.regs[3] as int
    } else if window == 6 {
        m.banks.regs[4] as int
    } else {
        m.banks.regs[5] as int
    };
    bank % (m.num_chr_banks as int)
}

/// The MMC6's 1 KB RAM is mirrored over $7000-$7FFF, as two 512-byte halves
/// with read and write permissions of their own.
pub open spec fn mmc6_index(m: Mmc3Model, addr: u16) -> Option<int> {
    let offset = addr as int % 0x400;
    if !m.ram.mmc6_enabled || addr < 0x7000 || offset >= m.board.prg_ram.len() {
        None
    } else {
        Some(offset)
    }
}

/// What PRG RAM yields at `addr` ($6000-$7FFF).
pub open spec fn prg_ram_value(m: Mmc3Model, addr: u16) -> u8 {
    if m.variant != Mmc3Variant::Mmc6 {
        if m.ram.enabled {
            ram_value(m.board.prg_ram, addr)
        } else {
            0
        }
    } else {
        match mmc6_index(m, addr) {
            Some(i) => {
                let mask = if i < 0x200 {
                    0x20u8
                } else {
                    0x80u8
                };
                if m.ram.mmc6_protect & mask != 0 {
                    m.board.prg_ram[i]
                } else {
                    0
                }
            },
            None => 0,
        }
    }
}

/// PRG RAM after a write at `addr` ($6000-$7FFF).
pub open spec fn prg_ram_after(m: Mmc3Model, addr: u16, data: u8) -> Seq<u8> {
    if m.variant != Mmc3Variant::Mmc6 {
        if m.ram.enabled && !m.ram.write_protected {
            ram_after(m.board.prg_ram, addr, data)
        } else {
            m.board.prg_ram
        }
    } else {
        match mmc6_index(m, addr) {
            Some(i) => {
                let mask = if i < 0x200 {
                    0x30u8
                } else {
                    0xc0u8
                };
                if m.ram.mmc6_protect & mask == mask {
                    m.board.prg_ram.update(i, data)
                } else {
                    m.board.prg_ram
                }
            },
            None => m.board.prg_ram,
        }
    }
}

/// A write to the register that `addr & 0xE001` decodes to.
pub open spec fn after_register_write(m: Mmc3Model, register: u16, data: u8) -> Mmc3Model {
    if register == 0x8000 {
        Mmc3 {
            banks: banks_selected(m.banks, data),
            ram: ram_selected(m.ram, m.variant, data),
            ..m
        }
    } else if register == 0x8001 {
        Mmc3 { banks: banks_loaded(m.banks, data), ..m }
    } else if register == 0xa000 {
        if m.four_screen || m.variant == Mmc3Variant::HardwiredMirroring {
            m
        } else if data & 1 != 0 {
            Mmc3 { mirroring: Mirroring::Horizontal, ..m }
        } else {
            Mmc3 { mirroring: Mirroring::Vertical, ..m }
        }
    } else if register == 0xa001 {
        Mmc3 { ram: ram_protected(m.ram, m.variant, data), ..m }
    } else {
        Mmc3 { irq: irq_written(m.irq, register, data), ..m }
    }
}

impl Mmc3 {
    pub fn from_rom(rom: Rom) -> (r: Self)
        ensures
            r.model() == mmc3_of(rom),
            Self::sound(r.model()),
    {
        let variant = match rom.metadata.submapper {
            1 => Mmc3Variant::Mmc6,
            2 => Mmc3Variant::HardwiredMirroring,
            3 => Mmc3Variant::McAcc,
            4 => Mmc3Variant::Nec,
            _ => Mmc3Variant::Sharp,
        };
        let chr_is_ram = rom.chr_rom.len() == 0;
        let prg_ram = zeroed(rom.memory.prg_ram_size());
        let chr = if chr_is_ram {
            zeroed(rom.memory.chr_ram_size())
        } else {
            rom.chr_rom
        };
        let num_prg_banks = count_banks(rom.prg_rom.len(), 0x2000);
        let num_chr_banks = count_banks(chr.len(), 0x400);
        Mmc3 {
            board: Board { prg_rom: rom.prg_rom, chr, chr_is_ram, prg_ram },
            variant,
            ram: RamGate::new(),
            banks: BankRegisters::new(),
            mirroring: rom.screen_mirroring,
            initial_mirroring: rom.screen_mirroring,
            four_screen: rom.screen_mirroring == Mirroring::FourScreen,
            irq: ScanlineIrq::new(),
            num_prg_banks,
            num_chr_banks,
        }
    }

    fn prg_offset(&self, addr: u16) -> (r: usize)
        requires
            addr >= 0x8000,
            Self::sound(self.model()),
            Self::cpu_readable(self.model(), addr),
        ensures
            r == prg_bank_of(self.model(), addr) * 0x2000 + addr % 0x2000,
    {
        let len = self.board.prg_rom.len();
        let last: usize = self.num_prg_banks - 1;
        let second_last: usize = last.saturating_sub(1);
        let window: u16 = (addr - 0x8000) / 0x2000;
        let bank: usize = match window {
            0 => if self.banks.prg_mode {
                second_last
            } else {
                self.banks.regs[6] as usize
            },
            1 => self.banks.regs[7] as usize,
            2 => if self.banks.prg_mode {
                self.banks.regs[6] as usize
            } else {
                second_last
            },
            _ => last,
        };
        bank % self.num_prg_banks * 0x2000 + (addr % 0x2000) as usize
    }

    fn chr_offset(&self, addr: u16) -> (r: usize)
        requires
            Self::sound(self.model()),
            !self.board.chr_is_ram,
            Self::ppu_accessible(self.model(), addr),
        ensures
            r == chr_bank_of(self.model(), addr) * 0x400 + addr % 0x400,
    {
        let len = self.board.chr.len();
        let mut window: usize = (addr / 0x400) as usize;
        if self.banks.chr_inversion {
            window = (window + 4) % 8;
        }
        let bank: usize = match window {
            0 => (self.banks.regs[0] / 2) as usize * 2,
            1 => (self.banks.regs[0] / 2) as usize * 2 + 1,
            2 => (self.banks.regs[1] / 2) as usize * 2,
            3 => (self.banks.regs[1] / 2) as usize * 2 + 1,
            4 => self.banks.regs[2] as usize,
            5 => self.banks.regs[3] as usize,
            6 => self.banks.regs[4] as usize,
            _ => self.banks.regs[5] as usize,
        };
        bank % self.num_chr_banks * 0x400 + (addr % 0x400) as usize
    }

    fn read_prg_ram(&self, addr: u16) -> (r: u8)
        requires
            0x6000 <= addr < 0x8000,
        ensures
            r == prg_ram_value(self.model(), addr),
    {
        if self.variant != Mmc3Variant::Mmc6 {
            return if self.ram.enabled {
                self.board.read_ram(addr)
            } else {
                0
            };
        }
        let offset: usize = (addr % 0x400) as usize;
        if !self.ram.mmc6_enabled || addr < 0x7000 || offset >= self.board.prg_ram.len() {
            return 0;
        }
        let mask: u8 = if offset < 0x200 {
            0x20
        } else {
            0x80
        };
        if self.ram.mmc6_protect & mask != 0 {
            self.board.prg_ram[offset]
        } else {
            0
        }
    }

    fn write_prg_ram(&mut self, addr: u16, data: u8)
        requires
            0x6000 <= addr < 0x8000,
        ensures
            final(self).model() == (Mmc3 {
                board: Board {
                    prg_ram: prg_ram_after(old(self).model(), addr, data),
                    ..old(self).model().board
                },
                ..old(self).model()
            }),
    {
        if self.variant != Mmc3Variant::Mmc6 {
            if self.ram.enabled && !self.ram.write_protected {
                self.board.write_ram(addr, data);
            }
            return ;
        }
        let offset: usize = (addr % 0x400) as usize;
        if !self.ram.mmc6_enabled || addr < 0x7000 || offset >= self.board.prg_ram.len() {
            return ;
        }
        let mask: u8 = if offset < 0x200 {
            0x30
        } else {
            0xc0
        };
        if self.ram.mmc6_protect & mask == mask {
            self.board.prg_ram[offset] = data;
        }
    }

    /// Clocks the scanline counter, as a qualified PPU A12 edge does.
    pub fn clock_irq_counter(&mut self)
        ensures
            final(self).model() == (Mmc3 {
                irq: irq_clocked(old(self).irq, old(self).variant),
                ..old(self).model()
            }),
    {
        self.irq.clock(self.variant);
    }

    /// A write to one of the eight decoded registers.
    fn write_register(&mut self, register: u16, data: u8)
        requires
            Self::sound(old(self).model()),
        ensures
            final(self).model() == after_register_write(old(self).model(), register, data),
    {
        match register {
            0x8000 => {
                self.banks.select_register(data);
                self.ram.select_mmc6(self.variant, data);
            },
            0x8001 => {
                self.banks.load(data);
            },
            0xa000 => {
                if !self.four_screen && self.variant != Mmc3Variant::HardwiredMirroring {
                    self.mirroring = if data & 1 != 0 {
                        Mirroring::Horizontal
                    } else {
                        Mirroring::Vertical
                    };
                }
            },
            0xa001 => {
                self.ram.protect(self.variant, data);
            },
            _ => {
                self.irq.write_register(register, data);
            },
        }
    }
}

impl Mapper for Mmc3<Vec<u8>, [u8; 8]> {
    type Model = Mmc3<Seq<u8>, Seq<u8>>;

    open spec fn model(&self) -> Mmc3<Seq<u8>, Seq<u8>> {
        Mmc3 {
            board: self.board@,
            variant: self.variant,
            ram: self.ram,
            banks: self.banks@,
            mirroring: self.mirroring,
            initial_mirroring: self.initial_mirroring,
            four_screen: self.four_screen,
            irq: self.irq,
            num_prg_banks: self.num_prg_banks,
            num_chr_banks: self.num_chr_banks,
        }
    }

    open spec fn sound(m: Self::Model) -> bool {
        &&& m.num_prg_banks == bank_count(m.board.prg_rom.len(), 0x2000)
        &&& m.num_chr_banks == bank_count(m.board.chr.len(), 0x400)
        &&& m.banks.select < 8
        &&& m.banks.regs.len() == 8
    }

    open spec fn complete(m: Self::Model) -> bool {
        &&& Self::sound(m)
        &&& m.board.prg_rom.len() >= 0x2000
        &&& m.board.chr.len() >= if m.board.chr_is_ram {
            0x2000int
        } else {
            0x400
        }
        &&& m.mirroring != Mirroring::FourScreen
        &&& m.initial_mirroring != Mirroring::FourScreen
    }

    open spec fn cpu_readable(m: Self::Model, addr: u16) -> bool {
        addr >= 0x8000 ==> prg_bank_of(m, addr) * 0x2000 + addr % 0x2000 < m.board.prg_rom.len()
    }

    open spec fn ppu_accessible(m: Self::Model, addr: u16) -> bool {
        if m.board.chr_is_ram {
            addr < m.board.chr.len()
        } else {
            chr_bank_of(m, addr) * 0x400 + addr % 0x400 < m.board.chr.len()
        }
    }

    open spec fn chr_writable(m: Self::Model) -> bool {
        m.board.chr_is_ram
    }

    open spec fn cpu_value(m: Self::Model, addr: u16) -> u8 {
        if addr >= 0x8000 {
            m.board.prg_rom[prg_bank_of(m, addr) * 0x2000 + addr % 0x2000]
        } else if addr >= 0x6000 {
            prg_ram_value(m, addr)
        } else {
            0
        }
    }

    open spec fn ppu_value(m: Self::Model, addr: u16) -> u8 {
        if m.board.chr_is_ram {
            m.board.chr[addr as int]
        } else {
            m.board.chr[chr_bank_of(m, addr) * 0x400 + addr % 0x400]
        }
    }

    open spec fn mirroring_of(m: Self::Model) -> Mirroring {
        m.mirroring
    }

    open spec fn irq_of(m: Self::Model) -> bool {
        m.irq.line
    }

    open spec fn after_cpu_write(m: Self::Model, addr: u16, data: u8) -> Self::Model {
        if addr >= 0x8000 {
            after_register_write(m, addr & 0xe001, data)
        } else if addr >= 0x6000 {
            Mmc3 { board: Board { prg_ram: prg_ram_after(m, addr, data), ..m.board }, ..m }
        } else {
            m
        }
    }

    open spec fn after_cpu_write_at(
        m: Self::Model,
        addr: u16,
        data: u8,
        cpu_cycle: u64,
    ) -> Self::Model {
        Self::after_cpu_write(m, addr, data)
    }

    open spec fn after_ppu_read(m: Self::Model, addr: u16) -> Self::Model {
        m
    }

    open spec fn after_ppu_write(m: Self::Model, addr: u16, data: u8) -> Self::Model {
        if m.board.chr_is_ram {
            Mmc3 {
                board: Board { chr: m.board.chr.update(addr as int, data), ..m.board },
                ..m
            }
        } else {
            m
        }
    }

    open spec fn after_ppu_bus_access(m: Self::Model, addr: u16, ppu_cycle: u64) -> Self::Model {
        Mmc3 { irq: a12_driven(m.irq, m.variant, addr & 0x1000 != 0, ppu_cycle), ..m }
    }

    open spec fn after_reset(m: Self::Model) -> Self::Model {
        Mmc3 {
            ram: open_gate(),
            banks: cleared_banks(),
            mirroring: m.initial_mirroring,
            irq: idle_irq(),
            ..m
        }
    }

    open spec fn prg_ram_of(m: Self::Model) -> Option<Seq<u8>> {
        if m.board.prg_ram.len() > 0 {
            Some(m.board.prg_ram)
        } else {
            None
        }
    }

    open spec fn chr_ram_of(m: Self::Model) -> Option<Seq<u8>> {
        if m.board.chr_is_ram {
            Some(m.board.chr)
        } else {
            None
        }
    }

    open spec fn with_prg_ram(m: Self::Model, ram: Seq<u8>) -> Self::Model {
        Mmc3 { board: Board { prg_ram: ram, ..m.board }, ..m }
    }

    open spec fn with_chr_ram(m: Self::Model, ram: Seq<u8>) -> Self::Model {
        Mmc3 { board: Board { chr: ram, ..m.board }, ..m }
    }

    proof fn ppu_accesses_keep_mirroring(m: Self::Model, addr: u16, ppu_cycle: u64) {
    }

    proof fn complete_answers(m: Self::Model, addr: u16) {
        if addr >= 0x8000 {
            lemma_banks_fit(
                m.board.prg_rom.len(),
                0x2000,
                prg_bank_of(m, addr),
                (addr % 0x2000) as int,
            );
        }
        if !m.board.chr_is_ram {
            lemma_banks_fit(
                m.board.chr.len(),
                0x400,
                chr_bank_of(m, addr),
                (addr % 0x400) as int,
            );
        }
    }

    fn cpu_read(&mut self, addr: u16) -> (r: u8) {
        if addr >= 0x8000 {
            self.board.prg_rom[self.prg_offset(addr)]
        } else if addr >= 0x6000 {
            self.read_prg_ram(addr)
        } else {
            0
        }
    }

    fn cpu_write(&mut self, addr: u16, data: u8) {
        if addr < 0x6000 {
            return ;
        }
        if addr < 0x8000 {
            self.write_prg_ram(addr, data);
            return ;
        }
        self.write_register(addr & 0xe001, data);
    }

    fn cpu_write_at(&mut self, addr: u16, data: u8, cpu_cycle: u64) {
        self.cpu_write(addr, data);
    }

    fn ppu_read(&mut self, addr: u16) -> (r: u8) {
        if self.board.chr_is_ram {
            return self.board.chr[addr as usize];
        }
        self.board.chr[self.chr_offset(addr)]
    }

    fn ppu_write(&mut self, addr: u16, data: u8) {
        if self.board.chr_is_ram {
            self.board.chr[addr as usize] = data;
        }
    }

    fn mirroring(&self) -> (r: Mirroring) {
        self.mirroring
    }

    fn on_ppu_bus_access(&mut self, addr: u16, ppu_cycle: u64) {
        self.irq.drive_a12(self.variant, addr & 0x1000 != 0, ppu_cycle);
    }

    fn irq_pending(&self) -> (r: bool) {
        self.irq.line
    }

    fn reset(&mut self) {
        self.ram = RamGate::new();
        self.banks = BankRegisters::new();
        self.mirroring = self.initial_mirroring;
        self.irq = ScanlineIrq::new();
    }

    fn prg_ram(&self) -> (r: Option<&[u8]>) {
        self.board.prg_ram_slice()
    }

    fn chr_ram(&self) -> (r: Option<&[u8]>) {
        self.board.chr_ram_slice()
    }

    fn store_prg_ram(&mut self, start: usize, bytes: &[u8]) {
        self.board.store_prg_ram(start, bytes);
    }

    fn store_chr_ram(&mut self, start: usize, bytes: &[u8]) {
        self.board.store_chr_ram(start, bytes);
    }

    fn is_complete(&self) -> (r: bool) {
        self.board.prg_rom.len() >= 0x2000 && self.board.chr.len() >= (if self.board.chr_is_ram {
            0x2000usize
        } else {
            0x400
        }) && self.mirroring != Mirroring::FourScreen && self.initial_mirroring
            != Mirroring::FourScreen
    }

    fn duplicate(&self) -> (r: Self) {
        Mmc3 {
            board: self.board.duplicate(),
            variant: self.variant,
            ram: self.ram,
            banks: self.banks.duplicate(),
            mirroring: self.mirroring,
            initial_mirroring: self.initial_mirroring,
            four_screen: self.four_screen,
            irq: self.irq,
            num_prg_banks: self.num_prg_banks,
            num_chr_banks: self.num_chr_banks,
        }
    }
}

/// The interrupt line is level-triggered: nothing but the disable register and
/// the reset button lowers it.
pub proof fn the_irq_line_holds_until_acknowledged(m: Mmc3Model, addr: u16, data: u8, dot: u64)
    requires
        m.irq.line,
    ensures
        irq_clocked(m.irq, m.variant).line,
        a12_driven(m.irq, m.variant, addr & 0x1000 != 0, dot).line,
        addr & 0xe001 != 0xe000 || addr < 0x8000 ==> Mmc3::<Vec<u8>, [u8; 8]>::after_cpu_write(
            m,
            addr,
            data,
        ).irq.line,
{
}

/// The counter after `n` clocks.
pub open spec fn irq_clocked_times(irq: ScanlineIrq, variant: Mmc3Variant, n: nat) -> ScanlineIrq
    decreases n,
{
    if n == 0 {
        irq
    } else {
        irq_clocked(irq_clocked_times(irq, variant, (n - 1) as nat), variant)
    }
}

/// From a forced reload with a non-zero latch, `n` clocks leave the counter
/// `n - 1` below the latch, and the line rises exactly on clock latch + 1.
pub proof fn the_irq_fires_after_latch_plus_one_clocks(
    irq: ScanlineIrq,
    variant: Mmc3Variant,
    n: nat,
)
    requires
        irq.reload,
        irq.enabled,
        !irq.line,
        irq.latch > 0,
        1 <= n <= irq.latch + 1,
    ensures
        irq_clocked_times(irq, variant, n) == (ScanlineIrq {
            counter: (irq.latch - (n - 1)) as u8,
            line: n == irq.latch + 1,
            reload: false,
            ..irq
        }),
    decreases n,
{
    if n == 1 {
        reveal_with_fuel(irq_clocked_times, 2);
    } else {
        the_irq_fires_after_latch_plus_one_clocks(irq, variant, (n - 1) as nat);
    }
}

} // verus!
