//! Mapper 1 (MMC1 / SxROM). Registers are loaded one bit at a time through a
//! 5-bit serial shift register, mirroring is picked at run time, and both PRG and
//! CHR have switchable bank modes.
//!
//! A write to $8000-$FFFF with bit 7 set clears the shift register (and forces
//! PRG mode 3). Otherwise bit 0 of the value is shifted in; on the fifth write
//! the accumulated 5 bits are copied into one of four internal registers, chosen
//! by address bits 14-13:
//!   $8000-$9FFF Control   (mirroring, PRG mode, CHR mode)
//!   $A000-$BFFF CHR bank 0
//!   $C000-$DFFF CHR bank 1
//!   $E000-$FFFF PRG bank
//!
//! The common SxROM behaviour is covered, including the SUROM/SXROM high PRG
//! address bit and SOROM/SXROM PRG RAM banking. CHR is 4 KB-banked ROM, or a flat
//! CHR RAM when the cartridge ships no CHR ROM.

use super::board::{
    bank_count, count_banks, lemma_banks_fit, zeroed, zeroes, Board,
};
use super::Mapper;
use crate::cartridge::{Mirroring, Rom};
use vstd::prelude::*;

verus! {

pub struct Mmc1<T = Vec<u8>> {
    pub board: Board<T>,
    // serial load register; sentinel bit marks the 5th write
    pub shift: u8,
    // mirroring (0-1), PRG mode (2-3), CHR mode (4)
    pub control: u8,
    // 4 KB CHR bank at $0000 (low bit ignored in 8 KB mode)
    pub chr_bank0: u8,
    // 4 KB CHR bank at $1000 (used only in 4 KB mode)
    pub chr_bank1: u8,
    // low 4 bits: PRG bank; bit 4: PRG RAM disable
    pub prg_bank: u8,
    pub last_serial_write_cycle: Option<u64>,
    // in 16 KB units
    pub num_prg_banks: usize,
    // in 4 KB units
    pub num_chr_banks: usize,
}

// The shift register starts with a 1 in bit 4; after four right-shifts that 1
// reaches bit 0, so seeing it there means the incoming write is the fifth.
pub const SHIFT_RESET: u8 = 0x10;

/// The model of a board fresh from `rom`: PRG mode 3 (fixed last bank at
/// $C000, the mode the reset vector relies on), everything else zero.
pub open spec fn mmc1_of(rom: Rom) -> Mmc1<Seq<u8>> {
    let chr = if rom.chr_rom@.len() == 0 {
        zeroes(rom.memory.chr.size as nat)
    } else {
        rom.chr_rom@
    };
    Mmc1 {
        board: Board {
            prg_rom: rom.prg_rom@,
            chr,
            chr_is_ram: rom.chr_rom@.len() == 0,
            prg_ram: zeroes(rom.memory.prg_ram.size as nat),
        },
        shift: SHIFT_RESET,
        control: 0x0c,
        chr_bank0: 0,
        chr_bank1: 0,
        prg_bank: 0,
        last_serial_write_cycle: None,
        num_prg_banks: bank_count(rom.prg_rom@.len(), 0x4000) as usize,
        num_chr_banks: bank_count(chr.len(), 0x1000) as usize,
    }
}

pub open spec fn prg_mode_of(m: Mmc1<Seq<u8>>) -> u8 {
    (m.control >> 2) & 3
}

pub open spec fn chr_mode_of(m: Mmc1<Seq<u8>>) -> u8 {
    (m.control >> 4) & 1
}

/// First 16 KB bank of the selected 256 KB region: on boards larger than
/// that, bit 4 of CHR bank 0 is wired to PRG A18.
pub open spec fn prg_region_start(m: Mmc1<Seq<u8>>) -> int {
    if m.num_prg_banks > 16 {
        (m.chr_bank0 as int / 16) % 2 * 16
    } else {
        0
    }
}

/// The 16 KB PRG bank behind $8000 or, `upper`, $C000. Fixed banks are fixed
/// within the selected region.
pub open spec fn prg_bank_of(m: Mmc1<Seq<u8>>, upper: bool) -> int {
    let start = prg_region_start(m);
    let size = if m.num_prg_banks - start < 16 {
        m.num_prg_banks - start
    } else {
        16
    };
    let chosen = m.prg_bank as int % 16;
    let bank = if prg_mode_of(m) == 0 || prg_mode_of(m) == 1 {
        start + chosen / 2 * 2 + if upper { 1int } else { 0 }
    } else if prg_mode_of(m) == 2 {
        start + if upper { chosen } else { 0 }
    } else {
        start + if upper { size - 1 } else { chosen }
    };
    bank % (m.num_prg_banks as int)
}

/// The 4 KB CHR bank behind $0000 or, `upper`, $1000.
pub open spec fn chr_bank_of(m: Mmc1<Seq<u8>>, upper: bool) -> int {
    let bank = if chr_mode_of(m) == 0 {
        m.chr_bank0 as int / 2 * 2 + if upper { 1int } else { 0 }
    } else if upper {
        m.chr_bank1 as int
    } else {
        m.chr_bank0 as int
    };
    bank % (m.num_chr_banks as int)
}

/// Where `addr` ($6000-$7FFF) lands in PRG RAM: an 8 KB bank chosen by CHR
/// bank 0, or nowhere while the RAM is disabled, absent or too small.
pub open spec fn prg_ram_index(m: Mmc1<Seq<u8>>, addr: u16) -> Option<int> {
    let len = m.board.prg_ram.len() as int;
    if m.prg_bank & 0x10 != 0 || len == 0 {
        None
    } else {
        let banks = (len + 0x1fff) / 0x2000;
        let offset = (m.chr_bank0 as int / 4) % 4 % banks * 0x2000 + (addr - 0x6000);
        if offset < len {
            Some(offset)
        } else {
            None
        }
    }
}

/// A completed 5-bit value copied into the register selected by address.
pub open spec fn with_register(m: Mmc1<Seq<u8>>, addr: u16, value: u8) -> Mmc1<Seq<u8>> {
    let selector = addr / 0x2000 % 4;
    if selector == 0 {
        Mmc1 { control: value, ..m }
    } else if selector == 1 {
        Mmc1 { chr_bank0: value, ..m }
    } else if selector == 2 {
        Mmc1 { chr_bank1: value, ..m }
    } else {
        Mmc1 { prg_bank: value, ..m }
    }
}

/// One write to the serial port.
pub open spec fn after_serial(m: Mmc1<Seq<u8>>, addr: u16, data: u8) -> Mmc1<Seq<u8>> {
    let shifted = (m.shift >> 1) | ((data & 1) << 4);
    if data & 0x80 != 0 {
        Mmc1 { shift: SHIFT_RESET, control: m.control | 0x0c, ..m }
    } else if m.shift & 1 == 1 {
        with_register(Mmc1 { shift: SHIFT_RESET, ..m }, addr, shifted & 0x1f)
    } else {
        Mmc1 { shift: shifted, ..m }
    }
}

impl Mmc1 {
    pub fn from_rom(rom: Rom) -> (r: Self)
        ensures
            r.model() == mmc1_of(rom),
            Self::sound(r.model()),
    {
        let chr_is_ram = rom.chr_rom.len() == 0;
        let prg_ram = zeroed(rom.memory.prg_ram.size);
        let chr = if chr_is_ram {
            zeroed(rom.memory.chr.size)
        } else {
            rom.chr_rom
        };
        let num_prg_banks = count_banks(rom.prg_rom.len(), 0x4000);
        let num_chr_banks = count_banks(chr.len(), 0x1000);
        Mmc1 {
            board: Board { prg_rom: rom.prg_rom, chr, chr_is_ram, prg_ram },
            shift: SHIFT_RESET,
            control: 0x0c,
            chr_bank0: 0,
            chr_bank1: 0,
            prg_bank: 0,
            last_serial_write_cycle: None,
            num_prg_banks,
            num_chr_banks,
        }
    }

    pub fn prg_mode(&self) -> (r: u8)
        ensures
            r == prg_mode_of(self.model()),
    {
        (self.control >> 2) & 3
    }

    pub fn chr_mode(&self) -> (r: u8)
        ensures
            r == chr_mode_of(self.model()),
    {
        (self.control >> 4) & 1
    }

    /// Byte offset into PRG ROM for the $8000 half or the $C000 half (`upper`)
    /// of the window, per the current PRG bank mode.
    fn prg_base(&self, upper: bool) -> (r: usize)
        requires
            Self::sound(self.model()),
        ensures
            r == prg_bank_of(self.model(), upper) * 0x4000,
            0 <= prg_bank_of(self.model(), upper) < self.num_prg_banks,
    {
        let outer: usize = if self.num_prg_banks > 16 {
            (self.chr_bank0 / 16 % 2) as usize * 16
        } else {
            0
        };
        let region_banks: usize = if self.num_prg_banks - outer < 16 {
            self.num_prg_banks - outer
        } else {
            16
        };
        let chosen: usize = (self.prg_bank % 16) as usize;
        let mode: u8 = self.prg_mode();
        let bank: usize = match mode {
            // 0/1: switch a full 32 KB bank at $8000 (low bit ignored).
            0 | 1 => outer + chosen / 2 * 2 + if upper {
                1usize
            } else {
                0
            },
            // 2: fix the first bank at $8000, switch 16 KB at $C000.
            2 => outer + if upper {
                chosen
            } else {
                0
            },
            // 3: switch 16 KB at $8000, fix the last bank at $C000.
            _ => outer + if upper {
                region_banks - 1
            } else {
                chosen
            },
        };
        let len = self.board.prg_rom.len();
        let banked: usize = bank % self.num_prg_banks;
        proof {
            if len >= 0x4000 {
                lemma_banks_fit(len as nat, 0x4000, banked as int, 0);
            }
        }
        banked * 0x4000
    }

    /// Byte offset into CHR ROM for the $0000 half or the $1000 half
    /// (`upper`), per the current CHR bank mode.
    fn chr_base(&self, upper: bool) -> (r: usize)
        requires
            Self::sound(self.model()),
        ensures
            r == chr_bank_of(self.model(), upper) * 0x1000,
            0 <= chr_bank_of(self.model(), upper) < self.num_chr_banks,
    {
        let bank: usize = if self.chr_mode() == 0 {
            // 8 KB mode: one bank ignoring its low bit.
            (self.chr_bank0 / 2) as usize * 2 + if upper {
                1usize
            } else {
                0
            }
        } else if upper {
            self.chr_bank1 as usize
        } else {
            self.chr_bank0 as usize
        };
        let len = self.board.chr.len();
        let banked: usize = bank % self.num_chr_banks;
        proof {
            if len >= 0x1000 {
                lemma_banks_fit(len as nat, 0x1000, banked as int, 0);
            }
        }
        banked * 0x1000
    }

    /// Copies a completed 5-bit value into the register selected by address.
    fn write_register(&mut self, addr: u16, value: u8)
        ensures
            final(self).model() == with_register(old(self).model(), addr, value & 0x1f),
    {
        let selector: u16 = addr / 0x2000 % 4;
        match selector {
            0 => {
                self.control = value & 0x1f;
            },
            1 => {
                self.chr_bank0 = value & 0x1f;
            },
            2 => {
                self.chr_bank1 = value & 0x1f;
            },
            _ => {
                self.prg_bank = value & 0x1f;
            },
        }
    }

    fn prg_ram_enabled(&self) -> (r: bool)
        ensures
            r == (self.prg_bank & 0x10 == 0),
    {
        self.prg_bank & 0x10 == 0
    }

    fn prg_ram_offset(&self, addr: u16) -> (r: Option<usize>)
        requires
            0x6000 <= addr < 0x8000,
        ensures
            match r {
                Some(offset) => prg_ram_index(self.model(), addr) == Some(offset as int) && offset
                    < self.board.prg_ram@.len(),
                None => prg_ram_index(self.model(), addr) is None,
            },
    {
        let len = self.board.prg_ram.len();
        if !self.prg_ram_enabled() || len == 0 {
            return None;
        }
        let banks: usize = len / 0x2000 + if len % 0x2000 != 0 {
            1usize
        } else {
            0
        };
        let bank: usize = (self.chr_bank0 / 4 % 4) as usize % banks;
        let offset: usize = bank * 0x2000 + (addr - 0x6000) as usize;
        if offset < len {
            Some(offset)
        } else {
            None
        }
    }

    fn write_serial(&mut self, addr: u16, data: u8)
        ensures
            final(self).model() == after_serial(old(self).model(), addr, data),
    {
        if data & 0x80 != 0 {
            self.shift = SHIFT_RESET;
            self.control = self.control | 0x0c;
        } else {
            let complete = self.shift & 1 == 1;
            self.shift = (self.shift >> 1) | ((data & 1) << 4);
            if complete {
                let value: u8 = self.shift;
                self.write_register(addr, value);
                self.shift = SHIFT_RESET;
            }
        }
    }
}

impl Mapper for Mmc1<Vec<u8>> {
    type Model = Mmc1<Seq<u8>>;

    open spec fn model(&self) -> Mmc1<Seq<u8>> {
        Mmc1 {
            board: self.board@,
            shift: self.shift,
            control: self.control,
            chr_bank0: self.chr_bank0,
            chr_bank1: self.chr_bank1,
            prg_bank: self.prg_bank,
            last_serial_write_cycle: self.last_serial_write_cycle,
            num_prg_banks: self.num_prg_banks,
            num_chr_banks: self.num_chr_banks,
        }
    }

    open spec fn sound(m: Self::Model) -> bool {
        &&& m.num_prg_banks == bank_count(m.board.prg_rom.len(), 0x4000)
        &&& m.num_chr_banks == bank_count(m.board.chr.len(), 0x1000)
    }

    open spec fn complete(m: Self::Model) -> bool {
        &&& Self::sound(m)
        &&& m.board.prg_rom.len() >= 0x4000
        &&& m.board.chr.len() >= if m.board.chr_is_ram {
            0x2000int
        } else {
            0x1000
        }
    }

    open spec fn cpu_readable(m: Self::Model, addr: u16) -> bool {
        addr >= 0x8000 ==> prg_bank_of(m, addr >= 0xc000) * 0x4000 + addr % 0x4000
            < m.board.prg_rom.len()
    }

    open spec fn ppu_accessible(m: Self::Model, addr: u16) -> bool {
        if m.board.chr_is_ram {
            addr < m.board.chr.len()
        } else {
            chr_bank_of(m, addr >= 0x1000) * 0x1000 + addr % 0x1000 < m.board.chr.len()
        }
    }

    open spec fn chr_writable(m: Self::Model) -> bool {
        m.board.chr_is_ram
    }

    open spec fn cpu_value(m: Self::Model, addr: u16) -> u8 {
        if addr >= 0x8000 {
            m.board.prg_rom[prg_bank_of(m, addr >= 0xc000) * 0x4000 + addr % 0x4000]
        } else if addr >= 0x6000 {
            match prg_ram_index(m, addr) {
                Some(i) => m.board.prg_ram[i],
                None => 0,
            }
        } else {
            0
        }
    }

    open spec fn ppu_value(m: Self::Model, addr: u16) -> u8 {
        if m.board.chr_is_ram {
            m.board.chr[addr as int]
        } else {
            m.board.chr[chr_bank_of(m, addr >= 0x1000) * 0x1000 + addr % 0x1000]
        }
    }

    open spec fn mirroring_of(m: Self::Model) -> Mirroring {
        if m.control & 3 == 0 {
            Mirroring::SingleScreenLower
        } else if m.control & 3 == 1 {
            Mirroring::SingleScreenUpper
        } else if m.control & 3 == 2 {
            Mirroring::Vertical
        } else {
            Mirroring::Horizontal
        }
    }

    open spec fn irq_of(m: Self::Model) -> bool {
        false
    }

    open spec fn after_cpu_write(m: Self::Model, addr: u16, data: u8) -> Self::Model {
        if addr >= 0x8000 {
            after_serial(m, addr, data)
        } else if addr >= 0x6000 {
            match prg_ram_index(m, addr) {
                Some(i) => Mmc1 {
                    board: Board { prg_ram: m.board.prg_ram.update(i, data), ..m.board },
                    ..m
                },
                None => m,
            }
        } else {
            m
        }
    }

    open spec fn after_cpu_write_at(
        m: Self::Model,
        addr: u16,
        data: u8,
        cpu_cycle: u64,
    ) -> Self::Model {
        let before = if cpu_cycle == 0 {
            0
        } else {
            (cpu_cycle - 1) as u64
        };
        let stamped = Mmc1 { last_serial_write_cycle: Some(cpu_cycle), ..m };
        if addr < 0x8000 {
            Self::after_cpu_write(m, addr, data)
        } else if data & 0x80 == 0 && m.last_serial_write_cycle == Some(before) {
            stamped
        } else {
            after_serial(stamped, addr, data)
        }
    }

    open spec fn after_ppu_read(m: Self::Model, addr: u16) -> Self::Model {
        m
    }

    open spec fn after_ppu_write(m: Self::Model, addr: u16, data: u8) -> Self::Model {
        if m.board.chr_is_ram {
            Mmc1 {
                board: Board { chr: m.board.chr.update(addr as int, data), ..m.board },
                ..m
            }
        } else {
            m
        }
    }

    open spec fn after_ppu_bus_access(m: Self::Model, addr: u16, ppu_cycle: u64) -> Self::Model {
        m
    }

    open spec fn after_reset(m: Self::Model) -> Self::Model {
        Mmc1 { shift: SHIFT_RESET, control: m.control | 0x0c, last_serial_write_cycle: None, ..m }
    }

    open spec fn prg_ram_of(m: Self::Model) -> Option<Seq<u8>> {
        if m.board.prg_ram.len() > 0 {
            Some(m.board.prg_ram)
        } else {
            None
        }
    }

    open spec fn chr_ram_of(m: Self::Model) -> Option<Seq<u8>> {
        if m.board.chr_is_ram {
            Some(m.board.chr)
        } else {
            None
        }
    }

    open spec fn with_prg_ram(m: Self::Model, ram: Seq<u8>) -> Self::Model {
        Mmc1 { board: Board { prg_ram: ram, ..m.board }, ..m }
    }

    open spec fn with_chr_ram(m: Self::Model, ram: Seq<u8>) -> Self::Model {
        Mmc1 { board: Board { chr: ram, ..m.board }, ..m }
    }

    proof fn ppu_accesses_keep_mirroring(m: Self::Model, addr: u16, ppu_cycle: u64) {
    }

    proof fn complete_answers(m: Self::Model, addr: u16) {
        let prg = prg_bank_of(m, addr >= 0xc000);
        let chr = chr_bank_of(m, addr >= 0x1000);
        assert(m.num_prg_banks > 0 && m.num_chr_banks > 0);
        lemma_banks_fit(m.board.prg_rom.len(), 0x4000, prg, (addr % 0x4000) as int);
        lemma_banks_fit(m.board.chr.len(), 0x1000, chr, (addr % 0x1000) as int);
    }

    fn cpu_read(&mut self, addr: u16) -> (r: u8) {
        if addr >= 0x8000 {
            let len = self.board.prg_rom.len();
            let base: usize = self.prg_base(addr >= 0xc000);
            self.board.prg_rom[base + (addr % 0x4000) as usize]
        } else if addr >= 0x6000 {
            match self.prg_ram_offset(addr) {
                Some(offset) => self.board.prg_ram[offset],
                None => 0,
            }
        } else {
            0
        }
    }

    fn cpu_write(&mut self, addr: u16, data: u8) {
        if addr >= 0x8000 {
            self.write_serial(addr, data);
        } else if addr >= 0x6000 {
            if let Some(offset) = self.prg_ram_offset(addr) {
                self.board.prg_ram[offset] = data;
            }
        }
    }

    fn cpu_write_at(&mut self, addr: u16, data: u8, cpu_cycle: u64) {
        if addr < 0x8000 {
            self.cpu_write(addr, data);
            return ;
        }
        let before: u64 = cpu_cycle.saturating_sub(1);
        let adjacent = match self.last_serial_write_cycle {
            Some(last) => last == before,
            None => false,
        };
        self.last_serial_write_cycle = Some(cpu_cycle);
        // Bit-7 reset writes are always honored; only serial data writes are
        // suppressed on the second cycle of a read-modify-write sequence.
        if data & 0x80 != 0 || !adjacent {
            self.write_serial(addr, data);
        }
    }

    fn ppu_read(&mut self, addr: u16) -> (r: u8) {
        if self.board.chr_is_ram {
            return self.board.chr[addr as usize];
        }
        let len = self.board.chr.len();
        let base: usize = self.chr_base(addr >= 0x1000);
        self.board.chr[base + (addr % 0x1000) as usize]
    }

    fn ppu_write(&mut self, addr: u16, data: u8) {
        if self.board.chr_is_ram {
            self.board.chr[addr as usize] = data;
        }
    }

    fn mirroring(&self) -> (r: Mirroring) {
        match self.control & 3 {
            0 => Mirroring::SingleScreenLower,
            1 => Mirroring::SingleScreenUpper,
            2 => Mirroring::Vertical,
            _ => Mirroring::Horizontal,
        }
    }

    fn on_ppu_bus_access(&mut self, addr: u16, ppu_cycle: u64) {
    }

    fn irq_pending(&self) -> (r: bool) {
        false
    }

    fn reset(&mut self) {
        self.shift = SHIFT_RESET;
        self.control = self.control | 0x0c;
        self.last_serial_write_cycle = None;
    }

    fn prg_ram(&self) -> (r: Option<&[u8]>) {
        self.board.prg_ram_slice()
    }

    fn chr_ram(&self) -> (r: Option<&[u8]>) {
        self.board.chr_ram_slice()
    }

    fn store_prg_ram(&mut self, start: usize, bytes: &[u8]) {
        self.board.store_prg_ram(start, bytes);
    }

    fn store_chr_ram(&mut self, start: usize, bytes: &[u8]) {
        self.board.store_chr_ram(start, bytes);
    }

    fn is_complete(&self) -> (r: bool) {
        self.board.prg_rom.len() >= 0x4000 && self.board.chr.len() >= if self.board.chr_is_ram {
            0x2000usize
        } else {
            0x1000
        }
    }

    fn duplicate(&self) -> (r: Self) {
        Mmc1 {
            board: self.board.duplicate(),
            shift: self.shift,
            control: self.control,
            chr_bank0: self.chr_bank0,
            chr_bank1: self.chr_bank1,
            prg_bank: self.prg_bank,
            last_serial_write_cycle: self.last_serial_write_cycle,
            num_prg_banks: self.num_prg_banks,
            num_chr_banks: self.num_chr_banks,
        }
    }
}

/// The serial port after the first `n` of the five bits of `value`, written
/// least significant bit first at the addresses of `addrs`.
pub open spec fn after_bits(m: Mmc1<Seq<u8>>, addrs: Seq<u16>, value: u8, n: nat) -> Mmc1<Seq<u8>>
    decreases n,
{
    if n == 0 {
        m
    } else {
        after_serial(
            after_bits(m, addrs, value, (n - 1) as nat),
            addrs[n - 1],
            (value >> ((n - 1) as u8)) & 1,
        )
    }
}

/// A register takes five writes to load: the first four reach nothing but the
/// shift register, and the fifth stores the whole value in the register that
/// the fifth address selects.
pub proof fn a_register_takes_five_writes(m: Mmc1<Seq<u8>>, addrs: Seq<u16>, value: u8, n: nat)
    requires
        m.shift == SHIFT_RESET,
        value < 32,
        n < 5,
    ensures
        after_bits(m, addrs, value, n) == (Mmc1 {
            shift: after_bits(m, addrs, value, n).shift,
            ..m
        }),
        after_bits(m, addrs, value, 5) == with_register(m, addrs[4], value),
{
    let b0 = (value >> 0u8) & 1;
    let b1 = (value >> 1u8) & 1;
    let b2 = (value >> 2u8) & 1;
    let b3 = (value >> 3u8) & 1;
    let b4 = (value >> 4u8) & 1;
    let s0: u8 = 0x10;
    let s1 = (s0 >> 1) | ((b0 & 1) << 4);
    let s2 = (s1 >> 1) | ((b1 & 1) << 4);
    let s3 = (s2 >> 1) | ((b2 & 1) << 4);
    let s4 = (s3 >> 1) | ((b3 & 1) << 4);
    let s5 = (s4 >> 1) | ((b4 & 1) << 4);
    assert(s0 & 1 != 1 && s1 & 1 != 1 && s2 & 1 != 1 && s3 & 1 != 1 && s4 & 1 == 1 && s5 & 0x1f
        == value && b0 & 0x80 == 0 && b1 & 0x80 == 0 && b2 & 0x80 == 0 && b3 & 0x80 == 0 && b4
        & 0x80 == 0) by (bit_vector)
        requires
            value < 32,
            b0 == (value >> 0u8) & 1,
            b1 == (value >> 1u8) & 1,
            b2 == (value >> 2u8) & 1,
            b3 == (value >> 3u8) & 1,
            b4 == (value >> 4u8) & 1,
            s0 == 0x10,
            s1 == (s0 >> 1) | ((b0 & 1) << 4),
            s2 == (s1 >> 1) | ((b1 & 1) << 4),
            s3 == (s2 >> 1) | ((b2 & 1) << 4),
            s4 == (s3 >> 1) | ((b3 & 1) << 4),
            s5 == (s4 >> 1) | ((b4 & 1) << 4),
    ;
    reveal_with_fuel(after_bits, 6);
    let m1 = after_bits(m, addrs, value, 1);
    let m2 = after_bits(m, addrs, value, 2);
    let m3 = after_bits(m, addrs, value, 3);
    let m4 = after_bits(m, addrs, value, 4);
    assert(m1 == (Mmc1 { shift: s1, ..m }));
    assert(m2 == (Mmc1 { shift: s2, ..m }));
    assert(m3 == (Mmc1 { shift: s3, ..m }));
    assert(m4 == (Mmc1 { shift: s4, ..m }));
}

/// Writing bit 7 always returns the port to its idle state in PRG mode 3.
pub proof fn a_reset_write_restores_prg_mode_three(m: Mmc1<Seq<u8>>, addr: u16, data: u8)
    requires
        data & 0x80 != 0,
    ensures
        after_serial(m, addr, data).shift == SHIFT_RESET,
        prg_mode_of(after_serial(m, addr, data)) == 3,
{
    let control = m.control;
    assert(((control | 0x0c) >> 2) & 3 == 3) by (bit_vector);
}

/// Of two writes on adjacent cycles the port takes only the first, unless the
/// second is a reset, which is always honoured.
pub proof fn an_adjacent_serial_write_is_lost(
    m: Mmc1<Seq<u8>>,
    addr: u16,
    data: u8,
    now: u64,
)
    requires
        addr >= 0x8000,
        now < u64::MAX,
        m.last_serial_write_cycle == Some(now),
    ensures
        ({
            let next = (now + 1) as u64;
            let after = Mmc1::<Vec<u8>>::after_cpu_write_at(m, addr, data, next);
            let stamped = Mmc1 { last_serial_write_cycle: Some(next), ..m };
            after == if data & 0x80 == 0 {
                stamped
            } else {
                after_serial(stamped, addr, data)
            }
        }),
{
}

} // verus!
