//! Mapper 9 (MMC2 / PxROM). PRG exposes one switchable 8 KB bank followed by the
//! final three fixed banks. Each 4 KB CHR window has an FD/FE pair selected by a
//! latch that changes only after the PPU reads a trigger address, so the trigger
//! tile itself uses the old bank.

use super::board::{
    bank_count, count_banks, lemma_banks_fit, ram_after, ram_value, zeroed, zeroes, Board,
};
use super::Mapper;
use crate::cartridge::{Mirroring, Rom};
use vstd::prelude::*;

verus! {

#[derive(Clone, Copy, Debug, PartialEq, Eq, Structural)]
pub enum Latch {
    Fd,
    Fe,
}

pub struct Mmc2<T = Vec<u8>> {
    pub board: Board<T>,
    pub prg_bank: usize,
    pub chr_fd_0000: usize,
    pub chr_fe_0000: usize,
    pub chr_fd_1000: usize,
    pub chr_fe_1000: usize,
    pub latch_0000: Latch,
    pub latch_1000: Latch,
    pub mirroring: Mirroring,
    pub num_prg_banks: usize,
    pub num_chr_banks: usize,
}

/// The model of a board fresh from `rom`. MMC2 has no guaranteed power-on
/// register state; both latches start at FE and every bank at zero.
pub open spec fn mmc2_of(rom: Rom) -> Mmc2<Seq<u8>> {
    let chr = if rom.chr_rom@.len() == 0 {
        zeroes(
            if rom.memory.chr.size < 0x2000 {
                0x2000
            } else {
                rom.memory.chr.size as nat
            },
        )
    } else {
        rom.chr_rom@
    };
    Mmc2 {
        board: Board {
            prg_rom: rom.prg_rom@,
            chr,
            chr_is_ram: rom.chr_rom@.len() == 0,
            prg_ram: zeroes(rom.memory.prg_ram.size as nat),
        },
        prg_bank: 0,
        chr_fd_0000: 0,
        chr_fe_0000: 0,
        chr_fd_1000: 0,
        chr_fe_1000: 0,
        latch_0000: Latch::Fe,
        latch_1000: Latch::Fe,
        mirroring: rom.screen_mirroring,
        num_prg_banks: bank_count(rom.prg_rom@.len(), 0x2000) as usize,
        num_chr_banks: bank_count(chr.len(), 0x1000) as usize,
    }
}

/// The 8 KB PRG bank behind `addr` ($8000-$FFFF).
pub open spec fn prg_bank_of(m: Mmc2<Seq<u8>>, addr: u16) -> int {
    let window = (addr - 0x8000) / 0x2000;
    let bank = if window == 0 {
        m.prg_bank as int
    } else if m.num_prg_banks < 4 - window {
        0
    } else {
        m.num_prg_banks - (4 - window)
    };
    bank % (m.num_prg_banks as int)
}

/// The 4 KB CHR bank behind `addr`, as the latch of its window selects it.
pub open spec fn chr_bank_of(m: Mmc2<Seq<u8>>, addr: u16) -> int {
    let bank = if addr < 0x1000 {
        match m.latch_0000 {
            Latch::Fd => m.chr_fd_0000,
            Latch::Fe => m.chr_fe_0000,
        }
    } else {
        match m.latch_1000 {
            Latch::Fd => m.chr_fd_1000,
            Latch::Fe => m.chr_fe_1000,
        }
    };
    bank as int % (m.num_chr_banks as int)
}

impl Mmc2 {
    pub fn from_rom(rom: Rom) -> (r: Self)
        ensures
            r.model() == mmc2_of(rom),
            Self::sound(r.model()),
    {
        let chr_is_ram = rom.chr_rom.len() == 0;
        let prg_ram = zeroed(rom.memory.prg_ram.size);
        let chr = if chr_is_ram {
            zeroed(
                if rom.memory.chr.size < 0x2000 {
                    0x2000
                } else {
                    rom.memory.chr.size
                },
            )
        } else {
            rom.chr_rom
        };
        let num_prg_banks = count_banks(rom.prg_rom.len(), 0x2000);
        let num_chr_banks = count_banks(chr.len(), 0x1000);
        Mmc2 {
            board: Board { prg_rom: rom.prg_rom, chr, chr_is_ram, prg_ram },
            prg_bank: 0,
            chr_fd_0000: 0,
            chr_fe_0000: 0,
            chr_fd_1000: 0,
            chr_fe_1000: 0,
            latch_0000: Latch::Fe,
            latch_1000: Latch::Fe,
            mirroring: rom.screen_mirroring,
            num_prg_banks,
            num_chr_banks,
        }
    }

    fn prg_offset(&self, addr: u16) -> (r: usize)
        requires
            addr >= 0x8000,
            Self::sound(self.model()),
            Self::cpu_readable(self.model(), addr),
        ensures
            r == prg_bank_of(self.model(), addr) * 0x2000 + addr % 0x2000,
    {
        let len = self.board.prg_rom.len();
        let window: usize = ((addr - 0x8000) / 0x2000) as usize;
        let bank: usize = if window == 0 {
            self.prg_bank
        } else {
            self.num_prg_banks.saturating_sub(4 - window)
        };
        bank % self.num_prg_banks * 0x2000 + (addr % 0x2000) as usize
    }

    fn chr_offset(&self, addr: u16) -> (r: usize)
        requires
            Self::sound(self.model()),
            Self::ppu_accessible(self.model(), addr),
        ensures
            r == chr_bank_of(self.model(), addr) * 0x1000 + addr % 0x1000,
    {
        let len = self.board.chr.len();
        let bank: usize = if addr < 0x1000 {
            match self.latch_0000 {
                Latch::Fd => self.chr_fd_0000,
                Latch::Fe => self.chr_fe_0000,
            }
        } else {
            match self.latch_1000 {
                Latch::Fd => self.chr_fd_1000,
                Latch::Fe => self.chr_fe_1000,
            }
        };
        bank % self.num_chr_banks * 0x1000 + (addr % 0x1000) as usize
    }

    fn update_latch_after_read(&mut self, addr: u16)
        ensures
            final(self).model() == Self::after_ppu_read(old(self).model(), addr),
    {
        if addr == 0x0fd8 {
            self.latch_0000 = Latch::Fd;
        } else if addr == 0x0fe8 {
            self.latch_0000 = Latch::Fe;
        } else if 0x1fd8 <= addr && addr <= 0x1fdf {
            self.latch_1000 = Latch::Fd;
        } else if 0x1fe8 <= addr && addr <= 0x1fef {
            self.latch_1000 = Latch::Fe;
        }
    }
}

impl Mapper for Mmc2<Vec<u8>> {
    type Model = Mmc2<Seq<u8>>;

    open spec fn model(&self) -> Mmc2<Seq<u8>> {
        Mmc2 {
            board: self.board@,
            prg_bank: self.prg_bank,
            chr_fd_0000: self.chr_fd_0000,
            chr_fe_0000: self.chr_fe_0000,
            chr_fd_1000: self.chr_fd_1000,
            chr_fe_1000: self.chr_fe_1000,
            latch_0000: self.latch_0000,
            latch_1000: self.latch_1000,
            mirroring: self.mirroring,
            num_prg_banks: self.num_prg_banks,
            num_chr_banks: self.num_chr_banks,
        }
    }

    open spec fn sound(m: Self::Model) -> bool {
        &&& m.num_prg_banks == bank_count(m.board.prg_rom.len(), 0x2000)
        &&& m.num_chr_banks == bank_count(m.board.chr.len(), 0x1000)
    }

    open spec fn complete(m: Self::Model) -> bool {
        &&& Self::sound(m)
        &&& m.board.prg_rom.len() >= 0x2000
        &&& m.board.chr.len() >= 0x1000
        &&& m.mirroring != Mirroring::FourScreen
    }

    open spec fn cpu_readable(m: Self::Model, addr: u16) -> bool {
        addr >= 0x8000 ==> prg_bank_of(m, addr) * 0x2000 + addr % 0x2000 < m.board.prg_rom.len()
    }

    open spec fn ppu_accessible(m: Self::Model, addr: u16) -> bool {
        chr_bank_of(m, addr) * 0x1000 + addr % 0x1000 < m.board.chr.len()
    }

    open spec fn chr_writable(m: Self::Model) -> bool {
        m.board.chr_is_ram
    }

    open spec fn cpu_value(m: Self::Model, addr: u16) -> u8 {
        if addr >= 0x8000 {
            m.board.prg_rom[prg_bank_of(m, addr) * 0x2000 + addr % 0x2000]
        } else if addr >= 0x6000 {
            ram_value(m.board.prg_ram, addr)
        } else {
            0
        }
    }

    open spec fn ppu_value(m: Self::Model, addr: u16) -> u8 {
        m.board.chr[chr_bank_of(m, addr) * 0x1000 + addr % 0x1000]
    }

    open spec fn mirroring_of(m: Self::Model) -> Mirroring {
        m.mirroring
    }

    open spec fn irq_of(m: Self::Model) -> bool {
        false
    }

    open spec fn after_cpu_write(m: Self::Model, addr: u16, data: u8) -> Self::Model {
        if addr >= 0xf000 {
            Mmc2 {
                mirroring: if data & 1 == 0 {
                    Mirroring::Vertical
                } else {
                    Mirroring::Horizontal
                },
                ..m
            }
        } else if addr >= 0xe000 {
            Mmc2 { chr_fe_1000: data as usize & 0x1f, ..m }
        } else if addr >= 0xd000 {
            Mmc2 { chr_fd_1000: data as usize & 0x1f, ..m }
        } else if addr >= 0xc000 {
            Mmc2 { chr_fe_0000: data as usize & 0x1f, ..m }
        } else if addr >= 0xb000 {
            Mmc2 { chr_fd_0000: data as usize & 0x1f, ..m }
        } else if addr >= 0xa000 {
            Mmc2 { prg_bank: ((data as usize & 0x0f) % m.num_prg_banks) as usize, ..m }
        } else if 0x6000 <= addr < 0x8000 {
            Mmc2 {
                board: Board { prg_ram: ram_after(m.board.prg_ram, addr, data), ..m.board },
                ..m
            }
        } else {
            m
        }
    }

    open spec fn after_cpu_write_at(
        m: Self::Model,
        addr: u16,
        data: u8,
        cpu_cycle: u64,
    ) -> Self::Model {
        Self::after_cpu_write(m, addr, data)
    }

    open spec fn after_ppu_read(m: Self::Model, addr: u16) -> Self::Model {
        if addr == 0x0fd8 {
            Mmc2 { latch_0000: Latch::Fd, ..m }
        } else if addr == 0x0fe8 {
            Mmc2 { latch_0000: Latch::Fe, ..m }
        } else if 0x1fd8 <= addr <= 0x1fdf {
            Mmc2 { latch_1000: Latch::Fd, ..m }
        } else if 0x1fe8 <= addr <= 0x1fef {
            Mmc2 { latch_1000: Latch::Fe, ..m }
        } else {
            m
        }
    }

    open spec fn after_ppu_write(m: Self::Model, addr: u16, data: u8) -> Self::Model {
        if m.board.chr_is_ram {
            Mmc2 {
                board: Board { chr: m.board.chr.update(chr_bank_of(m, addr) * 0x1000 + addr % 0x1000, data), ..m.board },
                ..m
            }
        } else {
            m
        }
    }

    open spec fn after_ppu_bus_access(m: Self::Model, addr: u16, ppu_cycle: u64) -> Self::Model {
        m
    }

    open spec fn after_reset(m: Self::Model) -> Self::Model {
        m
    }

    open spec fn prg_ram_of(m: Self::Model) -> Option<Seq<u8>> {
        if m.board.prg_ram.len() > 0 {
            Some(m.board.prg_ram)
        } else {
            None
        }
    }

    open spec fn chr_ram_of(m: Self::Model) -> Option<Seq<u8>> {
        if m.board.chr_is_ram {
            Some(m.board.chr)
        } else {
            None
        }
    }

    open spec fn with_prg_ram(m: Self::Model, ram: Seq<u8>) -> Self::Model {
        Mmc2 { board: Board { prg_ram: ram, ..m.board }, ..m }
    }

    open spec fn with_chr_ram(m: Self::Model, ram: Seq<u8>) -> Self::Model {
        Mmc2 { board: Board { chr: ram, ..m.board }, ..m }
    }

    proof fn ppu_accesses_keep_mirroring(m: Self::Model, addr: u16, ppu_cycle: u64) {
    }

    proof fn complete_answers(m: Self::Model, addr: u16) {
        if addr >= 0x8000 {
            lemma_banks_fit(
                m.board.prg_rom.len(),
                0x2000,
                prg_bank_of(m, addr),
                (addr % 0x2000) as int,
            );
        }
        lemma_banks_fit(m.board.chr.len(), 0x1000, chr_bank_of(m, addr), (addr % 0x1000) as int);
    }

    fn cpu_read(&mut self, addr: u16) -> (r: u8) {
        if addr >= 0x8000 {
            self.board.prg_rom[self.prg_offset(addr)]
        } else if addr >= 0x6000 {
            self.board.read_ram(addr)
        } else {
            0
        }
    }

    fn cpu_write(&mut self, addr: u16, data: u8) {
        if addr >= 0xf000 {
            self.mirroring = if data & 1 == 0 {
                Mirroring::Vertical
            } else {
                Mirroring::Horizontal
            };
        } else if addr >= 0xe000 {
            self.chr_fe_1000 = data as usize & 0x1f;
        } else if addr >= 0xd000 {
            self.chr_fd_1000 = data as usize & 0x1f;
        } else if addr >= 0xc000 {
            self.chr_fe_0000 = data as usize & 0x1f;
        } else if addr >= 0xb000 {
            self.chr_fd_0000 = data as usize & 0x1f;
        } else if addr >= 0xa000 {
            self.prg_bank = (data as usize & 0x0f) % self.num_prg_banks;
        } else if 0x6000 <= addr && addr < 0x8000 {
            self.board.write_ram(addr, data);
        }
    }

    fn cpu_write_at(&mut self, addr: u16, data: u8, cpu_cycle: u64) {
        self.cpu_write(addr, data);
    }

    fn ppu_read(&mut self, addr: u16) -> (r: u8) {
        let value: u8 = self.board.chr[self.chr_offset(addr)];
        self.update_latch_after_read(addr);
        value
    }

    fn ppu_write(&mut self, addr: u16, data: u8) {
        if self.board.chr_is_ram {
            let index = self.chr_offset(addr);
            self.board.chr[index] = data;
        }
    }

    fn mirroring(&self) -> (r: Mirroring) {
        self.mirroring
    }

    fn on_ppu_bus_access(&mut self, addr: u16, ppu_cycle: u64) {
    }

    fn irq_pending(&self) -> (r: bool) {
        false
    }

    fn reset(&mut self) {
    }

    fn prg_ram(&self) -> (r: Option<&[u8]>) {
        self.board.prg_ram_slice()
    }

    fn chr_ram(&self) -> (r: Option<&[u8]>) {
        self.board.chr_ram_slice()
    }

    fn store_prg_ram(&mut self, start: usize, bytes: &[u8]) {
        self.board.store_prg_ram(start, bytes);
    }

    fn store_chr_ram(&mut self, start: usize, bytes: &[u8]) {
        self.board.store_chr_ram(start, bytes);
    }

    fn is_complete(&self) -> (r: bool) {
        self.board.prg_rom.len() >= 0x2000 && self.board.chr.len() >= 0x1000 && self.mirroring
            != Mirroring::FourScreen
    }

    fn duplicate(&self) -> (r: Self) {
        Mmc2 {
            board: self.board.duplicate(),
            prg_bank: self.prg_bank,
            chr_fd_0000: self.chr_fd_0000,
            chr_fe_0000: self.chr_fe_0000,
            chr_fd_1000: self.chr_fd_1000,
            chr_fe_1000: self.chr_fe_1000,
            latch_0000: self.latch_0000,
            latch_1000: self.latch_1000,
            mirroring: self.mirroring,
            num_prg_banks: self.num_prg_banks,
            num_chr_banks: self.num_chr_banks,
        }
    }
}

} // verus!
