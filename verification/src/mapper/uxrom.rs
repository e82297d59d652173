//! Mapper 2 (UxROM): 16 KB PRG bank switching. $8000-$BFFF selects one of the
//! 16 KB banks (any write to $8000-$FFFF); $C000-$FFFF is hardwired to the last
//! 16 KB bank. CHR is 8 KB of CHR RAM. Mirroring is fixed by the header.

use super::board::{
    bank_count, count_banks, lemma_banks_fit, ram_after, ram_value, zeroed, zeroes, Board,
};
use super::Mapper;
use crate::cartridge::{Mirroring, Rom};
use vstd::prelude::*;

verus! {

pub struct Uxrom<T = Vec<u8>> {
    pub board: Board<T>,
    // switchable 16 KB bank at $8000-$BFFF
    pub prg_bank: usize,
    // fixed 16 KB bank at $C000-$FFFF
    pub last_bank: usize,
    pub num_banks: usize,
    pub mirroring: Mirroring,
}

/// The model of a board fresh from `rom`, with PRG bank 0 selected.
pub open spec fn uxrom_of(rom: Rom) -> Uxrom<Seq<u8>> {
    let banks = bank_count(rom.prg_rom@.len(), 0x4000);
    Uxrom {
        board: Board {
            prg_rom: rom.prg_rom@,
            chr: if rom.chr_rom@.len() == 0 {
                zeroes(rom.memory.chr.size as nat)
            } else {
                rom.chr_rom@
            },
            chr_is_ram: rom.chr_rom@.len() == 0,
            prg_ram: zeroes(rom.memory.prg_ram.size as nat),
        },
        prg_bank: 0,
        last_bank: (banks - 1) as usize,
        num_banks: banks as usize,
        mirroring: rom.screen_mirroring,
    }
}

impl Uxrom {
    pub fn from_rom(rom: Rom) -> (r: Self)
        ensures
            r.model() == uxrom_of(rom),
            Self::sound(r.model()),
    {
        let chr_is_ram = rom.chr_rom.len() == 0;
        let prg_ram = zeroed(rom.memory.prg_ram_size());
        let chr = if chr_is_ram {
            zeroed(rom.memory.chr_ram_size())
        } else {
            rom.chr_rom
        };
        let num_banks = count_banks(rom.prg_rom.len(), 0x4000);
        Uxrom {
            board: Board { prg_rom: rom.prg_rom, chr, chr_is_ram, prg_ram },
            prg_bank: 0,
            last_bank: num_banks - 1,
            num_banks,
            mirroring: rom.screen_mirroring,
        }
    }
}

impl Mapper for Uxrom<Vec<u8>> {
    type Model = Uxrom<Seq<u8>>;

    open spec fn model(&self) -> Uxrom<Seq<u8>> {
        Uxrom {
            board: self.board@,
            prg_bank: self.prg_bank,
            last_bank: self.last_bank,
            num_banks: self.num_banks,
            mirroring: self.mirroring,
        }
    }

    open spec fn sound(m: Self::Model) -> bool {
        &&& m.num_banks == bank_count(m.board.prg_rom.len(), 0x4000)
        &&& m.prg_bank < m.num_banks
        &&& m.last_bank == m.num_banks - 1
    }

    open spec fn complete(m: Self::Model) -> bool {
        &&& Self::sound(m)
        &&& m.board.prg_rom.len() >= 0x4000
        &&& m.board.chr.len() >= 0x2000
        &&& m.mirroring != Mirroring::FourScreen
    }

    open spec fn cpu_readable(m: Self::Model, addr: u16) -> bool {
        if addr >= 0xc000 {
            m.last_bank * 0x4000 + (addr - 0xc000) < m.board.prg_rom.len()
        } else if addr >= 0x8000 {
            m.prg_bank * 0x4000 + (addr - 0x8000) < m.board.prg_rom.len()
        } else {
            true
        }
    }

    open spec fn ppu_accessible(m: Self::Model, addr: u16) -> bool {
        addr < m.board.chr.len()
    }

    open spec fn chr_writable(m: Self::Model) -> bool {
        m.board.chr_is_ram
    }

    open spec fn cpu_value(m: Self::Model, addr: u16) -> u8 {
        if addr >= 0xc000 {
            m.board.prg_rom[m.last_bank * 0x4000 + (addr - 0xc000)]
        } else if addr >= 0x8000 {
            m.board.prg_rom[m.prg_bank * 0x4000 + (addr - 0x8000)]
        } else if addr >= 0x6000 {
            ram_value(m.board.prg_ram, addr)
        } else {
            0
        }
    }

    open spec fn ppu_value(m: Self::Model, addr: u16) -> u8 {
        m.board.chr[addr as int]
    }

    open spec fn mirroring_of(m: Self::Model) -> Mirroring {
        m.mirroring
    }

    open spec fn irq_of(m: Self::Model) -> bool {
        false
    }

    open spec fn after_cpu_write(m: Self::Model, addr: u16, data: u8) -> Self::Model {
        if addr >= 0x8000 {
            Uxrom { prg_bank: (data as usize % m.num_banks) as usize, ..m }
        } else if addr >= 0x6000 {
            Uxrom {
                board: Board { prg_ram: ram_after(m.board.prg_ram, addr, data), ..m.board },
                ..m
            }
        } else {
            m
        }
    }

    open spec fn after_cpu_write_at(
        m: Self::Model,
        addr: u16,
        data: u8,
        cpu_cycle: u64,
    ) -> Self::Model {
        Self::after_cpu_write(m, addr, data)
    }

    open spec fn after_ppu_read(m: Self::Model, addr: u16) -> Self::Model {
        m
    }

    open spec fn after_ppu_write(m: Self::Model, addr: u16, data: u8) -> Self::Model {
        if m.board.chr_is_ram {
            Uxrom {
                board: Board { chr: m.board.chr.update(addr as int, data), ..m.board },
                ..m
            }
        } else {
            m
        }
    }

    open spec fn after_ppu_bus_access(m: Self::Model, addr: u16, ppu_cycle: u64) -> Self::Model {
        m
    }

    open spec fn after_reset(m: Self::Model) -> Self::Model {
        Uxrom { prg_bank: 0, ..m }
    }

    open spec fn prg_ram_of(m: Self::Model) -> Option<Seq<u8>> {
        if m.board.prg_ram.len() > 0 {
            Some(m.board.prg_ram)
        } else {
            None
        }
    }

    open spec fn chr_ram_of(m: Self::Model) -> Option<Seq<u8>> {
        if m.board.chr_is_ram {
            Some(m.board.chr)
        } else {
            None
        }
    }

    open spec fn with_prg_ram(m: Self::Model, ram: Seq<u8>) -> Self::Model {
        Uxrom { board: Board { prg_ram: ram, ..m.board }, ..m }
    }

    open spec fn with_chr_ram(m: Self::Model, ram: Seq<u8>) -> Self::Model {
        Uxrom { board: Board { chr: ram, ..m.board }, ..m }
    }

    proof fn ppu_accesses_keep_mirroring(m: Self::Model, addr: u16, ppu_cycle: u64) {
    }

    proof fn complete_answers(m: Self::Model, addr: u16) {
        let offset = (addr % 0x4000) as int;
        lemma_banks_fit(m.board.prg_rom.len(), 0x4000, m.prg_bank as int, offset);
        lemma_banks_fit(m.board.prg_rom.len(), 0x4000, m.last_bank as int, offset);
    }

    fn cpu_read(&mut self, addr: u16) -> (r: u8) {
        let len = self.board.prg_rom.len();
        if addr >= 0xc000 {
            self.board.prg_rom[self.last_bank * 0x4000 + (addr as usize - 0xc000)]
        } else if addr >= 0x8000 {
            self.board.prg_rom[self.prg_bank * 0x4000 + (addr as usize - 0x8000)]
        } else if addr >= 0x6000 {
            self.board.read_ram(addr)
        } else {
            0
        }
    }

    fn cpu_write(&mut self, addr: u16, data: u8) {
        // Any write to ROM space selects the low bank (bus conflicts ignored).
        if addr >= 0x8000 {
            self.prg_bank = data as usize % self.num_banks;
        } else if addr >= 0x6000 {
            self.board.write_ram(addr, data);
        }
    }

    fn cpu_write_at(&mut self, addr: u16, data: u8, cpu_cycle: u64) {
        self.cpu_write(addr, data);
    }

    fn ppu_read(&mut self, addr: u16) -> (r: u8) {
        self.board.chr[addr as usize]
    }

    fn ppu_write(&mut self, addr: u16, data: u8) {
        if self.board.chr_is_ram {
            self.board.chr[addr as usize] = data;
        }
    }

    fn mirroring(&self) -> (r: Mirroring) {
        self.mirroring
    }

    fn on_ppu_bus_access(&mut self, addr: u16, ppu_cycle: u64) {
    }

    fn irq_pending(&self) -> (r: bool) {
        false
    }

    fn reset(&mut self) {
        self.prg_bank = 0;
    }

    fn prg_ram(&self) -> (r: Option<&[u8]>) {
        self.board.prg_ram_slice()
    }

    fn chr_ram(&self) -> (r: Option<&[u8]>) {
        self.board.chr_ram_slice()
    }

    fn store_prg_ram(&mut self, start: usize, bytes: &[u8]) {
        self.board.store_prg_ram(start, bytes);
    }

    fn store_chr_ram(&mut self, start: usize, bytes: &[u8]) {
        self.board.store_chr_ram(start, bytes);
    }

    fn is_complete(&self) -> (r: bool) {
        self.board.prg_rom.len() >= 0x4000 && self.board.chr.len() >= 0x2000 && self.mirroring
            != Mirroring::FourScreen
    }

    fn duplicate(&self) -> (r: Self) {
        Uxrom {
            board: self.board.duplicate(),
            prg_bank: self.prg_bank,
            last_bank: self.last_bank,
            num_banks: self.num_banks,
            mirroring: self.mirroring,
        }
    }
}

} // verus!
