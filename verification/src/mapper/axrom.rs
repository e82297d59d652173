//! Mapper 7 (AxROM): 32 KB PRG bank switching over the whole $8000-$FFFF window,
//! plus single-screen nametable mirroring picked by the same register. Bits 0-2
//! of a write select the 32 KB PRG bank; bit 4 selects which single nametable is
//! mirrored. CHR is 8 KB of CHR RAM.

use super::board::{bank_count, count_banks, lemma_banks_fit, zeroed, zeroes, Board};
use super::Mapper;
use crate::cartridge::{Mirroring, Rom};
use vstd::prelude::*;

verus! {

pub struct Axrom<T = Vec<u8>> {
    pub board: Board<T>,
    // switchable 32 KB bank at $8000-$FFFF
    pub prg_bank: usize,
    pub num_banks: usize,
    pub mirroring: Mirroring,
}

/// The model of a board fresh from `rom`: bank 0, lower nametable page.
pub open spec fn axrom_of(rom: Rom) -> Axrom<Seq<u8>> {
    Axrom {
        board: Board {
            prg_rom: rom.prg_rom@,
            chr: if rom.chr_rom@.len() == 0 {
                zeroes(0x2000)
            } else {
                rom.chr_rom@
            },
            chr_is_ram: rom.chr_rom@.len() == 0,
            prg_ram: Seq::empty(),
        },
        prg_bank: 0,
        num_banks: bank_count(rom.prg_rom@.len(), 0x8000) as usize,
        mirroring: Mirroring::SingleScreenLower,
    }
}

impl Axrom {
    pub fn from_rom(rom: Rom) -> (r: Self)
        ensures
            r.model() == axrom_of(rom),
            Self::sound(r.model()),
    {
        let chr_is_ram = rom.chr_rom.len() == 0;
        let chr = if chr_is_ram {
            zeroed(0x2000)
        } else {
            rom.chr_rom
        };
        let num_banks = count_banks(rom.prg_rom.len(), 0x8000);
        Axrom {
            board: Board { prg_rom: rom.prg_rom, chr, chr_is_ram, prg_ram: Vec::new() },
            prg_bank: 0,
            num_banks,
            // Powers up single-screen; the game sets which page on its first write.
            mirroring: Mirroring::SingleScreenLower,
        }
    }
}

impl Mapper for Axrom<Vec<u8>> {
    type Model = Axrom<Seq<u8>>;

    open spec fn model(&self) -> Axrom<Seq<u8>> {
        Axrom {
            board: self.board@,
            prg_bank: self.prg_bank,
            num_banks: self.num_banks,
            mirroring: self.mirroring,
        }
    }

    open spec fn sound(m: Self::Model) -> bool {
        &&& m.num_banks == bank_count(m.board.prg_rom.len(), 0x8000)
        &&& m.prg_bank < m.num_banks
    }

    open spec fn complete(m: Self::Model) -> bool {
        &&& Self::sound(m)
        &&& m.board.prg_rom.len() >= 0x8000
        &&& m.board.chr.len() >= 0x2000
        &&& m.mirroring != Mirroring::FourScreen
    }

    open spec fn cpu_readable(m: Self::Model, addr: u16) -> bool {
        addr >= 0x8000 ==> m.prg_bank * 0x8000 + (addr - 0x8000) < m.board.prg_rom.len()
    }

    open spec fn ppu_accessible(m: Self::Model, addr: u16) -> bool {
        addr < m.board.chr.len()
    }

    open spec fn chr_writable(m: Self::Model) -> bool {
        m.board.chr_is_ram
    }

    open spec fn cpu_value(m: Self::Model, addr: u16) -> u8 {
        if addr >= 0x8000 {
            m.board.prg_rom[m.prg_bank * 0x8000 + (addr - 0x8000)]
        } else {
            0
        }
    }

    open spec fn ppu_value(m: Self::Model, addr: u16) -> u8 {
        m.board.chr[addr as int]
    }

    open spec fn mirroring_of(m: Self::Model) -> Mirroring {
        m.mirroring
    }

    open spec fn irq_of(m: Self::Model) -> bool {
        false
    }

    open spec fn after_cpu_write(m: Self::Model, addr: u16, data: u8) -> Self::Model {
        if addr >= 0x8000 {
            Axrom {
                prg_bank: ((data as usize & 0x7) % m.num_banks) as usize,
                mirroring: if data & 0x10 != 0 {
                    Mirroring::SingleScreenUpper
                } else {
                    Mirroring::SingleScreenLower
                },
                ..m
            }
        } else {
            m
        }
    }

    open spec fn after_cpu_write_at(
        m: Self::Model,
        addr: u16,
        data: u8,
        cpu_cycle: u64,
    ) -> Self::Model {
        Self::after_cpu_write(m, addr, data)
    }

    open spec fn after_ppu_read(m: Self::Model, addr: u16) -> Self::Model {
        m
    }

    open spec fn after_ppu_write(m: Self::Model, addr: u16, data: u8) -> Self::Model {
        if m.board.chr_is_ram {
            Axrom {
                board: Board { chr: m.board.chr.update(addr as int, data), ..m.board },
                ..m
            }
        } else {
            m
        }
    }

    open spec fn after_ppu_bus_access(m: Self::Model, addr: u16, ppu_cycle: u64) -> Self::Model {
        m
    }

    open spec fn after_reset(m: Self::Model) -> Self::Model {
        m
    }

    open spec fn prg_ram_of(m: Self::Model) -> Option<Seq<u8>> {
        None
    }

    open spec fn chr_ram_of(m: Self::Model) -> Option<Seq<u8>> {
        None
    }

    open spec fn with_prg_ram(m: Self::Model, ram: Seq<u8>) -> Self::Model {
        m
    }

    open spec fn with_chr_ram(m: Self::Model, ram: Seq<u8>) -> Self::Model {
        m
    }

    proof fn ppu_accesses_keep_mirroring(m: Self::Model, addr: u16, ppu_cycle: u64) {
    }

    proof fn complete_answers(m: Self::Model, addr: u16) {
        if addr >= 0x8000 {
            lemma_banks_fit(m.board.prg_rom.len(), 0x8000, m.prg_bank as int, addr - 0x8000);
        }
    }

    fn cpu_read(&mut self, addr: u16) -> (r: u8) {
        if addr >= 0x8000 {
            let len = self.board.prg_rom.len();
            self.board.prg_rom[self.prg_bank * 0x8000 + (addr as usize - 0x8000)]
        } else {
            0
        }
    }

    fn cpu_write(&mut self, addr: u16, data: u8) {
        if addr >= 0x8000 {
            self.prg_bank = (data as usize & 0x7) % self.num_banks;
            self.mirroring = if data & 0x10 != 0 {
                Mirroring::SingleScreenUpper
            } else {
                Mirroring::SingleScreenLower
            };
        }
    }

    fn cpu_write_at(&mut self, addr: u16, data: u8, cpu_cycle: u64) {
        self.cpu_write(addr, data);
    }

    fn ppu_read(&mut self, addr: u16) -> (r: u8) {
        self.board.chr[addr as usize]
    }

    fn ppu_write(&mut self, addr: u16, data: u8) {
        if self.board.chr_is_ram {
            self.board.chr[addr as usize] = data;
        }
    }

    fn mirroring(&self) -> (r: Mirroring) {
        self.mirroring
    }

    fn on_ppu_bus_access(&mut self, addr: u16, ppu_cycle: u64) {
    }

    fn irq_pending(&self) -> (r: bool) {
        false
    }

    fn reset(&mut self) {
    }

    fn prg_ram(&self) -> (r: Option<&[u8]>) {
        None
    }

    fn chr_ram(&self) -> (r: Option<&[u8]>) {
        None
    }

    fn store_prg_ram(&mut self, start: usize, bytes: &[u8]) {
    }

    fn store_chr_ram(&mut self, start: usize, bytes: &[u8]) {
    }

    fn is_complete(&self) -> (r: bool) {
        self.board.prg_rom.len() >= 0x8000 && self.board.chr.len() >= 0x2000 && self.mirroring
            != Mirroring::FourScreen
    }

    fn duplicate(&self) -> (r: Self) {
        Axrom {
            board: self.board.duplicate(),
            prg_bank: self.prg_bank,
            num_banks: self.num_banks,
            mirroring: self.mirroring,
        }
    }
}

} // verus!
