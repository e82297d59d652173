//! Mapper 3 (CNROM): fixed PRG (16 KB mirrored or 32 KB, like NROM), with 8 KB
//! CHR ROM bank switching. Any write to $8000-$FFFF selects the 8 KB CHR bank.
//! Mirroring is fixed by the header.

use super::board::{bank_count, count_banks, fixed_prg_index, lemma_banks_fit, zeroed, zeroes, Board};
use super::Mapper;
use crate::cartridge::{Mirroring, Rom};
use vstd::prelude::*;

verus! {

pub struct Cnrom<T = Vec<u8>> {
    pub board: Board<T>,
    pub chr_bank: usize,
    pub num_chr_banks: usize,
    pub mirroring: Mirroring,
}

/// The model of a board fresh from `rom`, with CHR bank 0 selected.
pub open spec fn cnrom_of(rom: Rom) -> Cnrom<Seq<u8>> {
    let chr = if rom.chr_rom@.len() == 0 {
        zeroes(0x2000)
    } else {
        rom.chr_rom@
    };
    Cnrom {
        board: Board {
            prg_rom: rom.prg_rom@,
            chr,
            chr_is_ram: rom.chr_rom@.len() == 0,
            prg_ram: Seq::empty(),
        },
        chr_bank: 0,
        num_chr_banks: bank_count(chr.len(), 0x2000) as usize,
        mirroring: rom.screen_mirroring,
    }
}

impl Cnrom {
    pub fn from_rom(rom: Rom) -> (r: Self)
        ensures
            r.model() == cnrom_of(rom),
            Self::sound(r.model()),
    {
        let chr_is_ram = rom.chr_rom.len() == 0;
        let chr = if chr_is_ram {
            zeroed(0x2000)
        } else {
            rom.chr_rom
        };
        let num_chr_banks = count_banks(chr.len(), 0x2000);
        Cnrom {
            board: Board { prg_rom: rom.prg_rom, chr, chr_is_ram, prg_ram: Vec::new() },
            chr_bank: 0,
            num_chr_banks,
            mirroring: rom.screen_mirroring,
        }
    }
}

impl Mapper for Cnrom<Vec<u8>> {
    type Model = Cnrom<Seq<u8>>;

    open spec fn model(&self) -> Cnrom<Seq<u8>> {
        Cnrom {
            board: self.board@,
            chr_bank: self.chr_bank,
            num_chr_banks: self.num_chr_banks,
            mirroring: self.mirroring,
        }
    }

    open spec fn sound(m: Self::Model) -> bool {
        &&& m.num_chr_banks == bank_count(m.board.chr.len(), 0x2000)
        &&& m.chr_bank < m.num_chr_banks
    }

    open spec fn complete(m: Self::Model) -> bool {
        &&& Self::sound(m)
        &&& m.board.prg_rom.len() == 0x4000 || m.board.prg_rom.len() >= 0x8000
        &&& m.board.chr.len() >= 0x2000
        &&& m.mirroring != Mirroring::FourScreen
    }

    open spec fn cpu_readable(m: Self::Model, addr: u16) -> bool {
        addr >= 0x8000 ==> fixed_prg_index(m.board.prg_rom.len(), addr) < m.board.prg_rom.len()
    }

    open spec fn ppu_accessible(m: Self::Model, addr: u16) -> bool {
        m.chr_bank * 0x2000 + addr < m.board.chr.len()
    }

    open spec fn chr_writable(m: Self::Model) -> bool {
        m.board.chr_is_ram
    }

    open spec fn cpu_value(m: Self::Model, addr: u16) -> u8 {
        if addr >= 0x8000 {
            m.board.prg_rom[fixed_prg_index(m.board.prg_rom.len(), addr)]
        } else {
            0
        }
    }

    open spec fn ppu_value(m: Self::Model, addr: u16) -> u8 {
        m.board.chr[m.chr_bank * 0x2000 + addr]
    }

    open spec fn mirroring_of(m: Self::Model) -> Mirroring {
        m.mirroring
    }

    open spec fn irq_of(m: Self::Model) -> bool {
        false
    }

    open spec fn after_cpu_write(m: Self::Model, addr: u16, data: u8) -> Self::Model {
        if addr >= 0x8000 {
            Cnrom { chr_bank: (data as usize % m.num_chr_banks) as usize, ..m }
        } else {
            m
        }
    }

    open spec fn after_cpu_write_at(
        m: Self::Model,
        addr: u16,
        data: u8,
        cpu_cycle: u64,
    ) -> Self::Model {
        Self::after_cpu_write(m, addr, data)
    }

    open spec fn after_ppu_read(m: Self::Model, addr: u16) -> Self::Model {
        m
    }

    open spec fn after_ppu_write(m: Self::Model, addr: u16, data: u8) -> Self::Model {
        if m.board.chr_is_ram {
            Cnrom {
                board: Board { chr: m.board.chr.update(m.chr_bank * 0x2000 + addr, data), ..m.board },
                ..m
            }
        } else {
            m
        }
    }

    open spec fn after_ppu_bus_access(m: Self::Model, addr: u16, ppu_cycle: u64) -> Self::Model {
        m
    }

    open spec fn after_reset(m: Self::Model) -> Self::Model {
        m
    }

    open spec fn prg_ram_of(m: Self::Model) -> Option<Seq<u8>> {
        None
    }

    open spec fn chr_ram_of(m: Self::Model) -> Option<Seq<u8>> {
        None
    }

    open spec fn with_prg_ram(m: Self::Model, ram: Seq<u8>) -> Self::Model {
        m
    }

    open spec fn with_chr_ram(m: Self::Model, ram: Seq<u8>) -> Self::Model {
        m
    }

    proof fn ppu_accesses_keep_mirroring(m: Self::Model, addr: u16, ppu_cycle: u64) {
    }

    proof fn complete_answers(m: Self::Model, addr: u16) {
        if addr < 0x2000 {
            lemma_banks_fit(m.board.chr.len(), 0x2000, m.chr_bank as int, addr as int);
        }
    }

    fn cpu_read(&mut self, addr: u16) -> (r: u8) {
        if addr >= 0x8000 {
            self.board.read_fixed_prg(addr)
        } else {
            0
        }
    }

    fn cpu_write(&mut self, addr: u16, data: u8) {
        // The written value selects the 8 KB CHR bank (bus conflicts ignored).
        if addr >= 0x8000 {
            self.chr_bank = data as usize % self.num_chr_banks;
        }
    }

    fn cpu_write_at(&mut self, addr: u16, data: u8, cpu_cycle: u64) {
        self.cpu_write(addr, data);
    }

    fn ppu_read(&mut self, addr: u16) -> (r: u8) {
        let len = self.board.chr.len();
        self.board.chr[self.chr_bank * 0x2000 + addr as usize]
    }

    fn ppu_write(&mut self, addr: u16, data: u8) {
        if self.board.chr_is_ram {
            let len = self.board.chr.len();
            let index = self.chr_bank * 0x2000 + addr as usize;
            self.board.chr[index] = data;
        }
    }

    fn mirroring(&self) -> (r: Mirroring) {
        self.mirroring
    }

    fn on_ppu_bus_access(&mut self, addr: u16, ppu_cycle: u64) {
    }

    fn irq_pending(&self) -> (r: bool) {
        false
    }

    fn reset(&mut self) {
    }

    fn prg_ram(&self) -> (r: Option<&[u8]>) {
        None
    }

    fn chr_ram(&self) -> (r: Option<&[u8]>) {
        None
    }

    fn store_prg_ram(&mut self, start: usize, bytes: &[u8]) {
    }

    fn store_chr_ram(&mut self, start: usize, bytes: &[u8]) {
    }

    fn is_complete(&self) -> (r: bool) {
        let prg = self.board.prg_rom.len();
        (prg == 0x4000 || prg >= 0x8000) && self.board.chr.len() >= 0x2000 && self.mirroring
            != Mirroring::FourScreen
    }

    fn duplicate(&self) -> (r: Self) {
        Cnrom {
            board: self.board.duplicate(),
            chr_bank: self.chr_bank,
            num_chr_banks: self.num_chr_banks,
            mirroring: self.mirroring,
        }
    }
}

} // verus!
