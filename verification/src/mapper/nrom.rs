//! Mapper 0 (NROM): no banking. PRG ROM is 16 or 32 KB mapped at $8000-$FFFF
//! (a 16 KB image is mirrored into both halves); CHR is a fixed 8 KB window,
//! either ROM or, when the cartridge ships none, CHR RAM. Optional PRG RAM lives
//! at $6000-$7FFF.

use super::board::{fixed_prg_index, ram_after, ram_value, zeroed, zeroes, Board};
use super::Mapper;
use crate::cartridge::{Mirroring, Rom};
use vstd::prelude::*;

verus! {

pub struct Nrom<T = Vec<u8>> {
    pub board: Board<T>,
    pub mirroring: Mirroring,
}

/// The model of a board fresh from `rom`: CHR RAM in place of absent CHR ROM,
/// and PRG RAM of the declared size, all zero.
pub open spec fn nrom_of(rom: Rom) -> Nrom<Seq<u8>> {
    Nrom {
        board: Board {
            prg_rom: rom.prg_rom@,
            chr: if rom.chr_rom@.len() == 0 {
                zeroes(rom.memory.chr.size as nat)
            } else {
                rom.chr_rom@
            },
            chr_is_ram: rom.chr_rom@.len() == 0,
            prg_ram: zeroes(rom.memory.prg_ram.size as nat),
        },
        mirroring: rom.screen_mirroring,
    }
}

impl Nrom {
    pub fn new(prg_rom: Vec<u8>, chr: Vec<u8>, chr_is_ram: bool, mirroring: Mirroring) -> (r: Self)
        ensures
            r.model() == (Nrom {
                board: Board {
                    prg_rom: prg_rom@,
                    chr: chr@,
                    chr_is_ram,
                    prg_ram: zeroes(0x2000),
                },
                mirroring,
            }),
    {
        Nrom { board: Board { prg_rom, chr, chr_is_ram, prg_ram: zeroed(0x2000) }, mirroring }
    }

    pub fn from_rom(rom: Rom) -> (r: Self)
        ensures
            r.model() == nrom_of(rom),
    {
        let chr_is_ram = rom.chr_rom.len() == 0;
        let prg_ram = zeroed(rom.memory.prg_ram_size());
        let chr = if chr_is_ram {
            zeroed(rom.memory.chr_ram_size())
        } else {
            rom.chr_rom
        };
        let mut mapper = Nrom::new(rom.prg_rom, chr, chr_is_ram, rom.screen_mirroring);
        mapper.board.prg_ram = prg_ram;
        mapper
    }
}

impl Mapper for Nrom<Vec<u8>> {
    type Model = Nrom<Seq<u8>>;

    open spec fn model(&self) -> Nrom<Seq<u8>> {
        Nrom {
            board: self.board@,
            mirroring: self.mirroring,
        }
    }

    open spec fn sound(m: Self::Model) -> bool {
        true
    }

    open spec fn complete(m: Self::Model) -> bool {
        &&& m.board.prg_rom.len() == 0x4000 || m.board.prg_rom.len() >= 0x8000
        &&& m.board.chr.len() >= 0x2000
        &&& m.mirroring != Mirroring::FourScreen
    }

    open spec fn cpu_readable(m: Self::Model, addr: u16) -> bool {
        addr >= 0x8000 ==> fixed_prg_index(m.board.prg_rom.len(), addr) < m.board.prg_rom.len()
    }

    open spec fn ppu_accessible(m: Self::Model, addr: u16) -> bool {
        addr < m.board.chr.len()
    }

    open spec fn chr_writable(m: Self::Model) -> bool {
        m.board.chr_is_ram
    }

    open spec fn cpu_value(m: Self::Model, addr: u16) -> u8 {
        if addr >= 0x8000 {
            m.board.prg_rom[fixed_prg_index(m.board.prg_rom.len(), addr)]
        } else if addr >= 0x6000 {
            ram_value(m.board.prg_ram, addr)
        } else {
            0
        }
    }

    open spec fn ppu_value(m: Self::Model, addr: u16) -> u8 {
        m.board.chr[addr as int]
    }

    open spec fn mirroring_of(m: Self::Model) -> Mirroring {
        m.mirroring
    }

    open spec fn irq_of(m: Self::Model) -> bool {
        false
    }

    open spec fn after_cpu_write(m: Self::Model, addr: u16, data: u8) -> Self::Model {
        if 0x6000 <= addr < 0x8000 {
            Nrom {
                board: Board { prg_ram: ram_after(m.board.prg_ram, addr, data), ..m.board },
                ..m
            }
        } else {
            m
        }
    }

    open spec fn after_cpu_write_at(
        m: Self::Model,
        addr: u16,
        data: u8,
        cpu_cycle: u64,
    ) -> Self::Model {
        Self::after_cpu_write(m, addr, data)
    }

    open spec fn after_ppu_read(m: Self::Model, addr: u16) -> Self::Model {
        m
    }

    open spec fn after_ppu_write(m: Self::Model, addr: u16, data: u8) -> Self::Model {
        if m.board.chr_is_ram {
            Nrom {
                board: Board { chr: m.board.chr.update(addr as int, data), ..m.board },
                ..m
            }
        } else {
            m
        }
    }

    open spec fn after_ppu_bus_access(m: Self::Model, addr: u16, ppu_cycle: u64) -> Self::Model {
        m
    }

    open spec fn after_reset(m: Self::Model) -> Self::Model {
        m
    }

    open spec fn prg_ram_of(m: Self::Model) -> Option<Seq<u8>> {
        if m.board.prg_ram.len() > 0 {
            Some(m.board.prg_ram)
        } else {
            None
        }
    }

    open spec fn chr_ram_of(m: Self::Model) -> Option<Seq<u8>> {
        if m.board.chr_is_ram {
            Some(m.board.chr)
        } else {
            None
        }
    }

    open spec fn with_prg_ram(m: Self::Model, ram: Seq<u8>) -> Self::Model {
        Nrom { board: Board { prg_ram: ram, ..m.board }, ..m }
    }

    open spec fn with_chr_ram(m: Self::Model, ram: Seq<u8>) -> Self::Model {
        Nrom { board: Board { chr: ram, ..m.board }, ..m }
    }

    proof fn ppu_accesses_keep_mirroring(m: Self::Model, addr: u16, ppu_cycle: u64) {
    }

    proof fn complete_answers(m: Self::Model, addr: u16) {
    }

    fn cpu_read(&mut self, addr: u16) -> (r: u8) {
        if addr >= 0x8000 {
            self.board.read_fixed_prg(addr)
        } else if addr >= 0x6000 {
            self.board.read_ram(addr)
        } else {
            0
        }
    }

    fn cpu_write(&mut self, addr: u16, data: u8) {
        // NROM has no bank registers; writes to ROM space are inert.
        if 0x6000 <= addr && addr < 0x8000 {
            self.board.write_ram(addr, data);
        }
    }

    fn cpu_write_at(&mut self, addr: u16, data: u8, cpu_cycle: u64) {
        self.cpu_write(addr, data);
    }

    fn ppu_read(&mut self, addr: u16) -> (r: u8) {
        self.board.chr[addr as usize]
    }

    fn ppu_write(&mut self, addr: u16, data: u8) {
        if self.board.chr_is_ram {
            self.board.chr[addr as usize] = data;
        }
    }

    fn mirroring(&self) -> (r: Mirroring) {
        self.mirroring
    }

    fn on_ppu_bus_access(&mut self, addr: u16, ppu_cycle: u64) {
    }

    fn irq_pending(&self) -> (r: bool) {
        false
    }

    fn reset(&mut self) {
    }

    fn prg_ram(&self) -> (r: Option<&[u8]>) {
        self.board.prg_ram_slice()
    }

    fn chr_ram(&self) -> (r: Option<&[u8]>) {
        self.board.chr_ram_slice()
    }

    fn store_prg_ram(&mut self, start: usize, bytes: &[u8]) {
        self.board.store_prg_ram(start, bytes);
    }

    fn store_chr_ram(&mut self, start: usize, bytes: &[u8]) {
        self.board.store_chr_ram(start, bytes);
    }

    fn is_complete(&self) -> (r: bool) {
        let prg = self.board.prg_rom.len();
        (prg == 0x4000 || prg >= 0x8000) && self.board.chr.len() >= 0x2000 && self.mirroring
            != Mirroring::FourScreen
    }

    fn duplicate(&self) -> (r: Self) {
        Nrom {
            board: self.board.duplicate(),
            mirroring: self.mirroring,
        }
    }
}

} // verus!
