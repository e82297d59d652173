//! Cartridge mappers: the hardware between a cartridge's memories and the two
//! buses of the console.

use crate::cartridge::Mirroring;
use vstd::prelude::*;

pub mod axrom;
pub mod board;
pub mod cnrom;
pub mod gnrom;
pub mod laws;
pub mod managed;
pub mod mmc1;
pub mod mmc2;
pub mod mmc3;
pub mod nrom;
pub mod uxrom;
pub mod windows;

verus! {

/// The contents of a memory.
pub type Bytes = Seq<u8>;

/// A cartridge mapper. It owns PRG ROM, CHR ROM/RAM, PRG RAM, any bank
/// registers, and the mirroring state, and is visible from both sides of the
/// machine at once: the CPU bus drives PRG space ($6000-$FFFF) and the PPU dot
/// pipeline drives CHR space ($0000-$1FFF) plus nametable mirroring. Writes to
/// PRG ROM space are how bank switches arrive, so they land in `cpu_write`
/// rather than being errors.
///
/// What a mapper does is stated over its model, a mathematical copy of its
/// state: the `.._value` functions say what a read yields, the `after_..`
/// functions what an access turns the model into.
pub trait Mapper: Sized {
    type Model;

    spec fn model(&self) -> Self::Model;

    /// What every constructor establishes and every operation keeps.
    spec fn sound(m: Self::Model) -> bool;

    /// A sound mapper whose image fills every window it exposes, on a board
    /// that the console's own two nametables can serve.
    spec fn complete(m: Self::Model) -> bool;

    /// Whether the image holds a byte for a CPU read at `addr`.
    spec fn cpu_readable(m: Self::Model, addr: u16) -> bool;

    /// Whether the image holds a byte for a PPU access at `addr`.
    spec fn ppu_accessible(m: Self::Model, addr: u16) -> bool;

    /// Whether CHR writes reach memory.
    spec fn chr_writable(m: Self::Model) -> bool;

    spec fn cpu_value(m: Self::Model, addr: u16) -> u8;

    spec fn ppu_value(m: Self::Model, addr: u16) -> u8;

    spec fn mirroring_of(m: Self::Model) -> Mirroring;

    spec fn irq_of(m: Self::Model) -> bool;

    spec fn after_cpu_write(m: Self::Model, addr: u16, data: u8) -> Self::Model;

    spec fn after_cpu_write_at(m: Self::Model, addr: u16, data: u8, cpu_cycle: u64) -> Self::Model;

    spec fn after_ppu_read(m: Self::Model, addr: u16) -> Self::Model;

    spec fn after_ppu_write(m: Self::Model, addr: u16, data: u8) -> Self::Model;

    spec fn after_ppu_bus_access(m: Self::Model, addr: u16, ppu_cycle: u64) -> Self::Model;

    spec fn after_reset(m: Self::Model) -> Self::Model;

    /// PRG RAM, where the board exposes any.
    spec fn prg_ram_of(m: Self::Model) -> Option<Bytes>;

    /// CHR RAM, where the board exposes any.
    spec fn chr_ram_of(m: Self::Model) -> Option<Bytes>;

    spec fn with_prg_ram(m: Self::Model, ram: Bytes) -> Self::Model;

    spec fn with_chr_ram(m: Self::Model, ram: Bytes) -> Self::Model;

    /// A complete mapper answers every access the console can make.
    proof fn complete_answers(m: Self::Model, addr: u16)
        requires
            Self::complete(m),
        ensures
            Self::sound(m),
            Self::cpu_readable(m, addr),
            addr < 0x2000 ==> Self::ppu_accessible(m, addr),
            Self::mirroring_of(m) != Mirroring::FourScreen,
    ;

    /// Being addressed or read by the PPU rearranges no nametables.
    proof fn ppu_accesses_keep_mirroring(m: Self::Model, addr: u16, ppu_cycle: u64)
        ensures
            Self::mirroring_of(Self::after_ppu_bus_access(m, addr, ppu_cycle))
                == Self::mirroring_of(m),
            Self::mirroring_of(Self::after_ppu_read(m, addr)) == Self::mirroring_of(m),
    ;

    /// $6000-$FFFF: PRG RAM and PRG ROM.
    fn cpu_read(&mut self, addr: u16) -> (r: u8)
        requires
            Self::sound(old(self).model()),
            Self::cpu_readable(old(self).model(), addr),
        ensures
            r == Self::cpu_value(old(self).model(), addr),
            final(self).model() == old(self).model(),
    ;

    /// PRG RAM writes and bank-register writes.
    fn cpu_write(&mut self, addr: u16, data: u8)
        requires
            Self::sound(old(self).model()),
        ensures
            final(self).model() == Self::after_cpu_write(old(self).model(), addr, data),
            Self::sound(final(self).model()),
            Self::complete(old(self).model()) ==> Self::complete(final(self).model()),
    ;

    /// A CPU write with the cycle it happens on, for boards whose serial port
    /// ignores back-to-back writes.
    fn cpu_write_at(&mut self, addr: u16, data: u8, cpu_cycle: u64)
        requires
            Self::sound(old(self).model()),
        ensures
            final(self).model() == Self::after_cpu_write_at(
                old(self).model(),
                addr,
                data,
                cpu_cycle,
            ),
            Self::sound(final(self).model()),
            Self::complete(old(self).model()) ==> Self::complete(final(self).model()),
    ;

    /// $0000-$1FFF: CHR.
    fn ppu_read(&mut self, addr: u16) -> (r: u8)
        requires
            Self::sound(old(self).model()),
            Self::ppu_accessible(old(self).model(), addr),
        ensures
            r == Self::ppu_value(old(self).model(), addr),
            final(self).model() == Self::after_ppu_read(old(self).model(), addr),
            Self::sound(final(self).model()),
            Self::complete(old(self).model()) ==> Self::complete(final(self).model()),
    ;

    /// $0000-$1FFF: CHR RAM.
    fn ppu_write(&mut self, addr: u16, data: u8)
        requires
            Self::sound(old(self).model()),
            Self::chr_writable(old(self).model()) ==> Self::ppu_accessible(
                old(self).model(),
                addr,
            ),
        ensures
            final(self).model() == Self::after_ppu_write(old(self).model(), addr, data),
            Self::sound(final(self).model()),
            Self::complete(old(self).model()) ==> Self::complete(final(self).model()),
    ;

    /// Nametable mirroring; several mappers change it at run time.
    fn mirroring(&self) -> (r: Mirroring)
        ensures
            r == Self::mirroring_of(self.model()),
    ;

    /// Observes the address driven by a real PPU memory access. `ppu_cycle`
    /// counts PPU dots, allowing edge-sensitive mappers to distinguish a
    /// qualified A12 low period from a short pulse.
    fn on_ppu_bus_access(&mut self, addr: u16, ppu_cycle: u64)
        requires
            Self::sound(old(self).model()),
        ensures
            final(self).model() == Self::after_ppu_bus_access(
                old(self).model(),
                addr,
                ppu_cycle,
            ),
            Self::sound(final(self).model()),
            Self::complete(old(self).model()) ==> Self::complete(final(self).model()),
    ;

    /// The mapper's interrupt line, level-triggered: it stays asserted until
    /// the program acknowledges it.
    fn irq_pending(&self) -> (r: bool)
        ensures
            r == Self::irq_of(self.model()),
    ;

    /// The front-panel reset button.
    fn reset(&mut self)
        requires
            Self::sound(old(self).model()),
        ensures
            final(self).model() == Self::after_reset(old(self).model()),
            Self::sound(final(self).model()),
            Self::complete(old(self).model()) ==> Self::complete(final(self).model()),
    ;

    fn prg_ram(&self) -> (r: Option<&[u8]>)
        ensures
            match r {
                Some(ram) => Self::prg_ram_of(self.model()) == Some(ram@),
                None => Self::prg_ram_of(self.model()) is None,
            },
    ;

    fn chr_ram(&self) -> (r: Option<&[u8]>)
        ensures
            match r {
                Some(ram) => Self::chr_ram_of(self.model()) == Some(ram@),
                None => Self::chr_ram_of(self.model()) is None,
            },
    ;

    /// Copies `bytes` into PRG RAM from `start` on.
    fn store_prg_ram(&mut self, start: usize, bytes: &[u8])
        requires
            Self::sound(old(self).model()),
            Self::prg_ram_of(old(self).model()) is Some,
            start + bytes@.len() <= Self::prg_ram_of(old(self).model())->0.len(),
        ensures
            final(self).model() == Self::with_prg_ram(
                old(self).model(),
                board::overlay(
                    Self::prg_ram_of(old(self).model())->0,
                    start as int,
                    bytes@,
                ),
            ),
            Self::sound(final(self).model()),
            Self::complete(old(self).model()) ==> Self::complete(final(self).model()),
    ;

    /// Copies `bytes` into CHR RAM from `start` on.
    fn store_chr_ram(&mut self, start: usize, bytes: &[u8])
        requires
            Self::sound(old(self).model()),
            Self::chr_ram_of(old(self).model()) is Some,
            start + bytes@.len() <= Self::chr_ram_of(old(self).model())->0.len(),
        ensures
            final(self).model() == Self::with_chr_ram(
                old(self).model(),
                board::overlay(
                    Self::chr_ram_of(old(self).model())->0,
                    start as int,
                    bytes@,
                ),
            ),
            Self::sound(final(self).model()),
            Self::complete(old(self).model()) ==> Self::complete(final(self).model()),
    ;

    /// Whether the image fills every window, so that the console can run it.
    fn is_complete(&self) -> (r: bool)
        requires
            Self::sound(self.model()),
        ensures
            r == Self::complete(self.model()),
    ;

    /// An independent copy, for snapshots.
    fn duplicate(&self) -> (r: Self)
        ensures
            r.model() == self.model(),
    ;
}

} // verus!
