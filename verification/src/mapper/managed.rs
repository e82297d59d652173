//! The mapper a cartridge names, and the part of its memory that outlives the
//! console's power: battery-backed PRG and CHR RAM, saved and restored as one
//! run of bytes.

use super::nrom::{nrom_of, Nrom};
use super::mmc1::{mmc1_of, Mmc1};
use super::uxrom::{uxrom_of, Uxrom};
use super::cnrom::{cnrom_of, Cnrom};
use super::mmc3::{mmc3_of, Mmc3};
use super::axrom::{axrom_of, Axrom};
use super::mmc2::{mmc2_of, Mmc2};
use super::gnrom::{gnrom_of, Gnrom};
use super::{board, Mapper};
use crate::cartridge::{CartridgeMetadata, Mirroring, Rom};
use crate::text::{decimal, decimal_chars};
use vstd::prelude::*;

verus! {

/// One of the supported mappers. Over `Vec<u8>` the mapper itself, over
/// `Seq<u8>` its model.
pub enum Chip<T = Vec<u8>, R = [u8; 8]> {
    Nrom(Nrom<T>),
    Mmc1(Mmc1<T>),
    Uxrom(Uxrom<T>),
    Cnrom(Cnrom<T>),
    Mmc3(Mmc3<T, R>),
    Axrom(Axrom<T>),
    Mmc2(Mmc2<T>),
    Gnrom(Gnrom<T>),
}

pub type ChipModel = Chip<Seq<u8>, Seq<u8>>;

/// Whether a mapper number is one of the supported ones.
pub open spec fn supported(mapper: u16) -> bool {
    mapper == 0 || mapper == 1 || mapper == 2 || mapper == 3 || mapper == 4 || mapper == 7 || mapper == 9 || mapper == 66
}

/// Tells whether a mapper number is supported.
pub fn is_supported(mapper: u16) -> (r: bool)
    ensures
        r == supported(mapper),
{
    mapper == 0 || mapper == 1 || mapper == 2 || mapper == 3 || mapper == 4 || mapper == 7 || mapper == 9 || mapper == 66
}

/// The power-on model of the mapper that a cartridge names.
pub open spec fn chip_of(rom: Rom) -> ChipModel
    recommends
        supported(rom.mapper),
{
    if rom.mapper == 0 {
        Chip::Nrom(nrom_of(rom))
    } else if rom.mapper == 1 {
        Chip::Mmc1(mmc1_of(rom))
    } else if rom.mapper == 2 {
        Chip::Uxrom(uxrom_of(rom))
    } else if rom.mapper == 3 {
        Chip::Cnrom(cnrom_of(rom))
    } else if rom.mapper == 4 {
        Chip::Mmc3(mmc3_of(rom))
    } else if rom.mapper == 7 {
        Chip::Axrom(axrom_of(rom))
    } else if rom.mapper == 9 {
        Chip::Mmc2(mmc2_of(rom))
    } else {
        Chip::Gnrom(gnrom_of(rom))
    }
}

impl Mapper for Chip<Vec<u8>, [u8; 8]> {
    type Model = ChipModel;

    open spec fn model(&self) -> ChipModel {
        match *self {
            Chip::Nrom(chip) => Chip::Nrom(chip.model()),
            Chip::Mmc1(chip) => Chip::Mmc1(chip.model()),
            Chip::Uxrom(chip) => Chip::Uxrom(chip.model()),
            Chip::Cnrom(chip) => Chip::Cnrom(chip.model()),
            Chip::Mmc3(chip) => Chip::Mmc3(chip.model()),
            Chip::Axrom(chip) => Chip::Axrom(chip.model()),
            Chip::Mmc2(chip) => Chip::Mmc2(chip.model()),
            Chip::Gnrom(chip) => Chip::Gnrom(chip.model()),
        }
    }

    open spec fn sound(m: ChipModel) -> bool {
        match m {
            Chip::Nrom(chip) => Nrom::<Vec<u8>>::sound(chip),
            Chip::Mmc1(chip) => Mmc1::<Vec<u8>>::sound(chip),
            Chip::Uxrom(chip) => Uxrom::<Vec<u8>>::sound(chip),
            Chip::Cnrom(chip) => Cnrom::<Vec<u8>>::sound(chip),
            Chip::Mmc3(chip) => Mmc3::<Vec<u8>, [u8; 8]>::sound(chip),
            Chip::Axrom(chip) => Axrom::<Vec<u8>>::sound(chip),
            Chip::Mmc2(chip) => Mmc2::<Vec<u8>>::sound(chip),
            Chip::Gnrom(chip) => Gnrom::<Vec<u8>>::sound(chip),
        }
    }

    open spec fn complete(m: ChipModel) -> bool {
        match m {
            Chip::Nrom(chip) => Nrom::<Vec<u8>>::complete(chip),
            Chip::Mmc1(chip) => Mmc1::<Vec<u8>>::complete(chip),
            Chip::Uxrom(chip) => Uxrom::<Vec<u8>>::complete(chip),
            Chip::Cnrom(chip) => Cnrom::<Vec<u8>>::complete(chip),
            Chip::Mmc3(chip) => Mmc3::<Vec<u8>, [u8; 8]>::complete(chip),
            Chip::Axrom(chip) => Axrom::<Vec<u8>>::complete(chip),
            Chip::Mmc2(chip) => Mmc2::<Vec<u8>>::complete(chip),
            Chip::Gnrom(chip) => Gnrom::<Vec<u8>>::complete(chip),
        }
    }

    open spec fn cpu_readable(m: ChipModel, addr: u16) -> bool {
        match m {
            Chip::Nrom(chip) => Nrom::<Vec<u8>>::cpu_readable(chip, addr),
            Chip::Mmc1(chip) => Mmc1::<Vec<u8>>::cpu_readable(chip, addr),
            Chip::Uxrom(chip) => Uxrom::<Vec<u8>>::cpu_readable(chip, addr),
            Chip::Cnrom(chip) => Cnrom::<Vec<u8>>::cpu_readable(chip, addr),
            Chip::Mmc3(chip) => Mmc3::<Vec<u8>, [u8; 8]>::cpu_readable(chip, addr),
            Chip::Axrom(chip) => Axrom::<Vec<u8>>::cpu_readable(chip, addr),
            Chip::Mmc2(chip) => Mmc2::<Vec<u8>>::cpu_readable(chip, addr),
            Chip::Gnrom(chip) => Gnrom::<Vec<u8>>::cpu_readable(chip, addr),
        }
    }

    open spec fn ppu_accessible(m: ChipModel, addr: u16) -> bool {
        match m {
            Chip::Nrom(chip) => Nrom::<Vec<u8>>::ppu_accessible(chip, addr),
            Chip::Mmc1(chip) => Mmc1::<Vec<u8>>::ppu_accessible(chip, addr),
            Chip::Uxrom(chip) => Uxrom::<Vec<u8>>::ppu_accessible(chip, addr),
            Chip::Cnrom(chip) => Cnrom::<Vec<u8>>::ppu_accessible(chip, addr),
            Chip::Mmc3(chip) => Mmc3::<Vec<u8>, [u8; 8]>::ppu_accessible(chip, addr),
            Chip::Axrom(chip) => Axrom::<Vec<u8>>::ppu_accessible(chip, addr),
            Chip::Mmc2(chip) => Mmc2::<Vec<u8>>::ppu_accessible(chip, addr),
            Chip::Gnrom(chip) => Gnrom::<Vec<u8>>::ppu_accessible(chip, addr),
        }
    }

    open spec fn chr_writable(m: ChipModel) -> bool {
        match m {
            Chip::Nrom(chip) => Nrom::<Vec<u8>>::chr_writable(chip),
            Chip::Mmc1(chip) => Mmc1::<Vec<u8>>::chr_writable(chip),
            Chip::Uxrom(chip) => Uxrom::<Vec<u8>>::chr_writable(chip),
            Chip::Cnrom(chip) => Cnrom::<Vec<u8>>::chr_writable(chip),
            Chip::Mmc3(chip) => Mmc3::<Vec<u8>, [u8; 8]>::chr_writable(chip),
            Chip::Axrom(chip) => Axrom::<Vec<u8>>::chr_writable(chip),
            Chip::Mmc2(chip) => Mmc2::<Vec<u8>>::chr_writable(chip),
            Chip::Gnrom(chip) => Gnrom::<Vec<u8>>::chr_writable(chip),
        }
    }

    open spec fn cpu_value(m: ChipModel, addr: u16) -> u8 {
        match m {
            Chip::Nrom(chip) => Nrom::<Vec<u8>>::cpu_value(chip, addr),
            Chip::Mmc1(chip) => Mmc1::<Vec<u8>>::cpu_value(chip, addr),
            Chip::Uxrom(chip) => Uxrom::<Vec<u8>>::cpu_value(chip, addr),
            Chip::Cnrom(chip) => Cnrom::<Vec<u8>>::cpu_value(chip, addr),
            Chip::Mmc3(chip) => Mmc3::<Vec<u8>, [u8; 8]>::cpu_value(chip, addr),
            Chip::Axrom(chip) => Axrom::<Vec<u8>>::cpu_value(chip, addr),
            Chip::Mmc2(chip) => Mmc2::<Vec<u8>>::cpu_value(chip, addr),
            Chip::Gnrom(chip) => Gnrom::<Vec<u8>>::cpu_value(chip, addr),
        }
    }

    open spec fn ppu_value(m: ChipModel, addr: u16) -> u8 {
        match m {
            Chip::Nrom(chip) => Nrom::<Vec<u8>>::ppu_value(chip, addr),
            Chip::Mmc1(chip) => Mmc1::<Vec<u8>>::ppu_value(chip, addr),
            Chip::Uxrom(chip) => Uxrom::<Vec<u8>>::ppu_value(chip, addr),
            Chip::Cnrom(chip) => Cnrom::<Vec<u8>>::ppu_value(chip, addr),
            Chip::Mmc3(chip) => Mmc3::<Vec<u8>, [u8; 8]>::ppu_value(chip, addr),
            Chip::Axrom(chip) => Axrom::<Vec<u8>>::ppu_value(chip, addr),
            Chip::Mmc2(chip) => Mmc2::<Vec<u8>>::ppu_value(chip, addr),
            Chip::Gnrom(chip) => Gnrom::<Vec<u8>>::ppu_value(chip, addr),
        }
    }

    open spec fn mirroring_of(m: ChipModel) -> Mirroring {
        match m {
            Chip::Nrom(chip) => Nrom::<Vec<u8>>::mirroring_of(chip),
            Chip::Mmc1(chip) => Mmc1::<Vec<u8>>::mirroring_of(chip),
            Chip::Uxrom(chip) => Uxrom::<Vec<u8>>::mirroring_of(chip),
            Chip::Cnrom(chip) => Cnrom::<Vec<u8>>::mirroring_of(chip),
            Chip::Mmc3(chip) => Mmc3::<Vec<u8>, [u8; 8]>::mirroring_of(chip),
            Chip::Axrom(chip) => Axrom::<Vec<u8>>::mirroring_of(chip),
            Chip::Mmc2(chip) => Mmc2::<Vec<u8>>::mirroring_of(chip),
            Chip::Gnrom(chip) => Gnrom::<Vec<u8>>::mirroring_of(chip),
        }
    }

    open spec fn irq_of(m: ChipModel) -> bool {
        match m {
            Chip::Nrom(chip) => Nrom::<Vec<u8>>::irq_of(chip),
            Chip::Mmc1(chip) => Mmc1::<Vec<u8>>::irq_of(chip),
            Chip::Uxrom(chip) => Uxrom::<Vec<u8>>::irq_of(chip),
            Chip::Cnrom(chip) => Cnrom::<Vec<u8>>::irq_of(chip),
            Chip::Mmc3(chip) => Mmc3::<Vec<u8>, [u8; 8]>::irq_of(chip),
            Chip::Axrom(chip) => Axrom::<Vec<u8>>::irq_of(chip),
            Chip::Mmc2(chip) => Mmc2::<Vec<u8>>::irq_of(chip),
            Chip::Gnrom(chip) => Gnrom::<Vec<u8>>::irq_of(chip),
        }
    }

    open spec fn after_cpu_write(m: ChipModel, addr: u16, data: u8) -> ChipModel {
        match m {
            Chip::Nrom(chip) => Chip::Nrom(Nrom::<Vec<u8>>::after_cpu_write(chip, addr, data)),
            Chip::Mmc1(chip) => Chip::Mmc1(Mmc1::<Vec<u8>>::after_cpu_write(chip, addr, data)),
            Chip::Uxrom(chip) => Chip::Uxrom(Uxrom::<Vec<u8>>::after_cpu_write(chip, addr, data)),
            Chip::Cnrom(chip) => Chip::Cnrom(Cnrom::<Vec<u8>>::after_cpu_write(chip, addr, data)),
            Chip::Mmc3(chip) => Chip::Mmc3(Mmc3::<Vec<u8>, [u8; 8]>::after_cpu_write(chip, addr, data)),
            Chip::Axrom(chip) => Chip::Axrom(Axrom::<Vec<u8>>::after_cpu_write(chip, addr, data)),
            Chip::Mmc2(chip) => Chip::Mmc2(Mmc2::<Vec<u8>>::after_cpu_write(chip, addr, data)),
            Chip::Gnrom(chip) => Chip::Gnrom(Gnrom::<Vec<u8>>::after_cpu_write(chip, addr, data)),
        }
    }

    open spec fn after_cpu_write_at(m: ChipModel, addr: u16, data: u8, cpu_cycle: u64) -> ChipModel {
        match m {
            Chip::Nrom(chip) => Chip::Nrom(Nrom::<Vec<u8>>::after_cpu_write_at(chip, addr, data, cpu_cycle)),
            Chip::Mmc1(chip) => Chip::Mmc1(Mmc1::<Vec<u8>>::after_cpu_write_at(chip, addr, data, cpu_cycle)),
            Chip::Uxrom(chip) => Chip::Uxrom(Uxrom::<Vec<u8>>::after_cpu_write_at(chip, addr, data, cpu_cycle)),
            Chip::Cnrom(chip) => Chip::Cnrom(Cnrom::<Vec<u8>>::after_cpu_write_at(chip, addr, data, cpu_cycle)),
            Chip::Mmc3(chip) => Chip::Mmc3(Mmc3::<Vec<u8>, [u8; 8]>::after_cpu_write_at(chip, addr, data, cpu_cycle)),
            Chip::Axrom(chip) => Chip::Axrom(Axrom::<Vec<u8>>::after_cpu_write_at(chip, addr, data, cpu_cycle)),
            Chip::Mmc2(chip) => Chip::Mmc2(Mmc2::<Vec<u8>>::after_cpu_write_at(chip, addr, data, cpu_cycle)),
            Chip::Gnrom(chip) => Chip::Gnrom(Gnrom::<Vec<u8>>::after_cpu_write_at(chip, addr, data, cpu_cycle)),
        }
    }

    open spec fn after_ppu_read(m: ChipModel, addr: u16) -> ChipModel {
        match m {
            Chip::Nrom(chip) => Chip::Nrom(Nrom::<Vec<u8>>::after_ppu_read(chip, addr)),
            Chip::Mmc1(chip) => Chip::Mmc1(Mmc1::<Vec<u8>>::after_ppu_read(chip, addr)),
            Chip::Uxrom(chip) => Chip::Uxrom(Uxrom::<Vec<u8>>::after_ppu_read(chip, addr)),
            Chip::Cnrom(chip) => Chip::Cnrom(Cnrom::<Vec<u8>>::after_ppu_read(chip, addr)),
            Chip::Mmc3(chip) => Chip::Mmc3(Mmc3::<Vec<u8>, [u8; 8]>::after_ppu_read(chip, addr)),
            Chip::Axrom(chip) => Chip::Axrom(Axrom::<Vec<u8>>::after_ppu_read(chip, addr)),
            Chip::Mmc2(chip) => Chip::Mmc2(Mmc2::<Vec<u8>>::after_ppu_read(chip, addr)),
            Chip::Gnrom(chip) => Chip::Gnrom(Gnrom::<Vec<u8>>::after_ppu_read(chip, addr)),
        }
    }

    open spec fn after_ppu_write(m: ChipModel, addr: u16, data: u8) -> ChipModel {
        match m {
            Chip::Nrom(chip) => Chip::Nrom(Nrom::<Vec<u8>>::after_ppu_write(chip, addr, data)),
            Chip::Mmc1(chip) => Chip::Mmc1(Mmc1::<Vec<u8>>::after_ppu_write(chip, addr, data)),
            Chip::Uxrom(chip) => Chip::Uxrom(Uxrom::<Vec<u8>>::after_ppu_write(chip, addr, data)),
            Chip::Cnrom(chip) => Chip::Cnrom(Cnrom::<Vec<u8>>::after_ppu_write(chip, addr, data)),
            Chip::Mmc3(chip) => Chip::Mmc3(Mmc3::<Vec<u8>, [u8; 8]>::after_ppu_write(chip, addr, data)),
            Chip::Axrom(chip) => Chip::Axrom(Axrom::<Vec<u8>>::after_ppu_write(chip, addr, data)),
            Chip::Mmc2(chip) => Chip::Mmc2(Mmc2::<Vec<u8>>::after_ppu_write(chip, addr, data)),
            Chip::Gnrom(chip) => Chip::Gnrom(Gnrom::<Vec<u8>>::after_ppu_write(chip, addr, data)),
        }
    }

    open spec fn after_ppu_bus_access(m: ChipModel, addr: u16, ppu_cycle: u64) -> ChipModel {
        match m {
            Chip::Nrom(chip) => Chip::Nrom(Nrom::<Vec<u8>>::after_ppu_bus_access(chip, addr, ppu_cycle)),
            Chip::Mmc1(chip) => Chip::Mmc1(Mmc1::<Vec<u8>>::after_ppu_bus_access(chip, addr, ppu_cycle)),
            Chip::Uxrom(chip) => Chip::Uxrom(Uxrom::<Vec<u8>>::after_ppu_bus_access(chip, addr, ppu_cycle)),
            Chip::Cnrom(chip) => Chip::Cnrom(Cnrom::<Vec<u8>>::after_ppu_bus_access(chip, addr, ppu_cycle)),
            Chip::Mmc3(chip) => Chip::Mmc3(Mmc3::<Vec<u8>, [u8; 8]>::after_ppu_bus_access(chip, addr, ppu_cycle)),
            Chip::Axrom(chip) => Chip::Axrom(Axrom::<Vec<u8>>::after_ppu_bus_access(chip, addr, ppu_cycle)),
            Chip::Mmc2(chip) => Chip::Mmc2(Mmc2::<Vec<u8>>::after_ppu_bus_access(chip, addr, ppu_cycle)),
            Chip::Gnrom(chip) => Chip::Gnrom(Gnrom::<Vec<u8>>::after_ppu_bus_access(chip, addr, ppu_cycle)),
        }
    }

    open spec fn after_reset(m: ChipModel) -> ChipModel {
        match m {
            Chip::Nrom(chip) => Chip::Nrom(Nrom::<Vec<u8>>::after_reset(chip)),
            Chip::Mmc1(chip) => Chip::Mmc1(Mmc1::<Vec<u8>>::after_reset(chip)),
            Chip::Uxrom(chip) => Chip::Uxrom(Uxrom::<Vec<u8>>::after_reset(chip)),
            Chip::Cnrom(chip) => Chip::Cnrom(Cnrom::<Vec<u8>>::after_reset(chip)),
            Chip::Mmc3(chip) => Chip::Mmc3(Mmc3::<Vec<u8>, [u8; 8]>::after_reset(chip)),
            Chip::Axrom(chip) => Chip::Axrom(Axrom::<Vec<u8>>::after_reset(chip)),
            Chip::Mmc2(chip) => Chip::Mmc2(Mmc2::<Vec<u8>>::after_reset(chip)),
            Chip::Gnrom(chip) => Chip::Gnrom(Gnrom::<Vec<u8>>::after_reset(chip)),
        }
    }

    open spec fn prg_ram_of(m: ChipModel) -> Option<Seq<u8>> {
        match m {
            Chip::Nrom(chip) => Nrom::<Vec<u8>>::prg_ram_of(chip),
            Chip::Mmc1(chip) => Mmc1::<Vec<u8>>::prg_ram_of(chip),
            Chip::Uxrom(chip) => Uxrom::<Vec<u8>>::prg_ram_of(chip),
            Chip::Cnrom(chip) => Cnrom::<Vec<u8>>::prg_ram_of(chip),
            Chip::Mmc3(chip) => Mmc3::<Vec<u8>, [u8; 8]>::prg_ram_of(chip),
            Chip::Axrom(chip) => Axrom::<Vec<u8>>::prg_ram_of(chip),
            Chip::Mmc2(chip) => Mmc2::<Vec<u8>>::prg_ram_of(chip),
            Chip::Gnrom(chip) => Gnrom::<Vec<u8>>::prg_ram_of(chip),
        }
    }

    open spec fn chr_ram_of(m: ChipModel) -> Option<Seq<u8>> {
        match m {
            Chip::Nrom(chip) => Nrom::<Vec<u8>>::chr_ram_of(chip),
            Chip::Mmc1(chip) => Mmc1::<Vec<u8>>::chr_ram_of(chip),
            Chip::Uxrom(chip) => Uxrom::<Vec<u8>>::chr_ram_of(chip),
            Chip::Cnrom(chip) => Cnrom::<Vec<u8>>::chr_ram_of(chip),
            Chip::Mmc3(chip) => Mmc3::<Vec<u8>, [u8; 8]>::chr_ram_of(chip),
            Chip::Axrom(chip) => Axrom::<Vec<u8>>::chr_ram_of(chip),
            Chip::Mmc2(chip) => Mmc2::<Vec<u8>>::chr_ram_of(chip),
            Chip::Gnrom(chip) => Gnrom::<Vec<u8>>::chr_ram_of(chip),
        }
    }

    open spec fn with_prg_ram(m: ChipModel, ram: Seq<u8>) -> ChipModel {
        match m {
            Chip::Nrom(chip) => Chip::Nrom(Nrom::<Vec<u8>>::with_prg_ram(chip, ram)),
            Chip::Mmc1(chip) => Chip::Mmc1(Mmc1::<Vec<u8>>::with_prg_ram(chip, ram)),
            Chip::Uxrom(chip) => Chip::Uxrom(Uxrom::<Vec<u8>>::with_prg_ram(chip, ram)),
            Chip::Cnrom(chip) => Chip::Cnrom(Cnrom::<Vec<u8>>::with_prg_ram(chip, ram)),
            Chip::Mmc3(chip) => Chip::Mmc3(Mmc3::<Vec<u8>, [u8; 8]>::with_prg_ram(chip, ram)),
            Chip::Axrom(chip) => Chip::Axrom(Axrom::<Vec<u8>>::with_prg_ram(chip, ram)),
            Chip::Mmc2(chip) => Chip::Mmc2(Mmc2::<Vec<u8>>::with_prg_ram(chip, ram)),
            Chip::Gnrom(chip) => Chip::Gnrom(Gnrom::<Vec<u8>>::with_prg_ram(chip, ram)),
        }
    }

    open spec fn with_chr_ram(m: ChipModel, ram: Seq<u8>) -> ChipModel {
        match m {
            Chip::Nrom(chip) => Chip::Nrom(Nrom::<Vec<u8>>::with_chr_ram(chip, ram)),
            Chip::Mmc1(chip) => Chip::Mmc1(Mmc1::<Vec<u8>>::with_chr_ram(chip, ram)),
            Chip::Uxrom(chip) => Chip::Uxrom(Uxrom::<Vec<u8>>::with_chr_ram(chip, ram)),
            Chip::Cnrom(chip) => Chip::Cnrom(Cnrom::<Vec<u8>>::with_chr_ram(chip, ram)),
            Chip::Mmc3(chip) => Chip::Mmc3(Mmc3::<Vec<u8>, [u8; 8]>::with_chr_ram(chip, ram)),
            Chip::Axrom(chip) => Chip::Axrom(Axrom::<Vec<u8>>::with_chr_ram(chip, ram)),
            Chip::Mmc2(chip) => Chip::Mmc2(Mmc2::<Vec<u8>>::with_chr_ram(chip, ram)),
            Chip::Gnrom(chip) => Chip::Gnrom(Gnrom::<Vec<u8>>::with_chr_ram(chip, ram)),
        }
    }

    proof fn ppu_accesses_keep_mirroring(m: ChipModel, addr: u16, ppu_cycle: u64) {
    }

    proof fn complete_answers(m: ChipModel, addr: u16) {
        match m {
            Chip::Nrom(chip) => {
                Nrom::<Vec<u8>>::complete_answers(chip, addr);
            },
            Chip::Mmc1(chip) => {
                Mmc1::<Vec<u8>>::complete_answers(chip, addr);
            },
            Chip::Uxrom(chip) => {
                Uxrom::<Vec<u8>>::complete_answers(chip, addr);
            },
            Chip::Cnrom(chip) => {
                Cnrom::<Vec<u8>>::complete_answers(chip, addr);
            },
            Chip::Mmc3(chip) => {
                Mmc3::<Vec<u8>, [u8; 8]>::complete_answers(chip, addr);
            },
            Chip::Axrom(chip) => {
                Axrom::<Vec<u8>>::complete_answers(chip, addr);
            },
            Chip::Mmc2(chip) => {
                Mmc2::<Vec<u8>>::complete_answers(chip, addr);
            },
            Chip::Gnrom(chip) => {
                Gnrom::<Vec<u8>>::complete_answers(chip, addr);
            },
        }
    }

    fn cpu_read(&mut self, addr: u16) -> (r: u8) {
        match self {
            Chip::Nrom(chip) => chip.cpu_read(addr),
            Chip::Mmc1(chip) => chip.cpu_read(addr),
            Chip::Uxrom(chip) => chip.cpu_read(addr),
            Chip::Cnrom(chip) => chip.cpu_read(addr),
            Chip::Mmc3(chip) => chip.cpu_read(addr),
            Chip::Axrom(chip) => chip.cpu_read(addr),
            Chip::Mmc2(chip) => chip.cpu_read(addr),
            Chip::Gnrom(chip) => chip.cpu_read(addr),
        }
    }

    fn cpu_write(&mut self, addr: u16, data: u8) {
        match self {
            Chip::Nrom(chip) => chip.cpu_write(addr, data),
            Chip::Mmc1(chip) => chip.cpu_write(addr, data),
            Chip::Uxrom(chip) => chip.cpu_write(addr, data),
            Chip::Cnrom(chip) => chip.cpu_write(addr, data),
            Chip::Mmc3(chip) => chip.cpu_write(addr, data),
            Chip::Axrom(chip) => chip.cpu_write(addr, data),
            Chip::Mmc2(chip) => chip.cpu_write(addr, data),
            Chip::Gnrom(chip) => chip.cpu_write(addr, data),
        }
    }

    fn cpu_write_at(&mut self, addr: u16, data: u8, cpu_cycle: u64) {
        match self {
            Chip::Nrom(chip) => chip.cpu_write_at(addr, data, cpu_cycle),
            Chip::Mmc1(chip) => chip.cpu_write_at(addr, data, cpu_cycle),
            Chip::Uxrom(chip) => chip.cpu_write_at(addr, data, cpu_cycle),
            Chip::Cnrom(chip) => chip.cpu_write_at(addr, data, cpu_cycle),
            Chip::Mmc3(chip) => chip.cpu_write_at(addr, data, cpu_cycle),
            Chip::Axrom(chip) => chip.cpu_write_at(addr, data, cpu_cycle),
            Chip::Mmc2(chip) => chip.cpu_write_at(addr, data, cpu_cycle),
            Chip::Gnrom(chip) => chip.cpu_write_at(addr, data, cpu_cycle),
        }
    }

    fn ppu_read(&mut self, addr: u16) -> (r: u8) {
        match self {
            Chip::Nrom(chip) => chip.ppu_read(addr),
            Chip::Mmc1(chip) => chip.ppu_read(addr),
            Chip::Uxrom(chip) => chip.ppu_read(addr),
            Chip::Cnrom(chip) => chip.ppu_read(addr),
            Chip::Mmc3(chip) => chip.ppu_read(addr),
            Chip::Axrom(chip) => chip.ppu_read(addr),
            Chip::Mmc2(chip) => chip.ppu_read(addr),
            Chip::Gnrom(chip) => chip.ppu_read(addr),
        }
    }

    fn ppu_write(&mut self, addr: u16, data: u8) {
        match self {
            Chip::Nrom(chip) => chip.ppu_write(addr, data),
            Chip::Mmc1(chip) => chip.ppu_write(addr, data),
            Chip::Uxrom(chip) => chip.ppu_write(addr, data),
            Chip::Cnrom(chip) => chip.ppu_write(addr, data),
            Chip::Mmc3(chip) => chip.ppu_write(addr, data),
            Chip::Axrom(chip) => chip.ppu_write(addr, data),
            Chip::Mmc2(chip) => chip.ppu_write(addr, data),
            Chip::Gnrom(chip) => chip.ppu_write(addr, data),
        }
    }

    fn mirroring(&self) -> (r: Mirroring) {
        match self {
            Chip::Nrom(chip) => chip.mirroring(),
            Chip::Mmc1(chip) => chip.mirroring(),
            Chip::Uxrom(chip) => chip.mirroring(),
            Chip::Cnrom(chip) => chip.mirroring(),
            Chip::Mmc3(chip) => chip.mirroring(),
            Chip::Axrom(chip) => chip.mirroring(),
            Chip::Mmc2(chip) => chip.mirroring(),
            Chip::Gnrom(chip) => chip.mirroring(),
        }
    }

    fn on_ppu_bus_access(&mut self, addr: u16, ppu_cycle: u64) {
        match self {
            Chip::Nrom(chip) => chip.on_ppu_bus_access(addr, ppu_cycle),
            Chip::Mmc1(chip) => chip.on_ppu_bus_access(addr, ppu_cycle),
            Chip::Uxrom(chip) => chip.on_ppu_bus_access(addr, ppu_cycle),
            Chip::Cnrom(chip) => chip.on_ppu_bus_access(addr, ppu_cycle),
            Chip::Mmc3(chip) => chip.on_ppu_bus_access(addr, ppu_cycle),
            Chip::Axrom(chip) => chip.on_ppu_bus_access(addr, ppu_cycle),
            Chip::Mmc2(chip) => chip.on_ppu_bus_access(addr, ppu_cycle),
            Chip::Gnrom(chip) => chip.on_ppu_bus_access(addr, ppu_cycle),
        }
    }

    fn irq_pending(&self) -> (r: bool) {
        match self {
            Chip::Nrom(chip) => chip.irq_pending(),
            Chip::Mmc1(chip) => chip.irq_pending(),
            Chip::Uxrom(chip) => chip.irq_pending(),
            Chip::Cnrom(chip) => chip.irq_pending(),
            Chip::Mmc3(chip) => chip.irq_pending(),
            Chip::Axrom(chip) => chip.irq_pending(),
            Chip::Mmc2(chip) => chip.irq_pending(),
            Chip::Gnrom(chip) => chip.irq_pending(),
        }
    }

    fn reset(&mut self) {
        match self {
            Chip::Nrom(chip) => chip.reset(),
            Chip::Mmc1(chip) => chip.reset(),
            Chip::Uxrom(chip) => chip.reset(),
            Chip::Cnrom(chip) => chip.reset(),
            Chip::Mmc3(chip) => chip.reset(),
            Chip::Axrom(chip) => chip.reset(),
            Chip::Mmc2(chip) => chip.reset(),
            Chip::Gnrom(chip) => chip.reset(),
        }
    }

    fn prg_ram(&self) -> (r: Option<&[u8]>) {
        match self {
            Chip::Nrom(chip) => chip.prg_ram(),
            Chip::Mmc1(chip) => chip.prg_ram(),
            Chip::Uxrom(chip) => chip.prg_ram(),
            Chip::Cnrom(chip) => chip.prg_ram(),
            Chip::Mmc3(chip) => chip.prg_ram(),
            Chip::Axrom(chip) => chip.prg_ram(),
            Chip::Mmc2(chip) => chip.prg_ram(),
            Chip::Gnrom(chip) => chip.prg_ram(),
        }
    }

    fn chr_ram(&self) -> (r: Option<&[u8]>) {
        match self {
            Chip::Nrom(chip) => chip.chr_ram(),
            Chip::Mmc1(chip) => chip.chr_ram(),
            Chip::Uxrom(chip) => chip.chr_ram(),
            Chip::Cnrom(chip) => chip.chr_ram(),
            Chip::Mmc3(chip) => chip.chr_ram(),
            Chip::Axrom(chip) => chip.chr_ram(),
            Chip::Mmc2(chip) => chip.chr_ram(),
            Chip::Gnrom(chip) => chip.chr_ram(),
        }
    }

    fn store_prg_ram(&mut self, start: usize, bytes: &[u8]) {
        match self {
            Chip::Nrom(chip) => chip.store_prg_ram(start, bytes),
            Chip::Mmc1(chip) => chip.store_prg_ram(start, bytes),
            Chip::Uxrom(chip) => chip.store_prg_ram(start, bytes),
            Chip::Cnrom(chip) => chip.store_prg_ram(start, bytes),
            Chip::Mmc3(chip) => chip.store_prg_ram(start, bytes),
            Chip::Axrom(chip) => chip.store_prg_ram(start, bytes),
            Chip::Mmc2(chip) => chip.store_prg_ram(start, bytes),
            Chip::Gnrom(chip) => chip.store_prg_ram(start, bytes),
        }
    }

    fn store_chr_ram(&mut self, start: usize, bytes: &[u8]) {
        match self {
            Chip::Nrom(chip) => chip.store_chr_ram(start, bytes),
            Chip::Mmc1(chip) => chip.store_chr_ram(start, bytes),
            Chip::Uxrom(chip) => chip.store_chr_ram(start, bytes),
            Chip::Cnrom(chip) => chip.store_chr_ram(start, bytes),
            Chip::Mmc3(chip) => chip.store_chr_ram(start, bytes),
            Chip::Axrom(chip) => chip.store_chr_ram(start, bytes),
            Chip::Mmc2(chip) => chip.store_chr_ram(start, bytes),
            Chip::Gnrom(chip) => chip.store_chr_ram(start, bytes),
        }
    }

    fn is_complete(&self) -> (r: bool) {
        match self {
            Chip::Nrom(chip) => chip.is_complete(),
            Chip::Mmc1(chip) => chip.is_complete(),
            Chip::Uxrom(chip) => chip.is_complete(),
            Chip::Cnrom(chip) => chip.is_complete(),
            Chip::Mmc3(chip) => chip.is_complete(),
            Chip::Axrom(chip) => chip.is_complete(),
            Chip::Mmc2(chip) => chip.is_complete(),
            Chip::Gnrom(chip) => chip.is_complete(),
        }
    }

    fn duplicate(&self) -> (r: Self) {
        match self {
            Chip::Nrom(chip) => Chip::Nrom(chip.duplicate()),
            Chip::Mmc1(chip) => Chip::Mmc1(chip.duplicate()),
            Chip::Uxrom(chip) => Chip::Uxrom(chip.duplicate()),
            Chip::Cnrom(chip) => Chip::Cnrom(chip.duplicate()),
            Chip::Mmc3(chip) => Chip::Mmc3(chip.duplicate()),
            Chip::Axrom(chip) => Chip::Axrom(chip.duplicate()),
            Chip::Mmc2(chip) => Chip::Mmc2(chip.duplicate()),
            Chip::Gnrom(chip) => Chip::Gnrom(chip.duplicate()),
        }
    }
}

/// A mapper together with the cartridge's memory declarations. Over `Chip` the
/// mapper itself, over `ChipModel` its model.
pub struct ManagedMapper<C = Chip> {
    pub inner: C,
    pub metadata: CartridgeMetadata,
}

pub type ManagedModel = ManagedMapper<ChipModel>;

/// The power-on model of a cartridge.
pub open spec fn managed_of(rom: Rom) -> ManagedModel
    recommends
        supported(rom.mapper),
{
    ManagedMapper { inner: chip_of(rom), metadata: rom.metadata }
}

/// Builds the mapper named by the cartridge header.
pub fn from_rom(rom: Rom) -> (r: ManagedMapper)
    requires
        supported(rom.mapper),
    ensures
        r.model() == managed_of(rom),
        ManagedMapper::<Chip>::sound(r.model()),
{
    let metadata = rom.metadata;
    let inner = match rom.mapper {
        0 => Chip::Nrom(Nrom::from_rom(rom)),
        1 => Chip::Mmc1(Mmc1::from_rom(rom)),
        2 => Chip::Uxrom(Uxrom::from_rom(rom)),
        3 => Chip::Cnrom(Cnrom::from_rom(rom)),
        4 => Chip::Mmc3(Mmc3::from_rom(rom)),
        7 => Chip::Axrom(Axrom::from_rom(rom)),
        9 => Chip::Mmc2(Mmc2::from_rom(rom)),
        _ => Chip::Gnrom(Gnrom::from_rom(rom)),
    };
    ManagedMapper { inner, metadata }
}

impl Mapper for ManagedMapper<Chip> {
    type Model = ManagedModel;

    open spec fn model(&self) -> ManagedModel {
        ManagedMapper { inner: self.inner.model(), metadata: self.metadata }
    }

    open spec fn sound(m: ManagedModel) -> bool {
        Chip::<Vec<u8>, [u8; 8]>::sound(m.inner)
    }

    open spec fn complete(m: ManagedModel) -> bool {
        Chip::<Vec<u8>, [u8; 8]>::complete(m.inner)
    }

    open spec fn cpu_readable(m: ManagedModel, addr: u16) -> bool {
        Chip::<Vec<u8>, [u8; 8]>::cpu_readable(m.inner, addr)
    }

    open spec fn ppu_accessible(m: ManagedModel, addr: u16) -> bool {
        Chip::<Vec<u8>, [u8; 8]>::ppu_accessible(m.inner, addr)
    }

    open spec fn chr_writable(m: ManagedModel) -> bool {
        Chip::<Vec<u8>, [u8; 8]>::chr_writable(m.inner)
    }

    open spec fn cpu_value(m: ManagedModel, addr: u16) -> u8 {
        Chip::<Vec<u8>, [u8; 8]>::cpu_value(m.inner, addr)
    }

    open spec fn ppu_value(m: ManagedModel, addr: u16) -> u8 {
        Chip::<Vec<u8>, [u8; 8]>::ppu_value(m.inner, addr)
    }

    open spec fn mirroring_of(m: ManagedModel) -> Mirroring {
        Chip::<Vec<u8>, [u8; 8]>::mirroring_of(m.inner)
    }

    open spec fn irq_of(m: ManagedModel) -> bool {
        Chip::<Vec<u8>, [u8; 8]>::irq_of(m.inner)
    }

    open spec fn prg_ram_of(m: ManagedModel) -> Option<Seq<u8>> {
        Chip::<Vec<u8>, [u8; 8]>::prg_ram_of(m.inner)
    }

    open spec fn chr_ram_of(m: ManagedModel) -> Option<Seq<u8>> {
        Chip::<Vec<u8>, [u8; 8]>::chr_ram_of(m.inner)
    }

    open spec fn after_cpu_write(m: ManagedModel, addr: u16, data: u8) -> ManagedModel {
        ManagedMapper { inner: Chip::<Vec<u8>, [u8; 8]>::after_cpu_write(m.inner, addr, data), ..m }
    }

    open spec fn after_cpu_write_at(m: ManagedModel, addr: u16, data: u8, cpu_cycle: u64) -> ManagedModel {
        ManagedMapper { inner: Chip::<Vec<u8>, [u8; 8]>::after_cpu_write_at(m.inner, addr, data, cpu_cycle), ..m }
    }

    open spec fn after_ppu_read(m: ManagedModel, addr: u16) -> ManagedModel {
        ManagedMapper { inner: Chip::<Vec<u8>, [u8; 8]>::after_ppu_read(m.inner, addr), ..m }
    }

    open spec fn after_ppu_write(m: ManagedModel, addr: u16, data: u8) -> ManagedModel {
        ManagedMapper { inner: Chip::<Vec<u8>, [u8; 8]>::after_ppu_write(m.inner, addr, data), ..m }
    }

    open spec fn after_ppu_bus_access(m: ManagedModel, addr: u16, ppu_cycle: u64) -> ManagedModel {
        ManagedMapper { inner: Chip::<Vec<u8>, [u8; 8]>::after_ppu_bus_access(m.inner, addr, ppu_cycle), ..m }
    }

    open spec fn after_reset(m: ManagedModel) -> ManagedModel {
        ManagedMapper { inner: Chip::<Vec<u8>, [u8; 8]>::after_reset(m.inner), ..m }
    }

    open spec fn with_prg_ram(m: ManagedModel, ram: Seq<u8>) -> ManagedModel {
        ManagedMapper { inner: Chip::<Vec<u8>, [u8; 8]>::with_prg_ram(m.inner, ram), ..m }
    }

    open spec fn with_chr_ram(m: ManagedModel, ram: Seq<u8>) -> ManagedModel {
        ManagedMapper { inner: Chip::<Vec<u8>, [u8; 8]>::with_chr_ram(m.inner, ram), ..m }
    }

    proof fn ppu_accesses_keep_mirroring(m: ManagedModel, addr: u16, ppu_cycle: u64) {
        Chip::<Vec<u8>, [u8; 8]>::ppu_accesses_keep_mirroring(m.inner, addr, ppu_cycle);
    }

    proof fn complete_answers(m: ManagedModel, addr: u16) {
        Chip::<Vec<u8>, [u8; 8]>::complete_answers(m.inner, addr);
    }

    fn cpu_read(&mut self, addr: u16) -> (r: u8) {
        self.inner.cpu_read(addr)
    }

    fn cpu_write(&mut self, addr: u16, data: u8) {
        self.inner.cpu_write(addr, data);
    }

    fn cpu_write_at(&mut self, addr: u16, data: u8, cpu_cycle: u64) {
        self.inner.cpu_write_at(addr, data, cpu_cycle);
    }

    fn ppu_read(&mut self, addr: u16) -> (r: u8) {
        self.inner.ppu_read(addr)
    }

    fn ppu_write(&mut self, addr: u16, data: u8) {
        self.inner.ppu_write(addr, data);
    }

    fn mirroring(&self) -> (r: Mirroring) {
        self.inner.mirroring()
    }

    fn on_ppu_bus_access(&mut self, addr: u16, ppu_cycle: u64) {
        self.inner.on_ppu_bus_access(addr, ppu_cycle);
    }

    fn irq_pending(&self) -> (r: bool) {
        self.inner.irq_pending()
    }

    fn reset(&mut self) {
        self.inner.reset();
    }

    fn prg_ram(&self) -> (r: Option<&[u8]>) {
        self.inner.prg_ram()
    }

    fn chr_ram(&self) -> (r: Option<&[u8]>) {
        self.inner.chr_ram()
    }

    fn store_prg_ram(&mut self, start: usize, bytes: &[u8]) {
        self.inner.store_prg_ram(start, bytes);
    }

    fn store_chr_ram(&mut self, start: usize, bytes: &[u8]) {
        self.inner.store_chr_ram(start, bytes);
    }

    fn is_complete(&self) -> (r: bool) {
        self.inner.is_complete()
    }

    fn duplicate(&self) -> (r: Self) {
        ManagedMapper { inner: self.inner.duplicate(), metadata: self.metadata }
    }
}

// ---- Save data --------------------------------------------------------------

/// Bytes in a save file: battery-backed PRG RAM, then battery-backed CHR RAM.
pub open spec fn save_size(metadata: CartridgeMetadata) -> int {
    metadata.prg_nvram_size + metadata.chr_nvram_size
}

/// Why `ram` cannot hold `nonvolatile` bytes behind `volatile` ones.
pub open spec fn ram_complaint(
    ram: Option<Seq<u8>>,
    volatile: usize,
    nonvolatile: usize,
    absent: Seq<char>,
    small: Seq<char>,
) -> Option<Seq<char>> {
    if nonvolatile == 0 {
        None
    } else if ram is None {
        Some(absent)
    } else if volatile + nonvolatile > ram->0.len() {
        Some(small)
    } else {
        None
    }
}

pub open spec fn prg_complaint(m: ManagedModel) -> Option<Seq<char>> {
    ram_complaint(
        ManagedMapper::<Chip>::prg_ram_of(m),
        m.metadata.prg_ram_size,
        m.metadata.prg_nvram_size,
        "mapper exposes no PRG RAM"@,
        "mapper PRG RAM is smaller than cartridge metadata"@,
    )
}

pub open spec fn chr_complaint(m: ManagedModel) -> Option<Seq<char>> {
    ram_complaint(
        ManagedMapper::<Chip>::chr_ram_of(m),
        m.metadata.chr_ram_size,
        m.metadata.chr_nvram_size,
        "mapper exposes no CHR RAM"@,
        "mapper CHR RAM is smaller than cartridge metadata"@,
    )
}

/// The battery-backed part of a RAM: what lies behind its volatile part.
pub open spec fn nonvolatile_part(
    ram: Option<Seq<u8>>,
    volatile: usize,
    nonvolatile: usize,
) -> Seq<u8> {
    if nonvolatile == 0 {
        Seq::empty()
    } else {
        ram->0.subrange(volatile as int, volatile + nonvolatile)
    }
}

/// The save file of a mapper that has no complaint about its memory.
pub open spec fn save_data(m: ManagedModel) -> Seq<u8> {
    nonvolatile_part(
        ManagedMapper::<Chip>::prg_ram_of(m),
        m.metadata.prg_ram_size,
        m.metadata.prg_nvram_size,
    ) + nonvolatile_part(
        ManagedMapper::<Chip>::chr_ram_of(m),
        m.metadata.chr_ram_size,
        m.metadata.chr_nvram_size,
    )
}

/// `m` with the PRG part of a save file put back.
pub open spec fn prg_restored(
    m: ManagedModel,
    bytes: Seq<u8>,
) -> ManagedModel {
    if m.metadata.prg_nvram_size == 0 {
        m
    } else {
        ManagedMapper::<Chip>::with_prg_ram(
            m,
            board::overlay(
                ManagedMapper::<Chip>::prg_ram_of(m)->0,
                m.metadata.prg_ram_size as int,
                bytes.take(m.metadata.prg_nvram_size as int),
            ),
        )
    }
}

/// `m` with the CHR part of a save file put back.
pub open spec fn chr_restored(
    m: ManagedModel,
    bytes: Seq<u8>,
) -> ManagedModel {
    if m.metadata.chr_nvram_size == 0 {
        m
    } else {
        ManagedMapper::<Chip>::with_chr_ram(
            m,
            board::overlay(
                ManagedMapper::<Chip>::chr_ram_of(m)->0,
                m.metadata.chr_ram_size as int,
                bytes.skip(m.metadata.prg_nvram_size as int),
            ),
        )
    }
}

/// The refusal of a save file of the wrong length.
pub open spec fn length_complaint(name: Seq<char>, len: nat, expected: nat) -> Seq<char> {
    "save "@ + name + " has "@ + decimal_chars(len) + " bytes; cartridge expects "@
        + decimal_chars(expected)
}

/// Declared sizes that the address space can hold together.
pub open spec fn sizes_fit(metadata: CartridgeMetadata) -> bool {
    &&& metadata.prg_nvram_size + metadata.chr_nvram_size <= usize::MAX
    &&& metadata.prg_ram_size + metadata.prg_nvram_size <= usize::MAX
    &&& metadata.chr_ram_size + metadata.chr_nvram_size <= usize::MAX
}

impl ManagedMapper<Chip> {
    /// Puts a save file called `name` back into battery-backed memory. A file
    /// of the wrong length changes nothing; PRG RAM is restored before a
    /// complaint about CHR RAM is raised.
    pub fn load(&mut self, name: &str, bytes: &[u8]) -> (r: Result<(), String>)
        requires
            sizes_fit(old(self).metadata),
            Self::sound(old(self).model()),
        ensures
            Self::sound(final(self).model()),
            Self::complete(old(self).model()) ==> Self::complete(final(self).model()),
            ({
                let before = old(self).model();
                let metadata = old(self).metadata;
                let prg = prg_restored(before, bytes@);
                if bytes@.len() != save_size(metadata) {
                    &&& r matches Err(message)
                    &&& message@ == length_complaint(
                        name@,
                        bytes@.len(),
                        save_size(metadata) as nat,
                    )
                    &&& final(self).model() == before
                } else if prg_complaint(before) is Some {
                    &&& r matches Err(message)
                    &&& Some(message@) == prg_complaint(before)
                    &&& final(self).model() == before
                } else if chr_complaint(prg) is Some {
                    &&& r matches Err(message)
                    &&& Some(message@) == chr_complaint(prg)
                    &&& final(self).model() == prg
                } else {
                    &&& r is Ok
                    &&& final(self).model() == chr_restored(prg, bytes@)
                }
            }),
    {
        let prg_size: usize = self.metadata.prg_nvram_size;
        let chr_size: usize = self.metadata.chr_nvram_size;
        let expected: usize = prg_size + chr_size;
        if bytes.len() != expected {
            let mut message = String::from_str("save ");
            message.append(name);
            message.append(" has ");
            message.append(decimal(bytes.len() as u64).as_str());
            message.append(" bytes; cartridge expects ");
            message.append(decimal(expected as u64).as_str());
            return Err(message);
        }
        if prg_size != 0 {
            let len: usize = match self.prg_ram() {
                Some(ram) => ram.len(),
                None => {
                    return Err(String::from_str("mapper exposes no PRG RAM"));
                },
            };
            let start: usize = self.metadata.prg_ram_size;
            if start + prg_size > len {
                return Err(
                    String::from_str("mapper PRG RAM is smaller than cartridge metadata"),
                );
            }
            let part = vstd::slice::slice_subrange(bytes, 0, prg_size);
            assert(part@ =~= bytes@.take(prg_size as int));
            self.store_prg_ram(start, part);
        }
        if chr_size != 0 {
            let len: usize = match self.chr_ram() {
                Some(ram) => ram.len(),
                None => {
                    return Err(String::from_str("mapper exposes no CHR RAM"));
                },
            };
            let start: usize = self.metadata.chr_ram_size;
            if start + chr_size > len {
                return Err(
                    String::from_str("mapper CHR RAM is smaller than cartridge metadata"),
                );
            }
            let part = vstd::slice::slice_subrange(bytes, prg_size, bytes.len());
            assert(part@ =~= bytes@.skip(prg_size as int));
            self.store_chr_ram(start, part);
        }
        Ok(())
    }

    /// The bytes of a save file.
    pub fn save_bytes(&self) -> (r: Result<Vec<u8>, String>)
        requires
            sizes_fit(self.metadata),
        ensures
            match r {
                Ok(bytes) => prg_complaint(self.model()) is None && chr_complaint(self.model()) is None && bytes@ == save_data(self.model()),
                Err(message) => if prg_complaint(self.model()) is Some {
                    Some(message@) == prg_complaint(self.model())
                } else {
                    Some(message@) == chr_complaint(self.model())
                },
            },
    {
        let mut bytes: Vec<u8> = Vec::new();
        if self.metadata.prg_nvram_size != 0 {
            let ram = match self.prg_ram() {
                Some(ram) => ram,
                None => {
                    return Err(String::from_str("mapper exposes no PRG RAM"));
                },
            };
            let start: usize = self.metadata.prg_ram_size;
            let end: usize = start + self.metadata.prg_nvram_size;
            if end > ram.len() {
                return Err(
                    String::from_str("mapper PRG RAM is smaller than cartridge metadata"),
                );
            }
            bytes = vstd::slice::slice_to_vec(vstd::slice::slice_subrange(ram, start, end));
        }
        let prg = bytes;
        let mut chr: Vec<u8> = Vec::new();
        if self.metadata.chr_nvram_size != 0 {
            let ram = match self.chr_ram() {
                Some(ram) => ram,
                None => {
                    return Err(String::from_str("mapper exposes no CHR RAM"));
                },
            };
            let start: usize = self.metadata.chr_ram_size;
            let end: usize = start + self.metadata.chr_nvram_size;
            if end > ram.len() {
                return Err(
                    String::from_str("mapper CHR RAM is smaller than cartridge metadata"),
                );
            }
            chr = vstd::slice::slice_to_vec(vstd::slice::slice_subrange(ram, start, end));
        }
        let mut bytes = prg;
        bytes.append(&mut chr);
        Ok(bytes)
    }
}

/// A save file that loads is given back byte for byte by the next save.
pub proof fn a_loaded_save_is_saved_unchanged(
    m: ManagedModel,
    bytes: Seq<u8>,
)
    requires
        bytes.len() == save_size(m.metadata),
        prg_complaint(m) is None,
        chr_complaint(prg_restored(m, bytes)) is None,
    ensures
        ({
            let restored = chr_restored(prg_restored(m, bytes), bytes);
            &&& prg_complaint(restored) is None
            &&& chr_complaint(restored) is None
            &&& save_data(restored) == bytes
        }),
{
    let with_prg = prg_restored(m, bytes);
    let restored = chr_restored(with_prg, bytes);
    let prg_part = nonvolatile_part(
        ManagedMapper::<Chip>::prg_ram_of(restored),
        m.metadata.prg_ram_size,
        m.metadata.prg_nvram_size,
    );
    let chr_part = nonvolatile_part(
        ManagedMapper::<Chip>::chr_ram_of(restored),
        m.metadata.chr_ram_size,
        m.metadata.chr_nvram_size,
    );
    assert(prg_part =~= bytes.take(m.metadata.prg_nvram_size as int));
    assert(chr_part =~= bytes.skip(m.metadata.prg_nvram_size as int));
    assert(prg_part + chr_part =~= bytes);
}

/// Loading a save leaves volatile memory alone: every byte of PRG RAM in front
/// of the battery-backed part is as it was.
pub proof fn a_load_keeps_volatile_prg_ram(
    m: ManagedModel,
    bytes: Seq<u8>,
    i: int,
)
    requires
        bytes.len() == save_size(m.metadata),
        prg_complaint(m) is None,
        ManagedMapper::<Chip>::prg_ram_of(m) is Some,
        0 <= i < m.metadata.prg_ram_size,
        i < ManagedMapper::<Chip>::prg_ram_of(m)->0.len(),
    ensures
        ManagedMapper::<Chip>::prg_ram_of(prg_restored(m, bytes))->0[i]
            == ManagedMapper::<Chip>::prg_ram_of(m)->0[i],
{
}

} // verus!
