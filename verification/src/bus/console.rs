//! A console with a cartridge image in its slot.

use crate::bus::{model, Bus};
use crate::cartridge::Rom;
use crate::mapper::managed::{from_rom, managed_of, supported, Chip, ManagedMapper};
use crate::mapper::Mapper;
use crate::ppu::NesPPU;
use vstd::prelude::*;

verus! {

impl Bus<NesPPU<ManagedMapper>> {
    /// A console with the cartridge in its slot.
    pub fn new(rom: Rom) -> (r: Self)
        requires
            supported(rom.mapper),
        ensures
            r@ == model::power_on(managed_of(rom), None),
            ManagedMapper::<Chip>::sound(r@.ppu.mapper),
            ManagedMapper::<Chip>::complete(r@.ppu.mapper) ==> model::wf::<ManagedMapper>(r@),
    {
        Bus::with_mapper(from_rom(rom), None)
    }

    /// A console that forwards completed audio chunks independently of video
    /// frames. `audio_chunk_samples` is a host-delivery quantum, not an
    /// emulation timing parameter; the APU still runs at the CPU clock. The
    /// largest value stands for no delivery at all.
    pub fn new_with_audio(rom: Rom, audio_chunk_samples: usize) -> (r: Self)
        requires
            supported(rom.mapper),
            audio_chunk_samples > 0,
        ensures
            r@ == model::power_on(
                managed_of(rom),
                if audio_chunk_samples == usize::MAX {
                    None
                } else {
                    Some(audio_chunk_samples)
                },
            ),
            ManagedMapper::<Chip>::sound(r@.ppu.mapper),
            ManagedMapper::<Chip>::complete(r@.ppu.mapper) ==> model::wf::<ManagedMapper>(r@),
    {
        let chunk: Option<usize> = if audio_chunk_samples == usize::MAX {
            None
        } else {
            Some(audio_chunk_samples)
        };
        Bus::with_mapper(from_rom(rom), chunk)
    }
}

} // verus!
