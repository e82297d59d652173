//! What a cartridge header's bytes say, number by number.

use crate::bits::{lemma_masks, lemma_nibbles};
use crate::cartridge::{
    header_chr_size, header_format, header_is_nes2, header_prg_size, header_prg_start,
    image_describes, image_error, rom_size_complaint, MemoryKind, Mirroring, Rom, RomFormat,
};
use vstd::arithmetic::power2::pow2;
use vstd::prelude::*;

verus! {

/// The two bits of byte 7 that tell the header dialects apart.
pub open spec fn marker(raw: Seq<u8>) -> int {
    raw[7] as int / 4 % 4
}

/// How many trainer bytes stand between the header and PRG ROM.
pub open spec fn trainer(raw: Seq<u8>) -> int {
    if raw[6] as int / 4 % 2 == 1 {
        512
    } else {
        0
    }
}

/// The size an NES 2.0 header gives a ROM counted in pages.
pub open spec fn pages_or_power(low: u8, high: int, page: int) -> int {
    if high < 15 {
        (high * 256 + low) * page
    } else {
        pow2((low / 4) as nat) as int * (low as int % 4 * 2 + 1)
    }
}

pub open spec fn prg_bytes(raw: Seq<u8>) -> int {
    if marker(raw) == 2 {
        pages_or_power(raw[4], raw[9] as int % 16, 0x4000)
    } else {
        raw[4] * 0x4000
    }
}

pub open spec fn chr_bytes(raw: Seq<u8>) -> int {
    if marker(raw) == 2 {
        pages_or_power(raw[5], raw[9] as int / 16, 0x2000)
    } else {
        raw[5] * 0x2000
    }
}

#[verifier::rlimit(50)]
proof fn lemma_header(raw: Seq<u8>)
    ensures
        header_format(raw) == if marker(raw) == 0 {
            Some(RomFormat::INes)
        } else if marker(raw) == 2 {
            Some(RomFormat::Nes2)
        } else {
            None
        },
        header_is_nes2(raw) == (marker(raw) == 2),
        header_prg_size(raw) == prg_bytes(raw),
        header_chr_size(raw) == chr_bytes(raw),
        header_prg_start(raw) == 16 + trainer(raw),
{
    lemma_masks(raw[6]);
    lemma_masks(raw[7]);
    lemma_masks(raw[9]);
}

/// The mapper number is joined from nibbles: modulo 256 it is the high nibble
/// of byte 7 over the high nibble of byte 6, in both dialects. NES 2.0 puts the
/// low nibble of byte 8 above them, and its high nibble is the submapper.
#[verifier::rlimit(50)]
pub proof fn the_mapper_number_is_joined_from_nibbles(raw: Seq<u8>, rom: Rom)
    requires
        image_error(raw) is None,
        image_describes(raw, rom),
    ensures
        rom.mapper as int % 256 == 16 * (raw[7] as int / 16) + raw[6] as int / 16,
        marker(raw) == 0 || marker(raw) == 2,
        marker(raw) == 0 ==> {
            &&& rom.metadata.format == RomFormat::INes
            &&& rom.mapper < 256
            &&& rom.metadata.submapper == 0
        },
        marker(raw) == 2 ==> {
            &&& rom.metadata.format == RomFormat::Nes2
            &&& rom.mapper as int / 256 == raw[8] as int % 16
            &&& rom.metadata.submapper == raw[8] as int / 16
        },
{
    lemma_header(raw);
    lemma_nibbles(raw[6] as u16, raw[7] as u16, raw[8] as u16);
    lemma_masks(raw[8]);
}

/// Byte 6 says how the nametables are laid out: bit 3 asks for four screens,
/// otherwise bit 0 for vertical mirroring.
pub proof fn byte_six_picks_the_mirroring(raw: Seq<u8>, rom: Rom)
    requires
        image_describes(raw, rom),
    ensures
        rom.screen_mirroring == if raw[6] as int / 8 % 2 == 1 {
            Mirroring::FourScreen
        } else if raw[6] as int % 2 == 1 {
            Mirroring::Vertical
        } else {
            Mirroring::Horizontal
        },
{
    lemma_masks(raw[6]);
}

/// An image is accepted exactly when it has its sixteen header bytes, begins
/// with the tag, carries one of the two markers, and is long enough for the
/// trainer and the ROMs its header counts.
#[verifier::rlimit(50)]
pub proof fn an_image_is_accepted_when_it_holds_what_it_declares(raw: Seq<u8>)
    requires
        raw.len() <= usize::MAX,
    ensures
        image_error(raw) is None <==> {
            &&& raw.len() >= 16
            &&& raw[0] == 0x4e && raw[1] == 0x45 && raw[2] == 0x53 && raw[3] == 0x1a
            &&& marker(raw) == 0 || marker(raw) == 2
            &&& raw.len() >= 16 + trainer(raw) + prg_bytes(raw) + chr_bytes(raw)
        },
{
    lemma_header(raw);
    let tag = crate::cartridge::nes_tag();
    if raw.len() >= 16 {
        if raw[0] == 0x4e && raw[1] == 0x45 && raw[2] == 0x53 && raw[3] == 0x1a {
            assert(raw.take(4) =~= tag);
        }
        if raw.take(4) == tag {
            assert(raw.take(4)[0] == tag[0] && raw.take(4)[1] == tag[1]);
            assert(raw.take(4)[2] == tag[2] && raw.take(4)[3] == tag[3]);
        }
    }
}

/// The image lies in the file in order: header, trainer, PRG ROM, CHR ROM, each
/// of the size that the header counts.
pub proof fn the_roms_lie_in_the_file_in_order(raw: Seq<u8>, rom: Rom, i: int)
    requires
        image_error(raw) is None,
        image_describes(raw, rom),
        0 <= i < prg_bytes(raw) + chr_bytes(raw),
    ensures
        rom.prg_rom@.len() == prg_bytes(raw),
        rom.chr_rom@.len() == chr_bytes(raw),
        rom.memory.prg_rom.size == prg_bytes(raw),
        rom.memory.prg_rom.kind == MemoryKind::Rom,
        raw[16 + trainer(raw) + i] == if i < prg_bytes(raw) {
            rom.prg_rom@[i]
        } else {
            rom.chr_rom@[i - prg_bytes(raw)]
        },
{
    lemma_header(raw);
}

/// The RAM an NES 2.0 shift count stands for.
pub open spec fn shifted_ram(count: int) -> int {
    if count == 0 {
        0
    } else {
        (64 * pow2(count as nat)) as int
    }
}

/// An NES 2.0 header counts its RAMs in nibbles: byte 10 for PRG and byte 11
/// for CHR, the low nibble volatile, the high one battery-backed.
pub proof fn nes2_counts_its_rams_in_nibbles(raw: Seq<u8>, rom: Rom)
    requires
        image_error(raw) is None,
        image_describes(raw, rom),
        marker(raw) == 2,
    ensures
        rom.metadata.prg_ram_size == shifted_ram(raw[10] as int % 16),
        rom.metadata.prg_nvram_size == shifted_ram(raw[10] as int / 16),
        rom.metadata.chr_ram_size == shifted_ram(raw[11] as int % 16),
        rom.metadata.chr_nvram_size == shifted_ram(raw[11] as int / 16),
{
    lemma_header(raw);
    lemma_masks(raw[10]);
    lemma_masks(raw[11]);
}

/// An iNES header counts PRG RAM in 8 KB pages in byte 8, where zero stands for
/// one page unless bit 4 of byte 10 says there is none; bit 1 of byte 6 makes
/// it battery-backed. Without CHR ROM there are 8 KB of CHR RAM.
pub proof fn ines_counts_its_ram_in_pages(raw: Seq<u8>, rom: Rom)
    requires
        image_error(raw) is None,
        image_describes(raw, rom),
        marker(raw) == 0,
    ensures
        ({
            let ram = if raw[8] > 0 {
                raw[8] * 0x2000
            } else if raw[10] as int / 16 % 2 == 1 {
                0
            } else {
                0x2000
            };
            let backed = raw[6] as int / 2 % 2 == 1;
            &&& rom.memory.prg_ram.size == ram
            &&& backed ==> rom.metadata.prg_nvram_size == ram && rom.metadata.prg_ram_size == 0
            &&& !backed ==> rom.metadata.prg_ram_size == ram && rom.metadata.prg_nvram_size == 0
            &&& rom.metadata.chr_nvram_size == 0
            &&& rom.metadata.chr_ram_size == if raw[5] == 0 {
                0x2000int
            } else {
                0
            }
        }),
{
    lemma_header(raw);
    lemma_masks(raw[6]);
    lemma_masks(raw[10]);
}

/// The memories that the board carries follow from the sizes: ROM where there
/// is any, else RAM, which counts as battery-backed as soon as a part of it is.
pub proof fn the_memories_follow_from_the_sizes(raw: Seq<u8>, rom: Rom)
    requires
        image_error(raw) is None,
        image_describes(raw, rom),
    ensures
        rom.memory.prg_ram.size == rom.metadata.prg_ram_size + rom.metadata.prg_nvram_size,
        rom.memory.prg_ram.kind is Absent <==> rom.memory.prg_ram.size == 0,
        rom.memory.prg_ram.kind is NonVolatileRam <==> rom.metadata.prg_nvram_size > 0,
        rom.memory.prg_ram.kind is VolatileRam <==> rom.metadata.prg_nvram_size == 0
            && rom.metadata.prg_ram_size > 0,
        rom.chr_rom@.len() > 0 ==> rom.memory.chr.kind is Rom && rom.memory.chr.size
            == rom.chr_rom@.len(),
        rom.chr_rom@.len() == 0 ==> {
            &&& rom.memory.chr.size == rom.metadata.chr_ram_size + rom.metadata.chr_nvram_size
            &&& rom.memory.chr.kind is NonVolatileRam <==> rom.metadata.chr_nvram_size > 0
            &&& rom.memory.chr.kind is Absent <==> rom.memory.chr.size == 0
            &&& !(rom.memory.chr.kind is Rom)
        },
{
    lemma_header(raw);
}

/// A size that is too large is told by its notation: the exponent has a word of
/// its own, every plain count the other.
pub proof fn sizes_are_refused_by_their_notation(msb: u8, other: u8)
    requires
        msb < 15,
        other < 15,
    ensures
        rom_size_complaint(msb) == rom_size_complaint(other),
        rom_size_complaint(msb) != rom_size_complaint(15),
        rom_size_complaint(15).contains('/'),
{
    reveal_strlit(" size overflows the host address space");
    reveal_strlit(" exponent/multiplier size is too large");
    assert(" size overflows the host address space"@[1] == 's');
    assert(" exponent/multiplier size is too large"@[1] == 'e');
    assert(" exponent/multiplier size is too large"@[9] == '/');
}

} // verus!
