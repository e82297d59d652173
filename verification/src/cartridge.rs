//! Cartridge images: the iNES and NES 2.0 file headers, the memories they
//! declare, and the PRG/CHR data that follows.

use crate::text::{decimal, decimal_chars, hex_byte, hex_byte_chars};
use vstd::arithmetic::power2::pow2;
use vstd::prelude::*;
use vstd::slice::{slice_subrange, slice_to_vec};

verus! {

pub const PRG_ROM_PAGE_SIZE: usize = 16384;

pub const CHR_ROM_PAGE_SIZE: usize = 8192;

#[derive(Debug, PartialEq, Eq, Clone, Copy, Structural)]
pub enum Mirroring {
    Vertical,
    Horizontal,
    // Single-screen mirroring (AxROM and friends): all four nametables show the
    // same physical 1 KB page, the lower (first) or upper (second) VRAM bank.
    SingleScreenLower,
    SingleScreenUpper,
    FourScreen,
}

#[derive(Debug, PartialEq, Eq, Clone, Copy, Structural)]
pub enum MemoryKind {
    Absent,
    Rom,
    VolatileRam,
    NonVolatileRam,
}

#[derive(Debug, PartialEq, Eq, Clone, Copy, Structural)]
pub enum RomFormat {
    INes,
    Nes2,
}

#[derive(Debug, PartialEq, Eq, Clone, Copy, Structural)]
pub struct CartridgeMetadata {
    pub format: RomFormat,
    pub submapper: u8,
    pub prg_ram_size: usize,
    pub prg_nvram_size: usize,
    pub chr_ram_size: usize,
    pub chr_nvram_size: usize,
}

impl CartridgeMetadata {
    /// An iNES board with 8 KB of volatile PRG RAM and nothing else.
    pub fn test_defaults() -> (r: Self)
        ensures
            r == (CartridgeMetadata {
                format: RomFormat::INes,
                submapper: 0,
                prg_ram_size: 0x2000,
                prg_nvram_size: 0,
                chr_ram_size: 0,
                chr_nvram_size: 0,
            }),
    {
        CartridgeMetadata {
            format: RomFormat::INes,
            submapper: 0,
            prg_ram_size: 0x2000,
            prg_nvram_size: 0,
            chr_ram_size: 0,
            chr_nvram_size: 0,
        }
    }
}

#[derive(Debug, PartialEq, Eq, Clone, Copy, Structural)]
pub struct MemoryRegion {
    pub kind: MemoryKind,
    pub size: usize,
}

impl MemoryRegion {
    pub fn new(kind: MemoryKind, size: usize) -> (r: Self)
        ensures
            r == (MemoryRegion { kind, size }),
    {
        MemoryRegion { kind, size }
    }

    #[verifier::allow_in_spec]
    pub fn is_ram(self) -> bool
        returns
            self.kind is VolatileRam || self.kind is NonVolatileRam,
    {
        matches!(self.kind, MemoryKind::VolatileRam | MemoryKind::NonVolatileRam)
    }

    #[verifier::allow_in_spec]
    pub fn is_nonvolatile(self) -> bool
        returns
            self.kind is NonVolatileRam,
    {
        matches!(self.kind, MemoryKind::NonVolatileRam)
    }
}

/// The memories on a cartridge board. `prg_ram` covers volatile and
/// battery-backed PRG RAM together; `chr` is CHR ROM, or all CHR RAM of a
/// board without CHR ROM.
#[derive(Debug, PartialEq, Eq, Clone, Copy, Structural)]
pub struct CartridgeMemory {
    pub prg_rom: MemoryRegion,
    pub prg_ram: MemoryRegion,
    pub chr: MemoryRegion,
}

impl CartridgeMemory {
    /// A board with 8 KB of volatile PRG RAM, and 8 KB of CHR RAM where there
    /// is no CHR ROM.
    pub fn test_defaults(prg_rom_size: usize, chr_rom_size: usize) -> (r: Self)
        ensures
            r.prg_rom == (MemoryRegion { kind: MemoryKind::Rom, size: prg_rom_size }),
            r.prg_ram == (MemoryRegion { kind: MemoryKind::VolatileRam, size: 0x2000 }),
            r.chr == if chr_rom_size == 0 {
                MemoryRegion { kind: MemoryKind::VolatileRam, size: 0x2000 }
            } else {
                MemoryRegion { kind: MemoryKind::Rom, size: chr_rom_size }
            },
    {
        CartridgeMemory {
            prg_rom: MemoryRegion::new(MemoryKind::Rom, prg_rom_size),
            prg_ram: MemoryRegion::new(MemoryKind::VolatileRam, 0x2000),
            chr: if chr_rom_size == 0 {
                MemoryRegion::new(MemoryKind::VolatileRam, 0x2000)
            } else {
                MemoryRegion::new(MemoryKind::Rom, chr_rom_size)
            },
        }
    }

    /// Bytes of PRG RAM, volatile and battery-backed together.
    #[verifier::allow_in_spec]
    pub fn prg_ram_size(&self) -> usize
        returns
            self.prg_ram.size,
    {
        self.prg_ram.size
    }

    /// Bytes of CHR memory a board without CHR ROM carries.
    #[verifier::allow_in_spec]
    pub fn chr_ram_size(&self) -> usize
        returns
            self.chr.size,
    {
        self.chr.size
    }
}

/// A parsed cartridge image.
#[derive(Debug, Clone)]
pub struct Rom {
    pub prg_rom: Vec<u8>,
    pub chr_rom: Vec<u8>,
    pub mapper: u16,
    pub metadata: CartridgeMetadata,
    pub screen_mirroring: Mirroring,
    pub memory: CartridgeMemory,
}

// ---- The header, field by field -----------------------------------------

/// The first four bytes of every image: "NES" and an MS-DOS end of file.
pub open spec fn nes_tag() -> Seq<u8> {
    seq![0x4E, 0x45, 0x53, 0x1A]
}

/// The header dialect, or `None` where its marker is neither of the two known.
pub open spec fn header_format(h: Seq<u8>) -> Option<RomFormat> {
    if h[7] & 0x0c == 0 {
        Some(RomFormat::INes)
    } else if h[7] & 0x0c == 8 {
        Some(RomFormat::Nes2)
    } else {
        None
    }
}

pub open spec fn header_is_nes2(h: Seq<u8>) -> bool {
    header_format(h) == Some(RomFormat::Nes2)
}

/// The mapper number: nibbles of bytes 6 and 7, and for NES 2.0 a third one.
pub open spec fn header_mapper(h: Seq<u8>) -> u16 {
    (h[7] & 0xf0) as u16 | (h[6] >> 4) as u16 | if header_is_nes2(h) {
        ((h[8] & 0x0f) as u16) << 8
    } else {
        0u16
    }
}

pub open spec fn header_submapper(h: Seq<u8>) -> u8 {
    if header_is_nes2(h) {
        h[8] >> 4
    } else {
        0
    }
}

pub open spec fn header_mirroring(h: Seq<u8>) -> Mirroring {
    if h[6] & 0b1000 != 0 {
        Mirroring::FourScreen
    } else if h[6] & 0b1 != 0 {
        Mirroring::Vertical
    } else {
        Mirroring::Horizontal
    }
}

/// An NES 2.0 ROM size in bytes: a page count, or where the high nibble is
/// $F a power of two times an odd multiplier.
pub open spec fn nes2_rom_size(lsb: u8, msb: u8, linear_unit: nat) -> nat {
    if msb != 0x0f {
        (msb as nat * 256 + lsb as nat) * linear_unit
    } else {
        pow2((lsb / 4) as nat) * ((lsb % 4) as nat * 2 + 1)
    }
}

/// An NES 2.0 RAM size in bytes: zero, or 64 shifted left.
pub open spec fn nes2_ram_size(shift: u8) -> nat {
    if shift == 0 {
        0
    } else {
        64 * pow2(shift as nat)
    }
}

pub open spec fn header_prg_size(h: Seq<u8>) -> nat {
    if header_is_nes2(h) {
        nes2_rom_size(h[4], h[9] & 0x0f, PRG_ROM_PAGE_SIZE as nat)
    } else {
        h[4] as nat * PRG_ROM_PAGE_SIZE as nat
    }
}

pub open spec fn header_chr_size(h: Seq<u8>) -> nat {
    if header_is_nes2(h) {
        nes2_rom_size(h[5], h[9] >> 4, CHR_ROM_PAGE_SIZE as nat)
    } else {
        h[5] as nat * CHR_ROM_PAGE_SIZE as nat
    }
}

/// Where PRG data starts: behind the header, and the trainer if there is one.
pub open spec fn header_prg_start(h: Seq<u8>) -> nat {
    if h[6] & 0b100 != 0 {
        528
    } else {
        16
    }
}

/// iNES PRG RAM: byte 8 counts 8 KB pages, with zero meaning one page unless
/// the unofficial flag in byte 10 says there is none.
pub open spec fn ines_prg_ram(h: Seq<u8>) -> nat {
    if h[8] == 0 {
        if h[10] & 0x10 != 0 {
            0
        } else {
            0x2000
        }
    } else {
        h[8] as nat * 0x2000
    }
}

pub open spec fn header_has_battery(h: Seq<u8>) -> bool {
    h[6] & 0x02 != 0
}

pub open spec fn header_prg_ram(h: Seq<u8>) -> nat {
    if header_is_nes2(h) {
        nes2_ram_size(h[10] & 0x0f)
    } else if header_has_battery(h) {
        0
    } else {
        ines_prg_ram(h)
    }
}

pub open spec fn header_prg_nvram(h: Seq<u8>) -> nat {
    if header_is_nes2(h) {
        nes2_ram_size(h[10] >> 4)
    } else if header_has_battery(h) {
        ines_prg_ram(h)
    } else {
        0
    }
}

pub open spec fn header_chr_ram(h: Seq<u8>) -> nat {
    if header_is_nes2(h) {
        nes2_ram_size(h[11] & 0x0f)
    } else if header_chr_size(h) == 0 {
        0x2000
    } else {
        0
    }
}

pub open spec fn header_chr_nvram(h: Seq<u8>) -> nat {
    if header_is_nes2(h) {
        nes2_ram_size(h[11] >> 4)
    } else {
        0
    }
}

/// The kind of a board's PRG RAM.
pub open spec fn prg_ram_kind(volatile: nat, nonvolatile: nat) -> MemoryKind {
    if volatile + nonvolatile == 0 {
        MemoryKind::Absent
    } else if nonvolatile != 0 {
        MemoryKind::NonVolatileRam
    } else {
        MemoryKind::VolatileRam
    }
}

/// The kind of a board's CHR memory.
pub open spec fn chr_kind(rom: nat, volatile: nat, nonvolatile: nat) -> MemoryKind {
    if rom != 0 {
        MemoryKind::Rom
    } else if nonvolatile != 0 {
        MemoryKind::NonVolatileRam
    } else if volatile != 0 {
        MemoryKind::VolatileRam
    } else {
        MemoryKind::Absent
    }
}

// ---- The image as a whole -------------------------------------------------

/// Why an image is refused, or `None` where it is accepted.
pub open spec fn image_error(raw: Seq<u8>) -> Option<Seq<char>> {
    let prg = header_prg_size(raw);
    let chr = header_chr_size(raw);
    let chr_start = header_prg_start(raw) + prg;
    let end = chr_start + chr;
    if raw.len() < 16 {
        Some("iNES image is shorter than its 16-byte header"@)
    } else if raw.take(4) != nes_tag() {
        Some("image does not have an iNES/NES 2.0 header"@)
    } else if header_format(raw) is None {
        Some("unsupported iNES format marker $"@ + hex_byte_chars(raw[7] & 0x0c))
    } else if prg > usize::MAX {
        Some("PRG ROM"@ + rom_size_complaint(raw[9] & 0x0f))
    } else if chr > usize::MAX {
        Some("CHR ROM"@ + rom_size_complaint(raw[9] >> 4))
    } else if chr_start > usize::MAX {
        Some("PRG ROM size overflows the host address space"@)
    } else if end > usize::MAX {
        Some("CHR ROM size overflows the host address space"@)
    } else if raw.len() < end {
        Some(
            "cartridge image has "@ + decimal_chars(raw.len())
                + " bytes but its header requires at least "@ + decimal_chars(end),
        )
    } else {
        None
    }
}

/// The wording for a ROM size beyond the address space, by its notation.
pub open spec fn rom_size_complaint(msb: u8) -> Seq<char> {
    if msb != 0x0f {
        " size overflows the host address space"@
    } else {
        " exponent/multiplier size is too large"@
    }
}

/// What an accepted image parses to.
pub open spec fn image_describes(raw: Seq<u8>, rom: Rom) -> bool {
    let prg = header_prg_size(raw);
    let chr = header_chr_size(raw);
    let start = header_prg_start(raw);
    &&& rom.prg_rom@ == raw.subrange(start as int, (start + prg) as int)
    &&& rom.chr_rom@ == raw.subrange((start + prg) as int, (start + prg + chr) as int)
    &&& rom.mapper == header_mapper(raw)
    &&& rom.screen_mirroring == header_mirroring(raw)
    &&& Some(rom.metadata.format) == header_format(raw)
    &&& rom.metadata.submapper == header_submapper(raw)
    &&& rom.metadata.prg_ram_size == header_prg_ram(raw)
    &&& rom.metadata.prg_nvram_size == header_prg_nvram(raw)
    &&& rom.metadata.chr_ram_size == header_chr_ram(raw)
    &&& rom.metadata.chr_nvram_size == header_chr_nvram(raw)
    &&& rom.memory.prg_rom.kind == MemoryKind::Rom
    &&& rom.memory.prg_rom.size == prg
    &&& rom.memory.prg_ram.kind == prg_ram_kind(header_prg_ram(raw), header_prg_nvram(raw))
    &&& rom.memory.prg_ram.size == header_prg_ram(raw) + header_prg_nvram(raw)
    &&& rom.memory.chr.kind == chr_kind(chr, header_chr_ram(raw), header_chr_nvram(raw))
    &&& rom.memory.chr.size == if chr == 0 {
        header_chr_ram(raw) + header_chr_nvram(raw)
    } else {
        chr
    }
}

proof fn lemma_pow2_bound(e: nat, limit: nat)
    requires
        e <= limit,
    ensures
        1 <= pow2(e) <= pow2(limit),
{
    vstd::arithmetic::power2::lemma_pow2_pos(e);
    if e < limit {
        vstd::arithmetic::power2::lemma_pow2_strictly_increases(e, limit);
    }
}

/// Two to the power `exponent`.
fn power_of_two(exponent: u8) -> (r: u128)
    requires
        exponent < 64,
    ensures
        r == pow2(exponent as nat),
{
    proof {
        vstd::arithmetic::power2::lemma2_to64();
    }
    let mut base: u128 = 1;
    let mut i: u8 = 0;
    while i < exponent
        invariant
            i <= exponent,
            exponent < 64,
            base == pow2(i as nat),
        decreases exponent - i,
    {
        proof {
            lemma_pow2_bound(i as nat, 64);
            vstd::arithmetic::power2::lemma2_to64();
            vstd::arithmetic::power2::lemma_pow2_unfold((i + 1) as nat);
        }
        base = base * 2;
        i += 1;
    }
    base
}

/// Decodes an NES 2.0 ROM size field; `label` names the memory in an error.
pub fn decode_nes2_rom_size(lsb: u8, msb: u8, linear_unit: usize, label: &str) -> (r: Result<
    usize,
    String,
>)
    ensures
        match r {
            Ok(size) => size == nes2_rom_size(lsb, msb, linear_unit as nat),
            Err(message) => nes2_rom_size(lsb, msb, linear_unit as nat) > usize::MAX && message@
                == label@ + rom_size_complaint(msb),
        },
{
    if msb != 0x0f {
        let pages: u128 = msb as u128 * 256 + lsb as u128;
        assert(pages * linear_unit <= 0x10000 * 0x1_0000_0000_0000_0000) by (nonlinear_arith)
            requires
                pages <= 0x10000,
                linear_unit <= 0x1_0000_0000_0000_0000,
        ;
        let size: u128 = pages * linear_unit as u128;
        if size <= usize::MAX as u128 {
            Ok(size as usize)
        } else {
            let mut message = String::from_str(label);
            message.append(" size overflows the host address space");
            Err(message)
        }
    } else {
        let multiplier: u128 = (lsb % 4) as u128 * 2 + 1;
        let base = power_of_two(lsb / 4);
        proof {
            lemma_pow2_bound((lsb / 4) as nat, 64);
            vstd::arithmetic::power2::lemma2_to64();
        }
        assert(base * multiplier <= 0x1_0000_0000_0000_0000 * 7) by (nonlinear_arith)
            requires
                base <= 0x1_0000_0000_0000_0000,
                multiplier <= 7,
        ;
        let size: u128 = base * multiplier;
        if size <= usize::MAX as u128 {
            Ok(size as usize)
        } else {
            let mut message = String::from_str(label);
            message.append(" exponent/multiplier size is too large");
            Err(message)
        }
    }
}

/// Decodes an NES 2.0 RAM size nibble.
pub fn decode_nes2_ram_size(shift: u8) -> (r: usize)
    requires
        shift <= 0x0f,
    ensures
        r == nes2_ram_size(shift),
        r <= 0x20_0000,
{
    if shift == 0 {
        return 0;
    }
    let base = power_of_two(shift);
    proof {
        lemma_pow2_bound(shift as nat, 15);
        vstd::arithmetic::power2::lemma2_to64();
    }
    64 * base as usize
}

fn has_nes_tag(raw: &[u8]) -> (r: bool)
    requires
        raw@.len() >= 4,
    ensures
        r == (raw@.take(4) == nes_tag()),
{
    let r = raw[0] == 0x4E && raw[1] == 0x45 && raw[2] == 0x53 && raw[3] == 0x1A;
    proof {
        let head = raw@.take(4);
        if r {
            assert(head =~= nes_tag());
        } else {
            assert(head[0] == raw@[0] && head[1] == raw@[1] && head[2] == raw@[2] && head[3]
                == raw@[3]);
            assert(nes_tag()[0] == 0x4E && nes_tag()[1] == 0x45 && nes_tag()[2] == 0x53
                && nes_tag()[3] == 0x1A);
        }
    }
    r
}

proof fn lemma_header_nibbles(b: u8)
    ensures
        b & 0x0f <= 0x0f,
        b >> 4 <= 0x0f,
{
    assert(b & 0x0f <= 0x0f && b >> 4 <= 0x0f) by (bit_vector);
}

/// Why a total size that the address space cannot hold is refused.
fn too_short(len: usize, end: usize) -> (r: String)
    ensures
        r@ == "cartridge image has "@ + decimal_chars(len as nat)
            + " bytes but its header requires at least "@ + decimal_chars(end as nat),
{
    let mut message = String::from_str("cartridge image has ");
    message.append(decimal(len as u64).as_str());
    message.append(" bytes but its header requires at least ");
    message.append(decimal(end as u64).as_str());
    message
}

impl Rom {
    /// Parses a cartridge image. Bytes behind the declared data are ignored.
    pub fn new(raw: &[u8]) -> (r: Result<Rom, String>)
        ensures
            match r {
                Ok(rom) => image_error(raw@) is None && image_describes(raw@, rom),
                Err(message) => image_error(raw@) == Some(message@),
            },
    {
        if raw.len() < 16 {
            return Err(String::from_str("iNES image is shorter than its 16-byte header"));
        }
        if !has_nes_tag(raw) {
            return Err(String::from_str("image does not have an iNES/NES 2.0 header"));
        }
        let marker: u8 = raw[7] & 0x0c;
        if marker != 0 && marker != 8 {
            let mut message = String::from_str("unsupported iNES format marker $");
            message.append(hex_byte(marker).as_str());
            return Err(message);
        }
        let nes2 = marker == 8;
        let format = if nes2 {
            RomFormat::Nes2
        } else {
            RomFormat::INes
        };
        let mapper: u16 = (raw[7] & 0xf0) as u16 | (raw[6] >> 4) as u16 | if nes2 {
            ((raw[8] & 0x0f) as u16) << 8
        } else {
            0u16
        };
        let submapper: u8 = if nes2 {
            raw[8] >> 4
        } else {
            0
        };
        let screen_mirroring = if raw[6] & 0b1000 != 0 {
            Mirroring::FourScreen
        } else if raw[6] & 0b1 != 0 {
            Mirroring::Vertical
        } else {
            Mirroring::Horizontal
        };
        proof {
            lemma_header_nibbles(raw@[9]);
            lemma_header_nibbles(raw@[10]);
            lemma_header_nibbles(raw@[11]);
        }
        let prg_rom_size: usize = if nes2 {
            match decode_nes2_rom_size(raw[4], raw[9] & 0x0f, PRG_ROM_PAGE_SIZE, "PRG ROM") {
                Ok(size) => size,
                Err(message) => {
                    return Err(message);
                },
            }
        } else {
            raw[4] as usize * PRG_ROM_PAGE_SIZE
        };
        let chr_rom_size: usize = if nes2 {
            match decode_nes2_rom_size(raw[5], raw[9] >> 4, CHR_ROM_PAGE_SIZE, "CHR ROM") {
                Ok(size) => size,
                Err(message) => {
                    return Err(message);
                },
            }
        } else {
            raw[5] as usize * CHR_ROM_PAGE_SIZE
        };

        let prg_rom_start: usize = if raw[6] & 0b100 != 0 {
            528
        } else {
            16
        };
        let chr_rom_start: usize = match prg_rom_start.checked_add(prg_rom_size) {
            Some(start) => start,
            None => {
                return Err(String::from_str("PRG ROM size overflows the host address space"));
            },
        };
        let image_end: usize = match chr_rom_start.checked_add(chr_rom_size) {
            Some(end) => end,
            None => {
                return Err(String::from_str("CHR ROM size overflows the host address space"));
            },
        };
        if raw.len() < image_end {
            return Err(too_short(raw.len(), image_end));
        }

        // iNES byte 8 is in 8 KiB units. Zero conventionally infers 8 KiB;
        // unofficial byte 10 bit 4 is the only iNES 1.0 way to say that PRG
        // RAM is absent. NES 2.0 instead describes volatile and nonvolatile
        // regions independently in bytes 10 and 11.
        let battery = raw[6] & 0x02 != 0;
        let ines_size: usize = if raw[8] == 0 {
            if raw[10] & 0x10 != 0 {
                0
            } else {
                0x2000
            }
        } else {
            raw[8] as usize * 0x2000
        };
        let prg_ram_size: usize = if nes2 {
            decode_nes2_ram_size(raw[10] & 0x0f)
        } else if battery {
            0
        } else {
            ines_size
        };
        let prg_nvram_size: usize = if nes2 {
            decode_nes2_ram_size(raw[10] >> 4)
        } else if battery {
            ines_size
        } else {
            0
        };
        let chr_ram_size: usize = if nes2 {
            decode_nes2_ram_size(raw[11] & 0x0f)
        } else if chr_rom_size == 0 {
            0x2000
        } else {
            0
        };
        let chr_nvram_size: usize = if nes2 {
            decode_nes2_ram_size(raw[11] >> 4)
        } else {
            0
        };
        let total_prg_ram: usize = prg_ram_size + prg_nvram_size;
        let total_chr_ram: usize = chr_ram_size + chr_nvram_size;
        let prg_ram_kind = if total_prg_ram == 0 {
            MemoryKind::Absent
        } else if prg_nvram_size != 0 {
            MemoryKind::NonVolatileRam
        } else {
            MemoryKind::VolatileRam
        };
        let chr_kind = if chr_rom_size != 0 {
            MemoryKind::Rom
        } else if chr_nvram_size != 0 {
            MemoryKind::NonVolatileRam
        } else if total_chr_ram != 0 {
            MemoryKind::VolatileRam
        } else {
            MemoryKind::Absent
        };

        Ok(
            Rom {
                prg_rom: slice_to_vec(slice_subrange(raw, prg_rom_start, chr_rom_start)),
                chr_rom: slice_to_vec(slice_subrange(raw, chr_rom_start, image_end)),
                mapper,
                metadata: CartridgeMetadata {
                    format,
                    submapper,
                    prg_ram_size,
                    prg_nvram_size,
                    chr_ram_size,
                    chr_nvram_size,
                },
                screen_mirroring,
                memory: CartridgeMemory {
                    prg_rom: MemoryRegion::new(MemoryKind::Rom, prg_rom_size),
                    prg_ram: MemoryRegion::new(prg_ram_kind, total_prg_ram),
                    chr: MemoryRegion::new(
                        chr_kind,
                        if chr_rom_size == 0 {
                            total_chr_ram
                        } else {
                            chr_rom_size
                        },
                    ),
                },
            },
        )
    }

    /// Whether the board keeps any memory while the console is off, and so
    /// needs a save file.
    pub fn has_save_memory(&self) -> (r: bool)
        ensures
            r == (self.memory.prg_ram.is_nonvolatile() || self.memory.chr.is_nonvolatile()),
    {
        self.memory.prg_ram.is_nonvolatile() || self.memory.chr.is_nonvolatile()
    }
}

/// Appending bytes to an accepted image changes nothing about what it holds.
pub proof fn trailing_bytes_are_ignored(raw: Seq<u8>, extra: Seq<u8>, rom: Rom)
    requires
        image_error(raw) is None,
    ensures
        image_error(raw + extra) is None,
        image_describes(raw, rom) == image_describes(raw + extra, rom),
{
    let longer = raw + extra;
    assert(forall|i: int| 0 <= i < 16 ==> longer[i] == raw[i]);
    assert(longer.take(4) =~= raw.take(4));
    let start = header_prg_start(raw);
    let prg = header_prg_size(raw);
    let chr = header_chr_size(raw);
    assert(longer.subrange(start as int, (start + prg) as int) =~= raw.subrange(
        start as int,
        (start + prg) as int,
    ));
    assert(longer.subrange((start + prg) as int, (start + prg + chr) as int) =~= raw.subrange(
        (start + prg) as int,
        (start + prg + chr) as int,
    ));
}

/// The declared memories of an accepted image fit the data it carries.
pub proof fn parsed_sizes_match_the_data(raw: Seq<u8>, rom: Rom)
    requires
        image_error(raw) is None,
        image_describes(raw, rom),
    ensures
        rom.prg_rom@.len() == rom.memory.prg_rom.size,
        rom.chr_rom@.len() == 0 || rom.chr_rom@.len() == rom.memory.chr.size,
        rom.memory.prg_ram.size == rom.metadata.prg_ram_size + rom.metadata.prg_nvram_size,
{
}

} // verus!
