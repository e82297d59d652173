//! What each board shows in its windows after the writes that switch its
//! banks, as bytes of the cartridge image.

use crate::bits::{lemma_masks, lemma_word_masks};
use crate::cartridge::{Mirroring, Rom};
use crate::mapper::axrom::Axrom;
use crate::mapper::board::{bank_count, Board};
use crate::mapper::cnrom::Cnrom;
use crate::mapper::gnrom::Gnrom;
use crate::mapper::laws::board_of;
use crate::mapper::managed::{chip_of, supported, Chip, ChipModel};
use crate::mapper::mmc1::{a_register_takes_five_writes, after_bits, Mmc1, SHIFT_RESET};
use crate::mapper::mmc2::{Latch, Mmc2};
use crate::mapper::mmc3::{irq_clocked, variant_of, Mmc3, Mmc3Variant, ScanlineIrq};
use crate::mapper::nrom::Nrom;
use crate::mapper::uxrom::Uxrom;
use crate::mapper::Mapper;
use vstd::prelude::*;

verus! {

/// What the CPU reads at `addr`.
pub open spec fn cpu_sees(m: ChipModel, addr: int) -> u8 {
    Chip::<Vec<u8>, [u8; 8]>::cpu_value(m, addr as u16)
}

/// What the picture unit reads at `addr`.
pub open spec fn ppu_sees(m: ChipModel, addr: int) -> u8 {
    Chip::<Vec<u8>, [u8; 8]>::ppu_value(m, addr as u16)
}

/// The chip after a CPU write.
pub open spec fn written(m: ChipModel, addr: u16, data: u8) -> ChipModel {
    Chip::<Vec<u8>, [u8; 8]>::after_cpu_write(m, addr, data)
}

pub open spec fn mirroring_seen(m: ChipModel) -> Mirroring {
    Chip::<Vec<u8>, [u8; 8]>::mirroring_of(m)
}

pub open spec fn chip_sound(m: ChipModel) -> bool {
    Chip::<Vec<u8>, [u8; 8]>::sound(m)
}

/// How many whole banks of `size` bytes there are.
pub open spec fn banks(memory: Seq<u8>, size: int) -> int {
    memory.len() as int / size
}

/// A byte of a memory divided into 4 KB banks, and so on for the other sizes;
/// bank numbers wrap at the end of the image.
pub open spec fn in_1k(memory: Seq<u8>, bank: int, offset: int) -> u8 {
    memory[bank % banks(memory, 0x400) * 0x400 + offset]
}

pub open spec fn in_4k(memory: Seq<u8>, bank: int, offset: int) -> u8 {
    memory[bank % banks(memory, 0x1000) * 0x1000 + offset]
}

pub open spec fn in_8k(memory: Seq<u8>, bank: int, offset: int) -> u8 {
    memory[bank % banks(memory, 0x2000) * 0x2000 + offset]
}

pub open spec fn in_16k(memory: Seq<u8>, bank: int, offset: int) -> u8 {
    memory[bank % banks(memory, 0x4000) * 0x4000 + offset]
}

pub open spec fn in_32k(memory: Seq<u8>, bank: int, offset: int) -> u8 {
    memory[bank % banks(memory, 0x8000) * 0x8000 + offset]
}

proof fn lemma_small_mod(x: int, n: int)
    by (nonlinear_arith)
    requires
        0 <= x < n,
    ensures
        x % n == x,
{
}

/// Only MMC1 looks at the clock of a write.
pub proof fn only_mmc1_times_its_writes(m: ChipModel, addr: u16, data: u8, now: u64)
    requires
        !(m is Mmc1),
    ensures
        Chip::<Vec<u8>, [u8; 8]>::after_cpu_write_at(m, addr, data, now) == written(m, addr, data),
{
}

/// The boards there are chips for.
pub proof fn eight_boards_are_supported(mapper: u16)
    ensures
        supported(mapper) <==> (mapper <= 4 || mapper == 7 || mapper == 9 || mapper == 66),
{
}

/// A 16 KB image shows in both halves, a larger one from its start; no write
/// to ROM moves anything, and the picture unit sees CHR as it lies.
pub proof fn nrom_shows_its_image(chip: Nrom<Seq<u8>>, at: u16, data: u8, offset: int)
    requires
        0 <= offset < 0x8000,
        at >= 0x8000,
    ensures
        chip.board.prg_rom.len() == 0x4000 ==> cpu_sees(Chip::Nrom(chip), 0x8000 + offset)
            == chip.board.prg_rom[offset % 0x4000],
        chip.board.prg_rom.len() != 0x4000 ==> cpu_sees(Chip::Nrom(chip), 0x8000 + offset)
            == chip.board.prg_rom[offset],
        offset < 0x2000 ==> ppu_sees(Chip::Nrom(chip), offset) == chip.board.chr[offset],
        written(Chip::Nrom(chip), at, data) == Chip::<Seq<u8>, Seq<u8>>::Nrom(chip),
{
}

/// UxROM: a write switches the lower 16 KB to the bank it names, and the upper
/// 16 KB always shows the last bank.
pub proof fn uxrom_switches_the_lower_half(chip: Uxrom<Seq<u8>>, at: u16, data: u8, offset: int)
    requires
        chip_sound(Chip::Uxrom(chip)),
        chip.board.prg_rom.len() >= 0x4000,
        at >= 0x8000,
        0 <= offset < 0x4000,
    ensures
        ({
            let after = written(Chip::Uxrom(chip), at, data);
            let rom = chip.board.prg_rom;
            &&& cpu_sees(after, 0x8000 + offset) == in_16k(rom, data as int, offset)
            &&& cpu_sees(after, 0xc000 + offset) == rom[(banks(rom, 0x4000) - 1) * 0x4000 + offset]
            &&& offset < 0x2000 ==> ppu_sees(after, offset) == chip.board.chr[offset]
            &&& mirroring_seen(after) == chip.mirroring
        }),
{
}

/// CNROM: a write switches the 8 KB of CHR to the bank it names, and PRG stays.
pub proof fn cnrom_switches_chr(chip: Cnrom<Seq<u8>>, at: u16, data: u8, offset: int)
    requires
        chip_sound(Chip::Cnrom(chip)),
        chip.board.chr.len() >= 0x2000,
        at >= 0x8000,
        0 <= offset < 0x2000,
    ensures
        ({
            let after = written(Chip::Cnrom(chip), at, data);
            &&& ppu_sees(after, offset) == in_8k(chip.board.chr, data as int, offset)
            &&& mirroring_seen(after) == chip.mirroring
        }),
{
}

/// AxROM: the low three bits of a write name the 32 KB bank, and bit 4 the
/// nametable page.
pub proof fn axrom_switches_everything(chip: Axrom<Seq<u8>>, at: u16, data: u8, offset: int)
    requires
        chip_sound(Chip::Axrom(chip)),
        chip.board.prg_rom.len() >= 0x8000,
        at >= 0x8000,
        0 <= offset < 0x8000,
    ensures
        ({
            let after = written(Chip::Axrom(chip), at, data);
            &&& cpu_sees(after, 0x8000 + offset) == in_32k(
                chip.board.prg_rom,
                data as int % 8,
                offset,
            )
            &&& mirroring_seen(after) == if data as int / 16 % 2 == 1 {
                Mirroring::SingleScreenUpper
            } else {
                Mirroring::SingleScreenLower
            }
            &&& offset < 0x2000 ==> ppu_sees(after, offset) == chip.board.chr[offset]
        }),
{
    lemma_masks(data);
}

/// GxROM: bits 4 and 5 of a write name the 32 KB PRG bank, bits 0 and 1 the
/// 8 KB CHR bank.
pub proof fn gnrom_switches_both(chip: Gnrom<Seq<u8>>, at: u16, data: u8, offset: int)
    requires
        chip_sound(Chip::Gnrom(chip)),
        chip.board.prg_rom.len() >= 0x8000,
        chip.board.chr.len() >= 0x2000,
        at >= 0x8000,
        0 <= offset < 0x8000,
    ensures
        ({
            let after = written(Chip::Gnrom(chip), at, data);
            &&& cpu_sees(after, 0x8000 + offset) == in_32k(
                chip.board.prg_rom,
                data as int / 16 % 4,
                offset,
            )
            &&& offset < 0x2000 ==> ppu_sees(after, offset) == in_8k(
                chip.board.chr,
                data as int % 4,
                offset,
            )
            &&& mirroring_seen(after) == chip.mirroring
        }),
{
    lemma_masks(data);
    lemma_masks(data >> 4);
}

/// MMC2: the upper 24 KB show the last three banks, and a write to $A000-$AFFF
/// puts the bank of its low four bits into $8000-$9FFF.
#[verifier::rlimit(50)]
pub proof fn mmc2_switches_one_prg_window(chip: Mmc2<Seq<u8>>, at: u16, data: u8, offset: int)
    requires
        chip_sound(Chip::Mmc2(chip)),
        chip.board.prg_rom.len() >= 0x8000,
        0xa000 <= at < 0xb000,
        0 <= offset < 0x2000,
    ensures
        ({
            let after = written(Chip::Mmc2(chip), at, data);
            let rom = chip.board.prg_rom;
            let last = banks(rom, 0x2000) - 1;
            &&& cpu_sees(after, 0x8000 + offset) == in_8k(rom, data as int % 16, offset)
            &&& cpu_sees(after, 0xa000 + offset) == rom[(last - 2) * 0x2000 + offset]
            &&& cpu_sees(after, 0xc000 + offset) == rom[(last - 1) * 0x2000 + offset]
            &&& cpu_sees(after, 0xe000 + offset) == rom[last * 0x2000 + offset]
            &&& ppu_sees(after, offset) == ppu_sees(Chip::Mmc2(chip), offset)
            &&& mirroring_seen(after) == chip.mirroring
        }),
{
    lemma_masks(data);
    let n = banks(chip.board.prg_rom, 0x2000);
    lemma_small_mod(n - 1, n);
    lemma_small_mod(n - 2, n);
    lemma_small_mod(n - 3, n);
    let bank = data as int % 16;
    assert(bank % n % n == bank % n) by {
        vstd::arithmetic::div_mod::lemma_mod_twice(bank, n);
    }
}

/// MMC2: of the four CHR registers, $B000 and $C000 serve the lower pattern
/// table while its latch is FD or FE, $D000 and $E000 the upper one.
pub proof fn mmc2_chr_registers_serve_their_latches(
    chip: Mmc2<Seq<u8>>,
    at: u16,
    data: u8,
    offset: int,
)
    requires
        chip_sound(Chip::Mmc2(chip)),
        chip.board.chr.len() >= 0x1000,
        0xb000 <= at < 0xf000,
        0 <= offset < 0x1000,
    ensures
        ({
            let before = Chip::Mmc2(chip);
            let after = written(before, at, data);
            let chosen = in_4k(chip.board.chr, data as int % 32, offset);
            let low = if chip.latch_0000 == Latch::Fd {
                0xbint
            } else {
                0xc
            };
            let high = if chip.latch_1000 == Latch::Fd {
                0xdint
            } else {
                0xe
            };
            &&& ppu_sees(after, offset) == if at as int / 0x1000 == low {
                chosen
            } else {
                ppu_sees(before, offset)
            }
            &&& ppu_sees(after, 0x1000 + offset) == if at as int / 0x1000 == high {
                chosen
            } else {
                ppu_sees(before, 0x1000 + offset)
            }
        }),
{
    lemma_masks(data);
}

/// MMC2: fetching tile FD or FE flips the latch of its pattern table. In the
/// lower table one address of each does it, in the upper table the whole row
/// of eight.
pub proof fn mmc2_latches_flip_on_fetches(chip: Mmc2<Seq<u8>>, addr: u16)
    ensures
        ({
            let after = Chip::<Vec<u8>, [u8; 8]>::after_ppu_read(Chip::Mmc2(chip), addr);
            &&& after is Mmc2
            &&& after->Mmc2_0.latch_0000 == if addr == 0xfd8 {
                Latch::Fd
            } else if addr == 0xfe8 {
                Latch::Fe
            } else {
                chip.latch_0000
            }
            &&& after->Mmc2_0.latch_1000 == if addr as int / 8 == 0x1fd8int / 8 {
                Latch::Fd
            } else if addr as int / 8 == 0x1fe8int / 8 {
                Latch::Fe
            } else {
                chip.latch_1000
            }
            &&& after == Chip::<Seq<u8>, Seq<u8>>::Mmc2(
                Mmc2 {
                    latch_0000: after->Mmc2_0.latch_0000,
                    latch_1000: after->Mmc2_0.latch_1000,
                    ..chip
                },
            )
        }),
{
}

/// MMC2: an even write to $F000-$FFFF mirrors vertically, an odd one
/// horizontally, and no bank moves.
pub proof fn mmc2_writes_pick_the_mirroring(chip: Mmc2<Seq<u8>>, at: u16, data: u8)
    requires
        at >= 0xf000,
    ensures
        written(Chip::Mmc2(chip), at, data) == Chip::<Seq<u8>, Seq<u8>>::Mmc2(
            Mmc2 {
                mirroring: if data as int % 2 == 0 {
                    Mirroring::Vertical
                } else {
                    Mirroring::Horizontal
                },
                ..chip
            },
        ),
{
    lemma_masks(data);
}

/// The registers that addresses decode to.
proof fn lemma_register(at: u16)
    ensures
        at & 0xe001 == at / 0x2000 * 0x2000 + at % 2,
        0x8000 <= at < 0xa000 ==> at / 0x2000 == 4,
        0xa000 <= at < 0xc000 ==> at / 0x2000 == 5,
{
    lemma_word_masks(at);
}

/// Bank selection by its three fields.
proof fn lemma_select(select: u8)
    ensures
        (select & 0x40 != 0) == (select as int / 64 % 2 == 1),
        (select & 0x80 != 0) == (select >= 0x80),
{
    lemma_masks(select);
}

proof fn lemma_other_half(addr: u16)
    requires
        addr < 0x2000,
    ensures
        (addr ^ 0x1000) as int == other_half(addr as int),
{
    lemma_word_masks(addr);
}

/// The pattern address that CHR inversion exchanges with `addr`.
pub open spec fn other_half(addr: int) -> int {
    if addr < 0x1000 {
        addr + 0x1000
    } else {
        addr - 0x1000
    }
}

/// MMC3: the first half of the pattern space shows the 2 KB pairs of R0 and
/// R1, the second half the 1 KB banks of R2 to R5. With CHR inversion on, the
/// two halves have changed places.
#[verifier::rlimit(50)]
pub proof fn mmc3_chr_windows(chip: Mmc3<Seq<u8>, Seq<u8>>, offset: int)
    requires
        chip_sound(Chip::Mmc3(chip)),
        !chip.board.chr_is_ram,
        chip.board.chr.len() >= 0x400,
        0 <= offset < 0x400,
    ensures
        ({
            let m = Chip::Mmc3(chip);
            let chr = chip.board.chr;
            let r = chip.banks.regs;
            let pairs = if chip.banks.chr_inversion {
                0x1000int
            } else {
                0
            };
            let singles = other_half(pairs);
            &&& ppu_sees(m, pairs + offset) == in_1k(chr, r[0] - r[0] as int % 2, offset)
            &&& ppu_sees(m, pairs + 0x400 + offset) == in_1k(
                chr,
                r[0] - r[0] as int % 2 + 1,
                offset,
            )
            &&& ppu_sees(m, pairs + 0x800 + offset) == in_1k(chr, r[1] - r[1] as int % 2, offset)
            &&& ppu_sees(m, pairs + 0xc00 + offset) == in_1k(
                chr,
                r[1] - r[1] as int % 2 + 1,
                offset,
            )
            &&& ppu_sees(m, singles + offset) == in_1k(chr, r[2] as int, offset)
            &&& ppu_sees(m, singles + 0x400 + offset) == in_1k(chr, r[3] as int, offset)
            &&& ppu_sees(m, singles + 0x800 + offset) == in_1k(chr, r[4] as int, offset)
            &&& ppu_sees(m, singles + 0xc00 + offset) == in_1k(chr, r[5] as int, offset)
        }),
{
}

/// MMC3: two bank-select writes that differ in bit 7 show each byte of CHR ROM
/// at addresses that differ in A12; writes that agree in bit 7 show it at the
/// same address.
#[verifier::rlimit(50)]
pub proof fn mmc3_inversion_exchanges_the_halves(
    chip: Mmc3<Seq<u8>, Seq<u8>>,
    at: u16,
    one: u8,
    two: u8,
    addr: u16,
)
    requires
        chip_sound(Chip::Mmc3(chip)),
        !chip.board.chr_is_ram,
        0x8000 <= at < 0xa000,
        at % 2 == 0,
        addr < 0x2000,
    ensures
        ({
            let first = written(Chip::Mmc3(chip), at, one);
            let second = written(Chip::Mmc3(chip), at, two);
            &&& (one >= 0x80) != (two >= 0x80) ==> ppu_sees(first, addr as int) == ppu_sees(
                second,
                (addr ^ 0x1000) as int,
            )
            &&& (one >= 0x80) == (two >= 0x80) ==> ppu_sees(first, addr as int) == ppu_sees(
                second,
                addr as int,
            )
        }),
{
    lemma_register(at);
    lemma_other_half(addr);
    lemma_select(one);
    lemma_select(two);
}

/// Where the CHR register `n` shows while CHR inversion is off.
pub open spec fn chr_window(n: int) -> int {
    if n < 2 {
        n * 0x800
    } else {
        0x800 + n * 0x400
    }
}

/// MMC3: a bank-select write and a bank-data write put the named bank into the
/// window of the selected CHR register: 2 KB for R0 and R1, whose low bit does
/// not count, 1 KB for R2 to R5.
#[verifier::rlimit(50)]
pub proof fn mmc3_loads_a_chr_window(
    chip: Mmc3<Seq<u8>, Seq<u8>>,
    select: u8,
    data: u8,
    at: u16,
    offset: int,
)
    requires
        chip_sound(Chip::Mmc3(chip)),
        !chip.board.chr_is_ram,
        chip.board.chr.len() >= 0x400,
        select % 8 < 6,
        0x8000 <= at < 0xa000,
        at % 2 == 0,
        0 <= offset < if select % 8 < 2 {
            0x800int
        } else {
            0x400
        },
    ensures
        ({
            let after = written(
                written(Chip::Mmc3(chip), at, select),
                (at + 1) as u16,
                data,
            );
            let window = chr_window(select as int % 8) + offset;
            let bank = if select % 8 < 2 {
                data - data as int % 2 + offset / 0x400
            } else {
                data as int
            };
            ppu_sees(
                after,
                if select >= 0x80 {
                    other_half(window)
                } else {
                    window
                },
            ) == in_1k(chip.board.chr, bank, offset % 0x400)
        }),
{
    let next = (at + 1) as u16;
    lemma_register(at);
    lemma_register(next);
    lemma_select(select);
}

/// MMC3: loading one CHR register leaves the windows of the others alone, and
/// loading a PRG register all of them.
#[verifier::rlimit(50)]
pub proof fn mmc3_loads_only_its_window(
    chip: Mmc3<Seq<u8>, Seq<u8>>,
    data: u8,
    at: u16,
    addr: int,
)
    requires
        chip_sound(Chip::Mmc3(chip)),
        0x8000 <= at < 0xa000,
        at % 2 == 1,
        0 <= addr < 0x2000,
        ({
            let straight = if chip.banks.chr_inversion {
                other_half(addr)
            } else {
                addr
            };
            let n = chip.banks.select as int;
            n >= 6 || straight < chr_window(n) || straight >= chr_window(n + 1)
        }),
    ensures
        ppu_sees(written(Chip::Mmc3(chip), at, data), addr) == ppu_sees(Chip::Mmc3(chip), addr),
        mirroring_seen(written(Chip::Mmc3(chip), at, data)) == chip.mirroring,
{
    lemma_register(at);
}

/// MMC3: $E000 shows the last 8 KB bank and $A000 the bank of R7. Of $8000 and
/// $C000 the PRG mode says which shows R6; the other shows the second-last
/// bank.
#[verifier::rlimit(50)]
pub proof fn mmc3_prg_windows(chip: Mmc3<Seq<u8>, Seq<u8>>, offset: int)
    requires
        chip_sound(Chip::Mmc3(chip)),
        chip.board.prg_rom.len() >= 0x4000,
        0 <= offset < 0x2000,
    ensures
        ({
            let m = Chip::Mmc3(chip);
            let rom = chip.board.prg_rom;
            let n = banks(rom, 0x2000);
            let moving = if chip.banks.prg_mode {
                0xc000int
            } else {
                0x8000
            };
            &&& cpu_sees(m, moving + offset) == in_8k(rom, chip.banks.regs[6] as int, offset)
            &&& cpu_sees(m, 0xa000 + offset) == in_8k(rom, chip.banks.regs[7] as int, offset)
            &&& cpu_sees(m, 0x14000 - moving + offset) == rom[(n - 2) * 0x2000 + offset]
            &&& cpu_sees(m, 0xe000 + offset) == rom[(n - 1) * 0x2000 + offset]
        }),
{
    let n = banks(chip.board.prg_rom, 0x2000);
    lemma_small_mod(n - 1, n);
    lemma_small_mod(n - 2, n);
}

/// MMC3: the low three bits of a bank-select write name the register that the
/// next bank-data write loads, bit 6 is the PRG mode and bit 7 CHR inversion.
/// R6 and R7 keep six bits. Nothing else of the banking moves.
#[verifier::rlimit(50)]
pub proof fn mmc3_loads_the_selected_register(
    chip: Mmc3<Seq<u8>, Seq<u8>>,
    select: u8,
    data: u8,
    at: u16,
    n: int,
)
    requires
        chip_sound(Chip::Mmc3(chip)),
        0x8000 <= at < 0xa000,
        at % 2 == 0,
        0 <= n < 8,
    ensures
        ({
            let after = written(
                written(Chip::Mmc3(chip), at, select),
                (at + 1) as u16,
                data,
            );
            &&& after is Mmc3
            &&& chip_sound(after)
            &&& after->Mmc3_0.banks.regs[n] as int == if n != select as int % 8 {
                chip.banks.regs[n] as int
            } else if n >= 6 {
                data as int % 64
            } else {
                data as int
            }
            &&& after->Mmc3_0.banks.prg_mode == (select as int / 64 % 2 == 1)
            &&& after->Mmc3_0.banks.chr_inversion == (select >= 0x80)
            &&& after->Mmc3_0.board == chip.board
            &&& after->Mmc3_0.irq == chip.irq
            &&& after->Mmc3_0.mirroring == chip.mirroring
        }),
{
    let next = (at + 1) as u16;
    lemma_register(at);
    lemma_register(next);
    lemma_select(select);
    lemma_masks(data);
}

/// MMC3: an even write to $A000-$BFFE picks the mirroring by its low bit,
/// unless the board has four screens or wires it.
pub proof fn mmc3_writes_pick_the_mirroring(chip: Mmc3<Seq<u8>, Seq<u8>>, at: u16, data: u8)
    requires
        0xa000 <= at < 0xc000,
        at % 2 == 0,
    ensures
        written(Chip::Mmc3(chip), at, data) == Chip::<Seq<u8>, Seq<u8>>::Mmc3(
            Mmc3 { mirroring: mirroring_seen(written(Chip::Mmc3(chip), at, data)), ..chip },
        ),
        mirroring_seen(written(Chip::Mmc3(chip), at, data)) == if chip.four_screen || chip.variant
            == Mmc3Variant::HardwiredMirroring {
            chip.mirroring
        } else if data as int % 2 == 1 {
            Mirroring::Horizontal
        } else {
            Mirroring::Vertical
        },
{
    lemma_register(at);
    lemma_masks(data);
}

/// MMC3: an odd write to $A001-$BFFF opens PRG RAM with bit 7 and protects it
/// with bit 6. Open RAM gives back a write that is not held off; closed RAM
/// reads as zero and takes nothing.
pub proof fn mmc3_gates_its_ram(
    chip: Mmc3<Seq<u8>, Seq<u8>>,
    at: u16,
    gate: u8,
    addr: u16,
    data: u8,
)
    requires
        chip.variant != Mmc3Variant::Mmc6,
        0xa000 <= at < 0xc000,
        at % 2 == 1,
        0x6000 <= addr < 0x8000,
        chip.board.prg_ram.len() == 0x2000,
    ensures
        ({
            let gated = written(Chip::Mmc3(chip), at, gate);
            let after = written(gated, addr, data);
            &&& gate < 0x80 ==> cpu_sees(gated, addr as int) == 0
            &&& gate >= 0x80 ==> cpu_sees(gated, addr as int) == chip.board.prg_ram[addr - 0x6000]
            &&& 0x80 <= gate < 0xc0 ==> cpu_sees(after, addr as int) == data
            &&& gate < 0x80 || gate >= 0xc0 ==> board_of(after).prg_ram == chip.board.prg_ram
        }),
{
    lemma_register(at);
    lemma_masks(gate);
}

/// MMC6: its 1 KB of RAM repeats through $7000-$7FFF. Bit 5 of the bank select
/// turns it on, after which bits 5 and 4 of the protect register let the lower
/// 512 bytes be read and written, bits 7 and 6 the upper ones.
#[verifier::rlimit(50)]
pub proof fn mmc6_gates_its_halves(
    chip: Mmc3<Seq<u8>, Seq<u8>>,
    select: u8,
    gate: u8,
    addr: u16,
    data: u8,
)
    requires
        chip.variant == Mmc3Variant::Mmc6,
        0x6000 <= addr < 0x8000,
        chip.board.prg_ram.len() == 0x400,
    ensures
        ({
            let gated = written(written(Chip::Mmc3(chip), 0x8000, select), 0xa001, gate);
            let after = written(gated, addr, data);
            let open = select as int / 32 % 2 == 1 && addr >= 0x7000;
            let index = addr as int % 0x400;
            let readable = if index < 0x200 {
                gate as int / 32 % 2 == 1
            } else {
                gate >= 0x80
            };
            let writable = readable && if index < 0x200 {
                gate as int / 16 % 2 == 1
            } else {
                gate as int / 64 % 2 == 1
            };
            &&& cpu_sees(gated, addr as int) == if open && readable {
                chip.board.prg_ram[index]
            } else {
                0
            }
            &&& board_of(after).prg_ram == if open && writable {
                chip.board.prg_ram.update(index, data)
            } else {
                chip.board.prg_ram
            }
        }),
{
    lemma_register(0x8000);
    lemma_register(0xa001);
    lemma_masks(select);
    lemma_masks(gate);
    lemma_masks(gate & 0xf0);
}

/// MMC1: the PRG modes of boards of up to 256 KB. Bits 2 and 3 of the control
/// register pick the mode: 32 KB at once, the first bank fixed low, or the last
/// bank fixed high.
#[verifier::rlimit(50)]
pub proof fn mmc1_prg_windows(chip: Mmc1<Seq<u8>>, offset: int)
    requires
        chip_sound(Chip::Mmc1(chip)),
        0x4000 <= chip.board.prg_rom.len() < 0x44000,
        0 <= offset < 0x4000,
    ensures
        ({
            let rom = chip.board.prg_rom;
            let mode = chip.control as int / 4 % 4;
            let chosen = chip.prg_bank as int % 16;
            let low = cpu_sees(Chip::Mmc1(chip), 0x8000 + offset);
            let high = cpu_sees(Chip::Mmc1(chip), 0xc000 + offset);
            &&& mode < 2 ==> low == in_16k(rom, chosen - chosen % 2, offset)
            &&& mode < 2 ==> high == in_16k(rom, chosen - chosen % 2 + 1, offset)
            &&& mode == 2 ==> low == rom[offset]
            &&& mode == 2 ==> high == in_16k(rom, chosen, offset)
            &&& mode == 3 ==> low == in_16k(rom, chosen, offset)
            &&& mode == 3 ==> high == rom[(banks(rom, 0x4000) - 1) * 0x4000 + offset]
        }),
{
    lemma_masks(chip.control);
    lemma_masks(chip.control >> 2);
    let n = banks(chip.board.prg_rom, 0x4000);
    lemma_small_mod(n - 1, n);
    lemma_small_mod(0, n);
}

/// MMC1: a 512 KB board is two 256 KB boards, and bit 4 of the first CHR
/// register says which of them shows.
#[verifier::rlimit(50)]
pub proof fn mmc1_large_boards_are_two_small_ones(chip: Mmc1<Seq<u8>>, offset: int)
    requires
        chip_sound(Chip::Mmc1(chip)),
        chip.board.prg_rom.len() == 0x80000,
        0 <= offset < 0x8000,
    ensures
        ({
            let half = chip.chr_bank0 as int / 16 % 2;
            let halved = Board {
                prg_rom: chip.board.prg_rom.subrange(half * 0x40000, half * 0x40000 + 0x40000),
                ..chip.board
            };
            let small = Mmc1 { board: halved, num_prg_banks: 16, ..chip };
            &&& chip_sound(Chip::Mmc1(small))
            &&& cpu_sees(Chip::Mmc1(chip), 0x8000 + offset) == cpu_sees(
                Chip::Mmc1(small),
                0x8000 + offset,
            )
        }),
{
    lemma_masks(chip.control);
    lemma_masks(chip.control >> 2);
    let start = chip.chr_bank0 as int / 16 % 2 * 16;
    let chosen = chip.prg_bank as int % 16;
    let pair = chosen / 2 * 2;
    assert(chip.num_prg_banks == 32);
    lemma_small_mod(chosen, 16);
    lemma_small_mod(start + chosen, 32);
    lemma_small_mod(pair, 16);
    lemma_small_mod(start + pair, 32);
    lemma_small_mod(pair + 1, 16);
    lemma_small_mod(start + pair + 1, 32);
    lemma_small_mod(start, 32);
    lemma_small_mod(0, 16);
    lemma_small_mod(start + 15, 32);
    lemma_small_mod(15, 16);
}

/// MMC1: bit 4 of the control register picks 8 KB or 4 KB CHR banking. In 8 KB
/// banking the low bit of the first register does not count and the second
/// register is idle.
pub proof fn mmc1_chr_windows(chip: Mmc1<Seq<u8>>, offset: int)
    requires
        chip_sound(Chip::Mmc1(chip)),
        !chip.board.chr_is_ram,
        chip.board.chr.len() >= 0x1000,
        0 <= offset < 0x1000,
    ensures
        ({
            let chr = chip.board.chr;
            let one = chip.chr_bank0 as int;
            let low = ppu_sees(Chip::Mmc1(chip), offset);
            let high = ppu_sees(Chip::Mmc1(chip), 0x1000 + offset);
            &&& chip.control as int / 16 % 2 == 0 ==> low == in_4k(chr, one - one % 2, offset)
            &&& chip.control as int / 16 % 2 == 0 ==> high == in_4k(chr, one - one % 2 + 1, offset)
            &&& chip.control as int / 16 % 2 == 1 ==> low == in_4k(chr, one, offset)
            &&& chip.control as int / 16 % 2 == 1 ==> high == in_4k(
                chr,
                chip.chr_bank1 as int,
                offset,
            )
        }),
{
    lemma_masks(chip.control);
    lemma_masks(chip.control >> 4);
}

/// MMC1: the low two bits of the control register pick the mirroring.
pub proof fn mmc1_control_picks_the_mirroring(chip: Mmc1<Seq<u8>>)
    ensures
        mirroring_seen(Chip::Mmc1(chip)) == if chip.control as int % 4 == 0 {
            Mirroring::SingleScreenLower
        } else if chip.control as int % 4 == 1 {
            Mirroring::SingleScreenUpper
        } else if chip.control as int % 4 == 2 {
            Mirroring::Vertical
        } else {
            Mirroring::Horizontal
        },
{
    lemma_masks(chip.control);
}

/// MMC1: five writes of a value's bits, the lowest first, load the register of
/// the last address: $8000 control, $A000 and $C000 the CHR banks, $E000 the
/// PRG bank.
pub proof fn mmc1_loads_by_the_last_address(chip: Mmc1<Seq<u8>>, addrs: Seq<u16>, value: u8)
    requires
        chip.shift == SHIFT_RESET,
        value < 32,
        addrs.len() == 5,
        addrs[4] >= 0x8000,
    ensures
        ({
            let after = after_bits(chip, addrs, value, 5);
            &&& addrs[4] < 0xa000 ==> after == (Mmc1 { control: value, ..chip })
            &&& 0xa000 <= addrs[4] < 0xc000 ==> after == (Mmc1 { chr_bank0: value, ..chip })
            &&& 0xc000 <= addrs[4] < 0xe000 ==> after == (Mmc1 { chr_bank1: value, ..chip })
            &&& 0xe000 <= addrs[4] ==> after == (Mmc1 { prg_bank: value, ..chip })
        }),
{
    a_register_takes_five_writes(chip, addrs, value, 4);
}

/// MMC1: bit 4 of the PRG register shuts PRG RAM: it reads as zero and takes
/// nothing. Open RAM gives back what was written, in the 8 KB bank that bits 2
/// and 3 of the first CHR register name.
#[verifier::rlimit(50)]
pub proof fn mmc1_gates_its_ram(chip: Mmc1<Seq<u8>>, addr: u16, data: u8)
    requires
        0x6000 <= addr < 0x8000,
        chip.board.prg_ram.len() == 0x2000 || chip.board.prg_ram.len() == 0x8000,
    ensures
        ({
            let before = Chip::Mmc1(chip);
            let after = written(before, addr, data);
            let shut = chip.prg_bank as int / 16 % 2 == 1;
            let bank = if chip.board.prg_ram.len() == 0x2000 {
                0
            } else {
                chip.chr_bank0 as int / 4 % 4
            };
            let index = bank * 0x2000 + (addr - 0x6000);
            &&& cpu_sees(before, addr as int) == if shut {
                0
            } else {
                chip.board.prg_ram[index]
            }
            &&& board_of(after).prg_ram == if shut {
                chip.board.prg_ram
            } else {
                chip.board.prg_ram.update(index, data)
            }
        }),
{
    lemma_masks(chip.prg_bank);
}

/// Every board powers on with the end of its image on the vectors and its
/// first bank low; AxROM and GxROM, which switch all of it, show the first
/// 32 KB. NROM and CNROM have nothing to switch.
#[verifier::rlimit(50)]
pub proof fn boards_power_on_with_the_first_bank(rom: Rom, offset: int)
    requires
        supported(rom.mapper),
        rom.prg_rom@.len() % 0x8000 == 0,
        0x8000 <= rom.prg_rom@.len() <= 0x40000,
        0 <= offset < 0x2000,
    ensures
        cpu_sees(chip_of(rom), 0x8000 + offset) == rom.prg_rom@[offset],
        rom.mapper == 1 || rom.mapper == 2 || rom.mapper == 4 || rom.mapper == 9 ==> cpu_sees(
            chip_of(rom),
            0xe000 + offset,
        ) == rom.prg_rom@[rom.prg_rom@.len() - 0x2000 + offset],
        rom.mapper == 0 || rom.mapper == 3 || rom.mapper == 7 || rom.mapper == 66 ==> cpu_sees(
            chip_of(rom),
            0xe000 + offset,
        ) == rom.prg_rom@[0x6000 + offset],
        rom.mapper == 1 || rom.mapper == 7 ==> mirroring_seen(chip_of(rom))
            == Mirroring::SingleScreenLower,
        rom.mapper != 1 && rom.mapper != 7 ==> mirroring_seen(chip_of(rom))
            == rom.screen_mirroring,
{
    lemma_masks(0x0c);
    lemma_masks(0x0cu8 >> 2);
    let rom8 = banks(rom.prg_rom@, 0x2000);
    let rom16 = banks(rom.prg_rom@, 0x4000);
    let rom32 = banks(rom.prg_rom@, 0x8000);
    lemma_small_mod(0, rom8);
    lemma_small_mod(0, rom16);
    lemma_small_mod(0, rom32);
    lemma_small_mod(rom8 - 1, rom8);
    lemma_small_mod(rom16 - 1, rom16);
}

/// The picture unit sees the first 8 KB of CHR ROM at power-on on every board
/// but MMC3, whose registers all name bank 0, and MMC2, whose latches do.
#[verifier::rlimit(50)]
pub proof fn boards_power_on_with_the_first_patterns(rom: Rom, offset: int)
    requires
        supported(rom.mapper),
        rom.chr_rom@.len() % 0x2000 == 0,
        rom.chr_rom@.len() >= 0x2000,
        0 <= offset < 0x2000,
    ensures
        rom.mapper != 4 && rom.mapper != 9 ==> ppu_sees(chip_of(rom), offset)
            == rom.chr_rom@[offset],
        rom.mapper == 9 ==> ppu_sees(chip_of(rom), offset) == rom.chr_rom@[offset % 0x1000],
        rom.mapper == 4 && offset < 0x400 ==> ppu_sees(chip_of(rom), offset)
            == rom.chr_rom@[offset],
{
    lemma_masks(0x0c);
    lemma_masks(0x0cu8 >> 4);
    assert(rom.chr_rom@.len() == rom.chr_rom.len());
    let n = banks(rom.chr_rom@, 0x1000);
    let k = banks(rom.chr_rom@, 0x400);
    lemma_small_mod(0, n);
    lemma_small_mod(1, n);
    lemma_small_mod(0, k);
}

/// MMC3: $C000 sets what the scanline counter reloads from and $C001 asks for
/// the reload; $E000 disables the interrupt and drops a standing one, $E001
/// enables it. The banks do not move.
#[verifier::rlimit(50)]
pub proof fn mmc3_interrupt_registers(chip: Mmc3<Seq<u8>, Seq<u8>>, at: u16, data: u8)
    requires
        at >= 0xc000,
    ensures
        ({
            let after = written(Chip::Mmc3(chip), at, data);
            let irq = after->Mmc3_0.irq;
            &&& after == Chip::<Seq<u8>, Seq<u8>>::Mmc3(Mmc3 { irq, ..chip })
            &&& at < 0xe000 && at % 2 == 0 ==> irq == (ScanlineIrq { latch: data, ..chip.irq })
            &&& at < 0xe000 && at % 2 == 1 ==> irq == (ScanlineIrq {
                counter: 0,
                reload: true,
                ..chip.irq
            })
            &&& at >= 0xe000 && at % 2 == 0 ==> irq == (ScanlineIrq {
                enabled: false,
                line: false,
                ..chip.irq
            })
            &&& at >= 0xe000 && at % 2 == 1 ==> irq == (ScanlineIrq { enabled: true, ..chip.irq })
            &&& Chip::<Vec<u8>, [u8; 8]>::irq_of(after) == irq.line
        }),
{
    lemma_register(at);
}

/// MMC3: one clock of the scanline counter takes one off it, or reloads an
/// empty or a cleared one, and raises the interrupt where zero is left, if it
/// is enabled. The NEC chip stays silent where zero was left before.
pub proof fn mmc3_counts_scanlines(irq: ScanlineIrq, variant: Mmc3Variant)
    ensures
        ({
            let after = irq_clocked(irq, variant);
            let reloads = irq.reload || irq.counter == 0;
            &&& after.counter as int == if reloads {
                irq.latch as int
            } else {
                irq.counter - 1
            }
            &&& !after.reload && after.latch == irq.latch && after.enabled == irq.enabled
            &&& irq.line ==> after.line
            &&& after.line && !irq.line ==> irq.enabled && after.counter == 0
            &&& irq.enabled && after.counter == 0 && !(variant is Nec) ==> after.line
            &&& irq.enabled && after.counter == 0 && variant is Nec && (irq.counter > 0
                || irq.reload) ==> after.line
            &&& variant is Nec && irq.counter == 0 && !irq.reload ==> after.line == irq.line
        }),
{
}

/// The submapper tells the MMC3's relatives apart.
pub proof fn submappers_name_the_relatives(submapper: u8)
    ensures
        variant_of(submapper) is Mmc6 <==> submapper == 1,
        variant_of(submapper) is HardwiredMirroring <==> submapper == 2,
        variant_of(submapper) is McAcc <==> submapper == 3,
        variant_of(submapper) is Nec <==> submapper == 4,
{
}

/// A cartridge's own RAM starts empty and of the size that it declares; only
/// boards without CHR ROM have CHR RAM.
pub proof fn boards_start_with_empty_memories(rom: Rom, i: int)
    requires
        supported(rom.mapper),
    ensures
        ({
            let board = board_of(chip_of(rom));
            &&& board.prg_rom == rom.prg_rom@
            &&& board.chr_is_ram <==> rom.chr_rom@.len() == 0
            &&& rom.chr_rom@.len() > 0 ==> board.chr == rom.chr_rom@
            &&& 0 <= i < board.prg_ram.len() ==> board.prg_ram[i] == 0
            &&& board.chr_is_ram && 0 <= i < board.chr.len() ==> board.chr[i] == 0
            &&& rom.mapper != 3 && rom.mapper != 7 && rom.mapper != 66 ==> board.prg_ram.len()
                == rom.memory.prg_ram.size
            &&& rom.mapper == 3 || rom.mapper == 7 || rom.mapper == 66 ==> board.prg_ram.len() == 0
        }),
{
}

/// Of all boards only MMC3 can interrupt, and no access to another one changes
/// that.
pub proof fn only_the_line_counter_interrupts(m: ChipModel)
    ensures
        Chip::<Vec<u8>, [u8; 8]>::irq_of(m) <==> m is Mmc3 && m->Mmc3_0.irq.line,
{
}

/// A board has as many banks as fit whole into its memory, and never none.
pub proof fn banks_are_whole(len: nat, size: nat)
    requires
        size > 0,
    ensures
        len >= size ==> bank_count(len, size) * size <= len < (bank_count(len, size) + 1) * size,
        len < size ==> bank_count(len, size) == 1,
{
    let n = len / size;
    vstd::arithmetic::div_mod::lemma_fundamental_div_mod(len as int, size as int);
    vstd::arithmetic::div_mod::lemma_mod_bound(len as int, size as int);
    vstd::arithmetic::mul::lemma_mul_is_commutative(n as int, size as int);
    vstd::arithmetic::mul::lemma_mul_is_distributive_add_other_way(size as int, n as int, 1);
    if n == 0 {
        assert(len < size);
    } else {
        vstd::arithmetic::mul::lemma_mul_inequality(1, n as int, size as int);
    }
}

} // verus!
