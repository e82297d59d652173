//! Properties that hold of every board.

use crate::mapper::board::{ram_after, ram_value, Board};
use crate::mapper::managed::{Chip, ChipModel};
use crate::mapper::mmc3::{a12_driven, irq_clocked, Mmc3Variant, ScanlineIrq};
use crate::mapper::Mapper;
use vstd::prelude::*;

verus! {

/// The memories on a chip's board.
pub open spec fn board_of(m: ChipModel) -> Board<Seq<u8>> {
    match m {
        Chip::Nrom(chip) => chip.board,
        Chip::Mmc1(chip) => chip.board,
        Chip::Uxrom(chip) => chip.board,
        Chip::Cnrom(chip) => chip.board,
        Chip::Mmc3(chip) => chip.board,
        Chip::Axrom(chip) => chip.board,
        Chip::Mmc2(chip) => chip.board,
        Chip::Gnrom(chip) => chip.board,
    }
}

/// The read-only image kept: PRG ROM, and CHR where it is ROM.
pub open spec fn image_kept(a: Board<Seq<u8>>, b: Board<Seq<u8>>) -> bool {
    b.prg_rom == a.prg_rom && b.chr_is_ram == a.chr_is_ram && (!a.chr_is_ram ==> b.chr == a.chr)
}

/// No access from either side of the machine changes the cartridge image.
pub proof fn no_access_changes_the_image(m: ChipModel, addr: u16, data: u8, now: u64)
    ensures
        image_kept(board_of(m), board_of(Chip::<Vec<u8>, [u8; 8]>::after_cpu_write(m, addr, data))),
        image_kept(
            board_of(m),
            board_of(Chip::<Vec<u8>, [u8; 8]>::after_cpu_write_at(m, addr, data, now)),
        ),
        image_kept(board_of(m), board_of(Chip::<Vec<u8>, [u8; 8]>::after_ppu_read(m, addr))),
        image_kept(board_of(m), board_of(Chip::<Vec<u8>, [u8; 8]>::after_ppu_write(m, addr, data))),
        image_kept(
            board_of(m),
            board_of(Chip::<Vec<u8>, [u8; 8]>::after_ppu_bus_access(m, addr, now)),
        ),
        image_kept(board_of(m), board_of(Chip::<Vec<u8>, [u8; 8]>::after_reset(m))),
{
}

/// The reset button leaves every memory alone.
pub proof fn a_reset_keeps_the_memories(m: ChipModel)
    ensures
        board_of(Chip::<Vec<u8>, [u8; 8]>::after_reset(m)) == board_of(m),
{
}

/// The picture unit's accesses leave PRG RAM alone, and reading leaves CHR RAM
/// alone.
pub proof fn picture_accesses_leave_prg_ram_alone(m: ChipModel, addr: u16, data: u8, now: u64)
    ensures
        board_of(Chip::<Vec<u8>, [u8; 8]>::after_ppu_write(m, addr, data)).prg_ram == board_of(
            m,
        ).prg_ram,
        board_of(Chip::<Vec<u8>, [u8; 8]>::after_ppu_read(m, addr)) == board_of(m),
        board_of(Chip::<Vec<u8>, [u8; 8]>::after_ppu_bus_access(m, addr, now)) == board_of(m),
{
}

/// PRG RAM reads back what was written, and no other address of it changes.
pub proof fn prg_ram_reads_back(ram: Seq<u8>, addr: u16, data: u8, other: u16)
    requires
        0x6000 <= addr < 0x8000,
        0x6000 <= other < 0x8000,
    ensures
        addr - 0x6000 < ram.len() ==> ram_value(ram_after(ram, addr, data), addr) == data,
        other != addr ==> ram_value(ram_after(ram, addr, data), other) == ram_value(ram, other),
        ram_after(ram, addr, data).len() == ram.len(),
{
}

/// On a board without a RAM gate the CPU reads back what it wrote.
pub proof fn ungated_ram_reads_back(m: ChipModel, addr: u16, data: u8)
    requires
        m is Nrom || m is Uxrom || m is Mmc2,
        0x6000 <= addr < 0x8000,
        addr - 0x6000 < board_of(m).prg_ram.len(),
    ensures
        Chip::<Vec<u8>, [u8; 8]>::cpu_value(
            Chip::<Vec<u8>, [u8; 8]>::after_cpu_write(m, addr, data),
            addr,
        ) == data,
{
}

/// CHR RAM reads back what was written through the same banks.
pub proof fn chr_ram_reads_back(m: ChipModel, addr: u16, data: u8)
    requires
        Chip::<Vec<u8>, [u8; 8]>::ppu_accessible(m, addr),
        Chip::<Vec<u8>, [u8; 8]>::sound(m),
        board_of(m).chr_is_ram,
        addr < 0x2000,
    ensures
        Chip::<Vec<u8>, [u8; 8]>::ppu_value(
            Chip::<Vec<u8>, [u8; 8]>::after_ppu_write(m, addr, data),
            addr,
        ) == data,
{
}

/// The scanline counter moves only on a qualified edge of A12: on most chips a
/// rise after at least eight dots low, on the MC-ACC a fall after at least
/// eight dots high.
pub proof fn only_a_qualified_edge_clocks(
    irq: ScanlineIrq,
    variant: Mmc3Variant,
    high: bool,
    now: u64,
)
    ensures
        ({
            let after = a12_driven(irq, variant, high, now);
            let clocks = if variant == Mmc3Variant::McAcc {
                !high && irq.a12_high && irq.a12_high_since is Some && now
                    - irq.a12_high_since->0 >= 8
            } else {
                high && !irq.a12_high && irq.a12_low_since is Some && now - irq.a12_low_since->0
                    >= 8
            };
            let counted = if clocks {
                irq_clocked(irq, variant)
            } else {
                irq
            };
            after.a12_high == high && after.counter == counted.counter && after.line
                == counted.line && after.reload == counted.reload
        }),
{
}

/// Where a board's hardwired part of PRG ROM begins, up to $FFFF.
pub open spec fn fixed_from(m: ChipModel) -> int {
    match m {
        Chip::Nrom(_) | Chip::Cnrom(_) => 0x8000,
        Chip::Mmc2(_) => 0xa000,
        Chip::Uxrom(_) => 0xc000,
        Chip::Mmc3(_) => 0xe000,
        _ => 0x10000,
    }
}

/// No write moves what is hardwired: the whole image of an unbanked board, all
/// but the first window of MMC2, the upper half of UxROM and the last window of
/// MMC3.
pub proof fn hardwired_banks_stay(m: ChipModel, at: u16, data: u8, now: u64, addr: u16)
    requires
        addr >= fixed_from(m),
    ensures
        Chip::<Vec<u8>, [u8; 8]>::cpu_value(Chip::<Vec<u8>, [u8; 8]>::after_cpu_write(m, at, data), addr) == Chip::<Vec<u8>, [u8; 8]>::cpu_value(m, addr),
        Chip::<Vec<u8>, [u8; 8]>::cpu_value(Chip::<Vec<u8>, [u8; 8]>::after_cpu_write_at(m, at, data, now), addr)
            == Chip::<Vec<u8>, [u8; 8]>::cpu_value(m, addr),
        Chip::<Vec<u8>, [u8; 8]>::cpu_value(Chip::<Vec<u8>, [u8; 8]>::after_reset(m), addr) == Chip::<Vec<u8>, [u8; 8]>::cpu_value(m, addr),
{
}

} // verus!
