//! The memories of the picture chip: two nametables, the palettes and the
//! sprite attribute memory.

use crate::cartridge::Mirroring;
use crate::mapper::board::{copied, zeroed, zeroes};
use vstd::prelude::*;

verus! {

/// Over `Vec<u8>` the memories themselves, over `Seq<u8>` their model.
pub struct PpuMemory<B = Vec<u8>> {
    pub palette_table: B,
    pub vram: B,
    pub oam_data: B,
}

pub type MemoryModel = PpuMemory<Seq<u8>>;

impl View for PpuMemory<Vec<u8>> {
    type V = MemoryModel;

    open spec fn view(&self) -> MemoryModel {
        PpuMemory {
            palette_table: self.palette_table@,
            vram: self.vram@,
            oam_data: self.oam_data@,
        }
    }
}

/// Where `addr` ($2000-$3EFF) lands in the 2 KB of nametable memory:
///
/// Horizontal:  [ A ] [ a ]      Vertical:  [ A ] [ B ]
///              [ B ] [ b ]                 [ a ] [ b ]
///
/// Single-screen mirroring collapses all four nametables onto one page. A
/// four-screen board's own memory is not modelled; its index is the plain one.
pub open spec fn mirrored(mirroring: Mirroring, addr: u16) -> u16 {
    let index = addr % 0x1000;
    let table = index / 0x400;
    match mirroring {
        Mirroring::Vertical => (index % 0x800) as u16,
        Mirroring::Horizontal => if table == 0 {
            index
        } else if table == 3 {
            (index - 0x800) as u16
        } else {
            (index - 0x400) as u16
        },
        Mirroring::SingleScreenLower => (index % 0x400) as u16,
        Mirroring::SingleScreenUpper => (index % 0x400 + 0x400) as u16,
        Mirroring::FourScreen => index,
    }
}

pub fn mirror_vram(mirroring: Mirroring, addr: u16) -> (r: u16)
    ensures
        r == mirrored(mirroring, addr),
        r < 0x1000,
        mirroring != Mirroring::FourScreen ==> r < 0x800,
{
    let index: u16 = addr % 0x1000;
    let table: u16 = index / 0x400;
    match mirroring {
        Mirroring::Vertical => index % 0x800,
        Mirroring::Horizontal => if table == 0 {
            index
        } else if table == 3 {
            index - 0x800
        } else {
            index - 0x400
        },
        Mirroring::SingleScreenLower => index % 0x400,
        Mirroring::SingleScreenUpper => index % 0x400 + 0x400,
        Mirroring::FourScreen => index,
    }
}

/// Where `addr` ($3F00-$3FFF) lands in palette memory: the backdrop entries of
/// the sprite palettes are those of the background palettes.
pub open spec fn palette_slot(addr: u16) -> int {
    let index = addr as int % 32;
    if index >= 0x10 && index % 4 == 0 {
        index - 0x10
    } else {
        index
    }
}

pub fn palette_index(addr: u16) -> (r: usize)
    ensures
        r == palette_slot(addr),
        r < 32,
{
    let index: usize = (addr % 32) as usize;
    if index >= 0x10 && index % 4 == 0 {
        index - 0x10
    } else {
        index
    }
}

impl MemoryModel {
    pub open spec fn wf(self) -> bool {
        &&& self.palette_table.len() == 32
        &&& self.vram.len() == 2048
        &&& self.oam_data.len() == 256
    }

    /// Power-on: palettes at black ($0F), so that unused sprites stay
    /// invisible; everything else zero.
    pub open spec fn initial() -> MemoryModel {
        PpuMemory {
            palette_table: Seq::new(32, |i: int| 0x0fu8),
            vram: zeroes(2048),
            oam_data: zeroes(256),
        }
    }

    /// Evaluation that begins with a nonzero OAM row copies that row over
    /// sprites 0 and 1.
    pub open spec fn row_refreshed(self, oam_addr: u8) -> MemoryModel {
        let source = oam_addr as int / 8 * 8;
        PpuMemory {
            oam_data: Seq::new(
                self.oam_data.len(),
                |i: int|
                    if i < 8 {
                        self.oam_data[source + i]
                    } else {
                        self.oam_data[i]
                    },
            ),
            ..self
        }
    }
}

impl PpuMemory<Vec<u8>> {
    pub fn new() -> (r: Self)
        ensures
            r@ == MemoryModel::initial(),
            r@.wf(),
    {
        let palette_table = vec![0x0fu8; 32];
        assert(palette_table@ =~= MemoryModel::initial().palette_table);
        PpuMemory { palette_table, vram: zeroed(2048), oam_data: zeroed(256) }
    }

    pub fn refresh_row(&mut self, oam_addr: u8)
        requires
            old(self)@.wf(),
        ensures
            final(self)@ == old(self)@.row_refreshed(oam_addr),
            final(self)@.wf(),
    {
        let ghost before = self@;
        let source: usize = oam_addr as usize / 8 * 8;
        let mut i: usize = 0;
        while i < 8
            invariant
                i <= 8,
                source + 8 <= 256,
                source == oam_addr as int / 8 * 8,
                before.wf(),
                self@.palette_table == before.palette_table,
                self@.vram == before.vram,
                self.oam_data@.len() == 256,
                forall|j: int|
                    0 <= j < 256 ==> #[trigger] self.oam_data@[j] == if j < i {
                        before.oam_data[source + j]
                    } else {
                        before.oam_data[j]
                    },
            decreases 8 - i,
        {
            let byte: u8 = self.oam_data[source + i];
            assert(byte == before.oam_data[source + i]);
            self.oam_data[i] = byte;
            i += 1;
        }
        assert(self.oam_data@ =~= before.row_refreshed(oam_addr).oam_data);
    }

    pub fn duplicate(&self) -> (r: Self)
        ensures
            r@ == self@,
    {
        PpuMemory {
            palette_table: copied(&self.palette_table),
            vram: copied(&self.vram),
            oam_data: copied(&self.oam_data),
        }
    }
}

/// Every mirroring of the console's own memory keeps addresses that differ
/// only above the nametable area together, and stays within 2 KB.
pub proof fn mirroring_folds_the_nametables(mirroring: Mirroring, addr: u16)
    requires
        mirroring != Mirroring::FourScreen,
        addr < 0xf000,
    ensures
        mirrored(mirroring, addr) < 0x800,
        mirrored(mirroring, (addr + 0x1000) as u16) == mirrored(mirroring, addr),
        mirrored(mirroring, addr) % 0x400 == addr % 0x400,
{
    let index: u16 = (addr % 0x1000) as u16;
    let table: u16 = (index / 0x400) as u16;
    let column: u16 = (index % 0x400) as u16;
    assert((addr + 0x1000) % 0x1000 == index);
    assert(index == table * 0x400 + column);
    assert(column == addr % 0x400) by (bit_vector)
        requires
            index == addr % 0x1000,
            column == index % 0x400,
    ;
    assert(table == 0 || table == 1 || table == 2 || table == 3);
}

/// Vertical mirroring repeats the picture downwards, horizontal mirroring
/// sideways.
pub proof fn mirroring_pairs_the_nametables(offset: u16)
    requires
        offset < 0x400,
    ensures
        mirrored(Mirroring::Vertical, (0x2000 + offset) as u16) == mirrored(
            Mirroring::Vertical,
            (0x2800 + offset) as u16,
        ),
        mirrored(Mirroring::Vertical, (0x2400 + offset) as u16) == mirrored(
            Mirroring::Vertical,
            (0x2c00 + offset) as u16,
        ),
        mirrored(Mirroring::Horizontal, (0x2000 + offset) as u16) == mirrored(
            Mirroring::Horizontal,
            (0x2400 + offset) as u16,
        ),
        mirrored(Mirroring::Horizontal, (0x2800 + offset) as u16) == mirrored(
            Mirroring::Horizontal,
            (0x2c00 + offset) as u16,
        ),
        mirrored(Mirroring::Vertical, (0x2000 + offset) as u16) != mirrored(
            Mirroring::Vertical,
            (0x2400 + offset) as u16,
        ),
        mirrored(Mirroring::Horizontal, (0x2000 + offset) as u16) != mirrored(
            Mirroring::Horizontal,
            (0x2800 + offset) as u16,
        ),
{
}

/// The four backdrop entries of the sprite palettes are aliases: $3F10, $3F14,
/// $3F18 and $3F1C name the same bytes as $3F00, $3F04, $3F08 and $3F0C.
pub proof fn sprite_backdrops_alias_background_backdrops(k: u16)
    requires
        k < 4,
    ensures
        palette_slot((0x3f10 + 4 * k) as u16) == palette_slot((0x3f00 + 4 * k) as u16),
{
}

} // verus!
