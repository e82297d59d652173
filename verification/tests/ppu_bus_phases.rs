//! The addresses that the picture unit drives, dot by dot.

use nes_emulator::cartridge::Mirroring;
use nes_emulator::mapper::{Bytes, Mapper};
use nes_emulator::ppu::NesPPU;
use std::cell::RefCell;
use std::rc::Rc;

#[derive(Clone, Default)]
struct RecordingMapper {
    chr: Vec<u8>,
    accesses: Rc<RefCell<Vec<(u16, u64)>>>,
}

impl Mapper for RecordingMapper {
    type Model = ();

    // What the mapper means is stated by these; nothing runs them.
    fn model(&self) {}

    fn sound(_m: ()) -> bool {
        true
    }

    fn complete(_m: ()) -> bool {
        true
    }

    fn cpu_readable(_m: (), _addr: u16) -> bool {
        true
    }

    fn ppu_accessible(_m: (), _addr: u16) -> bool {
        true
    }

    fn chr_writable(_m: ()) -> bool {
        true
    }

    fn cpu_value(_m: (), _addr: u16) -> u8 {
        unreachable!()
    }

    fn ppu_value(_m: (), _addr: u16) -> u8 {
        unreachable!()
    }

    fn mirroring_of(_m: ()) -> Mirroring {
        Mirroring::Vertical
    }

    fn irq_of(_m: ()) -> bool {
        false
    }

    fn after_cpu_write(_m: (), _addr: u16, _data: u8) {}

    fn after_cpu_write_at(_m: (), _addr: u16, _data: u8, _cpu_cycle: u64) {}

    fn after_ppu_read(_m: (), _addr: u16) {}

    fn after_ppu_write(_m: (), _addr: u16, _data: u8) {}

    fn after_ppu_bus_access(_m: (), _addr: u16, _ppu_cycle: u64) {}

    fn after_reset(_m: ()) {}

    fn prg_ram_of(_m: ()) -> Option<Bytes> {
        None
    }

    fn chr_ram_of(_m: ()) -> Option<Bytes> {
        None
    }

    fn with_prg_ram(_m: (), _ram: Bytes) {}

    fn with_chr_ram(_m: (), _ram: Bytes) {}

    fn complete_answers(_m: (), _addr: u16) {}

    fn ppu_accesses_keep_mirroring(_m: (), _addr: u16, _ppu_cycle: u64) {}

    fn cpu_read(&mut self, _addr: u16) -> u8 {
        0
    }

    fn cpu_write(&mut self, _addr: u16, _data: u8) {}

    fn ppu_read(&mut self, addr: u16) -> u8 {
        self.chr[addr as usize]
    }

    fn ppu_write(&mut self, addr: u16, data: u8) {
        self.chr[addr as usize] = data;
    }

    fn mirroring(&self) -> Mirroring {
        Mirroring::Vertical
    }

    fn cpu_write_at(&mut self, _addr: u16, _data: u8, _cpu_cycle: u64) {}

    fn irq_pending(&self) -> bool {
        false
    }

    fn reset(&mut self) {}

    fn prg_ram(&self) -> Option<&[u8]> {
        None
    }

    fn chr_ram(&self) -> Option<&[u8]> {
        None
    }

    fn store_prg_ram(&mut self, _start: usize, _bytes: &[u8]) {}

    fn store_chr_ram(&mut self, _start: usize, _bytes: &[u8]) {}

    fn is_complete(&self) -> bool {
        true
    }

    fn duplicate(&self) -> Self {
        self.clone()
    }

    fn on_ppu_bus_access(&mut self, addr: u16, ppu_cycle: u64) {
        self.accesses.borrow_mut().push((addr, ppu_cycle));
    }
}

fn recording_ppu() -> (NesPPU<RecordingMapper>, Rc<RefCell<Vec<(u16, u64)>>>) {
    let accesses = Rc::new(RefCell::new(Vec::new()));
    let mapper = RecordingMapper {
        chr: vec![0; 0x2000],
        accesses: Rc::clone(&accesses),
    };
    (NesPPU::new(mapper), accesses)
}

// Most dot-phase tests start the raster at an arbitrary position and are
// concerned with the pipeline once it is already active. Keep those tests
// independent of PPUMASK's transition delay; dedicated tests below cover
// the delay itself.
fn force_mask<M: Mapper>(ppu: &mut NesPPU<M>, value: u8) {
    ppu.write_to_mask(value);
    let rendering = ppu.regs.mask.show_background() || ppu.regs.mask.show_sprites();
    ppu.gate.enabled = rendering;
    ppu.gate.pending = rendering;
    ppu.gate.change_at = None;
}

#[test]
fn background_fetch_phases_drive_the_expected_addresses_and_dots() {
    let (mut ppu, accesses) = recording_ppu();
    force_mask(&mut ppu, 0x08);
    ppu.mem.vram[0] = 2;
    ppu.raster.dot = 1;

    ppu.tick(8);

    assert_eq!(
        *accesses.borrow(),
        vec![(0x2000, 0), (0x23c0, 2), (0x0020, 4), (0x0028, 6)]
    );
    assert_eq!(ppu.regs.loopy.current() & 0x001f, 1);
}

#[test]
fn prefetch_and_dummy_fetches_drive_the_ppu_bus_on_dots_321_through_339() {
    let (mut ppu, accesses) = recording_ppu();
    force_mask(&mut ppu, 0x08);
    ppu.raster.dot = 321;

    ppu.tick(20);

    assert_eq!(
        *accesses.borrow(),
        vec![
            (0x2000, 0),
            (0x23c0, 2),
            (0x0000, 4),
            (0x0008, 6),
            (0x2001, 8),
            (0x23c0, 10),
            (0x0000, 12),
            (0x0008, 14),
            (0x2002, 16),
            (0x2002, 18),
        ]
    );
}

#[test]
fn sprite_fetch_slot_drives_two_garbage_and_two_pattern_accesses() {
    let (mut ppu, accesses) = recording_ppu();
    ppu.write_to_ctrl(0x08); // 8x8 sprite patterns at $1000
    force_mask(&mut ppu, 0x10);
    ppu.eval.count = 1;
    ppu.eval.secondary_indices[0] = 0;
    ppu.eval.secondary_oam[0..4].copy_from_slice(&[0, 2, 0, 0]);
    ppu.raster.dot = 257;

    ppu.tick(8);

    assert_eq!(
        *accesses.borrow(),
        vec![(0x2000, 0), (0x2000, 2), (0x1020, 4), (0x1028, 6)]
    );
    assert!(ppu.sprites.next[0].valid);
}

#[test]
fn empty_sprite_slots_still_fetch_from_the_selected_pattern_table() {
    let (mut ppu, accesses) = recording_ppu();
    ppu.write_to_ctrl(0x08);
    force_mask(&mut ppu, 0x10);
    ppu.raster.dot = 257;

    ppu.tick(8);

    assert_eq!(
        *accesses.borrow(),
        vec![(0x2000, 0), (0x2000, 2), (0x1ff0, 4), (0x1ff8, 6)]
    );
}

#[test]
fn rendering_disabled_suppresses_all_pipeline_bus_accesses() {
    let (mut ppu, accesses) = recording_ppu();

    ppu.tick(255);
    ppu.tick(86);

    assert!(accesses.borrow().is_empty());
}

