//! The picture processing unit: background and sprite pipelines, timing and
//! the registers the CPU sees. Everything happens on a timeline of dots.

use crate::cartridge::Mirroring;
use crate::mapper::Mapper;
use crate::ppu::background::Background;
use crate::ppu::io::IoLatch;
use crate::ppu::memory::{mirror_vram, mirrored, palette_index, PpuMemory};
use crate::ppu::model::{PpuModel, PpuRegisters, ProbeDiagnostics};
use crate::ppu::raster::{NmiLine, Raster, RenderGate};
use crate::ppu::registers::control::ControlRegister;
use crate::ppu::registers::loopy::LoopyRegister;
use crate::ppu::registers::mask::MaskRegister;
use crate::ppu::registers::status::StatusRegister;
use crate::ppu::sprites::{reverse_bits, SpriteEvaluation, SpriteUnits};
use crate::render::frame::Frame;
use crate::render::palette::color;
use vstd::prelude::*;

pub mod background;
pub mod io;
pub mod laws;
pub mod memory;
pub mod model;
pub mod picture;
pub mod raster;
pub mod registers;
pub mod sprites;

verus! {

pub struct NesPPU<M: Mapper> {
    pub mapper: M,
    pub mem: PpuMemory,
    pub regs: PpuRegisters,
    pub raster: Raster,
    pub gate: RenderGate,
    pub nmi: NmiLine,
    pub bg: Background,
    pub eval: SpriteEvaluation,
    pub sprites: SpriteUnits,
    pub io: IoLatch,
    pub frame: Frame,
    pub probe: ProbeDiagnostics,
}

impl<M: Mapper> View for NesPPU<M> {
    type V = PpuModel<M::Model>;

    open spec fn view(&self) -> PpuModel<M::Model> {
        PpuModel {
            mapper: self.mapper.model(),
            mem: self.mem@,
            regs: self.regs,
            raster: self.raster,
            gate: self.gate,
            nmi: self.nmi,
            bg: self.bg,
            eval: self.eval@,
            sprites: self.sprites@,
            io: self.io@,
            frame: self.frame@,
            probe: self.probe,
        }
    }
}

fn attenuate(channel: u8) -> (r: u8)
    ensures
        r == model::attenuated(channel),
{
    (channel as u16 * 3 / 4) as u8
}

fn attenuate_if(channel: u8, on: bool) -> (r: u8)
    ensures
        r == model::attenuated_if(channel, on),
{
    if on {
        attenuate(channel)
    } else {
        channel
    }
}

/// The colour that a palette byte shows as under PPUMASK.
pub fn output_color(mask: MaskRegister, palette_value: u8) -> (r: (u8, u8, u8))
    ensures
        r == model::color_of(mask, palette_value),
{
    let index: usize = if mask.is_grayscale() {
        (palette_value / 16 % 4 * 16) as usize
    } else {
        (palette_value % 64) as usize
    };
    let rgb = color(index);
    // The NTSC emphasis signals attenuate the two channels not being
    // emphasized, so combinations retain their tint while an all-bits mask
    // darkens the whole image.
    (
        attenuate_if(attenuate_if(rgb.0, mask.emphasise_green()), mask.emphasise_blue()),
        attenuate_if(attenuate_if(rgb.1, mask.emphasise_red()), mask.emphasise_blue()),
        attenuate_if(attenuate_if(rgb.2, mask.emphasise_red()), mask.emphasise_green()),
    )
}

impl<M: Mapper> NesPPU<M> {
    pub fn new(mapper: M) -> (r: Self)
        ensures
            r@ == model::power_on(mapper.model()),
            M::complete(mapper.model()) ==> model::wf::<M>(r@),
    {
        NesPPU {
            mapper,
            mem: PpuMemory::new(),
            regs: PpuRegisters {
                loopy: LoopyRegister::new(),
                ctrl: ControlRegister::new(),
                mask: MaskRegister::new(),
                status: StatusRegister::new(),
                oam_addr: 0,
                oam_data_bus: 0,
                internal_data_buf: 0,
            },
            raster: Raster::new(),
            gate: RenderGate::new(),
            nmi: NmiLine::new(),
            bg: Background::new(),
            eval: SpriteEvaluation::new(),
            sprites: SpriteUnits::new(),
            io: IoLatch::new(),
            frame: Frame::new(),
            probe: ProbeDiagnostics {
                oam_dma_count: 0,
                visible_register_writes: 0,
                last_register: 0,
                last_scanline: 0,
                last_dot: 0,
            },
        }
    }

    /// The finished frame, ready to present. Valid to read at vblank, once
    /// every visible line has been composited during this frame's ticks.
    pub fn frame(&self) -> (r: &Frame)
        ensures
            r@ == self@.frame,
    {
        &self.frame
    }

    /// Consume the host presentation event raised at the start of vblank. The
    /// CPU has not serviced the corresponding NMI yet, so a front end can
    /// sample controller input here and make it visible to the game's vblank
    /// handler without adding an avoidable frame of latency.
    pub fn take_frame_ready(&mut self) -> (r: bool)
        ensures
            r == old(self)@.nmi.frame_ready,
            final(self)@ == (PpuModel {
                nmi: NmiLine { frame_ready: false, ..old(self)@.nmi },
                ..old(self)@
            }),
    {
        let ready = self.nmi.frame_ready;
        self.nmi.frame_ready = false;
        ready
    }

    /// An independent copy with another cartridge in the slot.
    pub fn clone_with_mapper(&self, mapper: M) -> (r: Self)
        ensures
            r@ == (PpuModel { mapper: mapper.model(), ..self@ }),
    {
        NesPPU {
            mapper,
            mem: self.mem.duplicate(),
            regs: self.regs,
            raster: self.raster,
            gate: self.gate,
            nmi: self.nmi,
            bg: self.bg,
            eval: self.eval.duplicate(),
            sprites: self.sprites.duplicate(),
            io: self.io.duplicate(),
            frame: self.frame.duplicate(),
            probe: self.probe,
        }
    }

    /// An independent copy, cartridge included.
    pub fn duplicate(&self) -> (r: Self)
        ensures
            r@ == self@,
    {
        self.clone_with_mapper(self.mapper.duplicate())
    }

    /// Cumulative counters for the headless probe.
    #[verifier::allow_in_spec]
    pub fn probe_diagnostics(&self) -> ProbeDiagnostics
        returns
            self.probe,
    {
        self.probe
    }

    fn note_register_write(&mut self, register: u16)
        ensures
            final(self)@ == model::write_noted(old(self)@, register),
    {
        if self.raster.scanline < 240 {
            self.probe = ProbeDiagnostics {
                oam_dma_count: self.probe.oam_dma_count,
                visible_register_writes: self.probe.visible_register_writes.wrapping_add(1),
                last_register: register,
                last_scanline: self.raster.scanline,
                last_dot: self.raster.dot as usize,
            };
        }
    }

    fn drive_io_data_bus(&mut self, value: u8, driven_bits: u8)
        ensures
            final(self)@ == model::io_driven(old(self)@, value, driven_bits),
    {
        self.io.drive(value, driven_bits, self.raster.total_dots);
    }

    /// Read a nominally write-only PPU register. Nothing drives the bus during
    /// this access, so the current (possibly decayed) latch value is returned
    /// without refreshing it.
    pub fn read_io_data_bus(&mut self) -> (r: u8)
        ensures
            r == old(self)@.io.decayed(old(self)@.raster.total_dots).value,
            final(self)@ == (PpuModel {
                io: old(self)@.io.decayed(old(self)@.raster.total_dots),
                ..old(self)@
            }),
    {
        self.io.decay(self.raster.total_dots);
        self.io.value
    }

    /// Advances a number of dots; tells whether a frame was completed.
    pub fn tick(&mut self, cycles: u8) -> (r: bool)
        requires
            model::wf::<M>(old(self)@),
        ensures
            final(self)@ == model::dots_clocked::<M>(old(self)@, cycles as nat),
            r == model::frame_completed::<M>(old(self)@, cycles as nat),
            model::wf::<M>(final(self)@),
    {
        let mut frame_complete = false;
        let mut done: u8 = 0;
        while done < cycles
            invariant
                done <= cycles,
                model::wf::<M>(self@),
                self@ == model::dots_clocked::<M>(old(self)@, done as nat),
                frame_complete == model::frame_completed::<M>(old(self)@, done as nat),
            decreases cycles - done,
        {
            let complete = self.clock_dot();
            frame_complete = frame_complete || complete;
            done += 1;
        }
        frame_complete
    }

    #[verifier::allow_in_spec]
    pub fn rendering_enabled(&self) -> bool
        returns
            self.gate.enabled,
    {
        self.gate.enabled
    }

    fn rendering_requested(&self) -> (r: bool)
        ensures
            r == model::rendering_requested(self.regs.mask),
    {
        self.regs.mask.show_background() || self.regs.mask.show_sprites()
    }

    fn rendering_in_progress(&self) -> (r: bool)
        ensures
            r == model::rendering_in_progress(self@),
    {
        self.raster.on_render_line() && self.gate.enabled
    }

    /// Advance one PPU dot. Rendering, fetches, scrolling and mapper-visible
    /// address-bus activity all originate from this timeline.
    fn clock_dot(&mut self) -> (r: bool)
        requires
            model::wf::<M>(old(self)@),
        ensures
            final(self)@ == model::dot_clocked::<M>(old(self)@),
            r == model::dot_begun(old(self)@).raster.completes_frame(),
            model::wf::<M>(final(self)@),
    {
        reveal(model::dot_clocked);
        self.begin_dot();
        if self.rendering_in_progress() {
            self.fetch_tiles();
            self.clock_sprites();
            self.scroll();
        }
        // The video output continues to produce backdrop pixels while the
        // fetch/evaluation pipeline is disabled, so mid-scanline PPUMASK
        // transitions land on the exact first affected pixel.
        if self.raster.scanline < 240 && 1 <= self.raster.dot && self.raster.dot <= 256 {
            self.render_pixel();
        }
        self.clock_blanking();
        self.end_dot()
    }

    fn begin_dot(&mut self)
        requires
            model::wf::<M>(old(self)@),
        ensures
            final(self)@ == model::dot_begun(old(self)@),
            model::wf::<M>(final(self)@),
    {
        self.gate.settle(self.raster.total_dots);
        let requested = self.rendering_requested();
        self.raster.arm_skip(requested);
    }

    fn fetch_tiles(&mut self)
        requires
            model::wf::<M>(old(self)@),
        ensures
            final(self)@ == model::tiles_fetched::<M>(old(self)@),
            model::wf::<M>(final(self)@),
    {
        let dot: u16 = self.raster.dot;
        if (1 <= dot && dot <= 256) || (321 <= dot && dot <= 336) {
            self.clock_background_pipeline();
        } else if dot == 337 || dot == 339 {
            // Two unused nametable fetches still drive the PPU bus.
            let _ = self.ppu_bus_read(0x2000 + self.regs.loopy.v % 0x1000);
        }
    }

    fn clock_sprites(&mut self)
        requires
            model::wf::<M>(old(self)@),
        ensures
            final(self)@ == model::sprites_clocked::<M>(old(self)@),
            model::wf::<M>(final(self)@),
    {
        let dot: u16 = self.raster.dot;
        if 1 <= dot && dot <= 64 {
            self.clock_secondary_oam_clear();
        } else if 65 <= dot && dot <= 256 {
            self.clock_sprite_evaluation();
        } else if 257 <= dot && dot <= 320 {
            // The sprite fetch sequencer continually forces OAMADDR to zero. A
            // CPU write during this interval only survives until the next dot.
            self.regs.oam_addr = 0;
            self.clock_sprite_fetch();
        } else {
            // Outside evaluation/fetch, the first byte of secondary OAM remains
            // selected on the internal OAM bus.
            self.regs.oam_data_bus = self.eval.secondary_oam[0];
        }
    }

    fn scroll(&mut self)
        requires
            model::wf::<M>(old(self)@),
        ensures
            final(self)@ == model::scrolled(old(self)@),
            model::wf::<M>(final(self)@),
    {
        let dot: u16 = self.raster.dot;
        if dot == 256 {
            self.regs.loopy.increment_y();
        } else if dot == 257 {
            self.regs.loopy.copy_horizontal();
        } else if self.raster.scanline == 261 && 280 <= dot && dot <= 304 {
            self.regs.loopy.copy_vertical();
        }
    }

    fn clock_blanking(&mut self)
        requires
            model::wf::<M>(old(self)@),
        ensures
            final(self)@ == model::blanking_clocked(old(self)@),
            model::wf::<M>(final(self)@),
    {
        if self.raster.scanline == 241 && self.raster.dot == 0 {
            // All 240 visible lines are complete. Notify the host separately
            // from NMI generation so presentation and input sampling occur at
            // the real vblank boundary even when NMI is disabled.
            self.nmi.frame_ready = true;
            if !self.nmi.suppress_vblank {
                self.regs.status.set_vblank_status(true);
                if self.regs.ctrl.generate_vblank_nmi() {
                    self.nmi.raise(self.raster.total_dots, 3);
                }
            }
            self.nmi.suppress_vblank = false;
        } else if self.raster.scanline == 261 && self.raster.dot == 0 {
            self.regs.status.reset_vblank_status();
            self.regs.status.set_sprite_zero_hit(false);
            self.regs.status.set_sprite_overflow(false);
        }
    }

    fn end_dot(&mut self) -> (r: bool)
        requires
            model::wf::<M>(old(self)@),
        ensures
            final(self)@ == model::dot_ended(old(self)@),
            r == old(self)@.raster.completes_frame(),
            model::wf::<M>(final(self)@),
    {
        if self.raster.at_line_end() && self.rendering_in_progress() {
            self.sprites.swap_in();
        }
        self.raster.advance()
    }

    fn clock_background_pipeline(&mut self)
        requires
            model::wf::<M>(old(self)@),
            old(self).raster.dot >= 1,
        ensures
            final(self)@ == model::background_clocked::<M>(old(self)@),
            model::wf::<M>(final(self)@),
    {
        self.bg.shift();
        let v: u16 = self.regs.loopy.v;
        let phase: u16 = (self.raster.dot - 1) % 8;
        match phase {
            0 => {
                self.bg.reload();
                let id: u8 = self.ppu_bus_read(0x2000 + v % 0x1000);
                self.bg.next_tile_id = id;
            },
            2 => {
                let addr: u16 = 0x23c0 + v / 0x400 % 4 * 0x400 + v / 0x80 % 8 * 8 + v / 4 % 8;
                let attr: u8 = self.ppu_bus_read(addr);
                let shift: u16 = v / 0x40 % 2 * 4 + v / 2 % 2 * 2;
                self.bg.next_tile_attr = (attr >> (shift as u8)) & 3;
            },
            4 => {
                let addr: u16 = self.bg_pattern_addr();
                let low: u8 = self.ppu_bus_read(addr);
                self.bg.next_tile_lo = low;
            },
            6 => {
                let addr: u16 = self.bg_pattern_addr() + 8;
                let high: u8 = self.ppu_bus_read(addr);
                self.bg.next_tile_hi = high;
            },
            7 => {
                self.regs.loopy.increment_x();
            },
            _ => {},
        }
    }

    fn bg_pattern_addr(&self) -> (r: u16)
        ensures
            r == model::bg_pattern_addr(self.regs, self.bg.next_tile_id),
            r < 0x3000,
    {
        self.regs.ctrl.bknd_pattern_addr() + self.bg.next_tile_id as u16 * 16 + self.regs.loopy.v
            / 0x1000 % 8
    }

    fn target_sprite_scanline(&self) -> (r: u16)
        requires
            self.raster.wf(),
        ensures
            r == model::target_line(self.raster),
            r <= 261,
    {
        if self.raster.scanline == 261 {
            0
        } else {
            self.raster.scanline + 1
        }
    }

    fn clock_secondary_oam_clear(&mut self)
        requires
            model::wf::<M>(old(self)@),
            1 <= old(self).raster.dot <= 64,
        ensures
            final(self)@ == model::secondary_cleared(old(self)@),
            model::wf::<M>(final(self)@),
    {
        self.eval.clear(self.raster.dot);
        // The clear circuit overrides OAM reads with $FF on all 64 dots.
        self.regs.oam_data_bus = 0xff;
    }

    fn clock_sprite_evaluation(&mut self)
        requires
            model::wf::<M>(old(self)@),
        ensures
            final(self)@ == model::evaluation_clocked(old(self)@),
            model::wf::<M>(final(self)@),
    {
        if self.raster.dot == 65 && self.regs.oam_addr >= 8 {
            // Refresh bug: beginning evaluation with a nonzero OAM row copies
            // that row over sprite 0 and 1.
            self.mem.refresh_row(self.regs.oam_addr);
        }
        if self.eval.n >= 64 {
            return ;
        }
        if self.raster.dot % 2 != 0 {
            let latch: u8 = self.eval.latch_byte(&self.mem.oam_data);
            self.regs.oam_data_bus = latch;
        } else {
            self.regs.oam_data_bus = self.eval.read_write_bus();
            let line: u16 = self.target_sprite_scanline();
            let tall = self.regs.ctrl.sprite_size_16();
            if self.eval.evaluate(tall, line) {
                self.regs.status.set_sprite_overflow(true);
            }
        }
    }

    fn clock_sprite_fetch(&mut self)
        requires
            model::wf::<M>(old(self)@),
            257 <= old(self).raster.dot <= 320,
        ensures
            final(self)@ == model::sprite_fetch_clocked::<M>(old(self)@),
            model::wf::<M>(final(self)@),
    {
        let offset: u16 = self.raster.dot - 257;
        let slot: usize = (offset / 8) as usize;
        let phase: u16 = offset % 8;
        self.regs.oam_data_bus = self.eval.read_fetch_bus(&self.mem.oam_data, slot, phase);
        if phase == 0 {
            if slot < self.eval.count {
                self.sprites.load(slot, self.eval.make_unit(slot));
            }
            let _ = self.ppu_bus_read(0x2000 + self.regs.loopy.v % 0x1000);
        } else if phase == 2 {
            let _ = self.ppu_bus_read(0x2000 + self.regs.loopy.v % 0x1000);
        } else if phase == 4 || phase == 6 {
            self.fetch_sprite_pattern(slot, phase == 6);
        }
    }

    fn fetch_sprite_pattern(&mut self, slot: usize, high: bool)
        requires
            model::wf::<M>(old(self)@),
            slot < 8,
        ensures
            ({
                let p = old(self)@;
                let low = p.eval.pattern_addr(
                    slot as int,
                    p.regs.ctrl.sprite_size_16(),
                    p.regs.ctrl.sprt_pattern_addr(),
                    model::target_line(p.raster),
                );
                let addr = if high {
                    low.wrapping_add(8)
                } else {
                    low
                };
                let fetched = model::read_value::<M>(p, addr);
                let value = if p.eval.flipped(slot as int) {
                    crate::ppu::sprites::bits_reversed(fetched)
                } else {
                    fetched
                };
                final(self)@ == model::pattern_loaded(
                    model::after_read::<M>(p, addr),
                    slot as int,
                    high,
                    value,
                )
            }),
            model::wf::<M>(final(self)@),
    {
        let line: u16 = self.target_sprite_scanline();
        let low: u16 = self.eval.sprite_pattern_addr(
            slot,
            self.regs.ctrl.sprite_size_16(),
            self.regs.ctrl.sprt_pattern_addr(),
            line,
        );
        let addr: u16 = if high {
            low.wrapping_add(8)
        } else {
            low
        };
        let mut value: u8 = self.ppu_bus_read(addr);
        if self.eval.is_flipped(slot) {
            value = reverse_bits(value);
        }
        let mut unit = self.sprites.next[slot];
        if high {
            unit.pattern_hi = value;
        } else {
            unit.pattern_lo = value;
        }
        self.sprites.load(slot, unit);
    }

    fn render_pixel(&mut self)
        requires
            model::wf::<M>(old(self)@),
            1 <= old(self).raster.dot <= 256,
        ensures
            final(self)@ == model::pixel_rendered(old(self)@),
            model::wf::<M>(final(self)@),
    {
        let x: usize = (self.raster.dot - 1) as usize;
        let selector: u16 = 0x8000u16 >> self.regs.loopy.x;
        let show_bg = self.gate.enabled && self.regs.mask.show_background() && (x >= 8
            || self.regs.mask.leftmost_8pxl_background());
        let bg_pixel: u8 = if show_bg {
            self.bg.read_pixel(selector)
        } else {
            0
        };
        let bg_entry: usize = self.bg.read_palette(selector) as usize * 4 + bg_pixel as usize;
        let show_sprites = self.gate.enabled && self.regs.mask.show_sprites() && (x >= 8
            || self.regs.mask.leftmost_8pxl_sprite());
        let sprite = if show_sprites {
            self.sprites.find_opaque()
        } else {
            None
        };
        let mut hit = false;
        let entry: usize = match sprite {
            Some(unit) => {
                hit = unit.oam_index == 0 && bg_pixel != 0 && x != 255;
                if bg_pixel == 0 || unit.attributes & 0x20 == 0 {
                    0x10 + (unit.attributes % 4) as usize * 4 + unit.pixel() as usize
                } else {
                    bg_entry
                }
            },
            None => if bg_pixel == 0 {
                self.backdrop_palette_index()
            } else {
                bg_entry
            },
        };
        let color = output_color(self.regs.mask, self.mem.palette_table[entry]);
        self.frame.set_pixel(x, self.raster.scanline as usize, color);
        if hit {
            self.regs.status.set_sprite_zero_hit(true);
        }
        if self.gate.enabled {
            self.sprites.shift_all();
        }
    }

    fn backdrop_palette_index(&self) -> (r: usize)
        ensures
            r == model::backdrop(self@),
            r < 32,
    {
        if !self.gate.enabled && self.regs.loopy.v % 0x4000 >= 0x3f00 {
            palette_index(self.regs.loopy.v)
        } else {
            0
        }
    }

    fn ppu_bus_read(&mut self, addr: u16) -> (r: u8)
        requires
            model::wf::<M>(old(self)@),
        ensures
            r == model::read_value::<M>(old(self)@, addr),
            final(self)@ == model::after_read::<M>(old(self)@, addr),
            model::wf::<M>(final(self)@),
    {
        let a: u16 = addr % 0x4000;
        proof {
            M::complete_answers(self.mapper.model(), a);
        }
        self.mapper.on_ppu_bus_access(a, self.raster.total_dots);
        proof {
            M::complete_answers(self.mapper.model(), a);
        }
        if a < 0x2000 {
            self.mapper.ppu_read(a)
        } else if a < 0x3f00 {
            let index: u16 = mirror_vram(self.mapper.mirroring(), a);
            self.mem.vram[index as usize]
        } else {
            self.mem.palette_table[palette_index(a)]
        }
    }

    fn ppu_bus_write(&mut self, addr: u16, value: u8)
        requires
            model::wf::<M>(old(self)@),
        ensures
            final(self)@ == model::after_write::<M>(old(self)@, addr, value),
            model::wf::<M>(final(self)@),
    {
        let a: u16 = addr % 0x4000;
        proof {
            M::complete_answers(self.mapper.model(), a);
        }
        self.mapper.on_ppu_bus_access(a, self.raster.total_dots);
        proof {
            M::complete_answers(self.mapper.model(), a);
        }
        if a < 0x2000 {
            self.mapper.ppu_write(a, value);
        } else if a < 0x3f00 {
            let index: u16 = mirror_vram(self.mapper.mirroring(), a);
            self.mem.vram[index as usize] = value;
        } else {
            let index: usize = palette_index(a);
            self.mem.palette_table[index] = value;
        }
    }

    /// The vblank edge is synchronized into the CPU clock domain: it is kept
    /// pending at once but exposed only after the synchronization delay.
    pub fn poll_nmi_interrupt(&mut self) -> (r: Option<u8>)
        ensures
            r == old(self)@.nmi.visible(old(self)@.raster.total_dots),
            final(self)@ == (PpuModel {
                nmi: old(self)@.nmi.polled(old(self)@.raster.total_dots),
                ..old(self)@
            }),
    {
        self.nmi.poll(self.raster.total_dots)
    }

    pub fn write_to_ppu_addr(&mut self, value: u8)
        requires
            model::wf::<M>(old(self)@),
        ensures
            final(self)@ == model::addr_written::<M>(old(self)@, value),
            model::wf::<M>(final(self)@),
    {
        self.begin_write(0x2006, value);
        if self.regs.loopy.write_addr(value) {
            self.notify_ppu_address_bus();
        }
    }

    fn begin_write(&mut self, register: u16, value: u8)
        requires
            model::wf::<M>(old(self)@),
        ensures
            final(self)@ == model::write_begun(old(self)@, register, value),
            model::wf::<M>(final(self)@),
    {
        self.drive_io_data_bus(value, 0xff);
        self.note_register_write(register);
    }

    pub fn write_to_ctrl(&mut self, value: u8)
        requires
            model::wf::<M>(old(self)@),
        ensures
            final(self)@ == model::ctrl_written(old(self)@, value),
            model::wf::<M>(final(self)@),
    {
        self.begin_write(0x2000, value);
        let generated_nmi = self.regs.ctrl.generate_vblank_nmi();
        self.regs.ctrl.update(value);
        self.regs.loopy.write_ctrl(value);
        // Enabling NMI during an active vblank produces an NMI edge. At dot 0
        // of the pre-render line the clearing is already visible to the CPU.
        if !self.regs.ctrl.generate_vblank_nmi() {
            self.nmi.withdraw(self.raster.total_dots);
        } else if !generated_nmi && self.regs.status.is_in_vblank() && !(self.raster.scanline
            == 261 && self.raster.dot == 0) {
            // Recognized after the following CPU instruction.
            self.nmi.raise(self.raster.total_dots, 6);
        }
    }

    pub fn write_to_mask(&mut self, value: u8)
        requires
            model::wf::<M>(old(self)@),
        ensures
            final(self)@ == model::mask_written(old(self)@, value),
            model::wf::<M>(final(self)@),
    {
        self.begin_write(0x2001, value);
        self.regs.mask.update(value);
        let requested = self.rendering_requested();
        self.gate.request(requested, self.raster.total_dots);
    }

    /// Reading PPUSTATUS clears vblank and resets the single shared
    /// $2005/$2006 write latch.
    pub fn read_status(&mut self) -> (r: u8)
        requires
            model::wf::<M>(old(self)@),
        ensures
            r == model::status_value(old(self)@),
            final(self)@ == model::status_read(old(self)@),
            model::wf::<M>(final(self)@),
    {
        let status: u8 = self.regs.status.snapshot();
        self.drive_io_data_bus(status, 0xe0);
        let data: u8 = self.io.value;
        // A read immediately before vblank suppresses that frame's vblank flag
        // and NMI. A read on dot 1 clears the just-set flag/NMI below.
        if self.raster.scanline == 241 && self.raster.dot == 0 {
            self.nmi.suppress_vblank = true;
        }
        self.regs.status.reset_vblank_status();
        self.nmi.withdraw(self.raster.total_dots);
        self.regs.loopy.reset_latch();
        data
    }

    /// PPUSTATUS is read-only, but a CPU write still drives the PPU I/O bus.
    pub fn write_to_status(&mut self, value: u8)
        requires
            model::wf::<M>(old(self)@),
        ensures
            final(self)@ == model::io_driven(old(self)@, value, 0xff),
            model::wf::<M>(final(self)@),
    {
        self.drive_io_data_bus(value, 0xff);
    }

    pub fn write_to_oam_addr(&mut self, value: u8)
        requires
            model::wf::<M>(old(self)@),
        ensures
            final(self)@ == model::oam_addr_written(old(self)@, value),
            model::wf::<M>(final(self)@),
    {
        self.begin_write(0x2003, value);
        self.regs.oam_addr = value;
    }

    pub fn write_to_oam_data(&mut self, value: u8)
        requires
            model::wf::<M>(old(self)@),
        ensures
            final(self)@ == model::oam_data_written(old(self)@, value),
            model::wf::<M>(final(self)@),
    {
        self.begin_write(0x2004, value);
        if self.rendering_in_progress() {
            // Rendering owns OAM. The write is discarded, while the sprite
            // evaluation address receives the characteristic +4 increment.
            self.regs.oam_addr = self.regs.oam_addr.wrapping_add(4);
            return ;
        }
        self.store_oam(value);
    }

    fn store_oam(&mut self, value: u8)
        requires
            model::wf::<M>(old(self)@),
        ensures
            final(self)@ == model::oam_stored(old(self)@, value),
            model::wf::<M>(final(self)@),
    {
        self.mem.oam_data[self.regs.oam_addr as usize] = value;
        self.regs.oam_addr = self.regs.oam_addr.wrapping_add(1);
    }

    pub fn read_oam_data(&mut self) -> (r: u8)
        requires
            model::wf::<M>(old(self)@),
        ensures
            r == model::oam_data_value(old(self)@),
            final(self)@ == model::io_driven(
                old(self)@,
                model::oam_data_value(old(self)@),
                0xff,
            ),
            model::wf::<M>(final(self)@),
    {
        let value: u8 = if self.rendering_in_progress() {
            self.regs.oam_data_bus
        } else if self.regs.oam_addr % 4 == 2 {
            // Attribute bytes physically implement only bits 7-5 and 1-0.
            self.mem.oam_data[self.regs.oam_addr as usize] & 0xe3
        } else {
            self.mem.oam_data[self.regs.oam_addr as usize]
        };
        self.drive_io_data_bus(value, 0xff);
        value
    }

    pub fn write_to_scroll(&mut self, value: u8)
        requires
            model::wf::<M>(old(self)@),
        ensures
            final(self)@ == model::scroll_written(old(self)@, value),
            model::wf::<M>(final(self)@),
    {
        self.begin_write(0x2005, value);
        self.regs.loopy.write_scroll(value);
    }

    /// Record the start of an OAM DMA transfer for probe diagnostics. The bus
    /// then streams the 256 bytes one at a time through `oam_dma_write`.
    pub fn note_oam_dma_start(&mut self)
        ensures
            final(self)@ == model::dma_noted(old(self)@),
    {
        self.probe.oam_dma_count = self.probe.oam_dma_count.wrapping_add(1);
    }

    /// One byte of an OAM DMA transfer: a $2004 write driven by the DMA unit
    /// rather than the CPU, so it lands at the current OAMADDR and
    /// post-increments it, wrapping through the 256-byte page.
    pub fn oam_dma_write(&mut self, value: u8)
        requires
            model::wf::<M>(old(self)@),
        ensures
            final(self)@ == model::dma_byte_written(old(self)@, value),
            model::wf::<M>(final(self)@),
    {
        if self.rendering_in_progress() {
            // The 256 discarded +4 address bumps of a full DMA would wrap back
            // to the starting OAMADDR, so it stays put.
            self.drive_io_data_bus(value, 0xff);
            return ;
        }
        self.store_oam(value);
    }

    /// Streams a whole page that the caller already holds into OAM.
    pub fn write_oam_dma(&mut self, data: &[u8; 256])
        requires
            model::wf::<M>(old(self)@),
        ensures
            final(self)@ == page_streamed(model::dma_noted(old(self)@), data@, 256),
            model::wf::<M>(final(self)@),
    {
        self.note_oam_dma_start();
        let mut i: usize = 0;
        while i < 256
            invariant
                i <= 256,
                model::wf::<M>(self@),
                self@ == page_streamed(model::dma_noted(old(self)@), data@, i as nat),
            decreases 256 - i,
        {
            self.oam_dma_write(data[i]);
            i += 1;
        }
    }

    fn increment_vram_addr(&mut self)
        requires
            model::wf::<M>(old(self)@),
        ensures
            final(self)@ == model::vram_addr_incremented(old(self)@),
            model::wf::<M>(final(self)@),
    {
        if self.rendering_in_progress() {
            // During visible and pre-render scanlines the scrolling carry chain
            // is active, so a $2007 access clocks both axes regardless of
            // PPUCTRL's linear increment selection.
            self.regs.loopy.increment_x();
            self.regs.loopy.increment_y();
        } else {
            self.regs.loopy.increment(self.regs.ctrl.vram_addr_increment());
        }
    }

    pub fn write_to_data(&mut self, value: u8)
        requires
            model::wf::<M>(old(self)@),
        ensures
            final(self)@ == model::data_written::<M>(old(self)@, value),
            model::wf::<M>(final(self)@),
    {
        self.begin_write(0x2007, value);
        let addr: u16 = self.regs.loopy.v;
        self.ppu_bus_write(addr, value);
        self.increment_vram_addr();
        self.notify_ppu_address_bus();
    }

    pub fn read_data(&mut self) -> (r: u8)
        requires
            model::wf::<M>(old(self)@),
        ensures
            r == model::data_read::<M>(old(self)@).1,
            final(self)@ == model::data_read::<M>(old(self)@).0,
            model::wf::<M>(final(self)@),
    {
        if self.regs.loopy.v % 0x4000 < 0x3f00 {
            self.read_buffered()
        } else {
            self.read_palette()
        }
    }

    fn read_buffered(&mut self) -> (r: u8)
        requires
            model::wf::<M>(old(self)@),
        ensures
            r == model::buffered_read::<M>(old(self)@).1,
            final(self)@ == model::buffered_read::<M>(old(self)@).0,
            model::wf::<M>(final(self)@),
    {
        let addr: u16 = self.regs.loopy.v % 0x4000;
        self.increment_vram_addr();
        let result: u8 = self.regs.internal_data_buf;
        let fetched: u8 = self.ppu_bus_read(addr);
        self.regs.internal_data_buf = fetched;
        self.drive_io_data_bus(result, 0xff);
        self.notify_ppu_address_bus();
        result
    }

    fn read_palette(&mut self) -> (r: u8)
        requires
            model::wf::<M>(old(self)@),
            old(self).regs.loopy.v % 0x4000 >= 0x3f00,
        ensures
            r == model::palette_read::<M>(old(self)@).1,
            final(self)@ == model::palette_read::<M>(old(self)@).0,
            model::wf::<M>(final(self)@),
    {
        let addr: u16 = self.regs.loopy.v % 0x4000;
        self.increment_vram_addr();
        let byte: u8 = self.ppu_bus_read(addr);
        let palette: u8 = if self.regs.mask.is_grayscale() {
            byte & 0x30
        } else {
            byte & 0x3f
        };
        // Palette RAM drives only six data lines. The high two retain their
        // existing values and decay ages.
        self.drive_io_data_bus(palette, 0x3f);
        let result: u8 = self.io.value;
        // Palette reads are immediate but still refill the delayed buffer from
        // the mirrored nametable address beneath palette space.
        let fetched: u8 = self.ppu_bus_read(addr - 0x1000);
        self.regs.internal_data_buf = fetched;
        self.notify_ppu_address_bus();
        result
    }

    fn notify_ppu_address_bus(&mut self)
        requires
            model::wf::<M>(old(self)@),
        ensures
            final(self)@ == model::address_shown::<M>(old(self)@),
            model::wf::<M>(final(self)@),
    {
        proof {
            M::complete_answers(self.mapper.model(), 0);
        }
        self.mapper.on_ppu_bus_access(self.regs.loopy.v % 0x4000, self.raster.total_dots);
    }

    /// The CPU's side of the cartridge: a read.
    pub fn cpu_read(&mut self, addr: u16) -> (r: u8)
        requires
            model::wf::<M>(old(self)@),
        ensures
            r == M::cpu_value(old(self)@.mapper, addr),
            final(self)@ == old(self)@,
    {
        proof {
            M::complete_answers(self.mapper.model(), addr);
        }
        self.mapper.cpu_read(addr)
    }

    /// The CPU's side of the cartridge: a write.
    pub fn cpu_write(&mut self, addr: u16, data: u8)
        requires
            model::wf::<M>(old(self)@),
        ensures
            final(self)@ == (PpuModel {
                mapper: M::after_cpu_write(old(self)@.mapper, addr, data),
                ..old(self)@
            }),
            model::wf::<M>(final(self)@),
    {
        proof {
            M::complete_answers(self.mapper.model(), addr);
        }
        self.mapper.cpu_write(addr, data);
    }

    /// The cartridge's interrupt line.
    pub fn mapper_irq(&self) -> (r: bool)
        ensures
            r == M::irq_of(self@.mapper),
    {
        self.mapper.irq_pending()
    }

    /// Nametable mirroring lives on the mapper, which may change it at run
    /// time.
    pub fn mirroring(&self) -> (r: Mirroring)
        ensures
            r == M::mirroring_of(self@.mapper),
    {
        self.mapper.mirroring()
    }

    /// Where a nametable address lands in VRAM.
    pub fn mirror_vram_addr(&self, addr: u16) -> (r: u16)
        requires
            addr / 0x2000 % 2 == 1,
        ensures
            r == mirrored(M::mirroring_of(self@.mapper), addr),
    {
        mirror_vram(self.mapper.mirroring(), addr)
    }

    /// The current scroll: the renderer's address and the fine column.
    pub fn render_scroll(&self) -> (r: (u16, u8))
        ensures
            r == (self.regs.loopy.v, self.regs.loopy.x),
    {
        (self.regs.loopy.v, self.regs.loopy.x)
    }

    /// Dots since power-on.
    #[verifier::allow_in_spec]
    pub fn total_dots(&self) -> u64
        returns
            self.raster.total_dots,
    {
        self.raster.total_dots
    }

    /// Reloads the renderer's whole address from the written scroll.
    pub fn sync_scroll_for_test(&mut self)
        ensures
            final(self)@ == (PpuModel {
                regs: PpuRegisters {
                    loopy: old(self)@.regs.loopy.horizontal_copied().vertical_copied(),
                    ..old(self)@.regs
                },
                ..old(self)@
            }),
    {
        self.regs.loopy.copy_all_for_test();
    }
}

/// The state after the first `n` bytes of a page have been streamed into OAM.
pub open spec fn page_streamed<V>(p: PpuModel<V>, data: Seq<u8>, n: nat) -> PpuModel<V>
    decreases n,
{
    if n == 0 {
        p
    } else {
        model::dma_byte_written(page_streamed(p, data, (n - 1) as nat), data[n - 1])
    }
}

} // verus!
