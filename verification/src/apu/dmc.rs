//! Delta modulation channel: plays 1-bit delta-encoded samples fetched from
//! CPU memory ($8000-$FFFF), moving a 7-bit output level up or down by 2 per
//! bit. The memory reader does not touch the bus itself: when the sample
//! buffer is empty and bytes remain, `dma_request` names the address to fetch;
//! the bus performs the read (stalling the CPU like the real DMA unit does)
//! and hands the byte back via `dma_load`.

use vstd::prelude::*;

verus! {

/// NTSC rates: CPU cycles between output unit clocks, indexed by the low
/// nibble of $4010.
pub open spec fn dmc_periods() -> Seq<u16> {
    seq![428, 380, 340, 320, 286, 254, 226, 214, 190, 160, 142, 128, 106, 84, 72, 54]
}

fn dmc_period(index: u8) -> (r: u16)
    ensures
        r == dmc_periods()[index as int % 16],
        r > 0,
{
    let table: [u16; 16] = [
        428, 380, 340, 320, 286, 254, 226, 214, 190, 160, 142, 128, 106, 84, 72, 54,
    ];
    assert(table@ =~= dmc_periods());
    table[(index % 16) as usize]
}

/// Why a byte is wanted: the first of a sample, or the next one because the
/// output unit has emptied the buffer.
#[derive(Clone, Copy, Debug, PartialEq, Eq, Structural)]
pub enum DmcDmaRequestKind {
    Load,
    Reload,
}

/// The memory reader.
#[derive(Clone, Copy, Debug, PartialEq, Eq, Structural)]
pub struct SampleReader {
    pub sample_address: u16,  // $C000 + $4012 * 64
    pub sample_length: u16,  // $4013 * 16 + 1
    pub current_address: u16,
    pub bytes_remaining: u16,
    pub sample_buffer: Option<u8>,
    // No byte has been fetched since the sample was started.
    pub initial_fetch: bool,
}

/// The output unit and its 7-bit level.
#[derive(Clone, Copy, Debug, PartialEq, Eq, Structural)]
pub struct OutputUnit {
    pub level: u8,
    pub shift: u8,
    pub bits_remaining: u8,
    pub silence: bool,
}

impl OutputUnit {
    /// The level after the delta of the current bit: two up or down, where
    /// that stays within 0..=127.
    pub open spec fn stepped_level(self) -> u8 {
        if self.silence {
            self.level
        } else if self.shift & 1 == 1 {
            if self.level <= 125 {
                (self.level + 2) as u8
            } else {
                self.level
            }
        } else if self.level >= 2 {
            (self.level - 2) as u8
        } else {
            self.level
        }
    }

    /// One output step: the delta, then every eighth bit a refill from the
    /// sample buffer, or silence where that is empty.
    pub open spec fn clocked(self, buffer: Option<u8>) -> OutputUnit {
        if self.bits_remaining > 1 {
            OutputUnit {
                level: self.stepped_level(),
                shift: self.shift >> 1,
                bits_remaining: (self.bits_remaining - 1) as u8,
                ..self
            }
        } else {
            OutputUnit {
                level: self.stepped_level(),
                shift: match buffer {
                    Some(byte) => byte,
                    None => self.shift >> 1,
                },
                bits_remaining: 8,
                silence: buffer is None,
            }
        }
    }
}

#[derive(Clone, Copy, Debug, PartialEq, Eq, Structural)]
pub struct Dmc {
    pub irq_enabled: bool,
    pub loop_flag: bool,
    pub timer_period: u16,
    pub timer: u16,
    pub reader: SampleReader,
    pub unit: OutputUnit,
    pub irq_flag: bool,
}

impl Dmc {
    pub open spec fn wf(self) -> bool {
        &&& self.timer_period > 0
        &&& self.unit.level <= 127
        &&& 1 <= self.unit.bits_remaining <= 8
        &&& self.reader.current_address >= 0x8000
        &&& self.reader.sample_address >= 0xc000
        &&& self.reader.sample_length > 0
    }

    pub open spec fn initial() -> Dmc {
        Dmc {
            irq_enabled: false,
            loop_flag: false,
            timer_period: 428,
            timer: 0,
            reader: SampleReader {
                sample_address: 0xc000,
                sample_length: 1,
                current_address: 0xc000,
                bytes_remaining: 0,
                sample_buffer: None,
                initial_fetch: false,
            },
            unit: OutputUnit { level: 0, shift: 0, bits_remaining: 8, silence: true },
            irq_flag: false,
        }
    }

    pub open spec fn control_written(self, data: u8) -> Dmc {
        Dmc {
            irq_enabled: data & 0x80 != 0,
            irq_flag: self.irq_flag && data & 0x80 != 0,
            loop_flag: data & 0x40 != 0,
            timer_period: dmc_periods()[data as int % 16],
            ..self
        }
    }

    pub open spec fn direct_loaded(self, data: u8) -> Dmc {
        Dmc { unit: OutputUnit { level: data % 128, ..self.unit }, ..self }
    }

    pub open spec fn sample_address_written(self, data: u8) -> Dmc {
        Dmc {
            reader: SampleReader { sample_address: (0xc000 + data * 64) as u16, ..self.reader },
            ..self
        }
    }

    pub open spec fn sample_length_written(self, data: u8) -> Dmc {
        Dmc {
            reader: SampleReader { sample_length: (data * 16 + 1) as u16, ..self.reader },
            ..self
        }
    }

    /// The reader back at the start of its sample.
    pub open spec fn restarted(self) -> Dmc {
        Dmc {
            reader: SampleReader {
                current_address: self.reader.sample_address,
                bytes_remaining: self.reader.sample_length,
                ..self.reader
            },
            ..self
        }
    }

    /// $4015 bit 4. Setting it restarts the sample only if it has finished;
    /// clearing it stops the fetches but lets the buffered bits play out. Any
    /// write to $4015 clears the DMC interrupt flag.
    pub open spec fn with_enabled(self, enabled: bool) -> Dmc {
        let quiet = Dmc { irq_flag: false, ..self };
        if !enabled {
            Dmc { reader: SampleReader { bytes_remaining: 0, ..self.reader }, ..quiet }
        } else if self.reader.bytes_remaining == 0 {
            let first = quiet.restarted();
            Dmc { reader: SampleReader { initial_fetch: true, ..first.reader }, ..first }
        } else {
            quiet
        }
    }

    /// The address the memory reader wants a byte from.
    pub open spec fn request(self) -> Option<u16> {
        if self.reader.sample_buffer is None && self.reader.bytes_remaining > 0 {
            Some(self.reader.current_address)
        } else {
            None
        }
    }

    pub open spec fn request_kind(self) -> Option<DmcDmaRequestKind> {
        if self.request() is None {
            None
        } else if self.reader.initial_fetch {
            Some(DmcDmaRequestKind::Load)
        } else {
            Some(DmcDmaRequestKind::Reload)
        }
    }

    /// A fetched byte handed over: the buffer fills, the reader advances from
    /// $FFFF to $8000, and the last byte loops the sample or raises the
    /// interrupt.
    pub open spec fn loaded(self, value: u8) -> Dmc {
        let next = Dmc {
            reader: SampleReader {
                sample_buffer: Some(value),
                current_address: if self.reader.current_address == 0xffff {
                    0x8000
                } else {
                    (self.reader.current_address + 1) as u16
                },
                bytes_remaining: (self.reader.bytes_remaining - 1) as u16,
                initial_fetch: false,
                ..self.reader
            },
            ..self
        };
        if next.reader.bytes_remaining != 0 {
            next
        } else if self.loop_flag {
            next.restarted()
        } else {
            Dmc { irq_flag: self.irq_flag || self.irq_enabled, ..next }
        }
    }

    pub open spec fn unit_clocked(self) -> Dmc {
        Dmc {
            unit: self.unit.clocked(self.reader.sample_buffer),
            reader: SampleReader {
                sample_buffer: if self.unit.bits_remaining > 1 {
                    self.reader.sample_buffer
                } else {
                    None
                },
                ..self.reader
            },
            ..self
        }
    }

    pub open spec fn timer_ticked(self) -> Dmc {
        if self.timer == 0 {
            Dmc { timer: (self.timer_period - 1) as u16, ..self.unit_clocked() }
        } else {
            Dmc { timer: (self.timer - 1) as u16, ..self }
        }
    }

    pub fn new() -> (r: Self)
        ensures
            r == Dmc::initial(),
            r.wf(),
    {
        Dmc {
            irq_enabled: false,
            loop_flag: false,
            timer_period: 428,
            timer: 0,
            reader: SampleReader {
                sample_address: 0xc000,
                sample_length: 1,
                current_address: 0xc000,
                bytes_remaining: 0,
                sample_buffer: None,
                initial_fetch: false,
            },
            unit: OutputUnit { level: 0, shift: 0, bits_remaining: 8, silence: true },
            irq_flag: false,
        }
    }

    /// $4010: IL-- RRRR. Clearing the IRQ enable bit also clears the
    /// interrupt flag.
    pub fn write_control(&mut self, data: u8)
        ensures
            *final(self) == old(self).control_written(data),
            old(self).wf() ==> final(self).wf(),
    {
        self.irq_enabled = data & 0x80 != 0;
        if !self.irq_enabled {
            self.irq_flag = false;
        }
        self.loop_flag = data & 0x40 != 0;
        self.timer_period = dmc_period(data);
    }

    /// $4011: -DDD DDDD direct load of the output level.
    pub fn write_direct_load(&mut self, data: u8)
        ensures
            *final(self) == old(self).direct_loaded(data),
            old(self).wf() ==> final(self).wf(),
    {
        self.unit.level = data % 128;
    }

    /// $4012: sample start address = $C000 + A*64
    pub fn write_sample_address(&mut self, data: u8)
        ensures
            *final(self) == old(self).sample_address_written(data),
            old(self).wf() ==> final(self).wf(),
    {
        self.reader.sample_address = 0xc000 + data as u16 * 64;
    }

    /// $4013: sample length = L*16 + 1 bytes
    pub fn write_sample_length(&mut self, data: u8)
        ensures
            *final(self) == old(self).sample_length_written(data),
            old(self).wf() ==> final(self).wf(),
    {
        self.reader.sample_length = data as u16 * 16 + 1;
    }

    /// $4015 bit 4.
    pub fn set_enabled(&mut self, enabled: bool)
        ensures
            *final(self) == old(self).with_enabled(enabled),
            old(self).wf() ==> final(self).wf(),
    {
        self.irq_flag = false;
        if !enabled {
            self.reader.bytes_remaining = 0;
        } else if self.reader.bytes_remaining == 0 {
            self.restart_sample();
            self.reader.initial_fetch = true;
        }
    }

    fn restart_sample(&mut self)
        ensures
            *final(self) == old(self).restarted(),
    {
        self.reader.current_address = self.reader.sample_address;
        self.reader.bytes_remaining = self.reader.sample_length;
    }

    /// The address the memory reader wants a byte from, if any.
    pub fn dma_request(&self) -> (r: Option<u16>)
        ensures
            r == self.request(),
    {
        if self.reader.sample_buffer.is_none() && self.reader.bytes_remaining > 0 {
            Some(self.reader.current_address)
        } else {
            None
        }
    }

    pub fn dma_request_kind(&self) -> (r: Option<DmcDmaRequestKind>)
        ensures
            r == self.request_kind(),
    {
        if self.dma_request().is_none() {
            None
        } else if self.reader.initial_fetch {
            Some(DmcDmaRequestKind::Load)
        } else {
            Some(DmcDmaRequestKind::Reload)
        }
    }

    /// Completion of the DMA fetch: fill the buffer, advance the reader, and
    /// handle end-of-sample looping / IRQ.
    pub fn dma_load(&mut self, value: u8)
        requires
            old(self).reader.bytes_remaining > 0,
        ensures
            *final(self) == old(self).loaded(value),
            old(self).wf() ==> final(self).wf(),
    {
        self.reader.sample_buffer = Some(value);
        // The address wraps from $FFFF back to $8000.
        self.reader.current_address = if self.reader.current_address == 0xffff {
            0x8000
        } else {
            self.reader.current_address + 1
        };
        self.reader.initial_fetch = false;
        self.reader.bytes_remaining = self.reader.bytes_remaining - 1;
        if self.reader.bytes_remaining == 0 {
            if self.loop_flag {
                self.restart_sample();
            } else if self.irq_enabled {
                self.irq_flag = true;
            }
        }
    }

    /// Clocked every CPU cycle; the rate table is in CPU cycles.
    pub fn tick_timer(&mut self)
        requires
            old(self).wf(),
        ensures
            *final(self) == old(self).timer_ticked(),
            final(self).wf(),
    {
        if self.timer == 0 {
            self.timer = self.timer_period - 1;
            self.clock_output_unit();
        } else {
            self.timer = self.timer - 1;
        }
    }

    /// One output cycle step: apply the delta for the current bit, then
    /// refill the shift register from the sample buffer every 8 bits.
    pub fn clock_output_unit(&mut self)
        requires
            old(self).wf(),
        ensures
            *final(self) == old(self).unit_clocked(),
            final(self).wf(),
    {
        if !self.unit.silence {
            if self.unit.shift & 1 == 1 {
                if self.unit.level <= 125 {
                    self.unit.level = self.unit.level + 2;
                }
            } else if self.unit.level >= 2 {
                self.unit.level = self.unit.level - 2;
            }
        }
        self.unit.shift = self.unit.shift >> 1;
        self.unit.bits_remaining = self.unit.bits_remaining - 1;
        if self.unit.bits_remaining == 0 {
            self.unit.bits_remaining = 8;
            match self.reader.sample_buffer {
                Some(byte) => {
                    self.unit.shift = byte;
                    self.unit.silence = false;
                },
                None => {
                    self.unit.silence = true;
                },
            }
            self.reader.sample_buffer = None;
        }
    }

    pub fn output(&self) -> (r: u8)
        ensures
            r == self.unit.level,
            self.wf() ==> r <= 127,
    {
        self.unit.level
    }
}

/// A request stands until it is served: no tick withdraws it or moves its
/// address.
pub proof fn a_request_stands_until_served(d: Dmc)
    requires
        d.request() is Some,
    ensures
        d.timer_ticked().request() == d.request(),
        d.timer_ticked().reader.bytes_remaining == d.reader.bytes_remaining,
{
}

/// Serving a request leaves none until the output unit empties the buffer.
pub proof fn a_served_request_is_gone(d: Dmc, value: u8)
    requires
        d.request() is Some,
    ensures
        d.loaded(value).request() is None,
{
}

} // verus!
