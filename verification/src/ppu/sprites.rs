//! Sprite evaluation for the following scanline, and the eight sprite
//! shifters of the current one.

use vstd::prelude::*;

verus! {

/// One sprite shifter.
#[derive(Clone, Copy, Debug, PartialEq, Eq, Structural)]
pub struct SpriteUnit {
    pub pattern_lo: u8,
    pub pattern_hi: u8,
    pub attributes: u8,
    pub x_counter: u8,
    pub oam_index: u8,
    pub valid: bool,
}

pub open spec fn empty_unit() -> SpriteUnit {
    SpriteUnit {
        pattern_lo: 0,
        pattern_hi: 0,
        attributes: 0,
        x_counter: 0,
        oam_index: 0,
        valid: false,
    }
}

impl Default for SpriteUnit {
    fn default() -> (r: Self)
        ensures
            r == empty_unit(),
    {
        SpriteUnit {
            pattern_lo: 0,
            pattern_hi: 0,
            attributes: 0,
            x_counter: 0,
            oam_index: 0,
            valid: false,
        }
    }
}

impl SpriteUnit {
    /// The two-bit pixel at the shifter's top.
    #[verifier::allow_in_spec]
    pub fn pixel(&self) -> u8
        returns
            (self.pattern_hi / 128 * 2 + self.pattern_lo / 128) as u8,
    {
        self.pattern_hi / 128 * 2 + self.pattern_lo / 128
    }

    /// Whether the sprite shows an opaque pixel at this dot.
    #[verifier::allow_in_spec]
    pub fn is_opaque(&self) -> bool
        returns
            self.valid && self.x_counter == 0 && self.pixel() != 0,
    {
        self.valid && self.x_counter == 0 && self.pixel() != 0
    }

    /// The shifter one dot on: first its column counts down, then its pattern
    /// moves.
    pub open spec fn shifted(self) -> SpriteUnit {
        if !self.valid {
            self
        } else if self.x_counter > 0 {
            SpriteUnit { x_counter: (self.x_counter - 1) as u8, ..self }
        } else {
            SpriteUnit {
                pattern_lo: self.pattern_lo << 1,
                pattern_hi: self.pattern_hi << 1,
                ..self
            }
        }
    }

    pub fn shift(&mut self)
        ensures
            *final(self) == old(self).shifted(),
    {
        if !self.valid {
            return ;
        }
        if self.x_counter > 0 {
            self.x_counter = self.x_counter - 1;
        } else {
            self.pattern_lo = self.pattern_lo << 1;
            self.pattern_hi = self.pattern_hi << 1;
        }
    }
}

/// The first shifter, in slot order from `from`, with an opaque pixel.
pub open spec fn first_opaque(units: Seq<SpriteUnit>, from: int) -> Option<SpriteUnit>
    decreases units.len() - from,
{
    if from < 0 || from >= units.len() {
        None
    } else if units[from].is_opaque() {
        Some(units[from])
    } else {
        first_opaque(units, from + 1)
    }
}

pub open spec fn all_shifted(units: Seq<SpriteUnit>) -> Seq<SpriteUnit> {
    Seq::new(units.len(), |i: int| units[i].shifted())
}

pub open spec fn empty_units() -> Seq<SpriteUnit> {
    Seq::new(8, |i: int| empty_unit())
}

/// The eight active shifters and the eight being filled. Over arrays the
/// shifters themselves, over `Seq` their model.
pub struct SpriteUnits<U = [SpriteUnit; 8]> {
    pub current: U,
    pub next: U,
}

pub type UnitsModel = SpriteUnits<Seq<SpriteUnit>>;

impl View for SpriteUnits<[SpriteUnit; 8]> {
    type V = UnitsModel;

    open spec fn view(&self) -> UnitsModel {
        SpriteUnits { current: self.current@, next: self.next@ }
    }
}

fn no_units() -> (r: [SpriteUnit; 8])
    ensures
        r@ == empty_units(),
{
    let u = SpriteUnit::default();
    let r: [SpriteUnit; 8] = [u, u, u, u, u, u, u, u];
    assert(r@ =~= empty_units());
    r
}

impl SpriteUnits<[SpriteUnit; 8]> {
    pub fn new() -> (r: Self)
        ensures
            r@ == (SpriteUnits { current: empty_units(), next: empty_units() }),
    {
        SpriteUnits { current: no_units(), next: no_units() }
    }

    /// The line's end: the filled shifters become active.
    pub fn swap_in(&mut self)
        ensures
            final(self)@ == (SpriteUnits { current: old(self)@.next, next: empty_units() }),
    {
        self.current = self.next;
        self.next = no_units();
    }

    pub fn shift_all(&mut self)
        ensures
            final(self)@ == (SpriteUnits {
                current: all_shifted(old(self)@.current),
                ..old(self)@
            }),
    {
        let ghost before = self.current@;
        let mut i: usize = 0;
        while i < 8
            invariant
                i <= 8,
                before.len() == 8,
                self.next@ == old(self).next@,
                forall|j: int|
                    0 <= j < 8 ==> #[trigger] self.current@[j] == if j < i {
                        before[j].shifted()
                    } else {
                        before[j]
                    },
            decreases 8 - i,
        {
            let mut unit = self.current[i];
            unit.shift();
            self.current[i] = unit;
            i += 1;
        }
        assert(self.current@ =~= all_shifted(before));
    }

    /// The sprite that shows at this dot.
    pub fn find_opaque(&self) -> (r: Option<SpriteUnit>)
        ensures
            r == first_opaque(self@.current, 0),
            r is Some ==> r->0.pixel() != 0,
    {
        let mut i: usize = 0;
        while i < 8
            invariant
                i <= 8,
                self@.current.len() == 8,
                first_opaque(self@.current, 0) == first_opaque(self@.current, i as int),
            decreases 8 - i,
        {
            let unit = self.current[i];
            if unit.is_opaque() {
                return Some(unit);
            }
            i += 1;
        }
        None
    }

    /// Starts filling a slot.
    pub fn load(&mut self, slot: usize, unit: SpriteUnit)
        requires
            slot < 8,
        ensures
            final(self)@ == (SpriteUnits {
                next: old(self)@.next.update(slot as int, unit),
                ..old(self)@
            }),
    {
        self.next[slot] = unit;
    }

    pub fn duplicate(&self) -> (r: Self)
        ensures
            r@ == self@,
    {
        SpriteUnits { current: self.current, next: self.next }
    }
}

/// A sprite on the line `line` of the picture: its Y is the scanline before it
/// begins, so no sprite reaches line zero.
pub open spec fn covers_line(y: u8, tall: bool, line: int) -> bool {
    line != 0 && y < line && line <= y + if tall {
        16int
    } else {
        8
    }
}

fn is_on_line(y: u8, tall: bool, line: u16) -> (r: bool)
    requires
        line < 1000,
    ensures
        r == covers_line(y, tall, line as int),
{
    let height: u16 = if tall {
        16
    } else {
        8
    };
    line != 0 && line > y as u16 && line <= y as u16 + height
}

/// Secondary OAM and the evaluation that fills it: up to eight sprites, their
/// primary-OAM numbers, and the position `n`, `m` of the scan.
pub struct SpriteEvaluation<A = [u8; 32], B = [u8; 8]> {
    pub secondary_oam: A,
    pub secondary_indices: B,
    pub count: usize,
    pub n: usize,
    pub m: usize,
    pub latch: u8,
}

pub type EvaluationModel = SpriteEvaluation<Seq<u8>, Seq<u8>>;

impl View for SpriteEvaluation<[u8; 32], [u8; 8]> {
    type V = EvaluationModel;

    open spec fn view(&self) -> EvaluationModel {
        SpriteEvaluation {
            secondary_oam: self.secondary_oam@,
            secondary_indices: self.secondary_indices@,
            count: self.count,
            n: self.n,
            m: self.m,
            latch: self.latch,
        }
    }
}

pub open spec fn filled(len: nat) -> Seq<u8> {
    Seq::new(len, |i: int| 0xffu8)
}

impl EvaluationModel {
    pub open spec fn wf(self) -> bool {
        &&& self.secondary_oam.len() == 32
        &&& self.secondary_indices.len() == 8
        &&& self.count <= 8
        &&& self.n <= 64
        &&& self.m < 4
    }

    pub open spec fn initial() -> EvaluationModel {
        SpriteEvaluation {
            secondary_oam: filled(32),
            secondary_indices: filled(8),
            count: 0,
            n: 0,
            m: 0,
            latch: 0xff,
        }
    }

    /// Dots 1-64: secondary OAM is filled with $FF, one byte every other dot.
    pub open spec fn cleared(self, dot: u16) -> EvaluationModel {
        let begun = if dot == 1 {
            SpriteEvaluation { count: 0, secondary_indices: filled(8), n: 0, m: 0, ..self }
        } else {
            self
        };
        if dot % 2 == 0 {
            SpriteEvaluation {
                secondary_oam: self.secondary_oam.update(dot as int / 2 - 1, 0xff),
                ..begun
            }
        } else {
            begun
        }
    }

    /// Odd dots of 65-256: the scanned byte of primary OAM is latched.
    pub open spec fn latched(self, oam: Seq<u8>) -> EvaluationModel {
        SpriteEvaluation { latch: oam[self.n * 4 + self.m], ..self }
    }

    /// What an even dot leaves on the OAM bus: the latched byte, or once
    /// secondary OAM is full its first byte, because the write turns into a
    /// read.
    pub open spec fn write_bus(self) -> u8 {
        if self.count >= 8 {
            self.secondary_oam[0]
        } else {
            self.latch
        }
    }

    /// Whether an even dot sets the overflow flag: once secondary OAM is full,
    /// any scanned byte that looks like a Y on this line does.
    pub open spec fn overflows(self, tall: bool, line: int) -> bool {
        self.count >= 8 && covers_line(self.latch, tall, line)
    }

    /// Even dots of 65-256. While there is room, a sprite on the line is copied
    /// byte by byte and any other skipped at its first byte; once full, the
    /// scan moves on diagonally through primary OAM.
    pub open spec fn evaluated(self, tall: bool, line: int) -> EvaluationModel {
        if self.count >= 8 {
            SpriteEvaluation { m: ((self.m + 1) % 4) as usize, n: (self.n + 1) as usize, ..self }
        } else if self.m == 0 && !covers_line(self.latch, tall, line) {
            SpriteEvaluation { n: (self.n + 1) as usize, ..self }
        } else {
            let copied = SpriteEvaluation {
                secondary_oam: self.secondary_oam.update(self.count * 4 + self.m, self.latch),
                secondary_indices: if self.m == 0 {
                    self.secondary_indices.update(self.count as int, self.n as u8)
                } else {
                    self.secondary_indices
                },
                ..self
            };
            if self.m == 3 {
                SpriteEvaluation {
                    m: 0,
                    n: (self.n + 1) as usize,
                    count: (self.count + 1) as usize,
                    ..copied
                }
            } else {
                SpriteEvaluation { m: (self.m + 1) as usize, ..copied }
            }
        }
    }

    /// What the OAM bus shows at a dot of the fetch phase: the slot's bytes,
    /// the last of them repeated; sprite 63's Y at the start of the first
    /// unused slot; $FF otherwise.
    pub open spec fn fetch_bus(self, oam: Seq<u8>, slot: int, phase: int) -> u8 {
        if slot < self.count {
            self.secondary_oam[slot * 4 + if phase < 4 {
                phase
            } else {
                3
            }]
        } else if slot == self.count && slot < 8 && phase == 0 {
            oam[0xfc]
        } else {
            0xff
        }
    }

    /// Address of a slot's low pattern byte. Empty slots hold $FF; their
    /// fetches still happen, because they clock address-sensitive mappers.
    pub open spec fn pattern_addr(self, slot: int, tall: bool, table: u16, line: int) -> u16 {
        if slot >= self.count {
            if tall {
                0x1ff0
            } else {
                (table + 0x0ff0) as u16
            }
        } else {
            let y = self.secondary_oam[slot * 4];
            let tile = self.secondary_oam[slot * 4 + 1];
            let attr = self.secondary_oam[slot * 4 + 2];
            let height: u16 = if tall {
                16
            } else {
                8
            };
            let down: u16 = if line <= y + 1 {
                0
            } else {
                (line - (y + 1)) as u16
            };
            let row: u16 = if attr & 0x80 != 0 {
                ((height - 1) as u16).wrapping_sub(down)
            } else {
                down
            };
            if tall {
                let half: u8 = (tile / 2 * 2) as u8;
                let piece: u8 = half.wrapping_add((row / 8) as u8);
                (tile as u16 % 2 * 0x1000 + piece as u16 * 16 + row % 8) as u16
            } else {
                ((table + tile as u16 * 16) as u16).wrapping_add(row)
            }
        }
    }

    /// The shifter a slot starts with, before its pattern is fetched.
    pub open spec fn unit_for(self, slot: int) -> SpriteUnit {
        SpriteUnit {
            pattern_lo: 0,
            pattern_hi: 0,
            attributes: self.secondary_oam[slot * 4 + 2],
            x_counter: self.secondary_oam[slot * 4 + 3],
            oam_index: self.secondary_indices[slot],
            valid: true,
        }
    }

    /// Whether a slot's sprite is flipped horizontally.
    pub open spec fn flipped(self, slot: int) -> bool {
        slot < self.count && self.secondary_oam[slot * 4 + 2] & 0x40 != 0
    }
}

fn ff_indices() -> (r: [u8; 8])
    ensures
        r@ == filled(8),
{
    let r: [u8; 8] = [0xff, 0xff, 0xff, 0xff, 0xff, 0xff, 0xff, 0xff];
    assert(r@ =~= filled(8));
    r
}

impl SpriteEvaluation<[u8; 32], [u8; 8]> {
    pub fn new() -> (r: Self)
        ensures
            r@ == EvaluationModel::initial(),
            r@.wf(),
    {
        let secondary_oam: [u8; 32] = [
            0xff, 0xff, 0xff, 0xff, 0xff, 0xff, 0xff, 0xff, 0xff, 0xff, 0xff, 0xff, 0xff, 0xff,
            0xff, 0xff, 0xff, 0xff, 0xff, 0xff, 0xff, 0xff, 0xff, 0xff, 0xff, 0xff, 0xff, 0xff,
            0xff, 0xff, 0xff, 0xff,
        ];
        assert(secondary_oam@ =~= filled(32));
        SpriteEvaluation {
            secondary_oam,
            secondary_indices: ff_indices(),
            count: 0,
            n: 0,
            m: 0,
            latch: 0xff,
        }
    }

    pub fn clear(&mut self, dot: u16)
        requires
            1 <= dot <= 64,
            old(self)@.wf(),
        ensures
            final(self)@ == old(self)@.cleared(dot),
            final(self)@.wf(),
    {
        if dot == 1 {
            self.count = 0;
            self.secondary_indices = ff_indices();
            self.n = 0;
            self.m = 0;
        }
        if dot % 2 == 0 {
            self.secondary_oam[(dot / 2 - 1) as usize] = 0xff;
        }
    }

    /// Latches the scanned byte of primary OAM, which also shows on the bus.
    pub fn latch_byte(&mut self, oam: &Vec<u8>) -> (r: u8)
        requires
            old(self)@.wf(),
            old(self).n < 64,
            oam@.len() == 256,
        ensures
            final(self)@ == old(self)@.latched(oam@),
            r == final(self).latch,
            final(self)@.wf(),
    {
        self.latch = oam[self.n * 4 + self.m];
        self.latch
    }

    pub fn read_write_bus(&self) -> (r: u8)
        ensures
            r == self@.write_bus(),
    {
        if self.count >= 8 {
            self.secondary_oam[0]
        } else {
            self.latch
        }
    }

    /// Evaluates the latched byte; tells whether the overflow flag is set.
    pub fn evaluate(&mut self, tall: bool, line: u16) -> (r: bool)
        requires
            old(self)@.wf(),
            old(self).n < 64,
            line < 1000,
        ensures
            final(self)@ == old(self)@.evaluated(tall, line as int),
            final(self)@.wf(),
            r == old(self)@.overflows(tall, line as int),
    {
        let on_line = is_on_line(self.latch, tall, line);
        if self.count >= 8 {
            // The hardware's broken increment logic tests diagonal bytes from
            // primary OAM as possible Y values.
            self.m = (self.m + 1) % 4;
            self.n = self.n + 1;
            return on_line;
        }
        if self.m == 0 {
            if !on_line {
                self.n = self.n + 1;
                return false;
            }
            self.secondary_indices[self.count] = self.n as u8;
        }
        self.secondary_oam[self.count * 4 + self.m] = self.latch;
        if self.m == 3 {
            self.m = 0;
            self.n = self.n + 1;
            self.count = self.count + 1;
        } else {
            self.m = self.m + 1;
        }
        false
    }

    pub fn read_fetch_bus(&self, oam: &Vec<u8>, slot: usize, phase: u16) -> (r: u8)
        requires
            self@.wf(),
            oam@.len() == 256,
            slot < 8,
        ensures
            r == self@.fetch_bus(oam@, slot as int, phase as int),
    {
        if slot < self.count {
            let byte: usize = if phase < 4 {
                phase as usize
            } else {
                3
            };
            self.secondary_oam[slot * 4 + byte]
        } else if slot == self.count && phase == 0 {
            oam[0xfc]
        } else {
            0xff
        }
    }

    pub fn sprite_pattern_addr(&self, slot: usize, tall: bool, table: u16, line: u16) -> (r: u16)
        requires
            self@.wf(),
            slot < 8,
            table <= 0x1000,
            line < 1000,
        ensures
            r == self@.pattern_addr(slot as int, tall, table, line as int),
    {
        if slot >= self.count {
            return if tall {
                0x1ff0
            } else {
                table + 0x0ff0
            };
        }
        let base: usize = slot * 4;
        let y: u8 = self.secondary_oam[base];
        let tile: u8 = self.secondary_oam[base + 1];
        let attr: u8 = self.secondary_oam[base + 2];
        let height: u16 = if tall {
            16
        } else {
            8
        };
        let down: u16 = line.saturating_sub(y as u16 + 1);
        let row: u16 = if attr & 0x80 != 0 {
            (height - 1).wrapping_sub(down)
        } else {
            down
        };
        if tall {
            let half: u8 = tile / 2 * 2;
            let piece: u8 = half.wrapping_add((row / 8) as u8);
            (tile % 2) as u16 * 0x1000 + piece as u16 * 16 + row % 8
        } else {
            (table + tile as u16 * 16).wrapping_add(row)
        }
    }

    pub fn make_unit(&self, slot: usize) -> (r: SpriteUnit)
        requires
            slot < 8,
        ensures
            r == self@.unit_for(slot as int),
    {
        SpriteUnit {
            pattern_lo: 0,
            pattern_hi: 0,
            attributes: self.secondary_oam[slot * 4 + 2],
            x_counter: self.secondary_oam[slot * 4 + 3],
            oam_index: self.secondary_indices[slot],
            valid: true,
        }
    }

    pub fn is_flipped(&self, slot: usize) -> (r: bool)
        requires
            slot < 8,
        ensures
            r == self@.flipped(slot as int),
    {
        slot < self.count && self.secondary_oam[slot * 4 + 2] & 0x40 != 0
    }

    pub fn duplicate(&self) -> (r: Self)
        ensures
            r@ == self@,
    {
        SpriteEvaluation {
            secondary_oam: self.secondary_oam,
            secondary_indices: self.secondary_indices,
            count: self.count,
            n: self.n,
            m: self.m,
            latch: self.latch,
        }
    }
}

/// A byte with its bits in the opposite order.
pub open spec fn bits_reversed(v: u8) -> u8 {
    ((v & 0x01) << 7) | ((v & 0x02) << 5) | ((v & 0x04) << 3) | ((v & 0x08) << 1) | ((v & 0x10)
        >> 1) | ((v & 0x20) >> 3) | ((v & 0x40) >> 5) | ((v & 0x80) >> 7)
}

pub fn reverse_bits(v: u8) -> (r: u8)
    ensures
        r == bits_reversed(v),
{
    ((v & 0x01) << 7) | ((v & 0x02) << 5) | ((v & 0x04) << 3) | ((v & 0x08) << 1) | ((v & 0x10)
        >> 1) | ((v & 0x20) >> 3) | ((v & 0x40) >> 5) | ((v & 0x80) >> 7)
}

/// Reversing moves bit `i` to bit `7 - i`, and reversing twice changes nothing.
pub proof fn reversal_mirrors_every_bit(v: u8, i: u8)
    requires
        i < 8,
    ensures
        (bits_reversed(v) >> ((7 - i) as u8)) & 1 == (v >> i) & 1,
        bits_reversed(bits_reversed(v)) == v,
{
    let r = bits_reversed(v);
    let j = (7 - i) as u8;
    assert((r >> j) & 1 == (v >> i) & 1) by (bit_vector)
        requires
            i < 8,
            j == 7 - i,
            r == ((v & 0x01) << 7) | ((v & 0x02) << 5) | ((v & 0x04) << 3) | ((v & 0x08) << 1) | ((v
                & 0x10) >> 1) | ((v & 0x20) >> 3) | ((v & 0x40) >> 5) | ((v & 0x80) >> 7),
    ;
    assert(v == ((r & 0x01) << 7) | ((r & 0x02) << 5) | ((r & 0x04) << 3) | ((r & 0x08) << 1) | ((r
        & 0x10) >> 1) | ((r & 0x20) >> 3) | ((r & 0x40) >> 5) | ((r & 0x80) >> 7)) by (bit_vector)
        requires
            r == ((v & 0x01) << 7) | ((v & 0x02) << 5) | ((v & 0x04) << 3) | ((v & 0x08) << 1) | ((v
                & 0x10) >> 1) | ((v & 0x20) >> 3) | ((v & 0x40) >> 5) | ((v & 0x80) >> 7),
    ;
}

/// A line takes eight sprites at most: neither the clear nor a step of the scan
/// selects a ninth, and a step selects no more than one.
pub proof fn a_line_takes_eight_sprites_at_most(
    e: EvaluationModel,
    tall: bool,
    line: int,
    dot: u16,
)
    requires
        e.wf(),
    ensures
        e.cleared(dot).count <= 8,
        e.evaluated(tall, line).count <= 8,
        e.count <= e.evaluated(tall, line).count <= e.count + 1,
        e.count == 8 ==> e.evaluated(tall, line).secondary_oam == e.secondary_oam,
{
}

} // verus!
