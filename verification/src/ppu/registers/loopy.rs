//! The PPU's shared scrolling/addressing state (usually called the "loopy"
//! registers). $2000, $2005 and $2006 all feed the temporary address `t`; the
//! renderer walks the current address `v` and uses `x` as the fine-X offset.
//! Both addresses are laid out as yyy NN YYYYY XXXXX: fine Y, nametable,
//! coarse Y and coarse X.

use vstd::prelude::*;

verus! {

#[derive(Clone, Copy, Debug, PartialEq, Eq, Structural)]
pub struct LoopyRegister {
    pub v: u16,
    pub t: u16,
    pub x: u8,
    pub write_latch: bool,
}

/// The address one tile to the right: column 31 wraps to column 0 of the
/// horizontally adjacent nametable.
pub open spec fn x_incremented(v: u16) -> u16 {
    if v & 0x001f == 31 {
        (v & !0x001fu16) ^ 0x0400
    } else {
        v.wrapping_add(1)
    }
}

/// The address one pixel row down: fine Y carries into coarse Y, and row 29
/// carries into the vertically adjacent nametable. Rows 30 and 31 lie in the
/// attribute table, and row 31 wraps without switching.
pub open spec fn y_incremented(v: u16) -> u16 {
    if v & 0x7000 != 0x7000 {
        v.wrapping_add(0x1000)
    } else {
        let top = v & !0x7000u16;
        let coarse_y = (top & 0x03e0) >> 5;
        if coarse_y == 29 {
            (top ^ 0x0800) & !0x03e0u16
        } else if coarse_y == 31 {
            top & !0x03e0u16
        } else {
            (top & !0x03e0u16) | ((coarse_y.wrapping_add(1)) << 5)
        }
    }
}

impl LoopyRegister {
    /// Fine X has three bits.
    pub open spec fn wf(self) -> bool {
        self.x < 8
    }

    pub open spec fn initial() -> LoopyRegister {
        LoopyRegister { v: 0, t: 0, x: 0, write_latch: false }
    }

    pub open spec fn ctrl_written(self, value: u8) -> LoopyRegister {
        LoopyRegister { t: (self.t & !0x0c00u16) | (((value as u16) & 0x03) << 10), ..self }
    }

    pub open spec fn scroll_written(self, value: u8) -> LoopyRegister {
        if !self.write_latch {
            LoopyRegister {
                t: (self.t & !0x001fu16) | ((value as u16) >> 3),
                x: value % 8,
                write_latch: true,
                ..self
            }
        } else {
            LoopyRegister {
                t: (self.t & !0x73e0u16) | (((value as u16) & 0x07) << 12) | (((value as u16)
                    & 0xf8) << 2),
                write_latch: false,
                ..self
            }
        }
    }

    pub open spec fn addr_written(self, value: u8) -> LoopyRegister {
        if !self.write_latch {
            LoopyRegister {
                t: (self.t & 0x00ff) | (((value as u16) & 0x3f) << 8),
                write_latch: true,
                ..self
            }
        } else {
            let t = (self.t & 0x7f00) | value as u16;
            LoopyRegister { t, v: t, write_latch: false, ..self }
        }
    }

    pub open spec fn incremented(self, amount: u8) -> LoopyRegister {
        LoopyRegister { v: self.v.wrapping_add(amount as u16) & 0x3fff, ..self }
    }

    pub open spec fn horizontal_copied(self) -> LoopyRegister {
        LoopyRegister { v: (self.v & !0x041fu16) | (self.t & 0x041f), ..self }
    }

    pub open spec fn vertical_copied(self) -> LoopyRegister {
        LoopyRegister { v: (self.v & !0x7be0u16) | (self.t & 0x7be0), ..self }
    }

    pub fn new() -> (r: Self)
        ensures
            r == LoopyRegister::initial(),
            r.wf(),
    {
        LoopyRegister { v: 0, t: 0, x: 0, write_latch: false }
    }

    #[verifier::allow_in_spec]
    pub fn current(&self) -> u16
        returns
            self.v,
    {
        self.v
    }

    #[verifier::allow_in_spec]
    pub fn fine_x(&self) -> u8
        returns
            self.x,
    {
        self.x
    }

    pub fn write_ctrl(&mut self, value: u8)
        ensures
            *final(self) == old(self).ctrl_written(value),
    {
        self.t = (self.t & !0x0c00u16) | (((value as u16) & 0x03) << 10);
    }

    pub fn write_scroll(&mut self, value: u8)
        ensures
            *final(self) == old(self).scroll_written(value),
            old(self).wf() ==> final(self).wf(),
    {
        if !self.write_latch {
            self.t = (self.t & !0x001fu16) | ((value as u16) >> 3);
            self.x = value % 8;
        } else {
            self.t = (self.t & !0x73e0u16) | (((value as u16) & 0x07) << 12) | (((value as u16)
                & 0xf8) << 2);
        }
        self.write_latch = !self.write_latch;
    }

    /// Apply one $2006 write. Returns true when the low-byte write completed
    /// the address and copied `t` to the PPU's current address bus value `v`.
    pub fn write_addr(&mut self, value: u8) -> (r: bool)
        ensures
            *final(self) == old(self).addr_written(value),
            r == old(self).write_latch,
    {
        let completed = self.write_latch;
        if !self.write_latch {
            self.t = (self.t & 0x00ff) | (((value as u16) & 0x3f) << 8);
        } else {
            self.t = (self.t & 0x7f00) | value as u16;
            self.v = self.t;
        }
        self.write_latch = !self.write_latch;
        completed
    }

    pub fn increment(&mut self, amount: u8)
        ensures
            *final(self) == old(self).incremented(amount),
    {
        self.v = self.v.wrapping_add(amount as u16) & 0x3fff;
    }

    pub fn reset_latch(&mut self)
        ensures
            *final(self) == (LoopyRegister { write_latch: false, ..*old(self) }),
    {
        self.write_latch = false;
    }

    /// End-of-scanline vertical increment, including the nametable toggle at
    /// coarse Y 29.
    pub fn increment_y(&mut self)
        ensures
            *final(self) == (LoopyRegister { v: y_incremented(old(self).v), ..*old(self) }),
    {
        if self.v & 0x7000 != 0x7000 {
            self.v = self.v.wrapping_add(0x1000);
            return ;
        }
        let top: u16 = self.v & !0x7000u16;
        let coarse_y: u16 = (top & 0x03e0) >> 5;
        self.v = match coarse_y {
            29 => (top ^ 0x0800) & !0x03e0u16,
            31 => top & !0x03e0u16,
            _ => (top & !0x03e0u16) | (coarse_y.wrapping_add(1) << 5),
        };
    }

    /// The fetch pipeline advances coarse X after every tile. Wrapping column
    /// 31 also selects the horizontally adjacent logical nametable.
    pub fn increment_x(&mut self)
        ensures
            *final(self) == (LoopyRegister { v: x_incremented(old(self).v), ..*old(self) }),
    {
        if self.v & 0x001f == 31 {
            self.v = (self.v & !0x001fu16) ^ 0x0400;
        } else {
            self.v = self.v.wrapping_add(1);
        }
    }

    /// Horizontal bits are reloaded from `t` at the end of every rendered line.
    pub fn copy_horizontal(&mut self)
        ensures
            *final(self) == old(self).horizontal_copied(),
    {
        self.v = (self.v & !0x041fu16) | (self.t & 0x041f);
    }

    /// Vertical bits are reloaded from `t` during the pre-render line.
    pub fn copy_vertical(&mut self)
        ensures
            *final(self) == old(self).vertical_copied(),
    {
        self.v = (self.v & !0x7be0u16) | (self.t & 0x7be0);
    }

    /// Both reloads at once.
    pub fn copy_all_for_test(&mut self)
        ensures
            *final(self) == old(self).horizontal_copied().vertical_copied(),
    {
        self.copy_horizontal();
        self.copy_vertical();
    }
}

/// The horizontal and the vertical reload together move all of `t` into `v`.
pub proof fn both_reloads_copy_the_whole_address(r: LoopyRegister)
    requires
        r.v < 0x8000,
        r.t < 0x8000,
    ensures
        r.horizontal_copied().vertical_copied().v == r.t,
{
    let v = r.v;
    let t = r.t;
    assert(v < 0x8000 && t < 0x8000 ==> (((v & !0x041fu16) | (t & 0x041f)) & !0x7be0u16) | (t
        & 0x7be0) == t) by (bit_vector);
}

/// Two scroll writes from a clear latch place the offsets: coarse X and fine X
/// from the first, coarse Y and fine Y from the second; the nametable bits of
/// `t` are untouched.
pub proof fn scroll_writes_place_both_offsets(r: LoopyRegister, across: u8, down: u8)
    requires
        !r.write_latch,
    ensures
        ({
            let done = r.scroll_written(across).scroll_written(down);
            &&& done.t & 0x001f == across as u16 / 8
            &&& done.x == across % 8
            &&& (done.t >> 5) & 0x1f == down as u16 / 8
            &&& (done.t >> 12) & 7 == down as u16 % 8
            &&& done.t & 0x0c00 == r.t & 0x0c00
            &&& !done.write_latch
            &&& done.v == r.v
        }),
{
    let t = r.t;
    let a = across as u16;
    let d = down as u16;
    let t1 = (t & !0x001fu16) | (a >> 3);
    let t2 = (t1 & !0x73e0u16) | ((d & 0x07) << 12) | ((d & 0xf8) << 2);
    assert(t2 & 0x001f == a / 8 && (t2 >> 5) & 0x1f == d / 8 && (t2 >> 12) & 7 == d % 8 && t2
        & 0x0c00 == t & 0x0c00) by (bit_vector)
        requires
            a < 256,
            d < 256,
            t1 == (t & !0x001fu16) | (a >> 3),
            t2 == (t1 & !0x73e0u16) | ((d & 0x07) << 12) | ((d & 0xf8) << 2),
    ;
}

/// Two address writes from a clear latch load the 14-bit address.
pub proof fn address_writes_load_the_address(r: LoopyRegister, high: u8, low: u8)
    requires
        !r.write_latch,
    ensures
        r.addr_written(high).addr_written(low).v == (high as u16 % 64) * 256 + low,
        !r.addr_written(high).addr_written(low).write_latch,
{
    let t = r.t;
    let h = high as u16;
    let l = low as u16;
    let t1 = (t & 0x00ff) | ((h & 0x3f) << 8);
    assert((t1 & 0x7f00) | l == (h % 64) * 256 + l) by (bit_vector)
        requires
            h < 256,
            l < 256,
            t1 == (t & 0x00ff) | ((h & 0x3f) << 8),
    ;
}

/// Stepping right past column 31 returns to column 0 and toggles only the
/// horizontal nametable bit; any other step changes the column alone.
pub proof fn stepping_right_wraps_into_the_next_nametable(v: u16)
    ensures
        v & 0x1f == 31 ==> x_incremented(v) & 0x1f == 0 && x_incremented(v) & !0x1fu16 == (v
            & !0x1fu16) ^ 0x0400,
        v & 0x1f != 31 ==> x_incremented(v) & 0x1f == (v & 0x1f) + 1 && x_incremented(v)
            & !0x1fu16 == v & !0x1fu16,
{
    assert(v & 0x1f == 31 ==> ((v & !0x1fu16) ^ 0x0400) & 0x1f == 0 && ((v & !0x1fu16) ^ 0x0400)
        & !0x1fu16 == (v & !0x1fu16) ^ 0x0400) by (bit_vector);
    assert(v & 0x1f != 31 ==> v < 0xffff && ((v + 1) as u16) & 0x1f == (v & 0x1f) + 1 && ((v + 1)
        as u16) & !0x1fu16 == v & !0x1fu16) by (bit_vector);
}

/// The column that an address points at, of the 64 of two nametables side by
/// side.
pub open spec fn column_of(v: u16) -> u16 {
    ((v & 0x001f) + ((v >> 10) & 1) * 32) as u16
}

/// The pixel row that an address points at, of the 480 of two nametables one
/// below the other. Rows 30 and 31 of tiles are the attribute table's.
pub open spec fn row_of(v: u16) -> u16 {
    (((v >> 12) & 7) + ((v >> 5) & 0x1f) * 8 + ((v >> 11) & 1) * 240) as u16
}

/// Whether an address points at a row of the picture.
pub open spec fn on_a_picture_row(v: u16) -> bool {
    (v >> 5) & 0x1f < 30
}

/// The address `n` tiles to the right.
pub open spec fn columns_right(v: u16, n: nat) -> u16
    decreases n,
{
    if n == 0 {
        v
    } else {
        x_incremented(columns_right(v, (n - 1) as nat))
    }
}

/// The address `n` pixel rows down.
pub open spec fn rows_down(v: u16, n: nat) -> u16
    decreases n,
{
    if n == 0 {
        v
    } else {
        y_incremented(rows_down(v, (n - 1) as nat))
    }
}

proof fn lemma_a_step_right(v: u16)
    ensures
        column_of(v) < 64,
        column_of(x_incremented(v)) == (column_of(v) + 1) % 64,
        x_incremented(v) & !0x041fu16 == v & !0x041fu16,
{
    let next: u16 = x_incremented(v);
    assert(column_of(v) < 64 && column_of(next) == (column_of(v) + 1) % 64 && next & !0x041fu16
        == v & !0x041fu16) by (bit_vector)
        requires
            v & 0x001f == 31 ==> next == (v & !0x001fu16) ^ 0x0400,
            v & 0x001f != 31 ==> next == v + 1 || v == 0xffff,
    ;
}

proof fn lemma_a_step_down(v: u16)
    requires
        on_a_picture_row(v),
    ensures
        row_of(v) < 480,
        row_of(y_incremented(v)) == (row_of(v) + 1) % 480,
        on_a_picture_row(y_incremented(v)),
        y_incremented(v) & !0x7be0u16 == v & !0x7be0u16,
{
    let next: u16 = y_incremented(v);
    let top: u16 = v & !0x7000u16;
    let coarse: u16 = (top & 0x03e0) >> 5;
    let more: u16 = coarse.wrapping_add(1);
    assert(row_of(v) < 480 && row_of(next) == (row_of(v) + 1) % 480 && on_a_picture_row(next)
        && next & !0x7be0u16 == v & !0x7be0u16) by (bit_vector)
        requires
            on_a_picture_row(v),
            top == v & !0x7000u16,
            coarse == (top & 0x03e0) >> 5,
            more == coarse + 1 || coarse == 0xffff,
            v & 0x7000 != 0x7000 ==> next == v + 0x1000 || v + 0x1000 > 0xffff,
            v & 0x7000 == 0x7000 && coarse == 29 ==> next == (top ^ 0x0800) & !0x03e0u16,
            v & 0x7000 == 0x7000 && coarse < 29 ==> next == (top & !0x03e0u16) | (more << 5),
    ;
}

/// Steps to the right walk the 64 columns of two nametables in turn and change
/// nothing else of the address.
pub proof fn steps_right_walk_64_columns(v: u16, n: nat)
    ensures
        column_of(v) < 64,
        column_of(columns_right(v, n)) == (column_of(v) + n) % 64,
        columns_right(v, n) & !0x041fu16 == v & !0x041fu16,
    decreases n,
{
    lemma_a_step_right(v);
    if n > 0 {
        steps_right_walk_64_columns(v, (n - 1) as nat);
        lemma_a_step_right(columns_right(v, (n - 1) as nat));
    }
}

/// Steps down from a row of the picture walk the 480 rows of two nametables in
/// turn and change nothing else of the address.
pub proof fn steps_down_walk_480_rows(v: u16, n: nat)
    requires
        on_a_picture_row(v),
    ensures
        row_of(v) < 480,
        row_of(rows_down(v, n)) == (row_of(v) + n) % 480,
        on_a_picture_row(rows_down(v, n)),
        rows_down(v, n) & !0x7be0u16 == v & !0x7be0u16,
    decreases n,
{
    lemma_a_step_down(v);
    if n > 0 {
        steps_down_walk_480_rows(v, (n - 1) as nat);
        lemma_a_step_down(rows_down(v, (n - 1) as nat));
    }
}

/// After 32 columns the address is in the same place of the nametable beside,
/// after 64 it is back; likewise after 240 and 480 rows of the picture, for the
/// nametable below.
pub proof fn scrolling_on_comes_round(v: u16)
    ensures
        columns_right(v, 32) == v ^ 0x0400,
        columns_right(v, 64) == v,
        on_a_picture_row(v) ==> rows_down(v, 240) == v ^ 0x0800,
        on_a_picture_row(v) ==> rows_down(v, 480) == v,
{
    steps_right_walk_64_columns(v, 32);
    steps_right_walk_64_columns(v, 64);
    lemma_place_of_column(v, columns_right(v, 32), columns_right(v, 64));
    if on_a_picture_row(v) {
        steps_down_walk_480_rows(v, 240);
        steps_down_walk_480_rows(v, 480);
        lemma_place_of_row(v, rows_down(v, 240), rows_down(v, 480));
    }
}

proof fn lemma_place_of_column(v: u16, half: u16, whole: u16)
    by (bit_vector)
    requires
        half & !0x041fu16 == v & !0x041fu16,
        whole & !0x041fu16 == v & !0x041fu16,
        column_of(half) == (column_of(v) + 32) % 64,
        column_of(whole) == (column_of(v) + 64) % 64,
    ensures
        half == v ^ 0x0400,
        whole == v,
{
}

proof fn lemma_place_of_row(v: u16, half: u16, whole: u16)
    by (bit_vector)
    requires
        half & !0x7be0u16 == v & !0x7be0u16,
        whole & !0x7be0u16 == v & !0x7be0u16,
        on_a_picture_row(v),
        on_a_picture_row(half),
        on_a_picture_row(whole),
        row_of(half) == (row_of(v) + 240) % 480,
        row_of(whole) == (row_of(v) + 480) % 480,
    ensures
        half == v ^ 0x0800,
        whole == v,
{
}

} // verus!
