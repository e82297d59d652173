//! The processor's registers and what each instruction does to them.

use crate::opcodes::Operation;
use vstd::prelude::*;

verus! {

/// The status register:
///
/// ```text
///  7 6 5 4 3 2 1 0
///  N V _ B D I Z C
/// ```
#[derive(Clone, Copy, Debug, PartialEq, Eq, Structural)]
pub struct CpuFlags {
    pub bits: u8,
}

impl CpuFlags {
    pub const CARRY: u8 = 0b0000_0001;

    pub const ZERO: u8 = 0b0000_0010;

    pub const INTERRUPT_DISABLE: u8 = 0b0000_0100;

    pub const DECIMAL_MODE: u8 = 0b0000_1000;

    pub const BREAK: u8 = 0b0001_0000;

    pub const BREAK2: u8 = 0b0010_0000;

    pub const OVERFLOW: u8 = 0b0100_0000;

    pub const NEGATIV: u8 = 0b1000_0000;

    #[verifier::allow_in_spec]
    pub fn bits(self) -> u8
        returns
            self.bits,
    {
        self.bits
    }

    #[verifier::allow_in_spec]
    pub fn contains(self, mask: u8) -> bool
        returns
            self.bits & mask == mask,
    {
        self.bits & mask == mask
    }

    pub open spec fn with(self, mask: u8, on: bool) -> CpuFlags {
        CpuFlags {
            bits: if on {
                self.bits | mask
            } else {
                self.bits & !mask
            },
        }
    }

    pub fn set(&mut self, mask: u8, on: bool)
        ensures
            *final(self) == old(self).with(mask, on),
    {
        if on {
            self.bits = self.bits | mask;
        } else {
            self.bits = self.bits & !mask;
        }
    }

    pub fn insert(&mut self, mask: u8)
        ensures
            *final(self) == old(self).with(mask, true),
    {
        self.bits = self.bits | mask;
    }

    pub fn remove(&mut self, mask: u8)
        ensures
            *final(self) == old(self).with(mask, false),
    {
        self.bits = self.bits & !mask;
    }
}

/// The stack pointer after power-on and reset.
pub const STACK_RESET: u8 = 0xfd;

/// Status after power-on and reset: interrupts disabled.
pub const STATUS_RESET: u8 = 0b0010_0100;

/// Stands for the fluctuating analog constant that the two unstable
/// accumulator loads mix in; all ones reproduces the commonly captured result.
pub const MAGIC: u8 = 0xff;

#[derive(Clone, Copy, Debug, PartialEq, Eq, Structural)]
pub struct Registers {
    pub register_a: u8,
    pub register_x: u8,
    pub register_y: u8,
    pub status: CpuFlags,
    pub program_counter: u16,
    pub stack_pointer: u8,
}

// ---- What the instructions mean ---------------------------------------------------

impl Registers {
    /// Z and N follow a result.
    pub open spec fn with_zn(self, result: u8) -> Registers {
        Registers {
            status: self.status.with(CpuFlags::ZERO, result == 0).with(
                CpuFlags::NEGATIV,
                result >= 128,
            ),
            ..self
        }
    }

    pub open spec fn with_a(self, value: u8) -> Registers {
        Registers { register_a: value, ..self }.with_zn(value)
    }

    pub open spec fn with_x(self, value: u8) -> Registers {
        Registers { register_x: value, ..self }.with_zn(value)
    }

    pub open spec fn with_y(self, value: u8) -> Registers {
        Registers { register_y: value, ..self }.with_zn(value)
    }

    pub open spec fn with_flag(self, mask: u8, on: bool) -> Registers {
        Registers { status: self.status.with(mask, on), ..self }
    }

    pub open spec fn with_pc(self, program_counter: u16) -> Registers {
        Registers { program_counter, ..self }
    }

    pub open spec fn has(self, mask: u8) -> bool {
        self.status.contains(mask)
    }

    /// A plus `data` plus carry, with C on unsigned and V on signed overflow.
    pub open spec fn added(self, data: u8) -> Registers {
        let sum = self.register_a + data + if self.has(CpuFlags::CARRY) {
            1int
        } else {
            0
        };
        let result = (sum % 256) as u8;
        self.with_flag(CpuFlags::CARRY, sum > 255).with_flag(
            CpuFlags::OVERFLOW,
            (data ^ result) & (result ^ self.register_a) & 0x80 != 0,
        ).with_a(result)
    }

    /// C, Z and N of `register` compared with `data`.
    pub open spec fn compared(self, register: u8, data: u8) -> Registers {
        self.with_flag(CpuFlags::CARRY, data <= register).with_zn(register.wrapping_sub(data))
    }

    /// A, X and the stack pointer all take `value`.
    pub open spec fn with_all(self, value: u8) -> Registers {
        Registers { register_a: value, register_x: value, stack_pointer: value, ..self }.with_zn(
            value,
        )
    }

    pub open spec fn bits_tested(self, data: u8) -> Registers {
        self.with_flag(CpuFlags::ZERO, self.register_a & data == 0).with_flag(
            CpuFlags::NEGATIV,
            data & 0x80 != 0,
        ).with_flag(CpuFlags::OVERFLOW, data & 0x40 != 0)
    }

    /// AND, then rotate right through carry; C and V come from the two high
    /// bits of the result.
    pub open spec fn and_rotated(self, data: u8) -> Registers {
        let value = self.register_a & data;
        let result = (value >> 1) | if self.has(CpuFlags::CARRY) {
            0x80u8
        } else {
            0u8
        };
        self.with_a(result).with_flag(CpuFlags::CARRY, result & 0x40 != 0).with_flag(
            CpuFlags::OVERFLOW,
            (result & 0x40 != 0) != (result & 0x20 != 0),
        )
    }

    /// An instruction that reads a value, applied to the value.
    pub open spec fn read_applied(self, op: Operation, v: u8) -> Registers {
        match op {
            Operation::Lda => self.with_a(v),
            Operation::Ldx => self.with_x(v),
            Operation::Ldy => self.with_y(v),
            Operation::And => self.with_a(v & self.register_a),
            Operation::Eor => self.with_a(v ^ self.register_a),
            Operation::Ora => self.with_a(v | self.register_a),
            Operation::Adc => self.added(v),
            Operation::Sbc => self.added((255 - v) as u8),
            Operation::Cmp => self.compared(self.register_a, v),
            Operation::Cpx => self.compared(self.register_x, v),
            Operation::Cpy => self.compared(self.register_y, v),
            Operation::Bit => self.bits_tested(v),
            Operation::Lax => Registers { register_x: v, ..self.with_a(v) },
            Operation::Las => self.with_all(v & self.stack_pointer),
            Operation::Anc => self.with_a(self.register_a & v).with_flag(
                CpuFlags::CARRY,
                self.register_a & v & 0x80 != 0,
            ),
            Operation::Alr => self.with_flag(
                CpuFlags::CARRY,
                self.register_a & v & 1 != 0,
            ).with_a((self.register_a & v) >> 1),
            Operation::Arr => self.and_rotated(v),
            Operation::Axs => self.with_flag(
                CpuFlags::CARRY,
                self.register_a & self.register_x >= v,
            ).with_x((self.register_a & self.register_x).wrapping_sub(v)),
            Operation::Ane => self.with_a((self.register_a | MAGIC) & self.register_x & v),
            Operation::Lxa => {
                let value = (self.register_a | MAGIC) & v;
                Registers { register_x: value, ..self.with_a(value) }
            },
            _ => self,
        }
    }

    /// What a store instruction stores.
    pub open spec fn stored(self, op: Operation) -> u8 {
        match op {
            Operation::Sta => self.register_a,
            Operation::Stx => self.register_x,
            Operation::Sty => self.register_y,
            _ => self.register_a & self.register_x,
        }
    }

    /// What an unstable store stores, given the high byte of its base plus one.
    pub open spec fn high_stored(self, op: Operation, high: u8) -> u8 {
        match op {
            Operation::Shy => self.register_y & high,
            Operation::Shx => self.register_x & high,
            _ => self.register_a & self.register_x & high,
        }
    }

    /// Carry after shifting, rotating, incrementing or decrementing `data`.
    pub open spec fn carried(self, op: Operation, data: u8) -> Registers {
        match op {
            Operation::Asl | Operation::Rol => self.with_flag(CpuFlags::CARRY, data >= 128),
            Operation::Lsr | Operation::Ror => self.with_flag(CpuFlags::CARRY, data % 2 == 1),
            _ => self,
        }
    }

    /// `data` shifted, rotated, incremented or decremented.
    pub open spec fn modified(self, op: Operation, data: u8) -> u8 {
        let carry = self.has(CpuFlags::CARRY);
        match op {
            Operation::Asl => (data % 128 * 2) as u8,
            Operation::Rol => (data % 128 * 2 + if carry {
                1int
            } else {
                0
            }) as u8,
            Operation::Lsr => (data / 2) as u8,
            Operation::Ror => (data / 2 + if carry {
                128int
            } else {
                0
            }) as u8,
            Operation::Inc => data.wrapping_add(1),
            _ => data.wrapping_sub(1),
        }
    }

    /// What an undocumented instruction does with the value it modified.
    pub open spec fn folded(self, op: Operation, data: u8) -> Registers {
        match op {
            Operation::Slo => self.with_a(self.register_a | data),
            Operation::Rla => self.with_a(self.register_a & data),
            Operation::Sre => self.with_a(self.register_a ^ data),
            Operation::Rra => self.added(data),
            Operation::Dcp => self.compared(self.register_a, data),
            Operation::Isb => self.added((255 - data) as u8),
            _ => self,
        }
    }

    /// The accumulator forms of the shifts.
    pub open spec fn accumulator_modified(self, op: Operation) -> Registers {
        self.carried(op, self.register_a).with_a(self.modified(op, self.register_a))
    }

    /// An instruction that touches nothing but the registers.
    pub open spec fn implied(self, op: Operation) -> Registers {
        match op {
            Operation::AslAccumulator => self.accumulator_modified(Operation::Asl),
            Operation::LsrAccumulator => self.accumulator_modified(Operation::Lsr),
            Operation::RolAccumulator => self.accumulator_modified(Operation::Rol),
            Operation::RorAccumulator => self.accumulator_modified(Operation::Ror),
            Operation::Clc => self.with_flag(CpuFlags::CARRY, false),
            Operation::Sec => self.with_flag(CpuFlags::CARRY, true),
            Operation::Cli => self.with_flag(CpuFlags::INTERRUPT_DISABLE, false),
            Operation::Sei => self.with_flag(CpuFlags::INTERRUPT_DISABLE, true),
            Operation::Clv => self.with_flag(CpuFlags::OVERFLOW, false),
            Operation::Cld => self.with_flag(CpuFlags::DECIMAL_MODE, false),
            Operation::Sed => self.with_flag(CpuFlags::DECIMAL_MODE, true),
            Operation::Tax => self.with_x(self.register_a),
            Operation::Tay => self.with_y(self.register_a),
            Operation::Tsx => self.with_x(self.stack_pointer),
            Operation::Txa => self.with_a(self.register_x),
            Operation::Tya => self.with_a(self.register_y),
            Operation::Txs => Registers { stack_pointer: self.register_x, ..self },
            Operation::Inx => self.with_x(self.register_x.wrapping_add(1)),
            Operation::Iny => self.with_y(self.register_y.wrapping_add(1)),
            Operation::Dex => self.with_x(self.register_x.wrapping_sub(1)),
            Operation::Dey => self.with_y(self.register_y.wrapping_sub(1)),
            // The processor locks up, refetching this opcode forever.
            Operation::Jam => self.with_pc(self.program_counter.wrapping_sub(1)),
            _ => self,
        }
    }

    /// Whether a branch is taken.
    pub open spec fn branch_taken(self, op: Operation) -> bool {
        match op {
            Operation::Bpl => !self.has(CpuFlags::NEGATIV),
            Operation::Bmi => self.has(CpuFlags::NEGATIV),
            Operation::Bvc => !self.has(CpuFlags::OVERFLOW),
            Operation::Bvs => self.has(CpuFlags::OVERFLOW),
            Operation::Bcc => !self.has(CpuFlags::CARRY),
            Operation::Bcs => self.has(CpuFlags::CARRY),
            Operation::Bne => !self.has(CpuFlags::ZERO),
            _ => self.has(CpuFlags::ZERO),
        }
    }

    pub open spec fn power_on() -> Registers {
        Registers {
            register_a: 0,
            register_x: 0,
            register_y: 0,
            status: CpuFlags { bits: STATUS_RESET },
            program_counter: 0x8000,
            stack_pointer: STACK_RESET,
        }
    }
}

/// The plain operation inside an undocumented read-modify-write one.
pub open spec fn plain_part(op: Operation) -> Operation {
    match op {
        Operation::Slo => Operation::Asl,
        Operation::Rla => Operation::Rol,
        Operation::Sre => Operation::Lsr,
        Operation::Rra => Operation::Ror,
        Operation::Dcp => Operation::Dec,
        Operation::Isb => Operation::Inc,
        _ => op,
    }
}

// ---- The instructions themselves ---------------------------------------------------

pub fn plain_operation(op: Operation) -> (r: Operation)
    ensures
        r == plain_part(op),
{
    match op {
        Operation::Slo => Operation::Asl,
        Operation::Rla => Operation::Rol,
        Operation::Sre => Operation::Lsr,
        Operation::Rra => Operation::Ror,
        Operation::Dcp => Operation::Dec,
        Operation::Isb => Operation::Inc,
        _ => op,
    }
}

impl Registers {
    pub fn update_zero_and_negative_flags(&mut self, result: u8)
        ensures
            *final(self) == old(self).with_zn(result),
    {
        self.status.set(CpuFlags::ZERO, result == 0);
        self.status.set(CpuFlags::NEGATIV, result >= 128);
    }

    pub fn set_register_a(&mut self, value: u8)
        ensures
            *final(self) == old(self).with_a(value),
    {
        self.register_a = value;
        self.update_zero_and_negative_flags(value);
    }

    pub fn set_register_x(&mut self, value: u8)
        ensures
            *final(self) == old(self).with_x(value),
    {
        self.register_x = value;
        self.update_zero_and_negative_flags(value);
    }

    pub fn set_register_y(&mut self, value: u8)
        ensures
            *final(self) == old(self).with_y(value),
    {
        self.register_y = value;
        self.update_zero_and_negative_flags(value);
    }

    pub fn add_to_register_a(&mut self, data: u8)
        ensures
            *final(self) == old(self).added(data),
    {
        let carry_in: u16 = if self.status.contains(CpuFlags::CARRY) {
            1
        } else {
            0
        };
        let sum: u16 = self.register_a as u16 + data as u16 + carry_in;
        let result: u8 = (sum % 256) as u8;
        self.status.set(CpuFlags::CARRY, sum > 0xff);
        self.status.set(
            CpuFlags::OVERFLOW,
            (data ^ result) & (result ^ self.register_a) & 0x80 != 0,
        );
        self.set_register_a(result);
    }

    pub fn compare(&mut self, register: u8, data: u8)
        ensures
            *final(self) == old(self).compared(register, data),
    {
        self.status.set(CpuFlags::CARRY, data <= register);
        self.update_zero_and_negative_flags(register.wrapping_sub(data));
    }

    fn bit(&mut self, data: u8)
        ensures
            *final(self) == old(self).bits_tested(data),
    {
        self.status.set(CpuFlags::ZERO, self.register_a & data == 0);
        self.status.set(CpuFlags::NEGATIV, data & 0x80 != 0);
        self.status.set(CpuFlags::OVERFLOW, data & 0x40 != 0);
    }

    fn las(&mut self, data: u8)
        ensures
            *final(self) == old(self).with_all(data & old(self).stack_pointer),
    {
        let value: u8 = data & self.stack_pointer;
        self.register_a = value;
        self.register_x = value;
        self.stack_pointer = value;
        self.update_zero_and_negative_flags(value);
    }

    fn lax(&mut self, data: u8)
        ensures
            *final(self) == (Registers { register_x: data, ..old(self).with_a(data) }),
    {
        self.register_x = data;
        self.set_register_a(data);
    }

    fn anc(&mut self, data: u8)
        ensures
            *final(self) == old(self).read_applied(Operation::Anc, data),
    {
        let value: u8 = self.register_a & data;
        self.set_register_a(value);
        self.status.set(CpuFlags::CARRY, value & 0x80 != 0);
    }

    fn alr(&mut self, data: u8)
        ensures
            *final(self) == old(self).read_applied(Operation::Alr, data),
    {
        let value: u8 = self.register_a & data;
        self.status.set(CpuFlags::CARRY, value & 1 != 0);
        self.set_register_a(value >> 1);
    }

    fn arr(&mut self, data: u8)
        ensures
            *final(self) == old(self).and_rotated(data),
    {
        let value: u8 = self.register_a & data;
        let carry_in: u8 = if self.status.contains(CpuFlags::CARRY) {
            0x80
        } else {
            0
        };
        let result: u8 = (value >> 1) | carry_in;
        self.set_register_a(result);
        self.status.set(CpuFlags::CARRY, result & 0x40 != 0);
        self.status.set(CpuFlags::OVERFLOW, (result & 0x40 != 0) != (result & 0x20 != 0));
    }

    fn axs(&mut self, data: u8)
        ensures
            *final(self) == old(self).read_applied(Operation::Axs, data),
    {
        let base: u8 = self.register_a & self.register_x;
        self.status.set(CpuFlags::CARRY, base >= data);
        self.set_register_x(base.wrapping_sub(data));
    }

    pub fn apply_read(&mut self, op: Operation, v: u8)
        ensures
            *final(self) == old(self).read_applied(op, v),
    {
        match op {
            Operation::Lda => self.set_register_a(v),
            Operation::Ldx => self.set_register_x(v),
            Operation::Ldy => self.set_register_y(v),
            Operation::And => self.set_register_a(v & self.register_a),
            Operation::Eor => self.set_register_a(v ^ self.register_a),
            Operation::Ora => self.set_register_a(v | self.register_a),
            Operation::Adc => self.add_to_register_a(v),
            Operation::Sbc => self.add_to_register_a(255 - v),
            Operation::Cmp => self.compare(self.register_a, v),
            Operation::Cpx => self.compare(self.register_x, v),
            Operation::Cpy => self.compare(self.register_y, v),
            Operation::Bit => self.bit(v),
            Operation::Lax => self.lax(v),
            Operation::Las => self.las(v),
            Operation::Anc => self.anc(v),
            Operation::Alr => self.alr(v),
            Operation::Arr => self.arr(v),
            Operation::Axs => self.axs(v),
            Operation::Ane => self.set_register_a(
                (self.register_a | MAGIC) & self.register_x & v,
            ),
            Operation::Lxa => self.lax((self.register_a | MAGIC) & v),
            _ => (),
        }
    }

    pub fn store_value(&self, op: Operation) -> (r: u8)
        ensures
            r == self.stored(op),
    {
        match op {
            Operation::Sta => self.register_a,
            Operation::Stx => self.register_x,
            Operation::Sty => self.register_y,
            _ => self.register_a & self.register_x,
        }
    }

    pub fn high_store_value(&self, op: Operation, high: u8) -> (r: u8)
        ensures
            r == self.high_stored(op, high),
    {
        match op {
            Operation::Shy => self.register_y & high,
            Operation::Shx => self.register_x & high,
            _ => self.register_a & self.register_x & high,
        }
    }

    /// Sets the carry that `op` leaves behind and gives its result.
    pub fn modify(&mut self, op: Operation, data: u8) -> (r: u8)
        ensures
            *final(self) == old(self).carried(op, data),
            r == old(self).modified(op, data),
    {
        let carry: u8 = if self.status.contains(CpuFlags::CARRY) {
            1
        } else {
            0
        };
        match op {
            Operation::Asl => {
                self.status.set(CpuFlags::CARRY, data >= 128);
                data % 128 * 2
            },
            Operation::Rol => {
                self.status.set(CpuFlags::CARRY, data >= 128);
                data % 128 * 2 + carry
            },
            Operation::Lsr => {
                self.status.set(CpuFlags::CARRY, data % 2 == 1);
                data / 2
            },
            Operation::Ror => {
                self.status.set(CpuFlags::CARRY, data % 2 == 1);
                data / 2 + carry * 128
            },
            Operation::Inc => data.wrapping_add(1),
            _ => data.wrapping_sub(1),
        }
    }

    pub fn fold(&mut self, op: Operation, data: u8)
        ensures
            *final(self) == old(self).folded(op, data),
    {
        match op {
            Operation::Slo => self.set_register_a(self.register_a | data),
            Operation::Rla => self.set_register_a(self.register_a & data),
            Operation::Sre => self.set_register_a(self.register_a ^ data),
            Operation::Rra => self.add_to_register_a(data),
            Operation::Dcp => self.compare(self.register_a, data),
            Operation::Isb => self.add_to_register_a(255 - data),
            _ => (),
        }
    }

    fn modify_accumulator(&mut self, op: Operation)
        ensures
            *final(self) == old(self).accumulator_modified(op),
    {
        let value: u8 = self.modify(op, self.register_a);
        self.set_register_a(value);
    }

    pub fn apply_implied(&mut self, op: Operation)
        ensures
            *final(self) == old(self).implied(op),
    {
        match op {
            Operation::AslAccumulator => self.modify_accumulator(Operation::Asl),
            Operation::LsrAccumulator => self.modify_accumulator(Operation::Lsr),
            Operation::RolAccumulator => self.modify_accumulator(Operation::Rol),
            Operation::RorAccumulator => self.modify_accumulator(Operation::Ror),
            Operation::Clc => self.status.remove(CpuFlags::CARRY),
            Operation::Sec => self.status.insert(CpuFlags::CARRY),
            Operation::Cli => self.status.remove(CpuFlags::INTERRUPT_DISABLE),
            Operation::Sei => self.status.insert(CpuFlags::INTERRUPT_DISABLE),
            Operation::Clv => self.status.remove(CpuFlags::OVERFLOW),
            Operation::Cld => self.status.remove(CpuFlags::DECIMAL_MODE),
            Operation::Sed => self.status.insert(CpuFlags::DECIMAL_MODE),
            Operation::Tax => self.set_register_x(self.register_a),
            Operation::Tay => self.set_register_y(self.register_a),
            Operation::Tsx => self.set_register_x(self.stack_pointer),
            Operation::Txa => self.set_register_a(self.register_x),
            Operation::Tya => self.set_register_a(self.register_y),
            Operation::Txs => {
                self.stack_pointer = self.register_x;
            },
            Operation::Inx => self.set_register_x(self.register_x.wrapping_add(1)),
            Operation::Iny => self.set_register_y(self.register_y.wrapping_add(1)),
            Operation::Dex => self.set_register_x(self.register_x.wrapping_sub(1)),
            Operation::Dey => self.set_register_y(self.register_y.wrapping_sub(1)),
            Operation::Jam => {
                self.program_counter = self.program_counter.wrapping_sub(1);
            },
            _ => (),
        }
    }

    pub fn takes_branch(&self, op: Operation) -> (r: bool)
        ensures
            r == self.branch_taken(op),
    {
        match op {
            Operation::Bpl => !self.status.contains(CpuFlags::NEGATIV),
            Operation::Bmi => self.status.contains(CpuFlags::NEGATIV),
            Operation::Bvc => !self.status.contains(CpuFlags::OVERFLOW),
            Operation::Bvs => self.status.contains(CpuFlags::OVERFLOW),
            Operation::Bcc => !self.status.contains(CpuFlags::CARRY),
            Operation::Bcs => self.status.contains(CpuFlags::CARRY),
            Operation::Bne => !self.status.contains(CpuFlags::ZERO),
            _ => self.status.contains(CpuFlags::ZERO),
        }
    }
}

} // verus!
