//! The regularities of the instruction table. An opcode is a row (its top three
//! bits), a column (the next three) and a block (the low two): the block and
//! the row say what it does, the block and the column where its operand is.

use crate::cpu::model::{kind_of, Kind};
use crate::opcodes::{opcode_of, AddressingMode, Operation};
use vstd::prelude::*;

verus! {

/// The documented columns of addressing: with X, or with Y where the row
/// indexes by Y.
pub open spec fn column_mode(column: int, by_y: bool) -> AddressingMode {
    if column == 0 {
        AddressingMode::Indirect_X
    } else if column == 1 {
        AddressingMode::ZeroPage
    } else if column == 2 {
        AddressingMode::Immediate
    } else if column == 3 {
        AddressingMode::Absolute
    } else if column == 4 {
        AddressingMode::Indirect_Y
    } else if column == 5 {
        if by_y {
            AddressingMode::ZeroPage_Y
        } else {
            AddressingMode::ZeroPage_X
        }
    } else if column == 6 {
        AddressingMode::Absolute_Y
    } else {
        if by_y {
            AddressingMode::Absolute_Y
        } else {
            AddressingMode::Absolute_X
        }
    }
}

/// One of eight, by the row.
pub open spec fn by_row(
    row: int,
    a: Operation,
    b: Operation,
    c: Operation,
    d: Operation,
    e: Operation,
    f: Operation,
    g: Operation,
    h: Operation,
) -> Operation {
    if row == 0 {
        a
    } else if row == 1 {
        b
    } else if row == 2 {
        c
    } else if row == 3 {
        d
    } else if row == 4 {
        e
    } else if row == 5 {
        f
    } else if row == 6 {
        g
    } else {
        h
    }
}

/// The accumulator block: eight operations in all eight addressing modes. The
/// store to an immediate alone does not exist.
#[verifier::rlimit(100)]
#[verifier::spinoff_prover]
pub proof fn the_accumulator_block(code: u8)
    requires
        code % 4 == 1,
    ensures
        opcode_of(code).mode == column_mode(code as int / 4 % 8, false),
        code == 0x89 ==> opcode_of(code).operation == Operation::NopRead,
        code != 0x89 ==> opcode_of(code).operation == by_row(
            code as int / 32,
            Operation::Ora,
            Operation::And,
            Operation::Eor,
            Operation::Adc,
            Operation::Sta,
            Operation::Lda,
            Operation::Cmp,
            Operation::Sbc,
        ),
{
    reveal(opcode_of);
}

/// The shift block: shifts, moves of X and counts on memory in the odd columns,
/// the rows of X indexing by Y. The store that would index by Y is the unstable
/// one.
#[verifier::rlimit(100)]
#[verifier::spinoff_prover]
pub proof fn the_shift_block(code: u8)
    requires
        code % 8 == 6,
    ensures
        opcode_of(code).mode == column_mode(code as int / 4 % 8, code as int / 64 == 2),
        code == 0x9e ==> opcode_of(code).operation == Operation::Shx,
        code != 0x9e ==> opcode_of(code).operation == by_row(
            code as int / 32,
            Operation::Asl,
            Operation::Rol,
            Operation::Lsr,
            Operation::Ror,
            Operation::Stx,
            Operation::Ldx,
            Operation::Dec,
            Operation::Inc,
        ),
{
    reveal(opcode_of);
}

/// The even columns of the shift block: accumulator shifts and moves of X in
/// one, moves of the stack pointer in another, and lock-ups in the rest, but
/// for the one immediate load and four reads without effect.
#[verifier::rlimit(100)]
#[verifier::spinoff_prover]
pub proof fn the_implied_shift_columns(code: u8)
    requires
        code % 8 == 2,
    ensures
        code % 32 == 10 ==> opcode_of(code).operation == by_row(
            code as int / 32,
            Operation::AslAccumulator,
            Operation::RolAccumulator,
            Operation::LsrAccumulator,
            Operation::RorAccumulator,
            Operation::Txa,
            Operation::Tax,
            Operation::Dex,
            Operation::Nop,
        ),
        code % 32 == 26 ==> opcode_of(code).operation == by_row(
            code as int / 32,
            Operation::Nop,
            Operation::Nop,
            Operation::Nop,
            Operation::Nop,
            Operation::Txs,
            Operation::Tsx,
            Operation::Nop,
            Operation::Nop,
        ),
        code % 32 == 2 && code >= 0x80 ==> opcode_of(code).operation == if code == 0xa2 {
            Operation::Ldx
        } else {
            Operation::NopRead
        } && opcode_of(code).mode == AddressingMode::Immediate,
        code % 32 == 18 || (code % 32 == 2 && code < 0x80) ==> opcode_of(code).operation
            == Operation::Jam,
        !(code % 32 == 2 && code >= 0x80) ==> opcode_of(code).mode
            == AddressingMode::NoneAddressing,
{
    reveal(opcode_of);
}

/// The undocumented block does what the shift block and the accumulator block
/// do together, in the latter's columns; its immediate column is its own.
#[verifier::rlimit(100)]
#[verifier::spinoff_prover]
pub proof fn the_combined_block(code: u8)
    requires
        code % 4 == 3,
    ensures
        opcode_of(code).mode == column_mode(code as int / 4 % 8, code as int / 64 == 2),
        code % 32 == 11 ==> opcode_of(code).operation == by_row(
            code as int / 32,
            Operation::Anc,
            Operation::Anc,
            Operation::Alr,
            Operation::Arr,
            Operation::Ane,
            Operation::Lxa,
            Operation::Axs,
            Operation::Sbc,
        ),
        code == 0x93 || code == 0x9f ==> opcode_of(code).operation == Operation::Sha,
        code == 0x9b ==> opcode_of(code).operation == Operation::Tas,
        code == 0xbb ==> opcode_of(code).operation == Operation::Las,
        code % 32 != 11 && code != 0x93 && code != 0x9f && code != 0x9b && code != 0xbb
            ==> opcode_of(code).operation == by_row(
            code as int / 32,
            Operation::Slo,
            Operation::Rla,
            Operation::Sre,
            Operation::Rra,
            Operation::Sax,
            Operation::Lax,
            Operation::Dcp,
            Operation::Isb,
        ),
{
    reveal(opcode_of);
}

/// The even columns of the control block: the stack and Y, the branches, and
/// the flags.
#[verifier::rlimit(100)]
#[verifier::spinoff_prover]
pub proof fn the_implied_control_columns(code: u8)
    requires
        code % 32 == 8 || code % 32 == 16 || code % 32 == 24,
    ensures
        opcode_of(code).mode == AddressingMode::NoneAddressing,
        code % 32 == 8 ==> opcode_of(code).operation == by_row(
            code as int / 32,
            Operation::Php,
            Operation::Plp,
            Operation::Pha,
            Operation::Pla,
            Operation::Dey,
            Operation::Tay,
            Operation::Iny,
            Operation::Inx,
        ),
        code % 32 == 16 ==> opcode_of(code).operation == by_row(
            code as int / 32,
            Operation::Bpl,
            Operation::Bmi,
            Operation::Bvc,
            Operation::Bvs,
            Operation::Bcc,
            Operation::Bcs,
            Operation::Bne,
            Operation::Beq,
        ),
        code % 32 == 24 ==> opcode_of(code).operation == by_row(
            code as int / 32,
            Operation::Clc,
            Operation::Sec,
            Operation::Cli,
            Operation::Sei,
            Operation::Tya,
            Operation::Clv,
            Operation::Cld,
            Operation::Sed,
        ),
{
    reveal(opcode_of);
}

/// The first column of the control block: jumps and returns in its upper half,
/// immediates of Y and X in its lower one.
#[verifier::rlimit(100)]
#[verifier::spinoff_prover]
pub proof fn the_first_control_column(code: u8)
    requires
        code % 32 == 0,
    ensures
        opcode_of(code).operation == by_row(
            code as int / 32,
            Operation::Brk,
            Operation::Jsr,
            Operation::Rti,
            Operation::Rts,
            Operation::NopRead,
            Operation::Ldy,
            Operation::Cpy,
            Operation::Cpx,
        ),
        opcode_of(code).mode == if code < 0x80 {
            AddressingMode::NoneAddressing
        } else {
            AddressingMode::Immediate
        },
{
    reveal(opcode_of);
}

/// The odd columns of the control block: bit tests, jumps, moves and
/// comparisons of Y and X. Indexed they are reads without effect, but for the
/// moves of Y, whose long store is an unstable one.
#[verifier::rlimit(100)]
#[verifier::spinoff_prover]
pub proof fn the_odd_control_columns(code: u8)
    requires
        code % 8 == 4,
    ensures
        code == 0x4c ==> opcode_of(code).operation == Operation::JmpAbsolute,
        code == 0x6c ==> opcode_of(code).operation == Operation::JmpIndirect,
        code == 0x9c ==> opcode_of(code).operation == Operation::Shy,
        code == 0x4c || code == 0x6c ==> opcode_of(code).mode == AddressingMode::NoneAddressing,
        code != 0x4c && code != 0x6c ==> opcode_of(code).mode == column_mode(
            code as int / 4 % 8,
            false,
        ),
        code % 32 < 16 && code != 0x4c && code != 0x6c ==> opcode_of(code).operation == by_row(
            code as int / 32,
            Operation::NopRead,
            Operation::Bit,
            Operation::NopRead,
            Operation::NopRead,
            Operation::Sty,
            Operation::Ldy,
            Operation::Cpy,
            Operation::Cpx,
        ),
        code % 32 >= 16 && code != 0x9c ==> opcode_of(code).operation == by_row(
            code as int / 32,
            Operation::NopRead,
            Operation::NopRead,
            Operation::NopRead,
            Operation::NopRead,
            Operation::Sty,
            Operation::Ldy,
            Operation::NopRead,
            Operation::NopRead,
        ),
{
    reveal(opcode_of);
}

/// How many bytes an operand takes.
pub open spec fn operand_bytes(operation: Operation, mode: AddressingMode) -> int {
    match mode {
        AddressingMode::Absolute | AddressingMode::Absolute_X | AddressingMode::Absolute_Y => 2,
        AddressingMode::NoneAddressing => match operation {
            Operation::JmpAbsolute | Operation::JmpIndirect | Operation::Jsr => 2,
            _ => if kind_of(operation) == Kind::Branch {
                1
            } else {
                0
            },
        },
        _ => 1,
    }
}

/// An instruction is its opcode and its operand.
#[verifier::rlimit(100)]
#[verifier::spinoff_prover]
pub proof fn an_instruction_is_opcode_and_operand(code: u8)
    ensures
        opcode_of(code).len == 1 + operand_bytes(opcode_of(code).operation, opcode_of(code).mode),
{
    reveal(opcode_of);
}

/// The cycles an addressing mode spends before the operand itself, indexing
/// without a page cross.
pub open spec fn address_cycles(mode: AddressingMode) -> int {
    match mode {
        AddressingMode::Immediate | AddressingMode::NoneAddressing => 0,
        AddressingMode::ZeroPage => 1,
        AddressingMode::ZeroPage_X | AddressingMode::ZeroPage_Y | AddressingMode::Absolute
        | AddressingMode::Absolute_X | AddressingMode::Absolute_Y => 2,
        AddressingMode::Indirect_Y => 3,
        AddressingMode::Indirect_X => 4,
    }
}

/// The cycle that a store or a modification always spends on the carry of an
/// index.
pub open spec fn carry_cycle(mode: AddressingMode) -> int {
    match mode {
        AddressingMode::Absolute_X | AddressingMode::Absolute_Y | AddressingMode::Indirect_Y => 1,
        _ => 0,
    }
}

/// The cycles of an instruction: one for the opcode, those of its address, and
/// one for a read or a store but three for a modification.
#[verifier::rlimit(100)]
#[verifier::spinoff_prover]
pub proof fn cycles_follow_from_the_address(code: u8)
    ensures
        ({
            let entry = opcode_of(code);
            let kind = kind_of(entry.operation);
            let mode = entry.mode;
            &&& kind == Kind::Read ==> entry.cycles == 2 + address_cycles(mode)
            &&& kind == Kind::Store || kind == Kind::HighStore ==> entry.cycles == 2
                + address_cycles(mode) + carry_cycle(mode)
            &&& kind == Kind::Modify ==> entry.cycles == 4 + address_cycles(mode) + carry_cycle(
                mode,
            )
            &&& kind == Kind::Branch ==> entry.cycles == 2
            &&& entry.operation == Operation::Pha || entry.operation == Operation::Php
                ==> entry.cycles == 3
            &&& entry.operation == Operation::Pla || entry.operation == Operation::Plp
                ==> entry.cycles == 4
            &&& entry.operation == Operation::JmpAbsolute ==> entry.cycles == 3
            &&& entry.operation == Operation::JmpIndirect ==> entry.cycles == 5
            &&& entry.operation == Operation::Jsr || entry.operation == Operation::Rts
                || entry.operation == Operation::Rti ==> entry.cycles == 6
            &&& entry.operation == Operation::Brk ==> entry.cycles == 7
            &&& kind == Kind::Implied && entry.operation != Operation::Brk ==> entry.cycles == 2
        }),
{
    reveal(opcode_of);
}

} // verus!
